//! A test-double kernel: the privileged side of the trap boundary, made
//! explicit so that the trap layer's contracts can be stated and checked
//! against it.
//!
//! The kernel holds the set of installed driver ids, the subscription table
//! (at most one callback per `(driver, slot)` pair), a mailbox of pending
//! events raised by the simulated interrupt source, and a log of every
//! invocation it has received at a trap boundary, exactly as it arrived in
//! the argument registers.

use vstd::prelude::*;

verus! {

/// One live subscription: the kernel will deliver events at
/// `(driver, slot)` to callback `callback` with context word `data`.
///
/// A callback is an opaque code address and `data` an opaque context
/// address; the kernel never interprets either, it only hands them back.
/// Both are therefore plain machine words here.
#[derive(Clone, Copy, PartialEq, Eq, Structural, Debug)]
pub struct SubEntry {
    pub driver: usize,
    pub slot: usize,
    pub callback: usize,
    pub data: usize,
}

/// One pending asynchronous event: the source `(driver, slot)` and the
/// three payload words the callback will receive.
#[derive(Clone, Copy, PartialEq, Eq, Structural, Debug)]
pub struct Event {
    pub driver: usize,
    pub slot: usize,
    pub arg0: usize,
    pub arg1: usize,
    pub arg2: usize,
}

/// One callback injection: which subscription fired and with which payload.
/// The kernel redirects the interrupted instruction stream to `callback`,
/// passing `(arg0, arg1, arg2, data)`; dispatching on the record is the
/// caller's side of that redirection.
#[derive(Clone, Copy, PartialEq, Eq, Structural, Debug)]
pub struct Delivery {
    pub driver: usize,
    pub slot: usize,
    pub callback: usize,
    pub data: usize,
    pub arg0: usize,
    pub arg1: usize,
    pub arg2: usize,
}

/// What the kernel read out of the argument registers at one trap boundary.
/// The three trap instructions are distinct, so the record is tagged by
/// which boundary was crossed.
#[derive(Clone, Copy, PartialEq, Eq, Structural, Debug)]
pub enum TrapRecord {
    Command { driver: usize, operation: usize, arg1: usize, arg2: usize },
    Subscribe { driver: usize, slot: usize, callback: usize, data: usize },
    Yield { mode: usize },
}

/// The kernel side of the trap boundary.
pub struct Kernel {
    /// Ids of the drivers the kernel has installed.
    pub drivers: Vec<usize>,
    /// The subscription table; well-formed kernels hold at most one entry
    /// per `(driver, slot)` pair.
    pub subs: Vec<SubEntry>,
    /// The mailbox: events raised by the interrupt source, oldest first,
    /// waiting for the process to suspend.
    pub pending: Vec<Event>,
    /// Every invocation received at a trap boundary, oldest first.
    pub log: Vec<TrapRecord>,
}

impl Kernel {
    /// The kernel knows driver `d`.
    pub open spec fn driver_known(self, d: usize) -> bool {
        self.drivers@.contains(d)
    }

    /// Some subscription is registered for `(d, s)`.
    pub open spec fn has_sub(self, d: usize, s: usize) -> bool {
        exists|i: int|
            0 <= i < self.subs@.len() && (#[trigger] self.subs@[i]).driver == d
                && self.subs@[i].slot == s
    }

    /// The index of the subscription for `(d, s)`; meaningful only when
    /// `has_sub(d, s)` holds and the table is well formed.
    pub open spec fn sub_idx(self, d: usize, s: usize) -> int {
        choose|i: int|
            0 <= i < self.subs@.len() && (#[trigger] self.subs@[i]).driver == d
                && self.subs@[i].slot == s
    }

    /// The active handler for `(d, s)`: the `(callback, data)` pair the
    /// kernel would invoke for an event there, if any.
    pub open spec fn sub_for(self, d: usize, s: usize) -> Option<(usize, usize)> {
        if self.has_sub(d, s) {
            Some((self.subs@[self.sub_idx(d, s)].callback, self.subs@[self.sub_idx(d, s)].data))
        } else {
            None
        }
    }

    /// At most one subscription per `(driver, slot)` pair.
    pub open spec fn unique_subs(self) -> bool {
        forall|i: int, j: int|
            0 <= i < j < self.subs@.len() ==> !((#[trigger] self.subs@[i]).driver
                == (#[trigger] self.subs@[j]).driver && self.subs@[i].slot == self.subs@[j].slot)
    }

    /// Well-formedness: the invariant every kernel operation preserves.
    pub open spec fn wf(self) -> bool {
        self.unique_subs()
    }

    /// The event at mailbox position `i` has a registered handler.
    pub open spec fn deliverable_at(self, i: int) -> bool {
        self.has_sub(self.pending@[i].driver, self.pending@[i].slot)
    }

    /// Some pending event has a registered handler, so a suspension would
    /// be woken.
    pub open spec fn has_deliverable(self) -> bool {
        exists|i: int| 0 <= i < self.pending@.len() && #[trigger] self.deliverable_at(i)
    }

    /// A fresh kernel: no drivers, no subscriptions, an empty mailbox, an
    /// empty log.
    pub fn new() -> (k: Kernel)
        ensures
            k.drivers@ =~= Seq::<usize>::empty(),
            k.subs@ =~= Seq::<SubEntry>::empty(),
            k.pending@ =~= Seq::<Event>::empty(),
            k.log@ =~= Seq::<TrapRecord>::empty(),
            k.wf(),
    {
        Kernel { drivers: Vec::new(), subs: Vec::new(), pending: Vec::new(), log: Vec::new() }
    }

    /// Install driver `d`.
    pub fn add_driver(&mut self, d: usize)
        ensures
            final(self).drivers@ == old(self).drivers@.push(d),
            final(self).subs == old(self).subs,
            final(self).pending == old(self).pending,
            final(self).log == old(self).log,
            final(self).wf() == old(self).wf(),
    {
        self.drivers.push(d);
    }

    /// The simulated interrupt source: raise event `e`. In hardware this
    /// happens asynchronously; here the harness injects it between traps,
    /// which is sound because callbacks are only ever delivered while the
    /// process is suspended.
    pub fn raise(&mut self, e: Event)
        ensures
            final(self).pending@ == old(self).pending@.push(e),
            final(self).drivers == old(self).drivers,
            final(self).subs == old(self).subs,
            final(self).log == old(self).log,
            final(self).wf() == old(self).wf(),
    {
        self.pending.push(e);
    }

    /// Does the kernel know driver `d`? (The kernel-side validity check a
    /// trap performs on the driver id it received in `r0`.)
    pub fn knows_driver(&self, d: usize) -> (b: bool)
        ensures
            b == self.driver_known(d),
    {
        let n = self.drivers.len();
        let mut i: usize = 0;
        while i < n
            invariant
                n == self.drivers@.len(),
                i <= n,
                forall|j: int| 0 <= j < i ==> self.drivers@[j] != d,
            decreases n - i,
        {
            if self.drivers[i] == d {
                assert(self.drivers@.contains(d));
                return true;
            }
            i = i + 1;
        }
        assert(!self.drivers@.contains(d));
        false
    }

    /// Find the table index of the subscription for `(d, s)`, if any.
    pub fn find_sub(&self, d: usize, s: usize) -> (r: Option<usize>)
        ensures
            match r {
                Some(i) => i < self.subs@.len() && self.subs@[i as int].driver == d
                    && self.subs@[i as int].slot == s,
                None => !self.has_sub(d, s),
            },
    {
        let n = self.subs.len();
        let mut i: usize = 0;
        while i < n
            invariant
                n == self.subs@.len(),
                i <= n,
                forall|j: int|
                    0 <= j < i ==> !((#[trigger] self.subs@[j]).driver == d && self.subs@[j].slot
                        == s),
            decreases n - i,
        {
            let e = self.subs[i];
            if e.driver == d && e.slot == s {
                return Some(i);
            }
            i = i + 1;
        }
        None
    }

    /// With a well-formed table, any index whose entry matches `(d, s)` is
    /// the one `sub_idx` denotes.
    pub proof fn lemma_sub_idx_is(self, d: usize, s: usize, i: int)
        requires
            self.wf(),
            0 <= i < self.subs@.len(),
            self.subs@[i].driver == d,
            self.subs@[i].slot == s,
        ensures
            self.has_sub(d, s),
            self.sub_idx(d, s) == i,
            self.sub_for(d, s) == Some((self.subs@[i].callback, self.subs@[i].data)),
    {
        assert(self.has_sub(d, s));
        let j = self.sub_idx(d, s);
        if i < j {
            assert(false);
        } else if j < i {
            assert(false);
        }
    }

    /// Replacing the entry at `i` — whose key already is `(e.driver,
    /// e.slot)` — keeps the table well formed, makes `e` the active handler
    /// for that key, and leaves every other key's handler unchanged.
    pub proof fn lemma_replace_sub(self, post: Kernel, i: int, e: SubEntry)
        requires
            self.wf(),
            0 <= i < self.subs@.len(),
            self.subs@[i].driver == e.driver,
            self.subs@[i].slot == e.slot,
            post.subs@ == self.subs@.update(i, e),
        ensures
            post.wf(),
            forall|d2: usize, s2: usize|
                #[trigger] post.sub_for(d2, s2) == (if d2 == e.driver && s2 == e.slot {
                    Some((e.callback, e.data))
                } else {
                    self.sub_for(d2, s2)
                }),
    {
        let n = self.subs@.len();
        assert forall|i0: int, j0: int| 0 <= i0 < j0 < n implies !((#[trigger] post.subs@[i0]).driver
            == (#[trigger] post.subs@[j0]).driver && post.subs@[i0].slot
            == post.subs@[j0].slot) by {
            assert(!(self.subs@[i0].driver == self.subs@[j0].driver && self.subs@[i0].slot
                == self.subs@[j0].slot));
        }
        assert forall|d2: usize, s2: usize| #[trigger] post.sub_for(d2, s2) == (if d2 == e.driver
            && s2 == e.slot {
            Some((e.callback, e.data))
        } else {
            self.sub_for(d2, s2)
        }) by {
            if d2 == e.driver && s2 == e.slot {
                post.lemma_sub_idx_is(d2, s2, i);
            } else {
                if self.has_sub(d2, s2) {
                    let j = self.sub_idx(d2, s2);
                    assert(0 <= j < n && self.subs@[j].driver == d2 && self.subs@[j].slot == s2);
                    assert(j != i);
                    self.lemma_sub_idx_is(d2, s2, j);
                    post.lemma_sub_idx_is(d2, s2, j);
                } else if post.has_sub(d2, s2) {
                    let j = post.sub_idx(d2, s2);
                    assert(0 <= j < n && post.subs@[j].driver == d2 && post.subs@[j].slot == s2);
                    assert(j != i);
                    assert(self.subs@[j] == post.subs@[j]);
                    assert(self.has_sub(d2, s2));
                }
            }
        }
    }

    /// Appending an entry for a key that has no subscription yet keeps the
    /// table well formed, makes `e` the active handler for its key, and
    /// leaves every other key's handler unchanged.
    pub proof fn lemma_append_sub(self, post: Kernel, e: SubEntry)
        requires
            self.wf(),
            !self.has_sub(e.driver, e.slot),
            post.subs@ == self.subs@.push(e),
        ensures
            post.wf(),
            forall|d2: usize, s2: usize|
                #[trigger] post.sub_for(d2, s2) == (if d2 == e.driver && s2 == e.slot {
                    Some((e.callback, e.data))
                } else {
                    self.sub_for(d2, s2)
                }),
    {
        let n = self.subs@.len();
        assert forall|i0: int, j0: int| 0 <= i0 < j0 < n + 1 implies !((#[trigger] post.subs@[i0]).driver
            == (#[trigger] post.subs@[j0]).driver && post.subs@[i0].slot
            == post.subs@[j0].slot) by {
            if j0 < n {
                assert(!(self.subs@[i0].driver == self.subs@[j0].driver && self.subs@[i0].slot
                    == self.subs@[j0].slot));
            } else {
                assert(post.subs@[j0] == e);
                if self.subs@[i0].driver == e.driver && self.subs@[i0].slot == e.slot {
                    assert(self.has_sub(e.driver, e.slot));
                }
            }
        }
        assert forall|d2: usize, s2: usize| #[trigger] post.sub_for(d2, s2) == (if d2 == e.driver
            && s2 == e.slot {
            Some((e.callback, e.data))
        } else {
            self.sub_for(d2, s2)
        }) by {
            if d2 == e.driver && s2 == e.slot {
                post.lemma_sub_idx_is(d2, s2, n as int);
            } else {
                if self.has_sub(d2, s2) {
                    let j = self.sub_idx(d2, s2);
                    assert(0 <= j < n && self.subs@[j].driver == d2 && self.subs@[j].slot == s2);
                    assert(post.subs@[j] == self.subs@[j]);
                    self.lemma_sub_idx_is(d2, s2, j);
                    post.lemma_sub_idx_is(d2, s2, j);
                } else if post.has_sub(d2, s2) {
                    let j = post.sub_idx(d2, s2);
                    assert(0 <= j < n + 1 && post.subs@[j].driver == d2 && post.subs@[j].slot
                        == s2);
                    assert(j != n);
                    assert(self.subs@[j] == post.subs@[j]);
                    assert(self.has_sub(d2, s2));
                }
            }
        }
    }
}

} // verus!
