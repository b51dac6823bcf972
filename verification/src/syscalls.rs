//! The three trap primitives: the trap encoder (`command`), the callback
//! registrar (`subscribe`) and the suspension primitive (`yieldk`).
//!
//! Each primitive is split at the trap boundary. An `encode_*` step places
//! the invocation in the designated argument registers; a `trap_*` step is
//! the trap instruction itself: the kernel reads the argument registers,
//! logs exactly what it read, acts, answers in `r0`, and clobbers every
//! other caller-saved register. The public primitive composes the two and
//! reads the result from the designated return register only.

use vstd::prelude::*;

use crate::kernel::Delivery;
use crate::kernel::Event;
use crate::kernel::Kernel;
use crate::kernel::SubEntry;
use crate::kernel::TrapRecord;
use crate::regs::callee_saved_preserved;
use crate::regs::fully_clobbered;
use crate::regs::scratch_clobbered;
use crate::regs::RegFile;

verus! {

/// Wait mode passed to the yield trap in `r0`: block until a callback has
/// run.
pub const YIELD_ID_WAIT: usize = 1;

/// Kernel result word for a trap the kernel accepted.
pub const SUCCESS: usize = 0;

/// Kernel result word for a trap naming a driver the kernel does not know:
/// the two's-complement word for the kernel's "no such driver" code.
pub const ENODEVICE: usize = usize::MAX - 10;

/// Fill pattern the modelled trap writes over the registers it clobbers, so
/// that no stale value survives in them. No contract mentions it: a
/// clobbered register's content is meaningless.
const CLOBBER_FILL: usize = 0x51C0_0BBE;

/// The result word of a command or subscribe trap: this layer does no
/// validation of its own, and the model kernel validates exactly the driver
/// id.
pub open spec fn driver_status(k: Kernel, driver: usize) -> usize {
    if k.driver_known(driver) {
        SUCCESS
    } else {
        ENODEVICE
    }
}

/// How a successful registration relates the kernel before and after:
/// `(callback, data)` is now the one active handler for `(driver, slot)`,
/// and the handler of every other pair is exactly what it was.
pub open spec fn installs(
    pre: Kernel,
    post: Kernel,
    driver: usize,
    slot: usize,
    callback: usize,
    data: usize,
) -> bool {
    forall|d2: usize, s2: usize|
        #[trigger] post.sub_for(d2, s2) == (if d2 == driver && s2 == slot {
            Some((callback, data))
        } else {
            pre.sub_for(d2, s2)
        })
}

/// Mark every caller-saved register but `r0` clobbered, scrambling the
/// stored values. `r0` and the callee-saved registers are untouched.
fn clobber_scratch(regs: &mut RegFile)
    ensures
        scratch_clobbered(*final(regs)),
        callee_saved_preserved(*old(regs), *final(regs)),
        final(regs).r0 == old(regs).r0,
        final(regs).r0_valid == old(regs).r0_valid,
{
    regs.r1 = CLOBBER_FILL;
    regs.r2 = CLOBBER_FILL;
    regs.r3 = CLOBBER_FILL;
    regs.r12 = CLOBBER_FILL;
    regs.lr = CLOBBER_FILL;
    regs.r1_valid = false;
    regs.r2_valid = false;
    regs.r3_valid = false;
    regs.r12_valid = false;
    regs.lr_valid = false;
}

/// Place a command invocation in the argument registers: driver id in `r0`,
/// operation id in `r1`, the two arguments in `r2` and `r3`. No other
/// register is touched.
pub fn encode_command(regs: &mut RegFile, driver: usize, operation: usize, arg1: usize, arg2: usize)
    ensures
        *final(regs) == (RegFile {
            r0: driver,
            r1: operation,
            r2: arg1,
            r3: arg2,
            r0_valid: true,
            r1_valid: true,
            r2_valid: true,
            r3_valid: true,
            ..*old(regs)
        }),
{
    regs.r0 = driver;
    regs.r1 = operation;
    regs.r2 = arg1;
    regs.r3 = arg2;
    regs.r0_valid = true;
    regs.r1_valid = true;
    regs.r2_valid = true;
    regs.r3_valid = true;
}

/// The command trap instruction. The kernel reads the four argument
/// registers — and nothing else — logs the invocation it saw, and answers in
/// `r0`. Every caller-saved register except `r0` comes back clobbered;
/// callee-saved registers survive.
pub fn trap_command(k: &mut Kernel, regs: &mut RegFile)
    requires
        old(regs).r0_valid,
        old(regs).r1_valid,
        old(regs).r2_valid,
        old(regs).r3_valid,
    ensures
        final(k).log@ == old(k).log@.push(TrapRecord::Command {
            driver: old(regs).r0,
            operation: old(regs).r1,
            arg1: old(regs).r2,
            arg2: old(regs).r3,
        }),
        final(k).drivers == old(k).drivers,
        final(k).subs == old(k).subs,
        final(k).pending == old(k).pending,
        final(regs).r0 == driver_status(*old(k), old(regs).r0),
        final(regs).r0_valid,
        scratch_clobbered(*final(regs)),
        callee_saved_preserved(*old(regs), *final(regs)),
{
    let record = TrapRecord::Command { driver: regs.r0, operation: regs.r1, arg1: regs.r2, arg2: regs.r3 };
    k.log.push(record);
    let status = if k.knows_driver(regs.r0) {
        SUCCESS
    } else {
        ENODEVICE
    };
    regs.r0 = status;
    regs.r0_valid = true;
    clobber_scratch(regs);
}

/// The trap encoder: invoke operation `operation` of driver `driver` with
/// `arg1` and `arg2`, and return the kernel's one-word answer.
///
/// Exactly the four given words cross the trap boundary, in the designated
/// argument registers — the kernel's log records them as sent — and the
/// result is read from the designated return register alone. Every
/// caller-saved register except `r0` must be assumed clobbered; callee-saved
/// registers survive. The kernel's bookkeeping is otherwise unchanged: a
/// command has no kernel-side effect visible to this layer beyond the
/// returned word.
pub fn command(
    k: &mut Kernel,
    regs: &mut RegFile,
    driver: usize,
    operation: usize,
    arg1: usize,
    arg2: usize,
) -> (r: usize)
    ensures
        r == driver_status(*old(k), driver),
        final(k).log@ == old(k).log@.push(TrapRecord::Command { driver, operation, arg1, arg2 }),
        final(k).drivers == old(k).drivers,
        final(k).subs == old(k).subs,
        final(k).pending == old(k).pending,
        final(k).wf() == old(k).wf(),
        final(regs).r0 == r,
        final(regs).r0_valid,
        scratch_clobbered(*final(regs)),
        callee_saved_preserved(*old(regs), *final(regs)),
{
    encode_command(regs, driver, operation, arg1, arg2);
    trap_command(k, regs);
    regs.read_result()
}

/// Place a subscribe invocation in the argument registers: driver id in
/// `r0`, subscription slot in `r1`, callback word in `r2`, context word in
/// `r3`. No other register is touched.
pub fn encode_subscribe(regs: &mut RegFile, driver: usize, slot: usize, callback: usize, data: usize)
    ensures
        *final(regs) == (RegFile {
            r0: driver,
            r1: slot,
            r2: callback,
            r3: data,
            r0_valid: true,
            r1_valid: true,
            r2_valid: true,
            r3_valid: true,
            ..*old(regs)
        }),
{
    regs.r0 = driver;
    regs.r1 = slot;
    regs.r2 = callback;
    regs.r3 = data;
    regs.r0_valid = true;
    regs.r1_valid = true;
    regs.r2_valid = true;
    regs.r3_valid = true;
}

/// The subscribe trap instruction. The kernel reads the four argument
/// registers, logs the invocation it saw, and — if the driver id is known —
/// installs `(r2, r3)` as the one handler for `(r0, r1)`, replacing any
/// prior handler for that pair; every other pair's handler is untouched.
/// The answer comes back in `r0`; every other caller-saved register is
/// clobbered.
pub fn trap_subscribe(k: &mut Kernel, regs: &mut RegFile)
    requires
        old(k).wf(),
        old(regs).r0_valid,
        old(regs).r1_valid,
        old(regs).r2_valid,
        old(regs).r3_valid,
    ensures
        final(k).wf(),
        final(k).log@ == old(k).log@.push(TrapRecord::Subscribe {
            driver: old(regs).r0,
            slot: old(regs).r1,
            callback: old(regs).r2,
            data: old(regs).r3,
        }),
        final(k).drivers == old(k).drivers,
        final(k).pending == old(k).pending,
        old(k).driver_known(old(regs).r0) ==> installs(
            *old(k),
            *final(k),
            old(regs).r0,
            old(regs).r1,
            old(regs).r2,
            old(regs).r3,
        ),
        !old(k).driver_known(old(regs).r0) ==> final(k).subs == old(k).subs,
        final(regs).r0 == driver_status(*old(k), old(regs).r0),
        final(regs).r0_valid,
        scratch_clobbered(*final(regs)),
        callee_saved_preserved(*old(regs), *final(regs)),
{
    let ghost pre = *k;
    let record = TrapRecord::Subscribe { driver: regs.r0, slot: regs.r1, callback: regs.r2, data: regs.r3 };
    k.log.push(record);
    let status: usize;
    if k.knows_driver(regs.r0) {
        let entry = SubEntry { driver: regs.r0, slot: regs.r1, callback: regs.r2, data: regs.r3 };
        match k.find_sub(regs.r0, regs.r1) {
            Some(i) => {
                k.subs[i] = entry;
                proof {
                    pre.lemma_replace_sub(*k, i as int, entry);
                }
            },
            None => {
                k.subs.push(entry);
                proof {
                    pre.lemma_append_sub(*k, entry);
                }
            },
        }
        status = SUCCESS;
    } else {
        status = ENODEVICE;
    }
    regs.r0 = status;
    regs.r0_valid = true;
    clobber_scratch(regs);
}

/// The callback registrar: make `callback`, with context word `data`, the
/// handler the kernel will invoke for events at `(driver, slot)`.
///
/// Exactly the four given words cross the trap boundary in the designated
/// argument registers. On a known driver the registration atomically
/// replaces any prior handler for the same `(driver, slot)` pair — a
/// superseded handler can never fire again — and no other pair's handler
/// changes; on an unknown driver the table is untouched. The kernel never
/// dereferences the callback or context words: it only stores them for
/// later delivery. The result is read from the designated return register
/// alone, and every other caller-saved register must be assumed clobbered.
pub fn subscribe(
    k: &mut Kernel,
    regs: &mut RegFile,
    driver: usize,
    slot: usize,
    callback: usize,
    data: usize,
) -> (r: usize)
    requires
        old(k).wf(),
    ensures
        final(k).wf(),
        r == driver_status(*old(k), driver),
        final(k).log@ == old(k).log@.push(TrapRecord::Subscribe { driver, slot, callback, data }),
        final(k).drivers == old(k).drivers,
        final(k).pending == old(k).pending,
        old(k).driver_known(driver) ==> installs(*old(k), *final(k), driver, slot, callback, data),
        !old(k).driver_known(driver) ==> final(k).subs == old(k).subs,
        final(regs).r0 == r,
        final(regs).r0_valid,
        scratch_clobbered(*final(regs)),
        callee_saved_preserved(*old(regs), *final(regs)),
{
    encode_subscribe(regs, driver, slot, callback, data);
    trap_subscribe(k, regs);
    regs.read_result()
}

/// What a call of the suspension primitive came back with.
#[derive(Clone, Copy, PartialEq, Eq, Structural, Debug)]
pub enum YieldOutcome {
    /// A registered callback ran to completion; the record says which one
    /// and with which payload. Control has resumed at the suspension call.
    Delivered(Delivery),
    /// No pending event has a registered handler. On hardware the process
    /// would stay blocked forever; the model makes the blocked state
    /// explicit instead of never returning.
    Blocked,
}

/// How a suspension that woke relates the kernel before (`pre`) and after
/// (`post`) the trap: `j` is the mailbox position of the oldest event with
/// a registered handler, every older event had none (the kernel discards
/// them), the delivered record carries that event's source and payload
/// together with the handler `pre` held registered for the pair at delivery
/// time, and the mailbox continues after `j`.
pub open spec fn wakes_with(pre: Kernel, post: Kernel, d: Delivery, j: int) -> bool {
    &&& 0 <= j < pre.pending@.len()
    &&& pre.deliverable_at(j)
    &&& forall|i: int| 0 <= i < j ==> !pre.deliverable_at(i)
    &&& post.pending@ == pre.pending@.skip(j + 1)
    &&& d.driver == pre.pending@[j].driver
    &&& d.slot == pre.pending@[j].slot
    &&& d.arg0 == pre.pending@[j].arg0
    &&& d.arg1 == pre.pending@[j].arg1
    &&& d.arg2 == pre.pending@[j].arg2
    &&& Some((d.callback, d.data)) == pre.sub_for(d.driver, d.slot)
}

/// The full outcome contract of a suspension: either a registered callback
/// was delivered — and `wakes_with` says which and how the mailbox moved —
/// or nothing pending was deliverable and the kernel has discarded the
/// whole mailbox, which on hardware is the process blocking forever.
pub open spec fn yield_post(pre: Kernel, post: Kernel, o: YieldOutcome) -> bool {
    match o {
        YieldOutcome::Delivered(d) => {
            &&& pre.has_deliverable()
            &&& exists|j: int| #[trigger] wakes_with(pre, post, d, j)
        },
        YieldOutcome::Blocked => {
            &&& !pre.has_deliverable()
            &&& post.pending@ == Seq::<Event>::empty()
        },
    }
}

/// The yield trap instruction. The kernel reads the wait mode from `r0`,
/// logs it, and blocks the process until it can run a registered callback:
/// it walks the mailbox oldest-first, discards events with no handler, and
/// delivers the first event whose `(driver, slot)` pair has one. Because
/// the interrupt-return path redirects control through the callback, the
/// link register and every other caller-saved register — `r0` included, no
/// output comes back in registers — must be assumed clobbered; callee-saved
/// registers survive.
pub fn trap_yield(k: &mut Kernel, regs: &mut RegFile) -> (o: YieldOutcome)
    requires
        old(k).wf(),
        old(regs).r0_valid,
    ensures
        final(k).wf(),
        final(k).log@ == old(k).log@.push(TrapRecord::Yield { mode: old(regs).r0 }),
        final(k).drivers@ == old(k).drivers@,
        final(k).subs@ == old(k).subs@,
        fully_clobbered(*final(regs)),
        callee_saved_preserved(*old(regs), *final(regs)),
        yield_post(*old(k), *final(k), o),
{
    let ghost pre = *k;
    let record = TrapRecord::Yield { mode: regs.r0 };
    regs.r0 = CLOBBER_FILL;
    regs.r0_valid = false;
    clobber_scratch(regs);
    let o = deliver_first(k);
    let ghost mid = *k;
    k.log.push(record);
    proof {
        if let YieldOutcome::Delivered(d) = o {
            let j = choose|j: int| #[trigger] wakes_with(pre, mid, d, j);
            assert(wakes_with(pre, mid, d, j));
            assert(k.pending@ == mid.pending@);
            assert(wakes_with(pre, *k, d, j));
        }
        assert(yield_post(pre, *k, o));
    }
    o
}

/// The kernel's delivery walk at a yield trap: discard pending events with
/// no registered handler, oldest first, and hand over the first event that
/// has one, together with the handler registered for it at this moment.
/// Touches only the mailbox.
#[verifier::rlimit(30)]
fn deliver_first(k: &mut Kernel) -> (o: YieldOutcome)
    requires
        old(k).wf(),
    ensures
        final(k).wf(),
        final(k).subs@ == old(k).subs@,
        final(k).drivers@ == old(k).drivers@,
        final(k).log@ == old(k).log@,
        yield_post(*old(k), *final(k), o),
{
    let ghost orig = old(k).pending@;
    let ghost mut dropped: int = 0;
    proof {
        assert(k.pending@ =~= orig.skip(0));
    }
    while k.pending.len() > 0
        invariant
            old(k).wf(),
            k.wf(),
            orig == old(k).pending@,
            k.subs@ == old(k).subs@,
            k.drivers@ == old(k).drivers@,
            k.log@ == old(k).log@,
            0 <= dropped <= orig.len(),
            k.pending@ == orig.skip(dropped),
            forall|i: int| 0 <= i < dropped ==> !old(k).deliverable_at(i),
        decreases k.pending.len(),
    {
        let e = k.pending.remove(0);
        proof {
            assert(e == orig.skip(dropped)[0]);
            assert(e == orig[dropped]);
            assert(k.pending@ =~= orig.skip(dropped + 1));
        }
        match k.find_sub(e.driver, e.slot) {
            Some(i) => {
                let entry = k.subs[i];
                let d = Delivery {
                    driver: e.driver,
                    slot: e.slot,
                    callback: entry.callback,
                    data: entry.data,
                    arg0: e.arg0,
                    arg1: e.arg1,
                    arg2: e.arg2,
                };
                proof {
                    assert(old(k).subs@[i as int] == k.subs@[i as int]);
                    old(k).lemma_sub_idx_is(e.driver, e.slot, i as int);
                    assert(old(k).deliverable_at(dropped));
                    assert(wakes_with(*old(k), *k, d, dropped));
                    let o_val = YieldOutcome::Delivered(d);
                    assert(yield_post(*old(k), *k, o_val)) by {
                        assert(o_val->0 == d);
                        assert(old(k).has_deliverable());
                        assert(exists|j: int| #[trigger] wakes_with(*old(k), *k, d, j));
                    }
                }
                return YieldOutcome::Delivered(d);
            },
            None => {
                proof {
                    if old(k).has_sub(e.driver, e.slot) {
                        let i0 = old(k).sub_idx(e.driver, e.slot);
                        assert(k.subs@[i0].driver == e.driver && k.subs@[i0].slot == e.slot);
                        assert(k.has_sub(e.driver, e.slot));
                    }
                    assert(!old(k).deliverable_at(dropped));
                    dropped = dropped + 1;
                }
            },
        }
    }
    proof {
        assert(dropped == orig.len());
        assert(k.pending@ =~= Seq::<Event>::empty());
    }
    YieldOutcome::Blocked
}

/// The suspension primitive: block until at least one registered callback
/// has run to completion, then return.
///
/// The wait mode crosses the trap boundary in `r0`; no meaningful value
/// comes back in any register, so the full caller-saved set — the link
/// register included — must be assumed clobbered, while callee-saved
/// registers survive. A `Delivered` outcome names the callback the kernel
/// injected: always the handler registered for the woken event's
/// `(driver, slot)` pair at delivery time, never a superseded one. A
/// `Blocked` outcome is the model's explicit rendering of "no registered
/// callback can fire, the process never resumes".
pub fn yieldk(k: &mut Kernel, regs: &mut RegFile) -> (o: YieldOutcome)
    requires
        old(k).wf(),
    ensures
        final(k).wf(),
        final(k).log@ == old(k).log@.push(TrapRecord::Yield { mode: YIELD_ID_WAIT }),
        final(k).drivers@ == old(k).drivers@,
        final(k).subs@ == old(k).subs@,
        fully_clobbered(*final(regs)),
        callee_saved_preserved(*old(regs), *final(regs)),
        yield_post(*old(k), *final(k), o),
{
    regs.r0 = YIELD_ID_WAIT;
    regs.r0_valid = true;
    trap_yield(k, regs)
}

} // verus!
