//! The laws the trap layer lives by, each proved once and for all from the
//! primitives' contracts: superseding a registration, delivery naming only
//! the currently registered handler, and suspension never resuming without
//! one.

use vstd::prelude::*;

use crate::kernel::Delivery;
use crate::kernel::Kernel;
use crate::syscalls::installs;
use crate::syscalls::wakes_with;
use crate::syscalls::yield_post;
use crate::syscalls::YieldOutcome;

verus! {

/// Registering `(f, p)` and then `(g, q)` for the same `(driver, slot)`
/// pair leaves `(g, q)` as the active handler: the second registration
/// supersedes the first. Every other pair's handler is exactly what it was
/// before either registration, and any callback the kernel thereafter
/// delivers for the pair is `(g, q)` — the superseded `(f, p)` can never
/// fire again.
pub proof fn lemma_supersede(
    k0: Kernel,
    k1: Kernel,
    k2: Kernel,
    driver: usize,
    slot: usize,
    f: usize,
    p: usize,
    g: usize,
    q: usize,
)
    requires
        installs(k0, k1, driver, slot, f, p),
        installs(k1, k2, driver, slot, g, q),
    ensures
        k2.sub_for(driver, slot) == Some((g, q)),
        forall|d2: usize, s2: usize|
            !(d2 == driver && s2 == slot) ==> #[trigger] k2.sub_for(d2, s2) == k0.sub_for(d2, s2),
        forall|post: Kernel, d: Delivery, j: int|
            #[trigger] wakes_with(k2, post, d, j) && d.driver == driver && d.slot == slot
                ==> d.callback == g && d.data == q,
{
    assert forall|post: Kernel, d: Delivery, j: int|
        #[trigger] wakes_with(k2, post, d, j) && d.driver == driver && d.slot == slot implies d.callback
        == g && d.data == q by {
        assert(k2.sub_for(d.driver, d.slot) == Some((g, q)));
    }
}

/// A delivered callback is always the handler registered for the woken
/// event's `(driver, slot)` pair at the moment of delivery — never a
/// stale one.
pub proof fn lemma_delivery_names_registered_handler(pre: Kernel, post: Kernel, d: Delivery, j: int)
    requires
        wakes_with(pre, post, d, j),
    ensures
        pre.has_sub(d.driver, d.slot),
        pre.sub_for(d.driver, d.slot) == Some((d.callback, d.data)),
{
}

/// With no registered subscription at all, no pending event is
/// deliverable, so a suspension can only end `Blocked`: control never
/// returns to the caller until at least one registered callback has run.
/// On hardware the `Blocked` outcome is the process hanging forever.
pub proof fn lemma_blocked_without_subscription(pre: Kernel, post: Kernel, o: YieldOutcome)
    requires
        yield_post(pre, post, o),
        pre.subs@.len() == 0,
    ensures
        o is Blocked,
{
    if pre.has_deliverable() {
        let i = choose|i: int| 0 <= i < pre.pending@.len() && #[trigger] pre.deliverable_at(i);
        assert(pre.deliverable_at(i));
        assert(false);
    }
}

} // verus!
