//! The process-side runtime glue around the trap layer: the entry shim that
//! runs the process body and the marker trait for what that body may
//! return.
//!
//! The termination policy itself — halting the process through a defined
//! trap rather than falling through — belongs to the kernel contract, not
//! to this layer; the shim only guarantees that a body that returns hands
//! back the zero exit word.

use vstd::prelude::*;

verus! {

/// Marker for types a process body may return. The unit type is the one
/// return type the runtime accepts.
pub trait Termination {

}

impl Termination for () {

}

/// The entry shim: run the process body once and return the zero exit
/// word.
pub fn start<T: Termination, F: FnOnce() -> T>(main: F) -> (r: isize)
    requires
        call_requires(main, ()),
    ensures
        r == 0,
{
    main();
    0
}

} // verus!
