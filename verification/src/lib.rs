//! Register-level model of the syscall trap layer of a single-threaded
//! process running under a capability-based embedded kernel.
//!
//! The layer has three primitives: a trap encoder (`command`) that packs a
//! four-word invocation into the hardware argument registers and traps into
//! the kernel, a callback registrar (`subscribe`) that installs a handler for
//! one asynchronous event source, and a suspension primitive (`yieldk`) that
//! blocks the process until the kernel has delivered a registered callback.
//!
//! The hardware mechanism (a trap instruction whose calling convention
//! clobbers every caller-saved register, and an interrupt-return path that
//! redirects control into a callback) is modelled explicitly: registers are a
//! [`regs::RegFile`] whose caller-saved slots carry a validity mark, the
//! kernel is a [`kernel::Kernel`] holding the subscription table and a
//! mailbox of pending events, and callback injection is the dequeuing of a
//! stored callback-plus-context record. Each contract states exactly which
//! registers carry values across the trap boundary and which must be treated
//! as clobbered.

pub mod kernel;
pub mod laws;
pub mod regs;
pub mod runtime;
pub mod syscalls;
