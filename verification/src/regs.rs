//! The machine registers visible to the trap layer.
//!
//! Per the hardware calling convention, `r0`-`r3` carry trap arguments and
//! the result, `r12` and `lr` are further caller-saved scratch registers, and
//! `r4`-`r8`, `r10`, `r11` are callee-saved. A trap may overwrite any
//! caller-saved register that is not explicitly an output, so each
//! caller-saved slot carries a validity mark: a trap clears the mark of every
//! register it clobbers, and a value may only be read from a register whose
//! mark is set. Callee-saved registers always survive a trap unchanged.

use vstd::prelude::*;

verus! {

/// The register file of the one hardware thread, as this layer sees it.
///
/// Caller-saved registers are `r0`-`r3`, `r12` and `lr`; each has a matching
/// `*_valid` mark. Callee-saved registers are `r4`-`r8`, `r10` and `r11`.
#[derive(Clone, Copy, PartialEq, Eq, Structural, Debug)]
pub struct RegFile {
    pub r0: usize,
    pub r1: usize,
    pub r2: usize,
    pub r3: usize,
    pub r12: usize,
    pub lr: usize,
    pub r4: usize,
    pub r5: usize,
    pub r6: usize,
    pub r7: usize,
    pub r8: usize,
    pub r10: usize,
    pub r11: usize,
    pub r0_valid: bool,
    pub r1_valid: bool,
    pub r2_valid: bool,
    pub r3_valid: bool,
    pub r12_valid: bool,
    pub lr_valid: bool,
}

/// Every callee-saved register holds the same value after the call as before.
pub open spec fn callee_saved_preserved(pre: RegFile, post: RegFile) -> bool {
    &&& post.r4 == pre.r4
    &&& post.r5 == pre.r5
    &&& post.r6 == pre.r6
    &&& post.r7 == pre.r7
    &&& post.r8 == pre.r8
    &&& post.r10 == pre.r10
    &&& post.r11 == pre.r11
}

/// Every caller-saved register except `r0` is marked invalid: a trap that
/// answers in `r0` must clobber all the others.
pub open spec fn scratch_clobbered(post: RegFile) -> bool {
    &&& !post.r1_valid
    &&& !post.r2_valid
    &&& !post.r3_valid
    &&& !post.r12_valid
    &&& !post.lr_valid
}

/// Every caller-saved register, `r0` included, is marked invalid: the
/// clobber set of a trap with no register output.
pub open spec fn fully_clobbered(post: RegFile) -> bool {
    &&& !post.r0_valid
    &&& scratch_clobbered(post)
}

impl RegFile {
    /// A fresh register file: all registers zero and all marks set.
    pub fn new() -> (r: RegFile)
        ensures
            r == (RegFile {
                r0: 0,
                r1: 0,
                r2: 0,
                r3: 0,
                r12: 0,
                lr: 0,
                r4: 0,
                r5: 0,
                r6: 0,
                r7: 0,
                r8: 0,
                r10: 0,
                r11: 0,
                r0_valid: true,
                r1_valid: true,
                r2_valid: true,
                r3_valid: true,
                r12_valid: true,
                lr_valid: true,
            }),
    {
        RegFile {
            r0: 0,
            r1: 0,
            r2: 0,
            r3: 0,
            r12: 0,
            lr: 0,
            r4: 0,
            r5: 0,
            r6: 0,
            r7: 0,
            r8: 0,
            r10: 0,
            r11: 0,
            r0_valid: true,
            r1_valid: true,
            r2_valid: true,
            r3_valid: true,
            r12_valid: true,
            lr_valid: true,
        }
    }

    /// Read the designated return register. A caller may only do so while
    /// the register's validity mark is set, i.e. while `r0` actually
    /// carries a trap's output.
    pub fn read_result(&self) -> (r: usize)
        requires
            self.r0_valid,
        ensures
            r == self.r0,
    {
        self.r0
    }
}

} // verus!
