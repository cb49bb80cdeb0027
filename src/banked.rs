//! Banked stack-pointer / link-register pairs of the privileged modes.
//!
//! Reading or writing another mode's pair is a scoped switch: enter that
//! mode, transfer the pair through a two-word buffer laid out as
//! `[sp, lr]`, and restore the original status unconditionally.

use vstd::prelude::*;
use crate::psr::{mode_bits, Mode};

verus! {

/// The low byte of the status word: mode field and the T, F and I bits.
pub const CONTROL_FIELD: u32 = 0xff;

/// A mode's banked link register and stack pointer.
#[derive(Clone, Copy, Debug, PartialEq, Eq, Structural)]
pub struct BankedRegs {
    pub lr: usize,
    pub sp: usize,
}

/// All sixteen core registers, in register order.
pub struct Regs(pub [usize; 16]);

/// The status words of a scoped mode switch.
#[derive(Clone, Copy, Debug, PartialEq, Eq, Structural)]
pub struct ModeSwitch {
    /// Written to the control field to enter the target mode.
    pub enter: u32,
    /// Written back afterwards, whatever happened in between.
    pub restore: u32,
}

/// Plans a switch from status `cpsr` into `mode`: entering writes the mode's
/// encoding into the control field and keeps the condition flags; leaving
/// restores `cpsr` exactly.
pub fn mode_switch(cpsr: u32, mode: Mode) -> (r: ModeSwitch)
    ensures
        r.enter == (cpsr & !CONTROL_FIELD) | mode_bits(mode),
        r.restore == cpsr,
{
    ModeSwitch { enter: (cpsr & !CONTROL_FIELD) | mode.bits(), restore: cpsr }
}

/// The pair read out of another mode, from the buffer `[sp, lr]`.
pub fn mode_get_lr_sp(out: [usize; 2]) -> (r: BankedRegs)
    ensures
        r.sp == out@[0],
        r.lr == out@[1],
{
    BankedRegs { lr: out[1], sp: out[0] }
}

/// The buffer `[sp, lr]` that loads `regs` into another mode.
pub fn mode_set_lr_sp(regs: BankedRegs) -> (r: [usize; 2])
    ensures
        r@ == seq![regs.sp, regs.lr],
{
    let r = [regs.sp, regs.lr];
    assert(r@ =~= seq![regs.sp, regs.lr]);
    r
}

impl BankedRegs {
    pub fn new(lr: usize, sp: usize) -> (r: Self)
        ensures
            r.lr == lr,
            r.sp == sp,
    {
        BankedRegs { lr, sp }
    }

    /// The pair transferred out of a mode through the buffer `raw`.
    pub fn get(raw: [usize; 2]) -> (r: Self)
        ensures
            r.sp == raw@[0],
            r.lr == raw@[1],
    {
        mode_get_lr_sp(raw)
    }

    /// The buffer that transfers this pair into a mode.
    pub fn set(&self) -> (r: [usize; 2])
        ensures
            r@ == seq![self.sp, self.lr],
            BankedRegs::get_spec(r@) == *self,
    {
        mode_set_lr_sp(*self)
    }

    /// The pair that a buffer holds.
    pub open spec fn get_spec(raw: Seq<usize>) -> BankedRegs {
        BankedRegs { lr: raw[1], sp: raw[0] }
    }
}

} // verus!
