//! The program status register (CPSR / SPSR) as a structured value.

use vstd::prelude::*;
use crate::bits::{bit_clr, bit_is_on, bit_set, bit_spec};

verus! {

/// Bit position of the Thumb state flag.
pub const THUMB_BIT: u32 = 5;
/// Bit position of the FIQ mask.
pub const FIQ_BIT: u32 = 6;
/// Bit position of the IRQ mask.
pub const IRQ_BIT: u32 = 7;
/// Bit position of the overflow flag.
pub const OVERFLOW_BIT: u32 = 28;
/// Bit position of the carry flag.
pub const CARRY_BIT: u32 = 29;
/// Bit position of the zero flag.
pub const ZERO_BIT: u32 = 30;
/// Bit position of the negative flag.
pub const NEGATIVE_BIT: u32 = 31;
/// The mode field occupies the five lowest bits.
pub const MODE_MASK: u32 = 0x1f;

/// Processor modes and their encodings in the mode field.
#[derive(Clone, Copy, Debug, PartialEq, Eq, Structural)]
pub enum Mode {
    User,
    FIQ,
    IRQ,
    Supervisor,
    Abort,
    Undefined,
    System,
}

/// The mode-field encoding of a mode.
pub open spec fn mode_bits(m: Mode) -> u32 {
    match m {
        Mode::User => 0x10,
        Mode::FIQ => 0x11,
        Mode::IRQ => 0x12,
        Mode::Supervisor => 0x13,
        Mode::Abort => 0x17,
        Mode::Undefined => 0x1b,
        Mode::System => 0x1f,
    }
}

/// The mode that a mode-field value encodes, if any.
pub open spec fn decode_mode(v: u32) -> Option<Mode> {
    if v == 0x10 {
        Some(Mode::User)
    } else if v == 0x11 {
        Some(Mode::FIQ)
    } else if v == 0x12 {
        Some(Mode::IRQ)
    } else if v == 0x13 {
        Some(Mode::Supervisor)
    } else if v == 0x17 {
        Some(Mode::Abort)
    } else if v == 0x1b {
        Some(Mode::Undefined)
    } else if v == 0x1f {
        Some(Mode::System)
    } else {
        None
    }
}

/// `v` with bit `bit` set when `on` holds and cleared otherwise.
pub open spec fn set_flag(v: u32, bit: u32, on: bool) -> u32 {
    if on {
        v | (1u32 << bit)
    } else {
        v & !(1u32 << bit)
    }
}

impl Mode {
    /// The mode-field encoding of this mode.
    pub fn bits(self) -> (r: u32)
        ensures
            r == mode_bits(self),
            decode_mode(r) == Some(self),
    {
        match self {
            Mode::User => 0x10,
            Mode::FIQ => 0x11,
            Mode::IRQ => 0x12,
            Mode::Supervisor => 0x13,
            Mode::Abort => 0x17,
            Mode::Undefined => 0x1b,
            Mode::System => 0x1f,
        }
    }

    /// The mode that a mode-field value encodes; `None` for a reserved value.
    pub fn from_bits(v: u32) -> (r: Option<Mode>)
        ensures
            r == decode_mode(v),
            r matches Some(m) ==> mode_bits(m) == v,
    {
        if v == 0x10 {
            Some(Mode::User)
        } else if v == 0x11 {
            Some(Mode::FIQ)
        } else if v == 0x12 {
            Some(Mode::IRQ)
        } else if v == 0x13 {
            Some(Mode::Supervisor)
        } else if v == 0x17 {
            Some(Mode::Abort)
        } else if v == 0x1b {
            Some(Mode::Undefined)
        } else if v == 0x1f {
            Some(Mode::System)
        } else {
            None
        }
    }
}

/// A status-register value: mode field, interrupt masks and condition flags.
#[derive(Clone, Copy, Debug, PartialEq, Eq, Structural)]
pub struct PSR(pub u32);

impl PSR {
    /// The mode held in the mode field; `None` when the field is reserved.
    pub fn mode(&self) -> (r: Option<Mode>)
        ensures
            r == decode_mode(self.0 & MODE_MASK),
    {
        Mode::from_bits(self.0 & MODE_MASK)
    }

    /// This value with its mode field replaced by `m`.
    pub fn with_mode(self, m: Mode) -> (r: PSR)
        ensures
            r.0 == (self.0 & !MODE_MASK) | mode_bits(m),
            decode_mode(r.0 & MODE_MASK) == Some(m),
            forall|i: u32| 5 <= i < 32 ==> bit_spec(r.0, i) == bit_spec(self.0, i),
    {
        let b = m.bits();
        let r = (self.0 & !MODE_MASK) | b;
        let v = self.0;
        assert(r & MODE_MASK == b && forall|i: u32| 5 <= i < 32 ==> #[trigger] ((r >> i) & 1u32) == ((v >> i) & 1u32)) by (bit_vector)
            requires
                r == (v & !0x1fu32) | b,
                b <= 0x1f,
                MODE_MASK == 0x1f,
        ;
        PSR(r)
    }

    fn flag(&self, bit: u32) -> (r: bool)
        requires
            bit < 32,
        ensures
            r == bit_spec(self.0, bit),
    {
        bit_is_on(self.0, bit)
    }

    fn with_flag(self, bit: u32, on: bool) -> (r: PSR)
        requires
            bit < 32,
        ensures
            r.0 == set_flag(self.0, bit, on),
    {
        if on {
            PSR(bit_set(self.0, bit))
        } else {
            PSR(bit_clr(self.0, bit))
        }
    }

    /// Whether the processor runs Thumb code.
    pub fn thumb(&self) -> (r: bool)
        ensures
            r == bit_spec(self.0, THUMB_BIT),
    {
        self.flag(THUMB_BIT)
    }

    /// Whether fast interrupts are masked.
    pub fn fiq_disable(&self) -> (r: bool)
        ensures
            r == bit_spec(self.0, FIQ_BIT),
    {
        self.flag(FIQ_BIT)
    }

    /// Whether ordinary interrupts are masked.
    pub fn irq_disable(&self) -> (r: bool)
        ensures
            r == bit_spec(self.0, IRQ_BIT),
    {
        self.flag(IRQ_BIT)
    }

    /// The overflow condition flag.
    pub fn overflow(&self) -> (r: bool)
        ensures
            r == bit_spec(self.0, OVERFLOW_BIT),
    {
        self.flag(OVERFLOW_BIT)
    }

    /// The carry condition flag.
    pub fn carry(&self) -> (r: bool)
        ensures
            r == bit_spec(self.0, CARRY_BIT),
    {
        self.flag(CARRY_BIT)
    }

    /// The zero condition flag.
    pub fn zero(&self) -> (r: bool)
        ensures
            r == bit_spec(self.0, ZERO_BIT),
    {
        self.flag(ZERO_BIT)
    }

    /// The negative condition flag.
    pub fn negative(&self) -> (r: bool)
        ensures
            r == bit_spec(self.0, NEGATIVE_BIT),
    {
        self.flag(NEGATIVE_BIT)
    }

    /// This value with the Thumb flag set to `on`.
    pub fn with_thumb(self, on: bool) -> (r: PSR)
        ensures
            r.0 == set_flag(self.0, THUMB_BIT, on),
    {
        self.with_flag(THUMB_BIT, on)
    }

    /// This value with the FIQ mask set to `on`.
    pub fn with_fiq_disable(self, on: bool) -> (r: PSR)
        ensures
            r.0 == set_flag(self.0, FIQ_BIT, on),
    {
        self.with_flag(FIQ_BIT, on)
    }

    /// This value with the IRQ mask set to `on`.
    pub fn with_irq_disable(self, on: bool) -> (r: PSR)
        ensures
            r.0 == set_flag(self.0, IRQ_BIT, on),
    {
        self.with_flag(IRQ_BIT, on)
    }
}

} // verus!
