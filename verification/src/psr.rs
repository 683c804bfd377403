//! The program status word: four condition flags, two interrupt-disable
//! bits, the instruction-set-select bit and a five-bit mode field, all backed
//! by one 32-bit word. Every flag and mode access of the core goes through
//! the named accessors here, so the bit layout lives in one place.

use vstd::prelude::*;

verus! {

/// Negative condition flag, bit 31.
pub const FLAG_N: u32 = 0x8000_0000;
/// Zero condition flag, bit 30.
pub const FLAG_Z: u32 = 0x4000_0000;
/// Carry condition flag, bit 29.
pub const FLAG_C: u32 = 0x2000_0000;
/// Overflow condition flag, bit 28.
pub const FLAG_V: u32 = 0x1000_0000;
/// IRQ-disable bit, bit 7.
pub const FLAG_I: u32 = 0x80;
/// FIQ-disable bit, bit 6.
pub const FLAG_F: u32 = 0x40;
/// Instruction-set-select bit, bit 5: clear selects the 32-bit set, set
/// selects the 16-bit set.
pub const FLAG_T: u32 = 0x20;
/// The five-bit mode field, bits 4 to 0.
pub const MODE_MASK: u32 = 0x1F;

pub const MODE_BITS_USER: u32 = 0x10;
pub const MODE_BITS_FIQ: u32 = 0x11;
pub const MODE_BITS_IRQ: u32 = 0x12;
pub const MODE_BITS_SUPERVISOR: u32 = 0x13;
pub const MODE_BITS_ABORT: u32 = 0x15;
pub const MODE_BITS_UNDEFINED: u32 = 0x17;
pub const MODE_BITS_SYSTEM: u32 = 0x1F;

/// The seven legal processor modes. No other encoding of the mode field is
/// valid.
#[derive(Clone, Copy, Debug, PartialEq, Eq, Structural)]
pub enum Mode {
    User,
    Fiq,
    Irq,
    Supervisor,
    Abort,
    Undefined,
    System,
}

/// The five-bit encoding of a processor mode.
pub open spec fn spec_mode_bits(m: Mode) -> u32 {
    match m {
        Mode::User => MODE_BITS_USER,
        Mode::Fiq => MODE_BITS_FIQ,
        Mode::Irq => MODE_BITS_IRQ,
        Mode::Supervisor => MODE_BITS_SUPERVISOR,
        Mode::Abort => MODE_BITS_ABORT,
        Mode::Undefined => MODE_BITS_UNDEFINED,
        Mode::System => MODE_BITS_SYSTEM,
    }
}

/// The mode, if any, that a status word's mode field encodes.
pub open spec fn spec_mode_of(w: u32) -> Option<Mode> {
    if w & MODE_MASK == MODE_BITS_USER {
        Some(Mode::User)
    } else if w & MODE_MASK == MODE_BITS_FIQ {
        Some(Mode::Fiq)
    } else if w & MODE_MASK == MODE_BITS_IRQ {
        Some(Mode::Irq)
    } else if w & MODE_MASK == MODE_BITS_SUPERVISOR {
        Some(Mode::Supervisor)
    } else if w & MODE_MASK == MODE_BITS_ABORT {
        Some(Mode::Abort)
    } else if w & MODE_MASK == MODE_BITS_UNDEFINED {
        Some(Mode::Undefined)
    } else if w & MODE_MASK == MODE_BITS_SYSTEM {
        Some(Mode::System)
    } else {
        None
    }
}

/// Whether the bits selected by `mask` are set in `w` (for the single-bit
/// flag masks above).
pub open spec fn spec_flag(w: u32, mask: u32) -> bool {
    w & mask != 0
}

/// `w` with the bits of `mask` forced to `on`, all other bits untouched.
pub open spec fn spec_with_flag(w: u32, mask: u32, on: bool) -> u32 {
    if on {
        w | mask
    } else {
        w & !mask
    }
}

/// `w` with the mode field forced to `m`, all other bits untouched.
pub open spec fn spec_with_mode(w: u32, m: Mode) -> u32 {
    (w & !MODE_MASK) | spec_mode_bits(m)
}

/// A program status word. The raw word is reachable only through the
/// accessors, so no call site masks bits by hand.
#[derive(Clone, Copy, Debug, PartialEq, Eq, Structural)]
pub struct Psr {
    word: u32,
}

impl View for Psr {
    type V = u32;

    closed spec fn view(&self) -> u32 {
        self.word
    }
}

impl Psr {
    /// A status word with every flag clear and a zero mode field.
    pub fn new() -> (r: Psr)
        ensures
            r@ == 0u32,
    {
        Psr { word: 0 }
    }

    /// A status word holding exactly the given raw bits.
    pub fn from_word(w: u32) -> (r: Psr)
        ensures
            r@ == w,
    {
        Psr { word: w }
    }

    /// The raw 32-bit word.
    pub fn word(&self) -> (r: u32)
        ensures
            r == self@,
    {
        self.word
    }

    fn get_flag(&self, mask: u32) -> (r: bool)
        ensures
            r == spec_flag(self@, mask),
    {
        self.word & mask != 0
    }

    fn set_flag(&mut self, mask: u32, on: bool)
        ensures
            final(self)@ == spec_with_flag(old(self)@, mask, on),
    {
        if on {
            self.word = self.word | mask;
        } else {
            self.word = self.word & !mask;
        }
    }

    /// Tests the Negative flag.
    pub fn get_n(&self) -> (r: bool)
        ensures
            r == spec_flag(self@, FLAG_N),
    {
        self.get_flag(FLAG_N)
    }

    /// Sets or clears the Negative flag; no other bit changes.
    pub fn set_n(&mut self, on: bool)
        ensures
            final(self)@ == spec_with_flag(old(self)@, FLAG_N, on),
    {
        self.set_flag(FLAG_N, on)
    }

    /// Tests the Zero flag.
    pub fn get_z(&self) -> (r: bool)
        ensures
            r == spec_flag(self@, FLAG_Z),
    {
        self.get_flag(FLAG_Z)
    }

    /// Sets or clears the Zero flag; no other bit changes.
    pub fn set_z(&mut self, on: bool)
        ensures
            final(self)@ == spec_with_flag(old(self)@, FLAG_Z, on),
    {
        self.set_flag(FLAG_Z, on)
    }

    /// Tests the Carry flag.
    pub fn get_c(&self) -> (r: bool)
        ensures
            r == spec_flag(self@, FLAG_C),
    {
        self.get_flag(FLAG_C)
    }

    /// Sets or clears the Carry flag; no other bit changes.
    pub fn set_c(&mut self, on: bool)
        ensures
            final(self)@ == spec_with_flag(old(self)@, FLAG_C, on),
    {
        self.set_flag(FLAG_C, on)
    }

    /// Tests the Overflow flag.
    pub fn get_v(&self) -> (r: bool)
        ensures
            r == spec_flag(self@, FLAG_V),
    {
        self.get_flag(FLAG_V)
    }

    /// Sets or clears the Overflow flag; no other bit changes.
    pub fn set_v(&mut self, on: bool)
        ensures
            final(self)@ == spec_with_flag(old(self)@, FLAG_V, on),
    {
        self.set_flag(FLAG_V, on)
    }

    /// Tests the IRQ-disable bit.
    pub fn get_i(&self) -> (r: bool)
        ensures
            r == spec_flag(self@, FLAG_I),
    {
        self.get_flag(FLAG_I)
    }

    /// Sets or clears the IRQ-disable bit; no other bit changes.
    pub fn set_i(&mut self, on: bool)
        ensures
            final(self)@ == spec_with_flag(old(self)@, FLAG_I, on),
    {
        self.set_flag(FLAG_I, on)
    }

    /// Tests the FIQ-disable bit.
    pub fn get_f(&self) -> (r: bool)
        ensures
            r == spec_flag(self@, FLAG_F),
    {
        self.get_flag(FLAG_F)
    }

    /// Sets or clears the FIQ-disable bit; no other bit changes.
    pub fn set_f(&mut self, on: bool)
        ensures
            final(self)@ == spec_with_flag(old(self)@, FLAG_F, on),
    {
        self.set_flag(FLAG_F, on)
    }

    /// Tests the instruction-set-select bit: true means the 16-bit set is
    /// active.
    pub fn get_thumb(&self) -> (r: bool)
        ensures
            r == spec_flag(self@, FLAG_T),
    {
        self.get_flag(FLAG_T)
    }

    /// Sets or clears the instruction-set-select bit; no other bit changes.
    pub fn set_thumb(&mut self, on: bool)
        ensures
            final(self)@ == spec_with_flag(old(self)@, FLAG_T, on),
    {
        self.set_flag(FLAG_T, on)
    }

    /// The mode the five-bit mode field encodes, or `None` for the
    /// twenty-five illegal encodings.
    pub fn mode(&self) -> (r: Option<Mode>)
        ensures
            r == spec_mode_of(self@),
    {
        let field = self.word & MODE_MASK;
        if field == MODE_BITS_USER {
            Some(Mode::User)
        } else if field == MODE_BITS_FIQ {
            Some(Mode::Fiq)
        } else if field == MODE_BITS_IRQ {
            Some(Mode::Irq)
        } else if field == MODE_BITS_SUPERVISOR {
            Some(Mode::Supervisor)
        } else if field == MODE_BITS_ABORT {
            Some(Mode::Abort)
        } else if field == MODE_BITS_UNDEFINED {
            Some(Mode::Undefined)
        } else if field == MODE_BITS_SYSTEM {
            Some(Mode::System)
        } else {
            None
        }
    }

    /// Forces the mode field to the given legal mode; bits outside the mode
    /// field do not change.
    pub fn set_mode(&mut self, m: Mode)
        ensures
            final(self)@ == spec_with_mode(old(self)@, m),
    {
        let bits = match m {
            Mode::User => MODE_BITS_USER,
            Mode::Fiq => MODE_BITS_FIQ,
            Mode::Irq => MODE_BITS_IRQ,
            Mode::Supervisor => MODE_BITS_SUPERVISOR,
            Mode::Abort => MODE_BITS_ABORT,
            Mode::Undefined => MODE_BITS_UNDEFINED,
            Mode::System => MODE_BITS_SYSTEM,
        };
        self.word = (self.word & !MODE_MASK) | bits;
    }
}

/// After the mode field is forced, reading it back gives exactly the mode
/// that was written, whatever the word held before.
pub proof fn lemma_set_mode_round_trip(w: u32, m: Mode)
    ensures
        spec_mode_of(spec_with_mode(w, m)) == Some(m),
{
    let b = spec_mode_bits(m);
    assert(((w & !0x1Fu32) | b) & 0x1Fu32 == b) by (bit_vector)
        requires
            b == 0x10u32 || b == 0x11u32 || b == 0x12u32 || b == 0x13u32 || b == 0x15u32
                || b == 0x17u32 || b == 0x1Fu32,
    ;
}

} // verus!
