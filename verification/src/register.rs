//! The register file: thirteen general-purpose registers, the stack pointer,
//! link register and program counter as named slots, the current status word
//! and the bank of saved status words, one per privileged exception mode.

use vstd::prelude::*;
use crate::common::Fault;
use crate::psr::{Mode, Psr};

verus! {

/// Index of the stack-pointer slot.
pub const REG_SP_INDEX: u8 = 13;
/// Index of the link-register slot.
pub const REG_LR_INDEX: u8 = 14;
/// Index of the program-counter slot.
pub const REG_PC_INDEX: u8 = 15;

/// The complete register and status state of the core.
///
/// The program counter always holds the address of the next fetch:
/// instruction execution moves it to `current + instruction size` unless a
/// control-flow instruction redirects it.
pub struct Register {
    /// General-purpose registers, indices 0 to 12.
    pub r: [u32; 13],
    /// Stack pointer, register index 13.
    pub sp: u32,
    /// Link register, register index 14.
    pub lr: u32,
    /// Program counter, register index 15.
    pub pc: u32,
    /// Current status word.
    pub cpsr: Psr,
    /// Saved status words, one per privileged exception mode, in the order
    /// FIQ, Supervisor, Abort, IRQ, Undefined.
    pub spsr: [Psr; 5],
}

/// The mathematical value of a register file: the thirteen general-purpose
/// registers and the saved status words as sequences, every status word as
/// its raw 32-bit value.
#[verifier::ext_equal]
pub struct RegView {
    pub r: Seq<u32>,
    pub sp: u32,
    pub lr: u32,
    pub pc: u32,
    pub cpsr: u32,
    pub spsr: Seq<u32>,
}

impl View for Register {
    type V = RegView;

    open spec fn view(&self) -> RegView {
        RegView {
            r: self.r@,
            sp: self.sp,
            lr: self.lr,
            pc: self.pc,
            cpsr: self.cpsr@,
            spsr: Seq::new(5, |i: int| self.spsr@[i]@),
        }
    }
}

/// The register file with every register and status word zero.
pub open spec fn spec_reg_zero() -> RegView {
    RegView {
        r: Seq::new(13, |i: int| 0u32),
        sp: 0u32,
        lr: 0u32,
        pc: 0u32,
        cpsr: 0u32,
        spsr: Seq::new(5, |i: int| 0u32),
    }
}

/// The value a register read returns: indices 0 to 12 select the
/// general-purpose registers, 13 to 15 the stack pointer, link register and
/// program counter; any other index is an input-contract violation.
pub open spec fn spec_get_reg(rv: RegView, idx: u8) -> Result<u32, Fault> {
    if idx <= 12 {
        Ok(rv.r[idx as int])
    } else if idx == REG_SP_INDEX {
        Ok(rv.sp)
    } else if idx == REG_LR_INDEX {
        Ok(rv.lr)
    } else if idx == REG_PC_INDEX {
        Ok(rv.pc)
    } else {
        Err(Fault::InvalidRegisterIndex)
    }
}

/// The register file after a register write, under the same index mapping as
/// `spec_get_reg`; a write never touches any other slot.
pub open spec fn spec_set_reg(rv: RegView, idx: u8, val: u32) -> Result<RegView, Fault> {
    if idx <= 12 {
        Ok(RegView { r: rv.r.update(idx as int, val), ..rv })
    } else if idx == REG_SP_INDEX {
        Ok(RegView { sp: val, ..rv })
    } else if idx == REG_LR_INDEX {
        Ok(RegView { lr: val, ..rv })
    } else if idx == REG_PC_INDEX {
        Ok(RegView { pc: val, ..rv })
    } else {
        Err(Fault::InvalidRegisterIndex)
    }
}

/// The name of a register slot, for diagnostics.
pub open spec fn spec_reg_name(idx: u8) -> Seq<char> {
    if idx == 0 {
        "R0"@
    } else if idx == 1 {
        "R1"@
    } else if idx == 2 {
        "R2"@
    } else if idx == 3 {
        "R3"@
    } else if idx == 4 {
        "R4"@
    } else if idx == 5 {
        "R5"@
    } else if idx == 6 {
        "R6"@
    } else if idx == 7 {
        "R7"@
    } else if idx == 8 {
        "R8"@
    } else if idx == 9 {
        "R9"@
    } else if idx == 10 {
        "R10"@
    } else if idx == 11 {
        "R11"@
    } else if idx == 12 {
        "R12"@
    } else if idx == 13 {
        "R13(SP)"@
    } else if idx == 14 {
        "R14(LR)"@
    } else if idx == 15 {
        "R15(PC)"@
    } else if idx == 16 {
        "CPSR"@
    } else {
        "SPSR"@
    }
}

/// The slot of the saved-status bank that belongs to a mode; `None` for the
/// two modes without a saved status word.
pub open spec fn spec_spsr_slot(m: Mode) -> Option<int> {
    match m {
        Mode::Fiq => Some(0int),
        Mode::Supervisor => Some(1int),
        Mode::Abort => Some(2int),
        Mode::Irq => Some(3int),
        Mode::Undefined => Some(4int),
        Mode::User => None,
        Mode::System => None,
    }
}

impl Register {
    /// A register file with every register, the status word and every saved
    /// status word zero.
    pub fn new() -> (r: Register)
        ensures
            r@ == spec_reg_zero(),
    {
        let zero = Psr::new();
        let reg = Register { r: [0u32; 13], sp: 0, lr: 0, pc: 0, cpsr: zero, spsr: [zero; 5] };
        proof {
            assert(reg@ =~= spec_reg_zero());
        }
        reg
    }

    /// Reads a register by index: 0 to 12 are the general-purpose registers,
    /// 13 to 15 the stack pointer, link register and program counter; any
    /// other index reports `InvalidRegisterIndex`.
    pub fn get_reg(&self, idx: u8) -> (r: Result<u32, Fault>)
        ensures
            r == spec_get_reg(self@, idx),
    {
        if idx <= 12 {
            Ok(self.r[idx as usize])
        } else if idx == REG_SP_INDEX {
            Ok(self.sp)
        } else if idx == REG_LR_INDEX {
            Ok(self.lr)
        } else if idx == REG_PC_INDEX {
            Ok(self.pc)
        } else {
            Err(Fault::InvalidRegisterIndex)
        }
    }

    /// Writes a register by index, under the same mapping as `get_reg`; no
    /// other slot changes. An index above 15 reports `InvalidRegisterIndex`
    /// and leaves the file untouched.
    pub fn set_reg(&mut self, idx: u8, val: u32) -> (r: Result<(), Fault>)
        ensures
            match spec_set_reg(old(self)@, idx, val) {
                Ok(rv) => r is Ok && final(self)@ == rv,
                Err(e) => r == Err::<(), Fault>(e) && final(self)@ == old(self)@,
            },
    {
        if idx <= 12 {
            self.r[idx as usize] = val;
            proof {
                assert(self@ =~= spec_set_reg(old(self)@, idx, val)->Ok_0);
            }
            Ok(())
        } else if idx == REG_SP_INDEX {
            self.sp = val;
            proof {
                assert(self@ =~= spec_set_reg(old(self)@, idx, val)->Ok_0);
            }
            Ok(())
        } else if idx == REG_LR_INDEX {
            self.lr = val;
            proof {
                assert(self@ =~= spec_set_reg(old(self)@, idx, val)->Ok_0);
            }
            Ok(())
        } else if idx == REG_PC_INDEX {
            self.pc = val;
            proof {
                assert(self@ =~= spec_set_reg(old(self)@, idx, val)->Ok_0);
            }
            Ok(())
        } else {
            Err(Fault::InvalidRegisterIndex)
        }
    }

    /// Reads the saved status word of a privileged exception mode; the User
    /// and System modes have none, which reports `InvalidRegisterIndex`.
    pub fn get_spsr(&self, m: Mode) -> (r: Result<Psr, Fault>)
        ensures
            match spec_spsr_slot(m) {
                Some(slot) => r matches Ok(p) && p@ == self@.spsr[slot],
                None => r == Err::<Psr, Fault>(Fault::InvalidRegisterIndex),
            },
    {
        match m {
            Mode::Fiq => Ok(self.spsr[0]),
            Mode::Supervisor => Ok(self.spsr[1]),
            Mode::Abort => Ok(self.spsr[2]),
            Mode::Irq => Ok(self.spsr[3]),
            Mode::Undefined => Ok(self.spsr[4]),
            Mode::User => Err(Fault::InvalidRegisterIndex),
            Mode::System => Err(Fault::InvalidRegisterIndex),
        }
    }

    /// Writes the saved status word of a privileged exception mode; no other
    /// slot changes. The User and System modes have none, which reports
    /// `InvalidRegisterIndex` and leaves the bank untouched.
    pub fn set_spsr(&mut self, m: Mode, p: Psr) -> (r: Result<(), Fault>)
        ensures
            match spec_spsr_slot(m) {
                Some(slot) => r is Ok && final(self)@ == (RegView {
                    spsr: old(self)@.spsr.update(slot, p@),
                    ..old(self)@
                }),
                None => r == Err::<(), Fault>(Fault::InvalidRegisterIndex) && final(self)@ == old(
                    self,
                )@,
            },
    {
        let slot: usize = match m {
            Mode::Fiq => 0,
            Mode::Supervisor => 1,
            Mode::Abort => 2,
            Mode::Irq => 3,
            Mode::Undefined => 4,
            Mode::User => {
                return Err(Fault::InvalidRegisterIndex);
            },
            Mode::System => {
                return Err(Fault::InvalidRegisterIndex);
            },
        };
        self.spsr[slot] = p;
        proof {
            assert(self@ =~= (RegView {
                spsr: old(self)@.spsr.update(slot as int, p@),
                ..old(self)@
            }));
        }
        Ok(())
    }

    /// The display name of a register slot: indices 0 to 15 name the
    /// registers, 16 the current status word, 17 the saved status word; any
    /// other index reports `InvalidRegisterIndex`.
    pub fn get_reg_str(idx: u8) -> (r: Result<String, Fault>)
        ensures
            idx <= 17 ==> (r matches Ok(s) && s@ == spec_reg_name(idx)),
            idx > 17 ==> r == Err::<String, Fault>(Fault::InvalidRegisterIndex),
    {
        match idx {
            0 => Ok("R0".to_owned()),
            1 => Ok("R1".to_owned()),
            2 => Ok("R2".to_owned()),
            3 => Ok("R3".to_owned()),
            4 => Ok("R4".to_owned()),
            5 => Ok("R5".to_owned()),
            6 => Ok("R6".to_owned()),
            7 => Ok("R7".to_owned()),
            8 => Ok("R8".to_owned()),
            9 => Ok("R9".to_owned()),
            10 => Ok("R10".to_owned()),
            11 => Ok("R11".to_owned()),
            12 => Ok("R12".to_owned()),
            13 => Ok("R13(SP)".to_owned()),
            14 => Ok("R14(LR)".to_owned()),
            15 => Ok("R15(PC)".to_owned()),
            16 => Ok("CPSR".to_owned()),
            17 => Ok("SPSR".to_owned()),
            _ => Err(Fault::InvalidRegisterIndex),
        }
    }
}

} // verus!
