//! The processor core: register file, memory bus and cycle counter, the
//! shared flag-update rule, and the fetch-decode-execute step.

use vstd::prelude::*;
use crate::bus::{spec_bus_wf, spec_bus_zero, spec_read16, Bus, BusView};
use crate::common::Fault;
use crate::psr::{spec_flag, spec_with_flag, FLAG_C, FLAG_N, FLAG_T, FLAG_V, FLAG_Z};
use crate::register::{spec_reg_zero, RegView, Register};

verus! {

/// The processor core: the bus it owns exclusively, the register file, and
/// the per-instruction cycle counter.
pub struct CPU {
    pub bus: Bus,
    pub reg: Register,
    pub tick: u32,
}

/// The mathematical value of the whole machine: register file, bus contents
/// and cycle counter.
#[verifier::ext_equal]
pub struct CpuView {
    pub reg: RegView,
    pub bus: BusView,
    pub tick: u32,
}

impl View for CPU {
    type V = CpuView;

    open spec fn view(&self) -> CpuView {
        CpuView { reg: self.reg@, bus: self.bus@, tick: self.tick }
    }
}

/// Addition of a (possibly negative) displacement to a 32-bit value,
/// wrapping around the 32-bit space. Defined for displacements of magnitude
/// below 2^32, which covers every use in this core.
pub open spec fn spec_wadd(a: u32, d: int) -> u32 {
    if a + d > u32::MAX {
        (a + d - 0x1_0000_0000) as u32
    } else if a + d < 0 {
        (a + d + 0x1_0000_0000) as u32
    } else {
        (a + d) as u32
    }
}

/// The status word after the shared flag-update rule: Negative is set
/// exactly when bit 31 of the result is set, Zero exactly when the result is
/// zero, Carry and Overflow copy the operation's own carry and
/// signed-overflow conditions, and no other bit changes.
pub open spec fn spec_psr_update(w: u32, ret: u32, is_carry: bool, is_ovf: bool) -> u32 {
    spec_with_flag(
        spec_with_flag(
            spec_with_flag(spec_with_flag(w, FLAG_N, ret & 0x8000_0000 != 0), FLAG_Z, ret == 0),
            FLAG_C,
            is_carry,
        ),
        FLAG_V,
        is_ovf,
    )
}

/// The flag invariants of the shared flag-update rule, for every status word
/// and every 32-bit result: Negative holds exactly when bit 31 of the result
/// is set; Zero exactly when the result is zero; Carry and Overflow equal
/// exactly the caller-supplied conditions; and the bits outside the four
/// condition flags are untouched, so no flag contaminates another.
pub proof fn lemma_flag_update_bits(w: u32, ret: u32, is_carry: bool, is_ovf: bool)
    ensures
        spec_flag(spec_psr_update(w, ret, is_carry, is_ovf), FLAG_N) <==> (ret & 0x8000_0000 != 0),
        spec_flag(spec_psr_update(w, ret, is_carry, is_ovf), FLAG_Z) <==> (ret == 0),
        spec_flag(spec_psr_update(w, ret, is_carry, is_ovf), FLAG_C) == is_carry,
        spec_flag(spec_psr_update(w, ret, is_carry, is_ovf), FLAG_V) == is_ovf,
        spec_psr_update(w, ret, is_carry, is_ovf) & 0x0FFF_FFFF == w & 0x0FFF_FFFF,
{
    let x = spec_psr_update(w, ret, is_carry, is_ovf);
    assert((x & 0x8000_0000u32 != 0 <==> (ret & 0x8000_0000u32 != 0)) && (x & 0x4000_0000u32 != 0
        <==> ret == 0) && (x & 0x2000_0000u32 != 0 <==> is_carry) && (x & 0x1000_0000u32 != 0 <==>
    is_ovf) && x & 0x0FFF_FFFFu32 == w & 0x0FFF_FFFFu32) by (bit_vector)
        requires
            x == spec_psr_update(w, ret, is_carry, is_ovf),
    ;
}

impl CPU {
    /// The bus the core owns is well-formed; the register file needs no
    /// separate condition.
    pub open spec fn wf(&self) -> bool {
        spec_bus_wf(self@.bus)
    }

    /// A core with zeroed registers, a zeroed status word, zero-filled
    /// memory and a zero cycle counter. The zero status word has the
    /// instruction-set-select bit clear, so the 32-bit set is active.
    pub fn new() -> (r: CPU)
        ensures
            r.wf(),
            r@.reg == spec_reg_zero(),
            r@.bus == spec_bus_zero(),
            r@.tick == 0u32,
    {
        CPU { bus: Bus::new(), reg: Register::new(), tick: 0 }
    }

    /// The shared flag-update rule invoked by every flag-setting operation:
    /// Negative from bit 31 of the result, Zero from the result being zero,
    /// Carry and Overflow from the operation's own conditions. Nothing else
    /// about the machine changes.
    pub fn psr_op_update(&mut self, ret: u32, is_carry: bool, is_ovf: bool)
        ensures
            final(self)@ == (CpuView {
                reg: RegView {
                    cpsr: spec_psr_update(old(self)@.reg.cpsr, ret, is_carry, is_ovf),
                    ..old(self)@.reg
                },
                ..old(self)@
            }),
    {
        self.reg.cpsr.set_n(ret & 0x8000_0000 != 0);
        self.reg.cpsr.set_z(ret == 0);
        self.reg.cpsr.set_c(is_carry);
        self.reg.cpsr.set_v(is_ovf);
        proof {
            assert(self@ =~= (CpuView {
                reg: RegView {
                    cpsr: spec_psr_update(old(self)@.reg.cpsr, ret, is_carry, is_ovf),
                    ..old(self)@.reg
                },
                ..old(self)@
            }));
        }
    }

    /// One 16-bit step: fetch a halfword at the program counter, classify
    /// it, execute it.
    fn op_thumb(&mut self) -> (r: Result<(), Fault>)
        requires
            old(self).wf(),
        ensures
            final(self).wf(),
            match spec_step_thumb(old(self)@) {
                Ok(s2) => r is Ok && final(self)@ == s2,
                Err(e) => r == Err::<(), Fault>(e) && final(self)@ == old(self)@,
            },
    {
        let instruction = match self.bus.read_hword(self.reg.pc) {
            Ok(w) => w,
            Err(e) => {
                return Err(e);
            },
        };
        match crate::thumb_op::thumb_format_decode(instruction) {
            Ok(p) => crate::thumb_exec::thumb_op_exec(self, p.0, p.1),
            Err(e) => Err(e),
        }
    }

    /// One 32-bit step: assemble the word from two consecutive halfword
    /// reads, high half first, classify it, execute it.
    fn op_arm(&mut self) -> (r: Result<(), Fault>)
        requires
            old(self).wf(),
        ensures
            final(self).wf(),
            match spec_step_arm(old(self)@) {
                Ok(s2) => r is Ok && final(self)@ == s2,
                Err(e) => r == Err::<(), Fault>(e) && final(self)@ == old(self)@,
            },
    {
        let hi = match self.bus.read_hword(self.reg.pc) {
            Ok(w) => w,
            Err(e) => {
                return Err(e);
            },
        };
        let lo = match self.bus.read_hword(self.reg.pc.wrapping_add(2)) {
            Ok(w) => w,
            Err(e) => {
                return Err(e);
            },
        };
        let word = ((hi as u32) << 16) | (lo as u32);
        match crate::arm_op::arm_op_decode(word) {
            Ok(instr) => {
                crate::arm_op::arm_op_exec(self, instr);
                Ok(())
            },
            Err(e) => Err(e),
        }
    }

    /// One fetch-decode-execute step. The instruction-set-select bit of the
    /// status word is the single source of truth for which decoder runs: set
    /// selects the 16-bit path, clear the 32-bit path. Any fetch, decode or
    /// bus fault aborts the step and leaves the machine exactly as it was;
    /// the bus's per-tick hook runs after the instruction completes.
    pub fn proc(&mut self) -> (r: Result<(), Fault>)
        requires
            old(self).wf(),
        ensures
            final(self).wf(),
            match spec_step(old(self)@) {
                Ok(s2) => r is Ok && final(self)@ == s2,
                Err(e) => r == Err::<(), Fault>(e) && final(self)@ == old(self)@,
            },
    {
        let r = if self.reg.cpsr.get_thumb() {
            self.op_thumb()
        } else {
            self.op_arm()
        };
        if r.is_ok() {
            let t = self.tick;
            self.bus.update(t);
            proof {
                assert(self@ =~= spec_step(old(self)@)->Ok_0);
            }
        }
        r
    }
}

/// The 16-bit half of the step function: fetch, classify, execute.
pub open spec fn spec_step_thumb(s: CpuView) -> Result<CpuView, Fault> {
    match spec_read16(s.bus, s.reg.pc) {
        Ok(w) => match crate::thumb_op::spec_thumb_decode(w) {
            Some(p) => crate::thumb_exec::spec_thumb_exec(s, p.1),
            None => Err(Fault::UnknownInstruction(w as u32)),
        },
        Err(e) => Err(e),
    }
}

/// The 32-bit half of the step function: two consecutive halfword fetches,
/// high half first, then classify and execute.
pub open spec fn spec_step_arm(s: CpuView) -> Result<CpuView, Fault> {
    match spec_read16(s.bus, s.reg.pc) {
        Ok(hi) => match spec_read16(s.bus, spec_wadd(s.reg.pc, 2)) {
            Ok(lo) => {
                let w = ((hi as u32) << 16) | (lo as u32);
                match crate::arm_op::spec_arm_decode(w) {
                    Ok(i) => Ok(crate::arm_op::spec_arm_exec(s, i)),
                    Err(e) => Err(e),
                }
            },
            Err(e) => Err(e),
        },
        Err(e) => Err(e),
    }
}

/// What one whole step does: the instruction-set-select bit picks the
/// decoder, and a fault leaves the machine untouched. The bus hook that
/// runs after the instruction changes nothing on this bus.
pub open spec fn spec_step(s: CpuView) -> Result<CpuView, Fault> {
    if spec_flag(s.reg.cpsr, FLAG_T) {
        spec_step_thumb(s)
    } else {
        spec_step_arm(s)
    }
}

} // verus!
