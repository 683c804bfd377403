//! Classification and execution of 32-bit instruction words: the top eight
//! bits select an opcode group, the low twenty-four bits an operand case
//! inside the group. The implemented groups are a no-op/move family, an add
//! family and a subtract family, each with a handful of fixed register-pair
//! encodings; any other word is a decode fault carrying the raw bits.

use vstd::prelude::*;
use crate::common::Fault;
use crate::cpu::{spec_wadd, CpuView, CPU};
use crate::register::RegView;
use crate::thumb_exec::{spec_with_r, spec_with_tick_add};

verus! {

/// A decoded 32-bit instruction.
#[derive(Clone, Copy, Debug, PartialEq, Eq, Structural)]
pub enum ArmInstruction {
    /// No effect beyond the program-counter advance.
    Nop,
    /// Destination and source register: the destination takes the source's
    /// value.
    MovReg(u8, u8),
    /// Destination, first and second operand registers: wrapping addition.
    AddReg(u8, u8, u8),
    /// Destination, first and second operand registers: wrapping
    /// subtraction.
    SubReg(u8, u8, u8),
}

/// Every register field of a decoded 32-bit instruction lies in the
/// general-purpose range.
pub open spec fn spec_arm_instr_wf(i: ArmInstruction) -> bool {
    match i {
        ArmInstruction::Nop => true,
        ArmInstruction::MovReg(rd, rm) => rd <= 12 && rm <= 12,
        ArmInstruction::AddReg(rd, rn, rm) => rd <= 12 && rn <= 12 && rm <= 12,
        ArmInstruction::SubReg(rd, rn, rm) => rd <= 12 && rn <= 12 && rm <= 12,
    }
}

/// The two-stage classification of a 32-bit word: opcode group from the top
/// eight bits, operand case from the low twenty-four.
pub open spec fn spec_arm_decode(w: u32) -> Result<ArmInstruction, Fault> {
    let group = (w >> 24) & 0xFF;
    let low = w & 0x00FF_FFFF;
    if group == 0 {
        if low == 0 {
            Ok(ArmInstruction::Nop)
        } else if low <= 4 {
            Ok(ArmInstruction::MovReg(0, (low - 1) as u8))
        } else {
            Err(Fault::UnknownInstruction(w))
        }
    } else if group == 1 {
        if low <= 4 {
            Ok(ArmInstruction::AddReg(0, 0, low as u8))
        } else {
            Err(Fault::UnknownInstruction(w))
        }
    } else if group == 2 {
        if low <= 4 {
            Ok(ArmInstruction::SubReg(0, 0, low as u8))
        } else {
            Err(Fault::UnknownInstruction(w))
        }
    } else {
        Err(Fault::UnknownInstruction(w))
    }
}

/// The machine with the program counter advanced past one 32-bit
/// instruction and one tick counted, wrapping.
pub open spec fn spec_arm_step_done(s: CpuView) -> CpuView {
    spec_with_tick_add(
        CpuView { reg: RegView { pc: spec_wadd(s.reg.pc, 4), ..s.reg }, ..s },
        1,
    )
}

/// The whole machine effect of one decoded 32-bit instruction. None of the
/// implemented encodings touches the condition flags.
pub open spec fn spec_arm_exec(s: CpuView, i: ArmInstruction) -> CpuView {
    match i {
        ArmInstruction::Nop => spec_arm_step_done(s),
        ArmInstruction::MovReg(rd, rm) => spec_arm_step_done(
            spec_with_r(s, rd as int, s.reg.r[rm as int]),
        ),
        ArmInstruction::AddReg(rd, rn, rm) => spec_arm_step_done(
            spec_with_r(s, rd as int, spec_wadd(s.reg.r[rn as int], s.reg.r[rm as int] as int)),
        ),
        ArmInstruction::SubReg(rd, rn, rm) => spec_arm_step_done(
            spec_with_r(s, rd as int, spec_wadd(s.reg.r[rn as int], -(s.reg.r[rm as int] as int))),
        ),
    }
}

/// Classifies a 32-bit instruction word: opcode group first, then the
/// operand case; a word outside the implemented encodings reports
/// `UnknownInstruction` carrying the raw bits.
pub fn arm_op_decode(op: u32) -> (r: Result<ArmInstruction, Fault>)
    ensures
        r == spec_arm_decode(op),
        r matches Ok(i) ==> spec_arm_instr_wf(i),
{
    let group = (op >> 24) & 0xFF;
    let low = op & 0x00FF_FFFF;
    if group == 0 {
        if low == 0 {
            Ok(ArmInstruction::Nop)
        } else if low <= 4 {
            Ok(ArmInstruction::MovReg(0, (low - 1) as u8))
        } else {
            Err(Fault::UnknownInstruction(op))
        }
    } else if group == 1 {
        if low <= 4 {
            Ok(ArmInstruction::AddReg(0, 0, low as u8))
        } else {
            Err(Fault::UnknownInstruction(op))
        }
    } else if group == 2 {
        if low <= 4 {
            Ok(ArmInstruction::SubReg(0, 0, low as u8))
        } else {
            Err(Fault::UnknownInstruction(op))
        }
    } else {
        Err(Fault::UnknownInstruction(op))
    }
}

/// Executes one decoded 32-bit instruction: the register effect, then the
/// program-counter advance past the 32-bit instruction and one tick.
pub fn arm_op_exec(cpu: &mut CPU, instr: ArmInstruction)
    requires
        old(cpu).wf(),
        spec_arm_instr_wf(instr),
    ensures
        final(cpu).wf(),
        final(cpu)@ == spec_arm_exec(old(cpu)@, instr),
{
    match instr {
        ArmInstruction::Nop => {},
        ArmInstruction::MovReg(rd, rm) => {
            let v = cpu.reg.r[rm as usize];
            cpu.reg.r[rd as usize] = v;
        },
        ArmInstruction::AddReg(rd, rn, rm) => {
            let v = cpu.reg.r[rn as usize].wrapping_add(cpu.reg.r[rm as usize]);
            cpu.reg.r[rd as usize] = v;
        },
        ArmInstruction::SubReg(rd, rn, rm) => {
            let v = cpu.reg.r[rn as usize].wrapping_sub(cpu.reg.r[rm as usize]);
            cpu.reg.r[rd as usize] = v;
        },
    }
    cpu.reg.pc = cpu.reg.pc.wrapping_add(4);
    cpu.tick = cpu.tick.wrapping_add(1);
    proof {
        assert(cpu@ =~= spec_arm_exec(old(cpu)@, instr));
    }
}

} // verus!
