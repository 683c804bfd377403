//! Execution semantics of the 16-bit instruction set: one spec-level
//! interpreter, `spec_thumb_exec`, states the whole machine effect of every
//! instruction, and each executor function is proved to realize it.
//!
//! Every instruction's effect is atomic: an executor that reports a fault
//! leaves the machine exactly as it was. The program counter advances by the
//! instruction size unless the instruction itself redirects it.

use vstd::prelude::*;
use crate::bus::{
    spec_read8, spec_read16, spec_read32, spec_write8, spec_write16, spec_write32, Bus, BusView,
};
use crate::common::Fault;
use crate::cpu::{spec_psr_update, spec_wadd, CpuView, CPU};
use crate::psr::{spec_flag, spec_with_flag, spec_with_mode, Mode, FLAG_C, FLAG_N, FLAG_T, FLAG_V, FLAG_Z};
use crate::register::RegView;
use crate::thumb_op::{spec_instr_wf, spec_thumb_encode, ThumbFormat, ThumbInstruction};

verus! {

/// The machine with one general-purpose register replaced.
pub open spec fn spec_with_r(s: CpuView, i: int, v: u32) -> CpuView {
    CpuView { reg: RegView { r: s.reg.r.update(i, v), ..s.reg }, ..s }
}

/// The machine with the program counter replaced.
pub open spec fn spec_with_pc(s: CpuView, v: u32) -> CpuView {
    CpuView { reg: RegView { pc: v, ..s.reg }, ..s }
}

/// The machine with the stack pointer replaced.
pub open spec fn spec_with_sp(s: CpuView, v: u32) -> CpuView {
    CpuView { reg: RegView { sp: v, ..s.reg }, ..s }
}

/// The machine with the link register replaced.
pub open spec fn spec_with_lr(s: CpuView, v: u32) -> CpuView {
    CpuView { reg: RegView { lr: v, ..s.reg }, ..s }
}

/// The machine with the bus contents replaced.
pub open spec fn spec_with_bus(s: CpuView, b: BusView) -> CpuView {
    CpuView { bus: b, ..s }
}

/// The machine after the shared flag-update rule ran for a result and the
/// operation's carry and overflow conditions.
pub open spec fn spec_with_flags(s: CpuView, ret: u32, c: bool, v: bool) -> CpuView {
    CpuView { reg: RegView { cpsr: spec_psr_update(s.reg.cpsr, ret, c, v), ..s.reg }, ..s }
}

/// The machine with the cycle counter advanced, wrapping.
pub open spec fn spec_with_tick_add(s: CpuView, t: int) -> CpuView {
    CpuView { tick: spec_wadd(s.tick, t), ..s }
}

/// The machine with the program counter advanced past one 16-bit
/// instruction and the cycle counter advanced, wrapping: the ending of every
/// instruction that does not redirect control.
pub open spec fn spec_step_done(s: CpuView, t: int) -> CpuView {
    spec_with_tick_add(spec_with_pc(s, spec_wadd(s.reg.pc, 2)), t)
}

/// The target of a relative branch: the program counter, plus the pipeline
/// bias of one instruction, plus the offset doubled, wrapping.
pub open spec fn spec_branch_target(pc: u32, off: int) -> u32 {
    spec_wadd(pc, 2 + 2 * off)
}

/// A register read for the high-register operations: indices 0 to 12 select
/// the general registers, 13 to 15 the named slots.
pub open spec fn spec_reg_sel(rv: RegView, i: int) -> u32 {
    if i <= 12 {
        rv.r[i]
    } else if i == 13 {
        rv.sp
    } else if i == 14 {
        rv.lr
    } else {
        rv.pc
    }
}

/// A register write for the high-register operations, under the same index
/// mapping as `spec_reg_sel`.
pub open spec fn spec_reg_store(s: CpuView, i: int, v: u32) -> CpuView {
    if i <= 12 {
        spec_with_r(s, i, v)
    } else if i == 13 {
        spec_with_sp(s, v)
    } else if i == 14 {
        spec_with_lr(s, v)
    } else {
        spec_with_pc(s, v)
    }
}

/// A byte sign-extended to 32 bits.
pub open spec fn spec_sext8(b: u8) -> u32 {
    if b >= 0x80 {
        (0xFFFF_FF00 + b) as u32
    } else {
        b as u32
    }
}

/// A halfword sign-extended to 32 bits.
pub open spec fn spec_sext16(h: u16) -> u32 {
    if h >= 0x8000 {
        (0xFFFF_0000 + h) as u32
    } else {
        h as u32
    }
}

/// The result of a shift by immediate: logical left, logical right or
/// arithmetic right; a zero amount means no shift for logical left and a
/// full 32-bit shift for the right shifts.
pub open spec fn spec_shifted(op: u8, val: u32, n: u8) -> u32 {
    if op == 0 {
        if n == 0 {
            val
        } else {
            val << n
        }
    } else if op == 1 {
        if n == 0 {
            0u32
        } else {
            val >> n
        }
    } else {
        if n == 0 {
            if val & 0x8000_0000 != 0 {
                0xFFFF_FFFFu32
            } else {
                0u32
            }
        } else if val & 0x8000_0000 != 0 {
            (val >> n) | (0xFFFF_FFFFu32 << ((32 - n) as u32))
        } else {
            val >> n
        }
    }
}

/// The carry a shift by immediate leaves: the last bit shifted out, or the
/// carry flag unchanged for a left shift by zero.
pub open spec fn spec_shift_carry(op: u8, val: u32, n: u8, c_in: bool) -> bool {
    if op == 0 {
        if n == 0 {
            c_in
        } else {
            (val >> ((32 - n) as u32)) & 1 == 1
        }
    } else {
        if n == 0 {
            val & 0x8000_0000 != 0
        } else {
            (val >> ((n - 1) as u32)) & 1 == 1
        }
    }
}

/// The condition table of the conditional branch: which boolean function of
/// the four flags each of the fourteen condition codes tests.
pub open spec fn spec_cond_passed(cond: u8, w: u32) -> bool {
    let n = spec_flag(w, FLAG_N);
    let z = spec_flag(w, FLAG_Z);
    let c = spec_flag(w, FLAG_C);
    let v = spec_flag(w, FLAG_V);
    if cond == 0 {
        z
    } else if cond == 1 {
        !z
    } else if cond == 2 {
        c
    } else if cond == 3 {
        !c
    } else if cond == 4 {
        n
    } else if cond == 5 {
        !n
    } else if cond == 6 {
        v
    } else if cond == 7 {
        !v
    } else if cond == 8 {
        c && !z
    } else if cond == 9 {
        !c || z
    } else if cond == 10 {
        n == v
    } else if cond == 11 {
        n != v
    } else if cond == 12 {
        !z && (n == v)
    } else {
        z || (n != v)
    }
}

/// The number of set bits of a nine-entry register list at positions `i` and
/// above.
pub open spec fn spec_bits_from(rlist: u16, i: int) -> int
    decreases 9 - i,
{
    if i < 0 || i >= 9 {
        0
    } else {
        (if (rlist >> (i as u16)) & 1 == 1 {
            1int
        } else {
            0int
        }) + spec_bits_from(rlist, i + 1)
    }
}

/// The bus after the values selected by a register list are stored as words
/// at ascending addresses, four apart, starting at `addr`; the first fault
/// aborts the whole transfer.
pub open spec fn spec_multi_store(
    b: BusView,
    vals: Seq<u32>,
    rlist: u16,
    i: int,
    addr: u32,
) -> Result<BusView, Fault>
    decreases vals.len() - i,
{
    if i < 0 || i >= vals.len() {
        Ok(b)
    } else if (rlist >> (i as u16)) & 1 == 1 {
        match spec_write32(b, addr, vals[i]) {
            Ok(b2) => spec_multi_store(b2, vals, rlist, i + 1, spec_wadd(addr, 4)),
            Err(e) => Err(e),
        }
    } else {
        spec_multi_store(b, vals, rlist, i + 1, addr)
    }
}

/// The register file contents and the next free address after the registers
/// selected by a list are loaded as words from ascending addresses, four
/// apart, starting at `addr`; the first fault aborts the whole transfer.
pub open spec fn spec_multi_load(
    b: BusView,
    regs: Seq<u32>,
    rlist: u16,
    i: int,
    addr: u32,
) -> Result<(Seq<u32>, u32), Fault>
    decreases 8 - i,
{
    if i < 0 || i >= 8 {
        Ok((regs, addr))
    } else if (rlist >> (i as u16)) & 1 == 1 {
        match spec_read32(b, addr) {
            Ok(v) => spec_multi_load(b, regs.update(i, v), rlist, i + 1, spec_wadd(addr, 4)),
            Err(e) => Err(e),
        }
    } else {
        spec_multi_load(b, regs, rlist, i + 1, addr)
    }
}

/// The nine push sources: the eight low registers and the link register.
pub open spec fn spec_push_vals(s: CpuView) -> Seq<u32> {
    Seq::new(9, |i: int| if i < 8 { s.reg.r[i] } else { s.reg.lr })
}

/// The whole machine effect of one decoded 16-bit instruction: the new
/// machine state, or the fault that leaves the machine untouched.
pub open spec fn spec_thumb_exec(s: CpuView, instr: ThumbInstruction) -> Result<CpuView, Fault> {
    match instr {
        ThumbInstruction::MoveShiftedRegister(op, off5, rs, rd) => {
            let val = s.reg.r[rs as int];
            let res = spec_shifted(op, val, off5);
            let carry = spec_shift_carry(op, val, off5, spec_flag(s.reg.cpsr, FLAG_C));
            Ok(
                spec_step_done(
                    spec_with_flags(
                        spec_with_r(s, rd as int, res),
                        res,
                        carry,
                        spec_flag(s.reg.cpsr, FLAG_V),
                    ),
                    1,
                ),
            )
        },
        ThumbInstruction::AddSubtract(op, rn, rs, rd) => {
            let a = s.reg.r[rs as int];
            let b = if op >= 2 {
                rn as u32
            } else {
                s.reg.r[rn as int]
            };
            let res = if op == 0 || op == 2 {
                spec_wadd(a, b as int)
            } else {
                spec_wadd(a, -(b as int))
            };
            let carry = if op == 0 || op == 2 {
                a + b > u32::MAX
            } else {
                a >= b
            };
            Ok(spec_step_done(spec_with_flags(spec_with_r(s, rd as int, res), res, carry, false), 1))
        },
        ThumbInstruction::MoveCompareAddSubtractImmediate(op, rd, imm) => {
            let d = s.reg.r[rd as int];
            if op == 0 {
                let res = imm as u32;
                Ok(
                    spec_step_done(
                        spec_with_flags(
                            spec_with_r(s, rd as int, res),
                            res,
                            spec_flag(s.reg.cpsr, FLAG_C),
                            spec_flag(s.reg.cpsr, FLAG_V),
                        ),
                        1,
                    ),
                )
            } else if op == 1 {
                let res = spec_wadd(d, -(imm as int));
                Ok(spec_step_done(spec_with_flags(s, res, d >= imm as u32, false), 1))
            } else if op == 2 {
                let res = spec_wadd(d, imm as int);
                Ok(
                    spec_step_done(
                        spec_with_flags(spec_with_r(s, rd as int, res), res, d + imm > u32::MAX, false),
                        1,
                    ),
                )
            } else {
                let res = spec_wadd(d, -(imm as int));
                Ok(
                    spec_step_done(
                        spec_with_flags(spec_with_r(s, rd as int, res), res, d >= imm as u32, false),
                        1,
                    ),
                )
            }
        },
        ThumbInstruction::ALUOperation(op, rs, rd) => {
            let a = s.reg.r[rd as int];
            let b = s.reg.r[rs as int];
            if op == 0 {
                Ok(spec_step_done(spec_with_flags(spec_with_r(s, rd as int, a & b), a & b, false, false), 1))
            } else if op == 1 {
                Ok(spec_step_done(spec_with_flags(spec_with_r(s, rd as int, a ^ b), a ^ b, false, false), 1))
            } else if op == 2 {
                Ok(spec_step_done(spec_with_flags(spec_with_r(s, rd as int, a | b), a | b, false, false), 1))
            } else if op == 3 {
                Ok(
                    spec_step_done(
                        spec_with_flags(spec_with_r(s, rd as int, a & !b), a & !b, false, false),
                        1,
                    ),
                )
            } else if op == 4 {
                Ok(spec_step_done(spec_with_flags(spec_with_r(s, rd as int, !b), !b, false, false), 1))
            } else if op == 5 {
                Ok(spec_step_done(spec_with_flags(s, a & b, false, false), 1))
            } else {
                Err(Fault::UnknownInstruction(spec_thumb_encode(instr) as u32))
            }
        },
        ThumbInstruction::HighRegisterOperationsBranchExchange(op, h1, h2, rs, rd) => {
            let fs = rs + 8 * h2;
            let fd = rd + 8 * h1;
            let vs = spec_reg_sel(s.reg, fs as int);
            let vd = spec_reg_sel(s.reg, fd as int);
            if op == 0 {
                let res = spec_wadd(vd, vs as int);
                if fd == 15 {
                    Ok(spec_with_tick_add(spec_with_pc(s, res), 1))
                } else {
                    Ok(spec_step_done(spec_reg_store(s, fd as int, res), 1))
                }
            } else if op == 1 {
                let res = spec_wadd(vd, -(vs as int));
                Ok(spec_step_done(spec_with_flags(s, res, vd >= vs, false), 1))
            } else if op == 2 {
                if fd == 15 {
                    Ok(spec_with_tick_add(spec_with_pc(s, vs), 1))
                } else {
                    Ok(spec_step_done(spec_reg_store(s, fd as int, vs), 1))
                }
            } else {
                if h1 == 1 {
                    Err(Fault::UnknownInstruction(spec_thumb_encode(instr) as u32))
                } else {
                    let s2 = CpuView {
                        reg: RegView {
                            pc: vs & 0xFFFF_FFFE,
                            cpsr: spec_with_flag(s.reg.cpsr, FLAG_T, vs & 1 == 1),
                            ..s.reg
                        },
                        ..s
                    };
                    Ok(spec_with_tick_add(s2, 3))
                }
            }
        },
        ThumbInstruction::PCRelativeLoad(rd, w8) => {
            let base = spec_wadd(s.reg.pc, 4) & 0xFFFF_FFFC;
            let addr = spec_wadd(base, 4 * (w8 as int));
            match spec_read32(s.bus, addr) {
                Ok(v) => Ok(spec_step_done(spec_with_r(s, rd as int, v), 1)),
                Err(e) => Err(e),
            }
        },
        ThumbInstruction::LoadStoreWithRelativeOffset(l, b, ro, rb, rd) => {
            let addr = spec_wadd(s.reg.r[rb as int], s.reg.r[ro as int] as int);
            if l == 0 && b == 0 {
                match spec_write32(s.bus, addr, s.reg.r[rd as int]) {
                    Ok(b2) => Ok(spec_step_done(spec_with_bus(s, b2), 1)),
                    Err(e) => Err(e),
                }
            } else if l == 0 && b == 1 {
                match spec_write8(s.bus, addr, (s.reg.r[rd as int] & 0xFF) as u8) {
                    Ok(b2) => Ok(spec_step_done(spec_with_bus(s, b2), 1)),
                    Err(e) => Err(e),
                }
            } else if l == 1 && b == 0 {
                match spec_read32(s.bus, addr) {
                    Ok(v) => Ok(spec_step_done(spec_with_r(s, rd as int, v), 1)),
                    Err(e) => Err(e),
                }
            } else {
                match spec_read8(s.bus, addr) {
                    Ok(v) => Ok(spec_step_done(spec_with_r(s, rd as int, v as u32), 1)),
                    Err(e) => Err(e),
                }
            }
        },
        ThumbInstruction::LoadStoreSignExtendedByteHalfword(h, sx, ro, rb, rd) => {
            let addr = spec_wadd(s.reg.r[rb as int], s.reg.r[ro as int] as int);
            if sx == 0 && h == 0 {
                match spec_write16(s.bus, addr, (s.reg.r[rd as int] & 0xFFFF) as u16) {
                    Ok(b2) => Ok(spec_step_done(spec_with_bus(s, b2), 1)),
                    Err(e) => Err(e),
                }
            } else if sx == 0 && h == 1 {
                match spec_read16(s.bus, addr) {
                    Ok(v) => Ok(spec_step_done(spec_with_r(s, rd as int, v as u32), 1)),
                    Err(e) => Err(e),
                }
            } else if sx == 1 && h == 0 {
                match spec_read8(s.bus, addr) {
                    Ok(v) => Ok(spec_step_done(spec_with_r(s, rd as int, spec_sext8(v)), 1)),
                    Err(e) => Err(e),
                }
            } else {
                match spec_read16(s.bus, addr) {
                    Ok(v) => Ok(spec_step_done(spec_with_r(s, rd as int, spec_sext16(v)), 1)),
                    Err(e) => Err(e),
                }
            }
        },
        ThumbInstruction::LoadStoreWithImmediateOffset(b, l, off5, rb, rd) => {
            if b == 0 {
                let addr = spec_wadd(s.reg.r[rb as int], 4 * (off5 as int));
                if l == 0 {
                    match spec_write32(s.bus, addr, s.reg.r[rd as int]) {
                        Ok(b2) => Ok(spec_step_done(spec_with_bus(s, b2), 1)),
                        Err(e) => Err(e),
                    }
                } else {
                    match spec_read32(s.bus, addr) {
                        Ok(v) => Ok(spec_step_done(spec_with_r(s, rd as int, v), 1)),
                        Err(e) => Err(e),
                    }
                }
            } else {
                let addr = spec_wadd(s.reg.r[rb as int], off5 as int);
                if l == 0 {
                    match spec_write8(s.bus, addr, (s.reg.r[rd as int] & 0xFF) as u8) {
                        Ok(b2) => Ok(spec_step_done(spec_with_bus(s, b2), 1)),
                        Err(e) => Err(e),
                    }
                } else {
                    match spec_read8(s.bus, addr) {
                        Ok(v) => Ok(spec_step_done(spec_with_r(s, rd as int, v as u32), 1)),
                        Err(e) => Err(e),
                    }
                }
            }
        },
        ThumbInstruction::LoadStoreHalfword(l, off5, rb, rd) => {
            let addr = spec_wadd(s.reg.r[rb as int], 2 * (off5 as int));
            if l == 0 {
                match spec_write16(s.bus, addr, (s.reg.r[rd as int] & 0xFFFF) as u16) {
                    Ok(b2) => Ok(spec_step_done(spec_with_bus(s, b2), 1)),
                    Err(e) => Err(e),
                }
            } else {
                match spec_read16(s.bus, addr) {
                    Ok(v) => Ok(spec_step_done(spec_with_r(s, rd as int, v as u32), 1)),
                    Err(e) => Err(e),
                }
            }
        },
        ThumbInstruction::SPRelativeLoadStore(l, rd, w8) => {
            let addr = spec_wadd(s.reg.sp, 4 * (w8 as int));
            if l == 0 {
                match spec_write32(s.bus, addr, s.reg.r[rd as int]) {
                    Ok(b2) => Ok(spec_step_done(spec_with_bus(s, b2), 1)),
                    Err(e) => Err(e),
                }
            } else {
                match spec_read32(s.bus, addr) {
                    Ok(v) => Ok(spec_step_done(spec_with_r(s, rd as int, v), 1)),
                    Err(e) => Err(e),
                }
            }
        },
        ThumbInstruction::LoadAddress(spf, rd, w8) => {
            let base = if spf == 1 {
                s.reg.sp
            } else {
                spec_wadd(s.reg.pc, 4) & 0xFFFF_FFFC
            };
            let res = spec_wadd(base, 4 * (w8 as int));
            Ok(spec_step_done(spec_with_r(s, rd as int, res), 1))
        },
        ThumbInstruction::AddOffsetToStackPointer(sf, sw7) => {
            let d = if sf == 1 {
                -4 * (sw7 as int)
            } else {
                4 * (sw7 as int)
            };
            Ok(spec_step_done(spec_with_sp(s, spec_wadd(s.reg.sp, d)), 1))
        },
        ThumbInstruction::PushPopRegisters(l, r, rlist) => {
            if l == 0 {
                let rlist9 = (rlist as u16) | ((r as u16) << 8);
                let count = spec_bits_from(rlist9, 0);
                let start = spec_wadd(s.reg.sp, -4 * count);
                match spec_multi_store(s.bus, spec_push_vals(s), rlist9, 0, start) {
                    Ok(b2) => Ok(
                        spec_step_done(spec_with_sp(spec_with_bus(s, b2), start), 1),
                    ),
                    Err(e) => Err(e),
                }
            } else {
                match spec_multi_load(s.bus, s.reg.r, rlist as u16, 0, s.reg.sp) {
                    Ok(p) => {
                        let regs2 = p.0;
                        let a2 = p.1;
                        let s2 = CpuView { reg: RegView { r: regs2, ..s.reg }, ..s };
                        if r == 1 {
                            match spec_read32(s.bus, a2) {
                                Ok(v) => Ok(
                                    spec_with_tick_add(
                                        spec_with_sp(
                                            spec_with_pc(s2, v & 0xFFFF_FFFE),
                                            spec_wadd(a2, 4),
                                        ),
                                        1,
                                    ),
                                ),
                                Err(e) => Err(e),
                            }
                        } else {
                            Ok(spec_step_done(spec_with_sp(s2, a2), 1))
                        }
                    },
                    Err(e) => Err(e),
                }
            }
        },
        ThumbInstruction::MultipleLoadStore(l, rb, rlist) => {
            let base = s.reg.r[rb as int];
            if l == 0 {
                let count = spec_bits_from(rlist as u16, 0);
                match spec_multi_store(s.bus, s.reg.r.take(8), rlist as u16, 0, base) {
                    Ok(b2) => Ok(
                        spec_step_done(
                            spec_with_r(spec_with_bus(s, b2), rb as int, spec_wadd(base, 4 * count)),
                            1,
                        ),
                    ),
                    Err(e) => Err(e),
                }
            } else {
                match spec_multi_load(s.bus, s.reg.r, rlist as u16, 0, base) {
                    Ok(p) => {
                        let regs2 = p.0;
                        let a2 = p.1;
                        let regs3 = if (rlist >> rb) & 1 == 1 {
                            regs2
                        } else {
                            regs2.update(rb as int, a2)
                        };
                        Ok(spec_step_done(CpuView { reg: RegView { r: regs3, ..s.reg }, ..s }, 1))
                    },
                    Err(e) => Err(e),
                }
            }
        },
        ThumbInstruction::ConditionalBranch(cond, off8) => {
            if cond > 13 {
                Err(Fault::UnknownInstruction(spec_thumb_encode(instr) as u32))
            } else if spec_cond_passed(cond, s.reg.cpsr) {
                Ok(
                    spec_with_tick_add(
                        spec_with_pc(s, spec_branch_target(s.reg.pc, off8 as int)),
                        3,
                    ),
                )
            } else {
                Ok(spec_step_done(s, 1))
            }
        },
        ThumbInstruction::SoftwareInterrupt(v8) => {
            let s2 = CpuView {
                reg: RegView {
                    pc: v8 as u32,
                    cpsr: spec_with_mode(s.reg.cpsr, Mode::Supervisor),
                    lr: spec_wadd(s.reg.lr, 2),
                    ..s.reg
                },
                ..s
            };
            Ok(spec_with_tick_add(s2, 3))
        },
        ThumbInstruction::UnconditionalBranch(off11) => {
            Ok(
                spec_with_tick_add(
                    spec_with_pc(s, spec_branch_target(s.reg.pc, off11 as int)),
                    3,
                ),
            )
        },
        ThumbInstruction::LongBranchWithLink(h, off11) => {
            if h == 0 {
                let sx = if off11 >= 0x400 {
                    off11 - 0x800
                } else {
                    off11 as int
                };
                Ok(
                    spec_step_done(
                        spec_with_lr(s, spec_wadd(s.reg.pc, 2 + 4096 * sx)),
                        1,
                    ),
                )
            } else {
                let target = spec_wadd(s.reg.lr, 2 * (off11 as int));
                let s2 = CpuView {
                    reg: RegView {
                        pc: target,
                        lr: spec_wadd(s.reg.pc, 2) | 1,
                        ..s.reg
                    },
                    ..s
                };
                Ok(spec_with_tick_add(s2, 3))
            }
        },
    }
}

/// Advances the program counter past one 16-bit instruction and the cycle
/// counter by `t`, wrapping.
fn advance(cpu: &mut CPU, t: u32)
    ensures
        final(cpu)@ == spec_with_tick_add(
            spec_with_pc(old(cpu)@, spec_wadd(old(cpu)@.reg.pc, 2)),
            t as int,
        ),
{
    cpu.reg.pc = cpu.reg.pc.wrapping_add(2);
    cpu.tick = cpu.tick.wrapping_add(t);
    proof {
        assert(cpu@ =~= spec_with_tick_add(
            spec_with_pc(old(cpu)@, spec_wadd(old(cpu)@.reg.pc, 2)),
            t as int,
        ));
    }
}

/// Advances the cycle counter by `t`, wrapping.
fn add_ticks(cpu: &mut CPU, t: u32)
    ensures
        final(cpu)@ == spec_with_tick_add(old(cpu)@, t as int),
{
    cpu.tick = cpu.tick.wrapping_add(t);
    proof {
        assert(cpu@ =~= spec_with_tick_add(old(cpu)@, t as int));
    }
}

/// The target of a relative branch: the program counter plus the pipeline
/// bias of one instruction plus the doubled offset, wrapping.
fn branch_dest8(pc: u32, off: i8) -> (r: u32)
    ensures
        r == spec_branch_target(pc, off as int),
{
    let delta: i32 = (off as i32) * 2 + 2;
    pc.wrapping_add_signed(delta)
}

/// The target of an 11-bit relative branch, wrapping.
fn branch_dest11(pc: u32, off: i16) -> (r: u32)
    ensures
        r == spec_branch_target(pc, off as int),
{
    let delta: i32 = (off as i32) * 2 + 2;
    pc.wrapping_add_signed(delta)
}

/// ADD Rd, Rs: wrapping register addition; the carry flag copies the
/// carry-out of the addition, the overflow flag is cleared.
pub fn add(cpu: &mut CPU, rs: u8, rd: u8)
    requires
        rs < 8,
        rd < 8,
    ensures
        final(cpu)@ == spec_with_flags(
            spec_with_r(
                old(cpu)@,
                rd as int,
                spec_wadd(old(cpu)@.reg.r[rd as int], old(cpu)@.reg.r[rs as int] as int),
            ),
            spec_wadd(old(cpu)@.reg.r[rd as int], old(cpu)@.reg.r[rs as int] as int),
            old(cpu)@.reg.r[rd as int] + old(cpu)@.reg.r[rs as int] > u32::MAX,
            false,
        ),
{
    let a = cpu.reg.r[rd as usize];
    let b = cpu.reg.r[rs as usize];
    let ret = a.wrapping_add(b);
    let carry = b > u32::MAX - a;
    cpu.reg.r[rd as usize] = ret;
    cpu.psr_op_update(ret, carry, false);
    proof {
        assert(cpu@ =~= spec_with_flags(
            spec_with_r(old(cpu)@, rd as int, ret),
            ret,
            carry,
            false,
        ));
    }
}

/// SUB Rd, Rs: wrapping register subtraction; the carry flag is set exactly
/// when no borrow occurs, the overflow flag is cleared.
pub fn sub(cpu: &mut CPU, rs: u8, rd: u8)
    requires
        rs < 8,
        rd < 8,
    ensures
        final(cpu)@ == spec_with_flags(
            spec_with_r(
                old(cpu)@,
                rd as int,
                spec_wadd(old(cpu)@.reg.r[rd as int], -(old(cpu)@.reg.r[rs as int] as int)),
            ),
            spec_wadd(old(cpu)@.reg.r[rd as int], -(old(cpu)@.reg.r[rs as int] as int)),
            old(cpu)@.reg.r[rd as int] >= old(cpu)@.reg.r[rs as int],
            false,
        ),
{
    let a = cpu.reg.r[rd as usize];
    let b = cpu.reg.r[rs as usize];
    let ret = a.wrapping_sub(b);
    let carry = a >= b;
    cpu.reg.r[rd as usize] = ret;
    cpu.psr_op_update(ret, carry, false);
    proof {
        assert(cpu@ =~= spec_with_flags(
            spec_with_r(old(cpu)@, rd as int, ret),
            ret,
            carry,
            false,
        ));
    }
}

/// CMP Rd, Rs: the flags of SUB Rd, Rs with the result discarded.
pub fn cmp(cpu: &mut CPU, rs: u8, rd: u8)
    requires
        rs < 8,
        rd < 8,
    ensures
        final(cpu)@ == spec_with_flags(
            old(cpu)@,
            spec_wadd(old(cpu)@.reg.r[rd as int], -(old(cpu)@.reg.r[rs as int] as int)),
            old(cpu)@.reg.r[rd as int] >= old(cpu)@.reg.r[rs as int],
            false,
        ),
{
    let a = cpu.reg.r[rd as usize];
    let b = cpu.reg.r[rs as usize];
    let ret = a.wrapping_sub(b);
    cpu.psr_op_update(ret, a >= b, false);
    proof {
        assert(cpu@ =~= spec_with_flags(old(cpu)@, ret, a >= b, false));
    }
}

/// AND Rd, Rs: bitwise conjunction; carry and overflow are forced clear.
pub fn and(cpu: &mut CPU, rs: u8, rd: u8)
    requires
        rs < 8,
        rd < 8,
    ensures
        final(cpu)@ == spec_with_flags(
            spec_with_r(old(cpu)@, rd as int, old(cpu)@.reg.r[rd as int] & old(cpu)@.reg.r[rs as int]),
            old(cpu)@.reg.r[rd as int] & old(cpu)@.reg.r[rs as int],
            false,
            false,
        ),
{
    let ret = cpu.reg.r[rd as usize] & cpu.reg.r[rs as usize];
    cpu.reg.r[rd as usize] = ret;
    cpu.psr_op_update(ret, false, false);
    proof {
        assert(cpu@ =~= spec_with_flags(spec_with_r(old(cpu)@, rd as int, ret), ret, false, false));
    }
}

/// EOR Rd, Rs: bitwise exclusive or; carry and overflow are forced clear.
pub fn eor(cpu: &mut CPU, rs: u8, rd: u8)
    requires
        rs < 8,
        rd < 8,
    ensures
        final(cpu)@ == spec_with_flags(
            spec_with_r(old(cpu)@, rd as int, old(cpu)@.reg.r[rd as int] ^ old(cpu)@.reg.r[rs as int]),
            old(cpu)@.reg.r[rd as int] ^ old(cpu)@.reg.r[rs as int],
            false,
            false,
        ),
{
    let ret = cpu.reg.r[rd as usize] ^ cpu.reg.r[rs as usize];
    cpu.reg.r[rd as usize] = ret;
    cpu.psr_op_update(ret, false, false);
    proof {
        assert(cpu@ =~= spec_with_flags(spec_with_r(old(cpu)@, rd as int, ret), ret, false, false));
    }
}

/// ORR Rd, Rs: bitwise disjunction; carry and overflow are forced clear.
pub fn orr(cpu: &mut CPU, rs: u8, rd: u8)
    requires
        rs < 8,
        rd < 8,
    ensures
        final(cpu)@ == spec_with_flags(
            spec_with_r(old(cpu)@, rd as int, old(cpu)@.reg.r[rd as int] | old(cpu)@.reg.r[rs as int]),
            old(cpu)@.reg.r[rd as int] | old(cpu)@.reg.r[rs as int],
            false,
            false,
        ),
{
    let ret = cpu.reg.r[rd as usize] | cpu.reg.r[rs as usize];
    cpu.reg.r[rd as usize] = ret;
    cpu.psr_op_update(ret, false, false);
    proof {
        assert(cpu@ =~= spec_with_flags(spec_with_r(old(cpu)@, rd as int, ret), ret, false, false));
    }
}

/// BIC Rd, Rs: bit clear; carry and overflow are forced clear.
pub fn bic(cpu: &mut CPU, rs: u8, rd: u8)
    requires
        rs < 8,
        rd < 8,
    ensures
        final(cpu)@ == spec_with_flags(
            spec_with_r(
                old(cpu)@,
                rd as int,
                old(cpu)@.reg.r[rd as int] & !old(cpu)@.reg.r[rs as int],
            ),
            old(cpu)@.reg.r[rd as int] & !old(cpu)@.reg.r[rs as int],
            false,
            false,
        ),
{
    let ret = cpu.reg.r[rd as usize] & !cpu.reg.r[rs as usize];
    cpu.reg.r[rd as usize] = ret;
    cpu.psr_op_update(ret, false, false);
    proof {
        assert(cpu@ =~= spec_with_flags(spec_with_r(old(cpu)@, rd as int, ret), ret, false, false));
    }
}

/// MVN Rd, Rs: bitwise complement of Rs; carry and overflow are forced
/// clear.
pub fn mvn(cpu: &mut CPU, rs: u8, rd: u8)
    requires
        rs < 8,
        rd < 8,
    ensures
        final(cpu)@ == spec_with_flags(
            spec_with_r(old(cpu)@, rd as int, !old(cpu)@.reg.r[rs as int]),
            !old(cpu)@.reg.r[rs as int],
            false,
            false,
        ),
{
    let ret = !cpu.reg.r[rs as usize];
    cpu.reg.r[rd as usize] = ret;
    cpu.psr_op_update(ret, false, false);
    proof {
        assert(cpu@ =~= spec_with_flags(spec_with_r(old(cpu)@, rd as int, ret), ret, false, false));
    }
}

/// TST Rd, Rs: the flags of AND Rd, Rs with the result discarded.
pub fn tst(cpu: &mut CPU, rs: u8, rd: u8)
    requires
        rs < 8,
        rd < 8,
    ensures
        final(cpu)@ == spec_with_flags(
            old(cpu)@,
            old(cpu)@.reg.r[rd as int] & old(cpu)@.reg.r[rs as int],
            false,
            false,
        ),
{
    let ret = cpu.reg.r[rd as usize] & cpu.reg.r[rs as usize];
    cpu.psr_op_update(ret, false, false);
    proof {
        assert(cpu@ =~= spec_with_flags(old(cpu)@, ret, false, false));
    }
}

/// Branch if equal: taken exactly when the Zero flag is set; a taken branch
/// sets the program counter to its target and nothing else changes.
pub fn beq(cpu: &mut CPU, softset8: i8) -> (taken: bool)
    ensures
        taken == spec_flag(old(cpu)@.reg.cpsr, FLAG_Z),
        taken ==> final(cpu)@ == spec_with_pc(
            old(cpu)@,
            spec_branch_target(old(cpu)@.reg.pc, softset8 as int),
        ),
        !taken ==> final(cpu)@ == old(cpu)@,
{
    if cpu.reg.cpsr.get_z() {
        let t = branch_dest8(cpu.reg.pc, softset8);
        cpu.reg.pc = t;
        proof {
            assert(cpu@ =~= spec_with_pc(
                old(cpu)@,
                spec_branch_target(old(cpu)@.reg.pc, softset8 as int),
            ));
        }
        true
    } else {
        false
    }
}

/// Branch if not equal: taken exactly when the Zero flag is clear.
pub fn bne(cpu: &mut CPU, softset8: i8) -> (taken: bool)
    ensures
        taken == !spec_flag(old(cpu)@.reg.cpsr, FLAG_Z),
        taken ==> final(cpu)@ == spec_with_pc(
            old(cpu)@,
            spec_branch_target(old(cpu)@.reg.pc, softset8 as int),
        ),
        !taken ==> final(cpu)@ == old(cpu)@,
{
    if !cpu.reg.cpsr.get_z() {
        let t = branch_dest8(cpu.reg.pc, softset8);
        cpu.reg.pc = t;
        proof {
            assert(cpu@ =~= spec_with_pc(
                old(cpu)@,
                spec_branch_target(old(cpu)@.reg.pc, softset8 as int),
            ));
        }
        true
    } else {
        false
    }
}

/// Branch if carry set: taken exactly when the Carry flag is set.
pub fn bcs(cpu: &mut CPU, softset8: i8) -> (taken: bool)
    ensures
        taken == spec_flag(old(cpu)@.reg.cpsr, FLAG_C),
        taken ==> final(cpu)@ == spec_with_pc(
            old(cpu)@,
            spec_branch_target(old(cpu)@.reg.pc, softset8 as int),
        ),
        !taken ==> final(cpu)@ == old(cpu)@,
{
    if cpu.reg.cpsr.get_c() {
        let t = branch_dest8(cpu.reg.pc, softset8);
        cpu.reg.pc = t;
        proof {
            assert(cpu@ =~= spec_with_pc(
                old(cpu)@,
                spec_branch_target(old(cpu)@.reg.pc, softset8 as int),
            ));
        }
        true
    } else {
        false
    }
}

/// Branch if carry clear: taken exactly when the Carry flag is clear.
pub fn bcc(cpu: &mut CPU, softset8: i8) -> (taken: bool)
    ensures
        taken == !spec_flag(old(cpu)@.reg.cpsr, FLAG_C),
        taken ==> final(cpu)@ == spec_with_pc(
            old(cpu)@,
            spec_branch_target(old(cpu)@.reg.pc, softset8 as int),
        ),
        !taken ==> final(cpu)@ == old(cpu)@,
{
    if !cpu.reg.cpsr.get_c() {
        let t = branch_dest8(cpu.reg.pc, softset8);
        cpu.reg.pc = t;
        proof {
            assert(cpu@ =~= spec_with_pc(
                old(cpu)@,
                spec_branch_target(old(cpu)@.reg.pc, softset8 as int),
            ));
        }
        true
    } else {
        false
    }
}

/// Branch if negative: taken exactly when the Negative flag is set.
pub fn bmi(cpu: &mut CPU, softset8: i8) -> (taken: bool)
    ensures
        taken == spec_flag(old(cpu)@.reg.cpsr, FLAG_N),
        taken ==> final(cpu)@ == spec_with_pc(
            old(cpu)@,
            spec_branch_target(old(cpu)@.reg.pc, softset8 as int),
        ),
        !taken ==> final(cpu)@ == old(cpu)@,
{
    if cpu.reg.cpsr.get_n() {
        let t = branch_dest8(cpu.reg.pc, softset8);
        cpu.reg.pc = t;
        proof {
            assert(cpu@ =~= spec_with_pc(
                old(cpu)@,
                spec_branch_target(old(cpu)@.reg.pc, softset8 as int),
            ));
        }
        true
    } else {
        false
    }
}

/// Branch if positive or zero: taken exactly when the Negative flag is
/// clear.
pub fn bpl(cpu: &mut CPU, softset8: i8) -> (taken: bool)
    ensures
        taken == !spec_flag(old(cpu)@.reg.cpsr, FLAG_N),
        taken ==> final(cpu)@ == spec_with_pc(
            old(cpu)@,
            spec_branch_target(old(cpu)@.reg.pc, softset8 as int),
        ),
        !taken ==> final(cpu)@ == old(cpu)@,
{
    if !cpu.reg.cpsr.get_n() {
        let t = branch_dest8(cpu.reg.pc, softset8);
        cpu.reg.pc = t;
        proof {
            assert(cpu@ =~= spec_with_pc(
                old(cpu)@,
                spec_branch_target(old(cpu)@.reg.pc, softset8 as int),
            ));
        }
        true
    } else {
        false
    }
}

/// Branch if overflow set: taken exactly when the Overflow flag is set.
pub fn bvs(cpu: &mut CPU, softset8: i8) -> (taken: bool)
    ensures
        taken == spec_flag(old(cpu)@.reg.cpsr, FLAG_V),
        taken ==> final(cpu)@ == spec_with_pc(
            old(cpu)@,
            spec_branch_target(old(cpu)@.reg.pc, softset8 as int),
        ),
        !taken ==> final(cpu)@ == old(cpu)@,
{
    if cpu.reg.cpsr.get_v() {
        let t = branch_dest8(cpu.reg.pc, softset8);
        cpu.reg.pc = t;
        proof {
            assert(cpu@ =~= spec_with_pc(
                old(cpu)@,
                spec_branch_target(old(cpu)@.reg.pc, softset8 as int),
            ));
        }
        true
    } else {
        false
    }
}

/// Branch if overflow clear: taken exactly when the Overflow flag is clear.
pub fn bvc(cpu: &mut CPU, softset8: i8) -> (taken: bool)
    ensures
        taken == !spec_flag(old(cpu)@.reg.cpsr, FLAG_V),
        taken ==> final(cpu)@ == spec_with_pc(
            old(cpu)@,
            spec_branch_target(old(cpu)@.reg.pc, softset8 as int),
        ),
        !taken ==> final(cpu)@ == old(cpu)@,
{
    if !cpu.reg.cpsr.get_v() {
        let t = branch_dest8(cpu.reg.pc, softset8);
        cpu.reg.pc = t;
        proof {
            assert(cpu@ =~= spec_with_pc(
                old(cpu)@,
                spec_branch_target(old(cpu)@.reg.pc, softset8 as int),
            ));
        }
        true
    } else {
        false
    }
}

/// Branch if unsigned higher: taken exactly when Carry is set and Zero is
/// clear.
pub fn bhi(cpu: &mut CPU, softset8: i8) -> (taken: bool)
    ensures
        taken == (spec_flag(old(cpu)@.reg.cpsr, FLAG_C) && !spec_flag(
            old(cpu)@.reg.cpsr,
            FLAG_Z,
        )),
        taken ==> final(cpu)@ == spec_with_pc(
            old(cpu)@,
            spec_branch_target(old(cpu)@.reg.pc, softset8 as int),
        ),
        !taken ==> final(cpu)@ == old(cpu)@,
{
    if cpu.reg.cpsr.get_c() && !cpu.reg.cpsr.get_z() {
        let t = branch_dest8(cpu.reg.pc, softset8);
        cpu.reg.pc = t;
        proof {
            assert(cpu@ =~= spec_with_pc(
                old(cpu)@,
                spec_branch_target(old(cpu)@.reg.pc, softset8 as int),
            ));
        }
        true
    } else {
        false
    }
}

/// Branch if unsigned lower or same: taken exactly when Carry is clear or
/// Zero is set.
pub fn bls(cpu: &mut CPU, softset8: i8) -> (taken: bool)
    ensures
        taken == (!spec_flag(old(cpu)@.reg.cpsr, FLAG_C) || spec_flag(
            old(cpu)@.reg.cpsr,
            FLAG_Z,
        )),
        taken ==> final(cpu)@ == spec_with_pc(
            old(cpu)@,
            spec_branch_target(old(cpu)@.reg.pc, softset8 as int),
        ),
        !taken ==> final(cpu)@ == old(cpu)@,
{
    if !cpu.reg.cpsr.get_c() || cpu.reg.cpsr.get_z() {
        let t = branch_dest8(cpu.reg.pc, softset8);
        cpu.reg.pc = t;
        proof {
            assert(cpu@ =~= spec_with_pc(
                old(cpu)@,
                spec_branch_target(old(cpu)@.reg.pc, softset8 as int),
            ));
        }
        true
    } else {
        false
    }
}

/// Branch if signed greater or equal: taken exactly when Negative equals
/// Overflow.
pub fn bge(cpu: &mut CPU, softset8: i8) -> (taken: bool)
    ensures
        taken == (spec_flag(old(cpu)@.reg.cpsr, FLAG_N) == spec_flag(
            old(cpu)@.reg.cpsr,
            FLAG_V,
        )),
        taken ==> final(cpu)@ == spec_with_pc(
            old(cpu)@,
            spec_branch_target(old(cpu)@.reg.pc, softset8 as int),
        ),
        !taken ==> final(cpu)@ == old(cpu)@,
{
    if cpu.reg.cpsr.get_n() == cpu.reg.cpsr.get_v() {
        let t = branch_dest8(cpu.reg.pc, softset8);
        cpu.reg.pc = t;
        proof {
            assert(cpu@ =~= spec_with_pc(
                old(cpu)@,
                spec_branch_target(old(cpu)@.reg.pc, softset8 as int),
            ));
        }
        true
    } else {
        false
    }
}

/// Branch if signed less than: taken exactly when Negative differs from
/// Overflow.
pub fn blt(cpu: &mut CPU, softset8: i8) -> (taken: bool)
    ensures
        taken == (spec_flag(old(cpu)@.reg.cpsr, FLAG_N) != spec_flag(
            old(cpu)@.reg.cpsr,
            FLAG_V,
        )),
        taken ==> final(cpu)@ == spec_with_pc(
            old(cpu)@,
            spec_branch_target(old(cpu)@.reg.pc, softset8 as int),
        ),
        !taken ==> final(cpu)@ == old(cpu)@,
{
    if cpu.reg.cpsr.get_n() != cpu.reg.cpsr.get_v() {
        let t = branch_dest8(cpu.reg.pc, softset8);
        cpu.reg.pc = t;
        proof {
            assert(cpu@ =~= spec_with_pc(
                old(cpu)@,
                spec_branch_target(old(cpu)@.reg.pc, softset8 as int),
            ));
        }
        true
    } else {
        false
    }
}

/// Branch if signed greater than: taken exactly when Zero is clear and
/// Negative equals Overflow.
pub fn bgt(cpu: &mut CPU, softset8: i8) -> (taken: bool)
    ensures
        taken == (!spec_flag(old(cpu)@.reg.cpsr, FLAG_Z) && (spec_flag(old(cpu)@.reg.cpsr, FLAG_N)
            == spec_flag(old(cpu)@.reg.cpsr, FLAG_V))),
        taken ==> final(cpu)@ == spec_with_pc(
            old(cpu)@,
            spec_branch_target(old(cpu)@.reg.pc, softset8 as int),
        ),
        !taken ==> final(cpu)@ == old(cpu)@,
{
    if !cpu.reg.cpsr.get_z() && (cpu.reg.cpsr.get_n() == cpu.reg.cpsr.get_v()) {
        let t = branch_dest8(cpu.reg.pc, softset8);
        cpu.reg.pc = t;
        proof {
            assert(cpu@ =~= spec_with_pc(
                old(cpu)@,
                spec_branch_target(old(cpu)@.reg.pc, softset8 as int),
            ));
        }
        true
    } else {
        false
    }
}

/// Branch if signed less or equal: taken exactly when Zero is set or
/// Negative differs from Overflow.
pub fn ble(cpu: &mut CPU, softset8: i8) -> (taken: bool)
    ensures
        taken == (spec_flag(old(cpu)@.reg.cpsr, FLAG_Z) || (spec_flag(old(cpu)@.reg.cpsr, FLAG_N)
            != spec_flag(old(cpu)@.reg.cpsr, FLAG_V))),
        taken ==> final(cpu)@ == spec_with_pc(
            old(cpu)@,
            spec_branch_target(old(cpu)@.reg.pc, softset8 as int),
        ),
        !taken ==> final(cpu)@ == old(cpu)@,
{
    if cpu.reg.cpsr.get_z() || (cpu.reg.cpsr.get_n() != cpu.reg.cpsr.get_v()) {
        let t = branch_dest8(cpu.reg.pc, softset8);
        cpu.reg.pc = t;
        proof {
            assert(cpu@ =~= spec_with_pc(
                old(cpu)@,
                spec_branch_target(old(cpu)@.reg.pc, softset8 as int),
            ));
        }
        true
    } else {
        false
    }
}

/// Software interrupt: the program counter is redirected to the immediate
/// (the supervisor-call vector index of this model), the mode field is
/// forced to Supervisor, and the link register is biased by two, wrapping.
pub fn swi(cpu: &mut CPU, val: u8)
    ensures
        final(cpu)@ == (CpuView {
            reg: RegView {
                pc: val as u32,
                cpsr: spec_with_mode(old(cpu)@.reg.cpsr, Mode::Supervisor),
                lr: spec_wadd(old(cpu)@.reg.lr, 2),
                ..old(cpu)@.reg
            },
            ..old(cpu)@
        }),
{
    cpu.reg.pc = val as u32;
    cpu.reg.cpsr.set_mode(Mode::Supervisor);
    cpu.reg.lr = cpu.reg.lr.wrapping_add(2);
    proof {
        assert(cpu@ =~= (CpuView {
            reg: RegView {
                pc: val as u32,
                cpsr: spec_with_mode(old(cpu)@.reg.cpsr, Mode::Supervisor),
                lr: spec_wadd(old(cpu)@.reg.lr, 2),
                ..old(cpu)@.reg
            },
            ..old(cpu)@
        }));
    }
}

/// Unconditional branch: always redirects the program counter to its
/// target.
pub fn b(cpu: &mut CPU, softset11: i16)
    ensures
        final(cpu)@ == spec_with_pc(
            old(cpu)@,
            spec_branch_target(old(cpu)@.reg.pc, softset11 as int),
        ),
{
    let t = branch_dest11(cpu.reg.pc, softset11);
    cpu.reg.pc = t;
    proof {
        assert(cpu@ =~= spec_with_pc(
            old(cpu)@,
            spec_branch_target(old(cpu)@.reg.pc, softset11 as int),
        ));
    }
}

/// Branch with link: captures the link register as the program counter plus
/// two before redirecting to the target.
pub fn bl(cpu: &mut CPU, softset11: i16)
    ensures
        final(cpu)@ == spec_with_pc(
            spec_with_lr(old(cpu)@, spec_wadd(old(cpu)@.reg.pc, 2)),
            spec_branch_target(old(cpu)@.reg.pc, softset11 as int),
        ),
{
    let t = branch_dest11(cpu.reg.pc, softset11);
    cpu.reg.lr = cpu.reg.pc.wrapping_add(2);
    cpu.reg.pc = t;
    proof {
        assert(cpu@ =~= spec_with_pc(
            spec_with_lr(old(cpu)@, spec_wadd(old(cpu)@.reg.pc, 2)),
            spec_branch_target(old(cpu)@.reg.pc, softset11 as int),
        ));
    }
}

/// Move shifted register: the destination takes the source shifted by the
/// immediate; Negative and Zero follow the result, Carry takes the shifter's
/// carry-out, Overflow is untouched.
pub fn exec_op_format01(cpu: &mut CPU, op: ThumbInstruction) -> (r: Result<(), Fault>)
    requires
        old(cpu).wf(),
        op is MoveShiftedRegister,
        spec_instr_wf(op),
    ensures
        final(cpu).wf(),
        match spec_thumb_exec(old(cpu)@, op) {
            Ok(s2) => r is Ok && final(cpu)@ == s2,
            Err(e) => r == Err::<(), Fault>(e) && final(cpu)@ == old(cpu)@,
        },
{
    match op {
        ThumbInstruction::MoveShiftedRegister(sop, off5, rs, rd) => {
            let val = cpu.reg.r[rs as usize];
            let c_in = cpu.reg.cpsr.get_c();
            let v_in = cpu.reg.cpsr.get_v();
            let res: u32;
            let carry: bool;
            if sop == 0 {
                if off5 == 0 {
                    res = val;
                    carry = c_in;
                } else {
                    res = val << off5;
                    carry = (val >> (32 - off5 as u32)) & 1 == 1;
                }
            } else if sop == 1 {
                if off5 == 0 {
                    res = 0;
                    carry = val & 0x8000_0000 != 0;
                } else {
                    res = val >> off5;
                    carry = (val >> (off5 as u32 - 1)) & 1 == 1;
                }
            } else {
                if off5 == 0 {
                    res = if val & 0x8000_0000 != 0 {
                        0xFFFF_FFFF
                    } else {
                        0
                    };
                    carry = val & 0x8000_0000 != 0;
                } else {
                    res = if val & 0x8000_0000 != 0 {
                        (val >> off5) | (0xFFFF_FFFFu32 << (32 - off5 as u32))
                    } else {
                        val >> off5
                    };
                    carry = (val >> (off5 as u32 - 1)) & 1 == 1;
                }
            }
            cpu.reg.r[rd as usize] = res;
            cpu.psr_op_update(res, carry, v_in);
            advance(cpu, 1);
            proof {
                assert(cpu@ =~= spec_thumb_exec(old(cpu)@, op)->Ok_0);
            }
            Ok(())
        },
        _ => vstd::pervasive::unreached(),
    }
}

/// Add and subtract, register or three-bit immediate operand: wrapping
/// arithmetic; Carry takes the carry-out for addition and the no-borrow
/// condition for subtraction, Overflow is forced clear.
pub fn exec_op_format02(cpu: &mut CPU, op: ThumbInstruction) -> (r: Result<(), Fault>)
    requires
        old(cpu).wf(),
        op is AddSubtract,
        spec_instr_wf(op),
    ensures
        final(cpu).wf(),
        match spec_thumb_exec(old(cpu)@, op) {
            Ok(s2) => r is Ok && final(cpu)@ == s2,
            Err(e) => r == Err::<(), Fault>(e) && final(cpu)@ == old(cpu)@,
        },
{
    match op {
        ThumbInstruction::AddSubtract(aop, rn, rs, rd) => {
            let a = cpu.reg.r[rs as usize];
            let bv: u32 = if aop >= 2 {
                rn as u32
            } else {
                cpu.reg.r[rn as usize]
            };
            let res: u32;
            let carry: bool;
            if aop == 0 || aop == 2 {
                res = a.wrapping_add(bv);
                carry = bv > u32::MAX - a;
            } else {
                res = a.wrapping_sub(bv);
                carry = a >= bv;
            }
            cpu.reg.r[rd as usize] = res;
            cpu.psr_op_update(res, carry, false);
            advance(cpu, 1);
            proof {
                assert(cpu@ =~= spec_thumb_exec(old(cpu)@, op)->Ok_0);
            }
            Ok(())
        },
        _ => vstd::pervasive::unreached(),
    }
}

/// Move, compare, add and subtract with an eight-bit unsigned immediate.
pub fn exec_op_format03(cpu: &mut CPU, op: ThumbInstruction) -> (r: Result<(), Fault>)
    requires
        old(cpu).wf(),
        op is MoveCompareAddSubtractImmediate,
        spec_instr_wf(op),
    ensures
        final(cpu).wf(),
        match spec_thumb_exec(old(cpu)@, op) {
            Ok(s2) => r is Ok && final(cpu)@ == s2,
            Err(e) => r == Err::<(), Fault>(e) && final(cpu)@ == old(cpu)@,
        },
{
    match op {
        ThumbInstruction::MoveCompareAddSubtractImmediate(mop, rd, imm) => {
            let d = cpu.reg.r[rd as usize];
            let immw = imm as u32;
            if mop == 0 {
                let c_in = cpu.reg.cpsr.get_c();
                let v_in = cpu.reg.cpsr.get_v();
                cpu.reg.r[rd as usize] = immw;
                cpu.psr_op_update(immw, c_in, v_in);
            } else if mop == 1 {
                let res = d.wrapping_sub(immw);
                cpu.psr_op_update(res, d >= immw, false);
            } else if mop == 2 {
                let res = d.wrapping_add(immw);
                cpu.reg.r[rd as usize] = res;
                cpu.psr_op_update(res, immw > u32::MAX - d, false);
            } else {
                let res = d.wrapping_sub(immw);
                cpu.reg.r[rd as usize] = res;
                cpu.psr_op_update(res, d >= immw, false);
            }
            advance(cpu, 1);
            proof {
                assert(cpu@ =~= spec_thumb_exec(old(cpu)@, op)->Ok_0);
            }
            Ok(())
        },
        _ => vstd::pervasive::unreached(),
    }
}

/// The ALU family over two registers: AND, EOR, ORR, BIC, MVN and TST, with
/// carry and overflow forced clear; any other operation code is a decode
/// fault carrying the re-encoded word, and changes nothing.
pub fn exec_op_format04(cpu: &mut CPU, op: ThumbInstruction) -> (r: Result<(), Fault>)
    requires
        old(cpu).wf(),
        op is ALUOperation,
        spec_instr_wf(op),
    ensures
        final(cpu).wf(),
        match spec_thumb_exec(old(cpu)@, op) {
            Ok(s2) => r is Ok && final(cpu)@ == s2,
            Err(e) => r == Err::<(), Fault>(e) && final(cpu)@ == old(cpu)@,
        },
{
    match op {
        ThumbInstruction::ALUOperation(aop, rs, rd) => {
            if aop == 0 {
                and(cpu, rs, rd);
            } else if aop == 1 {
                eor(cpu, rs, rd);
            } else if aop == 2 {
                orr(cpu, rs, rd);
            } else if aop == 3 {
                bic(cpu, rs, rd);
            } else if aop == 4 {
                mvn(cpu, rs, rd);
            } else if aop == 5 {
                tst(cpu, rs, rd);
            } else {
                let word: u16 = 0x4000 | (((aop & 0xF) as u16) << 6) | (((rs & 7) as u16) << 3) | (
                (rd & 7) as u16);
                return Err(Fault::UnknownInstruction(word as u32));
            }
            advance(cpu, 1);
            proof {
                assert(cpu@ =~= spec_thumb_exec(old(cpu)@, op)->Ok_0);
            }
            Ok(())
        },
        _ => vstd::pervasive::unreached(),
    }
}

/// High register operations and branch exchange: ADD, CMP and MOV over the
/// full register file, and BX, which redirects the program counter and sets
/// the instruction-set-select bit from bit 0 of the source.
pub fn exec_op_format05(cpu: &mut CPU, op: ThumbInstruction) -> (r: Result<(), Fault>)
    requires
        old(cpu).wf(),
        op is HighRegisterOperationsBranchExchange,
        spec_instr_wf(op),
    ensures
        final(cpu).wf(),
        match spec_thumb_exec(old(cpu)@, op) {
            Ok(s2) => r is Ok && final(cpu)@ == s2,
            Err(e) => r == Err::<(), Fault>(e) && final(cpu)@ == old(cpu)@,
        },
{
    match op {
        ThumbInstruction::HighRegisterOperationsBranchExchange(hop, h1, h2, rs, rd) => {
            let fs: u8 = rs + 8 * h2;
            let fd: u8 = rd + 8 * h1;
            let vs = read_full_reg(cpu, fs);
            if hop == 0 {
                let vd = read_full_reg(cpu, fd);
                let res = vd.wrapping_add(vs);
                if fd == 15 {
                    cpu.reg.pc = res;
                    add_ticks(cpu, 1);
                } else {
                    write_full_reg(cpu, fd, res);
                    advance(cpu, 1);
                }
                proof {
                    assert(cpu@ =~= spec_thumb_exec(old(cpu)@, op)->Ok_0);
                }
                Ok(())
            } else if hop == 1 {
                let vd = read_full_reg(cpu, fd);
                let res = vd.wrapping_sub(vs);
                cpu.psr_op_update(res, vd >= vs, false);
                advance(cpu, 1);
                proof {
                    assert(cpu@ =~= spec_thumb_exec(old(cpu)@, op)->Ok_0);
                }
                Ok(())
            } else if hop == 2 {
                if fd == 15 {
                    cpu.reg.pc = vs;
                    add_ticks(cpu, 1);
                } else {
                    write_full_reg(cpu, fd, vs);
                    advance(cpu, 1);
                }
                proof {
                    assert(cpu@ =~= spec_thumb_exec(old(cpu)@, op)->Ok_0);
                }
                Ok(())
            } else {
                if h1 == 1 {
                    let word: u16 = 0x4400 | (((hop & 3) as u16) << 8) | (((h1 & 1) as u16) << 7)
                        | (((h2 & 1) as u16) << 6) | (((rs & 7) as u16) << 3) | ((rd & 7) as u16);
                    Err(Fault::UnknownInstruction(word as u32))
                } else {
                    cpu.reg.cpsr.set_thumb(vs & 1 == 1);
                    cpu.reg.pc = vs & 0xFFFF_FFFE;
                    add_ticks(cpu, 3);
                    proof {
                        assert(cpu@ =~= spec_thumb_exec(old(cpu)@, op)->Ok_0);
                    }
                    Ok(())
                }
            }
        },
        _ => vstd::pervasive::unreached(),
    }
}

/// Reads a register of the full file: indices 0 to 12 are the general
/// registers, 13 to 15 the named slots.
fn read_full_reg(cpu: &CPU, i: u8) -> (r: u32)
    requires
        i <= 15,
    ensures
        r == spec_reg_sel(cpu@.reg, i as int),
{
    if i <= 12 {
        cpu.reg.r[i as usize]
    } else if i == 13 {
        cpu.reg.sp
    } else if i == 14 {
        cpu.reg.lr
    } else {
        cpu.reg.pc
    }
}

/// Writes a register of the full file, under the same index mapping as
/// `read_full_reg`.
fn write_full_reg(cpu: &mut CPU, i: u8, v: u32)
    requires
        i <= 15,
    ensures
        final(cpu)@ == spec_reg_store(old(cpu)@, i as int, v),
{
    if i <= 12 {
        cpu.reg.r[i as usize] = v;
        proof {
            assert(cpu@ =~= spec_reg_store(old(cpu)@, i as int, v));
        }
    } else if i == 13 {
        cpu.reg.sp = v;
        proof {
            assert(cpu@ =~= spec_reg_store(old(cpu)@, i as int, v));
        }
    } else if i == 14 {
        cpu.reg.lr = v;
        proof {
            assert(cpu@ =~= spec_reg_store(old(cpu)@, i as int, v));
        }
    } else {
        cpu.reg.pc = v;
        proof {
            assert(cpu@ =~= spec_reg_store(old(cpu)@, i as int, v));
        }
    }
}

/// Conditional branch: each of the fourteen condition codes tests its
/// boolean function of the four flags; a taken branch redirects the program
/// counter and costs three ticks, a branch not taken advances past the
/// instruction and costs one. Condition codes above thirteen are a decode
/// fault.
pub fn exec_op_format16(cpu: &mut CPU, op: ThumbInstruction) -> (r: Result<(), Fault>)
    requires
        old(cpu).wf(),
        op is ConditionalBranch,
        spec_instr_wf(op),
    ensures
        final(cpu).wf(),
        match spec_thumb_exec(old(cpu)@, op) {
            Ok(s2) => r is Ok && final(cpu)@ == s2,
            Err(e) => r == Err::<(), Fault>(e) && final(cpu)@ == old(cpu)@,
        },
{
    match op {
        ThumbInstruction::ConditionalBranch(cond, softset8) => {
            let taken: bool;
            if cond == 0x00 {
                taken = beq(cpu, softset8);
            } else if cond == 0x01 {
                taken = bne(cpu, softset8);
            } else if cond == 0x02 {
                taken = bcs(cpu, softset8);
            } else if cond == 0x03 {
                taken = bcc(cpu, softset8);
            } else if cond == 0x04 {
                taken = bmi(cpu, softset8);
            } else if cond == 0x05 {
                taken = bpl(cpu, softset8);
            } else if cond == 0x06 {
                taken = bvs(cpu, softset8);
            } else if cond == 0x07 {
                taken = bvc(cpu, softset8);
            } else if cond == 0x08 {
                taken = bhi(cpu, softset8);
            } else if cond == 0x09 {
                taken = bls(cpu, softset8);
            } else if cond == 0x0A {
                taken = bge(cpu, softset8);
            } else if cond == 0x0B {
                taken = blt(cpu, softset8);
            } else if cond == 0x0C {
                taken = bgt(cpu, softset8);
            } else if cond == 0x0D {
                taken = ble(cpu, softset8);
            } else {
                let low16: u16 = if softset8 < 0 {
                    (softset8 as i16 + 0x100) as u16
                } else {
                    softset8 as u16
                };
                let word: u16 = 0xD000 | (((cond & 0xF) as u16) << 8) | low16;
                return Err(Fault::UnknownInstruction(word as u32));
            }
            if taken {
                add_ticks(cpu, 3);
            } else {
                advance(cpu, 1);
            }
            proof {
                assert(cpu@ =~= spec_thumb_exec(old(cpu)@, op)->Ok_0);
            }
            Ok(())
        },
        _ => vstd::pervasive::unreached(),
    }
}

/// Software interrupt: redirects to the supervisor-call vector, forces
/// Supervisor mode, biases the link register by two, and costs three ticks.
pub fn exec_op_format17(cpu: &mut CPU, op: ThumbInstruction) -> (r: Result<(), Fault>)
    requires
        old(cpu).wf(),
        op is SoftwareInterrupt,
        spec_instr_wf(op),
    ensures
        final(cpu).wf(),
        match spec_thumb_exec(old(cpu)@, op) {
            Ok(s2) => r is Ok && final(cpu)@ == s2,
            Err(e) => r == Err::<(), Fault>(e) && final(cpu)@ == old(cpu)@,
        },
{
    match op {
        ThumbInstruction::SoftwareInterrupt(value8) => {
            swi(cpu, value8);
            add_ticks(cpu, 3);
            proof {
                assert(cpu@ =~= spec_thumb_exec(old(cpu)@, op)->Ok_0);
            }
            Ok(())
        },
        _ => vstd::pervasive::unreached(),
    }
}

/// Unconditional branch: always redirects the program counter; costs three
/// ticks.
pub fn exec_op_format18(cpu: &mut CPU, op: ThumbInstruction) -> (r: Result<(), Fault>)
    requires
        old(cpu).wf(),
        op is UnconditionalBranch,
        spec_instr_wf(op),
    ensures
        final(cpu).wf(),
        match spec_thumb_exec(old(cpu)@, op) {
            Ok(s2) => r is Ok && final(cpu)@ == s2,
            Err(e) => r == Err::<(), Fault>(e) && final(cpu)@ == old(cpu)@,
        },
{
    match op {
        ThumbInstruction::UnconditionalBranch(offset11) => {
            b(cpu, offset11);
            add_ticks(cpu, 3);
            proof {
                assert(cpu@ =~= spec_thumb_exec(old(cpu)@, op)->Ok_0);
            }
            Ok(())
        },
        _ => vstd::pervasive::unreached(),
    }
}

/// Long branch with link: the first half deposits the high part of the
/// offset in the link register; the second half branches to the link
/// register plus the doubled low part, leaving the return address, with its
/// low bit set, in the link register.
pub fn exec_op_format19(cpu: &mut CPU, op: ThumbInstruction) -> (r: Result<(), Fault>)
    requires
        old(cpu).wf(),
        op is LongBranchWithLink,
        spec_instr_wf(op),
    ensures
        final(cpu).wf(),
        match spec_thumb_exec(old(cpu)@, op) {
            Ok(s2) => r is Ok && final(cpu)@ == s2,
            Err(e) => r == Err::<(), Fault>(e) && final(cpu)@ == old(cpu)@,
        },
{
    match op {
        ThumbInstruction::LongBranchWithLink(h, offset11) => {
            if h == 0 {
                let sx: i32 = if offset11 >= 0x400 {
                    offset11 as i32 - 0x800
                } else {
                    offset11 as i32
                };
                let delta: i32 = 2 + 4096 * sx;
                cpu.reg.lr = cpu.reg.pc.wrapping_add_signed(delta);
                advance(cpu, 1);
            } else {
                let target = cpu.reg.lr.wrapping_add((offset11 as u32) * 2);
                let newlr = cpu.reg.pc.wrapping_add(2) | 1;
                cpu.reg.pc = target;
                cpu.reg.lr = newlr;
                add_ticks(cpu, 3);
            }
            proof {
                assert(cpu@ =~= spec_thumb_exec(old(cpu)@, op)->Ok_0);
            }
            Ok(())
        },
        _ => vstd::pervasive::unreached(),
    }
}

/// PC-relative load: a word is read at the word-aligned pipeline value of
/// the program counter plus the immediate times four; a bus fault leaves the
/// machine untouched.
pub fn exec_op_format06(cpu: &mut CPU, op: ThumbInstruction) -> (r: Result<(), Fault>)
    requires
        old(cpu).wf(),
        op is PCRelativeLoad,
        spec_instr_wf(op),
    ensures
        final(cpu).wf(),
        match spec_thumb_exec(old(cpu)@, op) {
            Ok(s2) => r is Ok && final(cpu)@ == s2,
            Err(e) => r == Err::<(), Fault>(e) && final(cpu)@ == old(cpu)@,
        },
{
    match op {
        ThumbInstruction::PCRelativeLoad(rd, word8) => {
            let base = cpu.reg.pc.wrapping_add(4) & 0xFFFF_FFFC;
            let addr = base.wrapping_add((word8 as u32) * 4);
            match cpu.bus.read_word(addr) {
                Ok(v) => {
                    cpu.reg.r[rd as usize] = v;
                    advance(cpu, 1);
                    proof {
                        assert(cpu@ =~= spec_thumb_exec(old(cpu)@, op)->Ok_0);
                    }
                    Ok(())
                },
                Err(e) => Err(e),
            }
        },
        _ => vstd::pervasive::unreached(),
    }
}

/// Load and store with register offset: a word or byte is transferred at
/// the base register plus the offset register; a bus fault leaves the
/// machine untouched.
pub fn exec_op_format07(cpu: &mut CPU, op: ThumbInstruction) -> (r: Result<(), Fault>)
    requires
        old(cpu).wf(),
        op is LoadStoreWithRelativeOffset,
        spec_instr_wf(op),
    ensures
        final(cpu).wf(),
        match spec_thumb_exec(old(cpu)@, op) {
            Ok(s2) => r is Ok && final(cpu)@ == s2,
            Err(e) => r == Err::<(), Fault>(e) && final(cpu)@ == old(cpu)@,
        },
{
    match op {
        ThumbInstruction::LoadStoreWithRelativeOffset(l, bb, ro, rb, rd) => {
            let addr = cpu.reg.r[rb as usize].wrapping_add(cpu.reg.r[ro as usize]);
            if l == 0 && bb == 0 {
                match cpu.bus.write_word(addr, cpu.reg.r[rd as usize]) {
                    Ok(_u) => {
                        advance(cpu, 1);
                        proof {
                            assert(cpu@ =~= spec_thumb_exec(old(cpu)@, op)->Ok_0);
                        }
                        Ok(())
                    },
                    Err(e) => {
                        proof {
                            assert(cpu@ =~= old(cpu)@);
                        }
                        Err(e)
                    },
                }
            } else if l == 0 && bb == 1 {
                match cpu.bus.write_byte(addr, (cpu.reg.r[rd as usize] & 0xFF) as u8) {
                    Ok(_u) => {
                        advance(cpu, 1);
                        proof {
                            assert(cpu@ =~= spec_thumb_exec(old(cpu)@, op)->Ok_0);
                        }
                        Ok(())
                    },
                    Err(e) => {
                        proof {
                            assert(cpu@ =~= old(cpu)@);
                        }
                        Err(e)
                    },
                }
            } else if l == 1 && bb == 0 {
                match cpu.bus.read_word(addr) {
                    Ok(v) => {
                        cpu.reg.r[rd as usize] = v;
                        advance(cpu, 1);
                        proof {
                            assert(cpu@ =~= spec_thumb_exec(old(cpu)@, op)->Ok_0);
                        }
                        Ok(())
                    },
                    Err(e) => Err(e),
                }
            } else {
                match cpu.bus.read_byte(addr) {
                    Ok(v) => {
                        cpu.reg.r[rd as usize] = v as u32;
                        advance(cpu, 1);
                        proof {
                            assert(cpu@ =~= spec_thumb_exec(old(cpu)@, op)->Ok_0);
                        }
                        Ok(())
                    },
                    Err(e) => Err(e),
                }
            }
        },
        _ => vstd::pervasive::unreached(),
    }
}

/// Load and store sign-extended byte and halfword with register offset:
/// stores a halfword, or loads a halfword zero-extended, a byte
/// sign-extended, or a halfword sign-extended.
pub fn exec_op_format08(cpu: &mut CPU, op: ThumbInstruction) -> (r: Result<(), Fault>)
    requires
        old(cpu).wf(),
        op is LoadStoreSignExtendedByteHalfword,
        spec_instr_wf(op),
    ensures
        final(cpu).wf(),
        match spec_thumb_exec(old(cpu)@, op) {
            Ok(s2) => r is Ok && final(cpu)@ == s2,
            Err(e) => r == Err::<(), Fault>(e) && final(cpu)@ == old(cpu)@,
        },
{
    match op {
        ThumbInstruction::LoadStoreSignExtendedByteHalfword(h, sx, ro, rb, rd) => {
            let addr = cpu.reg.r[rb as usize].wrapping_add(cpu.reg.r[ro as usize]);
            if sx == 0 && h == 0 {
                match cpu.bus.write_hword(addr, (cpu.reg.r[rd as usize] & 0xFFFF) as u16) {
                    Ok(_u) => {
                        advance(cpu, 1);
                        proof {
                            assert(cpu@ =~= spec_thumb_exec(old(cpu)@, op)->Ok_0);
                        }
                        Ok(())
                    },
                    Err(e) => {
                        proof {
                            assert(cpu@ =~= old(cpu)@);
                        }
                        Err(e)
                    },
                }
            } else if sx == 0 && h == 1 {
                match cpu.bus.read_hword(addr) {
                    Ok(v) => {
                        cpu.reg.r[rd as usize] = v as u32;
                        advance(cpu, 1);
                        proof {
                            assert(cpu@ =~= spec_thumb_exec(old(cpu)@, op)->Ok_0);
                        }
                        Ok(())
                    },
                    Err(e) => Err(e),
                }
            } else if sx == 1 && h == 0 {
                match cpu.bus.read_byte(addr) {
                    Ok(v) => {
                        let ext: u32 = if v >= 0x80 {
                            0xFFFF_FF00 + (v as u32)
                        } else {
                            v as u32
                        };
                        cpu.reg.r[rd as usize] = ext;
                        advance(cpu, 1);
                        proof {
                            assert(cpu@ =~= spec_thumb_exec(old(cpu)@, op)->Ok_0);
                        }
                        Ok(())
                    },
                    Err(e) => Err(e),
                }
            } else {
                match cpu.bus.read_hword(addr) {
                    Ok(v) => {
                        let ext: u32 = if v >= 0x8000 {
                            0xFFFF_0000 + (v as u32)
                        } else {
                            v as u32
                        };
                        cpu.reg.r[rd as usize] = ext;
                        advance(cpu, 1);
                        proof {
                            assert(cpu@ =~= spec_thumb_exec(old(cpu)@, op)->Ok_0);
                        }
                        Ok(())
                    },
                    Err(e) => Err(e),
                }
            }
        },
        _ => vstd::pervasive::unreached(),
    }
}

/// Load and store with five-bit immediate offset: words at the base plus
/// the offset times four, bytes at the base plus the offset.
pub fn exec_op_format09(cpu: &mut CPU, op: ThumbInstruction) -> (r: Result<(), Fault>)
    requires
        old(cpu).wf(),
        op is LoadStoreWithImmediateOffset,
        spec_instr_wf(op),
    ensures
        final(cpu).wf(),
        match spec_thumb_exec(old(cpu)@, op) {
            Ok(s2) => r is Ok && final(cpu)@ == s2,
            Err(e) => r == Err::<(), Fault>(e) && final(cpu)@ == old(cpu)@,
        },
{
    match op {
        ThumbInstruction::LoadStoreWithImmediateOffset(bb, l, offset5, rb, rd) => {
            if bb == 0 {
                let addr = cpu.reg.r[rb as usize].wrapping_add((offset5 as u32) * 4);
                if l == 0 {
                    match cpu.bus.write_word(addr, cpu.reg.r[rd as usize]) {
                        Ok(_u) => {
                            advance(cpu, 1);
                            proof {
                                assert(cpu@ =~= spec_thumb_exec(old(cpu)@, op)->Ok_0);
                            }
                            Ok(())
                        },
                        Err(e) => {
                            proof {
                                assert(cpu@ =~= old(cpu)@);
                            }
                            Err(e)
                        },
                    }
                } else {
                    match cpu.bus.read_word(addr) {
                        Ok(v) => {
                            cpu.reg.r[rd as usize] = v;
                            advance(cpu, 1);
                            proof {
                                assert(cpu@ =~= spec_thumb_exec(old(cpu)@, op)->Ok_0);
                            }
                            Ok(())
                        },
                        Err(e) => Err(e),
                    }
                }
            } else {
                let addr = cpu.reg.r[rb as usize].wrapping_add(offset5 as u32);
                if l == 0 {
                    match cpu.bus.write_byte(addr, (cpu.reg.r[rd as usize] & 0xFF) as u8) {
                        Ok(_u) => {
                            advance(cpu, 1);
                            proof {
                                assert(cpu@ =~= spec_thumb_exec(old(cpu)@, op)->Ok_0);
                            }
                            Ok(())
                        },
                        Err(e) => {
                            proof {
                                assert(cpu@ =~= old(cpu)@);
                            }
                            Err(e)
                        },
                    }
                } else {
                    match cpu.bus.read_byte(addr) {
                        Ok(v) => {
                            cpu.reg.r[rd as usize] = v as u32;
                            advance(cpu, 1);
                            proof {
                                assert(cpu@ =~= spec_thumb_exec(old(cpu)@, op)->Ok_0);
                            }
                            Ok(())
                        },
                        Err(e) => Err(e),
                    }
                }
            }
        },
        _ => vstd::pervasive::unreached(),
    }
}

/// Load and store halfword with five-bit immediate offset, doubled.
pub fn exec_op_format10(cpu: &mut CPU, op: ThumbInstruction) -> (r: Result<(), Fault>)
    requires
        old(cpu).wf(),
        op is LoadStoreHalfword,
        spec_instr_wf(op),
    ensures
        final(cpu).wf(),
        match spec_thumb_exec(old(cpu)@, op) {
            Ok(s2) => r is Ok && final(cpu)@ == s2,
            Err(e) => r == Err::<(), Fault>(e) && final(cpu)@ == old(cpu)@,
        },
{
    match op {
        ThumbInstruction::LoadStoreHalfword(l, offset5, rb, rd) => {
            let addr = cpu.reg.r[rb as usize].wrapping_add((offset5 as u32) * 2);
            if l == 0 {
                match cpu.bus.write_hword(addr, (cpu.reg.r[rd as usize] & 0xFFFF) as u16) {
                    Ok(_u) => {
                        advance(cpu, 1);
                        proof {
                            assert(cpu@ =~= spec_thumb_exec(old(cpu)@, op)->Ok_0);
                        }
                        Ok(())
                    },
                    Err(e) => {
                        proof {
                            assert(cpu@ =~= old(cpu)@);
                        }
                        Err(e)
                    },
                }
            } else {
                match cpu.bus.read_hword(addr) {
                    Ok(v) => {
                        cpu.reg.r[rd as usize] = v as u32;
                        advance(cpu, 1);
                        proof {
                            assert(cpu@ =~= spec_thumb_exec(old(cpu)@, op)->Ok_0);
                        }
                        Ok(())
                    },
                    Err(e) => Err(e),
                }
            }
        },
        _ => vstd::pervasive::unreached(),
    }
}

/// Stack-pointer-relative load and store of a word at the stack pointer
/// plus the immediate times four.
pub fn exec_op_format11(cpu: &mut CPU, op: ThumbInstruction) -> (r: Result<(), Fault>)
    requires
        old(cpu).wf(),
        op is SPRelativeLoadStore,
        spec_instr_wf(op),
    ensures
        final(cpu).wf(),
        match spec_thumb_exec(old(cpu)@, op) {
            Ok(s2) => r is Ok && final(cpu)@ == s2,
            Err(e) => r == Err::<(), Fault>(e) && final(cpu)@ == old(cpu)@,
        },
{
    match op {
        ThumbInstruction::SPRelativeLoadStore(l, rd, word8) => {
            let addr = cpu.reg.sp.wrapping_add((word8 as u32) * 4);
            if l == 0 {
                match cpu.bus.write_word(addr, cpu.reg.r[rd as usize]) {
                    Ok(_u) => {
                        advance(cpu, 1);
                        proof {
                            assert(cpu@ =~= spec_thumb_exec(old(cpu)@, op)->Ok_0);
                        }
                        Ok(())
                    },
                    Err(e) => {
                        proof {
                            assert(cpu@ =~= old(cpu)@);
                        }
                        Err(e)
                    },
                }
            } else {
                match cpu.bus.read_word(addr) {
                    Ok(v) => {
                        cpu.reg.r[rd as usize] = v;
                        advance(cpu, 1);
                        proof {
                            assert(cpu@ =~= spec_thumb_exec(old(cpu)@, op)->Ok_0);
                        }
                        Ok(())
                    },
                    Err(e) => Err(e),
                }
            }
        },
        _ => vstd::pervasive::unreached(),
    }
}

/// Load address: the destination takes the stack pointer, or the
/// word-aligned pipeline value of the program counter, plus the immediate
/// times four; no memory is touched and no flag changes.
pub fn exec_op_format12(cpu: &mut CPU, op: ThumbInstruction) -> (r: Result<(), Fault>)
    requires
        old(cpu).wf(),
        op is LoadAddress,
        spec_instr_wf(op),
    ensures
        final(cpu).wf(),
        match spec_thumb_exec(old(cpu)@, op) {
            Ok(s2) => r is Ok && final(cpu)@ == s2,
            Err(e) => r == Err::<(), Fault>(e) && final(cpu)@ == old(cpu)@,
        },
{
    match op {
        ThumbInstruction::LoadAddress(spf, rd, word8) => {
            let base = if spf == 1 {
                cpu.reg.sp
            } else {
                cpu.reg.pc.wrapping_add(4) & 0xFFFF_FFFC
            };
            let res = base.wrapping_add((word8 as u32) * 4);
            cpu.reg.r[rd as usize] = res;
            advance(cpu, 1);
            proof {
                assert(cpu@ =~= spec_thumb_exec(old(cpu)@, op)->Ok_0);
            }
            Ok(())
        },
        _ => vstd::pervasive::unreached(),
    }
}

/// Add offset to stack pointer: the stack pointer moves by the immediate
/// times four, down when the sign flag is set, wrapping; no flag changes.
pub fn exec_op_format13(cpu: &mut CPU, op: ThumbInstruction) -> (r: Result<(), Fault>)
    requires
        old(cpu).wf(),
        op is AddOffsetToStackPointer,
        spec_instr_wf(op),
    ensures
        final(cpu).wf(),
        match spec_thumb_exec(old(cpu)@, op) {
            Ok(s2) => r is Ok && final(cpu)@ == s2,
            Err(e) => r == Err::<(), Fault>(e) && final(cpu)@ == old(cpu)@,
        },
{
    match op {
        ThumbInstruction::AddOffsetToStackPointer(sf, sword7) => {
            if sf == 1 {
                cpu.reg.sp = cpu.reg.sp.wrapping_sub((sword7 as u32) * 4);
            } else {
                cpu.reg.sp = cpu.reg.sp.wrapping_add((sword7 as u32) * 4);
            }
            advance(cpu, 1);
            proof {
                assert(cpu@ =~= spec_thumb_exec(old(cpu)@, op)->Ok_0);
            }
            Ok(())
        },
        _ => vstd::pervasive::unreached(),
    }
}

/// The fault a 32-bit write at `addr` reports when it is not accepted.
pub open spec fn spec_write32_err(addr: u32) -> Fault {
    let r = crate::bus::spec_region_of(addr);
    if crate::bus::spec_is_implemented(r) {
        Fault::InvalidAddress
    } else {
        crate::bus::spec_region_fault(r)
    }
}

/// The first fault of a multi-register store, determined by the addresses
/// alone: whether a word write is accepted never depends on the bus
/// contents.
pub open spec fn spec_multi_store_fault(rlist: u16, n: int, i: int, addr: u32) -> Option<Fault>
    decreases n - i,
{
    if i < 0 || i >= n {
        None
    } else if (rlist >> (i as u16)) & 1 == 1 {
        if crate::bus::spec_write32_allowed(addr) {
            spec_multi_store_fault(rlist, n, i + 1, spec_wadd(addr, 4))
        } else {
            Some(spec_write32_err(addr))
        }
    } else {
        spec_multi_store_fault(rlist, n, i + 1, addr)
    }
}

/// A multi-register store succeeds exactly when its address-only fault
/// check finds nothing, and reports exactly the fault that check finds.
proof fn lemma_multi_store_runs(b: BusView, vals: Seq<u32>, rlist: u16, i: int, addr: u32)
    ensures
        match spec_multi_store_fault(rlist, vals.len() as int, i, addr) {
            None => spec_multi_store(b, vals, rlist, i, addr) is Ok,
            Some(e) => spec_multi_store(b, vals, rlist, i, addr) == Err::<BusView, Fault>(e),
        },
    decreases vals.len() - i,
{
    if i < 0 || i >= vals.len() {
    } else if (rlist >> (i as u16)) & 1 == 1 {
        if crate::bus::spec_write32_allowed(addr) {
            let b2 = crate::bus::spec_write32(b, addr, vals[i])->Ok_0;
            lemma_multi_store_runs(b2, vals, rlist, i + 1, spec_wadd(addr, 4));
        }
    } else {
        lemma_multi_store_runs(b, vals, rlist, i + 1, addr);
    }
}

/// Stores the values selected by a register list as words at ascending
/// addresses, atomically: the addresses are checked before any byte is
/// written, so a faulted transfer leaves the bus untouched.
fn exec_multi_store(bus: &mut Bus, vals: &Vec<u32>, rlist: u16, start: u32) -> (r: Result<
    (),
    Fault,
>)
    requires
        old(bus).wf(),
        vals@.len() <= 9,
    ensures
        final(bus).wf(),
        match spec_multi_store(old(bus)@, vals@, rlist, 0, start) {
            Ok(b2) => r is Ok && final(bus)@ == b2,
            Err(e) => r == Err::<(), Fault>(e) && final(bus)@ == old(bus)@,
        },
{
    let ghost n = vals@.len() as int;
    let mut i: usize = 0;
    let mut addr: u32 = start;
    while i < vals.len()
        invariant
            old(bus) == bus,
            bus.wf(),
            i <= vals@.len(),
            vals@.len() <= 9,
            spec_multi_store_fault(rlist, vals@.len() as int, 0, start) == spec_multi_store_fault(
                rlist,
                vals@.len() as int,
                i as int,
                addr,
            ),
        decreases vals@.len() - i,
    {
        if (rlist >> (i as u16)) & 1 == 1 {
            match crate::bus::region_of(addr) {
                crate::bus::Region::IwRam | crate::bus::Region::Attributes => {},
                crate::bus::Region::EwRam | crate::bus::Region::Palette | crate::bus::Region::Video
                | crate::bus::Region::Unmapped => {
                    proof {
                        lemma_multi_store_runs(bus@, vals@, rlist, 0, start);
                    }
                    return Err(Fault::InvalidAddress);
                },
                _ => {
                    proof {
                        lemma_multi_store_runs(bus@, vals@, rlist, 0, start);
                    }
                    return Err(Fault::UnimplementedRegion);
                },
            }
            addr = addr.wrapping_add(4);
        }
        i = i + 1;
    }
    proof {
        lemma_multi_store_runs(bus@, vals@, rlist, 0, start);
    }
    let mut j: usize = 0;
    let mut waddr: u32 = start;
    while j < vals.len()
        invariant
            j <= vals@.len(),
            vals@.len() <= 9,
            bus.wf(),
            spec_multi_store(old(bus)@, vals@, rlist, 0, start) == spec_multi_store(
                bus@,
                vals@,
                rlist,
                j as int,
                waddr,
            ),
            spec_multi_store(bus@, vals@, rlist, j as int, waddr) is Ok,
        decreases vals@.len() - j,
    {
        if (rlist >> (j as u16)) & 1 == 1 {
            match bus.write_word(waddr, vals[j]) {
                Ok(_u) => {},
                Err(_e) => {
                    return vstd::pervasive::unreached();
                },
            }
            waddr = waddr.wrapping_add(4);
        }
        j = j + 1;
    }
    Ok(())
}

/// Loads the registers selected by a list as words from ascending
/// addresses into a scratch register file, returning the next free address;
/// the scratch contents are unspecified after a fault, so the caller
/// commits them only on success.
fn exec_multi_load(bus: &Bus, regs: &mut [u32; 13], rlist: u16, start: u32) -> (r: Result<
    u32,
    Fault,
>)
    requires
        bus.wf(),
    ensures
        match spec_multi_load(bus@, old(regs)@, rlist, 0, start) {
            Ok(p) => r matches Ok(a2) && final(regs)@ == p.0 && a2 == p.1,
            Err(e) => r == Err::<u32, Fault>(e),
        },
{
    let mut i: usize = 0;
    let mut addr: u32 = start;
    while i < 8
        invariant
            i <= 8,
            bus.wf(),
            regs@.len() == 13,
            spec_multi_load(bus@, old(regs)@, rlist, 0, start) == spec_multi_load(
                bus@,
                regs@,
                rlist,
                i as int,
                addr,
            ),
        decreases 8 - i,
    {
        if (rlist >> (i as u16)) & 1 == 1 {
            match bus.read_word(addr) {
                Ok(v) => {
                    regs[i] = v;
                    addr = addr.wrapping_add(4);
                },
                Err(e) => {
                    return Err(e);
                },
            }
        }
        i = i + 1;
    }
    Ok(addr)
}

/// The number of set bits of a nine-entry register list.
fn count_bits9(rlist: u16) -> (c: u32)
    ensures
        c as int == spec_bits_from(rlist, 0),
        c <= 9,
{
    let mut c: u32 = 0;
    let mut j: usize = 0;
    while j < 9
        invariant
            j <= 9,
            c <= j,
            c as int == spec_bits_from(rlist, 0) - spec_bits_from(rlist, j as int),
        decreases 9 - j,
    {
        if (rlist >> (j as u16)) & 1 == 1 {
            c = c + 1;
        }
        j = j + 1;
    }
    c
}

/// Push and pop registers: push stores the selected low registers, and the
/// link register when its flag is set, below the stack pointer and lowers
/// it; pop loads them from the stack pointer upward and raises it, and when
/// its flag is set also loads the program counter, with the low bit
/// cleared. A faulted transfer leaves the machine untouched.
pub fn exec_op_format14(cpu: &mut CPU, op: ThumbInstruction) -> (r: Result<(), Fault>)
    requires
        old(cpu).wf(),
        op is PushPopRegisters,
        spec_instr_wf(op),
    ensures
        final(cpu).wf(),
        match spec_thumb_exec(old(cpu)@, op) {
            Ok(s2) => r is Ok && final(cpu)@ == s2,
            Err(e) => r == Err::<(), Fault>(e) && final(cpu)@ == old(cpu)@,
        },
{
    match op {
        ThumbInstruction::PushPopRegisters(l, rflag, rlist) => {
            if l == 0 {
                let rlist9: u16 = (rlist as u16) | ((rflag as u16) << 8);
                let cnt = count_bits9(rlist9);
                let start = cpu.reg.sp.wrapping_sub(cnt * 4);
                let mut vals: Vec<u32> = Vec::new();
                let mut k: usize = 0;
                while k < 8
                    invariant
                        k <= 8,
                        old(cpu) == cpu,
                        vals@.len() == k,
                        forall|m: int| 0 <= m < k ==> vals@[m] == cpu@.reg.r[m],
                    decreases 8 - k,
                {
                    vals.push(cpu.reg.r[k]);
                    k = k + 1;
                }
                vals.push(cpu.reg.lr);
                proof {
                    assert(vals@ =~= spec_push_vals(old(cpu)@));
                }
                match exec_multi_store(&mut cpu.bus, &vals, rlist9, start) {
                    Ok(_u) => {
                        cpu.reg.sp = start;
                        advance(cpu, 1);
                        proof {
                            assert(cpu@ =~= spec_thumb_exec(old(cpu)@, op)->Ok_0);
                        }
                        Ok(())
                    },
                    Err(e) => {
                        proof {
                            assert(cpu@ =~= old(cpu)@);
                        }
                        Err(e)
                    },
                }
            } else {
                let mut tmp: [u32; 13] = cpu.reg.r;
                match exec_multi_load(&cpu.bus, &mut tmp, rlist as u16, cpu.reg.sp) {
                    Ok(a2) => {
                        if rflag == 1 {
                            match cpu.bus.read_word(a2) {
                                Ok(v) => {
                                    cpu.reg.r = tmp;
                                    cpu.reg.pc = v & 0xFFFF_FFFE;
                                    cpu.reg.sp = a2.wrapping_add(4);
                                    add_ticks(cpu, 1);
                                    proof {
                                        assert(cpu@ =~= spec_thumb_exec(old(cpu)@, op)->Ok_0);
                                    }
                                    Ok(())
                                },
                                Err(e) => Err(e),
                            }
                        } else {
                            cpu.reg.r = tmp;
                            cpu.reg.sp = a2;
                            advance(cpu, 1);
                            proof {
                                assert(cpu@ =~= spec_thumb_exec(old(cpu)@, op)->Ok_0);
                            }
                            Ok(())
                        }
                    },
                    Err(e) => Err(e),
                }
            }
        },
        _ => vstd::pervasive::unreached(),
    }
}

/// Multiple load and store: stores the selected low registers at the base
/// register upward, or loads them from there; the base register takes the
/// next free address afterwards, except on a load whose list contains the
/// base itself, where the loaded value stands. A faulted transfer leaves
/// the machine untouched.
pub fn exec_op_format15(cpu: &mut CPU, op: ThumbInstruction) -> (r: Result<(), Fault>)
    requires
        old(cpu).wf(),
        op is MultipleLoadStore,
        spec_instr_wf(op),
    ensures
        final(cpu).wf(),
        match spec_thumb_exec(old(cpu)@, op) {
            Ok(s2) => r is Ok && final(cpu)@ == s2,
            Err(e) => r == Err::<(), Fault>(e) && final(cpu)@ == old(cpu)@,
        },
{
    match op {
        ThumbInstruction::MultipleLoadStore(l, rb, rlist) => {
            let base = cpu.reg.r[rb as usize];
            if l == 0 {
                let cnt = count_bits9(rlist as u16);
                let mut vals: Vec<u32> = Vec::new();
                let mut k: usize = 0;
                while k < 8
                    invariant
                        k <= 8,
                        old(cpu) == cpu,
                        vals@.len() == k,
                        forall|m: int| 0 <= m < k ==> vals@[m] == cpu@.reg.r[m],
                    decreases 8 - k,
                {
                    vals.push(cpu.reg.r[k]);
                    k = k + 1;
                }
                proof {
                    assert(vals@ =~= old(cpu)@.reg.r.take(8));
                }
                match exec_multi_store(&mut cpu.bus, &vals, rlist as u16, base) {
                    Ok(_u) => {
                        cpu.reg.r[rb as usize] = base.wrapping_add(cnt * 4);
                        advance(cpu, 1);
                        proof {
                            assert(cpu@ =~= spec_thumb_exec(old(cpu)@, op)->Ok_0);
                        }
                        Ok(())
                    },
                    Err(e) => {
                        proof {
                            assert(cpu@ =~= old(cpu)@);
                        }
                        Err(e)
                    },
                }
            } else {
                let mut tmp: [u32; 13] = cpu.reg.r;
                match exec_multi_load(&cpu.bus, &mut tmp, rlist as u16, base) {
                    Ok(a2) => {
                        if (rlist >> rb) & 1 == 1 {
                            cpu.reg.r = tmp;
                        } else {
                            tmp[rb as usize] = a2;
                            cpu.reg.r = tmp;
                        }
                        advance(cpu, 1);
                        proof {
                            assert(cpu@ =~= spec_thumb_exec(old(cpu)@, op)->Ok_0);
                        }
                        Ok(())
                    },
                    Err(e) => Err(e),
                }
            }
        },
        _ => vstd::pervasive::unreached(),
    }
}

/// Dispatches a decoded 16-bit instruction to its format's executor. The
/// whole effect, fault cases included, is that of `spec_thumb_exec`.
pub fn thumb_op_exec(cpu: &mut CPU, format: ThumbFormat, op: ThumbInstruction) -> (r: Result<
    (),
    Fault,
>)
    requires
        old(cpu).wf(),
        crate::thumb_op::spec_format_matches(format, op),
        spec_instr_wf(op),
    ensures
        final(cpu).wf(),
        match spec_thumb_exec(old(cpu)@, op) {
            Ok(s2) => r is Ok && final(cpu)@ == s2,
            Err(e) => r == Err::<(), Fault>(e) && final(cpu)@ == old(cpu)@,
        },
{
    match format {
        ThumbFormat::Format01 => exec_op_format01(cpu, op),
        ThumbFormat::Format02 => exec_op_format02(cpu, op),
        ThumbFormat::Format03 => exec_op_format03(cpu, op),
        ThumbFormat::Format04 => exec_op_format04(cpu, op),
        ThumbFormat::Format05 => exec_op_format05(cpu, op),
        ThumbFormat::Format06 => exec_op_format06(cpu, op),
        ThumbFormat::Format07 => exec_op_format07(cpu, op),
        ThumbFormat::Format08 => exec_op_format08(cpu, op),
        ThumbFormat::Format09 => exec_op_format09(cpu, op),
        ThumbFormat::Format10 => exec_op_format10(cpu, op),
        ThumbFormat::Format11 => exec_op_format11(cpu, op),
        ThumbFormat::Format12 => exec_op_format12(cpu, op),
        ThumbFormat::Format13 => exec_op_format13(cpu, op),
        ThumbFormat::Format14 => exec_op_format14(cpu, op),
        ThumbFormat::Format15 => exec_op_format15(cpu, op),
        ThumbFormat::Format16 => exec_op_format16(cpu, op),
        ThumbFormat::Format17 => exec_op_format17(cpu, op),
        ThumbFormat::Format18 => exec_op_format18(cpu, op),
        ThumbFormat::Format19 => exec_op_format19(cpu, op),
    }
}

/// The conditional-branch truth table, for every status word: each of the
/// fourteen condition codes tests exactly its boolean function of the four
/// condition flags.
pub proof fn lemma_cond_truth_table(w: u32)
    ensures
        spec_cond_passed(0, w) == spec_flag(w, FLAG_Z),
        spec_cond_passed(1, w) == !spec_flag(w, FLAG_Z),
        spec_cond_passed(2, w) == spec_flag(w, FLAG_C),
        spec_cond_passed(3, w) == !spec_flag(w, FLAG_C),
        spec_cond_passed(4, w) == spec_flag(w, FLAG_N),
        spec_cond_passed(5, w) == !spec_flag(w, FLAG_N),
        spec_cond_passed(6, w) == spec_flag(w, FLAG_V),
        spec_cond_passed(7, w) == !spec_flag(w, FLAG_V),
        spec_cond_passed(8, w) == (spec_flag(w, FLAG_C) && !spec_flag(w, FLAG_Z)),
        spec_cond_passed(9, w) == (!spec_flag(w, FLAG_C) || spec_flag(w, FLAG_Z)),
        spec_cond_passed(10, w) == (spec_flag(w, FLAG_N) == spec_flag(w, FLAG_V)),
        spec_cond_passed(11, w) == (spec_flag(w, FLAG_N) != spec_flag(w, FLAG_V)),
        spec_cond_passed(12, w) == (!spec_flag(w, FLAG_Z) && (spec_flag(w, FLAG_N) == spec_flag(
            w,
            FLAG_V,
        ))),
        spec_cond_passed(13, w) == (spec_flag(w, FLAG_Z) || (spec_flag(w, FLAG_N) != spec_flag(
            w,
            FLAG_V,
        ))),
{
}

/// Branch target arithmetic: a taken conditional branch at program counter
/// `pc` with signed eight-bit offset `off` sets the program counter to
/// `pc + 2 + 2 * off`, wrapping around the 32-bit space.
pub proof fn lemma_branch_target_arith(s: CpuView, cond: u8, off: i8)
    requires
        cond <= 13,
        spec_cond_passed(cond, s.reg.cpsr),
    ensures
        spec_thumb_exec(s, ThumbInstruction::ConditionalBranch(cond, off)) matches Ok(s2)
            && s2.reg.pc == spec_wadd(s.reg.pc, 2 + 2 * (off as int)),
{
}

} // verus!
