//! Classification of 16-bit instruction words into the nineteen formats of
//! the 16-bit instruction set, and extraction of each format's operand
//! fields.
//!
//! Several nominal format ranges overlap: the add/subtract format is a
//! sub-range of the shifted-register-move format, and the software-interrupt
//! format is a sub-range of the conditional-branch format. The classifier
//! therefore tests the narrower, more bit-constrained patterns first, using
//! the discriminating bits of the processor's bit-layout specification. Every
//! 16-bit value classifies to at most one format; the values that match no
//! format are exactly the three undefined windows named by
//! `spec_thumb_undefined`.

use vstd::prelude::*;
use crate::common::Fault;

verus! {

/// The nineteen formats of the 16-bit instruction set.
#[derive(Clone, Copy, Debug, PartialEq, Eq, Structural)]
pub enum ThumbFormat {
    /// Move shifted register.
    Format01,
    /// Add and subtract.
    Format02,
    /// Move, compare, add, and subtract immediate.
    Format03,
    /// ALU operation.
    Format04,
    /// High register operations and branch exchange.
    Format05,
    /// PC-relative load.
    Format06,
    /// Load and store with relative offset.
    Format07,
    /// Load and store sign-extended byte and halfword.
    Format08,
    /// Load and store with immediate offset.
    Format09,
    /// Load and store halfword.
    Format10,
    /// SP-relative load and store.
    Format11,
    /// Load address.
    Format12,
    /// Add offset to stack pointer.
    Format13,
    /// Push and pop registers.
    Format14,
    /// Multiple load and store.
    Format15,
    /// Conditional branch.
    Format16,
    /// Software interrupt.
    Format17,
    /// Unconditional branch.
    Format18,
    /// Long branch with link.
    Format19,
}

/// A decoded 16-bit instruction: one variant per format, carrying that
/// format's operand fields. Fields that are architecturally signed (branch
/// offsets) are sign-extended; all other fields are plain unsigned bit
/// groups.
#[derive(Clone, Copy, Debug, PartialEq, Eq, Structural)]
pub enum ThumbInstruction {
    /// Op, Offset5, Rs, Rd.
    MoveShiftedRegister(u8, u8, u8, u8),
    /// Op (bit 1: immediate operand, bit 0: subtract), Rn or immediate, Rs,
    /// Rd.
    AddSubtract(u8, u8, u8, u8),
    /// Op, Rd, Offset8 (an unsigned immediate).
    MoveCompareAddSubtractImmediate(u8, u8, u8),
    /// Op, Rs, Rd.
    ALUOperation(u8, u8, u8),
    /// Op, H1, H2, Rs/Hs, Rd/Hd.
    HighRegisterOperationsBranchExchange(u8, u8, u8, u8, u8),
    /// Rd, Word8.
    PCRelativeLoad(u8, u8),
    /// L, B, Ro, Rb, Rd.
    LoadStoreWithRelativeOffset(u8, u8, u8, u8, u8),
    /// H, S, Ro, Rb, Rd.
    LoadStoreSignExtendedByteHalfword(u8, u8, u8, u8, u8),
    /// B, L, Offset5, Rb, Rd.
    LoadStoreWithImmediateOffset(u8, u8, u8, u8, u8),
    /// L, Offset5, Rb, Rd.
    LoadStoreHalfword(u8, u8, u8, u8),
    /// L, Rd, Word8.
    SPRelativeLoadStore(u8, u8, u8),
    /// SP, Rd, Word8.
    LoadAddress(u8, u8, u8),
    /// S, SWord7.
    AddOffsetToStackPointer(u8, u8),
    /// L, R, Rlist.
    PushPopRegisters(u8, u8, u8),
    /// L, Rb, Rlist.
    MultipleLoadStore(u8, u8, u8),
    /// Cond, Offset8, sign-extended.
    ConditionalBranch(u8, i8),
    /// Value8.
    SoftwareInterrupt(u8),
    /// Offset11, sign-extended.
    UnconditionalBranch(i16),
    /// H, Offset11.
    LongBranchWithLink(u8, u16),
}

/// The format a 16-bit value classifies to, testing each sub-range before
/// the range that encloses it, or `None` for the undefined windows.
pub open spec fn spec_thumb_format(v: u16) -> Option<ThumbFormat> {
    if v & 0xF800 == 0x1800 {
        Some(ThumbFormat::Format02)
    } else if v & 0xE000 == 0x0000 {
        Some(ThumbFormat::Format01)
    } else if v & 0xE000 == 0x2000 {
        Some(ThumbFormat::Format03)
    } else if v & 0xFC00 == 0x4000 {
        Some(ThumbFormat::Format04)
    } else if v & 0xFC00 == 0x4400 {
        Some(ThumbFormat::Format05)
    } else if v & 0xF800 == 0x4800 {
        Some(ThumbFormat::Format06)
    } else if v & 0xF200 == 0x5000 {
        Some(ThumbFormat::Format07)
    } else if v & 0xF200 == 0x5200 {
        Some(ThumbFormat::Format08)
    } else if v & 0xE000 == 0x6000 {
        Some(ThumbFormat::Format09)
    } else if v & 0xF000 == 0x8000 {
        Some(ThumbFormat::Format10)
    } else if v & 0xF000 == 0x9000 {
        Some(ThumbFormat::Format11)
    } else if v & 0xF000 == 0xA000 {
        Some(ThumbFormat::Format12)
    } else if v & 0xFF00 == 0xB000 {
        Some(ThumbFormat::Format13)
    } else if v & 0xF600 == 0xB400 {
        Some(ThumbFormat::Format14)
    } else if v & 0xF000 == 0xC000 {
        Some(ThumbFormat::Format15)
    } else if v & 0xFF00 == 0xDF00 {
        Some(ThumbFormat::Format17)
    } else if v & 0xF000 == 0xD000 {
        Some(ThumbFormat::Format16)
    } else if v & 0xF800 == 0xE000 {
        Some(ThumbFormat::Format18)
    } else if v & 0xF000 == 0xF000 {
        Some(ThumbFormat::Format19)
    } else {
        None
    }
}

/// The three windows of the 16-bit value space that belong to no format.
pub open spec fn spec_thumb_undefined(v: u16) -> bool {
    (v & 0xF000 == 0xB000 && v & 0xFF00 != 0xB000 && v & 0xF600 != 0xB400) || (v & 0xF800
        == 0xE800)
}

pub open spec fn spec_decode_format01(v: u16) -> ThumbInstruction {
    ThumbInstruction::MoveShiftedRegister(
        ((v >> 11) & 3) as u8,
        ((v >> 6) & 0x1F) as u8,
        ((v >> 3) & 7) as u8,
        (v & 7) as u8,
    )
}

pub open spec fn spec_decode_format02(v: u16) -> ThumbInstruction {
    ThumbInstruction::AddSubtract(
        ((v >> 9) & 3) as u8,
        ((v >> 6) & 7) as u8,
        ((v >> 3) & 7) as u8,
        (v & 7) as u8,
    )
}

pub open spec fn spec_decode_format03(v: u16) -> ThumbInstruction {
    ThumbInstruction::MoveCompareAddSubtractImmediate(
        ((v >> 11) & 3) as u8,
        ((v >> 8) & 7) as u8,
        (v & 0xFF) as u8,
    )
}

pub open spec fn spec_decode_format04(v: u16) -> ThumbInstruction {
    ThumbInstruction::ALUOperation(((v >> 6) & 0xF) as u8, ((v >> 3) & 7) as u8, (v & 7) as u8)
}

pub open spec fn spec_decode_format05(v: u16) -> ThumbInstruction {
    ThumbInstruction::HighRegisterOperationsBranchExchange(
        ((v >> 8) & 3) as u8,
        ((v >> 7) & 1) as u8,
        ((v >> 6) & 1) as u8,
        ((v >> 3) & 7) as u8,
        (v & 7) as u8,
    )
}

pub open spec fn spec_decode_format06(v: u16) -> ThumbInstruction {
    ThumbInstruction::PCRelativeLoad(((v >> 8) & 7) as u8, (v & 0xFF) as u8)
}

pub open spec fn spec_decode_format07(v: u16) -> ThumbInstruction {
    ThumbInstruction::LoadStoreWithRelativeOffset(
        ((v >> 11) & 1) as u8,
        ((v >> 10) & 1) as u8,
        ((v >> 6) & 7) as u8,
        ((v >> 3) & 7) as u8,
        (v & 7) as u8,
    )
}

pub open spec fn spec_decode_format08(v: u16) -> ThumbInstruction {
    ThumbInstruction::LoadStoreSignExtendedByteHalfword(
        ((v >> 11) & 1) as u8,
        ((v >> 10) & 1) as u8,
        ((v >> 6) & 7) as u8,
        ((v >> 3) & 7) as u8,
        (v & 7) as u8,
    )
}

pub open spec fn spec_decode_format09(v: u16) -> ThumbInstruction {
    ThumbInstruction::LoadStoreWithImmediateOffset(
        ((v >> 12) & 1) as u8,
        ((v >> 11) & 1) as u8,
        ((v >> 6) & 0x1F) as u8,
        ((v >> 3) & 7) as u8,
        (v & 7) as u8,
    )
}

pub open spec fn spec_decode_format10(v: u16) -> ThumbInstruction {
    ThumbInstruction::LoadStoreHalfword(
        ((v >> 11) & 1) as u8,
        ((v >> 6) & 0x1F) as u8,
        ((v >> 3) & 7) as u8,
        (v & 7) as u8,
    )
}

pub open spec fn spec_decode_format11(v: u16) -> ThumbInstruction {
    ThumbInstruction::SPRelativeLoadStore(
        ((v >> 11) & 1) as u8,
        ((v >> 8) & 7) as u8,
        (v & 0xFF) as u8,
    )
}

pub open spec fn spec_decode_format12(v: u16) -> ThumbInstruction {
    ThumbInstruction::LoadAddress(((v >> 11) & 1) as u8, ((v >> 8) & 7) as u8, (v & 0xFF) as u8)
}

pub open spec fn spec_decode_format13(v: u16) -> ThumbInstruction {
    ThumbInstruction::AddOffsetToStackPointer(((v >> 7) & 1) as u8, (v & 0x7F) as u8)
}

pub open spec fn spec_decode_format14(v: u16) -> ThumbInstruction {
    ThumbInstruction::PushPopRegisters(
        ((v >> 11) & 1) as u8,
        ((v >> 8) & 1) as u8,
        (v & 0xFF) as u8,
    )
}

pub open spec fn spec_decode_format15(v: u16) -> ThumbInstruction {
    ThumbInstruction::MultipleLoadStore(
        ((v >> 11) & 1) as u8,
        ((v >> 8) & 7) as u8,
        (v & 0xFF) as u8,
    )
}

pub open spec fn spec_decode_format16(v: u16) -> ThumbInstruction {
    ThumbInstruction::ConditionalBranch(
        ((v >> 8) & 0xF) as u8,
        if v & 0xFF >= 0x80 {
            ((v & 0xFF) - 0x100) as i8
        } else {
            (v & 0xFF) as i8
        },
    )
}

pub open spec fn spec_decode_format17(v: u16) -> ThumbInstruction {
    ThumbInstruction::SoftwareInterrupt((v & 0xFF) as u8)
}

pub open spec fn spec_decode_format18(v: u16) -> ThumbInstruction {
    ThumbInstruction::UnconditionalBranch(
        if v & 0x7FF >= 0x400 {
            ((v & 0x7FF) - 0x800) as i16
        } else {
            (v & 0x7FF) as i16
        },
    )
}

pub open spec fn spec_decode_format19(v: u16) -> ThumbInstruction {
    ThumbInstruction::LongBranchWithLink(((v >> 11) & 1) as u8, v & 0x7FF)
}

/// The operand fields a format extracts from a 16-bit value.
pub open spec fn spec_decode_fields(f: ThumbFormat, v: u16) -> ThumbInstruction {
    match f {
        ThumbFormat::Format01 => spec_decode_format01(v),
        ThumbFormat::Format02 => spec_decode_format02(v),
        ThumbFormat::Format03 => spec_decode_format03(v),
        ThumbFormat::Format04 => spec_decode_format04(v),
        ThumbFormat::Format05 => spec_decode_format05(v),
        ThumbFormat::Format06 => spec_decode_format06(v),
        ThumbFormat::Format07 => spec_decode_format07(v),
        ThumbFormat::Format08 => spec_decode_format08(v),
        ThumbFormat::Format09 => spec_decode_format09(v),
        ThumbFormat::Format10 => spec_decode_format10(v),
        ThumbFormat::Format11 => spec_decode_format11(v),
        ThumbFormat::Format12 => spec_decode_format12(v),
        ThumbFormat::Format13 => spec_decode_format13(v),
        ThumbFormat::Format14 => spec_decode_format14(v),
        ThumbFormat::Format15 => spec_decode_format15(v),
        ThumbFormat::Format16 => spec_decode_format16(v),
        ThumbFormat::Format17 => spec_decode_format17(v),
        ThumbFormat::Format18 => spec_decode_format18(v),
        ThumbFormat::Format19 => spec_decode_format19(v),
    }
}

/// What the classifier produces for a 16-bit value: its format and the
/// extracted operand fields, or nothing for an undefined value.
pub open spec fn spec_thumb_decode(v: u16) -> Option<(ThumbFormat, ThumbInstruction)> {
    match spec_thumb_format(v) {
        Some(f) => Some((f, spec_decode_fields(f, v))),
        None => None,
    }
}

/// Whether an instruction is the variant that belongs to a format.
pub open spec fn spec_format_matches(f: ThumbFormat, i: ThumbInstruction) -> bool {
    match f {
        ThumbFormat::Format01 => i is MoveShiftedRegister,
        ThumbFormat::Format02 => i is AddSubtract,
        ThumbFormat::Format03 => i is MoveCompareAddSubtractImmediate,
        ThumbFormat::Format04 => i is ALUOperation,
        ThumbFormat::Format05 => i is HighRegisterOperationsBranchExchange,
        ThumbFormat::Format06 => i is PCRelativeLoad,
        ThumbFormat::Format07 => i is LoadStoreWithRelativeOffset,
        ThumbFormat::Format08 => i is LoadStoreSignExtendedByteHalfword,
        ThumbFormat::Format09 => i is LoadStoreWithImmediateOffset,
        ThumbFormat::Format10 => i is LoadStoreHalfword,
        ThumbFormat::Format11 => i is SPRelativeLoadStore,
        ThumbFormat::Format12 => i is LoadAddress,
        ThumbFormat::Format13 => i is AddOffsetToStackPointer,
        ThumbFormat::Format14 => i is PushPopRegisters,
        ThumbFormat::Format15 => i is MultipleLoadStore,
        ThumbFormat::Format16 => i is ConditionalBranch,
        ThumbFormat::Format17 => i is SoftwareInterrupt,
        ThumbFormat::Format18 => i is UnconditionalBranch,
        ThumbFormat::Format19 => i is LongBranchWithLink,
    }
}

/// Whether every operand field of an instruction lies in the range its bit
/// group allows. Every decoded instruction satisfies this.
pub open spec fn spec_instr_wf(i: ThumbInstruction) -> bool {
    match i {
        ThumbInstruction::MoveShiftedRegister(op, off5, rs, rd) => op <= 2 && off5 <= 31 && rs <= 7
            && rd <= 7,
        ThumbInstruction::AddSubtract(op, rn, rs, rd) => op <= 3 && rn <= 7 && rs <= 7 && rd <= 7,
        ThumbInstruction::MoveCompareAddSubtractImmediate(op, rd, _imm) => op <= 3 && rd <= 7,
        ThumbInstruction::ALUOperation(op, rs, rd) => op <= 15 && rs <= 7 && rd <= 7,
        ThumbInstruction::HighRegisterOperationsBranchExchange(op, h1, h2, rs, rd) => op <= 3 && h1
            <= 1 && h2 <= 1 && rs <= 7 && rd <= 7,
        ThumbInstruction::PCRelativeLoad(rd, _w8) => rd <= 7,
        ThumbInstruction::LoadStoreWithRelativeOffset(l, b, ro, rb, rd) => l <= 1 && b <= 1 && ro
            <= 7 && rb <= 7 && rd <= 7,
        ThumbInstruction::LoadStoreSignExtendedByteHalfword(h, s, ro, rb, rd) => h <= 1 && s <= 1
            && ro <= 7 && rb <= 7 && rd <= 7,
        ThumbInstruction::LoadStoreWithImmediateOffset(b, l, off5, rb, rd) => b <= 1 && l <= 1
            && off5 <= 31 && rb <= 7 && rd <= 7,
        ThumbInstruction::LoadStoreHalfword(l, off5, rb, rd) => l <= 1 && off5 <= 31 && rb <= 7
            && rd <= 7,
        ThumbInstruction::SPRelativeLoadStore(l, rd, _w8) => l <= 1 && rd <= 7,
        ThumbInstruction::LoadAddress(sp, rd, _w8) => sp <= 1 && rd <= 7,
        ThumbInstruction::AddOffsetToStackPointer(s, sw7) => s <= 1 && sw7 <= 127,
        ThumbInstruction::PushPopRegisters(l, r, _rlist) => l <= 1 && r <= 1,
        ThumbInstruction::MultipleLoadStore(l, rb, _rlist) => l <= 1 && rb <= 7,
        ThumbInstruction::ConditionalBranch(cond, _off) => cond <= 14,
        ThumbInstruction::SoftwareInterrupt(_v8) => true,
        ThumbInstruction::UnconditionalBranch(off) => -1024 <= off <= 1023,
        ThumbInstruction::LongBranchWithLink(h, off11) => h <= 1 && off11 <= 0x7FF,
    }
}

/// The 16-bit word an instruction's fields re-encode to, fixed format bits
/// included.
pub open spec fn spec_thumb_encode(i: ThumbInstruction) -> u16 {
    match i {
        ThumbInstruction::MoveShiftedRegister(op, off5, rs, rd) => (((op & 3) as u16) << 11) | ((
        (off5 & 0x1F) as u16) << 6) | (((rs & 7) as u16) << 3) | ((rd & 7) as u16),
        ThumbInstruction::AddSubtract(op, rn, rs, rd) => 0x1800 | (((op & 3) as u16) << 9) | (((rn
            & 7) as u16) << 6) | (((rs & 7) as u16) << 3) | ((rd & 7) as u16),
        ThumbInstruction::MoveCompareAddSubtractImmediate(op, rd, imm) => 0x2000 | (((op
            & 3) as u16) << 11) | (((rd & 7) as u16) << 8) | (imm as u16),
        ThumbInstruction::ALUOperation(op, rs, rd) => 0x4000 | (((op & 0xF) as u16) << 6) | (((rs
            & 7) as u16) << 3) | ((rd & 7) as u16),
        ThumbInstruction::HighRegisterOperationsBranchExchange(op, h1, h2, rs, rd) => 0x4400 | (((op
            & 3) as u16) << 8) | (((h1 & 1) as u16) << 7) | (((h2 & 1) as u16) << 6) | (((rs
            & 7) as u16) << 3) | ((rd & 7) as u16),
        ThumbInstruction::PCRelativeLoad(rd, w8) => 0x4800 | (((rd & 7) as u16) << 8) | (w8 as u16),
        ThumbInstruction::LoadStoreWithRelativeOffset(l, b, ro, rb, rd) => 0x5000 | (((l
            & 1) as u16) << 11) | (((b & 1) as u16) << 10) | (((ro & 7) as u16) << 6) | (((rb
            & 7) as u16) << 3) | ((rd & 7) as u16),
        ThumbInstruction::LoadStoreSignExtendedByteHalfword(h, s, ro, rb, rd) => 0x5200 | (((h
            & 1) as u16) << 11) | (((s & 1) as u16) << 10) | (((ro & 7) as u16) << 6) | (((rb
            & 7) as u16) << 3) | ((rd & 7) as u16),
        ThumbInstruction::LoadStoreWithImmediateOffset(b, l, off5, rb, rd) => 0x6000 | (((b
            & 1) as u16) << 12) | (((l & 1) as u16) << 11) | (((off5 & 0x1F) as u16) << 6) | (((rb
            & 7) as u16) << 3) | ((rd & 7) as u16),
        ThumbInstruction::LoadStoreHalfword(l, off5, rb, rd) => 0x8000 | (((l & 1) as u16) << 11)
            | (((off5 & 0x1F) as u16) << 6) | (((rb & 7) as u16) << 3) | ((rd & 7) as u16),
        ThumbInstruction::SPRelativeLoadStore(l, rd, w8) => 0x9000 | (((l & 1) as u16) << 11) | (((
        rd & 7) as u16) << 8) | (w8 as u16),
        ThumbInstruction::LoadAddress(sp, rd, w8) => 0xA000 | (((sp & 1) as u16) << 11) | (((rd
            & 7) as u16) << 8) | (w8 as u16),
        ThumbInstruction::AddOffsetToStackPointer(s, sw7) => 0xB000 | (((s & 1) as u16) << 7) | (((
        sw7 & 0x7F) as u16)),
        ThumbInstruction::PushPopRegisters(l, r, rlist) => 0xB400 | (((l & 1) as u16) << 11) | (((r
            & 1) as u16) << 8) | (rlist as u16),
        ThumbInstruction::MultipleLoadStore(l, rb, rlist) => 0xC000 | (((l & 1) as u16) << 11) | ((
        (rb & 7) as u16) << 8) | (rlist as u16),
        ThumbInstruction::ConditionalBranch(cond, off) => 0xD000 | (((cond & 0xF) as u16) << 8) | (
        if off < 0 {
            (off + 0x100) as u16
        } else {
            off as u16
        }),
        ThumbInstruction::SoftwareInterrupt(v8) => 0xDF00 | (v8 as u16),
        ThumbInstruction::UnconditionalBranch(off) => 0xE000 | (if off < 0 {
            ((off + 0x800) as u16) & 0x7FF
        } else {
            (off as u16) & 0x7FF
        }),
        ThumbInstruction::LongBranchWithLink(h, off11) => 0xF000 | (((h & 1) as u16) << 11) | (off11
            & 0x7FF),
    }
}

/// Masking can only shrink a value.
proof fn lemma_u16_and_le(x: u16, m: u16)
    ensures
        x & m <= m,
{
    assert(x & m <= m) by (bit_vector);
}

fn decode_format01(instruction: u16) -> (r: ThumbInstruction)
    ensures
        r == spec_decode_format01(instruction),
{
    proof {
        lemma_u16_and_le(instruction >> 11, 3);
        lemma_u16_and_le(instruction >> 6, 0x1F);
        lemma_u16_and_le(instruction >> 3, 7);
        lemma_u16_and_le(instruction, 7);
    }
    let op: u8 = ((instruction >> 11) & 3) as u8;
    let offset5: u8 = ((instruction >> 6) & 0x1F) as u8;
    let rs: u8 = ((instruction >> 3) & 7) as u8;
    let rd: u8 = (instruction & 7) as u8;
    ThumbInstruction::MoveShiftedRegister(op, offset5, rs, rd)
}

fn decode_format02(instruction: u16) -> (r: ThumbInstruction)
    ensures
        r == spec_decode_format02(instruction),
{
    proof {
        lemma_u16_and_le(instruction >> 9, 3);
        lemma_u16_and_le(instruction >> 6, 7);
        lemma_u16_and_le(instruction >> 3, 7);
        lemma_u16_and_le(instruction, 7);
    }
    let op: u8 = ((instruction >> 9) & 3) as u8;
    let rn: u8 = ((instruction >> 6) & 7) as u8;
    let rs: u8 = ((instruction >> 3) & 7) as u8;
    let rd: u8 = (instruction & 7) as u8;
    ThumbInstruction::AddSubtract(op, rn, rs, rd)
}

fn decode_format03(instruction: u16) -> (r: ThumbInstruction)
    ensures
        r == spec_decode_format03(instruction),
{
    proof {
        lemma_u16_and_le(instruction >> 11, 3);
        lemma_u16_and_le(instruction >> 8, 7);
        lemma_u16_and_le(instruction, 0xFF);
    }
    let op: u8 = ((instruction >> 11) & 3) as u8;
    let rd: u8 = ((instruction >> 8) & 7) as u8;
    let offset: u8 = (instruction & 0xFF) as u8;
    ThumbInstruction::MoveCompareAddSubtractImmediate(op, rd, offset)
}

fn decode_format04(instruction: u16) -> (r: ThumbInstruction)
    ensures
        r == spec_decode_format04(instruction),
{
    proof {
        lemma_u16_and_le(instruction >> 6, 0xF);
        lemma_u16_and_le(instruction >> 3, 7);
        lemma_u16_and_le(instruction, 7);
    }
    let op: u8 = ((instruction >> 6) & 0xF) as u8;
    let rs: u8 = ((instruction >> 3) & 7) as u8;
    let rd: u8 = (instruction & 7) as u8;
    ThumbInstruction::ALUOperation(op, rs, rd)
}

fn decode_format05(instruction: u16) -> (r: ThumbInstruction)
    ensures
        r == spec_decode_format05(instruction),
{
    proof {
        lemma_u16_and_le(instruction >> 8, 3);
        lemma_u16_and_le(instruction >> 7, 1);
        lemma_u16_and_le(instruction >> 6, 1);
        lemma_u16_and_le(instruction >> 3, 7);
        lemma_u16_and_le(instruction, 7);
    }
    let op: u8 = ((instruction >> 8) & 3) as u8;
    let h1: u8 = ((instruction >> 7) & 1) as u8;
    let h2: u8 = ((instruction >> 6) & 1) as u8;
    let rs: u8 = ((instruction >> 3) & 7) as u8;
    let rd: u8 = (instruction & 7) as u8;
    ThumbInstruction::HighRegisterOperationsBranchExchange(op, h1, h2, rs, rd)
}

fn decode_format06(instruction: u16) -> (r: ThumbInstruction)
    ensures
        r == spec_decode_format06(instruction),
{
    proof {
        lemma_u16_and_le(instruction >> 8, 7);
        lemma_u16_and_le(instruction, 0xFF);
    }
    let rd: u8 = ((instruction >> 8) & 7) as u8;
    let word8: u8 = (instruction & 0xFF) as u8;
    ThumbInstruction::PCRelativeLoad(rd, word8)
}

fn decode_format07(instruction: u16) -> (r: ThumbInstruction)
    ensures
        r == spec_decode_format07(instruction),
{
    proof {
        lemma_u16_and_le(instruction >> 11, 1);
        lemma_u16_and_le(instruction >> 10, 1);
        lemma_u16_and_le(instruction >> 6, 7);
        lemma_u16_and_le(instruction >> 3, 7);
        lemma_u16_and_le(instruction, 7);
    }
    let l: u8 = ((instruction >> 11) & 1) as u8;
    let b: u8 = ((instruction >> 10) & 1) as u8;
    let ro: u8 = ((instruction >> 6) & 7) as u8;
    let rb: u8 = ((instruction >> 3) & 7) as u8;
    let rd: u8 = (instruction & 7) as u8;
    ThumbInstruction::LoadStoreWithRelativeOffset(l, b, ro, rb, rd)
}

fn decode_format08(instruction: u16) -> (r: ThumbInstruction)
    ensures
        r == spec_decode_format08(instruction),
{
    proof {
        lemma_u16_and_le(instruction >> 11, 1);
        lemma_u16_and_le(instruction >> 10, 1);
        lemma_u16_and_le(instruction >> 6, 7);
        lemma_u16_and_le(instruction >> 3, 7);
        lemma_u16_and_le(instruction, 7);
    }
    let h: u8 = ((instruction >> 11) & 1) as u8;
    let s: u8 = ((instruction >> 10) & 1) as u8;
    let ro: u8 = ((instruction >> 6) & 7) as u8;
    let rb: u8 = ((instruction >> 3) & 7) as u8;
    let rd: u8 = (instruction & 7) as u8;
    ThumbInstruction::LoadStoreSignExtendedByteHalfword(h, s, ro, rb, rd)
}

fn decode_format09(instruction: u16) -> (r: ThumbInstruction)
    ensures
        r == spec_decode_format09(instruction),
{
    proof {
        lemma_u16_and_le(instruction >> 12, 1);
        lemma_u16_and_le(instruction >> 11, 1);
        lemma_u16_and_le(instruction >> 6, 0x1F);
        lemma_u16_and_le(instruction >> 3, 7);
        lemma_u16_and_le(instruction, 7);
    }
    let b: u8 = ((instruction >> 12) & 1) as u8;
    let l: u8 = ((instruction >> 11) & 1) as u8;
    let offset5: u8 = ((instruction >> 6) & 0x1F) as u8;
    let rb: u8 = ((instruction >> 3) & 7) as u8;
    let rd: u8 = (instruction & 7) as u8;
    ThumbInstruction::LoadStoreWithImmediateOffset(b, l, offset5, rb, rd)
}

fn decode_format10(instruction: u16) -> (r: ThumbInstruction)
    ensures
        r == spec_decode_format10(instruction),
{
    proof {
        lemma_u16_and_le(instruction >> 11, 1);
        lemma_u16_and_le(instruction >> 6, 0x1F);
        lemma_u16_and_le(instruction >> 3, 7);
        lemma_u16_and_le(instruction, 7);
    }
    let l: u8 = ((instruction >> 11) & 1) as u8;
    let offset5: u8 = ((instruction >> 6) & 0x1F) as u8;
    let rb: u8 = ((instruction >> 3) & 7) as u8;
    let rd: u8 = (instruction & 7) as u8;
    ThumbInstruction::LoadStoreHalfword(l, offset5, rb, rd)
}

fn decode_format11(instruction: u16) -> (r: ThumbInstruction)
    ensures
        r == spec_decode_format11(instruction),
{
    proof {
        lemma_u16_and_le(instruction >> 11, 1);
        lemma_u16_and_le(instruction >> 8, 7);
        lemma_u16_and_le(instruction, 0xFF);
    }
    let l: u8 = ((instruction >> 11) & 1) as u8;
    let rd: u8 = ((instruction >> 8) & 7) as u8;
    let word8: u8 = (instruction & 0xFF) as u8;
    ThumbInstruction::SPRelativeLoadStore(l, rd, word8)
}

fn decode_format12(instruction: u16) -> (r: ThumbInstruction)
    ensures
        r == spec_decode_format12(instruction),
{
    proof {
        lemma_u16_and_le(instruction >> 11, 1);
        lemma_u16_and_le(instruction >> 8, 7);
        lemma_u16_and_le(instruction, 0xFF);
    }
    let sp: u8 = ((instruction >> 11) & 1) as u8;
    let rd: u8 = ((instruction >> 8) & 7) as u8;
    let word8: u8 = (instruction & 0xFF) as u8;
    ThumbInstruction::LoadAddress(sp, rd, word8)
}

fn decode_format13(instruction: u16) -> (r: ThumbInstruction)
    ensures
        r == spec_decode_format13(instruction),
{
    proof {
        lemma_u16_and_le(instruction >> 7, 1);
        lemma_u16_and_le(instruction, 0x7F);
    }
    let s: u8 = ((instruction >> 7) & 1) as u8;
    let sword7: u8 = (instruction & 0x7F) as u8;
    ThumbInstruction::AddOffsetToStackPointer(s, sword7)
}

fn decode_format14(instruction: u16) -> (r: ThumbInstruction)
    ensures
        r == spec_decode_format14(instruction),
{
    proof {
        lemma_u16_and_le(instruction >> 11, 1);
        lemma_u16_and_le(instruction >> 8, 1);
        lemma_u16_and_le(instruction, 0xFF);
    }
    let l: u8 = ((instruction >> 11) & 1) as u8;
    let r: u8 = ((instruction >> 8) & 1) as u8;
    let rlist: u8 = (instruction & 0xFF) as u8;
    ThumbInstruction::PushPopRegisters(l, r, rlist)
}

fn decode_format15(instruction: u16) -> (r: ThumbInstruction)
    ensures
        r == spec_decode_format15(instruction),
{
    proof {
        lemma_u16_and_le(instruction >> 11, 1);
        lemma_u16_and_le(instruction >> 8, 7);
        lemma_u16_and_le(instruction, 0xFF);
    }
    let l: u8 = ((instruction >> 11) & 1) as u8;
    let rb: u8 = ((instruction >> 8) & 7) as u8;
    let rlist: u8 = (instruction & 0xFF) as u8;
    ThumbInstruction::MultipleLoadStore(l, rb, rlist)
}

fn decode_format16(instruction: u16) -> (r: ThumbInstruction)
    ensures
        r == spec_decode_format16(instruction),
{
    proof {
        lemma_u16_and_le(instruction >> 8, 0xF);
        lemma_u16_and_le(instruction, 0xFF);
    }
    let cond: u8 = ((instruction >> 8) & 0xF) as u8;
    let low = instruction & 0xFF;
    let offset8: i8 = if low >= 0x80 {
        ((low as i16) - 0x100) as i8
    } else {
        low as i8
    };
    ThumbInstruction::ConditionalBranch(cond, offset8)
}

fn decode_format17(instruction: u16) -> (r: ThumbInstruction)
    ensures
        r == spec_decode_format17(instruction),
{
    proof {
        lemma_u16_and_le(instruction, 0xFF);
    }
    let value8: u8 = (instruction & 0xFF) as u8;
    ThumbInstruction::SoftwareInterrupt(value8)
}

fn decode_format18(instruction: u16) -> (r: ThumbInstruction)
    ensures
        r == spec_decode_format18(instruction),
{
    proof {
        lemma_u16_and_le(instruction, 0x7FF);
    }
    let raw = instruction & 0x7FF;
    let offset11: i16 = if raw >= 0x400 {
        (raw as i16) - 0x800
    } else {
        raw as i16
    };
    ThumbInstruction::UnconditionalBranch(offset11)
}

fn decode_format19(instruction: u16) -> (r: ThumbInstruction)
    ensures
        r == spec_decode_format19(instruction),
{
    proof {
        lemma_u16_and_le(instruction >> 11, 1);
    }
    let h: u8 = ((instruction >> 11) & 1) as u8;
    let offset11: u16 = instruction & 0x7FF;
    ThumbInstruction::LongBranchWithLink(h, offset11)
}

/// Classifies a 16-bit instruction word and extracts its operand fields.
///
/// Sub-ranges are tested before the ranges that enclose them (add/subtract
/// before shifted-register-move, software-interrupt before conditional
/// branch), so every value classifies to exactly one format. A value in one
/// of the undefined windows reports `UnknownInstruction` carrying the raw
/// bits.
pub fn thumb_format_decode(instruction: u16) -> (r: Result<(ThumbFormat, ThumbInstruction), Fault>)
    ensures
        spec_thumb_decode(instruction) matches Some(p) ==> r == Ok::<
            (ThumbFormat, ThumbInstruction),
            Fault,
        >(p),
        spec_thumb_decode(instruction) is None ==> r == Err::<
            (ThumbFormat, ThumbInstruction),
            Fault,
        >(Fault::UnknownInstruction(instruction as u32)),
        r matches Ok(p) ==> spec_format_matches(p.0, p.1) && spec_instr_wf(p.1)
            && spec_thumb_encode(p.1) == instruction,
{
    proof {
        lemma_thumb_decode_props(instruction);
    }
    if instruction & 0xF800 == 0x1800 {
        Ok((ThumbFormat::Format02, decode_format02(instruction)))
    } else if instruction & 0xE000 == 0x0000 {
        Ok((ThumbFormat::Format01, decode_format01(instruction)))
    } else if instruction & 0xE000 == 0x2000 {
        Ok((ThumbFormat::Format03, decode_format03(instruction)))
    } else if instruction & 0xFC00 == 0x4000 {
        Ok((ThumbFormat::Format04, decode_format04(instruction)))
    } else if instruction & 0xFC00 == 0x4400 {
        Ok((ThumbFormat::Format05, decode_format05(instruction)))
    } else if instruction & 0xF800 == 0x4800 {
        Ok((ThumbFormat::Format06, decode_format06(instruction)))
    } else if instruction & 0xF200 == 0x5000 {
        Ok((ThumbFormat::Format07, decode_format07(instruction)))
    } else if instruction & 0xF200 == 0x5200 {
        Ok((ThumbFormat::Format08, decode_format08(instruction)))
    } else if instruction & 0xE000 == 0x6000 {
        Ok((ThumbFormat::Format09, decode_format09(instruction)))
    } else if instruction & 0xF000 == 0x8000 {
        Ok((ThumbFormat::Format10, decode_format10(instruction)))
    } else if instruction & 0xF000 == 0x9000 {
        Ok((ThumbFormat::Format11, decode_format11(instruction)))
    } else if instruction & 0xF000 == 0xA000 {
        Ok((ThumbFormat::Format12, decode_format12(instruction)))
    } else if instruction & 0xFF00 == 0xB000 {
        Ok((ThumbFormat::Format13, decode_format13(instruction)))
    } else if instruction & 0xF600 == 0xB400 {
        Ok((ThumbFormat::Format14, decode_format14(instruction)))
    } else if instruction & 0xF000 == 0xC000 {
        Ok((ThumbFormat::Format15, decode_format15(instruction)))
    } else if instruction & 0xFF00 == 0xDF00 {
        Ok((ThumbFormat::Format17, decode_format17(instruction)))
    } else if instruction & 0xF000 == 0xD000 {
        Ok((ThumbFormat::Format16, decode_format16(instruction)))
    } else if instruction & 0xF800 == 0xE000 {
        Ok((ThumbFormat::Format18, decode_format18(instruction)))
    } else if instruction & 0xF000 == 0xF000 {
        Ok((ThumbFormat::Format19, decode_format19(instruction)))
    } else {
        Err(Fault::UnknownInstruction(instruction as u32))
    }
}

/// Decodes a 16-bit instruction word: the classifier above is the whole of
/// decoding for the 16-bit set.
pub fn thumb_op_decode(instruction: u16) -> (r: Result<(ThumbFormat, ThumbInstruction), Fault>)
    ensures
        spec_thumb_decode(instruction) matches Some(p) ==> r == Ok::<
            (ThumbFormat, ThumbInstruction),
            Fault,
        >(p),
        spec_thumb_decode(instruction) is None ==> r == Err::<
            (ThumbFormat, ThumbInstruction),
            Fault,
        >(Fault::UnknownInstruction(instruction as u32)),
        r matches Ok(p) ==> spec_format_matches(p.0, p.1) && spec_instr_wf(p.1)
            && spec_thumb_encode(p.1) == instruction,
{
    thumb_format_decode(instruction)
}

/// The classifier succeeds on exactly the values outside the undefined
/// windows: together with the round trip below, every 16-bit value selects
/// exactly one format or is rejected.
pub proof fn lemma_thumb_classifier_total(v: u16)
    ensures
        spec_thumb_format(v) is Some <==> !spec_thumb_undefined(v),
{
    assert(((v & 0xF800 == 0x1800) || (v & 0xE000 == 0x0000) || (v & 0xE000 == 0x2000) || (v
        & 0xFC00 == 0x4000) || (v & 0xFC00 == 0x4400) || (v & 0xF800 == 0x4800) || (v & 0xF200
        == 0x5000) || (v & 0xF200 == 0x5200) || (v & 0xE000 == 0x6000) || (v & 0xF000 == 0x8000)
        || (v & 0xF000 == 0x9000) || (v & 0xF000 == 0xA000) || (v & 0xFF00 == 0xB000) || (v & 0xF600
        == 0xB400) || (v & 0xF000 == 0xC000) || (v & 0xFF00 == 0xDF00) || (v & 0xF000 == 0xD000)
        || (v & 0xF800 == 0xE000) || (v & 0xF000 == 0xF000)) <==> !((v & 0xF000 == 0xB000 && v
        & 0xFF00 != 0xB000 && v & 0xF600 != 0xB400) || (v & 0xF800 == 0xE800))) by (bit_vector);
}

/// The round trip of the 16-bit decoder: for every value the classifier
/// accepts, the format matches the instruction variant, every extracted
/// field lies in its bit group's range, and re-encoding the fields
/// reproduces the original word exactly.
pub proof fn lemma_thumb_decode_props(v: u16)
    ensures
        spec_thumb_decode(v) matches Some((f, i)) ==> spec_format_matches(f, i) && spec_instr_wf(i)
            && spec_thumb_encode(i) == v,
{
    lemma_u16_and_le(v >> 11, 3);
    lemma_u16_and_le(v >> 9, 3);
    lemma_u16_and_le(v >> 8, 3);
    lemma_u16_and_le(v >> 8, 7);
    lemma_u16_and_le(v >> 8, 0xF);
    lemma_u16_and_le(v >> 8, 1);
    lemma_u16_and_le(v >> 12, 1);
    lemma_u16_and_le(v >> 11, 1);
    lemma_u16_and_le(v >> 10, 1);
    lemma_u16_and_le(v >> 7, 1);
    lemma_u16_and_le(v >> 6, 1);
    lemma_u16_and_le(v >> 6, 7);
    lemma_u16_and_le(v >> 6, 0xF);
    lemma_u16_and_le(v >> 6, 0x1F);
    lemma_u16_and_le(v >> 3, 7);
    lemma_u16_and_le(v, 7);
    lemma_u16_and_le(v, 0x7F);
    lemma_u16_and_le(v, 0xFF);
    lemma_u16_and_le(v, 0x7FF);
    if v & 0xF800 == 0x1800 {
        let op = ((v >> 9) & 3) as u8;
        let rn = ((v >> 6) & 7) as u8;
        let rs = ((v >> 3) & 7) as u8;
        let rd = (v & 7) as u8;
        assert((0x1800u16 | (((op & 3) as u16) << 9) | (((rn & 7) as u16) << 6) | (((rs
            & 7) as u16) << 3) | ((rd & 7) as u16)) == v) by (bit_vector)
            requires
                v & 0xF800 == 0x1800,
                op == ((v >> 9) & 3) as u8,
                rn == ((v >> 6) & 7) as u8,
                rs == ((v >> 3) & 7) as u8,
                rd == (v & 7) as u8,
        ;
    } else if v & 0xE000 == 0x0000 {
        let op = ((v >> 11) & 3) as u8;
        let off5 = ((v >> 6) & 0x1F) as u8;
        let rs = ((v >> 3) & 7) as u8;
        let rd = (v & 7) as u8;
        assert(op <= 2 && ((((op & 3) as u16) << 11) | (((off5 & 0x1F) as u16) << 6) | (((rs
            & 7) as u16) << 3) | ((rd & 7) as u16)) == v) by (bit_vector)
            requires
                v & 0xE000 == 0x0000,
                v & 0xF800 != 0x1800,
                op == ((v >> 11) & 3) as u8,
                off5 == ((v >> 6) & 0x1F) as u8,
                rs == ((v >> 3) & 7) as u8,
                rd == (v & 7) as u8,
        ;
    } else if v & 0xE000 == 0x2000 {
        let op = ((v >> 11) & 3) as u8;
        let rd = ((v >> 8) & 7) as u8;
        let imm = (v & 0xFF) as u8;
        assert((0x2000u16 | (((op & 3) as u16) << 11) | (((rd & 7) as u16) << 8) | (imm as u16))
            == v) by (bit_vector)
            requires
                v & 0xE000 == 0x2000,
                op == ((v >> 11) & 3) as u8,
                rd == ((v >> 8) & 7) as u8,
                imm == (v & 0xFF) as u8,
        ;
    } else if v & 0xFC00 == 0x4000 {
        let op = ((v >> 6) & 0xF) as u8;
        let rs = ((v >> 3) & 7) as u8;
        let rd = (v & 7) as u8;
        assert((0x4000u16 | (((op & 0xF) as u16) << 6) | (((rs & 7) as u16) << 3) | ((rd
            & 7) as u16)) == v) by (bit_vector)
            requires
                v & 0xFC00 == 0x4000,
                op == ((v >> 6) & 0xF) as u8,
                rs == ((v >> 3) & 7) as u8,
                rd == (v & 7) as u8,
        ;
    } else if v & 0xFC00 == 0x4400 {
        let op = ((v >> 8) & 3) as u8;
        let h1 = ((v >> 7) & 1) as u8;
        let h2 = ((v >> 6) & 1) as u8;
        let rs = ((v >> 3) & 7) as u8;
        let rd = (v & 7) as u8;
        assert((0x4400u16 | (((op & 3) as u16) << 8) | (((h1 & 1) as u16) << 7) | (((h2
            & 1) as u16) << 6) | (((rs & 7) as u16) << 3) | ((rd & 7) as u16)) == v) by (bit_vector)
            requires
                v & 0xFC00 == 0x4400,
                op == ((v >> 8) & 3) as u8,
                h1 == ((v >> 7) & 1) as u8,
                h2 == ((v >> 6) & 1) as u8,
                rs == ((v >> 3) & 7) as u8,
                rd == (v & 7) as u8,
        ;
    } else if v & 0xF800 == 0x4800 {
        let rd = ((v >> 8) & 7) as u8;
        let w8 = (v & 0xFF) as u8;
        assert((0x4800u16 | (((rd & 7) as u16) << 8) | (w8 as u16)) == v) by (bit_vector)
            requires
                v & 0xF800 == 0x4800,
                rd == ((v >> 8) & 7) as u8,
                w8 == (v & 0xFF) as u8,
        ;
    } else if v & 0xF200 == 0x5000 {
        let l = ((v >> 11) & 1) as u8;
        let b = ((v >> 10) & 1) as u8;
        let ro = ((v >> 6) & 7) as u8;
        let rb = ((v >> 3) & 7) as u8;
        let rd = (v & 7) as u8;
        assert((0x5000u16 | (((l & 1) as u16) << 11) | (((b & 1) as u16) << 10) | (((ro
            & 7) as u16) << 6) | (((rb & 7) as u16) << 3) | ((rd & 7) as u16)) == v) by (bit_vector)
            requires
                v & 0xF200 == 0x5000,
                l == ((v >> 11) & 1) as u8,
                b == ((v >> 10) & 1) as u8,
                ro == ((v >> 6) & 7) as u8,
                rb == ((v >> 3) & 7) as u8,
                rd == (v & 7) as u8,
        ;
    } else if v & 0xF200 == 0x5200 {
        let h = ((v >> 11) & 1) as u8;
        let s = ((v >> 10) & 1) as u8;
        let ro = ((v >> 6) & 7) as u8;
        let rb = ((v >> 3) & 7) as u8;
        let rd = (v & 7) as u8;
        assert((0x5200u16 | (((h & 1) as u16) << 11) | (((s & 1) as u16) << 10) | (((ro
            & 7) as u16) << 6) | (((rb & 7) as u16) << 3) | ((rd & 7) as u16)) == v) by (bit_vector)
            requires
                v & 0xF200 == 0x5200,
                h == ((v >> 11) & 1) as u8,
                s == ((v >> 10) & 1) as u8,
                ro == ((v >> 6) & 7) as u8,
                rb == ((v >> 3) & 7) as u8,
                rd == (v & 7) as u8,
        ;
    } else if v & 0xE000 == 0x6000 {
        let b = ((v >> 12) & 1) as u8;
        let l = ((v >> 11) & 1) as u8;
        let off5 = ((v >> 6) & 0x1F) as u8;
        let rb = ((v >> 3) & 7) as u8;
        let rd = (v & 7) as u8;
        assert((0x6000u16 | (((b & 1) as u16) << 12) | (((l & 1) as u16) << 11) | (((off5
            & 0x1F) as u16) << 6) | (((rb & 7) as u16) << 3) | ((rd & 7) as u16)) == v) by (bit_vector)
            requires
                v & 0xE000 == 0x6000,
                b == ((v >> 12) & 1) as u8,
                l == ((v >> 11) & 1) as u8,
                off5 == ((v >> 6) & 0x1F) as u8,
                rb == ((v >> 3) & 7) as u8,
                rd == (v & 7) as u8,
        ;
    } else if v & 0xF000 == 0x8000 {
        let l = ((v >> 11) & 1) as u8;
        let off5 = ((v >> 6) & 0x1F) as u8;
        let rb = ((v >> 3) & 7) as u8;
        let rd = (v & 7) as u8;
        assert((0x8000u16 | (((l & 1) as u16) << 11) | (((off5 & 0x1F) as u16) << 6) | (((rb
            & 7) as u16) << 3) | ((rd & 7) as u16)) == v) by (bit_vector)
            requires
                v & 0xF000 == 0x8000,
                l == ((v >> 11) & 1) as u8,
                off5 == ((v >> 6) & 0x1F) as u8,
                rb == ((v >> 3) & 7) as u8,
                rd == (v & 7) as u8,
        ;
    } else if v & 0xF000 == 0x9000 {
        let l = ((v >> 11) & 1) as u8;
        let rd = ((v >> 8) & 7) as u8;
        let w8 = (v & 0xFF) as u8;
        assert((0x9000u16 | (((l & 1) as u16) << 11) | (((rd & 7) as u16) << 8) | (w8 as u16))
            == v) by (bit_vector)
            requires
                v & 0xF000 == 0x9000,
                l == ((v >> 11) & 1) as u8,
                rd == ((v >> 8) & 7) as u8,
                w8 == (v & 0xFF) as u8,
        ;
    } else if v & 0xF000 == 0xA000 {
        let sp = ((v >> 11) & 1) as u8;
        let rd = ((v >> 8) & 7) as u8;
        let w8 = (v & 0xFF) as u8;
        assert((0xA000u16 | (((sp & 1) as u16) << 11) | (((rd & 7) as u16) << 8) | (w8 as u16))
            == v) by (bit_vector)
            requires
                v & 0xF000 == 0xA000,
                sp == ((v >> 11) & 1) as u8,
                rd == ((v >> 8) & 7) as u8,
                w8 == (v & 0xFF) as u8,
        ;
    } else if v & 0xFF00 == 0xB000 {
        let s = ((v >> 7) & 1) as u8;
        let sw7 = (v & 0x7F) as u8;
        assert((0xB000u16 | (((s & 1) as u16) << 7) | ((sw7 & 0x7F) as u16)) == v) by (bit_vector)
            requires
                v & 0xFF00 == 0xB000,
                s == ((v >> 7) & 1) as u8,
                sw7 == (v & 0x7F) as u8,
        ;
    } else if v & 0xF600 == 0xB400 {
        let l = ((v >> 11) & 1) as u8;
        let r = ((v >> 8) & 1) as u8;
        let rlist = (v & 0xFF) as u8;
        assert((0xB400u16 | (((l & 1) as u16) << 11) | (((r & 1) as u16) << 8) | (rlist as u16))
            == v) by (bit_vector)
            requires
                v & 0xF600 == 0xB400,
                l == ((v >> 11) & 1) as u8,
                r == ((v >> 8) & 1) as u8,
                rlist == (v & 0xFF) as u8,
        ;
    } else if v & 0xF000 == 0xC000 {
        let l = ((v >> 11) & 1) as u8;
        let rb = ((v >> 8) & 7) as u8;
        let rlist = (v & 0xFF) as u8;
        assert((0xC000u16 | (((l & 1) as u16) << 11) | (((rb & 7) as u16) << 8) | (rlist as u16))
            == v) by (bit_vector)
            requires
                v & 0xF000 == 0xC000,
                l == ((v >> 11) & 1) as u8,
                rb == ((v >> 8) & 7) as u8,
                rlist == (v & 0xFF) as u8,
        ;
    } else if v & 0xFF00 == 0xDF00 {
        let v8 = (v & 0xFF) as u8;
        assert((0xDF00u16 | (v8 as u16)) == v) by (bit_vector)
            requires
                v & 0xFF00 == 0xDF00,
                v8 == (v & 0xFF) as u8,
        ;
    } else if v & 0xF000 == 0xD000 {
        let cond = ((v >> 8) & 0xF) as u8;
        assert(cond <= 14 && (0xD000u16 | (((cond & 0xF) as u16) << 8) | (v & 0xFF)) == v)
            by (bit_vector)
            requires
                v & 0xF000 == 0xD000,
                v & 0xFF00 != 0xDF00,
                cond == ((v >> 8) & 0xF) as u8,
        ;
        if v & 0xFF >= 0x80 {
            let off = ((v & 0xFF) - 0x100) as i8;
            assert(off < 0 && (off + 0x100) as u16 == v & 0xFF);
        } else {
            let off = (v & 0xFF) as i8;
            assert(off >= 0 && off as u16 == v & 0xFF);
        }
    } else if v & 0xF800 == 0xE000 {
        assert((0xE000u16 | (v & 0x7FF)) == v && ((v & 0x7FF) & 0x7FF) == (v & 0x7FF))
            by (bit_vector)
            requires
                v & 0xF800 == 0xE000,
        ;
        if v & 0x7FF >= 0x400 {
            let off = ((v & 0x7FF) - 0x800) as i16;
            assert(-1024 <= off < 0 && (off + 0x800) as u16 == v & 0x7FF);
        } else {
            let off = (v & 0x7FF) as i16;
            assert(0 <= off <= 1023 && off as u16 == v & 0x7FF);
        }
    } else if v & 0xF000 == 0xF000 {
        let h = ((v >> 11) & 1) as u8;
        assert((0xF000u16 | (((h & 1) as u16) << 11) | ((v & 0x7FF) & 0x7FF)) == v) by (bit_vector)
            requires
                v & 0xF000 == 0xF000,
                h == ((v >> 11) & 1) as u8,
        ;
    }
}

} // verus!
