use arm7_core::common::Fault;
use arm7_core::thumb_op::{thumb_format_decode, thumb_op_decode, ThumbFormat, ThumbInstruction};

#[test]
fn test_thumb_format_decode() {
    assert_eq!(
        thumb_format_decode(0x0000),
        Ok((ThumbFormat::Format01, ThumbInstruction::MoveShiftedRegister(0, 0, 0, 0)))
    );
    assert_eq!(
        thumb_format_decode(0x2000),
        Ok((ThumbFormat::Format03, ThumbInstruction::MoveCompareAddSubtractImmediate(0, 0, 0)))
    );
    assert_eq!(
        thumb_format_decode(0x4000),
        Ok((ThumbFormat::Format04, ThumbInstruction::ALUOperation(0, 0, 0)))
    );
    assert_eq!(
        thumb_format_decode(0x4400),
        Ok((
            ThumbFormat::Format05,
            ThumbInstruction::HighRegisterOperationsBranchExchange(0, 0, 0, 0, 0)
        ))
    );
    assert_eq!(
        thumb_format_decode(0x4800),
        Ok((ThumbFormat::Format06, ThumbInstruction::PCRelativeLoad(0, 0)))
    );
    assert_eq!(
        thumb_format_decode(0x6000),
        Ok((ThumbFormat::Format09, ThumbInstruction::LoadStoreWithImmediateOffset(0, 0, 0, 0, 0)))
    );
    assert_eq!(
        thumb_format_decode(0x8000),
        Ok((ThumbFormat::Format10, ThumbInstruction::LoadStoreHalfword(0, 0, 0, 0)))
    );
    assert_eq!(
        thumb_format_decode(0x9000),
        Ok((ThumbFormat::Format11, ThumbInstruction::SPRelativeLoadStore(0, 0, 0)))
    );
    assert_eq!(
        thumb_format_decode(0xA000),
        Ok((ThumbFormat::Format12, ThumbInstruction::LoadAddress(0, 0, 0)))
    );
    assert_eq!(
        thumb_format_decode(0xB000),
        Ok((ThumbFormat::Format13, ThumbInstruction::AddOffsetToStackPointer(0, 0)))
    );
    assert_eq!(
        thumb_format_decode(0xB400),
        Ok((ThumbFormat::Format14, ThumbInstruction::PushPopRegisters(0, 0, 0)))
    );
    assert_eq!(
        thumb_format_decode(0xC000),
        Ok((ThumbFormat::Format15, ThumbInstruction::MultipleLoadStore(0, 0, 0)))
    );
    assert_eq!(
        thumb_format_decode(0xE000),
        Ok((ThumbFormat::Format18, ThumbInstruction::UnconditionalBranch(0)))
    );
    assert_eq!(
        thumb_format_decode(0xF000),
        Ok((ThumbFormat::Format19, ThumbInstruction::LongBranchWithLink(0, 0)))
    );
}

#[test]
fn add_subtract_is_tested_before_move_shifted_register() {
    // 0x1800 lies inside the nominal shifted-register-move range; the
    // narrower add/subtract pattern must win.
    assert_eq!(
        thumb_format_decode(0x1800),
        Ok((ThumbFormat::Format02, ThumbInstruction::AddSubtract(0, 0, 0, 0)))
    );
    // 0x1C40 is ADD with a three-bit immediate of 1.
    assert_eq!(
        thumb_format_decode(0x1C40),
        Ok((ThumbFormat::Format02, ThumbInstruction::AddSubtract(2, 1, 0, 0)))
    );
    // Just below the add/subtract window, the wide pattern still applies.
    assert_eq!(
        thumb_format_decode(0x17FF),
        Ok((ThumbFormat::Format01, ThumbInstruction::MoveShiftedRegister(2, 31, 7, 7)))
    );
}

#[test]
fn software_interrupt_is_tested_before_conditional_branch() {
    assert_eq!(
        thumb_format_decode(0xDF05),
        Ok((ThumbFormat::Format17, ThumbInstruction::SoftwareInterrupt(5)))
    );
    // Condition code 14 still classifies as a conditional branch.
    assert_eq!(
        thumb_format_decode(0xDE00),
        Ok((ThumbFormat::Format16, ThumbInstruction::ConditionalBranch(14, 0)))
    );
}

#[test]
fn load_store_formats_differ_in_bit_nine() {
    assert_eq!(
        thumb_format_decode(0x5000),
        Ok((ThumbFormat::Format07, ThumbInstruction::LoadStoreWithRelativeOffset(0, 0, 0, 0, 0)))
    );
    assert_eq!(
        thumb_format_decode(0x5200),
        Ok((
            ThumbFormat::Format08,
            ThumbInstruction::LoadStoreSignExtendedByteHalfword(0, 0, 0, 0, 0)
        ))
    );
}

#[test]
fn branch_offsets_are_sign_extended() {
    assert_eq!(
        thumb_format_decode(0xD0FE),
        Ok((ThumbFormat::Format16, ThumbInstruction::ConditionalBranch(0, -2)))
    );
    assert_eq!(
        thumb_format_decode(0xD07F),
        Ok((ThumbFormat::Format16, ThumbInstruction::ConditionalBranch(0, 127)))
    );
    assert_eq!(
        thumb_format_decode(0xE400),
        Ok((ThumbFormat::Format18, ThumbInstruction::UnconditionalBranch(-1024)))
    );
    assert_eq!(
        thumb_format_decode(0xE7FF),
        Ok((ThumbFormat::Format18, ThumbInstruction::UnconditionalBranch(-1)))
    );
    assert_eq!(
        thumb_format_decode(0xE3FF),
        Ok((ThumbFormat::Format18, ThumbInstruction::UnconditionalBranch(1023)))
    );
}

#[test]
fn undefined_windows_report_unknown_instruction() {
    assert_eq!(thumb_format_decode(0xB100), Err(Fault::UnknownInstruction(0xB100)));
    assert_eq!(thumb_format_decode(0xB600), Err(Fault::UnknownInstruction(0xB600)));
    assert_eq!(thumb_format_decode(0xBE00), Err(Fault::UnknownInstruction(0xBE00)));
    assert_eq!(thumb_format_decode(0xE800), Err(Fault::UnknownInstruction(0xE800)));
    assert_eq!(thumb_format_decode(0xEFFF), Err(Fault::UnknownInstruction(0xEFFF)));
}

#[test]
fn every_value_classifies_or_is_undefined() {
    // The classifier is total outside the three undefined windows.
    let mut defined: u32 = 0;
    for v in 0..=0xFFFFu32 {
        let r = thumb_format_decode(v as u16);
        let undefined = (v & 0xF000 == 0xB000 && v & 0xFF00 != 0xB000 && v & 0xF600 != 0xB400)
            || (v & 0xF800 == 0xE800);
        assert_eq!(r.is_ok(), !undefined);
        if r.is_ok() {
            defined += 1;
        }
    }
    // The undefined space is 0xB00 values in the 0xB000 window and the
    // 0x800-value window at 0xE800.
    assert_eq!(defined, 65536 - 0xB00 - 0x800);
}

#[test]
fn field_extraction_covers_every_position() {
    assert_eq!(
        thumb_format_decode(0x1A53),
        Ok((ThumbFormat::Format02, ThumbInstruction::AddSubtract(1, 1, 2, 3)))
    );
    assert_eq!(
        thumb_format_decode(0x43F1),
        Ok((ThumbFormat::Format04, ThumbInstruction::ALUOperation(15, 6, 1)))
    );
    assert_eq!(
        thumb_format_decode(0x46C0),
        Ok((
            ThumbFormat::Format05,
            ThumbInstruction::HighRegisterOperationsBranchExchange(2, 1, 1, 0, 0)
        ))
    );
    assert_eq!(
        thumb_format_decode(0x4F42),
        Ok((ThumbFormat::Format06, ThumbInstruction::PCRelativeLoad(7, 0x42)))
    );
    assert_eq!(
        thumb_format_decode(0xB0FF),
        Ok((ThumbFormat::Format13, ThumbInstruction::AddOffsetToStackPointer(1, 0x7F)))
    );
    assert_eq!(
        thumb_format_decode(0xBD81),
        Ok((ThumbFormat::Format14, ThumbInstruction::PushPopRegisters(1, 1, 0x81)))
    );
    assert_eq!(
        thumb_format_decode(0xCA55),
        Ok((ThumbFormat::Format15, ThumbInstruction::MultipleLoadStore(1, 2, 0x55)))
    );
    assert_eq!(
        thumb_format_decode(0xF801),
        Ok((ThumbFormat::Format19, ThumbInstruction::LongBranchWithLink(1, 1)))
    );
}

#[test]
fn thumb_op_decode_matches_the_classifier() {
    assert_eq!(thumb_op_decode(0x1800), thumb_format_decode(0x1800));
    assert_eq!(thumb_op_decode(0xB100), thumb_format_decode(0xB100));
}
