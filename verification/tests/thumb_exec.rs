use arm7_core::common::Fault;
use arm7_core::cpu::CPU;
use arm7_core::psr::Mode;
use arm7_core::thumb_exec::{thumb_op_exec, and, bic, eor, mvn, orr, tst, beq, bne, bcs, bcc, bmi,
    bpl, bvs, bvc, bhi, bls, bge, blt, bgt, ble, b, bl, swi};
use arm7_core::thumb_op::{ThumbFormat, ThumbInstruction};

#[test]
fn sub_of_a_register_from_itself_sets_exactly_the_zero_and_carry_flags() {
    // Registers zeroed, status word zeroed, register-to-register SUB with
    // destination equal to source.
    let mut cpu = CPU::new();
    arm7_core::thumb_exec::sub(&mut cpu, 0, 0);
    assert_eq!(cpu.reg.r[0], 0);
    assert!(cpu.reg.cpsr.get_z());
    assert!(!cpu.reg.cpsr.get_n());
    assert!(cpu.reg.cpsr.get_c());
    assert!(!cpu.reg.cpsr.get_v());
}

#[test]
fn sub_through_the_add_subtract_format_behaves_the_same() {
    let mut cpu = CPU::new();
    let r = thumb_op_exec(
        &mut cpu,
        ThumbFormat::Format02,
        ThumbInstruction::AddSubtract(1, 0, 0, 0),
    );
    assert_eq!(r, Ok(()));
    assert_eq!(cpu.reg.r[0], 0);
    assert!(cpu.reg.cpsr.get_z());
    assert!(!cpu.reg.cpsr.get_n());
    assert!(cpu.reg.cpsr.get_c());
    assert!(!cpu.reg.cpsr.get_v());
    assert_eq!(cpu.reg.pc, 2);
    assert_eq!(cpu.tick, 1);
}

#[test]
fn software_interrupt_redirects_forces_supervisor_and_biases_the_link() {
    // Software interrupt with immediate 5 at program counter 0x100 with a
    // zero link register.
    let mut cpu = CPU::new();
    cpu.reg.pc = 0x100;
    cpu.reg.lr = 0;
    let r = thumb_op_exec(
        &mut cpu,
        ThumbFormat::Format17,
        ThumbInstruction::SoftwareInterrupt(0x05),
    );
    assert_eq!(r, Ok(()));
    assert_eq!(cpu.reg.pc, 0x05);
    assert_eq!(cpu.reg.cpsr.mode(), Some(Mode::Supervisor));
    assert_eq!(cpu.reg.lr, 2);
    assert_eq!(cpu.tick, 3);
}

#[test]
fn the_swi_primitive_matches_the_format_executor() {
    let mut cpu = CPU::new();
    cpu.reg.pc = 0x100;
    swi(&mut cpu, 0x05);
    assert_eq!(cpu.reg.pc, 0x05);
    assert_eq!(cpu.reg.cpsr.mode(), Some(Mode::Supervisor));
    assert_eq!(cpu.reg.lr, 2);
}

#[test]
fn alu_operations_compute_and_flag_exactly() {
    let mut cpu = CPU::new();
    cpu.reg.r[0] = 0b1100;
    cpu.reg.r[1] = 0b1010;
    and(&mut cpu, 1, 0);
    assert_eq!(cpu.reg.r[0], 0b1000);
    assert!(!cpu.reg.cpsr.get_z());

    cpu.reg.r[0] = 0b1100;
    eor(&mut cpu, 1, 0);
    assert_eq!(cpu.reg.r[0], 0b0110);

    cpu.reg.r[0] = 0b1100;
    orr(&mut cpu, 1, 0);
    assert_eq!(cpu.reg.r[0], 0b1110);

    cpu.reg.r[0] = 0b1100;
    bic(&mut cpu, 1, 0);
    assert_eq!(cpu.reg.r[0], 0b0100);

    mvn(&mut cpu, 1, 0);
    assert_eq!(cpu.reg.r[0], !0b1010u32);
    assert!(cpu.reg.cpsr.get_n());

    cpu.reg.r[0] = 0b0101;
    tst(&mut cpu, 1, 0);
    assert_eq!(cpu.reg.r[0], 0b0101);
    assert!(cpu.reg.cpsr.get_z());
    assert!(!cpu.reg.cpsr.get_c());
    assert!(!cpu.reg.cpsr.get_v());
}

#[test]
fn the_add_primitive_reports_carry_out() {
    let mut cpu = CPU::new();
    cpu.reg.r[2] = 0xFFFF_FFFF;
    cpu.reg.r[3] = 1;
    arm7_core::thumb_exec::add(&mut cpu, 3, 2);
    assert_eq!(cpu.reg.r[2], 0);
    assert!(cpu.reg.cpsr.get_z());
    assert!(cpu.reg.cpsr.get_c());

    cpu.reg.r[2] = 5;
    arm7_core::thumb_exec::add(&mut cpu, 3, 2);
    assert_eq!(cpu.reg.r[2], 6);
    assert!(!cpu.reg.cpsr.get_c());
}

#[test]
fn the_cmp_primitive_discards_the_result_but_flags() {
    let mut cpu = CPU::new();
    cpu.reg.r[0] = 3;
    cpu.reg.r[1] = 5;
    arm7_core::thumb_exec::cmp(&mut cpu, 1, 0);
    assert_eq!(cpu.reg.r[0], 3);
    assert!(!cpu.reg.cpsr.get_c());
    assert!(cpu.reg.cpsr.get_n());
    assert!(!cpu.reg.cpsr.get_z());
}

#[test]
fn unknown_alu_operation_codes_fault_and_change_nothing() {
    let mut cpu = CPU::new();
    cpu.reg.r[0] = 7;
    let r = thumb_op_exec(
        &mut cpu,
        ThumbFormat::Format04,
        ThumbInstruction::ALUOperation(6, 0, 0),
    );
    assert_eq!(r, Err(Fault::UnknownInstruction(0x4180)));
    assert_eq!(cpu.reg.r[0], 7);
    assert_eq!(cpu.reg.pc, 0);
    assert_eq!(cpu.tick, 0);
}

#[test]
fn move_shifted_register_shifts_and_sets_the_shifter_carry() {
    let mut cpu = CPU::new();
    cpu.reg.r[1] = 1;
    let r = thumb_op_exec(
        &mut cpu,
        ThumbFormat::Format01,
        ThumbInstruction::MoveShiftedRegister(0, 4, 1, 0),
    );
    assert_eq!(r, Ok(()));
    assert_eq!(cpu.reg.r[0], 16);
    assert!(!cpu.reg.cpsr.get_c());

    // A logical right shift by zero means a full shift: result zero, carry
    // from bit 31.
    cpu.reg.r[1] = 0x8000_0001;
    let r = thumb_op_exec(
        &mut cpu,
        ThumbFormat::Format01,
        ThumbInstruction::MoveShiftedRegister(1, 0, 1, 0),
    );
    assert_eq!(r, Ok(()));
    assert_eq!(cpu.reg.r[0], 0);
    assert!(cpu.reg.cpsr.get_z());
    assert!(cpu.reg.cpsr.get_c());

    // An arithmetic right shift replicates the sign bit.
    cpu.reg.r[1] = 0x8000_0000;
    let r = thumb_op_exec(
        &mut cpu,
        ThumbFormat::Format01,
        ThumbInstruction::MoveShiftedRegister(2, 1, 1, 0),
    );
    assert_eq!(r, Ok(()));
    assert_eq!(cpu.reg.r[0], 0xC000_0000);
    assert!(cpu.reg.cpsr.get_n());
}

#[test]
fn immediate_moves_compares_adds_and_subtracts() {
    let mut cpu = CPU::new();
    let r = thumb_op_exec(
        &mut cpu,
        ThumbFormat::Format03,
        ThumbInstruction::MoveCompareAddSubtractImmediate(0, 1, 0),
    );
    assert_eq!(r, Ok(()));
    assert_eq!(cpu.reg.r[1], 0);
    assert!(cpu.reg.cpsr.get_z());

    let r = thumb_op_exec(
        &mut cpu,
        ThumbFormat::Format03,
        ThumbInstruction::MoveCompareAddSubtractImmediate(2, 1, 255),
    );
    assert_eq!(r, Ok(()));
    assert_eq!(cpu.reg.r[1], 255);

    let r = thumb_op_exec(
        &mut cpu,
        ThumbFormat::Format03,
        ThumbInstruction::MoveCompareAddSubtractImmediate(1, 1, 255),
    );
    assert_eq!(r, Ok(()));
    assert_eq!(cpu.reg.r[1], 255);
    assert!(cpu.reg.cpsr.get_z());
    assert!(cpu.reg.cpsr.get_c());

    let r = thumb_op_exec(
        &mut cpu,
        ThumbFormat::Format03,
        ThumbInstruction::MoveCompareAddSubtractImmediate(3, 1, 1),
    );
    assert_eq!(r, Ok(()));
    assert_eq!(cpu.reg.r[1], 254);
}

#[test]
fn conditional_branches_test_exactly_their_flag_functions() {
    // Taken and not-taken cases for each of the fourteen condition codes.
    let mut cpu = CPU::new();

    cpu.reg.cpsr.set_z(true);
    assert!(beq(&mut cpu, 0));
    cpu.reg.cpsr.set_z(false);
    assert!(!beq(&mut cpu, 0));
    assert!(bne(&mut cpu, 0));
    cpu.reg.cpsr.set_z(true);
    assert!(!bne(&mut cpu, 0));

    cpu.reg.cpsr.set_c(true);
    assert!(bcs(&mut cpu, 0));
    assert!(!bcc(&mut cpu, 0));
    cpu.reg.cpsr.set_c(false);
    assert!(!bcs(&mut cpu, 0));
    assert!(bcc(&mut cpu, 0));

    cpu.reg.cpsr.set_n(true);
    assert!(bmi(&mut cpu, 0));
    assert!(!bpl(&mut cpu, 0));
    cpu.reg.cpsr.set_n(false);
    assert!(!bmi(&mut cpu, 0));
    assert!(bpl(&mut cpu, 0));

    cpu.reg.cpsr.set_v(true);
    assert!(bvs(&mut cpu, 0));
    assert!(!bvc(&mut cpu, 0));
    cpu.reg.cpsr.set_v(false);
    assert!(!bvs(&mut cpu, 0));
    assert!(bvc(&mut cpu, 0));

    // Unsigned higher: carry set and zero clear.
    cpu.reg.cpsr.set_c(true);
    cpu.reg.cpsr.set_z(false);
    assert!(bhi(&mut cpu, 0));
    assert!(!bls(&mut cpu, 0));
    cpu.reg.cpsr.set_z(true);
    assert!(!bhi(&mut cpu, 0));
    assert!(bls(&mut cpu, 0));
    cpu.reg.cpsr.set_z(false);
    cpu.reg.cpsr.set_c(false);
    assert!(!bhi(&mut cpu, 0));
    assert!(bls(&mut cpu, 0));

    // Signed comparisons: Negative against Overflow, with Zero for the
    // non-strict ones.
    cpu.reg.cpsr.set_n(true);
    cpu.reg.cpsr.set_v(true);
    cpu.reg.cpsr.set_z(false);
    assert!(bge(&mut cpu, 0));
    assert!(!blt(&mut cpu, 0));
    assert!(bgt(&mut cpu, 0));
    assert!(!ble(&mut cpu, 0));
    cpu.reg.cpsr.set_v(false);
    assert!(!bge(&mut cpu, 0));
    assert!(blt(&mut cpu, 0));
    assert!(!bgt(&mut cpu, 0));
    assert!(ble(&mut cpu, 0));
    cpu.reg.cpsr.set_n(false);
    cpu.reg.cpsr.set_z(true);
    assert!(bge(&mut cpu, 0));
    assert!(!bgt(&mut cpu, 0));
    assert!(ble(&mut cpu, 0));
}

#[test]
fn a_taken_branch_lands_at_pc_plus_two_plus_twice_the_offset() {
    let mut cpu = CPU::new();
    cpu.reg.cpsr.set_z(true);
    cpu.reg.pc = 0x100;
    assert!(beq(&mut cpu, -2));
    assert_eq!(cpu.reg.pc, 0xFE);

    cpu.reg.pc = 0x100;
    assert!(beq(&mut cpu, 127));
    assert_eq!(cpu.reg.pc, 0x100 + 2 + 254);

    // Wrapping below zero.
    cpu.reg.pc = 0;
    assert!(beq(&mut cpu, -128));
    assert_eq!(cpu.reg.pc, 0u32.wrapping_add(2).wrapping_sub(256));
}

#[test]
fn branch_costs_three_ticks_taken_and_one_not_taken() {
    let mut cpu = CPU::new();
    cpu.reg.cpsr.set_z(true);
    cpu.reg.pc = 0x40;
    let r = thumb_op_exec(
        &mut cpu,
        ThumbFormat::Format16,
        ThumbInstruction::ConditionalBranch(0, 4),
    );
    assert_eq!(r, Ok(()));
    assert_eq!(cpu.reg.pc, 0x40 + 2 + 8);
    assert_eq!(cpu.tick, 3);

    let mut cpu2 = CPU::new();
    cpu2.reg.pc = 0x40;
    let r = thumb_op_exec(
        &mut cpu2,
        ThumbFormat::Format16,
        ThumbInstruction::ConditionalBranch(0, 4),
    );
    assert_eq!(r, Ok(()));
    assert_eq!(cpu2.reg.pc, 0x42);
    assert_eq!(cpu2.tick, 1);
}

#[test]
fn condition_codes_above_thirteen_fault() {
    let mut cpu = CPU::new();
    let r = thumb_op_exec(
        &mut cpu,
        ThumbFormat::Format16,
        ThumbInstruction::ConditionalBranch(14, 0),
    );
    assert_eq!(r, Err(Fault::UnknownInstruction(0xDE00)));
    assert_eq!(cpu.reg.pc, 0);
    assert_eq!(cpu.tick, 0);
}

#[test]
fn unconditional_branch_and_branch_with_link() {
    let mut cpu = CPU::new();
    cpu.reg.pc = 0x200;
    b(&mut cpu, -3);
    assert_eq!(cpu.reg.pc, 0x200 + 2 - 6);

    cpu.reg.pc = 0x200;
    bl(&mut cpu, 8);
    assert_eq!(cpu.reg.lr, 0x202);
    assert_eq!(cpu.reg.pc, 0x200 + 2 + 16);

    let r = thumb_op_exec(
        &mut cpu,
        ThumbFormat::Format18,
        ThumbInstruction::UnconditionalBranch(-1024),
    );
    assert_eq!(r, Ok(()));
}

#[test]
fn long_branch_with_link_runs_in_two_halves() {
    let mut cpu = CPU::new();
    cpu.reg.pc = 0x1000;
    // First half: deposit the high part in the link register.
    let r = thumb_op_exec(
        &mut cpu,
        ThumbFormat::Format19,
        ThumbInstruction::LongBranchWithLink(0, 1),
    );
    assert_eq!(r, Ok(()));
    assert_eq!(cpu.reg.lr, 0x1000 + 2 + 0x1000);
    assert_eq!(cpu.reg.pc, 0x1002);
    // Second half: branch to the link register plus the doubled low part,
    // leaving the return address with its low bit set.
    let r = thumb_op_exec(
        &mut cpu,
        ThumbFormat::Format19,
        ThumbInstruction::LongBranchWithLink(1, 4),
    );
    assert_eq!(r, Ok(()));
    assert_eq!(cpu.reg.pc, 0x2002 + 8);
    assert_eq!(cpu.reg.lr, (0x1002u32 + 2) | 1);
}

#[test]
fn high_register_operations_reach_the_named_slots() {
    let mut cpu = CPU::new();
    cpu.reg.r[0] = 40;
    cpu.reg.lr = 2;
    // ADD with a high destination: the link register, index 14.
    let r = thumb_op_exec(
        &mut cpu,
        ThumbFormat::Format05,
        ThumbInstruction::HighRegisterOperationsBranchExchange(0, 1, 0, 0, 6),
    );
    assert_eq!(r, Ok(()));
    assert_eq!(cpu.reg.lr, 42);

    // MOV into the program counter redirects.
    cpu.reg.r[1] = 0x500;
    let r = thumb_op_exec(
        &mut cpu,
        ThumbFormat::Format05,
        ThumbInstruction::HighRegisterOperationsBranchExchange(2, 1, 0, 1, 7),
    );
    assert_eq!(r, Ok(()));
    assert_eq!(cpu.reg.pc, 0x500);

    // CMP of equal values sets Zero.
    cpu.reg.r[2] = 9;
    cpu.reg.r[3] = 9;
    let r = thumb_op_exec(
        &mut cpu,
        ThumbFormat::Format05,
        ThumbInstruction::HighRegisterOperationsBranchExchange(1, 0, 0, 2, 3),
    );
    assert_eq!(r, Ok(()));
    assert!(cpu.reg.cpsr.get_z());
}

#[test]
fn branch_exchange_switches_the_instruction_set() {
    let mut cpu = CPU::new();
    cpu.reg.r[0] = 0x0300_0101;
    let r = thumb_op_exec(
        &mut cpu,
        ThumbFormat::Format05,
        ThumbInstruction::HighRegisterOperationsBranchExchange(3, 0, 0, 0, 0),
    );
    assert_eq!(r, Ok(()));
    assert_eq!(cpu.reg.pc, 0x0300_0100);
    assert!(cpu.reg.cpsr.get_thumb());

    // A branch exchange with the first high flag set is undefined.
    let r = thumb_op_exec(
        &mut cpu,
        ThumbFormat::Format05,
        ThumbInstruction::HighRegisterOperationsBranchExchange(3, 1, 0, 0, 0),
    );
    assert_eq!(r, Err(Fault::UnknownInstruction(0x4780)));
}

#[test]
fn loads_and_stores_move_data_through_the_bus() {
    let mut cpu = CPU::new();
    // Register-offset store and load of a word in RAM bank B.
    cpu.reg.r[0] = 0xCAFE_F00D;
    cpu.reg.r[1] = 0x0300_0100;
    cpu.reg.r[2] = 8;
    let r = thumb_op_exec(
        &mut cpu,
        ThumbFormat::Format07,
        ThumbInstruction::LoadStoreWithRelativeOffset(0, 0, 2, 1, 0),
    );
    assert_eq!(r, Ok(()));
    let r = thumb_op_exec(
        &mut cpu,
        ThumbFormat::Format07,
        ThumbInstruction::LoadStoreWithRelativeOffset(1, 0, 2, 1, 3),
    );
    assert_eq!(r, Ok(()));
    assert_eq!(cpu.reg.r[3], 0xCAFE_F00D);

    // Byte store and zero-extending byte load.
    cpu.reg.r[4] = 0x1FF;
    let r = thumb_op_exec(
        &mut cpu,
        ThumbFormat::Format07,
        ThumbInstruction::LoadStoreWithRelativeOffset(0, 1, 2, 1, 4),
    );
    assert_eq!(r, Ok(()));
    let r = thumb_op_exec(
        &mut cpu,
        ThumbFormat::Format07,
        ThumbInstruction::LoadStoreWithRelativeOffset(1, 1, 2, 1, 5),
    );
    assert_eq!(r, Ok(()));
    assert_eq!(cpu.reg.r[5], 0xFF);
}

#[test]
fn sign_extended_loads_replicate_the_sign_bit() {
    let mut cpu = CPU::new();
    cpu.reg.r[1] = 0x0200_0040;
    cpu.reg.r[2] = 0;
    cpu.reg.r[0] = 0x80;
    // Store the halfword 0x8070, then load it back sign-extended, as a
    // signed byte, and zero-extended.
    cpu.reg.r[0] = 0x8070;
    let r = thumb_op_exec(
        &mut cpu,
        ThumbFormat::Format08,
        ThumbInstruction::LoadStoreSignExtendedByteHalfword(0, 0, 2, 1, 0),
    );
    assert_eq!(r, Ok(()));
    let r = thumb_op_exec(
        &mut cpu,
        ThumbFormat::Format08,
        ThumbInstruction::LoadStoreSignExtendedByteHalfword(1, 1, 2, 1, 3),
    );
    assert_eq!(r, Ok(()));
    assert_eq!(cpu.reg.r[3], 0xFFFF_8070);
    // A signed byte load sees only the low byte, 0x70, which is positive.
    let r = thumb_op_exec(
        &mut cpu,
        ThumbFormat::Format08,
        ThumbInstruction::LoadStoreSignExtendedByteHalfword(0, 1, 2, 1, 4),
    );
    assert_eq!(r, Ok(()));
    assert_eq!(cpu.reg.r[4], 0x70);
    // A halfword load zero-extends.
    let r = thumb_op_exec(
        &mut cpu,
        ThumbFormat::Format08,
        ThumbInstruction::LoadStoreSignExtendedByteHalfword(1, 0, 2, 1, 5),
    );
    assert_eq!(r, Ok(()));
    assert_eq!(cpu.reg.r[5], 0x8070);
}

#[test]
fn immediate_offset_and_halfword_and_sp_relative_transfers() {
    let mut cpu = CPU::new();
    cpu.reg.r[1] = 0x0300_0200;
    cpu.reg.r[0] = 0x1234_5678;
    // Word store at base + 4 * 3.
    let r = thumb_op_exec(
        &mut cpu,
        ThumbFormat::Format09,
        ThumbInstruction::LoadStoreWithImmediateOffset(0, 0, 3, 1, 0),
    );
    assert_eq!(r, Ok(()));
    let r = thumb_op_exec(
        &mut cpu,
        ThumbFormat::Format09,
        ThumbInstruction::LoadStoreWithImmediateOffset(0, 1, 3, 1, 2),
    );
    assert_eq!(r, Ok(()));
    assert_eq!(cpu.reg.r[2], 0x1234_5678);

    // Byte store at base + 5.
    let r = thumb_op_exec(
        &mut cpu,
        ThumbFormat::Format09,
        ThumbInstruction::LoadStoreWithImmediateOffset(1, 0, 5, 1, 0),
    );
    assert_eq!(r, Ok(()));
    let r = thumb_op_exec(
        &mut cpu,
        ThumbFormat::Format09,
        ThumbInstruction::LoadStoreWithImmediateOffset(1, 1, 5, 1, 3),
    );
    assert_eq!(r, Ok(()));
    assert_eq!(cpu.reg.r[3], 0x78);

    // Halfword store at base + 2 * 4.
    let r = thumb_op_exec(
        &mut cpu,
        ThumbFormat::Format10,
        ThumbInstruction::LoadStoreHalfword(0, 4, 1, 0),
    );
    assert_eq!(r, Ok(()));
    let r = thumb_op_exec(
        &mut cpu,
        ThumbFormat::Format10,
        ThumbInstruction::LoadStoreHalfword(1, 4, 1, 4),
    );
    assert_eq!(r, Ok(()));
    assert_eq!(cpu.reg.r[4], 0x5678);

    // Stack-relative store and load.
    cpu.reg.sp = 0x0300_0300;
    let r = thumb_op_exec(
        &mut cpu,
        ThumbFormat::Format11,
        ThumbInstruction::SPRelativeLoadStore(0, 0, 2),
    );
    assert_eq!(r, Ok(()));
    let r = thumb_op_exec(
        &mut cpu,
        ThumbFormat::Format11,
        ThumbInstruction::SPRelativeLoadStore(1, 5, 2),
    );
    assert_eq!(r, Ok(()));
    assert_eq!(cpu.reg.r[5], 0x1234_5678);
}

#[test]
fn pc_relative_load_reads_at_the_aligned_pipeline_address() {
    let mut cpu = CPU::new();
    assert_eq!(cpu.bus.write_word(0x0300_0104, 0xDEAD_BEEF), Ok(()));
    cpu.reg.pc = 0x0300_0102;
    // Base is pc + 4 rounded down to a word boundary: 0x03000104.
    let r = thumb_op_exec(
        &mut cpu,
        ThumbFormat::Format06,
        ThumbInstruction::PCRelativeLoad(0, 0),
    );
    assert_eq!(r, Ok(()));
    assert_eq!(cpu.reg.r[0], 0xDEAD_BEEF);
    assert_eq!(cpu.reg.pc, 0x0300_0104);
}

#[test]
fn load_address_and_stack_pointer_adjustment() {
    let mut cpu = CPU::new();
    cpu.reg.sp = 0x0300_0000;
    let r = thumb_op_exec(
        &mut cpu,
        ThumbFormat::Format12,
        ThumbInstruction::LoadAddress(1, 0, 3),
    );
    assert_eq!(r, Ok(()));
    assert_eq!(cpu.reg.r[0], 0x0300_000C);

    cpu.reg.pc = 0x102;
    let r = thumb_op_exec(
        &mut cpu,
        ThumbFormat::Format12,
        ThumbInstruction::LoadAddress(0, 1, 1),
    );
    assert_eq!(r, Ok(()));
    assert_eq!(cpu.reg.r[1], 0x104 + 4);

    let r = thumb_op_exec(
        &mut cpu,
        ThumbFormat::Format13,
        ThumbInstruction::AddOffsetToStackPointer(0, 4),
    );
    assert_eq!(r, Ok(()));
    assert_eq!(cpu.reg.sp, 0x0300_0010);
    let r = thumb_op_exec(
        &mut cpu,
        ThumbFormat::Format13,
        ThumbInstruction::AddOffsetToStackPointer(1, 2),
    );
    assert_eq!(r, Ok(()));
    assert_eq!(cpu.reg.sp, 0x0300_0008);
}

#[test]
fn push_and_pop_round_trip_through_the_stack() {
    let mut cpu = CPU::new();
    cpu.reg.sp = 0x0300_0100;
    cpu.reg.r[0] = 11;
    cpu.reg.r[1] = 22;
    cpu.reg.lr = 0x0300_0041;
    // Push r0, r1 and the link register.
    let r = thumb_op_exec(
        &mut cpu,
        ThumbFormat::Format14,
        ThumbInstruction::PushPopRegisters(0, 1, 0b11),
    );
    assert_eq!(r, Ok(()));
    assert_eq!(cpu.reg.sp, 0x0300_0100 - 12);
    assert_eq!(cpu.bus.read_word(0x0300_00F4), Ok(11));
    assert_eq!(cpu.bus.read_word(0x0300_00F8), Ok(22));
    assert_eq!(cpu.bus.read_word(0x0300_00FC), Ok(0x0300_0041));

    // Pop r2 and r3 from the same words.
    let r = thumb_op_exec(
        &mut cpu,
        ThumbFormat::Format14,
        ThumbInstruction::PushPopRegisters(1, 0, 0b1100),
    );
    assert_eq!(r, Ok(()));
    assert_eq!(cpu.reg.r[2], 11);
    assert_eq!(cpu.reg.r[3], 22);
    assert_eq!(cpu.reg.sp, 0x0300_00FC);

    // Pop the program counter: the stored value's low bit is cleared.
    let r = thumb_op_exec(
        &mut cpu,
        ThumbFormat::Format14,
        ThumbInstruction::PushPopRegisters(1, 1, 0),
    );
    assert_eq!(r, Ok(()));
    assert_eq!(cpu.reg.pc, 0x0300_0040);
    assert_eq!(cpu.reg.sp, 0x0300_0100);
}

#[test]
fn a_push_to_an_unwritable_region_changes_nothing() {
    let mut cpu = CPU::new();
    // Word writes to RAM bank A are refused, so the push faults whole.
    cpu.reg.sp = 0x0200_0100;
    cpu.reg.r[0] = 5;
    let r = thumb_op_exec(
        &mut cpu,
        ThumbFormat::Format14,
        ThumbInstruction::PushPopRegisters(0, 0, 0b1),
    );
    assert_eq!(r, Err(Fault::InvalidAddress));
    assert_eq!(cpu.reg.sp, 0x0200_0100);
    assert_eq!(cpu.reg.pc, 0);
    assert_eq!(cpu.tick, 0);
    assert_eq!(cpu.bus.read_word(0x0200_00FC), Ok(0));
}

#[test]
fn multiple_store_and_load_advance_the_base() {
    let mut cpu = CPU::new();
    cpu.reg.r[7] = 0x0300_0300;
    cpu.reg.r[0] = 0xAAAA_0001;
    cpu.reg.r[2] = 0xAAAA_0002;
    // Store r0 and r2 at the base upward, with writeback.
    let r = thumb_op_exec(
        &mut cpu,
        ThumbFormat::Format15,
        ThumbInstruction::MultipleLoadStore(0, 7, 0b101),
    );
    assert_eq!(r, Ok(()));
    assert_eq!(cpu.bus.read_word(0x0300_0300), Ok(0xAAAA_0001));
    assert_eq!(cpu.bus.read_word(0x0300_0304), Ok(0xAAAA_0002));
    assert_eq!(cpu.reg.r[7], 0x0300_0308);

    // Load them back into r4 and r5.
    cpu.reg.r[6] = 0x0300_0300;
    let r = thumb_op_exec(
        &mut cpu,
        ThumbFormat::Format15,
        ThumbInstruction::MultipleLoadStore(1, 6, 0b110000),
    );
    assert_eq!(r, Ok(()));
    assert_eq!(cpu.reg.r[4], 0xAAAA_0001);
    assert_eq!(cpu.reg.r[5], 0xAAAA_0002);
    assert_eq!(cpu.reg.r[6], 0x0300_0308);
}

#[test]
fn a_load_list_containing_the_base_keeps_the_loaded_value() {
    let mut cpu = CPU::new();
    assert_eq!(cpu.bus.write_word(0x0300_0400, 0x0123_4567), Ok(()));
    cpu.reg.r[1] = 0x0300_0400;
    let r = thumb_op_exec(
        &mut cpu,
        ThumbFormat::Format15,
        ThumbInstruction::MultipleLoadStore(1, 1, 0b10),
    );
    assert_eq!(r, Ok(()));
    assert_eq!(cpu.reg.r[1], 0x0123_4567);
}
