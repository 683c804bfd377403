use arm7_core::arm_op::{arm_op_decode, arm_op_exec, ArmInstruction};
use arm7_core::common::Fault;
use arm7_core::cpu::CPU;
use arm7_core::psr::{Mode, Psr};
use arm7_core::register::Register;

#[test]
fn a_step_into_the_peripheral_window_faults_and_changes_nothing() {
    // Fetching at the peripheral-register window is an unimplemented-region
    // fault, and the register and status state stays as it was.
    let mut cpu = CPU::new();
    cpu.reg.pc = 0x0400_0000;
    cpu.reg.r[3] = 77;
    let regs_before = cpu.reg.r;
    let cpsr_before = cpu.reg.cpsr.word();
    let r = cpu.proc();
    assert_eq!(r, Err(Fault::UnimplementedRegion));
    assert_eq!(cpu.reg.r, regs_before);
    assert_eq!(cpu.reg.cpsr.word(), cpsr_before);
    assert_eq!(cpu.reg.pc, 0x0400_0000);
    assert_eq!(cpu.reg.sp, 0);
    assert_eq!(cpu.reg.lr, 0);
    assert_eq!(cpu.tick, 0);

    // A direct byte read at the same address reports the same fault.
    assert_eq!(cpu.bus.read_byte(0x0400_0000), Err(Fault::UnimplementedRegion));
}

#[test]
fn the_select_bit_clear_runs_the_32_bit_path() {
    let mut cpu = CPU::new();
    // ADD r0, r0, r3: group 1, operand case 3, assembled high half first.
    assert_eq!(cpu.bus.write_hword(0x0300_0000, 0x0100), Ok(()));
    assert_eq!(cpu.bus.write_hword(0x0300_0002, 0x0003), Ok(()));
    cpu.reg.pc = 0x0300_0000;
    cpu.reg.r[0] = 30;
    cpu.reg.r[3] = 12;
    let r = cpu.proc();
    assert_eq!(r, Ok(()));
    assert_eq!(cpu.reg.r[0], 42);
    assert_eq!(cpu.reg.pc, 0x0300_0004);
    assert_eq!(cpu.tick, 1);
}

#[test]
fn the_select_bit_set_runs_the_16_bit_path() {
    let mut cpu = CPU::new();
    // MOV r1, #1 then ADD r1, #2 in the 16-bit set.
    assert_eq!(cpu.bus.write_hword(0x0300_0000, 0x2101), Ok(()));
    assert_eq!(cpu.bus.write_hword(0x0300_0002, 0x3102), Ok(()));
    cpu.reg.pc = 0x0300_0000;
    cpu.reg.cpsr.set_thumb(true);
    assert_eq!(cpu.proc(), Ok(()));
    assert_eq!(cpu.reg.r[1], 1);
    assert_eq!(cpu.reg.pc, 0x0300_0002);
    assert_eq!(cpu.proc(), Ok(()));
    assert_eq!(cpu.reg.r[1], 3);
    assert_eq!(cpu.reg.pc, 0x0300_0004);
    assert_eq!(cpu.tick, 2);
}

#[test]
fn an_undefined_16_bit_word_surfaces_as_a_step_failure() {
    let mut cpu = CPU::new();
    assert_eq!(cpu.bus.write_hword(0x0300_0000, 0xB100), Ok(()));
    cpu.reg.pc = 0x0300_0000;
    cpu.reg.cpsr.set_thumb(true);
    assert_eq!(cpu.proc(), Err(Fault::UnknownInstruction(0xB100)));
    assert_eq!(cpu.reg.pc, 0x0300_0000);
}

#[test]
fn an_unknown_32_bit_word_surfaces_as_a_step_failure() {
    let mut cpu = CPU::new();
    assert_eq!(cpu.bus.write_hword(0x0300_0000, 0x0300), Ok(()));
    assert_eq!(cpu.bus.write_hword(0x0300_0002, 0x0000), Ok(()));
    cpu.reg.pc = 0x0300_0000;
    assert_eq!(cpu.proc(), Err(Fault::UnknownInstruction(0x0300_0000)));
    assert_eq!(cpu.reg.pc, 0x0300_0000);
    assert_eq!(cpu.tick, 0);
}

#[test]
fn arm_decode_classifies_by_group_and_operand_case() {
    assert_eq!(arm_op_decode(0x0000_0000), Ok(ArmInstruction::Nop));
    assert_eq!(arm_op_decode(0x0000_0001), Ok(ArmInstruction::MovReg(0, 0)));
    assert_eq!(arm_op_decode(0x0000_0004), Ok(ArmInstruction::MovReg(0, 3)));
    assert_eq!(arm_op_decode(0x0100_0000), Ok(ArmInstruction::AddReg(0, 0, 0)));
    assert_eq!(arm_op_decode(0x0100_0004), Ok(ArmInstruction::AddReg(0, 0, 4)));
    assert_eq!(arm_op_decode(0x0200_0002), Ok(ArmInstruction::SubReg(0, 0, 2)));
    assert_eq!(arm_op_decode(0x0000_0005), Err(Fault::UnknownInstruction(0x0000_0005)));
    assert_eq!(arm_op_decode(0x0100_0005), Err(Fault::UnknownInstruction(0x0100_0005)));
    assert_eq!(arm_op_decode(0x0300_0000), Err(Fault::UnknownInstruction(0x0300_0000)));
    assert_eq!(arm_op_decode(0xE320_F000), Err(Fault::UnknownInstruction(0xE320_F000)));
}

#[test]
fn arm_execution_moves_adds_and_subtracts_without_flags() {
    let mut cpu = CPU::new();
    cpu.reg.r[2] = 9;
    arm_op_exec(&mut cpu, ArmInstruction::MovReg(0, 2));
    assert_eq!(cpu.reg.r[0], 9);
    assert_eq!(cpu.reg.pc, 4);

    cpu.reg.r[1] = 0xFFFF_FFFF;
    arm_op_exec(&mut cpu, ArmInstruction::AddReg(0, 0, 1));
    assert_eq!(cpu.reg.r[0], 8);
    assert_eq!(cpu.reg.cpsr.word(), 0);

    arm_op_exec(&mut cpu, ArmInstruction::SubReg(0, 0, 2));
    assert_eq!(cpu.reg.r[0], 0xFFFF_FFFF);
    assert_eq!(cpu.reg.cpsr.word(), 0);
    assert_eq!(cpu.reg.pc, 12);
    assert_eq!(cpu.tick, 3);

    arm_op_exec(&mut cpu, ArmInstruction::Nop);
    assert_eq!(cpu.reg.pc, 16);
}

#[test]
fn register_reads_and_writes_map_the_named_slots() {
    let mut reg = Register::new();
    assert_eq!(reg.set_reg(0, 10), Ok(()));
    assert_eq!(reg.set_reg(12, 120), Ok(()));
    assert_eq!(reg.set_reg(13, 130), Ok(()));
    assert_eq!(reg.set_reg(14, 140), Ok(()));
    assert_eq!(reg.set_reg(15, 150), Ok(()));
    assert_eq!(reg.get_reg(0), Ok(10));
    assert_eq!(reg.get_reg(12), Ok(120));
    assert_eq!(reg.get_reg(13), Ok(130));
    assert_eq!(reg.sp, 130);
    assert_eq!(reg.get_reg(14), Ok(140));
    assert_eq!(reg.lr, 140);
    assert_eq!(reg.get_reg(15), Ok(150));
    assert_eq!(reg.pc, 150);
    assert_eq!(reg.get_reg(16), Err(Fault::InvalidRegisterIndex));
    assert_eq!(reg.set_reg(16, 1), Err(Fault::InvalidRegisterIndex));
    assert_eq!(reg.get_reg(255), Err(Fault::InvalidRegisterIndex));
}

#[test]
fn register_names_follow_the_architectural_numbering() {
    assert_eq!(Register::get_reg_str(0).as_deref(), Ok("R0"));
    assert_eq!(Register::get_reg_str(12).as_deref(), Ok("R12"));
    assert_eq!(Register::get_reg_str(13).as_deref(), Ok("R13(SP)"));
    assert_eq!(Register::get_reg_str(14).as_deref(), Ok("R14(LR)"));
    assert_eq!(Register::get_reg_str(15).as_deref(), Ok("R15(PC)"));
    assert_eq!(Register::get_reg_str(16).as_deref(), Ok("CPSR"));
    assert_eq!(Register::get_reg_str(17).as_deref(), Ok("SPSR"));
    assert_eq!(Register::get_reg_str(18), Err(Fault::InvalidRegisterIndex));
}

#[test]
fn saved_status_words_are_banked_by_privileged_mode() {
    let mut reg = Register::new();
    let snap = Psr::from_word(0xF000_0013);
    assert_eq!(reg.set_spsr(Mode::Irq, snap), Ok(()));
    assert_eq!(reg.get_spsr(Mode::Irq).map(|p| p.word()), Ok(0xF000_0013));
    assert_eq!(reg.get_spsr(Mode::Fiq).map(|p| p.word()), Ok(0));
    assert_eq!(reg.get_spsr(Mode::User).map(|p| p.word()), Err(Fault::InvalidRegisterIndex));
    assert_eq!(reg.set_spsr(Mode::System, snap), Err(Fault::InvalidRegisterIndex));
}

#[test]
fn status_word_flags_are_independent_bits() {
    let mut p = Psr::new();
    assert_eq!(p.word(), 0);
    p.set_n(true);
    p.set_c(true);
    assert!(p.get_n());
    assert!(!p.get_z());
    assert!(p.get_c());
    assert!(!p.get_v());
    assert_eq!(p.word(), 0xA000_0000);
    p.set_n(false);
    assert_eq!(p.word(), 0x2000_0000);
    p.set_i(true);
    p.set_f(true);
    p.set_thumb(true);
    assert_eq!(p.word(), 0x2000_00E0);
    p.set_thumb(false);
    assert_eq!(p.word(), 0x2000_00C0);
}

#[test]
fn the_mode_field_encodes_exactly_the_seven_legal_modes() {
    let mut p = Psr::new();
    assert_eq!(p.mode(), None);
    for (m, bits) in [
        (Mode::User, 0x10u32),
        (Mode::Fiq, 0x11),
        (Mode::Irq, 0x12),
        (Mode::Supervisor, 0x13),
        (Mode::Abort, 0x15),
        (Mode::Undefined, 0x17),
        (Mode::System, 0x1F),
    ] {
        p.set_mode(m);
        assert_eq!(p.mode(), Some(m));
        assert_eq!(p.word() & 0x1F, bits);
    }
    // Setting the mode leaves the upper bits alone.
    p.set_n(true);
    p.set_mode(Mode::Irq);
    assert!(p.get_n());
    assert_eq!(p.mode(), Some(Mode::Irq));
    assert_eq!(Psr::from_word(0x14).mode(), None);
}

#[test]
fn the_flag_update_rule_is_shared_and_exact() {
    let mut cpu = CPU::new();
    cpu.psr_op_update(0x8000_0000, true, false);
    assert!(cpu.reg.cpsr.get_n());
    assert!(!cpu.reg.cpsr.get_z());
    assert!(cpu.reg.cpsr.get_c());
    assert!(!cpu.reg.cpsr.get_v());
    cpu.psr_op_update(0, false, true);
    assert!(!cpu.reg.cpsr.get_n());
    assert!(cpu.reg.cpsr.get_z());
    assert!(!cpu.reg.cpsr.get_c());
    assert!(cpu.reg.cpsr.get_v());
    // Bits outside the four condition flags are untouched.
    cpu.reg.cpsr.set_mode(Mode::System);
    cpu.psr_op_update(5, true, true);
    assert_eq!(cpu.reg.cpsr.mode(), Some(Mode::System));
    assert!(!cpu.reg.cpsr.get_n());
    assert!(!cpu.reg.cpsr.get_z());
}

#[test]
fn a_countdown_loop_runs_to_completion() {
    let mut cpu = CPU::new();
    // MOV r0, #3; SUB r0, #1; BNE back to the SUB; then an undefined word.
    let program: [u16; 4] = [0x2003, 0x3801, 0xD1FE, 0xB100];
    for (k, half) in program.iter().enumerate() {
        assert_eq!(cpu.bus.write_hword(0x0300_0000 + (k as u32) * 2, *half), Ok(()));
    }
    cpu.reg.pc = 0x0300_0000;
    cpu.reg.cpsr.set_thumb(true);
    let mut steps = 0;
    loop {
        match cpu.proc() {
            Ok(()) => steps += 1,
            Err(e) => {
                assert_eq!(e, Fault::UnknownInstruction(0xB100));
                break;
            },
        }
        assert!(steps < 100);
    }
    assert_eq!(cpu.reg.r[0], 0);
    assert!(cpu.reg.cpsr.get_z());
    assert_eq!(cpu.reg.pc, 0x0300_0006);
    // One move, three subtractions, two taken branches and one not taken.
    assert_eq!(steps, 7);
    assert_eq!(cpu.tick, 1 + 1 + 3 + 1 + 3 + 1 + 1);
}

#[test]
fn a_fresh_core_is_fully_zeroed() {
    let cpu = CPU::new();
    assert_eq!(cpu.reg.r, [0u32; 13]);
    assert_eq!(cpu.reg.sp, 0);
    assert_eq!(cpu.reg.lr, 0);
    assert_eq!(cpu.reg.pc, 0);
    assert_eq!(cpu.reg.cpsr.word(), 0);
    assert_eq!(cpu.tick, 0);
    assert!(!cpu.reg.cpsr.get_thumb());
    assert_eq!(cpu.bus.read_word(0x0200_0000), Ok(0));
}
