use gbc::cartridge::Cartidge;
use gbc::code::Operand;
use gbc::cpu::Cpu;
use gbc::opcode;
use gbc::semantics::{Fault, Status};

fn with_program(program: Vec<u8>) -> Cpu {
    Cpu::new_test(Cartidge::new_from_bytes(program))
}

fn without_ram(program: Vec<u8>) -> Cpu {
    let mut content = vec![0u8; 0x150];
    content[0x148] = 0x00;
    content[0x149] = 0x00;
    for (at, byte) in program.iter().enumerate() {
        content[at] = *byte;
    }
    Cpu::new(Cartidge::new_from_bytes(content))
}

#[test]
fn step_executes_one_instruction_and_counts_its_cost() {
    let mut cpu = with_program(vec![opcode::LD_A_N8, 0x42, opcode::INC_A]);
    assert_eq!(cpu.step(), Status::Running);
    assert_eq!((cpu.a, cpu.pc, cpu.cycles), (0x42, 2, 8));
    assert_eq!(cpu.step(), Status::Running);
    assert_eq!((cpu.a, cpu.pc, cpu.cycles), (0x43, 3, 12));
}

#[test]
fn nop_moves_only_the_program_counter_and_the_cycles() {
    let mut cpu = with_program(vec![opcode::NOP]);
    cpu.a = 1;
    cpu.f = 0xF0;
    cpu.set_hl(0x1234);
    assert_eq!(cpu.step(), Status::Running);
    assert_eq!((cpu.a, cpu.f, cpu.get_hl(), cpu.pc, cpu.cycles), (1, 0xF0, 0x1234, 1, 4));
}

#[test]
fn indirect_load_through_hl() {
    let mut cpu = with_program(vec![opcode::LD_A_iHL, 20]);
    cpu.set_hl(0x0001);
    assert_eq!(cpu.step(), Status::Running);
    assert_eq!(cpu.a, 20);
    assert_eq!(cpu.pc, 1);
    assert_eq!(cpu.cycles, 8);
}

#[test]
fn unknown_opcode_halts_and_names_the_byte() {
    for code in [0xD3u8, 0xDB, 0xDD, 0xE3, 0xE4, 0xEB, 0xEC, 0xED, 0xF4, 0xFC, 0xFD] {
        let mut cpu = with_program(vec![code, opcode::INC_A]);
        assert_eq!(cpu.run(), Status::Halted(Fault::UnknownOpcode(code)));
        assert_eq!(cpu.a, 0);
        assert_eq!(cpu.pc, 1);
        assert_eq!(cpu.cycles, 0);
    }
}

#[test]
fn instruction_without_handler_halts_and_names_the_opcode() {
    for code in [opcode::HALT, opcode::JP_A16, opcode::PUSH_BC, opcode::RLCA, opcode::PREFIX] {
        let mut cpu = with_program(vec![opcode::NOP, code, opcode::INC_A]);
        assert_eq!(cpu.run(), Status::Halted(Fault::UnsupportedInstruction(code)));
        assert_eq!(cpu.a, 0);
        assert_eq!(cpu.pc, 2);
        assert_eq!(cpu.cycles, 4);
    }
}

#[test]
fn width_mismatch_in_the_table_halts() {
    let mut cpu = with_program(vec![opcode::LD_A16_SP, 0x00, 0xC0]);
    assert_eq!(
        cpu.run(),
        Status::Halted(Fault::WidthMismatch(Operand::A16, Operand::SP))
    );
    assert_eq!(cpu.pc, 1);
}

#[test]
fn unsupported_destination_halts() {
    let mut cpu = with_program(vec![opcode::LDH_A8_A, 0x80]);
    assert_eq!(cpu.run(), Status::Halted(Fault::UnsupportedOperand(Operand::A8)));
    assert_eq!(cpu.pc, 1);
}

#[test]
fn read_of_a_missing_cell_halts() {
    let mut cpu = without_ram(vec![opcode::LD_HL_N16, 0x00, 0xA0, opcode::LD_A_iHL]);
    assert_eq!(cpu.run(), Status::Halted(Fault::AccessFault(Operand::iHL)));
    assert_eq!(cpu.get_hl(), 0xA000);
    assert_eq!(cpu.pc, 4);
    assert_eq!(cpu.cycles, 12);
}

#[test]
fn write_to_a_missing_cell_halts() {
    let mut cpu = without_ram(vec![opcode::LD_HL_N16, 0xFF, 0xBF, opcode::LD_iHL_A]);
    assert_eq!(cpu.run(), Status::Halted(Fault::WriteFault(0xBFFF)));
    assert_eq!(cpu.cycles, 12);
}

#[test]
fn full_cycle_counter_halts() {
    let mut cpu = with_program(vec![opcode::INC_A]);
    cpu.cycles = u64::MAX - 3;
    assert_eq!(cpu.step(), Status::Halted(Fault::CycleOverflow));
    assert_eq!(cpu.a, 1);
    assert_eq!(cpu.cycles, u64::MAX - 3);
    let mut cpu = with_program(vec![opcode::INC_A]);
    cpu.cycles = u64::MAX - 4;
    assert_eq!(cpu.step(), Status::Running);
    assert_eq!(cpu.cycles, u64::MAX);
}

#[test]
fn run_ends_where_no_byte_is_left() {
    let mut cpu = without_ram(vec![opcode::INC_A]);
    assert_eq!(cpu.run(), Status::Finished);
    assert_eq!(cpu.a, 1);
    assert_eq!(cpu.pc, 0xA001);
    assert_eq!(cpu.cycles, 0xA000 * 4);
}

#[test]
fn step_where_no_byte_is_left_finishes() {
    let mut cpu = without_ram(vec![]);
    cpu.pc = 0xA000;
    assert_eq!(cpu.step(), Status::Finished);
    assert_eq!(cpu.pc, 0xA001);
    assert_eq!(cpu.cycles, 0);
}

#[test]
fn run_ends_when_the_program_counter_comes_round() {
    let mut cpu = with_program(vec![]);
    assert_eq!(cpu.run(), Status::Finished);
    assert_eq!(cpu.pc, 0);
    assert_eq!(cpu.cycles, 0x10000 * 4);
}

#[test]
fn run_from_the_last_address_executes_it_and_ends() {
    let mut cpu = with_program(vec![]);
    cpu.memory.write(0xFFFF, opcode::INC_B);
    cpu.pc = 0xFFFF;
    assert_eq!(cpu.run(), Status::Finished);
    assert_eq!(cpu.b, 1);
    assert_eq!(cpu.pc, 0);
    assert_eq!(cpu.cycles, 4);
}

#[test]
fn immediate_at_the_top_is_read_from_the_bottom() {
    let mut cpu = with_program(vec![0x99]);
    cpu.memory.write(0xFFFF, opcode::LD_A_N8);
    cpu.pc = 0xFFFF;
    assert_eq!(cpu.run(), Status::Finished);
    assert_eq!(cpu.a, 0x99);
    assert_eq!(cpu.pc, 1);
}

#[test]
fn a_short_program_runs_in_order() {
    let mut cpu = with_program(vec![
        opcode::LD_HL_N16,
        0x00,
        0xC0,
        opcode::LD_A_N8,
        0x0F,
        opcode::LD_iHLPLUS_A,
        opcode::INC_A,
        opcode::LD_iHL_A,
        opcode::LD_B_A,
        opcode::ADD_A_B,
        opcode::LD_DE_N16,
        0x01,
        0x00,
        opcode::ADD_HL_DE,
        opcode::HALT,
    ]);
    assert_eq!(cpu.run(), Status::Halted(Fault::UnsupportedInstruction(opcode::HALT)));
    assert_eq!(cpu.memory.read(0xC000), Some(0x0F));
    assert_eq!(cpu.memory.read(0xC001), Some(0x10));
    assert_eq!(cpu.a, 0x20);
    assert_eq!(cpu.b, 0x10);
    assert_eq!(cpu.get_hl(), 0xC002);
    assert_eq!(cpu.get_de(), 0x0001);
    assert_eq!(cpu.pc, 15);
    assert_eq!(cpu.cycles, 12 + 8 + 8 + 4 + 8 + 4 + 4 + 12 + 8);
    assert_eq!(cpu.f, 0x00);
}

#[test]
fn cp_in_a_program_leaves_a() {
    let mut cpu = with_program(vec![opcode::CP_A_N8, 30, opcode::HALT]);
    cpu.a = 200;
    assert_eq!(cpu.run(), Status::Halted(Fault::UnsupportedInstruction(opcode::HALT)));
    assert_eq!(cpu.a, 200);
    assert_eq!(cpu.get_substraction_flag(), true);
    assert_eq!(cpu.get_half_carry_flag(), true);
    assert_eq!(cpu.cycles, 8);
}

#[test]
fn low_nibble_of_f_stays_zero_through_a_run() {
    let mut cpu = with_program(vec![
        opcode::DEC_A,
        opcode::ADD_A_A,
        opcode::SBC_A_B,
        opcode::AND_A_C,
        opcode::INC_iHL,
        opcode::DEC_BC,
    ]);
    cpu.set_hl(0xC000);
    assert_eq!(cpu.run(), Status::Finished);
    assert_eq!(cpu.f & 0x0F, 0);
}
