use gbc::cartridge::Cartidge;
use gbc::cpu::Cpu;
use gbc::opcode;
use gbc::semantics::Status;

#[test]
fn test_adding_op_hl() {
    let cart = Cartidge::new_from_bytes(vec![opcode::ADD_HL_BC]);
    let mut cpu = Cpu::new_test(cart);

    cpu.set_hl(0x0FFF);
    cpu.set_bc(100);

    assert_eq!(cpu.run(), Status::Finished);

    assert_eq!(cpu.get_hl(), 4195);

    assert_eq!(cpu.get_substraction_flag(), false);
    assert_eq!(cpu.get_half_carry_flag(), true);
    assert_eq!(cpu.get_carry_flag(), false);
}

#[test]
fn test_adding_op_a() {
    let cart = Cartidge::new_from_bytes(vec![opcode::ADD_A_B]);
    let mut cpu = Cpu::new_test(cart);

    cpu.a = 0x0F;
    cpu.b = 0x01;

    assert_eq!(cpu.run(), Status::Finished);

    assert_eq!(cpu.a, 0x10);

    assert_eq!(cpu.get_substraction_flag(), false);
    assert_eq!(cpu.get_half_carry_flag(), true);
    assert_eq!(cpu.get_carry_flag(), false);
}

#[test]
fn test_sub_op_a_b() {
    let cart = Cartidge::new_from_bytes(vec![opcode::SUB_A_C]);
    let mut cpu = Cpu::new_test(cart);

    cpu.a = 200;
    cpu.c = 30;

    assert_eq!(cpu.run(), Status::Finished);

    assert_eq!(cpu.a, 170);

    assert_eq!(cpu.get_substraction_flag(), true);
    assert_eq!(cpu.get_half_carry_flag(), true);
    assert_eq!(cpu.get_carry_flag(), false)
}

#[test]
fn test_dec_op_de() {
    let cart = Cartidge::new_from_bytes(vec![opcode::DEC_DE]);
    let mut cpu = Cpu::new_test(cart);

    cpu.set_de(500);

    assert_eq!(cpu.run(), Status::Finished);

    assert_eq!(cpu.get_de(), 499);
    assert_eq!(cpu.get_substraction_flag(), false);
    assert_eq!(cpu.get_zero_flag(), false);
    assert_eq!(cpu.get_half_carry_flag(), false);
}

#[test]
fn test_inc_op_c() {
    let cart = Cartidge::new_from_bytes(vec![opcode::INC_C]);
    let mut cpu = Cpu::new_test(cart);

    cpu.c = 0x0F;

    assert_eq!(cpu.run(), Status::Finished);

    assert_eq!(cpu.c, 0x10);
    assert_eq!(cpu.get_substraction_flag(), false);
    assert_eq!(cpu.get_zero_flag(), false);
    assert_eq!(cpu.get_half_carry_flag(), true);
}

#[test]
fn test_and_op_d() {
    let cart = Cartidge::new_from_bytes(vec![opcode::AND_A_C]);
    let mut cpu = Cpu::new_test(cart);

    cpu.a = 0x8;
    cpu.c = 0x0;

    assert_eq!(cpu.run(), Status::Finished);

    assert_eq!(cpu.a, 0x0);
    assert_eq!(cpu.get_substraction_flag(), false);
    assert_eq!(cpu.get_zero_flag(), true);
    assert_eq!(cpu.get_half_carry_flag(), true);
    assert_eq!(cpu.get_carry_flag(), false);
}

#[test]
#[allow(non_snake_case)]
fn test_ld_a_iHL() {
    let cart = Cartidge::new_from_bytes(vec![opcode::LD_A_iHL, 20]);
    let mut cpu = Cpu::new_test(cart);

    cpu.set_hl(0x1);

    assert_eq!(cpu.run(), Status::Finished);

    assert_eq!(cpu.a, 20);
}

#[test]
fn test_cp_op_a_b() {
    let cart = Cartidge::new_from_bytes(vec![opcode::SUB_A_C]);
    let mut cpu = Cpu::new_test(cart);

    cpu.a = 200;
    cpu.c = 30;

    assert_eq!(cpu.run(), Status::Finished);

    assert_eq!(cpu.get_substraction_flag(), true);
    assert_eq!(cpu.get_half_carry_flag(), true);
    assert_eq!(cpu.get_carry_flag(), false)
}

#[test]
fn test_sbc_a_ihl() {
    let cart = Cartidge::new_from_bytes(vec![opcode::SBC_A_N8, 199]);
    let mut cpu = Cpu::new_test(cart);

    cpu.a = 200;
    cpu.set_carry_flag(true);
    cpu.set_hl(1);

    assert_eq!(cpu.run(), Status::Finished);

    assert_eq!(cpu.get_zero_flag(), true);
    assert_eq!(cpu.get_substraction_flag(), true);
    assert_eq!(cpu.get_half_carry_flag(), false);
    assert_eq!(cpu.get_carry_flag(), false);
}

#[test]
fn test_xor_a_b() {
    let cart = Cartidge::new_from_bytes(vec![opcode::XOR_A_B]);
    let mut cpu = Cpu::new_test(cart);

    cpu.a = 7;
    cpu.b = 3;

    assert_eq!(cpu.run(), Status::Finished);

    assert_eq!(cpu.a, 4);

    assert_eq!(cpu.get_zero_flag(), false);
    assert_eq!(cpu.get_substraction_flag(), false);
    assert_eq!(cpu.get_half_carry_flag(), false);
    assert_eq!(cpu.get_carry_flag(), false)
}

#[test]
fn test_or_a_b() {
    let cart = Cartidge::new_from_bytes(vec![opcode::OR_A_B]);
    let mut cpu = Cpu::new_test(cart);

    cpu.a = 4;
    cpu.b = 3;

    assert_eq!(cpu.run(), Status::Finished);

    assert_eq!(cpu.a, 7);

    assert_eq!(cpu.get_zero_flag(), false);
    assert_eq!(cpu.get_substraction_flag(), false);
    assert_eq!(cpu.get_half_carry_flag(), false);
    assert_eq!(cpu.get_carry_flag(), false)
}
