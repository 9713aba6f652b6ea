use gbc::cartridge::Cartidge;
use gbc::cpu::Cpu;

fn blank() -> Cpu {
    Cpu::new_test(Cartidge::new_from_bytes(vec![]))
}

#[test]
fn new_cpu_is_at_rest() {
    let cpu = blank();
    assert_eq!(
        (cpu.a, cpu.f, cpu.b, cpu.c, cpu.d, cpu.e, cpu.h, cpu.l),
        (0, 0, 0, 0, 0, 0, 0, 0)
    );
    assert_eq!((cpu.sp, cpu.pc, cpu.cycles), (0, 0, 0));
}

#[test]
fn pairs_read_high_register_first() {
    let mut cpu = blank();
    cpu.b = 0x12;
    cpu.c = 0x34;
    cpu.d = 0x56;
    cpu.e = 0x78;
    cpu.h = 0x9A;
    cpu.l = 0xBC;
    cpu.a = 0xDE;
    cpu.f = 0xF0;
    assert_eq!(cpu.get_bc(), 0x1234);
    assert_eq!(cpu.get_de(), 0x5678);
    assert_eq!(cpu.get_hl(), 0x9ABC);
    assert_eq!(cpu.get_af(), 0xDEF0);
}

#[test]
fn pairs_split_into_high_and_low_register() {
    let mut cpu = blank();
    cpu.set_bc(0x1234);
    cpu.set_de(0x5678);
    cpu.set_hl(0x9ABC);
    cpu.set_af(0xDEF0);
    assert_eq!((cpu.b, cpu.c), (0x12, 0x34));
    assert_eq!((cpu.d, cpu.e), (0x56, 0x78));
    assert_eq!((cpu.h, cpu.l), (0x9A, 0xBC));
    assert_eq!((cpu.a, cpu.f), (0xDE, 0xF0));
}

#[test]
fn pairs_round_trip_for_every_value() {
    let mut cpu = blank();
    for value in 0..=0xFFFFu16 {
        cpu.set_bc(value);
        cpu.set_de(value);
        cpu.set_hl(value);
        assert_eq!(cpu.get_bc(), value);
        assert_eq!(cpu.get_de(), value);
        assert_eq!(cpu.get_hl(), value);
    }
}

#[test]
fn af_round_trips_but_for_the_low_nibble() {
    let mut cpu = blank();
    for value in 0..=0xFFFFu16 {
        cpu.set_af(value);
        assert_eq!(cpu.get_af(), value & 0xFFF0);
    }
    cpu.set_af(0x12FF);
    assert_eq!(cpu.f, 0xF0);
    assert_eq!(cpu.a, 0x12);
}

#[test]
fn setting_a_pair_leaves_the_others() {
    let mut cpu = blank();
    cpu.set_bc(0x1111);
    cpu.set_de(0x2222);
    cpu.set_hl(0x3333);
    cpu.set_af(0x4440);
    cpu.set_de(0xABCD);
    assert_eq!(cpu.get_bc(), 0x1111);
    assert_eq!(cpu.get_de(), 0xABCD);
    assert_eq!(cpu.get_hl(), 0x3333);
    assert_eq!(cpu.get_af(), 0x4440);
}

#[test]
fn flags_sit_in_the_top_nibble() {
    let mut cpu = blank();
    cpu.set_zero_flag(true);
    assert_eq!(cpu.f, 0x80);
    cpu.set_zero_flag(false);
    cpu.set_substraction_flag(true);
    assert_eq!(cpu.f, 0x40);
    cpu.set_substraction_flag(false);
    cpu.set_half_carry_flag(true);
    assert_eq!(cpu.f, 0x20);
    cpu.set_half_carry_flag(false);
    cpu.set_carry_flag(true);
    assert_eq!(cpu.f, 0x10);
    cpu.set_carry_flag(false);
    assert_eq!(cpu.f, 0x00);
}

#[test]
fn each_flag_setter_touches_one_bit() {
    for f in 0..=255u8 {
        for state in [false, true] {
            let mut cpu = blank();
            cpu.f = f;
            cpu.set_zero_flag(state);
            assert_eq!(cpu.f, (f & 0x7F) | if state { 0x80 } else { 0 });
            cpu.f = f;
            cpu.set_substraction_flag(state);
            assert_eq!(cpu.f, (f & 0xBF) | if state { 0x40 } else { 0 });
            cpu.f = f;
            cpu.set_half_carry_flag(state);
            assert_eq!(cpu.f, (f & 0xDF) | if state { 0x20 } else { 0 });
            cpu.f = f;
            cpu.set_carry_flag(state);
            assert_eq!(cpu.f, (f & 0xEF) | if state { 0x10 } else { 0 });
        }
    }
}

#[test]
fn flag_getters_read_their_bit() {
    let mut cpu = blank();
    cpu.f = 0b1010_0000;
    assert_eq!(cpu.get_zero_flag(), true);
    assert_eq!(cpu.get_substraction_flag(), false);
    assert_eq!(cpu.get_half_carry_flag(), true);
    assert_eq!(cpu.get_carry_flag(), false);
    cpu.f = 0b0101_0000;
    assert_eq!(cpu.get_zero_flag(), false);
    assert_eq!(cpu.get_substraction_flag(), true);
    assert_eq!(cpu.get_half_carry_flag(), false);
    assert_eq!(cpu.get_carry_flag(), true);
}

#[test]
fn flag_read_after_set_gives_what_was_set() {
    let mut cpu = blank();
    for state in [true, false] {
        cpu.set_zero_flag(state);
        cpu.set_substraction_flag(!state);
        cpu.set_half_carry_flag(state);
        cpu.set_carry_flag(!state);
        assert_eq!(cpu.get_zero_flag(), state);
        assert_eq!(cpu.get_substraction_flag(), !state);
        assert_eq!(cpu.get_half_carry_flag(), state);
        assert_eq!(cpu.get_carry_flag(), !state);
    }
}
