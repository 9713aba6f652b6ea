//! The processor: the register file, operand resolution and the
//! instruction engine, each verified against the machine's semantics.

use crate::alu::{
    half_borrow8, half_carry_add16, half_carry_add8, lemma_wrap, low_nibble_clear,
    low_nibble_full, sign_extend, truncate16, truncate8,
};
use crate::bus::{lemma_read_total, power_on, Bus, BusView};
use crate::cartridge::{
    cgb_of, ram_banks_of, rom_banks_of, Cartidge, CGB_FLAG_OFFSET, RAM_SIZE_OFFSET,
    ROM_SIZE_OFFSET,
};
use crate::code::{get_instruction_specs_from_code, Instruction, Operand};
use crate::endian::read_u16_le;
use crate::semantics;
use crate::semantics::{Fault, Status};
use crate::state::{
    flags_of, lemma_flags_updates, put_flags, CpuView, Flags, CARRY_BIT, HALF_CARRY_BIT,
    SUBTRACT_BIT, ZERO_BIT,
};
use vstd::prelude::*;

verus! {

/// The processor with the bus it drives. `f` is the flags register: bit 7
/// is the zero flag, bit 6 subtract, bit 5 half-carry, bit 4 carry, and the
/// low nibble stays zero.
pub struct Cpu {
    pub memory: Bus,
    pub a: u8,
    pub f: u8,
    pub b: u8,
    pub c: u8,
    pub d: u8,
    pub e: u8,
    pub h: u8,
    pub l: u8,
    /// The stack pointer.
    pub sp: u16,
    /// The program counter.
    pub pc: u16,
    /// Clock cycles spent on the instructions executed so far.
    pub cycles: u64,
}

impl View for Cpu {
    type V = CpuView;

    open spec fn view(&self) -> CpuView {
        CpuView {
            a: self.a,
            f: self.f,
            b: self.b,
            c: self.c,
            d: self.d,
            e: self.e,
            h: self.h,
            l: self.l,
            sp: self.sp,
            pc: self.pc,
            cycles: self.cycles,
            bus: self.memory@,
        }
    }
}

/// The state of a machine as it is switched on: every register and the
/// cycle count at zero.
pub open spec fn reset(bus: BusView) -> CpuView {
    CpuView { a: 0, f: 0, b: 0, c: 0, d: 0, e: 0, h: 0, l: 0, sp: 0, pc: 0, cycles: 0, bus }
}

/// Clearing one bit of a flags register and putting a flag in its place
/// changes that flag alone.
proof fn lemma_put_bit(f: u8, state: bool)
    ensures
        (f & !ZERO_BIT) | (if state { ZERO_BIT } else { 0 }) == put_flags(
            f,
            Flags { zero: state, ..flags_of(f) },
        ),
        (f & !SUBTRACT_BIT) | (if state { SUBTRACT_BIT } else { 0 }) == put_flags(
            f,
            Flags { subtract: state, ..flags_of(f) },
        ),
        (f & !HALF_CARRY_BIT) | (if state { HALF_CARRY_BIT } else { 0 }) == put_flags(
            f,
            Flags { half_carry: state, ..flags_of(f) },
        ),
        (f & !CARRY_BIT) | (if state { CARRY_BIT } else { 0 }) == put_flags(
            f,
            Flags { carry: state, ..flags_of(f) },
        ),
{
    reveal(flags_of);
    reveal(put_flags);
    let z: u8 = (f / 128) % 2;
    let n: u8 = (f / 64) % 2;
    let h: u8 = (f / 32) % 2;
    let c: u8 = (f / 16) % 2;
    let low: u8 = f % 16;
    assert(z <= 1 && n <= 1 && h <= 1 && c <= 1) by (bit_vector)
        requires
            z == (f / 128) % 2,
            n == (f / 64) % 2,
            h == (f / 32) % 2,
            c == (f / 16) % 2,
    ;
    assert((f & !0x80u8) | 0x80u8 == 128 + 64 * n + 32 * h + 16 * c + low && (f & !0x80u8) | 0u8
        == 64 * n + 32 * h + 16 * c + low) by (bit_vector)
        requires
            n == (f / 64) % 2,
            h == (f / 32) % 2,
            c == (f / 16) % 2,
            low == f % 16,
    ;
    assert((f & !0x40u8) | 0x40u8 == 128 * z + 64 + 32 * h + 16 * c + low && (f & !0x40u8) | 0u8
        == 128 * z + 32 * h + 16 * c + low) by (bit_vector)
        requires
            z == (f / 128) % 2,
            h == (f / 32) % 2,
            c == (f / 16) % 2,
            low == f % 16,
    ;
    assert((f & !0x20u8) | 0x20u8 == 128 * z + 64 * n + 32 + 16 * c + low && (f & !0x20u8) | 0u8
        == 128 * z + 64 * n + 16 * c + low) by (bit_vector)
        requires
            z == (f / 128) % 2,
            n == (f / 64) % 2,
            c == (f / 16) % 2,
            low == f % 16,
    ;
    assert((f & !0x10u8) | 0x10u8 == 128 * z + 64 * n + 32 * h + 16 + low && (f & !0x10u8) | 0u8
        == 128 * z + 64 * n + 32 * h + low) by (bit_vector)
        requires
            z == (f / 128) % 2,
            n == (f / 64) % 2,
            h == (f / 32) % 2,
            low == f % 16,
    ;
}

/// A flag is set exactly where its bit is.
proof fn lemma_test_bit(f: u8)
    ensures
        (f & 0x80 != 0) == flags_of(f).zero,
        (f & 0x40 != 0) == flags_of(f).subtract,
        (f & 0x20 != 0) == flags_of(f).half_carry,
        (f & 0x10 != 0) == flags_of(f).carry,
{
    reveal(flags_of);
    assert((f & 0x80 != 0) == ((f / 128) % 2 == 1) && (f & 0x40 != 0) == ((f / 64) % 2 == 1) && (f
        & 0x20 != 0) == ((f / 32) % 2 == 1) && (f & 0x10 != 0) == ((f / 16) % 2 == 1))
        by (bit_vector);
}

impl Cpu {
    /// A processor at rest on the bus of a cartridge.
    pub fn new(cart: Cartidge) -> (cpu: Self)
        requires
            cart.supported(),
        ensures
            cpu@ == reset(
                power_on(
                    rom_banks_of(cart.content@[ROM_SIZE_OFFSET as int]).unwrap(),
                    ram_banks_of(cart.content@[RAM_SIZE_OFFSET as int]).unwrap(),
                    cgb_of(cart.content@[CGB_FLAG_OFFSET as int]),
                    cart.content@,
                ),
            ),
            cpu@.wf(),
    {
        Cpu {
            memory: Bus::new(cart),
            a: 0,
            f: 0,
            b: 0,
            c: 0,
            d: 0,
            e: 0,
            h: 0,
            l: 0,
            sp: 0,
            pc: 0,
            cycles: 0,
        }
    }

    /// A processor at rest on a bus that does not depend on the cartridge
    /// header: for images that carry none.
    pub fn new_test(cart: Cartidge) -> (cpu: Self)
        ensures
            cpu@ == reset(power_on(2, 1, true, cart.content@)),
            cpu@.wf(),
    {
        Cpu {
            memory: Bus::new_test(cart),
            a: 0,
            f: 0,
            b: 0,
            c: 0,
            d: 0,
            e: 0,
            h: 0,
            l: 0,
            sp: 0,
            pc: 0,
            cycles: 0,
        }
    }

    /// The pair AF: A as high byte, the flags register as low byte.
    pub fn get_af(&self) -> (value: u16)
        ensures
            value == self@.af(),
    {
        read_u16_le(self.f, self.a)
    }

    /// The pair BC: B as high byte, C as low byte.
    pub fn get_bc(&self) -> (value: u16)
        ensures
            value == self@.bc(),
    {
        read_u16_le(self.c, self.b)
    }

    /// The pair DE: D as high byte, E as low byte.
    pub fn get_de(&self) -> (value: u16)
        ensures
            value == self@.de(),
    {
        read_u16_le(self.e, self.d)
    }

    /// The pair HL: H as high byte, L as low byte.
    pub fn get_hl(&self) -> (value: u16)
        ensures
            value == self@.hl(),
    {
        read_u16_le(self.l, self.h)
    }

    /// Sets A to the high byte and the flags register to the low byte with
    /// its low nibble cleared.
    pub fn set_af(&mut self, value: u16)
        ensures
            final(self)@ == old(self)@.with_af(value),
            final(self)@.af() == value - value % 16,
    {
        let low: u8 = (value % 256) as u8;
        assert(low & 0xF0 == low - low % 16) by (bit_vector);
        self.a = (value / 256) as u8;
        self.f = low & 0xF0;
    }

    /// Sets B to the high byte and C to the low byte.
    pub fn set_bc(&mut self, value: u16)
        ensures
            final(self)@ == old(self)@.with_bc(value),
            final(self)@.bc() == value,
    {
        self.b = (value / 256) as u8;
        self.c = (value % 256) as u8;
    }

    /// Sets D to the high byte and E to the low byte.
    pub fn set_de(&mut self, value: u16)
        ensures
            final(self)@ == old(self)@.with_de(value),
            final(self)@.de() == value,
    {
        self.d = (value / 256) as u8;
        self.e = (value % 256) as u8;
    }

    /// Sets H to the high byte and L to the low byte.
    pub fn set_hl(&mut self, value: u16)
        ensures
            final(self)@ == old(self)@.with_hl(value),
            final(self)@.hl() == value,
    {
        self.h = (value / 256) as u8;
        self.l = (value % 256) as u8;
    }

    /// Whether the zero flag is set.
    pub fn get_zero_flag(&self) -> (state: bool)
        ensures
            state == self@.flags().zero,
    {
        proof {
            lemma_test_bit(self.f);
        }
        (self.f & 0b10000000) != 0
    }

    /// Whether the subtract flag is set.
    pub fn get_substraction_flag(&self) -> (state: bool)
        ensures
            state == self@.flags().subtract,
    {
        proof {
            lemma_test_bit(self.f);
        }
        (self.f & 0b01000000) != 0
    }

    /// Whether the half-carry flag is set.
    pub fn get_half_carry_flag(&self) -> (state: bool)
        ensures
            state == self@.flags().half_carry,
    {
        proof {
            lemma_test_bit(self.f);
        }
        (self.f & 0b00100000) != 0
    }

    /// Whether the carry flag is set.
    pub fn get_carry_flag(&self) -> (state: bool)
        ensures
            state == self@.flags().carry,
    {
        proof {
            lemma_test_bit(self.f);
        }
        (self.f & 0b00010000) != 0
    }

    /// Sets or clears the zero flag and leaves the rest of the flags
    /// register alone.
    pub fn set_zero_flag(&mut self, state: bool)
        ensures
            final(self)@ == old(self)@.with_zero(state),
    {
        proof {
            lemma_put_bit(self.f, state);
        }
        self.f = (self.f & !ZERO_BIT) | (if state { ZERO_BIT } else { 0 });
    }

    /// Sets or clears the subtract flag and leaves the rest of the flags
    /// register alone.
    pub fn set_substraction_flag(&mut self, state: bool)
        ensures
            final(self)@ == old(self)@.with_subtract(state),
    {
        proof {
            lemma_put_bit(self.f, state);
        }
        self.f = (self.f & !SUBTRACT_BIT) | (if state { SUBTRACT_BIT } else { 0 });
    }

    /// Sets or clears the half-carry flag and leaves the rest of the flags
    /// register alone.
    pub fn set_half_carry_flag(&mut self, state: bool)
        ensures
            final(self)@ == old(self)@.with_half_carry(state),
    {
        proof {
            lemma_put_bit(self.f, state);
        }
        self.f = (self.f & !HALF_CARRY_BIT) | (if state { HALF_CARRY_BIT } else { 0 });
    }

    /// Sets or clears the carry flag and leaves the rest of the flags
    /// register alone.
    pub fn set_carry_flag(&mut self, state: bool)
        ensures
            final(self)@ == old(self)@.with_carry(state),
    {
        proof {
            lemma_put_bit(self.f, state);
        }
        self.f = (self.f & !CARRY_BIT) | (if state { CARRY_BIT } else { 0 });
    }

    /// Reads the byte at the program counter and moves the counter on.
    pub fn fetch(&mut self) -> (byte: Option<u8>)
        ensures
            (byte, final(self)@) == semantics::fetch(old(self)@),
    {
        proof {
            lemma_wrap(self.pc + 1);
        }
        let result: Option<u8> = self.memory.read(self.pc);
        self.pc = self.pc.wrapping_add(1);
        result
    }

    /// Fetches a 16-bit immediate, low byte first.
    pub fn fetch_16(&mut self) -> (word: Option<u16>)
        ensures
            (word, final(self)@) == semantics::fetch_16(old(self)@),
    {
        let first_byte: u8 = match self.fetch() {
            Some(byte) => byte,
            None => {
                return None;
            },
        };
        let second_byte: u8 = match self.fetch() {
            Some(byte) => byte,
            None => {
                return None;
            },
        };
        Some(read_u16_le(first_byte, second_byte))
    }

    /// The byte at `address` as an operand value.
    fn read_cell(&self, address: u16) -> (value: Option<i32>)
        ensures
            semantics::as_value(value) == semantics::cell(self@, address),
            value.is_some() == self@.bus.holds(address),
    {
        match self.memory.read(address) {
            Some(byte) => Some(byte as i32),
            None => None,
        }
    }

    /// Resolves an operand to its value, fetching what the operand needs
    /// from the instruction stream and from memory.
    pub fn fetch_operand_value(&mut self, op_type: Operand) -> (value: Option<i32>)
        ensures
            (semantics::as_value(value), final(self)@) == semantics::resolve(old(self)@, op_type),
            value.is_some() ==> -128 <= value.unwrap() <= 0xFFFF + 127,
            value.is_some() && op_type.size() == 1 ==> 0 <= value.unwrap() <= 0xFF,
    {
        proof {
            reveal(semantics::resolve);
            if semantics::resolve(self@, op_type).0.is_some() {
                semantics::lemma_resolve_range(self@, op_type);
            }
        }
        match op_type {
            Operand::A => Some(self.a as i32),
            Operand::B => Some(self.b as i32),
            Operand::C => Some(self.c as i32),
            Operand::D => Some(self.d as i32),
            Operand::E => Some(self.e as i32),
            Operand::H => Some(self.h as i32),
            Operand::L => Some(self.l as i32),
            Operand::AF => Some(self.get_af() as i32),
            Operand::SP => Some(self.sp as i32),
            Operand::PC => Some(self.pc as i32),
            Operand::BC => Some(self.get_bc() as i32),
            Operand::DE => Some(self.get_de() as i32),
            Operand::HL => Some(self.get_hl() as i32),
            Operand::N16 => match self.fetch_16() {
                Some(word) => Some(word as i32),
                None => None,
            },
            Operand::N8 => match self.fetch() {
                Some(byte) => Some(byte as i32),
                None => None,
            },
            Operand::E8 => match self.fetch() {
                Some(byte) => Some(sign_extend(byte)),
                None => None,
            },
            Operand::SP_PLUS_E8 => match self.fetch() {
                Some(byte) => Some((self.sp as i32) + sign_extend(byte)),
                None => None,
            },
            Operand::A16 => match self.fetch_16() {
                Some(address) => self.read_cell(address),
                None => None,
            },
            Operand::A8 => match self.fetch() {
                Some(byte) => self.read_cell(byte as u16 + 0xFF00),
                None => None,
            },
            Operand::iC => self.read_cell(0xFF00 + self.c as u16),
            Operand::iBC => self.read_cell(self.get_bc()),
            Operand::iDE => self.read_cell(self.get_de()),
            Operand::iHL => self.read_cell(self.get_hl()),
            Operand::iHLPLUS => {
                let result = self.read_cell(self.get_hl());
                proof {
                    lemma_wrap(self@.hl() + 1);
                }
                if result.is_some() {
                    self.set_hl(self.get_hl().wrapping_add(1));
                }
                result
            },
            Operand::iHLMINUS => {
                let result = self.read_cell(self.get_hl());
                proof {
                    lemma_wrap(self@.hl() - 1);
                }
                if result.is_some() {
                    self.set_hl(self.get_hl().wrapping_sub(1));
                }
                result
            },
        }
    }

    /// `DEC`: takes one from a register or from the cell at HL.
    pub fn handle_dec_op(&mut self, op1_type: Operand) -> (outcome: Result<(), Fault>)
        ensures
            (final(self)@, outcome) == semantics::dec_op(old(self)@, op1_type),
    {
        match op1_type {
            Operand::A
            | Operand::B
            | Operand::C
            | Operand::D
            | Operand::E
            | Operand::H
            | Operand::L
            | Operand::iHL
            | Operand::BC
            | Operand::DE
            | Operand::HL
            | Operand::SP => {},
            _ => {
                return Err(Fault::UnsupportedOperand(op1_type));
            },
        }
        proof {
            semantics::lemma_resolve_in_place(self@, op1_type);
            lemma_read_total(self@.bus, self@.hl());
        }
        let value: i32 = match self.fetch_operand_value(op1_type) {
            Some(value) => value,
            None => {
                return Err(Fault::AccessFault(op1_type));
            },
        };
        proof {
            lemma_flags_updates();
            lemma_wrap(value - 1);
        }
        match op1_type {
            Operand::A => {
                self.a = self.a.wrapping_sub(1);
                self.set_zero_flag(self.a == 0);
            },
            Operand::B => {
                self.b = self.b.wrapping_sub(1);
                self.set_zero_flag(self.b == 0);
            },
            Operand::L => {
                self.l = self.l.wrapping_sub(1);
                self.set_zero_flag(self.l == 0);
            },
            Operand::E => {
                self.e = self.e.wrapping_sub(1);
                self.set_zero_flag(self.e == 0);
            },
            Operand::C => {
                self.c = self.c.wrapping_sub(1);
                self.set_zero_flag(self.c == 0);
            },
            Operand::D => {
                self.d = self.d.wrapping_sub(1);
                self.set_zero_flag(self.d == 0);
            },
            Operand::H => {
                self.h = self.h.wrapping_sub(1);
                self.set_zero_flag(self.h == 0);
            },
            Operand::iHL => {
                let lowered: u8 = truncate8(value - 1);
                self.memory.write(self.get_hl(), lowered);
                self.set_zero_flag(lowered == 0);
            },
            Operand::BC => {
                self.set_bc(self.get_bc().wrapping_sub(1));
            },
            Operand::DE => {
                self.set_de(self.get_de().wrapping_sub(1));
            },
            Operand::HL => {
                self.set_hl(self.get_hl().wrapping_sub(1));
            },
            _ => {
                self.sp = self.sp.wrapping_sub(1);
            },
        }
        if op1_type.get_operand_size() == 1 {
            self.set_substraction_flag(true);
            self.set_half_carry_flag(low_nibble_clear(value));
        }
        Ok(())
    }

    /// `INC`: adds one to a register or to the cell at HL.
    pub fn handle_inc_op(&mut self, op1_type: Operand) -> (outcome: Result<(), Fault>)
        ensures
            (final(self)@, outcome) == semantics::inc_op(old(self)@, op1_type),
    {
        proof {
            lemma_flags_updates();
            lemma_wrap(self.a + 1);
            lemma_wrap(self.b + 1);
            lemma_wrap(self.c + 1);
            lemma_wrap(self.d + 1);
            lemma_wrap(self.e + 1);
            lemma_wrap(self.h + 1);
            lemma_wrap(self.l + 1);
            lemma_wrap(self.sp + 1);
            lemma_wrap(self@.bc() + 1);
            lemma_wrap(self@.de() + 1);
            lemma_wrap(self@.hl() + 1);
        }
        match op1_type {
            Operand::BC => {
                self.set_bc(self.get_bc().wrapping_add(1));
            },
            Operand::DE => {
                self.set_de(self.get_de().wrapping_add(1));
            },
            Operand::HL => {
                self.set_hl(self.get_hl().wrapping_add(1));
            },
            Operand::SP => {
                self.sp = self.sp.wrapping_add(1);
            },
            Operand::B => {
                self.set_half_carry_flag(low_nibble_full(self.b));
                self.b = self.b.wrapping_add(1);
                self.set_zero_flag(self.b == 0);
            },
            Operand::D => {
                self.set_half_carry_flag(low_nibble_full(self.d));
                self.d = self.d.wrapping_add(1);
                self.set_zero_flag(self.d == 0);
            },
            Operand::H => {
                self.set_half_carry_flag(low_nibble_full(self.h));
                self.h = self.h.wrapping_add(1);
                self.set_zero_flag(self.h == 0);
            },
            Operand::iHL => {
                let address: u16 = self.get_hl();
                match self.memory.read(address) {
                    Some(before) => {
                        proof {
                            lemma_wrap(before + 1);
                        }
                        self.set_half_carry_flag(low_nibble_full(before));
                        self.memory.write(address, before.wrapping_add(1));
                        self.set_zero_flag(before.wrapping_add(1) == 0);
                    },
                    None => {
                        return Err(Fault::AccessFault(op1_type));
                    },
                }
            },
            Operand::C => {
                self.set_half_carry_flag(low_nibble_full(self.c));
                self.c = self.c.wrapping_add(1);
                self.set_zero_flag(self.c == 0);
            },
            Operand::E => {
                self.set_half_carry_flag(low_nibble_full(self.e));
                self.e = self.e.wrapping_add(1);
                self.set_zero_flag(self.e == 0);
            },
            Operand::L => {
                self.set_half_carry_flag(low_nibble_full(self.l));
                self.l = self.l.wrapping_add(1);
                self.set_zero_flag(self.l == 0);
            },
            Operand::A => {
                self.set_half_carry_flag(low_nibble_full(self.a));
                self.a = self.a.wrapping_add(1);
                self.set_zero_flag(self.a == 0);
            },
            _ => {
                return Err(Fault::UnsupportedOperand(op1_type));
            },
        }
        if op1_type.get_operand_size() == 1 {
            self.set_substraction_flag(false);
        }
        Ok(())
    }

    /// Writes a byte to memory, or reports the address where it holds no
    /// byte.
    fn store_byte(&mut self, address: u16, value: u8) -> (outcome: Result<(), Fault>)
        ensures
            old(self)@.bus.holds(address) ==> outcome.is_ok() && final(self)@
                == semantics::with_cell(old(self)@, address, value),
            !old(self)@.bus.holds(address) ==> outcome == Err::<(), Fault>(
                Fault::WriteFault(address),
            ) && final(self)@ == old(self)@,
    {
        if self.memory.read(address).is_none() {
            return Err(Fault::WriteFault(address));
        }
        self.memory.write(address, value);
        Ok(())
    }

    /// `LD`: moves the value of the second operand to the first.
    pub fn handle_ld_op(&mut self, op1_type: Operand, op2_type: Operand) -> (outcome: Result<
        (),
        Fault,
    >)
        ensures
            (final(self)@, outcome) == semantics::ld_op(old(self)@, op1_type, op2_type),
    {
        if op1_type.get_operand_size() != op2_type.get_operand_size() {
            return Err(Fault::WidthMismatch(op1_type, op2_type));
        }
        match op1_type {
            Operand::BC
            | Operand::DE
            | Operand::HL
            | Operand::SP
            | Operand::A
            | Operand::D
            | Operand::H
            | Operand::C
            | Operand::E
            | Operand::B
            | Operand::L
            | Operand::iDE
            | Operand::iHL
            | Operand::iBC
            | Operand::iHLMINUS
            | Operand::iHLPLUS => {},
            _ => {
                return Err(Fault::UnsupportedOperand(op1_type));
            },
        }
        let other_value: i32 = match self.fetch_operand_value(op2_type) {
            Some(value) => value,
            None => {
                return Err(Fault::AccessFault(op2_type));
            },
        };
        proof {
            lemma_wrap(self@.hl() + 1);
            lemma_wrap(self@.hl() - 1);
        }
        match op1_type {
            Operand::BC => {
                self.set_bc(truncate16(other_value));
            },
            Operand::DE => {
                self.set_de(truncate16(other_value));
            },
            Operand::HL => {
                self.set_hl(truncate16(other_value));
            },
            Operand::SP => {
                self.sp = truncate16(other_value);
            },
            Operand::A => {
                self.a = truncate8(other_value);
            },
            Operand::D => {
                self.d = truncate8(other_value);
            },
            Operand::H => {
                self.h = truncate8(other_value);
            },
            Operand::C => {
                self.c = truncate8(other_value);
            },
            Operand::E => {
                self.e = truncate8(other_value);
            },
            Operand::B => {
                self.b = truncate8(other_value);
            },
            Operand::L => {
                self.l = truncate8(other_value);
            },
            Operand::iDE => {
                self.store_byte(self.get_de(), truncate8(other_value))?;
            },
            Operand::iHL => {
                self.store_byte(self.get_hl(), truncate8(other_value))?;
            },
            Operand::iBC => {
                self.store_byte(self.get_bc(), truncate8(other_value))?;
            },
            Operand::iHLMINUS => {
                self.store_byte(self.get_hl(), truncate8(other_value))?;
                self.set_hl(self.get_hl().wrapping_sub(1));
            },
            _ => {
                self.store_byte(self.get_hl(), truncate8(other_value))?;
                self.set_hl(self.get_hl().wrapping_add(1));
            },
        }
        Ok(())
    }

    /// `ADD`: adds the second operand to A, HL or SP.
    pub fn handle_add_op(&mut self, op1_type: Operand, op2_type: Operand) -> (outcome: Result<
        (),
        Fault,
    >)
        ensures
            (final(self)@, outcome) == semantics::add_op(old(self)@, op1_type, op2_type),
    {
        if op1_type.get_operand_size() != op2_type.get_operand_size() {
            return Err(Fault::WidthMismatch(op1_type, op2_type));
        }
        match op1_type {
            Operand::A | Operand::HL | Operand::SP => {},
            _ => {
                return Err(Fault::UnsupportedOperand(op1_type));
            },
        }
        let other_value: i32 = match self.fetch_operand_value(op2_type) {
            Some(value) => value,
            None => {
                return Err(Fault::AccessFault(op2_type));
            },
        };
        proof {
            lemma_flags_updates();
        }
        self.set_substraction_flag(false);
        match op1_type {
            Operand::A => {
                self.set_half_carry_flag(half_carry_add8(self.a, other_value));
                let unceiled_value: i32 = self.a as i32 + other_value;
                self.a = truncate8(unceiled_value);
                self.set_zero_flag(self.a == 0);
                self.set_carry_flag(unceiled_value > 0xFF);
            },
            Operand::HL => {
                let hl_value: u16 = self.get_hl();
                self.set_half_carry_flag(half_carry_add16(hl_value, other_value));
                let unceiled_value: i32 = hl_value as i32 + other_value;
                self.set_hl(truncate16(unceiled_value));
                self.set_carry_flag(unceiled_value > 0xFFFF);
            },
            _ => {
                let unceiled_value: i32 = self.sp as i32 + other_value;
                self.set_half_carry_flag(half_carry_add16(self.sp, other_value));
                self.sp = truncate16(unceiled_value);
                self.set_zero_flag(false);
                self.set_carry_flag(unceiled_value > 0xFFFF);
            },
        }
        Ok(())
    }

    /// The start of every handler that works on A with a second operand:
    /// checks the widths and the destination, then resolves the second
    /// operand.
    fn operand_for_a(&mut self, op1_type: Operand, op2_type: Operand) -> (value: Result<
        i32,
        Fault,
    >)
        ensures
            final(self)@ == semantics::operand_for_a(old(self)@, op1_type, op2_type).0,
            match semantics::operand_for_a(old(self)@, op1_type, op2_type).1 {
                Ok(v) => value.is_ok() && value.unwrap() == v,
                Err(fault) => value == Err::<i32, Fault>(fault),
            },
            value.is_ok() ==> 0 <= value.unwrap() <= 0xFF,
    {
        if op1_type.get_operand_size() != op2_type.get_operand_size() {
            return Err(Fault::WidthMismatch(op1_type, op2_type));
        }
        match op1_type {
            Operand::A => {},
            _ => {
                return Err(Fault::UnsupportedOperand(op1_type));
            },
        }
        match self.fetch_operand_value(op2_type) {
            Some(value) => Ok(value),
            None => Err(Fault::AccessFault(op2_type)),
        }
    }

    /// `SUB`: takes the second operand from A.
    pub fn handle_sub_op(&mut self, op1_type: Operand, op2_type: Operand) -> (outcome: Result<
        (),
        Fault,
    >)
        ensures
            (final(self)@, outcome) == semantics::sub_op(old(self)@, op1_type, op2_type),
    {
        self.a = self.handle_cp_op(op1_type, op2_type)?;
        Ok(())
    }

    /// `CP`: compares A with the second operand. Sets the flags and hands
    /// back the difference; A keeps its value.
    pub fn handle_cp_op(&mut self, op1_type: Operand, op2_type: Operand) -> (difference: Result<
        u8,
        Fault,
    >)
        ensures
            (final(self)@, difference) == semantics::cp_op(old(self)@, op1_type, op2_type),
    {
        let other_operand: i32 = self.operand_for_a(op1_type, op2_type)?;
        proof {
            lemma_flags_updates();
        }
        self.set_half_carry_flag(half_borrow8(self.a, other_operand));
        let unceiled_value: i32 = self.a as i32 - other_operand;
        let a: u8 = truncate8(unceiled_value);
        self.set_substraction_flag(true);
        self.set_zero_flag(self.a == 0);
        Ok(a)
    }

    /// `AND`: A and the second operand, bit by bit.
    pub fn handle_and_op(&mut self, op1_type: Operand, op2_type: Operand) -> (outcome: Result<
        (),
        Fault,
    >)
        ensures
            (final(self)@, outcome) == semantics::and_op(old(self)@, op1_type, op2_type),
    {
        let other_value: i32 = self.operand_for_a(op1_type, op2_type)?;
        proof {
            lemma_flags_updates();
        }
        self.set_half_carry_flag(true);
        self.set_substraction_flag(false);
        self.set_carry_flag(false);
        self.a = self.a & truncate8(other_value);
        self.set_zero_flag(self.a == 0);
        Ok(())
    }

    /// `ADC`: adds the second operand and the carry flag to A.
    pub fn handle_adc_op(&mut self, op1_type: Operand, op2_type: Operand) -> (outcome: Result<
        (),
        Fault,
    >)
        ensures
            (final(self)@, outcome) == semantics::adc_op(old(self)@, op1_type, op2_type),
    {
        let mut other_operand: i32 = self.operand_for_a(op1_type, op2_type)?;
        proof {
            lemma_flags_updates();
        }
        if self.get_carry_flag() {
            other_operand += 1;
        }
        self.set_half_carry_flag(half_carry_add8(self.a, other_operand));
        let unceiled_value: i32 = self.a as i32 + other_operand;
        self.a = truncate8(unceiled_value);
        self.set_zero_flag(self.a == 0);
        self.set_substraction_flag(false);
        self.set_carry_flag(unceiled_value > 0xFF);
        Ok(())
    }

    /// `SBC`: takes the second operand and the carry flag from A.
    pub fn handle_sbc_op(&mut self, op1_type: Operand, op2_type: Operand) -> (outcome: Result<
        (),
        Fault,
    >)
        ensures
            (final(self)@, outcome) == semantics::sbc_op(old(self)@, op1_type, op2_type),
    {
        let mut other_operand: i32 = self.operand_for_a(op1_type, op2_type)?;
        proof {
            lemma_flags_updates();
        }
        if self.get_carry_flag() {
            other_operand += 1;
        }
        self.set_half_carry_flag(half_borrow8(self.a, other_operand));
        let unceiled_value: i32 = self.a as i32 - other_operand;
        self.a = truncate8(unceiled_value);
        self.set_zero_flag(self.a == 0);
        self.set_substraction_flag(true);
        self.set_carry_flag(unceiled_value > 0xFF);
        Ok(())
    }

    /// `XOR`: A or the second operand but not both, bit by bit.
    pub fn handle_xor_op(&mut self, op1_type: Operand, op2_type: Operand) -> (outcome: Result<
        (),
        Fault,
    >)
        ensures
            (final(self)@, outcome) == semantics::xor_op(old(self)@, op1_type, op2_type),
    {
        let other_operand: i32 = self.operand_for_a(op1_type, op2_type)?;
        proof {
            lemma_flags_updates();
        }
        self.a = self.a ^ truncate8(other_operand);
        self.set_zero_flag(self.a == 0);
        self.set_substraction_flag(false);
        self.set_half_carry_flag(false);
        self.set_carry_flag(false);
        Ok(())
    }

    /// `OR`: A or the second operand, bit by bit.
    pub fn handle_or_op(&mut self, op1_type: Operand, op2_type: Operand) -> (outcome: Result<
        (),
        Fault,
    >)
        ensures
            (final(self)@, outcome) == semantics::or_op(old(self)@, op1_type, op2_type),
    {
        let other_operand: i32 = self.operand_for_a(op1_type, op2_type)?;
        proof {
            lemma_flags_updates();
        }
        self.a = self.a | truncate8(other_operand);
        self.set_zero_flag(self.a == 0);
        self.set_substraction_flag(false);
        self.set_carry_flag(false);
        self.set_half_carry_flag(false);
        Ok(())
    }

    /// One turn of the engine: fetches an opcode, looks it up, hands the
    /// instruction to its handler and adds its cost to the cycle count.
    pub fn step(&mut self) -> (status: Status)
        ensures
            (final(self)@, status) == semantics::step(old(self)@),
            old(self)@.wf() ==> final(self)@.wf(),
    {
        proof {
            if self@.wf() {
                semantics::lemma_run_preserves_wf(self@);
            }
        }
        let c: u8 = match self.fetch() {
            Some(byte) => byte,
            None => {
                return Status::Finished;
            },
        };
        let (instruction, cycles) = match get_instruction_specs_from_code(c) {
            Some(entry) => entry,
            None => {
                return Status::Halted(Fault::UnknownOpcode(c));
            },
        };
        let outcome: Result<(), Fault> = match instruction {
            Instruction::ADD(op1_type, op2_type) => self.handle_add_op(op1_type, op2_type),
            Instruction::SUB(op1_type, op2_type) => self.handle_sub_op(op1_type, op2_type),
            Instruction::DEC(op1_type) => self.handle_dec_op(op1_type),
            Instruction::INC(op1_type) => self.handle_inc_op(op1_type),
            Instruction::AND(op1_type, op2_type) => self.handle_and_op(op1_type, op2_type),
            Instruction::NOP => Ok(()),
            Instruction::LD(op1_type, op2_type) => self.handle_ld_op(op1_type, op2_type),
            Instruction::CP(op1_type, op2_type) => match self.handle_cp_op(op1_type, op2_type) {
                Ok(_) => Ok(()),
                Err(fault) => Err(fault),
            },
            Instruction::ADC(op1_type, op2_type) => self.handle_adc_op(op1_type, op2_type),
            Instruction::SBC(op1_type, op2_type) => self.handle_sbc_op(op1_type, op2_type),
            Instruction::XOR(op1_type, op2_type) => self.handle_xor_op(op1_type, op2_type),
            Instruction::OR(op1_type, op2_type) => self.handle_or_op(op1_type, op2_type),
            _ => Err(Fault::UnsupportedInstruction(c)),
        };
        if let Err(fault) = outcome {
            return Status::Halted(fault);
        }
        match self.cycles.checked_add(cycles) {
            Some(total) => {
                self.cycles = total;
                Status::Running
            },
            None => Status::Halted(Fault::CycleOverflow),
        }
    }

    /// Runs the engine until the instruction stream is exhausted or a
    /// fault stops it.
    pub fn run(&mut self) -> (status: Status)
        ensures
            (final(self)@, status) == semantics::run(old(self)@),
            status != Status::Running,
            old(self)@.wf() ==> final(self)@.wf(),
    {
        loop
            invariant
                semantics::run(self@) == semantics::run(old(self)@),
                old(self)@.wf() ==> self@.wf(),
            decreases 0x10000 - self.pc,
        {
            let start: u16 = self.pc;
            let status: Status = self.step();
            match status {
                Status::Running => {},
                _ => {
                    return status;
                },
            }
            if self.pc <= start {
                return Status::Finished;
            }
        }
    }
}

} // verus!
