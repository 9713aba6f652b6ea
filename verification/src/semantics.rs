//! What the machine does, as mathematics: what a fetch and an operand
//! yield, what each instruction family does to registers, flags and
//! memory, and how steps chain into a run. The engine is verified against
//! these definitions.

use crate::alu::{
    crumb_carries, lemma_wrap, nibble_borrows, nibble_carries, signed8, wrap16, wrap8,
};
use crate::bus::{lemma_read_total, lemma_write_read};
use crate::code::{table_entry, Instruction, Operand};
use crate::state::{lemma_flags_updates, pair, CpuView, Flags};
use vstd::prelude::*;

verus! {

/// Why the engine stopped for good.
#[derive(Clone, Copy, Debug, PartialEq, Eq, Structural)]
pub enum Fault {
    /// The opcode byte has no entry in the table.
    UnknownOpcode(u8),
    /// The opcode stands for an instruction that the engine has no handler
    /// for.
    UnsupportedInstruction(u8),
    /// The handler does not take this operand as its destination.
    UnsupportedOperand(Operand),
    /// The two operands of an instruction differ in width.
    WidthMismatch(Operand, Operand),
    /// Resolving this operand met an address that holds no byte.
    AccessFault(Operand),
    /// A write to this address falls outside its bank's storage.
    WriteFault(u16),
    /// The cycle counter cannot take the cost of the instruction.
    CycleOverflow,
}

/// How a step or a run ended.
#[derive(Clone, Copy, Debug, PartialEq, Eq, Structural)]
pub enum Status {
    /// An instruction was executed; the next one can be.
    Running,
    /// The instruction stream is exhausted.
    Finished,
    /// A fault stopped the engine.
    Halted(Fault),
}

/// The address after `address`; the last address is followed by the first.
pub open spec fn next(address: u16) -> u16 {
    wrap16(address + 1)
}

/// The address before `address`; the first address is preceded by the last.
pub open spec fn prev(address: u16) -> u16 {
    wrap16(address - 1)
}

/// The byte at the program counter, and the state with the program counter
/// moved on. The counter moves whether or not a byte is there.
pub open spec fn fetch(s: CpuView) -> (Option<u8>, CpuView) {
    (s.bus.read(s.pc), CpuView { pc: next(s.pc), ..s })
}

/// Two fetches put together into a word, low byte first. Where the first
/// byte is missing, the second is not fetched.
pub open spec fn fetch_16(s: CpuView) -> (Option<u16>, CpuView) {
    let (low, t) = fetch(s);
    if low.is_none() {
        (None, t)
    } else {
        let (high, u) = fetch(t);
        if high.is_none() {
            (None, u)
        } else {
            (Some(pair(high.unwrap(), low.unwrap())), u)
        }
    }
}

/// A byte read from memory as an operand value.
pub open spec fn cell(s: CpuView, address: u16) -> Option<int> {
    match s.bus.read(address) {
        Some(byte) => Some(byte as int),
        None => None,
    }
}

/// The value of an operand, or nothing where a byte it needs is missing,
/// and the state after the operand has been resolved: immediates move the
/// program counter past their bytes, and the two stepping forms of
/// `(HL)` move HL once the byte has been read.
#[verifier::opaque]
pub open spec fn resolve(s: CpuView, operand: Operand) -> (Option<int>, CpuView) {
    match operand {
        Operand::A => (Some(s.a as int), s),
        Operand::B => (Some(s.b as int), s),
        Operand::C => (Some(s.c as int), s),
        Operand::D => (Some(s.d as int), s),
        Operand::E => (Some(s.e as int), s),
        Operand::H => (Some(s.h as int), s),
        Operand::L => (Some(s.l as int), s),
        Operand::AF => (Some(s.af() as int), s),
        Operand::BC => (Some(s.bc() as int), s),
        Operand::DE => (Some(s.de() as int), s),
        Operand::HL => (Some(s.hl() as int), s),
        Operand::SP => (Some(s.sp as int), s),
        Operand::PC => (Some(s.pc as int), s),
        Operand::N16 => {
            let (word, t) = fetch_16(s);
            (
                match word {
                    Some(w) => Some(w as int),
                    None => None,
                },
                t,
            )
        },
        Operand::N8 => {
            let (byte, t) = fetch(s);
            (
                match byte {
                    Some(b) => Some(b as int),
                    None => None,
                },
                t,
            )
        },
        Operand::E8 => {
            let (byte, t) = fetch(s);
            (
                match byte {
                    Some(b) => Some(signed8(b)),
                    None => None,
                },
                t,
            )
        },
        Operand::SP_PLUS_E8 => {
            let (byte, t) = fetch(s);
            (
                match byte {
                    Some(b) => Some(s.sp + signed8(b)),
                    None => None,
                },
                t,
            )
        },
        Operand::A16 => {
            let (word, t) = fetch_16(s);
            (
                match word {
                    Some(address) => cell(t, address),
                    None => None,
                },
                t,
            )
        },
        Operand::A8 => {
            let (byte, t) = fetch(s);
            (
                match byte {
                    Some(b) => cell(t, (0xFF00 + b) as u16),
                    None => None,
                },
                t,
            )
        },
        Operand::iC => (cell(s, (0xFF00 + s.c) as u16), s),
        Operand::iBC => (cell(s, s.bc()), s),
        Operand::iDE => (cell(s, s.de()), s),
        Operand::iHL => (cell(s, s.hl()), s),
        Operand::iHLPLUS => (
            cell(s, s.hl()),
            if s.bus.holds(s.hl()) {
                s.with_hl(next(s.hl()))
            } else {
                s
            },
        ),
        Operand::iHLMINUS => (
            cell(s, s.hl()),
            if s.bus.holds(s.hl()) {
                s.with_hl(prev(s.hl()))
            } else {
                s
            },
        ),
    }
}

/// An operand value as the engine holds it, read as a number.
pub open spec fn as_value(value: Option<i32>) -> Option<int> {
    match value {
        Some(v) => Some(v as int),
        None => None,
    }
}

/// The value of an operand one byte wide is a byte; that of a wider one is
/// a 16-bit word, or a word and a signed offset put together.
pub proof fn lemma_resolve_range(s: CpuView, operand: Operand)
    requires
        resolve(s, operand).0.is_some(),
    ensures
        operand.size() == 1 ==> 0 <= resolve(s, operand).0.unwrap() <= 0xFF,
        operand.size() == 2 ==> -128 <= resolve(s, operand).0.unwrap() <= 0xFFFF + 127,
        operand.size() == 2 && operand != Operand::E8 && operand != Operand::SP_PLUS_E8 ==> 0
            <= resolve(s, operand).0.unwrap() <= 0xFFFF,
{
    reveal(resolve);
}

/// Resolving an operand changes no register but the program counter and,
/// for the two stepping forms, HL; it changes neither flags, cycle count
/// nor memory.
pub proof fn lemma_resolve_frame(s: CpuView, operand: Operand)
    ensures
        resolve(s, operand).1.a == s.a,
        resolve(s, operand).1.f == s.f,
        resolve(s, operand).1.b == s.b,
        resolve(s, operand).1.c == s.c,
        resolve(s, operand).1.d == s.d,
        resolve(s, operand).1.e == s.e,
        resolve(s, operand).1.sp == s.sp,
        resolve(s, operand).1.cycles == s.cycles,
        resolve(s, operand).1.bus == s.bus,
        operand != Operand::iHLPLUS && operand != Operand::iHLMINUS ==> resolve(s, operand).1.hl()
            == s.hl(),
{
    reveal(resolve);
}

/// Number of bytes of the instruction stream that an operand takes up.
pub open spec fn immediate_bytes(operand: Operand) -> int {
    match operand {
        Operand::N16 | Operand::A16 => 2,
        Operand::N8 | Operand::E8 | Operand::SP_PLUS_E8 | Operand::A8 => 1,
        _ => 0,
    }
}

/// An operand that resolves moves the program counter past its immediate
/// bytes, no more and no less; an operand without immediate bytes never
/// moves it.
pub proof fn lemma_resolve_consumes(s: CpuView, operand: Operand)
    ensures
        resolve(s, operand).0.is_some() ==> resolve(s, operand).1.pc == wrap16(
            s.pc + immediate_bytes(operand),
        ),
        immediate_bytes(operand) == 0 ==> resolve(s, operand).1.pc == s.pc,
{
    reveal(resolve);
    lemma_wrap(s.pc as int);
    lemma_wrap(s.pc + 1);
    lemma_wrap(s.pc + 2);
    lemma_wrap(next(s.pc) + 1);
}

/// A register resolves to what it holds, and the cell at HL to the byte
/// there; neither changes the state.
pub proof fn lemma_resolve_in_place(s: CpuView, operand: Operand)
    ensures
        is_reg8(operand) ==> resolve(s, operand) == (Some(reg8(s, operand) as int), s),
        is_reg16(operand) ==> resolve(s, operand) == (Some(reg16(s, operand) as int), s),
        operand == Operand::iHL ==> resolve(s, operand) == (cell(s, s.hl()), s),
{
    reveal(resolve);
}

/// Whether an operand is one of the seven 8-bit registers.
pub open spec fn is_reg8(operand: Operand) -> bool {
    operand == Operand::A || operand == Operand::B || operand == Operand::C || operand
        == Operand::D || operand == Operand::E || operand == Operand::H || operand == Operand::L
}

/// Whether an operand is one of the 16-bit registers that count: BC, DE,
/// HL or SP.
pub open spec fn is_reg16(operand: Operand) -> bool {
    operand == Operand::BC || operand == Operand::DE || operand == Operand::HL || operand
        == Operand::SP
}

/// What an 8-bit register holds.
pub open spec fn reg8(s: CpuView, operand: Operand) -> u8 {
    match operand {
        Operand::A => s.a,
        Operand::B => s.b,
        Operand::C => s.c,
        Operand::D => s.d,
        Operand::E => s.e,
        Operand::H => s.h,
        _ => s.l,
    }
}

/// The state with an 8-bit register set.
pub open spec fn with_reg8(s: CpuView, operand: Operand, value: u8) -> CpuView {
    match operand {
        Operand::A => CpuView { a: value, ..s },
        Operand::B => CpuView { b: value, ..s },
        Operand::C => CpuView { c: value, ..s },
        Operand::D => CpuView { d: value, ..s },
        Operand::E => CpuView { e: value, ..s },
        Operand::H => CpuView { h: value, ..s },
        _ => CpuView { l: value, ..s },
    }
}

/// What a 16-bit register holds.
pub open spec fn reg16(s: CpuView, operand: Operand) -> u16 {
    match operand {
        Operand::BC => s.bc(),
        Operand::DE => s.de(),
        Operand::HL => s.hl(),
        _ => s.sp,
    }
}

/// The state with a 16-bit register set.
pub open spec fn with_reg16(s: CpuView, operand: Operand, value: u16) -> CpuView {
    match operand {
        Operand::BC => s.with_bc(value),
        Operand::DE => s.with_de(value),
        Operand::HL => s.with_hl(value),
        _ => CpuView { sp: value, ..s },
    }
}

/// The state with a byte written to memory.
pub open spec fn with_cell(s: CpuView, address: u16, value: u8) -> CpuView {
    CpuView { bus: s.bus.write(address, value), ..s }
}

/// The start of every instruction that works on A with a second operand:
/// the widths must agree, the first operand must be A, and the second must
/// resolve. Yields the second operand's value and the state after
/// resolving it.
pub open spec fn operand_for_a(s: CpuView, op1: Operand, op2: Operand) -> (
    CpuView,
    Result<int, Fault>,
) {
    if op1.size() != op2.size() {
        (s, Err(Fault::WidthMismatch(op1, op2)))
    } else if op1 != Operand::A {
        (s, Err(Fault::UnsupportedOperand(op1)))
    } else {
        let (value, t) = resolve(s, op2);
        match value {
            Some(v) => (t, Ok(v)),
            None => (t, Err(Fault::AccessFault(op2))),
        }
    }
}

/// `ADD` into A: the sum modulo 256; zero from the result, half-carry from
/// the low nibbles, carry where the sum passes `0xFF`, subtract cleared.
pub open spec fn add_to_a(s: CpuView, value: int) -> CpuView {
    let sum = s.a + value;
    CpuView { a: wrap8(sum), ..s }.with_flags(
        Flags {
            zero: wrap8(sum) == 0,
            subtract: false,
            half_carry: nibble_carries(s.a as int, value),
            carry: sum > 0xFF,
        },
    )
}

/// `ADD` into HL: the sum modulo 65536; half-carry from the low 12 bits,
/// carry where the sum passes `0xFFFF`, subtract cleared, zero untouched.
pub open spec fn add_to_hl(s: CpuView, value: int) -> CpuView {
    let sum = s.hl() + value;
    s.with_hl(wrap16(sum)).with_flags(
        Flags {
            zero: s.flags().zero,
            subtract: false,
            half_carry: crumb_carries(s.hl() as int, value),
            carry: sum > 0xFFFF,
        },
    )
}

/// `ADD` into SP: as into HL, but the zero flag is cleared.
pub open spec fn add_to_sp(s: CpuView, value: int) -> CpuView {
    let sum = s.sp + value;
    CpuView { sp: wrap16(sum), ..s }.with_flags(
        Flags {
            zero: false,
            subtract: false,
            half_carry: crumb_carries(s.sp as int, value),
            carry: sum > 0xFFFF,
        },
    )
}

/// `ADD`: into A, HL or SP.
pub open spec fn add_op(s: CpuView, op1: Operand, op2: Operand) -> (CpuView, Result<(), Fault>) {
    if op1.size() != op2.size() {
        (s, Err(Fault::WidthMismatch(op1, op2)))
    } else if op1 != Operand::A && op1 != Operand::HL && op1 != Operand::SP {
        (s, Err(Fault::UnsupportedOperand(op1)))
    } else {
        let (value, t) = resolve(s, op2);
        match value {
            None => (t, Err(Fault::AccessFault(op2))),
            Some(v) => (
                if op1 == Operand::A {
                    add_to_a(t, v)
                } else if op1 == Operand::HL {
                    add_to_hl(t, v)
                } else {
                    add_to_sp(t, v)
                },
                Ok(()),
            ),
        }
    }
}

/// `ADC`: the operand goes up by one where the carry flag is set, and is
/// then added to A by the rules of `ADD`: zero and carry are those of the
/// sum, the half-carry that of the low nibbles of A and the operand.
pub open spec fn adc_to_a(s: CpuView, value: int) -> CpuView {
    let operand = value + (if s.flags().carry { 1int } else { 0int });
    let sum = s.a + operand;
    CpuView { a: wrap8(sum), ..s }.with_flags(
        Flags {
            zero: wrap8(sum) == 0,
            subtract: false,
            half_carry: nibble_carries(s.a as int, operand),
            carry: sum > 0xFF,
        },
    )
}

/// `ADC` into A.
pub open spec fn adc_op(s: CpuView, op1: Operand, op2: Operand) -> (CpuView, Result<(), Fault>) {
    let (t, value) = operand_for_a(s, op1, op2);
    match value {
        Ok(v) => (adc_to_a(t, v), Ok(())),
        Err(fault) => (t, Err(fault)),
    }
}

/// The flags of a comparison of A with `value`: subtract set, half-carry
/// where the operand's low nibble exceeds that of A, zero where A itself
/// is zero, carry untouched. The difference is not stored.
pub open spec fn compare_with_a(s: CpuView, value: int) -> CpuView {
    s.with_flags(
        Flags {
            zero: s.a == 0,
            subtract: true,
            half_carry: nibble_borrows(s.a as int, value),
            carry: s.flags().carry,
        },
    )
}

/// `CP`: the flags of `compare_with_a`, and the difference modulo 256 as
/// the result; A keeps its value.
pub open spec fn cp_op(s: CpuView, op1: Operand, op2: Operand) -> (CpuView, Result<u8, Fault>) {
    let (t, value) = operand_for_a(s, op1, op2);
    match value {
        Ok(v) => (compare_with_a(t, v), Ok(wrap8(t.a - v))),
        Err(fault) => (t, Err(fault)),
    }
}

/// `SUB`: a comparison whose difference is stored in A.
pub open spec fn sub_op(s: CpuView, op1: Operand, op2: Operand) -> (CpuView, Result<(), Fault>) {
    let (t, difference) = cp_op(s, op1, op2);
    match difference {
        Ok(d) => (CpuView { a: d, ..t }, Ok(())),
        Err(fault) => (t, Err(fault)),
    }
}

/// `SBC`: the operand goes up by one where the carry flag is set, and is
/// then taken from A. Zero is that of the difference, subtract is set,
/// carry is cleared unless the difference passes `0xFF`, and the
/// half-carry is set where the operand's low nibble exceeds that of A.
pub open spec fn sbc_from_a(s: CpuView, value: int) -> CpuView {
    let operand = value + (if s.flags().carry { 1int } else { 0int });
    let difference = s.a - operand;
    CpuView { a: wrap8(difference), ..s }.with_flags(
        Flags {
            zero: wrap8(difference) == 0,
            subtract: true,
            half_carry: nibble_borrows(s.a as int, operand),
            carry: difference > 0xFF,
        },
    )
}

/// `SBC` from A.
pub open spec fn sbc_op(s: CpuView, op1: Operand, op2: Operand) -> (CpuView, Result<(), Fault>) {
    let (t, value) = operand_for_a(s, op1, op2);
    match value {
        Ok(v) => (sbc_from_a(t, v), Ok(())),
        Err(fault) => (t, Err(fault)),
    }
}

/// The flags after a bitwise operation has left `result` in A: zero from
/// the result, subtract and carry cleared, half-carry as the operation
/// has it.
pub open spec fn logic_into_a(s: CpuView, result: u8, half_carry: bool) -> CpuView {
    CpuView { a: result, ..s }.with_flags(
        Flags { zero: result == 0, subtract: false, half_carry, carry: false },
    )
}

/// `AND` into A; the half-carry flag is set.
pub open spec fn and_op(s: CpuView, op1: Operand, op2: Operand) -> (CpuView, Result<(), Fault>) {
    let (t, value) = operand_for_a(s, op1, op2);
    match value {
        Ok(v) => (logic_into_a(t, t.a & wrap8(v), true), Ok(())),
        Err(fault) => (t, Err(fault)),
    }
}

/// `OR` into A; the half-carry flag is cleared.
pub open spec fn or_op(s: CpuView, op1: Operand, op2: Operand) -> (CpuView, Result<(), Fault>) {
    let (t, value) = operand_for_a(s, op1, op2);
    match value {
        Ok(v) => (logic_into_a(t, t.a | wrap8(v), false), Ok(())),
        Err(fault) => (t, Err(fault)),
    }
}

/// `XOR` into A; the half-carry flag is cleared.
pub open spec fn xor_op(s: CpuView, op1: Operand, op2: Operand) -> (CpuView, Result<(), Fault>) {
    let (t, value) = operand_for_a(s, op1, op2);
    match value {
        Ok(v) => (logic_into_a(t, t.a ^ wrap8(v), false), Ok(())),
        Err(fault) => (t, Err(fault)),
    }
}

/// The flags after an 8-bit increment of `before`: zero from the new
/// value, subtract cleared, half-carry where the low nibble was `0xF`,
/// carry untouched.
pub open spec fn inc_flags(s: CpuView, before: u8) -> Flags {
    Flags {
        zero: wrap8(before + 1) == 0,
        subtract: false,
        half_carry: before % 16 == 15,
        carry: s.flags().carry,
    }
}

/// `INC`: an 8-bit register or the cell at HL goes up by one modulo 256,
/// with the flags of `inc_flags`; a 16-bit register goes up by one modulo
/// 65536 and leaves the flags alone.
pub open spec fn inc_op(s: CpuView, op: Operand) -> (CpuView, Result<(), Fault>) {
    if is_reg8(op) {
        let before = reg8(s, op);
        (with_reg8(s, op, wrap8(before + 1)).with_flags(inc_flags(s, before)), Ok(()))
    } else if is_reg16(op) {
        (with_reg16(s, op, wrap16(reg16(s, op) + 1)), Ok(()))
    } else if op == Operand::iHL {
        match s.bus.read(s.hl()) {
            Some(before) => (
                with_cell(s, s.hl(), wrap8(before + 1)).with_flags(inc_flags(s, before)),
                Ok(()),
            ),
            None => (s, Err(Fault::AccessFault(op))),
        }
    } else {
        (s, Err(Fault::UnsupportedOperand(op)))
    }
}

/// The flags after an 8-bit decrement of `before`: zero from the new
/// value, subtract set, half-carry where the low nibble was zero, carry
/// untouched.
pub open spec fn dec_flags(s: CpuView, before: u8) -> Flags {
    Flags {
        zero: wrap8(before - 1) == 0,
        subtract: true,
        half_carry: before % 16 == 0,
        carry: s.flags().carry,
    }
}

/// `DEC`: an 8-bit register or the cell at HL goes down by one modulo
/// 256, with the flags of `dec_flags`; a 16-bit register goes down by one
/// modulo 65536 and leaves the flags alone.
pub open spec fn dec_op(s: CpuView, op: Operand) -> (CpuView, Result<(), Fault>) {
    if is_reg8(op) {
        let before = reg8(s, op);
        (with_reg8(s, op, wrap8(before - 1)).with_flags(dec_flags(s, before)), Ok(()))
    } else if is_reg16(op) {
        (with_reg16(s, op, wrap16(reg16(s, op) - 1)), Ok(()))
    } else if op == Operand::iHL {
        match s.bus.read(s.hl()) {
            Some(before) => (
                with_cell(s, s.hl(), wrap8(before - 1)).with_flags(dec_flags(s, before)),
                Ok(()),
            ),
            None => (s, Err(Fault::AccessFault(op))),
        }
    } else {
        (s, Err(Fault::UnsupportedOperand(op)))
    }
}

/// Whether `LD` takes an operand as its destination through memory.
pub open spec fn is_store_target(operand: Operand) -> bool {
    operand == Operand::iBC || operand == Operand::iDE || operand == Operand::iHL || operand
        == Operand::iHLPLUS || operand == Operand::iHLMINUS
}

/// The address that a store through `operand` writes to.
pub open spec fn store_address(s: CpuView, operand: Operand) -> u16 {
    match operand {
        Operand::iBC => s.bc(),
        Operand::iDE => s.de(),
        _ => s.hl(),
    }
}

/// The state after `value` has been stored through `operand`: the cell is
/// written, and the two stepping forms then move HL.
pub open spec fn store(s: CpuView, operand: Operand, value: u8) -> CpuView {
    let written = with_cell(s, store_address(s, operand), value);
    if operand == Operand::iHLPLUS {
        written.with_hl(next(s.hl()))
    } else if operand == Operand::iHLMINUS {
        written.with_hl(prev(s.hl()))
    } else {
        written
    }
}

/// `LD`: the value of the second operand goes to the first, a register or
/// a cell of memory. No flag changes.
pub open spec fn ld_op(s: CpuView, op1: Operand, op2: Operand) -> (CpuView, Result<(), Fault>) {
    if op1.size() != op2.size() {
        (s, Err(Fault::WidthMismatch(op1, op2)))
    } else if !is_reg8(op1) && !is_reg16(op1) && !is_store_target(op1) {
        (s, Err(Fault::UnsupportedOperand(op1)))
    } else {
        let (value, t) = resolve(s, op2);
        match value {
            None => (t, Err(Fault::AccessFault(op2))),
            Some(v) => if is_reg8(op1) {
                (with_reg8(t, op1, wrap8(v)), Ok(()))
            } else if is_reg16(op1) {
                (with_reg16(t, op1, wrap16(v)), Ok(()))
            } else if t.bus.holds(store_address(t, op1)) {
                (store(t, op1, wrap8(v)), Ok(()))
            } else {
                (t, Err(Fault::WriteFault(store_address(t, op1))))
            },
        }
    }
}

/// Whether the engine has a handler for an instruction.
pub open spec fn has_handler(instruction: Instruction) -> bool {
    match instruction {
        Instruction::NOP
        | Instruction::LD(_, _)
        | Instruction::INC(_)
        | Instruction::DEC(_)
        | Instruction::ADD(_, _)
        | Instruction::ADC(_, _)
        | Instruction::SUB(_, _)
        | Instruction::SBC(_, _)
        | Instruction::AND(_, _)
        | Instruction::XOR(_, _)
        | Instruction::OR(_, _)
        | Instruction::CP(_, _) => true,
        _ => false,
    }
}

/// What an instruction does to the state. `opcode` is the byte it was
/// decoded from, reported where the instruction has no handler.
pub open spec fn execute(s: CpuView, instruction: Instruction, opcode: u8) -> (
    CpuView,
    Result<(), Fault>,
) {
    match instruction {
        Instruction::NOP => (s, Ok(())),
        Instruction::ADD(op1, op2) => add_op(s, op1, op2),
        Instruction::ADC(op1, op2) => adc_op(s, op1, op2),
        Instruction::SUB(op1, op2) => sub_op(s, op1, op2),
        Instruction::SBC(op1, op2) => sbc_op(s, op1, op2),
        Instruction::AND(op1, op2) => and_op(s, op1, op2),
        Instruction::XOR(op1, op2) => xor_op(s, op1, op2),
        Instruction::OR(op1, op2) => or_op(s, op1, op2),
        Instruction::CP(op1, op2) => {
            let (t, difference) = cp_op(s, op1, op2);
            (
                t,
                match difference {
                    Ok(_) => Ok(()),
                    Err(fault) => Err(fault),
                },
            )
        },
        Instruction::INC(op) => inc_op(s, op),
        Instruction::DEC(op) => dec_op(s, op),
        Instruction::LD(op1, op2) => ld_op(s, op1, op2),
        _ => (s, Err(Fault::UnsupportedInstruction(opcode))),
    }
}

/// One turn of the engine: fetch a byte, look it up, execute the
/// instruction, add its cost to the cycle count.
pub open spec fn step(s: CpuView) -> (CpuView, Status) {
    let (byte, t) = fetch(s);
    match byte {
        None => (t, Status::Finished),
        Some(opcode) => match table_entry(opcode) {
            None => (t, Status::Halted(Fault::UnknownOpcode(opcode))),
            Some((instruction, cost)) => {
                let (u, outcome) = execute(t, instruction, opcode);
                match outcome {
                    Err(fault) => (u, Status::Halted(fault)),
                    Ok(_) => if u.cycles + cost > u64::MAX {
                        (u, Status::Halted(Fault::CycleOverflow))
                    } else {
                        (CpuView { cycles: (u.cycles + cost) as u64, ..u }, Status::Running)
                    },
                }
            },
        },
    }
}

/// Steps until one of them does not leave the engine running, or until
/// the program counter has come round past the top of the address space,
/// where the instruction stream ends.
pub open spec fn run(s: CpuView) -> (CpuView, Status)
    decreases 0x10000 - s.pc,
{
    let (t, status) = step(s);
    if status != Status::Running {
        (t, status)
    } else if t.pc > s.pc {
        run(t)
    } else {
        (t, Status::Finished)
    }
}

/// A byte that the table has no entry for stops the engine for good, and
/// the fault names the byte. Nothing but the program counter has moved.
pub proof fn lemma_unknown_opcode_halts(s: CpuView, opcode: u8)
    requires
        s.bus.read(s.pc) == Some(opcode),
        table_entry(opcode).is_none(),
    ensures
        step(s) == (CpuView { pc: next(s.pc), ..s }, Status::Halted(Fault::UnknownOpcode(opcode))),
        run(s) == step(s),
{
}

/// An instruction that the engine has no handler for stops it for good,
/// and the fault names the opcode. Nothing but the program counter has
/// moved.
pub proof fn lemma_unsupported_instruction_halts(s: CpuView, opcode: u8)
    requires
        s.bus.read(s.pc) == Some(opcode),
        table_entry(opcode).is_some(),
        !has_handler(table_entry(opcode).unwrap().0),
    ensures
        step(s) == (
            CpuView { pc: next(s.pc), ..s },
            Status::Halted(Fault::UnsupportedInstruction(opcode)),
        ),
        run(s) == step(s),
{
}

/// Where no byte is to be had at the program counter, the run ends at
/// once and without a fault.
pub proof fn lemma_exhausted_stream_finishes(s: CpuView)
    requires
        s.bus.read(s.pc).is_none(),
    ensures
        step(s) == (CpuView { pc: next(s.pc), ..s }, Status::Finished),
        run(s) == step(s),
{
}

/// A run never ends with the engine still running.
pub proof fn lemma_run_ends(s: CpuView)
    ensures
        run(s).1 != Status::Running,
    decreases 0x10000 - s.pc,
{
    let (t, status) = step(s);
    if status == Status::Running && t.pc > s.pc {
        lemma_run_ends(t);
    }
}

/// Operands of different widths stop every instruction of two operands
/// before it has done anything.
pub proof fn lemma_width_mismatch(s: CpuView, op1: Operand, op2: Operand)
    requires
        op1.size() != op2.size(),
    ensures
        add_op(s, op1, op2) == (s, Err::<(), Fault>(Fault::WidthMismatch(op1, op2))),
        adc_op(s, op1, op2) == (s, Err::<(), Fault>(Fault::WidthMismatch(op1, op2))),
        sub_op(s, op1, op2) == (s, Err::<(), Fault>(Fault::WidthMismatch(op1, op2))),
        sbc_op(s, op1, op2) == (s, Err::<(), Fault>(Fault::WidthMismatch(op1, op2))),
        and_op(s, op1, op2) == (s, Err::<(), Fault>(Fault::WidthMismatch(op1, op2))),
        xor_op(s, op1, op2) == (s, Err::<(), Fault>(Fault::WidthMismatch(op1, op2))),
        or_op(s, op1, op2) == (s, Err::<(), Fault>(Fault::WidthMismatch(op1, op2))),
        cp_op(s, op1, op2) == (s, Err::<u8, Fault>(Fault::WidthMismatch(op1, op2))),
        ld_op(s, op1, op2) == (s, Err::<(), Fault>(Fault::WidthMismatch(op1, op2))),
{
}

/// `LD` changes no flag, whatever its operands and however it ends.
pub proof fn lemma_ld_keeps_flags(s: CpuView, op1: Operand, op2: Operand)
    ensures
        ld_op(s, op1, op2).0.f == s.f,
{
    lemma_resolve_frame(s, op2);
}

/// `INC` and `DEC` never change the carry flag, and on a 16-bit register
/// they change no flag at all.
pub proof fn lemma_inc_dec_keep_carry(s: CpuView, op: Operand)
    ensures
        inc_op(s, op).0.flags().carry == s.flags().carry,
        dec_op(s, op).0.flags().carry == s.flags().carry,
        is_reg16(op) ==> inc_op(s, op).0.f == s.f,
        is_reg16(op) ==> dec_op(s, op).0.f == s.f,
{
    lemma_flags_updates();
}

/// With the carry flag clear, `ADC` does what `ADD` into A does.
pub proof fn lemma_adc_without_carry_is_add(s: CpuView, op2: Operand)
    requires
        !s.flags().carry,
    ensures
        adc_op(s, Operand::A, op2) == add_op(s, Operand::A, op2),
{
    lemma_resolve_frame(s, op2);
}

/// `CP` leaves A as it is; `SUB` leaves in A what `CP` hands back, and the
/// flags of the two are the same.
pub proof fn lemma_cp_keeps_a(s: CpuView, op2: Operand)
    ensures
        cp_op(s, Operand::A, op2).0.a == s.a,
        cp_op(s, Operand::A, op2).1.is_ok() ==> sub_op(s, Operand::A, op2).0.a == cp_op(
            s,
            Operand::A,
            op2,
        ).1.unwrap(),
        sub_op(s, Operand::A, op2).0.f == cp_op(s, Operand::A, op2).0.f,
{
    lemma_resolve_frame(s, op2);
}

/// Whatever an instruction does, the low nibble of the flags register
/// stays zero and the banks keep their shape.
pub proof fn lemma_execute_preserves_wf(s: CpuView, instruction: Instruction, opcode: u8)
    requires
        s.wf(),
    ensures
        execute(s, instruction, opcode).0.wf(),
{
    lemma_flags_updates();
    match instruction {
        Instruction::ADD(op1, op2) => {
            lemma_resolve_frame(s, op2);
        },
        Instruction::ADC(op1, op2) => {
            lemma_resolve_frame(s, op2);
        },
        Instruction::SUB(op1, op2) => {
            lemma_resolve_frame(s, op2);
        },
        Instruction::SBC(op1, op2) => {
            lemma_resolve_frame(s, op2);
        },
        Instruction::AND(op1, op2) => {
            lemma_resolve_frame(s, op2);
        },
        Instruction::XOR(op1, op2) => {
            lemma_resolve_frame(s, op2);
        },
        Instruction::OR(op1, op2) => {
            lemma_resolve_frame(s, op2);
        },
        Instruction::CP(op1, op2) => {
            lemma_resolve_frame(s, op2);
        },
        Instruction::LD(op1, op2) => {
            lemma_resolve_frame(s, op2);
            let t = resolve(s, op2).1;
            if t.bus.holds(store_address(t, op1)) && resolve(s, op2).0.is_some() {
                lemma_write_read(
                    t.bus,
                    store_address(t, op1),
                    wrap8(resolve(s, op2).0.unwrap()),
                    0,
                );
            }
        },
        Instruction::INC(op) => {
            if s.bus.read(s.hl()).is_some() {
                lemma_read_total(s.bus, s.hl());
                lemma_write_read(s.bus, s.hl(), wrap8(s.bus.read(s.hl()).unwrap() + 1), 0);
            }
        },
        Instruction::DEC(op) => {
            if s.bus.read(s.hl()).is_some() {
                lemma_read_total(s.bus, s.hl());
                lemma_write_read(s.bus, s.hl(), wrap8(s.bus.read(s.hl()).unwrap() - 1), 0);
            }
        },
        _ => {},
    }
}

/// A step and a run keep the low nibble of the flags register zero and
/// the banks in shape.
pub proof fn lemma_run_preserves_wf(s: CpuView)
    requires
        s.wf(),
    ensures
        step(s).0.wf(),
        run(s).0.wf(),
    decreases 0x10000 - s.pc,
{
    let (byte, fetched) = fetch(s);
    if byte.is_some() && table_entry(byte.unwrap()).is_some() {
        lemma_execute_preserves_wf(fetched, table_entry(byte.unwrap()).unwrap().0, byte.unwrap());
    }
    let (t, status) = step(s);
    if status == Status::Running && t.pc > s.pc {
        lemma_run_preserves_wf(t);
    }
}

} // verus!
