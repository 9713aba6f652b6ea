//! Operands, instructions, and the table that says which instruction with
//! which operands, at what cost, an opcode byte stands for.

use crate::opcode;
use vstd::prelude::*;

verus! {

/// An addressing mode: where an instruction finds a value or puts one.
#[allow(non_camel_case_types)]
#[derive(Clone, Copy, Debug, PartialEq, Eq, Structural)]
pub enum Operand {
    /// The 8-bit registers.
    A,
    B,
    C,
    D,
    E,
    H,
    L,
    /// The 16-bit registers and register pairs.
    AF,
    BC,
    DE,
    HL,
    SP,
    PC,
    /// A 16-bit immediate, low byte first in the instruction stream.
    N16,
    /// An 8-bit immediate.
    N8,
    /// A signed 8-bit immediate.
    E8,
    /// The stack pointer plus a signed 8-bit immediate.
    SP_PLUS_E8,
    /// The byte at a 16-bit immediate address.
    A16,
    /// The byte at `0xFF00` plus an 8-bit immediate.
    A8,
    /// The byte at `0xFF00` plus register C.
    iC,
    /// The byte at the address held in a register pair.
    iBC,
    iDE,
    iHL,
    /// The byte at the address in HL, after which HL goes up by one.
    iHLPLUS,
    /// The byte at the address in HL, after which HL goes down by one.
    iHLMINUS,
}

impl Operand {
    /// Width in bytes of the value an operand stands for. A signed offset
    /// counts as wide: it is extended to the 16-bit value it is added to.
    pub open spec fn size(self) -> nat {
        match self {
            Operand::A | Operand::B | Operand::C | Operand::D | Operand::E | Operand::H
            | Operand::L => 1,
            Operand::AF | Operand::BC | Operand::DE | Operand::HL | Operand::SP | Operand::PC => 2,
            Operand::N16 => 2,
            Operand::N8 => 1,
            Operand::E8 => 2,
            Operand::SP_PLUS_E8 => 2,
            Operand::A16 | Operand::A8 => 1,
            Operand::iC | Operand::iBC | Operand::iDE | Operand::iHL | Operand::iHLPLUS
            | Operand::iHLMINUS => 1,
        }
    }

    /// Width in bytes of the value the operand stands for: 1 or 2.
    pub fn get_operand_size(&self) -> (size: usize)
        ensures
            size == self.size(),
            size == 1 || size == 2,
    {
        match self {
            Operand::A | Operand::B | Operand::C | Operand::D | Operand::E | Operand::H
            | Operand::L => 1,
            Operand::AF | Operand::BC | Operand::DE | Operand::HL | Operand::SP | Operand::PC => 2,
            Operand::N16 | Operand::E8 | Operand::SP_PLUS_E8 => 2,
            Operand::N8 | Operand::A16 | Operand::A8 => 1,
            Operand::iC | Operand::iBC | Operand::iDE | Operand::iHL | Operand::iHLPLUS
            | Operand::iHLMINUS => 1,
        }
    }
}

/// An instruction: a mnemonic with the operands it works on. Of the
/// control-flow and stack mnemonics the table names no more than the
/// mnemonic, or the register pair.
#[derive(Clone, Copy, Debug, PartialEq, Eq, Structural)]
pub enum Instruction {
    NOP,
    LD(Operand, Operand),
    INC(Operand),
    DEC(Operand),
    ADD(Operand, Operand),
    ADC(Operand, Operand),
    SUB(Operand, Operand),
    SBC(Operand, Operand),
    AND(Operand, Operand),
    XOR(Operand, Operand),
    OR(Operand, Operand),
    CP(Operand, Operand),
    PUSH(Operand),
    POP(Operand),
    JP,
    JR,
    CALL,
    RET,
    RETI,
    RST,
    HALT,
    STOP,
    DI,
    EI,
    RLCA,
    RRCA,
    RLA,
    RRA,
    DAA,
    CPL,
    SCF,
    CCF,
    PREFIX,
}

/// The 8-bit operand that a 3-bit field of an opcode selects.
pub open spec fn field_r8(index: int) -> Operand {
    if index == 0 {
        Operand::B
    } else if index == 1 {
        Operand::C
    } else if index == 2 {
        Operand::D
    } else if index == 3 {
        Operand::E
    } else if index == 4 {
        Operand::H
    } else if index == 5 {
        Operand::L
    } else if index == 6 {
        Operand::iHL
    } else {
        Operand::A
    }
}

/// The 16-bit register that a 2-bit field of an opcode selects.
pub open spec fn field_r16(index: int) -> Operand {
    if index == 0 {
        Operand::BC
    } else if index == 1 {
        Operand::DE
    } else if index == 2 {
        Operand::HL
    } else {
        Operand::SP
    }
}

/// The register pair that a 2-bit field of a stack opcode selects.
pub open spec fn field_r16_stack(index: int) -> Operand {
    if index == 0 {
        Operand::BC
    } else if index == 1 {
        Operand::DE
    } else if index == 2 {
        Operand::HL
    } else {
        Operand::AF
    }
}

/// The indirect operand that a 2-bit field of an opcode selects.
pub open spec fn field_indirect(index: int) -> Operand {
    if index == 0 {
        Operand::iBC
    } else if index == 1 {
        Operand::iDE
    } else if index == 2 {
        Operand::iHLPLUS
    } else {
        Operand::iHLMINUS
    }
}

/// The arithmetic or logic instruction on A that a 3-bit field selects.
pub open spec fn field_alu(index: int, source: Operand) -> Instruction {
    if index == 0 {
        Instruction::ADD(Operand::A, source)
    } else if index == 1 {
        Instruction::ADC(Operand::A, source)
    } else if index == 2 {
        Instruction::SUB(Operand::A, source)
    } else if index == 3 {
        Instruction::SBC(Operand::A, source)
    } else if index == 4 {
        Instruction::AND(Operand::A, source)
    } else if index == 5 {
        Instruction::XOR(Operand::A, source)
    } else if index == 6 {
        Instruction::OR(Operand::A, source)
    } else {
        Instruction::CP(Operand::A, source)
    }
}

/// The operation without operands that a 3-bit field selects.
pub open spec fn field_accumulator_op(index: int) -> Instruction {
    if index == 0 {
        Instruction::RLCA
    } else if index == 1 {
        Instruction::RRCA
    } else if index == 2 {
        Instruction::RLA
    } else if index == 3 {
        Instruction::RRA
    } else if index == 4 {
        Instruction::DAA
    } else if index == 5 {
        Instruction::CPL
    } else if index == 6 {
        Instruction::SCF
    } else {
        Instruction::CCF
    }
}

/// The opcodes below `0x40`, by the fields `y` (bits 3 to 5) and `z` (bits
/// 0 to 2): loads of immediates, 16-bit arithmetic, increments, decrements.
pub open spec fn low_quarter(y: int, z: int) -> Option<(Instruction, u64)> {
    let p = y / 2;
    let even = y % 2 == 0;
    if z == 0 {
        if y == 0 {
            Some((Instruction::NOP, 4))
        } else if y == 1 {
            Some((Instruction::LD(Operand::A16, Operand::SP), 20))
        } else if y == 2 {
            Some((Instruction::STOP, 4))
        } else if y == 3 {
            Some((Instruction::JR, 12))
        } else {
            Some((Instruction::JR, 8))
        }
    } else if z == 1 {
        if even {
            Some((Instruction::LD(field_r16(p), Operand::N16), 12))
        } else {
            Some((Instruction::ADD(Operand::HL, field_r16(p)), 8))
        }
    } else if z == 2 {
        if even {
            Some((Instruction::LD(field_indirect(p), Operand::A), 8))
        } else {
            Some((Instruction::LD(Operand::A, field_indirect(p)), 8))
        }
    } else if z == 3 {
        if even {
            Some((Instruction::INC(field_r16(p)), 8))
        } else {
            Some((Instruction::DEC(field_r16(p)), 8))
        }
    } else if z == 4 {
        Some((Instruction::INC(field_r8(y)), if y == 6 { 12 } else { 4 }))
    } else if z == 5 {
        Some((Instruction::DEC(field_r8(y)), if y == 6 { 12 } else { 4 }))
    } else if z == 6 {
        Some((Instruction::LD(field_r8(y), Operand::N8), if y == 6 { 12 } else { 8 }))
    } else {
        Some((field_accumulator_op(y), 4))
    }
}

/// The opcodes from `0xC0` up, by the fields `y` and `z`: control flow,
/// the stack, arithmetic on immediates, loads through the high page.
pub open spec fn high_quarter(y: int, z: int) -> Option<(Instruction, u64)> {
    let p = y / 2;
    let even = y % 2 == 0;
    if z == 0 {
        if y < 4 {
            Some((Instruction::RET, 8))
        } else if y == 4 {
            Some((Instruction::LD(Operand::A8, Operand::A), 12))
        } else if y == 5 {
            Some((Instruction::ADD(Operand::SP, Operand::E8), 16))
        } else if y == 6 {
            Some((Instruction::LD(Operand::A, Operand::A8), 12))
        } else {
            Some((Instruction::LD(Operand::HL, Operand::SP_PLUS_E8), 12))
        }
    } else if z == 1 {
        if even {
            Some((Instruction::POP(field_r16_stack(p)), 12))
        } else if p == 0 {
            Some((Instruction::RET, 16))
        } else if p == 1 {
            Some((Instruction::RETI, 16))
        } else if p == 2 {
            Some((Instruction::JP, 4))
        } else {
            Some((Instruction::LD(Operand::SP, Operand::HL), 8))
        }
    } else if z == 2 {
        if y < 4 {
            Some((Instruction::JP, 12))
        } else if y == 4 {
            Some((Instruction::LD(Operand::iC, Operand::A), 8))
        } else if y == 5 {
            Some((Instruction::LD(Operand::A16, Operand::A), 16))
        } else if y == 6 {
            Some((Instruction::LD(Operand::A, Operand::iC), 8))
        } else {
            Some((Instruction::LD(Operand::A, Operand::A16), 16))
        }
    } else if z == 3 {
        if y == 0 {
            Some((Instruction::JP, 16))
        } else if y == 1 {
            Some((Instruction::PREFIX, 4))
        } else if y == 6 {
            Some((Instruction::DI, 4))
        } else if y == 7 {
            Some((Instruction::EI, 4))
        } else {
            None
        }
    } else if z == 4 {
        if y < 4 {
            Some((Instruction::CALL, 12))
        } else {
            None
        }
    } else if z == 5 {
        if even {
            Some((Instruction::PUSH(field_r16_stack(p)), 16))
        } else if p == 0 {
            Some((Instruction::CALL, 24))
        } else {
            None
        }
    } else if z == 6 {
        Some((field_alu(y, Operand::N8), 8))
    } else {
        Some((Instruction::RST, 16))
    }
}

/// The opcode table: the instruction an opcode byte stands for and its
/// cost in clock cycles, or nothing for a byte that encodes no instruction.
///
/// Bits 6 and 7 split the bytes into four quarters. The second holds the
/// register-to-register loads (and `HALT` where source and destination
/// would both be the cell at HL), the third the arithmetic and logic of A
/// with a register; an access to the cell at HL costs 4 cycles more.
pub open spec fn table_entry(opcode: u8) -> Option<(Instruction, u64)> {
    let y = (opcode / 8) % 8;
    let z = opcode % 8;
    if opcode < 0x40 {
        low_quarter(y as int, z as int)
    } else if opcode < 0x80 {
        if y == 6 && z == 6 {
            Some((Instruction::HALT, 4))
        } else {
            Some(
                (
                    Instruction::LD(field_r8(y as int), field_r8(z as int)),
                    if y == 6 || z == 6 { 8 } else { 4 },
                ),
            )
        }
    } else if opcode < 0xC0 {
        Some((field_alu(y as int, field_r8(z as int)), if z == 6 { 8 } else { 4 }))
    } else {
        high_quarter(y as int, z as int)
    }
}

/// Looks an opcode byte up in the table.
pub fn get_instruction_specs_from_code(code: u8) -> (entry: Option<(Instruction, u64)>)
    ensures
        entry == table_entry(code),
{
    match code {
        opcode::NOP => Some((Instruction::NOP, 4)),
        opcode::LD_BC_N16 => Some((Instruction::LD(Operand::BC, Operand::N16), 12)),
        opcode::LD_iBC_A => Some((Instruction::LD(Operand::iBC, Operand::A), 8)),
        opcode::INC_BC => Some((Instruction::INC(Operand::BC), 8)),
        opcode::INC_B => Some((Instruction::INC(Operand::B), 4)),
        opcode::DEC_B => Some((Instruction::DEC(Operand::B), 4)),
        opcode::LD_B_N8 => Some((Instruction::LD(Operand::B, Operand::N8), 8)),
        opcode::RLCA => Some((Instruction::RLCA, 4)),
        opcode::LD_A16_SP => Some((Instruction::LD(Operand::A16, Operand::SP), 20)),
        opcode::ADD_HL_BC => Some((Instruction::ADD(Operand::HL, Operand::BC), 8)),
        opcode::LD_A_iBC => Some((Instruction::LD(Operand::A, Operand::iBC), 8)),
        opcode::DEC_BC => Some((Instruction::DEC(Operand::BC), 8)),
        opcode::INC_C => Some((Instruction::INC(Operand::C), 4)),
        opcode::DEC_C => Some((Instruction::DEC(Operand::C), 4)),
        opcode::LD_C_N8 => Some((Instruction::LD(Operand::C, Operand::N8), 8)),
        opcode::RRCA => Some((Instruction::RRCA, 4)),
        opcode::STOP => Some((Instruction::STOP, 4)),
        opcode::LD_DE_N16 => Some((Instruction::LD(Operand::DE, Operand::N16), 12)),
        opcode::LD_iDE_A => Some((Instruction::LD(Operand::iDE, Operand::A), 8)),
        opcode::INC_DE => Some((Instruction::INC(Operand::DE), 8)),
        opcode::INC_D => Some((Instruction::INC(Operand::D), 4)),
        opcode::DEC_D => Some((Instruction::DEC(Operand::D), 4)),
        opcode::LD_D_N8 => Some((Instruction::LD(Operand::D, Operand::N8), 8)),
        opcode::RLA => Some((Instruction::RLA, 4)),
        opcode::JR_E8 => Some((Instruction::JR, 12)),
        opcode::ADD_HL_DE => Some((Instruction::ADD(Operand::HL, Operand::DE), 8)),
        opcode::LD_A_iDE => Some((Instruction::LD(Operand::A, Operand::iDE), 8)),
        opcode::DEC_DE => Some((Instruction::DEC(Operand::DE), 8)),
        opcode::INC_E => Some((Instruction::INC(Operand::E), 4)),
        opcode::DEC_E => Some((Instruction::DEC(Operand::E), 4)),
        opcode::LD_E_N8 => Some((Instruction::LD(Operand::E, Operand::N8), 8)),
        opcode::RRA => Some((Instruction::RRA, 4)),
        opcode::JR_NZ_E8 => Some((Instruction::JR, 8)),
        opcode::LD_HL_N16 => Some((Instruction::LD(Operand::HL, Operand::N16), 12)),
        opcode::LD_iHLPLUS_A => Some((Instruction::LD(Operand::iHLPLUS, Operand::A), 8)),
        opcode::INC_HL => Some((Instruction::INC(Operand::HL), 8)),
        opcode::INC_H => Some((Instruction::INC(Operand::H), 4)),
        opcode::DEC_H => Some((Instruction::DEC(Operand::H), 4)),
        opcode::LD_H_N8 => Some((Instruction::LD(Operand::H, Operand::N8), 8)),
        opcode::DAA => Some((Instruction::DAA, 4)),
        opcode::JR_Z_E8 => Some((Instruction::JR, 8)),
        opcode::ADD_HL_HL => Some((Instruction::ADD(Operand::HL, Operand::HL), 8)),
        opcode::LD_A_iHLPLUS => Some((Instruction::LD(Operand::A, Operand::iHLPLUS), 8)),
        opcode::DEC_HL => Some((Instruction::DEC(Operand::HL), 8)),
        opcode::INC_L => Some((Instruction::INC(Operand::L), 4)),
        opcode::DEC_L => Some((Instruction::DEC(Operand::L), 4)),
        opcode::LD_L_N8 => Some((Instruction::LD(Operand::L, Operand::N8), 8)),
        opcode::CPL => Some((Instruction::CPL, 4)),
        opcode::JR_NC_E8 => Some((Instruction::JR, 8)),
        opcode::LD_SP_N16 => Some((Instruction::LD(Operand::SP, Operand::N16), 12)),
        opcode::LD_iHLMINUS_A => Some((Instruction::LD(Operand::iHLMINUS, Operand::A), 8)),
        opcode::INC_SP => Some((Instruction::INC(Operand::SP), 8)),
        opcode::INC_iHL => Some((Instruction::INC(Operand::iHL), 12)),
        opcode::DEC_iHL => Some((Instruction::DEC(Operand::iHL), 12)),
        opcode::LD_iHL_N8 => Some((Instruction::LD(Operand::iHL, Operand::N8), 12)),
        opcode::SCF => Some((Instruction::SCF, 4)),
        opcode::JR_C_E8 => Some((Instruction::JR, 8)),
        opcode::ADD_HL_SP => Some((Instruction::ADD(Operand::HL, Operand::SP), 8)),
        opcode::LD_A_iHLMINUS => Some((Instruction::LD(Operand::A, Operand::iHLMINUS), 8)),
        opcode::DEC_SP => Some((Instruction::DEC(Operand::SP), 8)),
        opcode::INC_A => Some((Instruction::INC(Operand::A), 4)),
        opcode::DEC_A => Some((Instruction::DEC(Operand::A), 4)),
        opcode::LD_A_N8 => Some((Instruction::LD(Operand::A, Operand::N8), 8)),
        opcode::CCF => Some((Instruction::CCF, 4)),
        opcode::LD_B_B => Some((Instruction::LD(Operand::B, Operand::B), 4)),
        opcode::LD_B_C => Some((Instruction::LD(Operand::B, Operand::C), 4)),
        opcode::LD_B_D => Some((Instruction::LD(Operand::B, Operand::D), 4)),
        opcode::LD_B_E => Some((Instruction::LD(Operand::B, Operand::E), 4)),
        opcode::LD_B_H => Some((Instruction::LD(Operand::B, Operand::H), 4)),
        opcode::LD_B_L => Some((Instruction::LD(Operand::B, Operand::L), 4)),
        opcode::LD_B_iHL => Some((Instruction::LD(Operand::B, Operand::iHL), 8)),
        opcode::LD_B_A => Some((Instruction::LD(Operand::B, Operand::A), 4)),
        opcode::LD_C_B => Some((Instruction::LD(Operand::C, Operand::B), 4)),
        opcode::LD_C_C => Some((Instruction::LD(Operand::C, Operand::C), 4)),
        opcode::LD_C_D => Some((Instruction::LD(Operand::C, Operand::D), 4)),
        opcode::LD_C_E => Some((Instruction::LD(Operand::C, Operand::E), 4)),
        opcode::LD_C_H => Some((Instruction::LD(Operand::C, Operand::H), 4)),
        opcode::LD_C_L => Some((Instruction::LD(Operand::C, Operand::L), 4)),
        opcode::LD_C_iHL => Some((Instruction::LD(Operand::C, Operand::iHL), 8)),
        opcode::LD_C_A => Some((Instruction::LD(Operand::C, Operand::A), 4)),
        opcode::LD_D_B => Some((Instruction::LD(Operand::D, Operand::B), 4)),
        opcode::LD_D_C => Some((Instruction::LD(Operand::D, Operand::C), 4)),
        opcode::LD_D_D => Some((Instruction::LD(Operand::D, Operand::D), 4)),
        opcode::LD_D_E => Some((Instruction::LD(Operand::D, Operand::E), 4)),
        opcode::LD_D_H => Some((Instruction::LD(Operand::D, Operand::H), 4)),
        opcode::LD_D_L => Some((Instruction::LD(Operand::D, Operand::L), 4)),
        opcode::LD_D_iHL => Some((Instruction::LD(Operand::D, Operand::iHL), 8)),
        opcode::LD_D_A => Some((Instruction::LD(Operand::D, Operand::A), 4)),
        opcode::LD_E_B => Some((Instruction::LD(Operand::E, Operand::B), 4)),
        opcode::LD_E_C => Some((Instruction::LD(Operand::E, Operand::C), 4)),
        opcode::LD_E_D => Some((Instruction::LD(Operand::E, Operand::D), 4)),
        opcode::LD_E_E => Some((Instruction::LD(Operand::E, Operand::E), 4)),
        opcode::LD_E_H => Some((Instruction::LD(Operand::E, Operand::H), 4)),
        opcode::LD_E_L => Some((Instruction::LD(Operand::E, Operand::L), 4)),
        opcode::LD_E_iHL => Some((Instruction::LD(Operand::E, Operand::iHL), 8)),
        opcode::LD_E_A => Some((Instruction::LD(Operand::E, Operand::A), 4)),
        opcode::LD_H_B => Some((Instruction::LD(Operand::H, Operand::B), 4)),
        opcode::LD_H_C => Some((Instruction::LD(Operand::H, Operand::C), 4)),
        opcode::LD_H_D => Some((Instruction::LD(Operand::H, Operand::D), 4)),
        opcode::LD_H_E => Some((Instruction::LD(Operand::H, Operand::E), 4)),
        opcode::LD_H_H => Some((Instruction::LD(Operand::H, Operand::H), 4)),
        opcode::LD_H_L => Some((Instruction::LD(Operand::H, Operand::L), 4)),
        opcode::LD_H_iHL => Some((Instruction::LD(Operand::H, Operand::iHL), 8)),
        opcode::LD_H_A => Some((Instruction::LD(Operand::H, Operand::A), 4)),
        opcode::LD_L_B => Some((Instruction::LD(Operand::L, Operand::B), 4)),
        opcode::LD_L_C => Some((Instruction::LD(Operand::L, Operand::C), 4)),
        opcode::LD_L_D => Some((Instruction::LD(Operand::L, Operand::D), 4)),
        opcode::LD_L_E => Some((Instruction::LD(Operand::L, Operand::E), 4)),
        opcode::LD_L_H => Some((Instruction::LD(Operand::L, Operand::H), 4)),
        opcode::LD_L_L => Some((Instruction::LD(Operand::L, Operand::L), 4)),
        opcode::LD_L_iHL => Some((Instruction::LD(Operand::L, Operand::iHL), 8)),
        opcode::LD_L_A => Some((Instruction::LD(Operand::L, Operand::A), 4)),
        opcode::LD_iHL_B => Some((Instruction::LD(Operand::iHL, Operand::B), 8)),
        opcode::LD_iHL_C => Some((Instruction::LD(Operand::iHL, Operand::C), 8)),
        opcode::LD_iHL_D => Some((Instruction::LD(Operand::iHL, Operand::D), 8)),
        opcode::LD_iHL_E => Some((Instruction::LD(Operand::iHL, Operand::E), 8)),
        opcode::LD_iHL_H => Some((Instruction::LD(Operand::iHL, Operand::H), 8)),
        opcode::LD_iHL_L => Some((Instruction::LD(Operand::iHL, Operand::L), 8)),
        opcode::HALT => Some((Instruction::HALT, 4)),
        opcode::LD_iHL_A => Some((Instruction::LD(Operand::iHL, Operand::A), 8)),
        opcode::LD_A_B => Some((Instruction::LD(Operand::A, Operand::B), 4)),
        opcode::LD_A_C => Some((Instruction::LD(Operand::A, Operand::C), 4)),
        opcode::LD_A_D => Some((Instruction::LD(Operand::A, Operand::D), 4)),
        opcode::LD_A_E => Some((Instruction::LD(Operand::A, Operand::E), 4)),
        opcode::LD_A_H => Some((Instruction::LD(Operand::A, Operand::H), 4)),
        opcode::LD_A_L => Some((Instruction::LD(Operand::A, Operand::L), 4)),
        opcode::LD_A_iHL => Some((Instruction::LD(Operand::A, Operand::iHL), 8)),
        opcode::LD_A_A => Some((Instruction::LD(Operand::A, Operand::A), 4)),
        opcode::ADD_A_B => Some((Instruction::ADD(Operand::A, Operand::B), 4)),
        opcode::ADD_A_C => Some((Instruction::ADD(Operand::A, Operand::C), 4)),
        opcode::ADD_A_D => Some((Instruction::ADD(Operand::A, Operand::D), 4)),
        opcode::ADD_A_E => Some((Instruction::ADD(Operand::A, Operand::E), 4)),
        opcode::ADD_A_H => Some((Instruction::ADD(Operand::A, Operand::H), 4)),
        opcode::ADD_A_L => Some((Instruction::ADD(Operand::A, Operand::L), 4)),
        opcode::ADD_A_iHL => Some((Instruction::ADD(Operand::A, Operand::iHL), 8)),
        opcode::ADD_A_A => Some((Instruction::ADD(Operand::A, Operand::A), 4)),
        opcode::ADC_A_B => Some((Instruction::ADC(Operand::A, Operand::B), 4)),
        opcode::ADC_A_C => Some((Instruction::ADC(Operand::A, Operand::C), 4)),
        opcode::ADC_A_D => Some((Instruction::ADC(Operand::A, Operand::D), 4)),
        opcode::ADC_A_E => Some((Instruction::ADC(Operand::A, Operand::E), 4)),
        opcode::ADC_A_H => Some((Instruction::ADC(Operand::A, Operand::H), 4)),
        opcode::ADC_A_L => Some((Instruction::ADC(Operand::A, Operand::L), 4)),
        opcode::ADC_A_iHL => Some((Instruction::ADC(Operand::A, Operand::iHL), 8)),
        opcode::ADC_A_A => Some((Instruction::ADC(Operand::A, Operand::A), 4)),
        opcode::SUB_A_B => Some((Instruction::SUB(Operand::A, Operand::B), 4)),
        opcode::SUB_A_C => Some((Instruction::SUB(Operand::A, Operand::C), 4)),
        opcode::SUB_A_D => Some((Instruction::SUB(Operand::A, Operand::D), 4)),
        opcode::SUB_A_E => Some((Instruction::SUB(Operand::A, Operand::E), 4)),
        opcode::SUB_A_H => Some((Instruction::SUB(Operand::A, Operand::H), 4)),
        opcode::SUB_A_L => Some((Instruction::SUB(Operand::A, Operand::L), 4)),
        opcode::SUB_A_iHL => Some((Instruction::SUB(Operand::A, Operand::iHL), 8)),
        opcode::SUB_A_A => Some((Instruction::SUB(Operand::A, Operand::A), 4)),
        opcode::SBC_A_B => Some((Instruction::SBC(Operand::A, Operand::B), 4)),
        opcode::SBC_A_C => Some((Instruction::SBC(Operand::A, Operand::C), 4)),
        opcode::SBC_A_D => Some((Instruction::SBC(Operand::A, Operand::D), 4)),
        opcode::SBC_A_E => Some((Instruction::SBC(Operand::A, Operand::E), 4)),
        opcode::SBC_A_H => Some((Instruction::SBC(Operand::A, Operand::H), 4)),
        opcode::SBC_A_L => Some((Instruction::SBC(Operand::A, Operand::L), 4)),
        opcode::SBC_A_iHL => Some((Instruction::SBC(Operand::A, Operand::iHL), 8)),
        opcode::SBC_A_A => Some((Instruction::SBC(Operand::A, Operand::A), 4)),
        opcode::AND_A_B => Some((Instruction::AND(Operand::A, Operand::B), 4)),
        opcode::AND_A_C => Some((Instruction::AND(Operand::A, Operand::C), 4)),
        opcode::AND_A_D => Some((Instruction::AND(Operand::A, Operand::D), 4)),
        opcode::AND_A_E => Some((Instruction::AND(Operand::A, Operand::E), 4)),
        opcode::AND_A_H => Some((Instruction::AND(Operand::A, Operand::H), 4)),
        opcode::AND_A_L => Some((Instruction::AND(Operand::A, Operand::L), 4)),
        opcode::AND_A_iHL => Some((Instruction::AND(Operand::A, Operand::iHL), 8)),
        opcode::AND_A_A => Some((Instruction::AND(Operand::A, Operand::A), 4)),
        opcode::XOR_A_B => Some((Instruction::XOR(Operand::A, Operand::B), 4)),
        opcode::XOR_A_C => Some((Instruction::XOR(Operand::A, Operand::C), 4)),
        opcode::XOR_A_D => Some((Instruction::XOR(Operand::A, Operand::D), 4)),
        opcode::XOR_A_E => Some((Instruction::XOR(Operand::A, Operand::E), 4)),
        opcode::XOR_A_H => Some((Instruction::XOR(Operand::A, Operand::H), 4)),
        opcode::XOR_A_L => Some((Instruction::XOR(Operand::A, Operand::L), 4)),
        opcode::XOR_A_iHL => Some((Instruction::XOR(Operand::A, Operand::iHL), 8)),
        opcode::XOR_A_A => Some((Instruction::XOR(Operand::A, Operand::A), 4)),
        opcode::OR_A_B => Some((Instruction::OR(Operand::A, Operand::B), 4)),
        opcode::OR_A_C => Some((Instruction::OR(Operand::A, Operand::C), 4)),
        opcode::OR_A_D => Some((Instruction::OR(Operand::A, Operand::D), 4)),
        opcode::OR_A_E => Some((Instruction::OR(Operand::A, Operand::E), 4)),
        opcode::OR_A_H => Some((Instruction::OR(Operand::A, Operand::H), 4)),
        opcode::OR_A_L => Some((Instruction::OR(Operand::A, Operand::L), 4)),
        opcode::OR_A_iHL => Some((Instruction::OR(Operand::A, Operand::iHL), 8)),
        opcode::OR_A_A => Some((Instruction::OR(Operand::A, Operand::A), 4)),
        opcode::CP_A_B => Some((Instruction::CP(Operand::A, Operand::B), 4)),
        opcode::CP_A_C => Some((Instruction::CP(Operand::A, Operand::C), 4)),
        opcode::CP_A_D => Some((Instruction::CP(Operand::A, Operand::D), 4)),
        opcode::CP_A_E => Some((Instruction::CP(Operand::A, Operand::E), 4)),
        opcode::CP_A_H => Some((Instruction::CP(Operand::A, Operand::H), 4)),
        opcode::CP_A_L => Some((Instruction::CP(Operand::A, Operand::L), 4)),
        opcode::CP_A_iHL => Some((Instruction::CP(Operand::A, Operand::iHL), 8)),
        opcode::CP_A_A => Some((Instruction::CP(Operand::A, Operand::A), 4)),
        opcode::RET_NZ => Some((Instruction::RET, 8)),
        opcode::POP_BC => Some((Instruction::POP(Operand::BC), 12)),
        opcode::JP_NZ_A16 => Some((Instruction::JP, 12)),
        opcode::JP_A16 => Some((Instruction::JP, 16)),
        opcode::CALL_NZ_A16 => Some((Instruction::CALL, 12)),
        opcode::PUSH_BC => Some((Instruction::PUSH(Operand::BC), 16)),
        opcode::ADD_A_N8 => Some((Instruction::ADD(Operand::A, Operand::N8), 8)),
        opcode::RST_00 => Some((Instruction::RST, 16)),
        opcode::RET_Z => Some((Instruction::RET, 8)),
        opcode::RET => Some((Instruction::RET, 16)),
        opcode::JP_Z_A16 => Some((Instruction::JP, 12)),
        opcode::PREFIX => Some((Instruction::PREFIX, 4)),
        opcode::CALL_Z_A16 => Some((Instruction::CALL, 12)),
        opcode::CALL_A16 => Some((Instruction::CALL, 24)),
        opcode::ADC_A_N8 => Some((Instruction::ADC(Operand::A, Operand::N8), 8)),
        opcode::RST_08 => Some((Instruction::RST, 16)),
        opcode::RET_NC => Some((Instruction::RET, 8)),
        opcode::POP_DE => Some((Instruction::POP(Operand::DE), 12)),
        opcode::JP_NC_A16 => Some((Instruction::JP, 12)),
        opcode::CALL_NC_A16 => Some((Instruction::CALL, 12)),
        opcode::PUSH_DE => Some((Instruction::PUSH(Operand::DE), 16)),
        opcode::SUB_A_N8 => Some((Instruction::SUB(Operand::A, Operand::N8), 8)),
        opcode::RST_10 => Some((Instruction::RST, 16)),
        opcode::RET_C => Some((Instruction::RET, 8)),
        opcode::RETI => Some((Instruction::RETI, 16)),
        opcode::JP_C_A16 => Some((Instruction::JP, 12)),
        opcode::CALL_C_A16 => Some((Instruction::CALL, 12)),
        opcode::SBC_A_N8 => Some((Instruction::SBC(Operand::A, Operand::N8), 8)),
        opcode::RST_18 => Some((Instruction::RST, 16)),
        opcode::LDH_A8_A => Some((Instruction::LD(Operand::A8, Operand::A), 12)),
        opcode::POP_HL => Some((Instruction::POP(Operand::HL), 12)),
        opcode::LDH_iC_A => Some((Instruction::LD(Operand::iC, Operand::A), 8)),
        opcode::PUSH_HL => Some((Instruction::PUSH(Operand::HL), 16)),
        opcode::AND_A_N8 => Some((Instruction::AND(Operand::A, Operand::N8), 8)),
        opcode::RST_20 => Some((Instruction::RST, 16)),
        opcode::ADD_SP_E8 => Some((Instruction::ADD(Operand::SP, Operand::E8), 16)),
        opcode::JP_HL => Some((Instruction::JP, 4)),
        opcode::LD_A16_A => Some((Instruction::LD(Operand::A16, Operand::A), 16)),
        opcode::XOR_A_N8 => Some((Instruction::XOR(Operand::A, Operand::N8), 8)),
        opcode::RST_28 => Some((Instruction::RST, 16)),
        opcode::LDH_A_A8 => Some((Instruction::LD(Operand::A, Operand::A8), 12)),
        opcode::POP_AF => Some((Instruction::POP(Operand::AF), 12)),
        opcode::LDH_A_iC => Some((Instruction::LD(Operand::A, Operand::iC), 8)),
        opcode::DI => Some((Instruction::DI, 4)),
        opcode::PUSH_AF => Some((Instruction::PUSH(Operand::AF), 16)),
        opcode::OR_A_N8 => Some((Instruction::OR(Operand::A, Operand::N8), 8)),
        opcode::RST_30 => Some((Instruction::RST, 16)),
        opcode::LD_HL_SP_PLUS_E8 => Some((Instruction::LD(Operand::HL, Operand::SP_PLUS_E8), 12)),
        opcode::LD_SP_HL => Some((Instruction::LD(Operand::SP, Operand::HL), 8)),
        opcode::LD_A_A16 => Some((Instruction::LD(Operand::A, Operand::A16), 16)),
        opcode::EI => Some((Instruction::EI, 4)),
        opcode::CP_A_N8 => Some((Instruction::CP(Operand::A, Operand::N8), 8)),
        opcode::RST_38 => Some((Instruction::RST, 16)),
        _ => None,
    }
}

} // verus!
