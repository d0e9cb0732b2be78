//! The structured form of an instruction, and the fixed tables that map bit
//! patterns to opcodes and addressing modes.

use crate::pseudo::PsuedoOpcode;
use vstd::prelude::*;

verus! {

/// Register 0, the program counter.
pub const PC: u8 = 0;

/// Register 1, the stack pointer.
pub const SP: u8 = 1;

/// Register 2, the status register, which as a source is also the first
/// constant generator.
pub const SR: u8 = 2;

/// Register 3, the second constant generator.
pub const ZR: u8 = 3;

/// One 16-bit unit of the instruction stream.
#[derive(Clone, Copy, Debug, PartialEq, Eq, Structural)]
pub struct Word(pub u16);

/// The condition of a jump.
#[derive(Clone, Copy, Debug, PartialEq, Eq, Structural)]
pub enum JmpOpcode {
    JNE,
    JEQ,
    JLO,
    JHS,
    JN,
    JGE,
    JL,
    JMP,
}

/// The operation of a single-operand instruction.
#[derive(Clone, Copy, Debug, PartialEq, Eq, Structural)]
pub enum OneOpcode {
    RRC,
    SWPB,
    RRA,
    SXT,
    PUSH,
    CALL,
    RETI,
}

/// The operation of a double-operand instruction.
#[derive(Clone, Copy, Debug, PartialEq, Eq, Structural)]
pub enum TwoOpcode {
    MOV,
    ADD,
    ADDC,
    SUBC,
    SUB,
    CMP,
    DADD,
    BIT,
    BIC,
    BIS,
    XOR,
    AND,
}

/// How an operand is reached. The last seven modes are aliases that the
/// status register and the constant generator give to the four mode bit
/// patterns; only the first four and `AbsoluteAddressing` survive
/// normalisation of a source operand.
#[derive(Clone, Copy, Debug, PartialEq, Eq, Structural)]
pub enum AddressMode {
    /// `Rn`
    Direct,
    /// `x(Rn)`
    Indexed,
    /// `@Rn`
    Indirect,
    /// `@Rn+`
    IndirectIncrement,
    /// `&addr`, the status register's reading of the indexed pattern.
    AbsoluteAddressing,
    Const4,
    Const8,
    Const0,
    Const1,
    Const2,
    ConstNeg1,
}

/// The raw addressing-mode bits of an operand.
#[derive(Clone, Copy, Debug, PartialEq, Eq, Structural)]
pub struct Indexing(pub u8);

/// A destination register, 0 to 15.
#[derive(Clone, Copy, Debug, PartialEq, Eq, Structural)]
pub struct DestReg(pub u8);

/// A source register, 0 to 15.
#[derive(Clone, Copy, Debug, PartialEq, Eq, Structural)]
pub struct SrcReg(pub u8);

/// The size flag: set for a byte operation, clear for a word operation.
#[derive(Clone, Copy, Debug, PartialEq, Eq, Structural)]
pub struct Bbit(pub bool);

/// The displacement of a jump in bytes, counted from the address of the jump
/// itself: twice the encoded word offset, plus the two bytes of the jump.
#[derive(Clone, Copy, Debug, PartialEq, Eq, Structural)]
pub struct Offset(pub i16);

/// An immediate value that is read as signed.
#[derive(Clone, Copy, Debug, PartialEq, Eq, Structural)]
pub struct SignedWord(pub i16);

/// The coarse shape of an instruction, decided by its high bits.
#[derive(Clone, Copy, Debug, PartialEq, Eq, Structural)]
pub enum InstructionFlavor {
    JMP,
    ONE,
    TWO,
}

/// One decoded instruction.
#[allow(non_camel_case_types)]
#[derive(Clone, Copy, Debug, PartialEq, Eq)]
pub enum Instruction {
    /// A bit pattern with no defined meaning.
    Invalid,
    /// A conditional or unconditional jump.
    JMP { condition: JmpOpcode, offset: Offset },
    /// A single-operand instruction.
    ONE {
        opcode: OneOpcode,
        b: Bbit,
        dam: AddressMode,
        dest: DestReg,
        dest_index: Option<Word>,
    },
    /// A double-operand instruction.
    TWO {
        opcode: TwoOpcode,
        src: SrcReg,
        dam: AddressMode,
        b: Bbit,
        sam: AddressMode,
        dest: DestReg,
        src_index: Option<Word>,
        dest_index: Option<Word>,
    },
    /// A double-operand instruction whose source immediate is signed.
    TWO_SIGNED {
        opcode: TwoOpcode,
        src: SrcReg,
        dam: AddressMode,
        b: Bbit,
        sam: AddressMode,
        dest: DestReg,
        src_index: Option<SignedWord>,
        dest_index: Option<Word>,
    },
    /// A recognised idiom.
    PSEUDO {
        dest_index: Option<Word>,
        opcode: PsuedoOpcode,
        b: Bbit,
        dam: AddressMode,
        dest: Option<DestReg>,
    },
}

/// Whether the operand of a single-operand instruction has an extension
/// word: indexed on any register, or the immediate form, autoincrement on
/// the program counter.
pub open spec fn one_takes_word(mode: AddressMode, reg: u8) -> bool {
    mode == AddressMode::Indexed || (mode == AddressMode::IndirectIncrement && reg == PC)
}

/// Whether an operand of a double-operand instruction has an extension
/// word: as for a single operand, and for absolute addressing too.
pub open spec fn two_takes_word(mode: AddressMode, reg: u8) -> bool {
    one_takes_word(mode, reg) || mode == AddressMode::AbsoluteAddressing
}

impl Instruction {
    /// Whether the instruction carries its extension words exactly where
    /// its operands call for them. The signed shape always has its signed
    /// immediate. An idiom keeps the destination word of the instruction
    /// it came from, so it has one at least where its mode alone calls for
    /// it.
    pub open spec fn well_formed(self) -> bool {
        match self {
            Instruction::Invalid => true,
            Instruction::JMP { .. } => true,
            Instruction::ONE { dam, dest, dest_index, .. } => dest_index is Some
                <==> one_takes_word(dam, dest.0),
            Instruction::TWO { src, dam, sam, dest, src_index, dest_index, .. } => {
                &&& src_index is Some <==> two_takes_word(sam, src.0)
                &&& dest_index is Some <==> two_takes_word(dam, dest.0)
            },
            Instruction::TWO_SIGNED { src, dam, sam, dest, src_index, dest_index, .. } => {
                &&& src_index is Some
                &&& src.0 == PC
                &&& sam == AddressMode::IndirectIncrement
                &&& dest_index is Some <==> two_takes_word(dam, dest.0)
            },
            Instruction::PSEUDO { dest_index, dam, .. } => {
                dam == AddressMode::Indexed || dam == AddressMode::AbsoluteAddressing
                    ==> dest_index is Some
            },
        }
    }
}

/// The jump condition that a three-bit opcode field stands for.
pub open spec fn jump_opcode_of(bits: u8) -> Option<JmpOpcode> {
    match bits {
        0b000 => Some(JmpOpcode::JNE),
        0b001 => Some(JmpOpcode::JEQ),
        0b010 => Some(JmpOpcode::JLO),
        0b011 => Some(JmpOpcode::JHS),
        0b100 => Some(JmpOpcode::JN),
        0b101 => Some(JmpOpcode::JGE),
        0b110 => Some(JmpOpcode::JL),
        0b111 => Some(JmpOpcode::JMP),
        _ => None,
    }
}

/// The single-operand operation that a three-bit opcode field stands for.
/// The pattern `111` has none.
pub open spec fn one_opcode_of(bits: u8) -> Option<OneOpcode> {
    match bits {
        0b000 => Some(OneOpcode::RRC),
        0b001 => Some(OneOpcode::SWPB),
        0b010 => Some(OneOpcode::RRA),
        0b011 => Some(OneOpcode::SXT),
        0b100 => Some(OneOpcode::PUSH),
        0b101 => Some(OneOpcode::CALL),
        0b110 => Some(OneOpcode::RETI),
        _ => None,
    }
}

/// The double-operand operation that a four-bit opcode field stands for.
/// The patterns below `0100` have none.
pub open spec fn two_opcode_of(bits: u8) -> Option<TwoOpcode> {
    match bits {
        0b0100 => Some(TwoOpcode::MOV),
        0b0101 => Some(TwoOpcode::ADD),
        0b0110 => Some(TwoOpcode::ADDC),
        0b0111 => Some(TwoOpcode::SUBC),
        0b1000 => Some(TwoOpcode::SUB),
        0b1001 => Some(TwoOpcode::CMP),
        0b1010 => Some(TwoOpcode::DADD),
        0b1011 => Some(TwoOpcode::BIT),
        0b1100 => Some(TwoOpcode::BIC),
        0b1101 => Some(TwoOpcode::BIS),
        0b1110 => Some(TwoOpcode::XOR),
        0b1111 => Some(TwoOpcode::AND),
        _ => None,
    }
}

/// What the mode bits `bits` mean on register `reg`: the status register
/// and the constant generator each read the four patterns in their own way.
pub open spec fn address_mode_of(reg: u8, bits: u8) -> AddressMode {
    if reg == SR {
        match bits {
            0b00 => AddressMode::Direct,
            0b01 => AddressMode::AbsoluteAddressing,
            0b10 => AddressMode::Const4,
            _ => AddressMode::Const8,
        }
    } else if reg == ZR {
        match bits {
            0b00 => AddressMode::Const0,
            0b01 => AddressMode::Const1,
            0b10 => AddressMode::Const2,
            _ => AddressMode::ConstNeg1,
        }
    } else {
        match bits {
            0b00 => AddressMode::Direct,
            0b01 => AddressMode::Indexed,
            0b10 => AddressMode::Indirect,
            _ => AddressMode::IndirectIncrement,
        }
    }
}

/// Looks a three-bit jump opcode field up in the table of conditions.
pub fn jump_opcode(bits: u8) -> (r: Option<JmpOpcode>)
    ensures
        r == jump_opcode_of(bits),
{
    match bits {
        0b000 => Some(JmpOpcode::JNE),
        0b001 => Some(JmpOpcode::JEQ),
        0b010 => Some(JmpOpcode::JLO),
        0b011 => Some(JmpOpcode::JHS),
        0b100 => Some(JmpOpcode::JN),
        0b101 => Some(JmpOpcode::JGE),
        0b110 => Some(JmpOpcode::JL),
        0b111 => Some(JmpOpcode::JMP),
        _ => None,
    }
}

/// Looks a three-bit single-operand opcode field up in its table.
pub fn one_opcode(bits: u8) -> (r: Option<OneOpcode>)
    ensures
        r == one_opcode_of(bits),
{
    match bits {
        0b000 => Some(OneOpcode::RRC),
        0b001 => Some(OneOpcode::SWPB),
        0b010 => Some(OneOpcode::RRA),
        0b011 => Some(OneOpcode::SXT),
        0b100 => Some(OneOpcode::PUSH),
        0b101 => Some(OneOpcode::CALL),
        0b110 => Some(OneOpcode::RETI),
        _ => None,
    }
}

/// Looks a four-bit double-operand opcode field up in its table.
pub fn two_opcode(bits: u8) -> (r: Option<TwoOpcode>)
    ensures
        r == two_opcode_of(bits),
{
    match bits {
        0b0100 => Some(TwoOpcode::MOV),
        0b0101 => Some(TwoOpcode::ADD),
        0b0110 => Some(TwoOpcode::ADDC),
        0b0111 => Some(TwoOpcode::SUBC),
        0b1000 => Some(TwoOpcode::SUB),
        0b1001 => Some(TwoOpcode::CMP),
        0b1010 => Some(TwoOpcode::DADD),
        0b1011 => Some(TwoOpcode::BIT),
        0b1100 => Some(TwoOpcode::BIC),
        0b1101 => Some(TwoOpcode::BIS),
        0b1110 => Some(TwoOpcode::XOR),
        0b1111 => Some(TwoOpcode::AND),
        _ => None,
    }
}

/// Resolves the mode bits of an operand on its register.
pub fn address_mode(reg: u8, bits: u8) -> (r: AddressMode)
    requires
        bits < 4,
    ensures
        r == address_mode_of(reg, bits),
{
    if reg == SR {
        match bits {
            0b00 => AddressMode::Direct,
            0b01 => AddressMode::AbsoluteAddressing,
            0b10 => AddressMode::Const4,
            _ => AddressMode::Const8,
        }
    } else if reg == ZR {
        match bits {
            0b00 => AddressMode::Const0,
            0b01 => AddressMode::Const1,
            0b10 => AddressMode::Const2,
            _ => AddressMode::ConstNeg1,
        }
    } else {
        match bits {
            0b00 => AddressMode::Direct,
            0b01 => AddressMode::Indexed,
            0b10 => AddressMode::Indirect,
            _ => AddressMode::IndirectIncrement,
        }
    }
}

} // verus!
