//! Recognition of emulated instructions: idioms of the double-operand
//! instructions that have a mnemonic of their own.

use crate::instruction::{
    AddressMode, DestReg, Instruction, SrcReg, TwoOpcode, Word, PC, SP, SR,
};
use vstd::prelude::*;

verus! {

/// The mnemonics of the emulated instructions.
#[derive(Clone, Copy, Debug, PartialEq, Eq, Structural)]
pub enum PsuedoOpcode {
    NOP,
    POP,
    BR,
    RET,
    CLRC,
    SETC,
    CLRZ,
    SETZ,
    CLRN,
    SETN,
    DINT,
    EINT,
    RLA,
    RLC,
    INV,
    CLR,
    TST,
    DEC,
    DECD,
    INC,
    INCD,
    ADC,
    DADC,
    SBC,
}

/// Whether a source operand is the immediate `value`: the program counter,
/// indirect with autoincrement, with `value` as its extension word.
pub open spec fn is_immediate(
    src: SrcReg,
    sam: AddressMode,
    src_index: Option<Word>,
    value: u16,
) -> bool {
    src.0 == PC && sam == AddressMode::IndirectIncrement && src_index == Some(Word(value))
}

/// The flag idiom that clearing the status-register bits `mask` stands for.
pub open spec fn clear_flag_of(mask: u16) -> Option<PsuedoOpcode> {
    if mask == 1 {
        Some(PsuedoOpcode::CLRC)
    } else if mask == 2 {
        Some(PsuedoOpcode::CLRZ)
    } else if mask == 4 {
        Some(PsuedoOpcode::CLRN)
    } else if mask == 8 {
        Some(PsuedoOpcode::DINT)
    } else {
        None
    }
}

/// The flag idiom that setting the status-register bits `mask` stands for.
pub open spec fn set_flag_of(mask: u16) -> Option<PsuedoOpcode> {
    if mask == 1 {
        Some(PsuedoOpcode::SETC)
    } else if mask == 2 {
        Some(PsuedoOpcode::SETZ)
    } else if mask == 4 {
        Some(PsuedoOpcode::SETN)
    } else if mask == 8 {
        Some(PsuedoOpcode::EINT)
    } else {
        None
    }
}

/// The mask of a flag idiom: the source is an immediate and the
/// destination is the status register.
pub open spec fn flag_mask_of(
    src: SrcReg,
    sam: AddressMode,
    dest: DestReg,
    src_index: Option<Word>,
) -> Option<u16> {
    if src.0 == PC && sam == AddressMode::IndirectIncrement && dest.0 == SR {
        match src_index {
            Some(word) => Some(word.0),
            None => None,
        }
    } else {
        None
    }
}

/// The idiom that a double-operand instruction stands for, as its mnemonic
/// and the destination that the idiom keeps. For each opcode the rules are
/// tried from the top and the first that matches wins.
pub open spec fn idiom_of(
    opcode: TwoOpcode,
    src: SrcReg,
    dam: AddressMode,
    sam: AddressMode,
    dest: DestReg,
    src_index: Option<Word>,
) -> Option<(PsuedoOpcode, Option<DestReg>)> {
    match opcode {
        TwoOpcode::MOV => {
            if is_immediate(src, sam, src_index, 0) {
                Some((PsuedoOpcode::CLR, Some(dest)))
            } else if src.0 == dest.0 && sam == AddressMode::Direct && dam
                == AddressMode::Direct {
                Some((PsuedoOpcode::NOP, None))
            } else if src.0 == SP && sam == AddressMode::IndirectIncrement {
                if dest.0 == PC {
                    Some((PsuedoOpcode::RET, None))
                } else {
                    Some((PsuedoOpcode::POP, Some(dest)))
                }
            } else if dest.0 == PC && dam == AddressMode::Direct {
                Some((PsuedoOpcode::BR, Some(DestReg(src.0))))
            } else {
                None
            }
        },
        TwoOpcode::BIC => match flag_mask_of(src, sam, dest, src_index) {
            Some(mask) => match clear_flag_of(mask) {
                Some(flag) => Some((flag, None)),
                None => None,
            },
            None => None,
        },
        TwoOpcode::BIS => match flag_mask_of(src, sam, dest, src_index) {
            Some(mask) => match set_flag_of(mask) {
                Some(flag) => Some((flag, None)),
                None => None,
            },
            None => None,
        },
        TwoOpcode::ADD => {
            if src.0 == dest.0 {
                Some((PsuedoOpcode::RLA, Some(dest)))
            } else if is_immediate(src, sam, src_index, 1) {
                Some((PsuedoOpcode::INC, Some(dest)))
            } else {
                None
            }
        },
        TwoOpcode::ADDC => {
            if src.0 == dest.0 {
                Some((PsuedoOpcode::RLA, Some(dest)))
            } else {
                None
            }
        },
        TwoOpcode::CMP => {
            if is_immediate(src, sam, src_index, 0) {
                Some((PsuedoOpcode::TST, Some(dest)))
            } else {
                None
            }
        },
        TwoOpcode::SUB => {
            if is_immediate(src, sam, src_index, 1) {
                Some((PsuedoOpcode::DEC, Some(dest)))
            } else {
                None
            }
        },
        _ => None,
    }
}

/// The idiom instruction that `instruction` stands for, if any. Only the
/// double-operand shape is looked at; the idiom keeps the size flag, the
/// destination mode and the destination's extension word.
pub open spec fn recognized(instruction: Instruction) -> Option<Instruction> {
    match instruction {
        Instruction::TWO { opcode, src, dam, b, sam, dest, src_index, dest_index } => {
            match idiom_of(opcode, src, dam, sam, dest, src_index) {
                Some((mnemonic, kept)) => Some(
                    Instruction::PSEUDO { dest_index, opcode: mnemonic, b, dam, dest: kept },
                ),
                None => None,
            }
        },
        _ => None,
    }
}

/// What the pipeline keeps of `instruction`: the idiom where one is
/// recognised, the instruction itself where none is.
pub open spec fn resolved(instruction: Instruction) -> Instruction {
    match recognized(instruction) {
        Some(idiom) => idiom,
        None => instruction,
    }
}

fn immediate_is(src: SrcReg, sam: AddressMode, src_index: Option<Word>, value: u16) -> (r: bool)
    ensures
        r == is_immediate(src, sam, src_index, value),
{
    match src_index {
        Some(word) => src.0 == PC && sam == AddressMode::IndirectIncrement && word.0 == value,
        None => false,
    }
}

fn flag_mask(src: SrcReg, sam: AddressMode, dest: DestReg, src_index: Option<Word>) -> (r:
    Option<u16>)
    ensures
        r == flag_mask_of(src, sam, dest, src_index),
{
    if src.0 == PC && sam == AddressMode::IndirectIncrement && dest.0 == SR {
        match src_index {
            Some(word) => Some(word.0),
            None => None,
        }
    } else {
        None
    }
}

fn idiom(
    opcode: TwoOpcode,
    src: SrcReg,
    dam: AddressMode,
    sam: AddressMode,
    dest: DestReg,
    src_index: Option<Word>,
) -> (r: Option<(PsuedoOpcode, Option<DestReg>)>)
    ensures
        r == idiom_of(opcode, src, dam, sam, dest, src_index),
{
    match opcode {
        TwoOpcode::MOV => {
            if immediate_is(src, sam, src_index, 0) {
                return Some((PsuedoOpcode::CLR, Some(dest)));
            }
            if dest.0 == src.0 && sam == AddressMode::Direct && dam == AddressMode::Direct {
                return Some((PsuedoOpcode::NOP, None));
            }
            if sam == AddressMode::IndirectIncrement && src.0 == SP {
                if dest.0 == PC {
                    return Some((PsuedoOpcode::RET, None));
                } else {
                    return Some((PsuedoOpcode::POP, Some(dest)));
                }
            }
            if dest.0 == PC && dam == AddressMode::Direct {
                return Some((PsuedoOpcode::BR, Some(DestReg(src.0))));
            }
            None
        },
        TwoOpcode::BIC => match flag_mask(src, sam, dest, src_index) {
            Some(1) => Some((PsuedoOpcode::CLRC, None)),
            Some(2) => Some((PsuedoOpcode::CLRZ, None)),
            Some(4) => Some((PsuedoOpcode::CLRN, None)),
            Some(8) => Some((PsuedoOpcode::DINT, None)),
            _ => None,
        },
        TwoOpcode::BIS => match flag_mask(src, sam, dest, src_index) {
            Some(1) => Some((PsuedoOpcode::SETC, None)),
            Some(2) => Some((PsuedoOpcode::SETZ, None)),
            Some(4) => Some((PsuedoOpcode::SETN, None)),
            Some(8) => Some((PsuedoOpcode::EINT, None)),
            _ => None,
        },
        TwoOpcode::ADD => {
            if dest.0 == src.0 {
                return Some((PsuedoOpcode::RLA, Some(dest)));
            }
            if immediate_is(src, sam, src_index, 1) {
                return Some((PsuedoOpcode::INC, Some(dest)));
            }
            None
        },
        TwoOpcode::ADDC => {
            if dest.0 == src.0 {
                return Some((PsuedoOpcode::RLA, Some(dest)));
            }
            None
        },
        TwoOpcode::CMP => {
            if immediate_is(src, sam, src_index, 0) {
                return Some((PsuedoOpcode::TST, Some(dest)));
            }
            None
        },
        TwoOpcode::SUB => {
            if immediate_is(src, sam, src_index, 1) {
                return Some((PsuedoOpcode::DEC, Some(dest)));
            }
            None
        },
        _ => None,
    }
}

/// Recognises the idiom that a canonical instruction stands for.
pub fn check_pseudo(instruction: Instruction) -> (r: Option<Instruction>)
    ensures
        r == recognized(instruction),
        instruction.well_formed() ==> resolved(instruction).well_formed(),
{
    match instruction {
        Instruction::TWO { opcode, src, dam, b, sam, dest, src_index, dest_index } => {
            match idiom(opcode, src, dam, sam, dest, src_index) {
                Some((mnemonic, kept)) => Some(
                    Instruction::PSEUDO { dest_index, opcode: mnemonic, b, dam, dest: kept },
                ),
                None => None,
            }
        },
        _ => None,
    }
}

/// An idiom is never recognised a second time: what recognition returns is
/// of the idiom shape, on which recognition finds no match. The idiom of an
/// instruction that carries its extension words carries its own.
pub proof fn lemma_recognized_is_final(instruction: Instruction)
    ensures
        recognized(instruction) matches Some(idiom) ==> idiom is PSEUDO && recognized(idiom)
            is None,
        instruction.well_formed() ==> resolved(instruction).well_formed(),
{
}

/// Recognition is idempotent: where nothing matches, the instruction is
/// kept and still matches nothing, and resolving a second time gives what
/// resolving once gave, on every instruction.
pub proof fn lemma_resolved_idempotent(instruction: Instruction)
    ensures
        recognized(instruction) is None ==> resolved(instruction) == instruction && recognized(
            resolved(instruction),
        ) is None,
        recognized(resolved(instruction)) is None,
        resolved(resolved(instruction)) == resolved(instruction),
{
}

} // verus!
