//! Normalisation of constant-generator operands.
//!
//! As a source, the status register and the constant generator turn the
//! mode bits into literal constants. Normalisation rewrites such a source
//! into the immediate form that every later stage knows: the program
//! counter, indirect with autoincrement, and the literal as the immediate.

use crate::instruction::{
    AddressMode, Bbit, DestReg, Instruction, SignedWord, SrcReg, TwoOpcode, Word, PC,
};
use vstd::prelude::*;

verus! {

/// The literal that a constant-generator alias stands for; `None` for the
/// modes that are no such alias.
pub open spec fn constant_of(mode: AddressMode) -> Option<int> {
    match mode {
        AddressMode::Const0 => Some(0int),
        AddressMode::Const1 => Some(1int),
        AddressMode::Const2 => Some(2int),
        AddressMode::Const4 => Some(4int),
        AddressMode::Const8 => Some(8int),
        AddressMode::ConstNeg1 => Some(-1int),
        _ => None,
    }
}

/// Whether `mode` is one of the modes that remain after normalisation.
pub open spec fn is_canonical_mode(mode: AddressMode) -> bool {
    constant_of(mode) is None
}

/// Whether `instruction` needs no normalisation: it is not of the
/// double-operand shape, or its source mode is no alias of a constant.
pub open spec fn has_canonical_source(instruction: Instruction) -> bool {
    match instruction {
        Instruction::TWO { sam, .. } => is_canonical_mode(sam),
        _ => true,
    }
}

/// The canonical form of `instruction`. Only the source of a
/// double-operand instruction changes, and only where its mode is an alias
/// for a constant: the non-negative constants stay in the double-operand
/// shape, minus one moves to the shape with a signed immediate.
pub open spec fn normalized(instruction: Instruction) -> Instruction {
    match instruction {
        Instruction::TWO { opcode, src, dam, b, sam, dest, src_index, dest_index } => {
            match constant_of(sam) {
                Some(value) => if value < 0 {
                    Instruction::TWO_SIGNED {
                        opcode,
                        src: SrcReg(PC),
                        dam,
                        b,
                        sam: AddressMode::IndirectIncrement,
                        dest,
                        src_index: Some(SignedWord(value as i16)),
                        dest_index,
                    }
                } else {
                    Instruction::TWO {
                        opcode,
                        src: SrcReg(PC),
                        dam,
                        b,
                        sam: AddressMode::IndirectIncrement,
                        dest,
                        src_index: Some(Word(value as u16)),
                        dest_index,
                    }
                },
                None => instruction,
            }
        },
        _ => instruction,
    }
}

/// Rewrites a constant-generator source into its immediate form.
pub fn check_special_am(instruction: &Instruction) -> (r: Instruction)
    ensures
        r == normalized(*instruction),
        has_canonical_source(r),
        instruction.well_formed() ==> r.well_formed(),
{
    match instruction {
        Instruction::TWO { opcode, src, dam, b, sam, dest, src_index, dest_index } => {
            let literal: u16 = match sam {
                AddressMode::Const0 => 0,
                AddressMode::Const1 => 1,
                AddressMode::Const2 => 2,
                AddressMode::Const4 => 4,
                AddressMode::Const8 => 8,
                AddressMode::ConstNeg1 => {
                    return Instruction::TWO_SIGNED {
                        opcode: *opcode,
                        src: SrcReg(PC),
                        dam: *dam,
                        b: *b,
                        sam: AddressMode::IndirectIncrement,
                        dest: *dest,
                        src_index: Some(SignedWord(-1)),
                        dest_index: *dest_index,
                    };
                },
                _ => {
                    return *instruction;
                },
            };
            Instruction::TWO {
                opcode: *opcode,
                src: SrcReg(PC),
                dam: *dam,
                b: *b,
                sam: AddressMode::IndirectIncrement,
                dest: *dest,
                src_index: Some(Word(literal)),
                dest_index: *dest_index,
            }
        },
        _ => *instruction,
    }
}

/// The immediate that normalisation gives for a non-negative constant.
pub open spec fn literal_of(mode: AddressMode) -> u16 {
    match mode {
        AddressMode::Const0 => 0u16,
        AddressMode::Const1 => 1u16,
        AddressMode::Const2 => 2u16,
        AddressMode::Const4 => 4u16,
        AddressMode::Const8 => 8u16,
        _ => 0u16,
    }
}

/// Every alias of a non-negative constant normalises to the program
/// counter, indirect with autoincrement, with the constant as the
/// immediate; everything but the source operand stays as it was.
pub proof fn lemma_normalized_constant(
    opcode: TwoOpcode,
    src: SrcReg,
    dam: AddressMode,
    b: Bbit,
    sam: AddressMode,
    dest: DestReg,
    src_index: Option<Word>,
    dest_index: Option<Word>,
)
    requires
        sam == AddressMode::Const0 || sam == AddressMode::Const1 || sam == AddressMode::Const2
            || sam == AddressMode::Const4 || sam == AddressMode::Const8,
    ensures
        normalized(Instruction::TWO { opcode, src, dam, b, sam, dest, src_index, dest_index })
            == (Instruction::TWO {
            opcode,
            src: SrcReg(PC),
            dam,
            b,
            sam: AddressMode::IndirectIncrement,
            dest,
            src_index: Some(Word(literal_of(sam))),
            dest_index,
        }),
        sam == AddressMode::Const0 ==> literal_of(sam) == 0,
        sam == AddressMode::Const1 ==> literal_of(sam) == 1,
        sam == AddressMode::Const2 ==> literal_of(sam) == 2,
        sam == AddressMode::Const4 ==> literal_of(sam) == 4,
        sam == AddressMode::Const8 ==> literal_of(sam) == 8,
{
}

/// The alias of minus one normalises to the program counter, indirect with
/// autoincrement, with the signed immediate -1; everything but the source
/// operand stays as it was.
pub proof fn lemma_normalized_minus_one(
    opcode: TwoOpcode,
    src: SrcReg,
    dam: AddressMode,
    b: Bbit,
    dest: DestReg,
    src_index: Option<Word>,
    dest_index: Option<Word>,
)
    ensures
        normalized(
            Instruction::TWO {
                opcode,
                src,
                dam,
                b,
                sam: AddressMode::ConstNeg1,
                dest,
                src_index,
                dest_index,
            },
        ) == (Instruction::TWO_SIGNED {
            opcode,
            src: SrcReg(PC),
            dam,
            b,
            sam: AddressMode::IndirectIncrement,
            dest,
            src_index: Some(SignedWord(-1i16)),
            dest_index,
        }),
{
}

/// Absolute addressing passes through unchanged, its extension word with
/// it, and so does every other mode that is no alias of a constant.
pub proof fn lemma_normalized_unchanged(
    opcode: TwoOpcode,
    src: SrcReg,
    dam: AddressMode,
    b: Bbit,
    sam: AddressMode,
    dest: DestReg,
    src_index: Option<Word>,
    dest_index: Option<Word>,
)
    requires
        sam == AddressMode::AbsoluteAddressing || sam == AddressMode::Direct || sam
            == AddressMode::Indexed || sam == AddressMode::Indirect || sam
            == AddressMode::IndirectIncrement,
    ensures
        normalized(Instruction::TWO { opcode, src, dam, b, sam, dest, src_index, dest_index })
            == (Instruction::TWO { opcode, src, dam, b, sam, dest, src_index, dest_index }),
{
}

/// Normalising leaves no alias in the source, normalising again changes
/// nothing, and an instruction that carries its extension words still
/// does afterwards.
pub proof fn lemma_normalized_canonical(instruction: Instruction)
    ensures
        instruction.well_formed() ==> normalized(instruction).well_formed(),
        has_canonical_source(instruction) ==> normalized(instruction) == instruction,
        has_canonical_source(normalized(instruction)),
        normalized(normalized(instruction)) == normalized(instruction),
{
}

} // verus!
