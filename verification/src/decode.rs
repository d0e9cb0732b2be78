//! The instruction decoder: from the word under the cursor, and the
//! extension words that follow it, to one structured instruction.

use crate::bits::{bit, field, load_bit, load_bits, load_signed, signed_field};
use crate::instruction::{
    address_mode, address_mode_of, jump_opcode, jump_opcode_of, one_opcode, one_opcode_of,
    one_takes_word, two_opcode, two_opcode_of, two_takes_word, AddressMode, Bbit, DestReg,
    Instruction, InstructionFlavor, Offset, OneOpcode, SrcReg, Word, PC,
};
use crate::normalize::{check_special_am, normalized};
use crate::pseudo::{check_pseudo, resolved};
use crate::scope::{CurrentBinaryScope, DecodeError};
use vstd::prelude::*;

verus! {

/// The flavor of `word`. Bits 10 to 15 holding 0, 0, 1, 0, 0, 0 (from bit
/// 10 up) make a single-operand instruction; otherwise bits 13 to 15
/// holding 1, 0, 0 make a jump; everything else is a double-operand
/// instruction. The order matters: the first two patterns lie inside the
/// opcode space of the third.
pub open spec fn flavor_of(word: u16) -> InstructionFlavor {
    if field(word, 10, 6) == 0b000100 {
        InstructionFlavor::ONE
    } else if field(word, 13, 3) == 0b001 {
        InstructionFlavor::JMP
    } else {
        InstructionFlavor::TWO
    }
}

/// The displacement of the jump `word` in bytes: the ten low bits as a
/// signed word offset, doubled, plus the size of the jump itself.
pub open spec fn jump_offset_of(word: u16) -> int {
    signed_field(word, 0, 10) * 2 + 2
}

/// The register in the four bits of `word` from bit `lo` up.
pub open spec fn register_of(word: u16, lo: u16) -> u8 {
    field(word, lo, 4) as u8
}

/// The mode of the operand of a single-operand instruction, and of the
/// source of a double-operand instruction: bits 4 and 5, read on `reg`.
pub open spec fn wide_mode_of(word: u16, reg: u8) -> AddressMode {
    address_mode_of(reg, field(word, 4, 2) as u8)
}

/// The mode of the destination of a double-operand instruction: bit 7
/// alone, read on `reg` as the pattern 0 or 1.
pub open spec fn narrow_mode_of(word: u16, reg: u8) -> AddressMode {
    address_mode_of(
        reg,
        if bit(word, 7) {
            1u8
        } else {
            0u8
        },
    )
}

/// How many extension words the instruction `word` has when it is read as
/// `flavor`. An instruction without a valid opcode has none.
pub open spec fn extension_words(flavor: InstructionFlavor, word: u16) -> int {
    match flavor {
        InstructionFlavor::JMP => 0,
        InstructionFlavor::ONE => {
            let reg = register_of(word, 0);
            if one_opcode_of(field(word, 7, 3) as u8) is Some && one_takes_word(
                wide_mode_of(word, reg),
                reg,
            ) {
                1
            } else {
                0
            }
        },
        InstructionFlavor::TWO => {
            let src = register_of(word, 8);
            let dest = register_of(word, 0);
            if two_opcode_of(field(word, 12, 4) as u8) is Some {
                (if two_takes_word(wide_mode_of(word, src), src) {
                    1int
                } else {
                    0int
                }) + (if two_takes_word(narrow_mode_of(word, dest), dest) {
                    1int
                } else {
                    0int
                })
            } else {
                0
            }
        },
    }
}

/// The instruction that `word` is when it is read as `flavor` and followed
/// by the extension words `ext`, source before destination. An opcode
/// field without a table entry gives `Invalid`.
pub open spec fn decoded(flavor: InstructionFlavor, word: u16, ext: Seq<Word>) -> Instruction {
    match flavor {
        InstructionFlavor::JMP => match jump_opcode_of(field(word, 10, 3) as u8) {
            Some(condition) => Instruction::JMP {
                condition,
                offset: Offset(jump_offset_of(word) as i16),
            },
            None => Instruction::Invalid,
        },
        InstructionFlavor::ONE => match one_opcode_of(field(word, 7, 3) as u8) {
            Some(opcode) => {
                let reg = register_of(word, 0);
                let dam = wide_mode_of(word, reg);
                Instruction::ONE {
                    opcode,
                    b: Bbit(bit(word, 6)),
                    dam,
                    dest: DestReg(reg),
                    dest_index: if one_takes_word(dam, reg) {
                        Some(ext[0])
                    } else {
                        None
                    },
                }
            },
            None => Instruction::Invalid,
        },
        InstructionFlavor::TWO => match two_opcode_of(field(word, 12, 4) as u8) {
            Some(opcode) => {
                let src = register_of(word, 8);
                let dest = register_of(word, 0);
                let sam = wide_mode_of(word, src);
                let dam = narrow_mode_of(word, dest);
                let src_takes = two_takes_word(sam, src);
                Instruction::TWO {
                    opcode,
                    src: SrcReg(src),
                    dam,
                    b: Bbit(bit(word, 6)),
                    sam,
                    dest: DestReg(dest),
                    src_index: if src_takes {
                        Some(ext[0])
                    } else {
                        None
                    },
                    dest_index: if two_takes_word(dam, dest) {
                        Some(
                            ext[if src_takes {
                                1int
                            } else {
                                0int
                            }],
                        )
                    } else {
                        None
                    },
                }
            },
            None => Instruction::Invalid,
        },
    }
}

/// Classifies the word under the cursor.
pub fn get_instruction_flavor(scope: &CurrentBinaryScope) -> (r: InstructionFlavor)
    ensures
        r == flavor_of(scope.current_word.0),
{
    let word = scope.current_word.0;
    if load_bits(word, 10, 15) == 0b000100 {
        InstructionFlavor::ONE
    } else if load_bits(word, 13, 15) == 0b001 {
        InstructionFlavor::JMP
    } else {
        InstructionFlavor::TWO
    }
}

/// Consumes an extension word where the operand has one.
fn fetch_operand(scope: &mut CurrentBinaryScope, takes_word: bool) -> (r: Result<
    Option<Word>,
    DecodeError,
>)
    requires
        old(scope).wf(),
        old(scope).positioned(),
    ensures
        final(scope).wf(),
        final(scope).positioned(),
        final(scope).vec == old(scope).vec,
        final(scope).current_word == old(scope).current_word,
        !takes_word ==> {
            &&& r == Ok::<Option<Word>, DecodeError>(None)
            &&& *final(scope) == *old(scope)
        },
        takes_word && old(scope)@.remaining() >= 1 ==> r == Ok::<Option<Word>, DecodeError>(
            Some(old(scope)@.words[old(scope).index + 1]),
        ) && final(scope)@ == old(scope)@.fetched(1),
        takes_word && old(scope)@.remaining() < 1 ==> r == Err::<Option<Word>, DecodeError>(
            DecodeError::Truncated,
        ) && *final(scope) == *old(scope),
{
    if takes_word {
        match scope.get_next() {
            Ok(word) => Ok(Some(word)),
            Err(e) => Err(e),
        }
    } else {
        Ok(None)
    }
}

fn takes_word_one(mode: AddressMode, reg: u8) -> (r: bool)
    ensures
        r == one_takes_word(mode, reg),
{
    mode == AddressMode::Indexed || (mode == AddressMode::IndirectIncrement && reg == PC)
}

fn takes_word_two(mode: AddressMode, reg: u8) -> (r: bool)
    ensures
        r == two_takes_word(mode, reg),
{
    takes_word_one(mode, reg) || mode == AddressMode::AbsoluteAddressing
}

/// Decodes the instruction under the cursor as one of flavor `flavor`,
/// consuming its extension words, the source's before the destination's.
///
/// Where the stream ends before the last extension word, the result is
/// `Truncated` and the cursor has consumed the words that were there.
pub fn get_instruction(flavor: InstructionFlavor, scope: &mut CurrentBinaryScope) -> (r: Result<
    Instruction,
    DecodeError,
>)
    requires
        old(scope).wf(),
        old(scope).positioned(),
    ensures
        final(scope).wf(),
        final(scope).positioned(),
        final(scope).vec == old(scope).vec,
        ({
            let word = old(scope).current_word.0;
            let need = extension_words(flavor, word);
            let have = old(scope)@.remaining();
            let first = old(scope).index + 1;
            if need <= have {
                &&& r == Ok::<Instruction, DecodeError>(
                    decoded(flavor, word, old(scope)@.words.subrange(first, first + need)),
                )
                &&& r.unwrap().well_formed()
                &&& final(scope)@ == old(scope)@.fetched(need)
            } else {
                &&& r == Err::<Instruction, DecodeError>(DecodeError::Truncated)
                &&& final(scope)@ == old(scope)@.fetched(have)
            }
        }),
{
    let word = scope.current_word.0;
    match flavor {
        InstructionFlavor::ONE => {
            let opcode = match one_opcode(load_bits(word, 7, 9)) {
                Some(opcode) => opcode,
                None => {
                    return Ok(Instruction::Invalid);
                },
            };
            let b = Bbit(load_bit(word, 6));
            let dest = DestReg(load_bits(word, 0, 3));
            proof {
                assert(field(word, 4, 2) < 4) by (bit_vector);
            }
            let dam = address_mode(dest.0, load_bits(word, 4, 5));
            let dest_index = fetch_operand(scope, takes_word_one(dam, dest.0))?;
            Ok(Instruction::ONE { opcode, b, dam, dest, dest_index })
        },
        InstructionFlavor::TWO => {
            let opcode = match two_opcode(load_bits(word, 12, 15)) {
                Some(opcode) => opcode,
                None => {
                    return Ok(Instruction::Invalid);
                },
            };
            let src = SrcReg(load_bits(word, 8, 11));
            let b = Bbit(load_bit(word, 6));
            let dest = DestReg(load_bits(word, 0, 3));
            proof {
                assert(field(word, 4, 2) < 4) by (bit_vector);
            }
            let sam = address_mode(src.0, load_bits(word, 4, 5));
            let dam = address_mode(
                dest.0,
                if load_bit(word, 7) {
                    1
                } else {
                    0
                },
            );
            let src_index = fetch_operand(scope, takes_word_two(sam, src.0))?;
            let dest_index = fetch_operand(scope, takes_word_two(dam, dest.0))?;
            Ok(Instruction::TWO { opcode, src, dam, b, sam, dest, src_index, dest_index })
        },
        InstructionFlavor::JMP => {
            let condition = match jump_opcode(load_bits(word, 10, 12)) {
                Some(condition) => condition,
                None => {
                    return Ok(Instruction::Invalid);
                },
            };
            proof {
                assert(-512 <= signed_field(word, 0, 10) < 512) by (bit_vector);
            }
            let offset = Offset(load_signed(word, 0, 9) * 2 + 2);
            Ok(Instruction::JMP { condition, offset })
        },
    }
}

/// What the whole pipeline makes of an instruction word: decoded by its
/// own flavor, normalised, and replaced by its idiom where it has one.
pub open spec fn disassembled(word: u16, ext: Seq<Word>) -> Instruction {
    resolved(normalized(decoded(flavor_of(word), word, ext)))
}

/// Runs the pipeline on the instruction under the cursor: classifies it,
/// decodes it with its extension words, normalises it and recognises its
/// idiom.
///
/// Where the stream ends before the last extension word, the result is
/// `Truncated` and the cursor has consumed the words that were there.
pub fn disassemble(scope: &mut CurrentBinaryScope) -> (r: Result<Instruction, DecodeError>)
    requires
        old(scope).wf(),
        old(scope).positioned(),
    ensures
        final(scope).wf(),
        final(scope).positioned(),
        final(scope).vec == old(scope).vec,
        ({
            let word = old(scope).current_word.0;
            let need = extension_words(flavor_of(word), word);
            let have = old(scope)@.remaining();
            let first = old(scope).index + 1;
            if need <= have {
                &&& r == Ok::<Instruction, DecodeError>(
                    disassembled(word, old(scope)@.words.subrange(first, first + need)),
                )
                &&& r.unwrap().well_formed()
                &&& final(scope)@ == old(scope)@.fetched(need)
            } else {
                &&& r == Err::<Instruction, DecodeError>(DecodeError::Truncated)
                &&& final(scope)@ == old(scope)@.fetched(have)
            }
        }),
{
    let flavor = get_instruction_flavor(scope);
    let instruction = check_special_am(&get_instruction(flavor, scope)?);
    match check_pseudo(instruction) {
        Some(idiom) => Ok(idiom),
        None => Ok(instruction),
    }
}

/// The single-operand word with the given opcode, size flag, mode and
/// register fields.
pub open spec fn one_word(opcode: u8, b: bool, mode: u8, reg: u8) -> u16 {
    (0b000100u16 << 10) | ((opcode as u16) << 7) | ((if b {
        1u16
    } else {
        0u16
    }) << 6) | ((mode as u16) << 4) | (reg as u16)
}

/// Whatever the flavor, the word and the words that follow, a decoded
/// instruction carries an extension word exactly where an operand of its
/// calls for one; a jump carries none.
pub proof fn lemma_decoded_well_formed(flavor: InstructionFlavor, word: u16, ext: Seq<Word>)
    ensures
        decoded(flavor, word, ext).well_formed(),
        disassembled(word, ext).well_formed(),
{
}

/// The opcode field that the table maps to `opcode`.
pub open spec fn one_opcode_bits(opcode: OneOpcode) -> u8 {
    match opcode {
        OneOpcode::RRC => 0b000,
        OneOpcode::SWPB => 0b001,
        OneOpcode::RRA => 0b010,
        OneOpcode::SXT => 0b011,
        OneOpcode::PUSH => 0b100,
        OneOpcode::CALL => 0b101,
        OneOpcode::RETI => 0b110,
    }
}

/// The mode bits that some register reads as `mode`.
pub open spec fn mode_bits(mode: AddressMode) -> u8 {
    match mode {
        AddressMode::Direct | AddressMode::Const0 => 0b00,
        AddressMode::Indexed | AddressMode::AbsoluteAddressing | AddressMode::Const1 => 0b01,
        AddressMode::Indirect | AddressMode::Const4 | AddressMode::Const2 => 0b10,
        AddressMode::IndirectIncrement | AddressMode::Const8 | AddressMode::ConstNeg1 => 0b11,
    }
}

/// The first word of a single-operand instruction, put together from its
/// opcode, size flag, mode and register.
pub open spec fn encoded_one(instruction: Instruction) -> u16
    recommends
        instruction is ONE,
{
    match instruction {
        Instruction::ONE { opcode, b, dam, dest, .. } => one_word(
            one_opcode_bits(opcode),
            b.0,
            mode_bits(dam),
            dest.0,
        ),
        _ => 0,
    }
}

/// Decoding a single-operand word and encoding the result gives the word
/// back, and so the same flavor; the one exception is the opcode pattern
/// without a table entry, which decodes to `Invalid`. Classification is
/// total and looks at the word alone.
pub proof fn lemma_encode_decoded_one(word: u16, ext: Seq<Word>)
    requires
        flavor_of(word) == InstructionFlavor::ONE,
    ensures
        decoded(InstructionFlavor::ONE, word, ext) is Invalid <==> field(word, 7, 3) == 0b111,
        !(decoded(InstructionFlavor::ONE, word, ext) is Invalid) ==> {
            &&& decoded(InstructionFlavor::ONE, word, ext) is ONE
            &&& encoded_one(decoded(InstructionFlavor::ONE, word, ext)) == word
            &&& flavor_of(encoded_one(decoded(InstructionFlavor::ONE, word, ext)))
                == InstructionFlavor::ONE
        },
{
    assert(field(word, 7, 3) < 8 && field(word, 4, 2) < 4 && field(word, 0, 4) < 16)
        by (bit_vector);
    lemma_one_word_of_fields(word);
}

/// A word is a single-operand instruction exactly when it lies in
/// `0x1000..0x1400`, and a jump exactly when it lies in `0x2000..0x4000`:
/// every word has one flavor, fixed by its high bits alone.
pub proof fn lemma_flavor_ranges(word: u16)
    ensures
        flavor_of(word) == InstructionFlavor::ONE <==> 0x1000 <= word < 0x1400,
        flavor_of(word) == InstructionFlavor::JMP <==> 0x2000 <= word < 0x4000,
        flavor_of(word) == InstructionFlavor::TWO <==> word < 0x1000 || 0x1400 <= word < 0x2000
            || 0x4000 <= word,
{
    assert(field(word, 10, 6) == 0b000100 <==> 0x1000 <= word < 0x1400) by (bit_vector);
    assert(field(word, 13, 3) == 0b001 <==> 0x2000 <= word < 0x4000) by (bit_vector);
}

/// Putting the opcode, size flag, mode and register fields of a
/// single-operand word together again gives the word back, and with it the
/// same flavor.
pub proof fn lemma_one_word_of_fields(word: u16)
    requires
        flavor_of(word) == InstructionFlavor::ONE,
    ensures
        one_word(
            field(word, 7, 3) as u8,
            bit(word, 6),
            field(word, 4, 2) as u8,
            register_of(word, 0),
        ) == word,
        flavor_of(
            one_word(
                field(word, 7, 3) as u8,
                bit(word, 6),
                field(word, 4, 2) as u8,
                register_of(word, 0),
            ),
        ) == InstructionFlavor::ONE,
{
    assert(field(word, 10, 6) == 0b000100 ==> one_word(
        field(word, 7, 3) as u8,
        bit(word, 6),
        field(word, 4, 2) as u8,
        field(word, 0, 4) as u8,
    ) == word) by (bit_vector);
}

/// A word put together from fields in range is a single-operand word and
/// holds those fields.
pub proof fn lemma_fields_of_one_word(opcode: u8, b: bool, mode: u8, reg: u8)
    requires
        opcode < 8,
        mode < 4,
        reg < 16,
    ensures
        flavor_of(one_word(opcode, b, mode, reg)) == InstructionFlavor::ONE,
        field(one_word(opcode, b, mode, reg), 7, 3) == opcode,
        bit(one_word(opcode, b, mode, reg), 6) == b,
        field(one_word(opcode, b, mode, reg), 4, 2) == mode,
        register_of(one_word(opcode, b, mode, reg), 0) == reg,
{
    assert(opcode < 8 && mode < 4 && reg < 16 ==> field(one_word(opcode, b, mode, reg), 10, 6)
        == 0b000100 && field(one_word(opcode, b, mode, reg), 7, 3) == opcode && bit(
        one_word(opcode, b, mode, reg),
        6,
    ) == b && field(one_word(opcode, b, mode, reg), 4, 2) == mode && field(
        one_word(opcode, b, mode, reg),
        0,
        4,
    ) == reg) by (bit_vector);
}

} // verus!
