//! Text for decoded instructions: the mnemonic and the operands in
//! assembler syntax, and the consumed words as hexadecimal groups.

use crate::instruction::{
    AddressMode, Bbit, DestReg, Instruction, JmpOpcode, OneOpcode, SrcReg, TwoOpcode, Word, PC,
};
use crate::pseudo::PsuedoOpcode;
use crate::scope::UsedWords;
use vstd::prelude::*;

verus! {

/// The digit `d` of a number in base ten or sixteen, in lower case.
pub open spec fn digit_text(d: int) -> Seq<char> {
    if d == 0 {
        "0"@
    } else if d == 1 {
        "1"@
    } else if d == 2 {
        "2"@
    } else if d == 3 {
        "3"@
    } else if d == 4 {
        "4"@
    } else if d == 5 {
        "5"@
    } else if d == 6 {
        "6"@
    } else if d == 7 {
        "7"@
    } else if d == 8 {
        "8"@
    } else if d == 9 {
        "9"@
    } else if d == 10 {
        "a"@
    } else if d == 11 {
        "b"@
    } else if d == 12 {
        "c"@
    } else if d == 13 {
        "d"@
    } else if d == 14 {
        "e"@
    } else {
        "f"@
    }
}

/// The digits of `n` in base sixteen, without leading zeros.
pub open spec fn hex_digits(n: int) -> Seq<char>
    decreases n,
{
    if n < 16 {
        digit_text(n)
    } else {
        hex_digits(n / 16) + digit_text(n % 16)
    }
}

/// The digits of `n` in base ten, without leading zeros.
pub open spec fn decimal_digits(n: int) -> Seq<char>
    decreases n,
{
    if n < 10 {
        digit_text(n)
    } else {
        decimal_digits(n / 10) + digit_text(n % 10)
    }
}

/// `value` in hexadecimal with the prefix `0x`, without leading zeros.
pub open spec fn hex_text(value: u16) -> Seq<char> {
    "0x"@ + hex_digits(value as int)
}

/// `value` as four hexadecimal digits.
pub open spec fn hex4_text(value: u16) -> Seq<char> {
    let n = value as int;
    digit_text(n / 0x1000) + digit_text(n / 0x100 % 16) + digit_text(n / 0x10 % 16) + digit_text(
        n % 16,
    )
}

/// `value` with its two bytes exchanged.
pub open spec fn swapped(value: u16) -> u16 {
    ((value % 256) * 256 + value / 256) as u16
}

/// The consumed words as groups of four hexadecimal digits with a blank
/// between them, each group in the byte order of the file.
pub open spec fn words_text(words: Seq<Word>) -> Seq<char>
    decreases words.len(),
{
    if words.len() == 0 {
        Seq::<char>::empty()
    } else if words.len() == 1 {
        hex4_text(swapped(words[0].0))
    } else {
        words_text(words.drop_last()) + " "@ + hex4_text(swapped(words.last().0))
    }
}

/// The suffix of a byte operation.
pub open spec fn size_text(b: Bbit) -> Seq<char> {
    if b.0 {
        ".B"@
    } else {
        Seq::<char>::empty()
    }
}

/// The name of a source register.
pub open spec fn source_text(reg: SrcReg) -> Seq<char> {
    if reg.0 == 0 {
        "PC"@
    } else if reg.0 == 1 {
        "SP"@
    } else if reg.0 == 2 {
        "SR"@
    } else if reg.0 == 3 {
        "ZR"@
    } else {
        "r"@ + decimal_digits(reg.0 as int)
    }
}

/// The name of a destination register.
pub open spec fn destination_text(reg: DestReg) -> Seq<char> {
    if reg.0 == 0 {
        "PC"@
    } else if reg.0 == 1 {
        "SP"@
    } else if reg.0 == 2 {
        "SR"@
    } else {
        "r"@ + decimal_digits(reg.0 as int)
    }
}

/// The mnemonic of a jump.
pub open spec fn jump_name(condition: JmpOpcode) -> Seq<char> {
    match condition {
        JmpOpcode::JNE => "JNE"@,
        JmpOpcode::JEQ => "JEQ"@,
        JmpOpcode::JLO => "JLO"@,
        JmpOpcode::JHS => "JHS"@,
        JmpOpcode::JN => "JN"@,
        JmpOpcode::JGE => "JGE"@,
        JmpOpcode::JL => "JL"@,
        JmpOpcode::JMP => "JMP"@,
    }
}

/// The mnemonic of a single-operand instruction.
pub open spec fn one_name(opcode: OneOpcode) -> Seq<char> {
    match opcode {
        OneOpcode::RRC => "RRC"@,
        OneOpcode::SWPB => "SWPB"@,
        OneOpcode::RRA => "RRA"@,
        OneOpcode::SXT => "SXT"@,
        OneOpcode::PUSH => "PUSH"@,
        OneOpcode::CALL => "CALL"@,
        OneOpcode::RETI => "RETI"@,
    }
}

/// The mnemonic of a double-operand instruction.
pub open spec fn two_name(opcode: TwoOpcode) -> Seq<char> {
    match opcode {
        TwoOpcode::MOV => "MOV"@,
        TwoOpcode::ADD => "ADD"@,
        TwoOpcode::ADDC => "ADDC"@,
        TwoOpcode::SUBC => "SUBC"@,
        TwoOpcode::SUB => "SUB"@,
        TwoOpcode::CMP => "CMP"@,
        TwoOpcode::DADD => "DADD"@,
        TwoOpcode::BIT => "BIT"@,
        TwoOpcode::BIC => "BIC"@,
        TwoOpcode::BIS => "BIS"@,
        TwoOpcode::XOR => "XOR"@,
        TwoOpcode::AND => "AND"@,
    }
}

/// The mnemonic of an idiom.
pub open spec fn pseudo_name(opcode: PsuedoOpcode) -> Seq<char> {
    match opcode {
        PsuedoOpcode::NOP => "NOP"@,
        PsuedoOpcode::POP => "POP"@,
        PsuedoOpcode::BR => "BR"@,
        PsuedoOpcode::RET => "RET"@,
        PsuedoOpcode::CLRC => "CLRC"@,
        PsuedoOpcode::SETC => "SETC"@,
        PsuedoOpcode::CLRZ => "CLRZ"@,
        PsuedoOpcode::SETZ => "SETZ"@,
        PsuedoOpcode::CLRN => "CLRN"@,
        PsuedoOpcode::SETN => "SETN"@,
        PsuedoOpcode::DINT => "DINT"@,
        PsuedoOpcode::EINT => "EINT"@,
        PsuedoOpcode::RLA => "RLA"@,
        PsuedoOpcode::RLC => "RLC"@,
        PsuedoOpcode::INV => "INV"@,
        PsuedoOpcode::CLR => "CLR"@,
        PsuedoOpcode::TST => "TST"@,
        PsuedoOpcode::DEC => "DEC"@,
        PsuedoOpcode::DECD => "DECD"@,
        PsuedoOpcode::INC => "INC"@,
        PsuedoOpcode::INCD => "INCD"@,
        PsuedoOpcode::ADC => "ADC"@,
        PsuedoOpcode::DADC => "DADC"@,
        PsuedoOpcode::SBC => "SBC"@,
    }
}

/// The mark of an indirect operand.
pub open spec fn indirect_text(mode: AddressMode) -> Seq<char> {
    if mode == AddressMode::Indirect || mode == AddressMode::IndirectIncrement {
        "@"@
    } else {
        Seq::<char>::empty()
    }
}

/// The mark of an autoincrement operand.
pub open spec fn increment_text(mode: AddressMode) -> Seq<char> {
    if mode == AddressMode::IndirectIncrement {
        "+"@
    } else {
        Seq::<char>::empty()
    }
}

/// An extension word in brackets, or nothing where there is none.
pub open spec fn bracket_text(index: Option<Word>) -> Seq<char> {
    match index {
        Some(word) => "("@ + hex_text(word.0) + ")"@,
        None => Seq::<char>::empty(),
    }
}

/// The index of an indexed operand in brackets; nothing for another mode.
pub open spec fn indexing_text(mode: AddressMode, index: Option<Word>) -> Seq<char> {
    if mode == AddressMode::Indexed {
        bracket_text(index)
    } else {
        Seq::<char>::empty()
    }
}

/// The magnitude of an offset.
pub open spec fn magnitude(offset: i16) -> u16 {
    if offset >= 0 {
        offset as u16
    } else {
        (-offset) as u16
    }
}

/// The bits of a signed immediate as an unsigned word.
pub open spec fn unsigned_bits(value: i16) -> u16 {
    if value >= 0 {
        value as u16
    } else {
        (value + 0x10000) as u16
    }
}

/// The text of a jump: the mnemonic, then the displacement from the jump
/// as `$+` or `$-` and its magnitude.
pub open spec fn jump_text(condition: JmpOpcode, offset: i16) -> Seq<char> {
    jump_name(condition) + "    $"@ + (if offset >= 0 {
        "+"@
    } else {
        "-"@
    }) + hex_text(magnitude(offset))
}

/// The text of a single-operand instruction. An immediate operand is
/// written `#value`; every other operand as its extension word in
/// brackets, the indirection mark, the index in brackets, the register and
/// the autoincrement mark, as far as it has them.
pub open spec fn one_text(
    opcode: OneOpcode,
    b: Bbit,
    dam: AddressMode,
    dest: DestReg,
    dest_index: Option<Word>,
) -> Seq<char> {
    if dam == AddressMode::IndirectIncrement && dest.0 == PC && dest_index is Some {
        one_name(opcode) + "   "@ + size_text(b) + " #"@ + hex_text(dest_index.unwrap().0)
    } else {
        one_name(opcode) + size_text(b) + "   "@ + bracket_text(dest_index) + indirect_text(dam)
            + indexing_text(dam, dest_index) + destination_text(dest) + increment_text(dam)
    }
}

/// The text of a double-operand instruction: the first form that applies
/// of an immediate source `#value`, an absolute source `&address`, an
/// absolute destination `&address`, and the general form of both operands.
pub open spec fn two_text(
    opcode: TwoOpcode,
    src: SrcReg,
    dam: AddressMode,
    b: Bbit,
    sam: AddressMode,
    dest: DestReg,
    src_index: Option<Word>,
    dest_index: Option<Word>,
) -> Seq<char> {
    let head = two_name(opcode) + size_text(b) + "    "@;
    if sam == AddressMode::IndirectIncrement && src.0 == PC && src_index is Some {
        head + "#"@ + hex_text(src_index.unwrap().0) + ", "@ + indexing_text(dam, dest_index)
            + destination_text(dest)
    } else if sam == AddressMode::AbsoluteAddressing && src_index is Some {
        head + "&"@ + hex_text(src_index.unwrap().0) + ", "@ + destination_text(dest)
    } else if dam == AddressMode::AbsoluteAddressing && dest_index is Some {
        head + source_text(src) + ", &"@ + hex_text(dest_index.unwrap().0)
    } else {
        head + indirect_text(sam) + indexing_text(sam, src_index) + source_text(src)
            + increment_text(sam) + ", "@ + indexing_text(dam, dest_index) + destination_text(
            dest,
        )
    }
}

/// The text of a double-operand instruction with a signed immediate, whose
/// bits are written as an unsigned word; the index of an indexed operand
/// is not written in this shape.
pub open spec fn two_signed_text(
    opcode: TwoOpcode,
    src: SrcReg,
    dam: AddressMode,
    b: Bbit,
    sam: AddressMode,
    dest: DestReg,
    src_index: Option<u16>,
    dest_index: Option<Word>,
) -> Seq<char> {
    let head = two_name(opcode) + size_text(b) + "    "@;
    if sam == AddressMode::IndirectIncrement && src.0 == PC && src_index is Some {
        head + "#"@ + hex_text(src_index.unwrap()) + ", "@ + destination_text(dest)
    } else if sam == AddressMode::AbsoluteAddressing && src_index is Some {
        head + "&"@ + hex_text(src_index.unwrap()) + ", "@ + destination_text(dest)
    } else if dam == AddressMode::AbsoluteAddressing && dest_index is Some {
        head + source_text(src) + ", &"@ + hex_text(dest_index.unwrap().0)
    } else {
        head + indirect_text(sam) + source_text(src) + increment_text(sam) + ", "@
            + destination_text(dest)
    }
}

/// The text of an idiom: the mnemonic and the destination that it keeps,
/// written `&address` where it is absolute.
pub open spec fn pseudo_text(
    dest_index: Option<Word>,
    opcode: PsuedoOpcode,
    b: Bbit,
    dam: AddressMode,
    dest: Option<DestReg>,
) -> Seq<char> {
    if dam == AddressMode::AbsoluteAddressing && dest_index is Some {
        pseudo_name(opcode) + size_text(b) + "     &"@ + hex_text(dest_index.unwrap().0)
    } else {
        pseudo_name(opcode) + size_text(b) + "    "@ + (match dest {
            Some(reg) => destination_text(reg),
            None => Seq::<char>::empty(),
        })
    }
}

/// The line of assembly for `instruction`.
pub open spec fn rendered(instruction: Instruction) -> Seq<char> {
    match instruction {
        Instruction::Invalid => "Invalid Instruction!"@,
        Instruction::JMP { condition, offset } => jump_text(condition, offset.0),
        Instruction::ONE { opcode, b, dam, dest, dest_index } => one_text(
            opcode,
            b,
            dam,
            dest,
            dest_index,
        ),
        Instruction::TWO { opcode, src, dam, b, sam, dest, src_index, dest_index } => two_text(
            opcode,
            src,
            dam,
            b,
            sam,
            dest,
            src_index,
            dest_index,
        ),
        Instruction::TWO_SIGNED {
            opcode,
            src,
            dam,
            b,
            sam,
            dest,
            src_index,
            dest_index,
        } => two_signed_text(
            opcode,
            src,
            dam,
            b,
            sam,
            dest,
            match src_index {
                Some(value) => Some(unsigned_bits(value.0)),
                None => None,
            },
            dest_index,
        ),
        Instruction::PSEUDO { dest_index, opcode, b, dam, dest } => pseudo_text(
            dest_index,
            opcode,
            b,
            dam,
            dest,
        ),
    }
}

fn digit(d: u16) -> (r: &'static str)
    requires
        d < 16,
    ensures
        r@ == digit_text(d as int),
{
    match d {
        0 => "0",
        1 => "1",
        2 => "2",
        3 => "3",
        4 => "4",
        5 => "5",
        6 => "6",
        7 => "7",
        8 => "8",
        9 => "9",
        10 => "a",
        11 => "b",
        12 => "c",
        13 => "d",
        14 => "e",
        _ => "f",
    }
}

fn push_hex(out: &mut String, value: u16)
    ensures
        final(out)@ == old(out)@ + hex_text(value),
{
    reveal_with_fuel(hex_digits, 4);
    out.append("0x");
    if value >= 0x1000 {
        out.append(digit(value / 0x1000));
    }
    if value >= 0x100 {
        out.append(digit(value / 0x100 % 16));
    }
    if value >= 0x10 {
        out.append(digit(value / 0x10 % 16));
    }
    out.append(digit(value % 16));
    assert(out@ =~= old(out)@ + hex_text(value));
}

fn push_hex4(out: &mut String, value: u16)
    ensures
        final(out)@ == old(out)@ + hex4_text(value),
{
    out.append(digit(value / 0x1000));
    out.append(digit(value / 0x100 % 16));
    out.append(digit(value / 0x10 % 16));
    out.append(digit(value % 16));
    assert(out@ =~= old(out)@ + hex4_text(value));
}

fn push_decimal(out: &mut String, value: u8)
    ensures
        final(out)@ == old(out)@ + decimal_digits(value as int),
{
    reveal_with_fuel(decimal_digits, 3);
    let value: u16 = value as u16;
    if value >= 100 {
        out.append(digit(value / 100));
    }
    if value >= 10 {
        out.append(digit(value / 10 % 10));
    }
    out.append(digit(value % 10));
    assert(out@ =~= old(out)@ + decimal_digits(value as int));
}

fn push_source(out: &mut String, reg: SrcReg)
    ensures
        final(out)@ == old(out)@ + source_text(reg),
{
    match reg.0 {
        0 => out.append("PC"),
        1 => out.append("SP"),
        2 => out.append("SR"),
        3 => out.append("ZR"),
        num => {
            out.append("r");
            push_decimal(out, num);
            assert(out@ =~= old(out)@ + source_text(reg));
        },
    }
}

fn push_destination(out: &mut String, reg: DestReg)
    ensures
        final(out)@ == old(out)@ + destination_text(reg),
{
    match reg.0 {
        0 => out.append("PC"),
        1 => out.append("SP"),
        2 => out.append("SR"),
        num => {
            out.append("r");
            push_decimal(out, num);
            assert(out@ =~= old(out)@ + destination_text(reg));
        },
    }
}

fn push_bracket(out: &mut String, index: Option<Word>)
    ensures
        final(out)@ == old(out)@ + bracket_text(index),
{
    match index {
        Some(word) => {
            out.append("(");
            push_hex(out, word.0);
            out.append(")");
        },
        None => {},
    }
    assert(out@ =~= old(out)@ + bracket_text(index));
}

fn push_indexing(out: &mut String, mode: AddressMode, index: Option<Word>)
    ensures
        final(out)@ == old(out)@ + indexing_text(mode, index),
{
    if mode == AddressMode::Indexed {
        push_bracket(out, index);
    }
    assert(out@ =~= old(out)@ + indexing_text(mode, index));
}

fn size_suffix(b: Bbit) -> (r: &'static str)
    ensures
        r@ == size_text(b),
{
    proof {
        reveal_strlit("");
    }
    if b.0 {
        ".B"
    } else {
        ""
    }
}

fn indirect_mark(mode: AddressMode) -> (r: &'static str)
    ensures
        r@ == indirect_text(mode),
{
    proof {
        reveal_strlit("");
    }
    match mode {
        AddressMode::Indirect | AddressMode::IndirectIncrement => "@",
        _ => "",
    }
}

fn increment_mark(mode: AddressMode) -> (r: &'static str)
    ensures
        r@ == increment_text(mode),
{
    proof {
        reveal_strlit("");
    }
    match mode {
        AddressMode::IndirectIncrement => "+",
        _ => "",
    }
}

fn jump_mnemonic(condition: JmpOpcode) -> (r: &'static str)
    ensures
        r@ == jump_name(condition),
{
    match condition {
        JmpOpcode::JNE => "JNE",
        JmpOpcode::JEQ => "JEQ",
        JmpOpcode::JLO => "JLO",
        JmpOpcode::JHS => "JHS",
        JmpOpcode::JN => "JN",
        JmpOpcode::JGE => "JGE",
        JmpOpcode::JL => "JL",
        JmpOpcode::JMP => "JMP",
    }
}

fn one_mnemonic(opcode: OneOpcode) -> (r: &'static str)
    ensures
        r@ == one_name(opcode),
{
    match opcode {
        OneOpcode::RRC => "RRC",
        OneOpcode::SWPB => "SWPB",
        OneOpcode::RRA => "RRA",
        OneOpcode::SXT => "SXT",
        OneOpcode::PUSH => "PUSH",
        OneOpcode::CALL => "CALL",
        OneOpcode::RETI => "RETI",
    }
}

fn two_mnemonic(opcode: TwoOpcode) -> (r: &'static str)
    ensures
        r@ == two_name(opcode),
{
    match opcode {
        TwoOpcode::MOV => "MOV",
        TwoOpcode::ADD => "ADD",
        TwoOpcode::ADDC => "ADDC",
        TwoOpcode::SUBC => "SUBC",
        TwoOpcode::SUB => "SUB",
        TwoOpcode::CMP => "CMP",
        TwoOpcode::DADD => "DADD",
        TwoOpcode::BIT => "BIT",
        TwoOpcode::BIC => "BIC",
        TwoOpcode::BIS => "BIS",
        TwoOpcode::XOR => "XOR",
        TwoOpcode::AND => "AND",
    }
}

fn pseudo_mnemonic(opcode: PsuedoOpcode) -> (r: &'static str)
    ensures
        r@ == pseudo_name(opcode),
{
    match opcode {
        PsuedoOpcode::NOP => "NOP",
        PsuedoOpcode::POP => "POP",
        PsuedoOpcode::BR => "BR",
        PsuedoOpcode::RET => "RET",
        PsuedoOpcode::CLRC => "CLRC",
        PsuedoOpcode::SETC => "SETC",
        PsuedoOpcode::CLRZ => "CLRZ",
        PsuedoOpcode::SETZ => "SETZ",
        PsuedoOpcode::CLRN => "CLRN",
        PsuedoOpcode::SETN => "SETN",
        PsuedoOpcode::DINT => "DINT",
        PsuedoOpcode::EINT => "EINT",
        PsuedoOpcode::RLA => "RLA",
        PsuedoOpcode::RLC => "RLC",
        PsuedoOpcode::INV => "INV",
        PsuedoOpcode::CLR => "CLR",
        PsuedoOpcode::TST => "TST",
        PsuedoOpcode::DEC => "DEC",
        PsuedoOpcode::DECD => "DECD",
        PsuedoOpcode::INC => "INC",
        PsuedoOpcode::INCD => "INCD",
        PsuedoOpcode::ADC => "ADC",
        PsuedoOpcode::DADC => "DADC",
        PsuedoOpcode::SBC => "SBC",
    }
}

fn render_jump(condition: JmpOpcode, offset: i16) -> (r: String)
    ensures
        r@ == jump_text(condition, offset),
{
    let mut out = String::new();
    out.append(jump_mnemonic(condition));
    out.append("    $");
    let size: u16 = if offset >= 0 {
        out.append("+");
        offset as u16
    } else {
        out.append("-");
        (-(offset as i32)) as u16
    };
    push_hex(&mut out, size);
    assert(out@ =~= jump_text(condition, offset));
    out
}

fn render_one(
    opcode: OneOpcode,
    b: Bbit,
    dam: AddressMode,
    dest: DestReg,
    dest_index: Option<Word>,
) -> (r: String)
    ensures
        r@ == one_text(opcode, b, dam, dest, dest_index),
{
    let mut out = String::new();
    out.append(one_mnemonic(opcode));
    if dam == AddressMode::IndirectIncrement && dest.0 == PC {
        if let Some(word) = dest_index {
            out.append("   ");
            out.append(size_suffix(b));
            out.append(" #");
            push_hex(&mut out, word.0);
            assert(out@ =~= one_text(opcode, b, dam, dest, dest_index));
            return out;
        }
    }
    out.append(size_suffix(b));
    out.append("   ");
    push_bracket(&mut out, dest_index);
    out.append(indirect_mark(dam));
    push_indexing(&mut out, dam, dest_index);
    push_destination(&mut out, dest);
    out.append(increment_mark(dam));
    assert(out@ =~= one_text(opcode, b, dam, dest, dest_index));
    out
}

fn render_two(
    opcode: TwoOpcode,
    src: SrcReg,
    dam: AddressMode,
    b: Bbit,
    sam: AddressMode,
    dest: DestReg,
    src_index: Option<Word>,
    dest_index: Option<Word>,
) -> (r: String)
    ensures
        r@ == two_text(opcode, src, dam, b, sam, dest, src_index, dest_index),
{
    let mut out = String::new();
    out.append(two_mnemonic(opcode));
    out.append(size_suffix(b));
    out.append("    ");
    if let Some(word) = src_index {
        if sam == AddressMode::IndirectIncrement && src.0 == PC {
            out.append("#");
            push_hex(&mut out, word.0);
            out.append(", ");
            push_indexing(&mut out, dam, dest_index);
            push_destination(&mut out, dest);
            assert(out@ =~= two_text(opcode, src, dam, b, sam, dest, src_index, dest_index));
            return out;
        }
        if sam == AddressMode::AbsoluteAddressing {
            out.append("&");
            push_hex(&mut out, word.0);
            out.append(", ");
            push_destination(&mut out, dest);
            assert(out@ =~= two_text(opcode, src, dam, b, sam, dest, src_index, dest_index));
            return out;
        }
    }
    if let Some(word) = dest_index {
        if dam == AddressMode::AbsoluteAddressing {
            push_source(&mut out, src);
            out.append(", &");
            push_hex(&mut out, word.0);
            assert(out@ =~= two_text(opcode, src, dam, b, sam, dest, src_index, dest_index));
            return out;
        }
    }
    out.append(indirect_mark(sam));
    push_indexing(&mut out, sam, src_index);
    push_source(&mut out, src);
    out.append(increment_mark(sam));
    out.append(", ");
    push_indexing(&mut out, dam, dest_index);
    push_destination(&mut out, dest);
    assert(out@ =~= two_text(opcode, src, dam, b, sam, dest, src_index, dest_index));
    out
}

fn render_two_signed(
    opcode: TwoOpcode,
    src: SrcReg,
    dam: AddressMode,
    b: Bbit,
    sam: AddressMode,
    dest: DestReg,
    src_index: Option<u16>,
    dest_index: Option<Word>,
) -> (r: String)
    ensures
        r@ == two_signed_text(opcode, src, dam, b, sam, dest, src_index, dest_index),
{
    let mut out = String::new();
    out.append(two_mnemonic(opcode));
    out.append(size_suffix(b));
    out.append("    ");
    if let Some(value) = src_index {
        if sam == AddressMode::IndirectIncrement && src.0 == PC {
            out.append("#");
            push_hex(&mut out, value);
            out.append(", ");
            push_destination(&mut out, dest);
            assert(out@ =~= two_signed_text(
                opcode,
                src,
                dam,
                b,
                sam,
                dest,
                src_index,
                dest_index,
            ));
            return out;
        }
        if sam == AddressMode::AbsoluteAddressing {
            out.append("&");
            push_hex(&mut out, value);
            out.append(", ");
            push_destination(&mut out, dest);
            assert(out@ =~= two_signed_text(
                opcode,
                src,
                dam,
                b,
                sam,
                dest,
                src_index,
                dest_index,
            ));
            return out;
        }
    }
    if let Some(word) = dest_index {
        if dam == AddressMode::AbsoluteAddressing {
            push_source(&mut out, src);
            out.append(", &");
            push_hex(&mut out, word.0);
            assert(out@ =~= two_signed_text(
                opcode,
                src,
                dam,
                b,
                sam,
                dest,
                src_index,
                dest_index,
            ));
            return out;
        }
    }
    out.append(indirect_mark(sam));
    push_source(&mut out, src);
    out.append(increment_mark(sam));
    out.append(", ");
    push_destination(&mut out, dest);
    assert(out@ =~= two_signed_text(opcode, src, dam, b, sam, dest, src_index, dest_index));
    out
}

fn render_pseudo(
    dest_index: Option<Word>,
    opcode: PsuedoOpcode,
    b: Bbit,
    dam: AddressMode,
    dest: Option<DestReg>,
) -> (r: String)
    ensures
        r@ == pseudo_text(dest_index, opcode, b, dam, dest),
{
    let mut out = String::new();
    out.append(pseudo_mnemonic(opcode));
    out.append(size_suffix(b));
    if let Some(word) = dest_index {
        if dam == AddressMode::AbsoluteAddressing {
            out.append("     &");
            push_hex(&mut out, word.0);
            assert(out@ =~= pseudo_text(dest_index, opcode, b, dam, dest));
            return out;
        }
    }
    out.append("    ");
    if let Some(reg) = dest {
        push_destination(&mut out, reg);
    }
    assert(out@ =~= pseudo_text(dest_index, opcode, b, dam, dest));
    out
}

impl Bbit {
    /// The suffix of a byte operation, or nothing.
    pub fn render(&self) -> (r: String)
        ensures
            r@ == size_text(*self),
    {
        String::from_str(size_suffix(*self))
    }
}

impl SrcReg {
    /// The name of the register as a source.
    pub fn render(&self) -> (r: String)
        ensures
            r@ == source_text(*self),
    {
        let mut out = String::new();
        push_source(&mut out, *self);
        assert(out@ =~= source_text(*self));
        out
    }
}

impl DestReg {
    /// The name of the register as a destination.
    pub fn render(&self) -> (r: String)
        ensures
            r@ == destination_text(*self),
    {
        let mut out = String::new();
        push_destination(&mut out, *self);
        assert(out@ =~= destination_text(*self));
        out
    }
}

impl UsedWords {
    /// The consumed words as hexadecimal groups.
    pub fn render(&self) -> (r: String)
        ensures
            r@ == words_text(self@),
    {
        let mut out = String::new();
        let mut at: usize = 0;
        while at < self.0.len()
            invariant
                at <= self.0@.len(),
                out@ == words_text(self.0@.subrange(0, at as int)),
            decreases self.0@.len() - at,
        {
            let ghost before = out@;
            if at > 0 {
                out.append(" ");
            }
            let value: u16 = self.0[at].0;
            push_hex4(&mut out, (value % 256) * 256 + value / 256);
            at += 1;
            proof {
                let done = self.0@.subrange(0, at as int);
                assert(done.drop_last() =~= self.0@.subrange(0, at - 1));
                assert(done.last() == self.0@[at - 1]);
                assert(out@ =~= words_text(done));
            }
        }
        proof {
            assert(self.0@.subrange(0, at as int) =~= self.0@);
        }
        out
    }
}

impl Instruction {
    /// The line of assembly for this instruction.
    pub fn render(&self) -> (r: String)
        ensures
            r@ == rendered(*self),
    {
        match *self {
            Instruction::Invalid => String::from_str("Invalid Instruction!"),
            Instruction::JMP { condition, offset } => render_jump(condition, offset.0),
            Instruction::ONE { opcode, b, dam, dest, dest_index } => render_one(
                opcode,
                b,
                dam,
                dest,
                dest_index,
            ),
            Instruction::TWO {
                opcode,
                src,
                dam,
                b,
                sam,
                dest,
                src_index,
                dest_index,
            } => render_two(opcode, src, dam, b, sam, dest, src_index, dest_index),
            Instruction::TWO_SIGNED {
                opcode,
                src,
                dam,
                b,
                sam,
                dest,
                src_index,
                dest_index,
            } => {
                let bits: Option<u16> = match src_index {
                    Some(value) => Some(
                        if value.0 >= 0 {
                            value.0 as u16
                        } else {
                            (value.0 as i32 + 0x10000) as u16
                        },
                    ),
                    None => None,
                };
                render_two_signed(opcode, src, dam, b, sam, dest, bits, dest_index)
            },
            Instruction::PSEUDO { dest_index, opcode, b, dam, dest } => render_pseudo(
                dest_index,
                opcode,
                b,
                dam,
                dest,
            ),
        }
    }
}

} // verus!
