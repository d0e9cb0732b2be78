use msp430_disasm::{
    check_pseudo, AddressMode, Bbit, DestReg, Instruction, JmpOpcode, Offset, OneOpcode,
    PsuedoOpcode, SignedWord, SrcReg, TwoOpcode, Word, PC, SP, SR,
};

fn two(
    opcode: TwoOpcode,
    src: u8,
    sam: AddressMode,
    src_index: Option<u16>,
    dest: u8,
    dam: AddressMode,
) -> Instruction {
    Instruction::TWO {
        opcode,
        src: SrcReg(src),
        dam,
        b: Bbit(true),
        sam,
        dest: DestReg(dest),
        src_index: src_index.map(Word),
        dest_index: Some(Word(0x0066)),
    }
}

fn imm(opcode: TwoOpcode, value: u16, dest: u8) -> Instruction {
    two(opcode, PC, AddressMode::IndirectIncrement, Some(value), dest, AddressMode::Indexed)
}

fn idiom(opcode: PsuedoOpcode, dam: AddressMode, dest: Option<u8>) -> Option<Instruction> {
    Some(Instruction::PSEUDO {
        dest_index: Some(Word(0x0066)),
        opcode,
        b: Bbit(true),
        dam,
        dest: dest.map(DestReg),
    })
}

#[test]
fn mov_of_zero_is_clr() {
    assert_eq!(
        check_pseudo(imm(TwoOpcode::MOV, 0, 9)),
        idiom(PsuedoOpcode::CLR, AddressMode::Indexed, Some(9))
    );
    // the first rule wins over the branch idiom
    assert_eq!(
        check_pseudo(two(
            TwoOpcode::MOV,
            PC,
            AddressMode::IndirectIncrement,
            Some(0),
            PC,
            AddressMode::Direct
        )),
        idiom(PsuedoOpcode::CLR, AddressMode::Direct, Some(PC))
    );
}

#[test]
fn mov_onto_itself_is_nop() {
    assert_eq!(
        check_pseudo(two(TwoOpcode::MOV, 6, AddressMode::Direct, None, 6, AddressMode::Direct)),
        idiom(PsuedoOpcode::NOP, AddressMode::Direct, None)
    );
    // the second rule wins over the branch idiom
    assert_eq!(
        check_pseudo(two(TwoOpcode::MOV, PC, AddressMode::Direct, None, PC, AddressMode::Direct)),
        idiom(PsuedoOpcode::NOP, AddressMode::Direct, None)
    );
    assert_eq!(
        check_pseudo(two(TwoOpcode::MOV, 6, AddressMode::Direct, None, 6, AddressMode::Indexed)),
        None
    );
    assert_eq!(
        check_pseudo(two(TwoOpcode::MOV, 6, AddressMode::Indirect, None, 6, AddressMode::Direct)),
        None
    );
}

#[test]
fn mov_from_the_stack_is_ret_or_pop() {
    assert_eq!(
        check_pseudo(two(
            TwoOpcode::MOV,
            SP,
            AddressMode::IndirectIncrement,
            None,
            PC,
            AddressMode::Direct
        )),
        idiom(PsuedoOpcode::RET, AddressMode::Direct, None)
    );
    assert_eq!(
        check_pseudo(two(
            TwoOpcode::MOV,
            SP,
            AddressMode::IndirectIncrement,
            None,
            11,
            AddressMode::Direct
        )),
        idiom(PsuedoOpcode::POP, AddressMode::Direct, Some(11))
    );
    assert_eq!(
        check_pseudo(two(TwoOpcode::MOV, SP, AddressMode::Indirect, None, 11, AddressMode::Direct)),
        None
    );
}

#[test]
fn mov_to_the_program_counter_is_br() {
    assert_eq!(
        check_pseudo(two(TwoOpcode::MOV, 8, AddressMode::Indirect, None, PC, AddressMode::Direct)),
        idiom(PsuedoOpcode::BR, AddressMode::Direct, Some(8))
    );
    assert_eq!(
        check_pseudo(imm(TwoOpcode::MOV, 0x4400, PC)),
        None
    );
    assert_eq!(
        check_pseudo(two(
            TwoOpcode::MOV,
            PC,
            AddressMode::IndirectIncrement,
            Some(0x4400),
            PC,
            AddressMode::Direct
        )),
        idiom(PsuedoOpcode::BR, AddressMode::Direct, Some(PC))
    );
}

#[test]
fn bic_and_bis_on_the_status_register_are_flag_idioms() {
    let clear = [
        (1, PsuedoOpcode::CLRC),
        (2, PsuedoOpcode::CLRZ),
        (4, PsuedoOpcode::CLRN),
        (8, PsuedoOpcode::DINT),
    ];
    for (mask, opcode) in clear {
        assert_eq!(
            check_pseudo(imm(TwoOpcode::BIC, mask, SR)),
            idiom(opcode, AddressMode::Indexed, None)
        );
    }
    let set = [
        (1, PsuedoOpcode::SETC),
        (2, PsuedoOpcode::SETZ),
        (4, PsuedoOpcode::SETN),
        (8, PsuedoOpcode::EINT),
    ];
    for (mask, opcode) in set {
        assert_eq!(
            check_pseudo(imm(TwoOpcode::BIS, mask, SR)),
            idiom(opcode, AddressMode::Indexed, None)
        );
    }
    for mask in [0, 3, 5, 16, 0xffff] {
        assert_eq!(check_pseudo(imm(TwoOpcode::BIC, mask, SR)), None);
        assert_eq!(check_pseudo(imm(TwoOpcode::BIS, mask, SR)), None);
    }
    assert_eq!(check_pseudo(imm(TwoOpcode::BIC, 1, 5)), None);
    assert_eq!(check_pseudo(imm(TwoOpcode::BIS, 8, 5)), None);
    assert_eq!(
        check_pseudo(two(TwoOpcode::BIC, 4, AddressMode::IndirectIncrement, Some(1), SR,
            AddressMode::Direct)),
        None
    );
}

#[test]
fn add_to_itself_is_rla() {
    assert_eq!(
        check_pseudo(two(TwoOpcode::ADD, 7, AddressMode::Direct, None, 7, AddressMode::Direct)),
        idiom(PsuedoOpcode::RLA, AddressMode::Direct, Some(7))
    );
    assert_eq!(
        check_pseudo(two(TwoOpcode::ADDC, 7, AddressMode::Direct, None, 7, AddressMode::Direct)),
        idiom(PsuedoOpcode::RLA, AddressMode::Direct, Some(7))
    );
    // the doubling rule comes before the increment
    assert_eq!(
        check_pseudo(imm(TwoOpcode::ADD, 1, PC)),
        idiom(PsuedoOpcode::RLA, AddressMode::Indexed, Some(PC))
    );
    assert_eq!(
        check_pseudo(two(TwoOpcode::ADDC, 7, AddressMode::Direct, None, 8, AddressMode::Direct)),
        None
    );
    assert_eq!(check_pseudo(imm(TwoOpcode::ADDC, 1, 8)), None);
}

#[test]
fn immediates_zero_and_one() {
    assert_eq!(
        check_pseudo(imm(TwoOpcode::CMP, 0, 12)),
        idiom(PsuedoOpcode::TST, AddressMode::Indexed, Some(12))
    );
    assert_eq!(
        check_pseudo(imm(TwoOpcode::SUB, 1, 12)),
        idiom(PsuedoOpcode::DEC, AddressMode::Indexed, Some(12))
    );
    assert_eq!(
        check_pseudo(imm(TwoOpcode::ADD, 1, 12)),
        idiom(PsuedoOpcode::INC, AddressMode::Indexed, Some(12))
    );
    assert_eq!(check_pseudo(imm(TwoOpcode::CMP, 1, 12)), None);
    assert_eq!(check_pseudo(imm(TwoOpcode::SUB, 0, 12)), None);
    assert_eq!(check_pseudo(imm(TwoOpcode::SUB, 2, 12)), None);
    assert_eq!(check_pseudo(imm(TwoOpcode::ADD, 2, 12)), None);
    // an immediate without its word matches nothing
    assert_eq!(
        check_pseudo(two(
            TwoOpcode::CMP,
            PC,
            AddressMode::IndirectIncrement,
            None,
            12,
            AddressMode::Direct
        )),
        None
    );
    // the value alone is not enough
    assert_eq!(
        check_pseudo(two(TwoOpcode::SUB, 4, AddressMode::Indexed, Some(1), 12,
            AddressMode::Direct)),
        None
    );
}

#[test]
fn other_opcodes_have_no_idiom() {
    for opcode in [
        TwoOpcode::SUBC,
        TwoOpcode::DADD,
        TwoOpcode::BIT,
        TwoOpcode::XOR,
        TwoOpcode::AND,
    ] {
        assert_eq!(check_pseudo(imm(opcode, 0, 5)), None);
        assert_eq!(check_pseudo(imm(opcode, 1, SR)), None);
        assert_eq!(
            check_pseudo(two(opcode, 5, AddressMode::Direct, None, 5, AddressMode::Direct)),
            None
        );
    }
}

#[test]
fn other_shapes_have_no_idiom() {
    assert_eq!(check_pseudo(Instruction::Invalid), None);
    assert_eq!(
        check_pseudo(Instruction::JMP { condition: JmpOpcode::JMP, offset: Offset(2) }),
        None
    );
    assert_eq!(
        check_pseudo(Instruction::ONE {
            opcode: OneOpcode::CALL,
            b: Bbit(false),
            dam: AddressMode::IndirectIncrement,
            dest: DestReg(PC),
            dest_index: Some(Word(0)),
        }),
        None
    );
    assert_eq!(
        check_pseudo(Instruction::TWO_SIGNED {
            opcode: TwoOpcode::MOV,
            src: SrcReg(SP),
            dam: AddressMode::Direct,
            b: Bbit(false),
            sam: AddressMode::IndirectIncrement,
            dest: DestReg(PC),
            src_index: Some(SignedWord(-1)),
            dest_index: None,
        }),
        None
    );
}

#[test]
fn recognition_is_idempotent() {
    let samples = [
        imm(TwoOpcode::MOV, 0, 9),
        imm(TwoOpcode::MOV, 7, 9),
        imm(TwoOpcode::BIC, 4, SR),
        imm(TwoOpcode::XOR, 1, 4),
        two(TwoOpcode::MOV, SP, AddressMode::IndirectIncrement, None, PC, AddressMode::Direct),
        Instruction::Invalid,
    ];
    for sample in samples {
        let once = check_pseudo(sample).unwrap_or(sample);
        assert_eq!(check_pseudo(once), None);
        let twice = check_pseudo(once).unwrap_or(once);
        assert_eq!(twice, once);
    }
}
