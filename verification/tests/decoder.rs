use msp430_disasm::{
    address_mode, check_pseudo, check_special_am, disassemble, get_instruction,
    get_instruction_flavor, jump_opcode, one_opcode, two_opcode, AddressMode, Bbit,
    CurrentBinaryScope, DecodeError, DestReg, Instruction, InstructionFlavor, JmpOpcode, Offset,
    OneOpcode, PsuedoOpcode, SrcReg, TwoOpcode, Word, PC, SP, SR, ZR,
};

fn stream(words: &[u16]) -> Vec<Word> {
    let mut v = vec![Word(0)];
    for w in words {
        v.push(Word(*w));
    }
    v
}

fn flavor_of(word: u16) -> InstructionFlavor {
    let words = stream(&[word]);
    let mut scope = CurrentBinaryScope::new(&words);
    assert!(scope.step());
    get_instruction_flavor(&scope)
}

fn decode(words: &[u16]) -> (Result<Instruction, DecodeError>, usize, Vec<u16>) {
    let words = stream(words);
    let mut scope = CurrentBinaryScope::new(&words);
    assert!(scope.step());
    let flavor = get_instruction_flavor(&scope);
    let r = get_instruction(flavor, &mut scope);
    let used = scope.used_words.0.iter().map(|w| w.0).collect();
    (r, scope.index, used)
}

#[test]
fn flavor_boundaries() {
    assert_eq!(flavor_of(0x0000), InstructionFlavor::TWO);
    assert_eq!(flavor_of(0x0fff), InstructionFlavor::TWO);
    assert_eq!(flavor_of(0x1000), InstructionFlavor::ONE);
    assert_eq!(flavor_of(0x13ff), InstructionFlavor::ONE);
    assert_eq!(flavor_of(0x1400), InstructionFlavor::TWO);
    assert_eq!(flavor_of(0x1fff), InstructionFlavor::TWO);
    assert_eq!(flavor_of(0x2000), InstructionFlavor::JMP);
    assert_eq!(flavor_of(0x3fff), InstructionFlavor::JMP);
    assert_eq!(flavor_of(0x4000), InstructionFlavor::TWO);
    assert_eq!(flavor_of(0xffff), InstructionFlavor::TWO);
}

#[test]
fn single_operand_fields_rebuild_the_word() {
    for word in 0x1000u16..0x1400 {
        let opcode = (word >> 7) & 7;
        let b = (word >> 6) & 1;
        let mode = (word >> 4) & 3;
        let reg = word & 15;
        let rebuilt = (0b000100 << 10) | (opcode << 7) | (b << 6) | (mode << 4) | reg;
        assert_eq!(rebuilt, word);
        assert_eq!(flavor_of(rebuilt), InstructionFlavor::ONE);
        let (r, _, _) = decode(&[word, 0x1234]);
        match r {
            Ok(Instruction::ONE { opcode: _, b: flag, dam, dest, dest_index: _ }) => {
                assert!(opcode < 7);
                assert_eq!(flag, Bbit(b == 1));
                assert_eq!(dest, DestReg(reg as u8));
                assert_eq!(dam, address_mode(reg as u8, mode as u8));
            }
            Ok(Instruction::Invalid) => assert_eq!(opcode, 7),
            other => panic!("unexpected {:?}", other),
        }
    }
}

#[test]
fn opcode_tables() {
    assert_eq!(jump_opcode(0b000), Some(JmpOpcode::JNE));
    assert_eq!(jump_opcode(0b001), Some(JmpOpcode::JEQ));
    assert_eq!(jump_opcode(0b010), Some(JmpOpcode::JLO));
    assert_eq!(jump_opcode(0b011), Some(JmpOpcode::JHS));
    assert_eq!(jump_opcode(0b100), Some(JmpOpcode::JN));
    assert_eq!(jump_opcode(0b101), Some(JmpOpcode::JGE));
    assert_eq!(jump_opcode(0b110), Some(JmpOpcode::JL));
    assert_eq!(jump_opcode(0b111), Some(JmpOpcode::JMP));
    assert_eq!(jump_opcode(8), None);
    assert_eq!(one_opcode(0b000), Some(OneOpcode::RRC));
    assert_eq!(one_opcode(0b001), Some(OneOpcode::SWPB));
    assert_eq!(one_opcode(0b010), Some(OneOpcode::RRA));
    assert_eq!(one_opcode(0b011), Some(OneOpcode::SXT));
    assert_eq!(one_opcode(0b100), Some(OneOpcode::PUSH));
    assert_eq!(one_opcode(0b101), Some(OneOpcode::CALL));
    assert_eq!(one_opcode(0b110), Some(OneOpcode::RETI));
    assert_eq!(one_opcode(0b111), None);
    assert_eq!(two_opcode(0b0000), None);
    assert_eq!(two_opcode(0b0011), None);
    assert_eq!(two_opcode(0b0100), Some(TwoOpcode::MOV));
    assert_eq!(two_opcode(0b0101), Some(TwoOpcode::ADD));
    assert_eq!(two_opcode(0b0110), Some(TwoOpcode::ADDC));
    assert_eq!(two_opcode(0b0111), Some(TwoOpcode::SUBC));
    assert_eq!(two_opcode(0b1000), Some(TwoOpcode::SUB));
    assert_eq!(two_opcode(0b1001), Some(TwoOpcode::CMP));
    assert_eq!(two_opcode(0b1010), Some(TwoOpcode::DADD));
    assert_eq!(two_opcode(0b1011), Some(TwoOpcode::BIT));
    assert_eq!(two_opcode(0b1100), Some(TwoOpcode::BIC));
    assert_eq!(two_opcode(0b1101), Some(TwoOpcode::BIS));
    assert_eq!(two_opcode(0b1110), Some(TwoOpcode::XOR));
    assert_eq!(two_opcode(0b1111), Some(TwoOpcode::AND));
    assert_eq!(two_opcode(16), None);
}

#[test]
fn address_mode_depends_on_the_register() {
    assert_eq!(address_mode(4, 0b00), AddressMode::Direct);
    assert_eq!(address_mode(4, 0b01), AddressMode::Indexed);
    assert_eq!(address_mode(4, 0b10), AddressMode::Indirect);
    assert_eq!(address_mode(4, 0b11), AddressMode::IndirectIncrement);
    assert_eq!(address_mode(PC, 0b11), AddressMode::IndirectIncrement);
    assert_eq!(address_mode(SP, 0b01), AddressMode::Indexed);
    assert_eq!(address_mode(SR, 0b00), AddressMode::Direct);
    assert_eq!(address_mode(SR, 0b01), AddressMode::AbsoluteAddressing);
    assert_eq!(address_mode(SR, 0b10), AddressMode::Const4);
    assert_eq!(address_mode(SR, 0b11), AddressMode::Const8);
    assert_eq!(address_mode(ZR, 0b00), AddressMode::Const0);
    assert_eq!(address_mode(ZR, 0b01), AddressMode::Const1);
    assert_eq!(address_mode(ZR, 0b10), AddressMode::Const2);
    assert_eq!(address_mode(ZR, 0b11), AddressMode::ConstNeg1);
}

#[test]
fn ret_word_decodes_to_mov_and_is_recognised() {
    let (r, index, used) = decode(&[0x4130]);
    let mov = Instruction::TWO {
        opcode: TwoOpcode::MOV,
        src: SrcReg(SP),
        dam: AddressMode::Direct,
        b: Bbit(false),
        sam: AddressMode::IndirectIncrement,
        dest: DestReg(PC),
        src_index: None,
        dest_index: None,
    };
    assert_eq!(r, Ok(mov));
    assert_eq!(index, 1);
    assert_eq!(used, vec![0x4130]);
    let canonical = check_special_am(&mov);
    assert_eq!(canonical, mov);
    assert_eq!(
        check_pseudo(canonical),
        Some(Instruction::PSEUDO {
            dest_index: None,
            opcode: PsuedoOpcode::RET,
            b: Bbit(false),
            dam: AddressMode::Direct,
            dest: None,
        })
    );
}

#[test]
fn sub_of_immediate_one_is_dec() {
    let dec = Instruction::PSEUDO {
        dest_index: None,
        opcode: PsuedoOpcode::DEC,
        b: Bbit(false),
        dam: AddressMode::Direct,
        dest: Some(DestReg(5)),
    };
    // SUB #1, r5 with the immediate in an extension word
    let (r, index, used) = decode(&[0x8035, 0x0001]);
    let sub = Instruction::TWO {
        opcode: TwoOpcode::SUB,
        src: SrcReg(PC),
        dam: AddressMode::Direct,
        b: Bbit(false),
        sam: AddressMode::IndirectIncrement,
        dest: DestReg(5),
        src_index: Some(Word(1)),
        dest_index: None,
    };
    assert_eq!(r, Ok(sub));
    assert_eq!(index, 2);
    assert_eq!(used, vec![0x8035, 0x0001]);
    assert_eq!(check_pseudo(check_special_am(&sub)), Some(dec));
    // SUB #1, r5 through the constant generator
    let (r, index, used) = decode(&[0x8315, 0x0001]);
    let raw = Instruction::TWO {
        opcode: TwoOpcode::SUB,
        src: SrcReg(ZR),
        dam: AddressMode::Direct,
        b: Bbit(false),
        sam: AddressMode::Const1,
        dest: DestReg(5),
        src_index: None,
        dest_index: None,
    };
    assert_eq!(r, Ok(raw));
    assert_eq!(index, 1);
    assert_eq!(used, vec![0x8315]);
    assert_eq!(check_special_am(&raw), sub);
    assert_eq!(check_pseudo(check_special_am(&raw)), Some(dec));
}

#[test]
fn unconditional_jump_with_offset_two() {
    let (r, index, _) = decode(&[0x3c02]);
    assert_eq!(r, Ok(Instruction::JMP { condition: JmpOpcode::JMP, offset: Offset(6) }));
    assert_eq!(index, 1);
}

#[test]
fn jump_offsets_are_sign_extended() {
    let (r, _, _) = decode(&[0x3fff]);
    assert_eq!(r, Ok(Instruction::JMP { condition: JmpOpcode::JMP, offset: Offset(0) }));
    let (r, _, _) = decode(&[0x2200]);
    assert_eq!(r, Ok(Instruction::JMP { condition: JmpOpcode::JNE, offset: Offset(-1022) }));
    let (r, _, _) = decode(&[0x25ff]);
    assert_eq!(r, Ok(Instruction::JMP { condition: JmpOpcode::JEQ, offset: Offset(1024) }));
    let (r, _, _) = decode(&[0x2800]);
    assert_eq!(r, Ok(Instruction::JMP { condition: JmpOpcode::JLO, offset: Offset(2) }));
    let (r, _, _) = decode(&[0x2ffe]);
    assert_eq!(r, Ok(Instruction::JMP { condition: JmpOpcode::JHS, offset: Offset(-2) }));
    let (r, _, _) = decode(&[0x3001]);
    assert_eq!(r, Ok(Instruction::JMP { condition: JmpOpcode::JN, offset: Offset(4) }));
    let (r, _, _) = decode(&[0x3400]);
    assert_eq!(r, Ok(Instruction::JMP { condition: JmpOpcode::JGE, offset: Offset(2) }));
    let (r, _, _) = decode(&[0x3800]);
    assert_eq!(r, Ok(Instruction::JMP { condition: JmpOpcode::JL, offset: Offset(2) }));
}

#[test]
fn call_with_immediate_destination() {
    let (r, index, used) = decode(&[0x12b0, 0x0010]);
    assert_eq!(
        r,
        Ok(Instruction::ONE {
            opcode: OneOpcode::CALL,
            b: Bbit(false),
            dam: AddressMode::IndirectIncrement,
            dest: DestReg(PC),
            dest_index: Some(Word(0x0010)),
        })
    );
    assert_eq!(index, 2);
    assert_eq!(used, vec![0x12b0, 0x0010]);
}

#[test]
fn single_operand_shapes() {
    // RRC r5
    let (r, index, _) = decode(&[0x1005, 0xaaaa]);
    assert_eq!(
        r,
        Ok(Instruction::ONE {
            opcode: OneOpcode::RRC,
            b: Bbit(false),
            dam: AddressMode::Direct,
            dest: DestReg(5),
            dest_index: None,
        })
    );
    assert_eq!(index, 1);
    // PUSH.B 0x1234(r5)
    let (r, index, _) = decode(&[0x1255, 0x1234]);
    assert_eq!(
        r,
        Ok(Instruction::ONE {
            opcode: OneOpcode::PUSH,
            b: Bbit(true),
            dam: AddressMode::Indexed,
            dest: DestReg(5),
            dest_index: Some(Word(0x1234)),
        })
    );
    assert_eq!(index, 2);
    // SXT @r15+ takes no extension word
    let (r, index, _) = decode(&[0x11bf, 0x1234]);
    assert_eq!(
        r,
        Ok(Instruction::ONE {
            opcode: OneOpcode::SXT,
            b: Bbit(false),
            dam: AddressMode::IndirectIncrement,
            dest: DestReg(15),
            dest_index: None,
        })
    );
    assert_eq!(index, 1);
    // on the status register the indexed pattern reads as absolute and,
    // in a single-operand instruction, takes no extension word
    let (r, index, _) = decode(&[0x1212, 0x1234]);
    assert_eq!(
        r,
        Ok(Instruction::ONE {
            opcode: OneOpcode::PUSH,
            b: Bbit(false),
            dam: AddressMode::AbsoluteAddressing,
            dest: DestReg(SR),
            dest_index: None,
        })
    );
    assert_eq!(index, 1);
    // on the constant generator the patterns read as constants
    let (r, _, _) = decode(&[0x1233]);
    assert_eq!(
        r,
        Ok(Instruction::ONE {
            opcode: OneOpcode::PUSH,
            b: Bbit(false),
            dam: AddressMode::ConstNeg1,
            dest: DestReg(ZR),
            dest_index: None,
        })
    );
}

#[test]
fn double_operand_shapes() {
    // MOV.B r4, r5
    let (r, index, _) = decode(&[0x4445, 0xaaaa]);
    assert_eq!(
        r,
        Ok(Instruction::TWO {
            opcode: TwoOpcode::MOV,
            src: SrcReg(4),
            dam: AddressMode::Direct,
            b: Bbit(true),
            sam: AddressMode::Direct,
            dest: DestReg(5),
            src_index: None,
            dest_index: None,
        })
    );
    assert_eq!(index, 1);
    // ADD 0x0011(r4), 0x0022(r5): source word first
    let (r, index, used) = decode(&[0x5495, 0x0011, 0x0022]);
    assert_eq!(
        r,
        Ok(Instruction::TWO {
            opcode: TwoOpcode::ADD,
            src: SrcReg(4),
            dam: AddressMode::Indexed,
            b: Bbit(false),
            sam: AddressMode::Indexed,
            dest: DestReg(5),
            src_index: Some(Word(0x0011)),
            dest_index: Some(Word(0x0022)),
        })
    );
    assert_eq!(index, 3);
    assert_eq!(used, vec![0x5495, 0x0011, 0x0022]);
    // XOR r4, &0x0200: destination on the status register is absolute
    let (r, index, _) = decode(&[0xe482, 0x0200]);
    assert_eq!(
        r,
        Ok(Instruction::TWO {
            opcode: TwoOpcode::XOR,
            src: SrcReg(4),
            dam: AddressMode::AbsoluteAddressing,
            b: Bbit(false),
            sam: AddressMode::Direct,
            dest: DestReg(SR),
            src_index: None,
            dest_index: Some(Word(0x0200)),
        })
    );
    assert_eq!(index, 2);
    // AND &0x0200, r5
    let (r, index, _) = decode(&[0xf215, 0x0200]);
    assert_eq!(
        r,
        Ok(Instruction::TWO {
            opcode: TwoOpcode::AND,
            src: SrcReg(SR),
            dam: AddressMode::Direct,
            b: Bbit(false),
            sam: AddressMode::AbsoluteAddressing,
            dest: DestReg(5),
            src_index: Some(Word(0x0200)),
            dest_index: None,
        })
    );
    assert_eq!(index, 2);
    // BIT @r4, r3: the destination's bit is read on the constant generator
    let (r, index, _) = decode(&[0xb423]);
    assert_eq!(
        r,
        Ok(Instruction::TWO {
            opcode: TwoOpcode::BIT,
            src: SrcReg(4),
            dam: AddressMode::Const0,
            b: Bbit(false),
            sam: AddressMode::Indirect,
            dest: DestReg(ZR),
            src_index: None,
            dest_index: None,
        })
    );
    assert_eq!(index, 1);
}

#[test]
fn opcode_without_table_entry_is_invalid() {
    assert_eq!(decode(&[0x1380, 0x0001]).0, Ok(Instruction::Invalid));
    assert_eq!(decode(&[0x1395]).0, Ok(Instruction::Invalid));
    assert_eq!(decode(&[0x0000]).0, Ok(Instruction::Invalid));
    assert_eq!(decode(&[0x0495]).0, Ok(Instruction::Invalid));
    assert_eq!(decode(&[0x1400]).0, Ok(Instruction::Invalid));
    assert_eq!(decode(&[0x1fff]).0, Ok(Instruction::Invalid));
    // nothing is consumed for an invalid instruction
    assert_eq!(decode(&[0x1395, 0x0001]).1, 1);
    assert_eq!(decode(&[0x0495, 0x0001, 0x0002]).1, 1);
}

#[test]
fn truncated_indexed_operand_is_reported() {
    let (r, index, used) = decode(&[0x1215]);
    assert_eq!(r, Err(DecodeError::Truncated));
    assert_eq!(index, 1);
    assert_eq!(used, vec![0x1215]);
}

#[test]
fn truncated_second_extension_word_is_reported() {
    let (r, index, used) = decode(&[0x4495, 0x0011]);
    assert_eq!(r, Err(DecodeError::Truncated));
    assert_eq!(index, 2);
    assert_eq!(used, vec![0x4495, 0x0011]);
    let (r, index, _) = decode(&[0x4495]);
    assert_eq!(r, Err(DecodeError::Truncated));
    assert_eq!(index, 1);
    let (r, _, _) = decode(&[0x4030]);
    assert_eq!(r, Err(DecodeError::Truncated));
}

#[test]
fn a_flavor_can_be_forced() {
    let words = stream(&[0x4130]);
    let mut scope = CurrentBinaryScope::new(&words);
    assert!(scope.step());
    // read as a jump: condition bits 000, offset bits 0x130
    assert_eq!(
        get_instruction(InstructionFlavor::JMP, &mut scope),
        Ok(Instruction::JMP { condition: JmpOpcode::JNE, offset: Offset(0x130 * 2 + 2) })
    );
    // read as a single operand: opcode bits 010, mode 11, register 0
    assert_eq!(
        get_instruction(InstructionFlavor::ONE, &mut scope),
        Err(DecodeError::Truncated)
    );
}

#[test]
fn pipeline_on_a_small_program() {
    // MOV #0, r5; SUB #1, r5 (constant generator); MOV @SP+, PC; JMP $+6
    let words = stream(&[0x4035, 0x0000, 0x8315, 0x4130, 0x3c02]);
    let mut scope = CurrentBinaryScope::new(&words);
    assert!(scope.step());
    assert_eq!(scope.address.0, 0);
    assert_eq!(
        disassemble(&mut scope),
        Ok(Instruction::PSEUDO {
            dest_index: None,
            opcode: PsuedoOpcode::CLR,
            b: Bbit(false),
            dam: AddressMode::Direct,
            dest: Some(DestReg(5)),
        })
    );
    assert_eq!(scope.address.0, 0);
    assert_eq!(scope.used_words.0, vec![Word(0x4035), Word(0x0000)]);
    assert!(scope.step());
    assert_eq!(scope.address.0, 4);
    assert_eq!(
        disassemble(&mut scope),
        Ok(Instruction::PSEUDO {
            dest_index: None,
            opcode: PsuedoOpcode::DEC,
            b: Bbit(false),
            dam: AddressMode::Direct,
            dest: Some(DestReg(5)),
        })
    );
    assert!(scope.step());
    assert_eq!(scope.address.0, 6);
    assert_eq!(
        disassemble(&mut scope),
        Ok(Instruction::PSEUDO {
            dest_index: None,
            opcode: PsuedoOpcode::RET,
            b: Bbit(false),
            dam: AddressMode::Direct,
            dest: None,
        })
    );
    assert!(scope.step());
    assert_eq!(
        disassemble(&mut scope),
        Ok(Instruction::JMP { condition: JmpOpcode::JMP, offset: Offset(6) })
    );
    assert!(!scope.step());
}

#[test]
fn pipeline_reports_truncation() {
    let words = stream(&[0x4035]);
    let mut scope = CurrentBinaryScope::new(&words);
    assert!(scope.step());
    assert_eq!(disassemble(&mut scope), Err(DecodeError::Truncated));
    assert_eq!(scope.index, 1);
}
