use pic_emulator_rs::instructions::{
    check_operand, encoding, opcode, EncodeError, Encoding, OperandRange, Operands,
    PICInstruction, PICInstructionMnemonic, PICInstructionType, OPCODE_COUNT,
};
use pic_emulator_rs::nbitnumber::{u12, NBitNumber};
use pic_emulator_rs::pic::{PipelinedTuringMachine, PIC10F200};

const ALL_MNEMONICS: [PICInstructionMnemonic; 36] = [
    PICInstructionMnemonic::NOP,
    PICInstructionMnemonic::CLRWDT,
    PICInstructionMnemonic::OPTION,
    PICInstructionMnemonic::RETFIE,
    PICInstructionMnemonic::SLEEP,
    PICInstructionMnemonic::MOVLB,
    PICInstructionMnemonic::TRIS,
    PICInstructionMnemonic::RETURN,
    PICInstructionMnemonic::MOVWF,
    PICInstructionMnemonic::CLR,
    PICInstructionMnemonic::SUBWF,
    PICInstructionMnemonic::DECF,
    PICInstructionMnemonic::IORWF,
    PICInstructionMnemonic::ANDWF,
    PICInstructionMnemonic::XORWF,
    PICInstructionMnemonic::ADDWF,
    PICInstructionMnemonic::MOVF,
    PICInstructionMnemonic::COMF,
    PICInstructionMnemonic::INCF,
    PICInstructionMnemonic::DECFSZ,
    PICInstructionMnemonic::RRF,
    PICInstructionMnemonic::RLF,
    PICInstructionMnemonic::SWAPF,
    PICInstructionMnemonic::INCFSZ,
    PICInstructionMnemonic::BCF,
    PICInstructionMnemonic::BSF,
    PICInstructionMnemonic::BTFSC,
    PICInstructionMnemonic::BTFSS,
    PICInstructionMnemonic::GOTO,
    PICInstructionMnemonic::CALL,
    PICInstructionMnemonic::RETLW,
    PICInstructionMnemonic::MOVLW,
    PICInstructionMnemonic::IORLW,
    PICInstructionMnemonic::ANDLW,
    PICInstructionMnemonic::XORLW,
    PICInstructionMnemonic::UND,
];

fn decode(raw: u16) -> PICInstructionMnemonic {
    PICInstruction::decode_mnemonic(u12::new(raw))
}

fn decode_by_category(raw: u16) -> PICInstructionMnemonic {
    let mut pic = PIC10F200::new();
    pic.instruction_register = PICInstruction::from_u12(u12::new(raw));
    pic.decode_mnemonic()
}

fn encode(
    mnemonic: PICInstructionMnemonic,
    first: Option<u16>,
    second: Option<u16>,
) -> Result<u16, EncodeError> {
    PICInstruction::encode_mnemonic(mnemonic, first, second).map(|word| word.get())
}

fn operands(range: Option<OperandRange>) -> Vec<Option<u16>> {
    match range {
        Some(range) => (range.least..range.limit).map(Some).collect(),
        None => vec![None],
    }
}

#[test]
fn movlw_encodes_and_decodes() {
    assert_eq!(encode(PICInstructionMnemonic::MOVLW, Some(0x55), None), Ok(0x0C55));
    let instruction = PICInstruction::from_u12(u12::new(0x0C55));
    assert_eq!(instruction.instruction_mnemonic, PICInstructionMnemonic::MOVLW);
    assert_eq!(instruction.instruction_category, PICInstructionType::OperationsWithW);
    assert_eq!(instruction.extract_k(), 0x55);
    assert_eq!(decode_by_category(0x0C55), PICInstructionMnemonic::MOVLW);
}

#[test]
fn addwf_encodes_with_its_selector_at_bit_6() {
    // 0001 11 d fffff
    assert_eq!(encode(PICInstructionMnemonic::ADDWF, Some(0x04), Some(0)), Ok(0x01C4));
    assert_eq!(encode(PICInstructionMnemonic::ADDWF, Some(0x04), Some(1)), Ok(0x01E4));
    assert_eq!(decode(0x01C4), PICInstructionMnemonic::ADDWF);
    let instruction = PICInstruction::from_u12(u12::new(0x01E4));
    assert_eq!(instruction.extract_f().get(), 0x04);
    assert_eq!(instruction.extract_d().get(), 1);
    assert_eq!(PICInstruction::from_u12(u12::new(0x01C4)).extract_d().get(), 0);
}

#[test]
fn bsf_encodes_with_its_bit_index_at_bit_5() {
    // 0101 bbb fffff
    assert_eq!(encode(PICInstructionMnemonic::BSF, Some(0x03), Some(2)), Ok(0x0543));
    assert_eq!(decode(0x0543), PICInstructionMnemonic::BSF);
    let instruction = PICInstruction::from_u12(u12::new(0x0543));
    assert_eq!(instruction.extract_f().get(), 0x03);
    assert_eq!(instruction.extract_b().get(), 2);
    assert_eq!(instruction.instruction_category, PICInstructionType::BitOperation);
}

#[test]
fn goto_encodes_and_decodes() {
    assert_eq!(encode(PICInstructionMnemonic::GOTO, Some(0x01A), None), Ok(0x0A1A));
    let instruction = PICInstruction::from_u12(u12::new(0x0A1A));
    assert_eq!(instruction.instruction_mnemonic, PICInstructionMnemonic::GOTO);
    assert_eq!(instruction.extract_k_goto().get(), 0x01A);
    assert_eq!(encode(PICInstructionMnemonic::GOTO, Some(0x1FF), None), Ok(0x0BFF));
    assert_eq!(decode(0x0BFF), PICInstructionMnemonic::GOTO);
}

#[test]
fn zero_decodes_to_nop() {
    assert_eq!(decode(0x0000), PICInstructionMnemonic::NOP);
    assert_eq!(decode_by_category(0x0000), PICInstructionMnemonic::NOP);
    assert_eq!(
        PICInstruction::decode_category(u12::new(0)),
        PICInstructionType::Miscellaneous
    );
}

#[test]
fn reserved_miscellaneous_words_are_undefined() {
    assert_eq!(decode(0x001), PICInstructionMnemonic::UND);
    assert_eq!(decode_by_category(0x001), PICInstructionMnemonic::UND);
    for raw in 0x008..0x020 {
        assert_eq!(decode(raw), PICInstructionMnemonic::UND);
        assert_eq!(decode_by_category(raw), PICInstructionMnemonic::UND);
    }
}

#[test]
fn every_instruction_decodes_from_its_documented_word() {
    let cases: [(u16, PICInstructionMnemonic); 37] = [
        (0x000, PICInstructionMnemonic::NOP),
        (0x002, PICInstructionMnemonic::OPTION),
        (0x003, PICInstructionMnemonic::SLEEP),
        (0x004, PICInstructionMnemonic::CLRWDT),
        (0x005, PICInstructionMnemonic::TRIS),
        (0x006, PICInstructionMnemonic::TRIS),
        (0x007, PICInstructionMnemonic::TRIS),
        (0x020, PICInstructionMnemonic::MOVWF),
        (0x03F, PICInstructionMnemonic::MOVWF),
        (0x040, PICInstructionMnemonic::CLR),
        (0x07F, PICInstructionMnemonic::CLR),
        (0x080, PICInstructionMnemonic::SUBWF),
        (0x0C0, PICInstructionMnemonic::DECF),
        (0x100, PICInstructionMnemonic::IORWF),
        (0x140, PICInstructionMnemonic::ANDWF),
        (0x180, PICInstructionMnemonic::XORWF),
        (0x1C0, PICInstructionMnemonic::ADDWF),
        (0x200, PICInstructionMnemonic::MOVF),
        (0x240, PICInstructionMnemonic::COMF),
        (0x280, PICInstructionMnemonic::INCF),
        (0x2C0, PICInstructionMnemonic::DECFSZ),
        (0x300, PICInstructionMnemonic::RRF),
        (0x340, PICInstructionMnemonic::RLF),
        (0x380, PICInstructionMnemonic::SWAPF),
        (0x3C0, PICInstructionMnemonic::INCFSZ),
        (0x3FF, PICInstructionMnemonic::INCFSZ),
        (0x400, PICInstructionMnemonic::BCF),
        (0x500, PICInstructionMnemonic::BSF),
        (0x600, PICInstructionMnemonic::BTFSC),
        (0x700, PICInstructionMnemonic::BTFSS),
        (0x800, PICInstructionMnemonic::RETLW),
        (0x900, PICInstructionMnemonic::CALL),
        (0xA00, PICInstructionMnemonic::GOTO),
        (0xC00, PICInstructionMnemonic::MOVLW),
        (0xD00, PICInstructionMnemonic::IORLW),
        (0xE00, PICInstructionMnemonic::ANDLW),
        (0xF00, PICInstructionMnemonic::XORLW),
    ];
    for (raw, mnemonic) in cases {
        assert_eq!(decode(raw), mnemonic, "word {:#05x}", raw);
        assert_eq!(decode_by_category(raw), mnemonic, "word {:#05x}", raw);
    }
}

#[test]
fn the_two_decoders_agree_on_every_word() {
    for raw in 0u16..4096 {
        assert_eq!(decode(raw), decode_by_category(raw), "word {:#05x}", raw);
    }
}

#[test]
fn decoding_never_gives_a_mnemonic_without_an_encoding() {
    for raw in 0u16..4096 {
        let mnemonic = decode(raw);
        assert_ne!(mnemonic, PICInstructionMnemonic::MOVLB);
        assert_ne!(mnemonic, PICInstructionMnemonic::RETFIE);
        assert_ne!(mnemonic, PICInstructionMnemonic::RETURN);
    }
}

#[test]
fn categories_follow_the_top_bits() {
    for raw in 0u16..4096 {
        let expected = match raw >> 10 {
            0 => {
                if raw & 0x3E0 == 0 {
                    PICInstructionType::Miscellaneous
                } else {
                    PICInstructionType::ALUOperation
                }
            }
            1 => PICInstructionType::BitOperation,
            2 => PICInstructionType::ControlTransfer,
            _ => PICInstructionType::OperationsWithW,
        };
        assert_eq!(PICInstruction::decode_category(u12::new(raw)), expected);
    }
}

#[test]
fn encode_then_decode_gives_the_mnemonic_back() {
    let mut words = 0;
    for mnemonic in ALL_MNEMONICS {
        let Some(layout) = encoding(mnemonic) else {
            continue;
        };
        for first in operands(layout.operands.first()) {
            for second in operands(layout.operands.second()) {
                let word = encode(mnemonic, first, second).unwrap();
                assert!(word < 4096);
                assert_eq!(decode(word), mnemonic);
                assert_eq!(decode_by_category(word), mnemonic);
                words += 1;
            }
        }
    }
    // every word that is an instruction is assembled exactly once
    let defined = (0u16..4096).filter(|raw| decode(*raw) != PICInstructionMnemonic::UND).count();
    assert_eq!(words, defined);
}

#[test]
fn operands_can_be_read_back_from_the_word() {
    for f in 0u16..32 {
        for d in 0u16..2 {
            let word = encode(PICInstructionMnemonic::XORWF, Some(f), Some(d)).unwrap();
            let instruction = PICInstruction::from_u12(u12::new(word));
            assert_eq!(instruction.extract_f().get(), f);
            assert_eq!(instruction.extract_d().get(), d);
        }
        for b in 0u16..8 {
            let word = encode(PICInstructionMnemonic::BTFSS, Some(f), Some(b)).unwrap();
            let instruction = PICInstruction::from_u12(u12::new(word));
            assert_eq!(instruction.extract_f().get(), f);
            assert_eq!(instruction.extract_b().get(), b);
        }
    }
    for k in 0u16..256 {
        let word = encode(PICInstructionMnemonic::RETLW, Some(k), None).unwrap();
        assert_eq!(PICInstruction::from_u12(u12::new(word)).extract_k() as u16, k);
    }
    for k in 0u16..512 {
        let word = encode(PICInstructionMnemonic::GOTO, Some(k), None).unwrap();
        assert_eq!(PICInstruction::from_u12(u12::new(word)).extract_k_goto().get(), k);
    }
    for select in 1u16..4 {
        let word = encode(PICInstructionMnemonic::TRIS, Some(select), None).unwrap();
        assert_eq!(word, 0x004 + select);
        assert_eq!(PICInstruction::from_u12(u12::new(word)).extract_f_tris().get(), select);
    }
}

#[test]
fn instructions_without_operands_encode_to_their_words() {
    assert_eq!(encode(PICInstructionMnemonic::NOP, None, None), Ok(0x000));
    assert_eq!(encode(PICInstructionMnemonic::OPTION, None, None), Ok(0x002));
    assert_eq!(encode(PICInstructionMnemonic::SLEEP, None, None), Ok(0x003));
    assert_eq!(encode(PICInstructionMnemonic::CLRWDT, None, None), Ok(0x004));
}

#[test]
fn clear_encodes_both_clear_instructions() {
    // CLRW is 0000 0100 0000, CLRF f is 0000 011f ffff
    assert_eq!(encode(PICInstructionMnemonic::CLR, Some(0), Some(0)), Ok(0x040));
    assert_eq!(encode(PICInstructionMnemonic::CLR, Some(0x10), Some(1)), Ok(0x070));
    assert_eq!(encode(PICInstructionMnemonic::MOVWF, Some(0x10), None), Ok(0x030));
    assert_eq!(encode(PICInstructionMnemonic::CALL, Some(0x42), None), Ok(0x942));
    assert_eq!(encode(PICInstructionMnemonic::RETLW, Some(0x42), None), Ok(0x842));
    assert_eq!(encode(PICInstructionMnemonic::IORLW, Some(0x42), None), Ok(0xD42));
    assert_eq!(encode(PICInstructionMnemonic::ANDLW, Some(0x42), None), Ok(0xE42));
    assert_eq!(encode(PICInstructionMnemonic::XORLW, Some(0x42), None), Ok(0xF42));
    assert_eq!(encode(PICInstructionMnemonic::BTFSC, Some(0x1F), Some(7)), Ok(0x6FF));
}

#[test]
fn a_missing_operand_is_invalid() {
    assert_eq!(
        encode(PICInstructionMnemonic::MOVLW, None, None),
        Err(EncodeError::InvalidOperand { mnemonic: PICInstructionMnemonic::MOVLW, operand: None })
    );
    assert_eq!(
        encode(PICInstructionMnemonic::ADDWF, Some(4), None),
        Err(EncodeError::InvalidOperand { mnemonic: PICInstructionMnemonic::ADDWF, operand: None })
    );
    assert_eq!(
        encode(PICInstructionMnemonic::ADDWF, None, Some(1)),
        Err(EncodeError::InvalidOperand { mnemonic: PICInstructionMnemonic::ADDWF, operand: None })
    );
}

#[test]
fn an_operand_out_of_range_is_invalid() {
    assert_eq!(
        encode(PICInstructionMnemonic::MOVLW, Some(0x100), None),
        Err(EncodeError::InvalidOperand {
            mnemonic: PICInstructionMnemonic::MOVLW,
            operand: Some(0x100)
        })
    );
    assert_eq!(
        encode(PICInstructionMnemonic::ADDWF, Some(32), Some(0)),
        Err(EncodeError::InvalidOperand { mnemonic: PICInstructionMnemonic::ADDWF, operand: Some(32) })
    );
    assert_eq!(
        encode(PICInstructionMnemonic::ADDWF, Some(31), Some(2)),
        Err(EncodeError::InvalidOperand { mnemonic: PICInstructionMnemonic::ADDWF, operand: Some(2) })
    );
    assert_eq!(
        encode(PICInstructionMnemonic::BSF, Some(3), Some(8)),
        Err(EncodeError::InvalidOperand { mnemonic: PICInstructionMnemonic::BSF, operand: Some(8) })
    );
    assert_eq!(
        encode(PICInstructionMnemonic::GOTO, Some(0x200), None),
        Err(EncodeError::InvalidOperand {
            mnemonic: PICInstructionMnemonic::GOTO,
            operand: Some(0x200)
        })
    );
    assert_eq!(
        encode(PICInstructionMnemonic::CALL, Some(0x100), None),
        Err(EncodeError::InvalidOperand {
            mnemonic: PICInstructionMnemonic::CALL,
            operand: Some(0x100)
        })
    );
    // select 0 would be the word of CLRWDT
    assert_eq!(
        encode(PICInstructionMnemonic::TRIS, Some(0), None),
        Err(EncodeError::InvalidOperand { mnemonic: PICInstructionMnemonic::TRIS, operand: Some(0) })
    );
    assert_eq!(
        encode(PICInstructionMnemonic::TRIS, Some(4), None),
        Err(EncodeError::InvalidOperand { mnemonic: PICInstructionMnemonic::TRIS, operand: Some(4) })
    );
    // the first operand is examined first
    assert_eq!(
        encode(PICInstructionMnemonic::BSF, Some(40), Some(9)),
        Err(EncodeError::InvalidOperand { mnemonic: PICInstructionMnemonic::BSF, operand: Some(40) })
    );
}

#[test]
fn an_operand_that_the_instruction_does_not_take_is_invalid() {
    assert_eq!(
        encode(PICInstructionMnemonic::NOP, Some(0), None),
        Err(EncodeError::InvalidOperand { mnemonic: PICInstructionMnemonic::NOP, operand: Some(0) })
    );
    assert_eq!(
        encode(PICInstructionMnemonic::MOVLW, Some(1), Some(1)),
        Err(EncodeError::InvalidOperand { mnemonic: PICInstructionMnemonic::MOVLW, operand: Some(1) })
    );
    assert_eq!(
        encode(PICInstructionMnemonic::MOVWF, Some(1), Some(1)),
        Err(EncodeError::InvalidOperand { mnemonic: PICInstructionMnemonic::MOVWF, operand: Some(1) })
    );
}

#[test]
fn mnemonics_of_other_cores_are_unsupported() {
    for mnemonic in [
        PICInstructionMnemonic::MOVLB,
        PICInstructionMnemonic::RETFIE,
        PICInstructionMnemonic::RETURN,
    ] {
        assert_eq!(encode(mnemonic, None, None), Err(EncodeError::UnsupportedMnemonic { mnemonic }));
        assert_eq!(
            encode(mnemonic, Some(1), None),
            Err(EncodeError::UnsupportedMnemonic { mnemonic })
        );
        assert_eq!(encoding(mnemonic), None);
    }
}

#[test]
fn the_undefined_mnemonic_never_encodes() {
    for first in [None, Some(0), Some(0x55), Some(0xFFFF)] {
        for second in [None, Some(0), Some(7)] {
            assert_eq!(
                encode(PICInstructionMnemonic::UND, first, second),
                Err(EncodeError::UnsupportedMnemonic { mnemonic: PICInstructionMnemonic::UND })
            );
        }
    }
}

#[test]
fn encoding_gives_the_layout() {
    assert_eq!(
        encoding(PICInstructionMnemonic::ADDWF),
        Some(Encoding { base: 0x1C0, operands: Operands::FileAndDestination })
    );
    assert_eq!(
        encoding(PICInstructionMnemonic::TRIS),
        Some(Encoding { base: 0x004, operands: Operands::Select })
    );
    assert_eq!(
        encoding(PICInstructionMnemonic::NOP),
        Some(Encoding { base: 0, operands: Operands::Nothing })
    );
    assert_eq!(
        encoding(PICInstructionMnemonic::BTFSS),
        Some(Encoding { base: 0x700, operands: Operands::FileAndBit })
    );
    assert_eq!(
        encoding(PICInstructionMnemonic::GOTO),
        Some(Encoding { base: 0xA00, operands: Operands::Target })
    );
    assert_eq!(
        encoding(PICInstructionMnemonic::MOVWF),
        Some(Encoding { base: 0x020, operands: Operands::File })
    );
    assert_eq!(
        encoding(PICInstructionMnemonic::RETLW),
        Some(Encoding { base: 0x800, operands: Operands::Literal })
    );
}

#[test]
fn operands_have_their_ranges() {
    let file = Some(OperandRange { least: 0, limit: 32 });
    assert_eq!(Operands::Nothing.first(), None);
    assert_eq!(Operands::Nothing.second(), None);
    assert_eq!(Operands::Select.first(), Some(OperandRange { least: 1, limit: 4 }));
    assert_eq!(Operands::Select.second(), None);
    assert_eq!(Operands::File.first(), file);
    assert_eq!(Operands::File.second(), None);
    assert_eq!(Operands::FileAndDestination.first(), file);
    assert_eq!(Operands::FileAndDestination.second(), Some(OperandRange { least: 0, limit: 2 }));
    assert_eq!(Operands::FileAndBit.first(), file);
    assert_eq!(Operands::FileAndBit.second(), Some(OperandRange { least: 0, limit: 8 }));
    assert_eq!(Operands::Literal.first(), Some(OperandRange { least: 0, limit: 256 }));
    assert_eq!(Operands::Literal.second(), None);
    assert_eq!(Operands::Target.first(), Some(OperandRange { least: 0, limit: 512 }));
    assert_eq!(Operands::Target.second(), None);
}

#[test]
fn check_operand_tests_presence_and_range() {
    let range = Some(OperandRange { least: 1, limit: 4 });
    assert!(check_operand(range, Some(1)));
    assert!(check_operand(range, Some(3)));
    assert!(!check_operand(range, Some(0)));
    assert!(!check_operand(range, Some(4)));
    assert!(!check_operand(range, None));
    assert!(check_operand(None, None));
    assert!(!check_operand(None, Some(0)));
}

#[test]
fn the_opcode_table_has_a_line_for_every_instruction() {
    assert_eq!(OPCODE_COUNT, 33);
    for mnemonic in ALL_MNEMONICS {
        let lines = (0..OPCODE_COUNT).filter(|i| opcode(*i).mnemonic == mnemonic).count();
        if encoding(mnemonic).is_none() {
            assert_eq!(lines, 0);
        } else if mnemonic == PICInstructionMnemonic::TRIS {
            assert_eq!(lines, 2);
        } else {
            assert_eq!(lines, 1);
        }
    }
}

#[test]
fn the_opcode_table_names_its_lines() {
    for i in 0..OPCODE_COUNT {
        let line = opcode(i);
        assert_eq!(line.name, line.mnemonic.name());
        assert_eq!(line.name, format!("{:?}", line.mnemonic));
    }
    assert_eq!(opcode(0).name, "NOP");
    assert_eq!(opcode(13).name, "ADDWF");
    assert_eq!(opcode(13).pattern.bits(), 6);
    assert_eq!(opcode(13).pattern.get(), 0b000111);
    assert_eq!(opcode(28).name, "GOTO");
    assert_eq!(opcode(28).pattern.bits(), 3);
    assert_eq!(opcode(28).pattern.get(), 0b101);
    assert_eq!(PICInstructionMnemonic::UND.name(), "UND");
    assert_eq!(PICInstructionMnemonic::MOVLB.name(), "MOVLB");
}

#[test]
fn no_word_matches_two_lines_of_the_table() {
    for raw in 0u16..4096 {
        let word = u12::new(raw);
        let matching: Vec<usize> = (0..OPCODE_COUNT)
            .filter(|i| PICInstruction::matches_opcode(&opcode(*i), word))
            .collect();
        assert!(matching.len() <= 1);
        match matching.first() {
            Some(i) => assert_eq!(opcode(*i).mnemonic, decode(raw)),
            None => assert_eq!(decode(raw), PICInstructionMnemonic::UND),
        }
    }
}

#[test]
fn a_line_matches_whatever_the_operand_bits_are() {
    let addwf = opcode(13);
    assert!(PICInstruction::matches_opcode(&addwf, u12::new(0x1C0)));
    assert!(PICInstruction::matches_opcode(&addwf, u12::new(0x1FF)));
    assert!(PICInstruction::matches_opcode(&addwf, u12::new(0x1E4)));
    assert!(!PICInstruction::matches_opcode(&addwf, u12::new(0x200)));
    assert!(!PICInstruction::matches_opcode(&addwf, u12::new(0x1BF)));
}

#[test]
fn align_opcode_moves_the_pattern_to_the_top() {
    assert_eq!(PICInstruction::align_opcode::<6>(NBitNumber::<6>::new(0b000111)).get(), 0x1C0);
    assert_eq!(PICInstruction::align_opcode::<3>(NBitNumber::<3>::new(0b101)).get(), 0xA00);
    assert_eq!(PICInstruction::align_opcode::<4>(NBitNumber::<4>::new(0b1100)).get(), 0xC00);
    assert_eq!(PICInstruction::align_opcode::<12>(u12::new(0xABC)).get(), 0xABC);
    assert_eq!(PICInstruction::align_opcode::<1>(NBitNumber::<1>::new(1)).get(), 0x800);
}

#[test]
fn clear_low_bits_keeps_the_leading_bits() {
    assert_eq!(PICInstruction::clear_low_bits(u12::new(0xC55), 8).get(), 0xC00);
    assert_eq!(PICInstruction::clear_low_bits(u12::new(0xC55), 0).get(), 0xC55);
    assert_eq!(PICInstruction::clear_low_bits(u12::new(0xFFF), 11).get(), 0x800);
    assert_eq!(PICInstruction::clear_low_bits(u12::new(0x1E4), 6).get(), 0x1C0);
}

#[test]
fn from_mnemonic_carries_the_mnemonic_over_a_zero_word() {
    let instruction = PICInstruction::from_mnemonic(PICInstructionMnemonic::GOTO);
    assert_eq!(instruction.instruction_raw.get(), 0);
    assert_eq!(instruction.instruction_mnemonic, PICInstructionMnemonic::GOTO);
    assert_eq!(instruction.instruction_category, PICInstructionType::Miscellaneous);
}

#[test]
fn fields_are_fixed_slices_of_the_word() {
    let instruction = PICInstruction::from_u12(u12::new(0b1010_1110_0111));
    assert_eq!(instruction.extract_k(), 0b1110_0111);
    assert_eq!(instruction.extract_d().get(), 1);
    assert_eq!(instruction.extract_f().get(), 0b00111);
    assert_eq!(instruction.extract_b().get(), 0b111);
    assert_eq!(instruction.extract_k_goto().get(), 0b0_1110_0111);
    assert_eq!(instruction.extract_k_movlb().get(), 0b111);
    assert_eq!(instruction.extract_f_tris().get(), 0b11);
    let other = PICInstruction::from_u12(u12::new(0b0101_0101_1010));
    assert_eq!(other.extract_k(), 0b0101_1010);
    assert_eq!(other.extract_d().get(), 0);
    assert_eq!(other.extract_f().get(), 0b11010);
    assert_eq!(other.extract_b().get(), 0b010);
    assert_eq!(other.extract_k_goto().get(), 0b1_0101_1010);
    assert_eq!(other.extract_k_movlb().get(), 0b010);
    assert_eq!(other.extract_f_tris().get(), 0b10);
}
