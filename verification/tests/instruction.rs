use msp430_asm::utils::data_address::{AddresingMode, DataMode, Register};
use msp430_asm::utils::error::DecodeError;
use msp430_asm::utils::jumps::{JumpInstruction, JumpOp};
use msp430_asm::utils::one_op::{OneOp, OneOpInstruction};
use msp430_asm::utils::two_op::{EmulatedInstruction, EmulatedOp, TwoOp, TwoOpInstruction};
use msp430_asm::utils::{Format, Instruction};

#[test]
fn jump_words_are_classified_by_three_bits() {
    for word in [0x2000u16, 0x23ff, 0x3000, 0x3c05, 0x3fff] {
        assert_eq!(Format::classify(word), Ok(Format::Jump));
    }
}

#[test]
fn one_op_words_are_classified_by_six_bits() {
    for word in [0x1000u16, 0x12a5, 0x1380, 0x13ff] {
        assert_eq!(Format::classify(word), Ok(Format::OneOp));
    }
}

#[test]
fn reserved_words_have_no_format() {
    for word in [0x1400u16, 0x1800, 0x1c00, 0x1fff] {
        assert_eq!(Format::classify(word), Err(DecodeError::NotATwoOp));
        assert_eq!(Instruction::decode(&[word, 0, 0]), Err(DecodeError::NotATwoOp));
    }
}

#[test]
fn other_words_are_two_ops() {
    for word in [0x0000u16, 0x0fff, 0x4000, 0x4130, 0x8000, 0xffff] {
        assert_eq!(Format::classify(word), Ok(Format::TwoOp));
    }
}

#[test]
fn every_word_is_classified_by_its_top_bits() {
    for word in 0..=u16::MAX {
        let expected = if word >> 13 == 1 {
            Ok(Format::Jump)
        } else if word >> 10 == 4 {
            Ok(Format::OneOp)
        } else if word >> 12 == 1 {
            Err(DecodeError::NotATwoOp)
        } else {
            Ok(Format::TwoOp)
        };
        assert_eq!(Format::classify(word), expected);
    }
}

#[test]
fn empty_window_holds_no_instruction() {
    assert_eq!(Instruction::decode(&[]), Err(DecodeError::TruncatedInstruction));
}

#[test]
fn jump_takes_one_word() {
    let expected = Instruction::Jump(JumpInstruction { operation: JumpOp::Jmp, offset: 5 });
    assert_eq!(Instruction::decode(&[0x3c05]), Ok((expected, 1)));
    assert_eq!(Instruction::decode(&[0x3c05, 0xffff, 0xffff]), Ok((expected, 1)));
}

#[test]
fn call_with_indirect_operand_takes_one_word() {
    let expected = Instruction::OneOp(OneOpInstruction {
        operation: OneOp::Call,
        data: AddresingMode::Indirect(Register::R5),
        mode: None,
    });
    assert_eq!(Instruction::decode(&[0x12a5]), Ok((expected, 1)));
    assert_eq!(Instruction::decode(&[0x12a5, 0x1234, 0x5678]), Ok((expected, 1)));
}

#[test]
fn one_op_with_operand_word_takes_two_words() {
    let expected = Instruction::OneOp(OneOpInstruction {
        operation: OneOp::Call,
        data: AddresingMode::Immediate(0x1234),
        mode: None,
    });
    assert_eq!(Instruction::decode(&[0x12b0, 0x1234, 0x5678]), Ok((expected, 2)));
}

#[test]
fn mov_to_indexed_destination_takes_two_words() {
    let expected = Instruction::TwoOp(TwoOpInstruction {
        operation: TwoOp::Mov,
        source: AddresingMode::Direct(Register::Pc),
        destination: AddresingMode::Indexed(0x0010, Register::Sp),
        mode: DataMode::Word,
    });
    assert_eq!(Instruction::decode(&[0b0100_0000_10_00_0001, 0x0010]), Ok((expected, 2)));
    assert_eq!(
        Instruction::decode(&[0b0100_0000_10_00_0001, 0x0010, 0x4130]),
        Ok((expected, 2))
    );
}

#[test]
fn two_op_with_two_operand_words_takes_three_words() {
    let expected = Instruction::TwoOp(TwoOpInstruction {
        operation: TwoOp::Add,
        source: AddresingMode::Immediate(0x1234),
        destination: AddresingMode::Absolute(0x0200),
        mode: DataMode::Word,
    });
    assert_eq!(Instruction::decode(&[0x50b2, 0x1234, 0x0200]), Ok((expected, 3)));
    assert_eq!(Instruction::decode(&[0x50b2, 0x1234, 0x0200, 0x9999]), Ok((expected, 3)));
}

#[test]
fn mov_autoincrement_sp_to_pc_takes_one_word() {
    let (instruction, step) = Instruction::decode(&[0x4130]).unwrap();
    assert_eq!(step, 1);
    assert_eq!(
        instruction,
        Instruction::Emulated(EmulatedInstruction {
            operation: EmulatedOp::Br,
            data: Some(AddresingMode::Autoincrement(Register::Sp)),
            mode: None,
        })
    );
    assert_eq!(instruction.to_string(), "br @SP+");
    assert_eq!(
        TwoOpInstruction::new(&[0x4130]),
        Ok((
            TwoOpInstruction {
                operation: TwoOp::Mov,
                source: AddresingMode::Autoincrement(Register::Sp),
                destination: AddresingMode::Direct(Register::Pc),
                mode: DataMode::Word,
            },
            0
        ))
    );
}

#[test]
fn malformed_words_are_reported_whatever_follows() {
    for window in [&[0x1380u16][..], &[0x1380, 0, 0][..]] {
        assert_eq!(Instruction::decode(window), Err(DecodeError::UndefinedOperation));
    }
    for window in [&[0x0123u16][..], &[0x0123, 0, 0][..]] {
        assert_eq!(Instruction::decode(window), Err(DecodeError::UndefinedOperation));
    }
}

#[test]
fn instructions_as_text() {
    let text = |words: &[u16]| Instruction::decode(words).unwrap().0.to_string();
    assert_eq!(text(&[0x3c05]), "(jmp, 0x5)");
    assert_eq!(text(&[0x12a5]), "call @R5");
    assert_eq!(text(&[0x4506]), "mov.w R5, R6");
    assert_eq!(text(&[0x4120]), "ret");
}

#[test]
fn no_window_is_read_past_its_end() {
    for word in 0..=u16::MAX {
        let long = [word, 0x0001, 0x0002];
        let full = Instruction::decode(&long);
        for length in 1..3usize {
            let short = Instruction::decode(&long[..length]);
            match full {
                Ok((instruction, step)) if step <= length => {
                    assert_eq!(short, Ok((instruction, step)))
                }
                Ok(_) => assert_eq!(short, Err(DecodeError::TruncatedInstruction)),
                Err(error) => assert_eq!(short, Err(error)),
            }
        }
        if let Ok((_, step)) = full {
            assert!((1..=3).contains(&step));
        }
    }
}

#[test]
fn words_behind_the_instruction_change_nothing() {
    for word in 0..=u16::MAX {
        let first = Instruction::decode(&[word, 0x0001, 0x0002]);
        if let Ok((_, step)) = first {
            let mut other = [word, 0x0001, 0x0002, 0x4130];
            for slot in other.iter_mut().skip(step) {
                *slot = 0xa5a5;
            }
            assert_eq!(Instruction::decode(&other), first);
        }
    }
}
