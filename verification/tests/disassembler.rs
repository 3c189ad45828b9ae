use msp430_asm::disassembler::{disassemble, disassemble_op, disassemble_words, words_from_bytes};
use msp430_asm::utils::error::DecodeError;

#[test]
fn bytes_pair_up_low_byte_first() {
    assert_eq!(words_from_bytes(&[0x30, 0x41]), vec![0x4130]);
    assert_eq!(words_from_bytes(&[0x01, 0x02, 0x03, 0x04]), vec![0x0201, 0x0403]);
    assert_eq!(words_from_bytes(&[0xff, 0x00, 0x00, 0xff]), vec![0x00ff, 0xff00]);
    assert_eq!(words_from_bytes(&[0xff, 0xff]), vec![0xffff]);
}

#[test]
fn empty_buffer_holds_no_words() {
    assert_eq!(words_from_bytes(&[]), Vec::<u16>::new());
    assert_eq!(disassemble(&[]).unwrap(), Vec::<String>::new());
    assert_eq!(disassemble_words(&[]).unwrap(), Vec::<String>::new());
}

#[test]
fn lone_last_byte_is_ignored() {
    assert_eq!(words_from_bytes(&[0x30]), Vec::<u16>::new());
    assert_eq!(words_from_bytes(&[0x30, 0x41, 0x99]), vec![0x4130]);
    assert_eq!(disassemble(&[0x20, 0x41, 0x99]).unwrap(), vec!["ret"]);
    assert_eq!(disassemble(&[0x99]).unwrap(), Vec::<String>::new());
}

#[test]
fn words_keep_their_order() {
    let bytes: Vec<u8> = (0..=255).collect();
    let words = words_from_bytes(&bytes);
    assert_eq!(words.len(), 128);
    for (index, word) in words.iter().enumerate() {
        let low = 2 * index as u16;
        assert_eq!(*word, ((low + 1) << 8) + low);
    }
}

#[test]
fn op_reports_words_and_line() {
    assert_eq!(disassemble_op(&[0x3c05]), Ok((1, "(jmp, 0x5)".to_string())));
    assert_eq!(disassemble_op(&[0x12a5, 0x0000]), Ok((1, "call @R5".to_string())));
    assert_eq!(disassemble_op(&[0x12b0, 0x1234]), Ok((2, "call #4660".to_string())));
    assert_eq!(disassemble_op(&[0x4081, 0x0010]), Ok((2, "mov.w PC, 0x10(SP)".to_string())));
    assert_eq!(
        disassemble_op(&[0x50b2, 0x1234, 0x0200]),
        Ok((3, "add.w #4660, &0x200".to_string()))
    );
    assert_eq!(disassemble_op(&[0xc312, 0xffff, 0xffff]), Ok((1, "clrc".to_string())));
}

#[test]
fn op_reports_errors() {
    assert_eq!(disassemble_op(&[]), Err(DecodeError::TruncatedInstruction));
    assert_eq!(disassemble_op(&[0x4081]), Err(DecodeError::TruncatedInstruction));
    assert_eq!(disassemble_op(&[0x50b2, 0x1234]), Err(DecodeError::TruncatedInstruction));
    assert_eq!(disassemble_op(&[0x1380, 0, 0]), Err(DecodeError::UndefinedOperation));
    assert_eq!(disassemble_op(&[0x0000, 0, 0]), Err(DecodeError::UndefinedOperation));
    assert_eq!(disassemble_op(&[0x1400, 0, 0]), Err(DecodeError::NotATwoOp));
}

#[test]
fn single_word_buffer() {
    assert_eq!(disassemble(&[0x30, 0x41]).unwrap(), vec!["br @SP+"]);
    assert_eq!(disassemble(&[0x20, 0x41]).unwrap(), vec!["ret"]);
}

#[test]
fn lines_follow_the_instructions() {
    let bytes = [0x06, 0x45, 0x05, 0x3c, 0xb0, 0x12, 0x34, 0x12, 0x20, 0x41];
    assert_eq!(
        disassemble(&bytes).unwrap(),
        vec!["mov.w R5, R6", "(jmp, 0x5)", "call #4660", "ret"]
    );
}

#[test]
fn operand_words_are_not_decoded_as_instructions() {
    let words = [0x50b2, 0x4130, 0x3c05, 0x4081, 0x4120, 0x12a5];
    assert_eq!(
        disassemble_words(&words).unwrap(),
        vec!["add.w #16688, &0x3c05", "mov.w PC, 0x4120(SP)", "call @R5"]
    );
}

#[test]
fn instruction_at_the_end_may_fill_the_stream() {
    assert_eq!(
        disassemble_words(&[0x4506, 0x50b2, 0x1234, 0x0200]).unwrap(),
        vec!["mov.w R5, R6", "add.w #4660, &0x200"]
    );
    assert_eq!(
        disassemble_words(&[0x4506, 0x4081, 0x0010]).unwrap(),
        vec!["mov.w R5, R6", "mov.w PC, 0x10(SP)"]
    );
}

#[test]
fn truncated_last_instruction_is_an_error() {
    let failure = disassemble_words(&[0x4506, 0x50b2, 0x1234]).unwrap_err();
    assert_eq!(failure.offset, 1);
    assert_eq!(failure.error, DecodeError::TruncatedInstruction);
    assert_eq!(failure.decoded, vec!["mov.w R5, R6"]);

    let failure = disassemble(&[0x81, 0x40]).unwrap_err();
    assert_eq!(failure.offset, 0);
    assert_eq!(failure.error, DecodeError::TruncatedInstruction);
    assert_eq!(failure.decoded, Vec::<String>::new());

    let failure = disassemble(&[0x05, 0x3c, 0x20, 0x41, 0xb0, 0x12]).unwrap_err();
    assert_eq!(failure.offset, 2);
    assert_eq!(failure.error, DecodeError::TruncatedInstruction);
    assert_eq!(failure.decoded, vec!["(jmp, 0x5)", "ret"]);
}

#[test]
fn decoding_stops_at_the_first_malformed_word() {
    let failure = disassemble_words(&[0x4506, 0x0000, 0x4506]).unwrap_err();
    assert_eq!(failure.offset, 1);
    assert_eq!(failure.error, DecodeError::UndefinedOperation);
    assert_eq!(failure.decoded, vec!["mov.w R5, R6"]);

    let failure = disassemble_words(&[0x12b0, 0x1234, 0x1380, 0x4506]).unwrap_err();
    assert_eq!(failure.offset, 2);
    assert_eq!(failure.error, DecodeError::UndefinedOperation);
    assert_eq!(failure.decoded, vec!["call #4660"]);

    let failure = disassemble_words(&[0x1400]).unwrap_err();
    assert_eq!(failure.offset, 0);
    assert_eq!(failure.error, DecodeError::NotATwoOp);
    assert_eq!(failure.decoded, Vec::<String>::new());
}

#[test]
fn every_two_word_buffer_is_decoded_or_flagged() {
    for first in (0..=u16::MAX).step_by(7) {
        for second in [0x0000u16, 0x4130, 0x12b0, 0x50b2, 0xffff] {
            let words = [first, second];
            match disassemble_words(&words) {
                Ok(lines) => assert!(!lines.is_empty() && lines.len() <= 2),
                Err(failure) => {
                    assert!(failure.offset < 2);
                    assert!(failure.decoded.len() <= failure.offset);
                }
            }
        }
    }
}

#[test]
fn bytes_and_words_agree() {
    let bytes = [0x12, 0xc3, 0x15, 0x42, 0x00, 0x00, 0xff, 0x23, 0x45, 0x10];
    let words = words_from_bytes(&bytes);
    assert_eq!(words, vec![0xc312, 0x4215, 0x0000, 0x23ff, 0x1045]);
    let lines = disassemble(&bytes).unwrap();
    assert_eq!(lines, disassemble_words(&words).unwrap());
    assert_eq!(lines, vec!["clrc", "clr.w R5", "(jne, -0x1)", "rrc.b R5"]);
}
