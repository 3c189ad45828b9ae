//! The instruction formats, their operands and the text they are written as.

use vstd::prelude::*;

pub mod data_address;
pub mod error;
pub mod jumps;
pub mod one_op;
pub mod radix;
pub mod two_op;

use data_address::{takes_extra_word, AddresingMode, AsmInstruction, Register};
use error::DecodeError;
use jumps::{lemma_jump_offset_is_sign_extended, JumpInstruction};
use one_op::{OneOp, OneOpInstruction};
use two_op::{EmulatedInstruction, EmulatedOp, TwoOp, TwoOpInstruction};

verus! {

/// The three shapes of an instruction.
#[derive(Debug, Clone, Copy, PartialEq, Eq, Structural)]
pub enum Format {
    Jump,
    OneOp,
    TwoOp,
}

impl Format {
    /// The format that the top bits of a word select: `001` in the top
    /// three bits is a jump, `000100` in the top six a single-operand
    /// instruction. Every other word is a double-operand instruction, unless
    /// its top four bits are `0001`: those words have no format.
    pub open spec fn of_word(word: u16) -> Result<Format, DecodeError> {
        if word >> 13 == 0b001 {
            Ok(Format::Jump)
        } else if word >> 10 == 0b000100 {
            Ok(Format::OneOp)
        } else if word >> 12 == 0b0001 {
            Err(DecodeError::NotATwoOp)
        } else {
            Ok(Format::TwoOp)
        }
    }

    /// Tells the format of an instruction from its first word.
    pub fn classify(word: u16) -> (format: Result<Format, DecodeError>)
        ensures
            format == Format::of_word(word),
    {
        let jmp_bits: u16 = word >> 13;
        if jmp_bits == 0b001 {
            return Ok(Format::Jump);
        }
        let one_op_bits: u16 = word >> 10;
        if one_op_bits == 0b000100 {
            return Ok(Format::OneOp);
        }
        let two_op_bits: u16 = word >> 12;
        if two_op_bits == 0b0001 {
            return Err(DecodeError::NotATwoOp);
        }
        Ok(Format::TwoOp)
    }
}

/// One decoded instruction.
#[derive(Debug, Clone, Copy, PartialEq, Eq, Structural)]
pub enum Instruction {
    Jump(JumpInstruction),
    OneOp(OneOpInstruction),
    TwoOp(TwoOpInstruction),
    /// A double-operand instruction that has a shorter name; it is never
    /// decoded as `TwoOp`.
    Emulated(EmulatedInstruction),
}

impl AsmInstruction for Instruction {

}

impl Instruction {
    /// A double-operand instruction under its shorter name if it has one,
    /// else as it stands.
    pub open spec fn of_two_op(instruction: TwoOpInstruction) -> Instruction {
        match instruction.alias() {
            Some(emulated) => Instruction::Emulated(emulated),
            None => Instruction::TwoOp(instruction),
        }
    }

    /// The instruction that starts a window of words, and the number of
    /// words that it holds.
    pub open spec fn decoded(words: Seq<u16>) -> Result<(Instruction, usize), DecodeError> {
        if words.len() == 0 {
            Err(DecodeError::TruncatedInstruction)
        } else {
            match Format::of_word(words[0]) {
                Err(error) => Err(error),
                Ok(Format::Jump) => match JumpInstruction::of_word(words[0]) {
                    Err(error) => Err(error),
                    Ok(jump) => Ok((Instruction::Jump(jump), 1)),
                },
                Ok(Format::OneOp) => match OneOpInstruction::decoded(words) {
                    Err(error) => Err(error),
                    Ok((instruction, extra_word)) => Ok(
                        (
                            Instruction::OneOp(instruction),
                            if extra_word {
                                2
                            } else {
                                1
                            },
                        ),
                    ),
                },
                Ok(Format::TwoOp) => match TwoOpInstruction::decoded(words) {
                    Err(error) => Err(error),
                    Ok((instruction, extra_words)) => Ok(
                        (Instruction::of_two_op(instruction), (1 + extra_words) as usize),
                    ),
                },
            }
        }
    }

    /// Whether the value is one that decoding gives: a jump with a ten-bit
    /// offset, a single-operand instruction with a size exactly if its
    /// operation has one, a double-operand instruction that has no shorter
    /// name, or the shorter name of one that has.
    pub open spec fn well_formed(self) -> bool {
        match self {
            Instruction::Jump(jump) => jump.well_formed(),
            Instruction::OneOp(instruction) => instruction.well_formed(),
            Instruction::TwoOp(instruction) => instruction.alias() is None,
            Instruction::Emulated(emulated) => emulated.well_formed(),
        }
    }

    /// Whether a word is an opcode, one that can start an instruction: it
    /// selects a format and an operation of that format.
    pub open spec fn is_opcode(word: u16) -> bool {
        match Format::of_word(word) {
            Err(_) => false,
            Ok(Format::Jump) => true,
            Ok(Format::OneOp) => OneOp::of_word(word) is Ok,
            Ok(Format::TwoOp) => TwoOp::of_word(word) is Ok,
        }
    }

    /// The number of words of the instruction that `word` starts: one, and
    /// one more for each operand that takes a word of its own.
    pub open spec fn encoded_length(word: u16) -> int {
        match Format::of_word(word) {
            Ok(Format::OneOp) => 1 + (if takes_extra_word(
                Register::of_low_bits(word),
                (word >> 4) & 0b11,
            ) {
                1int
            } else {
                0int
            }),
            Ok(Format::TwoOp) => 1 + (if takes_extra_word(
                Register::of_low_bits(word >> 8),
                (word >> 4) & 0b11,
            ) {
                1int
            } else {
                0int
            }) + (if word & 0b10000000 != 0 {
                1int
            } else {
                0int
            }),
            _ => 1,
        }
    }

    /// The instruction in assembly syntax.
    pub open spec fn text(self) -> Seq<char> {
        match self {
            Instruction::Jump(jump) => jump.text(),
            Instruction::OneOp(instruction) => instruction.text(),
            Instruction::TwoOp(instruction) => instruction.text(),
            Instruction::Emulated(emulated) => emulated.text(),
        }
    }

    /// Decodes the instruction at the start of `raw_words`. No word behind
    /// those of the instruction is read.
    pub fn decode(raw_words: &[u16]) -> (decoded: Result<(Self, usize), DecodeError>)
        ensures
            decoded == Instruction::decoded(raw_words@),
            decoded matches Ok((instruction, _)) ==> instruction.well_formed(),
    {
        if raw_words.len() == 0 {
            return Err(DecodeError::TruncatedInstruction);
        }
        match Format::classify(raw_words[0]) {
            Err(error) => Err(error),
            Ok(Format::Jump) => match JumpInstruction::new(raw_words[0]) {
                Err(error) => Err(error),
                Ok(jump) => Ok((Instruction::Jump(jump), 1)),
            },
            Ok(Format::OneOp) => match OneOpInstruction::new(raw_words) {
                Err(error) => Err(error),
                Ok((instruction, extra_word)) => Ok(
                    (
                        Instruction::OneOp(instruction),
                        if extra_word {
                            2
                        } else {
                            1
                        },
                    ),
                ),
            },
            Ok(Format::TwoOp) => match TwoOpInstruction::new(raw_words) {
                Err(error) => Err(error),
                Ok((instruction, extra_words)) => {
                    let step: usize = 1 + usize::from(extra_words);
                    match instruction.emulated_form() {
                        Some(emulated) => Ok((Instruction::Emulated(emulated), step)),
                        None => Ok((Instruction::TwoOp(instruction), step)),
                    }
                },
            },
        }
    }

    /// Writes the instruction in assembly syntax.
    pub fn to_string(&self) -> (text: String)
        ensures
            text@ == self.text(),
    {
        match self {
            Instruction::Jump(jump) => jump.to_string(),
            Instruction::OneOp(instruction) => instruction.to_string(),
            Instruction::TwoOp(instruction) => instruction.to_string(),
            Instruction::Emulated(emulated) => emulated.to_string(),
        }
    }
}

/// Decoding succeeds exactly on the windows that start with an opcode and
/// hold the whole instruction, and then reports the instruction's length. A
/// window that starts with a word that is no opcode gives the error of that
/// word, however short it is: `NotATwoOp` or `UndefinedOperation`. A window
/// that starts with an opcode and ends before the instruction does gives
/// `TruncatedInstruction`, and nothing else does but the empty window.
pub proof fn lemma_decoded_length(words: Seq<u16>)
    requires
        words.len() > 0,
    ensures
        1 <= Instruction::encoded_length(words[0]) <= 3,
        Instruction::decoded(words) is Ok <==> Instruction::is_opcode(words[0])
            && Instruction::encoded_length(words[0]) <= words.len(),
        Instruction::decoded(words) matches Ok((_, step)) ==> step == Instruction::encoded_length(
            words[0],
        ),
        Instruction::decoded(words) == Err::<(Instruction, usize), DecodeError>(
            DecodeError::TruncatedInstruction,
        ) <==> Instruction::is_opcode(words[0]) && words.len() < Instruction::encoded_length(
            words[0],
        ),
        !Instruction::is_opcode(words[0]) ==> Instruction::decoded(words) == Instruction::decoded(
            seq![words[0]],
        ),
        !Instruction::is_opcode(words[0]) ==> (Instruction::decoded(words) matches Err(error)
            && error.is_malformed() && (error == DecodeError::NotATwoOp || error
            == DecodeError::UndefinedOperation)),
{
    let word = words[0];
    assert((word >> 4) & 0b11 <= 0b11) by (bit_vector);
}

/// An instruction is decoded from its own words alone: the words behind it
/// in the window change nothing.
pub proof fn lemma_decoded_from_own_words(words: Seq<u16>, other: Seq<u16>)
    requires
        Instruction::decoded(words) matches Ok((_, step)) && other.len() >= step && other.take(
            step as int,
        ) == words.take(step as int),
    ensures
        Instruction::decoded(other) == Instruction::decoded(words),
{
    let step = Instruction::decoded(words)->Ok_0.1;
    lemma_decoded_length(words);
    assert(forall|i: int| 0 <= i < step ==> other[i] == other.take(step as int)[i]);
    assert(forall|i: int| 0 <= i < step ==> words[i] == words.take(step as int)[i]);
    lemma_decoded_length(other);
}

/// Every instruction that a window decodes to is well formed. So a
/// double-operand instruction that has a shorter name is decoded under that
/// name and never as it stands, and a shorter name comes from nowhere else.
pub proof fn lemma_decoded_is_well_formed(words: Seq<u16>)
    ensures
        Instruction::decoded(words) matches Ok((instruction, _)) ==> instruction.well_formed(),
{
    if words.len() > 0 {
        lemma_jump_offset_is_sign_extended(words[0]);
    }
}

/// A move from where the stack pointer points to the program counter is
/// written `ret`, whatever its size, and never as the move that it is.
pub proof fn lemma_return_is_written_ret(instruction: TwoOpInstruction)
    requires
        instruction.operation == TwoOp::Mov,
        instruction.source == AddresingMode::Indirect(Register::Sp),
        instruction.destination == AddresingMode::Direct(Register::Pc),
    ensures
        Instruction::of_two_op(instruction) == Instruction::Emulated(
            EmulatedInstruction::alone(EmulatedOp::Ret),
        ),
        Instruction::of_two_op(instruction).text() == "ret"@,
        Instruction::of_two_op(instruction).text() != instruction.text(),
{
    reveal_strlit("ret");
    reveal_strlit("mov");
    reveal_strlit(" ");
    let head = instruction.operation.mnemonic() + instruction.mode.suffix() + " "@;
    assert(instruction.text().len() >= head.len() > 3);
}

} // verus!
