//! The single-operand format.

use vstd::prelude::*;
use vstd::std_specs::convert::FromSpecImpl;
use vstd::std_specs::convert::TryFromSpecImpl;
use vstd::string::*;

use crate::utils::data_address::{
    parse_address, resolved_operand, AddresingMode, AsmInstruction, DataMode, Register,
};
use crate::utils::error::DecodeError;

verus! {

/// The seven operations on one operand.
#[derive(Debug, Clone, Copy, PartialEq, Eq, Structural)]
pub enum OneOp {
    Rrc,
    Swpb,
    Rra,
    Sxt,
    Push,
    Call,
    Reti,
}

impl OneOp {
    /// The three-bit code of the operation.
    pub open spec fn code(self) -> u16 {
        match self {
            OneOp::Rrc => 0b000,
            OneOp::Swpb => 0b001,
            OneOp::Rra => 0b010,
            OneOp::Sxt => 0b011,
            OneOp::Push => 0b100,
            OneOp::Call => 0b101,
            OneOp::Reti => 0b110,
        }
    }

    /// The operation that a three-bit code selects; the code `111` selects
    /// none.
    pub open spec fn of_code(code: u16) -> Result<OneOp, DecodeError> {
        if code == 0b000 {
            Ok(OneOp::Rrc)
        } else if code == 0b001 {
            Ok(OneOp::Swpb)
        } else if code == 0b010 {
            Ok(OneOp::Rra)
        } else if code == 0b011 {
            Ok(OneOp::Sxt)
        } else if code == 0b100 {
            Ok(OneOp::Push)
        } else if code == 0b101 {
            Ok(OneOp::Call)
        } else if code == 0b110 {
            Ok(OneOp::Reti)
        } else {
            Err(DecodeError::UndefinedOperation)
        }
    }

    /// The operation of a single-operand word: the word must hold `000100`
    /// in its top six bits, and bits 9 to 7 are the code of the operation.
    pub open spec fn of_word(word: u16) -> Result<OneOp, DecodeError> {
        if word >> 10 != 0b000100 {
            Err(DecodeError::NotAOneOp)
        } else {
            OneOp::of_code((word >> 7) & 0b111)
        }
    }

    /// The single-operand word of the operation with all other fields zero.
    pub open spec fn word_bits(self) -> u16 {
        (0b000100000u16 | self.code()) << 7
    }

    /// Whether the operation exists for bytes as well as for words, so that
    /// the size bit of its word means something.
    pub open spec fn has_size(self) -> bool {
        self == OneOp::Rrc || self == OneOp::Rra || self == OneOp::Push
    }

    /// The mnemonic of the operation.
    pub open spec fn mnemonic(self) -> Seq<char> {
        match self {
            OneOp::Rrc => "rrc"@,
            OneOp::Swpb => "swpb"@,
            OneOp::Rra => "rra"@,
            OneOp::Sxt => "sxt"@,
            OneOp::Push => "push"@,
            OneOp::Call => "call"@,
            OneOp::Reti => "reti"@,
        }
    }
}

impl TryFrom<u16> for OneOp {
    type Error = DecodeError;

    /// Decodes the operation of a single-operand word.
    fn try_from(value: u16) -> (decoded: Result<Self, DecodeError>)
        ensures
            decoded == OneOp::of_word(value),
    {
        let op_data: u16 = value >> 10;
        if op_data != 0b000100 {
            return Err(DecodeError::NotAOneOp);
        }
        let masked_data: u16 = (value >> 7) & 0b111u16;
        match masked_data {
            0b000 => Ok(Self::Rrc),
            0b001 => Ok(Self::Swpb),
            0b010 => Ok(Self::Rra),
            0b011 => Ok(Self::Sxt),
            0b100 => Ok(Self::Push),
            0b101 => Ok(Self::Call),
            0b110 => Ok(Self::Reti),
            _ => Err(DecodeError::UndefinedOperation),
        }
    }
}

impl TryFromSpecImpl<u16> for OneOp {
    open spec fn obeys_try_from_spec() -> bool {
        true
    }

    open spec fn try_from_spec(v: u16) -> Result<Self, DecodeError> {
        OneOp::of_word(v)
    }
}

impl From<OneOp> for u16 {
    /// The single-operand word of an operation, all other fields zero.
    fn from(val: OneOp) -> (word: u16)
        ensures
            word == val.word_bits(),
    {
        let op_bits: u16 = 0b000100000u16 | match val {
            OneOp::Rrc => 0b000u16,
            OneOp::Swpb => 0b001u16,
            OneOp::Rra => 0b010u16,
            OneOp::Sxt => 0b011u16,
            OneOp::Push => 0b100u16,
            OneOp::Call => 0b101u16,
            OneOp::Reti => 0b110u16,
        };
        op_bits << 7
    }
}

impl FromSpecImpl<OneOp> for u16 {
    open spec fn obeys_from_spec() -> bool {
        true
    }

    open spec fn from_spec(v: OneOp) -> u16 {
        v.word_bits()
    }
}

impl From<OneOp> for String {
    /// The mnemonic of an operation.
    fn from(val: OneOp) -> (mnemonic: String)
        ensures
            mnemonic@ == val.mnemonic(),
    {
        match val {
            OneOp::Rrc => "rrc",
            OneOp::Swpb => "swpb",
            OneOp::Rra => "rra",
            OneOp::Sxt => "sxt",
            OneOp::Push => "push",
            OneOp::Call => "call",
            OneOp::Reti => "reti",
        }.to_owned()
    }
}

impl FromSpecImpl<OneOp> for String {
    open spec fn obeys_from_spec() -> bool {
        false
    }

    open spec fn from_spec(v: OneOp) -> String {
        arbitrary()
    }
}

/// The word of an operation decodes to that operation.
pub proof fn lemma_one_op_round_trip(op: OneOp)
    ensures
        OneOp::of_word(op.word_bits()) == Ok::<OneOp, DecodeError>(op),
{
    let code = op.code();
    assert(code < 8 ==> ((0b000100000u16 | code) << 7) >> 10 == 0b000100 && (((0b000100000u16
        | code) << 7) >> 7) & 0b111 == code) by (bit_vector);
}

/// A decoded single-operand instruction.
#[derive(Debug, Clone, Copy, PartialEq, Eq, Structural)]
pub struct OneOpInstruction {
    pub operation: OneOp,
    pub data: AddresingMode,
    /// The operand's size, for the operations that have one.
    pub mode: Option<DataMode>,
}

impl AsmInstruction for OneOpInstruction {

}

impl OneOpInstruction {
    /// The instruction that starts a window of words, and whether it holds a
    /// second word. The first word gives the operation, the size in bit 6,
    /// the operand's mode in bits 5 and 4 and its register in bits 3 to 0.
    pub open spec fn decoded(words: Seq<u16>) -> Result<(OneOpInstruction, bool), DecodeError> {
        if words.len() == 0 {
            Err(DecodeError::TruncatedInstruction)
        } else {
            match OneOp::of_word(words[0]) {
                Err(error) => Err(error),
                Ok(operation) => match resolved_operand(
                    Register::of_low_bits(words[0]),
                    (words[0] >> 4) & 0b11,
                    words,
                ) {
                    Err(error) => Err(error),
                    Ok((data, word_used)) => Ok(
                        (
                            OneOpInstruction {
                                operation,
                                data,
                                mode: if operation.has_size() {
                                    Some(DataMode::of_word(words[0]))
                                } else {
                                    None
                                },
                            },
                            word_used,
                        ),
                    ),
                },
            }
        }
    }

    /// Whether the instruction has a size exactly if its operation has one.
    pub open spec fn well_formed(self) -> bool {
        self.mode is Some <==> self.operation.has_size()
    }

    /// The instruction in assembly syntax: the mnemonic, the size suffix
    /// where the operation has a size, a space and the operand.
    pub open spec fn text(self) -> Seq<char> {
        self.operation.mnemonic() + (match self.mode {
            Some(mode) => mode.suffix(),
            None => Seq::empty(),
        }) + " "@ + self.data.text()
    }

    /// Decodes the single-operand instruction at the start of `raw_words`.
    pub fn new(raw_words: &[u16]) -> (decoded: Result<(Self, bool), DecodeError>)
        ensures
            decoded == OneOpInstruction::decoded(raw_words@),
            decoded matches Ok((instruction, _)) ==> instruction.well_formed(),
    {
        if raw_words.len() == 0 {
            return Err(DecodeError::TruncatedInstruction);
        }
        let operation = match OneOp::try_from(raw_words[0]) {
            Ok(operation) => operation,
            Err(error) => return Err(error),
        };
        let mode = if operation == OneOp::Rrc || operation == OneOp::Rra || operation
            == OneOp::Push {
            Some(DataMode::from(raw_words[0]))
        } else {
            None
        };

        let data_register = Register::from_low_bits(raw_words[0]);
        let addr_mode_bits = (raw_words[0] >> 4) & 0b11u16;
        match parse_address(data_register, addr_mode_bits, raw_words) {
            Ok((data, word_used)) => Ok((Self { operation, data, mode }, word_used)),
            Err(error) => Err(error),
        }
    }

    /// Writes the instruction in assembly syntax.
    pub fn to_string(&self) -> (text: String)
        ensures
            text@ == self.text(),
    {
        let mut text = String::from(self.operation);
        if let Some(mode) = self.mode {
            text.append(String::from(mode).as_str());
        }
        text.append(" ");
        text.append(self.data.to_string().as_str());
        text
    }
}

} // verus!
