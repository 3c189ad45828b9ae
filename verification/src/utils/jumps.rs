//! The jump format: a condition and a signed ten-bit offset in one word.

use vstd::prelude::*;
use vstd::std_specs::convert::FromSpecImpl;
use vstd::std_specs::convert::TryFromSpecImpl;
use vstd::string::*;

use crate::utils::data_address::{get_signed_hex, signed_hex, AsmInstruction};
use crate::utils::error::DecodeError;
use crate::utils::radix::signed;

verus! {

/// The eight conditions of a jump.
#[derive(Debug, Clone, Copy, PartialEq, Eq, Structural)]
pub enum JumpOp {
    Jne,
    Jeq,
    Jlo,
    Jhs,
    Jn,
    Jge,
    Jl,
    Jmp,
}

impl JumpOp {
    /// The three-bit code of the condition.
    pub open spec fn condition(self) -> u16 {
        match self {
            JumpOp::Jne => 0b000,
            JumpOp::Jeq => 0b001,
            JumpOp::Jlo => 0b010,
            JumpOp::Jhs => 0b011,
            JumpOp::Jn => 0b100,
            JumpOp::Jge => 0b101,
            JumpOp::Jl => 0b110,
            JumpOp::Jmp => 0b111,
        }
    }

    /// The condition that a three-bit code selects.
    pub open spec fn of_condition(code: u16) -> JumpOp {
        if code == 0b000 {
            JumpOp::Jne
        } else if code == 0b001 {
            JumpOp::Jeq
        } else if code == 0b010 {
            JumpOp::Jlo
        } else if code == 0b011 {
            JumpOp::Jhs
        } else if code == 0b100 {
            JumpOp::Jn
        } else if code == 0b101 {
            JumpOp::Jge
        } else if code == 0b110 {
            JumpOp::Jl
        } else {
            JumpOp::Jmp
        }
    }

    /// The condition of a jump word: the word must hold `001` in its top
    /// three bits, and bits 12 to 10 are the code of the condition.
    pub open spec fn of_word(word: u16) -> Result<JumpOp, DecodeError> {
        if word >> 13 != 0b001 {
            Err(DecodeError::NotAJump)
        } else {
            Ok(JumpOp::of_condition((word >> 10) & 0b111))
        }
    }

    /// The jump word of the condition with a zero offset.
    pub open spec fn word_bits(self) -> u16 {
        (0b001000u16 | self.condition()) << 10
    }

    /// The mnemonic of the condition.
    pub open spec fn mnemonic(self) -> Seq<char> {
        match self {
            JumpOp::Jne => "jne"@,
            JumpOp::Jeq => "jeq"@,
            JumpOp::Jlo => "jlo"@,
            JumpOp::Jhs => "jhs"@,
            JumpOp::Jn => "jn"@,
            JumpOp::Jge => "jge"@,
            JumpOp::Jl => "jl"@,
            JumpOp::Jmp => "jmp"@,
        }
    }
}

impl TryFrom<u16> for JumpOp {
    type Error = DecodeError;

    /// Decodes the condition of a jump word.
    fn try_from(value: u16) -> (decoded: Result<Self, DecodeError>)
        ensures
            decoded == JumpOp::of_word(value),
    {
        let op_data: u16 = value >> 13;
        if op_data != 0b001 {
            return Err(DecodeError::NotAJump);
        }
        let masked_data: u16 = (value >> 10) & 0b111u16;
        match masked_data {
            0b000 => Ok(Self::Jne),
            0b001 => Ok(Self::Jeq),
            0b010 => Ok(Self::Jlo),
            0b011 => Ok(Self::Jhs),
            0b100 => Ok(Self::Jn),
            0b101 => Ok(Self::Jge),
            0b110 => Ok(Self::Jl),
            _ => Ok(Self::Jmp),
        }
    }
}

impl TryFromSpecImpl<u16> for JumpOp {
    open spec fn obeys_try_from_spec() -> bool {
        true
    }

    open spec fn try_from_spec(v: u16) -> Result<Self, DecodeError> {
        JumpOp::of_word(v)
    }
}

impl From<JumpOp> for u16 {
    /// The jump word of a condition, with a zero offset.
    fn from(val: JumpOp) -> (word: u16)
        ensures
            word == val.word_bits(),
    {
        let op_bits: u16 = 0b001000u16 | match val {
            JumpOp::Jne => 0b000u16,
            JumpOp::Jeq => 0b001u16,
            JumpOp::Jlo => 0b010u16,
            JumpOp::Jhs => 0b011u16,
            JumpOp::Jn => 0b100u16,
            JumpOp::Jge => 0b101u16,
            JumpOp::Jl => 0b110u16,
            JumpOp::Jmp => 0b111u16,
        };
        op_bits << 10
    }
}

impl FromSpecImpl<JumpOp> for u16 {
    open spec fn obeys_from_spec() -> bool {
        true
    }

    open spec fn from_spec(v: JumpOp) -> u16 {
        v.word_bits()
    }
}

impl From<JumpOp> for String {
    /// The mnemonic of a condition.
    fn from(val: JumpOp) -> (mnemonic: String)
        ensures
            mnemonic@ == val.mnemonic(),
    {
        match val {
            JumpOp::Jne => "jne",
            JumpOp::Jeq => "jeq",
            JumpOp::Jlo => "jlo",
            JumpOp::Jhs => "jhs",
            JumpOp::Jn => "jn",
            JumpOp::Jge => "jge",
            JumpOp::Jl => "jl",
            JumpOp::Jmp => "jmp",
        }.to_owned()
    }
}

impl FromSpecImpl<JumpOp> for String {
    open spec fn obeys_from_spec() -> bool {
        false
    }

    open spec fn from_spec(v: JumpOp) -> String {
        arbitrary()
    }
}

/// The word of a condition decodes to that condition.
pub proof fn lemma_jump_op_round_trip(op: JumpOp)
    ensures
        JumpOp::of_word(op.word_bits()) == Ok::<JumpOp, DecodeError>(op),
{
    let code = op.condition();
    assert(code < 8 ==> ((0b001000u16 | code) << 10) >> 13 == 0b001 && (((0b001000u16 | code)
        << 10) >> 10) & 0b111 == code) by (bit_vector);
}

/// The offset of a jump word: its low ten bits, with the sign bit of that
/// field copied into the six bits above it.
pub open spec fn jump_offset(word: u16) -> u16 {
    let offset_bits = word & 0b1111111111;
    if offset_bits & 0b1000000000 != 0 {
        offset_bits | 0b1111110000000000
    } else {
        offset_bits
    }
}

/// A decoded jump.
#[derive(Debug, Clone, Copy, PartialEq, Eq, Structural)]
pub struct JumpInstruction {
    pub operation: JumpOp,
    /// The distance in words, sign-extended to sixteen bits.
    pub offset: u16,
}

impl JumpInstruction {
    /// The jump that a word encodes.
    pub open spec fn of_word(word: u16) -> Result<JumpInstruction, DecodeError> {
        match JumpOp::of_word(word) {
            Ok(operation) => Ok(JumpInstruction { operation, offset: jump_offset(word) }),
            Err(error) => Err(error),
        }
    }

    /// Whether the offset is a ten-bit number in sixteen bits: read in
    /// two's complement it lies between -512 and 511.
    pub open spec fn well_formed(self) -> bool {
        -512 <= signed(self.offset) < 512
    }

    /// The jump in assembly syntax.
    pub open spec fn text(self) -> Seq<char> {
        "("@ + self.operation.mnemonic() + ", "@ + signed_hex(self.offset) + ")"@
    }

    /// Decodes a jump word.
    pub fn new(word: u16) -> (decoded: Result<Self, DecodeError>)
        ensures
            decoded == JumpInstruction::of_word(word),
            decoded matches Ok(jump) ==> jump.well_formed(),
    {
        proof {
            lemma_jump_offset_is_sign_extended(word);
        }
        let operation = match JumpOp::try_from(word) {
            Ok(operation) => operation,
            Err(error) => return Err(error),
        };
        let offset_bits = word & 0b1111111111u16;
        let offset = if offset_bits & 0b1000000000u16 != 0 {
            offset_bits | 0b1111110000000000u16
        } else {
            offset_bits
        };

        Ok(Self { operation, offset })
    }

    /// Writes the jump in assembly syntax.
    pub fn to_string(&self) -> (text: String)
        ensures
            text@ == self.text(),
    {
        let mut text = "(".to_owned();
        text.append(String::from(self.operation).as_str());
        text.append(", ");
        text.append(get_signed_hex(self.offset).as_str());
        text.append(")");
        text
    }
}

impl AsmInstruction for JumpInstruction {

}

/// Sign extension keeps the number: read in two's complement, the offset of
/// a jump is the number that the low ten bits of the word hold in two's
/// complement, between -512 and 511.
pub proof fn lemma_jump_offset_is_sign_extended(word: u16)
    ensures
        word % 1024 < 512 ==> signed(jump_offset(word)) == word % 1024,
        word % 1024 >= 512 ==> signed(jump_offset(word)) == word % 1024 - 1024,
        -512 <= signed(jump_offset(word)) < 512,
{
    let field = word & 0b1111111111;
    assert(field == word % 1024 && (field & 0b1000000000 != 0 <==> field >= 512) && (field
        >= 512 ==> field | 0b1111110000000000 == field + 0b1111110000000000)) by (bit_vector)
        requires
            field == word & 0b1111111111,
    ;
}

} // verus!
