//! Registers, operand sizes and addressing modes.

use vstd::prelude::*;
use vstd::std_specs::convert::FromSpecImpl;
use vstd::std_specs::convert::TryFromSpecImpl;
use vstd::string::*;

use crate::utils::error::DecodeError;
use crate::utils::radix::{
    decimal_digits, hex_digits, magnitude, push_decimal, push_hex, sign_prefix, signed,
    split_sign,
};

verus! {

/// The sixteen registers. `Pc`, `Sr` and `Cg` change what an addressing mode
/// field means; the others are general purpose.
#[derive(Debug, Clone, Copy, PartialEq, Eq, Structural)]
pub enum Register {
    Pc,
    Sp,
    Sr,
    Cg,
    R4,
    R5,
    R6,
    R7,
    R8,
    R9,
    R10,
    R11,
    R12,
    R13,
    R14,
    R15,
}

impl Register {
    /// The four-bit code of the register.
    pub open spec fn code(self) -> u16 {
        match self {
            Register::Pc => 0,
            Register::Sp => 1,
            Register::Sr => 2,
            Register::Cg => 3,
            Register::R4 => 4,
            Register::R5 => 5,
            Register::R6 => 6,
            Register::R7 => 7,
            Register::R8 => 8,
            Register::R9 => 9,
            Register::R10 => 10,
            Register::R11 => 11,
            Register::R12 => 12,
            Register::R13 => 13,
            Register::R14 => 14,
            Register::R15 => 15,
        }
    }

    /// The register that a code selects; codes of more than four bits select
    /// none.
    pub open spec fn from_code(code: u16) -> Result<Register, DecodeError> {
        if code == 0 {
            Ok(Register::Pc)
        } else if code == 1 {
            Ok(Register::Sp)
        } else if code == 2 {
            Ok(Register::Sr)
        } else if code == 3 {
            Ok(Register::Cg)
        } else if code == 4 {
            Ok(Register::R4)
        } else if code == 5 {
            Ok(Register::R5)
        } else if code == 6 {
            Ok(Register::R6)
        } else if code == 7 {
            Ok(Register::R7)
        } else if code == 8 {
            Ok(Register::R8)
        } else if code == 9 {
            Ok(Register::R9)
        } else if code == 10 {
            Ok(Register::R10)
        } else if code == 11 {
            Ok(Register::R11)
        } else if code == 12 {
            Ok(Register::R12)
        } else if code == 13 {
            Ok(Register::R13)
        } else if code == 14 {
            Ok(Register::R14)
        } else if code == 15 {
            Ok(Register::R15)
        } else {
            Err(DecodeError::NotARegister)
        }
    }

    /// The register that the low four bits of a word select.
    pub open spec fn of_low_bits(word: u16) -> Register {
        Register::from_code(word & 0b1111)->Ok_0
    }

    /// The upper-case name of the register.
    pub open spec fn name(self) -> Seq<char> {
        match self {
            Register::Pc => "PC"@,
            Register::Sp => "SP"@,
            Register::Sr => "SR"@,
            Register::Cg => "CG"@,
            Register::R4 => "R4"@,
            Register::R5 => "R5"@,
            Register::R6 => "R6"@,
            Register::R7 => "R7"@,
            Register::R8 => "R8"@,
            Register::R9 => "R9"@,
            Register::R10 => "R10"@,
            Register::R11 => "R11"@,
            Register::R12 => "R12"@,
            Register::R13 => "R13"@,
            Register::R14 => "R14"@,
            Register::R15 => "R15"@,
        }
    }

    /// Decodes the low four bits of `word`, whatever the other bits hold.
    pub fn from_low_bits(word: u16) -> (register: Register)
        ensures
            register == Register::of_low_bits(word),
            register.code() == word & 0b1111,
    {
        let code: u16 = word & 0b1111;
        assert(code < 16) by (bit_vector)
            requires
                code == word & 0b1111,
        ;
        Register::try_from(code).unwrap()
    }
}

impl TryFrom<u16> for Register {
    type Error = DecodeError;

    /// Decodes a register from its code.
    fn try_from(value: u16) -> (decoded: Result<Self, DecodeError>)
        ensures
            decoded == Register::from_code(value),
    {
        if value >= 0b10000 {
            return Err(DecodeError::NotARegister);
        }
        match value {
            0b0000 => Ok(Self::Pc),
            0b0001 => Ok(Self::Sp),
            0b0010 => Ok(Self::Sr),
            0b0011 => Ok(Self::Cg),
            0b0100 => Ok(Self::R4),
            0b0101 => Ok(Self::R5),
            0b0110 => Ok(Self::R6),
            0b0111 => Ok(Self::R7),
            0b1000 => Ok(Self::R8),
            0b1001 => Ok(Self::R9),
            0b1010 => Ok(Self::R10),
            0b1011 => Ok(Self::R11),
            0b1100 => Ok(Self::R12),
            0b1101 => Ok(Self::R13),
            0b1110 => Ok(Self::R14),
            _ => Ok(Self::R15),
        }
    }
}

impl TryFromSpecImpl<u16> for Register {
    open spec fn obeys_try_from_spec() -> bool {
        true
    }

    open spec fn try_from_spec(v: u16) -> Result<Self, DecodeError> {
        Register::from_code(v)
    }
}

impl From<Register> for u16 {
    /// The code of a register.
    fn from(val: Register) -> (code: u16)
        ensures
            code == val.code(),
    {
        match val {
            Register::Pc => 0b0000u16,
            Register::Sp => 0b0001u16,
            Register::Sr => 0b0010u16,
            Register::Cg => 0b0011u16,
            Register::R4 => 0b0100u16,
            Register::R5 => 0b0101u16,
            Register::R6 => 0b0110u16,
            Register::R7 => 0b0111u16,
            Register::R8 => 0b1000u16,
            Register::R9 => 0b1001u16,
            Register::R10 => 0b1010u16,
            Register::R11 => 0b1011u16,
            Register::R12 => 0b1100u16,
            Register::R13 => 0b1101u16,
            Register::R14 => 0b1110u16,
            Register::R15 => 0b1111u16,
        }
    }
}

impl FromSpecImpl<Register> for u16 {
    open spec fn obeys_from_spec() -> bool {
        true
    }

    open spec fn from_spec(v: Register) -> u16 {
        v.code()
    }
}

impl From<Register> for String {
    /// The name of a register.
    fn from(val: Register) -> (name: String)
        ensures
            name@ == val.name(),
    {
        match val {
            Register::Pc => "PC",
            Register::Sp => "SP",
            Register::Sr => "SR",
            Register::Cg => "CG",
            Register::R4 => "R4",
            Register::R5 => "R5",
            Register::R6 => "R6",
            Register::R7 => "R7",
            Register::R8 => "R8",
            Register::R9 => "R9",
            Register::R10 => "R10",
            Register::R11 => "R11",
            Register::R12 => "R12",
            Register::R13 => "R13",
            Register::R14 => "R14",
            Register::R15 => "R15",
        }.to_owned()
    }
}

impl FromSpecImpl<Register> for String {
    open spec fn obeys_from_spec() -> bool {
        false
    }

    open spec fn from_spec(v: Register) -> String {
        arbitrary()
    }
}

/// Every register is the one that its own code selects.
pub proof fn lemma_register_code_round_trip(register: Register)
    ensures
        register.code() < 16,
        Register::from_code(register.code()) == Ok::<Register, DecodeError>(register),
{
}

/// Every four-bit code is the code of the register that it selects, and no
/// other code selects a register.
pub proof fn lemma_register_from_code_round_trip(code: u16)
    ensures
        code < 16 ==> Register::from_code(code) is Ok && Register::from_code(code)->Ok_0.code()
            == code,
        code >= 16 ==> Register::from_code(code) == Err::<Register, DecodeError>(
            DecodeError::NotARegister,
        ),
{
}

/// The width of an operand: a byte or a word.
#[derive(Debug, Clone, Copy, PartialEq, Eq, Structural)]
pub enum DataMode {
    Byte,
    Word,
}

impl DataMode {
    /// The size that bit 6 of an instruction word selects: a clear bit is a
    /// word, a set bit a byte.
    pub open spec fn of_word(word: u16) -> DataMode {
        if word & 0b1000000 == 0 {
            DataMode::Word
        } else {
            DataMode::Byte
        }
    }

    /// The size bit in its place in an instruction word.
    pub open spec fn bits(self) -> u16 {
        match self {
            DataMode::Byte => 0b1000000,
            DataMode::Word => 0,
        }
    }

    /// The suffix that a mnemonic gets for the size.
    pub open spec fn suffix(self) -> Seq<char> {
        match self {
            DataMode::Byte => ".b"@,
            DataMode::Word => ".w"@,
        }
    }
}

impl From<u16> for DataMode {
    /// Reads the operand size from bit 6 of an instruction word.
    fn from(value: u16) -> (mode: DataMode)
        ensures
            mode == DataMode::of_word(value),
    {
        let size_data = value & 0b1000000u16;
        if size_data == 0 {
            Self::Word
        } else {
            Self::Byte
        }
    }
}

impl FromSpecImpl<u16> for DataMode {
    open spec fn obeys_from_spec() -> bool {
        true
    }

    open spec fn from_spec(v: u16) -> DataMode {
        DataMode::of_word(v)
    }
}

impl From<DataMode> for u16 {
    /// The size bit in its place in an instruction word.
    fn from(val: DataMode) -> (bits: u16)
        ensures
            bits == val.bits(),
    {
        if val == DataMode::Byte {
            0b1000000u16
        } else {
            0u16
        }
    }
}

impl FromSpecImpl<DataMode> for u16 {
    open spec fn obeys_from_spec() -> bool {
        true
    }

    open spec fn from_spec(v: DataMode) -> u16 {
        v.bits()
    }
}

impl From<DataMode> for String {
    /// The suffix of a size.
    fn from(val: DataMode) -> (suffix: String)
        ensures
            suffix@ == val.suffix(),
    {
        if val == DataMode::Word {
            ".w".to_owned()
        } else {
            ".b".to_owned()
        }
    }
}

impl FromSpecImpl<DataMode> for String {
    open spec fn obeys_from_spec() -> bool {
        false
    }

    open spec fn from_spec(v: DataMode) -> String {
        arbitrary()
    }
}

/// A size is the one that its own bit selects, in any word that holds it.
pub proof fn lemma_data_mode_round_trip(mode: DataMode, word: u16)
    ensures
        DataMode::of_word(mode.bits()) == mode,
        DataMode::of_word(word).bits() == word & 0b1000000,
{
    assert(0u16 & 0b1000000 == 0) by (bit_vector);
    assert(0b1000000u16 & 0b1000000 != 0) by (bit_vector);
    assert(word & 0b1000000 == 0 || word & 0b1000000 == 0b1000000) by (bit_vector);
}

/// How an operand is found.
#[derive(Debug, Clone, Copy, PartialEq, Eq, Structural)]
pub enum AddresingMode {
    /// The operand is the register.
    Direct(Register),
    /// The operand lies at the register plus an offset.
    Indexed(u16, Register),
    /// The operand lies where the register points.
    Indirect(Register),
    /// As `Indirect`; the register then moves past the operand.
    Autoincrement(Register),
    /// The operand lies at the address.
    Absolute(u16),
    /// The operand lies at the program counter plus an offset.
    Symbolic(u16),
    /// The operand is the value.
    Immediate(u16),
}

/// The signed hexadecimal text of a word: the word is read in two's
/// complement, negative values get a minus sign, and the distance from zero
/// follows in hexadecimal behind `0x`.
pub open spec fn signed_hex(word: u16) -> Seq<char> {
    sign_prefix(word) + "0x"@ + hex_digits(magnitude(word))
}

/// The signed decimal text of a word, read in two's complement.
pub open spec fn signed_decimal(word: u16) -> Seq<char> {
    sign_prefix(word) + decimal_digits(magnitude(word))
}

impl AddresingMode {
    /// The operand in assembly syntax.
    pub open spec fn text(self) -> Seq<char> {
        match self {
            AddresingMode::Direct(register) => register.name(),
            AddresingMode::Indexed(offset, register) => signed_hex(offset) + "("@ + register.name()
                + ")"@,
            AddresingMode::Indirect(register) => "@"@ + register.name(),
            AddresingMode::Autoincrement(register) => "@"@ + register.name() + "+"@,
            AddresingMode::Absolute(address) => "&0x"@ + hex_digits(address as nat),
            AddresingMode::Symbolic(offset) => signed_hex(offset),
            AddresingMode::Immediate(value) => "#"@ + signed_decimal(value),
        }
    }

    /// Writes the operand in assembly syntax.
    pub fn to_string(&self) -> (text: String)
        ensures
            text@ == self.text(),
    {
        match *self {
            Self::Direct(reg) => String::from(reg),
            Self::Indexed(offset, reg) => {
                let mut text = get_signed_hex(offset);
                text.append("(");
                text.append(String::from(reg).as_str());
                text.append(")");
                text
            },
            Self::Indirect(reg) => {
                let mut text = "@".to_owned();
                text.append(String::from(reg).as_str());
                text
            },
            Self::Autoincrement(reg) => {
                let mut text = "@".to_owned();
                text.append(String::from(reg).as_str());
                text.append("+");
                text
            },
            Self::Absolute(address) => {
                let mut text = "&0x".to_owned();
                push_hex(&mut text, address);
                text
            },
            Self::Symbolic(offset) => get_signed_hex(offset),
            Self::Immediate(value) => {
                let (negative, distance) = split_sign(value);
                let mut text = "#".to_owned();
                if negative {
                    text.append("-");
                }
                push_decimal(&mut text, distance);
                proof {
                    reveal_strlit("-");
                }
                text
            },
        }
    }
}

/// The types that hold one decoded instruction.
pub trait AsmInstruction {

}

/// Whether the operand that a register and a two-bit mode select takes its
/// value from the word behind the instruction word.
pub open spec fn takes_extra_word(register: Register, addr_bits: u16) -> bool {
    ||| addr_bits == 0b01 && register != Register::Cg
    ||| addr_bits == 0b11 && register == Register::Pc
}

/// The operand that a register and a two-bit mode select, `extra` being the
/// word behind the instruction word. Where `Sr` or `Cg` stands with a mode
/// that would make no sense for it, the pair selects a constant instead.
pub open spec fn selected_operand(register: Register, addr_bits: u16, extra: u16) -> AddresingMode {
    if addr_bits == 0b00 {
        match register {
            Register::Cg => AddresingMode::Immediate(0),
            _ => AddresingMode::Direct(register),
        }
    } else if addr_bits == 0b01 {
        match register {
            Register::Pc => AddresingMode::Symbolic(extra),
            Register::Sr => AddresingMode::Absolute(extra),
            Register::Cg => AddresingMode::Immediate(1),
            _ => AddresingMode::Indexed(extra, register),
        }
    } else if addr_bits == 0b10 {
        match register {
            Register::Sr => AddresingMode::Immediate(4),
            Register::Cg => AddresingMode::Immediate(2),
            _ => AddresingMode::Indirect(register),
        }
    } else {
        match register {
            Register::Pc => AddresingMode::Immediate(extra),
            Register::Sr => AddresingMode::Immediate(8),
            Register::Cg => AddresingMode::Immediate(0xffff),
            _ => AddresingMode::Autoincrement(register),
        }
    }
}

/// What [`parse_address`] returns: an error for a mode of more than two bits
/// and for an operand whose extra word the window lacks, else the operand
/// and whether it took the extra word. The extra word is `words[1]`.
pub open spec fn resolved_operand(register: Register, addr_bits: u16, words: Seq<u16>) -> Result<
    (AddresingMode, bool),
    DecodeError,
> {
    if addr_bits > 0b11 {
        Err(DecodeError::InvalidAddressingMode)
    } else if !takes_extra_word(register, addr_bits) {
        Ok((selected_operand(register, addr_bits, 0), false))
    } else if words.len() < 2 {
        Err(DecodeError::TruncatedInstruction)
    } else {
        Ok((selected_operand(register, addr_bits, words[1]), true))
    }
}

/// The registers that stand for constants give them in every window, the
/// empty one too, and take no word for it: `Cg` gives 0, 1, 2 and -1 for
/// the four modes, `Sr` gives 4 and 8 for the modes `10` and `11`.
pub proof fn lemma_constants_take_no_word(words: Seq<u16>)
    ensures
        resolved_operand(Register::Cg, 0b00, words) == Ok::<(AddresingMode, bool), DecodeError>(
            (AddresingMode::Immediate(0), false),
        ),
        resolved_operand(Register::Cg, 0b01, words) == Ok::<(AddresingMode, bool), DecodeError>(
            (AddresingMode::Immediate(1), false),
        ),
        resolved_operand(Register::Cg, 0b10, words) == Ok::<(AddresingMode, bool), DecodeError>(
            (AddresingMode::Immediate(2), false),
        ),
        resolved_operand(Register::Cg, 0b11, words) == Ok::<(AddresingMode, bool), DecodeError>(
            (AddresingMode::Immediate(0xffff), false),
        ),
        resolved_operand(Register::Sr, 0b10, words) == Ok::<(AddresingMode, bool), DecodeError>(
            (AddresingMode::Immediate(4), false),
        ),
        resolved_operand(Register::Sr, 0b11, words) == Ok::<(AddresingMode, bool), DecodeError>(
            (AddresingMode::Immediate(8), false),
        ),
        signed(0xffff) == -1,
{
}

/// Resolves the operand that `register` and the mode `addr_bits` select in
/// the instruction that starts at `raw_words[0]`.
pub fn parse_address(register: Register, addr_bits: u16, raw_words: &[u16]) -> (resolved: Result<
    (AddresingMode, bool),
    DecodeError,
>)
    ensures
        resolved == resolved_operand(register, addr_bits, raw_words@),
{
    let mut extra_word_used = false;

    let mode = match addr_bits {
        0b00 => {
            if register == Register::Cg {
                AddresingMode::Immediate(0)
            } else {
                AddresingMode::Direct(register)
            }
        },
        0b01 => match register {
            Register::Cg => AddresingMode::Immediate(1),
            _ => {
                if raw_words.len() < 2 {
                    return Err(DecodeError::TruncatedInstruction);
                }
                extra_word_used = true;
                match register {
                    Register::Pc => AddresingMode::Symbolic(raw_words[1]),
                    Register::Sr => AddresingMode::Absolute(raw_words[1]),
                    _ => AddresingMode::Indexed(raw_words[1], register),
                }
            },
        },
        0b10 => match register {
            Register::Sr => AddresingMode::Immediate(4),
            Register::Cg => AddresingMode::Immediate(2),
            _ => AddresingMode::Indirect(register),
        },
        0b11 => match register {
            Register::Pc => {
                if raw_words.len() < 2 {
                    return Err(DecodeError::TruncatedInstruction);
                }
                extra_word_used = true;
                AddresingMode::Immediate(raw_words[1])
            },
            Register::Sr => AddresingMode::Immediate(8),
            Register::Cg => AddresingMode::Immediate(0xffff),
            _ => AddresingMode::Autoincrement(register),
        },
        _ => return Err(DecodeError::InvalidAddressingMode),
    };

    Ok((mode, extra_word_used))
}

/// Writes a word as signed hexadecimal text.
pub fn get_signed_hex(src: u16) -> (text: String)
    ensures
        text@ == signed_hex(src),
{
    let (negative, distance) = split_sign(src);
    let mut text = if negative {
        "-0x".to_owned()
    } else {
        "0x".to_owned()
    };
    push_hex(&mut text, distance);
    proof {
        reveal_strlit("-0x");
        reveal_strlit("0x");
    }
    text
}

} // verus!
