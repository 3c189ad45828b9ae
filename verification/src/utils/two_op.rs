//! The double-operand format and the shorter names of some of its
//! encodings.

use vstd::prelude::*;
use vstd::std_specs::convert::FromSpecImpl;
use vstd::std_specs::convert::TryFromSpecImpl;
use vstd::string::*;

use crate::utils::data_address::{
    parse_address, resolved_operand, AddresingMode, AsmInstruction, DataMode, Register,
};
use crate::utils::error::DecodeError;

verus! {

/// The twelve operations on two operands.
#[derive(Debug, Clone, Copy, PartialEq, Eq, Structural)]
pub enum TwoOp {
    Mov,
    Add,
    Addc,
    Sub,
    Subc,
    Cmp,
    Dadd,
    Bit,
    Bic,
    Bis,
    Xor,
    And,
}

impl TwoOp {
    /// The four-bit code of the operation.
    pub open spec fn code(self) -> u16 {
        match self {
            TwoOp::Mov => 0b0100,
            TwoOp::Add => 0b0101,
            TwoOp::Addc => 0b0110,
            TwoOp::Subc => 0b0111,
            TwoOp::Sub => 0b1000,
            TwoOp::Cmp => 0b1001,
            TwoOp::Dadd => 0b1010,
            TwoOp::Bit => 0b1011,
            TwoOp::Bic => 0b1100,
            TwoOp::Bis => 0b1101,
            TwoOp::Xor => 0b1110,
            TwoOp::And => 0b1111,
        }
    }

    /// The operation that a four-bit code selects. The code `0001` belongs
    /// to the single-operand format; `0000`, `0010` and `0011` select no
    /// operation of this format.
    pub open spec fn of_code(code: u16) -> Result<TwoOp, DecodeError> {
        if code == 0b0001 {
            Err(DecodeError::NotATwoOp)
        } else if code == 0b0100 {
            Ok(TwoOp::Mov)
        } else if code == 0b0101 {
            Ok(TwoOp::Add)
        } else if code == 0b0110 {
            Ok(TwoOp::Addc)
        } else if code == 0b0111 {
            Ok(TwoOp::Subc)
        } else if code == 0b1000 {
            Ok(TwoOp::Sub)
        } else if code == 0b1001 {
            Ok(TwoOp::Cmp)
        } else if code == 0b1010 {
            Ok(TwoOp::Dadd)
        } else if code == 0b1011 {
            Ok(TwoOp::Bit)
        } else if code == 0b1100 {
            Ok(TwoOp::Bic)
        } else if code == 0b1101 {
            Ok(TwoOp::Bis)
        } else if code == 0b1110 {
            Ok(TwoOp::Xor)
        } else if code == 0b1111 {
            Ok(TwoOp::And)
        } else {
            Err(DecodeError::UndefinedOperation)
        }
    }

    /// The operation of a double-operand word: its top four bits are the
    /// code of the operation.
    pub open spec fn of_word(word: u16) -> Result<TwoOp, DecodeError> {
        TwoOp::of_code(word >> 12)
    }

    /// The double-operand word of the operation with all other fields zero.
    pub open spec fn word_bits(self) -> u16 {
        self.code() << 12
    }

    /// The mnemonic of the operation.
    pub open spec fn mnemonic(self) -> Seq<char> {
        match self {
            TwoOp::Mov => "mov"@,
            TwoOp::Add => "add"@,
            TwoOp::Addc => "addc"@,
            TwoOp::Subc => "subc"@,
            TwoOp::Sub => "sub"@,
            TwoOp::Cmp => "cmp"@,
            TwoOp::Dadd => "dadd"@,
            TwoOp::Bit => "bit"@,
            TwoOp::Bic => "bic"@,
            TwoOp::Bis => "bis"@,
            TwoOp::Xor => "xor"@,
            TwoOp::And => "and"@,
        }
    }
}

impl TryFrom<u16> for TwoOp {
    type Error = DecodeError;

    /// Decodes the operation of a double-operand word.
    fn try_from(value: u16) -> (decoded: Result<Self, DecodeError>)
        ensures
            decoded == TwoOp::of_word(value),
    {
        let op_data: u16 = value >> 12;
        if op_data == 0b0001 {
            return Err(DecodeError::NotATwoOp);
        }
        match op_data {
            0b0100 => Ok(Self::Mov),
            0b0101 => Ok(Self::Add),
            0b0110 => Ok(Self::Addc),
            0b0111 => Ok(Self::Subc),
            0b1000 => Ok(Self::Sub),
            0b1001 => Ok(Self::Cmp),
            0b1010 => Ok(Self::Dadd),
            0b1011 => Ok(Self::Bit),
            0b1100 => Ok(Self::Bic),
            0b1101 => Ok(Self::Bis),
            0b1110 => Ok(Self::Xor),
            0b1111 => Ok(Self::And),
            _ => Err(DecodeError::UndefinedOperation),
        }
    }
}

impl TryFromSpecImpl<u16> for TwoOp {
    open spec fn obeys_try_from_spec() -> bool {
        true
    }

    open spec fn try_from_spec(v: u16) -> Result<Self, DecodeError> {
        TwoOp::of_word(v)
    }
}

impl From<TwoOp> for u16 {
    /// The double-operand word of an operation, all other fields zero.
    fn from(val: TwoOp) -> (word: u16)
        ensures
            word == val.word_bits(),
    {
        let op_bits: u16 = match val {
            TwoOp::Mov => 0b0100u16,
            TwoOp::Add => 0b0101u16,
            TwoOp::Addc => 0b0110u16,
            TwoOp::Subc => 0b0111u16,
            TwoOp::Sub => 0b1000u16,
            TwoOp::Cmp => 0b1001u16,
            TwoOp::Dadd => 0b1010u16,
            TwoOp::Bit => 0b1011u16,
            TwoOp::Bic => 0b1100u16,
            TwoOp::Bis => 0b1101u16,
            TwoOp::Xor => 0b1110u16,
            TwoOp::And => 0b1111u16,
        };
        op_bits << 12
    }
}

impl FromSpecImpl<TwoOp> for u16 {
    open spec fn obeys_from_spec() -> bool {
        true
    }

    open spec fn from_spec(v: TwoOp) -> u16 {
        v.word_bits()
    }
}

impl From<TwoOp> for String {
    /// The mnemonic of an operation.
    fn from(val: TwoOp) -> (mnemonic: String)
        ensures
            mnemonic@ == val.mnemonic(),
    {
        match val {
            TwoOp::Mov => "mov",
            TwoOp::Add => "add",
            TwoOp::Addc => "addc",
            TwoOp::Subc => "subc",
            TwoOp::Sub => "sub",
            TwoOp::Cmp => "cmp",
            TwoOp::Dadd => "dadd",
            TwoOp::Bit => "bit",
            TwoOp::Bic => "bic",
            TwoOp::Bis => "bis",
            TwoOp::Xor => "xor",
            TwoOp::And => "and",
        }.to_owned()
    }
}

impl FromSpecImpl<TwoOp> for String {
    open spec fn obeys_from_spec() -> bool {
        false
    }

    open spec fn from_spec(v: TwoOp) -> String {
        arbitrary()
    }
}

/// The word of an operation decodes to that operation.
pub proof fn lemma_two_op_round_trip(op: TwoOp)
    ensures
        TwoOp::of_word(op.word_bits()) == Ok::<TwoOp, DecodeError>(op),
{
    let code = op.code();
    assert(code < 16 ==> (code << 12) >> 12 == code) by (bit_vector);
}

/// The shorter names that some double-operand encodings go by.
#[derive(Debug, Clone, Copy, PartialEq, Eq, Structural)]
pub enum EmulatedOp {
    Ret,
    Clrc,
    Setc,
    Clrz,
    Setz,
    Clrn,
    Setn,
    Dint,
    Eint,
    Nop,
    Br,
    Pop,
    Rla,
    Rlc,
    Inv,
    Clr,
    Tst,
    Dec,
    Decd,
    Inc,
    Incd,
    Adc,
    Dadc,
    Sbc,
}

impl EmulatedOp {
    /// The mnemonic of the name.
    pub open spec fn mnemonic(self) -> Seq<char> {
        match self {
            EmulatedOp::Ret => "ret"@,
            EmulatedOp::Clrc => "clrc"@,
            EmulatedOp::Setc => "setc"@,
            EmulatedOp::Clrz => "clrz"@,
            EmulatedOp::Setz => "setz"@,
            EmulatedOp::Clrn => "clrn"@,
            EmulatedOp::Setn => "setn"@,
            EmulatedOp::Dint => "dint"@,
            EmulatedOp::Eint => "eint"@,
            EmulatedOp::Nop => "nop"@,
            EmulatedOp::Br => "br"@,
            EmulatedOp::Pop => "pop"@,
            EmulatedOp::Rla => "rla"@,
            EmulatedOp::Rlc => "rlc"@,
            EmulatedOp::Inv => "inv"@,
            EmulatedOp::Clr => "clr"@,
            EmulatedOp::Tst => "tst"@,
            EmulatedOp::Dec => "dec"@,
            EmulatedOp::Decd => "decd"@,
            EmulatedOp::Inc => "inc"@,
            EmulatedOp::Incd => "incd"@,
            EmulatedOp::Adc => "adc"@,
            EmulatedOp::Dadc => "dadc"@,
            EmulatedOp::Sbc => "sbc"@,
        }
    }
}

impl From<EmulatedOp> for String {
    /// The mnemonic of a shorter name.
    fn from(val: EmulatedOp) -> (mnemonic: String)
        ensures
            mnemonic@ == val.mnemonic(),
    {
        match val {
            EmulatedOp::Ret => "ret",
            EmulatedOp::Clrc => "clrc",
            EmulatedOp::Setc => "setc",
            EmulatedOp::Clrz => "clrz",
            EmulatedOp::Setz => "setz",
            EmulatedOp::Clrn => "clrn",
            EmulatedOp::Setn => "setn",
            EmulatedOp::Dint => "dint",
            EmulatedOp::Eint => "eint",
            EmulatedOp::Nop => "nop",
            EmulatedOp::Br => "br",
            EmulatedOp::Pop => "pop",
            EmulatedOp::Rla => "rla",
            EmulatedOp::Rlc => "rlc",
            EmulatedOp::Inv => "inv",
            EmulatedOp::Clr => "clr",
            EmulatedOp::Tst => "tst",
            EmulatedOp::Dec => "dec",
            EmulatedOp::Decd => "decd",
            EmulatedOp::Inc => "inc",
            EmulatedOp::Incd => "incd",
            EmulatedOp::Adc => "adc",
            EmulatedOp::Dadc => "dadc",
            EmulatedOp::Sbc => "sbc",
        }.to_owned()
    }
}

impl FromSpecImpl<EmulatedOp> for String {
    open spec fn obeys_from_spec() -> bool {
        false
    }

    open spec fn from_spec(v: EmulatedOp) -> String {
        arbitrary()
    }
}

/// A double-operand instruction under its shorter name.
#[derive(Debug, Clone, Copy, PartialEq, Eq, Structural)]
pub struct EmulatedInstruction {
    pub operation: EmulatedOp,
    /// The one operand that the name keeps, if it keeps one.
    pub data: Option<AddresingMode>,
    /// The operand's size, for the names that have one.
    pub mode: Option<DataMode>,
}

impl AsmInstruction for EmulatedInstruction {

}

impl EmulatedInstruction {
    /// A name that stands alone, without operand or size.
    pub open spec fn alone(operation: EmulatedOp) -> EmulatedInstruction {
        EmulatedInstruction { operation, data: None, mode: None }
    }

    /// Whether the value is the shorter name of some double-operand
    /// instruction.
    pub open spec fn well_formed(self) -> bool {
        exists|instruction: TwoOpInstruction| #[trigger] instruction.alias() == Some(self)
    }

    /// The instruction in assembly syntax: the mnemonic, the size suffix if
    /// there is a size, and the operand behind a space if there is one.
    pub open spec fn text(self) -> Seq<char> {
        self.operation.mnemonic() + (match self.mode {
            Some(mode) => mode.suffix(),
            None => Seq::empty(),
        }) + (match self.data {
            Some(data) => " "@ + data.text(),
            None => Seq::empty(),
        })
    }

    /// Writes the instruction in assembly syntax.
    pub fn to_string(&self) -> (text: String)
        ensures
            text@ == self.text(),
    {
        let mut text = String::from(self.operation);
        if let Some(mode) = self.mode {
            text.append(String::from(mode).as_str());
        }
        if let Some(data) = self.data {
            text.append(" ");
            text.append(data.to_string().as_str());
        }
        text
    }
}

/// The destination that a register selects when bit 7 of the word is set,
/// `offset` being the word that belongs to it.
pub open spec fn offset_destination(register: Register, offset: u16) -> AddresingMode {
    match register {
        Register::Pc => AddresingMode::Symbolic(offset),
        Register::Sr => AddresingMode::Absolute(offset),
        _ => AddresingMode::Indexed(offset, register),
    }
}

/// The name that clears or sets one bit of the status register: `source`
/// must be the constant with that bit alone, and the four names are those
/// for the bits 1, 2, 4 and 8.
pub open spec fn status_bit_alias(
    source: AddresingMode,
    carry: EmulatedOp,
    zero: EmulatedOp,
    negative: EmulatedOp,
    interrupts: EmulatedOp,
) -> Option<EmulatedInstruction> {
    if source == AddresingMode::Immediate(1) {
        Some(EmulatedInstruction::alone(carry))
    } else if source == AddresingMode::Immediate(2) {
        Some(EmulatedInstruction::alone(zero))
    } else if source == AddresingMode::Immediate(4) {
        Some(EmulatedInstruction::alone(negative))
    } else if source == AddresingMode::Immediate(8) {
        Some(EmulatedInstruction::alone(interrupts))
    } else {
        None
    }
}

/// A decoded double-operand instruction.
#[derive(Debug, Clone, Copy, PartialEq, Eq, Structural)]
pub struct TwoOpInstruction {
    pub operation: TwoOp,
    pub source: AddresingMode,
    pub destination: AddresingMode,
    pub mode: DataMode,
}

impl AsmInstruction for TwoOpInstruction {

}

impl TwoOpInstruction {
    /// The operands of the instruction that starts a window of words, and
    /// how many words they take. The source has its register in bits 11 to
    /// 8 of the first word and its mode in bits 5 and 4. The destination has
    /// its register in bits 3 to 0; with bit 7 clear it is that register,
    /// with bit 7 set it takes an offset from the first word that the source
    /// has left.
    pub open spec fn operands(words: Seq<u16>) -> Result<
        (AddresingMode, AddresingMode, u8),
        DecodeError,
    > {
        if words.len() == 0 {
            Err(DecodeError::TruncatedInstruction)
        } else {
            match resolved_operand(
                Register::of_low_bits(words[0] >> 8),
                (words[0] >> 4) & 0b11,
                words,
            ) {
                Err(error) => Err(error),
                Ok((source, word_used)) => {
                    let register = Register::of_low_bits(words[0]);
                    let slot: int = if word_used {
                        2
                    } else {
                        1
                    };
                    if words[0] & 0b10000000 == 0 {
                        Ok(
                            (
                                source,
                                AddresingMode::Direct(register),
                                if word_used {
                                    1u8
                                } else {
                                    0u8
                                },
                            ),
                        )
                    } else if words.len() <= slot {
                        Err(DecodeError::TruncatedInstruction)
                    } else {
                        Ok(
                            (
                                source,
                                offset_destination(register, words[slot]),
                                if word_used {
                                    2u8
                                } else {
                                    1u8
                                },
                            ),
                        )
                    }
                },
            }
        }
    }

    /// The instruction that starts a window of words, and how many words it
    /// holds behind the first. A word without an operation is reported
    /// before a missing word is.
    pub open spec fn decoded(words: Seq<u16>) -> Result<(TwoOpInstruction, u8), DecodeError> {
        if words.len() == 0 {
            Err(DecodeError::TruncatedInstruction)
        } else {
            match TwoOp::of_word(words[0]) {
                Err(error) => Err(error),
                Ok(operation) => match TwoOpInstruction::operands(words) {
                    Err(error) => Err(error),
                    Ok((source, destination, extra_words)) => Ok(
                        (
                            TwoOpInstruction {
                                operation,
                                source,
                                destination,
                                mode: DataMode::of_word(words[0]),
                            },
                            extra_words,
                        ),
                    ),
                },
            }
        }
    }

    /// The shorter name with the destination as its operand and the size of
    /// the instruction.
    pub open spec fn on_destination(self, operation: EmulatedOp) -> EmulatedInstruction {
        EmulatedInstruction { operation, data: Some(self.destination), mode: Some(self.mode) }
    }

    /// The shorter name of the instruction, if it has one. For each
    /// operation the first rule that fits decides.
    pub open spec fn alias(self) -> Option<EmulatedInstruction> {
        match self.operation {
            TwoOp::Mov => if self.source == self.destination {
                Some(EmulatedInstruction::alone(EmulatedOp::Nop))
            } else if self.source == AddresingMode::Indirect(Register::Sp) {
                if self.destination == AddresingMode::Direct(Register::Pc) {
                    Some(EmulatedInstruction::alone(EmulatedOp::Ret))
                } else {
                    Some(self.on_destination(EmulatedOp::Pop))
                }
            } else if self.source == AddresingMode::Absolute(0) {
                Some(self.on_destination(EmulatedOp::Clr))
            } else if self.destination == AddresingMode::Direct(Register::Pc) {
                Some(
                    EmulatedInstruction {
                        operation: EmulatedOp::Br,
                        data: Some(self.source),
                        mode: None,
                    },
                )
            } else {
                None
            },
            TwoOp::Bic => if self.destination == AddresingMode::Direct(Register::Sr) {
                status_bit_alias(
                    self.source,
                    EmulatedOp::Clrc,
                    EmulatedOp::Clrz,
                    EmulatedOp::Clrn,
                    EmulatedOp::Dint,
                )
            } else {
                None
            },
            TwoOp::Bis => if self.destination == AddresingMode::Direct(Register::Sr) {
                status_bit_alias(
                    self.source,
                    EmulatedOp::Setc,
                    EmulatedOp::Setz,
                    EmulatedOp::Setn,
                    EmulatedOp::Eint,
                )
            } else {
                None
            },
            TwoOp::Add => if self.source == self.destination {
                Some(self.on_destination(EmulatedOp::Rla))
            } else if self.source == AddresingMode::Absolute(1) {
                Some(self.on_destination(EmulatedOp::Inc))
            } else if self.source is Absolute {
                Some(self.on_destination(EmulatedOp::Incd))
            } else {
                None
            },
            TwoOp::Addc => if self.source == self.destination {
                Some(self.on_destination(EmulatedOp::Rlc))
            } else if self.source == AddresingMode::Absolute(0) {
                Some(self.on_destination(EmulatedOp::Adc))
            } else {
                None
            },
            TwoOp::Sub => if self.source == AddresingMode::Absolute(1) {
                Some(self.on_destination(EmulatedOp::Dec))
            } else if self.source is Absolute {
                Some(self.on_destination(EmulatedOp::Decd))
            } else {
                None
            },
            TwoOp::Subc => if self.source == AddresingMode::Absolute(0) {
                Some(self.on_destination(EmulatedOp::Sbc))
            } else {
                None
            },
            TwoOp::Dadd => if self.source == AddresingMode::Absolute(0) {
                Some(self.on_destination(EmulatedOp::Dadc))
            } else {
                None
            },
            TwoOp::Xor => if self.source == AddresingMode::Absolute(0xffff) {
                Some(self.on_destination(EmulatedOp::Inv))
            } else {
                None
            },
            TwoOp::Cmp => if self.source == AddresingMode::Absolute(0) {
                Some(self.on_destination(EmulatedOp::Tst))
            } else {
                None
            },
            TwoOp::Bit | TwoOp::And => None,
        }
    }

    /// The instruction in assembly syntax: the mnemonic with the size
    /// suffix, a space, the source, a comma and a space, the destination.
    pub open spec fn text(self) -> Seq<char> {
        self.operation.mnemonic() + self.mode.suffix() + " "@ + self.source.text() + ", "@
            + self.destination.text()
    }

    /// Decodes the double-operand instruction at the start of `raw_words`.
    pub fn new(raw_words: &[u16]) -> (decoded: Result<(Self, u8), DecodeError>)
        ensures
            decoded == TwoOpInstruction::decoded(raw_words@),
    {
        if raw_words.len() == 0 {
            return Err(DecodeError::TruncatedInstruction);
        }
        let operation = match TwoOp::try_from(raw_words[0]) {
            Ok(operation) => operation,
            Err(error) => return Err(error),
        };
        let (source, destination, extra_words) = match Self::parse_address(raw_words) {
            Ok(operands) => operands,
            Err(error) => return Err(error),
        };
        let mode = DataMode::from(raw_words[0]);

        Ok((Self { operation, source, destination, mode }, extra_words))
    }

    /// Resolves both operands of the instruction at the start of
    /// `raw_words`, the source first.
    pub fn parse_address(raw_words: &[u16]) -> (resolved: Result<
        (AddresingMode, AddresingMode, u8),
        DecodeError,
    >)
        ensures
            resolved == TwoOpInstruction::operands(raw_words@),
    {
        if raw_words.len() == 0 {
            return Err(DecodeError::TruncatedInstruction);
        }
        let src_addressing_bits = (raw_words[0] >> 4) & 0b11u16;
        let src_register = Register::from_low_bits(raw_words[0] >> 8);

        let (src_mode, first_extra_word_used) = match parse_address(
            src_register,
            src_addressing_bits,
            raw_words,
        ) {
            Ok(resolved) => resolved,
            Err(error) => return Err(error),
        };

        let mut extra_words_used: u8 = if first_extra_word_used {
            1u8
        } else {
            0u8
        };

        let dst_addressing_bit = raw_words[0] & 0b10000000u16;
        let dst_register = Register::from_low_bits(raw_words[0]);

        let dst_mode = if dst_addressing_bit == 0 {
            AddresingMode::Direct(dst_register)
        } else {
            let slot: usize = 1 + usize::from(extra_words_used);
            if raw_words.len() <= slot {
                return Err(DecodeError::TruncatedInstruction);
            }
            let offset = raw_words[slot];
            extra_words_used += 1;
            match dst_register {
                Register::Pc => AddresingMode::Symbolic(offset),
                Register::Sr => AddresingMode::Absolute(offset),
                _ => AddresingMode::Indexed(offset, dst_register),
            }
        };

        Ok((src_mode, dst_mode, extra_words_used))
    }

    /// Recognises the shorter name of the instruction.
    pub fn emulated_form(&self) -> (emulated: Option<EmulatedInstruction>)
        ensures
            emulated == self.alias(),
            emulated matches Some(name) ==> name.well_formed(),
    {
        match self.operation {
            TwoOp::Mov => {
                if self.source == self.destination {
                    return Some(
                        EmulatedInstruction { operation: EmulatedOp::Nop, data: None, mode: None },
                    );
                }
                if self.source == AddresingMode::Indirect(Register::Sp) {
                    if self.destination == AddresingMode::Direct(Register::Pc) {
                        return Some(
                            EmulatedInstruction {
                                operation: EmulatedOp::Ret,
                                data: None,
                                mode: None,
                            },
                        );
                    } else {
                        return Some(
                            EmulatedInstruction {
                                operation: EmulatedOp::Pop,
                                data: Some(self.destination),
                                mode: Some(self.mode),
                            },
                        );
                    }
                } else if self.source == AddresingMode::Absolute(0) {
                    return Some(
                        EmulatedInstruction {
                            operation: EmulatedOp::Clr,
                            data: Some(self.destination),
                            mode: Some(self.mode),
                        },
                    );
                } else if self.destination == AddresingMode::Direct(Register::Pc) {
                    return Some(
                        EmulatedInstruction {
                            operation: EmulatedOp::Br,
                            data: Some(self.source),
                            mode: None,
                        },
                    );
                }
            },
            TwoOp::Bic => {
                if self.destination == AddresingMode::Direct(Register::Sr) {
                    if let AddresingMode::Immediate(bit) = self.source {
                        if bit == 1 {
                            return Some(
                                EmulatedInstruction {
                                    operation: EmulatedOp::Clrc,
                                    data: None,
                                    mode: None,
                                },
                            );
                        } else if bit == 2 {
                            return Some(
                                EmulatedInstruction {
                                    operation: EmulatedOp::Clrz,
                                    data: None,
                                    mode: None,
                                },
                            );
                        } else if bit == 4 {
                            return Some(
                                EmulatedInstruction {
                                    operation: EmulatedOp::Clrn,
                                    data: None,
                                    mode: None,
                                },
                            );
                        } else if bit == 8 {
                            return Some(
                                EmulatedInstruction {
                                    operation: EmulatedOp::Dint,
                                    data: None,
                                    mode: None,
                                },
                            );
                        }
                    }
                }
            },
            TwoOp::Bis => {
                if self.destination == AddresingMode::Direct(Register::Sr) {
                    if let AddresingMode::Immediate(bit) = self.source {
                        if bit == 1 {
                            return Some(
                                EmulatedInstruction {
                                    operation: EmulatedOp::Setc,
                                    data: None,
                                    mode: None,
                                },
                            );
                        } else if bit == 2 {
                            return Some(
                                EmulatedInstruction {
                                    operation: EmulatedOp::Setz,
                                    data: None,
                                    mode: None,
                                },
                            );
                        } else if bit == 4 {
                            return Some(
                                EmulatedInstruction {
                                    operation: EmulatedOp::Setn,
                                    data: None,
                                    mode: None,
                                },
                            );
                        } else if bit == 8 {
                            return Some(
                                EmulatedInstruction {
                                    operation: EmulatedOp::Eint,
                                    data: None,
                                    mode: None,
                                },
                            );
                        }
                    }
                }
            },
            TwoOp::Add => {
                if self.source == self.destination {
                    return Some(
                        EmulatedInstruction {
                            operation: EmulatedOp::Rla,
                            data: Some(self.destination),
                            mode: Some(self.mode),
                        },
                    );
                }
                if let AddresingMode::Absolute(amount) = self.source {
                    if amount == 1 {
                        return Some(
                            EmulatedInstruction {
                                operation: EmulatedOp::Inc,
                                data: Some(self.destination),
                                mode: Some(self.mode),
                            },
                        );
                    } else {
                        return Some(
                            EmulatedInstruction {
                                operation: EmulatedOp::Incd,
                                data: Some(self.destination),
                                mode: Some(self.mode),
                            },
                        );
                    }
                }
            },
            TwoOp::Addc => {
                if self.source == self.destination {
                    return Some(
                        EmulatedInstruction {
                            operation: EmulatedOp::Rlc,
                            data: Some(self.destination),
                            mode: Some(self.mode),
                        },
                    );
                }
                if self.source == AddresingMode::Absolute(0) {
                    return Some(
                        EmulatedInstruction {
                            operation: EmulatedOp::Adc,
                            data: Some(self.destination),
                            mode: Some(self.mode),
                        },
                    );
                }
            },
            TwoOp::Sub => {
                if let AddresingMode::Absolute(amount) = self.source {
                    if amount == 1 {
                        return Some(
                            EmulatedInstruction {
                                operation: EmulatedOp::Dec,
                                data: Some(self.destination),
                                mode: Some(self.mode),
                            },
                        );
                    } else {
                        return Some(
                            EmulatedInstruction {
                                operation: EmulatedOp::Decd,
                                data: Some(self.destination),
                                mode: Some(self.mode),
                            },
                        );
                    }
                }
            },
            TwoOp::Subc => {
                if self.source == AddresingMode::Absolute(0) {
                    return Some(
                        EmulatedInstruction {
                            operation: EmulatedOp::Sbc,
                            data: Some(self.destination),
                            mode: Some(self.mode),
                        },
                    );
                }
            },
            TwoOp::Dadd => {
                if self.source == AddresingMode::Absolute(0) {
                    return Some(
                        EmulatedInstruction {
                            operation: EmulatedOp::Dadc,
                            data: Some(self.destination),
                            mode: Some(self.mode),
                        },
                    );
                }
            },
            TwoOp::Xor => {
                if self.source == AddresingMode::Absolute(0xffff) {
                    return Some(
                        EmulatedInstruction {
                            operation: EmulatedOp::Inv,
                            data: Some(self.destination),
                            mode: Some(self.mode),
                        },
                    );
                }
            },
            TwoOp::Cmp => {
                if self.source == AddresingMode::Absolute(0) {
                    return Some(
                        EmulatedInstruction {
                            operation: EmulatedOp::Tst,
                            data: Some(self.destination),
                            mode: Some(self.mode),
                        },
                    );
                }
            },
            _ => return None,
        }
        None
    }

    /// Writes the instruction in assembly syntax.
    pub fn to_string(&self) -> (text: String)
        ensures
            text@ == self.text(),
    {
        let mut text = String::from(self.operation);
        text.append(String::from(self.mode).as_str());
        text.append(" ");
        text.append(self.source.to_string().as_str());
        text.append(", ");
        text.append(self.destination.to_string().as_str());
        text
    }
}

} // verus!
