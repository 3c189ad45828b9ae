use vstd::prelude::*;

verus! {

/// Why a window of words could not be decoded into an instruction.
///
/// All variants but [`DecodeError::TruncatedInstruction`] report a malformed
/// encoding: a field that selects a reserved or undefined bit pattern.
#[derive(Debug, Clone, Copy, PartialEq, Eq, Structural)]
pub enum DecodeError {
    /// A register identifier does not fit in four bits.
    NotARegister,
    /// The top three bits of the word are not those of the jump format.
    NotAJump,
    /// The top six bits of the word are not those of the single-operand format.
    NotAOneOp,
    /// The top four bits of the word hold the pattern that is reserved to
    /// the single-operand format.
    NotATwoOp,
    /// The operation field selects no operation of the format.
    UndefinedOperation,
    /// An addressing mode field holds more than two bits.
    InvalidAddressingMode,
    /// The encoding needs a word that lies beyond the end of the window.
    TruncatedInstruction,
}

impl DecodeError {
    /// The sentence that describes the error.
    pub open spec fn text(self) -> Seq<char> {
        match self {
            DecodeError::NotARegister => "the provided value is not a register identifier"@,
            DecodeError::NotAJump => "the provided word is not a jump op code"@,
            DecodeError::NotAOneOp => "the provided word is not a one operand op code"@,
            DecodeError::NotATwoOp => "the provided word is not a two operand op code"@,
            DecodeError::UndefinedOperation => "inexisting operation"@,
            DecodeError::InvalidAddressingMode => "provided an invalid addressing mode value"@,
            DecodeError::TruncatedInstruction => "the instruction continues past the end of the input"@,
        }
    }

    /// Whether the error reports a reserved or undefined bit pattern, as
    /// opposed to an instruction that the input cuts short.
    pub open spec fn is_malformed(self) -> bool {
        self != DecodeError::TruncatedInstruction
    }

    /// Writes the sentence that describes the error.
    pub fn to_string(&self) -> (s: String)
        ensures
            s@ == self.text(),
    {
        match self {
            DecodeError::NotARegister => "the provided value is not a register identifier",
            DecodeError::NotAJump => "the provided word is not a jump op code",
            DecodeError::NotAOneOp => "the provided word is not a one operand op code",
            DecodeError::NotATwoOp => "the provided word is not a two operand op code",
            DecodeError::UndefinedOperation => "inexisting operation",
            DecodeError::InvalidAddressingMode => "provided an invalid addressing mode value",
            DecodeError::TruncatedInstruction => "the instruction continues past the end of the input",
        }.to_owned()
    }
}

} // verus!
