//! Numbers as text and text as numbers: hexadecimal and decimal digits, and
//! the signed reading of a 16-bit word.

use vstd::prelude::*;
use vstd::string::*;

verus! {

/// The sixteen digits, each at the index of its value.
pub open spec fn digit_chars() -> Seq<char> {
    "0123456789abcdef"@
}

/// `n` in hexadecimal: most significant digit first, lower case, no leading
/// zero (a single `0` for zero).
pub open spec fn hex_digits(n: nat) -> Seq<char>
    decreases n,
{
    if n < 16 {
        seq![digit_chars()[n as int]]
    } else {
        hex_digits(n / 16).push(digit_chars()[(n % 16) as int])
    }
}

/// `n` in decimal: most significant digit first, no leading zero (a single
/// `0` for zero).
pub open spec fn decimal_digits(n: nat) -> Seq<char>
    decreases n,
{
    if n < 10 {
        seq![digit_chars()[n as int]]
    } else {
        decimal_digits(n / 10).push(digit_chars()[(n % 10) as int])
    }
}

/// The number that a word stands for when it is read in two's complement.
pub open spec fn signed(word: u16) -> int {
    if word < 0x8000 {
        word as int
    } else {
        word - 0x1_0000
    }
}

/// The distance of [`signed`] from zero, between 0 and 32768.
pub open spec fn magnitude(word: u16) -> nat {
    if word < 0x8000 {
        word as nat
    } else {
        (0x1_0000 - word) as nat
    }
}

/// A minus sign for the words that [`signed`] reads as negative, nothing for
/// the others.
pub open spec fn sign_prefix(word: u16) -> Seq<char> {
    if word < 0x8000 {
        Seq::empty()
    } else {
        seq!['-']
    }
}

/// The text of one digit.
fn digit(value: u16) -> (text: &'static str)
    requires
        value < 16,
    ensures
        text@ == seq![digit_chars()[value as int]],
{
    let all: &'static str = "0123456789abcdef";
    proof {
        reveal_strlit("0123456789abcdef");
    }
    let at: usize = value as usize;
    all.substring_ascii(at, at + 1)
}

/// Appends the hexadecimal digits of `n` to `text`.
pub fn push_hex(text: &mut String, n: u16)
    ensures
        final(text)@ == old(text)@ + hex_digits(n as nat),
    decreases n,
{
    if n >= 16 {
        push_hex(text, n / 16);
    }
    text.append(digit(n % 16));
}

/// Appends the decimal digits of `n` to `text`.
pub fn push_decimal(text: &mut String, n: u16)
    ensures
        final(text)@ == old(text)@ + decimal_digits(n as nat),
    decreases n,
{
    if n >= 10 {
        push_decimal(text, n / 10);
    }
    text.append(digit(n % 10));
}

/// The magnitude of a word read in two's complement, and whether that
/// reading is negative.
pub fn split_sign(word: u16) -> (parts: (bool, u16))
    ensures
        parts.0 == (signed(word) < 0),
        parts.1 == magnitude(word),
{
    if word >= 0x8000 {
        (true, (0xffff - word) + 1)
    } else {
        (false, word)
    }
}

/// Why a text is not a 16-bit number.
#[derive(Debug, Clone, Copy, PartialEq, Eq, Structural)]
pub enum NumberError {
    /// The text holds nothing, or nothing behind its prefixes.
    Empty,
    /// The text holds a character that is no digit of the radix, or a sign
    /// and nothing else.
    InvalidDigit,
    /// The number is greater than 65535.
    PosOverflow,
}

impl NumberError {
    /// The sentence that describes the error.
    pub open spec fn text(self) -> Seq<char> {
        match self {
            NumberError::Empty => "cannot parse integer from empty string"@,
            NumberError::InvalidDigit => "invalid digit found in string"@,
            NumberError::PosOverflow => "number too large to fit in target type"@,
        }
    }

    /// Writes the sentence that describes the error.
    pub fn to_string(&self) -> (text: String)
        ensures
            text@ == self.text(),
    {
        match self {
            NumberError::Empty => "cannot parse integer from empty string",
            NumberError::InvalidDigit => "invalid digit found in string",
            NumberError::PosOverflow => "number too large to fit in target type",
        }.to_owned()
    }
}

/// The value of a character as a digit of a radix up to sixteen: `0` to `9`
/// count from zero, `a` to `f` and `A` to `F` from ten, and a character of
/// another kind or of a value that the radix does not reach is no digit.
pub open spec fn digit_value(c: char, radix: u32) -> Option<nat> {
    let value: int = if '0' <= c <= '9' {
        c as int - '0' as int
    } else if 'a' <= c <= 'f' {
        c as int - 'a' as int + 10
    } else if 'A' <= c <= 'F' {
        c as int - 'A' as int + 10
    } else {
        16
    };
    if value < radix {
        Some(value as nat)
    } else {
        None
    }
}

/// The number that a row of digits stands for, the most significant first.
/// The first character that is no digit makes it `InvalidDigit`, the first
/// digit that takes the number over 65535 `PosOverflow`, whichever comes
/// first. No digits stand for zero.
pub open spec fn digits_value(digits: Seq<char>, radix: u32) -> Result<nat, NumberError>
    decreases digits.len(),
{
    if digits.len() == 0 {
        Ok(0)
    } else {
        match digits_value(digits.drop_last(), radix) {
            Err(error) => Err(error),
            Ok(high) => match digit_value(digits.last(), radix) {
                None => Err(NumberError::InvalidDigit),
                Some(low) => if high * radix + low > 0xffff {
                    Err(NumberError::PosOverflow)
                } else {
                    Ok(high * (radix as nat) + low)
                },
            },
        }
    }
}

/// The 16-bit number that a text stands for in a radix: one or more digits,
/// with or without a `+` in front of them.
pub open spec fn number_value(text: Seq<char>, radix: u32) -> Result<u16, NumberError> {
    if text.len() == 0 {
        Err(NumberError::Empty)
    } else if text.len() == 1 && text[0] == '+' {
        Err(NumberError::InvalidDigit)
    } else {
        match digits_value(
            if text[0] == '+' {
                text.skip(1)
            } else {
                text
            },
            radix,
        ) {
            Ok(value) => Ok(value as u16),
            Err(error) => Err(error),
        }
    }
}

/// The number of characters that the marks `0X` take at the start of a
/// text, one mark behind the other.
pub open spec fn hex_marks(text: Seq<char>) -> nat
    decreases text.len(),
{
    if text.len() >= 2 && text[0] == '0' && text[1] == 'X' {
        2 + hex_marks(text.skip(2))
    } else {
        0
    }
}

/// What [`parse_hex`] makes of a text in upper case: the hexadecimal number
/// behind its `0X` marks.
pub open spec fn hex_value(upper: Seq<char>) -> Result<u16, NumberError> {
    number_value(upper.skip(hex_marks(upper) as int), 16)
}

/// The upper-case form that [`str::to_uppercase`] gives a text.
pub uninterp spec fn uppercase(text: Seq<char>) -> Seq<char>;

/// What [`from_dec_or_hex`] makes of a text: its decimal number if it is
/// one, else the hexadecimal number of its upper-case form.
pub open spec fn dec_or_hex_value(text: Seq<char>) -> Result<u16, NumberError> {
    match number_value(text, 10) {
        Ok(value) => Ok(value),
        Err(_) => hex_value(uppercase(text)),
    }
}

/// Once a row of digits has gone wrong, what follows changes nothing.
proof fn lemma_digits_error_stays(digits: Seq<char>, radix: u32, length: int)
    requires
        0 <= length <= digits.len(),
        digits_value(digits.take(length), radix) is Err,
    ensures
        digits_value(digits, radix) == digits_value(digits.take(length), radix),
    decreases digits.len() - length,
{
    if length == digits.len() {
        assert(digits.take(length) =~= digits);
    } else {
        assert(digits.drop_last().take(length) =~= digits.take(length));
        lemma_digits_error_stays(digits.drop_last(), radix, length);
    }
}

/// The value of a character as a digit.
fn digit_of(c: char, radix: u32) -> (value: Option<u32>)
    requires
        2 <= radix <= 16,
    ensures
        match value {
            Some(digit) => digit_value(c, radix) == Some(digit as nat),
            None => digit_value(c, radix) is None,
        },
{
    let value: u32 = if '0' <= c && c <= '9' {
        c as u32 - '0' as u32
    } else if 'a' <= c && c <= 'f' {
        c as u32 - 'a' as u32 + 10
    } else if 'A' <= c && c <= 'F' {
        c as u32 - 'A' as u32 + 10
    } else {
        16
    };
    if value < radix {
        Some(value)
    } else {
        None
    }
}

/// Reads the number that the text stands for from `start` on.
fn parse_number_from(text: &str, start: usize, radix: u32) -> (number: Result<u16, NumberError>)
    requires
        2 <= radix <= 16,
        start <= text@.len(),
    ensures
        number == number_value(text@.skip(start as int), radix),
{
    let length = text.unicode_len();
    if start == length {
        return Err(NumberError::Empty);
    }
    let ghost tail = text@.skip(start as int);
    let mut index = start;
    if text.get_char(start) == '+' {
        if length - start == 1 {
            return Err(NumberError::InvalidDigit);
        }
        index = start + 1;
    }
    let first = index;
    let ghost digits = text@.skip(first as int);
    assert(digits =~= if tail[0] == '+' {
        tail.skip(1)
    } else {
        tail
    });
    let mut value: u32 = 0;
    while index < length
        invariant
            2 <= radix <= 16,
            first <= index <= length,
            length == text@.len(),
            digits == text@.skip(first as int),
            number_value(text@.skip(start as int), radix) == match digits_value(digits, radix) {
                Ok(value) => Ok::<u16, NumberError>(value as u16),
                Err(error) => Err(error),
            },
            value <= 0xffff,
            digits_value(digits.take(index - first), radix) == Ok::<nat, NumberError>(value as nat),
        decreases length - index,
    {
        let c = text.get_char(index);
        let ghost longer = digits.take(index - first + 1);
        assert(longer.drop_last() =~= digits.take(index - first));
        let digit = match digit_of(c, radix) {
            Some(digit) => digit,
            None => {
                proof {
                    lemma_digits_error_stays(digits, radix, index - first + 1);
                }
                return Err(NumberError::InvalidDigit);
            },
        };
        assert(value * radix + digit <= 0xffff * 16 + 15) by (nonlinear_arith)
            requires
                value <= 0xffff,
                radix <= 16,
                digit <= 15,
        ;
        let next = value * radix + digit;
        if next > 0xffff {
            proof {
                lemma_digits_error_stays(digits, radix, index - first + 1);
            }
            return Err(NumberError::PosOverflow);
        }
        value = next;
        index += 1;
    }
    assert(digits.take(index - first) =~= digits);
    Ok(value as u16)
}

/// Reads a decimal number: digits, with or without a `+` in front of them.
pub fn parse_decimal(text: &str) -> (number: Result<u16, NumberError>)
    ensures
        number == number_value(text@, 10),
{
    assert(text@.skip(0) =~= text@);
    parse_number_from(text, 0, 10)
}

/// Reads a hexadecimal number from a text in upper case: the marks `0X` at
/// its start are passed over, as many as there are, and the digits behind
/// them are read, with or without a `+` in front of them.
pub fn parse_hex(upper: &str) -> (number: Result<u16, NumberError>)
    ensures
        number == hex_value(upper@),
{
    let length = upper.unicode_len();
    let mut start: usize = 0;
    assert(upper@.skip(0) =~= upper@);
    loop
        invariant
            start <= length,
            length == upper@.len(),
            hex_marks(upper@) == start + hex_marks(upper@.skip(start as int)),
        ensures
            hex_marks(upper@) == start,
        decreases length - start,
    {
        if length - start < 2 {
            break ;
        }
        if upper.get_char(start) != '0' {
            break ;
        }
        if upper.get_char(start + 1) != 'X' {
            break ;
        }
        assert(upper@.skip(start as int).skip(2) =~= upper@.skip(start + 2));
        start += 2;
    }
    parse_number_from(upper, start, 16)
}

/// Gives a text in upper case with [`str::to_uppercase`]. Trusted: what
/// comes back depends on the text alone, and is called [`uppercase`] here.
#[verifier::external_body]
fn to_uppercase(text: &str) -> (upper: String)
    ensures
        upper@ == uppercase(text@),
{
    text.to_uppercase()
}

/// Reads a number that is written in decimal or in hexadecimal. A text that
/// is a decimal number is read as one; any other is put in upper case and
/// read as a hexadecimal number, with or without `0x` in front of it.
pub fn from_dec_or_hex(s: &str) -> (number: Result<u16, NumberError>)
    ensures
        number == dec_or_hex_value(s@),
{
    if let Ok(decimal) = parse_decimal(s) {
        Ok(decimal)
    } else {
        parse_hex(to_uppercase(s).as_str())
    }
}

} // verus!
