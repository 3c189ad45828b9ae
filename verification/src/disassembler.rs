//! The stream driver: bytes to words, words to instructions, instructions
//! to lines.

use itertools::Itertools;
use vstd::prelude::*;
use vstd::slice::slice_subrange;

use crate::utils::error::DecodeError;
use crate::utils::{lemma_decoded_from_own_words, lemma_decoded_length, Instruction};

verus! {

/// The bytes of a buffer two by two, in order; a last byte without a partner
/// is left out.
pub open spec fn paired(bytes: Seq<u8>) -> Seq<(u8, u8)> {
    Seq::new(bytes.len() / 2, |i: int| (bytes[2 * i], bytes[2 * i + 1]))
}

/// The word that two bytes make, the low byte first.
pub open spec fn word_of(low: u8, high: u8) -> u16 {
    (high * 256 + low) as u16
}

/// The little-endian words of a buffer; a last byte without a partner is
/// left out.
pub open spec fn words_of(bytes: Seq<u8>) -> Seq<u16> {
    Seq::new(bytes.len() / 2, |i: int| word_of(bytes[2 * i], bytes[2 * i + 1]))
}

/// The window that the instruction at `position` is decoded from: the three
/// words from there on, or as many as are left.
pub open spec fn window(words: Seq<u16>, position: int) -> Seq<u16> {
    words.subrange(
        position,
        if position + 3 <= words.len() {
            position + 3
        } else {
            words.len() as int
        },
    )
}

/// What [`disassemble_op`] returns: the number of words that the
/// instruction at the start of the window holds, and its text.
pub open spec fn disassembled_op(words: Seq<u16>) -> Result<(usize, Seq<char>), DecodeError> {
    match Instruction::decoded(words) {
        Ok((instruction, step)) => Ok((step, instruction.text())),
        Err(error) => Err(error),
    }
}

/// The lines of the instructions that lie one behind the other from
/// `position` on, up to the end of the words or to the first instruction
/// that does not decode.
pub open spec fn lines_from(words: Seq<u16>, position: int) -> Seq<Seq<char>>
    decreases words.len() - position,
{
    if position < 0 || position >= words.len() {
        Seq::empty()
    } else {
        match disassembled_op(window(words, position)) {
            Ok((step, text)) => seq![text] + lines_from(words, position + step),
            Err(_) => Seq::empty(),
        }
    }
}

/// The place and the error of the first instruction that does not decode,
/// among those that lie one behind the other from `position` on.
pub open spec fn failure_from(words: Seq<u16>, position: int) -> Option<(int, DecodeError)>
    decreases words.len() - position,
{
    if position < 0 || position >= words.len() {
        None
    } else {
        match disassembled_op(window(words, position)) {
            Ok((step, _)) => failure_from(words, position + step),
            Err(error) => Some((position, error)),
        }
    }
}

/// Why a stream was not decoded to its end.
#[derive(Debug)]
pub struct DecodeFailure {
    /// The index of the first word of the instruction that did not decode.
    pub offset: usize,
    pub error: DecodeError,
    /// The lines of the instructions before it.
    pub decoded: Vec<String>,
}

/// Pairs the bytes with [`Itertools::tuples`] and gathers the pairs with
/// [`Itertools::collect_vec`]. Trusted: `tuples` hands out the items of an
/// iterator in groups of two, in order, and drops a last item that has no
/// partner; `collect_vec` keeps the groups in that order.
#[verifier::external_body]
fn byte_pairs(raw_data: &[u8]) -> (pairs: Vec<(u8, u8)>)
    ensures
        pairs@ == paired(raw_data@),
{
    raw_data.iter().copied().tuples().collect_vec()
}

/// Reads a buffer as little-endian words. A last byte without a partner is
/// ignored.
pub fn words_from_bytes(raw_data: &[u8]) -> (word_data: Vec<u16>)
    ensures
        word_data@ == words_of(raw_data@),
{
    let pairs = byte_pairs(raw_data);
    let mut word_data: Vec<u16> = Vec::new();
    let mut index: usize = 0;
    while index < pairs.len()
        invariant
            index <= pairs.len(),
            pairs@ == paired(raw_data@),
            word_data@.len() == index,
            forall|i: int| 0 <= i < index ==> word_data@[i] == words_of(raw_data@)[i],
        decreases pairs.len() - index,
    {
        let (low, high) = pairs[index];
        word_data.push(u16::from(high) * 256 + u16::from(low));
        index += 1;
    }
    word_data
}

/// Decodes the instruction at the start of `raw_words` and writes it as a
/// line. Returns the number of words that the instruction holds, and the
/// line.
pub fn disassemble_op(raw_words: &[u16]) -> (decoded: Result<(usize, String), DecodeError>)
    ensures
        match decoded {
            Ok((step, text)) => disassembled_op(raw_words@) == Ok::<
                (usize, Seq<char>),
                DecodeError,
            >((step, text@)),
            Err(error) => disassembled_op(raw_words@) == Err::<(usize, Seq<char>), DecodeError>(
                error,
            ),
        },
{
    match Instruction::decode(raw_words) {
        Ok((instruction, step)) => Ok((step, instruction.to_string())),
        Err(error) => Err(error),
    }
}

/// Decodes a stream of words, one instruction behind the other, and stops
/// at the first that does not decode.
pub fn disassemble_words(word_data: &[u16]) -> (lines: Result<Vec<String>, DecodeFailure>)
    ensures
        match lines {
            Ok(decoded) => {
                &&& failure_from(word_data@, 0) is None
                &&& decoded.deep_view() == lines_from(word_data@, 0)
            },
            Err(failure) => {
                &&& failure_from(word_data@, 0) == Some((failure.offset as int, failure.error))
                &&& failure.decoded.deep_view() == lines_from(word_data@, 0)
            },
        },
{
    let mut first_pass_decoded: Vec<String> = Vec::new();
    let mut curr_word: usize = 0;
    while curr_word < word_data.len()
        invariant
            curr_word <= word_data.len(),
            failure_from(word_data@, 0) == failure_from(word_data@, curr_word as int),
            lines_from(word_data@, 0) == first_pass_decoded.deep_view() + lines_from(
                word_data@,
                curr_word as int,
            ),
        decreases word_data.len() - curr_word,
    {
        let end: usize = if word_data.len() - curr_word >= 3 {
            curr_word + 3
        } else {
            word_data.len()
        };
        let (step, decoded_op) = match disassemble_op(slice_subrange(word_data, curr_word, end)) {
            Ok(decoded) => decoded,
            Err(error) => {
                return Err(DecodeFailure { offset: curr_word, error, decoded: first_pass_decoded });
            },
        };
        proof {
            lemma_step_stays_in_window(window(word_data@, curr_word as int));
        }
        first_pass_decoded.push(decoded_op);
        assert(lines_from(word_data@, 0) =~= first_pass_decoded.deep_view() + lines_from(
            word_data@,
            curr_word + step,
        ));

        curr_word += step;
    }
    Ok(first_pass_decoded)
}

/// Decodes a buffer of little-endian words and writes each instruction as a
/// line. A last byte without a partner is ignored.
pub fn disassemble(raw_data: &[u8]) -> (lines: Result<Vec<String>, DecodeFailure>)
    ensures
        match lines {
            Ok(decoded) => {
                &&& failure_from(words_of(raw_data@), 0) is None
                &&& decoded.deep_view() == lines_from(words_of(raw_data@), 0)
            },
            Err(failure) => {
                &&& failure_from(words_of(raw_data@), 0) == Some(
                    (failure.offset as int, failure.error),
                )
                &&& failure.decoded.deep_view() == lines_from(words_of(raw_data@), 0)
            },
        },
{
    let word_data = words_from_bytes(raw_data);
    disassemble_words(word_data.as_slice())
}

/// An instruction that decodes holds at least one word and no more than its
/// window does, and never more than three.
pub proof fn lemma_step_stays_in_window(words: Seq<u16>)
    ensures
        Instruction::decoded(words) matches Ok((_, step)) ==> 1 <= step <= words.len() && step
            <= 3,
{
}

/// A window of three words is wide enough: the instruction at a place of
/// the stream decodes from its window as it does from all the words that
/// follow the place.
pub proof fn lemma_window_suffices(words: Seq<u16>, position: int)
    requires
        0 <= position < words.len(),
    ensures
        Instruction::decoded(window(words, position)) == Instruction::decoded(
            words.skip(position),
        ),
{
    let near = window(words, position);
    let rest = words.skip(position);
    lemma_decoded_length(near);
    lemma_decoded_length(rest);
    if Instruction::decoded(near) is Ok {
        let step = Instruction::decoded(near)->Ok_0.1;
        assert(rest.take(step as int) =~= near.take(step as int));
        lemma_decoded_from_own_words(near, rest);
    }
}

/// The first failure of a stream lies inside the stream and is the error of
/// the instruction at its place. It is `TruncatedInstruction` exactly when
/// that instruction starts with an opcode and would end behind the last word
/// of the stream.
pub proof fn lemma_failure_is_in_stream(words: Seq<u16>, position: int)
    requires
        0 <= position,
    ensures
        failure_from(words, position) matches Some((place, error)) ==> {
            &&& position <= place < words.len()
            &&& Instruction::decoded(window(words, place)) == Err::<
                (Instruction, usize),
                DecodeError,
            >(error)
            &&& error == DecodeError::TruncatedInstruction <==> Instruction::is_opcode(
                words[place],
            ) && place + Instruction::encoded_length(words[place]) > words.len()
        },
    decreases words.len() - position,
{
    if position < words.len() {
        let near = window(words, position);
        lemma_decoded_length(near);
        match disassembled_op(near) {
            Ok((step, _)) => {
                lemma_failure_is_in_stream(words, position + step);
            },
            Err(_) => {},
        }
    }
}

/// Every line stands for at least one word: a stream has no more lines than
/// words.
pub proof fn lemma_lines_are_bounded(words: Seq<u16>, position: int)
    requires
        0 <= position <= words.len(),
    ensures
        lines_from(words, position).len() <= words.len() - position,
    decreases words.len() - position,
{
    if position < words.len() {
        let near = window(words, position);
        lemma_step_stays_in_window(near);
        match disassembled_op(near) {
            Ok((step, _)) => {
                lemma_lines_are_bounded(words, position + step);
            },
            Err(_) => {},
        }
    }
}

} // verus!
