//! The text heuristic: does a sample of bytes look like plain text?
//!
//! A sample with a zero byte is binary. Otherwise it is text when it is
//! valid UTF-8 and more than nine tenths of its characters are printable,
//! or when more than nineteen twentieths of its bytes are printable ASCII,
//! line breaks, tabs or bytes of the upper 8-bit range.

use vstd::prelude::*;
use vstd::string::StringSliceAdditionalSpecFns;
use vstd::utf8::{decode_utf8, valid_utf8};

verus! {

/// The heuristic looks at no more than this many leading bytes.
pub const SAMPLE_LIMIT: usize = 8192;

/// The characters with the Unicode property White_Space: the tab, the
/// line breaks, the spaces of every width, and the separators of lines and
/// of paragraphs.
pub open spec fn char_is_whitespace(c: char) -> bool {
    let code = c as u32;
    ||| 0x0009 <= code <= 0x000D
    ||| code == 0x0020
    ||| code == 0x0085
    ||| code == 0x00A0
    ||| code == 0x1680
    ||| 0x2000 <= code <= 0x200A
    ||| code == 0x2028
    ||| code == 0x2029
    ||| code == 0x202F
    ||| code == 0x205F
    ||| code == 0x3000
}

/// The characters of the Unicode general category Cc: the control codes
/// below the space, the delete character, and the control codes that
/// follow it up to U+009F.
pub open spec fn char_is_control(c: char) -> bool {
    let code = c as u32;
    code <= 0x001F || 0x007F <= code <= 0x009F
}

/// A character counts as printable when it is white space or no control
/// character.
pub open spec fn printable(c: char) -> bool {
    char_is_whitespace(c) || !char_is_control(c)
}

/// A byte counts as text when it is printable ASCII, lies in the upper
/// 8-bit range from 0xA0 on, or is a line feed, a carriage return or a tab.
pub open spec fn text_byte(b: u8) -> bool {
    (0x20 <= b && b <= 0x7E) || b >= 0xA0 || b == 0x0A || b == 0x0D || b == 0x09
}

/// `printable`, as the test of a filter.
pub open spec fn printable_pred() -> spec_fn(char) -> bool {
    |c: char| printable(c)
}

/// `text_byte`, as the test of a filter.
pub open spec fn text_byte_pred() -> spec_fn(u8) -> bool {
    |b: u8| text_byte(b)
}

/// The leading bytes that the heuristic looks at.
pub open spec fn sample_of(data: Seq<u8>) -> Seq<u8> {
    if data.len() <= SAMPLE_LIMIT {
        data
    } else {
        data.take(SAMPLE_LIMIT as int)
    }
}

/// More than 90% of the characters are printable.
pub open spec fn mostly_printable(chars: Seq<char>) -> bool {
    10 * chars.filter(printable_pred()).len() > 9 * chars.len()
}

/// More than 95% of the bytes are text bytes.
pub open spec fn mostly_text_bytes(sample: Seq<u8>) -> bool {
    20 * sample.filter(text_byte_pred()).len() > 19 * sample.len()
}

/// The verdict of the heuristic on a sample.
pub open spec fn looks_like_text(sample: Seq<u8>) -> bool {
    &&& !sample.contains(0u8)
    &&& (valid_utf8(sample) && mostly_printable(decode_utf8(sample))) || mostly_text_bytes(
        sample,
    )
}

/// Calls `char::is_whitespace`, which tells whether a character has the
/// Unicode property White_Space. Taken on trust: those are the characters
/// that `char_is_whitespace` lists.
#[verifier::external_body]
fn is_whitespace(c: char) -> (r: bool)
    ensures
        r == char_is_whitespace(c),
{
    c.is_whitespace()
}

/// Calls `char::is_control`, which tells whether a character has the
/// Unicode general category Cc. Taken on trust: those are the characters
/// that `char_is_control` lists.
#[verifier::external_body]
fn is_control(c: char) -> (r: bool)
    ensures
        r == char_is_control(c),
{
    c.is_control()
}

/// Calls `std::str::from_utf8`. Taken on trust: it returns a string slice
/// if and only if the bytes are well-formed UTF-8, and the slice then holds
/// exactly those bytes.
#[verifier::external_body]
fn decode_strict<'a>(bytes: &'a [u8]) -> (text: Option<&'a str>)
    ensures
        text is Some <==> valid_utf8(bytes@),
        text matches Some(s) ==> s.spec_bytes() == bytes@,
{
    match std::str::from_utf8(bytes) {
        Ok(s) => Some(s),
        Err(_) => None,
    }
}

/// Filtering one element more: the last element joins if it passes.
proof fn lemma_filter_step<A>(s: Seq<A>, pred: spec_fn(A) -> bool, i: int)
    requires
        0 <= i < s.len(),
    ensures
        s.take(i + 1).filter(pred).len() == s.take(i).filter(pred).len() + if pred(s[i]) {
            1int
        } else {
            0int
        },
{
    reveal(Seq::filter);
    assert(s.take(i + 1).drop_last() =~= s.take(i));
}

/// Tests whether a character counts as printable.
pub fn is_printable(c: char) -> (yes: bool)
    ensures
        yes == printable(c),
{
    is_whitespace(c) || !is_control(c)
}

/// Counts the printable characters of `text`.
fn count_printable(text: &str) -> (count: usize)
    ensures
        count == text@.filter(printable_pred()).len(),
        count <= text@.len() <= usize::MAX,
{
    let n = text.unicode_len();
    let mut count: usize = 0;
    for c in it: text.chars()
        invariant
            it.seq() == text@,
            text@.len() == n,
            count <= it.index(),
            count == text@.take(it.index()).filter(printable_pred()).len(),
    {
        proof {
            lemma_filter_step(text@, printable_pred(), it.index());
        }
        if is_printable(c) {
            count += 1;
        }
    }
    assert(text@.take(text@.len() as int) =~= text@);
    count
}

/// Counts the text bytes of `sample`.
fn count_text_bytes(sample: &[u8]) -> (count: usize)
    ensures
        count == sample@.filter(text_byte_pred()).len(),
        count <= sample@.len(),
{
    let mut count: usize = 0;
    let mut i: usize = 0;
    while i < sample.len()
        invariant
            i <= sample@.len(),
            count <= i,
            count == sample@.take(i as int).filter(text_byte_pred()).len(),
        decreases sample@.len() - i,
    {
        proof {
            lemma_filter_step(sample@, text_byte_pred(), i as int);
        }
        let b = sample[i];
        if (b >= 0x20 && b <= 0x7E) || b >= 0xA0 || b == 0x0A || b == 0x0D || b == 0x09 {
            count += 1;
        }
        i += 1;
    }
    assert(sample@.take(sample@.len() as int) =~= sample@);
    count
}

/// Looks for a zero byte.
fn has_zero_byte(sample: &[u8]) -> (found: bool)
    ensures
        found == sample@.contains(0u8),
{
    let mut i: usize = 0;
    while i < sample.len()
        invariant
            i <= sample@.len(),
            forall|j: int| 0 <= j < i ==> sample@[j] != 0,
        decreases sample@.len() - i,
    {
        if sample[i] == 0 {
            return true;
        }
        i += 1;
    }
    false
}

/// Applies the heuristic to the first `SAMPLE_LIMIT` bytes of `data`.
pub fn is_text_data(data: &[u8]) -> (text: bool)
    ensures
        text == looks_like_text(sample_of(data@)),
{
    let sample_size = if data.len() < SAMPLE_LIMIT {
        data.len()
    } else {
        SAMPLE_LIMIT
    };
    let sample = vstd::slice::slice_subrange(data, 0, sample_size);
    assert(sample@ =~= sample_of(data@));
    if has_zero_byte(sample) {
        return false;
    }
    match decode_strict(sample) {
        Some(decoded) => {
            proof {
                vstd::utf8::encode_utf8_decode_utf8(decoded@);
            }
            let printable_count = count_printable(decoded);
            let char_count = decoded.unicode_len();
            if 10 * (printable_count as u128) > 9 * (char_count as u128) {
                return true;
            }
        },
        None => {},
    }
    let valid = count_text_bytes(sample);
    20 * (valid as u128) > 19 * (sample_size as u128)
}

} // verus!
