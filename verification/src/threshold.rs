//! The entropy range of the filter, written as `min-max`.

use crate::entropy::Entropy;
use crate::error::ErrorKind;
use crate::strings::to_chars;
use vstd::prelude::*;

verus! {

/// True when the first hyphen of `text` stands at position `i`.
pub open spec fn is_first_dash(text: Seq<char>, i: int) -> bool {
    &&& 0 <= i < text.len()
    &&& text[i] == '-'
    &&& forall|j: int| 0 <= j < i ==> text[j] != '-'
}

/// Splits a range at its first hyphen into the text of the lower and of the
/// upper bound. A text without a hyphen is no range.
pub fn split_threshold<'a>(text: &'a str) -> (parts: Result<(&'a str, &'a str), ErrorKind>)
    ensures
        parts is Err <==> !text@.contains('-'),
        parts matches Err(kind) ==> kind == ErrorKind::InvalidThresholdFormat,
        parts matches Ok((min, max)) ==> exists|i: int|
            is_first_dash(text@, i) && min@ == text@.take(i) && max@ == text@.skip(i + 1),
{
    let chars = to_chars(text);
    let mut i: usize = 0;
    while i < chars.len()
        invariant
            chars@ == text@,
            i <= chars@.len(),
            forall|j: int| 0 <= j < i ==> text@[j] != '-',
        decreases chars@.len() - i,
    {
        if chars[i] == '-' {
            let min = text.substring_char(0, i);
            let max = text.substring_char(i + 1, chars.len());
            assert(is_first_dash(text@, i as int));
            return Ok((min, max));
        }
        i += 1;
    }
    Err(ErrorKind::InvalidThresholdFormat)
}

/// Puts the two bounds of a range together. A bound that could not be
/// read as a number makes the range invalid.
pub fn threshold_bounds(min: Option<Entropy>, max: Option<Entropy>) -> (bounds: Result<
    (Entropy, Entropy),
    ErrorKind,
>)
    ensures
        bounds is Ok <==> min is Some && max is Some,
        bounds matches Ok(pair) ==> min == Some(pair.0) && max == Some(pair.1),
        bounds matches Err(kind) ==> kind == ErrorKind::InvalidThresholdFormat,
{
    match (min, max) {
        (Some(low), Some(high)) => Ok((low, high)),
        _ => Err(ErrorKind::InvalidThresholdFormat),
    }
}

} // verus!
