//! Quoting of fields in a line of comma-separated values.

use crate::strings::to_chars;
use vstd::prelude::*;
use vstd::string::StringExecFns;

verus! {

/// The characters that force a field into quotes.
pub open spec fn special(c: char) -> bool {
    c == ',' || c == '"' || c == '\n' || c == '\r'
}

/// True when a field has to be quoted.
pub open spec fn needs_quotes(field: Seq<char>) -> bool {
    exists|i: int| 0 <= i < field.len() && special(#[trigger] field[i])
}

/// The field with each quotation mark written twice.
pub open spec fn doubled(field: Seq<char>) -> Seq<char>
    decreases field.len(),
{
    if field.len() == 0 {
        field
    } else if field.last() == '"' {
        doubled(field.drop_last()) + "\"\""@
    } else {
        doubled(field.drop_last()).push(field.last())
    }
}

/// A field as it is written: as it stands, or in quotes with its own
/// quotation marks doubled.
pub open spec fn escaped(field: Seq<char>) -> Seq<char> {
    if needs_quotes(field) {
        "\""@ + doubled(field) + "\""@
    } else {
        field
    }
}

/// Doubling goes piece by piece.
proof fn lemma_doubled_concat(a: Seq<char>, b: Seq<char>)
    ensures
        doubled(a + b) == doubled(a) + doubled(b),
    decreases b.len(),
{
    if b.len() > 0 {
        lemma_doubled_concat(a, b.drop_last());
        assert((a + b).drop_last() =~= a + b.drop_last());
    }
}

/// A piece without quotation marks stays as it is.
proof fn lemma_doubled_plain(a: Seq<char>)
    requires
        forall|i: int| 0 <= i < a.len() ==> a[i] != '"',
    ensures
        doubled(a) == a,
    decreases a.len(),
{
    if a.len() > 0 {
        lemma_doubled_plain(a.drop_last());
    }
}

/// Quotes a field if it holds a comma, a quotation mark or a line break.
pub fn escape_csv(field: &str) -> (written: String)
    ensures
        written@ == escaped(field@),
{
    let chars = to_chars(field);
    let n = chars.len();
    let mut i: usize = 0;
    let mut found = false;
    while i < n
        invariant
            chars@ == field@,
            n == chars@.len(),
            i <= n,
            found == exists|j: int| 0 <= j < i && special(#[trigger] field@[j]),
        decreases n - i,
    {
        let c = chars[i];
        if c == ',' || c == '"' || c == '\n' || c == '\r' {
            found = true;
        }
        i += 1;
    }
    if !found {
        return field.to_owned();
    }
    let mut written = "\"".to_owned();
    let mut start: usize = 0;
    let mut i: usize = 0;
    while i < n
        invariant
            chars@ == field@,
            n == chars@.len(),
            start <= i <= n,
            written@ == "\""@ + doubled(field@.take(start as int)),
            forall|j: int| start <= j < i ==> field@[j] != '"',
        decreases n - i,
    {
        if chars[i] == '"' {
            let piece = field.substring_char(start, i);
            proof {
                lemma_doubled_plain(piece@);
                lemma_doubled_concat(field@.take(start as int), piece@);
                assert(field@.take(start as int) + piece@ =~= field@.take(i as int));
                assert(field@.take(i + 1).drop_last() =~= field@.take(i as int));
            }
            written.append(piece);
            written.append("\"\"");
            start = i + 1;
        }
        i += 1;
    }
    let piece = field.substring_char(start, n);
    proof {
        lemma_doubled_plain(piece@);
        lemma_doubled_concat(field@.take(start as int), piece@);
        assert(field@.take(start as int) + piece@ =~= field@);
    }
    written.append(piece);
    written.append("\"");
    written
}

} // verus!
