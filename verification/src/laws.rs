//! What holds of the decision policy for every buffer.

use crate::classify::{report_verdict, sniffed_verdict, verdict, Verdict};
use crate::entropy::{Entropy, HIGH_BITS, VERY_HIGH_BITS};
use crate::signature::{
    bytes_at, compressed_signature, gzip_magic, rar_magic, seven_zip_magic, signature_name,
    zip_empty, zip_local,
};
use crate::text::{mostly_text_bytes, sample_of, text_byte_pred};
use vstd::prelude::*;

verus! {

/// Signatures come first: a buffer that matches the signature table is an
/// archive of the format that the table names, whatever the sniffer says
/// and whatever the entropy is.
pub proof fn lemma_signature_precedence(
    data: Seq<u8>,
    sniffed: Option<(Seq<char>, Seq<char>)>,
    entropy: Entropy,
)
    requires
        signature_name(data) is Some,
    ensures
        verdict(data, sniffed, entropy) == Verdict::Archive(signature_name(data)->0),
{
}

/// A buffer that begins with the bytes 50 4B 03 04 is a ZIP archive,
/// whatever its entropy.
pub proof fn lemma_zip_whatever_the_entropy(
    data: Seq<u8>,
    sniffed: Option<(Seq<char>, Seq<char>)>,
    entropy: Entropy,
)
    requires
        data.len() >= 4,
        data[0] == 0x50,
        data[1] == 0x4B,
        data[2] == 0x03,
        data[3] == 0x04,
    ensures
        verdict(data, sniffed, entropy) == Verdict::Archive("ZIP"@),
{
    assert(data.subrange(0, 4) =~= zip_local());
}

/// A buffer that begins with the bytes 1F 8B is a gzip archive, whatever
/// follows them and whatever its entropy.
pub proof fn lemma_gzip_whatever_the_entropy(
    data: Seq<u8>,
    sniffed: Option<(Seq<char>, Seq<char>)>,
    entropy: Entropy,
)
    requires
        data.len() >= 2,
        data[0] == 0x1F,
        data[1] == 0x8B,
    ensures
        verdict(data, sniffed, entropy) == Verdict::Archive("GZIP"@),
{
    assert(data.subrange(0, 2) =~= gzip_magic());
}

/// No verdict that the sniffer leads to is plain text.
pub proof fn lemma_sniffer_never_says_text(mime: Seq<char>, label: Seq<char>)
    ensures
        sniffed_verdict(mime, label) != Some(Verdict::PlainText),
{
}

/// A zero byte rules plain text out: a buffer with a zero byte among the
/// bytes that the text heuristic samples is never classified as plain text.
pub proof fn lemma_zero_byte_is_not_text(
    data: Seq<u8>,
    sniffed: Option<(Seq<char>, Seq<char>)>,
    entropy: Entropy,
)
    requires
        sample_of(data).contains(0u8),
    ensures
        verdict(data, sniffed, entropy) != Verdict::PlainText,
{
}

/// Where every element passes, the filter keeps all of them.
proof fn lemma_filter_all(s: Seq<u8>, pred: spec_fn(u8) -> bool)
    requires
        forall|i: int| 0 <= i < s.len() ==> pred(#[trigger] s[i]),
    ensures
        s.filter(pred).len() == s.len(),
    decreases s.len(),
{
    reveal(Seq::filter);
    if s.len() > 0 {
        lemma_filter_all(s.drop_last(), pred);
    }
}

/// Printable ASCII is text: a buffer of printable ASCII characters, line
/// feeds, carriage returns and tabs that nothing identifies as something
/// else, and whose entropy is not above 7.5, is classified as plain text.
pub proof fn lemma_printable_ascii_is_text(
    data: Seq<u8>,
    sniffed: Option<(Seq<char>, Seq<char>)>,
    entropy: Entropy,
)
    requires
        forall|i: int|
            0 <= i < data.len() ==> (0x20 <= #[trigger] data[i] <= 0x7E) || data[i] == 0x0A
                || data[i] == 0x0D || data[i] == 0x09,
        signature_name(data) is None,
        report_verdict(sniffed) is None,
        !entropy.above(Entropy::of(HIGH_BITS)),
    ensures
        verdict(data, sniffed, entropy) == Verdict::PlainText,
{
    if data.len() > 0 {
        let sample = sample_of(data);
        lemma_filter_all(sample, text_byte_pred());
    }
}

/// The entropy boundary: data with an entropy above 7.5 that no signature
/// and no sniffer identifies is random up to 7.9 and encrypted above it.
pub proof fn lemma_entropy_boundary(
    data: Seq<u8>,
    sniffed: Option<(Seq<char>, Seq<char>)>,
    entropy: Entropy,
)
    requires
        data.len() > 0,
        signature_name(data) is None,
        report_verdict(sniffed) is None,
        !compressed_signature(data),
        entropy.above(Entropy::of(HIGH_BITS)),
    ensures
        entropy.above(Entropy::of(VERY_HIGH_BITS)) ==> verdict(data, sniffed, entropy)
            == Verdict::Encrypted,
        !entropy.above(Entropy::of(VERY_HIGH_BITS)) ==> verdict(data, sniffed, entropy)
            == Verdict::Random,
{
}

} // verus!
