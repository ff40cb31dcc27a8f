//! The decision policy: one verdict for a buffer, from its signature, what
//! a format sniffer says of it, its entropy and the text heuristic.

use crate::entropy::{Entropy, HIGH_BITS, VERY_HIGH_BITS};
use crate::signature::{
    check_magic_number, compressed_signature, is_compressed_format, signature_name,
};
use crate::sniffer::{sniff_format, sniffer_report};
use crate::strings::{contains, has_substring, same_chars, starts_with, to_chars};
use crate::text::{is_text_data, looks_like_text, sample_of};
use vstd::prelude::*;

verus! {

/// The classification of one file.
#[derive(Debug, Eq)]
pub enum FileType {
    Archive(String),
    Document(String),
    Image(String),
    Encrypted,
    Random,
    PlainText,
    Binary,
    Compressed,
}

/// A classification with its format label as a character sequence.
pub enum Verdict {
    Archive(Seq<char>),
    Document(Seq<char>),
    Image(Seq<char>),
    Encrypted,
    Random,
    PlainText,
    Binary,
    Compressed,
}

impl View for FileType {
    type V = Verdict;

    open spec fn view(&self) -> Verdict {
        match self {
            FileType::Archive(name) => Verdict::Archive(name@),
            FileType::Document(name) => Verdict::Document(name@),
            FileType::Image(name) => Verdict::Image(name@),
            FileType::Encrypted => Verdict::Encrypted,
            FileType::Random => Verdict::Random,
            FileType::PlainText => Verdict::PlainText,
            FileType::Binary => Verdict::Binary,
            FileType::Compressed => Verdict::Compressed,
        }
    }
}

impl Clone for FileType {
    /// A copy with the same variant and the same format label.
    fn clone(&self) -> (copy: FileType)
        ensures
            copy@ == self@,
    {
        match self {
            FileType::Archive(name) => FileType::Archive(name.clone()),
            FileType::Document(name) => FileType::Document(name.clone()),
            FileType::Image(name) => FileType::Image(name.clone()),
            FileType::Encrypted => FileType::Encrypted,
            FileType::Random => FileType::Random,
            FileType::PlainText => FileType::PlainText,
            FileType::Binary => FileType::Binary,
            FileType::Compressed => FileType::Compressed,
        }
    }
}

impl PartialEq for FileType {
    /// Two classifications are equal when they are the same variant with
    /// the same format label.
    fn eq(&self, other: &FileType) -> (same: bool) {
        match (self, other) {
            (FileType::Archive(x), FileType::Archive(y)) => *x == *y,
            (FileType::Document(x), FileType::Document(y)) => *x == *y,
            (FileType::Image(x), FileType::Image(y)) => *x == *y,
            (FileType::Encrypted, FileType::Encrypted) => true,
            (FileType::Random, FileType::Random) => true,
            (FileType::PlainText, FileType::PlainText) => true,
            (FileType::Binary, FileType::Binary) => true,
            (FileType::Compressed, FileType::Compressed) => true,
            _ => false,
        }
    }
}

impl vstd::std_specs::cmp::PartialEqSpecImpl for FileType {
    open spec fn obeys_eq_spec() -> bool {
        true
    }

    open spec fn eq_spec(&self, other: &FileType) -> bool {
        self@ == other@
    }
}

/// What a format sniffer says of a buffer: a MIME type, and a format label,
/// which is the file extension that goes with the type, in upper case.
pub struct Sniffed {
    pub mime: String,
    pub label: String,
}

/// The verdict that a sniffed MIME type leads to, where it leads to one.
/// The tests are made in this order, and the first that holds decides.
pub open spec fn sniffed_verdict(mime: Seq<char>, label: Seq<char>) -> Option<Verdict> {
    if "application/x-"@.is_prefix_of(mime) || "application/zip"@.is_prefix_of(mime) || mime
        == "application/gzip"@ || mime == "application/x-bzip2"@ || mime == "application/x-xz"@
        || mime == "application/x-tar"@ {
        Some(Verdict::Archive(label))
    } else if mime == "application/pdf"@ {
        Some(Verdict::Document("PDF"@))
    } else if "application/vnd.openxmlformats"@.is_prefix_of(mime) {
        Some(Verdict::Document(label))
    } else if "application/vnd.ms-"@.is_prefix_of(mime) || "application/msword"@.is_prefix_of(
        mime,
    ) {
        Some(Verdict::Document(label))
    } else if "image/"@.is_prefix_of(mime) {
        Some(Verdict::Image(label))
    } else if has_substring(mime, "compress"@) || has_substring(mime, "zip"@) {
        Some(Verdict::Compressed)
    } else {
        None
    }
}

/// The verdict that an optional sniffer report leads to.
pub open spec fn report_verdict(sniffed: Option<(Seq<char>, Seq<char>)>) -> Option<Verdict> {
    match sniffed {
        Some((mime, label)) => sniffed_verdict(mime, label),
        None => None,
    }
}

/// The verdict on high-entropy data that nothing has identified.
pub open spec fn high_entropy_verdict(data: Seq<u8>, entropy: Entropy) -> Verdict {
    if compressed_signature(data) {
        Verdict::Compressed
    } else if entropy.above(Entropy::of(VERY_HIGH_BITS)) {
        Verdict::Encrypted
    } else {
        Verdict::Random
    }
}

/// The decision policy. The rules are tried in this order and the first
/// that applies is final: no data is plain text; a signature names an
/// archive; the sniffed type may decide; an entropy above 7.5 means
/// compressed, encrypted or random data; the text heuristic tells plain
/// text from binary data.
pub open spec fn verdict(data: Seq<u8>, sniffed: Option<(Seq<char>, Seq<char>)>, entropy: Entropy)
    -> Verdict {
    if data.len() == 0 {
        Verdict::PlainText
    } else if signature_name(data) is Some {
        Verdict::Archive(signature_name(data)->0)
    } else {
        content_verdict(data, sniffed, entropy)
    }
}

/// The policy's later rules, for data that is not empty and has no
/// signature of the table.
pub open spec fn content_verdict(
    data: Seq<u8>,
    sniffed: Option<(Seq<char>, Seq<char>)>,
    entropy: Entropy,
) -> Verdict {
    if report_verdict(sniffed) is Some {
        report_verdict(sniffed)->0
    } else if entropy.above(Entropy::of(HIGH_BITS)) {
        high_entropy_verdict(data, entropy)
    } else if looks_like_text(sample_of(data)) {
        Verdict::PlainText
    } else {
        Verdict::Binary
    }
}

/// The view of an optional sniffer report.
pub open spec fn sniffed_view(sniffed: Option<Sniffed>) -> Option<(Seq<char>, Seq<char>)> {
    match sniffed {
        Some(s) => Some((s.mime@, s.label@)),
        None => None,
    }
}

/// Maps a sniffer report to the verdict it leads to, if any.
pub fn classify_sniffed(sniffed: Sniffed) -> (kind: Option<FileType>)
    ensures
        kind is Some <==> sniffed_verdict(sniffed.mime@, sniffed.label@) is Some,
        kind matches Some(k) ==> sniffed_verdict(sniffed.mime@, sniffed.label@) == Some(k@),
{
    let mime = to_chars(sniffed.mime.as_str());
    let mime = mime.as_slice();
    if starts_with(mime, to_chars("application/x-").as_slice()) || starts_with(
        mime,
        to_chars("application/zip").as_slice(),
    ) || same_chars(mime, to_chars("application/gzip").as_slice()) || same_chars(
        mime,
        to_chars("application/x-bzip2").as_slice(),
    ) || same_chars(mime, to_chars("application/x-xz").as_slice()) || same_chars(
        mime,
        to_chars("application/x-tar").as_slice(),
    ) {
        return Some(FileType::Archive(sniffed.label));
    }
    if same_chars(mime, to_chars("application/pdf").as_slice()) {
        return Some(FileType::Document("PDF".to_owned()));
    }
    if starts_with(mime, to_chars("application/vnd.openxmlformats").as_slice()) {
        return Some(FileType::Document(sniffed.label));
    }
    if starts_with(mime, to_chars("application/vnd.ms-").as_slice()) || starts_with(
        mime,
        to_chars("application/msword").as_slice(),
    ) {
        return Some(FileType::Document(sniffed.label));
    }
    if starts_with(mime, to_chars("image/").as_slice()) {
        return Some(FileType::Image(sniffed.label));
    }
    if contains(mime, to_chars("compress").as_slice()) || contains(
        mime,
        to_chars("zip").as_slice(),
    ) {
        return Some(FileType::Compressed);
    }
    None
}

/// Applies the policy's later rules to data that is not empty and has no
/// signature of the table.
fn classify_content(data: &[u8], sniffed: Option<Sniffed>, entropy: Entropy) -> (kind: FileType)
    ensures
        kind@ == content_verdict(data@, sniffed_view(sniffed), entropy),
{
    match sniffed {
        Some(s) => {
            match classify_sniffed(s) {
                Some(kind) => {
                    return kind;
                },
                None => {},
            }
        },
        None => {},
    }
    if entropy.exceeds(&Entropy::high()) {
        if is_compressed_format(data) {
            return FileType::Compressed;
        }
        if entropy.exceeds(&Entropy::very_high()) {
            return FileType::Encrypted;
        }
        return FileType::Random;
    }
    if is_text_data(data) {
        return FileType::PlainText;
    }
    FileType::Binary
}

/// Classifies `data`, given what the sniffer said of it and its entropy.
pub fn classify(data: &[u8], sniffed: Option<Sniffed>, entropy: Entropy) -> (kind: FileType)
    ensures
        kind@ == verdict(data@, sniffed_view(sniffed), entropy),
{
    if data.len() == 0 {
        return FileType::PlainText;
    }
    match check_magic_number(data) {
        Some(name) => FileType::Archive(name),
        None => classify_content(data, sniffed, entropy),
    }
}

/// Classifies `data` with the given entropy. The sniffer is asked only
/// where neither of the first two rules decides, and it is not asked about
/// a buffer that opens with a chain of more than `MAX_FRAMES` Zstandard
/// skippable frames: for such a buffer the later rules decide.
pub fn detect_file_type(data: &[u8], entropy: Entropy) -> (kind: FileType)
    ensures
        kind@ == verdict(data@, sniffer_report(data@), entropy),
{
    if data.len() == 0 {
        return FileType::PlainText;
    }
    match check_magic_number(data) {
        Some(name) => FileType::Archive(name),
        None => {
            let sniffed = sniff_format(data);
            classify_content(data, sniffed, entropy)
        },
    }
}

} // verus!
