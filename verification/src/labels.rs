//! The names under which a classification is shown.

use crate::classify::{FileType, Verdict};
use vstd::prelude::*;
use vstd::string::StringExecFns;

verus! {

/// A heading, a format label and a closing bracket.
pub open spec fn bracketed(heading: Seq<char>, name: Seq<char>) -> Seq<char> {
    heading + name + ")"@
}

/// The plain name of a classification.
pub open spec fn plain_label(kind: Verdict) -> Seq<char> {
    match kind {
        Verdict::Archive(name) => bracketed("Archive ("@, name),
        Verdict::Document(name) => bracketed("Document ("@, name),
        Verdict::Image(name) => bracketed("Image ("@, name),
        Verdict::Encrypted => "Encrypted"@,
        Verdict::Random => "Random Data"@,
        Verdict::PlainText => "Plain Text"@,
        Verdict::Binary => "Binary"@,
        Verdict::Compressed => "Compressed"@,
    }
}

/// The name of a classification with a pictogram before it.
pub open spec fn pictured_label(kind: Verdict) -> Seq<char> {
    match kind {
        Verdict::Archive(name) => bracketed("\u{1f4e6} Archive ("@, name),
        Verdict::Document(name) => bracketed("\u{1f4c4} Document ("@, name),
        Verdict::Image(name) => bracketed("\u{1f5bc}\u{fe0f}  Image ("@, name),
        Verdict::Encrypted => "\u{1f512} Encrypted"@,
        Verdict::Random => "\u{1f3b2} Random Data"@,
        Verdict::PlainText => "\u{1f4c4} Plain Text"@,
        Verdict::Binary => "\u{2699}\u{fe0f}  Binary"@,
        Verdict::Compressed => "\u{1f5dc}\u{fe0f}  Compressed"@,
    }
}

/// The name of a classification in a line of comma-separated values.
pub open spec fn compact_label(kind: Verdict) -> Seq<char> {
    match kind {
        Verdict::Archive(name) => bracketed("Archive("@, name),
        Verdict::Document(name) => bracketed("Document("@, name),
        Verdict::Image(name) => bracketed("Image("@, name),
        Verdict::Encrypted => "Encrypted"@,
        Verdict::Random => "Random"@,
        Verdict::PlainText => "PlainText"@,
        Verdict::Binary => "Binary"@,
        Verdict::Compressed => "Compressed"@,
    }
}

/// Puts a format label between a heading and a closing bracket.
fn bracket(heading: &str, name: &String) -> (label: String)
    ensures
        label@ == bracketed(heading@, name@),
{
    heading.to_owned().concat(name.as_str()).concat(")")
}

impl FileType {
    /// The name with a pictogram.
    pub fn display(&self) -> (label: String)
        ensures
            label@ == pictured_label(self@),
    {
        match self {
            FileType::Archive(name) => bracket("\u{1f4e6} Archive (", name),
            FileType::Document(name) => bracket("\u{1f4c4} Document (", name),
            FileType::Image(name) => bracket("\u{1f5bc}\u{fe0f}  Image (", name),
            FileType::Encrypted => "\u{1f512} Encrypted".to_owned(),
            FileType::Random => "\u{1f3b2} Random Data".to_owned(),
            FileType::PlainText => "\u{1f4c4} Plain Text".to_owned(),
            FileType::Binary => "\u{2699}\u{fe0f}  Binary".to_owned(),
            FileType::Compressed => "\u{1f5dc}\u{fe0f}  Compressed".to_owned(),
        }
    }

    /// The plain name.
    pub fn display_plain(&self) -> (label: String)
        ensures
            label@ == plain_label(self@),
    {
        match self {
            FileType::Archive(name) => bracket("Archive (", name),
            FileType::Document(name) => bracket("Document (", name),
            FileType::Image(name) => bracket("Image (", name),
            FileType::Encrypted => "Encrypted".to_owned(),
            FileType::Random => "Random Data".to_owned(),
            FileType::PlainText => "Plain Text".to_owned(),
            FileType::Binary => "Binary".to_owned(),
            FileType::Compressed => "Compressed".to_owned(),
        }
    }

    /// The name for a line of comma-separated values.
    pub fn display_compact(&self) -> (label: String)
        ensures
            label@ == compact_label(self@),
    {
        match self {
            FileType::Archive(name) => bracket("Archive(", name),
            FileType::Document(name) => bracket("Document(", name),
            FileType::Image(name) => bracket("Image(", name),
            FileType::Encrypted => "Encrypted".to_owned(),
            FileType::Random => "Random".to_owned(),
            FileType::PlainText => "PlainText".to_owned(),
            FileType::Binary => "Binary".to_owned(),
            FileType::Compressed => "Compressed".to_owned(),
        }
    }
}

} // verus!
