//! Analysis records, the entropy-range filter and the summary counts.

use crate::classify::FileType;
use crate::entropy::Entropy;
use vstd::prelude::*;

verus! {

/// The outcome of analysing one file.
#[derive(Debug, PartialEq, Eq)]
pub struct FileAnalysis {
    pub path: String,
    pub file_type: FileType,
    pub entropy: Entropy,
    pub size: u64,
}

impl Clone for FileAnalysis {
    /// A copy with the same path, classification, entropy and size.
    fn clone(&self) -> (copy: FileAnalysis)
        ensures
            copy.path@ == self.path@,
            copy.file_type@ == self.file_type@,
            copy.entropy == self.entropy,
            copy.size == self.size,
    {
        FileAnalysis {
            path: self.path.clone(),
            file_type: self.file_type.clone(),
            entropy: self.entropy,
            size: self.size,
        }
    }
}

/// The test of the entropy-range filter: the bounds are inclusive.
pub open spec fn in_range(min: Entropy, max: Entropy) -> spec_fn(FileAnalysis) -> bool {
    |record: FileAnalysis| record.entropy.within(min, max)
}

/// Keeps the records whose entropy lies between `min` and `max`, in their
/// order.
pub fn filter_by_entropy(records: Vec<FileAnalysis>, min: Entropy, max: Entropy) -> (kept: Vec<
    FileAnalysis,
>)
    ensures
        kept@ == records@.filter(in_range(min, max)),
{
    let mut kept: Vec<FileAnalysis> = Vec::new();
    for record in it: records
        invariant
            it.seq() == records@,
            kept@ == records@.take(it.index()).filter(in_range(min, max)),
    {
        proof {
            reveal(Seq::filter);
            assert(records@.take(it.index() + 1).drop_last() =~= records@.take(it.index()));
        }
        if record.entropy.in_range(&min, &max) {
            kept.push(record);
        }
    }
    assert(records@.take(records@.len() as int) =~= records@);
    kept
}

} // verus!
