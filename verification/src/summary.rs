//! Summary figures over a set of records: how many files of each type, and
//! how many with a high entropy.

use crate::classify::{FileType, Verdict};
use crate::entropy::{Entropy, ELEVATED_BITS, HIGH_BITS};
use crate::record::FileAnalysis;
use vstd::prelude::*;

verus! {

/// The three bands in which an entropy is shown.
#[derive(Clone, Copy, Debug, PartialEq, Eq, Structural)]
pub enum EntropyBand {
    /// At most 6.0.
    Low,
    /// Above 6.0 and at most 7.5.
    Elevated,
    /// Above 7.5.
    High,
}

/// The band of an entropy.
pub open spec fn band_of(entropy: Entropy) -> EntropyBand {
    if entropy.above(Entropy::of(HIGH_BITS)) {
        EntropyBand::High
    } else if entropy.above(Entropy::of(ELEVATED_BITS)) {
        EntropyBand::Elevated
    } else {
        EntropyBand::Low
    }
}

/// Finds the band of an entropy.
pub fn entropy_band(entropy: &Entropy) -> (band: EntropyBand)
    ensures
        band == band_of(*entropy),
{
    if entropy.exceeds(&Entropy::high()) {
        EntropyBand::High
    } else if entropy.exceeds(&Entropy::elevated()) {
        EntropyBand::Elevated
    } else {
        EntropyBand::Low
    }
}

/// The test for a high entropy: above 7.5.
pub open spec fn is_high() -> spec_fn(FileAnalysis) -> bool {
    |record: FileAnalysis| record.entropy.above(Entropy::of(HIGH_BITS))
}

/// The test for a given classification.
pub open spec fn has_type(kind: Verdict) -> spec_fn(FileAnalysis) -> bool {
    |record: FileAnalysis| record.file_type@ == kind
}

/// How many of the records have the classification `kind`.
pub open spec fn occurrences(records: Seq<FileAnalysis>, kind: Verdict) -> nat {
    records.filter(has_type(kind)).len()
}

/// Filtering one record more: the last record joins if it passes.
proof fn lemma_count_step(records: Seq<FileAnalysis>, pred: spec_fn(FileAnalysis) -> bool, i: int)
    requires
        0 <= i < records.len(),
    ensures
        records.take(i + 1).filter(pred).len() == records.take(i).filter(pred).len() + if pred(
            records[i],
        ) {
            1int
        } else {
            0int
        },
        records.take(i).filter(pred).len() <= i,
{
    reveal(Seq::filter);
    assert(records.take(i + 1).drop_last() =~= records.take(i));
}

/// Counts the records with an entropy above 7.5.
pub fn count_high_entropy(records: &[FileAnalysis]) -> (count: usize)
    ensures
        count == records@.filter(is_high()).len(),
{
    let mut count: usize = 0;
    let mut i: usize = 0;
    while i < records.len()
        invariant
            i <= records@.len(),
            count == records@.take(i as int).filter(is_high()).len(),
        decreases records@.len() - i,
    {
        proof {
            lemma_count_step(records@, is_high(), i as int);
        }
        if records[i].entropy.exceeds(&Entropy::high()) {
            count += 1;
        }
        i += 1;
    }
    assert(records@.take(records@.len() as int) =~= records@);
    count
}

/// A classification and the number of records that have it.
#[derive(Debug, PartialEq, Eq)]
pub struct TypeCount {
    pub file_type: FileType,
    pub count: usize,
}

impl Clone for TypeCount {
    /// A copy with the same classification and the same count.
    fn clone(&self) -> (copy: TypeCount)
        ensures
            copy.file_type@ == self.file_type@,
            copy.count == self.count,
    {
        TypeCount { file_type: self.file_type.clone(), count: self.count }
    }
}

/// Where no record passes, nothing is left of the filter.
proof fn lemma_filter_none(records: Seq<FileAnalysis>, pred: spec_fn(FileAnalysis) -> bool)
    requires
        forall|i: int| 0 <= i < records.len() ==> !pred(#[trigger] records[i]),
    ensures
        records.filter(pred).len() == 0,
    decreases records.len(),
{
    reveal(Seq::filter);
    if records.len() > 0 {
        lemma_filter_none(records.drop_last(), pred);
    }
}

/// What a tally says of the records: each entry holds a classification
/// that occurs and the number of records that have it, no classification
/// has two entries, and none that occurs is missing.
pub open spec fn is_tally(tally: Seq<TypeCount>, records: Seq<FileAnalysis>) -> bool {
    &&& forall|i: int|
        0 <= i < tally.len() ==> (#[trigger] tally[i]).count > 0 && tally[i].count == occurrences(
            records,
            tally[i].file_type@,
        )
    &&& forall|i: int, j: int|
        0 <= i < j < tally.len() ==> (#[trigger] tally[i]).file_type@ != (
        #[trigger] tally[j]).file_type@
    &&& forall|k: int|
        0 <= k < records.len() ==> exists|i: int|
            0 <= i < tally.len() && (#[trigger] tally[i]).file_type@ == (
            #[trigger] records[k]).file_type@
}

/// Counts the records of each classification. The order of the entries is
/// left open.
pub fn count_types(records: &[FileAnalysis]) -> (tally: Vec<TypeCount>)
    ensures
        is_tally(tally@, records@),
{
    let mut tally: Vec<TypeCount> = Vec::new();
    let mut k: usize = 0;
    while k < records.len()
        invariant
            k <= records@.len(),
            is_tally(tally@, records@.take(k as int)),
        decreases records@.len() - k,
    {
        let ghost seen = records@.take(k as int);
        let ghost more = records@.take(k + 1);
        let ghost kind = records@[k as int].file_type@;
        let mut p: usize = 0;
        while p < tally.len() && tally[p].file_type != records[k].file_type
            invariant
                k < records@.len(),
                p <= tally@.len(),
                kind == records@[k as int].file_type@,
                forall|i: int| 0 <= i < p ==> (#[trigger] tally@[i]).file_type@ != kind,
            decreases tally@.len() - p,
        {
            p += 1;
        }
        proof {
            assert forall|i: int| 0 <= i < tally@.len() implies occurrences(
                more,
                (#[trigger] tally@[i]).file_type@,
            ) == occurrences(seen, tally@[i].file_type@) + if tally@[i].file_type@ == kind {
                1int
            } else {
                0int
            } && occurrences(seen, tally@[i].file_type@) <= k by {
                lemma_count_step(records@, has_type(tally@[i].file_type@), k as int);
            }
        }
        if p < tally.len() {
            let ghost before = tally@;
            let entry = TypeCount {
                file_type: tally[p].file_type.clone(),
                count: tally[p].count + 1,
            };
            tally.set(p, entry);
            proof {
                assert forall|m: int| 0 <= m < more.len() implies exists|i: int|
                    0 <= i < tally@.len() && (#[trigger] tally@[i]).file_type@ == (
                    #[trigger] more[m]).file_type@ by {
                    if m < k {
                        let i = choose|i: int|
                            0 <= i < before.len() && (#[trigger] before[i]).file_type@ == (
                            #[trigger] seen[m]).file_type@;
                        assert(tally@[i].file_type@ == more[m].file_type@);
                    } else {
                        assert(tally@[p as int].file_type@ == more[m].file_type@);
                    }
                }
            }
        } else {
            proof {
                lemma_count_step(records@, has_type(kind), k as int);
                lemma_filter_none(seen, has_type(kind));
            }
            let ghost before = tally@;
            tally.push(TypeCount { file_type: records[k].file_type.clone(), count: 1 });
            proof {
                assert forall|m: int| 0 <= m < more.len() implies exists|i: int|
                    0 <= i < tally@.len() && (#[trigger] tally@[i]).file_type@ == (
                    #[trigger] more[m]).file_type@ by {
                    if m < k {
                        let i = choose|i: int|
                            0 <= i < before.len() && (#[trigger] before[i]).file_type@ == (
                            #[trigger] seen[m]).file_type@;
                        assert(tally@[i].file_type@ == more[m].file_type@);
                    }
                }
            }
        }
        k += 1;
    }
    assert(records@.take(records@.len() as int) =~= records@);
    tally
}

} // verus!
