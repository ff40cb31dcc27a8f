//! Byte histograms: how often each byte value has been seen.
//!
//! The histogram of a byte sequence is the multiset of its bytes. Counting
//! chunk after chunk adds multisets, so the chunks of a split file give the
//! histogram of the whole file.

use vstd::multiset::Multiset;
use vstd::prelude::*;

verus! {

/// 256 counters, one for each byte value, and the number of bytes counted.
pub struct ByteHistogram {
    counts: [u64; 256],
    total: u64,
    seen: Ghost<Multiset<u8>>,
}

/// The histogram that counting `chunks` one after the other gives: the sum
/// of the histograms of the single chunks.
pub open spec fn aggregate(chunks: Seq<Seq<u8>>) -> Multiset<u8>
    decreases chunks.len(),
{
    if chunks.len() == 0 {
        Multiset::empty()
    } else {
        aggregate(chunks.drop_last()).add(chunks.last().to_multiset())
    }
}

/// The histogram of two pieces laid end to end is the sum of the
/// histograms of the pieces.
pub proof fn lemma_histogram_of_concat(a: Seq<u8>, b: Seq<u8>)
    ensures
        (a + b).to_multiset() == a.to_multiset().add(b.to_multiset()),
{
    vstd::seq_lib::lemma_multiset_commutative(a, b);
}

/// Chunked aggregation: however a buffer is cut into chunks, counting the
/// chunks one after the other gives the histogram of the whole buffer.
pub proof fn lemma_chunked_aggregation(chunks: Seq<Seq<u8>>)
    ensures
        aggregate(chunks) == chunks.flatten().to_multiset(),
    decreases chunks.len(),
{
    if chunks.len() == 0 {
        Seq::<u8>::empty().to_multiset_ensures();
    } else {
        let front = chunks.drop_last();
        let last = chunks.last();
        lemma_chunked_aggregation(front);
        assert(chunks =~= front.push(last));
        front.lemma_flatten_push(last);
        lemma_histogram_of_concat(front.flatten(), last);
    }
}

/// One repeated byte gives a histogram with a single symbol: its counter
/// holds the length of the data, and every other counter is zero.
pub proof fn lemma_single_symbol(data: Seq<u8>, byte: u8)
    requires
        forall|i: int| 0 <= i < data.len() ==> data[i] == byte,
    ensures
        data.to_multiset().count(byte) == data.len(),
        forall|other: u8| other != byte ==> data.to_multiset().count(other) == 0,
    decreases data.len(),
{
    data.to_multiset_ensures();
    if data.len() > 0 {
        let front = data.drop_last();
        lemma_single_symbol(front, byte);
        front.to_multiset_ensures();
        assert(front.push(byte) =~= data);
    }
}

impl View for ByteHistogram {
    type V = Multiset<u8>;

    /// The bytes counted so far, without their order.
    closed spec fn view(&self) -> Multiset<u8> {
        self.seen@
    }
}

impl ByteHistogram {
    /// Each counter holds the multiplicity of its byte, and the total is the
    /// size of the multiset.
    #[verifier::type_invariant]
    spec fn counters_agree(self) -> bool {
        &&& self.total == self.seen@.len()
        &&& forall|b: u8| #[trigger] self.counts[b as int] == self.seen@.count(b)
    }

    /// A histogram of no bytes.
    pub fn new() -> (h: ByteHistogram)
        ensures
            h@ == Multiset::<u8>::empty(),
    {
        ByteHistogram { counts: [0u64; 256], total: 0, seen: Ghost(Multiset::empty()) }
    }

    /// How often `byte` was seen.
    pub fn count(&self, byte: u8) -> (n: u64)
        ensures
            n == self@.count(byte),
    {
        proof {
            use_type_invariant(self);
        }
        self.counts[byte as usize]
    }

    /// How many bytes were seen.
    pub fn total(&self) -> (n: u64)
        ensures
            n == self@.len(),
    {
        proof {
            use_type_invariant(self);
        }
        self.total
    }

    /// The 256 counters, indexed by byte value.
    pub fn counts(&self) -> (counts: [u64; 256])
        ensures
            forall|b: u8| #[trigger] counts[b as int] == self@.count(b),
    {
        proof {
            use_type_invariant(self);
        }
        self.counts
    }

    /// Counts the bytes of `chunk` in.
    pub fn add_chunk(&mut self, chunk: &[u8])
        requires
            old(self)@.len() + chunk@.len() <= u64::MAX,
        ensures
            final(self)@ == old(self)@.add(chunk@.to_multiset()),
    {
        broadcast use {
            vstd::seq_lib::group_to_multiset_ensures,
            vstd::multiset::group_multiset_axioms,
        };

        proof {
            use_type_invariant(&*self);
        }
        let mut counts = self.counts;
        let mut total = self.total;
        let ghost before = self.seen@;
        let mut i: usize = 0;
        while i < chunk.len()
            invariant
                i <= chunk@.len(),
                before.len() + chunk@.len() <= u64::MAX,
                total == before.len() + i,
                forall|b: u8| #[trigger]
                    counts[b as int] == before.add(chunk@.take(i as int).to_multiset()).count(b),
            decreases chunk@.len() - i,
        {
            let byte = chunk[i];
            let ghost head = chunk@.take(i as int);
            assert(chunk@.take(i + 1) =~= head.push(byte));
            proof {
                head.to_multiset_ensures();
            }
            counts[byte as usize] = counts[byte as usize] + 1;
            total = total + 1;
            i += 1;
        }
        assert(chunk@.take(chunk@.len() as int) =~= chunk@);
        *self = ByteHistogram {
            counts,
            total,
            seen: Ghost(before.add(chunk@.to_multiset())),
        };
    }

    /// The histogram of one buffer.
    pub fn from_bytes(data: &[u8]) -> (h: ByteHistogram)
        ensures
            h@ == data@.to_multiset(),
    {
        let mut h = ByteHistogram::new();
        assert(data@.len() <= usize::MAX) by {
            vstd::slice::axiom_spec_len(data);
        }
        h.add_chunk(data);
        h
    }
}

} // verus!
