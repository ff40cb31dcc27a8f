//! Bounded-memory scanning: how much to read at a time, and what is kept
//! of the chunks that come back.
//!
//! The reading itself is done elsewhere. A `Scan` says how many bytes to ask
//! for next, takes the chunk that was read, and keeps the first chunk and
//! the histogram of all of them.

use crate::classify::{detect_file_type, verdict};
use crate::entropy::Entropy;
use crate::histogram::ByteHistogram;
use crate::record::FileAnalysis;
use crate::sniffer::sniffer_report;
use vstd::prelude::*;

verus! {

/// The smallest chunk size that is ever chosen: 1 MiB.
pub const MIN_CHUNK: usize = 1024 * 1024;

/// The largest chunk size that is ever chosen: 1 GiB.
pub const MAX_CHUNK: usize = 1024 * 1024 * 1024;

/// The chunk size for a machine with `available_ram` bytes of free memory
/// and `thread_count` workers: the memory divided by twice the workers, or
/// by four if that is more, held between `MIN_CHUNK` and `MAX_CHUNK`.
pub open spec fn optimal_chunk_size(available_ram: int, thread_count: int) -> int {
    let divisor = if 2 * thread_count > 4 {
        2 * thread_count
    } else {
        4
    };
    let share = available_ram / divisor;
    if share < MIN_CHUNK {
        MIN_CHUNK as int
    } else if share > MAX_CHUNK {
        MAX_CHUNK as int
    } else {
        share
    }
}

/// Computes the chunk size from the free memory and the number of workers.
pub fn get_optimal_chunk_size(available_ram: u64, thread_count: usize) -> (chunk_size: usize)
    ensures
        chunk_size == optimal_chunk_size(available_ram as int, thread_count as int),
        MIN_CHUNK <= chunk_size <= MAX_CHUNK,
{
    let doubled: u128 = 2 * (thread_count as u128);
    let divisor: u128 = if doubled > 4 {
        doubled
    } else {
        4
    };
    let share: u128 = (available_ram as u128) / divisor;
    if share < MIN_CHUNK as u128 {
        MIN_CHUNK
    } else if share > MAX_CHUNK as u128 {
        MAX_CHUNK
    } else {
        share as usize
    }
}

/// How one file is read: at most `chunk_size` bytes at a time, and
/// `bytes_to_read` bytes in all.
#[derive(Clone, Copy, Debug, PartialEq, Eq, Structural)]
pub struct ChunkPlan {
    pub chunk_size: usize,
    pub bytes_to_read: u64,
}

impl ChunkPlan {
    /// The bytes to read of a file of `size` bytes: all of them, or no more
    /// than `max_bytes`.
    pub open spec fn span(size: u64, max_bytes: Option<usize>) -> u64 {
        match max_bytes {
            Some(max) => if max <= size {
                max as u64
            } else {
                size
            },
            None => size,
        }
    }

    /// True when the whole span is read in one call.
    pub open spec fn direct(self) -> bool {
        self.bytes_to_read <= self.chunk_size
    }

    /// The plan for a file of `size` bytes.
    pub fn new(size: u64, max_bytes: Option<usize>, chunk_size: usize) -> (plan: ChunkPlan)
        ensures
            plan.chunk_size == chunk_size,
            plan.bytes_to_read == Self::span(size, max_bytes),
    {
        let bytes_to_read = match max_bytes {
            Some(max) => if max as u64 <= size {
                max as u64
            } else {
                size
            },
            None => size,
        };
        ChunkPlan { chunk_size, bytes_to_read }
    }

    /// Tests whether the whole span is read in one call.
    pub fn is_direct(&self) -> (direct: bool)
        ensures
            direct == self.direct(),
    {
        self.bytes_to_read <= self.chunk_size as u64
    }
}

/// What a scan asks for next.
#[derive(Clone, Copy, Debug, PartialEq, Eq, Structural)]
pub enum Step {
    /// Read up to this many bytes and feed what came back.
    Read(usize),
    /// Nothing more is to be read.
    Finish,
}

/// The scan of one file: the plan, and what has been kept of the chunks
/// fed so far.
pub struct Scan {
    plan: ChunkPlan,
    total_read: u64,
    first_chunk: Vec<u8>,
    histogram: ByteHistogram,
    started: bool,
    finished: bool,
    bytes: Ghost<Seq<u8>>,
}

impl Scan {
    #[verifier::type_invariant]
    spec fn consistent(self) -> bool {
        &&& self.total_read == self.bytes@.len()
        &&& self.total_read <= self.plan.bytes_to_read
        &&& self.histogram@ == self.bytes@.to_multiset()
        &&& self.first_chunk@.is_prefix_of(self.bytes@)
        &&& !self.started ==> self.bytes@.len() == 0 && !self.finished
        &&& self.started && (self.plan.direct() || self.total_read >= self.plan.bytes_to_read)
            ==> self.finished
    }

    /// The plan that the scan follows.
    pub closed spec fn plan(self) -> ChunkPlan {
        self.plan
    }

    /// All bytes fed so far, in the order in which they came.
    pub closed spec fn bytes(self) -> Seq<u8> {
        self.bytes@
    }

    /// The first chunk that was fed; empty before that.
    pub closed spec fn first(self) -> Seq<u8> {
        self.first_chunk@
    }

    /// True once a chunk has been fed.
    pub closed spec fn started(self) -> bool {
        self.started
    }

    /// True once nothing more is to be read.
    pub closed spec fn finished(self) -> bool {
        self.finished
    }

    /// How many bytes the next read may bring: a chunk, or what is left of
    /// the span if that is less.
    pub open spec fn request(self) -> int {
        let left = self.plan().bytes_to_read - self.bytes().len();
        if left < self.plan().chunk_size {
            left
        } else {
            self.plan().chunk_size as int
        }
    }

    /// A scan that has read nothing yet.
    pub fn new(plan: ChunkPlan) -> (scan: Scan)
        ensures
            scan.plan() == plan,
            scan.bytes() == Seq::<u8>::empty(),
            scan.first() == Seq::<u8>::empty(),
            !scan.started(),
            !scan.finished(),
    {
        proof {
            Seq::<u8>::empty().to_multiset_ensures();
            vstd::multiset::lemma_multiset_empty_len(Seq::<u8>::empty().to_multiset());
        }
        Scan {
            plan,
            total_read: 0,
            first_chunk: Vec::new(),
            histogram: ByteHistogram::new(),
            started: false,
            finished: false,
            bytes: Ghost(Seq::empty()),
        }
    }

    /// Takes the chunk that a read brought. The scan is finished after the
    /// one read of a direct plan, after an empty chunk, and when the span
    /// has been read.
    pub fn feed(self, chunk: &[u8]) -> (next: Scan)
        requires
            !self.finished(),
            chunk@.len() <= self.request(),
        ensures
            next.plan() == self.plan(),
            next.bytes() == self.bytes() + chunk@,
            next.first() == if self.started() {
                self.first()
            } else {
                chunk@
            },
            next.started(),
            next.finished() == (self.plan().direct() || chunk@.len() == 0 || next.bytes().len()
                >= self.plan().bytes_to_read),
    {
        proof {
            use_type_invariant(&self);
            self.bytes@.to_multiset_ensures();
            crate::histogram::lemma_histogram_of_concat(self.bytes@, chunk@);
        }
        let Scan { plan, total_read, first_chunk, histogram, started, finished, bytes } = self;
        let mut histogram = histogram;
        histogram.add_chunk(chunk);
        let first_chunk = if started {
            first_chunk
        } else {
            vstd::slice::slice_to_vec(chunk)
        };
        let total_read = total_read + chunk.len() as u64;
        let finished = plan.is_direct() || chunk.len() == 0 || total_read >= plan.bytes_to_read;
        Scan {
            plan,
            total_read,
            first_chunk,
            histogram,
            started: true,
            finished,
            bytes: Ghost(bytes@ + chunk@),
        }
    }

    /// Tests whether nothing more is to be read.
    pub fn is_finished(&self) -> (finished: bool)
        ensures
            finished == self.finished(),
    {
        self.finished
    }

    /// The first chunk, which is the head of what was read.
    pub fn first_chunk(&self) -> (chunk: &[u8])
        ensures
            chunk@ == self.first(),
            self.first().is_prefix_of(self.bytes()),
    {
        proof {
            use_type_invariant(self);
        }
        self.first_chunk.as_slice()
    }

    /// The histogram of all bytes read.
    pub fn histogram(&self) -> (histogram: &ByteHistogram)
        ensures
            histogram@ == self.bytes().to_multiset(),
    {
        proof {
            use_type_invariant(self);
        }
        &self.histogram
    }

    /// The number of bytes read, which never exceeds the span.
    pub fn total_read(&self) -> (total: u64)
        ensures
            total == self.bytes().len(),
            total <= self.plan().bytes_to_read,
    {
        proof {
            use_type_invariant(self);
        }
        self.total_read
    }

    /// Closes the scan: classifies the first chunk with the given entropy
    /// and makes the record of the file.
    pub fn finish(self, path: String, size: u64, entropy: Entropy) -> (record: FileAnalysis)
        ensures
            record.path == path,
            record.size == size,
            record.entropy == entropy,
            record.file_type@ == verdict(self.first(), sniffer_report(self.first()), entropy),
    {
        let file_type = detect_file_type(self.first_chunk.as_slice(), entropy);
        FileAnalysis { path, file_type, entropy, size }
    }

    /// What to do next.
    pub fn next_step(&self) -> (step: Step)
        ensures
            self.finished() ==> step == Step::Finish,
            !self.finished() ==> step == Step::Read(self.request() as usize),
            !self.finished() ==> 0 <= self.request() <= self.plan().chunk_size,
    {
        proof {
            use_type_invariant(self);
        }
        if self.finished {
            return Step::Finish;
        }
        let left = self.plan.bytes_to_read - self.total_read;
        if left < self.plan.chunk_size as u64 {
            Step::Read(left as usize)
        } else {
            Step::Read(self.plan.chunk_size)
        }
    }
}

/// What a scan reads of a buffer: the buffer up to the end of the span. A
/// plan with a chunk size of zero and a span to read brings nothing.
pub open spec fn readable(data: Seq<u8>, plan: ChunkPlan) -> Seq<u8> {
    if plan.chunk_size == 0 && plan.bytes_to_read > 0 {
        Seq::empty()
    } else if data.len() <= plan.bytes_to_read {
        data
    } else {
        data.take(plan.bytes_to_read as int)
    }
}

/// The first chunk of that: no more than one chunk size of it.
pub open spec fn first_part(data: Seq<u8>, plan: ChunkPlan) -> Seq<u8> {
    let all = readable(data, plan);
    if all.len() <= plan.chunk_size {
        all
    } else {
        all.take(plan.chunk_size as int)
    }
}

/// Chunking is invisible: two plans with the same span and chunk sizes of
/// at least one read the same bytes of a buffer, so they end with the same
/// histogram, and with the same entropy, which is computed from it.
pub proof fn lemma_chunk_size_is_immaterial(data: Seq<u8>, one: ChunkPlan, other: ChunkPlan)
    requires
        one.chunk_size >= 1,
        other.chunk_size >= 1,
        one.bytes_to_read == other.bytes_to_read,
    ensures
        readable(data, one) == readable(data, other),
        readable(data, one).to_multiset() == readable(data, other).to_multiset(),
{
}

/// Scans a buffer in memory as a file would be scanned: every read brings
/// what it asks for, until the buffer ends. Whatever the chunk size, as long
/// as it is not zero, the scan holds the histogram of the bytes up to the
/// end of the span.
pub fn scan_bytes(data: &[u8], plan: ChunkPlan) -> (scan: Scan)
    ensures
        scan.plan() == plan,
        scan.finished(),
        scan.bytes() == readable(data@, plan),
        scan.first() == first_part(data@, plan),
{
    let mut scan = Scan::new(plan);
    let mut offset: usize = 0;
    while !scan.is_finished()
        invariant
            scan.plan() == plan,
            offset <= data@.len(),
            offset <= plan.bytes_to_read,
            scan.finished() ==> scan.started(),
            !scan.started() ==> offset == 0,
            plan.chunk_size == 0 ==> offset == 0,
            !scan.finished() ==> scan.bytes() == data@.take(offset as int),
            !scan.finished() && scan.started() ==> offset < plan.bytes_to_read && !plan.direct(),
            scan.finished() ==> scan.bytes() == readable(data@, plan),
            scan.started() ==> scan.first() == first_part(data@, plan),
        decreases
                plan.bytes_to_read - offset + if scan.finished() {
                    0int
                } else {
                    1int
                },
    {
        let n = match scan.next_step() {
            Step::Read(n) => n,
            Step::Finish => 0,
        };
        let end = if data.len() - offset < n {
            data.len()
        } else {
            offset + n
        };
        let chunk = vstd::slice::slice_subrange(data, offset, end);
        scan = scan.feed(chunk);
        offset = end;
    }
    scan
}

} // verus!
