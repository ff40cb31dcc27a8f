use enro::classify::FileType;
use enro::entropy::Entropy;
use enro::histogram::ByteHistogram;
use enro::stream::{get_optimal_chunk_size, scan_bytes, ChunkPlan, Scan, Step, MAX_CHUNK, MIN_CHUNK};

const MIB: u64 = 1024 * 1024;
const GIB: u64 = 1024 * MIB;

/// Shannon entropy in bits per byte of what a histogram has counted.
fn shannon(histogram: &ByteHistogram) -> f64 {
    let total = histogram.total();
    if total == 0 {
        return 0.0;
    }
    let len = total as f64;
    let mut entropy = 0.0;
    for count in histogram.counts() {
        if count > 0 {
            let p = count as f64 / len;
            entropy -= p * p.log2();
        }
    }
    entropy
}

fn plan(chunk_size: usize, bytes_to_read: u64) -> ChunkPlan {
    ChunkPlan { chunk_size, bytes_to_read }
}

#[test]
fn chunk_size_is_memory_over_twice_the_workers() {
    assert_eq!(get_optimal_chunk_size(8 * GIB, 8), (512 * MIB) as usize);
    assert_eq!(get_optimal_chunk_size(16 * GIB, 16), (512 * MIB) as usize);
    assert_eq!(get_optimal_chunk_size(3 * GIB, 3), (512 * MIB) as usize);
    assert_eq!(get_optimal_chunk_size(1000 * MIB, 10), (50 * MIB) as usize);
    assert_eq!(get_optimal_chunk_size(1_000_000_007, 7), 1_000_000_007 / 14);
}

#[test]
fn chunk_size_divides_by_four_at_least() {
    assert_eq!(get_optimal_chunk_size(400 * MIB, 0), (100 * MIB) as usize);
    assert_eq!(get_optimal_chunk_size(400 * MIB, 1), (100 * MIB) as usize);
    assert_eq!(get_optimal_chunk_size(400 * MIB, 2), (100 * MIB) as usize);
    assert_eq!(get_optimal_chunk_size(600 * MIB, 3), (100 * MIB) as usize);
}

#[test]
fn chunk_size_is_clamped() {
    assert_eq!(MIN_CHUNK, MIB as usize);
    assert_eq!(MAX_CHUNK, GIB as usize);
    assert_eq!(get_optimal_chunk_size(0, 4), MIN_CHUNK);
    assert_eq!(get_optimal_chunk_size(4 * MIB - 1, 1), MIN_CHUNK);
    assert_eq!(get_optimal_chunk_size(4 * MIB, 1), MIN_CHUNK);
    assert_eq!(get_optimal_chunk_size(4 * MIB + 4, 1), MIN_CHUNK + 1);
    assert_eq!(get_optimal_chunk_size(4 * GIB, 1), MAX_CHUNK);
    assert_eq!(get_optimal_chunk_size(4 * GIB - 4, 1), MAX_CHUNK - 1);
    assert_eq!(get_optimal_chunk_size(u64::MAX, 1), MAX_CHUNK);
    assert_eq!(get_optimal_chunk_size(u64::MAX, usize::MAX), MIN_CHUNK);
}

#[test]
fn the_span_is_the_size_or_the_limit() {
    assert_eq!(ChunkPlan::new(1000, None, 64), plan(64, 1000));
    assert_eq!(ChunkPlan::new(1000, Some(100), 64), plan(64, 100));
    assert_eq!(ChunkPlan::new(1000, Some(1000), 64), plan(64, 1000));
    assert_eq!(ChunkPlan::new(1000, Some(5000), 64), plan(64, 1000));
    assert_eq!(ChunkPlan::new(0, Some(5000), 64), plan(64, 0));
    assert_eq!(ChunkPlan::new(1000, Some(0), 64), plan(64, 0));
    assert_eq!(ChunkPlan::new(u64::MAX, None, 64), plan(64, u64::MAX));
}

#[test]
fn a_span_within_one_chunk_is_read_directly() {
    assert!(plan(64, 64).is_direct());
    assert!(plan(64, 0).is_direct());
    assert!(plan(0, 0).is_direct());
    assert!(!plan(64, 65).is_direct());
    assert!(!plan(0, 1).is_direct());
}

#[test]
fn a_direct_scan_reads_once() {
    let scan = Scan::new(plan(100, 10));
    assert!(!scan.is_finished());
    assert_eq!(scan.next_step(), Step::Read(10));
    // A short read is taken as it is.
    let scan = scan.feed(b"abc");
    assert!(scan.is_finished());
    assert_eq!(scan.next_step(), Step::Finish);
    assert_eq!(scan.first_chunk(), b"abc");
    assert_eq!(scan.total_read(), 3);
    assert_eq!(scan.histogram().count(b'b'), 1);
}

#[test]
fn a_direct_scan_of_nothing_still_reads_once() {
    let scan = Scan::new(plan(100, 0));
    assert_eq!(scan.next_step(), Step::Read(0));
    let scan = scan.feed(b"");
    assert!(scan.is_finished());
    assert_eq!(scan.total_read(), 0);
    assert_eq!(scan.first_chunk(), b"");
}

#[test]
fn a_chunked_scan_reads_until_the_span_is_done() {
    let scan = Scan::new(plan(4, 10));
    assert_eq!(scan.next_step(), Step::Read(4));
    let scan = scan.feed(b"abcd");
    assert!(!scan.is_finished());
    assert_eq!(scan.next_step(), Step::Read(4));
    let scan = scan.feed(b"efgh");
    assert_eq!(scan.next_step(), Step::Read(2));
    let scan = scan.feed(b"ij");
    assert!(scan.is_finished());
    assert_eq!(scan.next_step(), Step::Finish);
    assert_eq!(scan.first_chunk(), b"abcd");
    assert_eq!(scan.total_read(), 10);
    assert_eq!(scan.histogram().total(), 10);
    for b in b"abcdefghij" {
        assert_eq!(scan.histogram().count(*b), 1);
    }
}

#[test]
fn a_chunked_scan_goes_on_after_a_short_read() {
    let scan = Scan::new(plan(4, 10));
    let scan = scan.feed(b"ab");
    assert!(!scan.is_finished());
    assert_eq!(scan.next_step(), Step::Read(4));
    let scan = scan.feed(b"cdef");
    assert_eq!(scan.next_step(), Step::Read(4));
    let scan = scan.feed(b"g");
    assert_eq!(scan.next_step(), Step::Read(3));
    assert_eq!(scan.first_chunk(), b"ab");
    assert_eq!(scan.total_read(), 7);
}

#[test]
fn an_empty_chunk_ends_a_chunked_scan() {
    let scan = Scan::new(plan(4, 10));
    let scan = scan.feed(b"abcd");
    let scan = scan.feed(b"");
    assert!(scan.is_finished());
    assert_eq!(scan.total_read(), 4);
    assert_eq!(scan.first_chunk(), b"abcd");
    // An empty first chunk leaves nothing.
    let scan = Scan::new(plan(4, 10)).feed(b"");
    assert!(scan.is_finished());
    assert_eq!(scan.first_chunk(), b"");
    assert_eq!(scan.total_read(), 0);
}

#[test]
fn a_buffer_is_scanned_like_a_file() {
    let data: Vec<u8> = (0..1000u32).map(|i| (i % 200) as u8).collect();
    let scan = scan_bytes(&data, plan(64, 1000));
    assert!(scan.is_finished());
    assert_eq!(scan.total_read(), 1000);
    assert_eq!(scan.first_chunk(), &data[..64]);
    // The span ends the scan before the buffer does.
    let scan = scan_bytes(&data, plan(64, 300));
    assert_eq!(scan.total_read(), 300);
    assert_eq!(scan.histogram().counts(), ByteHistogram::from_bytes(&data[..300]).counts());
    // The buffer ends the scan before the span does.
    let scan = scan_bytes(&data, plan(64, 5000));
    assert_eq!(scan.total_read(), 1000);
    // A direct scan keeps the whole buffer as its first chunk.
    let scan = scan_bytes(&data, plan(4096, 1000));
    assert_eq!(scan.first_chunk(), &data[..]);
    let scan = scan_bytes(&data, plan(4096, 10));
    assert_eq!(scan.first_chunk(), &data[..10]);
    // Nothing to scan.
    let scan = scan_bytes(&[], plan(64, 1000));
    assert!(scan.is_finished());
    assert_eq!(scan.total_read(), 0);
    // A chunk size of zero brings nothing.
    let scan = scan_bytes(&data, plan(0, 1000));
    assert!(scan.is_finished());
    assert_eq!(scan.total_read(), 0);
}

#[test]
fn chunked_and_whole_give_the_same_entropy() {
    let data: Vec<u8> = (0..20_000u32).map(|i| ((i * i + 3 * i) % 251) as u8).collect();
    let whole = ByteHistogram::from_bytes(&data);
    let expected = shannon(&whole);
    assert!(expected > 0.0 && expected <= 8.0);
    for chunk_size in [1usize, 2, 3, 5, 17, 256, 4096, 19_999, 20_000, 20_001, 1 << 20] {
        let scan = scan_bytes(&data, plan(chunk_size, data.len() as u64));
        assert_eq!(scan.histogram().counts(), whole.counts(), "chunk size {}", chunk_size);
        assert_eq!(scan.histogram().total(), whole.total());
        let entropy = shannon(scan.histogram());
        assert!((entropy - expected).abs() <= 1e-9);
        assert_eq!(entropy.to_bits(), expected.to_bits());
    }
}

#[test]
fn entropy_of_one_repeated_byte_is_zero() {
    for b in [0x00u8, 0x41, 0xFF] {
        let scan = scan_bytes(&vec![b; 3000], plan(7, 3000));
        assert_eq!(shannon(scan.histogram()), 0.0);
    }
}

#[test]
fn entropy_of_all_byte_values_alike_is_eight() {
    let data: Vec<u8> = (0..256 * 64u32).map(|i| (i % 256) as u8).collect();
    let scan = scan_bytes(&data, plan(1000, data.len() as u64));
    assert_eq!(shannon(scan.histogram()), 8.0);
}

#[test]
fn entropy_lies_between_zero_and_eight() {
    let mut seed: u32 = 12345;
    for round in 0..50usize {
        let len = round * 97 % 3000;
        let spread = 1 + round as u32 * 5;
        let data: Vec<u8> = (0..len)
            .map(|_| {
                seed = seed.wrapping_mul(1664525).wrapping_add(1013904223);
                ((seed >> 16) % spread.min(256)) as u8
            })
            .collect();
        let entropy = shannon(&ByteHistogram::from_bytes(&data));
        assert!((0.0..=8.0).contains(&entropy));
    }
}

#[test]
fn five_thousand_letters_end_to_end() {
    let data = vec![0x41u8; 5000];
    for chunk_size in [128usize, 5000, 1 << 20] {
        let scan = scan_bytes(&data, ChunkPlan::new(5000, None, chunk_size));
        assert_eq!(scan.histogram().count(0x41), 5000);
        let entropy = shannon(scan.histogram());
        assert_eq!(entropy, 0.0);
        let record = scan.finish("letters.txt".to_string(), 5000, Entropy::from_bits(entropy.to_bits()));
        assert_eq!(record.file_type, FileType::PlainText);
        assert_eq!(f64::from_bits(record.entropy.to_bits()), 0.0);
        assert_eq!(record.size, 5000);
        assert_eq!(record.path, "letters.txt");
    }
}

#[test]
fn a_gzip_file_end_to_end() {
    let mut data = vec![0x1F, 0x8B];
    data.extend((0..4000u32).map(|i| (i * 31 % 256) as u8));
    let scan = scan_bytes(&data, ChunkPlan::new(data.len() as u64, None, 512));
    let entropy = shannon(scan.histogram());
    let record = scan.finish("a.gz".to_string(), data.len() as u64, Entropy::from_bits(entropy.to_bits()));
    assert_eq!(record.file_type, FileType::Archive("GZIP".to_string()));
}

#[test]
fn the_record_is_classified_by_the_first_chunk() {
    // The signature stands in the first chunk; the tar magic at 257 does not.
    let mut data = vec![b'a'; 600];
    data[257..262].copy_from_slice(b"ustar");
    let scan = scan_bytes(&data, plan(256, 600));
    let record = scan.finish("f".to_string(), 600, Entropy::from_bits(1.0f64.to_bits()));
    assert_eq!(record.file_type, FileType::PlainText);
    let scan = scan_bytes(&data, plan(512, 600));
    let record = scan.finish("f".to_string(), 600, Entropy::from_bits(1.0f64.to_bits()));
    assert_eq!(record.file_type, FileType::Archive("TAR".to_string()));
}

/// A buffer in which each of the first `symbols` byte values occurs
/// `repeats` times, in an order that no signature matches.
fn spread(symbols: u32, repeats: u32) -> Vec<u8> {
    let mut data = Vec::new();
    for round in 0..repeats {
        for i in 0..symbols {
            data.push(((i * 7 + round) % symbols) as u8);
        }
    }
    data
}

fn analysed(data: &[u8], chunk_size: usize) -> (f64, FileType) {
    let scan = scan_bytes(data, ChunkPlan::new(data.len() as u64, None, chunk_size));
    let entropy = shannon(scan.histogram());
    let record = scan.finish("blob".to_string(), data.len() as u64, Entropy::from_bits(entropy.to_bits()));
    (entropy, record.file_type)
}

#[test]
fn high_entropy_up_to_the_upper_threshold_is_random() {
    // 200 byte values alike: log2(200) is about 7.64.
    let data = spread(200, 40);
    for chunk_size in [300usize, 1 << 20] {
        let (entropy, file_type) = analysed(&data, chunk_size);
        assert!(entropy > 7.5 && entropy <= 7.9);
        assert!((entropy - 200f64.log2()).abs() < 1e-9);
        assert_eq!(file_type, FileType::Random);
    }
}

#[test]
fn entropy_above_the_upper_threshold_is_encrypted() {
    // 250 byte values alike: log2(250) is about 7.97.
    let data = spread(250, 40);
    for chunk_size in [300usize, 1 << 20] {
        let (entropy, file_type) = analysed(&data, chunk_size);
        assert!(entropy > 7.9 && entropy <= 8.0);
        assert_eq!(file_type, FileType::Encrypted);
    }
}

#[test]
fn moderate_entropy_without_text_is_binary() {
    // 100 byte values alike, the zero byte among them.
    let data = spread(100, 40);
    let (entropy, file_type) = analysed(&data, 1 << 20);
    assert!(entropy > 6.0 && entropy <= 7.5);
    assert_eq!(file_type, FileType::Binary);
}
