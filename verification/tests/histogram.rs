use enro::histogram::ByteHistogram;

#[test]
fn a_new_histogram_is_empty() {
    let h = ByteHistogram::new();
    assert_eq!(h.total(), 0);
    for b in 0..=255u8 {
        assert_eq!(h.count(b), 0);
    }
}

#[test]
fn counts_each_byte_value() {
    let h = ByteHistogram::from_bytes(b"abracadabra");
    assert_eq!(h.total(), 11);
    assert_eq!(h.count(b'a'), 5);
    assert_eq!(h.count(b'b'), 2);
    assert_eq!(h.count(b'r'), 2);
    assert_eq!(h.count(b'c'), 1);
    assert_eq!(h.count(b'd'), 1);
    assert_eq!(h.count(b'z'), 0);
}

#[test]
fn the_counters_add_up_to_the_total() {
    let data: Vec<u8> = (0..10_000u32).map(|i| (i * 7 % 251) as u8).collect();
    let h = ByteHistogram::from_bytes(&data);
    let counts = h.counts();
    assert_eq!(counts.iter().sum::<u64>(), h.total());
    assert_eq!(h.total(), 10_000);
    for b in 0..=255u8 {
        assert_eq!(counts[b as usize], h.count(b));
    }
}

#[test]
fn the_extreme_byte_values_have_their_own_counters() {
    let h = ByteHistogram::from_bytes(&[0x00, 0xFF, 0xFF, 0x00, 0xFF]);
    assert_eq!(h.count(0x00), 2);
    assert_eq!(h.count(0xFF), 3);
    assert_eq!(h.count(0x01), 0);
    assert_eq!(h.count(0xFE), 0);
}

#[test]
fn chunks_add_up_to_the_whole() {
    let data: Vec<u8> = (0..5000u32).map(|i| (i * i % 256) as u8).collect();
    let whole = ByteHistogram::from_bytes(&data);
    for size in [1usize, 2, 3, 7, 64, 4999, 5000, 5001, 100_000] {
        let mut h = ByteHistogram::new();
        for chunk in data.chunks(size) {
            h.add_chunk(chunk);
        }
        assert_eq!(h.total(), whole.total());
        assert_eq!(h.counts(), whole.counts());
    }
}

#[test]
fn an_empty_chunk_changes_nothing() {
    let mut h = ByteHistogram::from_bytes(b"xyz");
    h.add_chunk(&[]);
    assert_eq!(h.total(), 3);
    assert_eq!(h.count(b'x'), 1);
}

#[test]
fn counters_never_go_down() {
    let mut h = ByteHistogram::new();
    let mut last = [0u64; 256];
    for chunk in [&b"aaa"[..], &b"ab"[..], &b""[..], &b"zzzz"[..]] {
        h.add_chunk(chunk);
        let now = h.counts();
        for i in 0..256 {
            assert!(now[i] >= last[i]);
        }
        last = now;
    }
    assert_eq!(h.count(b'a'), 4);
}
