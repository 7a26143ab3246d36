use solana_test_framework::capacity::{
    chunk_size_from_baseline, payload_capacity, LENGTH_PREFIX_MARGIN, PACKET_DATA_SIZE,
};
use solana_test_framework::chunks::{chunk_payload, reassemble};

#[test]
fn chunks_cover_buffer_exactly() {
    let data: Vec<u8> = (0..=255u8).cycle().take(1000).collect();
    let chunks = chunk_payload(&data, 96);
    let rebuilt = reassemble(&chunks);
    assert_eq!(rebuilt, data);
}

#[test]
fn chunk_offsets_step_by_chunk_size() {
    let data: Vec<u8> = vec![7u8; 1000];
    let chunks = chunk_payload(&data, 96);
    // ceil(1000 / 96) = 11 chunks
    assert_eq!(chunks.len(), 11);
    for (i, chunk) in chunks.iter().enumerate() {
        assert_eq!(chunk.offset as usize, i * 96);
    }
}

#[test]
fn last_chunk_carries_the_remainder() {
    let data: Vec<u8> = vec![1u8; 1000];
    let chunks = chunk_payload(&data, 96);
    // 1000 mod 96 = 40
    assert_eq!(chunks.last().unwrap().bytes.len(), 40);
    for chunk in chunks.iter().take(10) {
        assert_eq!(chunk.bytes.len(), 96);
    }
}

#[test]
fn exact_multiple_gives_full_last_chunk() {
    let data: Vec<u8> = vec![2u8; 960];
    let chunks = chunk_payload(&data, 96);
    assert_eq!(chunks.len(), 10);
    assert_eq!(chunks.last().unwrap().bytes.len(), 96);
}

#[test]
fn empty_buffer_gives_no_chunks() {
    let data: Vec<u8> = Vec::new();
    let chunks = chunk_payload(&data, 96);
    assert_eq!(chunks.len(), 0);
    assert_eq!(reassemble(&chunks), Vec::<u8>::new());
}

#[test]
fn one_byte_chunks() {
    let data: Vec<u8> = vec![9, 8, 7];
    let chunks = chunk_payload(&data, 1);
    assert_eq!(chunks.len(), 3);
    assert_eq!(chunks[2].offset, 2);
    assert_eq!(chunks[2].bytes, vec![7u8]);
    assert_eq!(reassemble(&chunks), data);
}

#[test]
fn chunk_larger_than_buffer() {
    let data: Vec<u8> = vec![5u8; 10];
    let chunks = chunk_payload(&data, 1000);
    assert_eq!(chunks.len(), 1);
    assert_eq!(chunks[0].offset, 0);
    assert_eq!(chunks[0].bytes, data);
}

#[test]
fn capacity_formula_is_exact() {
    // ceiling 1232, margin 1: a 1000-byte baseline leaves 231 bytes
    assert_eq!(PACKET_DATA_SIZE, 1232);
    assert_eq!(LENGTH_PREFIX_MARGIN, 1);
    assert_eq!(payload_capacity(1000), 231);
    assert_eq!(payload_capacity(0), 1231);
    assert_eq!(payload_capacity(1230), 1);
}

#[test]
fn capacity_saturates_at_zero() {
    assert_eq!(payload_capacity(1231), 0);
    assert_eq!(payload_capacity(1232), 0);
    assert_eq!(payload_capacity(5000), 0);
}

#[test]
fn oversized_baseline_is_a_configuration_error() {
    assert_eq!(chunk_size_from_baseline(1000), Ok(231));
    assert!(chunk_size_from_baseline(1231).is_err());
    assert!(chunk_size_from_baseline(4000).is_err());
}
