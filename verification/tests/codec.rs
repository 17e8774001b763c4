//! The codec, driven by a Snappy engine written in Rust.
//!
//! The functions of the first part make the engine's calls and report what
//! the native engine would: a status, and a length where there is one.  The
//! three functions after them run the operations of the codec as a caller
//! does.

use snap::raw::{decompress_len, max_compress_len, Decoder, Encoder};
use snappy::{
    compress_destination, report_fits, uncompress_destination, SnappyError, SnappyStatus,
};

fn status_of(error: &snap::Error) -> SnappyStatus {
    match error {
        snap::Error::BufferTooSmall { .. } => SnappyStatus::BufferTooSmall,
        _ => SnappyStatus::InvalidInput,
    }
}

fn engine_max_compressed_length(source_length: usize) -> usize {
    max_compress_len(source_length)
}

fn engine_compress(input: &[u8], compressed: &mut [u8]) -> (SnappyStatus, usize) {
    match Encoder::new().compress(input, compressed) {
        Ok(length) => (SnappyStatus::Success, length),
        Err(error) => (status_of(&error), 0),
    }
}

fn engine_uncompressed_length(compressed: &[u8]) -> (SnappyStatus, usize) {
    match decompress_len(compressed) {
        Ok(length) => (SnappyStatus::Success, length),
        Err(error) => (status_of(&error), 0),
    }
}

fn engine_uncompress(compressed: &[u8], uncompressed: &mut [u8]) -> (SnappyStatus, usize) {
    match Decoder::new().decompress(compressed, uncompressed) {
        Ok(length) => (SnappyStatus::Success, length),
        Err(error) => (status_of(&error), 0),
    }
}

fn engine_validate_compressed_buffer(compressed: &[u8]) -> SnappyStatus {
    let (status, length) = engine_uncompressed_length(compressed);
    if status.is_err() {
        return status;
    }
    let mut scratch = vec![0u8; length];
    engine_uncompress(compressed, &mut scratch).0
}

fn compress(src: &[u8]) -> Result<Vec<u8>, SnappyError> {
    let bound = engine_max_compressed_length(src.len());
    let mut destination = compress_destination(bound);
    let (status, length) = engine_compress(src, &mut destination);
    assert!(report_fits(status, &destination, length));
    snappy::compress(status, destination, length)
}

fn uncompress(src: &[u8]) -> Result<Vec<u8>, SnappyError> {
    let (status, length) = engine_uncompressed_length(src);
    let mut destination = uncompress_destination(status, length)?;
    let (status, length) = engine_uncompress(src, &mut destination);
    assert!(report_fits(status, &destination, length));
    snappy::uncompress(status, destination, length)
}

fn validate_compressed_buffer(src: &[u8]) -> Result<(), SnappyError> {
    snappy::validate_compressed_buffer(engine_validate_compressed_buffer(src))
}

/// Plaintexts of several shapes: empty, short, repetitive, and without
/// repetition.
fn plaintexts() -> Vec<Vec<u8>> {
    let mut counting = Vec::new();
    for i in 0..=255u8 {
        counting.push(i);
    }
    let mut scrambled = Vec::new();
    let mut x: u32 = 12345;
    for _ in 0..5000 {
        x = x.wrapping_mul(1103515245).wrapping_add(12345);
        scrambled.push((x >> 16) as u8);
    }
    vec![
        vec![],
        vec![0],
        vec![0xde, 0xad, 0xd0, 0x0d],
        b"The quick brown fox jumps over the lazy dog".to_vec(),
        vec![b'a'; 100_000],
        b"abcabcabcabcabcabcabcabcabcabcabcabcabcabcabcabcabcabc".to_vec(),
        counting,
        scrambled,
    ]
}

/// Buffers made of a block by damage: the block cut short at each place, the
/// block with bytes appended, and the block with one byte changed at each
/// place.
fn damaged(block: &[u8]) -> Vec<Vec<u8>> {
    let mut all = Vec::new();
    for cut in 0..block.len() {
        all.push(block[..cut].to_vec());
    }
    let mut longer = block.to_vec();
    longer.extend_from_slice(&[0, 1, 2, 3]);
    all.push(longer);
    for at in 0..block.len() {
        let mut flipped = block.to_vec();
        flipped[at] ^= 0x55;
        all.push(flipped);
    }
    all
}

/// Whether validating `buffer` and uncompressing it both succeed or both
/// fail.
fn agree(buffer: &[u8]) -> bool {
    validate_compressed_buffer(buffer).is_ok() == uncompress(buffer).is_ok()
}

#[test]
fn test_round_trip() {
    let input = b"The quick brown fox jumps over the lazy dog";
    let output_len = engine_max_compressed_length(input.len());
    let mut output = compress_destination(output_len);
    assert_eq!(output.len(), output_len);

    let (compress_status, output_len) = engine_compress(input, &mut output);
    assert_eq!(compress_status, SnappyStatus::Success);
    let output = snappy::compress(compress_status, output, output_len).unwrap();
    assert_eq!(output.len(), output_len);

    let validate_status = engine_validate_compressed_buffer(&output);
    assert_eq!(validate_status, SnappyStatus::Success);
    assert_eq!(snappy::validate_compressed_buffer(validate_status), Ok(()));

    let (uncompressed_len_status, uncompressed_len) = engine_uncompressed_length(&output);
    assert_eq!(uncompressed_len_status, SnappyStatus::Success);

    let mut uncompressed =
        uncompress_destination(uncompressed_len_status, uncompressed_len).unwrap();
    let (uncompressed_status, uncompressed_len) = engine_uncompress(&output, &mut uncompressed);
    assert_eq!(uncompressed_status, SnappyStatus::Success);
    let uncompressed =
        snappy::uncompress(uncompressed_status, uncompressed, uncompressed_len).unwrap();

    assert_eq!(uncompressed, input);
}

#[test]
fn valid() {
    let d = vec![0xde, 0xad, 0xd0, 0x0d];
    let c: &[u8] = &compress(&d).unwrap();
    assert!(validate_compressed_buffer(c).is_ok());
    assert!(uncompress(c) == Ok(d));
}

#[test]
fn invalid() {
    let d = vec![0, 0, 0, 0];
    assert_eq!(
        validate_compressed_buffer(&d),
        Err(SnappyError::InvalidInput)
    );
    assert_eq!(uncompress(&d), Err(SnappyError::InvalidInput));
}

#[test]
fn empty() {
    let d = vec![];
    assert_eq!(
        validate_compressed_buffer(&d),
        Err(SnappyError::InvalidInput)
    );
    assert_eq!(uncompress(&d), Err(SnappyError::InvalidInput));
    let c = compress(&d).unwrap();
    assert!(validate_compressed_buffer(&c).is_ok());
    assert!(uncompress(&c) == Ok(d));
}

#[test]
fn empty_plaintext_compresses_to_a_block() {
    let block = compress(b"").unwrap();
    assert!(!block.is_empty());
    assert_eq!(uncompress(&block), Ok(Vec::new()));
}

#[test]
fn quick_brown_fox() {
    let text = b"The quick brown fox jumps over the lazy dog";
    assert_eq!(text.len(), 43);
    let block = compress(text).unwrap();
    assert_eq!(validate_compressed_buffer(&block), Ok(()));
    assert_eq!(uncompress(&block), Ok(text.to_vec()));
}

#[test]
fn uncompress_inverts_compress() {
    for plaintext in plaintexts() {
        let block = compress(&plaintext).unwrap();
        assert!(!block.is_empty());
        assert_eq!(uncompress(&block), Ok(plaintext));
    }
}

#[test]
fn what_was_compressed_validates() {
    for plaintext in plaintexts() {
        let block = compress(&plaintext).unwrap();
        assert_eq!(validate_compressed_buffer(&block), Ok(()));
    }
}

#[test]
fn validation_agrees_with_uncompression() {
    for plaintext in plaintexts() {
        if plaintext.len() > 1000 {
            continue;
        }
        let block = compress(&plaintext).unwrap();
        assert!(agree(&block));
        for buffer in damaged(&block) {
            assert!(agree(&buffer));
        }
    }
    assert!(agree(&[0, 0, 0, 0]));
    assert!(agree(&[]));
}

#[test]
fn damaged_blocks_uncompress_whole_or_fail() {
    let plaintext = b"abcabcabcabcabcabcabcabcabcabcabcabcabcabcabcabcabcabc".to_vec();
    let block = compress(&plaintext).unwrap();
    let mut failures = 0;
    for buffer in damaged(&block) {
        match uncompress(&buffer) {
            Ok(bytes) => {
                let (status, length) = engine_uncompressed_length(&buffer);
                assert_eq!(status, SnappyStatus::Success);
                assert_eq!(bytes.len(), length);
                assert_eq!(validate_compressed_buffer(&buffer), Ok(()));
            }
            Err(error) => {
                assert_eq!(error, SnappyError::InvalidInput);
                assert_eq!(
                    validate_compressed_buffer(&buffer),
                    Err(SnappyError::InvalidInput)
                );
                failures += 1;
            }
        }
    }
    assert!(failures > 0);
}

#[test]
fn truncated_block_is_invalid() {
    let block = compress(b"The quick brown fox jumps over the lazy dog").unwrap();
    let cut = &block[..block.len() - 1];
    assert_eq!(
        validate_compressed_buffer(cut),
        Err(SnappyError::InvalidInput)
    );
    assert_eq!(uncompress(cut), Err(SnappyError::InvalidInput));
}

#[test]
fn block_is_as_long_as_the_engine_reported() {
    let plaintext = vec![b'a'; 1000];
    let bound = engine_max_compressed_length(plaintext.len());
    let mut destination = compress_destination(bound);
    let (status, length) = engine_compress(&plaintext, &mut destination);
    assert_eq!(status, SnappyStatus::Success);
    assert!(length < bound);
    let written = destination[..length].to_vec();
    let block = snappy::compress(status, destination, length).unwrap();
    assert_eq!(block, written);
}

#[test]
fn destination_smaller_than_the_bound_is_reported() {
    let plaintext = b"The quick brown fox jumps over the lazy dog";
    let mut destination = compress_destination(4);
    let (status, length) = engine_compress(plaintext, &mut destination);
    assert_eq!(status, SnappyStatus::BufferTooSmall);
    assert_eq!(
        snappy::compress(status, destination, length),
        Err(SnappyError::BufferTooSmall)
    );
}

#[test]
fn uncompress_into_a_short_destination_is_reported() {
    let block = compress(b"The quick brown fox jumps over the lazy dog").unwrap();
    let mut destination = uncompress_destination(SnappyStatus::Success, 10).unwrap();
    let (status, length) = engine_uncompress(&block, &mut destination);
    assert_eq!(status, SnappyStatus::BufferTooSmall);
    assert_eq!(
        snappy::uncompress(status, destination, length),
        Err(SnappyError::BufferTooSmall)
    );
}
