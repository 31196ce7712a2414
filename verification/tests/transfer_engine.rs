use b2get::transfer::{DownloadError, Transfer};
use sha1::{Digest, Sha1};

fn lower_hex(bytes: &[u8]) -> String {
    base16ct::lower::encode_string(bytes)
}

fn sha1_hex(bytes: &[u8]) -> String {
    let mut hasher = Sha1::new();
    hasher.update(bytes);
    lower_hex(&hasher.finalize())
}

#[test]
fn three_chunk_download_succeeds() {
    let chunk_a = vec![0xabu8; 1000];
    let chunk_b = vec![0x5cu8; 2000];
    let chunk_c = vec![0x11u8; 500];
    let mut body: Vec<u8> = Vec::new();
    body.extend_from_slice(&chunk_a);
    body.extend_from_slice(&chunk_b);
    body.extend_from_slice(&chunk_c);
    let expected = sha1_hex(&body);

    let mut t = Transfer::begin(Some(3500), Some(expected), None).unwrap();
    assert_eq!(t.declared_total(), 3500);
    t.accept_chunk(&chunk_a);
    assert_eq!(t.bytes_received(), 1000);
    t.accept_chunk(&chunk_b);
    assert_eq!(t.bytes_received(), 3000);
    t.accept_chunk(&chunk_c);
    assert_eq!(t.bytes_received(), 3500);
    assert_eq!(t.declared_total(), 3500);
    assert!(t.finish().is_ok());
}

#[test]
fn wrong_checksum_reports_both_hashes() {
    let chunk_a = vec![0xabu8; 1000];
    let chunk_b = vec![0x5cu8; 2000];
    let chunk_c = vec![0x11u8; 500];
    let mut body: Vec<u8> = Vec::new();
    body.extend_from_slice(&chunk_a);
    body.extend_from_slice(&chunk_b);
    body.extend_from_slice(&chunk_c);
    let real = sha1_hex(&body);
    let wrong = String::from("0000000000000000000000000000000000000000");
    assert_ne!(real, wrong);

    let mut t = Transfer::begin(Some(3500), Some(wrong.clone()), None).unwrap();
    t.accept_chunk(&chunk_a);
    t.accept_chunk(&chunk_b);
    t.accept_chunk(&chunk_c);
    assert_eq!(t.bytes_received(), 3500);
    match t.finish() {
        Err(DownloadError::IntegrityMismatch { computed, expected }) => {
            assert_eq!(computed, real);
            assert_eq!(expected, wrong);
        },
        _ => panic!("an integrity mismatch was expected"),
    }
}

#[test]
fn progress_clamped_when_stream_overruns_declared_total() {
    let body = vec![0x42u8; 150];
    let expected = sha1_hex(&body);
    let mut t = Transfer::begin(Some(100), Some(expected), None).unwrap();
    t.accept_chunk(&body[..80]);
    assert_eq!(t.bytes_received(), 80);
    t.accept_chunk(&body[80..]);
    assert_eq!(t.bytes_received(), 100);
    assert!(t.finish().is_ok());
}

#[test]
fn empty_download_matches_empty_digest() {
    let expected = String::from("da39a3ee5e6b4b0d3255bfef95601890afd80709");
    let t = Transfer::begin(Some(0), Some(expected), None).unwrap();
    assert_eq!(t.bytes_received(), 0);
    assert!(t.finish().is_ok());
}

#[test]
fn known_vector_is_verified() {
    let expected = String::from("a9993e364706816aba3e25717850c26c9cd0d89d");
    let mut t = Transfer::begin(Some(3), Some(expected), None).unwrap();
    t.accept_chunk(b"abc");
    assert_eq!(t.bytes_received(), 3);
    assert!(t.finish().is_ok());
}

#[test]
fn known_vector_mismatch_is_refused() {
    let expected = String::from("da39a3ee5e6b4b0d3255bfef95601890afd80709");
    let mut t = Transfer::begin(Some(3), Some(expected), None).unwrap();
    t.accept_chunk(b"abc");
    match t.finish() {
        Err(DownloadError::IntegrityMismatch { computed, expected: _ }) => {
            assert_eq!(computed, "a9993e364706816aba3e25717850c26c9cd0d89d");
        },
        _ => panic!("an integrity mismatch was expected"),
    }
}

#[test]
fn chunking_does_not_change_the_digest() {
    let body: Vec<u8> = (0u16..600).map(|i| (i % 251) as u8).collect();
    let expected = sha1_hex(&body);
    let mut t = Transfer::begin(Some(600), Some(expected), None).unwrap();
    for piece in body.chunks(7) {
        t.accept_chunk(piece);
    }
    assert_eq!(t.bytes_received(), 600);
    assert!(t.finish().is_ok());
}
