use avscan::digest::{digest_all, digest_chunks, DigestAccumulator, Digests, MAX_INPUT_LEN};
use avscan::ingest::FieldIngest;

const EMPTY_MD5: &str = "d41d8cd98f00b204e9800998ecf8427e";
const EMPTY_SHA256: &str = "e3b0c44298fc1c149afbf4c8996fb92427ae41e4649b934ca495991b7852b855";

#[test]
fn empty_input_has_the_standard_digests() {
    let digests = DigestAccumulator::new().finalize();
    assert_eq!(digests.crc32, 0);
    assert_eq!(digests.crc32_hex(), "00000000");
    assert_eq!(digests.md5_hex(), EMPTY_MD5);
    assert_eq!(digests.sha256_hex(), EMPTY_SHA256);
}

#[test]
fn empty_field_has_the_standard_digests() {
    let (name, artifact) = FieldIngest::begin(Some("empty".to_string())).finish();
    assert_eq!(name, Some("empty".to_string()));
    assert_eq!(artifact.size, 0);
    assert_eq!(artifact.crc32, "00000000");
    assert_eq!(artifact.md5, EMPTY_MD5);
    assert_eq!(artifact.sha256, EMPTY_SHA256);
}

#[test]
fn empty_chunks_change_nothing() {
    let mut acc = DigestAccumulator::new();
    acc.update(b"");
    acc.update(b"");
    assert_eq!(acc.len(), 0);
    let digests = acc.finalize();
    assert_eq!(digests.md5_hex(), EMPTY_MD5);
    assert_eq!(digests.sha256_hex(), EMPTY_SHA256);
}

#[test]
fn digests_of_abc() {
    let digests = digest_all(b"abc");
    assert_eq!(digests.crc32, 0x3524_41c2);
    assert_eq!(digests.crc32_hex(), "352441c2");
    assert_eq!(digests.md5_hex(), "900150983cd24fb0d6963f7d28e17f72");
    assert_eq!(
        digests.sha256_hex(),
        "ba7816bf8f01cfea414140de5dae2223b00361a396177a9cb410ff61f20015ad"
    );
}

#[test]
fn digests_of_hello_world() {
    let digests = digest_all(b"hello world");
    assert_eq!(digests.crc32_hex(), "0d4a1185");
    assert_eq!(digests.md5_hex(), "5eb63bbbe01eeed093cb22bb8f5acdc3");
    assert_eq!(
        digests.sha256_hex(),
        "b94d27b9934d3e08a52e52d7da7dabfac484efe37a5380ee9088f7ace2efcde9"
    );
}

#[test]
fn one_pass_and_chunked_agree() {
    let whole = digest_all(b"hello world");
    let mut acc = DigestAccumulator::new();
    acc.update(b"hel");
    acc.update(b"lo w");
    acc.update(b"");
    acc.update(b"orld");
    assert_eq!(acc.len(), 11);
    assert_eq!(acc.finalize(), whole);
}

#[test]
fn every_cut_point_gives_the_same_digests() {
    let data: Vec<u8> = (0..200u32).map(|i| (i * 7 + 3) as u8).collect();
    let whole = digest_all(&data);
    for cut in 0..=data.len() {
        let mut acc = DigestAccumulator::new();
        acc.update(&data[..cut]);
        acc.update(&data[cut..]);
        assert_eq!(acc.finalize(), whole);
    }
}

#[test]
fn byte_by_byte_agrees_with_one_pass() {
    let data: Vec<u8> = (0..150u32).map(|i| (i * 13 + 1) as u8).collect();
    let mut acc = DigestAccumulator::new();
    for b in &data {
        acc.update(&[*b]);
    }
    assert_eq!(acc.finalize(), digest_all(&data));
}

#[test]
fn order_of_chunks_matters() {
    let mut ab = DigestAccumulator::new();
    ab.update(b"a");
    ab.update(b"b");
    let mut ba = DigestAccumulator::new();
    ba.update(b"b");
    ba.update(b"a");
    assert_ne!(ab.finalize(), ba.finalize());
}

#[test]
fn crc32_hex_keeps_leading_zeros() {
    let digests = Digests { crc32: 0x0000_abcd, md5: [0; 16], sha256: [0; 32] };
    assert_eq!(digests.crc32_hex(), "0000abcd");
    let digests = Digests { crc32: 0xdead_beef, md5: [0; 16], sha256: [0; 32] };
    assert_eq!(digests.crc32_hex(), "deadbeef");
}

#[test]
fn hex_is_lowercase_two_digits_per_byte() {
    let mut md5 = [0u8; 16];
    md5[0] = 0x0f;
    md5[1] = 0xf0;
    md5[15] = 0xab;
    let digests = Digests { crc32: 0, md5, sha256: [0xff; 32] };
    assert_eq!(digests.md5_hex(), "0ff000000000000000000000000000ab");
    assert_eq!(digests.sha256_hex(), "ff".repeat(32));
}

#[test]
fn accumulator_counts_and_has_room() {
    let mut acc = DigestAccumulator::new();
    assert!(acc.has_room(0));
    assert!(acc.has_room(usize::MAX.min(MAX_INPUT_LEN as usize)));
    acc.update(b"12345");
    assert_eq!(acc.len(), 5);
    assert!(acc.has_room(10));
    if usize::MAX as u64 >= MAX_INPUT_LEN {
        assert!(acc.has_room((MAX_INPUT_LEN - 5) as usize));
        assert!(!acc.has_room((MAX_INPUT_LEN - 4) as usize));
    }
}

#[test]
fn field_ingest_describes_what_was_stored() {
    let mut field = FieldIngest::begin(None);
    assert_eq!(field.size(), 0);
    assert!(field.has_room(3));
    field.accept(b"a");
    field.accept(b"bc");
    assert_eq!(field.size(), 3);
    let (name, artifact) = field.finish();
    assert_eq!(name, None);
    assert_eq!(artifact.size, 3);
    assert_eq!(artifact.crc32, "352441c2");
    assert_eq!(artifact.md5, "900150983cd24fb0d6963f7d28e17f72");
    assert_eq!(
        artifact.sha256,
        "ba7816bf8f01cfea414140de5dae2223b00361a396177a9cb410ff61f20015ad"
    );
}

#[test]
fn digest_chunks_agrees_with_one_pass() {
    let whole = digest_all(b"hello world");
    assert_eq!(digest_chunks(&vec![b"hello world".to_vec()]), whole);
    assert_eq!(digest_chunks(&vec![b"hello".to_vec(), b" ".to_vec(), b"world".to_vec()]), whole);
    assert_eq!(
        digest_chunks(&vec![Vec::new(), b"hello wor".to_vec(), Vec::new(), b"ld".to_vec()]),
        whole
    );
}

#[test]
fn digest_chunks_of_nothing_is_the_digest_of_empty_input() {
    let empty = digest_all(b"");
    assert_eq!(digest_chunks(&Vec::new()), empty);
    assert_eq!(digest_chunks(&vec![Vec::new(), Vec::new()]), empty);
    assert_eq!(empty.md5_hex(), EMPTY_MD5);
    assert_eq!(empty.sha256_hex(), EMPTY_SHA256);
    assert_eq!(empty.crc32_hex(), "00000000");
}
