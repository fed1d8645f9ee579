use partymod::bps::{bps_patch_checked, bps_patch_unchecked, decode_number, BPSError};
use partymod::crc::crc32;

fn encode(mut n: u64, out: &mut Vec<u8>) {
    loop {
        let x = (n & 0x7f) as u8;
        n >>= 7;
        if n == 0 {
            out.push(0x80 | x);
            break;
        }
        out.push(x);
        n -= 1;
    }
}

fn push_u32(v: u32, out: &mut Vec<u8>) {
    out.extend_from_slice(&v.to_le_bytes());
}

/// A patch from `source` to `target` with the given actions; the checksums are correct.
fn make_patch(source: &[u8], target: &[u8], actions: &[u8]) -> Vec<u8> {
    let mut p = b"BPS1".to_vec();
    encode(source.len() as u64, &mut p);
    encode(target.len() as u64, &mut p);
    encode(0, &mut p);
    p.extend_from_slice(actions);
    push_u32(crc32(source), &mut p);
    push_u32(crc32(target), &mut p);
    let c = crc32(&p);
    push_u32(c, &mut p);
    p
}

fn action(mode: u64, len: u64, out: &mut Vec<u8>) {
    encode(((len - 1) << 2) | mode, out);
}

#[test]
fn crc32_of_check_string() {
    assert_eq!(crc32(b"123456789"), 0xCBF43926);
    assert_eq!(crc32(b""), 0);
    assert_eq!(crc32(b"hello"), 0x3610a686);
}

#[test]
fn decode_number_values() {
    assert_eq!(decode_number(&[0x80], 0), (0, 1));
    assert_eq!(decode_number(&[0x85], 0), (5, 1));
    assert_eq!(decode_number(&[0x00, 0x80], 0), (128, 2));
    assert_eq!(decode_number(&[0x01, 0x80], 0), (129, 2));
    assert_eq!(decode_number(&[0xff, 0x00, 0x80], 1), (128, 2));
}

#[test]
fn source_read_copies_input() {
    let source = b"hello";
    let mut actions = Vec::new();
    action(0, 5, &mut actions);
    let patch = make_patch(source, source, &actions);
    assert_eq!(bps_patch_checked(source, &patch).unwrap(), source.to_vec());
    assert_eq!(bps_patch_unchecked(source, &patch).unwrap(), source.to_vec());
}

#[test]
fn target_read_and_copies() {
    let source = b"abcdef";
    let target = b"xyxyxyabcd";
    let mut actions = Vec::new();
    // "xy" from the patch
    action(1, 2, &mut actions);
    actions.extend_from_slice(b"xy");
    // four bytes from the output at offset 0, overlapping what is being written
    action(3, 4, &mut actions);
    encode(0, &mut actions);
    // "abcd" from the source at offset 0
    action(2, 4, &mut actions);
    encode(0, &mut actions);
    let patch = make_patch(source, target, &actions);
    assert_eq!(bps_patch_checked(source, &patch).unwrap(), target.to_vec());
}

#[test]
fn source_copy_with_negative_offset() {
    let source = b"0123456789";
    let target = b"6789345";
    let mut actions = Vec::new();
    action(2, 4, &mut actions);
    encode(6 << 1, &mut actions);
    // the source offset is now 10; back by 7 to 3
    action(2, 3, &mut actions);
    encode((7 << 1) | 1, &mut actions);
    let patch = make_patch(source, target, &actions);
    assert_eq!(bps_patch_checked(source, &patch).unwrap(), target.to_vec());
}

#[test]
fn input_size_error() {
    let source = b"hello";
    let mut actions = Vec::new();
    action(0, 5, &mut actions);
    let patch = make_patch(source, source, &actions);
    assert_eq!(bps_patch_checked(b"hell", &patch), Err(BPSError::InputSize(5, 4)));
    assert_eq!(bps_patch_unchecked(b"hello!", &patch), Err(BPSError::InputSize(5, 6)));
}

#[test]
fn output_size_error() {
    let source = b"hello";
    let mut actions = Vec::new();
    action(0, 4, &mut actions);
    // declares five output bytes, writes four
    let patch = make_patch(source, source, &actions);
    assert_eq!(bps_patch_checked(source, &patch), Err(BPSError::OutputSize(5, 4)));
}

#[test]
fn checksum_errors() {
    let source = b"hello";
    let mut actions = Vec::new();
    action(0, 5, &mut actions);
    let good = make_patch(source, source, &actions);
    let n = good.len();

    let mut bad_input = good.clone();
    bad_input[n - 12] ^= 1;
    let expected = crc32(source) ^ 1;
    assert_eq!(bps_patch_checked(source, &bad_input), Err(BPSError::InputCRC(expected, crc32(source))));
    assert_eq!(bps_patch_unchecked(source, &bad_input).unwrap(), source.to_vec());

    let mut bad_output = good.clone();
    bad_output[n - 8] ^= 1;
    let expected = crc32(source) ^ 1;
    assert_eq!(bps_patch_checked(source, &bad_output), Err(BPSError::OutputCRC(expected, crc32(source))));

    let mut bad_patch = good.clone();
    bad_patch[n - 4] ^= 1;
    let actual = crc32(&good[..n - 4]);
    assert_eq!(bps_patch_checked(source, &bad_patch), Err(BPSError::PatchCRC(actual ^ 1, actual)));
    assert_eq!(bps_patch_unchecked(source, &bad_patch).unwrap(), source.to_vec());
}

#[test]
fn error_messages() {
    assert_eq!(BPSError::InputSize(5, 4).message(), "Bad input size: Expected: 5, Actual: 4");
    assert_eq!(BPSError::OutputSize(10, 0).message(), "Bad input size: Expected: 10, Actual: 0");
    assert_eq!(
        BPSError::InputCRC(3421780262, 1).message(),
        "Bad input checksum: Expected: 3421780262, Actual: 1"
    );
    assert_eq!(BPSError::OutputCRC(0, 99).message(), "Bad output checksum: Expected: 0, Actual: 99");
    assert_eq!(BPSError::PatchCRC(7, 8).message(), "Bad patch checksum: Expected: 7, Actual: 8");
}

#[test]
fn decode_reads_back_encoded_numbers() {
    for &v in &[0u64, 1, 127, 128, 300, 16511, 16512, 1 << 40, (1u64 << 56) - 1] {
        let mut buf = vec![0x11, 0x22];
        let mut enc = Vec::new();
        encode(v, &mut enc);
        buf.extend_from_slice(&enc);
        buf.extend_from_slice(&[0x33, 0x44]);
        assert_eq!(decode_number(&buf, 2), (v, enc.len()));
        assert!(enc.len() <= 8);
    }
    let mut enc = Vec::new();
    encode(300, &mut enc);
    assert_eq!(enc, vec![0x2c, 0x81]);
}

#[test]
fn unchecked_ignores_checksum_bytes() {
    let source = b"hello";
    let mut actions = Vec::new();
    action(0, 5, &mut actions);
    let patch = make_patch(source, source, &actions);
    let mut p2 = patch.clone();
    let n = p2.len();
    for b in &mut p2[n - 12..] {
        *b ^= 0x5a;
    }
    assert_eq!(bps_patch_unchecked(source, &p2), bps_patch_unchecked(source, &patch));
    assert_eq!(bps_patch_unchecked(source, &p2).unwrap(), source.to_vec());
    assert!(matches!(bps_patch_checked(source, &p2), Err(BPSError::InputCRC(_, _))));
    let other = b"hellx";
    assert_eq!(bps_patch_unchecked(other, &p2), bps_patch_unchecked(other, &patch));
}
