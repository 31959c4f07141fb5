use live_caption::samples::{bytes_to_samples, samples_to_bytes};

#[test]
fn samples_become_little_endian_bytes() {
    let s: Vec<i16> = vec![0x0102, -1, 0, i16::MIN, i16::MAX];
    let b = samples_to_bytes(&s);
    assert_eq!(b, vec![0x02, 0x01, 0xff, 0xff, 0, 0, 0x00, 0x80, 0xff, 0x7f]);
}

#[test]
fn sample_bytes_round_trip() {
    let s: Vec<i16> = vec![1, -2, 300, -30000, 32767, -32768, 0, 12345];
    let b = samples_to_bytes(&s);
    assert_eq!(b.len(), 2 * s.len());
    assert_eq!(bytes_to_samples(&b), s);
    for (i, x) in s.iter().enumerate() {
        assert_eq!(&b[2 * i..2 * i + 2], &x.to_le_bytes());
    }
}

#[test]
fn empty_buffer_round_trip() {
    let s: Vec<i16> = Vec::new();
    assert!(samples_to_bytes(&s).is_empty());
    assert!(bytes_to_samples(&[]).is_empty());
}

#[test]
fn odd_trailing_byte_is_ignored() {
    assert_eq!(bytes_to_samples(&[0x34, 0x12, 0x99]), vec![0x1234]);
}
