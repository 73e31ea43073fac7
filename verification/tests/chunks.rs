use apng::chunk::{seal_chunk, write_chunk};

fn crc32_bitwise(data: &[u8]) -> u32 {
    let mut crc: u32 = 0xffff_ffff;
    for byte in data {
        crc ^= *byte as u32;
        for _ in 0..8 {
            if crc & 1 == 1 {
                crc = (crc >> 1) ^ 0xedb8_8320;
            } else {
                crc >>= 1;
            }
        }
    }
    !crc
}

#[test]
fn closing_chunk_bytes() {
    let mut out = Vec::new();
    write_chunk(&mut out, &[], *b"IEND").unwrap();
    assert_eq!(out, vec![0, 0, 0, 0, 73, 69, 78, 68, 174, 66, 96, 130]);
}

#[test]
fn chunk_is_length_tag_payload_checksum() {
    let mut out = vec![9u8, 9];
    write_chunk(&mut out, &[1, 2, 3], *b"abcd").unwrap();
    assert_eq!(
        out,
        vec![9, 9, 0, 0, 0, 3, 97, 98, 99, 100, 1, 2, 3, 0x35, 0xba, 0x02, 0xb8]
    );
}

#[test]
fn checksum_covers_tag_and_payload_only() {
    let payload: Vec<u8> = (0..1000u32).map(|i| (i * 7 % 256) as u8).collect();
    let mut out = Vec::new();
    write_chunk(&mut out, &payload, *b"IDAT").unwrap();
    assert_eq!(out.len(), payload.len() + 12);
    assert_eq!(&out[0..4], &[0, 0, 3, 232]);
    assert_eq!(&out[4..8], b"IDAT");
    assert_eq!(&out[8..1008], &payload[..]);
    let mut covered = b"IDAT".to_vec();
    covered.extend_from_slice(&payload);
    assert_eq!(&out[1008..], &crc32_bitwise(&covered).to_be_bytes());
}

#[test]
fn checksum_depends_on_the_tag() {
    let mut first = Vec::new();
    let mut second = Vec::new();
    write_chunk(&mut first, &[1, 2, 3], *b"IDAT").unwrap();
    write_chunk(&mut second, &[1, 2, 3], *b"fdAT").unwrap();
    assert_ne!(&first[11..], &second[11..]);
}

#[test]
fn sealed_chunk_carries_the_given_checksum() {
    let mut out = vec![7u8];
    seal_chunk(&mut out, &[10, 20], *b"fcTL", 0x0102_0304);
    assert_eq!(out, vec![7, 0, 0, 0, 2, 102, 99, 84, 76, 10, 20, 1, 2, 3, 4]);
}

#[test]
fn sealed_chunk_with_long_payload() {
    let payload = vec![0xabu8; 0x0001_0203];
    let mut out = Vec::new();
    seal_chunk(&mut out, &payload, *b"IDAT", 0xffff_fffe);
    assert_eq!(&out[0..4], &[0, 1, 2, 3]);
    assert_eq!(out.len(), payload.len() + 12);
    assert_eq!(&out[out.len() - 4..], &[255, 255, 255, 254]);
}

#[test]
fn largest_length_field() {
    let mut out = Vec::new();
    seal_chunk(&mut out, &[], *b"IEND", 0xffff_ffff);
    assert_eq!(out, vec![0, 0, 0, 0, 73, 69, 78, 68, 255, 255, 255, 255]);
}
