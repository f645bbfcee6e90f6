use nabu::wire::{decode_upload, read_u32_le, DecodeError, MAX_METADATA_LEN};

fn frame(meta: &[u8], declared_body_len: u32, body: &[u8]) -> Vec<u8> {
    let mut out = Vec::new();
    out.extend_from_slice(&(meta.len() as u32).to_le_bytes());
    out.extend_from_slice(meta);
    out.extend_from_slice(&declared_body_len.to_le_bytes());
    out.extend_from_slice(body);
    out
}

#[test]
fn empty_body_is_too_short() {
    assert_eq!(decode_upload(&vec![]).err(), Some(DecodeError::TooShort(0)));
}

#[test]
fn three_bytes_are_too_short() {
    assert_eq!(decode_upload(&vec![1, 0, 0]).err(), Some(DecodeError::TooShort(3)));
}

#[test]
fn zero_metadata_length_is_rejected() {
    let body = vec![0, 0, 0, 0, 0, 0, 0, 0];
    assert_eq!(decode_upload(&body).err(), Some(DecodeError::BadMetadataLength(0)));
}

#[test]
fn oversized_metadata_length_is_rejected() {
    let mut body = (MAX_METADATA_LEN + 1).to_le_bytes().to_vec();
    body.extend_from_slice(&[0u8; 16]);
    assert_eq!(
        decode_upload(&body).err(),
        Some(DecodeError::BadMetadataLength(1048577))
    );
}

#[test]
fn metadata_longer_than_body_is_rejected() {
    let body = vec![10, 0, 0, 0, b'{', b'}'];
    assert_eq!(decode_upload(&body).err(), Some(DecodeError::BadMetadataLength(10)));
}

#[test]
fn body_length_mismatch_is_rejected() {
    let body = frame(b"{}", 5, b"abc");
    assert_eq!(
        decode_upload(&body).err(),
        Some(DecodeError::InvalidBodyLength { need: 5, had: 3 })
    );
}

#[test]
fn missing_body_length_is_rejected() {
    let body = vec![2, 0, 0, 0, b'{', b'}', 0];
    assert_eq!(
        decode_upload(&body).err(),
        Some(DecodeError::InvalidBodyLength { need: 4, had: 1 })
    );
}

#[test]
fn well_formed_upload_splits_into_blocks() {
    let body = frame(b"{\"name\":\"x\"}", 3, b"abc");
    let up = decode_upload(&body).unwrap();
    assert_eq!(up.metadata, b"{\"name\":\"x\"}".to_vec());
    assert_eq!(up.content, b"abc".to_vec());
}

#[test]
fn empty_content_is_accepted() {
    let body = frame(b"{}", 0, b"");
    let up = decode_upload(&body).unwrap();
    assert_eq!(up.metadata, b"{}".to_vec());
    assert!(up.content.is_empty());
}

#[test]
fn reads_little_endian() {
    assert_eq!(read_u32_le(&vec![0x78, 0x56, 0x34, 0x12], 0), 0x12345678);
    assert_eq!(read_u32_le(&vec![0, 1, 0, 0, 0], 1), 1);
}
