use onchain_encrypted_images::state::{ImageUpload, RECORD_HEADER_BYTES};

const TAG: [u8; 8] = [1, 2, 3, 4, 5, 6, 7, 8];

fn record_with(image_id: Vec<u8>, content_type: Vec<u8>) -> ImageUpload {
    ImageUpload {
        authority: [0xAA; 32],
        image_id,
        total_chunks: 3,
        chunks_uploaded: 1,
        finalized: false,
        content_type,
        created_at: 1000,
        bump: 5,
    }
}

#[test]
fn space_counts_the_fixed_header_and_both_strings() {
    assert_eq!(RECORD_HEADER_BYTES, 66);
    assert_eq!(ImageUpload::space(0, 0), 66);
    assert_eq!(ImageUpload::space(9, 9), 84);
    assert_eq!(ImageUpload::space(64, 32), 162);
}

#[test]
fn space_equals_serialized_length() {
    let lengths: Vec<(usize, usize)> = vec![(0, 0), (1, 0), (0, 1), (9, 9), (64, 32)];
    for (id_len, ct_len) in lengths {
        let record = record_with(vec![b'i'; id_len], vec![b'c'; ct_len]);
        let bytes = record.to_bytes(&TAG);
        assert_eq!(bytes.len(), ImageUpload::space(id_len, ct_len));
    }
}

#[test]
fn serialized_layout_is_exact() {
    let record = record_with(vec![1, 2], vec![9, 8, 7]);
    let bytes = record.to_bytes(&TAG);

    let mut expected: Vec<u8> = Vec::new();
    expected.extend_from_slice(&TAG); // structural tag
    expected.extend_from_slice(&[0xAA; 32]); // authority
    expected.extend_from_slice(&[2, 0, 0, 0]); // image_id length
    expected.extend_from_slice(&[1, 2]); // image_id
    expected.extend_from_slice(&[3, 0, 0, 0]); // total_chunks
    expected.extend_from_slice(&[1, 0, 0, 0]); // chunks_uploaded
    expected.push(0); // finalized
    expected.extend_from_slice(&[3, 0, 0, 0]); // content_type length
    expected.extend_from_slice(&[9, 8, 7]); // content_type
    expected.extend_from_slice(&[0xE8, 0x03, 0, 0, 0, 0, 0, 0]); // created_at = 1000
    expected.push(5); // bump

    assert_eq!(bytes, expected);
}

#[test]
fn serialized_flag_byte_tracks_finalized() {
    let mut record = record_with(Vec::new(), Vec::new());
    let flag_position: usize = 8 + 32 + 4 + 4 + 4;
    assert_eq!(record.to_bytes(&TAG)[flag_position], 0);
    record.finalized = true;
    assert_eq!(record.to_bytes(&TAG)[flag_position], 1);
}

#[test]
fn serialized_timestamp_is_two_complement_little_endian() {
    let mut record = record_with(Vec::new(), Vec::new());
    let created_at_position: usize = RECORD_HEADER_BYTES - 9;

    record.created_at = -1;
    let bytes = record.to_bytes(&TAG);
    assert_eq!(&bytes[created_at_position..created_at_position + 8], &[0xFF; 8]);

    record.created_at = -2;
    let bytes = record.to_bytes(&TAG);
    assert_eq!(
        &bytes[created_at_position..created_at_position + 8],
        &[0xFE, 0xFF, 0xFF, 0xFF, 0xFF, 0xFF, 0xFF, 0xFF]
    );

    record.created_at = i64::MIN;
    let bytes = record.to_bytes(&TAG);
    assert_eq!(
        &bytes[created_at_position..created_at_position + 8],
        &[0, 0, 0, 0, 0, 0, 0, 0x80]
    );

    record.created_at = i64::MAX;
    let bytes = record.to_bytes(&TAG);
    assert_eq!(
        &bytes[created_at_position..created_at_position + 8],
        &[0xFF, 0xFF, 0xFF, 0xFF, 0xFF, 0xFF, 0xFF, 0x7F]
    );
}
