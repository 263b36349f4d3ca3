use sentry::upload::{
    ack_byte, check_ack, frame_block, num_blocks, pad_image, split_blocks, verify_block,
    SendError, UPLOAD_ACK, UPLOAD_BLOCK_LEN, UPLOAD_NACK,
};

#[test]
fn framed_block_carries_the_mpeg2_checksum() {
    // The catalog's check value: the CRC-32/MPEG-2 of "123456789" is
    // 0x0376e6e7.
    let chunk = b"123456789".to_vec();
    let framed = frame_block(&chunk);
    assert_eq!(framed.len(), chunk.len() + 4);
    assert_eq!(&framed[..9], &chunk[..]);
    assert_eq!(&framed[9..], &[0x03, 0x76, 0xe6, 0xe7]);
}

#[test]
fn receiver_accepts_matching_checksum() {
    let chunk = b"123456789".to_vec();
    assert!(verify_block(&chunk, 0x0376e6e7));
    assert!(!verify_block(&chunk, 0x0376e6e6));

    let mut corrupted = chunk.clone();
    corrupted[0] ^= 1;
    assert!(!verify_block(&corrupted, 0x0376e6e7));
}

#[test]
fn acknowledgement_bytes() {
    assert_eq!(ack_byte(true), UPLOAD_ACK);
    assert_eq!(ack_byte(false), UPLOAD_NACK);
    assert_eq!(check_ack(UPLOAD_ACK), Ok(()));
    assert_eq!(check_ack(UPLOAD_NACK), Err(SendError::InvalidAck(UPLOAD_NACK)));
    assert_eq!(check_ack(0), Err(SendError::InvalidAck(0)));
}

#[test]
fn image_is_padded_to_word_size() {
    let mut image = vec![1u8, 2, 3];
    pad_image(&mut image);
    assert_eq!(image, vec![1, 2, 3, 0]);

    let mut aligned = vec![1u8, 2, 3, 4];
    pad_image(&mut aligned);
    assert_eq!(aligned, vec![1, 2, 3, 4]);

    let mut empty: Vec<u8> = Vec::new();
    pad_image(&mut empty);
    assert!(empty.is_empty());
}

#[test]
fn blocks_cover_the_image_exactly() {
    let image: Vec<u8> = (0..10000u32).map(|i| (i % 256) as u8).collect();
    let blocks = split_blocks(&image, UPLOAD_BLOCK_LEN);
    assert_eq!(blocks.len(), 3);
    assert_eq!(blocks[0].len(), 4096);
    assert_eq!(blocks[1].len(), 4096);
    assert_eq!(blocks[2].len(), 10000 - 2 * 4096);

    let mut joined: Vec<u8> = Vec::new();
    for b in &blocks {
        joined.extend_from_slice(b);
    }
    assert_eq!(joined, image);

    assert_eq!(num_blocks(0, UPLOAD_BLOCK_LEN), 0);
    assert_eq!(num_blocks(4096, UPLOAD_BLOCK_LEN), 1);
    assert_eq!(num_blocks(4097, UPLOAD_BLOCK_LEN), 2);
}

#[test]
fn transfer_round_trip() {
    // Sender frames each block; the receiver re-computes the checksum over
    // the data bytes and compares it with the trailing word.
    let mut image: Vec<u8> = (0..9001u32).map(|i| (i % 200) as u8).collect();
    pad_image(&mut image);
    assert_eq!(image.len() % 4, 0);

    for block in split_blocks(&image, UPLOAD_BLOCK_LEN) {
        let framed = frame_block(&block);
        let (data, crc_bytes) = framed.split_at(framed.len() - 4);
        let expected_crc = u32::from_be_bytes([
            crc_bytes[0],
            crc_bytes[1],
            crc_bytes[2],
            crc_bytes[3],
        ]);
        let matched = verify_block(&data.to_vec(), expected_crc);
        assert!(matched);
        assert_eq!(check_ack(ack_byte(matched)), Ok(()));
    }
}
