use krb_mic::{frame_encoded_body, frame_message, serialize_message, Error};

#[test]
fn frame_encoded_body_frames_a_describable_body() {
    let body = vec![0x01, 0x02, 0x03];
    assert_eq!(
        Ok(vec![0x00, 0x00, 0x00, 0x03, 0x01, 0x02, 0x03]),
        frame_encoded_body(&body)
    );
}

#[test]
fn serialize_message_prefixes_the_body_length() {
    let out = serialize_message("AB").unwrap();
    // DER UTF8String: tag 0x0C, length 2, then the two bytes.
    assert_eq!(vec![0x00, 0x00, 0x00, 0x04, 0x0C, 0x02, 0x41, 0x42], out);
    let prefix = u32::from_be_bytes([out[0], out[1], out[2], out[3]]) as usize;
    assert_eq!(out.len() - 4, prefix);
}

#[test]
fn serialize_message_prefix_matches_for_various_inputs() {
    let values = ["", "x", "hello world", "a longer value that spans a few more bytes"];
    for v in values {
        let out = serialize_message(v).unwrap();
        assert!(out.len() >= 4);
        let prefix = u32::from_be_bytes([out[0], out[1], out[2], out[3]]) as usize;
        assert_eq!(out.len() - 4, prefix);
    }
    let out = serialize_message(&7u64).unwrap();
    // DER INTEGER: tag 0x02, length 1, value 7.
    assert_eq!(vec![0x00, 0x00, 0x00, 0x03, 0x02, 0x01, 0x07], out);
}

#[test]
fn serialize_message_rejects_what_the_encoder_rejects() {
    // The DER encoder does not support signed integers.
    assert_eq!(Err(Error::EncodingFailure), serialize_message(&5i32));
}

#[test]
fn frame_message_wraps_an_empty_body() {
    let out = frame_message(&Vec::new());
    assert_eq!(vec![0x00, 0x00, 0x00, 0x00], out);
}

#[test]
fn frame_message_counts_the_body_only() {
    let body = vec![0xDE, 0xAD, 0xBE, 0xEF, 0x99];
    let out = frame_message(&body);
    assert_eq!(vec![0x00, 0x00, 0x00, 0x05, 0xDE, 0xAD, 0xBE, 0xEF, 0x99], out);
}
