use krb_mic::{
    encoded_mech_list, generate_initiator_raw, validate_mic_token, AesStrength, EncryptionParams,
    Error, MicToken, INITIATOR_SIGN, MIC_TOKEN_INITIATOR_FLAGS,
};

fn params_with(
    session_key: Option<Vec<u8>>,
    sub_session_key: Option<Vec<u8>>,
    aes_strength: Option<AesStrength>,
) -> EncryptionParams {
    EncryptionParams { session_key, sub_session_key, aes_strength }
}

#[test]
fn generate_and_validate_round_trip() {
    let key = vec![7u8; 32];
    let mech = encoded_mech_list();
    let token = generate_initiator_raw(mech, 42, &key).unwrap();
    // 16 header bytes plus the 12-byte checksum: never partial, never empty.
    assert_eq!(28, token.len());
    let params = params_with(Some(key), None, Some(AesStrength::Aes256));
    assert_eq!(Ok(()), validate_mic_token(&token, INITIATOR_SIGN, &params));
}

#[test]
fn validate_defaults_to_aes256_strength() {
    let key = vec![3u8; 32];
    let mech = encoded_mech_list();
    let token = generate_initiator_raw(mech, 1, &key).unwrap();
    let params = params_with(Some(key), None, None);
    assert_eq!(Ok(()), validate_mic_token(&token, INITIATOR_SIGN, &params));
}

#[test]
fn tampered_checksum_is_rejected() {
    let key = vec![9u8; 32];
    let mech = encoded_mech_list();
    let token = generate_initiator_raw(mech, 7, &key).unwrap();
    let params = params_with(Some(key), None, Some(AesStrength::Aes256));
    // Flip one bit at a time across the whole checksum field.
    for i in 16..token.len() {
        for bit in 0..8 {
            let mut tampered = token.clone();
            tampered[i] ^= 1u8 << bit;
            assert_eq!(
                Err(Error::MessageAltered),
                validate_mic_token(&tampered, INITIATOR_SIGN, &params)
            );
        }
    }
}

#[test]
fn sub_session_key_supersedes_session_key() {
    let stale_key = vec![1u8; 32];
    let sub_key = vec![2u8; 32];
    let mech = encoded_mech_list();
    let token = generate_initiator_raw(mech, 11, &sub_key).unwrap();
    // Both keys offered: the sub-session key must be the one used.
    let both = params_with(Some(stale_key.clone()), Some(sub_key), Some(AesStrength::Aes256));
    assert_eq!(Ok(()), validate_mic_token(&token, INITIATOR_SIGN, &both));
    // Only the stale session key offered: a clean failure, not an error.
    let stale_only = params_with(Some(stale_key), None, Some(AesStrength::Aes256));
    assert_eq!(
        Err(Error::MessageAltered),
        validate_mic_token(&token, INITIATOR_SIGN, &stale_only)
    );
}

#[test]
fn missing_keys_fail_with_decrypt_failure() {
    let key = vec![5u8; 32];
    let mech = encoded_mech_list();
    let token = generate_initiator_raw(mech, 3, &key).unwrap();
    let params = params_with(None, None, Some(AesStrength::Aes256));
    assert_eq!(
        Err(Error::DecryptFailure),
        validate_mic_token(&token, INITIATOR_SIGN, &params)
    );
}

#[test]
fn wrong_key_length_fails_validation() {
    let key = vec![5u8; 32];
    let mech = encoded_mech_list();
    let token = generate_initiator_raw(mech, 3, &key).unwrap();
    // A 16-byte key cannot drive the Aes256 variant.
    let params = params_with(Some(vec![5u8; 16]), None, Some(AesStrength::Aes256));
    assert_eq!(
        Err(Error::DecryptFailure),
        validate_mic_token(&token, INITIATOR_SIGN, &params)
    );
}

#[test]
fn generation_requires_a_32_byte_key() {
    let mech = encoded_mech_list();
    assert_eq!(
        Err(Error::EncodingFailure),
        generate_initiator_raw(mech, 0, &[0u8; 16])
    );
}

#[test]
fn malformed_tokens_fail_to_decode() {
    let params = params_with(Some(vec![0u8; 32]), None, None);
    // Too short.
    assert_eq!(
        Err(Error::TokenDecodeFailure),
        validate_mic_token(&[0u8; 8], INITIATOR_SIGN, &params)
    );
    // Wrong tag bytes.
    let mut bad_tag = vec![0u8; 30];
    bad_tag[0] = 0x05;
    assert_eq!(
        Err(Error::TokenDecodeFailure),
        validate_mic_token(&bad_tag, INITIATOR_SIGN, &params)
    );
    // Wrong filler bytes.
    let key = vec![0u8; 32];
    let mech = encoded_mech_list();
    let mut bad_filler = generate_initiator_raw(mech, 9, &key).unwrap();
    bad_filler[5] = 0x00;
    assert_eq!(
        Err(Error::TokenDecodeFailure),
        validate_mic_token(&bad_filler, INITIATOR_SIGN, &params)
    );
}

#[test]
fn mic_token_codec_round_trip() {
    let mut token = MicToken::with_initiator_flags().with_seq_number(0x0102030405060708);
    token.set_checksum(vec![0xAA, 0xBB, 0xCC]);
    let raw = token.encode();
    assert_eq!(
        vec![
            0x04, 0x04, MIC_TOKEN_INITIATOR_FLAGS, 0xFF, 0xFF, 0xFF, 0xFF, 0xFF, 0x01, 0x02,
            0x03, 0x04, 0x05, 0x06, 0x07, 0x08, 0xAA, 0xBB, 0xCC,
        ],
        raw
    );
    let decoded = MicToken::decode(&raw).unwrap();
    assert_eq!(MIC_TOKEN_INITIATOR_FLAGS, decoded.flags);
    assert_eq!(0x0102030405060708, decoded.seq_num);
    assert_eq!(vec![0xAA, 0xBB, 0xCC], decoded.checksum);
}

#[test]
fn mech_list_is_the_expected_der() {
    // SEQUENCE of the MS KRB5 OID (1.2.840.48018.1.2.2) and the KRB5 OID
    // (1.2.840.113554.1.2.2).
    let expected: Vec<u8> = vec![
        0x30, 0x16, 0x06, 0x09, 0x2A, 0x86, 0x48, 0x82, 0xF7, 0x12, 0x01, 0x02, 0x02, 0x06,
        0x09, 0x2A, 0x86, 0x48, 0x86, 0xF7, 0x12, 0x01, 0x02, 0x02,
    ];
    assert_eq!(expected, encoded_mech_list());
}
