use btcturk_websockets::error::CredentialError;
use btcturk_websockets::signing::build_signing_message;
use btcturk_websockets::signing::decode_secret;
use btcturk_websockets::signing::secret_from_attempts;
use btcturk_websockets::signing::sign;
use btcturk_websockets::signing::token_frame;
use btcturk_websockets::signing::token_message_at;
use btcturk_websockets::signing::TOKEN_NONCE;
use btcturk_websockets::ApiKeys;

#[test]
fn secret_is_decoded_from_standard_base64() {
    assert_eq!(decode_secret("c2VjcmV0"), Ok(b"secret".to_vec()));
    assert_eq!(decode_secret("c2VjcmV0LWtleQ=="), Ok(b"secret-key".to_vec()));
    assert_eq!(decode_secret(""), Ok(Vec::new()));
}

#[test]
fn secret_falls_back_to_url_safe_base64() {
    assert_eq!(decode_secret("c2VjcmV0LWtleQ"), Ok(b"secret-key".to_vec()));
    assert_eq!(decode_secret("-_-_"), Ok(vec![0xfb, 0xff, 0xbf]));
}

#[test]
fn secret_in_neither_alphabet_is_refused() {
    assert_eq!(decode_secret("not base64!!"), Err(CredentialError::UndecodableSecret));
    assert_eq!(decode_secret("dummy_private"), Err(CredentialError::UndecodableSecret));
    assert_eq!(decode_secret("+/-_"), Err(CredentialError::UndecodableSecret));
    assert_eq!(decode_secret("a"), Err(CredentialError::UndecodableSecret));
}

#[test]
fn standard_attempt_wins_over_fallback() {
    assert_eq!(secret_from_attempts(Some(vec![1, 2]), Some(vec![3])), Ok(vec![1, 2]));
    assert_eq!(secret_from_attempts(Some(vec![1, 2]), None), Ok(vec![1, 2]));
    assert_eq!(secret_from_attempts(None, Some(vec![3])), Ok(vec![3]));
    assert_eq!(secret_from_attempts(None, None), Err(CredentialError::UndecodableSecret));
}

#[test]
fn signing_message_joins_key_and_timestamp() {
    assert_eq!(build_signing_message("dummy_public", 1700000000000), "dummy_public1700000000000");
    assert_eq!(build_signing_message("", 0), "0");
    assert_eq!(build_signing_message("abc", -5), "abc-5");
}

#[test]
fn signature_is_the_encoded_tag() {
    assert_eq!(
        sign(b"secret", "dummy_public", 1700000000000),
        "KdF6KspOHLFbxmXTQoJcZTvpNYcBZQAVp4/uCnbk5/o="
    );
    assert_eq!(sign(b"secret-key", "abc", -5), "hOaHXfKcsBRE9672Rtjnkt1sZwy6PlhRQKc21P6jEAI=");
    assert_eq!(sign(b"", "", 0), "mXnkw+4Zll+ezG3KazlUsQwYwb+hBcUSzDrli+hdtxw=");
    assert_eq!(sign(&[0xfb, 0xff, 0xbf], "pk", 42), "TwkFqiyuodoxTTP35ccZBCBDv/P1d06DfyPbRqgS08o=");
}

#[test]
fn signing_twice_gives_the_same_signature() {
    let first = sign(b"secret", "dummy_public", 1700000000000);
    let second = sign(b"secret", "dummy_public", 1700000000000);
    assert_eq!(first, second);
}

#[test]
fn signing_at_another_instant_gives_another_signature() {
    let first = sign(b"secret", "dummy_public", 1700000000000);
    let second = sign(b"secret", "dummy_public", 1700000000001);
    assert_eq!(second, "gNNwgpb78HQ8noyno6xlcwzHk1c33FmsYUc1p979OGE=");
    assert_ne!(first, second);
}

#[test]
fn token_frame_has_the_wire_layout() {
    assert_eq!(TOKEN_NONCE, 3000);
    assert_eq!(
        token_frame("pk", 1700000000000, 3000, "c2ln"),
        "[114,{\"type\":114,\"publicKey\":\"pk\",\"timestamp\":\"1700000000000\",\"nonce\":3000,\"signature\":\"c2ln\"}]"
    );
}

#[test]
fn token_message_signs_and_frames() {
    let keys = ApiKeys::new("dummy_public", "c2VjcmV0");
    assert_eq!(
        token_message_at(&keys, 1700000000000),
        Ok(String::from(
            "[114,{\"type\":114,\"publicKey\":\"dummy_public\",\"timestamp\":\"1700000000000\",\"nonce\":3000,\"signature\":\"KdF6KspOHLFbxmXTQoJcZTvpNYcBZQAVp4/uCnbk5/o=\"}]"
        ))
    );
}

#[test]
fn token_message_with_url_safe_key_signs_with_the_fallback() {
    let keys = ApiKeys::new("abc", "c2VjcmV0LWtleQ");
    assert_eq!(
        token_message_at(&keys, -5),
        Ok(String::from(
            "[114,{\"type\":114,\"publicKey\":\"abc\",\"timestamp\":\"-5\",\"nonce\":3000,\"signature\":\"hOaHXfKcsBRE9672Rtjnkt1sZwy6PlhRQKc21P6jEAI=\"}]"
        ))
    );
}

#[test]
fn token_message_with_undecodable_key_is_refused() {
    let keys = ApiKeys::new("dummy_public", "dummy_private");
    assert_eq!(token_message_at(&keys, 1700000000000), Err(CredentialError::UndecodableSecret));
    assert_eq!(
        CredentialError::UndecodableSecret.message(),
        "Failed to decode API secret as Base64"
    );
}
