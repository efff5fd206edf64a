//! The signed authentication token.
//!
//! A token proves possession of the private key at a given instant. Its
//! signature is the HMAC-SHA256 tag, keyed with the decoded private key, of
//! the public key followed by the timestamp in decimal notation; the tag
//! travels base64-encoded inside the authentication frame.

use base64::engine::general_purpose::STANDARD;
use base64::engine::general_purpose::URL_SAFE_NO_PAD;
use base64::Engine;
use hmac::Hmac;
use hmac::Mac;
use sha2::Sha256;
use vstd::prelude::*;
use vstd::string::StringExecFns;
use vstd::utf8::encode_utf8;

use crate::api_keys::ApiKeys;
use crate::decimal::decimal_string;
use crate::decimal::decimal_string_u64;
use crate::decimal::decimal_text;
use crate::decimal::digits;
use crate::decimal::is_digit;
use crate::decimal::lemma_decimal_text_injective;
use crate::decimal::lemma_digits_round_trip;
use crate::error::CredentialError;

verus! {

/// The nonce that every authentication frame carries.
pub const TOKEN_NONCE: u32 = 3000;

/// The bytes that `text` encodes in base64 with the standard alphabet and
/// padding, or `None` where `text` is no such encoding.
pub uninterp spec fn base64_standard_decoding(text: Seq<char>) -> Option<Seq<u8>>;

/// The bytes that `text` encodes in base64 with the URL-safe alphabet and no
/// padding, or `None` where `text` is no such encoding.
pub uninterp spec fn base64_url_decoding(text: Seq<char>) -> Option<Seq<u8>>;

/// The base64 encoding of `bytes` with the standard alphabet and padding.
pub uninterp spec fn base64_standard_encoding(bytes: Seq<u8>) -> Seq<char>;

/// The HMAC-SHA256 tag of `message` under `key`.
pub uninterp spec fn hmac_sha256(key: Seq<u8>, message: Seq<u8>) -> Seq<u8>;

/// Calls `Engine::decode` of the `base64` crate on its `STANDARD` engine.
///
/// Trusted: the result is the decoding that [`base64_standard_decoding`]
/// names, and it is `None` exactly when the crate reports a decode error.
#[verifier::external_body]
fn decode_base64_standard(text: &str) -> (bytes: Option<Vec<u8>>)
    ensures
        match bytes {
            Some(b) => base64_standard_decoding(text@) == Some(b@),
            None => base64_standard_decoding(text@) is None,
        },
{
    STANDARD.decode(text).ok()
}

/// Calls `Engine::decode` of the `base64` crate on its `URL_SAFE_NO_PAD`
/// engine.
///
/// Trusted: the result is the decoding that [`base64_url_decoding`] names,
/// and it is `None` exactly when the crate reports a decode error.
#[verifier::external_body]
fn decode_base64_url(text: &str) -> (bytes: Option<Vec<u8>>)
    ensures
        match bytes {
            Some(b) => base64_url_decoding(text@) == Some(b@),
            None => base64_url_decoding(text@) is None,
        },
{
    URL_SAFE_NO_PAD.decode(text).ok()
}

/// Calls `Engine::encode` of the `base64` crate on its `STANDARD` engine.
///
/// Trusted: the result is the encoding that [`base64_standard_encoding`]
/// names. The crate panics when the encoded length does not fit in `usize`;
/// the precondition keeps such inputs out.
#[verifier::external_body]
fn encode_base64_standard(bytes: &[u8]) -> (text: String)
    requires
        bytes@.len() / 3 * 4 + 4 <= usize::MAX,
    ensures
        text@ == base64_standard_encoding(bytes@),
{
    STANDARD.encode(bytes)
}

/// Computes an HMAC-SHA256 tag with the `hmac` and `sha2` crates:
/// `Hmac::<Sha256>::new_from_slice`, `Mac::update`, `Mac::finalize`.
///
/// Trusted: the tag is the one that [`hmac_sha256`] names and has the 32
/// bytes of a SHA-256 output. The keyed constructor pads a short key and
/// hashes a long one, so it returns no error for a key of any length.
#[verifier::external_body]
fn compute_hmac_sha256(key: &[u8], message: &[u8]) -> (tag: Vec<u8>)
    ensures
        tag@ == hmac_sha256(key@, message@),
        tag@.len() == 32,
{
    let mut mac = Hmac::<Sha256>::new_from_slice(key).expect("HMAC takes a key of any length");
    mac.update(message);
    mac.finalize().into_bytes().to_vec()
}

/// The secret that a private key stands for: its standard base64 decoding
/// or, where it has none, its URL-safe unpadded decoding.
pub open spec fn secret_bytes(private_key: Seq<char>) -> Option<Seq<u8>> {
    match base64_standard_decoding(private_key) {
        Some(bytes) => Some(bytes),
        None => base64_url_decoding(private_key),
    }
}

/// The secret chosen from the two decoding attempts: the standard one where
/// it succeeded, else the URL-safe one.
pub open spec fn chosen_secret(standard: Option<Seq<u8>>, url_safe: Option<Seq<u8>>) -> Option<
    Seq<u8>,
> {
    match standard {
        Some(bytes) => Some(bytes),
        None => url_safe,
    }
}

/// The text that is signed: the public key, then the timestamp in decimal
/// notation, with nothing in between.
pub open spec fn signing_message(public_key: Seq<char>, timestamp: int) -> Seq<char> {
    public_key + decimal_text(timestamp)
}

/// The signature of a token: the base64 encoding of the HMAC-SHA256 tag of
/// the signing message under the secret.
pub open spec fn signature_text(secret: Seq<u8>, public_key: Seq<char>, timestamp: int) -> Seq<
    char,
> {
    base64_standard_encoding(
        hmac_sha256(secret, encode_utf8(signing_message(public_key, timestamp))),
    )
}

/// The authentication frame, opcode 114, as it goes over the wire: the
/// public key, the timestamp and the signature are JSON strings, the nonce a
/// JSON integer. The timestamp is the decimal text that was signed.
pub open spec fn token_frame_text(
    public_key: Seq<char>,
    timestamp: int,
    nonce: int,
    signature: Seq<char>,
) -> Seq<char> {
    "[114,{\"type\":114,\"publicKey\":\""@ + public_key + "\",\"timestamp\":\""@
        + decimal_text(timestamp) + "\",\"nonce\":"@ + decimal_text(nonce)
        + ",\"signature\":\""@ + signature + "\"}]"@
}

/// The authentication frame for a credential pair at a given instant, or
/// `None` where the private key decodes to no secret.
pub open spec fn token_message_text(
    public_key: Seq<char>,
    private_key: Seq<char>,
    timestamp: int,
) -> Option<Seq<char>> {
    match secret_bytes(private_key) {
        Some(secret) => Some(
            token_frame_text(
                public_key,
                timestamp,
                TOKEN_NONCE as int,
                signature_text(secret, public_key, timestamp),
            ),
        ),
        None => None,
    }
}

/// Chooses the secret from the outcomes of the two decoding attempts.
///
/// The standard decoding wins where it exists; the URL-safe decoding is the
/// fallback; with neither the key is refused.
pub fn secret_from_attempts(standard: Option<Vec<u8>>, url_safe: Option<Vec<u8>>) -> (secret:
    Result<Vec<u8>, CredentialError>)
    ensures
        match secret {
            Ok(bytes) => chosen_secret(view_bytes(standard), view_bytes(url_safe)) == Some(
                bytes@,
            ),
            Err(e) => e == CredentialError::UndecodableSecret && chosen_secret(
                view_bytes(standard),
                view_bytes(url_safe),
            ) is None,
        },
{
    match standard {
        Some(bytes) => Ok(bytes),
        None => match url_safe {
            Some(bytes) => Ok(bytes),
            None => Err(CredentialError::UndecodableSecret),
        },
    }
}

/// The byte sequence inside an optional byte vector.
pub open spec fn view_bytes(bytes: Option<Vec<u8>>) -> Option<Seq<u8>> {
    match bytes {
        Some(b) => Some(b@),
        None => None,
    }
}

/// Decodes a private key into the secret it stands for.
///
/// Fails exactly when the key is base64 in neither accepted alphabet.
pub fn decode_secret(private_key: &str) -> (secret: Result<Vec<u8>, CredentialError>)
    ensures
        match secret {
            Ok(bytes) => secret_bytes(private_key@) == Some(bytes@),
            Err(e) => e == CredentialError::UndecodableSecret && secret_bytes(private_key@)
                is None,
        },
{
    let standard = decode_base64_standard(private_key);
    let url_safe = decode_base64_url(private_key);
    secret_from_attempts(standard, url_safe)
}

/// Builds the text that is signed for a public key at a given instant.
pub fn build_signing_message(public_key: &str, timestamp: i64) -> (message: String)
    ensures
        message@ == signing_message(public_key@, timestamp as int),
{
    let mut message = String::from_str(public_key);
    let stamp = decimal_string(timestamp);
    message.append(stamp.as_str());
    message
}

/// Signs a public key and a timestamp with a decoded secret.
pub fn sign(secret: &[u8], public_key: &str, timestamp: i64) -> (signature: String)
    ensures
        signature@ == signature_text(secret@, public_key@, timestamp as int),
{
    let message = build_signing_message(public_key, timestamp);
    let tag = compute_hmac_sha256(secret, message.as_str().as_bytes());
    encode_base64_standard(tag.as_slice())
}

/// Lays out the authentication frame around a finished signature.
pub fn token_frame(public_key: &str, timestamp: i64, nonce: u32, signature: &str) -> (frame:
    String)
    ensures
        frame@ == token_frame_text(public_key@, timestamp as int, nonce as int, signature@),
{
    let mut frame = String::from_str("[114,{\"type\":114,\"publicKey\":\"");
    frame.append(public_key);
    frame.append("\",\"timestamp\":\"");
    let stamp = decimal_string(timestamp);
    frame.append(stamp.as_str());
    frame.append("\",\"nonce\":");
    let nonce_text = decimal_string_u64(nonce as u64);
    frame.append(nonce_text.as_str());
    frame.append(",\"signature\":\"");
    frame.append(signature);
    frame.append("\"}]");
    frame
}

/// Produces the authentication frame of a credential pair for the instant
/// `timestamp`, in milliseconds since the Unix epoch.
///
/// Fails exactly when the private key decodes to no secret; otherwise the
/// frame is a function of the keys and the timestamp alone.
pub fn token_message_at(keys: &ApiKeys, timestamp: i64) -> (frame: Result<
    String,
    CredentialError,
>)
    ensures
        match frame {
            Ok(text) => token_message_text(
                keys.public_key@,
                keys.private_key@,
                timestamp as int,
            ) == Some(text@),
            Err(e) => e == CredentialError::UndecodableSecret && secret_bytes(
                keys.private_key@,
            ) is None,
        },
{
    match decode_secret(keys.private_key.as_str()) {
        Ok(secret) => {
            let signature = sign(secret.as_slice(), keys.public_key.as_str(), timestamp);
            Ok(token_frame(keys.public_key.as_str(), timestamp, TOKEN_NONCE, signature.as_str()))
        },
        Err(e) => Err(e),
    }
}

/// Signing the same public key at two different instants signs two
/// different messages.
pub proof fn law_timestamp_changes_signing_message(
    public_key: Seq<char>,
    first: int,
    second: int,
)
    requires
        first != second,
    ensures
        signing_message(public_key, first) != signing_message(public_key, second),
{
    let a = signing_message(public_key, first);
    let b = signing_message(public_key, second);
    if a == b {
        let n = public_key.len() as int;
        assert(a.skip(n) =~= decimal_text(first));
        assert(b.skip(n) =~= decimal_text(second));
        lemma_decimal_text_injective(first, second);
    }
}

/// The decimal notation of an integer is not empty, and after its first
/// character it holds digits only.
proof fn lemma_decimal_text_shape(n: int)
    ensures
        decimal_text(n).len() >= 1,
        forall|i: int| 1 <= i < decimal_text(n).len() ==> is_digit(#[trigger] decimal_text(n)[i]),
{
    if n < 0 {
        let body = digits((-n) as nat);
        lemma_digits_round_trip((-n) as nat);
        assert forall|i: int| 1 <= i < decimal_text(n).len() implies is_digit(
            #[trigger] decimal_text(n)[i],
        ) by {
            assert(decimal_text(n)[i] == body[i - 1]);
        }
    } else {
        lemma_digits_round_trip(n as nat);
    }
}

/// The authentication frames of one public key at two different instants
/// differ, whatever their signatures are.
pub proof fn law_timestamp_changes_token_frame(
    public_key: Seq<char>,
    first: int,
    second: int,
    nonce: int,
    first_signature: Seq<char>,
    second_signature: Seq<char>,
)
    requires
        first != second,
    ensures
        token_frame_text(public_key, first, nonce, first_signature) != token_frame_text(
            public_key,
            second,
            nonce,
            second_signature,
        ),
{
    let head = "[114,{\"type\":114,\"publicKey\":\""@ + public_key + "\",\"timestamp\":\""@;
    let a = token_frame_text(public_key, first, nonce, first_signature);
    let b = token_frame_text(public_key, second, nonce, second_signature);
    let da = decimal_text(first);
    let db = decimal_text(second);
    let ta = "\",\"nonce\":"@ + decimal_text(nonce) + ",\"signature\":\""@ + first_signature
        + "\"}]"@;
    let tb = "\",\"nonce\":"@ + decimal_text(nonce) + ",\"signature\":\""@ + second_signature
        + "\"}]"@;
    reveal_strlit("\",\"nonce\":");
    assert(ta[0] == '"');
    assert(tb[0] == '"');
    assert(!is_digit('"'));
    assert(a =~= head + da + ta);
    assert(b =~= head + db + tb);
    lemma_decimal_text_shape(first);
    lemma_decimal_text_shape(second);
    if a == b {
        let h = head.len() as int;
        if da.len() == db.len() {
            assert(da =~= a.subrange(h, h + da.len()));
            assert(db =~= b.subrange(h, h + db.len()));
            lemma_decimal_text_injective(first, second);
        } else if da.len() < db.len() {
            assert(a[h + da.len()] == ta[0]);
            assert(b[h + da.len()] == db[da.len() as int]);
        } else {
            assert(b[h + db.len()] == tb[0]);
            assert(a[h + db.len()] == da[db.len() as int]);
        }
    }
}

} // verus!
