use crate::error::{WebullError, WebullResult};
use crate::utils::clock::utc_now_millis;
use crate::utils::text::{chain, to_decimal};
use hmac::{Mac, NewMac};
use vstd::prelude::*;
use vstd::string::StringSliceAdditionalSpecFns;

verus! {

/// The standard base64 encoding, with padding, of a sequence of bytes: what
/// `base64::encode` returns.
pub uninterp spec fn base64_text(bytes: Seq<u8>) -> Seq<char>;

/// The bytes that a text stands for in standard base64, if it is well
/// formed: what `base64::decode` returns.
pub uninterp spec fn base64_bytes(text: Seq<char>) -> Option<Seq<u8>>;

/// The HMAC-SHA256 authentication code of a message under a key: what the
/// `hmac` crate computes over `sha2::Sha256`.
pub uninterp spec fn hmac_sha256(key: Seq<u8>, message: Seq<u8>) -> Seq<u8>;

/// The UTF-8 bytes of a text.
pub open spec fn bytes_of(text: Seq<char>) -> Seq<u8> {
    vstd::utf8::encode_utf8(text)
}

/// The text that a sequence of bytes holds, if it is valid UTF-8.
pub open spec fn utf8_text(bytes: Seq<u8>) -> Option<Seq<char>> {
    if vstd::utf8::valid_utf8(bytes) {
        Some(vstd::utf8::decode_utf8(bytes))
    } else {
        None
    }
}

/// Calls `base64::encode`. The result is the standard encoding of the input,
/// and decodes to the input again.
#[verifier::external_body]
pub(crate) fn base64_encode(bytes: &[u8]) -> (text: String)
    ensures
        text@ == base64_text(bytes@),
        base64_bytes(text@) == Some(bytes@),
{
    base64::encode(bytes)
}

/// Calls `base64::decode`. The result is the decoding of the text, or the
/// description of the error where the text is not well formed.
#[verifier::external_body]
pub(crate) fn base64_decode(text: &str) -> (r: Result<Vec<u8>, String>)
    ensures
        match r {
            Ok(bytes) => base64_bytes(text@) == Some(bytes@),
            Err(_) => base64_bytes(text@) is None,
        },
{
    match base64::decode(text) {
        Ok(bytes) => Ok(bytes),
        Err(e) => Err(e.to_string()),
    }
}

/// Computes HMAC-SHA256 with `Hmac::<Sha256>`: `new_from_slice` with the key's
/// bytes, `update` with the message's bytes, `finalize`. `new_from_slice`
/// accepts a key of any length, so the result is always the code.
#[verifier::external_body]
pub(crate) fn hmac_sha256_of(key: &str, message: &str) -> (r: Result<Vec<u8>, String>)
    ensures
        match r {
            Ok(code) => code@ == hmac_sha256(key.spec_bytes(), message.spec_bytes()),
            Err(_) => false,
        },
{
    match hmac::Hmac::<sha2::Sha256>::new_from_slice(key.as_bytes()) {
        Ok(mut mac) => {
            mac.update(message.as_bytes());
            Ok(mac.finalize().into_bytes().to_vec())
        },
        Err(e) => Err(e.to_string()),
    }
}

/// Calls `String::from_utf8`, which gives the text that the bytes hold, or
/// an error where they are not valid UTF-8; of the error its description is
/// kept.
#[verifier::external_body]
pub(crate) fn text_from_utf8(bytes: Vec<u8>) -> (r: Result<String, String>)
    ensures
        match r {
            Ok(text) => utf8_text(bytes@) == Some(text@),
            Err(_) => utf8_text(bytes@) is None,
        },
{
    match String::from_utf8(bytes) {
        Ok(text) => Ok(text),
        Err(e) => Err(e.to_string()),
    }
}

/// Draws sixteen bytes from `rand::thread_rng`. They depend on chance: only
/// their number is claimed.
#[verifier::external_body]
pub(crate) fn random_bytes() -> (bytes: Vec<u8>)
    ensures
        bytes@.len() == 16,
{
    let bytes: [u8; 16] = rand::Rng::gen(&mut rand::thread_rng());
    bytes.to_vec()
}

/// Generate a random device ID: sixteen random bytes in base64.
pub fn generate_device_id() -> (id: String)
    ensures
        exists|bytes: Seq<u8>| bytes.len() == 16 && id@ == #[trigger] base64_text(bytes),
{
    let bytes = random_bytes();
    base64_encode(bytes.as_slice())
}

/// The signature of a message under a key: the HMAC-SHA256 code of their
/// UTF-8 bytes, in base64.
pub open spec fn signature(key: Seq<char>, message: Seq<char>) -> Seq<char> {
    base64_text(hmac_sha256(vstd::utf8::encode_utf8(key), vstd::utf8::encode_utf8(message)))
}

/// Generate an HMAC-SHA256 signature.
pub fn generate_signature(key: &str, message: &str) -> (r: WebullResult<String>)
    ensures
        r matches Ok(text) && text@ == signature(key@, message@),
{
    match hmac_sha256_of(key, message) {
        Ok(code) => Ok(base64_encode(code.as_slice())),
        Err(e) => Err(WebullError::InvalidRequest(chain("Invalid key: ", e.as_str()))),
    }
}

/// What `decrypt_data` makes of a text: the UTF-8 text behind its base64
/// form, if it has one.
pub open spec fn decrypted(data: Seq<char>) -> Option<Seq<char>> {
    match base64_bytes(data) {
        Some(bytes) => utf8_text(bytes),
        None => None,
    }
}

/// The stand-in for a cipher: the text's UTF-8 bytes in base64. `open_text`
/// gives the text back.
pub fn seal_text(text: &str) -> (sealed: String)
    ensures
        sealed@ == base64_text(bytes_of(text@)),
        decrypted(sealed@) == Some(text@),
{
    proof {
        vstd::utf8::encode_utf8_valid_utf8(text@);
        vstd::utf8::encode_utf8_decode_utf8(text@);
    }
    base64_encode(text.as_bytes())
}

/// The inverse of `seal_text`. What is not base64, or does not hold UTF-8,
/// is an invalid request.
pub fn open_text(sealed: &str) -> (r: WebullResult<String>)
    ensures
        match r {
            Ok(text) => decrypted(sealed@) == Some(text@),
            Err(e) => decrypted(sealed@) is None && e is InvalidRequest,
        },
{
    match base64_decode(sealed) {
        Err(e) => Err(WebullError::InvalidRequest(chain("Invalid data: ", e.as_str()))),
        Ok(bytes) => match text_from_utf8(bytes) {
            Err(e) => Err(WebullError::InvalidRequest(chain("Invalid UTF-8: ", e.as_str()))),
            Ok(text) => Ok(text),
        },
    }
}

/// Encrypt a password. The scheme is a stand-in that keeps nothing secret:
/// the password's bytes in base64, whatever the key. `decrypt_data` gives the
/// password back.
pub fn encrypt_password(password: &str, _key: &str) -> (r: WebullResult<String>)
    ensures
        r matches Ok(text) && text@ == base64_text(bytes_of(password@)) && decrypted(text@) == Some(
            password@,
        ),
{
    Ok(seal_text(password))
}

/// Decrypt data: the inverse of the stand-in scheme of `encrypt_password`.
/// Data that is not base64, or does not hold UTF-8, is an invalid request.
pub fn decrypt_data(data: &str, _key: &str) -> (r: WebullResult<String>)
    ensures
        match r {
            Ok(text) => decrypted(data@) == Some(text@),
            Err(e) => decrypted(data@) is None && e is InvalidRequest,
        },
{
    open_text(data)
}

/// The timestamp of a request made at `millis` milliseconds after the Unix
/// epoch: the number in decimal.
pub fn timestamp_of(millis: u128) -> (text: String)
    ensures
        text@ == crate::utils::text::decimal(millis as nat),
{
    to_decimal(millis)
}

/// Generate a timestamp for API requests: the milliseconds since the Unix
/// epoch, by the system clock, in decimal. A clock that stands before the
/// epoch gives the timestamp of the epoch.
pub fn generate_timestamp() -> (text: String)
    ensures
        exists|millis: u128| text@ == #[trigger] crate::utils::text::decimal(millis as nat),
{
    let now = utc_now_millis();
    let millis: u128 = if now < 0 {
        0
    } else {
        now as u128
    };
    timestamp_of(millis)
}

} // verus!
