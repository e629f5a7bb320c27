use vstd::prelude::*;
use vstd::utf8::{decode_utf8, valid_utf8};
use aes_gcm::aead::generic_array::GenericArray;
use aes_gcm::aead::Aead;
use aes_gcm::{Aes256Gcm, Key, KeyInit};
use base64::engine::general_purpose;
use base64::Engine;

verus! {

/// The largest plaintext, in bytes, that AES-256-GCM accepts.
pub const AES_GCM_MAX_PLAINTEXT: u64 = 68719476736;

/// What URL-safe, unpadded base64 decoding yields for a string, or `None`
/// where the string is not such an encoding.
pub uninterp spec fn url_b64_decode(s: Seq<char>) -> Option<Seq<u8>>;

/// What AES-256-GCM decryption with a 32-byte key and a 12-byte nonce yields
/// for a ciphertext with its tag, or `None` where authentication fails.
pub uninterp spec fn aes256gcm_open(key: Seq<u8>, nonce: Seq<u8>, ct: Seq<u8>) -> Option<Seq<u8>>;

/// The text that lossy UTF-8 decoding gives for a byte string that is not
/// valid UTF-8.
pub uninterp spec fn utf8_lossy(b: Seq<u8>) -> Seq<char>;

/// Lossy UTF-8 decoding: valid UTF-8 is decoded exactly.
pub open spec fn lossy_decode(b: Seq<u8>) -> Seq<char> {
    if valid_utf8(b) {
        decode_utf8(b)
    } else {
        utf8_lossy(b)
    }
}

/// Relies on base64's `URL_SAFE_NO_PAD` engine `decode`: the decoded bytes,
/// or an error where the input is not a valid encoding.
#[verifier::external_body]
pub(crate) fn decode_url_b64(s: &str) -> (r: Option<Vec<u8>>)
    ensures
        match r {
            Some(v) => url_b64_decode(s@) == Some(v@),
            None => url_b64_decode(s@) is None,
        },
{
    general_purpose::URL_SAFE_NO_PAD.decode(s).ok()
}

/// Relies on base64's `URL_SAFE_NO_PAD` engine `encode`: the same engine
/// decodes its output back to the input bytes.
#[verifier::external_body]
pub(crate) fn encode_url_b64(b: &[u8]) -> (r: String)
    ensures
        url_b64_decode(r@) == Some(b@),
{
    general_purpose::URL_SAFE_NO_PAD.encode(b)
}

/// Relies on aes-gcm's `Aes256Gcm::decrypt` (through `aead::Aead`): the
/// plaintext, or an error where the tag does not authenticate. `Key::from_slice`
/// and `GenericArray::from_slice` panic on other lengths, hence the `requires`.
#[verifier::external_body]
pub(crate) fn aes_open(key: &[u8], nonce: &[u8], ct: &[u8]) -> (r: Option<Vec<u8>>)
    requires
        key@.len() == 32,
        nonce@.len() == 12,
    ensures
        match r {
            Some(p) => aes256gcm_open(key@, nonce@, ct@) == Some(p@),
            None => aes256gcm_open(key@, nonce@, ct@) is None,
        },
{
    let cipher = Aes256Gcm::new(Key::<Aes256Gcm>::from_slice(key));
    cipher.decrypt(GenericArray::from_slice(nonce), ct).ok()
}

/// Relies on aes-gcm's `Aes256Gcm::encrypt` (through `aead::Aead`): it fails
/// exactly on a plaintext over `P_MAX` bytes, appends a 16-byte tag, and
/// decryption with the same key and nonce gives the plaintext back.
#[verifier::external_body]
pub(crate) fn aes_seal(key: &[u8], nonce: &[u8], pt: &[u8]) -> (r: Option<Vec<u8>>)
    requires
        key@.len() == 32,
        nonce@.len() == 12,
    ensures
        r is Some <==> pt@.len() <= AES_GCM_MAX_PLAINTEXT,
        r matches Some(c) ==> c@.len() == pt@.len() + 16 && aes256gcm_open(key@, nonce@, c@)
            == Some(pt@),
{
    let cipher = Aes256Gcm::new(Key::<Aes256Gcm>::from_slice(key));
    cipher.encrypt(GenericArray::from_slice(nonce), pt).ok()
}

/// Relies on `String::from_utf8_lossy`: valid UTF-8 is decoded unchanged,
/// invalid sequences are replaced.
#[verifier::external_body]
pub(crate) fn lossy_text(b: &[u8]) -> (r: String)
    ensures
        valid_utf8(b@) ==> r@ == decode_utf8(b@),
        !valid_utf8(b@) ==> r@ == utf8_lossy(b@),
{
    String::from_utf8_lossy(b).into_owned()
}

/// Relies on `uuid::Uuid::new_v4`: a random 128-bit identifier, of which
/// nothing is promised.
#[verifier::external_body]
pub(crate) fn random_id() -> (r: u128) {
    uuid::Uuid::new_v4().as_u128()
}

/// The hyphenated lower-case text form of a 128-bit identifier.
pub uninterp spec fn uuid_text(id: u128) -> Seq<char>;

/// What parsing an identifier's text form yields, or `None` where the text
/// is not one.
pub uninterp spec fn uuid_parse(s: Seq<char>) -> Option<u128>;

/// Relies on `uuid::Uuid::from_u128` and its `Display`: the 36-character
/// hyphenated form, which `Uuid::parse_str` reads back to the same value.
#[verifier::external_body]
pub(crate) fn id_text(id: u128) -> (r: String)
    ensures
        r@ == uuid_text(id),
        r@.len() == 36,
        uuid_parse(r@) == Some(id),
{
    uuid::Uuid::from_u128(id).to_string()
}

/// Relies on `uuid::Uuid::parse_str` and `Uuid::as_u128`: the identifier, or
/// an error where the text is not an identifier.
#[verifier::external_body]
pub(crate) fn parse_id_text(s: &str) -> (r: Option<u128>)
    ensures
        r == uuid_parse(s@),
{
    uuid::Uuid::parse_str(s).ok().map(|u| u.as_u128())
}

} // verus!
