use vstd::prelude::*;
use vstd::utf8::encode_utf8;
use crate::codec::{
    aes256gcm_open, aes_open, aes_seal, decode_url_b64, encode_url_b64, lossy_text,
    url_b64_decode, lossy_decode, AES_GCM_MAX_PLAINTEXT,
};
use crate::error::SecretError;

verus! {

/// The symmetric key length of AES-256-GCM, in bytes.
pub const KEY_LEN: usize = 32;

/// The AES-GCM nonce length, in bytes.
pub const NONCE_LEN: usize = 12;

/// The stored fields of a record fetched for consumption.
pub struct Secret {
    pub secret: Option<String>,
    pub iv: Option<String>,
}

/// A stored field, with an absent value read as the empty string.
pub open spec fn field_text(f: Option<String>) -> Seq<char> {
    match f {
        Some(s) => s@,
        None => Seq::empty(),
    }
}

impl View for Secret {
    /// The stored ciphertext and nonce encodings.
    type V = (Seq<char>, Seq<char>);

    open spec fn view(&self) -> (Seq<char>, Seq<char>) {
        (field_text(self.secret), field_text(self.iv))
    }
}

/// The key bytes carried by a key string: its decoding, if that is exactly
/// 32 bytes long.
pub open spec fn key_bytes(key: Seq<char>) -> Option<Seq<u8>> {
    match url_b64_decode(key) {
        Some(b) => if b.len() == KEY_LEN {
            Some(b)
        } else {
            None
        },
        None => None,
    }
}

/// The nonce and ciphertext of a stored record, where the nonce decodes to
/// 12 bytes and the ciphertext to a non-empty byte string.
pub open spec fn stored_parts(ct: Seq<char>, iv: Seq<char>) -> Option<(Seq<u8>, Seq<u8>)> {
    match url_b64_decode(iv) {
        Some(n) => match url_b64_decode(ct) {
            Some(c) => if n.len() == NONCE_LEN && c.len() > 0 {
                Some((n, c))
            } else {
                None
            },
            None => None,
        },
        None => None,
    }
}

/// The text disclosed by decrypting `ct`, or the authentication failure.
pub open spec fn disclosed(key: Seq<u8>, nonce: Seq<u8>, ct: Seq<u8>) -> Result<
    Seq<char>,
    SecretError,
> {
    match aes256gcm_open(key, nonce, ct) {
        Some(p) => Ok(lossy_decode(p)),
        None => Err(SecretError::DecryptionFailed),
    }
}

/// The outcome of opening a record fetched under lock (`None`: nothing
/// consumable) with validated key bytes.
pub open spec fn opened(key: Seq<u8>, found: Option<(Seq<char>, Seq<char>)>) -> Result<
    Seq<char>,
    SecretError,
> {
    match found {
        None => Err(SecretError::NotFound),
        Some((ct, iv)) => match stored_parts(ct, iv) {
            None => Err(SecretError::CorruptRecord),
            Some((n, c)) => disclosed(key, n, c),
        },
    }
}

/// A text result seen through the view of its text.
pub open spec fn text_of(r: Result<String, SecretError>) -> Result<Seq<char>, SecretError> {
    match r {
        Ok(s) => Ok(s@),
        Err(e) => Err(e),
    }
}

/// Decodes a key from its URL-safe, unpadded base64 form; anything but
/// exactly 32 bytes is `InvalidKey`.
pub fn decode_key(key: &str) -> (r: Result<Vec<u8>, SecretError>)
    ensures
        match r {
            Ok(k) => key_bytes(key@) == Some(k@),
            Err(e) => key_bytes(key@) is None && e == SecretError::InvalidKey,
        },
{
    match decode_url_b64(key) {
        Some(k) => {
            if k.len() == KEY_LEN {
                Ok(k)
            } else {
                Err(SecretError::InvalidKey)
            }
        },
        None => Err(SecretError::InvalidKey),
    }
}

/// Decodes the stored nonce and ciphertext; a nonce that is not 12 bytes
/// or an empty ciphertext is `CorruptRecord`.
pub fn decode_stored(ciphertext: &str, iv: &str) -> (r: Result<(Vec<u8>, Vec<u8>), SecretError>)
    ensures
        match r {
            Ok((n, c)) => stored_parts(ciphertext@, iv@) == Some((n@, c@)),
            Err(e) => stored_parts(ciphertext@, iv@) is None && e == SecretError::CorruptRecord,
        },
{
    let nonce = match decode_url_b64(iv) {
        Some(n) => n,
        None => return Err(SecretError::CorruptRecord),
    };
    if nonce.len() != NONCE_LEN {
        return Err(SecretError::CorruptRecord);
    }
    let ct = match decode_url_b64(ciphertext) {
        Some(c) => c,
        None => return Err(SecretError::CorruptRecord),
    };
    if ct.len() == 0 {
        return Err(SecretError::CorruptRecord);
    }
    Ok((nonce, ct))
}

/// Decrypts and authenticates `ct`, decoding the plaintext as text with
/// lossy substitution of invalid UTF-8.
pub fn disclose(key: &[u8], nonce: &[u8], ct: &[u8]) -> (r: Result<String, SecretError>)
    requires
        key@.len() == KEY_LEN,
        nonce@.len() == NONCE_LEN,
    ensures
        text_of(r) == disclosed(key@, nonce@, ct@),
{
    match aes_open(key, nonce, ct) {
        Some(p) => Ok(lossy_text(p.as_slice())),
        None => Err(SecretError::DecryptionFailed),
    }
}

/// Opens a record fetched for consumption with validated key bytes:
/// `NotFound` when nothing was fetched, then `CorruptRecord`, then
/// `DecryptionFailed`, else the plaintext.
pub fn open_secret(key: &[u8], found: &Option<Secret>) -> (r: Result<String, SecretError>)
    requires
        key@.len() == KEY_LEN,
    ensures
        text_of(r) == opened(
            key@,
            match found {
                Some(s) => Some(s@),
                None => None,
            },
        ),
{
    match found {
        None => Err(SecretError::NotFound),
        Some(s) => {
            let ct: &str = match &s.secret {
                Some(t) => t.as_str(),
                None => "",
            };
            let iv: &str = match &s.iv {
                Some(t) => t.as_str(),
                None => "",
            };
            proof {
                reveal_strlit("");
                assert(ct@ =~= field_text(s.secret));
                assert(iv@ =~= field_text(s.iv));
            }
            match decode_stored(ct, iv) {
                Err(e) => Err(e),
                Ok((n, c)) => disclose(key, n.as_slice(), c.as_slice()),
            }
        },
    }
}

/// A secret as a producer submits it: the encoded ciphertext and nonce to
/// store, and the encoded key to hand to the consumer.
pub struct SealedSecret {
    pub ciphertext: String,
    pub iv: String,
    pub key: String,
}

/// The stored encodings `ct` and `iv` decode to `nonce` and to a ciphertext
/// that decrypts under `key` to `pt`.
pub open spec fn seals(ct: Seq<char>, iv: Seq<char>, key: Seq<u8>, nonce: Seq<u8>, pt: Seq<u8>) -> bool {
    &&& stored_parts(ct, iv) is Some
    &&& stored_parts(ct, iv).unwrap().0 == nonce
    &&& aes256gcm_open(key, nonce, stored_parts(ct, iv).unwrap().1) == Some(pt)
}

/// Encrypts `text` for storage, as a producer does before submitting it.
/// A key that is not 32 bytes is `InvalidKey`; a nonce that is not 12 bytes
/// or a text over the cipher's limit is `EncryptionFailed`.
pub fn seal_secret(key: &[u8], nonce: &[u8], text: &str) -> (r: Result<SealedSecret, SecretError>)
    ensures
        match r {
            Ok(s) => {
                &&& key@.len() == KEY_LEN
                &&& nonce@.len() == NONCE_LEN
                &&& encode_utf8(text@).len() <= AES_GCM_MAX_PLAINTEXT
                &&& key_bytes(s.key@) == Some(key@)
                &&& seals(s.ciphertext@, s.iv@, key@, nonce@, encode_utf8(text@))
            },
            Err(e) => if key@.len() != KEY_LEN {
                e == SecretError::InvalidKey
            } else {
                &&& e == SecretError::EncryptionFailed
                &&& nonce@.len() != NONCE_LEN || encode_utf8(text@).len() > AES_GCM_MAX_PLAINTEXT
            },
        },
{
    if key.len() != KEY_LEN {
        return Err(SecretError::InvalidKey);
    }
    if nonce.len() != NONCE_LEN {
        return Err(SecretError::EncryptionFailed);
    }
    let pt = text.as_bytes();
    match aes_seal(key, nonce, pt) {
        None => Err(SecretError::EncryptionFailed),
        Some(c) => {
            let sealed = SealedSecret {
                ciphertext: encode_url_b64(c.as_slice()),
                iv: encode_url_b64(nonce),
                key: encode_url_b64(key),
            };
            Ok(sealed)
        },
    }
}

} // verus!
