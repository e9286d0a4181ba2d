//! The cryptographic calls of the store: AES-256-GCM from `aes-gcm`, and
//! buffers that `zeroize` wipes when they are dropped.
//!
//! Everything in this file is trusted: the contracts below are what the
//! outside crates' sources show, and nothing here is proved.

use vstd::prelude::*;
use aes_gcm::aead::{Aead, Generate, KeyInit};
use aes_gcm::Aes256Gcm;
use zeroize::Zeroizing;

verus! {

/// The longest plaintext, in bytes, that AES-GCM encrypts (`aes_gcm::P_MAX`).
pub const MAX_PLAINTEXT_LEN: u64 = 68719476704;

/// The length of an AES-256 key in bytes.
pub const KEY_LEN: usize = 32;

/// The length of an AES-GCM nonce in bytes.
pub const NONCE_LEN: usize = 12;

/// The length of the authentication tag that AES-GCM appends, in bytes.
pub const TAG_LEN: usize = 16;

/// A byte buffer held in a `zeroize::Zeroizing<Vec<u8>>`, which overwrites
/// the bytes with zeros when the buffer is dropped. The buffer is private;
/// `zeroizing_bytes` names the bytes it holds.
#[verifier::external_body]
pub struct WipedBytes {
    inner: Zeroizing<Vec<u8>>,
}

/// The bytes that a wiped-on-drop buffer holds.
pub uninterp spec fn zeroizing_bytes(z: WipedBytes) -> Seq<u8>;

/// The ciphertext (with its tag) that AES-256-GCM makes of `plaintext` under
/// `key` and `nonce`, without associated data.
pub uninterp spec fn aes256gcm_seal(key: Seq<u8>, nonce: Seq<u8>, plaintext: Seq<u8>) -> Seq<u8>;

/// What AES-256-GCM decryption of `ciphertext` under `key` and `nonce`, without
/// associated data, gives: the plaintext, or nothing when the tag does not
/// authenticate the ciphertext.
pub uninterp spec fn aes256gcm_open(key: Seq<u8>, nonce: Seq<u8>, ciphertext: Seq<u8>) -> Option<
    Seq<u8>,
>;

/// Moves a byte buffer into a `Zeroizing` wrapper (`Zeroizing::new`), which
/// holds the same bytes.
#[verifier::external_body]
pub(crate) fn wipe_on_drop(v: Vec<u8>) -> (z: WipedBytes)
    ensures
        zeroizing_bytes(z) == v@,
{
    WipedBytes { inner: Zeroizing::new(v) }
}

/// The bytes of a `Zeroizing` buffer, through its `Deref` to the inner vector.
#[verifier::external_body]
pub(crate) fn wiped_bytes(z: &WipedBytes) -> (r: &[u8])
    ensures
        r@ == zeroizing_bytes(*z),
{
    z.inner.as_slice()
}

/// A fresh AES-256 key from the system's random number generator
/// (`Key::<Aes256Gcm>::try_generate`), or nothing when the generator fails.
/// Only the key's length is known; which bytes come out is chance.
#[verifier::external_body]
pub(crate) fn generate_key() -> (k: Option<Vec<u8>>)
    ensures
        k matches Some(v) ==> v@.len() == KEY_LEN,
{
    aes_gcm::Key::<Aes256Gcm>::try_generate().ok().map(|k| k.to_vec())
}

/// A fresh 96-bit nonce from the system's random number generator
/// (`Nonce::<Aes256Gcm>::try_generate`), or nothing when the generator fails.
/// Only the nonce's length is known; which bytes come out is chance.
#[verifier::external_body]
pub(crate) fn generate_nonce() -> (n: Option<Vec<u8>>)
    ensures
        n matches Some(v) ==> v@.len() == NONCE_LEN,
{
    aes_gcm::aead::Nonce::<Aes256Gcm>::try_generate().ok().map(|n| n.to_vec())
}

/// `Aes256Gcm::new(key).encrypt(nonce, plaintext)`: succeeds on every
/// plaintext of at most `MAX_PLAINTEXT_LEN` bytes, gives the ciphertext that
/// `aes256gcm_seal` names, which is as long as the plaintext followed by the
/// 16-byte tag, and decrypting that ciphertext under the same key and nonce
/// gives the plaintext back (the counter-mode keystream is applied twice and
/// the tag is recomputed over the same ciphertext).
#[verifier::external_body]
pub(crate) fn aes256gcm_encrypt(key: &[u8], nonce: &[u8], plaintext: &[u8]) -> (r: Option<Vec<u8>>)
    requires
        key@.len() == KEY_LEN,
        nonce@.len() == NONCE_LEN,
        plaintext@.len() <= MAX_PLAINTEXT_LEN,
    ensures
        r is Some,
        r matches Some(c) ==> c@ == aes256gcm_seal(key@, nonce@, plaintext@),
        r matches Some(c) ==> c@.len() == plaintext@.len() + TAG_LEN,
        r matches Some(c) ==> aes256gcm_open(key@, nonce@, c@) == Some(plaintext@),
{
    let cipher = Aes256Gcm::new(&aes_gcm::Key::<Aes256Gcm>::try_from(key).expect("key length"));
    let nonce = aes_gcm::aead::Nonce::<Aes256Gcm>::try_from(nonce).expect("nonce length");
    cipher.encrypt(&nonce, plaintext).ok()
}

/// `Aes256Gcm::new(key).decrypt(nonce, ciphertext)`: the plaintext when the
/// ciphertext authenticates, nothing otherwise, as `aes256gcm_open` names it.
#[verifier::external_body]
pub(crate) fn aes256gcm_decrypt(key: &[u8], nonce: &[u8], ciphertext: &[u8]) -> (r: Option<Vec<u8>>)
    requires
        key@.len() == KEY_LEN,
        nonce@.len() == NONCE_LEN,
    ensures
        match r {
            Some(p) => aes256gcm_open(key@, nonce@, ciphertext@) == Some(p@),
            None => aes256gcm_open(key@, nonce@, ciphertext@) is None,
        },
{
    let cipher = Aes256Gcm::new(&aes_gcm::Key::<Aes256Gcm>::try_from(key).expect("key length"));
    let nonce = aes_gcm::aead::Nonce::<Aes256Gcm>::try_from(nonce).expect("nonce length");
    cipher.decrypt(&nonce, ciphertext).ok()
}

} // verus!
