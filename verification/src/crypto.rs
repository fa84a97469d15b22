//! The encryption envelope: seal and open a byte buffer under a passphrase.
//!
//! A sealed buffer is laid out as `ciphertext || 16-byte tag || 12-byte
//! nonce`: the fresh random nonce of each call is appended as a suffix, so a
//! sealed buffer is always 28 bytes longer than its plaintext. The key is the
//! SHA-256 digest of the passphrase, derived anew on every call and never
//! stored; there is no salt, so the passphrase itself is the whole secret.

use vstd::prelude::*;

use aes_gcm::aead::{Aead, KeyInit};
use aes_gcm::{Aes256Gcm, Nonce};
use rand::{thread_rng, Rng};
use sha2::Digest;

verus! {

use crate::Error;

/// The 32-byte AES-256 key derived from a passphrase.
pub uninterp spec fn key_digest(pass: Seq<char>) -> Seq<u8>;

/// What AES-256-GCM makes of a plaintext under a key and a nonce:
/// the ciphertext with the 16-byte authentication tag appended.
pub uninterp spec fn gcm_seal(key: Seq<u8>, nonce: Seq<u8>, plaintext: Seq<u8>) -> Seq<u8>;

/// What AES-256-GCM makes of a ciphertext-plus-tag under a key and a nonce:
/// the plaintext if the tag verifies, nothing otherwise.
pub uninterp spec fn gcm_open(key: Seq<u8>, nonce: Seq<u8>, ciphertext: Seq<u8>) -> Option<Seq<u8>>;

/// The plaintext hidden in `sealed` under `pass`, if the buffer
/// authenticates. The nonce is the 12-byte suffix of the buffer and the
/// remainder is ciphertext plus tag; a buffer too short to hold even a nonce
/// never authenticates.
pub open spec fn opened(sealed: Seq<u8>, pass: Seq<char>) -> Option<Seq<u8>> {
    if sealed.len() < 12 {
        None
    } else {
        gcm_open(
            key_digest(pass),
            sealed.subrange(sealed.len() - 12, sealed.len() as int),
            sealed.subrange(0, sealed.len() - 12),
        )
    }
}

/// `sealed` is a well-formed envelope for `plaintext` under `pass`: cipher
/// output for some 12-byte nonce, with that nonce appended.
pub open spec fn sealed_with(sealed: Seq<u8>, plaintext: Seq<u8>, pass: Seq<char>) -> bool {
    exists|nonce: Seq<u8>|
        nonce.len() == 12 && sealed == gcm_seal(key_digest(pass), nonce, plaintext) + nonce
}

/// Relies on sha2::Sha256::digest: a 32-byte digest that depends on the
/// bytes of the passphrase alone.
#[verifier::external_body]
fn derive_key(pass: &str) -> (r: Vec<u8>)
    ensures
        r@ == key_digest(pass@),
        r@.len() == 32,
{
    sha2::Sha256::digest(pass.as_bytes()).to_vec()
}

/// Relies on rand::Rng::gen over rand::thread_rng: 12 bytes of which nothing
/// more can be promised.
#[verifier::external_body]
fn fresh_nonce() -> (r: Vec<u8>)
    ensures
        r@.len() == 12,
{
    let nonce: [u8; 12] = thread_rng().gen();
    nonce.to_vec()
}

/// Relies on aes_gcm::Aes256Gcm::new_from_slice, which accepts exactly
/// 32-byte keys, and aes_gcm::aead::Aead::encrypt: AES-256-GCM is
/// deterministic in key, nonce and plaintext, appends the 16-byte
/// authentication tag to the ciphertext, refuses only a plaintext longer
/// than its 2^36-byte cap, and its own decrypt inverts this output under
/// the same key and nonce.
#[verifier::external_body]
fn aead_encrypt(key: &[u8], nonce: &[u8], plaintext: &[u8]) -> (r: Result<Vec<u8>, Error>)
    requires
        key@.len() == 32,
        nonce@.len() == 12,
    ensures
        plaintext@.len() <= 0x10_0000_0000 ==> r is Ok,
        r matches Ok(c) ==> c@ == gcm_seal(key@, nonce@, plaintext@),
        r matches Ok(c) ==> c@.len() == plaintext@.len() + 16,
        r matches Ok(c) ==> gcm_open(key@, nonce@, c@) == Some(plaintext@),
        r matches Err(e) ==> e is EncryptionFailure,
{
    let cipher = match Aes256Gcm::new_from_slice(key) {
        Ok(cipher) => cipher,
        Err(_) => return Err(Error::EncryptionFailure),
    };
    cipher
        .encrypt(Nonce::from_slice(nonce), plaintext)
        .map_err(|_| Error::EncryptionFailure)
}

/// Relies on aes_gcm::Aes256Gcm::new_from_slice and
/// aes_gcm::aead::Aead::decrypt: deterministic in key, nonce and
/// ciphertext, it rejects any buffer shorter than the 16-byte tag, and it
/// fails rather than hand back bytes that did not authenticate.
#[verifier::external_body]
fn aead_decrypt(key: &[u8], nonce: &[u8], ciphertext: &[u8]) -> (r: Result<Vec<u8>, Error>)
    requires
        key@.len() == 32,
        nonce@.len() == 12,
    ensures
        ciphertext@.len() < 16 ==> r matches Err(_),
        r matches Ok(p) ==> gcm_open(key@, nonce@, ciphertext@) == Some(p@),
        r matches Err(_) ==> gcm_open(key@, nonce@, ciphertext@) is None,
        r matches Err(e) ==> e is DecryptionFailure,
{
    let cipher = match Aes256Gcm::new_from_slice(key) {
        Ok(cipher) => cipher,
        Err(_) => return Err(Error::DecryptionFailure),
    };
    cipher
        .decrypt(Nonce::from_slice(nonce), ciphertext)
        .map_err(|_| Error::DecryptionFailure)
}

/// Append every byte of `src` to `dst`.
fn append_bytes(dst: &mut Vec<u8>, src: &[u8])
    ensures
        final(dst)@ == old(dst)@ + src@,
{
    proof {
        assert(dst@ =~= old(dst)@ + src@.subrange(0, 0));
    }
    let mut i: usize = 0;
    while i < src.len()
        invariant
            i <= src@.len(),
            dst@ == old(dst)@ + src@.subrange(0, i as int),
        decreases src@.len() - i,
    {
        dst.push(src[i]);
        proof {
            assert(src@.subrange(0, i + 1) =~= src@.subrange(0, i as int) + seq![src@[i as int]]);
            assert(dst@ =~= old(dst)@ + src@.subrange(0, i + 1));
        }
        i = i + 1;
    }
    proof {
        assert(src@.subrange(0, src@.len() as int) =~= src@);
    }
}

/// Encrypt data.
///
/// Seals `plaintext` under the key derived from `key`: a fresh random
/// 12-byte nonce is drawn for this call, the payload is sealed by
/// AES-256-GCM, and the nonce is appended to the cipher output. On success
/// the result is a well-formed envelope, 28 bytes longer than the plaintext,
/// that [`decrypt`] opens back to exactly `plaintext` under the same `key`.
/// Success is owed for every plaintext up to the cipher's 2^36-byte cap:
/// the derived key is always a valid 32-byte key, so only that cap can
/// make the cipher refuse.
pub fn encrypt(plaintext: &[u8], key: &str) -> (r: Result<Vec<u8>, Error>)
    ensures
        plaintext@.len() <= 0x10_0000_0000 ==> r is Ok,
        r matches Ok(c) ==> sealed_with(c@, plaintext@, key@),
        r matches Ok(c) ==> c@.len() == plaintext@.len() + 28,
        r matches Ok(c) ==> opened(c@, key@) == Some(plaintext@),
        r matches Ok(c) ==> c@ != plaintext@,
        r matches Err(e) ==> e is EncryptionFailure,
{
    let key_bytes = derive_key(key);
    let nonce = fresh_nonce();
    let mut sealed = match aead_encrypt(key_bytes.as_slice(), nonce.as_slice(), plaintext) {
        Ok(cipher_output) => cipher_output,
        Err(e) => return Err(e),
    };
    let ghost cipher_output_view = sealed@;
    append_bytes(&mut sealed, nonce.as_slice());
    proof {
        assert(sealed@.subrange(0, sealed@.len() - 12) =~= cipher_output_view);
        assert(sealed@.subrange(sealed@.len() - 12, sealed@.len() as int) =~= nonce@);
        assert(sealed_with(sealed@, plaintext@, key@)) by {
            assert(nonce@.len() == 12
                && sealed@ == gcm_seal(key_digest(key@), nonce@, plaintext@) + nonce@);
        }
    }
    Ok(sealed)
}

/// Decrypt data.
///
/// Opens a buffer produced by [`encrypt`]: the trailing 12 bytes are taken
/// as the nonce and the remainder is handed to the cipher, which either
/// recovers the plaintext or rejects the buffer. A buffer shorter than 12
/// bytes cannot authenticate and is rejected outright, as is any buffer
/// shorter than a full envelope of an empty plaintext. Success and failure
/// mirror [`opened`] exactly: no unauthenticated bytes are ever returned.
pub fn decrypt(ciphertext: &[u8], key: &str) -> (r: Result<Vec<u8>, Error>)
    ensures
        ciphertext@.len() < 28 ==> r matches Err(_),
        r matches Ok(p) ==> opened(ciphertext@, key@) == Some(p@),
        (r matches Err(_)) <==> opened(ciphertext@, key@) is None,
        r matches Err(e) ==> e is DecryptionFailure,
{
    let key_bytes = derive_key(key);
    if ciphertext.len() < 12 {
        return Err(Error::DecryptionFailure);
    }
    let cut = ciphertext.len() - 12;
    let (body, nonce) = ciphertext.split_at(cut);
    aead_decrypt(key_bytes.as_slice(), nonce, body)
}

} // verus!

