//! Model of the XChaCha20-Poly1305 cipher and the trusted calls into it.
//!
//! The cipher's output is modeled structurally, following RFC 8439: the
//! ciphertext is the plaintext XORed with a keystream determined by the key
//! and the nonce, followed by a 16-byte authentication tag determined by
//! the key, the nonce and the ciphertext.  The keystream and the tag
//! themselves are uninterpreted: nothing here claims what their bytes are,
//! only how sealing and opening are assembled from them.  That structure is
//! enough to prove that opening inverts sealing.

use vstd::bytes::{lemma_auto_spec_u128_to_from_le_bytes, spec_u128_to_le_bytes};
use vstd::prelude::*;

use chacha20poly1305::aead::{Aead, KeyInit};
use chacha20poly1305::{Key, XChaCha20Poly1305, XNonce};
use rand::rngs::OsRng;
use rand::RngCore;

use crate::nonce_counter::NONCE_LEN;

verus! {

/// Width of an XChaCha20-Poly1305 key in bytes.
pub const KEY_LEN: usize = 32;

/// Width of the Poly1305 authentication tag in bytes.
pub const TAG_LEN: usize = 16;

/// Largest plaintext the cipher wrappers accept.  The cipher itself
/// refuses messages only far above this bound, so within it sealing always
/// succeeds.
pub const MAX_PLAINTEXT_LEN: usize = 0xFFFF_FFFF;

/// The ChaCha20 keystream prefix of the given length for a key and nonce.
pub uninterp spec fn xchacha_keystream(key: Seq<u8>, nonce: Seq<u8>, len: nat) -> Seq<u8>;

/// The Poly1305 tag over a ciphertext for a key and nonce, read as a
/// 128-bit little-endian number.
pub uninterp spec fn xchacha_tag(key: Seq<u8>, nonce: Seq<u8>, ct: Seq<u8>) -> u128;

/// Pointwise XOR; the result has the length of the first argument.
pub open spec fn xor_bytes(a: Seq<u8>, b: Seq<u8>) -> Seq<u8> {
    Seq::new(a.len(), |i: int| a[i] ^ b[i])
}

/// What sealing a plaintext produces: ciphertext, then tag.
pub open spec fn xchacha_seal(key: Seq<u8>, nonce: Seq<u8>, pt: Seq<u8>) -> Seq<u8> {
    let ct = xor_bytes(pt, xchacha_keystream(key, nonce, pt.len()));
    ct + spec_u128_to_le_bytes(xchacha_tag(key, nonce, ct))
}

/// What opening a buffer produces: the recovered plaintext when the buffer
/// carries a matching tag, nothing otherwise.
pub open spec fn xchacha_open(key: Seq<u8>, nonce: Seq<u8>, data: Seq<u8>) -> Option<Seq<u8>> {
    if data.len() >= TAG_LEN {
        let ct = data.subrange(0, data.len() - TAG_LEN);
        let tag = data.subrange(data.len() - TAG_LEN, data.len() as int);
        if tag == spec_u128_to_le_bytes(xchacha_tag(key, nonce, ct)) {
            Some(xor_bytes(ct, xchacha_keystream(key, nonce, ct.len())))
        } else {
            None
        }
    } else {
        None
    }
}

/// XOR with the same operand twice gives the original bytes back.
proof fn lemma_xor_involution(a: Seq<u8>, b: Seq<u8>)
    ensures
        xor_bytes(xor_bytes(a, b), b) == a,
{
    assert(forall|x: u8, y: u8| #[trigger] ((x ^ y) ^ y) == x) by (bit_vector);
    assert(xor_bytes(xor_bytes(a, b), b) =~= a);
}

/// Opening inverts sealing: a sealed plaintext opens to exactly itself
/// under the same key and nonce.
pub proof fn lemma_seal_open_round_trip(key: Seq<u8>, nonce: Seq<u8>, pt: Seq<u8>)
    ensures
        xchacha_open(key, nonce, xchacha_seal(key, nonce, pt)) == Some(pt),
        xchacha_seal(key, nonce, pt).len() == pt.len() + TAG_LEN,
{
    lemma_auto_spec_u128_to_from_le_bytes();
    let ks = xchacha_keystream(key, nonce, pt.len());
    let ct = xor_bytes(pt, ks);
    let sealed = xchacha_seal(key, nonce, pt);
    assert(sealed.subrange(0, sealed.len() - TAG_LEN) =~= ct);
    assert(sealed.subrange(sealed.len() - TAG_LEN, sealed.len() as int) =~= spec_u128_to_le_bytes(
        xchacha_tag(key, nonce, ct),
    ));
    lemma_xor_involution(pt, ks);
}

/// Relies on chacha20poly1305's `XChaCha20Poly1305`: encryption XORs the
/// plaintext with the ChaCha20 keystream for the key and nonce and appends
/// the 16-byte Poly1305 tag computed from the key, the nonce and the
/// ciphertext (no associated data).  Within `MAX_PLAINTEXT_LEN` the cipher
/// has no failure path.
#[verifier::external_body]
pub(crate) fn xchacha_encrypt(key: &[u8], nonce: &[u8], plaintext: &[u8]) -> (r: Vec<u8>)
    requires
        key@.len() == KEY_LEN,
        nonce@.len() == NONCE_LEN,
        plaintext@.len() <= MAX_PLAINTEXT_LEN,
    ensures
        r@ == xchacha_seal(key@, nonce@, plaintext@),
        r@.len() == plaintext@.len() + TAG_LEN,
        r@.subrange(0, plaintext@.len() as int) == xor_bytes(
            plaintext@,
            xchacha_keystream(key@, nonce@, plaintext@.len()),
        ),
        r@.subrange(plaintext@.len() as int, r@.len() as int) == spec_u128_to_le_bytes(
            xchacha_tag(key@, nonce@, r@.subrange(0, plaintext@.len() as int)),
        ),
{
    let cipher = XChaCha20Poly1305::new(Key::from_slice(key));
    cipher
        .encrypt(XNonce::from_slice(nonce), plaintext)
        .expect("plaintext within the cipher's length bound")
}

/// Relies on chacha20poly1305's `XChaCha20Poly1305`: decryption rejects a
/// buffer shorter than the tag or whose Poly1305 tag does not match, and
/// otherwise XORs the keystream back out of the ciphertext.
#[verifier::external_body]
pub(crate) fn xchacha_decrypt(key: &[u8], nonce: &[u8], data: &[u8]) -> (r: Option<Vec<u8>>)
    requires
        key@.len() == KEY_LEN,
        nonce@.len() == NONCE_LEN,
        data@.len() <= MAX_PLAINTEXT_LEN + TAG_LEN,
    ensures
        match r {
            Some(pt) => xchacha_open(key@, nonce@, data@) == Some(pt@),
            None => xchacha_open(key@, nonce@, data@) is None,
        },
{
    let cipher = XChaCha20Poly1305::new(Key::from_slice(key));
    match cipher.decrypt(XNonce::from_slice(nonce), data) {
        Ok(pt) => Some(pt),
        Err(_) => None,
    }
}

/// Relies on zeroize's `Zeroize` for `Vec<u8>`: the buffer's bytes and
/// its spare capacity are overwritten with zeroes and the vector is
/// cleared.
#[verifier::external_body]
pub(crate) fn wipe_bytes(v: &mut Vec<u8>)
    ensures
        final(v)@.len() == 0,
{
    zeroize::Zeroize::zeroize(v);
}

/// Relies on rand's `OsRng` and `RngCore::fill_bytes`: the buffer is
/// filled completely from the operating system's entropy source.  Nothing
/// can be said about the bytes themselves.
#[verifier::external_body]
pub(crate) fn random_key_bytes() -> (r: Vec<u8>)
    ensures
        r@.len() == KEY_LEN,
{
    let mut bytes = vec![0u8; KEY_LEN];
    OsRng.fill_bytes(&mut bytes);
    bytes
}

} // verus!
