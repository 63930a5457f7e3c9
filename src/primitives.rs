//! The cryptographic primitives the library builds on: SHA-256 from `sha2`,
//! ChaCha20-Poly1305 from `chacha20poly1305`, the operating system's random
//! source, and the seedable generator `StdRng` from `rand`.
//!
//! What these compute is named here and not spelled out: the library's
//! contracts speak of the names, and of the few facts the crates document.
use chacha20poly1305::aead::{Aead, KeyInit, OsRng};
use chacha20poly1305::{ChaCha20Poly1305, Nonce};
use rand::rngs::StdRng;
use rand::{RngCore, SeedableRng};
use sha2::{Digest, Sha256};
use vstd::prelude::*;

verus! {

/// Length in bytes of a ChaCha20-Poly1305 nonce.
pub const NONCE_LEN: usize = 12;

/// Length in bytes of the Poly1305 tag appended to a ciphertext.
pub const TAG_LEN: usize = 16;

/// Plaintexts must be shorter than this many bytes. Block 0 of the ChaCha20
/// keystream keys Poly1305, which leaves `2^32 - 2` blocks of 64 bytes for
/// the message: `64 * (2^32 - 2) + 1`.
pub const MAX_PLAINTEXT_LEN: u64 = 274877906817;

/// The SHA-256 digest of `data`.
pub uninterp spec fn sha256_of(data: Seq<u8>) -> Seq<u8>;

/// The ChaCha20-Poly1305 ciphertext, tag appended, of `plaintext` under
/// `key` and `nonce`, with no associated data.
pub uninterp spec fn aead_seal_of(key: Seq<u8>, nonce: Seq<u8>, plaintext: Seq<u8>) -> Seq<u8>;

/// The first `len` bytes that `StdRng` seeded with `seed` produces.
pub uninterp spec fn keystream_of(seed: Seq<u8>, len: nat) -> Seq<u8>;

/// The error that `chacha20poly1305` reports for a failed encryption or
/// decryption; it carries no detail.
#[verifier::external_type_specification]
#[verifier::external_body]
pub struct ExAeadError(chacha20poly1305::Error);

/// Relies on `sha2::Sha256::digest`: the 32-byte SHA-256 digest of `data`.
#[verifier::external_body]
pub(crate) fn sha256(data: &[u8]) -> (r: [u8; 32])
    ensures
        r@ == sha256_of(data@),
{
    Sha256::digest(data).into()
}

/// Relies on `Aead::encrypt` of `ChaCha20Poly1305` (no associated data): below
/// `MAX_PLAINTEXT_LEN` it succeeds, and appends a 16-byte tag to a ciphertext
/// as long as the plaintext. Longer plaintexts fail or panic in the keystream.
#[verifier::external_body]
pub(crate) fn aead_seal(key: &[u8; 32], nonce: &[u8], plaintext: &[u8]) -> (r: Result<
    Vec<u8>,
    chacha20poly1305::Error,
>)
    requires
        nonce@.len() == NONCE_LEN,
        plaintext@.len() < MAX_PLAINTEXT_LEN,
    ensures
        r is Ok,
        r is Ok ==> r->Ok_0@ == aead_seal_of(key@, nonce@, plaintext@),
        r is Ok ==> r->Ok_0@.len() == plaintext@.len() + TAG_LEN,
{
    ChaCha20Poly1305::new(key.into()).encrypt(Nonce::from_slice(nonce), plaintext)
}

/// Relies on `Aead::decrypt` of `ChaCha20Poly1305` (no associated data): it
/// succeeds exactly on the ciphertexts that `Aead::encrypt` produces under
/// the same key and nonce, and returns the plaintext that was sealed, with
/// the 16-byte tag cut off the end. Longer ciphertexts than admitted here can
/// panic in the keystream after the tag has verified.
#[verifier::external_body]
pub(crate) fn aead_open(key: &[u8; 32], nonce: &[u8], ciphertext: &[u8]) -> (r: Result<
    Vec<u8>,
    chacha20poly1305::Error,
>)
    requires
        nonce@.len() == NONCE_LEN,
        ciphertext@.len() < MAX_PLAINTEXT_LEN + TAG_LEN,
    ensures
        r is Ok ==> ciphertext@.len() == r->Ok_0@.len() + TAG_LEN,
        r is Ok ==> r->Ok_0@.len() < MAX_PLAINTEXT_LEN,
        r is Ok ==> ciphertext@ == aead_seal_of(key@, nonce@, r->Ok_0@),
        forall|m: Seq<u8>|
            m.len() < MAX_PLAINTEXT_LEN && ciphertext@ == #[trigger] aead_seal_of(key@, nonce@, m)
                ==> r is Ok && r->Ok_0@ == m,
{
    ChaCha20Poly1305::new(key.into()).decrypt(Nonce::from_slice(nonce), ciphertext)
}

/// Relies on `RngCore::fill_bytes` of the operating system's generator
/// (`OsRng`), which panics if the source fails. Nothing is known of the
/// bytes.
#[verifier::external_body]
pub(crate) fn random_nonce() -> (r: [u8; 12]) {
    let mut nonce = [0u8; 12];
    OsRng.fill_bytes(&mut nonce);
    nonce
}

/// Relies on `StdRng::from_seed` and `RngCore::fill_bytes`: the generator is
/// deterministic, so its first `len` bytes depend on the seed alone.
#[verifier::external_body]
pub(crate) fn keystream(seed: &[u8; 32], len: usize) -> (r: Vec<u8>)
    ensures
        r@ == keystream_of(seed@, len as nat),
        r@.len() == len,
{
    let mut rng = StdRng::from_seed(*seed);
    let mut stream = vec![0u8; len];
    rng.fill_bytes(&mut stream);
    stream
}

} // verus!
