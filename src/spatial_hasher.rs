//! The cipher engine: key derivation from spatial parameters, authenticated
//! sealing and opening, and the unauthenticated stream variant.
use crate::bytes::{append, lemma_u32_le_injective, lemma_u64_le_injective, push_u32_le, push_u64_le, u32_le, u64_le};
use crate::point3d::Point3D;
use crate::primitives::{
    aead_open, aead_seal, aead_seal_of, keystream, keystream_of, random_nonce, sha256, sha256_of,
    MAX_PLAINTEXT_LEN, NONCE_LEN, TAG_LEN,
};
use crate::rotation_axis::RotationAxis;
use vstd::prelude::*;

verus! {

/// The parameter set an engine is built from, as a plain value.
#[derive(Clone, Copy, Debug, PartialEq, Eq, Structural)]
pub struct Parameters {
    /// The starting point.
    pub point: Point3D,
    /// The rotation axis.
    pub rotation_axis: RotationAxis,
    /// The iteration count; only hashed, never iterated.
    pub iterations: u32,
    /// Bit pattern of the strength value (`f64::to_bits`); only hashed.
    pub strength: u64,
}

/// Why a payload could not be opened.
#[derive(Clone, Copy, Debug, PartialEq, Eq, Structural)]
pub enum DecryptError {
    /// The payload is too short to hold a nonce.
    MalformedPayload,
    /// The tag did not verify: the payload was altered, or sealed under
    /// other parameters.
    AuthenticationFailed,
}

/// A cipher engine keyed by a point, a rotation axis, an iteration count and
/// a strength value. The parameters are fixed for the engine's lifetime, so
/// the derived key is too.
#[derive(Clone, Copy, Debug)]
pub struct Spha256 {
    point: Point3D,
    rotation_axis: RotationAxis,
    iterations: u32,
    strength: u64,
}

/// The bytes that key derivation hashes: the six coordinates, the iteration
/// count and the strength, in that order, each little-endian.
pub open spec fn encoding(p: Parameters) -> Seq<u8> {
    u64_le(p.point.x) + u64_le(p.point.y) + u64_le(p.point.z) + u64_le(p.rotation_axis.x)
        + u64_le(p.rotation_axis.y) + u64_le(p.rotation_axis.z) + u32_le(p.iterations) + u64_le(
        p.strength,
    )
}

/// The 256-bit key derived from `p`.
pub open spec fn derived_key(p: Parameters) -> Seq<u8> {
    sha256_of(encoding(p))
}

/// The payload that sealing `m` under `p` with `nonce` gives: the nonce,
/// then the ciphertext with its tag.
pub open spec fn sealed(p: Parameters, nonce: Seq<u8>, m: Seq<u8>) -> Seq<u8> {
    nonce + aead_seal_of(derived_key(p), nonce, m)
}

/// `payload` is a sealing of `m` under `p`, with the nonce it starts with.
pub open spec fn is_sealing_of(p: Parameters, payload: Seq<u8>, m: Seq<u8>) -> bool {
    &&& m.len() < MAX_PLAINTEXT_LEN
    &&& payload.len() == NONCE_LEN + m.len() + TAG_LEN
    &&& payload == sealed(p, payload.subrange(0, NONCE_LEN as int), m)
}

/// Bytewise XOR of `a` with the first `a.len()` bytes of `b`.
pub open spec fn xor_bytes(a: Seq<u8>, b: Seq<u8>) -> Seq<u8> {
    Seq::new(a.len(), |i: int| a[i] ^ b[i])
}

/// The stream variant applied to `data` under `p`: `data` XOR the keystream
/// seeded with the derived key.
pub open spec fn stream_cipher(p: Parameters, data: Seq<u8>) -> Seq<u8> {
    xor_bytes(data, keystream_of(derived_key(p), data.len()))
}

impl View for Spha256 {
    type V = Parameters;

    closed spec fn view(&self) -> Parameters {
        Parameters {
            point: self.point,
            rotation_axis: self.rotation_axis,
            iterations: self.iterations,
            strength: self.strength,
        }
    }
}

impl Spha256 {
    /// Creates an engine from its parameters. Every value is accepted.
    pub fn new(point: Point3D, rotation_axis: RotationAxis, iterations: u32, strength: u64) -> (r:
        Self)
        ensures
            r@ == (Parameters { point, rotation_axis, iterations, strength }),
    {
        Spha256 { point, rotation_axis, iterations, strength }
    }

    /// The parameters the engine was built from.
    pub fn parameters(&self) -> (r: Parameters)
        ensures
            r == self@,
    {
        Parameters {
            point: self.point,
            rotation_axis: self.rotation_axis,
            iterations: self.iterations,
            strength: self.strength,
        }
    }

    /// The bytes that key derivation hashes.
    fn encode(&self) -> (r: Vec<u8>)
        ensures
            r@ == encoding(self@),
    {
        let mut out: Vec<u8> = Vec::new();
        push_u64_le(&mut out, self.point.x);
        push_u64_le(&mut out, self.point.y);
        push_u64_le(&mut out, self.point.z);
        push_u64_le(&mut out, self.rotation_axis.x);
        push_u64_le(&mut out, self.rotation_axis.y);
        push_u64_le(&mut out, self.rotation_axis.z);
        push_u32_le(&mut out, self.iterations);
        push_u64_le(&mut out, self.strength);
        assert(out@ =~= encoding(self@));
        out
    }

    /// Derives the 256-bit key: the SHA-256 digest of the encoded parameters.
    pub fn generate_key(&self) -> (r: [u8; 32])
        ensures
            r@ == derived_key(self@),
    {
        let bytes = self.encode();
        sha256(bytes.as_slice())
    }

    /// Seals `data` with the given nonce: the nonce, then the ChaCha20-Poly1305
    /// ciphertext of `data` with its tag. A nonce must never be used twice
    /// under one key; `encrypt` draws a fresh one. `decrypt` opens the result
    /// to `data` (the empty sequence included).
    pub fn seal_with_nonce(&self, data: &[u8], nonce: &[u8; 12]) -> (r: Vec<u8>)
        requires
            data@.len() < MAX_PLAINTEXT_LEN,
        ensures
            r@ == sealed(self@, nonce@, data@),
            r@.len() == NONCE_LEN + data@.len() + TAG_LEN,
            is_sealing_of(self@, r@, data@),
    {
        let key = self.generate_key();
        let sealed = aead_seal(&key, nonce, data);
        let mut out: Vec<u8> = Vec::new();
        append(&mut out, nonce);
        match sealed {
            Ok(ciphertext) => {
                append(&mut out, ciphertext.as_slice());
            },
            Err(_) => {},
        }
        assert(out@.subrange(0, NONCE_LEN as int) =~= nonce@);
        out
    }

    /// Seals `data` under a fresh random nonce from the operating system.
    /// The payload is the nonce followed by the ciphertext and its tag.
    pub fn encrypt(&self, data: &[u8]) -> (r: Vec<u8>)
        requires
            data@.len() < MAX_PLAINTEXT_LEN,
        ensures
            is_sealing_of(self@, r@, data@),
            r@.len() == NONCE_LEN + data@.len() + TAG_LEN,
    {
        let nonce = random_nonce();
        self.seal_with_nonce(data, &nonce)
    }

    /// Opens a payload made by `encrypt` (or `seal_with_nonce`) under the
    /// same parameters, returning the plaintext.
    ///
    /// A payload shorter than a nonce is `MalformedPayload`; one whose tag
    /// does not verify, or that is too short to hold a tag or too long for
    /// any admissible plaintext, is `AuthenticationFailed`, and yields no
    /// plaintext. Opening never panics.
    pub fn decrypt(&self, encrypted: &[u8]) -> (r: Result<Vec<u8>, DecryptError>)
        ensures
            r == Err::<Vec<u8>, DecryptError>(DecryptError::MalformedPayload) <==> encrypted@.len()
                < NONCE_LEN,
            r is Ok ==> is_sealing_of(self@, encrypted@, r->Ok_0@),
            r is Ok ==> encrypted@.len() == NONCE_LEN + r->Ok_0@.len() + TAG_LEN,
            NONCE_LEN <= encrypted@.len() < NONCE_LEN + TAG_LEN ==> r == Err::<Vec<u8>, DecryptError>(
                DecryptError::AuthenticationFailed,
            ),
            forall|m: Seq<u8>| #[trigger]
                is_sealing_of(self@, encrypted@, m) ==> r is Ok && r->Ok_0@ == m,
    {
        if encrypted.len() < NONCE_LEN {
            return Err(DecryptError::MalformedPayload);
        }
        if encrypted.len() as u64 >= NONCE_LEN as u64 + MAX_PLAINTEXT_LEN + TAG_LEN as u64 {
            // Too long to be a sealing of any admissible plaintext.
            return Err(DecryptError::AuthenticationFailed);
        }
        let nonce = vstd::slice::slice_subrange(encrypted, 0, NONCE_LEN);
        let ciphertext = vstd::slice::slice_subrange(encrypted, NONCE_LEN, encrypted.len());
        let key = self.generate_key();
        let opened = aead_open(&key, nonce, ciphertext);
        proof {
            assert(encrypted@ =~= nonce@ + ciphertext@);
            assert forall|m: Seq<u8>| #[trigger]
                is_sealing_of(self@, encrypted@, m) implies m.len() < MAX_PLAINTEXT_LEN
                && ciphertext@ == aead_seal_of(key@, nonce@, m) by {
                let s = aead_seal_of(key@, nonce@, m);
                assert(encrypted@ == nonce@ + s);
                assert(ciphertext@ =~= (nonce@ + s).subrange(NONCE_LEN as int, encrypted@.len() as int));
                assert((nonce@ + s).subrange(NONCE_LEN as int, encrypted@.len() as int) =~= s);
            }
        }
        match opened {
            Ok(plaintext) => Ok(plaintext),
            Err(_) => Err(DecryptError::AuthenticationFailed),
        }
    }

    /// The stream variant: XORs `data` with the keystream of a `StdRng`
    /// seeded with the derived key. It uses no nonce and detects no
    /// tampering; the same parameters always give the same keystream.
    pub fn stream_encrypt(&self, data: &[u8]) -> (r: Vec<u8>)
        ensures
            r@ == stream_cipher(self@, data@),
    {
        let key = self.generate_key();
        let stream = keystream(&key, data.len());
        let mut out: Vec<u8> = Vec::new();
        let mut i: usize = 0;
        while i < data.len()
            invariant
                i <= data@.len(),
                stream@ == keystream_of(key@, data@.len()),
                stream@.len() == data@.len(),
                out@ == xor_bytes(data@, stream@).subrange(0, i as int),
            decreases data@.len() - i,
        {
            out.push(data[i] ^ stream[i]);
            i = i + 1;
            assert(out@ =~= xor_bytes(data@, stream@).subrange(0, i as int));
        }
        assert(out@ =~= xor_bytes(data@, stream@));
        out
    }

    /// Undoes `stream_encrypt`: the same XOR with the same keystream.
    pub fn stream_decrypt(&self, data: &[u8]) -> (r: Vec<u8>)
        ensures
            r@ == stream_cipher(self@, data@),
    {
        self.stream_encrypt(data)
    }
}

/// Key derivation is deterministic: engines with equal parameters derive
/// the same key.
pub proof fn lemma_key_deterministic(a: Spha256, b: Spha256)
    requires
        a@ == b@,
    ensures
        derived_key(a@) == derived_key(b@),
{
}

/// Parameter sets that differ in any field, by a single bit, are hashed from
/// different bytes.
pub proof fn lemma_encoding_injective(p: Parameters, q: Parameters)
    requires
        p != q,
    ensures
        encoding(p) != encoding(q),
{
    if encoding(p) == encoding(q) {
        let (ep, eq) = (encoding(p), encoding(q));
        assert(ep.subrange(0, 8) =~= u64_le(p.point.x) && eq.subrange(0, 8) =~= u64_le(q.point.x));
        assert(ep.subrange(8, 16) =~= u64_le(p.point.y) && eq.subrange(8, 16) =~= u64_le(q.point.y));
        assert(ep.subrange(16, 24) =~= u64_le(p.point.z) && eq.subrange(16, 24) =~= u64_le(
            q.point.z,
        ));
        assert(ep.subrange(24, 32) =~= u64_le(p.rotation_axis.x) && eq.subrange(24, 32)
            =~= u64_le(q.rotation_axis.x));
        assert(ep.subrange(32, 40) =~= u64_le(p.rotation_axis.y) && eq.subrange(32, 40)
            =~= u64_le(q.rotation_axis.y));
        assert(ep.subrange(40, 48) =~= u64_le(p.rotation_axis.z) && eq.subrange(40, 48)
            =~= u64_le(q.rotation_axis.z));
        assert(ep.subrange(48, 52) =~= u32_le(p.iterations) && eq.subrange(48, 52) =~= u32_le(
            q.iterations,
        ));
        assert(ep.subrange(52, 60) =~= u64_le(p.strength) && eq.subrange(52, 60) =~= u64_le(
            q.strength,
        ));
        lemma_u64_le_injective(p.point.x, q.point.x);
        lemma_u64_le_injective(p.point.y, q.point.y);
        lemma_u64_le_injective(p.point.z, q.point.z);
        lemma_u64_le_injective(p.rotation_axis.x, q.rotation_axis.x);
        lemma_u64_le_injective(p.rotation_axis.y, q.rotation_axis.y);
        lemma_u64_le_injective(p.rotation_axis.z, q.rotation_axis.z);
        lemma_u32_le_injective(p.iterations, q.iterations);
        lemma_u64_le_injective(p.strength, q.strength);
    }
}

proof fn lemma_xor_twice(a: u8, b: u8)
    by (bit_vector)
    ensures
        (a ^ b) ^ b == a,
{
}

/// The stream variant undoes itself: applying it twice under the same
/// parameters gives back the data, so `stream_decrypt(stream_encrypt(m))`
/// is `m`.
pub proof fn lemma_stream_round_trip(p: Parameters, m: Seq<u8>)
    ensures
        stream_cipher(p, stream_cipher(p, m)) == m,
{
    let ks = keystream_of(derived_key(p), m.len());
    let c = stream_cipher(p, m);
    assert forall|i: int| 0 <= i < m.len() implies #[trigger] stream_cipher(p, c)[i] == m[i] by {
        lemma_xor_twice(m[i], ks[i]);
    }
    assert(stream_cipher(p, c) =~= m);
}

} // verus!
