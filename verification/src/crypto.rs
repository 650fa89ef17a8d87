//! Keys, signatures, hashes and the canonical byte encodings that are signed
//! and hashed.
use crate::errors::{ErrorView, SecurityError, SecurityResult};
use crate::text::{lower_hex, to_lower_hex};
use crate::types::{SecurityEvent, SecurityKeyPair, SecurityRequest, WalletId};
use vstd::utf8::encode_utf8;
use vstd::prelude::*;

verus! {

/// The Ed25519 public key (compressed point) of a 32-byte secret key.
pub uninterp spec fn ed25519_public_key(secret: Seq<u8>) -> Seq<u8>;

/// The Ed25519 signature of `message` under a 32-byte secret key.
pub uninterp spec fn ed25519_signature(secret: Seq<u8>, message: Seq<u8>) -> Seq<u8>;

/// Whether 32 bytes decompress to a curve point, i.e. form a verifying key.
pub uninterp spec fn ed25519_key_decodes(public: Seq<u8>) -> bool;

/// Whether a 64-byte signature of `message` verifies under a verifying key.
pub uninterp spec fn ed25519_verifies(public: Seq<u8>, message: Seq<u8>, signature: Seq<u8>) -> bool;

/// The 32-byte BLAKE3 digest of `input`.
pub uninterp spec fn blake3_digest(input: Seq<u8>) -> Seq<u8>;

/// A fresh secret key from the operating system's random source.
///
/// Calls `ed25519_dalek::SigningKey::generate` with `rand_core::OsRng` and
/// returns its bytes. Nothing is stated of the bytes but their number.
#[verifier::external_body]
fn random_secret_key() -> (secret: Vec<u8>)
    ensures
        secret@.len() == 32,
{
    ed25519_dalek::SigningKey::generate(&mut rand_core::OsRng).to_bytes().to_vec()
}

/// The verifying key of a secret key.
///
/// Calls `ed25519_dalek::SigningKey::verifying_key` on the key made by
/// `SigningKey::from_bytes`, and returns its 32 bytes. Claims that the result
/// is the public key of the secret and that it decodes as a verifying key
/// (it is the compression of a point).
#[verifier::external_body]
fn derive_public_key(secret: &[u8]) -> (public: Vec<u8>)
    requires
        secret@.len() == 32,
    ensures
        public@ == ed25519_public_key(secret@),
        public@.len() == 32,
        ed25519_key_decodes(public@),
{
    let secret: &[u8; 32] = secret.try_into().unwrap();
    ed25519_dalek::SigningKey::from_bytes(secret).verifying_key().to_bytes().to_vec()
}

/// Signs `message`.
///
/// Calls `Signer::sign` of `ed25519_dalek::SigningKey` and returns the 64
/// signature bytes. Claims that the signature is the (deterministic) Ed25519
/// signature of the message and that it verifies under the matching
/// verifying key.
#[verifier::external_body]
fn ed25519_sign(secret: &[u8], message: &[u8]) -> (signature: Vec<u8>)
    requires
        secret@.len() == 32,
    ensures
        signature@ == ed25519_signature(secret@, message@),
        signature@.len() == 64,
        ed25519_verifies(ed25519_public_key(secret@), message@, signature@),
{
    let secret: &[u8; 32] = secret.try_into().unwrap();
    let key = ed25519_dalek::SigningKey::from_bytes(secret);
    ed25519_dalek::Signer::sign(&key, message).to_bytes().to_vec()
}

/// Whether 32 bytes form a verifying key.
///
/// Calls `ed25519_dalek::VerifyingKey::from_bytes` and reports whether it
/// succeeded.
#[verifier::external_body]
fn decode_public_key(public: &[u8]) -> (ok: bool)
    requires
        public@.len() == 32,
    ensures
        ok == ed25519_key_decodes(public@),
{
    let public: &[u8; 32] = public.try_into().unwrap();
    ed25519_dalek::VerifyingKey::from_bytes(public).is_ok()
}

/// Verifies a 64-byte signature.
///
/// Calls `Verifier::verify` of the `ed25519_dalek::VerifyingKey` decoded from
/// `public`, on the `Signature` made of the 64 bytes, and reports whether it
/// returned `Ok`.
#[verifier::external_body]
fn ed25519_verify(public: &[u8], message: &[u8], signature: &[u8]) -> (ok: bool)
    requires
        public@.len() == 32,
        signature@.len() == 64,
        ed25519_key_decodes(public@),
    ensures
        ok == ed25519_verifies(public@, message@, signature@),
{
    let public: &[u8; 32] = public.try_into().unwrap();
    let signature: &[u8; 64] = signature.try_into().unwrap();
    match ed25519_dalek::VerifyingKey::from_bytes(public) {
        Ok(key) => ed25519_dalek::Verifier::verify(
            &key,
            message,
            &ed25519_dalek::Signature::from_bytes(signature),
        ).is_ok(),
        Err(_) => false,
    }
}

/// Parses signature bytes.
///
/// Calls `TryFrom<&[u8]>` of `ed25519_dalek::Signature`: it succeeds exactly
/// on 64 bytes and keeps them; its error displays as `signature error`.
#[verifier::external_body]
fn parse_signature(bytes: &[u8]) -> (r: Result<Vec<u8>, String>)
    ensures
        r is Ok <==> bytes@.len() == 64,
        r matches Ok(s) ==> s@ == bytes@,
        r matches Err(m) ==> m@ == "signature error"@,
{
    match ed25519_dalek::Signature::try_from(bytes) {
        Ok(signature) => Ok(signature.to_vec()),
        Err(e) => Err(e.to_string()),
    }
}

/// The BLAKE3 digest of `input`.
///
/// Calls `blake3::hash` and returns the 32 bytes of the `Hash`.
#[verifier::external_body]
fn blake3_hash(input: &[u8]) -> (digest: Vec<u8>)
    ensures
        digest@ == blake3_digest(input@),
        digest@.len() == 32,
{
    blake3::hash(input).as_bytes().to_vec()
}

/// An Ed25519 secret key (32 bytes).
#[derive(Debug)]
pub struct SigningKey {
    secret: Vec<u8>,
}

impl View for SigningKey {
    type V = Seq<u8>;

    closed spec fn view(&self) -> Seq<u8> {
        self.secret@
    }
}

impl SigningKey {
    #[verifier::type_invariant]
    spec fn well_formed(&self) -> bool {
        self.secret@.len() == 32
    }

    /// The signing key with the given 32 secret bytes.
    pub fn from_bytes(secret: &[u8]) -> (key: SigningKey)
        requires
            secret@.len() == 32,
        ensures
            key@ == secret@,
    {
        SigningKey { secret: vstd::slice::slice_to_vec(secret) }
    }

    /// The 32 secret bytes.
    pub fn to_bytes(&self) -> (bytes: Vec<u8>)
        ensures
            bytes@ == self@,
            bytes@.len() == 32,
    {
        proof {
            use_type_invariant(self);
        }
        let bytes = self.secret.clone();
        assert(bytes@ =~= self.secret@);
        bytes
    }

    /// The verifying key that belongs to this signing key.
    pub fn verifying_key(&self) -> (key: VerifyingKey)
        ensures
            key@ == ed25519_public_key(self@),
    {
        proof {
            use_type_invariant(self);
        }
        VerifyingKey { public: derive_public_key(self.secret.as_slice()) }
    }

    /// Signs `message` with this key.
    pub fn sign(&self, message: &[u8]) -> (signature: Vec<u8>)
        ensures
            signature@ == ed25519_signature(self@, message@),
            signature@.len() == 64,
            ed25519_verifies(ed25519_public_key(self@), message@, signature@),
    {
        proof {
            use_type_invariant(self);
        }
        ed25519_sign(self.secret.as_slice(), message)
    }
}

impl Clone for SigningKey {
    fn clone(&self) -> (r: Self)
        ensures
            r@ == self@,
    {
        proof {
            use_type_invariant(self);
        }
        let secret = self.secret.clone();
        assert(secret@ =~= self.secret@);
        SigningKey { secret }
    }
}

/// An Ed25519 verifying key: 32 bytes that decode to a curve point.
#[derive(Debug)]
pub struct VerifyingKey {
    public: Vec<u8>,
}

impl View for VerifyingKey {
    type V = Seq<u8>;

    closed spec fn view(&self) -> Seq<u8> {
        self.public@
    }
}

impl VerifyingKey {
    #[verifier::type_invariant]
    spec fn well_formed(&self) -> bool {
        self.public@.len() == 32 && ed25519_key_decodes(self.public@)
    }

    /// The 32 bytes of the key, which decode to a curve point.
    pub fn to_bytes(&self) -> (bytes: Vec<u8>)
        ensures
            bytes@ == self@,
            bytes@.len() == 32,
            ed25519_key_decodes(bytes@),
    {
        proof {
            use_type_invariant(self);
        }
        let bytes = self.public.clone();
        assert(bytes@ =~= self.public@);
        bytes
    }

    /// Whether `signature` is a valid signature of `message` under this key.
    pub fn verifies(&self, message: &[u8], signature: &[u8]) -> (ok: bool)
        requires
            signature@.len() == 64,
        ensures
            ok == ed25519_verifies(self@, message@, signature@),
    {
        proof {
            use_type_invariant(self);
        }
        ed25519_verify(self.public.as_slice(), message, signature)
    }
}

impl Clone for VerifyingKey {
    fn clone(&self) -> (r: Self)
        ensures
            r@ == self@,
    {
        proof {
            use_type_invariant(self);
        }
        let public = self.public.clone();
        assert(public@ =~= self.public@);
        VerifyingKey { public }
    }
}

/// A new signing key drawn from the operating system's random source.
pub fn generate_signing_key() -> (key: SigningKey)
    ensures
        key@.len() == 32,
{
    SigningKey { secret: random_secret_key() }
}

/// The 32 bytes of a verifying key.
pub fn verifying_key_bytes(verifying_key: &VerifyingKey) -> (bytes: Vec<u8>)
    ensures
        bytes@ == verifying_key@,
        bytes@.len() == 32,
        ed25519_key_decodes(bytes@),
{
    verifying_key.to_bytes()
}

/// The verifying key encoded by `bytes`: 32 bytes that decode to a point.
pub fn public_key_from_bytes(bytes: &[u8]) -> (r: SecurityResult<VerifyingKey>)
    ensures
        bytes@.len() != 32 ==> error_is(r, ErrorView::InvalidRequest("public key must be 32 bytes"@)),
        bytes@.len() == 32 && !ed25519_key_decodes(bytes@) ==> error_is(
            r,
            ErrorView::InvalidRequest("invalid public key bytes"@),
        ),
        bytes@.len() == 32 && ed25519_key_decodes(bytes@) ==> (r matches Ok(k) && k@ == bytes@),
{
    if bytes.len() != 32 {
        return Err(SecurityError::InvalidRequest(String::from_str("public key must be 32 bytes")));
    }
    if !decode_public_key(bytes) {
        return Err(SecurityError::InvalidRequest(String::from_str("invalid public key bytes")));
    }
    Ok(VerifyingKey { public: vstd::slice::slice_to_vec(bytes) })
}

/// Whether `r` failed with the error `e`.
pub open spec fn error_is<T>(r: SecurityResult<T>, e: ErrorView) -> bool {
    r matches Err(x) && x@ == e
}

/// Pairs a signing key with its verifying key.
pub fn keypair_from_signing_key(signing_key: SigningKey) -> (pair: SecurityKeyPair)
    ensures
        pair.signing_key@ == signing_key@,
        pair.verifying_key@ == ed25519_public_key(signing_key@),
{
    SecurityKeyPair::from_signing_key(signing_key)
}

/// The lowercase hexadecimal BLAKE3 digest of `bytes`.
pub open spec fn hex_digest(bytes: Seq<u8>) -> Seq<char> {
    lower_hex(blake3_digest(bytes))
}

/// The BLAKE3 digest of `bytes` in lowercase hexadecimal.
pub fn hash_bytes(bytes: &[u8]) -> (h: String)
    ensures
        h@ == hex_digest(bytes@),
        h@.len() == 64,
{
    let digest = blake3_hash(bytes);
    proof {
        crate::text::law_lower_hex_len(digest@);
    }
    to_lower_hex(digest.as_slice())
}

/// The input of a domain-separated hash: the domain, a zero byte, the bytes.
pub open spec fn domain_input(domain: Seq<char>, bytes: Seq<u8>) -> Seq<u8> {
    vstd::utf8::encode_utf8(domain) + seq![0u8] + bytes
}

/// A domain-separated digest, usable for replay caches, persistence indexes
/// and event fingerprints: the BLAKE3 digest of the UTF-8 domain, a zero byte
/// and the bytes, in lowercase hexadecimal.
pub fn domain_hash(domain: &str, bytes: &[u8]) -> (h: String)
    ensures
        h@ == hex_digest(domain_input(domain@, bytes@)),
{
    let mut input: Vec<u8> = Vec::new();
    input.extend_from_slice(domain.as_bytes());
    input.push(0u8);
    input.extend_from_slice(bytes);
    assert(input@ =~= domain_input(domain@, bytes@));
    hash_bytes(input.as_slice())
}

/// An Ed25519 signature (64 bytes).
#[derive(Debug)]
pub struct Signature {
    bytes: Vec<u8>,
}

impl View for Signature {
    type V = Seq<u8>;

    closed spec fn view(&self) -> Seq<u8> {
        self.bytes@
    }
}

impl Signature {
    /// The signature held by `bytes`, parsed by the Ed25519 crate.
    pub(crate) fn parse(bytes: &[u8]) -> (r: Result<Signature, String>)
        ensures
            r is Ok <==> bytes@.len() == 64,
            r matches Ok(s) ==> s@ == bytes@,
            r matches Err(m) ==> m@ == "signature error"@,
    {
        match parse_signature(bytes) {
            Ok(b) => Ok(Signature { bytes: b }),
            Err(m) => Err(m),
        }
    }

    #[verifier::type_invariant]
    spec fn well_formed(&self) -> bool {
        self.bytes@.len() == 64
    }

    /// The 64 bytes of the signature.
    pub fn to_bytes(&self) -> (bytes: Vec<u8>)
        ensures
            bytes@ == self@,
            bytes@.len() == 64,
    {
        proof {
            use_type_invariant(self);
        }
        let bytes = self.bytes.clone();
        assert(bytes@ =~= self.bytes@);
        bytes
    }
}

impl Clone for Signature {
    fn clone(&self) -> (r: Self)
        ensures
            r@ == self@,
    {
        proof {
            use_type_invariant(self);
        }
        let bytes = self.bytes.clone();
        assert(bytes@ =~= self.bytes@);
        Signature { bytes }
    }
}

/// The signature field of a request is not covered by its canonical bytes:
/// requests that differ only there have the same canonical bytes, so a
/// signature made before the field is filled in verifies after.
pub proof fn law_canonical_request_ignores_signature(a: SecurityRequest, b: SecurityRequest)
    requires
        a.protocol_version == b.protocol_version,
        a.nonce == b.nonce,
        a.operation == b.operation,
        a.region_id == b.region_id,
        a.wallet_id == b.wallet_id,
        a.target_wallet == b.target_wallet,
        a.payload@ == b.payload@,
        a.parent_event_hashes@ == b.parent_event_hashes@,
        a.timestamp == b.timestamp,
    ensures
        canonical_request(a) == canonical_request(b),
{
}

/// A signature made over a request before its signature field is filled in
/// still verifies once it is put there: `sign_request` followed by
/// `verify_request_signature` under the matching verifying key succeeds.
pub proof fn law_signed_request_verifies(secret: Seq<u8>, unsigned: SecurityRequest, signed: SecurityRequest)
    requires
        ed25519_verifies(
            ed25519_public_key(secret),
            canonical_request(unsigned),
            signed.signature@,
        ),
        unsigned.protocol_version == signed.protocol_version,
        unsigned.nonce == signed.nonce,
        unsigned.operation == signed.operation,
        unsigned.region_id == signed.region_id,
        unsigned.wallet_id == signed.wallet_id,
        unsigned.target_wallet == signed.target_wallet,
        unsigned.payload@ == signed.payload@,
        unsigned.parent_event_hashes@ == signed.parent_event_hashes@,
        unsigned.timestamp == signed.timestamp,
    ensures
        ed25519_verifies(ed25519_public_key(secret), canonical_request(signed), signed.signature@),
{
    law_canonical_request_ignores_signature(unsigned, signed);
}

/// The event hash field of an event is not covered by its canonical bytes,
/// so filling it in does not change the fingerprint.
pub proof fn law_canonical_event_ignores_event_hash(a: SecurityEvent, b: SecurityEvent)
    requires
        a.event_id == b.event_id,
        a.protocol_version == b.protocol_version,
        a.parent_hashes@ == b.parent_hashes@,
        a.region_id == b.region_id,
        a.entity_id == b.entity_id,
        a.operation == b.operation,
        a.request_hash == b.request_hash,
        a.payload_hash == b.payload_hash,
        a.auth_ratio == b.auth_ratio,
        a.attestation_score == b.attestation_score,
        a.drain_applied == b.drain_applied,
        a.certified == b.certified,
        a.actor_pk@ == b.actor_pk@,
        a.nonce == b.nonce,
        a.timestamp == b.timestamp,
        a.signature@ == b.signature@,
    ensures
        canonical_event(a) == canonical_event(b),
{
}

/// Big-endian bytes of a `u32`.
pub open spec fn u32_be(x: u32) -> Seq<u8> {
    seq![
        (x / 0x100_0000) as u8,
        (x / 0x1_0000 % 256) as u8,
        (x / 0x100 % 256) as u8,
        (x % 256) as u8,
    ]
}

/// Big-endian bytes of a `u64`.
pub open spec fn u64_be(x: u64) -> Seq<u8> {
    seq![
        (x / 0x100_0000_0000_0000) as u8,
        (x / 0x1_0000_0000_0000 % 256) as u8,
        (x / 0x100_0000_0000 % 256) as u8,
        (x / 0x1_0000_0000 % 256) as u8,
        (x / 0x100_0000 % 256) as u8,
        (x / 0x1_0000 % 256) as u8,
        (x / 0x100 % 256) as u8,
        (x % 256) as u8,
    ]
}

/// Big-endian two's-complement bytes of an `i64`.
pub open spec fn i64_be(x: i64) -> Seq<u8> {
    u64_be(x as u64)
}

/// Bytes preceded by their number as a big-endian `u64`.
pub open spec fn framed(bytes: Seq<u8>) -> Seq<u8> {
    u64_be(bytes.len() as u64) + bytes
}

/// The UTF-8 encoding of a text, framed.
pub open spec fn framed_text(text: Seq<char>) -> Seq<u8> {
    framed(encode_utf8(text))
}

/// The framed texts one after the other.
pub open spec fn framed_texts(texts: Seq<String>) -> Seq<u8>
    decreases texts.len(),
{
    if texts.len() == 0 {
        seq![]
    } else {
        framed_texts(texts.drop_last()) + framed_text(texts.last()@)
    }
}

/// The text that stands for the target wallet in the canonical encoding.
pub open spec fn target_text(target: Option<WalletId>) -> Seq<char> {
    match target {
        Some(w) => w.0@,
        None => "<none>"@,
    }
}

/// The bytes that a request signature covers: every field but the signature,
/// in declaration order, integers big-endian and texts and byte strings
/// framed by their length.
pub open spec fn canonical_request(req: SecurityRequest) -> Seq<u8> {
    u32_be(req.protocol_version) + framed_text(req.nonce.0@) + framed_text(
        req.operation.label_spec(),
    ) + framed_text(req.region_id.0@) + framed_text(req.wallet_id.0@) + framed_text(
        target_text(req.target_wallet),
    ) + framed(req.payload@) + framed_texts(req.parent_event_hashes@) + i64_be(req.timestamp)
}

/// The bytes that an event fingerprint covers: every field but the event
/// hash, ratios by their binary64 encoding, the certification flag as one
/// byte.
pub open spec fn canonical_event(ev: SecurityEvent) -> Seq<u8> {
    u32_be(ev.protocol_version) + framed_text(ev.event_id.0@) + framed_texts(ev.parent_hashes@)
        + framed_text(ev.region_id.0@) + framed_text(ev.entity_id.0@) + framed_text(
        ev.operation.label_spec(),
    ) + framed_text(ev.request_hash@) + framed_text(ev.payload_hash@) + u64_be(
        ev.auth_ratio.bits,
    ) + u64_be(ev.attestation_score.bits) + u64_be(ev.drain_applied.bits) + seq![
        if ev.certified {
            1u8
        } else {
            0u8
        },
    ] + framed(ev.actor_pk@) + framed_text(ev.nonce.0@) + i64_be(ev.timestamp) + framed(
        ev.signature@,
    )
}

/// Different `u32` values have different big-endian bytes.
proof fn lemma_u32_be_injective(x: u32, y: u32)
    requires
        u32_be(x) == u32_be(y),
    ensures
        x == y,
{
    assert(u32_be(x)[0] == u32_be(y)[0] && u32_be(x)[1] == u32_be(y)[1]);
    assert(u32_be(x)[2] == u32_be(y)[2] && u32_be(x)[3] == u32_be(y)[3]);
    assert(((x / 0x100_0000) as u8 == (y / 0x100_0000) as u8 && (x / 0x1_0000 % 256) as u8 == (y
        / 0x1_0000 % 256) as u8 && (x / 0x100 % 256) as u8 == (y / 0x100 % 256) as u8 && (x
        % 256) as u8 == (y % 256) as u8) ==> x == y) by (bit_vector);
}

/// Different `u64` values have different big-endian bytes.
proof fn lemma_u64_be_injective(x: u64, y: u64)
    requires
        u64_be(x) == u64_be(y),
    ensures
        x == y,
{
    assert(u64_be(x)[0] == u64_be(y)[0] && u64_be(x)[1] == u64_be(y)[1]);
    assert(u64_be(x)[2] == u64_be(y)[2] && u64_be(x)[3] == u64_be(y)[3]);
    assert(u64_be(x)[4] == u64_be(y)[4] && u64_be(x)[5] == u64_be(y)[5]);
    assert(u64_be(x)[6] == u64_be(y)[6] && u64_be(x)[7] == u64_be(y)[7]);
    assert(((x / 0x100_0000_0000_0000) as u8 == (y / 0x100_0000_0000_0000) as u8 && (x
        / 0x1_0000_0000_0000 % 256) as u8 == (y / 0x1_0000_0000_0000 % 256) as u8 && (x
        / 0x100_0000_0000 % 256) as u8 == (y / 0x100_0000_0000 % 256) as u8 && (x / 0x1_0000_0000
        % 256) as u8 == (y / 0x1_0000_0000 % 256) as u8 && (x / 0x100_0000 % 256) as u8 == (y
        / 0x100_0000 % 256) as u8 && (x / 0x1_0000 % 256) as u8 == (y / 0x1_0000 % 256) as u8 && (x
        / 0x100 % 256) as u8 == (y / 0x100 % 256) as u8 && (x % 256) as u8 == (y % 256) as u8)
        ==> x == y) by (bit_vector);
}

/// Different `i64` values have different big-endian bytes.
proof fn lemma_i64_be_injective(x: i64, y: i64)
    requires
        i64_be(x) == i64_be(y),
    ensures
        x == y,
{
    lemma_u64_be_injective(x as u64, y as u64);
    assert((x as u64) == (y as u64) ==> x == y) by (bit_vector);
}

/// Two concatenations with equally long first parts have equal parts.
proof fn lemma_split_equal(x1: Seq<u8>, y1: Seq<u8>, x2: Seq<u8>, y2: Seq<u8>)
    requires
        x1 + y1 == x2 + y2,
        x1.len() == x2.len(),
    ensures
        x1 == x2,
        y1 == y2,
{
    assert(x1 =~= (x1 + y1).take(x1.len() as int));
    assert(x2 =~= (x2 + y2).take(x2.len() as int));
    assert(y1 =~= (x1 + y1).skip(x1.len() as int));
    assert(y2 =~= (x2 + y2).skip(x2.len() as int));
}

/// A frame can be told apart from what follows it: equal bytes that start
/// with a frame start with the same frame.
proof fn lemma_framed_split(a: Seq<u8>, r1: Seq<u8>, b: Seq<u8>, r2: Seq<u8>)
    requires
        framed(a) + r1 == framed(b) + r2,
        a.len() <= u64::MAX,
        b.len() <= u64::MAX,
    ensures
        a == b,
        r1 == r2,
{
    assert(framed(a) + r1 =~= u64_be(a.len() as u64) + (a + r1));
    assert(framed(b) + r2 =~= u64_be(b.len() as u64) + (b + r2));
    lemma_split_equal(u64_be(a.len() as u64), a + r1, u64_be(b.len() as u64), b + r2);
    lemma_u64_be_injective(a.len() as u64, b.len() as u64);
    lemma_split_equal(a, r1, b, r2);
}

/// The same for framed texts: the texts are equal.
proof fn lemma_framed_text_split(a: Seq<char>, r1: Seq<u8>, b: Seq<char>, r2: Seq<u8>)
    requires
        framed_text(a) + r1 == framed_text(b) + r2,
        encode_utf8(a).len() <= u64::MAX,
        encode_utf8(b).len() <= u64::MAX,
    ensures
        a == b,
        r1 == r2,
{
    lemma_framed_split(encode_utf8(a), r1, encode_utf8(b), r2);
    vstd::utf8::encode_utf8_decode_utf8(a);
    vstd::utf8::encode_utf8_decode_utf8(b);
}

/// Every text of `texts` encodes to at most `u64::MAX` bytes, so that its
/// frame records its length.
pub open spec fn texts_fit_frames(texts: Seq<String>) -> bool {
    forall|i: int| 0 <= i < texts.len() ==> encode_utf8((#[trigger] texts[i])@).len() <= u64::MAX
}

/// Framed texts read from the front: the first frame, then the others.
proof fn lemma_framed_texts_first(texts: Seq<String>)
    requires
        texts.len() > 0,
    ensures
        framed_texts(texts) == framed_text(texts[0]@) + framed_texts(texts.drop_first()),
    decreases texts.len(),
{
    let first = framed_text(texts[0]@);
    if texts.len() == 1 {
        assert(texts.drop_last() =~= Seq::<String>::empty());
        assert(texts.drop_first() =~= Seq::<String>::empty());
        assert(framed_texts(texts) == framed_texts(texts.drop_last()) + framed_text(texts.last()@));
        assert(framed_texts(texts) =~= first + framed_texts(texts.drop_first()));
    } else {
        let init = texts.drop_last();
        let rest = texts.drop_first();
        let last = framed_text(texts.last()@);
        lemma_framed_texts_first(init);
        let middle = framed_texts(init.drop_first());
        assert(init[0] == texts[0]);
        assert(framed_texts(init) == first + middle);
        assert(init.drop_first() =~= rest.drop_last());
        assert(rest.last() == texts.last());
        assert(framed_texts(rest) == framed_texts(rest.drop_last()) + framed_text(rest.last()@));
        assert(framed_texts(rest) == middle + last);
        assert(framed_texts(texts) == framed_texts(init) + last);
        assert((first + middle) + last =~= first + (middle + last));
    }
}

/// What `texts_fit_frames` gives for the first text and the others.
proof fn lemma_texts_fit_frames_first(texts: Seq<String>)
    requires
        texts.len() > 0,
        texts_fit_frames(texts),
    ensures
        encode_utf8(texts[0]@).len() <= u64::MAX,
        texts_fit_frames(texts.drop_first()),
{
    assert(encode_utf8(texts[0]@).len() <= u64::MAX);
    assert forall|i: int| 0 <= i < texts.drop_first().len() implies encode_utf8(
        (#[trigger] texts.drop_first()[i])@,
    ).len() <= u64::MAX by {
        assert(texts.drop_first()[i] == texts[i + 1]);
    }
}

/// The texts of a non-empty list: the first, then those of the others.
proof fn lemma_texts_first(texts: Seq<String>)
    requires
        texts.len() > 0,
    ensures
        crate::replay::texts(texts) == seq![texts[0]@] + crate::replay::texts(texts.drop_first()),
{
    assert(crate::replay::texts(texts) =~= seq![texts[0]@] + crate::replay::texts(texts.drop_first()));
}

/// Equal framed texts come from the same texts.
proof fn lemma_framed_texts_injective(a: Seq<String>, b: Seq<String>)
    requires
        framed_texts(a) == framed_texts(b),
        texts_fit_frames(a),
        texts_fit_frames(b),
    ensures
        crate::replay::texts(a) == crate::replay::texts(b),
    decreases a.len(),
{
    if a.len() == 0 && b.len() == 0 {
        assert(crate::replay::texts(a) =~= crate::replay::texts(b));
    } else if a.len() == 0 {
        lemma_framed_texts_first(b);
        assert(framed_texts(b).len() >= 8);
    } else if b.len() == 0 {
        lemma_framed_texts_first(a);
        assert(framed_texts(a).len() >= 8);
    } else {
        lemma_framed_texts_first(a);
        lemma_framed_texts_first(b);
        lemma_texts_fit_frames_first(a);
        lemma_texts_fit_frames_first(b);
        lemma_framed_text_split(
            a[0]@,
            framed_texts(a.drop_first()),
            b[0]@,
            framed_texts(b.drop_first()),
        );
        lemma_framed_texts_injective(a.drop_first(), b.drop_first());
        lemma_texts_first(a);
        lemma_texts_first(b);
    }
}

/// Every frame of the canonical encoding of `req` records its length: no
/// text or byte string is longer than `u64::MAX` bytes.
pub open spec fn request_fits_frames(req: SecurityRequest) -> bool {
    &&& encode_utf8(req.nonce.0@).len() <= u64::MAX
    &&& encode_utf8(req.operation.label_spec()).len() <= u64::MAX
    &&& encode_utf8(req.region_id.0@).len() <= u64::MAX
    &&& encode_utf8(req.wallet_id.0@).len() <= u64::MAX
    &&& encode_utf8(target_text(req.target_wallet)).len() <= u64::MAX
    &&& req.payload@.len() <= u64::MAX
    &&& texts_fit_frames(req.parent_event_hashes@)
}

/// Nine byte strings joined from the front are the same joined from the
/// back.
proof fn lemma_join_from_back(
    x0: Seq<u8>,
    x1: Seq<u8>,
    x2: Seq<u8>,
    x3: Seq<u8>,
    x4: Seq<u8>,
    x5: Seq<u8>,
    x6: Seq<u8>,
    x7: Seq<u8>,
    x8: Seq<u8>,
)
    ensures
        x0 + x1 + x2 + x3 + x4 + x5 + x6 + x7 + x8 == x0 + (x1 + (x2 + (x3 + (x4 + (x5 + (x6 + (x7
            + x8))))))),
{
    assert(x0 + x1 + x2 + x3 + x4 + x5 + x6 + x7 + x8 =~= x0 + (x1 + (x2 + (x3 + (x4 + (x5 + (x6
        + (x7 + x8))))))));
}

/// The canonical request bytes, grouped from the back.
proof fn lemma_canonical_request_nested(req: SecurityRequest)
    ensures
        canonical_request(req) == u32_be(req.protocol_version) + (framed_text(req.nonce.0@) + (
        framed_text(req.operation.label_spec()) + (framed_text(req.region_id.0@) + (framed_text(
            req.wallet_id.0@,
        ) + (framed_text(target_text(req.target_wallet)) + (framed(req.payload@) + (framed_texts(
            req.parent_event_hashes@,
        ) + i64_be(req.timestamp)))))))),
{
    lemma_join_from_back(
        u32_be(req.protocol_version),
        framed_text(req.nonce.0@),
        framed_text(req.operation.label_spec()),
        framed_text(req.region_id.0@),
        framed_text(req.wallet_id.0@),
        framed_text(target_text(req.target_wallet)),
        framed(req.payload@),
        framed_texts(req.parent_event_hashes@),
        i64_be(req.timestamp),
    );
}

/// The bytes of a request that follow its wallet: target, payload, parent
/// hashes and timestamp.
spec fn request_tail(req: SecurityRequest) -> Seq<u8> {
    framed_text(target_text(req.target_wallet)) + (framed(req.payload@) + (framed_texts(
        req.parent_event_hashes@,
    ) + i64_be(req.timestamp)))
}

/// Equal canonical bytes agree on the fields up to the wallet, and on what
/// follows it.
proof fn lemma_request_head_binds(a: SecurityRequest, b: SecurityRequest)
    requires
        canonical_request(a) == canonical_request(b),
        request_fits_frames(a),
        request_fits_frames(b),
    ensures
        a.protocol_version == b.protocol_version,
        a.nonce.0@ == b.nonce.0@,
        a.operation.label_spec() == b.operation.label_spec(),
        a.region_id.0@ == b.region_id.0@,
        a.wallet_id.0@ == b.wallet_id.0@,
        request_tail(a) == request_tail(b),
{
    lemma_canonical_request_nested(a);
    lemma_canonical_request_nested(b);
    let ta = request_tail(a);
    let tb = request_tail(b);
    let wa = framed_text(a.wallet_id.0@) + ta;
    let wb = framed_text(b.wallet_id.0@) + tb;
    let ra = framed_text(a.region_id.0@) + wa;
    let rb = framed_text(b.region_id.0@) + wb;
    let oa = framed_text(a.operation.label_spec()) + ra;
    let ob = framed_text(b.operation.label_spec()) + rb;
    let na = framed_text(a.nonce.0@) + oa;
    let nb = framed_text(b.nonce.0@) + ob;
    lemma_split_equal(u32_be(a.protocol_version), na, u32_be(b.protocol_version), nb);
    lemma_u32_be_injective(a.protocol_version, b.protocol_version);
    lemma_framed_text_split(a.nonce.0@, oa, b.nonce.0@, ob);
    lemma_framed_text_split(a.operation.label_spec(), ra, b.operation.label_spec(), rb);
    lemma_framed_text_split(a.region_id.0@, wa, b.region_id.0@, wb);
    lemma_framed_text_split(a.wallet_id.0@, ta, b.wallet_id.0@, tb);
}

/// Equal tails agree on the target text, payload, parent hashes and
/// timestamp.
proof fn lemma_request_tail_binds(a: SecurityRequest, b: SecurityRequest)
    requires
        request_tail(a) == request_tail(b),
        request_fits_frames(a),
        request_fits_frames(b),
    ensures
        target_text(a.target_wallet) == target_text(b.target_wallet),
        a.payload@ == b.payload@,
        crate::replay::texts(a.parent_event_hashes@) == crate::replay::texts(b.parent_event_hashes@),
        a.timestamp == b.timestamp,
{
    let pa = framed_texts(a.parent_event_hashes@) + i64_be(a.timestamp);
    let pb = framed_texts(b.parent_event_hashes@) + i64_be(b.timestamp);
    let ya = framed(a.payload@) + pa;
    let yb = framed(b.payload@) + pb;
    lemma_framed_text_split(target_text(a.target_wallet), ya, target_text(b.target_wallet), yb);
    lemma_framed_split(a.payload@, pa, b.payload@, pb);
    lemma_split_equal(
        framed_texts(a.parent_event_hashes@),
        i64_be(a.timestamp),
        framed_texts(b.parent_event_hashes@),
        i64_be(b.timestamp),
    );
    lemma_i64_be_injective(a.timestamp, b.timestamp);
    lemma_framed_texts_injective(a.parent_event_hashes@, b.parent_event_hashes@);
}

/// A signature binds every field that it covers: requests with the same
/// canonical bytes have the same version, nonce, operation label, region,
/// wallet, target text, payload, parent hashes and timestamp. The target
/// is bound by its text, and an absent target is written `<none>`, so an
/// absent target and a target wallet named `<none>` are not told apart.
pub proof fn law_canonical_request_binds_fields(a: SecurityRequest, b: SecurityRequest)
    requires
        canonical_request(a) == canonical_request(b),
        request_fits_frames(a),
        request_fits_frames(b),
    ensures
        a.protocol_version == b.protocol_version,
        a.nonce.0@ == b.nonce.0@,
        a.operation.label_spec() == b.operation.label_spec(),
        a.region_id.0@ == b.region_id.0@,
        a.wallet_id.0@ == b.wallet_id.0@,
        target_text(a.target_wallet) == target_text(b.target_wallet),
        a.payload@ == b.payload@,
        crate::replay::texts(a.parent_event_hashes@) == crate::replay::texts(b.parent_event_hashes@),
        a.timestamp == b.timestamp,
{
    lemma_request_head_binds(a, b);
    lemma_request_tail_binds(a, b);
}

/// Sixteen byte strings joined from the front, regrouped around the third.
proof fn lemma_regroup_third(
    x0: Seq<u8>,
    x1: Seq<u8>,
    x2: Seq<u8>,
    x3: Seq<u8>,
    x4: Seq<u8>,
    x5: Seq<u8>,
    x6: Seq<u8>,
    x7: Seq<u8>,
    x8: Seq<u8>,
    x9: Seq<u8>,
    x10: Seq<u8>,
    x11: Seq<u8>,
    x12: Seq<u8>,
    x13: Seq<u8>,
    x14: Seq<u8>,
    x15: Seq<u8>,
)
    ensures
        x0 + x1 + x2 + x3 + x4 + x5 + x6 + x7 + x8 + x9 + x10 + x11 + x12 + x13 + x14 + x15 == (x0
            + x1) + (x2 + (x3 + x4 + x5 + x6 + x7 + x8 + x9 + x10 + x11 + x12 + x13 + x14 + x15)),
{
    assert(x0 + x1 + x2 + x3 + x4 + x5 + x6 + x7 + x8 + x9 + x10 + x11 + x12 + x13 + x14 + x15 =~= (
    x0 + x1) + (x2 + (x3 + x4 + x5 + x6 + x7 + x8 + x9 + x10 + x11 + x12 + x13 + x14 + x15)));
}

/// The canonical bytes of an event after its parent hashes.
spec fn event_tail(ev: SecurityEvent) -> Seq<u8> {
    framed_text(ev.region_id.0@) + framed_text(ev.entity_id.0@) + framed_text(
        ev.operation.label_spec(),
    ) + framed_text(ev.request_hash@) + framed_text(ev.payload_hash@) + u64_be(ev.auth_ratio.bits)
        + u64_be(ev.attestation_score.bits) + u64_be(ev.drain_applied.bits) + seq![
        if ev.certified {
            1u8
        } else {
            0u8
        },
    ] + framed(ev.actor_pk@) + framed_text(ev.nonce.0@) + i64_be(ev.timestamp) + framed(
        ev.signature@,
    )
}

/// The canonical event bytes: version and identifier, the parent hashes,
/// then the rest.
proof fn lemma_canonical_event_around_parents(ev: SecurityEvent)
    ensures
        canonical_event(ev) == (u32_be(ev.protocol_version) + framed_text(ev.event_id.0@)) + (
        framed_texts(ev.parent_hashes@) + event_tail(ev)),
{
    lemma_regroup_third(
        u32_be(ev.protocol_version),
        framed_text(ev.event_id.0@),
        framed_texts(ev.parent_hashes@),
        framed_text(ev.region_id.0@),
        framed_text(ev.entity_id.0@),
        framed_text(ev.operation.label_spec()),
        framed_text(ev.request_hash@),
        framed_text(ev.payload_hash@),
        u64_be(ev.auth_ratio.bits),
        u64_be(ev.attestation_score.bits),
        u64_be(ev.drain_applied.bits),
        seq![if ev.certified { 1u8 } else { 0u8 }],
        framed(ev.actor_pk@),
        framed_text(ev.nonce.0@),
        i64_be(ev.timestamp),
        framed(ev.signature@),
    );
}

/// The event fingerprint binds the parent hashes, every one of them and in
/// order: two events that differ only in their parent hashes have the same
/// canonical bytes only if they have the same parent-hash texts.
pub proof fn law_canonical_event_binds_parents(a: SecurityEvent, b: SecurityEvent)
    requires
        canonical_event(a) == canonical_event(b),
        texts_fit_frames(a.parent_hashes@),
        texts_fit_frames(b.parent_hashes@),
        a.event_id == b.event_id,
        a.protocol_version == b.protocol_version,
        a.region_id == b.region_id,
        a.entity_id == b.entity_id,
        a.operation == b.operation,
        a.request_hash == b.request_hash,
        a.payload_hash == b.payload_hash,
        a.auth_ratio == b.auth_ratio,
        a.attestation_score == b.attestation_score,
        a.drain_applied == b.drain_applied,
        a.certified == b.certified,
        a.actor_pk@ == b.actor_pk@,
        a.nonce == b.nonce,
        a.timestamp == b.timestamp,
        a.signature@ == b.signature@,
    ensures
        crate::replay::texts(a.parent_hashes@) == crate::replay::texts(b.parent_hashes@),
{
    lemma_canonical_event_around_parents(a);
    lemma_canonical_event_around_parents(b);
    let head = u32_be(a.protocol_version) + framed_text(a.event_id.0@);
    let tail = event_tail(a);
    assert(event_tail(b) == tail);
    let fa = framed_texts(a.parent_hashes@);
    let fb = framed_texts(b.parent_hashes@);
    lemma_split_equal(head, fa + tail, head, fb + tail);
    assert(fa.len() == fb.len());
    lemma_split_equal(fa, tail, fb, tail);
    lemma_framed_texts_injective(a.parent_hashes@, b.parent_hashes@);
}

fn push_u32_be(out: &mut Vec<u8>, x: u32)
    ensures
        final(out)@ == old(out)@ + u32_be(x),
{
    out.push((x / 0x100_0000) as u8);
    out.push((x / 0x1_0000 % 256) as u8);
    out.push((x / 0x100 % 256) as u8);
    out.push((x % 256) as u8);
    assert(out@ =~= old(out)@ + u32_be(x));
}

fn push_u64_be(out: &mut Vec<u8>, x: u64)
    ensures
        final(out)@ == old(out)@ + u64_be(x),
{
    out.push((x / 0x100_0000_0000_0000) as u8);
    out.push((x / 0x1_0000_0000_0000 % 256) as u8);
    out.push((x / 0x100_0000_0000 % 256) as u8);
    out.push((x / 0x1_0000_0000 % 256) as u8);
    out.push((x / 0x100_0000 % 256) as u8);
    out.push((x / 0x1_0000 % 256) as u8);
    out.push((x / 0x100 % 256) as u8);
    out.push((x % 256) as u8);
    assert(out@ =~= old(out)@ + u64_be(x));
}

fn push_i64_be(out: &mut Vec<u8>, x: i64)
    ensures
        final(out)@ == old(out)@ + i64_be(x),
{
    push_u64_be(out, x as u64);
}

fn push_bytes(out: &mut Vec<u8>, value: &[u8])
    ensures
        final(out)@ == old(out)@ + framed(value@),
{
    push_u64_be(out, value.len() as u64);
    out.extend_from_slice(value);
    assert(out@ =~= old(out)@ + framed(value@));
}

fn push_str(out: &mut Vec<u8>, value: &str)
    ensures
        final(out)@ == old(out)@ + framed_text(value@),
{
    push_bytes(out, value.as_bytes());
}

fn push_strs(out: &mut Vec<u8>, values: &Vec<String>)
    ensures
        final(out)@ == old(out)@ + framed_texts(values@),
{
    let ghost start = out@;
    let n = values.len();
    let mut i: usize = 0;
    while i < n
        invariant
            n == values@.len(),
            i <= n,
            out@ == start + framed_texts(values@.take(i as int)),
        decreases n - i,
    {
        push_str(out, values[i].as_str());
        assert(values@.take(i + 1).drop_last() =~= values@.take(i as int));
        i = i + 1;
        assert(out@ =~= start + framed_texts(values@.take(i as int)));
    }
    assert(values@.take(n as int) =~= values@);
}

/// The canonical bytes of a request, which its signature covers.
pub fn canonical_request_bytes(request: &SecurityRequest) -> (r: SecurityResult<Vec<u8>>)
    ensures
        r matches Ok(bytes) && bytes@ == canonical_request(*request),
{
    let mut out: Vec<u8> = Vec::new();
    push_u32_be(&mut out, request.protocol_version);
    push_str(&mut out, request.nonce.0.as_str());
    let label = request.operation.label();
    push_str(&mut out, label.as_str());
    push_str(&mut out, request.region_id.0.as_str());
    push_str(&mut out, request.wallet_id.0.as_str());
    match &request.target_wallet {
        Some(w) => push_str(&mut out, w.0.as_str()),
        None => push_str(&mut out, "<none>"),
    }
    push_bytes(&mut out, request.payload.as_slice());
    push_strs(&mut out, &request.parent_event_hashes);
    push_i64_be(&mut out, request.timestamp);
    assert(out@ =~= canonical_request(*request));
    Ok(out)
}

/// The canonical bytes of an event, which its fingerprint covers.
pub fn canonical_event_bytes(event: &SecurityEvent) -> (r: SecurityResult<Vec<u8>>)
    ensures
        r matches Ok(bytes) && bytes@ == canonical_event(*event),
{
    let mut out: Vec<u8> = Vec::new();
    push_u32_be(&mut out, event.protocol_version);
    push_str(&mut out, event.event_id.0.as_str());
    push_strs(&mut out, &event.parent_hashes);
    push_str(&mut out, event.region_id.0.as_str());
    push_str(&mut out, event.entity_id.0.as_str());
    let label = event.operation.label();
    push_str(&mut out, label.as_str());
    push_str(&mut out, event.request_hash.as_str());
    push_str(&mut out, event.payload_hash.as_str());
    push_u64_be(&mut out, event.auth_ratio.bits);
    push_u64_be(&mut out, event.attestation_score.bits);
    push_u64_be(&mut out, event.drain_applied.bits);
    out.push(if event.certified { 1u8 } else { 0u8 });
    push_bytes(&mut out, event.actor_pk.as_slice());
    push_str(&mut out, event.nonce.0.as_str());
    push_i64_be(&mut out, event.timestamp);
    push_bytes(&mut out, event.signature.as_slice());
    assert(out@ =~= canonical_event(*event));
    Ok(out)
}

/// Signs the canonical bytes of `request`.
pub fn sign_request(signing_key: &SigningKey, request: &SecurityRequest) -> (r: SecurityResult<
    Vec<u8>,
>)
    ensures
        r matches Ok(signature) && signature@ == ed25519_signature(
            signing_key@,
            canonical_request(*request),
        ),
        r matches Ok(signature) && signature@.len() == 64,
        r matches Ok(signature) && ed25519_verifies(
            ed25519_public_key(signing_key@),
            canonical_request(*request),
            signature@,
        ),
{
    let bytes = match canonical_request_bytes(request) {
        Ok(b) => b,
        Err(e) => return Err(e),
    };
    Ok(signing_key.sign(bytes.as_slice()))
}

/// Checks the request signature against `verifying_key`: it must be 64 bytes
/// long and verify on the canonical bytes of the request.
pub fn verify_request_signature(verifying_key: &VerifyingKey, request: &SecurityRequest) -> (r:
    SecurityResult<()>)
    ensures
        request.signature@.len() != 64 ==> error_is(r, ErrorView::InvalidSignatureLength),
        request.signature@.len() == 64 ==> (r is Ok <==> ed25519_verifies(
            verifying_key@,
            canonical_request(*request),
            request.signature@,
        )),
        request.signature@.len() == 64 && r is Err ==> error_is(r, ErrorView::InvalidSignature),
{
    if request.signature.len() != 64 {
        return Err(SecurityError::InvalidSignatureLength);
    }
    let bytes = match canonical_request_bytes(request) {
        Ok(b) => b,
        Err(e) => return Err(e),
    };
    let signature = match parse_signature(request.signature.as_slice()) {
        Ok(s) => s,
        Err(_) => return Err(SecurityError::InvalidSignature),
    };
    if verifying_key.verifies(bytes.as_slice(), signature.as_slice()) {
        Ok(())
    } else {
        Err(SecurityError::InvalidSignature)
    }
}

/// The hexadecimal BLAKE3 digest of the canonical bytes of `request`.
pub fn hash_request(request: &SecurityRequest) -> (r: SecurityResult<String>)
    ensures
        r matches Ok(h) && h@ == hex_digest(canonical_request(*request)),
{
    let bytes = match canonical_request_bytes(request) {
        Ok(b) => b,
        Err(e) => return Err(e),
    };
    Ok(hash_bytes(bytes.as_slice()))
}

/// The hexadecimal BLAKE3 digest of the canonical bytes of `event`.
pub fn hash_event(event: &SecurityEvent) -> (r: SecurityResult<String>)
    ensures
        r matches Ok(h) && h@ == hex_digest(canonical_event(*event)),
{
    let bytes = match canonical_event_bytes(event) {
        Ok(b) => b,
        Err(e) => return Err(e),
    };
    Ok(hash_bytes(bytes.as_slice()))
}

} // verus!
