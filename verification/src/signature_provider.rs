use vstd::prelude::*;

verus! {

/// Why a signing capability call failed.
#[derive(Clone, Copy, Debug, PartialEq, Eq, Structural)]
pub enum SignError {
    /// A signing call failed.
    SigningFailed,
    /// The public identity could not be obtained.
    IdentityUnavailable,
}

/// The 32-byte SHA3-256 digest of `msg`: a function of the bytes alone.
pub uninterp spec fn spec_sha3_digest(msg: Seq<u8>) -> Seq<u8>;

/// Whether `bytes` is a serialized BLS secret key that
/// `bls_signatures::PrivateKey::from_bytes` accepts.
pub uninterp spec fn spec_valid_secret_key(bytes: Seq<u8>) -> bool;

/// The serialized BLS signature that the secret key serialized as `key`
/// produces over `msg`: a function of the two byte strings alone.
pub uninterp spec fn spec_bls_signature(key: Seq<u8>, msg: Seq<u8>) -> Seq<u8>;

/// The serialized public key of the secret key serialized as `key`: a
/// function of the key bytes alone.
pub uninterp spec fn spec_bls_public_key(key: Seq<u8>) -> Seq<u8>;

/// Whether the serialized signature `sig` verifies over message `msg`
/// under the serialized public key `pk`: a function of the three byte
/// strings alone.
pub uninterp spec fn spec_bls_verifies(pk: Seq<u8>, sig: Seq<u8>, msg: Seq<u8>) -> bool;

/// The canonical serialization of the zero secret key: 32 zero bytes.
/// PrivateKey::from_bytes accepts it (the underlying scalar field accepts
/// any canonical value below the modulus, zero included), but a signature
/// made with it never verifies: the matching public key is the group
/// identity, which verification rejects outright.
pub open spec fn spec_zero_secret_key() -> Seq<u8> {
    Seq::new(32, |i: int| 0u8)
}

/// Relies on sha3::Sha3_256::digest: the digest is 32 bytes and depends on
/// the input bytes alone.
#[verifier::external_body]
fn sha3_256_digest(msg: &[u8]) -> (r: Vec<u8>)
    ensures
        r@ == spec_sha3_digest(msg@),
        r@.len() == 32,
{
    <sha3::Sha3_256 as sha3::Digest>::digest(msg).to_vec()
}

/// Relies on bls_signatures::PrivateKey::generate (drawing randomness from
/// the operating system) and Serialize::as_bytes: whatever key comes back,
/// its canonical serialization is accepted again by PrivateKey::from_bytes.
#[verifier::external_body]
fn bls_generate_secret_key() -> (r: Vec<u8>)
    ensures
        spec_valid_secret_key(r@),
{
    let key = bls_signatures::PrivateKey::generate(&mut rand::rngs::OsRng);
    bls_signatures::Serialize::as_bytes(&key)
}

/// Relies on bls_signatures::PrivateKey::sign: the signature is the message
/// hash scaled by the key, so it depends on the key and message bytes
/// alone, and (per PublicKey::verify) an honestly produced signature
/// verifies under the key's public key — except for the zero key, whose
/// public key is the identity element and is rejected by verification.
/// from_bytes accepts exactly the valid serialized keys.
#[verifier::external_body]
fn bls_sign(key: &[u8], msg: &[u8]) -> (r: Option<Vec<u8>>)
    ensures
        spec_valid_secret_key(key@) ==> r is Some,
        r is Some ==> r->0@ == spec_bls_signature(key@, msg@),
        r is Some && key@ != spec_zero_secret_key() ==> spec_bls_verifies(
            spec_bls_public_key(key@),
            spec_bls_signature(key@, msg@),
            msg@,
        ),
{
    match <bls_signatures::PrivateKey as bls_signatures::Serialize>::from_bytes(key) {
        Ok(k) => Some(bls_signatures::Serialize::as_bytes(&k.sign(msg))),
        Err(_) => None,
    }
}

/// Relies on bls_signatures::PrivateKey::public_key: the public key is the
/// group generator scaled by the key, a function of the key bytes alone.
/// from_bytes accepts exactly the valid serialized keys.
#[verifier::external_body]
fn bls_public_key(key: &[u8]) -> (r: Option<Vec<u8>>)
    ensures
        spec_valid_secret_key(key@) ==> r is Some,
        r is Some ==> r->0@ == spec_bls_public_key(key@),
{
    match <bls_signatures::PrivateKey as bls_signatures::Serialize>::from_bytes(key) {
        Ok(k) => Some(bls_signatures::Serialize::as_bytes(&k.public_key())),
        Err(_) => None,
    }
}

/// Relies on bls_signatures::PublicKey::verify, a pairing check that
/// depends on the three byte strings alone; byte strings that do not
/// deserialize verify nothing.
#[verifier::external_body]
fn bls_verify(pk: &[u8], sig: &[u8], msg: &[u8]) -> (r: bool)
    ensures
        r == spec_bls_verifies(pk@, sig@, msg@),
{
    match (<bls_signatures::PublicKey as bls_signatures::Serialize>::from_bytes(pk), <bls_signatures::Signature as bls_signatures::Serialize>::from_bytes(sig)) {
        (Ok(p), Ok(s)) => p.verify(s, msg),
        _ => false,
    }
}

/// Check a serialized signature against a serialized public key over a
/// message (for this library's signatures: over the 32-byte digest of the
/// statement's canonical encoding).
pub fn verify_signature(pk: &[u8], sig: &[u8], msg: &[u8]) -> (r: bool)
    ensures
        r == spec_bls_verifies(pk@, sig@, msg@),
{
    bls_verify(pk, sig, msg)
}

/// An abstract signing capability: it signs byte strings and reports a
/// public identity that the signatures verify against. Implementations may
/// be swapped (a private key in memory, a remote signer, a test double).
pub trait SignatureProvider: Sized {
    /// The public identity this provider reports.
    spec fn spec_identity(&self) -> Seq<u8>;

    /// The signature this provider produces over the message bytes `msg`.
    spec fn spec_signature(&self, msg: Seq<u8>) -> Seq<u8>;

    /// Whether the signature this provider produces over `msg` verifies
    /// against its identity, under the provider's verification scheme.
    spec fn spec_signature_verifies(&self, msg: Seq<u8>) -> bool;

    /// Whether this provider's calls cannot fail: under it, `sign` and
    /// `get_public_key` return Ok on every input.
    spec fn spec_infallible(&self) -> bool;

    /// Sign the message bytes. The same provider signing the same bytes
    /// produces the same signature, and a produced signature verifies
    /// against the provider's identity.
    fn sign(&self, msg: &[u8]) -> (r: Result<Vec<u8>, SignError>)
        ensures
            r is Ok ==> r->Ok_0@ == self.spec_signature(msg@),
            r is Ok ==> self.spec_signature_verifies(msg@),
            self.spec_infallible() ==> r is Ok,
    ;

    /// The public identity the provider's signatures verify against.
    fn get_public_key(&self) -> (r: Result<Vec<u8>, SignError>)
        ensures
            r is Ok ==> r->Ok_0@ == self.spec_identity(),
            self.spec_infallible() ==> r is Ok,
    ;
}

/// A signing capability backed by a BLS secret key held in memory.
#[derive(Clone, Debug)]
pub struct PrivateKeySignatureProvider {
    private_key: Vec<u8>,
}

/// Whether `key` is exactly the 32-byte serialization of the zero key.
fn is_zero_key(key: &Vec<u8>) -> (r: bool)
    ensures
        r == (key@ == spec_zero_secret_key()),
{
    if key.len() != 32 {
        return false;
    }
    let mut i: usize = 0;
    while i < 32
        invariant
            0 <= i <= 32,
            key@.len() == 32,
            forall|j: int| 0 <= j < i ==> key@[j] == 0u8,
        decreases 32 - i,
    {
        if key[i] != 0 {
            assert(key@ != spec_zero_secret_key());
            return false;
        }
        i = i + 1;
    }
    assert(key@ =~= spec_zero_secret_key());
    true
}

impl PrivateKeySignatureProvider {
    /// Whether the held key bytes are a valid serialized secret key; true
    /// of every provider that `random` built.
    pub closed spec fn key_valid(self) -> bool {
        spec_valid_secret_key(self.private_key@)
    }

    /// Whether the held key is not the (degenerate) zero key, whose
    /// signatures never verify.
    pub closed spec fn key_nonzero(self) -> bool {
        self.private_key@ != spec_zero_secret_key()
    }

    /// A provider in working order: its key is valid and nonzero, so every
    /// signing and identity call succeeds and every signature it produces
    /// verifies.
    pub open spec fn wf(self) -> bool {
        self.key_valid() && self.key_nonzero()
    }

    /// A provider around a freshly generated random key.
    pub fn random() -> (r: PrivateKeySignatureProvider)
        ensures
            r.key_valid(),
    {
        PrivateKeySignatureProvider { private_key: bls_generate_secret_key() }
    }

    /// Whether the held key is nonzero. Key generation draws from the
    /// whole scalar field, so this is how a caller of `random` settles
    /// `wf` for the provider it was handed.
    pub fn has_nonzero_key(&self) -> (r: bool)
        ensures
            r == self.key_nonzero(),
    {
        !is_zero_key(&self.private_key)
    }

    /// The digest that is actually signed: the SHA3-256 digest of the
    /// message bytes.
    pub fn get_message_digest(&self, msg: &[u8]) -> (r: Vec<u8>)
        ensures
            r@ == spec_sha3_digest(msg@),
            r@.len() == 32,
    {
        sha3_256_digest(msg)
    }
}

impl SignatureProvider for PrivateKeySignatureProvider {
    closed spec fn spec_identity(&self) -> Seq<u8> {
        spec_bls_public_key(self.private_key@)
    }

    closed spec fn spec_signature(&self, msg: Seq<u8>) -> Seq<u8> {
        spec_bls_signature(self.private_key@, spec_sha3_digest(msg))
    }

    closed spec fn spec_signature_verifies(&self, msg: Seq<u8>) -> bool {
        spec_bls_verifies(
            spec_bls_public_key(self.private_key@),
            spec_bls_signature(self.private_key@, spec_sha3_digest(msg)),
            spec_sha3_digest(msg),
        )
    }

    open spec fn spec_infallible(&self) -> bool {
        self.wf()
    }

    fn sign(&self, msg: &[u8]) -> (r: Result<Vec<u8>, SignError>) {
        if is_zero_key(&self.private_key) {
            // A zero-key signature would never verify; refuse to make one.
            return Err(SignError::SigningFailed);
        }
        let digest = sha3_256_digest(msg);
        match bls_sign(self.private_key.as_slice(), digest.as_slice()) {
            Some(sig) => Ok(sig),
            None => Err(SignError::SigningFailed),
        }
    }

    fn get_public_key(&self) -> (r: Result<Vec<u8>, SignError>) {
        match bls_public_key(self.private_key.as_slice()) {
            Some(pk) => Ok(pk),
            None => Err(SignError::IdentityUnavailable),
        }
    }
}

/// For the private-key provider, a verifying signature means exactly that
/// the BLS pairing check passes for the provider's public key and the
/// SHA3-256 digest of the message bytes.
pub proof fn lemma_private_key_signature_verifies(p: &PrivateKeySignatureProvider, msg: Seq<u8>)
    requires
        p.spec_signature_verifies(msg),
    ensures
        spec_bls_verifies(p.spec_identity(), p.spec_signature(msg), spec_sha3_digest(msg)),
{
}

} // verus!
