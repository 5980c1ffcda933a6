//! Ed25519 keys and signatures held as plain bytes, with the signing and
//! verification work done by `ed25519_dalek` behind trusted wrappers.

use vstd::prelude::*;
use vstd::slice::slice_to_vec;

verus! {

/// The public key that `ed25519_dalek` derives from the 32 secret bytes
/// `secret`, as its 32-byte compressed encoding.
pub uninterp spec fn ed25519_public_key_of(secret: Seq<u8>) -> Seq<u8>;

/// Whether the 32 bytes `encoding` decompress to a point of the curve, that
/// is whether `ed25519_dalek::PublicKey::from_bytes` accepts them.
pub uninterp spec fn ed25519_point_decompresses(encoding: Seq<u8>) -> bool;

/// The 64-byte signature that `ed25519_dalek` computes for `message` with
/// the secret key `secret` and the public key encoding `public`.
pub uninterp spec fn ed25519_signature(secret: Seq<u8>, public: Seq<u8>, message: Seq<u8>) -> Seq<u8>;

/// Whether `ed25519_dalek` accepts `signature` as a signature of `message`
/// under the public key encoded by `public`.
pub uninterp spec fn ed25519_verifies(public: Seq<u8>, message: Seq<u8>, signature: Seq<u8>) -> bool;

/// The form that `ed25519::Signature::from_bytes` accepts: 64 bytes whose
/// last byte has its three highest bits clear.
pub open spec fn signature_bytes_well_formed(bytes: Seq<u8>) -> bool {
    bytes.len() == 64 && bytes[63] & 0xe0u8 == 0
}

/// Fills 32 bytes from the operating system's random number generator with
/// `rand::rngs::OsRng::try_fill_bytes` (what `ed25519_dalek::SecretKey::generate`
/// does with `fill_bytes`, which panics where this returns an error). The bytes
/// are random and the generator may fail: only the length of a result is stated.
#[verifier::external_body]
fn random_secret_bytes() -> (r: Option<Vec<u8>>)
    ensures
        r matches Some(bytes) ==> bytes@.len() == 32,
{
    let mut bytes = [0u8; 32];
    match rand::RngCore::try_fill_bytes(&mut rand::rngs::OsRng, &mut bytes) {
        Ok(()) => Some(bytes.to_vec()),
        Err(_) => None,
    }
}

/// Calls `ed25519_dalek::PublicKey::from(&SecretKey)`. The result is named;
/// the source shows that it is the 32-byte compression of a curve point,
/// which `PublicKey::from_bytes` decompresses again.
#[verifier::external_body]
fn derive_public_bytes(secret: &[u8]) -> (r: Vec<u8>)
    requires
        secret@.len() == 32,
    ensures
        r@ == ed25519_public_key_of(secret@),
        r@.len() == 32,
        ed25519_point_decompresses(r@),
{
    let secret = ed25519_dalek::SecretKey::from_bytes(secret).expect("32 bytes");
    ed25519_dalek::PublicKey::from(&secret).to_bytes().to_vec()
}

/// Calls `ed25519_dalek::PublicKey::from_bytes` on 32 bytes and reports
/// whether it succeeded, which is named.
#[verifier::external_body]
fn point_decompresses(encoding: &[u8]) -> (r: bool)
    requires
        encoding@.len() == 32,
    ensures
        r == ed25519_point_decompresses(encoding@),
{
    ed25519_dalek::PublicKey::from_bytes(encoding).is_ok()
}

/// Calls `ed25519_dalek::Keypair::sign` on the keypair made of `secret` and
/// `public`. The signature is named. The source shows that it is well formed
/// (it passes through `ed25519::Signature::from_bytes`), and the crate's
/// documentation shows that a signature made with a keypair whose public half
/// is derived from its secret half verifies under that public key.
#[verifier::external_body]
fn sign_bytes(secret: &[u8], public: &[u8], message: &[u8]) -> (r: Vec<u8>)
    requires
        secret@.len() == 32,
        public@.len() == 32,
        ed25519_point_decompresses(public@),
    ensures
        r@ == ed25519_signature(secret@, public@, message@),
        signature_bytes_well_formed(r@),
        public@ == ed25519_public_key_of(secret@) ==> ed25519_verifies(public@, message@, r@),
{
    let secret = ed25519_dalek::SecretKey::from_bytes(secret).expect("32 bytes");
    let public = ed25519_dalek::PublicKey::from_bytes(public).expect("valid point");
    let keypair = ed25519_dalek::Keypair { secret, public };
    ed25519_dalek::Signer::sign(&keypair, message).to_bytes().to_vec()
}

/// Calls `ed25519_dalek::PublicKey::verify` (the `Verifier` trait) and
/// reports whether it returned `Ok`, which is named.
#[verifier::external_body]
fn verify_bytes(public: &[u8], message: &[u8], signature: &[u8]) -> (r: bool)
    requires
        public@.len() == 32,
        ed25519_point_decompresses(public@),
        signature_bytes_well_formed(signature@),
    ensures
        r == ed25519_verifies(public@, message@, signature@),
{
    let public = ed25519_dalek::PublicKey::from_bytes(public).expect("valid point");
    let signature = ed25519_dalek::Signature::from_bytes(signature).expect("well formed");
    ed25519_dalek::Verifier::verify(&public, message, &signature).is_ok()
}

/// Why bytes were refused as a key or signature, or a signature as invalid.
#[derive(Debug, Clone, Copy, PartialEq, Eq)]
pub enum SignatureError {
    /// The input had the wrong number of bytes.
    BytesLength,
    /// The bytes of a public key are not the encoding of a curve point.
    PointDecompression,
    /// The highest bits of a signature's scalar are set.
    MalformedSignature,
    /// The signature does not verify.
    Verify,
}

/// An ed25519 secret key: 32 bytes.
pub struct SecretKey {
    bytes: Vec<u8>,
}

impl View for SecretKey {
    type V = Seq<u8>;

    closed spec fn view(&self) -> Seq<u8> {
        self.bytes@
    }
}

impl SecretKey {
    #[verifier::type_invariant]
    pub open spec fn wf(self) -> bool {
        self@.len() == 32
    }

    /// Accepts exactly 32 bytes.
    pub fn from_bytes(bytes: &[u8]) -> (r: Result<SecretKey, SignatureError>)
        ensures
            bytes@.len() == 32 <==> r is Ok,
            r matches Ok(k) ==> k@ == bytes@,
            r matches Err(e) ==> e == SignatureError::BytesLength,
    {
        if bytes.len() != 32 {
            return Err(SignatureError::BytesLength);
        }
        Ok(SecretKey { bytes: slice_to_vec(bytes) })
    }

    /// The 32 bytes of the key.
    pub fn as_bytes(&self) -> (r: &[u8])
        ensures
            r@ == self@,
            r@.len() == 32,
    {
        proof {
            use_type_invariant(self);
        }
        self.bytes.as_slice()
    }

    /// A copy of the 32 bytes of the key.
    pub fn to_bytes(&self) -> (r: Vec<u8>)
        ensures
            r@ == self@,
            r@.len() == 32,
    {
        slice_to_vec(self.as_bytes())
    }
}

/// An ed25519 public key: the 32-byte encoding of a curve point.
pub struct PublicKey {
    bytes: Vec<u8>,
}

impl View for PublicKey {
    type V = Seq<u8>;

    closed spec fn view(&self) -> Seq<u8> {
        self.bytes@
    }
}

impl Clone for PublicKey {
    fn clone(&self) -> (r: Self)
        ensures
            r@ == self@,
    {
        proof {
            use_type_invariant(self);
        }
        PublicKey { bytes: slice_to_vec(self.bytes.as_slice()) }
    }
}

impl PublicKey {
    #[verifier::type_invariant]
    pub open spec fn wf(self) -> bool {
        self@.len() == 32 && ed25519_point_decompresses(self@)
    }

    /// Whether the two keys have the same encoding.
    pub fn is_same_key(&self, other: &PublicKey) -> (r: bool)
        ensures
            r == (self@ == other@),
    {
        let a = self.as_bytes();
        let b = other.as_bytes();
        let mut i: usize = 0;
        while i < 32
            invariant
                i <= 32,
                a@ == self@,
                b@ == other@,
                a@.len() == 32,
                b@.len() == 32,
                forall|j: int| 0 <= j < i ==> a@[j] == b@[j],
            decreases 32 - i,
        {
            if a[i] != b[i] {
                assert(a@[i as int] != b@[i as int]);
                return false;
            }
            i = i + 1;
        }
        assert(a@ =~= b@);
        true
    }

    /// Accepts 32 bytes that decompress to a curve point.
    pub fn from_bytes(bytes: &[u8]) -> (r: Result<PublicKey, SignatureError>)
        ensures
            (bytes@.len() == 32 && ed25519_point_decompresses(bytes@)) <==> r is Ok,
            r matches Ok(k) ==> k@ == bytes@,
            bytes@.len() != 32 ==> r == Err::<PublicKey, SignatureError>(SignatureError::BytesLength),
            bytes@.len() == 32 && !ed25519_point_decompresses(bytes@) ==> r == Err::<PublicKey, SignatureError>(
                SignatureError::PointDecompression,
            ),
    {
        if bytes.len() != 32 {
            return Err(SignatureError::BytesLength);
        }
        if !point_decompresses(bytes) {
            return Err(SignatureError::PointDecompression);
        }
        Ok(PublicKey { bytes: slice_to_vec(bytes) })
    }

    /// The public key that belongs to `secret`.
    pub fn from_secret(secret: &SecretKey) -> (r: PublicKey)
        ensures
            r@ == ed25519_public_key_of(secret@),
    {
        PublicKey { bytes: derive_public_bytes(secret.as_bytes()) }
    }

    /// The 32 bytes of the key.
    pub fn as_bytes(&self) -> (r: &[u8])
        ensures
            r@ == self@,
            r@.len() == 32,
            ed25519_point_decompresses(r@),
    {
        proof {
            use_type_invariant(self);
        }
        self.bytes.as_slice()
    }

    /// A copy of the 32 bytes of the key.
    pub fn to_bytes(&self) -> (r: Vec<u8>)
        ensures
            r@ == self@,
            r@.len() == 32,
    {
        slice_to_vec(self.as_bytes())
    }

    /// `Ok` exactly when `signature` is a valid signature of `message` under
    /// this key.
    pub fn verify(&self, message: &[u8], signature: &Signature) -> (r: Result<(), SignatureError>)
        ensures
            r is Ok <==> ed25519_verifies(self@, message@, signature@),
            r is Err ==> r == Err::<(), SignatureError>(SignatureError::Verify),
    {
        if verify_bytes(self.as_bytes(), message, signature.as_bytes()) {
            Ok(())
        } else {
            Err(SignatureError::Verify)
        }
    }
}

/// An ed25519 signature: 64 bytes, the last with its three highest bits clear.
pub struct Signature {
    bytes: Vec<u8>,
}

impl View for Signature {
    type V = Seq<u8>;

    closed spec fn view(&self) -> Seq<u8> {
        self.bytes@
    }
}

impl Clone for Signature {
    fn clone(&self) -> (r: Self)
        ensures
            r@ == self@,
    {
        proof {
            use_type_invariant(self);
        }
        Signature { bytes: slice_to_vec(self.bytes.as_slice()) }
    }
}

impl Signature {
    #[verifier::type_invariant]
    pub open spec fn wf(self) -> bool {
        signature_bytes_well_formed(self@)
    }

    /// Accepts 64 bytes whose last byte has its three highest bits clear.
    pub fn from_bytes(bytes: &[u8]) -> (r: Result<Signature, SignatureError>)
        ensures
            signature_bytes_well_formed(bytes@) <==> r is Ok,
            r matches Ok(s) ==> s@ == bytes@,
            bytes@.len() != 64 ==> r == Err::<Signature, SignatureError>(SignatureError::BytesLength),
            bytes@.len() == 64 && !signature_bytes_well_formed(bytes@) ==> r == Err::<Signature, SignatureError>(
                SignatureError::MalformedSignature,
            ),
    {
        if bytes.len() != 64 {
            return Err(SignatureError::BytesLength);
        }
        if bytes[63] & 0xe0u8 != 0 {
            return Err(SignatureError::MalformedSignature);
        }
        Ok(Signature { bytes: slice_to_vec(bytes) })
    }

    /// The 64 bytes of the signature.
    pub fn as_bytes(&self) -> (r: &[u8])
        ensures
            r@ == self@,
            signature_bytes_well_formed(r@),
    {
        proof {
            use_type_invariant(self);
        }
        self.bytes.as_slice()
    }

    /// A copy of the 64 bytes of the signature.
    pub fn to_bytes(&self) -> (r: Vec<u8>)
        ensures
            r@ == self@,
    {
        slice_to_vec(self.as_bytes())
    }
}

/// A secret key and a public key. `Keypair::generate` makes the public half
/// from the secret half; `Keypair::from_bytes` checks no such relation.
pub struct Keypair {
    pub secret: SecretKey,
    pub public: PublicKey,
}

impl Keypair {
    /// Whether the public half is the one derived from the secret half.
    pub open spec fn is_consistent(&self) -> bool {
        self.public@ == ed25519_public_key_of(self.secret@)
    }

    /// A fresh keypair from a random secret key; `None` when the operating
    /// system gives no random bytes.
    pub fn generate() -> (r: Option<Keypair>)
        ensures
            r matches Some(k) ==> k.is_consistent(),
    {
        match random_secret_bytes() {
            Some(bytes) => {
                let secret = SecretKey { bytes };
                let public = PublicKey::from_secret(&secret);
                Some(Keypair { secret, public })
            },
            None => None,
        }
    }

    /// The secret key's 32 bytes followed by the public key's 32 bytes.
    pub fn to_bytes(&self) -> (r: Vec<u8>)
        ensures
            r@ == self.secret@ + self.public@,
            r@.len() == 64,
    {
        let mut r = self.secret.to_bytes();
        let p = self.public.to_bytes();
        let mut i: usize = 0;
        while i < 32
            invariant
                i <= 32,
                p@.len() == 32,
                self.secret@.len() == 32,
                r@ == self.secret@ + p@.subrange(0, i as int),
            decreases 32 - i,
        {
            r.push(p[i]);
            proof {
                assert(p@.subrange(0, i + 1) =~= p@.subrange(0, i as int).push(p@[i as int]));
            }
            i = i + 1;
        }
        proof {
            assert(p@.subrange(0, 32) =~= p@);
        }
        r
    }

    /// Accepts 64 bytes: a secret key, then 32 bytes that decompress to a
    /// curve point. Whether they belong together is not checked.
    pub fn from_bytes(bytes: &[u8]) -> (r: Result<Keypair, SignatureError>)
        ensures
            keypair_bytes_accepted(bytes@) <==> r is Ok,
            r matches Ok(k) ==> k.secret@ == bytes@.subrange(0, 32) && k.public@ == bytes@.subrange(
                32,
                64,
            ),
            bytes@.len() != 64 ==> r == Err::<Keypair, SignatureError>(SignatureError::BytesLength),
            bytes@.len() == 64 && !keypair_bytes_accepted(bytes@) ==> r == Err::<
                Keypair,
                SignatureError,
            >(SignatureError::PointDecompression),
    {
        if bytes.len() != 64 {
            return Err(SignatureError::BytesLength);
        }
        let secret = SecretKey::from_bytes(vstd::slice::slice_subrange(bytes, 0, 32))?;
        let public = PublicKey::from_bytes(vstd::slice::slice_subrange(bytes, 32, 64))?;
        Ok(Keypair { secret, public })
    }

    /// Signs `message` with this keypair.
    pub fn sign(&self, message: &[u8]) -> (r: Signature)
        ensures
            r@ == ed25519_signature(self.secret@, self.public@, message@),
            self.is_consistent() ==> ed25519_verifies(self.public@, message@, r@),
    {
        Signature { bytes: sign_bytes(self.secret.as_bytes(), self.public.as_bytes(), message) }
    }
}

/// The 64-byte strings that `Keypair::from_bytes` accepts.
pub open spec fn keypair_bytes_accepted(bytes: Seq<u8>) -> bool {
    bytes.len() == 64 && ed25519_point_decompresses(bytes.subrange(32, 64))
}

/// Writing a keypair as bytes and reading it back gives the same keypair.
pub proof fn lemma_keypair_bytes_round_trip(secret: Seq<u8>, public: Seq<u8>)
    requires
        secret.len() == 32,
        public.len() == 32,
        ed25519_point_decompresses(public),
    ensures
        keypair_bytes_accepted(secret + public),
        (secret + public).subrange(0, 32) == secret,
        (secret + public).subrange(32, 64) == public,
{
    assert((secret + public).subrange(0, 32) =~= secret);
    assert((secret + public).subrange(32, 64) =~= public);
}

} // verus!
