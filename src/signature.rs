use vstd::prelude::*;

use crate::bytes::{bytes_eq, copy_bytes};

verus! {

/// Whether `sig` is an ed25519 signature of `msg` that verifies, under the
/// strict rules, against the public key whose encoding is `key`.
pub uninterp spec fn ed25519_accepts(key: Seq<u8>, msg: Seq<u8>, sig: Seq<u8>) -> bool;

/// The ed25519 signature of `msg` under the secret key `secret`.
pub uninterp spec fn ed25519_signature(secret: Seq<u8>, msg: Seq<u8>) -> Seq<u8>;

/// The encoded ed25519 public key that belongs to the secret key `secret`.
pub uninterp spec fn ed25519_public_key(secret: Seq<u8>) -> Seq<u8>;

/// Relies on ed25519_dalek's `VerifyingKey::try_from`, `Signature::from_slice`
/// and `VerifyingKey::verify_strict`: a key or a signature that does not decode
/// verifies nothing; otherwise the answer depends on the three inputs alone.
#[verifier::external_body]
fn ed25519_verify(key: &[u8], msg: &[u8], sig: &[u8]) -> (r: bool)
    ensures
        r == ed25519_accepts(key@, msg@, sig@),
{
    match (ed25519_dalek::VerifyingKey::try_from(key), ed25519_dalek::Signature::from_slice(sig)) {
        (Ok(k), Ok(s)) => k.verify_strict(msg, &s).is_ok(),
        _ => false,
    }
}

/// Relies on ed25519_dalek's `SigningKey::try_from` (which accepts exactly 32
/// bytes) and `Signer::sign`: ed25519 signing is deterministic, and a
/// signature is 64 bytes.
#[verifier::external_body]
pub(crate) fn ed25519_sign(secret: &[u8], msg: &[u8]) -> (r: Vec<u8>)
    requires
        secret@.len() == 32,
    ensures
        r@ == ed25519_signature(secret@, msg@),
        r@.len() == 64,
{
    let k = ed25519_dalek::SigningKey::try_from(secret).unwrap();
    ed25519_dalek::Signer::sign(&k, msg).to_bytes().to_vec()
}

/// Relies on ed25519_dalek's `SigningKey::try_from` (which accepts exactly 32
/// bytes) and `SigningKey::verifying_key`: an encoded public key is 32 bytes.
#[verifier::external_body]
pub(crate) fn ed25519_derive_public(secret: &[u8]) -> (r: Vec<u8>)
    requires
        secret@.len() == 32,
    ensures
        r@ == ed25519_public_key(secret@),
        r@.len() == 32,
{
    let k = ed25519_dalek::SigningKey::try_from(secret).unwrap();
    k.verifying_key().to_bytes().to_vec()
}

/// A verifying key together with a signature that it is claimed to have made.
pub struct SignatureBundle {
    pub verifying_key: Vec<u8>,
    pub signature: Vec<u8>,
}

/// The byte strings of a list of keys.
pub open spec fn key_seqs(keys: Seq<Vec<u8>>) -> Seq<Seq<u8>> {
    keys.map_values(|k: Vec<u8>| k@)
}

/// Whether the bundle's signature verifies over `msg` against its own key.
pub open spec fn bundle_accepts(b: SignatureBundle, msg: Seq<u8>) -> bool {
    ed25519_accepts(b.verifying_key@, msg, b.signature@)
}

/// Whether the bundle verifies over `msg` and its key is one of `permitted`.
pub open spec fn authorized(b: SignatureBundle, msg: Seq<u8>, permitted: Seq<Seq<u8>>) -> bool {
    bundle_accepts(b, msg) && permitted.contains(b.verifying_key@)
}

impl SignatureBundle {
    pub fn new(verifying_key: Vec<u8>, signature: Vec<u8>) -> (r: Self)
        ensures
            r.verifying_key@ == verifying_key@,
            r.signature@ == signature@,
    {
        SignatureBundle { verifying_key, signature }
    }

    /// A copy of the bundle.
    pub fn duplicate(&self) -> (r: Self)
        ensures
            r.verifying_key@ == self.verifying_key@,
            r.signature@ == self.signature@,
    {
        SignatureBundle {
            verifying_key: copy_bytes(self.verifying_key.as_slice()),
            signature: copy_bytes(self.signature.as_slice()),
        }
    }

    /// Whether the bundle's signature verifies over `msg` against its own key.
    pub fn accepts(&self, msg: &[u8]) -> (r: bool)
        ensures
            r == bundle_accepts(*self, msg@),
    {
        ed25519_verify(self.verifying_key.as_slice(), msg, self.signature.as_slice())
    }
}

/// Whether `key` is one of `keys`.
pub fn contains_key(keys: &Vec<Vec<u8>>, key: &[u8]) -> (r: bool)
    ensures
        r == key_seqs(keys@).contains(key@),
{
    let mut i: usize = 0;
    while i < keys.len()
        invariant
            0 <= i <= keys@.len(),
            forall|j: int| 0 <= j < i ==> keys@[j]@ != key@,
        decreases keys@.len() - i,
    {
        if bytes_eq(keys[i].as_slice(), key) {
            assert(key_seqs(keys@)[i as int] == key@);
            return true;
        }
        i = i + 1;
    }
    assert forall|j: int| 0 <= j < key_seqs(keys@).len() implies key_seqs(keys@)[j] != key@ by {
        assert(keys@[j]@ != key@);
    }
    false
}

/// The authorization guard: the bundle's signature verifies over `message`
/// against the bundle's own key, and that key is one of `permitted`.
pub fn verify_signature(message: &[u8], bundle: &SignatureBundle, permitted: &Vec<Vec<u8>>) -> (r: bool)
    ensures
        r == authorized(*bundle, message@, key_seqs(permitted@)),
{
    if !contains_key(permitted, bundle.verifying_key.as_slice()) {
        return false;
    }
    bundle.accepts(message)
}

} // verus!
