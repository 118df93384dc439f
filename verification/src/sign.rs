//! Signature keys derived directly from a mnemonic's entropy by the
//! seeded ed25519 keypair construction, and a fixed-width SHA-256 digest.
//!
//! Both primitives come from the `sodiumoxide` crate behind the two
//! trusted wrappers below; the phrase handling around them is verified.

use vstd::prelude::*;
use vstd::utf8::encode_utf8;

use sodiumoxide::crypto::hash::sha256;
use sodiumoxide::crypto::sign::ed25519;

use crate::hexstr::encode_hex;
use crate::hexstr::hex_of;
use crate::mnemonic::bip_entropy_of;
use crate::mnemonic::bip_phrase_valid;
use crate::mnemonic::phrase_accepted;
use crate::mnemonic::phrase_to_entropy;
use crate::mnemonic::PhraseError;

verus! {

/// The public key bytes of the seeded ed25519 keypair construction.
pub uninterp spec fn sign_public_of(seed: Seq<u8>) -> Seq<u8>;

/// The secret key bytes of the seeded ed25519 keypair construction.
pub uninterp spec fn sign_secret_of(seed: Seq<u8>) -> Seq<u8>;

/// Relies on sodiumoxide's `ed25519::keypair_from_seed` (libsodium's
/// seeded keypair construction): both keys are computed from the 32-byte
/// seed alone. The key lengths are the crate's `PUBLICKEYBYTES` (32) and
/// `SECRETKEYBYTES` (64).
#[verifier::external_body]
fn keypair_from_seed(seed: &[u8]) -> (r: (Vec<u8>, Vec<u8>))
    requires
        seed@.len() == 32,
    ensures
        r.0@ == sign_public_of(seed@),
        r.1@ == sign_secret_of(seed@),
        r.0@.len() == 32,
        r.1@.len() == 64,
{
    let s = ed25519::Seed::from_slice(seed).expect("a 32-byte slice makes a seed");
    let (pk, sk) = ed25519::keypair_from_seed(&s);
    ((&pk[..]).to_vec(), (&sk[..]).to_vec())
}

/// The 32 digest bytes of SHA-256 over the input.
pub uninterp spec fn sha256_of(data: Seq<u8>) -> Seq<u8>;

/// Relies on sodiumoxide's `sha256::hash` (libsodium): a 32-byte digest,
/// a function of the input bytes alone.
#[verifier::external_body]
fn sha256_digest(data: &[u8]) -> (r: Vec<u8>)
    ensures
        r@ == sha256_of(data@),
        r@.len() == 32,
{
    let d = sha256::hash(data);
    (&d[..]).to_vec()
}

/// Signature keys derived from a mnemonic's entropy, together with that
/// entropy.
pub struct SignKeys {
    seed: Vec<u8>,
    public: Vec<u8>,
    secret: Vec<u8>,
}

impl SignKeys {
    /// The view of derived signature keys: the seed, the public key and
    /// the secret key bytes.
    pub closed spec fn view(&self) -> (Seq<u8>, Seq<u8>, Seq<u8>) {
        (self.seed@, self.public@, self.secret@)
    }

    /// The seed (the mnemonic's entropy), hex-encoded.
    pub fn seed_hex(&self) -> (r: String)
        ensures
            r@ == hex_of(self@.0),
    {
        encode_hex(self.seed.as_slice())
    }

    /// The public key, hex-encoded.
    pub fn public_hex(&self) -> (r: String)
        ensures
            r@ == hex_of(self@.1),
    {
        encode_hex(self.public.as_slice())
    }

    /// The secret key, hex-encoded.
    pub fn secret_hex(&self) -> (r: String)
        ensures
            r@ == hex_of(self@.2),
    {
        encode_hex(self.secret.as_slice())
    }
}

/// Recover the entropy of an accepted phrase and derive the seeded
/// ed25519 signature keypair from it.
pub fn sign_keys_from_phrase(phrase: &str) -> (r: Result<SignKeys, PhraseError>)
    ensures
        r is Ok <==> phrase_accepted(phrase@),
        r matches Ok(k) ==> {
            let e = bip_entropy_of(phrase@);
            k@ == (e, sign_public_of(e), sign_secret_of(e))
        },
        r matches Err(e) ==> (e == PhraseError::InvalidPhrase <==> !bip_phrase_valid(phrase@)),
{
    match phrase_to_entropy(phrase) {
        Ok((_canon, entropy)) => {
            let (public, secret) = keypair_from_seed(entropy.as_slice());
            Ok(SignKeys { seed: entropy, public, secret })
        },
        Err(e) => Err(e),
    }
}

/// The SHA-256 digest of the text's bytes, in lowercase hex.
pub fn sha256_hex(text: &str) -> (r: String)
    ensures
        r@ == hex_of(sha256_of(encode_utf8(text@))),
        r@.len() == 64,
{
    let d = sha256_digest(text.as_bytes());
    encode_hex(d.as_slice())
}

} // verus!
