//! Deterministic derivation of an asymmetric keypair from 32 bytes of
//! entropy, through a pseudo-random generator seeded by that entropy alone.

use vstd::prelude::*;

use crate::hexstr::encode_hex;
use crate::hexstr::hex_of;

verus! {

/// The secret key bytes that seed-based derivation produces.
pub uninterp spec fn ed25519_secret_of(seed: Seq<u8>) -> Seq<u8>;

/// The public key bytes that seed-based derivation produces.
pub uninterp spec fn ed25519_public_of(seed: Seq<u8>) -> Seq<u8>;

/// Both keys of the derived keypair, as the identity engine stores them.
pub open spec fn derived_keys(seed: Seq<u8>) -> (Seq<u8>, Seq<u8>) {
    (ed25519_secret_of(seed), ed25519_public_of(seed))
}

/// Relies on `rand::rngs::StdRng::from_seed` and
/// `ed25519_dalek::Keypair::generate`: the generator is deterministic and
/// seeded purely from the 32 given bytes, and `generate` draws all its
/// randomness from that generator, so both keys are functions of the seed
/// alone. The two calls share one wrapper because the generator state
/// between them is opaque. Key lengths are the crate's
/// `SECRET_KEY_LENGTH` and `PUBLIC_KEY_LENGTH`, both 32.
#[verifier::external_body]
fn generate_keypair(seed: &[u8]) -> (r: (Vec<u8>, Vec<u8>))
    requires
        seed@.len() == 32,
    ensures
        r.0@ == ed25519_secret_of(seed@),
        r.1@ == ed25519_public_of(seed@),
        r.0@.len() == 32,
        r.1@.len() == 32,
{
    let mut array = [0u8; 32];
    array.copy_from_slice(seed);
    let mut rng: rand::rngs::StdRng = rand::SeedableRng::from_seed(array);
    let kp = ed25519_dalek::Keypair::generate(&mut rng);
    (kp.secret.as_bytes().to_vec(), kp.public.as_bytes().to_vec())
}

/// A derived asymmetric keypair.
pub struct KeyPair {
    secret: Vec<u8>,
    public: Vec<u8>,
}

impl KeyPair {
    /// The view of a keypair: its secret and public key bytes.
    pub closed spec fn view(&self) -> (Seq<u8>, Seq<u8>) {
        (self.secret@, self.public@)
    }

    /// Derive the keypair that the given 32-byte seed determines.
    pub fn from_seed(seed: &[u8]) -> (r: KeyPair)
        requires
            seed@.len() == 32,
        ensures
            r@ == derived_keys(seed@),
    {
        let (secret, public) = generate_keypair(seed);
        KeyPair { secret, public }
    }

    /// The secret key, hex-encoded.
    pub fn secret_hex(&self) -> (r: String)
        ensures
            r@ == hex_of(self@.0),
    {
        encode_hex(self.secret.as_slice())
    }

    /// The public key, hex-encoded.
    pub fn public_hex(&self) -> (r: String)
        ensures
            r@ == hex_of(self@.1),
    {
        encode_hex(self.public.as_slice())
    }
}

} // verus!
