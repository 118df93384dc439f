//! The identity engine: a state machine keeping a mnemonic phrase, the hex
//! encoding of its 32-byte entropy, and the keypair derived from that
//! entropy consistent under every update.
//!
//! Every update either replaces the whole state (and clears the error
//! message), or rejects its input, leaves the previous state untouched and
//! records a non-empty error message.

use vstd::prelude::*;

use crate::hexstr::bytes_of_hex;
use crate::hexstr::decode_hex;
use crate::hexstr::encode_hex;
use crate::hexstr::hex_of;
use crate::hexstr::lemma_hex_round_trip;
use crate::hexstr::valid_hex;
use crate::keypair::derived_keys;
use crate::keypair::KeyPair;
use crate::mnemonic::bip_entropy_of;
use crate::mnemonic::bip_phrase_of;
use crate::mnemonic::bip_phrase_valid;
use crate::mnemonic::entropy_to_phrase;
use crate::mnemonic::phrase_accepted;
use crate::mnemonic::phrase_to_entropy;
use crate::mnemonic::PhraseError;

verus! {

/// The observable state of the identity engine: the current phrase, the
/// hex seed, the derived keypair, and the last error message.
#[verifier::ext_equal]
pub struct IdentityView {
    pub mnemonic: Option<Seq<char>>,
    pub seed_hex: Seq<char>,
    pub key_pair: Option<(Seq<u8>, Seq<u8>)>,
    pub error: Seq<char>,
}

/// The state of a freshly created or fully reset engine.
pub open spec fn empty_view() -> IdentityView {
    IdentityView {
        mnemonic: None,
        seed_hex: Seq::<char>::empty(),
        key_pair: None,
        error: Seq::<char>::empty(),
    }
}

/// The prior state with only the error message replaced.
pub open spec fn with_error(v: IdentityView, msg: Seq<char>) -> IdentityView {
    IdentityView { error: msg, ..v }
}

/// The state after entropy was accepted: the canonical phrase, the given
/// seed encoding, the derived keypair, and no error.
pub open spec fn loaded_view(entropy: Seq<u8>, seed_hex: Seq<char>) -> IdentityView {
    IdentityView {
        mnemonic: Some(bip_phrase_of(entropy)),
        seed_hex: seed_hex,
        key_pair: Some(derived_keys(entropy)),
        error: Seq::<char>::empty(),
    }
}

/// The message recorded when the seed input is not valid hex.
pub open spec fn hex_error_message() -> Seq<char> {
    "invalid hex encoding"@
}

/// What setting a mnemonic phrase does to the state.
pub open spec fn set_mnemonic_spec(v: IdentityView, phrase: Seq<char>) -> IdentityView {
    if phrase.len() == 0 {
        empty_view()
    } else if phrase_accepted(phrase) {
        loaded_view(bip_entropy_of(phrase), hex_of(bip_entropy_of(phrase)))
    } else if !bip_phrase_valid(phrase) {
        with_error(v, PhraseError::InvalidPhrase.spec_message())
    } else {
        with_error(v, PhraseError::UnsupportedEntropyLength.spec_message())
    }
}

/// What setting a hex seed does to the state. An accepted seed is stored
/// as given, not re-normalized.
pub open spec fn set_seed_hex_spec(v: IdentityView, hex_input: Seq<char>) -> IdentityView {
    if hex_input.len() == 0 {
        empty_view()
    } else if !valid_hex(hex_input) {
        with_error(v, hex_error_message())
    } else if bytes_of_hex(hex_input).len() != 32 {
        with_error(v, PhraseError::UnsupportedEntropyLength.spec_message())
    } else {
        loaded_view(bytes_of_hex(hex_input), hex_input)
    }
}

impl IdentityView {
    /// The representation invariant: either nothing is loaded, or the
    /// phrase, the seed and the keypair all describe the same 32 bytes of
    /// entropy.
    pub open spec fn wf(self) -> bool {
        match self.mnemonic {
            None => self.seed_hex.len() == 0 && self.key_pair is None,
            Some(p) => {
                let e = bytes_of_hex(self.seed_hex);
                &&& self.seed_hex.len() > 0
                &&& valid_hex(self.seed_hex)
                &&& e.len() == 32
                &&& p == bip_phrase_of(e)
                &&& self.key_pair == Some(derived_keys(e))
            },
        }
    }
}

/// Every phrase update preserves the representation invariant.
pub proof fn lemma_set_mnemonic_preserves_wf(v: IdentityView, phrase: Seq<char>)
    ensures
        v.wf() ==> set_mnemonic_spec(v, phrase).wf(),
{
    if phrase.len() > 0 && phrase_accepted(phrase) {
        lemma_hex_round_trip(bip_entropy_of(phrase));
    }
}

/// Every seed update preserves the representation invariant.
pub proof fn lemma_set_seed_hex_preserves_wf(v: IdentityView, hex_input: Seq<char>)
    ensures
        v.wf() ==> set_seed_hex_spec(v, hex_input).wf(),
{
}

/// Reset semantics: an empty phrase and an empty seed both clear the
/// phrase, the seed, the keypair and the error.
pub proof fn lemma_reset(v: IdentityView)
    ensures
        set_mnemonic_spec(v, Seq::<char>::empty()) == empty_view(),
        set_seed_hex_spec(v, Seq::<char>::empty()) == empty_view(),
        empty_view().mnemonic is None,
        empty_view().seed_hex.len() == 0,
        empty_view().key_pair is None,
        empty_view().error.len() == 0,
{
}

/// Convergence: loading an accepted phrase and loading the hex encoding of
/// its entropy reach the same state, whatever state either started from.
pub proof fn lemma_convergence(u: IdentityView, v: IdentityView, phrase: Seq<char>)
    requires
        phrase.len() > 0,
        phrase_accepted(phrase),
    ensures
        set_seed_hex_spec(v, hex_of(bip_entropy_of(phrase))) == set_mnemonic_spec(u, phrase),
{
    lemma_hex_round_trip(bip_entropy_of(phrase));
}

/// Round trip: after an accepted phrase is set, feeding the resulting seed
/// hex back through a seed update reproduces the same state, keypair
/// included.
pub proof fn lemma_round_trip(v: IdentityView, phrase: Seq<char>)
    requires
        phrase.len() > 0,
        phrase_accepted(phrase),
    ensures
        ({
            let v1 = set_mnemonic_spec(v, phrase);
            set_seed_hex_spec(v1, v1.seed_hex) == v1
        }),
{
    lemma_convergence(v, set_mnemonic_spec(v, phrase), phrase);
}

/// Determinism: the keypair after an accepted phrase depends on the phrase
/// alone, never on the prior state.
pub proof fn lemma_keypair_determinism(u: IdentityView, v: IdentityView, phrase: Seq<char>)
    requires
        phrase.len() > 0,
        phrase_accepted(phrase),
    ensures
        set_mnemonic_spec(u, phrase).key_pair == set_mnemonic_spec(v, phrase).key_pair,
        set_mnemonic_spec(u, phrase).key_pair == Some(derived_keys(bip_entropy_of(phrase))),
{
}

/// A rejected phrase changes nothing but the error message, which becomes
/// non-empty.
pub proof fn lemma_rejected_phrase_preserves_state(v: IdentityView, phrase: Seq<char>)
    requires
        phrase.len() > 0,
        !phrase_accepted(phrase),
    ensures
        ({
            let r = set_mnemonic_spec(v, phrase);
            &&& r.mnemonic == v.mnemonic
            &&& r.seed_hex == v.seed_hex
            &&& r.key_pair == v.key_pair
            &&& r.error.len() > 0
        }),
{
    reveal_strlit("invalid mnemonic phrase");
    reveal_strlit("unsupported entropy length: expected 32 bytes");
}

/// A rejected seed input (bad hex, or entropy that is not 32 bytes)
/// changes nothing but the error message, which becomes non-empty.
pub proof fn lemma_rejected_seed_preserves_state(v: IdentityView, hex_input: Seq<char>)
    requires
        hex_input.len() > 0,
        !valid_hex(hex_input) || bytes_of_hex(hex_input).len() != 32,
    ensures
        ({
            let r = set_seed_hex_spec(v, hex_input);
            &&& r.mnemonic == v.mnemonic
            &&& r.seed_hex == v.seed_hex
            &&& r.key_pair == v.key_pair
            &&& r.error.len() > 0
        }),
{
    reveal_strlit("invalid hex encoding");
    reveal_strlit("unsupported entropy length: expected 32 bytes");
}

/// The identity engine's state. Created empty; every update replaces the
/// state as the corresponding transition function says.
pub struct IdentityState {
    mnemonic: Option<String>,
    seed_hex: String,
    key_pair: Option<KeyPair>,
    error: String,
}

impl View for IdentityState {
    type V = IdentityView;

    closed spec fn view(&self) -> IdentityView {
        IdentityView {
            mnemonic: match self.mnemonic {
                Some(p) => Some(p@),
                None => None,
            },
            seed_hex: self.seed_hex@,
            key_pair: match self.key_pair {
                Some(kp) => Some(kp@),
                None => None,
            },
            error: self.error@,
        }
    }
}

impl IdentityState {
    /// Create an empty engine: no phrase, no seed, no keypair, no error.
    pub fn new() -> (r: IdentityState)
        ensures
            r@ == empty_view(),
            r@.wf(),
    {
        IdentityState {
            mnemonic: None,
            seed_hex: String::new(),
            key_pair: None,
            error: String::new(),
        }
    }

    fn reset(&mut self)
        ensures
            final(self)@ == empty_view(),
    {
        self.mnemonic = None;
        self.seed_hex = String::new();
        self.key_pair = None;
        self.error = String::new();
    }

    /// Replace the mnemonic phrase. An empty phrase resets the state; an
    /// accepted phrase loads its entropy, seed encoding and keypair; a
    /// rejected one only records an error.
    pub fn set_mnemonic(&mut self, phrase: &str)
        ensures
            final(self)@ == set_mnemonic_spec(old(self)@, phrase@),
            old(self)@.wf() ==> final(self)@.wf(),
    {
        proof {
            lemma_set_mnemonic_preserves_wf(old(self)@, phrase@);
        }
        if phrase.is_empty() {
            self.reset();
        } else {
            match phrase_to_entropy(phrase) {
                Ok((canon, entropy)) => {
                    let seed_hex = encode_hex(entropy.as_slice());
                    let kp = KeyPair::from_seed(entropy.as_slice());
                    self.mnemonic = Some(canon);
                    self.seed_hex = seed_hex;
                    self.key_pair = Some(kp);
                    self.error = String::new();
                },
                Err(e) => {
                    self.error = e.message().to_owned();
                },
            }
        }
    }

    /// Replace the hex seed. An empty input resets the state; valid hex of
    /// exactly 32 bytes is stored as given and loads the phrase and the
    /// keypair; anything else only records an error.
    pub fn set_seed_hex(&mut self, hex_input: &str)
        ensures
            final(self)@ == set_seed_hex_spec(old(self)@, hex_input@),
            old(self)@.wf() ==> final(self)@.wf(),
    {
        proof {
            lemma_set_seed_hex_preserves_wf(old(self)@, hex_input@);
        }
        if hex_input.is_empty() {
            self.reset();
        } else {
            match decode_hex(hex_input) {
                Err(_) => {
                    self.error = "invalid hex encoding".to_owned();
                },
                Ok(entropy) => {
                    match entropy_to_phrase(entropy.as_slice()) {
                        None => {
                            self.error = PhraseError::UnsupportedEntropyLength.message().to_owned();
                        },
                        Some(phrase) => {
                            let kp = KeyPair::from_seed(entropy.as_slice());
                            self.mnemonic = Some(phrase);
                            self.seed_hex = hex_input.to_owned();
                            self.key_pair = Some(kp);
                            self.error = String::new();
                        },
                    }
                },
            }
        }
    }

    /// The current phrase, if one is loaded.
    pub fn mnemonic_phrase(&self) -> (r: Option<&str>)
        ensures
            match r {
                Some(p) => self@.mnemonic == Some(p@),
                None => self@.mnemonic is None,
            },
    {
        match &self.mnemonic {
            Some(p) => Some(p.as_str()),
            None => None,
        }
    }

    /// The hex seed, as it was stored; empty when nothing is loaded.
    pub fn seed_hex(&self) -> (r: &str)
        ensures
            r@ == self@.seed_hex,
    {
        self.seed_hex.as_str()
    }

    /// The derived keypair, if one is loaded.
    pub fn key_pair(&self) -> (r: Option<&KeyPair>)
        ensures
            match r {
                Some(kp) => self@.key_pair == Some(kp@),
                None => self@.key_pair is None,
            },
    {
        match &self.key_pair {
            Some(kp) => Some(kp),
            None => None,
        }
    }

    /// The last error message; empty when the last update was accepted.
    pub fn error(&self) -> (r: &str)
        ensures
            r@ == self@.error,
    {
        self.error.as_str()
    }
}

} // verus!
