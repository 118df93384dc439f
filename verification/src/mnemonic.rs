//! The mnemonic codec: phrases of the fixed English wordlist carrying
//! exactly 32 bytes of entropy plus an embedded checksum.
//!
//! The wordlist lookup and checksum arithmetic are done by the `bip39`
//! crate behind the two trusted wrappers below; everything around them is
//! verified against the named results.

use vstd::prelude::*;

use bip39::Language;
use bip39::Mnemonic;

verus! {

/// Whether the English wordlist codec accepts the phrase: known words, a
/// supported word count, and a matching checksum.
pub uninterp spec fn bip_phrase_valid(phrase: Seq<char>) -> bool;

/// The entropy bytes recovered from a valid phrase.
pub uninterp spec fn bip_entropy_of(phrase: Seq<char>) -> Seq<u8>;

/// The canonical phrase encoding of an entropy byte string: wordlist words
/// separated by single spaces.
pub uninterp spec fn bip_phrase_of(entropy: Seq<u8>) -> Seq<char>;

/// A phrase the identity engine accepts: valid for the wordlist codec and
/// carrying exactly 32 bytes (24 words) of entropy.
pub open spec fn phrase_accepted(phrase: Seq<char>) -> bool {
    bip_phrase_valid(phrase) && bip_entropy_of(phrase).len() == 32
}

/// Relies on bip39's `Mnemonic::parse_in_normalized` with the English
/// wordlist: acceptance and the recovered entropy are functions of the
/// phrase alone. A `Mnemonic` keeps only word indices, so rendering it
/// gives the canonical phrase of that entropy.
#[verifier::external_body]
fn parse_phrase(phrase: &str) -> (r: Option<(String, Vec<u8>)>)
    ensures
        r is Some <==> bip_phrase_valid(phrase@),
        r matches Some(p) ==> p.1@ == bip_entropy_of(phrase@) && p.0@ == bip_phrase_of(
            bip_entropy_of(phrase@),
        ),
{
    match Mnemonic::parse_in_normalized(Language::English, phrase) {
        Ok(m) => Some((m.to_string(), m.to_entropy())),
        Err(_) => None,
    }
}

/// Relies on bip39's `Mnemonic::from_entropy_in` and its `Display`
/// rendering: 32 bytes of entropy always make a valid 24-word English
/// mnemonic, and its canonical phrase re-parses to exactly that entropy.
#[verifier::external_body]
fn phrase_of_entropy(entropy: &[u8]) -> (r: String)
    requires
        entropy@.len() == 32,
    ensures
        r@ == bip_phrase_of(entropy@),
        bip_phrase_valid(r@),
        bip_entropy_of(r@) == entropy@,
{
    let m = Mnemonic::from_entropy_in(Language::English, entropy).expect(
        "32 bytes is a supported entropy length",
    );
    m.to_string()
}

/// Why a phrase or an entropy string was rejected.
#[derive(Clone, Copy, Debug, PartialEq, Eq, Structural)]
pub enum PhraseError {
    /// An unknown word, an unsupported word count, or a checksum mismatch.
    InvalidPhrase,
    /// The entropy behind the input is not exactly 32 bytes.
    UnsupportedEntropyLength,
}

impl PhraseError {
    /// The user-visible message for this rejection.
    pub open spec fn spec_message(self) -> Seq<char> {
        match self {
            PhraseError::InvalidPhrase => "invalid mnemonic phrase"@,
            PhraseError::UnsupportedEntropyLength => "unsupported entropy length: expected 32 bytes"@,
        }
    }

    /// The user-visible message for this rejection.
    pub fn message(&self) -> (r: &'static str)
        ensures
            r@ == self.spec_message(),
            r@.len() > 0,
    {
        proof {
            reveal_strlit("invalid mnemonic phrase");
            reveal_strlit("unsupported entropy length: expected 32 bytes");
        }
        match self {
            PhraseError::InvalidPhrase => "invalid mnemonic phrase",
            PhraseError::UnsupportedEntropyLength => "unsupported entropy length: expected 32 bytes",
        }
    }
}

/// Validate a phrase against the wordlist codec and recover its entropy,
/// together with the canonical rendering of the phrase.
pub fn phrase_to_entropy(phrase: &str) -> (r: Result<(String, Vec<u8>), PhraseError>)
    ensures
        r is Ok <==> phrase_accepted(phrase@),
        r matches Ok(p) ==> {
            &&& p.0@ == bip_phrase_of(bip_entropy_of(phrase@))
            &&& p.1@ == bip_entropy_of(phrase@)
            &&& p.1@.len() == 32
        },
        r matches Err(e) ==> (e == PhraseError::InvalidPhrase <==> !bip_phrase_valid(phrase@)),
{
    match parse_phrase(phrase) {
        Some((canon, entropy)) => {
            if entropy.len() == 32 {
                Ok((canon, entropy))
            } else {
                Err(PhraseError::UnsupportedEntropyLength)
            }
        },
        None => Err(PhraseError::InvalidPhrase),
    }
}

/// Encode entropy as its canonical 24-word phrase; only 32-byte entropy is
/// supported.
pub fn entropy_to_phrase(entropy: &[u8]) -> (r: Option<String>)
    ensures
        r is Some <==> entropy@.len() == 32,
        r matches Some(p) ==> {
            &&& p@ == bip_phrase_of(entropy@)
            &&& bip_phrase_valid(p@)
            &&& bip_entropy_of(p@) == entropy@
        },
{
    if entropy.len() == 32 {
        Some(phrase_of_entropy(entropy))
    } else {
        None
    }
}

} // verus!
