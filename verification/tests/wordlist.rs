use seedkeys::mnemonic::entropy_to_phrase;
use seedkeys::mnemonic::phrase_to_entropy;
use seedkeys::mnemonic::PhraseError;

const PHRASE_ZERO: &str = "abandon abandon abandon abandon abandon abandon abandon abandon abandon abandon abandon abandon abandon abandon abandon abandon abandon abandon abandon abandon abandon abandon abandon art";

#[test]
fn accepted_phrase_yields_its_entropy() {
    let (canon, entropy) = phrase_to_entropy(PHRASE_ZERO).expect("the phrase is valid");
    assert_eq!(canon, PHRASE_ZERO);
    assert_eq!(entropy, vec![0u8; 32]);
}

#[test]
fn extra_whitespace_is_canonicalized() {
    let spaced = PHRASE_ZERO.replace(' ', "  ");
    let (canon, entropy) = phrase_to_entropy(&spaced).expect("word splitting ignores runs of spaces");
    assert_eq!(canon, PHRASE_ZERO);
    assert_eq!(entropy, vec![0u8; 32]);
}

#[test]
fn unknown_word_is_invalid() {
    match phrase_to_entropy("abandon abandon xyzzy") {
        Err(PhraseError::InvalidPhrase) => {},
        _ => panic!("an unknown word must be rejected as an invalid phrase"),
    }
}

#[test]
fn checksum_mismatch_is_invalid() {
    // 23 times "abandon" and a final word that breaks the checksum.
    let wrong = PHRASE_ZERO.replace(" art", " zoo");
    match phrase_to_entropy(&wrong) {
        Err(PhraseError::InvalidPhrase) => {},
        _ => panic!("a checksum mismatch must be rejected as an invalid phrase"),
    }
}

#[test]
fn entropy_encoding_round_trips() {
    let entropy: Vec<u8> = (0u8..32).collect();
    let phrase = entropy_to_phrase(&entropy).expect("32 bytes are supported");
    let (canon, recovered) = phrase_to_entropy(&phrase).expect("the canonical phrase is valid");
    assert_eq!(canon, phrase);
    assert_eq!(recovered, entropy);
}

#[test]
fn only_32_byte_entropy_is_supported() {
    assert!(entropy_to_phrase(&[0u8; 16]).is_none());
    assert!(entropy_to_phrase(&[0u8; 31]).is_none());
    assert!(entropy_to_phrase(&[0u8; 33]).is_none());
}
