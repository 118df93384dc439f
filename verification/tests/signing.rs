use seedkeys::mnemonic::PhraseError;
use seedkeys::sign::sha256_hex;
use seedkeys::sign::sign_keys_from_phrase;

const PHRASE_ONES: &str = "zoo zoo zoo zoo zoo zoo zoo zoo zoo zoo zoo zoo zoo zoo zoo zoo zoo zoo zoo zoo zoo zoo zoo vote";
const SEED_ONES: &str = "ffffffffffffffffffffffffffffffffffffffffffffffffffffffffffffffff";

#[test]
fn sign_keys_match_direct_derivation() {
    let keys = sign_keys_from_phrase(PHRASE_ONES).expect("the phrase is valid");
    assert_eq!(keys.seed_hex(), SEED_ONES);

    let seed_bytes = hex::decode(SEED_ONES).unwrap();
    let seed = sodiumoxide::crypto::sign::ed25519::Seed::from_slice(&seed_bytes).unwrap();
    let (pk, sk) = sodiumoxide::crypto::sign::ed25519::keypair_from_seed(&seed);
    assert_eq!(keys.public_hex(), hex::encode(&pk[..]));
    assert_eq!(keys.secret_hex(), hex::encode(&sk[..]));
    assert_eq!(keys.public_hex().len(), 64);
    assert_eq!(keys.secret_hex().len(), 128);
}

#[test]
fn sign_keys_are_deterministic() {
    let a = sign_keys_from_phrase(PHRASE_ONES).unwrap();
    let b = sign_keys_from_phrase(PHRASE_ONES).unwrap();
    assert_eq!(a.secret_hex(), b.secret_hex());
    assert_eq!(a.public_hex(), b.public_hex());
}

#[test]
fn bad_phrase_is_rejected() {
    match sign_keys_from_phrase("not a mnemonic") {
        Err(PhraseError::InvalidPhrase) => {},
        _ => panic!("an unknown word must be rejected as an invalid phrase"),
    }
}

#[test]
fn twelve_word_phrase_has_unsupported_entropy() {
    let twelve = "abandon abandon abandon abandon abandon abandon abandon abandon abandon abandon abandon about";
    match sign_keys_from_phrase(twelve) {
        Err(PhraseError::UnsupportedEntropyLength) => {},
        _ => panic!("16 bytes of entropy must be rejected as unsupported"),
    }
}

#[test]
fn sha256_of_known_inputs() {
    assert_eq!(
        sha256_hex(""),
        "e3b0c44298fc1c149afbf4c8996fb92427ae41e4649b934ca495991b7852b855"
    );
    assert_eq!(
        sha256_hex("abc"),
        "ba7816bf8f01cfea414140de5dae2223b00361a396177a9cb410ff61f20015ad"
    );
}
