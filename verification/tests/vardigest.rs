use blake2::digest::Update;
use blake2::digest::VariableOutput;

use seedkeys::digest::DigestError;
use seedkeys::digest::DigestState;

fn reference_digest(text: &str, size: usize) -> String {
    let mut hasher = blake2::Blake2bVar::new(size).unwrap();
    hasher.update(text.as_bytes());
    let mut out = vec![0u8; size];
    hasher.finalize_variable(&mut out).unwrap();
    hex::encode(out)
}

#[test]
fn fresh_state_hashes_empty_input_at_default_width() {
    let s = DigestState::new();
    assert_eq!(s.input_text(), "");
    assert_eq!(s.digest_size_bytes(), 32);
    assert_eq!(s.hash_hex(), reference_digest("", 32));
}

#[test]
fn known_full_width_digest_of_empty_input() {
    let mut s = DigestState::new();
    s.set_digest_size("64").unwrap();
    assert_eq!(
        s.hash_hex(),
        "786a02f742015903c6c6fd852552d272912f4740e15847618a86e217f71f5419\
         d25e1031afee585313896444934eb04b903a685b1448b755d56f701afe9be2ce"
    );
}

#[test]
fn input_update_recomputes_digest() {
    let mut s = DigestState::new();
    s.set_input("hello world");
    assert_eq!(s.input_text(), "hello world");
    assert_eq!(s.hash_hex(), reference_digest("hello world", 32));
}

#[test]
fn same_input_and_width_give_identical_digests() {
    let mut a = DigestState::new();
    let mut b = DigestState::new();
    a.set_input("determinism");
    b.set_input("determinism");
    assert_eq!(a.hash_hex(), b.hash_hex());
}

#[test]
fn size_zero_clamps_to_one() {
    let mut s = DigestState::new();
    s.set_digest_size("0").unwrap();
    assert_eq!(s.digest_size_bytes(), 1);
    assert_eq!(s.hash_hex().len(), 2);
}

#[test]
fn size_above_range_clamps_to_sixty_four() {
    let mut s = DigestState::new();
    s.set_digest_size("100").unwrap();
    assert_eq!(s.digest_size_bytes(), 64);
    assert_eq!(s.hash_hex().len(), 128);
}

#[test]
fn huge_size_clamps_to_sixty_four() {
    let mut s = DigestState::new();
    s.set_digest_size("99999999999999999999999999").unwrap();
    assert_eq!(s.digest_size_bytes(), 64);
}

#[test]
fn empty_size_restores_default() {
    let mut s = DigestState::new();
    s.set_digest_size("7").unwrap();
    assert_eq!(s.digest_size_bytes(), 7);
    s.set_digest_size("").unwrap();
    assert_eq!(s.digest_size_bytes(), 32);
}

#[test]
fn unparsable_size_is_rejected_and_changes_nothing() {
    let mut s = DigestState::new();
    s.set_input("text");
    let before = s.hash_hex().to_string();
    assert_eq!(s.set_digest_size("abc"), Err(DigestError::InvalidSize));
    assert_eq!(s.digest_size_bytes(), 32);
    assert_eq!(s.hash_hex(), before);
    assert_eq!(s.set_digest_size("-3"), Err(DigestError::InvalidSize));
    assert_eq!(s.set_digest_size("1 2"), Err(DigestError::InvalidSize));
}

#[test]
fn widths_are_independent_digests_not_truncations() {
    let mut s = DigestState::new();
    s.set_input("sensitivity");
    s.set_digest_size("32").unwrap();
    let h32 = s.hash_hex().to_string();
    s.set_digest_size("64").unwrap();
    let h64 = s.hash_hex().to_string();
    assert_eq!(h32.len(), 64);
    assert_eq!(h64.len(), 128);
    assert!(!h64.starts_with(&h32));
}
