//! The variable-length digest engine: maps arbitrary input text to a
//! BLAKE2b digest of a caller-chosen width between 1 and 64 bytes, kept in
//! lowercase hex.
//!
//! The digest arithmetic is done by the `blake2` crate behind one trusted
//! wrapper; the size parsing, clamping and state upkeep are verified.

use vstd::prelude::*;
use vstd::utf8::encode_utf8;

use blake2::digest::Update;
use blake2::digest::VariableOutput;
use blake2::Blake2bVar;

use crate::hexstr::encode_hex;
use crate::hexstr::hex_of;

verus! {

/// The digest bytes that the hash primitive produces for the given input
/// at the given output width.
pub uninterp spec fn blake2b_of(data: Seq<u8>, out_len: nat) -> Seq<u8>;

/// Relies on blake2's `Blake2bVar`: a BLAKE2b digest of the configured
/// output size, a function of the input bytes and that size alone.
/// `new` fails only for sizes outside 1..=64, and `finalize_variable`
/// only for a buffer whose length differs from the configured size.
#[verifier::external_body]
fn blake2b_var_digest(data: &[u8], out_len: usize) -> (r: Vec<u8>)
    requires
        1 <= out_len <= 64,
    ensures
        r@ == blake2b_of(data@, out_len as nat),
        r@.len() == out_len,
{
    let mut hasher = Blake2bVar::new(out_len).expect("output size is within range");
    hasher.update(data);
    let mut out = vec![0u8; out_len];
    hasher.finalize_variable(&mut out).expect("buffer length matches the output size");
    out
}

/// The hex rendering of the digest of the given text at the given width.
pub open spec fn digest_hex(input: Seq<char>, size: nat) -> Seq<char> {
    hex_of(blake2b_of(encode_utf8(input), size))
}

/// A decimal digit.
pub open spec fn is_dec_digit(c: char) -> bool {
    '0' <= c && c <= '9'
}

/// A string made of decimal digits only.
pub open spec fn all_dec_digits(s: Seq<char>) -> bool {
    forall|i: int| 0 <= i < s.len() ==> is_dec_digit(#[trigger] s[i])
}

/// The number a decimal digit string denotes.
pub open spec fn dec_value(s: Seq<char>) -> int
    recommends
        all_dec_digits(s),
    decreases s.len(),
{
    if s.len() == 0 {
        0
    } else {
        10 * dec_value(s.drop_last()) + (s.last() as int - 48)
    }
}

/// A digit string denotes a non-negative number.
pub proof fn lemma_dec_value_nonneg(s: Seq<char>)
    requires
        all_dec_digits(s),
    ensures
        dec_value(s) >= 0,
    decreases s.len(),
{
    if s.len() > 0 {
        lemma_dec_value_nonneg(s.drop_last());
    }
}

/// A requested width clamped into the supported range 1..=64.
pub open spec fn clamp_size(v: int) -> int {
    if v < 1 {
        1
    } else if v > 64 {
        64
    } else {
        v
    }
}

/// `dec_value` cut off above 65; values past the cutoff all clamp to 64.
pub open spec fn capped_dec_value(s: Seq<char>) -> int {
    if dec_value(s) > 65 {
        65
    } else {
        dec_value(s)
    }
}

/// Parse a decimal digit string, saturating above the clamping range.
fn parse_size_capped(s: &str) -> (r: Option<usize>)
    ensures
        r is Some <==> (s@.len() > 0 && all_dec_digits(s@)),
        r matches Some(n) ==> n == capped_dec_value(s@),
{
    let n = s.unicode_len();
    if n == 0 {
        return None;
    }
    if !s.is_ascii() {
        proof {
            let j = choose|j: int|
                0 <= j < s@.len() && !('\0' <= s@[j] && s@[j] <= '\u{7f}');
            assert(!is_dec_digit(s@[j]));
        }
        return None;
    }
    let mut acc: usize = 0;
    let mut i: usize = 0;
    proof {
        assert(s@.take(0) =~= Seq::<char>::empty());
    }
    while i < n
        invariant
            n == s@.len(),
            i <= n,
            s.is_ascii(),
            forall|j: int| 0 <= j < i ==> is_dec_digit(#[trigger] s@[j]),
            acc == capped_dec_value(s@.take(i as int)),
            acc <= 65,
        decreases n - i,
    {
        let b = s.get_ascii(i);
        if b < 48 || b > 57 {
            return None;
        }
        let d = (b - 48) as usize;
        let t = acc * 10 + d;
        acc = if t > 65 {
            65
        } else {
            t
        };
        proof {
            let p = s@.take(i as int);
            let q = s@.take(i + 1);
            assert(q.drop_last() =~= p);
            assert(q.last() == s@[i as int]);
            assert(dec_value(q) == 10 * dec_value(p) + d);
            lemma_dec_value_nonneg(q);
        }
        i = i + 1;
    }
    proof {
        assert(s@.take(n as int) =~= s@);
    }
    Some(acc)
}

/// Why a digest size update was rejected.
#[derive(Clone, Copy, Debug, PartialEq, Eq, Structural)]
pub enum DigestError {
    /// The size input is not a decimal number.
    InvalidSize,
}

/// The observable state of the digest engine: the input text, the
/// configured width, and the hex rendering of the current digest.
#[verifier::ext_equal]
pub struct DigestView {
    pub input: Seq<char>,
    pub size: nat,
    pub hash_hex: Seq<char>,
}

/// The prior state with the width replaced and the digest recomputed.
pub open spec fn resized(v: DigestView, size: nat) -> DigestView {
    DigestView { input: v.input, size: size, hash_hex: digest_hex(v.input, size) }
}

/// What replacing the input text does to the state.
pub open spec fn set_input_spec(v: DigestView, text: Seq<char>) -> DigestView {
    DigestView { input: text, size: v.size, hash_hex: digest_hex(text, v.size) }
}

/// What a digest size update does to the state: empty input restores the
/// default width of 32, a decimal number is clamped into 1..=64, and
/// anything else leaves the state unchanged (and is reported as an error).
pub open spec fn set_digest_size_spec(v: DigestView, raw: Seq<char>) -> DigestView {
    if raw.len() == 0 {
        resized(v, 32)
    } else if all_dec_digits(raw) {
        resized(v, clamp_size(dec_value(raw)) as nat)
    } else {
        v
    }
}

impl DigestView {
    /// The representation invariant: the width is in range and the stored
    /// hex always is the digest of the stored input at that width.
    pub open spec fn wf(self) -> bool {
        &&& 1 <= self.size <= 64
        &&& self.hash_hex == digest_hex(self.input, self.size)
    }
}

/// Determinism: the digest depends on the input text and the width alone,
/// never on the prior state.
pub proof fn lemma_digest_determinism(u: DigestView, v: DigestView, text: Seq<char>)
    requires
        u.size == v.size,
    ensures
        set_input_spec(u, text).hash_hex == set_input_spec(v, text).hash_hex,
{
}

/// Both updates preserve the representation invariant.
pub proof fn lemma_digest_updates_preserve_wf(v: DigestView, text: Seq<char>, raw: Seq<char>)
    requires
        v.wf(),
    ensures
        set_input_spec(v, text).wf(),
        set_digest_size_spec(v, raw).wf(),
{
    if raw.len() > 0 && all_dec_digits(raw) {
        lemma_dec_value_nonneg(raw);
    }
}

/// The digest engine's state. Created with empty input at the default
/// width of 32 bytes; the digest is recomputed after every update.
pub struct DigestState {
    input_text: String,
    digest_size: usize,
    hash_hex: String,
}

impl View for DigestState {
    type V = DigestView;

    closed spec fn view(&self) -> DigestView {
        DigestView {
            input: self.input_text@,
            size: self.digest_size as nat,
            hash_hex: self.hash_hex@,
        }
    }
}

impl DigestState {
    fn recompute(&mut self)
        requires
            1 <= old(self).digest_size <= 64,
        ensures
            final(self)@ == (DigestView {
                hash_hex: digest_hex(old(self)@.input, old(self)@.size),
                ..old(self)@
            }),
            final(self)@.hash_hex.len() == 2 * old(self)@.size,
    {
        let bytes = self.input_text.as_str().as_bytes();
        let d = blake2b_var_digest(bytes, self.digest_size);
        self.hash_hex = encode_hex(d.as_slice());
    }

    /// Create an engine with empty input, the default width of 32 bytes,
    /// and the digest of that empty input.
    pub fn new() -> (r: DigestState)
        ensures
            r@ == (DigestView {
                input: Seq::<char>::empty(),
                size: 32 as nat,
                hash_hex: digest_hex(Seq::<char>::empty(), 32 as nat),
            }),
            r@.hash_hex.len() == 64,
            r@.wf(),
    {
        let mut s = DigestState { input_text: String::new(), digest_size: 32, hash_hex: String::new() };
        s.recompute();
        s
    }

    /// Replace the input text and recompute the digest at the current
    /// width.
    pub fn set_input(&mut self, text: &str)
        requires
            old(self)@.wf(),
        ensures
            final(self)@ == set_input_spec(old(self)@, text@),
            final(self)@.hash_hex.len() == 2 * final(self)@.size,
            final(self)@.wf(),
    {
        self.input_text = text.to_owned();
        self.recompute();
    }

    /// Replace the requested digest width and recompute the digest. An
    /// empty input restores the default of 32; a decimal number is clamped
    /// into 1..=64; anything else is rejected and changes nothing.
    pub fn set_digest_size(&mut self, raw: &str) -> (r: Result<(), DigestError>)
        requires
            old(self)@.wf(),
        ensures
            final(self)@ == set_digest_size_spec(old(self)@, raw@),
            r is Ok ==> final(self)@.hash_hex.len() == 2 * final(self)@.size,
            final(self)@.wf(),
            r is Ok <==> (raw@.len() == 0 || all_dec_digits(raw@)),
    {
        proof {
            lemma_digest_updates_preserve_wf(old(self)@, ""@, raw@);
        }
        if raw.is_empty() {
            self.digest_size = 32;
            self.recompute();
            Ok(())
        } else {
            match parse_size_capped(raw) {
                None => Err(DigestError::InvalidSize),
                Some(n) => {
                    proof {
                        lemma_dec_value_nonneg(raw@);
                    }
                    let size = if n < 1 {
                        1
                    } else if n > 64 {
                        64
                    } else {
                        n
                    };
                    self.digest_size = size;
                    self.recompute();
                    Ok(())
                },
            }
        }
    }

    /// The current input text.
    pub fn input_text(&self) -> (r: &str)
        ensures
            r@ == self@.input,
    {
        self.input_text.as_str()
    }

    /// The configured digest width in bytes.
    pub fn digest_size_bytes(&self) -> (r: usize)
        ensures
            r == self@.size,
    {
        self.digest_size
    }

    /// The hex rendering of the current digest.
    pub fn hash_hex(&self) -> (r: &str)
        ensures
            r@ == self@.hash_hex,
    {
        self.hash_hex.as_str()
    }
}

} // verus!
