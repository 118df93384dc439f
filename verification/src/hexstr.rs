//! Lowercase hexadecimal encoding and decoding of byte strings, verified
//! against a character-level specification.

use vstd::prelude::*;

verus! {

/// The hex digit character for a nibble value: `0..=9` map to `'0'..='9'`,
/// `10..=15` map to `'a'..='f'`.
pub open spec fn hex_char(v: u8) -> char
    recommends
        v < 16,
{
    if v < 10 {
        ((v + 48) as u8) as char
    } else {
        ((v + 87) as u8) as char
    }
}

/// A character that decodes as a hex digit; both cases are accepted.
pub open spec fn is_hex_digit(c: char) -> bool {
    ('0' <= c && c <= '9') || ('a' <= c && c <= 'f') || ('A' <= c && c <= 'F')
}

/// The nibble value of a hex digit character.
pub open spec fn hex_val(c: char) -> u8
    recommends
        is_hex_digit(c),
{
    if '0' <= c && c <= '9' {
        (c as int - 48) as u8
    } else if 'a' <= c && c <= 'f' {
        (c as int - 87) as u8
    } else {
        (c as int - 55) as u8
    }
}

/// The lowercase hex encoding of a byte string: two digits per byte, high
/// nibble first.
pub open spec fn hex_of(bytes: Seq<u8>) -> Seq<char>
    decreases bytes.len(),
{
    if bytes.len() == 0 {
        Seq::<char>::empty()
    } else {
        seq![hex_char(bytes[0] / 16), hex_char(bytes[0] % 16)] + hex_of(bytes.drop_first())
    }
}

/// A character string that decodes as hex: even length, hex digits only.
pub open spec fn valid_hex(s: Seq<char>) -> bool {
    s.len() % 2 == 0 && (forall|i: int| 0 <= i < s.len() ==> is_hex_digit(#[trigger] s[i]))
}

/// The bytes denoted by a hex character string, one byte per digit pair.
pub open spec fn bytes_of_hex(s: Seq<char>) -> Seq<u8>
    recommends
        valid_hex(s),
    decreases s.len(),
{
    if s.len() < 2 {
        Seq::<u8>::empty()
    } else {
        seq![(hex_val(s[0]) * 16 + hex_val(s[1])) as u8] + bytes_of_hex(s.skip(2))
    }
}

pub proof fn lemma_hex_char(v: u8)
    requires
        v < 16,
    ensures
        is_hex_digit(hex_char(v)),
        hex_val(hex_char(v)) == v,
        '0' <= hex_char(v) && hex_char(v) <= '9' || 'a' <= hex_char(v) && hex_char(v) <= 'f',
{
}

/// Encoding and decoding are mutually inverse: the encoding of any byte
/// string is valid hex, of twice the length, and decodes to the same bytes.
pub proof fn lemma_hex_round_trip(bytes: Seq<u8>)
    ensures
        valid_hex(hex_of(bytes)),
        hex_of(bytes).len() == 2 * bytes.len(),
        bytes_of_hex(hex_of(bytes)) == bytes,
    decreases bytes.len(),
{
    if bytes.len() == 0 {
        assert(bytes_of_hex(hex_of(bytes)) =~= bytes);
    } else {
        let b = bytes[0];
        let rest = bytes.drop_first();
        let pair = seq![hex_char(b / 16), hex_char(b % 16)];
        lemma_hex_char(b / 16);
        lemma_hex_char(b % 16);
        lemma_hex_round_trip(rest);
        let s = hex_of(bytes);
        assert(s =~= pair + hex_of(rest));
        assert(forall|i: int|
            0 <= i < s.len() ==> is_hex_digit(#[trigger] s[i])) by {
            assert(forall|i: int|
                2 <= i < s.len() ==> s[i] == #[trigger] hex_of(rest)[i - 2]);
        }
        assert(s.skip(2) =~= hex_of(rest));
        assert(hex_val(s[0]) * 16 + hex_val(s[1]) == b) by {
            assert(b / 16 * 16 + b % 16 == b);
        }
        assert(bytes_of_hex(s) =~= seq![b] + bytes_of_hex(hex_of(rest)));
        assert(seq![b] + rest =~= bytes);
    }
}

/// Relies on `String::push` from std: it appends exactly the one character.
#[verifier::external_body]
fn push_char(s: &mut String, c: char)
    ensures
        final(s)@ == old(s)@ + seq![c],
{
    s.push(c);
}

fn nibble_char(v: u8) -> (c: char)
    requires
        v < 16,
    ensures
        c == hex_char(v),
{
    if v < 10 {
        (48 + v) as char
    } else {
        (87 + v) as char
    }
}

/// Encode a byte string as lowercase hex, two digits per byte.
pub fn encode_hex(bytes: &[u8]) -> (r: String)
    ensures
        r@ == hex_of(bytes@),
        r@.len() == 2 * bytes@.len(),
{
    let mut r = String::new();
    let n = bytes.len();
    proof {
        assert(bytes@.skip(0) =~= bytes@);
    }
    let mut i: usize = 0;
    while i < n
        invariant
            n == bytes@.len(),
            i <= n,
            r@ + hex_of(bytes@.skip(i as int)) == hex_of(bytes@),
            r@.len() == 2 * i,
        decreases n - i,
    {
        let b = bytes[i];
        let c1 = nibble_char(b / 16);
        let c2 = nibble_char(b % 16);
        push_char(&mut r, c1);
        push_char(&mut r, c2);
        proof {
            assert(bytes@.skip(i as int).drop_first() =~= bytes@.skip(i + 1));
            assert(hex_of(bytes@.skip(i as int)) == seq![c1, c2] + hex_of(bytes@.skip(i + 1)));
        }
        i = i + 1;
    }
    proof {
        assert(hex_of(bytes@.skip(n as int)) =~= Seq::<char>::empty());
        assert(r@ =~= hex_of(bytes@));
        lemma_hex_round_trip(bytes@);
    }
    r
}

/// Why a hex string failed to decode.
#[derive(Clone, Copy, Debug, PartialEq, Eq, Structural)]
pub enum HexError {
    /// The string has an odd number of characters.
    OddLength,
    /// The string holds a character that is not a hex digit.
    InvalidDigit,
}

fn ascii_hex_val(b: u8) -> (r: Option<u8>)
    ensures
        forall|c: char| '\0' <= c <= '\u{7f}' && c as u8 == b ==> {
            &&& (r is Some <==> is_hex_digit(c))
            &&& (r is Some ==> r->0 == hex_val(c) && r->0 < 16)
        },
{
    if 48 <= b && b <= 57 {
        Some(b - 48)
    } else if 97 <= b && b <= 102 {
        Some(b - 87)
    } else if 65 <= b && b <= 70 {
        Some(b - 55)
    } else {
        None
    }
}

/// Decode a hex string (either case) to bytes; rejects odd length and
/// non-hex characters, reporting the length check first.
pub fn decode_hex(s: &str) -> (r: Result<Vec<u8>, HexError>)
    ensures
        r is Ok <==> valid_hex(s@),
        r is Ok ==> r->Ok_0@ == bytes_of_hex(s@),
        r == Err::<Vec<u8>, HexError>(HexError::OddLength) <==> s@.len() % 2 != 0,
{
    let n = s.unicode_len();
    if n % 2 != 0 {
        return Err(HexError::OddLength);
    }
    if !s.is_ascii() {
        proof {
            let j = choose|j: int|
                0 <= j < s@.len() && !('\0' <= s@[j] && s@[j] <= '\u{7f}');
            assert(!is_hex_digit(s@[j]));
        }
        return Err(HexError::InvalidDigit);
    }
    let mut v: Vec<u8> = Vec::new();
    let mut i: usize = 0;
    proof {
        assert(s@.skip(0) =~= s@);
    }
    while i < n
        invariant
            n == s@.len(),
            n % 2 == 0,
            i % 2 == 0,
            i <= n,
            s.is_ascii(),
            forall|j: int| 0 <= j < i ==> is_hex_digit(#[trigger] s@[j]),
            v@ + bytes_of_hex(s@.skip(i as int)) == bytes_of_hex(s@),
        decreases n - i,
    {
        let b1 = s.get_ascii(i);
        let b2 = s.get_ascii(i + 1);
        let h1 = match ascii_hex_val(b1) {
            Some(h) => h,
            None => {
                return Err(HexError::InvalidDigit);
            },
        };
        let h2 = match ascii_hex_val(b2) {
            Some(h) => h,
            None => {
                return Err(HexError::InvalidDigit);
            },
        };
        v.push(h1 * 16 + h2);
        proof {
            let t = s@.skip(i as int);
            assert(t[0] == s@[i as int] && t[1] == s@[i + 1]);
            assert(t.skip(2) =~= s@.skip(i + 2));
            assert(bytes_of_hex(t) == seq![(hex_val(t[0]) * 16 + hex_val(t[1])) as u8]
                + bytes_of_hex(s@.skip(i + 2)));
        }
        i = i + 2;
    }
    proof {
        assert(bytes_of_hex(s@.skip(n as int)) =~= Seq::<u8>::empty());
        assert(v@ =~= bytes_of_hex(s@));
    }
    Ok(v)
}

} // verus!
