//! The base-62 codec behind every key.

use vstd::prelude::*;

verus! {

/// Number of symbols in the alphabet.
pub const BASE: u64 = 62;

/// Code point of the symbol for digit `d`: `0-9`, then `A-Z`, then `a-z`.
pub open spec fn digit_code(d: int) -> int {
    if d < 10 {
        48 + d
    } else if d < 36 {
        55 + d
    } else {
        61 + d
    }
}

/// The symbol for digit `d` (for `d < 62`).
pub open spec fn digit_char(d: int) -> char {
    digit_code(d) as u32 as char
}

/// The digit that a symbol stands for, or -1 for a character outside the alphabet.
pub open spec fn digit_value(c: char) -> int {
    let u = c as u32 as int;
    if 48 <= u <= 57 {
        u - 48
    } else if 65 <= u <= 90 {
        u - 55
    } else if 97 <= u <= 122 {
        u - 61
    } else {
        -1
    }
}

pub open spec fn is_base62_char(c: char) -> bool {
    digit_value(c) >= 0
}

pub open spec fn is_base62(s: Seq<char>) -> bool {
    forall|i: int| 0 <= i < s.len() ==> is_base62_char(#[trigger] s[i])
}

/// `n` written in base 62, most significant digit first, without leading zero
/// digits; zero is the empty string.
pub open spec fn encode_spec(n: nat) -> Seq<char>
    decreases n,
{
    if n == 0 {
        Seq::empty()
    } else {
        encode_spec(n / 62).push(digit_char((n % 62) as int))
    }
}

/// The number that a base-62 string stands for, most significant digit first.
pub open spec fn decode_spec(s: Seq<char>) -> int
    decreases s.len(),
{
    if s.len() == 0 {
        0
    } else {
        decode_spec(s.drop_last()) * 62 + digit_value(s.last())
    }
}

pub open spec fn pow62(k: nat) -> nat
    decreases k,
{
    if k == 0 {
        1
    } else {
        62 * pow62((k - 1) as nat)
    }
}

proof fn lemma_digit_char_value(d: int)
    requires
        0 <= d < 62,
    ensures
        digit_value(digit_char(d)) == d,
        is_base62_char(digit_char(d)),
{
}

/// Encoding writes only symbols of the alphabet.
pub proof fn lemma_encode_is_base62(n: nat)
    ensures
        is_base62(encode_spec(n)),
    decreases n,
{
    if n > 0 {
        lemma_encode_is_base62(n / 62);
        lemma_digit_char_value((n % 62) as int);
        let s = encode_spec(n);
        assert forall|i: int| 0 <= i < s.len() implies is_base62_char(#[trigger] s[i]) by {
            if i < s.len() - 1 {
                assert(s[i] == encode_spec(n / 62)[i]);
            }
        }
    }
}

/// Decoding reverses encoding: `decode(encode(n)) == n`.
pub proof fn lemma_decode_encode(n: nat)
    ensures
        decode_spec(encode_spec(n)) == n,
    decreases n,
{
    if n > 0 {
        lemma_decode_encode(n / 62);
        lemma_digit_char_value((n % 62) as int);
        let s = encode_spec(n);
        assert(s.drop_last() =~= encode_spec(n / 62));
    }
}

/// Encoding is injective: distinct numbers get distinct keys.
pub proof fn lemma_encode_injective(n1: nat, n2: nat)
    requires
        n1 != n2,
    ensures
        encode_spec(n1) != encode_spec(n2),
{
    lemma_decode_encode(n1);
    lemma_decode_encode(n2);
}

/// A number below `62^k` is written with at most `k` symbols.
proof fn lemma_encode_len(n: nat, k: nat)
    requires
        n < pow62(k),
    ensures
        encode_spec(n).len() <= k,
    decreases k,
{
    if n > 0 {
        assert(k > 0);
        assert(n / 62 < pow62((k - 1) as nat));
        lemma_encode_len(n / 62, (k - 1) as nat);
    }
}

/// Round trip: every `n < 62^k` encodes to at most `k` symbols of the
/// alphabet, and decoding that string gives back `n`.
pub proof fn law_round_trip(n: nat, k: nat)
    requires
        n < pow62(k),
    ensures
        encode_spec(n).len() <= k,
        is_base62(encode_spec(n)),
        decode_spec(encode_spec(n)) == n,
{
    lemma_encode_len(n, k);
    lemma_encode_is_base62(n);
    lemma_decode_encode(n);
}

/// The symbol for a digit below 62.
fn digit_to_char(d: u64) -> (c: char)
    requires
        d < 62,
    ensures
        c == digit_char(d as int),
{
    let code: u8 = if d < 10 {
        48 + d as u8
    } else if d < 36 {
        55 + d as u8
    } else {
        61 + d as u8
    };
    code as char
}

/// Appends the base-62 form of `n` to `out`.
fn encode_into(n: u64, out: &mut String)
    ensures
        final(out)@ == old(out)@ + encode_spec(n as nat),
    decreases n,
{
    if n > 0 {
        encode_into(n / BASE, out);
        let c = digit_to_char(n % BASE);
        out.push(c);
        assert(out@ =~= old(out)@ + encode_spec(n as nat));
    } else {
        assert(out@ =~= old(out)@ + encode_spec(n as nat));
    }
}

/// Writes `n` in base 62: digits, then upper-case, then lower-case letters,
/// most significant symbol first. Zero gives the empty string.
pub fn encode(n: u64) -> (r: String)
    ensures
        r@ == encode_spec(n as nat),
{
    let mut out = String::new();
    encode_into(n, &mut out);
    assert(out@ =~= encode_spec(n as nat));
    out
}

/// Values that can be written as a base-62 key.
pub trait ToBase62 {
    /// The number that the value stands for.
    spec fn base62_value(&self) -> nat;

    fn to_base62(&self) -> (r: String)
        ensures
            r@ == encode_spec(self.base62_value()),
    ;
}

impl ToBase62 for u64 {
    open spec fn base62_value(&self) -> nat {
        *self as nat
    }

    fn to_base62(&self) -> (r: String) {
        encode(*self)
    }
}

/// Whether `c` is one of the 62 symbols.
pub fn is_symbol(c: char) -> (r: bool)
    ensures
        r == is_base62_char(c),
{
    char_to_digit(c).is_some()
}

/// The digit of a symbol, or `None` outside the alphabet.
fn char_to_digit(c: char) -> (r: Option<u64>)
    ensures
        r == (if is_base62_char(c) {
            Some(digit_value(c) as u64)
        } else {
            None::<u64>
        }),
{
    let u = c as u32;
    if 48 <= u && u <= 57 {
        Some((u - 48) as u64)
    } else if 65 <= u && u <= 90 {
        Some((u - 55) as u64)
    } else if 97 <= u && u <= 122 {
        Some((u - 61) as u64)
    } else {
        None
    }
}

/// Reads a base-62 string back into the number it stands for. `None` when a
/// character lies outside the alphabet or the number does not fit in 64 bits.
pub fn decode(s: &str) -> (r: Option<u64>)
    ensures
        r == (if is_base62(s@) && decode_spec(s@) <= u64::MAX {
            Some(decode_spec(s@) as u64)
        } else {
            None::<u64>
        }),
{
    let len = s.unicode_len();
    let mut acc: u64 = 0;
    let mut i: usize = 0;
    while i < len
        invariant
            len == s@.len(),
            i <= len,
            is_base62(s@.subrange(0, i as int)),
            acc as int == decode_spec(s@.subrange(0, i as int)),
        decreases len - i,
    {
        let c = s.get_char(i);
        let ghost pre = s@.subrange(0, i as int);
        let ghost next = s@.subrange(0, i + 1);
        assert(next.drop_last() =~= pre);
        match char_to_digit(c) {
            None => {
                assert(!is_base62(s@)) by {
                    assert(!is_base62_char(s@[i as int]));
                }
                return None;
            },
            Some(d) => {
                assert(is_base62(next)) by {
                    assert forall|j: int| 0 <= j < next.len() implies is_base62_char(#[trigger] next[j]) by {
                        if j < i {
                            assert(next[j] == pre[j]);
                        }
                    }
                }
                match acc.checked_mul(BASE) {
                    None => {
                        proof { lemma_too_large(s@, i as int); }
                        return None;
                    },
                    Some(m) => match m.checked_add(d) {
                        None => {
                            proof { lemma_too_large(s@, i as int); }
                            return None;
                        },
                        Some(v) => {
                            acc = v;
                        },
                    },
                }
            },
        }
        i = i + 1;
    }
    assert(s@.subrange(0, len as int) =~= s@);
    Some(acc)
}

/// Once a prefix of a base-62 string overflows 64 bits, so does the whole string.
proof fn lemma_too_large(s: Seq<char>, i: int)
    requires
        0 <= i < s.len(),
        is_base62(s.subrange(0, i + 1)),
        decode_spec(s.subrange(0, i + 1)) > u64::MAX,
    ensures
        !(is_base62(s) && decode_spec(s) <= u64::MAX),
    decreases s.len() - i,
{
    if is_base62(s) {
        if i + 1 == s.len() {
            assert(s.subrange(0, i + 1) =~= s);
        } else {
            let next = s.subrange(0, i + 2);
            assert(next.drop_last() =~= s.subrange(0, i + 1));
            assert(is_base62(next)) by {
                assert forall|j: int| 0 <= j < next.len() implies is_base62_char(#[trigger] next[j]) by {
                    assert(next[j] == s[j]);
                }
            }
            assert(is_base62_char(s[i + 1]));
            lemma_too_large(s, i + 1);
        }
    }
}

/// Relies on `String::push`: appends the character to the end of the string.
pub assume_specification[ String::push ](s: &mut String, ch: char)
    ensures
        final(s)@ == old(s)@.push(ch),
;

} // verus!
