//! Keys: short base-62 strings that name a stored URL.

use std::collections::hash_map::DefaultHasher;
use std::hash::Hasher;
use std::time::{Duration, SystemTime, SystemTimeError};

use vstd::prelude::*;
use vstd::std_specs::hash::DefaultHasherAdditionalSpecFns;
use vstd::utf8::encode_utf8;

use crate::base62::{
    decode, decode_spec, encode, encode_spec, is_base62, is_base62_char, is_symbol,
    lemma_decode_encode, lemma_encode_is_base62,
};
use crate::error::BrefError;

verus! {

#[verifier::external_type_specification]
#[verifier::external_body]
pub struct ExSystemTime(SystemTime);

#[verifier::external_type_specification]
#[verifier::external_body]
pub struct ExSystemTimeError(SystemTimeError);

/// Relies on `SystemTime::now`: reads the system clock. Nothing is known of
/// the value.
pub assume_specification[ SystemTime::now ]() -> SystemTime;

/// Relies on `SystemTime::duration_since`: the time elapsed since `earlier`,
/// or an error when `earlier` is later than `self`.
pub assume_specification[ SystemTime::duration_since ](
    t: &SystemTime,
    earlier: SystemTime,
) -> Result<Duration, SystemTimeError>;

/// Relies on `Duration::as_secs`: the number of whole seconds.
pub assume_specification[ Duration::as_secs ](d: &Duration) -> u64;

/// Relies on `std::time::UNIX_EPOCH`: 1970-01-01 00:00:00 UTC as a
/// `SystemTime`.
#[verifier::external_body]
fn unix_epoch() -> SystemTime {
    std::time::UNIX_EPOCH
}

/// The bytes that `str`'s `Hash` impl feeds to a hasher: the UTF-8 bytes of
/// the text, then one `0xff` byte.
pub open spec fn str_hash_writes(s: Seq<char>) -> Seq<Seq<u8>> {
    seq![encode_utf8(s), seq![0xffu8]]
}

/// The 64-bit hash of a text under std's `DefaultHasher`.
pub open spec fn content_hash(s: Seq<char>) -> u64 {
    DefaultHasher::spec_finish(str_hash_writes(s))
}

/// A short key made of base-62 symbols.
#[derive(Debug)]
pub struct Key {
    text: String,
}

impl View for Key {
    type V = Seq<char>;

    closed spec fn view(&self) -> Seq<char> {
        self.text@
    }
}

impl Key {
    #[verifier::type_invariant]
    spec fn inv(&self) -> bool {
        is_base62(self.text@)
    }

    /// The key for the second `secs` after the Unix epoch: `secs` in base 62.
    pub fn from_secs(secs: u64) -> (k: Key)
        ensures
            k@ == encode_spec(secs as nat),
    {
        proof {
            lemma_encode_is_base62(secs as nat);
        }
        Key { text: encode(secs) }
    }

    /// A new key from the current time in whole seconds since the Unix
    /// epoch. Fails with `BrefError::Clock` when the clock reads a time before
    /// the epoch.
    pub fn gen() -> (r: Result<Key, BrefError>)
        ensures
            r matches Ok(k) ==> exists|secs: u64| k@ == encode_spec(secs as nat),
            r matches Err(e) ==> e is Clock,
    {
        let now = SystemTime::now();
        match now.duration_since(unix_epoch()) {
            Ok(elapsed) => {
                let secs = elapsed.as_secs();
                Ok(Key::from_secs(secs))
            },
            Err(_) => Err(BrefError::Clock),
        }
    }

    /// A key derived from content: the content's 64-bit `DefaultHasher`
    /// hash, in base 62. The same content always gives the same key.
    pub fn from_content(content: &str) -> (k: Key)
        ensures
            k@ == encode_spec(content_hash(content@) as nat),
    {
        let mut hasher = DefaultHasher::new();
        hasher.write(content.as_bytes());
        let end: [u8; 1] = [0xffu8];
        let end_bytes = end.as_slice();
        assert(end_bytes@ =~= seq![0xffu8]);
        hasher.write(end_bytes);
        assert(hasher@ =~= str_hash_writes(content@));
        let hash = hasher.finish();
        Key::from_secs(hash)
    }

    /// The key written as `text`, or `None` if `text` holds a character
    /// outside the base-62 alphabet.
    pub fn parse(text: &str) -> (r: Option<Key>)
        ensures
            r matches Some(k) ==> k@ == text@,
            r is Some <==> is_base62(text@),
    {
        let len = text.unicode_len();
        let mut i: usize = 0;
        while i < len
            invariant
                len == text@.len(),
                i <= len,
                forall|j: int| 0 <= j < i ==> is_base62_char(#[trigger] text@[j]),
            decreases len - i,
        {
            let c = text.get_char(i);
            if !is_symbol(c) {
                return None;
            }
            i = i + 1;
        }
        Some(Key { text: text.to_owned() })
    }

    /// The key's text.
    pub fn as_str(&self) -> (r: &str)
        ensures
            r@ == self@,
            is_base62(r@),
    {
        proof {
            use_type_invariant(self);
        }
        self.text.as_str()
    }

    /// The key's UTF-8 bytes, as the store holds them.
    pub fn as_bytes(&self) -> (r: &[u8])
        ensures
            r@ == encode_utf8(self@),
    {
        self.text.as_str().as_bytes()
    }

    /// The number that the key stands for, or `None` if it exceeds 64 bits.
    pub fn value(&self) -> (r: Option<u64>)
        ensures
            r == (if decode_spec(self@) <= u64::MAX {
                Some(decode_spec(self@) as u64)
            } else {
                None::<u64>
            }),
    {
        proof {
            use_type_invariant(self);
        }
        decode(self.text.as_str())
    }
}

impl Clone for Key {
    fn clone(&self) -> (r: Key)
        ensures
            r@ == self@,
    {
        proof {
            use_type_invariant(self);
        }
        Key { text: self.text.clone() }
    }
}

impl PartialEq for Key {
    fn eq(&self, other: &Key) -> (r: bool) {
        self.text == other.text
    }
}

impl vstd::std_specs::cmp::PartialEqSpecImpl for Key {
    open spec fn obeys_eq_spec() -> bool {
        true
    }

    open spec fn eq_spec(&self, other: &Key) -> bool {
        self@ == other@
    }
}

impl Eq for Key {
}

impl AsRef<[u8]> for Key {
    /// The key's UTF-8 bytes, as the store holds them.
    fn as_ref(&self) -> (r: &[u8])
        ensures
            r@ == encode_utf8(self@),
    {
        self.as_bytes()
    }
}

/// Keys made at two seconds are equal exactly when the seconds are, and a
/// later second gives a key that reads as a larger number.
pub proof fn law_keys_follow_time(s1: u64, s2: u64)
    ensures
        (encode_spec(s1 as nat) == encode_spec(s2 as nat)) <==> s1 == s2,
        s1 < s2 ==> decode_spec(encode_spec(s1 as nat)) < decode_spec(encode_spec(s2 as nat)),
{
    lemma_decode_encode(s1 as nat);
    lemma_decode_encode(s2 as nat);
}

} // verus!
