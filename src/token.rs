//! Signed request tokens: a millisecond timestamp and the first seven hex
//! digits of the SHA-512 digest of that timestamp followed by a secret salt.

use sha2::Digest;
use vstd::prelude::*;
use crate::text::{decimal, digit_char, lemma_decimal_nonempty, push_char, push_decimal};

verus! {

/// The SHA-512 digest of the UTF-8 encoding of a text.
pub uninterp spec fn sha512_of(text: Seq<char>) -> Seq<u8>;

/// Relies on `sha2::Sha512::digest`: the 64-byte digest of the text's bytes.
#[verifier::external_body]
fn sha512_text(text: &str) -> (r: Vec<u8>)
    ensures
        r@ == sha512_of(text@),
        r@.len() == 64,
{
    sha2::Sha512::digest(text.as_bytes()).to_vec()
}

/// Lower-case hex digit of a nibble.
pub open spec fn hex_char(v: nat) -> char
    recommends
        v < 16,
{
    if v < 10 {
        ((v + 48) as u8) as char
    } else {
        ((v + 87) as u8) as char
    }
}

/// Lower-case hex text of bytes: two digits per byte, high nibble first.
pub open spec fn hex_of(b: Seq<u8>) -> Seq<char> {
    Seq::new(
        2 * b.len(),
        |i: int|
            if i % 2 == 0 {
                hex_char((b[i / 2] / 16) as nat)
            } else {
                hex_char((b[i / 2] % 16) as nat)
            },
    )
}

/// The text that is hashed: the decimal timestamp, then the salt.
pub open spec fn signed_text(timestamp: nat, salt: Seq<char>) -> Seq<char> {
    decimal(timestamp) + salt
}

/// The first seven hex digits of the digest of `signed_text`.
pub open spec fn digest_prefix(timestamp: nat, salt: Seq<char>) -> Seq<char> {
    hex_of(sha512_of(signed_text(timestamp, salt))).take(7)
}

pub open spec fn is_lower_hex(c: char) -> bool {
    ('0' <= c && c <= '9') || ('a' <= c && c <= 'f')
}

fn nibble_char(v: u8) -> (c: char)
    requires
        v < 16,
    ensures
        c == hex_char(v as nat),
        is_lower_hex(c),
{
    if v < 10 {
        (v + 48) as char
    } else {
        (v + 87) as char
    }
}

/// Builds the token for `timestamp` (milliseconds since the Unix epoch) and
/// `salt`: the timestamp in decimal, and the digest prefix.
pub fn create_hmac(timestamp: u128, salt: &str) -> (r: (String, String))
    ensures
        r.0@ == decimal(timestamp as nat),
        r.1@ == digest_prefix(timestamp as nat, salt@),
        r.1@.len() == 7,
        forall|i: int| 0 <= i < 7 ==> is_lower_hex(#[trigger] r.1@[i]),
{
    let mut message = String::new();
    push_decimal(&mut message, timestamp);
    message.append(salt);
    assert(message@ =~= signed_text(timestamp as nat, salt@));
    let hash = sha512_text(message.as_str());
    let ghost full = hex_of(hash@);
    let mut prefix = String::new();
    let mut i: usize = 0;
    while i < 7
        invariant
            i <= 7,
            hash@.len() == 64,
            full == hex_of(hash@),
            prefix@ == full.take(i as int),
            forall|j: int| 0 <= j < i ==> is_lower_hex(#[trigger] prefix@[j]),
        decreases 7 - i,
    {
        let b = hash[i / 2];
        let c = if i % 2 == 0 {
            nibble_char(b / 16)
        } else {
            nibble_char(b % 16)
        };
        push_char(&mut prefix, c);
        i = i + 1;
        assert(prefix@ =~= full.take(i as int));
    }
    let mut stamp = String::new();
    push_decimal(&mut stamp, timestamp);
    (stamp, prefix)
}

/// Every digest prefix is seven lower-case hex digits.
pub proof fn lemma_digest_prefix_shape(timestamp: nat, salt: Seq<char>, digest: Seq<u8>)
    requires
        digest == sha512_of(signed_text(timestamp, salt)),
        digest.len() == 64,
    ensures
        digest_prefix(timestamp, salt).len() == 7,
        forall|i: int| 0 <= i < 7 ==> is_lower_hex(#[trigger] digest_prefix(timestamp, salt)[i]),
{
    assert forall|i: int| 0 <= i < 7 implies is_lower_hex(#[trigger] digest_prefix(timestamp, salt)[i]) by {
        let b = digest[i / 2];
        assert(b / 16 < 16 && b % 16 < 16) by (bit_vector);
    }
}

/// Two tokens built from the same timestamp and salt carry the same digest
/// prefix.
pub proof fn lemma_token_deterministic(timestamp: nat, salt: Seq<char>, first: Seq<char>, second: Seq<char>)
    requires
        first == digest_prefix(timestamp, salt),
        second == digest_prefix(timestamp, salt),
    ensures
        first == second,
{
}

proof fn lemma_digit_char_injective(a: nat, b: nat)
    requires
        a < 10,
        b < 10,
        digit_char(a) == digit_char(b),
    ensures
        a == b,
{
    assert(digit_char(a) as u32 == a + 48);
    assert(digit_char(b) as u32 == b + 48);
}

/// Distinct numbers have distinct decimal texts.
pub proof fn lemma_decimal_injective(a: nat, b: nat)
    requires
        decimal(a) == decimal(b),
    ensures
        a == b,
    decreases a,
{
    if a < 10 && b < 10 {
        assert(decimal(a)[0] == digit_char(a));
        assert(decimal(b)[0] == digit_char(b));
        lemma_digit_char_injective(a, b);
    } else if a < 10 {
        lemma_decimal_nonempty(b / 10);
        assert(decimal(b).len() == decimal(b / 10).len() + 1);
    } else if b < 10 {
        lemma_decimal_nonempty(a / 10);
        assert(decimal(a).len() == decimal(a / 10).len() + 1);
    } else {
        let da = decimal(a);
        assert(da.last() == digit_char(a % 10));
        assert(decimal(b).last() == digit_char(b % 10));
        assert(decimal(a / 10) =~= da.drop_last());
        assert(decimal(b / 10) =~= decimal(b).drop_last());
        lemma_digit_char_injective(a % 10, b % 10);
        lemma_decimal_injective(a / 10, b / 10);
        assert(a == 10 * (a / 10) + a % 10) by (nonlinear_arith);
        assert(b == 10 * (b / 10) + b % 10) by (nonlinear_arith);
    }
}

/// Changing only the timestamp, or only the salt, changes the hashed text; a
/// different digest then rests on the hash alone.
pub proof fn lemma_signed_text_distinct(t1: nat, s1: Seq<char>, t2: nat, s2: Seq<char>)
    requires
        t1 == t2 || s1 == s2,
        t1 != t2 || s1 != s2,
    ensures
        signed_text(t1, s1) != signed_text(t2, s2),
{
    if signed_text(t1, s1) == signed_text(t2, s2) {
        let m = signed_text(t1, s1);
        if t1 == t2 {
            assert(s1 =~= m.subrange(decimal(t1).len() as int, m.len() as int));
            assert(s2 =~= m.subrange(decimal(t2).len() as int, m.len() as int));
        } else {
            assert(decimal(t1) =~= m.subrange(0, m.len() - s1.len()));
            assert(decimal(t2) =~= m.subrange(0, m.len() - s2.len()));
            lemma_decimal_injective(t1, t2);
        }
    }
}

} // verus!
