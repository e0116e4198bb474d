//! Clock sync: turning the body of the remote time endpoint into a timestamp.
//!
//! The time endpoint answers with a plain-text decimal integer (seconds since
//! epoch).  A malformed body does not fail the request: the timestamp falls
//! back to the sentinel `1`, a deliberate laxness kept from the protocol
//! (network errors, by contrast, are surfaced by the caller as transport
//! failures and never reach this parser).

use vstd::prelude::*;
use vstd::string::StringSliceAdditionalSpecFns;

verus! {

/// A decimal digit character.
pub open spec fn is_digit_char(c: char) -> bool {
    '0' <= c && c <= '9'
}

/// A non-empty, all-digits character string.
pub open spec fn all_digits(s: Seq<char>) -> bool {
    s.len() > 0 && forall|i: int| 0 <= i < s.len() ==> is_digit_char(#[trigger] s[i])
}

/// The integer value of a digit string (most significant digit first).
pub open spec fn dec_val(s: Seq<char>) -> int
    decreases s.len(),
{
    if s.len() == 0 {
        0
    } else {
        dec_val(s.drop_last()) * 10 + (s.last() as u32 - 48)
    }
}

/// The timestamp obtained from a time-endpoint body: its decimal value if the
/// body is a decimal integer that fits in a `u64`, and the sentinel `1`
/// otherwise.
pub open spec fn timestamp_of(s: Seq<char>) -> u64 {
    if all_digits(s) && dec_val(s) <= u64::MAX {
        dec_val(s) as u64
    } else {
        1
    }
}

proof fn lemma_dec_val_nonneg(s: Seq<char>)
    requires
        forall|i: int| 0 <= i < s.len() ==> is_digit_char(#[trigger] s[i]),
    ensures
        dec_val(s) >= 0,
    decreases s.len(),
{
    if s.len() > 0 {
        lemma_dec_val_nonneg(s.drop_last());
    }
}

proof fn lemma_dec_val_prefix(s: Seq<char>, j: int)
    requires
        forall|i: int| 0 <= i < s.len() ==> is_digit_char(#[trigger] s[i]),
        0 <= j <= s.len(),
    ensures
        dec_val(s.take(j)) <= dec_val(s),
    decreases s.len(),
{
    if j == s.len() {
        assert(s.take(j) =~= s);
    } else {
        assert(s.take(j) =~= s.drop_last().take(j));
        lemma_dec_val_prefix(s.drop_last(), j);
        lemma_dec_val_nonneg(s.drop_last());
    }
}

/// Parses a time-endpoint body.  Returns the decimal value of the body, or
/// the sentinel `1` when the body is not a decimal integer within `u64`
/// range.
pub fn parse_timestamp(body: &str) -> (r: u64)
    ensures
        r == timestamp_of(body@),
{
    if !body.is_ascii() {
        // Some character is above '\u{7f}', so it is not a digit.
        return 1;
    }
    let bytes = body.as_bytes();
    proof {
        vstd::utf8::is_ascii_chars_encode_utf8(body@);
    }
    let len = bytes.len();
    if len == 0 {
        return 1;
    }
    let mut acc: u64 = 0;
    for i in 0..len
        invariant
            vstd::string::is_ascii(body),
            bytes@ == body.spec_bytes(),
            len == bytes@.len(),
            len == body@.len(),
            forall|k: int| 0 <= k < len ==> body@[k] as u8 == bytes@[k],
            forall|k: int| 0 <= k < i ==> is_digit_char(#[trigger] body@[k]),
            acc == dec_val(body@.take(i as int)),
    {
        let b = bytes[i];
        if b < 48 || b > 57 {
            assert(!is_digit_char(body@[i as int]));
            return 1;
        }
        assert(is_digit_char(body@[i as int]));
        let d: u64 = (b - 48) as u64;
        if acc > (u64::MAX - d) / 10 {
            // The value of the digits seen so far already exceeds u64 range,
            // and further digits only increase it.
            proof {
                vstd::arithmetic::div_mod::lemma_fundamental_div_mod(
                    (u64::MAX - d) as int,
                    10,
                );
                assert(body@.take(i + 1).drop_last() =~= body@.take(i as int));
                assert(body@.take(i + 1).last() == body@[i as int]);
                assert(dec_val(body@.take(i + 1)) > u64::MAX);
                assert(forall|k: int|
                    0 <= k < len ==> is_digit_char(#[trigger] body@[k]) || k > i);
                if all_digits(body@) {
                    lemma_dec_val_prefix(body@, i + 1);
                    assert(body@.take(len as int) =~= body@);
                }
            }
            return 1;
        }
        proof {
            assert(body@.take(i + 1).drop_last() =~= body@.take(i as int));
            assert(body@.take(i + 1).last() == body@[i as int]);
        }
        acc = acc * 10 + d;
    }
    proof {
        assert(body@.take(len as int) =~= body@);
        assert(all_digits(body@));
    }
    acc
}

} // verus!
