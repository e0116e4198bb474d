//! Small string-building helpers shared by the signature engine and the
//! request builder: pushing single characters, decimal rendering of integers,
//! and lowercase hex rendering of byte strings.

use vstd::prelude::*;
use vstd::string::StringExecFns;

verus! {

/// Relies on std's `String::push`: appends exactly one character at the end.
#[verifier::external_body]
pub fn string_push(s: &mut String, c: char)
    ensures
        final(s)@ == old(s)@.push(c),
{
    s.push(c);
}

/// The decimal digit character for a value in 0..10.
pub open spec fn dec_digit(d: int) -> char {
    ((d + 48) as u8) as char
}

/// The decimal rendering of a non-negative integer, most significant digit
/// first, with no leading zeros (a single `'0'` for zero).
pub open spec fn dec_str(n: int) -> Seq<char>
    decreases n,
{
    if n < 10 {
        seq![dec_digit(n)]
    } else {
        dec_str(n / 10).push(dec_digit(n % 10))
    }
}

/// A sequence read back to front.
pub open spec fn seq_rev<A>(s: Seq<A>) -> Seq<A> {
    Seq::new(s.len(), |i: int| s[s.len() - 1 - i])
}

proof fn lemma_seq_rev_push<A>(s: Seq<A>, x: A)
    ensures
        seq_rev(s.push(x)) == seq![x] + seq_rev(s),
{
    assert(seq_rev(s.push(x)) =~= seq![x] + seq_rev(s));
}

/// Renders a `u64` in decimal, as `to_string` would.
pub fn u64_to_dec(n: u64) -> (r: String)
    ensures
        r@ == dec_str(n as int),
{
    let mut digits: Vec<char> = Vec::new();
    let mut m: u64 = n;
    loop
        invariant_except_break
            digits.len() == 0 ==> m == n,
            digits.len() > 0 ==> dec_str(n as int) == dec_str(m as int) + seq_rev(digits@),
        ensures
            dec_str(n as int) == seq_rev(digits@),
        decreases m,
    {
        let d: u64 = m % 10;
        let c: char = (48 + d as u8) as char;
        proof {
            lemma_seq_rev_push(digits@, dec_digit(m as int % 10));
            if digits@.len() == 0 {
                assert(dec_str(n as int) == dec_str(m as int) + seq_rev(digits@))
                    by { assert(seq_rev(digits@) =~= Seq::<char>::empty()); };
            }
        }
        digits.push(c);
        if m < 10 {
            proof {
                assert(dec_str(m as int) == seq![dec_digit(m as int)]);
                assert(dec_str(n as int) =~= seq_rev(digits@));
            }
            break;
        }
        proof {
            assert(dec_str(m as int) == dec_str(m as int / 10).push(dec_digit(m as int % 10)));
            assert(dec_str(n as int) =~= dec_str(m as int / 10) + seq_rev(digits@));
        }
        m = m / 10;
    }
    let ghost out = dec_str(n as int);
    let mut r = String::new();
    let len = digits.len();
    for i in 0..len
        invariant
            len == digits.len(),
            out.len() == len,
            forall|j: int| 0 <= j < len ==> out[j] == digits@[len - 1 - j],
            r@ =~= out.take(i as int),
    {
        string_push(&mut r, digits[len - 1 - i]);
        assert(r@ =~= out.take(i + 1));
    }
    assert(r@ =~= out);
    r
}

/// The decimal rendering of an integer: a minus sign for negative values,
/// then the digits.
pub open spec fn int_str(n: int) -> Seq<char> {
    if n >= 0 {
        dec_str(n)
    } else {
        seq!['-'] + dec_str(-n)
    }
}

/// Renders an `i64` in decimal, as `to_string` would.
pub fn i64_to_dec(n: i64) -> (r: String)
    ensures
        r@ == int_str(n as int),
{
    if n >= 0 {
        u64_to_dec(n as u64)
    } else {
        let mag: u64 = if n == i64::MIN {
            9223372036854775808u64
        } else {
            (-n) as u64
        };
        assert(mag as int == -(n as int));
        let digits = u64_to_dec(mag);
        let mut r = String::new();
        string_push(&mut r, '-');
        r.append(digits.as_str());
        assert(r@ =~= int_str(n as int));
        r
    }
}

/// The lowercase hex digit character for a value in 0..16.
pub open spec fn hex_digit(d: int) -> char {
    if d < 10 {
        ((d + 48) as u8) as char
    } else {
        ((d + 87) as u8) as char
    }
}

/// The lowercase hex rendering of a byte string, two digits per byte.
pub open spec fn hex_str(bytes: Seq<u8>) -> Seq<char>
    decreases bytes.len(),
{
    if bytes.len() == 0 {
        Seq::empty()
    } else {
        seq![
            hex_digit(bytes.first() as int / 16),
            hex_digit((bytes.first() % 16) as int),
        ] + hex_str(bytes.drop_first())
    }
}

/// One lowercase hex digit.
pub fn hex_char(d: u8) -> (r: char)
    requires
        d < 16,
    ensures
        r == hex_digit(d as int),
{
    if d < 10 {
        (48 + d) as char
    } else {
        (87 + d) as char
    }
}

/// The uppercase hex digit character for a value in 0..16, as percent
/// encoding renders it.
pub open spec fn hex_upper_digit(d: int) -> char {
    if d < 10 {
        ((d + 48) as u8) as char
    } else {
        ((d + 55) as u8) as char
    }
}

/// One uppercase hex digit.
pub fn hex_char_upper(d: u8) -> (r: char)
    requires
        d < 16,
    ensures
        r == hex_upper_digit(d as int),
{
    if d < 10 {
        (48 + d) as char
    } else {
        (55 + d) as char
    }
}

/// Renders a byte string in lowercase hex, as `format!("{:x}", ..)` renders
/// a digest.
pub fn to_hex_lower(data: &Vec<u8>) -> (r: String)
    ensures
        r@ == hex_str(data@),
{
    let mut r = String::new();
    assert(data@.skip(0) =~= data@);
    let len = data.len();
    for i in 0..len
        invariant
            len == data@.len(),
            hex_str(data@) =~= r@ + hex_str(data@.skip(i as int)),
    {
        let b = data[i];
        string_push(&mut r, hex_char(b / 16));
        string_push(&mut r, hex_char(b % 16));
        assert(data@.skip(i as int).drop_first() =~= data@.skip(i + 1));
        assert(data@.skip(i as int).first() == data@[i as int]);
    }
    assert(data@.skip(len as int) =~= Seq::<u8>::empty());
    r
}

} // verus!
