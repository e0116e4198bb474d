//! Request builder, query side: rendering a list of key/value pairs as a
//! form-urlencoded query string, as the transport layer appends it to a
//! request URL.
//!
//! Bytes in `[A-Za-z0-9*\-._]` pass unchanged, space becomes `+`, and every
//! other byte is rendered as `%XX` with uppercase hex.  Pairs are written
//! `key=value` and joined with `&`.

use vstd::prelude::*;
use vstd::string::StringExecFns;
use vstd::utf8::encode_utf8;
use crate::endpoint::pct_encoded;
use crate::strutil::{hex_char_upper, string_push};

verus! {

/// Bytes that form-urlencoding passes through unchanged.
pub open spec fn form_unchanged_byte(b: u8) -> bool {
    ||| b == 0x2a
    ||| b == 0x2d
    ||| b == 0x2e
    ||| (0x30 <= b && b <= 0x39)
    ||| (0x41 <= b && b <= 0x5a)
    ||| b == 0x5f
    ||| (0x61 <= b && b <= 0x7a)
}

/// What one byte contributes to a form-urlencoded string.
pub open spec fn form_byte_chars(b: u8) -> Seq<char> {
    if form_unchanged_byte(b) {
        seq![b as char]
    } else if b == 0x20 {
        seq!['+']
    } else {
        pct_encoded(b)
    }
}

/// The form-urlencoded rendering of a byte string.
pub open spec fn form_encoded(bs: Seq<u8>) -> Seq<char>
    decreases bs.len(),
{
    if bs.len() == 0 {
        Seq::empty()
    } else {
        form_byte_chars(bs.first()) + form_encoded(bs.drop_first())
    }
}

/// One `key=value` pair.
pub open spec fn query_pair(k: Seq<u8>, v: Seq<u8>) -> Seq<char> {
    form_encoded(k) + seq!['='] + form_encoded(v)
}

/// A whole query string: pairs joined with `&`.
pub open spec fn query_string(pairs: Seq<(Seq<u8>, Seq<u8>)>) -> Seq<char>
    decreases pairs.len(),
{
    if pairs.len() == 0 {
        Seq::empty()
    } else if pairs.len() == 1 {
        query_pair(pairs.first().0, pairs.first().1)
    } else {
        query_pair(pairs.first().0, pairs.first().1) + seq!['&'] + query_string(
            pairs.drop_first(),
        )
    }
}

/// The byte sequences of a list of string pairs.
pub open spec fn pairs_bytes(pairs: Seq<(String, String)>) -> Seq<(Seq<u8>, Seq<u8>)> {
    pairs.map_values(|p: (String, String)| (encode_utf8(p.0@), encode_utf8(p.1@)))
}

fn form_unchanged(b: u8) -> (r: bool)
    ensures
        r == form_unchanged_byte(b),
{
    b == 0x2a || b == 0x2d || b == 0x2e || (0x30 <= b && b <= 0x39) || (0x41 <= b && b <= 0x5a)
        || b == 0x5f || (0x61 <= b && b <= 0x7a)
}

fn append_form_encoded(r: &mut String, s: &str)
    ensures
        final(r)@ == old(r)@ + form_encoded(encode_utf8(s@)),
{
    let bytes = s.as_bytes();
    let ghost all = bytes@;
    assert(all.skip(0) =~= all);
    let len = bytes.len();
    for i in 0..len
        invariant
            len == bytes@.len(),
            bytes@ == all,
            old(r)@ + form_encoded(all) =~= r@ + form_encoded(all.skip(i as int)),
    {
        let b = bytes[i];
        proof {
            assert(all.skip(i as int).first() == all[i as int]);
            assert(all.skip(i as int).drop_first() =~= all.skip(i + 1));
        }
        if form_unchanged(b) {
            string_push(r, b as char);
        } else if b == 0x20 {
            string_push(r, '+');
        } else {
            string_push(r, '%');
            string_push(r, hex_char_upper(b / 16));
            string_push(r, hex_char_upper(b % 16));
        }
        assert(old(r)@ + form_encoded(all) =~= r@ + form_encoded(all.skip(i + 1)));
    }
    assert(form_encoded(all.skip(len as int)) =~= Seq::<char>::empty());
    assert(r@ =~= old(r)@ + form_encoded(all));
}

/// Joining two pair lists into one query string inserts a single `&` between
/// their renderings.
proof fn lemma_query_string_concat(a: Seq<(Seq<u8>, Seq<u8>)>, b: Seq<(Seq<u8>, Seq<u8>)>)
    ensures
        query_string(a + b) == if a.len() == 0 {
            query_string(b)
        } else if b.len() == 0 {
            query_string(a)
        } else {
            query_string(a) + seq!['&'] + query_string(b)
        },
    decreases a.len(),
{
    if a.len() == 0 {
        assert(a + b =~= b);
    } else {
        assert((a + b).first() == a.first());
        assert((a + b).drop_first() =~= a.drop_first() + b);
        lemma_query_string_concat(a.drop_first(), b);
        if b.len() == 0 {
            assert(a + b =~= a);
        } else {
            if a.len() == 1 {
                assert(a.drop_first() =~= Seq::<(Seq<u8>, Seq<u8>)>::empty());
                assert(query_string(a + b) =~= query_string(a) + seq!['&'] + query_string(b));
            } else {
                assert(query_string(a + b) =~= query_string(a) + seq!['&'] + query_string(b));
            }
        }
    }
}

/// Renders a query-parameter list as a form-urlencoded query string.
pub fn encode_query(query: &Vec<(String, String)>) -> (r: String)
    ensures
        r@ == query_string(pairs_bytes(query@)),
{
    let ghost pairs = pairs_bytes(query@);
    let mut r = String::new();
    let len = query.len();
    for i in 0..len
        invariant
            len == query@.len(),
            pairs == pairs_bytes(query@),
            i == 0 ==> r@ == Seq::<char>::empty(),
            r@ == query_string(pairs.take(i as int)),
    {
        let ghost pre = r@;
        if i > 0 {
            string_push(&mut r, '&');
        }
        let k = &query[i].0;
        let v = &query[i].1;
        append_form_encoded(&mut r, k.as_str());
        string_push(&mut r, '=');
        append_form_encoded(&mut r, v.as_str());
        proof {
            let p = pairs[i as int];
            assert(p == (encode_utf8(query@[i as int].0@), encode_utf8(query@[i as int].1@)));
            assert(query_string(seq![p]) =~= query_pair(p.0, p.1)) by {
                assert(seq![p].first() == p);
            };
            lemma_query_string_concat(pairs.take(i as int), seq![p]);
            assert(pairs.take(i as int) + seq![p] =~= pairs.take(i + 1));
            if i == 0 {
                assert(r@ =~= query_string(pairs.take(i + 1)));
            } else {
                assert(r@ =~= pre + seq!['&'] + query_pair(p.0, p.1));
                assert(r@ =~= query_string(pairs.take(i + 1)));
            }
        }
    }
    proof {
        assert(pairs.take(len as int) =~= pairs);
    }
    r
}

} // verus!
