//! Request builder, URL side: a base endpoint normalized once at
//! construction, and resolution of a full request URL by appending
//! independently escaped path segments.
//!
//! Escaping follows the WHATWG path-segment rules for special schemes, as the
//! `url` crate applies them when a segment is pushed onto a parsed URL: ASCII
//! tab and newlines are dropped, `.` and `..` segments are ignored, and every
//! byte outside the safe set (controls, space, `"`, `#`, `%`, `/`, `<`, `>`,
//! `?`, `\`, `` ` ``, `{`, `}`, `DEL` and all non-ASCII bytes) is rendered as
//! `%XX` with uppercase hex.  In particular a `/` inside a segment becomes
//! `%2F` and can never introduce an extra path level.

use vstd::prelude::*;
use vstd::string::StringExecFns;
use vstd::string::StringSliceAdditionalSpecFns;
use vstd::utf8::encode_utf8;
use crate::strutil::{hex_upper_digit, hex_char_upper, string_push};

verus! {

/// Bytes that are dropped from a segment before escaping: ASCII tab, line
/// feed and carriage return.
pub open spec fn is_stripped_byte(b: u8) -> bool {
    b == 9 || b == 10 || b == 13
}

/// The path-segment escape set: bytes rendered as `%XX`.
pub open spec fn in_segment_escape_set(b: u8) -> bool {
    ||| b <= 0x1f
    ||| b >= 0x7f
    ||| b == 0x20
    ||| b == 0x22
    ||| b == 0x23
    ||| b == 0x25
    ||| b == 0x2f
    ||| b == 0x3c
    ||| b == 0x3e
    ||| b == 0x3f
    ||| b == 0x5c
    ||| b == 0x60
    ||| b == 0x7b
    ||| b == 0x7d
}

/// `%XX` with uppercase hex digits.
pub open spec fn pct_encoded(b: u8) -> Seq<char> {
    seq!['%', hex_upper_digit(b as int / 16), hex_upper_digit((b as int) % 16)]
}

/// What one byte of a segment contributes to the escaped segment.
pub open spec fn segment_byte_chars(b: u8) -> Seq<char> {
    if is_stripped_byte(b) {
        Seq::empty()
    } else if in_segment_escape_set(b) {
        pct_encoded(b)
    } else {
        seq![b as char]
    }
}

/// The escaped form of one path segment, from its UTF-8 bytes.
pub open spec fn escaped_segment(bs: Seq<u8>) -> Seq<char>
    decreases bs.len(),
{
    if bs.len() == 0 {
        Seq::empty()
    } else {
        segment_byte_chars(bs.first()) + escaped_segment(bs.drop_first())
    }
}

/// A `.` or `..` segment, which URL path resolution ignores.
pub open spec fn is_dot_segment(bs: Seq<u8>) -> bool {
    bs == seq![0x2eu8] || bs == seq![0x2eu8, 0x2eu8]
}

fn byte_escaped(b: u8) -> (r: bool)
    ensures
        r == in_segment_escape_set(b),
{
    b <= 0x1f || b >= 0x7f || b == 0x20 || b == 0x22 || b == 0x23 || b == 0x25 || b == 0x2f
        || b == 0x3c || b == 0x3e || b == 0x3f || b == 0x5c || b == 0x60 || b == 0x7b
        || b == 0x7d
}

fn push_pct(r: &mut String, b: u8)
    ensures
        final(r)@ == old(r)@ + pct_encoded(b),
{
    string_push(r, '%');
    string_push(r, hex_char_upper(b / 16));
    string_push(r, hex_char_upper(b % 16));
    assert(final(r)@ =~= old(r)@ + pct_encoded(b));
}

/// Escapes one path segment.
pub fn escape_segment(seg: &str) -> (r: String)
    ensures
        r@ == escaped_segment(encode_utf8(seg@)),
{
    let bytes = seg.as_bytes();
    let ghost all = bytes@;
    let mut r = String::new();
    assert(all.skip(0) =~= all);
    let len = bytes.len();
    for i in 0..len
        invariant
            len == bytes@.len(),
            bytes@ == all,
            escaped_segment(all) =~= r@ + escaped_segment(all.skip(i as int)),
    {
        let b = bytes[i];
        proof {
            assert(all.skip(i as int).first() == all[i as int]);
            assert(all.skip(i as int).drop_first() =~= all.skip(i + 1));
        }
        if b == 9 || b == 10 || b == 13 {
            // dropped
        } else if byte_escaped(b) {
            push_pct(&mut r, b);
        } else {
            string_push(&mut r, b as char);
        }
    }
    assert(all.skip(len as int) =~= Seq::<u8>::empty());
    r
}

/// The result of parsing and normalizing a base URL string with the `url`
/// crate, when it parses and can be a base: the normalized serialization and
/// the offset at which its path begins.
pub uninterp spec fn parsed_base_of(s: Seq<char>) -> Option<(Seq<char>, int)>;

/// Relies on the `url` crate's `Url::parse`: parsing is a pure function of
/// the input; a URL that `cannot_be_a_base` is rejected; the serialization of
/// an accepted URL starts with an ASCII scheme-and-authority prefix followed
/// by its path, so the path starts at byte offset `len - path.len()`, within
/// the serialization's character length.
#[verifier::external_body]
fn parse_base(s: &str) -> (r: Option<(String, usize)>)
    ensures
        r is Some <==> parsed_base_of(s@) is Some,
        r matches Some(p) ==> parsed_base_of(s@) == Some((p.0@, p.1 as int))
            && 0 <= p.1 <= p.0@.len(),
{
    match url::Url::parse(s) {
        Ok(u) if !u.cannot_be_a_base() => {
            let path_start = u.as_str().len() - u.path().len();
            Some((u.as_str().to_string(), path_start))
        }
        _ => None,
    }
}

/// True when the UTF-8 bytes hold a `?` or `#`, i.e. the string carries a
/// query or fragment delimiter.
pub open spec fn has_query_or_fragment(bs: Seq<u8>) -> bool {
    exists|i: int| 0 <= i < bs.len() && (bs[i] == 0x3fu8 || bs[i] == 0x23u8)
}

fn contains_query_or_fragment(s: &str) -> (r: bool)
    ensures
        r == has_query_or_fragment(encode_utf8(s@)),
{
    let bytes = s.as_bytes();
    let len = bytes.len();
    for i in 0..len
        invariant
            len == bytes@.len(),
            bytes@ == encode_utf8(s@),
            forall|k: int| 0 <= k < i ==> bytes@[k] != 0x3fu8 && bytes@[k] != 0x23u8,
    {
        let b = bytes[i];
        if b == 0x3f || b == 0x23 {
            return true;
        }
    }
    false
}

/// A base endpoint: the normalized URL string and the offset where its path
/// begins.  All request URLs are resolved by appending escaped path segments
/// to it.
pub struct Endpoint {
    pub base: String,
    pub path_start: usize,
}

/// The byte length of a string's serialization, as `str::len` reports it.
pub open spec fn byte_len(s: Seq<char>) -> usize {
    encode_utf8(s).len() as usize
}

/// Appends one segment to a URL under resolution: `.` and `..` are ignored; a
/// `/` separator is added unless the existing path is exactly `/`; then the
/// escaped segment follows.  Lengths are byte lengths of the serialization.
pub open spec fn push_segment(url: Seq<char>, path_start: int, seg: Seq<u8>) -> Seq<char> {
    if is_dot_segment(seg) {
        url
    } else {
        let sep = if byte_len(url) > path_start + 1 || byte_len(url) == path_start {
            url + seq!['/']
        } else {
            url
        };
        sep + escaped_segment(seg)
    }
}

/// The URL resolved from a base by appending each segment in order.
pub open spec fn resolved_url(url: Seq<char>, path_start: int, segs: Seq<Seq<u8>>) -> Seq<char>
    decreases segs.len(),
{
    if segs.len() == 0 {
        url
    } else {
        resolved_url(push_segment(url, path_start, segs.first()), path_start, segs.drop_first())
    }
}

/// The byte sequences of a list of segment strings.
pub open spec fn segments_bytes(segs: Seq<String>) -> Seq<Seq<u8>> {
    segs.map_values(|s: String| encode_utf8(s@))
}

impl Endpoint {
    /// Parses and normalizes a base endpoint URL.  A string that does not
    /// parse as an absolute URL that can be a base, or that already carries a
    /// query or fragment, is rejected.
    pub fn new(endpoint_url: &str) -> (r: Option<Endpoint>)
        ensures
            r is Some <==> (!has_query_or_fragment(encode_utf8(endpoint_url@))
                && parsed_base_of(endpoint_url@) is Some),
            r matches Some(ep) ==> parsed_base_of(endpoint_url@) == Some(
                (ep.base@, ep.path_start as int),
            ),
    {
        if contains_query_or_fragment(endpoint_url) {
            return None;
        }
        match parse_base(endpoint_url) {
            Some((base, path_start)) => Some(Endpoint { base, path_start }),
            None => None,
        }
    }

    /// Resolves a request URL by appending each path segment, escaped
    /// independently, to the base.
    pub fn resolve(&self, segments: &Vec<String>) -> (r: String)
        ensures
            r@ == resolved_url(self.base@, self.path_start as int, segments_bytes(segments@)),
    {
        let ghost segs = segments_bytes(segments@);
        let mut url = self.base.clone();
        let len = segments.len();
        assert(segs.skip(0) =~= segs);
        for i in 0..len
            invariant
                len == segments@.len(),
                segs == segments_bytes(segments@),
                resolved_url(self.base@, self.path_start as int, segs) == resolved_url(
                    url@,
                    self.path_start as int,
                    segs.skip(i as int),
                ),
        {
            proof {
                assert(segs.skip(i as int).first() == segs[i as int]);
                assert(segs.skip(i as int).drop_first() =~= segs.skip(i + 1));
            }
            let seg = &segments[i];
            let seg_bytes = seg.as_str().as_bytes();
            let n = seg_bytes.len();
            let dot = (n == 1 && seg_bytes[0] == 0x2e) || (n == 2 && seg_bytes[0] == 0x2e
                && seg_bytes[1] == 0x2e);
            proof {
                if n == 1 && seg_bytes@[0] == 0x2eu8 {
                    assert(seg_bytes@ =~= seq![0x2eu8]);
                }
                if n == 2 && seg_bytes@[0] == 0x2eu8 && seg_bytes@[1] == 0x2eu8 {
                    assert(seg_bytes@ =~= seq![0x2eu8, 0x2eu8]);
                }
            }
            let ghost url_pre = url@;
            assert(segs[i as int] == encode_utf8(seg@));
            if !dot {
                let blen = url.as_str().len();
                assert(blen == byte_len(url@));
                if blen > self.path_start && blen - self.path_start > 1 {
                    string_push(&mut url, '/');
                } else if blen == self.path_start {
                    string_push(&mut url, '/');
                }
                let ghost sep_done = url@;
                let escaped = escape_segment(seg.as_str());
                url.append(escaped.as_str());
                assert(url@ =~= sep_done + escaped_segment(encode_utf8(seg@)));
                assert(url@ =~= push_segment(url_pre, self.path_start as int, segs[i as int]));
            } else {
                assert(url@ == push_segment(url_pre, self.path_start as int, segs[i as int]));
            }
        }
        proof {
            assert(segs.skip(len as int) =~= Seq::<Seq<u8>>::empty());
        }
        url
    }
}

/// Escaping never lets a separator through: no character of an escaped
/// segment is `/`, and a `/` byte inside a segment is rendered as the three
/// characters `%2F`, escaped independently of what surrounds it.
pub proof fn lemma_segment_slash_escaped(pre: Seq<u8>, post: Seq<u8>)
    ensures
        escaped_segment(pre + seq![0x2fu8] + post) == escaped_segment(pre) + seq!['%', '2', 'F']
            + escaped_segment(post),
        forall|i: int|
            0 <= i < escaped_segment(pre + seq![0x2fu8] + post).len() ==> escaped_segment(
                pre + seq![0x2fu8] + post,
            )[i] != '/',
{
    lemma_escaped_segment_concat(pre, seq![0x2fu8] + post);
    lemma_escaped_segment_concat(seq![0x2fu8], post);
    assert(pre + seq![0x2fu8] + post =~= pre + (seq![0x2fu8] + post));
    let s = seq![0x2fu8];
    assert(s.len() == 1 && s.first() == 0x2fu8);
    assert(s.drop_first() =~= Seq::<u8>::empty());
    assert(escaped_segment(s.drop_first()) =~= Seq::<char>::empty());
    assert(escaped_segment(s) == segment_byte_chars(0x2fu8) + escaped_segment(s.drop_first()));
    assert(escaped_segment(s) =~= segment_byte_chars(0x2fu8));
    assert(segment_byte_chars(0x2fu8) =~= seq!['%', '2', 'F']);
    assert(escaped_segment(pre + seq![0x2fu8] + post) =~= escaped_segment(pre)
        + seq!['%', '2', 'F'] + escaped_segment(post));
    lemma_escaped_segment_no_slash(pre + seq![0x2fu8] + post);
}

/// Escaping one segment works byte by byte: it distributes over
/// concatenation of the segment's bytes.
pub proof fn lemma_escaped_segment_concat(a: Seq<u8>, b: Seq<u8>)
    ensures
        escaped_segment(a + b) == escaped_segment(a) + escaped_segment(b),
    decreases a.len(),
{
    if a.len() == 0 {
        assert(a + b =~= b);
        assert(escaped_segment(a) =~= Seq::<char>::empty());
        assert(escaped_segment(a) + escaped_segment(b) =~= escaped_segment(b));
    } else {
        assert((a + b).first() == a.first());
        assert((a + b).drop_first() =~= a.drop_first() + b);
        lemma_escaped_segment_concat(a.drop_first(), b);
        assert(escaped_segment(a + b) =~= escaped_segment(a) + escaped_segment(b));
    }
}

/// No character of an escaped segment is a path separator.
pub proof fn lemma_escaped_segment_no_slash(bs: Seq<u8>)
    ensures
        forall|i: int|
            0 <= i < escaped_segment(bs).len() ==> escaped_segment(bs)[i] != '/',
    decreases bs.len(),
{
    if bs.len() > 0 {
        lemma_escaped_segment_no_slash(bs.drop_first());
        let head = segment_byte_chars(bs.first());
        let rest = escaped_segment(bs.drop_first());
        assert forall|i: int| 0 <= i < head.len() implies head[i] != '/' by {
            let b = bs.first();
            if !is_stripped_byte(b) && !in_segment_escape_set(b) {
                assert(b != 0x2fu8);
                assert(b as char != '/');
            } else if !is_stripped_byte(b) {
                assert(0 <= b as int / 16 < 16);
                assert(0 <= (b as int) % 16 < 16);
                assert(hex_upper_digit(b as int / 16) != '/');
                assert(hex_upper_digit((b as int) % 16) != '/');
            }
        }
        assert forall|i: int| 0 <= i < escaped_segment(bs).len() implies escaped_segment(bs)[i]
            != '/' by {
            assert(escaped_segment(bs) == head + rest);
            if i < head.len() {
                assert(escaped_segment(bs)[i] == head[i]);
            } else {
                assert(escaped_segment(bs)[i] == rest[i - head.len()]);
            }
        }
    }
}

} // verus!
