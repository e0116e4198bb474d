//! Typed decode layer: turning a success body back into a domain record.
//!
//! The decoders read the compact wire form the encoders emit — no
//! surrounding whitespace, fields in declaration order — and reject
//! everything else as a decode failure that carries the raw text.  Decoding
//! inverts encoding: the round-trip laws at the bottom of this module state
//! it, record by record.

use vstd::prelude::*;
use crate::codec::{esc_char, esc_str, str_text, opt_str_text, opt_bool_text, bool_text,
    str_list_text, param_text, param_list_text, job_post_text, workflow_patch_text,
    workflow_spec_text, source_spec_text, destination_spec_text};
use crate::model::Parameter;
use crate::model::di::{DestinationSpec, JobPost, SourceSpec, WorkflowPatch, WorkflowSpec};
use crate::strutil::{hex_digit, string_push};
use crate::transport::Error;
use vstd::string::StringExecFns;
use vstd::std_specs::iter::IteratorSpec;

verus! {

broadcast use vstd::string::axiom_spec_iter, vstd::string::next_postcondition;

/// A lowercase hex digit character.
pub open spec fn is_hex_char(c: char) -> bool {
    ('0' <= c && c <= '9') || ('a' <= c && c <= 'f')
}

/// The value of a lowercase hex digit character.
pub open spec fn hex_val(c: char) -> int {
    if '0' <= c && c <= '9' {
        c as u32 - 48
    } else {
        c as u32 - 87
    }
}

/// The text `lit` stands in `s` at position `pos`.
pub open spec fn text_at(s: Seq<char>, pos: int, lit: Seq<char>) -> bool {
    0 <= pos && pos + lit.len() <= s.len() && s.subrange(pos, pos + lit.len()) == lit
}

/// Parses the body of a JSON string literal from just after its opening
/// quote: the unescaped content and the position after the closing quote.
/// Escapes are the ones the encoder emits (plus `\/`); a `\u` escape is read
/// only in its `\u00XX` form.
pub open spec fn parse_str_body(s: Seq<char>, pos: int) -> Option<(Seq<char>, int)>
    decreases s.len() - pos,
{
    if pos < 0 || pos >= s.len() {
        None
    } else if s[pos] == '"' {
        Some((Seq::empty(), pos + 1))
    } else if s[pos] == '\\' {
        if pos + 1 >= s.len() {
            None
        } else if s[pos + 1] == 'u' {
            if pos + 5 >= s.len() {
                None
            } else if s[pos + 2] == '0' && s[pos + 3] == '0' && is_hex_char(s[pos + 4])
                && is_hex_char(s[pos + 5]) {
                let code = hex_val(s[pos + 4]) * 16 + hex_val(s[pos + 5]);
                match parse_str_body(s, pos + 6) {
                    Some(p) => Some((seq![((code as u32) as char)] + p.0, p.1)),
                    None => None,
                }
            } else {
                None
            }
        } else {
            let d: Option<char> = if s[pos + 1] == '"' {
                Some('"')
            } else if s[pos + 1] == '\\' {
                Some('\\')
            } else if s[pos + 1] == '/' {
                Some('/')
            } else if s[pos + 1] == 'b' {
                Some('\u{8}')
            } else if s[pos + 1] == 't' {
                Some('\t')
            } else if s[pos + 1] == 'n' {
                Some('\n')
            } else if s[pos + 1] == 'f' {
                Some('\u{c}')
            } else if s[pos + 1] == 'r' {
                Some('\r')
            } else {
                None
            };
            match d {
                Some(c) => match parse_str_body(s, pos + 2) {
                    Some(p) => Some((seq![c] + p.0, p.1)),
                    None => None,
                },
                None => None,
            }
        }
    } else if (s[pos] as u32) < 0x20 {
        None
    } else {
        match parse_str_body(s, pos + 1) {
            Some(p) => Some((seq![s[pos]] + p.0, p.1)),
            None => None,
        }
    }
}

/// Parsing a string body consumes at least its closing quote.
proof fn lemma_parse_str_body_advances(s: Seq<char>, pos: int)
    ensures
        parse_str_body(s, pos) matches Some(p) ==> p.1 > pos,
    decreases s.len() - pos,
{
    if 0 <= pos < s.len() {
        lemma_parse_str_body_advances(s, pos + 1);
        if pos + 1 < s.len() {
            lemma_parse_str_body_advances(s, pos + 2);
        }
        if pos + 5 < s.len() {
            lemma_parse_str_body_advances(s, pos + 6);
        }
    }
}

/// Parses `"a","b",..]` string elements from inside an array: the element
/// contents and the position of the closing bracket.
pub open spec fn parse_str_list(s: Seq<char>, pos: int) -> Option<(Seq<Seq<char>>, int)>
    decreases s.len() - pos,
{
    if pos < 0 || pos >= s.len() {
        None
    } else if s[pos] == ']' {
        Some((Seq::empty(), pos))
    } else if s[pos] != '"' {
        None
    } else {
        match parse_str_body(s, pos + 1) {
            Some(p) => {
                let (v, p1) = p;
                if p1 >= s.len() || p1 <= pos {
                    None
                } else if s[p1] == ']' {
                    Some((seq![v], p1))
                } else if s[p1] == ',' {
                    match parse_str_list(s, p1 + 1) {
                        Some(q) => if q.0.len() == 0 {
                            // a trailing comma admits no empty tail
                            None
                        } else {
                            Some((seq![v] + q.0, q.1))
                        },
                        None => None,
                    }
                } else {
                    None
                }
            },
            None => None,
        }
    }
}

/// Parses a JSON string or `null` at `pos`: the optional content and the
/// position after it.
pub open spec fn parse_opt_str(s: Seq<char>, pos: int) -> Option<(Option<Seq<char>>, int)> {
    if text_at(s, pos, seq!['n', 'u', 'l', 'l']) {
        Some((None, pos + 4))
    } else if 0 <= pos < s.len() && s[pos] == '"' {
        match parse_str_body(s, pos + 1) {
            Some(p) => Some((Some(p.0), p.1)),
            None => None,
        }
    } else {
        None
    }
}

/// Parses `null`, `true` or `false` at `pos`.
pub open spec fn parse_opt_bool(s: Seq<char>, pos: int) -> Option<(Option<bool>, int)> {
    if text_at(s, pos, seq!['n', 'u', 'l', 'l']) {
        Some((None, pos + 4))
    } else if text_at(s, pos, seq!['t', 'r', 'u', 'e']) {
        Some((Some(true), pos + 4))
    } else if text_at(s, pos, seq!['f', 'a', 'l', 's', 'e']) {
        Some((Some(false), pos + 5))
    } else {
        None
    }
}

/// Parses a JSON string (never `null`) at `pos`.
pub open spec fn parse_req_str(s: Seq<char>, pos: int) -> Option<(Seq<char>, int)> {
    if 0 <= pos < s.len() && s[pos] == '"' {
        parse_str_body(s, pos + 1)
    } else {
        None
    }
}

/// Parses `true` or `false` at `pos`.
pub open spec fn parse_bool(s: Seq<char>, pos: int) -> Option<(bool, int)> {
    if text_at(s, pos, seq!['t', 'r', 'u', 'e']) {
        Some((true, pos + 4))
    } else if text_at(s, pos, seq!['f', 'a', 'l', 's', 'e']) {
        Some((false, pos + 5))
    } else {
        None
    }
}

/// Splitting a literal occurrence: text that stands at `pos` stands there
/// piecewise.
proof fn lemma_text_at_concat(s: Seq<char>, pos: int, a: Seq<char>, b: Seq<char>)
    requires
        text_at(s, pos, a + b),
    ensures
        text_at(s, pos, a),
        text_at(s, pos + a.len(), b),
{
    let whole = s.subrange(pos, pos + (a + b).len() as int);
    assert(s.subrange(pos, pos + a.len()) =~= a) by {
        assert(forall|i: int| 0 <= i < (a + b).len() ==> #[trigger] whole[i] == (a + b)[i]);
    }
    assert forall|i: int|
        0 <= i < b.len() implies s.subrange(pos + a.len(), pos + a.len() + b.len())[i] == b[i] by {
        assert(whole[a.len() + i] == (a + b)[a.len() + i]);
    }
    assert(s.subrange(pos + a.len(), pos + a.len() + b.len()) =~= b);
}

/// The characters of a literal occurrence.
proof fn lemma_text_at_index(s: Seq<char>, pos: int, lit: Seq<char>, i: int)
    requires
        text_at(s, pos, lit),
        0 <= i < lit.len(),
    ensures
        s[pos + i] == lit[i],
{
    assert(s.subrange(pos, pos + lit.len())[i] == lit[i]);
}

/// Parsing inverts escaping: where the escaped form of `orig` followed by a
/// closing quote stands, the parser returns exactly `orig` and stops after
/// that quote.
pub proof fn lemma_parse_str_body_inverts(s: Seq<char>, pos: int, orig: Seq<char>)
    requires
        text_at(s, pos, esc_str(orig) + seq!['"']),
    ensures
        parse_str_body(s, pos) == Some((orig, pos + esc_str(orig).len() + 1)),
    decreases orig.len(),
{
    if orig.len() == 0 {
        assert(esc_str(orig) =~= Seq::<char>::empty());
        assert(esc_str(orig) + seq!['"'] =~= seq!['"']);
        lemma_text_at_index(s, pos, seq!['"'], 0);
        assert(s[pos] == '"');
    } else {
        let c = orig.first();
        let rest = orig.drop_first();
        assert(esc_str(orig) == esc_char(c) + esc_str(rest));
        assert(esc_str(orig) + seq!['"'] =~= esc_char(c) + (esc_str(rest) + seq!['"']));
        lemma_text_at_concat(s, pos, esc_char(c), esc_str(rest) + seq!['"']);
        let clen = esc_char(c).len() as int;
        lemma_parse_str_body_inverts(s, pos + clen, rest);
        assert(orig == seq![c] + rest);
        if c == '"' {
            lemma_text_at_index(s, pos, esc_char(c), 0);
            lemma_text_at_index(s, pos, esc_char(c), 1);
            assert(s[pos] == '\\' && s[pos + 1] == '"');
        } else if c == '\\' {
            lemma_text_at_index(s, pos, esc_char(c), 0);
            lemma_text_at_index(s, pos, esc_char(c), 1);
            assert(s[pos] == '\\' && s[pos + 1] == '\\');
        } else if c == '\u{8}' || c == '\t' || c == '\n' || c == '\u{c}' || c == '\r' {
            lemma_text_at_index(s, pos, esc_char(c), 0);
            lemma_text_at_index(s, pos, esc_char(c), 1);
            assert(s[pos] == '\\');
        } else if (c as u32) < 0x20 {
            lemma_text_at_index(s, pos, esc_char(c), 0);
            lemma_text_at_index(s, pos, esc_char(c), 1);
            lemma_text_at_index(s, pos, esc_char(c), 2);
            lemma_text_at_index(s, pos, esc_char(c), 3);
            lemma_text_at_index(s, pos, esc_char(c), 4);
            lemma_text_at_index(s, pos, esc_char(c), 5);
            assert(s[pos] == '\\' && s[pos + 1] == 'u' && s[pos + 2] == '0' && s[pos + 3] == '0');
            let hi = c as u32 as int / 16;
            let lo = (c as u32 as int) % 16;
            vstd::arithmetic::div_mod::lemma_fundamental_div_mod(c as u32 as int, 16);
            assert(0 <= hi < 16 && 0 <= lo < 16);
            assert(s[pos + 4] == hex_digit(hi) && s[pos + 5] == hex_digit(lo));
            assert(is_hex_char(hex_digit(hi)) && hex_val(hex_digit(hi)) == hi);
            assert(is_hex_char(hex_digit(lo)) && hex_val(hex_digit(lo)) == lo);
            assert(hi * 16 + lo == c as u32);
            let cu = c as u32;
            assert(cu < 0x20);
            vstd::utf8::char_u32_cast(c, cu);
            assert((cu as char) == c);
            assert((((hi * 16 + lo) as u32) as char) == c);
        } else {
            lemma_text_at_index(s, pos, esc_char(c), 0);
            assert(s[pos] == c);
            assert(c != '"' && c != '\\' && (c as u32) >= 0x20);
        }
    }
}

/// The view of an optional string.
pub open spec fn opt_view(o: Option<String>) -> Option<Seq<char>> {
    match o {
        Some(v) => Some(v@),
        None => None,
    }
}

/// Decodes the wire text of a job start request: the parameter list.
pub open spec fn spec_decode_job_post(s: Seq<char>) -> Option<Seq<Seq<char>>> {
    let lit = "{\"parameters\":"@ + seq!['['];
    if !text_at(s, 0, lit) {
        None
    } else {
        match parse_str_list(s, lit.len() as int) {
            Some(p) => if p.1 + 2 == s.len() && text_at(s, p.1, seq![']', '}']) {
                Some(p.0)
            } else {
                None
            },
            None => None,
        }
    }
}

/// Decodes the wire text of a workflow update: the four optional fields.
pub open spec fn spec_decode_workflow_patch(s: Seq<char>) -> Option<
    (Option<Seq<char>>, Option<Seq<char>>, Option<Seq<char>>, Option<bool>),
> {
    let l1 = "{\"name\":"@;
    if !text_at(s, 0, l1) {
        None
    } else {
        match parse_opt_str(s, l1.len() as int) {
            Some(f1) => {
                let l2 = ",\"description\":"@;
                if !text_at(s, f1.1, l2) {
                    None
                } else {
                    match parse_opt_str(s, f1.1 + l2.len()) {
                        Some(f2) => {
                            let l3 = ",\"schedule\":"@;
                            if !text_at(s, f2.1, l3) {
                                None
                            } else {
                                match parse_opt_str(s, f2.1 + l3.len()) {
                                    Some(f3) => {
                                        let l4 = ",\"enabled\":"@;
                                        if !text_at(s, f3.1, l4) {
                                            None
                                        } else {
                                            match parse_opt_bool(s, f3.1 + l4.len()) {
                                                Some(f4) => if f4.1 + 1 == s.len() && text_at(
                                                    s,
                                                    f4.1,
                                                    seq!['}'],
                                                ) {
                                                    Some((f1.0, f2.0, f3.0, f4.0))
                                                } else {
                                                    None
                                                },
                                                None => None,
                                            }
                                        }
                                    },
                                    None => None,
                                }
                            }
                        },
                        None => None,
                    }
                }
            },
            None => None,
        }
    }
}

/// Decodes the wire text of a workflow creation: the seven fields.
pub open spec fn spec_decode_workflow_spec(s: Seq<char>) -> Option<
    (Seq<char>, Seq<char>, Option<Seq<char>>, Seq<char>, Seq<char>, Option<Seq<char>>, bool),
> {
    let l1 = "{\"name\":"@;
    if !text_at(s, 0, l1) {
        None
    } else {
        match parse_req_str(s, l1.len() as int) {
            Some(f1) => {
                let l2 = ",\"region\":"@;
                if !text_at(s, f1.1, l2) {
                    None
                } else {
                    match parse_req_str(s, f1.1 + l2.len()) {
                        Some(f2) => {
                            let l3 = ",\"description\":"@;
                            if !text_at(s, f2.1, l3) {
                                None
                            } else {
                                match parse_opt_str(s, f2.1 + l3.len()) {
                                    Some(f3) => spec_decode_workflow_spec_tail(
                                        s,
                                        f1.0,
                                        f2.0,
                                        f3.0,
                                        f3.1,
                                    ),
                                    None => None,
                                }
                            }
                        },
                        None => None,
                    }
                }
            },
            None => None,
        }
    }
}

/// The second half of a workflow creation: source, destination, schedule and
/// the enabled flag.
pub open spec fn spec_decode_workflow_spec_tail(
    s: Seq<char>,
    name: Seq<char>,
    region: Seq<char>,
    description: Option<Seq<char>>,
    pos: int,
) -> Option<(Seq<char>, Seq<char>, Option<Seq<char>>, Seq<char>, Seq<char>, Option<Seq<char>>, bool)> {
    let l4 = ",\"sourceId\":"@;
    if !text_at(s, pos, l4) {
        None
    } else {
        match parse_req_str(s, pos + l4.len()) {
            Some(f4) => {
                let l5 = ",\"destinationId\":"@;
                if !text_at(s, f4.1, l5) {
                    None
                } else {
                    match parse_req_str(s, f4.1 + l5.len()) {
                        Some(f5) => {
                            let l6 = ",\"schedule\":"@;
                            if !text_at(s, f5.1, l6) {
                                None
                            } else {
                                match parse_opt_str(s, f5.1 + l6.len()) {
                                    Some(f6) => {
                                        let l7 = ",\"enabled\":"@;
                                        if !text_at(s, f6.1, l7) {
                                            None
                                        } else {
                                            match parse_bool(s, f6.1 + l7.len()) {
                                                Some(f7) => if f7.1 + 1 == s.len() && text_at(
                                                    s,
                                                    f7.1,
                                                    seq!['}'],
                                                ) {
                                                    Some(
                                                        (
                                                            name,
                                                            region,
                                                            description,
                                                            f4.0,
                                                            f5.0,
                                                            f6.0,
                                                            f7.0,
                                                        ),
                                                    )
                                                } else {
                                                    None
                                                },
                                                None => None,
                                            }
                                        }
                                    },
                                    None => None,
                                }
                            }
                        },
                        None => None,
                    }
                }
            },
            None => None,
        }
    }
}

/// Parsing inverts encoding for a required string field.
proof fn lemma_parse_req_str_inverts(s: Seq<char>, pos: int, v: Seq<char>)
    requires
        text_at(s, pos, str_text(v)),
    ensures
        parse_req_str(s, pos) == Some((v, pos + str_text(v).len())),
{
    assert(str_text(v) =~= seq!['"'] + (esc_str(v) + seq!['"']));
    lemma_text_at_concat(s, pos, seq!['"'], esc_str(v) + seq!['"']);
    lemma_text_at_index(s, pos, seq!['"'], 0);
    assert(s[pos] == '"');
    lemma_parse_str_body_inverts(s, pos + 1, v);
}

/// Parsing inverts encoding for a boolean field.
proof fn lemma_parse_bool_inverts(s: Seq<char>, pos: int, b: bool)
    requires
        text_at(s, pos, bool_text(b)),
    ensures
        parse_bool(s, pos) == Some((b, pos + bool_text(b).len())),
{
    reveal_strlit("true");
    reveal_strlit("false");
    assert("true"@ =~= seq!['t', 'r', 'u', 'e']);
    assert("false"@ =~= seq!['f', 'a', 'l', 's', 'e']);
    if b {
        assert(text_at(s, pos, seq!['t', 'r', 'u', 'e']));
    } else {
        assert(text_at(s, pos, seq!['f', 'a', 'l', 's', 'e']));
        if text_at(s, pos, seq!['t', 'r', 'u', 'e']) {
            lemma_text_at_index(s, pos, seq!['t', 'r', 'u', 'e'], 0);
            lemma_text_at_index(s, pos, seq!['f', 'a', 'l', 's', 'e'], 0);
            assert(false);
        }
    }
}

/// Parsing inverts encoding for a list of strings inside an array.
proof fn lemma_parse_str_list_inverts(s: Seq<char>, pos: int, items: Seq<String>)
    requires
        text_at(s, pos, str_list_text(items) + seq![']']),
    ensures
        parse_str_list(s, pos) == Some(
            (items.map_values(|p: String| p@), pos + str_list_text(items).len()),
        ),
    decreases items.len(),
{
    let slt = str_list_text(items);
    if items.len() == 0 {
        assert(slt =~= Seq::<char>::empty());
        assert(slt + seq![']'] =~= seq![']']);
        lemma_text_at_index(s, pos, seq![']'], 0);
        assert(s[pos] == ']');
        assert(items.map_values(|p: String| p@) =~= Seq::<Seq<char>>::empty());
    } else if items.len() == 1 {
        let st = str_text(items.first()@);
        assert(slt == st);
        assert(st =~= seq!['"'] + (esc_str(items.first()@) + seq!['"']));
        assert(slt + seq![']'] =~= seq!['"'] + ((esc_str(items.first()@) + seq!['"'])
            + seq![']']));
        lemma_text_at_concat(s, pos, seq!['"'], (esc_str(items.first()@) + seq!['"'])
            + seq![']']);
        lemma_text_at_index(s, pos, seq!['"'], 0);
        assert(s[pos] == '"');
        lemma_text_at_concat(s, pos + 1, esc_str(items.first()@) + seq!['"'], seq![']']);
        lemma_parse_str_body_inverts(s, pos + 1, items.first()@);
        let p1 = pos + 1 + esc_str(items.first()@).len() + 1;
        lemma_text_at_index(s, p1, seq![']'], 0);
        assert(s[p1] == ']');
        assert(items.map_values(|p: String| p@) =~= seq![items.first()@]);
    } else {
        let first = items.first();
        let rest = items.drop_first();
        let st = str_text(first@);
        assert(slt == st + seq![','] + str_list_text(rest));
        assert(slt + seq![']'] =~= seq!['"'] + ((esc_str(first@) + seq!['"']) + (seq![',']
            + (str_list_text(rest) + seq![']']))));
        lemma_text_at_concat(s, pos, seq!['"'], (esc_str(first@) + seq!['"']) + (seq![',']
            + (str_list_text(rest) + seq![']'])));
        lemma_text_at_index(s, pos, seq!['"'], 0);
        assert(s[pos] == '"');
        lemma_text_at_concat(s, pos + 1, esc_str(first@) + seq!['"'], seq![','] + (str_list_text(
            rest,
        ) + seq![']']));
        lemma_parse_str_body_inverts(s, pos + 1, first@);
        let p1 = pos + 1 + esc_str(first@).len() + 1;
        lemma_text_at_concat(s, p1, seq![','], str_list_text(rest) + seq![']']);
        lemma_text_at_index(s, p1, seq![','], 0);
        assert(s[p1] == ',');
        lemma_parse_str_list_inverts(s, p1 + 1, rest);
        assert(rest.map_values(|p: String| p@).len() == rest.len());
        assert(items.map_values(|p: String| p@) =~= seq![first@] + rest.map_values(
            |p: String| p@,
        ));
    }
}

/// Parsing inverts encoding for an optional string field.
proof fn lemma_parse_opt_str_inverts(s: Seq<char>, pos: int, o: Option<String>)
    requires
        text_at(s, pos, opt_str_text(o)),
    ensures
        parse_opt_str(s, pos) == Some((opt_view(o), pos + opt_str_text(o).len())),
{
    reveal_strlit("null");
    assert("null"@ =~= seq!['n', 'u', 'l', 'l']);
    match o {
        None => {
            assert(opt_str_text(o) == "null"@);
            assert(text_at(s, pos, seq!['n', 'u', 'l', 'l']));
        },
        Some(v) => {
            let st = str_text(v@);
            assert(st =~= seq!['"'] + (esc_str(v@) + seq!['"']));
            lemma_text_at_concat(s, pos, seq!['"'], esc_str(v@) + seq!['"']);
            lemma_text_at_index(s, pos, seq!['"'], 0);
            assert(s[pos] == '"');
            if text_at(s, pos, seq!['n', 'u', 'l', 'l']) {
                lemma_text_at_index(s, pos, seq!['n', 'u', 'l', 'l'], 0);
                assert(false);
            }
            lemma_parse_str_body_inverts(s, pos + 1, v@);
        },
    }
}

/// Parsing inverts encoding for an optional boolean field.
proof fn lemma_parse_opt_bool_inverts(s: Seq<char>, pos: int, o: Option<bool>)
    requires
        text_at(s, pos, opt_bool_text(o)),
    ensures
        parse_opt_bool(s, pos) == Some((o, pos + opt_bool_text(o).len())),
{
    reveal_strlit("null");
    reveal_strlit("true");
    reveal_strlit("false");
    assert("null"@ =~= seq!['n', 'u', 'l', 'l']);
    assert("true"@ =~= seq!['t', 'r', 'u', 'e']);
    assert("false"@ =~= seq!['f', 'a', 'l', 's', 'e']);
    match o {
        None => {
            assert(text_at(s, pos, seq!['n', 'u', 'l', 'l']));
        },
        Some(b) => {
            if b {
                assert(text_at(s, pos, seq!['t', 'r', 'u', 'e']));
                if text_at(s, pos, seq!['n', 'u', 'l', 'l']) {
                    lemma_text_at_index(s, pos, seq!['n', 'u', 'l', 'l'], 0);
                    lemma_text_at_index(s, pos, seq!['t', 'r', 'u', 'e'], 0);
                    assert(false);
                }
            } else {
                assert(text_at(s, pos, seq!['f', 'a', 'l', 's', 'e']));
                if text_at(s, pos, seq!['n', 'u', 'l', 'l']) {
                    lemma_text_at_index(s, pos, seq!['n', 'u', 'l', 'l'], 0);
                    lemma_text_at_index(s, pos, seq!['f', 'a', 'l', 's', 'e'], 0);
                    assert(false);
                }
                if text_at(s, pos, seq!['t', 'r', 'u', 'e']) {
                    lemma_text_at_index(s, pos, seq!['t', 'r', 'u', 'e'], 0);
                    lemma_text_at_index(s, pos, seq!['f', 'a', 'l', 's', 'e'], 0);
                    assert(false);
                }
            }
        },
    }
}

/// Two adjacent literal occurrences join.
proof fn lemma_text_at_join(s: Seq<char>, pos: int, a: Seq<char>, b: Seq<char>)
    requires
        text_at(s, pos, a),
        text_at(s, pos + a.len(), b),
    ensures
        text_at(s, pos, a + b),
{
    assert forall|i: int| 0 <= i < (a + b).len() implies s.subrange(
        pos,
        pos + (a + b).len() as int,
    )[i] == (a + b)[i] by {
        if i < a.len() {
            assert(s.subrange(pos, pos + a.len())[i] == a[i]);
        } else {
            assert(s.subrange(pos + a.len(), pos + a.len() + b.len())[i - a.len()] == b[i
                - a.len()]);
        }
    }
    assert(s.subrange(pos, pos + (a + b).len() as int) =~= a + b);
}

/// The characters of a string, in order.
fn str_chars(s: &str) -> (r: Vec<char>)
    ensures
        r@ == s@,
{
    let ghost orig = s@;
    let mut r: Vec<char> = Vec::new();
    let mut it = s.chars();
    let ghost mut done: int = 0;
    loop
        invariant_except_break
            it.obeys_prophetic_iter_laws(),
            0 <= done <= orig.len(),
            it.remaining() == orig.skip(done),
            r@ == orig.take(done),
        ensures
            r@ == orig,
        decreases orig.len() - done,
    {
        let next = it.next();
        match next {
            Some(c) => {
                proof {
                    assert(orig.skip(done)[0] == orig[done]);
                    assert(orig.skip(done).drop_first() =~= orig.skip(done + 1));
                }
                r.push(c);
                proof {
                    done = done + 1;
                    assert(r@ =~= orig.take(done));
                }
            },
            None => {
                proof {
                    assert(orig.skip(done).len() == 0);
                    assert(orig.take(done) =~= orig);
                }
                break;
            },
        }
    }
    r
}

/// Whether the text of `lit` stands in `chars` at `pos`.
fn starts_with_at(chars: &Vec<char>, pos: usize, lit: &str) -> (r: bool)
    ensures
        r == text_at(chars@, pos as int, lit@),
{
    let lit_chars = str_chars(lit);
    let n = lit_chars.len();
    let total = chars.len();
    if pos > total || n > total - pos {
        return false;
    }
    for i in 0..n
        invariant
            n == lit_chars@.len(),
            lit_chars@ == lit@,
            total == chars@.len(),
            pos + n <= total,
            forall|k: int| 0 <= k < i ==> chars@[pos + k] == lit@[k],
    {
        assert(pos + i < chars@.len());
        if chars[pos + i] != lit_chars[i] {
            assert(chars@.subrange(pos as int, pos + lit@.len()) != lit@) by {
                assert(chars@.subrange(pos as int, pos + lit@.len())[i as int] == chars@[pos
                    + i]);
            }
            return false;
        }
    }
    assert(chars@.subrange(pos as int, pos + lit@.len()) =~= lit@);
    true
}

/// The value of one lowercase hex digit character.
fn hex_char_val(c: char) -> (r: u8)
    requires
        is_hex_char(c),
    ensures
        r as int == hex_val(c),
        r < 16,
{
    let u = c as u32;
    if u <= 57 {
        (u - 48) as u8
    } else {
        (u - 87) as u8
    }
}

/// Parses the body of a JSON string literal from just after its opening
/// quote, as `parse_str_body` describes it.
fn parse_string_at(chars: &Vec<char>, pos: usize) -> (r: Option<(String, usize)>)
    ensures
        r is None ==> parse_str_body(chars@, pos as int) is None,
        r matches Some(p) ==> (parse_str_body(chars@, pos as int) == Some((p.0@, p.1 as int))
            && p.1 <= chars@.len()),
{
    let ghost s = chars@;
    if pos > chars.len() {
        return None;
    }
    let mut cur: usize = pos;
    let mut acc = String::new();
    loop
        invariant_except_break
            s == chars@,
            pos <= cur <= s.len(),
            parse_str_body(s, pos as int) == (match parse_str_body(s, cur as int) {
                Some(p) => Some((acc@ + p.0, p.1)),
                None => None::<(Seq<char>, int)>,
            }),
        ensures
            (match parse_str_body(s, cur as int) {
                Some(p) => parse_str_body(s, pos as int) == Some((acc@ + p.0, p.1)),
                None => parse_str_body(s, pos as int) is None,
            }),
            (cur < s.len() && s[cur as int] == '"') ==> parse_str_body(s, cur as int) == Some(
                (Seq::<char>::empty(), cur + 1int),
            ),
            !(cur < s.len() && s[cur as int] == '"') ==> parse_str_body(s, cur as int) is None,
            pos <= cur <= s.len(),
        decreases s.len() - cur,
    {
        if cur >= chars.len() {
            break;
        }
        let c = chars[cur];
        if c == '"' {
            proof {
                assert(parse_str_body(s, cur as int) == Some(
                    (Seq::<char>::empty(), cur + 1int),
                ));
                assert(acc@ + Seq::<char>::empty() =~= acc@);
            }
            break;
        } else if c == '\\' {
            if chars.len() - cur <= 1 {
                break;
            }
            let e = chars[cur + 1];
            if e == 'u' {
                if chars.len() - cur <= 5 {
                    break;
                }
                let h1 = chars[cur + 4];
                let h2 = chars[cur + 5];
                let hex_ok = chars[cur + 2] == '0' && chars[cur + 3] == '0' && (('0' <= h1 && h1
                    <= '9') || ('a' <= h1 && h1 <= 'f')) && (('0' <= h2 && h2 <= '9') || ('a'
                    <= h2 && h2 <= 'f'));
                if !hex_ok {
                    break;
                }
                let code: u8 = hex_char_val(h1) * 16 + hex_char_val(h2);
                let decoded = code as char;
                proof {
                    let spec_code = hex_val(s[cur as int + 4]) * 16 + hex_val(s[cur as int + 5]);
                    assert(code as int == spec_code);
                    assert(decoded == ((spec_code as u32) as char));
                }
                let ghost pre = acc@;
                string_push(&mut acc, decoded);
                proof {
                    assert(acc@.drop_last() =~= pre);
                    let spec_code = hex_val(s[cur as int + 4]) * 16 + hex_val(s[cur as int + 5]);
                    assert(parse_str_body(s, cur as int) == (match parse_str_body(s, cur + 6) {
                        Some(p) => Some((seq![((spec_code as u32) as char)] + p.0, p.1)),
                        None => None::<(Seq<char>, int)>,
                    }));
                    step_compose(s, pos as int, cur as int, cur + 6, acc@, decoded);
                }
                cur = cur + 6;
            } else {
                let d: Option<char> = if e == '"' {
                    Some('"')
                } else if e == '\\' {
                    Some('\\')
                } else if e == '/' {
                    Some('/')
                } else if e == 'b' {
                    Some('\u{8}')
                } else if e == 't' {
                    Some('\t')
                } else if e == 'n' {
                    Some('\n')
                } else if e == 'f' {
                    Some('\u{c}')
                } else if e == 'r' {
                    Some('\r')
                } else {
                    None
                };
                match d {
                    Some(decoded) => {
                        let ghost pre = acc@;
                        string_push(&mut acc, decoded);
                        proof {
                            assert(acc@.drop_last() =~= pre);
                            assert(parse_str_body(s, cur as int) == (match parse_str_body(
                                s,
                                cur + 2,
                            ) {
                                Some(p) => Some((seq![decoded] + p.0, p.1)),
                                None => None::<(Seq<char>, int)>,
                            }));
                            step_compose(s, pos as int, cur as int, cur + 2, acc@, decoded);
                        }
                        cur = cur + 2;
                    },
                    None => {
                        break;
                    },
                }
            }
        } else if (c as u32) < 0x20 {
            break;
        } else {
            let ghost pre = acc@;
            string_push(&mut acc, c);
            proof {
                assert(acc@.drop_last() =~= pre);
                assert(parse_str_body(s, cur as int) == (match parse_str_body(s, cur + 1) {
                    Some(p) => Some((seq![c] + p.0, p.1)),
                    None => None::<(Seq<char>, int)>,
                }));
                step_compose(s, pos as int, cur as int, cur + 1, acc@, c);
            }
            cur = cur + 1;
        }
    }
    let done: Option<(String, usize)> = if cur < chars.len() {
        let c = chars[cur];
        if c == '"' {
            Some((acc, cur + 1))
        } else {
            None
        }
    } else {
        None
    };
    done
}

/// One decoding step composes: when the parse from `cur` yields `decoded`
/// followed by the parse from `next`, prefixing the accumulator extends the
/// overall composition.
proof fn step_compose(s: Seq<char>, pos: int, cur: int, next: int, acc_new: Seq<char>, decoded:
    char)
    requires
        parse_str_body(s, pos) == (match parse_str_body(s, cur) {
            Some(p) => Some((acc_new.drop_last() + p.0, p.1)),
            None => None::<(Seq<char>, int)>,
        }),
        acc_new.len() > 0,
        acc_new.last() == decoded,
        parse_str_body(s, cur) == (match parse_str_body(s, next) {
            Some(p) => Some((seq![decoded] + p.0, p.1)),
            None => None::<(Seq<char>, int)>,
        }),
    ensures
        parse_str_body(s, pos) == (match parse_str_body(s, next) {
            Some(p) => Some((acc_new + p.0, p.1)),
            None => None::<(Seq<char>, int)>,
        }),
{
    match parse_str_body(s, next) {
        Some(p) => {
            assert(acc_new.drop_last() + (seq![decoded] + p.0) =~= acc_new + p.0);
        },
        None => {
        },
    }
}

/// Parses a JSON string or `null`, as `parse_opt_str` describes it.
fn parse_opt_string_at(chars: &Vec<char>, pos: usize) -> (r: Option<(Option<String>, usize)>)
    ensures
        r is None ==> parse_opt_str(chars@, pos as int) is None,
        r matches Some(p) ==> (parse_opt_str(chars@, pos as int) == Some(
            (opt_view(p.0), p.1 as int),
        ) && p.1 <= chars@.len()),
{
    proof {
        reveal_strlit("null");
        assert("null"@ =~= seq!['n', 'u', 'l', 'l']);
    }
    let total = chars.len();
    if starts_with_at(chars, pos, "null") {
        assert(pos + 4 <= total);
        Some((None, pos + 4))
    } else if pos < total && chars[pos] == '"' {
        match parse_string_at(chars, pos + 1) {
            Some((v, p1)) => Some((Some(v), p1)),
            None => None,
        }
    } else {
        None
    }
}

/// Parses `null`, `true` or `false`, as `parse_opt_bool` describes it.
fn parse_opt_bool_at(chars: &Vec<char>, pos: usize) -> (r: Option<(Option<bool>, usize)>)
    ensures
        r is None ==> parse_opt_bool(chars@, pos as int) is None,
        r matches Some(p) ==> (parse_opt_bool(chars@, pos as int) == Some((p.0, p.1 as int))
            && p.1 <= chars@.len()),
{
    proof {
        reveal_strlit("null");
        reveal_strlit("true");
        reveal_strlit("false");
        assert("null"@ =~= seq!['n', 'u', 'l', 'l']);
        assert("true"@ =~= seq!['t', 'r', 'u', 'e']);
        assert("false"@ =~= seq!['f', 'a', 'l', 's', 'e']);
    }
    let total = chars.len();
    if starts_with_at(chars, pos, "null") {
        assert(pos + 4 <= total);
        Some((None, pos + 4))
    } else if starts_with_at(chars, pos, "true") {
        assert(pos + 4 <= total);
        Some((Some(true), pos + 4))
    } else if starts_with_at(chars, pos, "false") {
        assert(pos + 5 <= total);
        Some((Some(false), pos + 5))
    } else {
        None
    }
}

fn decode_failure(text: &str) -> (r: Error)
    ensures
        r matches Error::DeserializeContent(m, raw) && raw@ == text@,
{
    Error::DeserializeContent(
        <String as StringExecFns>::from_str("body does not match the expected record shape"),
        text.to_owned(),
    )
}

/// The views of a decoded string list.
pub open spec fn strings_view(v: Seq<String>) -> Seq<Seq<char>> {
    v.map_values(|p: String| p@)
}

/// Decodes the wire text of a job start request, as `spec_decode_job_post`
/// describes it.  A body that does not match the record shape is a decode
/// failure carrying the raw text.
pub fn decode_job_post(text: &str) -> (r: Result<JobPost, Error>)
    ensures
        r matches Ok(jp) ==> spec_decode_job_post(text@) == Some(strings_view(jp.parameters@)),
        r is Err ==> (spec_decode_job_post(text@) is None && (r matches Err(
            Error::DeserializeContent(m, raw),
        ) && raw@ == text@)),
{
    let chars = str_chars(text);
    let ghost s = text@;
    let ghost lit = "{\"parameters\":"@ + seq!['['];
    let prefix = str_chars("{\"parameters\":");
    let p0 = prefix.len();
    if !starts_with_at(&chars, 0, "{\"parameters\":") {
        proof {
            if text_at(s, 0, lit) {
                lemma_text_at_concat(s, 0, "{\"parameters\":"@, seq!['[']);
            }
        }
        return Err(decode_failure(text));
    }
    if p0 >= chars.len() || chars[p0] != '[' {
        proof {
            if text_at(s, 0, lit) {
                lemma_text_at_concat(s, 0, "{\"parameters\":"@, seq!['[']);
                lemma_text_at_index(s, p0 as int, seq!['['], 0);
            }
        }
        return Err(decode_failure(text));
    }
    proof {
        assert(s.subrange(p0 as int, p0 + 1int) =~= seq!['[']);
        lemma_text_at_join(s, 0, "{\"parameters\":"@, seq!['[']);
    }
    let lpos = p0 + 1;
    let mut items: Vec<String> = Vec::new();
    let mut cur: usize = lpos;
    let mut after_comma = false;
    let mut list_ok = false;
    loop
        invariant_except_break
            s == chars@,
            lpos <= cur <= s.len(),
            !after_comma ==> (items@.len() == 0 && cur == lpos),
            after_comma ==> parse_str_list(s, lpos as int) == (match parse_str_list(
                s,
                cur as int,
            ) {
                Some(q) => if q.0.len() == 0 {
                    None::<(Seq<Seq<char>>, int)>
                } else {
                    Some((strings_view(items@) + q.0, q.1))
                },
                None => None::<(Seq<Seq<char>>, int)>,
            }),
        ensures
            list_ok ==> (parse_str_list(s, lpos as int) == Some(
                (strings_view(items@), cur as int),
            ) && cur < s.len() && s[cur as int] == ']'),
            !list_ok ==> parse_str_list(s, lpos as int) is None,
            s == chars@,
        decreases s.len() - cur,
    {
        if cur >= chars.len() {
            list_ok = false;
            break;
        }
        let c = chars[cur];
        if c == ']' {
            if after_comma {
                proof {
                    assert(parse_str_list(s, cur as int) == Some(
                        (Seq::<Seq<char>>::empty(), cur as int),
                    ));
                }
                list_ok = false;
            } else {
                proof {
                    assert(strings_view(items@) =~= Seq::<Seq<char>>::empty());
                }
                list_ok = true;
            }
            break;
        }
        if c != '"' {
            list_ok = false;
            break;
        }
        let parsed = parse_string_at(&chars, cur + 1);
        match parsed {
            None => {
                list_ok = false;
                break;
            },
            Some((v, p1)) => {
                proof {
                    lemma_parse_str_body_advances(s, cur + 1);
                }
                if p1 >= chars.len() {
                    list_ok = false;
                    break;
                }
                let c2 = chars[p1];
                if c2 == ']' {
                    let ghost pre = items@;
                    items.push(v);
                    proof {
                        assert(parse_str_list(s, cur as int) == Some((seq![v@], p1 as int)));
                        assert(strings_view(items@) =~= strings_view(pre) + seq![v@]);
                        if after_comma {
                            assert(strings_view(pre) + seq![v@] =~= strings_view(items@));
                        } else {
                            assert(strings_view(items@) =~= seq![v@]);
                        }
                    }
                    cur = p1;
                    list_ok = true;
                    break;
                } else if c2 == ',' {
                    let ghost pre = items@;
                    items.push(v);
                    proof {
                        assert(strings_view(items@) =~= strings_view(pre) + seq![v@]);
                        assert(parse_str_list(s, cur as int) == (match parse_str_list(
                            s,
                            p1 + 1int,
                        ) {
                            Some(q) => if q.0.len() == 0 {
                                None::<(Seq<Seq<char>>, int)>
                            } else {
                                Some((seq![v@] + q.0, q.1))
                            },
                            None => None::<(Seq<Seq<char>>, int)>,
                        }));
                        match parse_str_list(s, p1 + 1int) {
                            Some(q) => {
                                if q.0.len() > 0 {
                                    assert(strings_view(pre) + (seq![v@] + q.0) =~= strings_view(
                                        items@,
                                    ) + q.0);
                                }
                            },
                            None => {},
                        }
                    }
                    after_comma = true;
                    cur = p1 + 1;
                } else {
                    list_ok = false;
                    break;
                }
            },
        }
    }
    if !list_ok {
        return Err(decode_failure(text));
    }
    let end = cur;
    if chars.len() - end == 2 && chars[end + 1] == '}' {
        proof {
            assert(s.subrange(end as int, end + 2int) =~= seq![']', '}']);
        }
        Ok(JobPost { parameters: items })
    } else {
        proof {
            if text_at(s, end as int, seq![']', '}']) {
                lemma_text_at_index(s, end as int, seq![']', '}'], 1);
            }
        }
        Err(decode_failure(text))
    }
}

/// Decodes the wire text of a workflow update, as
/// `spec_decode_workflow_patch` describes it.  A body that does not match
/// the record shape is a decode failure carrying the raw text.
pub fn decode_workflow_patch(text: &str) -> (r: Result<WorkflowPatch, Error>)
    ensures
        r matches Ok(wp) ==> spec_decode_workflow_patch(text@) == Some(
            (opt_view(wp.name), opt_view(wp.description), opt_view(wp.schedule), wp.enabled),
        ),
        r is Err ==> (spec_decode_workflow_patch(text@) is None && (r matches Err(
            Error::DeserializeContent(m, raw),
        ) && raw@ == text@)),
{
    let chars = str_chars(text);
    let ghost s = text@;
    if !starts_with_at(&chars, 0, "{\"name\":") {
        return Err(decode_failure(text));
    }
    let p0 = str_chars("{\"name\":").len();
    let f1 = match parse_opt_string_at(&chars, p0) {
        Some(f) => f,
        None => {
            return Err(decode_failure(text));
        },
    };
    let p1 = f1.1;
    if !starts_with_at(&chars, p1, ",\"description\":") {
        return Err(decode_failure(text));
    }
    let p2 = p1 + str_chars(",\"description\":").len();
    let f2 = match parse_opt_string_at(&chars, p2) {
        Some(f) => f,
        None => {
            return Err(decode_failure(text));
        },
    };
    let p3 = f2.1;
    if !starts_with_at(&chars, p3, ",\"schedule\":") {
        return Err(decode_failure(text));
    }
    let p4 = p3 + str_chars(",\"schedule\":").len();
    let f3 = match parse_opt_string_at(&chars, p4) {
        Some(f) => f,
        None => {
            return Err(decode_failure(text));
        },
    };
    let p5 = f3.1;
    if !starts_with_at(&chars, p5, ",\"enabled\":") {
        return Err(decode_failure(text));
    }
    let p6 = p5 + str_chars(",\"enabled\":").len();
    let f4 = match parse_opt_bool_at(&chars, p6) {
        Some(f) => f,
        None => {
            return Err(decode_failure(text));
        },
    };
    let p7 = f4.1;
    if chars.len() - p7 == 1 && chars[p7] == '}' {
        proof {
            assert(s.subrange(p7 as int, p7 + 1int) =~= seq!['}']);
        }
        Ok(WorkflowPatch { name: f1.0, description: f2.0, schedule: f3.0, enabled: f4.0 })
    } else {
        proof {
            if text_at(s, p7 as int, seq!['}']) {
                lemma_text_at_index(s, p7 as int, seq!['}'], 0);
            }
        }
        Err(decode_failure(text))
    }
}

/// Parses a JSON string (never `null`), as `parse_req_str` describes it.
fn parse_req_string_at(chars: &Vec<char>, pos: usize) -> (r: Option<(String, usize)>)
    ensures
        r is None ==> parse_req_str(chars@, pos as int) is None,
        r matches Some(p) ==> (parse_req_str(chars@, pos as int) == Some((p.0@, p.1 as int))
            && p.1 <= chars@.len()),
{
    if pos < chars.len() && chars[pos] == '"' {
        parse_string_at(chars, pos + 1)
    } else {
        None
    }
}

/// Parses `true` or `false`, as `parse_bool` describes it.
fn parse_bool_at(chars: &Vec<char>, pos: usize) -> (r: Option<(bool, usize)>)
    ensures
        r is None ==> parse_bool(chars@, pos as int) is None,
        r matches Some(p) ==> (parse_bool(chars@, pos as int) == Some((p.0, p.1 as int)) && p.1
            <= chars@.len()),
{
    proof {
        reveal_strlit("true");
        reveal_strlit("false");
        assert("true"@ =~= seq!['t', 'r', 'u', 'e']);
        assert("false"@ =~= seq!['f', 'a', 'l', 's', 'e']);
    }
    let total = chars.len();
    if starts_with_at(chars, pos, "true") {
        assert(pos + 4 <= total);
        Some((true, pos + 4))
    } else if starts_with_at(chars, pos, "false") {
        assert(pos + 5 <= total);
        Some((false, pos + 5))
    } else {
        None
    }
}

/// Decodes the wire text of a workflow creation, as
/// `spec_decode_workflow_spec` describes it.  A body that does not match the
/// record shape is a decode failure carrying the raw text.
pub fn decode_workflow_spec(text: &str) -> (r: Result<WorkflowSpec, Error>)
    ensures
        r matches Ok(w) ==> spec_decode_workflow_spec(text@) == Some(
            (
                w.name@,
                w.region@,
                opt_view(w.description),
                w.source_id@,
                w.destination_id@,
                opt_view(w.schedule),
                w.enabled,
            ),
        ),
        r is Err ==> (spec_decode_workflow_spec(text@) is None && (r matches Err(
            Error::DeserializeContent(m, raw),
        ) && raw@ == text@)),
{
    let chars = str_chars(text);
    let ghost s = text@;
    if !starts_with_at(&chars, 0, "{\"name\":") {
        return Err(decode_failure(text));
    }
    let p0 = str_chars("{\"name\":").len();
    let f1 = match parse_req_string_at(&chars, p0) {
        Some(f) => f,
        None => {
            return Err(decode_failure(text));
        },
    };
    if !starts_with_at(&chars, f1.1, ",\"region\":") {
        return Err(decode_failure(text));
    }
    let p1 = f1.1 + str_chars(",\"region\":").len();
    let f2 = match parse_req_string_at(&chars, p1) {
        Some(f) => f,
        None => {
            return Err(decode_failure(text));
        },
    };
    if !starts_with_at(&chars, f2.1, ",\"description\":") {
        return Err(decode_failure(text));
    }
    let p2 = f2.1 + str_chars(",\"description\":").len();
    let f3 = match parse_opt_string_at(&chars, p2) {
        Some(f) => f,
        None => {
            return Err(decode_failure(text));
        },
    };
    if !starts_with_at(&chars, f3.1, ",\"sourceId\":") {
        return Err(decode_failure(text));
    }
    let p3 = f3.1 + str_chars(",\"sourceId\":").len();
    let f4 = match parse_req_string_at(&chars, p3) {
        Some(f) => f,
        None => {
            return Err(decode_failure(text));
        },
    };
    if !starts_with_at(&chars, f4.1, ",\"destinationId\":") {
        return Err(decode_failure(text));
    }
    let p4 = f4.1 + str_chars(",\"destinationId\":").len();
    let f5 = match parse_req_string_at(&chars, p4) {
        Some(f) => f,
        None => {
            return Err(decode_failure(text));
        },
    };
    if !starts_with_at(&chars, f5.1, ",\"schedule\":") {
        return Err(decode_failure(text));
    }
    let p5 = f5.1 + str_chars(",\"schedule\":").len();
    let f6 = match parse_opt_string_at(&chars, p5) {
        Some(f) => f,
        None => {
            return Err(decode_failure(text));
        },
    };
    if !starts_with_at(&chars, f6.1, ",\"enabled\":") {
        return Err(decode_failure(text));
    }
    let p6 = f6.1 + str_chars(",\"enabled\":").len();
    let f7 = match parse_bool_at(&chars, p6) {
        Some(f) => f,
        None => {
            return Err(decode_failure(text));
        },
    };
    let p7 = f7.1;
    if chars.len() - p7 == 1 && chars[p7] == '}' {
        proof {
            assert(s.subrange(p7 as int, p7 + 1int) =~= seq!['}']);
        }
        Ok(
            WorkflowSpec {
                name: f1.0,
                region: f2.0,
                description: f3.0,
                source_id: f4.0,
                destination_id: f5.0,
                schedule: f6.0,
                enabled: f7.0,
            },
        )
    } else {
        proof {
            if text_at(s, p7 as int, seq!['}']) {
                lemma_text_at_index(s, p7 as int, seq!['}'], 0);
            }
        }
        Err(decode_failure(text))
    }
}

/// Round trip for the second half of a workflow creation.
#[verifier::rlimit(100)]
#[verifier::spinoff_prover]
proof fn lemma_workflow_spec_tail_round_trip(
    s: Seq<char>,
    pos: int,
    x: WorkflowSpec,
    name: Seq<char>,
    region: Seq<char>,
    description: Option<Seq<char>>,
)
    requires
        text_at(
            s,
            pos,
            ",\"sourceId\":"@ + (str_text(x.source_id@) + (",\"destinationId\":"@ + (str_text(
                x.destination_id@,
            ) + (",\"schedule\":"@ + (opt_str_text(x.schedule) + (",\"enabled\":"@ + (bool_text(
                x.enabled,
            ) + seq!['}']))))))),
        ),
        pos + (",\"sourceId\":"@ + (str_text(x.source_id@) + (",\"destinationId\":"@ + (str_text(
            x.destination_id@,
        ) + (",\"schedule\":"@ + (opt_str_text(x.schedule) + (",\"enabled\":"@ + (bool_text(
            x.enabled,
        ) + seq!['}'])))))))).len() == s.len(),
    ensures
        spec_decode_workflow_spec_tail(s, name, region, description, pos) == Some(
            (
                name,
                region,
                description,
                x.source_id@,
                x.destination_id@,
                opt_view(x.schedule),
                x.enabled,
            ),
        ),
{
    let l4 = ",\"sourceId\":"@;
    let l5 = ",\"destinationId\":"@;
    let l6 = ",\"schedule\":"@;
    let l7 = ",\"enabled\":"@;
    let t4 = str_text(x.source_id@);
    let t5 = str_text(x.destination_id@);
    let t6 = opt_str_text(x.schedule);
    let t7 = bool_text(x.enabled);
    lemma_text_at_concat(s, pos, l4, t4 + (l5 + (t5 + (l6 + (t6 + (l7 + (t7 + seq!['}'])))))));
    let p6 = pos + l4.len();
    lemma_text_at_concat(s, p6, t4, l5 + (t5 + (l6 + (t6 + (l7 + (t7 + seq!['}']))))));
    lemma_parse_req_str_inverts(s, p6, x.source_id@);
    let p7 = p6 + t4.len();
    lemma_text_at_concat(s, p7, l5, t5 + (l6 + (t6 + (l7 + (t7 + seq!['}'])))));
    let p8 = p7 + l5.len();
    lemma_text_at_concat(s, p8, t5, l6 + (t6 + (l7 + (t7 + seq!['}']))));
    lemma_parse_req_str_inverts(s, p8, x.destination_id@);
    let p9 = p8 + t5.len();
    lemma_text_at_concat(s, p9, l6, t6 + (l7 + (t7 + seq!['}'])));
    let p10 = p9 + l6.len();
    lemma_text_at_concat(s, p10, t6, l7 + (t7 + seq!['}']));
    lemma_parse_opt_str_inverts(s, p10, x.schedule);
    let p11 = p10 + t6.len();
    lemma_text_at_concat(s, p11, l7, t7 + seq!['}']);
    let p12 = p11 + l7.len();
    lemma_text_at_concat(s, p12, t7, seq!['}']);
    lemma_parse_bool_inverts(s, p12, x.enabled);
    let p13 = p12 + t7.len();
    assert(p13 + 1 == s.len());
}

/// The wire text of a workflow creation, regrouped around its second half.
#[verifier::rlimit(100)]
#[verifier::spinoff_prover]
proof fn lemma_workflow_spec_text_shape(x: WorkflowSpec)
    ensures
        workflow_spec_text(x) == "{\"name\":"@ + (str_text(x.name@) + (",\"region\":"@ + (str_text(
            x.region@,
        ) + (",\"description\":"@ + (opt_str_text(x.description) + (",\"sourceId\":"@ + (str_text(
            x.source_id@,
        ) + (",\"destinationId\":"@ + (str_text(x.destination_id@) + (",\"schedule\":"@ + (
        opt_str_text(x.schedule) + (",\"enabled\":"@ + (bool_text(x.enabled)
            + seq!['}']))))))))))))),
{
    reveal_strlit("}");
    assert("}"@ =~= seq!['}']);
    assert(workflow_spec_text(x) =~= "{\"name\":"@ + (str_text(x.name@) + (",\"region\":"@ + (
    str_text(x.region@) + (",\"description\":"@ + (opt_str_text(x.description) + (
    ",\"sourceId\":"@ + (str_text(x.source_id@) + (",\"destinationId\":"@ + (str_text(
        x.destination_id@,
    ) + (",\"schedule\":"@ + (opt_str_text(x.schedule) + (",\"enabled\":"@ + (bool_text(x.enabled)
        + seq!['}']))))))))))))));
}

/// Round trip for a workflow creation: decoding the encoded wire text gives
/// back exactly the original fields.
#[verifier::rlimit(100)]
#[verifier::spinoff_prover]
pub proof fn lemma_workflow_spec_round_trip(x: WorkflowSpec)
    ensures
        spec_decode_workflow_spec(workflow_spec_text(x)) == Some(
            (
                x.name@,
                x.region@,
                opt_view(x.description),
                x.source_id@,
                x.destination_id@,
                opt_view(x.schedule),
                x.enabled,
            ),
        ),
{
    let s = workflow_spec_text(x);
    let l1 = "{\"name\":"@;
    let l2 = ",\"region\":"@;
    let l3 = ",\"description\":"@;
    let t1 = str_text(x.name@);
    let t2 = str_text(x.region@);
    let t3 = opt_str_text(x.description);
    let tail = ",\"sourceId\":"@ + (str_text(x.source_id@) + (",\"destinationId\":"@ + (str_text(
        x.destination_id@,
    ) + (",\"schedule\":"@ + (opt_str_text(x.schedule) + (",\"enabled\":"@ + (bool_text(
        x.enabled,
    ) + seq!['}'])))))));
    lemma_workflow_spec_text_shape(x);
    assert(text_at(s, 0, s)) by {
        assert(s.subrange(0, s.len() as int) =~= s);
    }
    lemma_text_at_concat(s, 0, l1, t1 + (l2 + (t2 + (l3 + (t3 + tail)))));
    let p0 = l1.len() as int;
    lemma_text_at_concat(s, p0, t1, l2 + (t2 + (l3 + (t3 + tail))));
    lemma_parse_req_str_inverts(s, p0, x.name@);
    let p1 = p0 + t1.len();
    lemma_text_at_concat(s, p1, l2, t2 + (l3 + (t3 + tail)));
    let p2 = p1 + l2.len();
    lemma_text_at_concat(s, p2, t2, l3 + (t3 + tail));
    lemma_parse_req_str_inverts(s, p2, x.region@);
    let p3 = p2 + t2.len();
    lemma_text_at_concat(s, p3, l3, t3 + tail);
    let p4 = p3 + l3.len();
    lemma_text_at_concat(s, p4, t3, tail);
    lemma_parse_opt_str_inverts(s, p4, x.description);
    let p5 = p4 + t3.len();
    lemma_workflow_spec_tail_round_trip(s, p5, x, x.name@, x.region@, opt_view(x.description));
}

/// Round trip for a job start request: decoding the encoded wire text gives
/// back exactly the original parameter list.
pub proof fn lemma_job_post_round_trip(x: JobPost)
    ensures
        spec_decode_job_post(job_post_text(x)) == Some(
            x.parameters@.map_values(|p: String| p@),
        ),
{
    let s = job_post_text(x);
    let lit = "{\"parameters\":"@ + seq!['['];
    reveal_strlit("}");
    assert("}"@ =~= seq!['}']);
    assert(s =~= lit + ((str_list_text(x.parameters@) + seq![']']) + seq!['}']));
    assert(text_at(s, 0, s)) by {
        assert(s.subrange(0, s.len() as int) =~= s);
    }
    let slt = str_list_text(x.parameters@);
    lemma_text_at_concat(s, 0, lit, (slt + seq![']']) + seq!['}']);
    assert((slt + seq![']']) + seq!['}'] =~= slt + (seq![']'] + seq!['}']));
    assert(slt + (seq![']'] + seq!['}']) =~= (slt + seq![']']) + seq!['}']);
    lemma_text_at_concat(s, lit.len() as int, slt + seq![']'], seq!['}']);
    lemma_parse_str_list_inverts(s, lit.len() as int, x.parameters@);
    let p1 = lit.len() + slt.len();
    lemma_text_at_concat(s, lit.len() as int, slt, seq![']'] + seq!['}']);
    assert(text_at(s, p1 as int, seq![']'] + seq!['}']));
    assert(seq![']'] + seq!['}'] =~= seq![']', '}']);
    assert(p1 + 2 == s.len());
}

/// Round trip for a workflow update: decoding the encoded wire text gives
/// back exactly the original fields.
#[verifier::rlimit(100)]
#[verifier::spinoff_prover]
pub proof fn lemma_workflow_patch_round_trip(x: WorkflowPatch)
    ensures
        spec_decode_workflow_patch(workflow_patch_text(x)) == Some(
            (opt_view(x.name), opt_view(x.description), opt_view(x.schedule), x.enabled),
        ),
{
    let s = workflow_patch_text(x);
    let l1 = "{\"name\":"@;
    let l2 = ",\"description\":"@;
    let l3 = ",\"schedule\":"@;
    let l4 = ",\"enabled\":"@;
    reveal_strlit("}");
    assert("}"@ =~= seq!['}']);
    let t1 = opt_str_text(x.name);
    let t2 = opt_str_text(x.description);
    let t3 = opt_str_text(x.schedule);
    let t4 = opt_bool_text(x.enabled);
    assert(s =~= l1 + (t1 + (l2 + (t2 + (l3 + (t3 + (l4 + (t4 + seq!['}']))))))));
    assert(text_at(s, 0, s)) by {
        assert(s.subrange(0, s.len() as int) =~= s);
    }
    lemma_text_at_concat(s, 0, l1, t1 + (l2 + (t2 + (l3 + (t3 + (l4 + (t4 + seq!['}'])))))));
    let p0 = l1.len() as int;
    lemma_text_at_concat(s, p0, t1, l2 + (t2 + (l3 + (t3 + (l4 + (t4 + seq!['}']))))));
    lemma_parse_opt_str_inverts(s, p0, x.name);
    let p1 = p0 + t1.len();
    lemma_text_at_concat(s, p1, l2, t2 + (l3 + (t3 + (l4 + (t4 + seq!['}'])))));
    let p2 = p1 + l2.len();
    lemma_text_at_concat(s, p2, t2, l3 + (t3 + (l4 + (t4 + seq!['}']))));
    lemma_parse_opt_str_inverts(s, p2, x.description);
    let p3 = p2 + t2.len();
    lemma_text_at_concat(s, p3, l3, t3 + (l4 + (t4 + seq!['}'])));
    let p4 = p3 + l3.len();
    lemma_text_at_concat(s, p4, t3, l4 + (t4 + seq!['}']));
    lemma_parse_opt_str_inverts(s, p4, x.schedule);
    let p5 = p4 + t3.len();
    lemma_text_at_concat(s, p5, l4, t4 + seq!['}']);
    let p6 = p5 + l4.len();
    lemma_text_at_concat(s, p6, t4, seq!['}']);
    lemma_parse_opt_bool_inverts(s, p6, x.enabled);
    let p7 = p6 + t4.len();
    assert(p7 + 1 == s.len());
}


/// The name and value views of a parameter list, as the wire format carries
/// them (the internal secret flag never travels).
pub open spec fn pairs_of_params(ps: Seq<Parameter>) -> Seq<(Seq<char>, Seq<char>)> {
    ps.map_values(|p: Parameter| (p.name@, p.value@))
}

/// Parses one `{"name":..,"value":..}` parameter object at `pos`.
#[verifier::opaque]
pub open spec fn parse_param(s: Seq<char>, pos: int) -> Option<((Seq<char>, Seq<char>), int)> {
    let l1 = "{\"name\":"@;
    if !text_at(s, pos, l1) {
        None
    } else {
        match parse_req_str(s, pos + l1.len()) {
            Some(f1) => {
                let l2 = ",\"value\":"@;
                if !text_at(s, f1.1, l2) {
                    None
                } else {
                    match parse_req_str(s, f1.1 + l2.len()) {
                        Some(f2) => if text_at(s, f2.1, seq!['}']) {
                            Some(((f1.0, f2.0), f2.1 + 1))
                        } else {
                            None
                        },
                        None => None,
                    }
                }
            },
            None => None,
        }
    }
}

/// Parses `{..},{..},..]` parameter objects from inside an array: the
/// name/value pairs and the position of the closing bracket.
#[verifier::opaque]
pub open spec fn parse_param_list(s: Seq<char>, pos: int) -> Option<
    (Seq<(Seq<char>, Seq<char>)>, int),
>
    decreases s.len() - pos,
{
    if pos < 0 || pos >= s.len() {
        None
    } else if s[pos] == ']' {
        Some((Seq::empty(), pos))
    } else {
        match parse_param(s, pos) {
            Some(p) => {
                let (v, p1) = p;
                if p1 >= s.len() || p1 <= pos {
                    None
                } else if s[p1] == ']' {
                    Some((seq![v], p1))
                } else if s[p1] == ',' {
                    match parse_param_list(s, p1 + 1) {
                        Some(q) => if q.0.len() == 0 {
                            // a trailing comma admits no empty tail
                            None
                        } else {
                            Some((seq![v] + q.0, q.1))
                        },
                        None => None,
                    }
                } else {
                    None
                }
            },
            None => None,
        }
    }
}

/// Decodes the shared field shape of a source or destination specification:
/// the name, the connector when present, and the parameter pairs.
pub open spec fn spec_decode_spec_fields(s: Seq<char>) -> Option<
    (Seq<char>, Option<Seq<char>>, Seq<(Seq<char>, Seq<char>)>),
> {
    let l1 = "{\"name\":"@;
    if !text_at(s, 0, l1) {
        None
    } else {
        match parse_req_str(s, l1.len() as int) {
            Some(f1) => decode_fields_tail(s, f1.0, f1.1),
            None => None,
        }
    }
}

/// After the name: an optional `connectorId` field, then the rest.
pub open spec fn decode_fields_tail(s: Seq<char>, name: Seq<char>, pos: int) -> Option<
    (Seq<char>, Option<Seq<char>>, Seq<(Seq<char>, Seq<char>)>),
> {
    let lc = ",\"connectorId\":"@;
    if text_at(s, pos, lc) {
        match parse_req_str(s, pos + lc.len()) {
            Some(f2) => decode_params_tail(s, name, Some(f2.0), f2.1),
            None => None,
        }
    } else {
        decode_params_tail(s, name, None, pos)
    }
}

/// After name and connector: either the closing brace, or a `parameters`
/// array followed by it.
#[verifier::opaque]
pub open spec fn decode_params_tail(
    s: Seq<char>,
    name: Seq<char>,
    connector: Option<Seq<char>>,
    pos: int,
) -> Option<(Seq<char>, Option<Seq<char>>, Seq<(Seq<char>, Seq<char>)>)> {
    let lp = ",\"parameters\":"@ + seq!['['];
    if pos + 1 == s.len() && text_at(s, pos, seq!['}']) {
        Some((name, connector, Seq::empty()))
    } else if text_at(s, pos, lp) {
        match parse_param_list(s, pos + lp.len()) {
            Some(q) => if q.1 + 2 == s.len() && text_at(s, q.1, seq![']', '}']) {
                Some((name, connector, q.0))
            } else {
                None
            },
            None => None,
        }
    } else {
        None
    }
}

/// Parsing inverts encoding for one parameter object.
proof fn lemma_parse_param_inverts(s: Seq<char>, pos: int, p: Parameter)
    requires
        text_at(s, pos, param_text(p)),
    ensures
        parse_param(s, pos) == Some(((p.name@, p.value@), pos + param_text(p).len())),
{
    reveal(parse_param);
    let l1 = "{\"name\":"@;
    let l2 = ",\"value\":"@;
    let t1 = str_text(p.name@);
    let t2 = str_text(p.value@);
    assert(param_text(p) =~= l1 + (t1 + (l2 + (t2 + "}"@))));
    reveal_strlit("}");
    assert("}"@ =~= seq!['}']);
    lemma_text_at_concat(s, pos, l1, t1 + (l2 + (t2 + "}"@)));
    let q0 = pos + l1.len();
    lemma_text_at_concat(s, q0, t1, l2 + (t2 + "}"@));
    lemma_parse_req_str_inverts(s, q0, p.name@);
    let q1 = q0 + t1.len();
    lemma_text_at_concat(s, q1, l2, t2 + "}"@);
    let q2 = q1 + l2.len();
    lemma_text_at_concat(s, q2, t2, "}"@);
    lemma_parse_req_str_inverts(s, q2, p.value@);
    let q3 = q2 + t2.len();
    assert(text_at(s, q3, seq!['}']));
}

/// Parsing a parameter object consumes at least its braces.
proof fn lemma_parse_param_advances(s: Seq<char>, pos: int)
    ensures
        parse_param(s, pos) matches Some(p) ==> p.1 > pos,
{
    reveal(parse_param);
    let l1 = "{\"name\":"@;
    if text_at(s, pos, l1) {
        lemma_parse_str_body_advances(s, pos + l1.len() + 1);
        match parse_req_str(s, pos + l1.len()) {
            Some(f1) => {
                let l2 = ",\"value\":"@;
                if text_at(s, f1.1, l2) {
                    lemma_parse_str_body_advances(s, f1.1 + l2.len() + 1);
                }
            },
            None => {},
        }
    }
}

/// Parsing inverts encoding for a list of parameter objects.
proof fn lemma_parse_param_list_inverts(s: Seq<char>, pos: int, items: Seq<Parameter>)
    requires
        text_at(s, pos, param_list_text(items) + seq![']']),
    ensures
        parse_param_list(s, pos) == Some(
            (pairs_of_params(items), pos + param_list_text(items).len()),
        ),
    decreases items.len(),
{
    reveal(parse_param_list);
    let plt = param_list_text(items);
    if items.len() == 0 {
        assert(plt =~= Seq::<char>::empty());
        assert(plt + seq![']'] =~= seq![']']);
        lemma_text_at_index(s, pos, seq![']'], 0);
        assert(s[pos] == ']');
        assert(pairs_of_params(items) =~= Seq::<(Seq<char>, Seq<char>)>::empty());
    } else if items.len() == 1 {
        let pt = param_text(items.first());
        assert(plt == pt);
        lemma_text_at_concat(s, pos, pt, seq![']']);
        lemma_parse_param_inverts(s, pos, items.first());
        let p1 = pos + pt.len();
        lemma_text_at_index(s, p1, seq![']'], 0);
        assert(s[p1] == ']');
        reveal_strlit("{\"name\":");
        assert(s[pos] != ']') by {
            lemma_text_at_index(s, pos, pt, 0);
            assert(pt[0] == '{') by {
                assert(param_text(items.first())[0] == "{\"name\":"@[0]);
            }
        }
        assert(pairs_of_params(items) =~= seq![(items.first().name@, items.first().value@)]);
    } else {
        let first = items.first();
        let rest = items.drop_first();
        let pt = param_text(first);
        assert(plt == pt + seq![','] + param_list_text(rest));
        assert(plt + seq![']'] =~= pt + (seq![','] + (param_list_text(rest) + seq![']'])));
        lemma_text_at_concat(s, pos, pt, seq![','] + (param_list_text(rest) + seq![']']));
        lemma_parse_param_inverts(s, pos, first);
        let p1 = pos + pt.len();
        lemma_text_at_concat(s, p1, seq![','], param_list_text(rest) + seq![']']);
        lemma_text_at_index(s, p1, seq![','], 0);
        assert(s[p1] == ',');
        reveal_strlit("{\"name\":");
        assert(s[pos] != ']') by {
            lemma_text_at_index(s, pos, pt, 0);
            assert(pt[0] == '{') by {
                assert(param_text(first)[0] == "{\"name\":"@[0]);
            }
        }
        lemma_parse_param_list_inverts(s, p1 + 1, rest);
        assert(pairs_of_params(rest).len() == rest.len());
        assert(pairs_of_params(items) =~= seq![(first.name@, first.value@)] + pairs_of_params(
            rest,
        ));
    }
}


/// Lengths and distinguishing characters of the field literals.
#[verifier::spinoff_prover]
proof fn lemma_field_literal_facts()
    ensures
        ",\"connectorId\":"@.len() == 15,
        (",\"parameters\":"@ + seq!['[']).len() == 15,
        ",\"connectorId\":"@[2] == 'c',
        (",\"parameters\":"@ + seq!['['])[2] == 'p',
{
    reveal_strlit(",\"connectorId\":");
    reveal_strlit(",\"parameters\":");
}

/// Round trip for the parameter part: the closing brace alone for an empty
/// list, or the `parameters` array before it.
#[verifier::rlimit(100)]
#[verifier::spinoff_prover]
proof fn lemma_params_tail_round_trip(
    s: Seq<char>,
    name: Seq<char>,
    connector: Option<Seq<char>>,
    pos: int,
    params: Seq<Parameter>,
)
    requires
        params.len() == 0 ==> (pos + 1 == s.len() && text_at(s, pos, seq!['}'])),
        params.len() > 0 ==> {
            let lp = ",\"parameters\":"@ + seq!['['];
            &&& text_at(s, pos, lp)
            &&& text_at(s, pos + lp.len(), param_list_text(params) + seq![']'])
            &&& pos + lp.len() + param_list_text(params).len() + 2 == s.len()
            &&& text_at(s, pos + lp.len() + param_list_text(params).len(), seq![']', '}'])
        },
    ensures
        decode_params_tail(s, name, connector, pos) == Some(
            (name, connector, pairs_of_params(params)),
        ),
{
    reveal(decode_params_tail);
    if params.len() == 0 {
        assert(pairs_of_params(params) =~= Seq::<(Seq<char>, Seq<char>)>::empty());
    } else {
        let lp = ",\"parameters\":"@ + seq!['['];
        lemma_field_literal_facts();
        lemma_parse_param_list_inverts(s, pos + lp.len(), params);
    }
}

/// Round trip for the field shape with no connector and no parameters.
#[verifier::rlimit(100)]
#[verifier::spinoff_prover]
proof fn lemma_fields_case_bare(s: Seq<char>, name: String)
    requires
        s == "{\"name\":"@ + (str_text(name@) + seq!['}']),
    ensures
        spec_decode_spec_fields(s) == Some(
            (name@, None::<Seq<char>>, Seq::<(Seq<char>, Seq<char>)>::empty()),
        ),
{
    let l1 = "{\"name\":"@;
    let t1 = str_text(name@);
    lemma_field_literal_facts();
    assert(text_at(s, 0, s)) by {
        assert(s.subrange(0, s.len() as int) =~= s);
    }
    lemma_text_at_concat(s, 0, l1, t1 + seq!['}']);
    let p0 = l1.len() as int;
    lemma_text_at_concat(s, p0, t1, seq!['}']);
    lemma_parse_req_str_inverts(s, p0, name@);
    let p1 = p0 + t1.len();
    assert(p1 + 1 == s.len());
    lemma_params_tail_round_trip(s, name@, None, p1, Seq::<Parameter>::empty());
}

/// Round trip for the field shape with a connector and no parameters.
#[verifier::rlimit(100)]
#[verifier::spinoff_prover]
proof fn lemma_fields_case_conn(s: Seq<char>, name: String, c: String)
    requires
        s == "{\"name\":"@ + (str_text(name@) + (",\"connectorId\":"@ + (str_text(c@)
            + seq!['}']))),
    ensures
        spec_decode_spec_fields(s) == Some(
            (name@, Some(c@), Seq::<(Seq<char>, Seq<char>)>::empty()),
        ),
{
    let l1 = "{\"name\":"@;
    let lc = ",\"connectorId\":"@;
    let t1 = str_text(name@);
    let tc = str_text(c@);
    assert(text_at(s, 0, s)) by {
        assert(s.subrange(0, s.len() as int) =~= s);
    }
    lemma_text_at_concat(s, 0, l1, t1 + (lc + (tc + seq!['}'])));
    let p0 = l1.len() as int;
    lemma_text_at_concat(s, p0, t1, lc + (tc + seq!['}']));
    lemma_parse_req_str_inverts(s, p0, name@);
    let p1 = p0 + t1.len();
    lemma_text_at_concat(s, p1, lc, tc + seq!['}']);
    lemma_text_at_concat(s, p1 + lc.len(), tc, seq!['}']);
    lemma_parse_req_str_inverts(s, p1 + lc.len(), c@);
    let p2 = p1 + lc.len() + tc.len();
    assert(p2 + 1 == s.len());
    lemma_params_tail_round_trip(s, name@, Some(c@), p2, Seq::<Parameter>::empty());
}

/// Round trip for the field shape with parameters and no connector.
#[verifier::rlimit(100)]
#[verifier::spinoff_prover]
proof fn lemma_fields_case_params(s: Seq<char>, name: String, params: Seq<Parameter>)
    requires
        params.len() > 0,
        s == "{\"name\":"@ + (str_text(name@) + ((",\"parameters\":"@ + seq!['[']) + (
        param_list_text(params) + (seq![']'] + seq!['}'])))),
    ensures
        spec_decode_spec_fields(s) == Some((name@, None::<Seq<char>>, pairs_of_params(params))),
{
    let l1 = "{\"name\":"@;
    let lc = ",\"connectorId\":"@;
    let lp = ",\"parameters\":"@ + seq!['['];
    let t1 = str_text(name@);
    let plt = param_list_text(params);
    lemma_field_literal_facts();
    assert(text_at(s, 0, s)) by {
        assert(s.subrange(0, s.len() as int) =~= s);
    }
    lemma_text_at_concat(s, 0, l1, t1 + (lp + (plt + (seq![']'] + seq!['}']))));
    let p0 = l1.len() as int;
    lemma_text_at_concat(s, p0, t1, lp + (plt + (seq![']'] + seq!['}'])));
    lemma_parse_req_str_inverts(s, p0, name@);
    let p1 = p0 + t1.len();
    lemma_text_at_concat(s, p1, lp, plt + (seq![']'] + seq!['}']));
    lemma_text_at_concat(s, p1 + lp.len(), plt, seq![']'] + seq!['}']);
    assert(text_at(s, p1, lc) ==> false) by {
        if text_at(s, p1, lc) {
            lemma_text_at_index(s, p1, lc, 2);
            lemma_text_at_index(s, p1, lp, 2);
        }
    }
    let pe = p1 + lp.len() + plt.len();
    lemma_text_at_concat(s, pe, seq![']'], seq!['}']);
    lemma_text_at_join(s, pe, seq![']'], seq!['}']);
    assert(seq![']'] + seq!['}'] =~= seq![']', '}']);
    assert(text_at(s, p1 + lp.len(), plt + seq![']'])) by {
        lemma_text_at_join(s, p1 + lp.len(), plt, seq![']']);
    }
    assert(pe + 2 == s.len());
    lemma_params_tail_round_trip(s, name@, None, p1, params);
}

/// Round trip for the field shape with both a connector and parameters.
#[verifier::rlimit(100)]
#[verifier::spinoff_prover]
proof fn lemma_fields_case_full(s: Seq<char>, name: String, c: String, params: Seq<Parameter>)
    requires
        params.len() > 0,
        s == "{\"name\":"@ + (str_text(name@) + (",\"connectorId\":"@ + (str_text(c@) + ((
        ",\"parameters\":"@ + seq!['[']) + (param_list_text(params) + (seq![']']
            + seq!['}'])))))),
    ensures
        spec_decode_spec_fields(s) == Some((name@, Some(c@), pairs_of_params(params))),
{
    let l1 = "{\"name\":"@;
    let lc = ",\"connectorId\":"@;
    let lp = ",\"parameters\":"@ + seq!['['];
    let t1 = str_text(name@);
    let tc = str_text(c@);
    let plt = param_list_text(params);
    lemma_field_literal_facts();
    assert(text_at(s, 0, s)) by {
        assert(s.subrange(0, s.len() as int) =~= s);
    }
    lemma_text_at_concat(s, 0, l1, t1 + (lc + (tc + (lp + (plt + (seq![']'] + seq!['}']))))));
    let p0 = l1.len() as int;
    lemma_text_at_concat(s, p0, t1, lc + (tc + (lp + (plt + (seq![']'] + seq!['}'])))));
    lemma_parse_req_str_inverts(s, p0, name@);
    let p1 = p0 + t1.len();
    lemma_text_at_concat(s, p1, lc, tc + (lp + (plt + (seq![']'] + seq!['}']))));
    lemma_text_at_concat(s, p1 + lc.len(), tc, lp + (plt + (seq![']'] + seq!['}'])));
    lemma_parse_req_str_inverts(s, p1 + lc.len(), c@);
    let p2 = p1 + lc.len() + tc.len();
    lemma_text_at_concat(s, p2, lp, plt + (seq![']'] + seq!['}']));
    lemma_text_at_concat(s, p2 + lp.len(), plt, seq![']'] + seq!['}']);
    let pe = p2 + lp.len() + plt.len();
    lemma_text_at_concat(s, pe, seq![']'], seq!['}']);
    lemma_text_at_join(s, pe, seq![']'], seq!['}']);
    assert(seq![']'] + seq!['}'] =~= seq![']', '}']);
    assert(text_at(s, p2 + lp.len(), plt + seq![']'])) by {
        lemma_text_at_join(s, p2 + lp.len(), plt, seq![']']);
    }
    assert(pe + 2 == s.len());
    lemma_params_tail_round_trip(s, name@, Some(c@), p2, params);
}

/// Round trip for the shared field shape of a source or destination
/// specification.
#[verifier::rlimit(100)]
#[verifier::spinoff_prover]
proof fn lemma_fields_text_round_trip(
    s: Seq<char>,
    name: String,
    connector: Option<String>,
    params: Seq<Parameter>,
)
    requires
        s == "{\"name\":"@ + str_text(name@) + (match connector {
            Some(c) => ",\"connectorId\":"@ + str_text(c@),
            None => Seq::<char>::empty(),
        }) + (if params.len() == 0 {
            Seq::<char>::empty()
        } else {
            ",\"parameters\":"@ + seq!['['] + param_list_text(params) + seq![']']
        }) + "}"@,
    ensures
        spec_decode_spec_fields(s) == Some((name@, opt_view(connector), pairs_of_params(params))),
{
    reveal_strlit("}");
    assert("}"@ =~= seq!['}']);
    match connector {
        Some(c) => {
            if params.len() == 0 {
                assert(s =~= "{\"name\":"@ + (str_text(name@) + (",\"connectorId\":"@ + (
                str_text(c@) + seq!['}']))));
                lemma_fields_case_conn(s, name, c);
            } else {
                assert(s =~= "{\"name\":"@ + (str_text(name@) + (",\"connectorId\":"@ + (
                str_text(c@) + ((",\"parameters\":"@ + seq!['[']) + (param_list_text(params) + (
                seq![']'] + seq!['}'])))))));
                lemma_fields_case_full(s, name, c, params);
            }
        },
        None => {
            if params.len() == 0 {
                assert(s =~= "{\"name\":"@ + (str_text(name@) + seq!['}']));
                lemma_fields_case_bare(s, name);
            } else {
                assert(s =~= "{\"name\":"@ + (str_text(name@) + ((",\"parameters\":"@
                    + seq!['[']) + (param_list_text(params) + (seq![']'] + seq!['}'])))));
                lemma_fields_case_params(s, name, params);
            }
        },
    }
}

/// Round trip for a source specification: decoding the encoded wire text
/// gives back the name, the connector, and the parameter pairs (the secret
/// flag is internal and never travels, so it is not part of the wire
/// round trip).
pub proof fn lemma_source_spec_round_trip(x: SourceSpec)
    ensures
        spec_decode_spec_fields(source_spec_text(x)) == Some(
            (x.name@, opt_view(x.connector_id), pairs_of_params(x.parameters@)),
        ),
{
    assert(source_spec_text(x) =~= "{\"name\":"@ + str_text(x.name@) + (match x.connector_id {
        Some(c) => ",\"connectorId\":"@ + str_text(c@),
        None => Seq::<char>::empty(),
    }) + (if x.parameters@.len() == 0 {
        Seq::<char>::empty()
    } else {
        ",\"parameters\":"@ + seq!['['] + param_list_text(x.parameters@) + seq![']']
    }) + "}"@);
    lemma_fields_text_round_trip(source_spec_text(x), x.name, x.connector_id, x.parameters@);
}

/// Round trip for a destination specification, shaped like a source's.
pub proof fn lemma_destination_spec_round_trip(x: DestinationSpec)
    ensures
        spec_decode_spec_fields(destination_spec_text(x)) == Some(
            (x.name@, opt_view(x.connector_id), pairs_of_params(x.parameters@)),
        ),
{
    assert(destination_spec_text(x) =~= "{\"name\":"@ + str_text(x.name@) + (
    match x.connector_id {
        Some(c) => ",\"connectorId\":"@ + str_text(c@),
        None => Seq::<char>::empty(),
    }) + (if x.parameters@.len() == 0 {
        Seq::<char>::empty()
    } else {
        ",\"parameters\":"@ + seq!['['] + param_list_text(x.parameters@) + seq![']']
    }) + "}"@);
    lemma_fields_text_round_trip(
        destination_spec_text(x),
        x.name,
        x.connector_id,
        x.parameters@,
    );
}


/// Parses one parameter object, as `parse_param` describes it.
fn parse_param_at(chars: &Vec<char>, pos: usize) -> (r: Option<((String, String), usize)>)
    ensures
        r is None ==> parse_param(chars@, pos as int) is None,
        r matches Some(p) ==> (parse_param(chars@, pos as int) == Some(
            ((p.0.0@, p.0.1@), p.1 as int),
        ) && p.1 <= chars@.len()),
{
    proof {
        reveal(parse_param);
    }
    let total = chars.len();
    if !starts_with_at(chars, pos, "{\"name\":") {
        return None;
    }
    let p0 = pos + str_chars("{\"name\":").len();
    let f1 = match parse_req_string_at(chars, p0) {
        Some(f) => f,
        None => {
            return None;
        },
    };
    if !starts_with_at(chars, f1.1, ",\"value\":") {
        return None;
    }
    let p1 = f1.1 + str_chars(",\"value\":").len();
    let f2 = match parse_req_string_at(chars, p1) {
        Some(f) => f,
        None => {
            return None;
        },
    };
    if f2.1 < total && chars[f2.1] == '}' {
        proof {
            assert(chars@.subrange(f2.1 as int, f2.1 + 1int) =~= seq!['}']);
        }
        Some(((f1.0, f2.0), f2.1 + 1))
    } else {
        proof {
            if text_at(chars@, f2.1 as int, seq!['}']) {
                lemma_text_at_index(chars@, f2.1 as int, seq!['}'], 0);
            }
        }
        None
    }
}

/// Decodes the shared field shape of a source or destination specification,
/// as `spec_decode_spec_fields` describes it.  Parameters received over the
/// wire are never secret.
fn decode_spec_fields(text: &str) -> (r: Result<(String, Option<String>, Vec<Parameter>), Error>)
    ensures
        r matches Ok(f) ==> (spec_decode_spec_fields(text@) == Some(
            (f.0@, opt_view(f.1), pairs_of_params(f.2@)),
        ) && forall|i: int| 0 <= i < f.2@.len() ==> !(#[trigger] f.2@[i]).secret),
        r is Err ==> (spec_decode_spec_fields(text@) is None && (r matches Err(
            Error::DeserializeContent(m, raw),
        ) && raw@ == text@)),
{
    let chars = str_chars(text);
    let ghost s = text@;
    if !starts_with_at(&chars, 0, "{\"name\":") {
        return Err(decode_failure(text));
    }
    let p0 = str_chars("{\"name\":").len();
    let f1 = match parse_req_string_at(&chars, p0) {
        Some(f) => f,
        None => {
            return Err(decode_failure(text));
        },
    };
    let name = f1.0;
    let (connector, pos) = if starts_with_at(&chars, f1.1, ",\"connectorId\":") {
        let pc = f1.1 + str_chars(",\"connectorId\":").len();
        match parse_req_string_at(&chars, pc) {
            Some(f2) => (Some(f2.0), f2.1),
            None => {
                return Err(decode_failure(text));
            },
        }
    } else {
        (None, f1.1)
    };
    proof {
        reveal(decode_params_tail);
    }
    let total = chars.len();
    if total - pos == 1 && chars[pos] == '}' {
        proof {
            assert(s.subrange(pos as int, pos + 1int) =~= seq!['}']);
            assert(pairs_of_params(Seq::<Parameter>::empty()) =~= Seq::<
                (Seq<char>, Seq<char>),
            >::empty());
        }
        return Ok((name, connector, Vec::new()));
    }
    let ghost lp = ",\"parameters\":"@ + seq!['['];
    if !starts_with_at(&chars, pos, ",\"parameters\":") {
        proof {
            if text_at(s, pos as int, lp) {
                lemma_text_at_concat(s, pos as int, ",\"parameters\":"@, seq!['[']);
            }
            if text_at(s, pos as int, seq!['}']) {
                lemma_text_at_index(s, pos as int, seq!['}'], 0);
            }
        }
        return Err(decode_failure(text));
    }
    let pb = pos + str_chars(",\"parameters\":").len();
    if pb >= total || chars[pb] != '[' {
        proof {
            if text_at(s, pos as int, lp) {
                lemma_text_at_concat(s, pos as int, ",\"parameters\":"@, seq!['[']);
                lemma_text_at_index(s, pb as int, seq!['['], 0);
            }
            if text_at(s, pos as int, seq!['}']) {
                lemma_text_at_index(s, pos as int, seq!['}'], 0);
            }
        }
        return Err(decode_failure(text));
    }
    proof {
        assert(s.subrange(pb as int, pb + 1int) =~= seq!['[']);
        lemma_text_at_join(s, pos as int, ",\"parameters\":"@, seq!['[']);
        if text_at(s, pos as int, seq!['}']) {
            lemma_text_at_index(s, pos as int, seq!['}'], 0);
        }
    }
    let lpos = pb + 1;
    let mut items: Vec<Parameter> = Vec::new();
    let mut cur: usize = lpos;
    let mut after_comma = false;
    let mut list_ok = false;
    loop
        invariant_except_break
            s == chars@,
            lpos <= cur <= s.len(),
            forall|i: int| 0 <= i < items@.len() ==> !(#[trigger] items@[i]).secret,
            !after_comma ==> (items@.len() == 0 && cur == lpos),
            after_comma ==> parse_param_list(s, lpos as int) == (match parse_param_list(
                s,
                cur as int,
            ) {
                Some(q) => if q.0.len() == 0 {
                    None::<(Seq<(Seq<char>, Seq<char>)>, int)>
                } else {
                    Some((pairs_of_params(items@) + q.0, q.1))
                },
                None => None::<(Seq<(Seq<char>, Seq<char>)>, int)>,
            }),
        ensures
            forall|i: int| 0 <= i < items@.len() ==> !(#[trigger] items@[i]).secret,
            list_ok ==> (parse_param_list(s, lpos as int) == Some(
                (pairs_of_params(items@), cur as int),
            ) && cur < s.len() && s[cur as int] == ']'),
            !list_ok ==> parse_param_list(s, lpos as int) is None,
            s == chars@,
        decreases s.len() - cur,
    {
        proof {
            reveal(parse_param_list);
        }
        if cur >= chars.len() {
            list_ok = false;
            break;
        }
        let c = chars[cur];
        if c == ']' {
            if after_comma {
                list_ok = false;
            } else {
                proof {
                    assert(pairs_of_params(items@) =~= Seq::<(Seq<char>, Seq<char>)>::empty());
                }
                list_ok = true;
            }
            break;
        }
        let parsed = parse_param_at(&chars, cur);
        match parsed {
            None => {
                list_ok = false;
                break;
            },
            Some((pair, p1)) => {
                proof {
                    lemma_parse_param_advances(s, cur as int);
                }
                if p1 >= chars.len() {
                    list_ok = false;
                    break;
                }
                let c2 = chars[p1];
                let param = Parameter { name: pair.0, value: pair.1, secret: false };
                if c2 == ']' {
                    let ghost pre = items@;
                    let ghost pview = (param.name@, param.value@);
                    items.push(param);
                    proof {
                        assert(parse_param_list(s, cur as int) == Some((seq![pview], p1 as int)));
                        assert(pairs_of_params(items@) =~= pairs_of_params(pre) + seq![pview]);
                        if !after_comma {
                            assert(pairs_of_params(items@) =~= seq![pview]);
                        }
                    }
                    cur = p1;
                    list_ok = true;
                    break;
                } else if c2 == ',' {
                    let ghost pre = items@;
                    let ghost pview = (param.name@, param.value@);
                    items.push(param);
                    proof {
                        assert(pairs_of_params(items@) =~= pairs_of_params(pre) + seq![pview]);
                        assert(parse_param_list(s, cur as int) == (match parse_param_list(
                            s,
                            p1 + 1int,
                        ) {
                            Some(q) => if q.0.len() == 0 {
                                None::<(Seq<(Seq<char>, Seq<char>)>, int)>
                            } else {
                                Some((seq![pview] + q.0, q.1))
                            },
                            None => None::<(Seq<(Seq<char>, Seq<char>)>, int)>,
                        }));
                        match parse_param_list(s, p1 + 1int) {
                            Some(q) => {
                                if q.0.len() > 0 {
                                    assert(pairs_of_params(pre) + (seq![pview] + q.0)
                                        =~= pairs_of_params(items@) + q.0);
                                }
                            },
                            None => {},
                        }
                    }
                    after_comma = true;
                    cur = p1 + 1;
                } else {
                    list_ok = false;
                    break;
                }
            },
        }
    }
    if !list_ok {
        return Err(decode_failure(text));
    }
    let end = cur;
    if chars.len() - end == 2 && chars[end + 1] == '}' {
        proof {
            assert(s.subrange(end as int, end + 2int) =~= seq![']', '}']);
        }
        Ok((name, connector, items))
    } else {
        proof {
            if text_at(s, end as int, seq![']', '}']) {
                lemma_text_at_index(s, end as int, seq![']', '}'], 1);
            }
        }
        Err(decode_failure(text))
    }
}

/// Decodes the wire text of a source specification.  A body that does not
/// match the record shape is a decode failure carrying the raw text; a
/// decoded parameter is never secret.
pub fn decode_source_spec(text: &str) -> (r: Result<SourceSpec, Error>)
    ensures
        r matches Ok(x) ==> (spec_decode_spec_fields(text@) == Some(
            (x.name@, opt_view(x.connector_id), pairs_of_params(x.parameters@)),
        ) && forall|i: int| 0 <= i < x.parameters@.len() ==> !(#[trigger] x.parameters@[i]).secret),
        r is Err ==> (spec_decode_spec_fields(text@) is None && (r matches Err(
            Error::DeserializeContent(m, raw),
        ) && raw@ == text@)),
{
    match decode_spec_fields(text) {
        Ok((name, connector_id, parameters)) => Ok(
            SourceSpec { name, connector_id, parameters },
        ),
        Err(e) => Err(e),
    }
}

/// Decodes the wire text of a destination specification, shaped like a
/// source's.
pub fn decode_destination_spec(text: &str) -> (r: Result<DestinationSpec, Error>)
    ensures
        r matches Ok(x) ==> (spec_decode_spec_fields(text@) == Some(
            (x.name@, opt_view(x.connector_id), pairs_of_params(x.parameters@)),
        ) && forall|i: int| 0 <= i < x.parameters@.len() ==> !(#[trigger] x.parameters@[i]).secret),
        r is Err ==> (spec_decode_spec_fields(text@) is None && (r matches Err(
            Error::DeserializeContent(m, raw),
        ) && raw@ == text@)),
{
    match decode_spec_fields(text) {
        Ok((name, connector_id, parameters)) => Ok(
            DestinationSpec { name, connector_id, parameters },
        ),
        Err(e) => Err(e),
    }
}

} // verus!
