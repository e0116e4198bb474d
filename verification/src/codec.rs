//! Encoding of request bodies: the exact JSON text sent for each
//! specification record, compact form, fields in declaration order, with the
//! same escaping rules a serde-based encoder applies: `"` and `\` get a
//! backslash, the named control characters their short escapes, other
//! controls a `\u00XX` escape, and everything else passes through verbatim.
//!
//! Optional fields that the wire format omits (a `connectorId` that is not
//! set, an empty parameter list) are omitted here too; optional fields the
//! wire format writes as `null` are written as `null`.

use vstd::prelude::*;
use vstd::string::StringExecFns;
use vstd::std_specs::iter::IteratorSpec;
use crate::model::Parameter;
use crate::model::di::{DestinationSpec, JobPost, SourceSpec, WorkflowPatch, WorkflowSpec};
use crate::strutil::{hex_char, hex_digit, string_push};

verus! {

broadcast use vstd::string::axiom_spec_iter, vstd::string::next_postcondition;

/// What one character contributes to a JSON string literal.
pub open spec fn esc_char(c: char) -> Seq<char> {
    if c == '"' {
        seq!['\\', '"']
    } else if c == '\\' {
        seq!['\\', '\\']
    } else if c == '\u{8}' {
        seq!['\\', 'b']
    } else if c == '\t' {
        seq!['\\', 't']
    } else if c == '\n' {
        seq!['\\', 'n']
    } else if c == '\u{c}' {
        seq!['\\', 'f']
    } else if c == '\r' {
        seq!['\\', 'r']
    } else if (c as u32) < 0x20 {
        seq!['\\', 'u', '0', '0', hex_digit(c as u32 as int / 16), hex_digit((c as u32 % 16) as int)]
    } else {
        seq![c]
    }
}

/// The escaped body of a JSON string literal.
pub open spec fn esc_str(s: Seq<char>) -> Seq<char>
    decreases s.len(),
{
    if s.len() == 0 {
        Seq::empty()
    } else {
        esc_char(s.first()) + esc_str(s.drop_first())
    }
}

/// A whole JSON string literal, quotes included.
pub open spec fn str_text(s: Seq<char>) -> Seq<char> {
    seq!['"'] + esc_str(s) + seq!['"']
}

/// A JSON boolean.
pub open spec fn bool_text(b: bool) -> Seq<char> {
    if b {
        "true"@
    } else {
        "false"@
    }
}

/// A JSON string or `null`.
pub open spec fn opt_str_text(o: Option<String>) -> Seq<char> {
    match o {
        Some(s) => str_text(s@),
        None => "null"@,
    }
}

/// A JSON boolean or `null`.
pub open spec fn opt_bool_text(o: Option<bool>) -> Seq<char> {
    match o {
        Some(b) => bool_text(b),
        None => "null"@,
    }
}

/// Escaping a string works character by character: it distributes over
/// concatenation.
pub proof fn lemma_esc_str_concat(a: Seq<char>, b: Seq<char>)
    ensures
        esc_str(a + b) == esc_str(a) + esc_str(b),
    decreases a.len(),
{
    if a.len() == 0 {
        assert(a + b =~= b);
        assert(esc_str(a) =~= Seq::<char>::empty());
        assert(esc_str(a) + esc_str(b) =~= esc_str(b));
    } else {
        assert((a + b).first() == a.first());
        assert((a + b).drop_first() =~= a.drop_first() + b);
        lemma_esc_str_concat(a.drop_first(), b);
        assert(esc_str(a + b) =~= esc_str(a) + esc_str(b));
    }
}

fn push_escaped_char(out: &mut String, c: char)
    ensures
        final(out)@ == old(out)@ + esc_char(c),
{
    if c == '"' {
        string_push(out, '\\');
        string_push(out, '"');
    } else if c == '\\' {
        string_push(out, '\\');
        string_push(out, '\\');
    } else if c == '\u{8}' {
        string_push(out, '\\');
        string_push(out, 'b');
    } else if c == '\t' {
        string_push(out, '\\');
        string_push(out, 't');
    } else if c == '\n' {
        string_push(out, '\\');
        string_push(out, 'n');
    } else if c == '\u{c}' {
        string_push(out, '\\');
        string_push(out, 'f');
    } else if c == '\r' {
        string_push(out, '\\');
        string_push(out, 'r');
    } else if (c as u32) < 0x20 {
        let cc = c as u32;
        string_push(out, '\\');
        string_push(out, 'u');
        string_push(out, '0');
        string_push(out, '0');
        string_push(out, hex_char((cc / 16) as u8));
        string_push(out, hex_char((cc % 16) as u8));
    } else {
        string_push(out, c);
    }
    assert(final(out)@ =~= old(out)@ + esc_char(c));
}

/// Appends a JSON string literal for `s`, quotes and escapes included.
pub fn append_json_string(out: &mut String, s: &str)
    ensures
        final(out)@ == old(out)@ + str_text(s@),
{
    let ghost orig = s@;
    let ghost entry = old(out)@;
    string_push(out, '"');
    let mut it = s.chars();
    let ghost mut done: int = 0;
    assert(it.remaining() =~= orig.skip(0));
    assert(esc_str(orig.take(0)) =~= Seq::<char>::empty());
    loop
        invariant_except_break
            it.obeys_prophetic_iter_laws(),
            0 <= done <= orig.len(),
            it.remaining() == orig.skip(done),
            out@ == entry + seq!['"'] + esc_str(orig.take(done)),
        ensures
            out@ == entry + seq!['"'] + esc_str(orig),
        decreases orig.len() - done,
    {
        let next = it.next();
        match next {
            Some(c) => {
                proof {
                    assert(orig.skip(done)[0] == orig[done]);
                    assert(orig.skip(done).drop_first() =~= orig.skip(done + 1));
                }
                push_escaped_char(out, c);
                proof {
                    lemma_esc_str_concat(orig.take(done), seq![c]);
                    assert(orig.take(done) + seq![c] =~= orig.take(done + 1));
                    assert(esc_str(seq![c]) =~= esc_char(c)) by {
                        assert(seq![c].first() == c);
                        assert(seq![c].drop_first() =~= Seq::<char>::empty());
                        assert(esc_str(Seq::<char>::empty()) =~= Seq::<char>::empty());
                    };
                    done = done + 1;
                    assert(out@ =~= entry + seq!['"'] + esc_str(orig.take(done)));
                }
            },
            None => {
                proof {
                    assert(orig.skip(done).len() == 0);
                    assert(done == orig.len());
                    assert(orig.take(done) =~= orig);
                }
                break;
            },
        }
    }
    string_push(out, '"');
    proof {
        assert(orig.take(orig.len() as int) =~= orig);
        assert(out@ =~= entry + str_text(orig));
    }
}

/// The wire text of one connector parameter: name and value; the internal
/// secret flag never travels.
pub open spec fn param_text(p: Parameter) -> Seq<char> {
    "{\"name\":"@ + str_text(p.name@) + ",\"value\":"@ + str_text(p.value@) + "}"@
}

/// A comma-joined list of JSON string literals.
pub open spec fn str_list_text(items: Seq<String>) -> Seq<char>
    decreases items.len(),
{
    if items.len() == 0 {
        Seq::empty()
    } else if items.len() == 1 {
        str_text(items.first()@)
    } else {
        str_text(items.first()@) + seq![','] + str_list_text(items.drop_first())
    }
}

/// A comma-joined list of connector parameters.
pub open spec fn param_list_text(items: Seq<Parameter>) -> Seq<char>
    decreases items.len(),
{
    if items.len() == 0 {
        Seq::empty()
    } else if items.len() == 1 {
        param_text(items.first())
    } else {
        param_text(items.first()) + seq![','] + param_list_text(items.drop_first())
    }
}

proof fn lemma_str_list_concat(a: Seq<String>, b: Seq<String>)
    ensures
        str_list_text(a + b) == if a.len() == 0 {
            str_list_text(b)
        } else if b.len() == 0 {
            str_list_text(a)
        } else {
            str_list_text(a) + seq![','] + str_list_text(b)
        },
    decreases a.len(),
{
    if a.len() == 0 {
        assert(a + b =~= b);
    } else {
        assert((a + b).first() == a.first());
        assert((a + b).drop_first() =~= a.drop_first() + b);
        lemma_str_list_concat(a.drop_first(), b);
        if b.len() == 0 {
            assert(a + b =~= a);
        } else if a.len() == 1 {
            assert(a.drop_first() =~= Seq::<String>::empty());
            assert(str_list_text(a + b) =~= str_list_text(a) + seq![','] + str_list_text(b));
        } else {
            assert(str_list_text(a + b) =~= str_list_text(a) + seq![','] + str_list_text(b));
        }
    }
}

proof fn lemma_param_list_concat(a: Seq<Parameter>, b: Seq<Parameter>)
    ensures
        param_list_text(a + b) == if a.len() == 0 {
            param_list_text(b)
        } else if b.len() == 0 {
            param_list_text(a)
        } else {
            param_list_text(a) + seq![','] + param_list_text(b)
        },
    decreases a.len(),
{
    if a.len() == 0 {
        assert(a + b =~= b);
    } else {
        assert((a + b).first() == a.first());
        assert((a + b).drop_first() =~= a.drop_first() + b);
        lemma_param_list_concat(a.drop_first(), b);
        if b.len() == 0 {
            assert(a + b =~= a);
        } else if a.len() == 1 {
            assert(a.drop_first() =~= Seq::<Parameter>::empty());
            assert(param_list_text(a + b) =~= param_list_text(a) + seq![','] + param_list_text(
                b,
            ));
        } else {
            assert(param_list_text(a + b) =~= param_list_text(a) + seq![','] + param_list_text(
                b,
            ));
        }
    }
}

/// Appends `["a","b",..]` for a list of strings.
pub fn append_string_array(out: &mut String, items: &Vec<String>)
    ensures
        final(out)@ == old(out)@ + seq!['['] + str_list_text(items@) + seq![']'],
{
    string_push(out, '[');
    let ghost entry = out@;
    let len = items.len();
    for i in 0..len
        invariant
            len == items@.len(),
            out@ == entry + str_list_text(items@.take(i as int)),
    {
        if i > 0 {
            string_push(out, ',');
        }
        let ghost before = out@;
        append_json_string(out, items[i].as_str());
        proof {
            let one = seq![items@[i as int]];
            assert(str_list_text(one) =~= str_text(items@[i as int]@)) by {
                assert(one.first() == items@[i as int]);
            };
            lemma_str_list_concat(items@.take(i as int), one);
            assert(items@.take(i as int) + one =~= items@.take(i + 1));
            assert(out@ =~= entry + str_list_text(items@.take(i + 1)));
        }
    }
    proof {
        assert(items@.take(len as int) =~= items@);
    }
    string_push(out, ']');
    assert(final(out)@ =~= old(out)@ + seq!['['] + str_list_text(items@) + seq![']']);
}

fn append_parameter(out: &mut String, p: &Parameter)
    ensures
        final(out)@ == old(out)@ + param_text(*p),
{
    out.append("{\"name\":");
    append_json_string(out, p.name.as_str());
    out.append(",\"value\":");
    append_json_string(out, p.value.as_str());
    out.append("}");
    assert(final(out)@ =~= old(out)@ + param_text(*p));
}

/// Appends `[{"name":..,"value":..},..]` for a parameter list.
pub fn append_parameter_array(out: &mut String, items: &Vec<Parameter>)
    ensures
        final(out)@ == old(out)@ + seq!['['] + param_list_text(items@) + seq![']'],
{
    string_push(out, '[');
    let ghost entry = out@;
    let len = items.len();
    for i in 0..len
        invariant
            len == items@.len(),
            out@ == entry + param_list_text(items@.take(i as int)),
    {
        if i > 0 {
            string_push(out, ',');
        }
        append_parameter(out, &items[i]);
        proof {
            let one = seq![items@[i as int]];
            assert(param_list_text(one) =~= param_text(items@[i as int])) by {
                assert(one.first() == items@[i as int]);
            };
            lemma_param_list_concat(items@.take(i as int), one);
            assert(items@.take(i as int) + one =~= items@.take(i + 1));
            assert(out@ =~= entry + param_list_text(items@.take(i + 1)));
        }
    }
    proof {
        assert(items@.take(len as int) =~= items@);
    }
    string_push(out, ']');
    assert(final(out)@ =~= old(out)@ + seq!['['] + param_list_text(items@) + seq![']']);
}

fn append_opt_string(out: &mut String, o: &Option<String>)
    ensures
        final(out)@ == old(out)@ + opt_str_text(*o),
{
    match o {
        Some(s) => append_json_string(out, s.as_str()),
        None => out.append("null"),
    }
}

fn append_opt_bool(out: &mut String, o: &Option<bool>)
    ensures
        final(out)@ == old(out)@ + opt_bool_text(*o),
{
    match o {
        Some(b) => if *b {
            out.append("true")
        } else {
            out.append("false")
        },
        None => out.append("null"),
    }
}

/// The wire text of a source specification: `connectorId` only when set,
/// `parameters` only when non-empty.
pub open spec fn source_spec_text(x: SourceSpec) -> Seq<char> {
    "{\"name\":"@ + str_text(x.name@) + (match x.connector_id {
        Some(c) => ",\"connectorId\":"@ + str_text(c@),
        None => Seq::empty(),
    }) + (if x.parameters@.len() == 0 {
        Seq::<char>::empty()
    } else {
        ",\"parameters\":"@ + seq!['['] + param_list_text(x.parameters@) + seq![']']
    }) + "}"@
}

/// The wire text of a destination specification, shaped like a source's.
pub open spec fn destination_spec_text(x: DestinationSpec) -> Seq<char> {
    "{\"name\":"@ + str_text(x.name@) + (match x.connector_id {
        Some(c) => ",\"connectorId\":"@ + str_text(c@),
        None => Seq::empty(),
    }) + (if x.parameters@.len() == 0 {
        Seq::<char>::empty()
    } else {
        ",\"parameters\":"@ + seq!['['] + param_list_text(x.parameters@) + seq![']']
    }) + "}"@
}

/// The wire text of a workflow creation: every field written, absent options
/// as `null`.
pub open spec fn workflow_spec_text(x: WorkflowSpec) -> Seq<char> {
    "{\"name\":"@ + str_text(x.name@) + ",\"region\":"@ + str_text(x.region@)
        + ",\"description\":"@ + opt_str_text(x.description) + ",\"sourceId\":"@ + str_text(
        x.source_id@,
    ) + ",\"destinationId\":"@ + str_text(x.destination_id@) + ",\"schedule\":"@ + opt_str_text(
        x.schedule,
    ) + ",\"enabled\":"@ + bool_text(x.enabled) + "}"@
}

/// The wire text of a workflow update: every field written, absent options
/// as `null`.
pub open spec fn workflow_patch_text(x: WorkflowPatch) -> Seq<char> {
    "{\"name\":"@ + opt_str_text(x.name) + ",\"description\":"@ + opt_str_text(x.description)
        + ",\"schedule\":"@ + opt_str_text(x.schedule) + ",\"enabled\":"@ + opt_bool_text(
        x.enabled,
    ) + "}"@
}

/// The wire text of a job start request.
pub open spec fn job_post_text(x: JobPost) -> Seq<char> {
    "{\"parameters\":"@ + seq!['['] + str_list_text(x.parameters@) + seq![']'] + "}"@
}

/// Encodes a source specification as its wire JSON text.
pub fn encode_source_spec(x: &SourceSpec) -> (r: String)
    ensures
        r@ == source_spec_text(*x),
{
    let mut out = String::new();
    out.append("{\"name\":");
    append_json_string(&mut out, x.name.as_str());
    match &x.connector_id {
        Some(c) => {
            out.append(",\"connectorId\":");
            append_json_string(&mut out, c.as_str());
        },
        None => {},
    }
    if x.parameters.len() > 0 {
        out.append(",\"parameters\":");
        append_parameter_array(&mut out, &x.parameters);
    }
    out.append("}");
    assert(out@ =~= source_spec_text(*x));
    out
}

/// Encodes a destination specification as its wire JSON text.
pub fn encode_destination_spec(x: &DestinationSpec) -> (r: String)
    ensures
        r@ == destination_spec_text(*x),
{
    let mut out = String::new();
    out.append("{\"name\":");
    append_json_string(&mut out, x.name.as_str());
    match &x.connector_id {
        Some(c) => {
            out.append(",\"connectorId\":");
            append_json_string(&mut out, c.as_str());
        },
        None => {},
    }
    if x.parameters.len() > 0 {
        out.append(",\"parameters\":");
        append_parameter_array(&mut out, &x.parameters);
    }
    out.append("}");
    assert(out@ =~= destination_spec_text(*x));
    out
}

/// Encodes a workflow creation as its wire JSON text.
pub fn encode_workflow_spec(x: &WorkflowSpec) -> (r: String)
    ensures
        r@ == workflow_spec_text(*x),
{
    let mut out = String::new();
    out.append("{\"name\":");
    append_json_string(&mut out, x.name.as_str());
    out.append(",\"region\":");
    append_json_string(&mut out, x.region.as_str());
    out.append(",\"description\":");
    append_opt_string(&mut out, &x.description);
    out.append(",\"sourceId\":");
    append_json_string(&mut out, x.source_id.as_str());
    out.append(",\"destinationId\":");
    append_json_string(&mut out, x.destination_id.as_str());
    out.append(",\"schedule\":");
    append_opt_string(&mut out, &x.schedule);
    out.append(",\"enabled\":");
    if x.enabled {
        out.append("true");
    } else {
        out.append("false");
    }
    out.append("}");
    assert(out@ =~= workflow_spec_text(*x));
    out
}

/// Encodes a workflow update as its wire JSON text.
pub fn encode_workflow_patch(x: &WorkflowPatch) -> (r: String)
    ensures
        r@ == workflow_patch_text(*x),
{
    let mut out = String::new();
    out.append("{\"name\":");
    append_opt_string(&mut out, &x.name);
    out.append(",\"description\":");
    append_opt_string(&mut out, &x.description);
    out.append(",\"schedule\":");
    append_opt_string(&mut out, &x.schedule);
    out.append(",\"enabled\":");
    append_opt_bool(&mut out, &x.enabled);
    out.append("}");
    assert(out@ =~= workflow_patch_text(*x));
    out
}

/// Encodes a job start request as its wire JSON text.
pub fn encode_job_post(x: &JobPost) -> (r: String)
    ensures
        r@ == job_post_text(*x),
{
    let mut out = String::new();
    out.append("{\"parameters\":");
    append_string_array(&mut out, &x.parameters);
    out.append("}");
    assert(out@ =~= job_post_text(*x));
    out
}

} // verus!
