//! Command-line option records: what each subcommand accepts, the output
//! format selectors, and the `name=value` parameter syntax.  Argument
//! parsing proper is the surrounding application's job; the records and the
//! parsing rules worth stating live here.

use vstd::prelude::*;
use vstd::string::StringExecFns;
use vstd::std_specs::iter::IteratorSpec;
use crate::model::Parameter;
use crate::strutil::string_push;

verus! {

broadcast use vstd::string::axiom_spec_iter, vstd::string::next_postcondition;

/// What can go wrong parsing a command-line value.
#[derive(Debug, Clone, PartialEq, Eq, Structural)]
pub enum ParseError {
    NameValueParse,
    JobVolumeParse,
    JobVolumePermission,
    OutputParse,
    RoleParse,
    ContainerParse,
}

/// A `name=value` pair given on the command line.
#[derive(Debug, Clone, PartialEq)]
pub struct NameValue {
    pub name: String,
    pub value: String,
}

/// Splitting at the first `=`: the part before it and the part after it, or
/// nothing when no `=` occurs.
pub open spec fn split_name_value(s: Seq<char>) -> Option<(Seq<char>, Seq<char>)>
    decreases s.len(),
{
    if s.len() == 0 {
        None
    } else if s.first() == '=' {
        Some((Seq::empty(), s.drop_first()))
    } else {
        match split_name_value(s.drop_first()) {
            Some(p) => Some((seq![s.first()] + p.0, p.1)),
            None => None,
        }
    }
}

proof fn lemma_split_at_eq(s: Seq<char>, i: int)
    requires
        0 <= i < s.len(),
        forall|k: int| 0 <= k < i ==> s[k] != '=',
        s[i] == '=',
    ensures
        split_name_value(s) == Some((s.take(i), s.skip(i + 1))),
    decreases i,
{
    assert(s.first() == s[0]);
    if i == 0 {
        assert(s.take(0) =~= Seq::<char>::empty());
        assert(s.skip(1) =~= s.drop_first());
    } else {
        lemma_split_at_eq(s.drop_first(), i - 1);
        assert(forall|k: int| 0 <= k < i - 1 ==> s.drop_first()[k] == s[k + 1]);
        assert(s.drop_first()[i - 1] == s[i]);
        assert(seq![s.first()] + s.drop_first().take(i - 1) =~= s.take(i));
        assert(s.drop_first().skip(i) =~= s.skip(i + 1));
    }
}

proof fn lemma_split_no_eq(s: Seq<char>)
    requires
        forall|k: int| 0 <= k < s.len() ==> s[k] != '=',
    ensures
        split_name_value(s) is None,
    decreases s.len(),
{
    if s.len() > 0 {
        assert(s.first() == s[0]);
        lemma_split_no_eq(s.drop_first());
    }
}

impl NameValue {
    /// Parses `name=value`: everything before the first `=` is the name,
    /// everything after it the value.  A string without `=` is rejected.
    pub fn parse(s: &str) -> (r: Result<NameValue, ParseError>)
        ensures
            r matches Ok(nv) ==> (split_name_value(s@) matches Some(p) && nv.name@ == p.0
                && nv.value@ == p.1),
            r is Err ==> (split_name_value(s@) is None && r == Err::<NameValue, ParseError>(
                ParseError::NameValueParse,
            )),
    {
        let ghost orig = s@;
        let mut name = String::new();
        let mut value = String::new();
        let mut seen_eq = false;
        let ghost mut eq_at: int = 0;
        let mut it = s.chars();
        let ghost mut done: int = 0;
        loop
            invariant_except_break
                it.obeys_prophetic_iter_laws(),
                0 <= done <= orig.len(),
                it.remaining() == orig.skip(done),
                !seen_eq ==> (name@ == orig.take(done) && value@ == Seq::<char>::empty()
                    && forall|k: int| 0 <= k < done ==> orig[k] != '='),
                seen_eq ==> (0 <= eq_at < done <= orig.len() && orig[eq_at] == '=' && (forall|
                    k: int,
                |
                    0 <= k < eq_at ==> orig[k] != '=') && name@ == orig.take(eq_at) && value@
                    == orig.skip(eq_at + 1).take(done - eq_at - 1)),
            ensures
                !seen_eq ==> (forall|k: int| 0 <= k < orig.len() ==> orig[k] != '='),
                seen_eq ==> (0 <= eq_at < orig.len() && orig[eq_at] == '=' && (forall|k: int|
                    0 <= k < eq_at ==> orig[k] != '=') && name@ == orig.take(eq_at) && value@
                    == orig.skip(eq_at + 1)),
            decreases orig.len() - done,
        {
            let next = it.next();
            match next {
                Some(c) => {
                    proof {
                        assert(orig.skip(done)[0] == orig[done]);
                        assert(orig.skip(done).drop_first() =~= orig.skip(done + 1));
                    }
                    if !seen_eq && c == '=' {
                        seen_eq = true;
                        proof {
                            eq_at = done;
                            done = done + 1;
                            assert(orig.skip(eq_at + 1).take(0) =~= Seq::<char>::empty());
                        }
                    } else if !seen_eq {
                        string_push(&mut name, c);
                        proof {
                            done = done + 1;
                            assert(name@ =~= orig.take(done));
                        }
                    } else {
                        string_push(&mut value, c);
                        proof {
                            done = done + 1;
                            assert(value@ =~= orig.skip(eq_at + 1).take(done - eq_at - 1));
                        }
                    }
                },
                None => {
                    proof {
                        assert(orig.skip(done).len() == 0);
                        assert(done == orig.len());
                        if seen_eq {
                            assert(value@ =~= orig.skip(eq_at + 1));
                        }
                    }
                    break;
                },
            }
        }
        if seen_eq {
            proof {
                lemma_split_at_eq(orig, eq_at);
            }
            Ok(NameValue { name, value })
        } else {
            proof {
                lemma_split_no_eq(orig);
            }
            Err(ParseError::NameValueParse)
        }
    }

    /// Turns a command-line pair into a connector parameter; a parameter
    /// given this way is not secret.
    pub fn into_parameter(self) -> (r: Parameter)
        ensures
            r.name == self.name,
            r.value == self.value,
            !r.secret,
    {
        Parameter { name: self.name, value: self.value, secret: false }
    }
}

impl core::str::FromStr for NameValue {
    type Err = ParseError;

    fn from_str(s: &str) -> Result<NameValue, ParseError> {
        NameValue::parse(s)
    }
}

fn kw(w: &str) -> (r: String)
    ensures
        r@ == w@,
{
    <String as StringExecFns>::from_str(w)
}

/// The character with an ASCII uppercase letter folded to lowercase.
pub open spec fn lower_char(c: char) -> char {
    if 'A' <= c && c <= 'Z' {
        ((c as u8) + 32) as char
    } else {
        c
    }
}

/// Folds ASCII uppercase letters of a string to lowercase.
pub fn ascii_lower(s: &str) -> (r: String)
    ensures
        r@ == s@.map_values(|c: char| lower_char(c)),
{
    let ghost orig = s@;
    let mut r = String::new();
    let mut it = s.chars();
    let ghost mut done: int = 0;
    assert(r@ =~= orig.take(0).map_values(|c: char| lower_char(c)));
    loop
        invariant_except_break
            it.obeys_prophetic_iter_laws(),
            0 <= done <= orig.len(),
            it.remaining() == orig.skip(done),
            r@ == orig.take(done).map_values(|c: char| lower_char(c)),
        ensures
            r@ == orig.map_values(|c: char| lower_char(c)),
        decreases orig.len() - done,
    {
        let next = it.next();
        match next {
            Some(c) => {
                proof {
                    assert(orig.skip(done)[0] == orig[done]);
                    assert(orig.skip(done).drop_first() =~= orig.skip(done + 1));
                }
                let low = if c >= 'A' && c <= 'Z' {
                    ((c as u8) + 32) as char
                } else {
                    c
                };
                string_push(&mut r, low);
                proof {
                    done = done + 1;
                    assert(r@ =~= orig.take(done).map_values(|ch: char| lower_char(ch)));
                }
            },
            None => {
                proof {
                    assert(orig.skip(done).len() == 0);
                    assert(orig.take(done) =~= orig);
                }
                break;
            },
        }
    }
    r
}

/// The field a source or destination listing is ordered by.
#[derive(Debug, Clone, PartialEq, Eq, Structural)]
pub enum OrderListSourceDest {
    Age,
    Update,
    Status,
    Connector,
    Name,
}

impl Default for OrderListSourceDest {
    /// Listings are ordered by name unless asked otherwise.
    fn default() -> (r: OrderListSourceDest)
        ensures
            r == OrderListSourceDest::Name,
    {
        OrderListSourceDest::Name
    }
}

impl core::str::FromStr for OrderListSourceDest {
    type Err = ParseError;

    fn from_str(s: &str) -> Result<OrderListSourceDest, ParseError> {
        let lowered = ascii_lower(s);
        if lowered == kw("age") {
            Ok(OrderListSourceDest::Age)
        } else if lowered == kw("update") {
            Ok(OrderListSourceDest::Update)
        } else if lowered == kw("status") {
            Ok(OrderListSourceDest::Status)
        } else if lowered == kw("connector") {
            Ok(OrderListSourceDest::Connector)
        } else if lowered == kw("name") {
            Ok(OrderListSourceDest::Name)
        } else {
            Err(ParseError::OutputParse)
        }
    }
}

/// The output format of a single-object command.
#[derive(Debug, Clone, Copy, PartialEq, Eq, Structural)]
pub enum OutputObject {
    Json,
    Yaml,
    Description,
}

impl Default for OutputObject {
    /// A single object prints as a description unless asked otherwise.
    fn default() -> (r: OutputObject)
        ensures
            r == OutputObject::Description,
    {
        OutputObject::Description
    }
}

impl core::str::FromStr for OutputObject {
    type Err = ParseError;

    fn from_str(s: &str) -> Result<OutputObject, ParseError> {
        let lowered = ascii_lower(s);
        if lowered == kw("json") {
            Ok(OutputObject::Json)
        } else if lowered == kw("yaml") {
            Ok(OutputObject::Yaml)
        } else if lowered == kw("description") {
            Ok(OutputObject::Description)
        } else {
            Err(ParseError::OutputParse)
        }
    }
}

/// The output format of a listing command.
#[derive(Debug, Clone, Copy, PartialEq, Eq, Structural)]
pub enum OutputList {
    Table,
    Json,
    Yaml,
}

impl Default for OutputList {
    /// A listing prints as a table unless asked otherwise.
    fn default() -> (r: OutputList)
        ensures
            r == OutputList::Table,
    {
        OutputList::Table
    }
}

impl core::str::FromStr for OutputList {
    type Err = ParseError;

    fn from_str(s: &str) -> Result<OutputList, ParseError> {
        let lowered = ascii_lower(s);
        if lowered == kw("table") {
            Ok(OutputList::Table)
        } else if lowered == kw("json") {
            Ok(OutputList::Json)
        } else if lowered == kw("yaml") {
            Ok(OutputList::Yaml)
        } else {
            Err(ParseError::OutputParse)
        }
    }
}

} // verus!
