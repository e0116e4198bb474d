//! Output selection and the help texts the interactive prompts compute.
//! Rendering to a terminal is the surrounding application's job; what is
//! here is the data that drives it and the pure text it derives.

use vstd::prelude::*;
use vstd::string::StringExecFns;
use crate::model::Parameter;
use crate::model::di::{ConnectorParameter, ConnectorValidator};
use crate::options::NameValue;
use crate::strutil::int_str;

verus! {

/// How a command's result is rendered.
#[derive(Debug, Clone, PartialEq)]
pub enum Output {
    Table(Vec<String>),
    Json,
    Yaml,
    Description,
}

impl Output {
    /// A table with the type's default columns.
    pub fn default_table() -> (r: Output)
        ensures
            r matches Output::Table(h) && h@.len() == 0,
    {
        Output::Table(Vec::new())
    }
}

/// The help line shown for a connector parameter's validator, by parameter
/// type: strings and secrets have none, booleans list their spellings, and
/// an integer validator states its bounds unless they coincide.
pub open spec fn validator_help_of(value_type: Seq<char>, validator: Option<
    ConnectorValidator,
>) -> Seq<char> {
    match validator {
        None => "None"@,
        Some(v) => if value_type == "string"@ || value_type == "secret"@ {
            "None (string by default)"@
        } else if value_type == "boolean"@ {
            "(true, True, false, False)"@
        } else if value_type == "int"@ {
            if v.min == v.max {
                "None (any integer without spaces)"@
            } else {
                "Min value="@ + int_str(v.min as int) + " , max value="@ + int_str(v.max as int)
            }
        } else {
            "None (string by default)"@
        },
    }
}


/// The value given on the command line for a parameter name, taking the
/// last occurrence when the name is repeated.
pub open spec fn last_value_of(input: Seq<NameValue>, name: Seq<char>) -> Option<Seq<char>>
    decreases input.len(),
{
    if input.len() == 0 {
        None
    } else if input.last().name@ == name {
        Some(input.last().value@)
    } else {
        last_value_of(input.drop_last(), name)
    }
}

/// The parameters assembled from command-line input: one per connector
/// parameter that was given a value, in the connector's order, marked secret
/// exactly when the connector declares the parameter's type `secret`.
pub open spec fn merged_parameters(input: Seq<NameValue>, cps: Seq<ConnectorParameter>) -> Seq<
    (Seq<char>, Seq<char>, bool),
>
    decreases cps.len(),
{
    if cps.len() == 0 {
        Seq::empty()
    } else {
        let head = match last_value_of(input, cps.first().name@) {
            Some(v) => seq![
                (cps.first().name@, v, cps.first().value_type@ == "secret"@),
            ],
            None => Seq::<(Seq<char>, Seq<char>, bool)>::empty(),
        };
        head + merged_parameters(input, cps.drop_first())
    }
}

/// The (name, value, secret) views of a parameter list.
pub open spec fn params_triples(ps: Seq<Parameter>) -> Seq<(Seq<char>, Seq<char>, bool)> {
    ps.map_values(|p: Parameter| (p.name@, p.value@, p.secret))
}

proof fn lemma_last_value_at(input: Seq<NameValue>, name: Seq<char>, j: int)
    requires
        0 <= j < input.len(),
        input[j].name@ == name,
        forall|k: int| j < k < input.len() ==> (#[trigger] input[k]).name@ != name,
    ensures
        last_value_of(input, name) == Some(input[j].value@),
    decreases input.len(),
{
    assert(input.last() == input[input.len() - 1]);
    if j == input.len() - 1 {
    } else {
        lemma_last_value_at(input.drop_last(), name, j);
    }
}

proof fn lemma_last_value_none(input: Seq<NameValue>, name: Seq<char>)
    requires
        forall|k: int| 0 <= k < input.len() ==> (#[trigger] input[k]).name@ != name,
    ensures
        last_value_of(input, name) is None,
    decreases input.len(),
{
    if input.len() > 0 {
        assert(input.last() == input[input.len() - 1]);
        lemma_last_value_none(input.drop_last(), name);
    }
}

fn find_last_value(input: &Vec<NameValue>, name: &String) -> (r: Option<String>)
    ensures
        r matches Some(v) ==> last_value_of(input@, name@) == Some(v@),
        r is None ==> last_value_of(input@, name@) is None,
{
    let len = input.len();
    let mut found: Option<usize> = None;
    for j in 0..len
        invariant
            len == input@.len(),
            found matches Some(i) ==> (i < j && input@[i as int].name@ == name@ && forall|k: int|
                i < k < j ==> (#[trigger] input@[k]).name@ != name@),
            found is None ==> forall|k: int|
                0 <= k < j ==> (#[trigger] input@[k]).name@ != name@,
    {
        if input[j].name == *name {
            found = Some(j);
        }
    }
    match found {
        Some(i) => {
            proof {
                lemma_last_value_at(input@, name@, i as int);
            }
            Some(input[i].value.clone())
        },
        None => {
            proof {
                lemma_last_value_none(input@, name@);
            }
            None
        },
    }
}

/// The command-line printer; its rendering side lives in the surrounding
/// application.
pub struct Printer;

impl Printer {

    /// Assembles the connector parameters from command-line input: each
    /// connector parameter that was given a value on the command line is
    /// taken, in the connector's order, with the last occurrence winning
    /// when a name is repeated, and marked secret exactly when the
    /// connector declares its type `secret`.  Interactive prompting for
    /// missing parameters is the surrounding application's job.
    pub fn ask_connector_parameters(
        input: &Vec<NameValue>,
        connector_parameters: &Vec<ConnectorParameter>,
    ) -> (r: Vec<Parameter>)
        ensures
            params_triples(r@) == merged_parameters(input@, connector_parameters@),
    {
        let ghost cps = connector_parameters@;
        let mut parameters: Vec<Parameter> = Vec::new();
        let len = connector_parameters.len();
        assert(cps.skip(0) =~= cps);
        for i in 0..len
            invariant
                len == cps.len(),
                cps == connector_parameters@,
                merged_parameters(input@, cps) =~= params_triples(parameters@)
                    + merged_parameters(input@, cps.skip(i as int)),
        {
            proof {
                assert(cps.skip(i as int).first() == cps[i as int]);
                assert(cps.skip(i as int).drop_first() =~= cps.skip(i + 1));
            }
            let cp = &connector_parameters[i];
            let ghost pre = parameters@;
            match find_last_value(input, &cp.name) {
                Some(value) => {
                    let secret = cp.value_type == <String as StringExecFns>::from_str("secret");
                    parameters.push(
                        Parameter { name: cp.name.clone(), value, secret },
                    );
                    proof {
                        assert(params_triples(parameters@) =~= params_triples(pre) + seq![
                            (cps[i as int].name@, parameters@.last().value@, secret),
                        ]);
                        assert(merged_parameters(input@, cps) =~= params_triples(parameters@)
                            + merged_parameters(input@, cps.skip(i + 1)));
                    }
                },
                None => {
                    proof {
                        assert(merged_parameters(input@, cps) =~= params_triples(parameters@)
                            + merged_parameters(input@, cps.skip(i + 1)));
                    }
                },
            }
        }
        proof {
            assert(cps.skip(len as int) =~= Seq::<ConnectorParameter>::empty());
            assert(merged_parameters(input@, cps.skip(len as int)) =~= Seq::<
                (Seq<char>, Seq<char>, bool),
            >::empty());
        }
        parameters
    }

    /// The validator help line for one connector parameter type.
    pub fn get_validator_help(value_type: &str, option_validator: &Option<
        ConnectorValidator,
    >) -> (r: String)
        ensures
            r@ == validator_help_of(value_type@, *option_validator),
    {
        match option_validator {
            Some(validator) => {
                let t = <String as StringExecFns>::from_str(value_type);
                if t == <String as StringExecFns>::from_str("string") || t == <String as
                    StringExecFns>::from_str("secret") {
                    <String as StringExecFns>::from_str("None (string by default)")
                } else if t == <String as StringExecFns>::from_str("boolean") {
                    <String as StringExecFns>::from_str("(true, True, false, False)")
                } else if t == <String as StringExecFns>::from_str("int") {
                    if validator.min == validator.max {
                        <String as StringExecFns>::from_str("None (any integer without spaces)")
                    } else {
                        let mut r = <String as StringExecFns>::from_str("Min value=");
                        let min_str = crate::strutil::i64_to_dec(validator.min);
                        r.append(min_str.as_str());
                        r.append(" , max value=");
                        let max_str = crate::strutil::i64_to_dec(validator.max);
                        r.append(max_str.as_str());
                        assert(r@ =~= validator_help_of(value_type@, *option_validator));
                        r
                    }
                } else {
                    <String as StringExecFns>::from_str("None (string by default)")
                }
            },
            None => <String as StringExecFns>::from_str("None"),
        }
    }
}

} // verus!
