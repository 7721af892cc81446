use vstd::prelude::*;

use crate::example::Example;
use crate::span::Span;
use crate::str_case::{operate, value_operated, CaseStyle};
use crate::value::{wf, Value};

verus! {

/// The `str camel-case` command.
#[derive(Clone, Debug)]
pub struct SubCommand;

impl SubCommand {
    /// The command's name in the pipeline language.
    pub fn name(&self) -> (r: &'static str)
        ensures
            r@ == "str camel-case"@,
    {
        "str camel-case"
    }

    /// One line on what the command does.
    pub fn usage(&self) -> (r: &'static str)
        ensures
            r@ == "converts a string to camelCase"@,
    {
        "converts a string to camelCase"
    }

    /// The command's worked examples.
    pub fn examples(&self) -> (r: Vec<Example>)
        ensures
            r@.len() == 4,
    {
        let mut es: Vec<Example> = Vec::new();
        es.push(
            Example {
                description: String::from_str("convert a string to camelCase"),
                example: String::from_str(" 'NuShell' | str camel-case"),
                result: Some(Value::test_string("nuShell")),
            },
        );
        es.push(
            Example {
                description: String::from_str("convert a string to camelCase"),
                example: String::from_str("'this-is-the-first-case' | str camel-case"),
                result: Some(Value::test_string("thisIsTheFirstCase")),
            },
        );
        es.push(
            Example {
                description: String::from_str("convert a string to camelCase"),
                example: String::from_str(" 'this_is_the_second_case' | str camel-case"),
                result: Some(Value::test_string("thisIsTheSecondCase")),
            },
        );
        let row = Value::Record {
            cols: vec![String::from_str("lang"), String::from_str("gems")],
            vals: vec![Value::test_string("nuTest"), Value::test_int(100)],
            span: Span::unknown(),
        };
        es.push(
            Example {
                description: String::from_str("convert a column from a table to camelCase"),
                example: String::from_str(
                    "[[lang, gems]; [nu_test, 100]] | str camel-case lang",
                ),
                result: Some(Value::List { vals: vec![row], span: Span::unknown() }),
            },
        );
        es
    }

    /// Runs the command on one value: with no column paths the whole
    /// string is converted; with column paths the named record fields
    /// are.
    pub fn run(&self, input: Value, head: Span, column_paths: &Vec<String>) -> (r: Value)
        requires
            wf(input),
        ensures
            match input {
                Value::List { vals, span } => r matches Value::List { vals: rv, span: rs } && rs
                    == span && rv@.len() == vals@.len() && forall|j: int|
                    0 <= j < vals@.len() ==> value_operated(
                        column_paths@,
                        vals@[j],
                        #[trigger] rv@[j],
                        CaseStyle::Camel,
                        head,
                    ),
                _ => value_operated(column_paths@, input, r, CaseStyle::Camel, head),
            },
    {
        operate(input, CaseStyle::Camel, head, column_paths)
    }
}

} // verus!
