//! The `url scheme` command: the scheme part of a URL, or the empty
//! string for text that is no URL.  The parsing itself is the `url`
//! crate's, behind one trusted wrapper.

use vstd::prelude::*;

use crate::error::{ErrView, ShellError};
use crate::example::Example;
use crate::span::Span;
use crate::str_case::action_err_msg;
use crate::value::Value;

verus! {

/// What parsing a text as a URL and reading its scheme yields: the
/// result depends on the characters alone; nothing when the text is no
/// absolute URL.
pub uninterp spec fn url_scheme_of(s: Seq<char>) -> Option<Seq<char>>;

/// Relies on `url::Url::parse` and `url::Url::scheme`: parsing is a pure
/// function of the text, and the scheme is a part of what was parsed.
#[verifier::external_body]
fn parse_scheme(s: &str) -> (r: Option<String>)
    ensures
        match r {
            Some(sch) => url_scheme_of(s@) matches Some(t) && t == sch@,
            None => url_scheme_of(s@) is None,
        },
{
    match url::Url::parse(s) {
        Ok(u) => Some(u.scheme().to_string()),
        Err(_) => None,
    }
}

/// The scheme text a URL string maps to: the parsed scheme, or the empty
/// string when the text does not parse as a URL.
pub open spec fn scheme_text_of(s: Seq<char>) -> Seq<char> {
    match url_scheme_of(s) {
        Some(t) => t,
        None => Seq::empty(),
    }
}

/// How the command maps one value: a string becomes its scheme, anything
/// else an error value naming its runtime type.
pub open spec fn schemed(old: Value, new: Value, head: Span) -> bool {
    match old {
        Value::Str { val, .. } => new matches Value::Str { val: out, span } && out@
            == scheme_text_of(val@) && span == head,
        _ => new matches Value::Error { error } && error@ == ErrView::Unsupported(
            action_err_msg(old),
            head,
        ),
    }
}

/// Extracts the scheme of one string value; any other kind comes back as
/// an error value naming its runtime type.
pub fn action(input: &Value, head: Span) -> (r: Value)
    ensures
        schemed(*input, r, head),
{
    match input {
        Value::Str { val, .. } => {
            let sch = match parse_scheme(val.as_str()) {
                Some(s) => s,
                None => String::new(),
            };
            Value::Str { val: sch, span: head }
        },
        _ => {
            let mut msg = String::from_str("Input's type is ");
            let ty = input.get_type();
            msg.append(ty.as_str());
            msg.append(". This command only works with strings.");
            Value::Error { error: ShellError::UnsupportedInput(msg, head) }
        },
    }
}

/// The `url scheme` command.
#[derive(Clone, Debug)]
pub struct SubCommand;

impl SubCommand {
    /// The command's name in the pipeline language.
    pub fn name(&self) -> (r: &'static str)
        ensures
            r@ == "url scheme"@,
    {
        "url scheme"
    }

    /// One line on what the command does.
    pub fn usage(&self) -> (r: &'static str)
        ensures
            r@ == "gets the scheme (eg http, file) of a url"@,
    {
        "gets the scheme (eg http, file) of a url"
    }

    /// The command's worked examples.
    pub fn examples(&self) -> (r: Vec<Example>)
        ensures
            r@.len() == 2,
    {
        let mut es: Vec<Example> = Vec::new();
        es.push(
            Example {
                description: String::from_str("Get scheme of a url"),
                example: String::from_str("echo 'http://www.example.com' | url scheme"),
                result: Some(Value::test_string("http")),
            },
        );
        es.push(
            Example {
                description: String::from_str("You get an empty string if there is no scheme"),
                example: String::from_str("echo 'test' | url scheme"),
                result: Some(Value::test_string("")),
            },
        );
        es
    }

    /// Runs the command on one value: a table's rows are mapped one by
    /// one, anything else goes through the scheme extraction directly.
    #[verifier::loop_isolation(false)]
    pub fn run(&self, input: Value, head: Span) -> (r: Value)
        ensures
            match input {
                Value::List { vals, span } => r matches Value::List { vals: rv, span: rs } && rs
                    == span && rv@.len() == vals@.len() && forall|j: int|
                    0 <= j < vals@.len() ==> schemed(vals@[j], #[trigger] rv@[j], head),
                _ => schemed(input, r, head),
            },
    {
        match input {
            Value::List { vals, span } => {
                let ghost vals0 = vals@;
                let n0 = vals.len();
                let mut vals = vals;
                let mut rv: Vec<Value> = Vec::new();
                let mut i: usize = 0;
                while vals.len() > 0
                    invariant
                        vals0.len() == n0,
                        i + vals@.len() == vals0.len(),
                        vals@ == vals0.skip(i as int),
                        rv@.len() == i,
                        forall|j: int| 0 <= j < i ==> schemed(vals0[j], #[trigger] rv@[j], head),
                    decreases vals@.len(),
                {
                    let row = vals.remove(0);
                    proof {
                        assert(row == vals0[i as int]);
                        assert(vals@ =~= vals0.skip(i as int + 1));
                    }
                    rv.push(action(&row, head));
                    i = i + 1;
                }
                Value::List { vals: rv, span }
            },
            other => action(&other, head),
        }
    }
}

} // verus!
