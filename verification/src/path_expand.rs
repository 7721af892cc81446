//! The `path expand` command: a path's absolute form where the
//! filesystem has one, else a strict error or the lexical expansion.
//! The two lookups go through `nu_path` behind trusted wrappers whose
//! results depend on the filesystem and the home directory, so the
//! verified part is the decision among their outcomes.

use vstd::prelude::*;

use crate::error::{ErrView, ShellError};
use crate::example::Example;
use crate::span::Span;
use crate::str_case::action_err_msg;
use crate::value::Value;

verus! {

/// Relies on `nu_path::canonicalize_with`: the result depends on what is
/// on disk, so nothing is promised of it beyond its presence or absence.
#[verifier::external_body]
fn canonicalize_with_str(path: &str, cwd: &str) -> (r: Option<String>) {
    match nu_path::canonicalize_with(path, cwd) {
        Ok(p) => Some(p.to_string_lossy().into_owned()),
        Err(_) => None,
    }
}

/// Relies on `nu_path::expand_path`: tilde and dot components are
/// resolved lexically; the tilde depends on the home directory, so
/// nothing is promised of the result.
#[verifier::external_body]
fn expand_path_str(path: &str) -> (r: String) {
    nu_path::expand_path(path, true).to_string_lossy().into_owned()
}

/// The headline of the strict-mode error.
pub open spec fn expand_err_head() -> Seq<char> {
    "Could not expand path"@
}

/// The explanation of the strict-mode error.
pub open spec fn expand_err_body() -> Seq<char> {
    "could not be expanded (path might not exist, non-final component is not a directory, or other cause)"@
}

/// The decision at the heart of the command: the canonical form wins
/// where the filesystem offered one; otherwise strict mode fails and
/// lenient mode falls back to the lexical expansion.
pub fn resolve_expansion(canonical: Option<String>, fallback: String, strict: bool, span: Span) -> (r:
    Value)
    ensures
        canonical matches Some(p) ==> (r matches Value::Str { val, span: sp } && val == p && sp
            == span),
        canonical is None && strict ==> (r matches Value::Error { error } && error@
            == ErrView::Labeled(expand_err_head(), expand_err_body())),
        canonical is None && !strict ==> (r matches Value::Str { val, span: sp } && val == fallback
            && sp == span),
{
    match canonical {
        Some(p) => Value::Str { val: p, span },
        None => {
            if strict {
                Value::Error {
                    error: ShellError::LabeledError(
                        String::from_str("Could not expand path"),
                        String::from_str(
                            "could not be expanded (path might not exist, non-final component is not a directory, or other cause)",
                        ),
                    ),
                }
            } else {
                Value::Str { val: fallback, span }
            }
        },
    }
}

/// Expands one path against a working directory.  Which branch is taken
/// depends on the filesystem, so the contract fixes the decision among
/// the outcomes: the result is a string, or the strict-mode error.
pub fn expand(path: &String, span: Span, strict: bool, cwd: &String) -> (r: Value)
    ensures
        r matches Value::Error { error } ==> strict && error@ == ErrView::Labeled(
            expand_err_head(),
            expand_err_body(),
        ),
        !strict ==> r matches Value::Str { .. },
        r matches Value::Str { span: sp, .. } ==> sp == span,
{
    let canonical = canonicalize_with_str(path.as_str(), cwd.as_str());
    let fallback = expand_path_str(path.as_str());
    resolve_expansion(canonical, fallback, strict, span)
}

/// How the command maps one value: a string path is expanded (to some
/// string, or the strict error), anything else becomes an error value
/// naming its runtime type.
pub open spec fn expanded(old: Value, new: Value, strict: bool, head: Span) -> bool {
    match old {
        Value::Str { .. } => {
            &&& (new matches Value::Error { error } ==> strict && error@ == ErrView::Labeled(
                expand_err_head(),
                expand_err_body(),
            ))
            &&& (!strict ==> new matches Value::Str { .. })
            &&& (new matches Value::Str { span: sp, .. } ==> sp == head)
        },
        _ => new matches Value::Error { error } && error@ == ErrView::Unsupported(
            action_err_msg(old),
            head,
        ),
    }
}

/// The `path expand` command.
#[derive(Clone, Debug)]
pub struct SubCommand;

impl SubCommand {
    /// The command's name in the pipeline language.
    pub fn name(&self) -> (r: &'static str)
        ensures
            r@ == "path expand"@,
    {
        "path expand"
    }

    /// One line on what the command does.
    pub fn usage(&self) -> (r: &'static str)
        ensures
            r@ == "Try to expand a path to its absolute form"@,
    {
        "Try to expand a path to its absolute form"
    }

    /// The command's worked examples.
    pub fn examples(&self) -> (r: Vec<Example>)
        ensures
            r@.len() == 3,
    {
        let mut es: Vec<Example> = Vec::new();
        es.push(
            Example {
                description: String::from_str("Expand an absolute path"),
                example: String::from_str("'/home/joe/foo/../bar' | path expand"),
                result: Some(Value::test_string("/home/joe/bar")),
            },
        );
        es.push(
            Example {
                description: String::from_str("Expand a path in a column"),
                example: String::from_str("ls | path expand -c [ name ]"),
                result: None,
            },
        );
        es.push(
            Example {
                description: String::from_str("Expand a relative path"),
                example: String::from_str("'foo/../bar' | path expand"),
                result: Some(Value::test_string("bar")),
            },
        );
        es
    }

    /// Runs the command on one value: a table's rows are mapped one by
    /// one, anything else goes through the expansion directly.
    #[verifier::loop_isolation(false)]
    pub fn run(&self, input: Value, head: Span, strict: bool, cwd: &String) -> (r: Value)
        ensures
            match input {
                Value::List { vals, span } => r matches Value::List { vals: rv, span: rs } && rs
                    == span && rv@.len() == vals@.len() && forall|j: int|
                    0 <= j < vals@.len() ==> expanded(vals@[j], #[trigger] rv@[j], strict, head),
                _ => expanded(input, r, strict, head),
            },
    {
        match input {
            Value::List { vals, span } => {
                let ghost vals0 = vals@;
                let n0 = vals.len();
                let mut vals = vals;
                let mut rv: Vec<Value> = Vec::new();
                let mut i: usize = 0;
                while vals.len() > 0
                    invariant
                        vals0.len() == n0,
                        i + vals@.len() == vals0.len(),
                        vals@ == vals0.skip(i as int),
                        rv@.len() == i,
                        forall|j: int|
                            0 <= j < i ==> expanded(vals0[j], #[trigger] rv@[j], strict, head),
                    decreases vals@.len(),
                {
                    let row = vals.remove(0);
                    proof {
                        assert(row == vals0[i as int]);
                        assert(vals@ =~= vals0.skip(i as int + 1));
                    }
                    rv.push(Self::expand_value(row, head, strict, cwd));
                    i = i + 1;
                }
                Value::List { vals: rv, span }
            },
            other => Self::expand_value(other, head, strict, cwd),
        }
    }

    /// Expands one value: a string goes through the path expansion, any
    /// other kind becomes an error value naming its runtime type.
    fn expand_value(v: Value, head: Span, strict: bool, cwd: &String) -> (r: Value)
        ensures
            expanded(v, r, strict, head),
    {
        match &v {
            Value::Str { val, .. } => expand(val, head, strict, cwd),
            _ => {
                let mut msg = String::from_str("Input's type is ");
                let ty = v.get_type();
                msg.append(ty.as_str());
                msg.append(". This command only works with strings.");
                Value::Error { error: ShellError::UnsupportedInput(msg, head) }
            },
        }
    }
}

} // verus!
