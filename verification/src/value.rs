use vstd::prelude::*;

use crate::error::ShellError;
use crate::span::Span;

verus! {

/// One member of a cell path: either a record key or a list index.
#[derive(Clone, Debug, PartialEq, Eq)]
pub enum PathMember {
    Str { val: String, span: Span },
    Int { val: i64, span: Span },
}

/// The dynamic value that flows through the host pipeline: a closed tagged
/// union with one case per kind of data.
///
/// A few kinds deserve a note on their payload here:
/// - `Float` carries the number's decimal rendering, because this library
///   holds no floating-point values itself; the host renders the number
///   before handing it in.
/// - `Date` carries the host's canonical textual rendering of the date;
///   the conversion only ever passes that text through.
/// - `Duration` carries the raw count of nanoseconds.
/// - `Range`, `Block` and `Custom` are opaque to the conversion, which maps
///   them to fixed placeholder strings, so they carry no payload.
/// - `Record` keeps its keys in `cols` and its values in `vals`, two
///   sequences of the same length, correlated by position.
#[derive(Debug, PartialEq, Eq)]
pub enum Value {
    Bool { val: bool, span: Span },
    Int { val: i64, span: Span },
    Float { val: String, span: Span },
    Str { val: String, span: Span },
    Filesize { val: i64, span: Span },
    Duration { val: i64, span: Span },
    Date { val: String, span: Span },
    Range { span: Span },
    List { vals: Vec<Value>, span: Span },
    Record { cols: Vec<String>, vals: Vec<Value>, span: Span },
    Block { span: Span },
    Nothing { span: Span },
    Error { error: ShellError },
    Binary { val: Vec<u8>, span: Span },
    CellPath { members: Vec<PathMember>, span: Span },
    Custom { span: Span },
}

/// Well-formedness of a value tree: every record pairs as many keys as
/// values and its keys are distinct, at every depth.
pub open spec fn wf(v: Value) -> bool
    decreases v,
{
    match v {
        Value::List { vals, .. } => forall|i: int|
            0 <= i < vals@.len() ==> wf(#[trigger] vals@[i]),
        Value::Record { cols, vals, .. } => {
            &&& cols@.len() == vals@.len()
            &&& forall|i: int, j: int|
                0 <= i < j < cols@.len() ==> (#[trigger] cols@[i])@ != (#[trigger] cols@[j])@
            &&& forall|i: int| 0 <= i < vals@.len() ==> wf(#[trigger] vals@[i])
        },
        _ => true,
    }
}

/// The name of a value's runtime type, as named in shape errors.
pub open spec fn type_of(v: Value) -> Seq<char> {
    match v {
        Value::Bool { .. } => "bool"@,
        Value::Int { .. } => "int"@,
        Value::Float { .. } => "float"@,
        Value::Str { .. } => "string"@,
        Value::Filesize { .. } => "filesize"@,
        Value::Duration { .. } => "duration"@,
        Value::Date { .. } => "date"@,
        Value::Range { .. } => "range"@,
        Value::List { .. } => "list"@,
        Value::Record { .. } => "record"@,
        Value::Block { .. } => "block"@,
        Value::Nothing { .. } => "nothing"@,
        Value::Error { .. } => "error"@,
        Value::Binary { .. } => "binary"@,
        Value::CellPath { .. } => "cell path"@,
        Value::Custom { .. } => "custom value"@,
    }
}

/// The span a value carries; unknown for an error, which carries its own
/// location inside the error instead.
pub open spec fn span_of(v: Value) -> Span {
    match v {
        Value::Bool { span, .. } => span,
        Value::Int { span, .. } => span,
        Value::Float { span, .. } => span,
        Value::Str { span, .. } => span,
        Value::Filesize { span, .. } => span,
        Value::Duration { span, .. } => span,
        Value::Date { span, .. } => span,
        Value::Range { span } => span,
        Value::List { span, .. } => span,
        Value::Record { span, .. } => span,
        Value::Block { span } => span,
        Value::Nothing { span } => span,
        Value::Error { .. } => Span::unknown_spec(),
        Value::Binary { span, .. } => span,
        Value::CellPath { span, .. } => span,
        Value::Custom { span } => span,
    }
}

impl Value {
    /// The name of this value's runtime type.
    pub fn get_type(&self) -> (r: String)
        ensures
            r@ == type_of(*self),
    {
        match self {
            Value::Bool { .. } => String::from_str("bool"),
            Value::Int { .. } => String::from_str("int"),
            Value::Float { .. } => String::from_str("float"),
            Value::Str { .. } => String::from_str("string"),
            Value::Filesize { .. } => String::from_str("filesize"),
            Value::Duration { .. } => String::from_str("duration"),
            Value::Date { .. } => String::from_str("date"),
            Value::Range { .. } => String::from_str("range"),
            Value::List { .. } => String::from_str("list"),
            Value::Record { .. } => String::from_str("record"),
            Value::Block { .. } => String::from_str("block"),
            Value::Nothing { .. } => String::from_str("nothing"),
            Value::Error { .. } => String::from_str("error"),
            Value::Binary { .. } => String::from_str("binary"),
            Value::CellPath { .. } => String::from_str("cell path"),
            Value::Custom { .. } => String::from_str("custom value"),
        }
    }

    /// The span this value carries.
    pub fn span(&self) -> (s: Span)
        ensures
            s == span_of(*self),
    {
        match self {
            Value::Bool { span, .. } => *span,
            Value::Int { span, .. } => *span,
            Value::Float { span, .. } => *span,
            Value::Str { span, .. } => *span,
            Value::Filesize { span, .. } => *span,
            Value::Duration { span, .. } => *span,
            Value::Date { span, .. } => *span,
            Value::Range { span } => *span,
            Value::List { span, .. } => *span,
            Value::Record { span, .. } => *span,
            Value::Block { span } => *span,
            Value::Nothing { span } => *span,
            Value::Error { .. } => Span::unknown(),
            Value::Binary { span, .. } => *span,
            Value::CellPath { span, .. } => *span,
            Value::Custom { span } => *span,
        }
    }

    /// A string value with an unknown span, as tests construct them.
    pub fn test_string(s: &str) -> (v: Value)
        ensures
            v matches Value::Str { val, span } && val@ == s@ && span == Span::unknown_spec(),
    {
        Value::Str { val: String::from_str(s), span: Span::unknown() }
    }

    /// An integer value with an unknown span, as tests construct them.
    pub fn test_int(i: i64) -> (v: Value)
        ensures
            v == (Value::Int { val: i, span: Span::unknown_spec() }),
    {
        Value::Int { val: i, span: Span::unknown() }
    }

    /// The empty value.
    pub fn nothing(span: Span) -> (v: Value)
        ensures
            v == (Value::Nothing { span }),
    {
        Value::Nothing { span }
    }
}

} // verus!
