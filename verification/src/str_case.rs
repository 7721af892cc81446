//! The shared core of the string case commands: one action applied to a
//! whole string value, or to named columns of a record or of each row of
//! a table.  The case conversions themselves come from the `inflector`
//! crate through two trusted wrappers.

use vstd::prelude::*;

use crate::error::{ErrView, ShellError};
use crate::span::Span;
use crate::value::{type_of, wf, Value};

verus! {

/// The case conversions the string commands offer.
#[derive(Clone, Copy, Debug, PartialEq, Eq, Structural)]
pub enum CaseStyle {
    Camel,
    Pascal,
}

/// What inflector's camel-casing yields for a text: the result depends on
/// the characters alone.
pub uninterp spec fn camel_of(s: Seq<char>) -> Seq<char>;

/// What inflector's pascal-casing yields for a text: the result depends
/// on the characters alone.
pub uninterp spec fn pascal_of(s: Seq<char>) -> Seq<char>;

/// Relies on inflector's `to_camel_case`: a pure function of the text.
#[verifier::external_body]
fn to_camel_case(s: &str) -> (r: String)
    ensures
        r@ == camel_of(s@),
{
    inflector::cases::camelcase::to_camel_case(s)
}

/// Relies on inflector's `to_pascal_case`: a pure function of the text.
#[verifier::external_body]
fn to_pascal_case(s: &str) -> (r: String)
    ensures
        r@ == pascal_of(s@),
{
    inflector::cases::pascalcase::to_pascal_case(s)
}

/// The image of one case conversion.
pub open spec fn case_of(style: CaseStyle, s: Seq<char>) -> Seq<char> {
    match style {
        CaseStyle::Camel => camel_of(s),
        CaseStyle::Pascal => pascal_of(s),
    }
}

/// The message of the error for a non-string value handed to the action.
pub open spec fn action_err_msg(v: Value) -> Seq<char> {
    "Input's type is "@ + type_of(v) + ". This command only works with strings."@
}

/// The message of the error for a non-record value handed to a column
/// update.
pub open spec fn col_err_msg(v: Value) -> Seq<char> {
    "Input's type is "@ + type_of(v) + ". This command only works with records."@
}

/// How the action maps one value: a string is case-converted and takes
/// the command's span; anything else becomes an error value naming its
/// runtime type.
pub open spec fn acted(old: Value, new: Value, style: CaseStyle, head: Span) -> bool {
    match old {
        Value::Str { val, .. } => new matches Value::Str { val: out, span } && out@ == case_of(
            style,
            val@,
        ) && span == head,
        _ => new matches Value::Error { error } && error@ == ErrView::Unsupported(
            action_err_msg(old),
            head,
        ),
    }
}

/// Whether one of the named columns is `key`.
pub open spec fn key_named(columns: Seq<String>, key: Seq<char>) -> bool {
    exists|i: int| 0 <= i < columns.len() && (#[trigger] columns[i])@ == key
}

/// How one record field fares under a column update: a named column goes
/// through the action, every other field is kept as it is.
pub open spec fn field_updated(
    columns: Seq<String>,
    key: Seq<char>,
    old: Value,
    new: Value,
    style: CaseStyle,
    head: Span,
) -> bool {
    if key_named(columns, key) {
        acted(old, new, style, head)
    } else {
        new == old
    }
}

/// How a whole record fares under a column update: same keys, same span,
/// each field updated in place.
pub open spec fn rec_updated(
    columns: Seq<String>,
    old: Value,
    new: Value,
    style: CaseStyle,
    head: Span,
) -> bool {
    old matches Value::Record { cols, vals, span } ==> (new matches Value::Record {
        cols: rc,
        vals: rv,
        span: rs,
    } && rc == cols && rs == span && rv@.len() == vals@.len() && forall|j: int|
        0 <= j < vals@.len() ==> field_updated(
            columns,
            cols@[j]@,
            vals@[j],
            #[trigger] rv@[j],
            style,
            head,
        ))
}

/// How one row of a table fares under a column update: a record is
/// updated column-wise, anything else becomes an error value.
pub open spec fn row_updated(
    columns: Seq<String>,
    old: Value,
    new: Value,
    style: CaseStyle,
    head: Span,
) -> bool {
    match old {
        Value::Record { .. } => rec_updated(columns, old, new, style, head),
        _ => new matches Value::Error { error } && error@ == ErrView::Unsupported(
            col_err_msg(old),
            head,
        ),
    }
}

/// How one value fares under the command: with no columns named the
/// action applies to it whole; with columns named it is treated as a
/// record to update.
pub open spec fn value_operated(
    columns: Seq<String>,
    old: Value,
    new: Value,
    style: CaseStyle,
    head: Span,
) -> bool {
    if columns.len() == 0 {
        acted(old, new, style, head)
    } else {
        row_updated(columns, old, new, style, head)
    }
}

/// Applies the conversion to one string value; any other kind comes back
/// as an error value naming its runtime type.
pub fn action(input: &Value, style: CaseStyle, head: Span) -> (r: Value)
    ensures
        acted(*input, r, style, head),
{
    match input {
        Value::Str { val, .. } => {
            let converted = match style {
                CaseStyle::Camel => to_camel_case(val.as_str()),
                CaseStyle::Pascal => to_pascal_case(val.as_str()),
            };
            Value::Str { val: converted, span: head }
        },
        _ => {
            let mut msg = String::from_str("Input's type is ");
            let ty = input.get_type();
            msg.append(ty.as_str());
            msg.append(". This command only works with strings.");
            Value::Error { error: ShellError::UnsupportedInput(msg, head) }
        },
    }
}

/// Whether `key` is one of the named columns.
#[verifier::loop_isolation(false)]
fn has_column(columns: &Vec<String>, key: &String) -> (b: bool)
    ensures
        b == key_named(columns@, key@),
{
    let n = columns.len();
    let mut i: usize = 0;
    while i < n
        invariant
            0 <= i <= n,
            forall|j: int| 0 <= j < i ==> (#[trigger] columns@[j])@ != key@,
        decreases n - i,
    {
        if columns[i].as_str().eq(key.as_str()) {
            assert(key_named(columns@, key@)) by {
                assert(0 <= (i as int) < columns@.len() && (columns@[i as int])@ == key@);
            }
            return true;
        }
        i = i + 1;
    }
    false
}

/// Updates the named columns of one record through the action, keeping
/// every other field and the key order as they are.
#[verifier::loop_isolation(false)]
fn update_record(
    cols: Vec<String>,
    vals: Vec<Value>,
    span: Span,
    style: CaseStyle,
    head: Span,
    columns: &Vec<String>,
) -> (r: Value)
    requires
        cols@.len() == vals@.len(),
    ensures
        r matches Value::Record { cols: rc, vals: rv, span: rs } && rc == cols && rs == span
            && rv@.len() == vals@.len() && forall|j: int|
            0 <= j < vals@.len() ==> field_updated(
                columns@,
                cols@[j]@,
                vals@[j],
                #[trigger] rv@[j],
                style,
                head,
            ),
{
    let ghost vals0 = vals@;
    let n0 = vals.len();
    let mut vals = vals;
    let mut rv: Vec<Value> = Vec::new();
    let mut i: usize = 0;
    while vals.len() > 0
        invariant
            vals0.len() == n0,
            i + vals@.len() == vals0.len(),
            vals@ == vals0.skip(i as int),
            rv@.len() == i,
            forall|j: int|
                0 <= j < i ==> field_updated(
                    columns@,
                    cols@[j]@,
                    vals0[j],
                    #[trigger] rv@[j],
                    style,
                    head,
                ),
        decreases vals@.len(),
    {
        let val = vals.remove(0);
        proof {
            assert(val == vals0[i as int]);
            assert(vals@ =~= vals0.skip(i as int + 1));
        }
        if has_column(columns, &cols[i]) {
            rv.push(action(&val, style, head));
        } else {
            rv.push(val);
        }
        i = i + 1;
    }
    Value::Record { cols, vals: rv, span }
}

/// Operates on one value that is no list: the action whole, or a
/// record updated column by column.
fn operate_value(v: Value, style: CaseStyle, head: Span, column_paths: &Vec<String>) -> (r: Value)
    requires
        wf(v),
    ensures
        value_operated(column_paths@, v, r, style, head),
{
    if column_paths.len() == 0 {
        return action(&v, style, head);
    }
    match v {
        Value::Record { cols, vals, span } => update_record(
            cols,
            vals,
            span,
            style,
            head,
            column_paths,
        ),
        other => {
            let mut msg = String::from_str("Input's type is ");
            let ty = other.get_type();
            msg.append(ty.as_str());
            msg.append(". This command only works with records.");
            Value::Error { error: ShellError::UnsupportedInput(msg, head) }
        },
    }
}

/// The shared command core: a table is worked row by row, as the
/// pipeline streams it; any other value is worked whole.  With no
/// columns named the action applies to each value; with columns named
/// the named record fields go through it and the rest stay untouched.
#[verifier::loop_isolation(false)]
pub fn operate(input: Value, style: CaseStyle, head: Span, column_paths: &Vec<String>) -> (r:
    Value)
    requires
        wf(input),
    ensures
        match input {
            Value::List { vals, span } => r matches Value::List { vals: rv, span: rs } && rs
                == span && rv@.len() == vals@.len() && forall|j: int|
                0 <= j < vals@.len() ==> value_operated(
                    column_paths@,
                    vals@[j],
                    #[trigger] rv@[j],
                    style,
                    head,
                ),
            _ => value_operated(column_paths@, input, r, style, head),
        },
{
    match input {
        Value::List { vals, span } => {
            let ghost vals0 = vals@;
            let n0 = vals.len();
            let mut vals = vals;
            let mut rv: Vec<Value> = Vec::new();
            let mut i: usize = 0;
            while vals.len() > 0
                invariant
                    vals0.len() == n0,
                    i + vals@.len() == vals0.len(),
                    vals@ == vals0.skip(i as int),
                    rv@.len() == i,
                    forall|j: int| 0 <= j < vals0.len() ==> wf(#[trigger] vals0[j]),
                    forall|j: int|
                        0 <= j < i ==> value_operated(
                            column_paths@,
                            vals0[j],
                            #[trigger] rv@[j],
                            style,
                            head,
                        ),
                decreases vals@.len(),
            {
                let row = vals.remove(0);
                proof {
                    assert(row == vals0[i as int]);
                    assert(vals@ =~= vals0.skip(i as int + 1));
                }
                rv.push(operate_value(row, style, head, column_paths));
                i = i + 1;
            }
            Value::List { vals: rv, span }
        },
        other => operate_value(other, style, head, column_paths),
    }
}

} // verus!
