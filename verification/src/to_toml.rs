//! The conversion of a dynamic value tree into a TOML document.
//!
//! `helper` classifies one value: scalars map to the matching document
//! kind, a handful of opaque kinds degrade to fixed placeholder strings,
//! records become tables field by field, lists become arrays element by
//! element with the single-table unwrap rule applied, and an error found
//! anywhere aborts the walk and comes back unchanged.  `value_to_toml_value`
//! admits only document-shaped roots, and `to_toml` renders the finished
//! tree through the trusted emitter.  The walk recurses as deep as the
//! input nests, with no depth guard.

use vstd::prelude::*;

use crate::doc::{doc_model, docs_model, DocModel, DocValue};
use crate::error::{ErrView, ShellError};
use crate::example::Example;
use crate::span::Span;
use crate::text::{dec_str, fmt_i64};
use crate::toml_text::{parse_toml, render_table, toml_doc_of, toml_parses, toml_text_of};
use crate::value::{span_of, type_of, wf, PathMember, Value};

verus! {

/// The first error value in the tree, walking record fields and list
/// elements in their document order.
pub open spec fn first_error(v: Value) -> Option<ShellError>
    decreases v, 0int,
{
    match v {
        Value::Error { error } => Some(error),
        Value::List { vals, .. } => first_error_from(vals@, 0),
        Value::Record { vals, .. } => first_error_from(vals@, 0),
        _ => None,
    }
}

/// The first error value at or after position `i` of a sequence of
/// values.
pub open spec fn first_error_from(s: Seq<Value>, i: int) -> Option<ShellError>
    decreases s, s.len() - i,
{
    if i < 0 || i >= s.len() {
        None
    } else {
        match first_error(s[i]) {
            Some(e) => Some(e),
            None => first_error_from(s, i + 1),
        }
    }
}

/// The image of one cell-path member: keys become strings, indices become
/// integers.
pub open spec fn member_doc(m: PathMember) -> DocModel {
    match m {
        PathMember::Str { val, .. } => DocModel::Str(val@),
        PathMember::Int { val, .. } => DocModel::Int(val),
    }
}

/// The single-table unwrap rule: an array of exactly one table is
/// replaced by that table; every other array stays an array.
pub open spec fn unwrap_single(ds: Seq<DocModel>) -> DocModel {
    if ds.len() == 1 && ds[0] is Table {
        ds[0]
    } else {
        DocModel::Arr(ds)
    }
}

/// The images of a list's elements.
pub open spec fn elems_doc_of(s: Seq<Value>) -> Seq<DocModel>
    decreases s, 0int,
{
    Seq::new(
        s.len(),
        |i: int|
            if 0 <= i < s.len() {
                doc_of(s[i])
            } else {
                DocModel::Bool(false)
            },
    )
}

/// The entries of the table a record converts to: the keys in their
/// original order, each paired with its converted value.
pub open spec fn record_entries_of(cols: Seq<String>, vals: Seq<Value>) -> Seq<
    (Seq<char>, DocModel),
>
    decreases vals, 0int,
{
    Seq::new(
        cols.len(),
        |i: int|
            if 0 <= i < cols.len() && i < vals.len() {
                (cols[i]@, doc_of(vals[i]))
            } else {
                (Seq::empty(), DocModel::Bool(false))
            },
    )
}

/// What one error-free value converts to: the classification of the
/// TOML conversion, one case per kind.  On a value that holds an error
/// the conversion never reaches this point, and the result is arbitrary.
pub open spec fn doc_of(v: Value) -> DocModel
    decreases v, 2int,
{
    match v {
        Value::Bool { val, .. } => DocModel::Bool(val),
        Value::Int { val, .. } => DocModel::Int(val),
        Value::Float { val, .. } => DocModel::Float(val@),
        Value::Str { val, .. } => DocModel::Str(val@),
        Value::Filesize { val, .. } => DocModel::Int(val),
        Value::Duration { val, .. } => DocModel::Str(dec_str(val as int)),
        Value::Date { val, .. } => DocModel::Str(val@),
        Value::Range { .. } => DocModel::Str("<Range>"@),
        Value::List { vals, .. } => unwrap_single(elems_doc_of(vals@)),
        Value::Record { cols, vals, .. } => DocModel::Table(record_entries_of(cols@, vals@)),
        Value::Block { .. } => DocModel::Str("<Block>"@),
        Value::Nothing { .. } => DocModel::Str("<Nothing>"@),
        Value::Error { .. } => DocModel::Str(Seq::empty()),
        Value::Binary { val, .. } => DocModel::Arr(
            Seq::new(val@.len(), |i: int| DocModel::Int(val@[i] as i64)),
        ),
        Value::CellPath { members, .. } => DocModel::Arr(
            Seq::new(members@.len(), |i: int| member_doc(members@[i])),
        ),
        Value::Custom { .. } => DocModel::Str("<Custom Value>"@),
    }
}

/// Finds the first error value in the tree, in document order.
pub fn find_error(v: &Value) -> (r: Option<ShellError>)
    ensures
        r == first_error(*v),
    decreases v,
{
    match v {
        Value::Error { error } => Some(error.dup()),
        Value::List { vals, .. } => find_error_in(vals),
        Value::Record { vals, .. } => find_error_in(vals),
        _ => None,
    }
}

/// Finds the first error value in a sequence of values.
#[verifier::loop_isolation(false)]
fn find_error_in(vals: &Vec<Value>) -> (r: Option<ShellError>)
    ensures
        r == first_error_from(vals@, 0),
    decreases vals@,
{
    let n = vals.len();
    let mut i: usize = 0;
    while i < n
        invariant
            0 <= i <= n,
            first_error_from(vals@, 0) == first_error_from(vals@, i as int),
        decreases n - i,
    {
        let e = find_error(&vals[i]);
        if e.is_some() {
            return e;
        }
        i = i + 1;
    }
    None
}

/// Converts one cell-path member.
fn member_to_doc(m: &PathMember) -> (r: DocValue)
    ensures
        doc_model(r) == member_doc(*m),
{
    match m {
        PathMember::Str { val, .. } => DocValue::Str(val.clone()),
        PathMember::Int { val, .. } => DocValue::Int(*val),
    }
}

/// The single-table unwrap rule as code: an array of exactly one table
/// becomes that table; every other array is returned as a genuine array.
pub fn unwrap_single_table(items: Vec<DocValue>) -> (r: DocValue)
    ensures
        doc_model(r) == unwrap_single(docs_model(items@)),
{
    let single_table = items.len() == 1 && (match &items[0] {
        DocValue::Table(..) => true,
        _ => false,
    });
    if single_table {
        let mut items = items;
        match items.pop() {
            Some(d) => d,
            None => DocValue::Array(items),
        }
    } else {
        proof {
            assert(doc_model(DocValue::Array(items)) matches DocModel::Arr(ds) && ds =~= docs_model(
                items@,
            ));
        }
        DocValue::Array(items)
    }
}

/// Converts a list's elements in order; the first failing element aborts
/// the whole list.
#[verifier::loop_isolation(false)]
pub fn toml_list(input: &Vec<Value>) -> (r: Result<Vec<DocValue>, ShellError>)
    requires
        forall|i: int| 0 <= i < input@.len() ==> wf(#[trigger] input@[i]),
    ensures
        first_error_from(input@, 0) matches Some(e) ==> r == Err::<Vec<DocValue>, ShellError>(e),
        first_error_from(input@, 0) is None ==> (r matches Ok(ds) && docs_model(ds@)
            =~= elems_doc_of(input@)),
    decreases input@,
{
    let n = input.len();
    let mut out: Vec<DocValue> = Vec::new();
    let mut i: usize = 0;
    while i < n
        invariant
            0 <= i <= n,
            out@.len() == i,
            first_error_from(input@, 0) == first_error_from(input@, i as int),
            forall|j: int|
                0 <= j < i ==> doc_model(#[trigger] out@[j]) == doc_of(input@[j]),
        decreases n - i,
    {
        match helper(&input[i]) {
            Ok(d) => {
                out.push(d);
            },
            Err(e) => {
                return Err(e);
            },
        }
        i = i + 1;
    }
    proof {
        assert(docs_model(out@) =~= elems_doc_of(input@));
    }
    Ok(out)
}

/// Converts one value, recursively; this is the classification step,
/// which a root reaches only through `value_to_toml_value`.  An error
/// value anywhere below
/// aborts the conversion and is handed back unchanged; on an error-free
/// value the result is exactly the classification `doc_of` describes.
#[verifier::loop_isolation(false)]
pub fn helper(v: &Value) -> (r: Result<DocValue, ShellError>)
    requires
        wf(*v),
    ensures
        first_error(*v) matches Some(e) ==> r == Err::<DocValue, ShellError>(e),
        first_error(*v) is None ==> (r matches Ok(d) && doc_model(d) == doc_of(*v)),
    decreases v,
{
    match v {
        Value::Bool { val, .. } => Ok(DocValue::Bool(*val)),
        Value::Int { val, .. } => Ok(DocValue::Int(*val)),
        Value::Float { val, .. } => Ok(DocValue::Float(val.clone())),
        Value::Str { val, .. } => Ok(DocValue::Str(val.clone())),
        Value::Filesize { val, .. } => Ok(DocValue::Int(*val)),
        Value::Duration { val, .. } => Ok(DocValue::Str(fmt_i64(*val))),
        Value::Date { val, .. } => Ok(DocValue::Str(val.clone())),
        Value::Range { .. } => Ok(DocValue::Str(String::from_str("<Range>"))),
        Value::List { vals, .. } => match toml_list(vals) {
            Ok(items) => {
                proof {
                    assert(docs_model(items@) == elems_doc_of(vals@));
                }
                Ok(unwrap_single_table(items))
            },
            Err(e) => Err(e),
        },
        Value::Record { cols, vals, .. } => {
            let n = cols.len();
            let mut entries: Vec<(String, DocValue)> = Vec::new();
            let mut i: usize = 0;
            while i < n
                invariant
                    0 <= i <= n,
                    entries@.len() == i,
                    first_error_from(vals@, 0) == first_error_from(vals@, i as int),
                    forall|j: int|
                        0 <= j < i ==> (#[trigger] entries@[j]).0@ == cols@[j]@ && doc_model(
                            entries@[j].1,
                        ) == doc_of(vals@[j]),
                decreases n - i,
            {
                match helper(&vals[i]) {
                    Ok(d) => {
                        entries.push((cols[i].clone(), d));
                    },
                    Err(e) => {
                        return Err(e);
                    },
                }
                i = i + 1;
            }
            proof {
                assert(doc_model(DocValue::Table(entries)) matches DocModel::Table(s) && s
                    =~= record_entries_of(cols@, vals@));
            }
            Ok(DocValue::Table(entries))
        },
        Value::Block { .. } => Ok(DocValue::Str(String::from_str("<Block>"))),
        Value::Nothing { .. } => Ok(DocValue::Str(String::from_str("<Nothing>"))),
        Value::Error { error } => Err(error.dup()),
        Value::Binary { val, .. } => {
            let n = val.len();
            let mut out: Vec<DocValue> = Vec::new();
            let mut i: usize = 0;
            while i < n
                invariant
                    0 <= i <= n,
                    out@.len() == i,
                    forall|j: int|
                        0 <= j < i ==> doc_model(#[trigger] out@[j]) == DocModel::Int(
                            val@[j] as i64,
                        ),
                decreases n - i,
            {
                out.push(DocValue::Int(val[i] as i64));
                i = i + 1;
            }
            proof {
                assert(doc_model(DocValue::Array(out)) matches DocModel::Arr(ds) && ds
                    =~= docs_model(out@));
                assert(doc_of(*v) matches DocModel::Arr(ds2) && ds2 =~= docs_model(out@));
            }
            Ok(DocValue::Array(out))
        },
        Value::CellPath { members, .. } => {
            let n = members.len();
            let mut out: Vec<DocValue> = Vec::new();
            let mut i: usize = 0;
            while i < n
                invariant
                    0 <= i <= n,
                    out@.len() == i,
                    forall|j: int|
                        0 <= j < i ==> doc_model(#[trigger] out@[j]) == member_doc(members@[j]),
                decreases n - i,
            {
                out.push(member_to_doc(&members[i]));
                i = i + 1;
            }
            proof {
                assert(doc_model(DocValue::Array(out)) matches DocModel::Arr(ds) && ds
                    =~= docs_model(out@));
                assert(doc_of(*v) matches DocModel::Arr(ds2) && ds2 =~= docs_model(out@));
            }
            Ok(DocValue::Array(out))
        },
        Value::Custom { .. } => Ok(DocValue::Str(String::from_str("<Custom Value>"))),
    }
}

/// Whether every element of a sequence is a record.
pub open spec fn all_records(s: Seq<Value>) -> bool {
    forall|i: int| 0 <= i < s.len() ==> (#[trigger] s[i]) is Record
}

/// The message of the shape error for a root value of the wrong kind.
pub open spec fn shape_msg(v: Value) -> Seq<char> {
    type_of(v) + " is not a valid top-level TOML"@
}

/// The message of the shape error for a root list that is no table.
pub open spec fn list_shape_msg() -> Seq<char> {
    "Expected a table with TOML-compatible structure from pipeline"@
}

/// The message of the error for a root string that is no TOML document.
pub open spec fn reparse_msg() -> Seq<char> {
    "unable to de-serialize string to TOML"@
}

/// What converting a root value yields: an error in the tree comes back
/// first; then a record or a non-empty list of records converts, a string
/// reparses as a document, and every other shape is refused.
pub open spec fn top_doc_of(v: Value) -> Result<DocModel, ErrView> {
    match first_error(v) {
        Some(e) => Err(e@),
        None => match v {
            Value::Record { .. } => Ok(doc_of(v)),
            Value::List { vals, span } => if vals@.len() > 0 && all_records(vals@) {
                Ok(doc_of(v))
            } else {
                Err(ErrView::Unsupported(list_shape_msg(), span))
            },
            Value::Str { val, span } => if toml_parses(val@) {
                Ok(toml_doc_of(val@))
            } else {
                Err(ErrView::Unsupported(reparse_msg(), span))
            },
            _ => Err(ErrView::Unsupported(shape_msg(v), span_of(v))),
        },
    }
}

/// Whether every element of a list is a record.
#[verifier::loop_isolation(false)]
fn all_records_check(vals: &Vec<Value>) -> (b: bool)
    ensures
        b == all_records(vals@),
{
    let n = vals.len();
    let mut i: usize = 0;
    while i < n
        invariant
            0 <= i <= n,
            forall|j: int| 0 <= j < i ==> (#[trigger] vals@[j]) is Record,
        decreases n - i,
    {
        match &vals[i] {
            Value::Record { .. } => {},
            _ => {
                return false;
            },
        }
        i = i + 1;
    }
    true
}

/// Admits only document-shaped roots: an error anywhere in the tree is
/// propagated unchanged; a record and a non-empty list of records are
/// converted; a string is reparsed as an embedded document; every other
/// root shape fails at once, with an error naming the value's runtime
/// type.
pub fn value_to_toml_value(v: &Value) -> (r: Result<DocValue, ShellError>)
    requires
        wf(*v),
    ensures
        first_error(*v) matches Some(e) ==> r == Err::<DocValue, ShellError>(e),
        match r {
            Ok(d) => top_doc_of(*v) matches Ok(m) && doc_model(d) == m,
            Err(e) => top_doc_of(*v) matches Err(ev) && e@ == ev,
        },
{
    match find_error(v) {
        Some(e) => Err(e),
        None => match v {
            Value::Record { .. } => helper(v),
            Value::List { vals, span } => {
                if vals.len() > 0 && all_records_check(vals) {
                    helper(v)
                } else {
                    Err(
                        ShellError::UnsupportedInput(
                            String::from_str(
                                "Expected a table with TOML-compatible structure from pipeline",
                            ),
                            *span,
                        ),
                    )
                }
            },
            Value::Str { val, span } => match parse_toml(val.as_str()) {
                Some(d) => Ok(d),
                None => Err(
                    ShellError::UnsupportedInput(
                        String::from_str("unable to de-serialize string to TOML"),
                        *span,
                    ),
                ),
            },
            _ => {
                let mut msg = v.get_type();
                msg.append(" is not a valid top-level TOML");
                Err(ShellError::UnsupportedInput(msg, v.span()))
            },
        },
    }
}

/// Wraps a finished document value for the pipeline: a table root renders
/// to TOML text; any other root cannot head a document, and comes back as
/// an error value naming the input's runtime type, as the pipeline
/// surfaces it.
pub fn toml_into_pipeline_data(toml_value: &DocValue, value_type: String, span: Span) -> (r:
    Result<Value, ShellError>)
    ensures
        doc_model(*toml_value) matches DocModel::Table(t) ==> (r matches Ok(val) && (
        val matches Value::Str { val: text, span: sp } && text@ == toml_text_of(t) && sp == span)),
        !(doc_model(*toml_value) is Table) ==> (r matches Ok(val) && (val matches Value::Error {
            error,
        } && error@ == ErrView::CantConvert("TOML"@, value_type@, span))),
{
    proof {
        crate::doc::lemma_table_model(*toml_value);
    }
    match toml_value {
        DocValue::Table(es) => Ok(Value::Str { val: render_table(es), span }),
        _ => Ok(
            Value::Error {
                error: ShellError::CantConvert(String::from_str("TOML"), value_type, span),
            },
        ),
    }
}

/// Converts one root value to TOML text: the root shape rule, the
/// recursive conversion, and the trusted emitter in sequence.  A table-shaped
/// result renders to text; a root that converts to a genuine array has no
/// rendering as a document, and comes back as an error value inside the
/// pipeline rather than as a failure of the call.
pub fn to_toml(input: &Value, span: Span) -> (r: Result<Value, ShellError>)
    requires
        wf(*input),
    ensures
        first_error(*input) matches Some(e) ==> r == Err::<Value, ShellError>(e),
        top_doc_of(*input) matches Err(ev) ==> (r matches Err(e) && e@ == ev),
        top_doc_of(*input) matches Ok(m) ==> match m {
            DocModel::Table(t) => r matches Ok(val) && (val matches Value::Str {
                val: text,
                span: sp,
            } && text@ == toml_text_of(t) && sp == span),
            _ => r matches Ok(val) && (val matches Value::Error { error } && error@
                == ErrView::CantConvert("TOML"@, type_of(*input), span)),
        },
{
    let value_type = input.get_type();
    match value_to_toml_value(input) {
        Ok(doc) => toml_into_pipeline_data(&doc, value_type, span),
        Err(e) => Err(e),
    }
}

/// The `to toml` command.
#[derive(Clone, Debug)]
pub struct ToToml;

impl ToToml {
    /// The command's name in the pipeline language.
    pub fn name(&self) -> (r: &'static str)
        ensures
            r@ == "to toml"@,
    {
        "to toml"
    }

    /// One line on what the command does.
    pub fn usage(&self) -> (r: &'static str)
        ensures
            r@ == "Convert table into .toml text"@,
    {
        "Convert table into .toml text"
    }

    /// The command's worked examples.
    pub fn examples(&self) -> (r: Vec<Example>)
        ensures
            r@.len() == 1,
    {
        let mut es: Vec<Example> = Vec::new();
        es.push(
            Example {
                description: String::from_str(
                    "Outputs an TOML string representing the contents of this table",
                ),
                example: String::from_str("[[foo bar]; [\"1\" \"2\"]] | to toml"),
                result: Some(Value::test_string("foo = \"1\"\nbar = \"2\"\n")),
            },
        );
        es
    }

    /// Runs the command on the one value the pipeline hands in.
    pub fn run(&self, input: &Value, head: Span) -> (r: Result<Value, ShellError>)
        requires
            wf(*input),
        ensures
            first_error(*input) matches Some(e) ==> r == Err::<Value, ShellError>(e),
            top_doc_of(*input) matches Err(ev) ==> (r matches Err(e) && e@ == ev),
            top_doc_of(*input) matches Ok(m) && m is Table ==> (r matches Ok(val)
                && val matches Value::Str { .. }),
    {
        to_toml(input, head)
    }
}

/// A record converts to a table with the same keys in the same order,
/// each key paired with exactly the conversion of its value.
pub proof fn lemma_record_to_table(v: Value)
    requires
        v matches Value::Record { cols, vals, .. } && cols@.len() == vals@.len(),
        first_error(v) is None,
    ensures
        v matches Value::Record { cols, vals, .. } ==> (top_doc_of(v) matches Ok(m) && (
        m matches DocModel::Table(t) && t.len() == cols@.len() && forall|i: int|
            0 <= i < t.len() ==> (#[trigger] t[i]).0 == cols@[i]@ && t[i].1 == doc_of(vals@[i]))),
{
}

/// The single-table unwrap law: a one-element list holding a record
/// converts to the very table that record itself converts to.  Since the
/// emitted text is a function of that one table alone, both roots render
/// to byte-identical output.
pub proof fn lemma_single_table_unwrap(l: Value)
    requires
        l matches Value::List { vals, .. } && vals@.len() == 1 && vals@[0] is Record,
        first_error(l) is None,
    ensures
        l matches Value::List { vals, .. } ==> (top_doc_of(l) matches Ok(m) && (top_doc_of(
            vals@[0],
        ) matches Ok(m2) && m == m2)),
{
    match l {
        Value::List { vals, .. } => {
            assert(first_error(vals@[0]) is None) by {
                assert(first_error_from(vals@, 0) is None);
            }
            assert(all_records(vals@));
            assert(elems_doc_of(vals@)[0] == doc_of(vals@[0]));
            assert(doc_of(vals@[0]) is Table);
        },
        _ => {},
    }
}

/// A list of two or more records converts to a genuine array with one
/// table per record, in order; it is never unwrapped.
pub proof fn lemma_tables_stay_array(l: Value)
    requires
        l matches Value::List { vals, .. } && vals@.len() >= 2 && all_records(vals@),
        first_error(l) is None,
    ensures
        l matches Value::List { vals, .. } ==> (top_doc_of(l) matches Ok(m) && (
        m matches DocModel::Arr(ds) && ds.len() == vals@.len() && forall|i: int|
            0 <= i < ds.len() ==> #[trigger] ds[i] == doc_of(vals@[i]) && ds[i] is Table)),
{
    match l {
        Value::List { vals, .. } => {
            assert(elems_doc_of(vals@).len() == vals@.len());
            assert forall|i: int| 0 <= i < vals@.len() implies #[trigger] elems_doc_of(vals@)[i]
                == doc_of(vals@[i]) && elems_doc_of(vals@)[i] is Table by {
                assert(vals@[i] is Record);
            }
        },
        _ => {},
    }
}

/// An error value anywhere in the tree makes the whole conversion fail
/// with that very error, whatever its position: the root shape rule
/// never reports ahead of it.
pub proof fn lemma_error_propagates(v: Value)
    requires
        first_error(v) is Some,
    ensures
        first_error(v) matches Some(e) && top_doc_of(v) == Err::<DocModel, ErrView>(e@),
{
}

} // verus!
