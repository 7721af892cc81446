use vstd::prelude::*;

verus! {

/// A value of the target document format's own model: booleans, integers,
/// floats, strings, arrays and tables.
///
/// `Float` carries the number's decimal rendering rather than a machine
/// float, since this library holds no floating-point values; the trusted
/// emitter turns the rendering back into a document float.  `Table` stands
/// both for an inline table and, at the root of a document, for the
/// document's own table.
#[derive(Debug, PartialEq, Eq)]
pub enum DocValue {
    Bool(bool),
    Int(i64),
    Float(String),
    Str(String),
    Array(Vec<DocValue>),
    Table(Vec<(String, DocValue)>),
}

/// The mathematical image of a `DocValue`: the same tree with strings read
/// as sequences of characters and vectors as sequences.
#[verifier::ext_equal]
pub enum DocModel {
    Bool(bool),
    Int(i64),
    Float(Seq<char>),
    Str(Seq<char>),
    Arr(Seq<DocModel>),
    Table(Seq<(Seq<char>, DocModel)>),
}

/// The image of a document value.
pub open spec fn doc_model(d: DocValue) -> DocModel
    decreases d,
{
    match d {
        DocValue::Bool(b) => DocModel::Bool(b),
        DocValue::Int(i) => DocModel::Int(i),
        DocValue::Float(s) => DocModel::Float(s@),
        DocValue::Str(s) => DocModel::Str(s@),
        DocValue::Array(xs) => DocModel::Arr(
            Seq::new(
                xs@.len(),
                |i: int|
                    if 0 <= i < xs@.len() {
                        doc_model(xs@[i])
                    } else {
                        DocModel::Bool(false)
                    },
            ),
        ),
        DocValue::Table(es) => DocModel::Table(
            Seq::new(
                es@.len(),
                |i: int|
                    if 0 <= i < es@.len() {
                        (es@[i].0@, doc_model(es@[i].1))
                    } else {
                        (Seq::empty(), DocModel::Bool(false))
                    },
            ),
        ),
    }
}

/// The images of a list of document values.
pub open spec fn docs_model(s: Seq<DocValue>) -> Seq<DocModel> {
    Seq::new(s.len(), |i: int| doc_model(s[i]))
}

/// The image of a table's entry list.
pub open spec fn entries_model(es: Seq<(String, DocValue)>) -> Seq<(Seq<char>, DocModel)> {
    Seq::new(es.len(), |i: int| (es[i].0@, doc_model(es[i].1)))
}

/// The value under the first occurrence of `key` at or after position `i`
/// of a table's entries, if any.
pub open spec fn lookup_from(es: Seq<(String, DocValue)>, key: Seq<char>, i: int) -> Option<DocValue>
    decreases es.len() - i,
{
    if i < 0 || i >= es.len() {
        None
    } else if es[i].0@ == key {
        Some(es[i].1)
    } else {
        lookup_from(es, key, i + 1)
    }
}

/// The value under the first occurrence of `key` in a table's entries.
pub open spec fn table_lookup(es: Seq<(String, DocValue)>, key: Seq<char>) -> Option<DocValue> {
    lookup_from(es, key, 0)
}

/// A document value is a table exactly when its image is, and a table's
/// image holds the images of its entries.
pub proof fn lemma_table_model(d: DocValue)
    ensures
        d is Table <==> doc_model(d) is Table,
        d matches DocValue::Table(es) ==> (doc_model(d) matches DocModel::Table(t) && t
            == entries_model(es@)),
{
    match d {
        DocValue::Table(es) => {
            assert(doc_model(d) matches DocModel::Table(t) && t =~= entries_model(es@));
        },
        _ => {},
    }
}

impl DocValue {
    /// Looks a key up in a table, returning the first entry with that key;
    /// `None` on a missing key or on a value that is no table.
    #[verifier::loop_isolation(false)]
    pub fn get(&self, key: &str) -> (r: Option<&DocValue>)
        ensures
            match self {
                DocValue::Table(es) => match table_lookup(es@, key@) {
                    Some(v) => r matches Some(d) && *d == v,
                    None => r is None,
                },
                _ => r is None,
            },
    {
        match self {
            DocValue::Table(es) => {
                let n = es.len();
                let mut i: usize = 0;
                while i < n
                    invariant
                        n == es@.len(),
                        0 <= i <= n,
                        lookup_from(es@, key@, 0) == lookup_from(es@, key@, i as int),
                    decreases n - i,
                {
                    if es[i].0.as_str().eq(key) {
                        assert(table_lookup(es@, key@) == Some(es@[i as int].1));
                        let out = &es[i].1;
                        assert(*out == es@[i as int].1);
                        return Some(out);
                    }
                    i = i + 1;
                }
                None
            },
            _ => None,
        }
    }
}

} // verus!
