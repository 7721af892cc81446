//! The trusted boundary to the target format's own parser and printer.
//!
//! The conversion itself is verified code over `DocValue` trees; only the
//! final rendering of a finished tree to TOML text, and the re-parsing of
//! an embedded TOML document handed in as a string, go through `toml_edit`
//! here.  What those two calls return is named by uninterpreted
//! functions, so that equal trees are known to render to equal text and
//! equal strings to parse to equal trees, and nothing more is assumed of
//! the format's grammar.

use vstd::prelude::*;

use toml_edit::Value as TomlValue;

use crate::doc::{entries_model, doc_model, DocModel, DocValue};

verus! {

/// Declares `toml_edit`'s value type to the verifier; values of it are
/// opaque here and only pass between the trusted helpers below.
#[verifier::external_type_specification]
#[verifier::external_body]
pub struct ExTomlValue(TomlValue);

/// Declares `toml_edit`'s item type, the entry of a parsed document.
#[verifier::external_type_specification]
#[verifier::external_body]
pub struct ExTomlItem(toml_edit::Item);

/// Declares `toml_edit`'s table type.
#[verifier::external_type_specification]
#[verifier::external_body]
pub struct ExTomlTable(toml_edit::Table);

/// Declares `toml_edit`'s array type.
#[verifier::external_type_specification]
#[verifier::external_body]
pub struct ExTomlArray(toml_edit::Array);

/// Declares `toml_edit`'s inline table type.
#[verifier::external_type_specification]
#[verifier::external_body]
pub struct ExTomlInlineTable(toml_edit::InlineTable);

/// Whether the target format's parser accepts `s` as a document.
pub uninterp spec fn toml_parses(s: Seq<char>) -> bool;

/// The document value that parsing `s` yields, as a table model.
pub uninterp spec fn toml_doc_of(s: Seq<char>) -> DocModel;

/// The text that rendering a document with the given root entries yields.
pub uninterp spec fn toml_text_of(t: Seq<(Seq<char>, DocModel)>) -> Seq<char>;

/// Maps one parsed `toml_edit` table to the document model.  Only
/// `item_to_doc` and `parse_toml` call this.
#[verifier::external_body]
fn table_to_doc(t: &toml_edit::Table) -> DocValue {
    DocValue::Table(t.iter().map(|(k, i)| (k.to_string(), item_to_doc(i))).collect())
}

/// Maps one parsed `toml_edit` node to the document model, one arm per
/// variant.  Only `parse_toml` below calls this.
#[verifier::external_body]
fn item_to_doc(it: &toml_edit::Item) -> DocValue {
    match it {
        toml_edit::Item::Value(v) => tv_to_doc(v),
        toml_edit::Item::Table(t) => table_to_doc(t),
        toml_edit::Item::ArrayOfTables(a) => DocValue::Array(a.iter().map(table_to_doc).collect()),
        toml_edit::Item::None => DocValue::Table(Vec::new()),
    }
}

/// Maps one parsed `toml_edit` value to the document model, one arm per
/// variant.  Only `item_to_doc` and `parse_toml` call this.
#[verifier::external_body]
fn tv_to_doc(v: &TomlValue) -> DocValue {
    match v {
        TomlValue::String(f) => DocValue::Str(f.value().clone()),
        TomlValue::Integer(f) => DocValue::Int(*f.value()),
        TomlValue::Float(f) => DocValue::Float(f.value().to_string()),
        TomlValue::Boolean(f) => DocValue::Bool(*f.value()),
        TomlValue::Datetime(f) => DocValue::Str(f.value().to_string()),
        TomlValue::Array(a) => DocValue::Array(a.iter().map(tv_to_doc).collect()),
        TomlValue::InlineTable(t) => DocValue::Table(
            t.iter().map(|(k, v)| (k.to_string(), tv_to_doc(v))).collect(),
        ),
    }
}

/// Relies on `toml_edit::DocumentMut`'s `FromStr`: parsing is a pure
/// function of the text, it succeeds exactly on well-formed TOML, and a
/// parsed document's root is a table.  The parsed tree comes back mapped
/// into the library's own document type.
#[verifier::external_body]
pub(crate) fn parse_toml(s: &str) -> (r: Option<DocValue>)
    ensures
        (r is Some) == toml_parses(s@),
        r matches Some(d) ==> doc_model(d) == toml_doc_of(s@) && d is Table,
{
    let doc: toml_edit::DocumentMut = match s.parse() {
        Ok(d) => d,
        Err(_) => {
            return None;
        },
    };
    let mut entries: Vec<(String, DocValue)> = Vec::new();
    for (k, it) in doc.iter() {
        entries.push((k.to_string(), item_to_doc(it)));
    }
    Some(DocValue::Table(entries))
}

/// Maps a list of library document values to a `toml_edit` array.  Only
/// `doc_to_toml` calls this.
#[verifier::external_body]
fn docs_to_array(xs: &Vec<DocValue>) -> toml_edit::Array {
    let mut a = toml_edit::Array::new();
    for x in xs.iter() {
        a.push(doc_to_toml(x));
    }
    a
}

/// Maps a list of library table entries to a `toml_edit` inline table.
/// Only `doc_to_toml` calls this.
#[verifier::external_body]
fn entries_to_table(es: &Vec<(String, DocValue)>) -> toml_edit::InlineTable {
    let mut t = toml_edit::InlineTable::new();
    for (k, v) in es.iter() {
        t.insert(k.as_str(), doc_to_toml(v));
    }
    t
}

/// Maps one library document value to a `toml_edit` value, one arm per
/// variant; a float rendering goes through `toml_edit`'s value parser and
/// falls back to a string when it is no TOML value.  Only `render_table`
/// calls this.
#[verifier::external_body]
fn doc_to_toml(d: &DocValue) -> TomlValue {
    match d {
        DocValue::Bool(b) => TomlValue::from(*b),
        DocValue::Int(i) => TomlValue::from(*i),
        DocValue::Float(s) => match s.parse::<TomlValue>() {
            Ok(v) => v,
            Err(_) => TomlValue::from(s.as_str()),
        },
        DocValue::Str(s) => TomlValue::from(s.as_str()),
        DocValue::Array(xs) => TomlValue::Array(docs_to_array(xs)),
        DocValue::Table(es) => TomlValue::InlineTable(entries_to_table(es)),
    }
}

/// Relies on `toml_edit::DocumentMut`'s `Display`: rendering is a pure
/// function of the document, here built as a root table holding the given
/// entries in their given order.
#[verifier::external_body]
pub(crate) fn render_table(es: &Vec<(String, DocValue)>) -> (r: String)
    ensures
        r@ == toml_text_of(entries_model(es@)),
{
    let mut doc = toml_edit::DocumentMut::new();
    for (k, v) in es.iter() {
        doc.insert(k.as_str(), toml_edit::Item::Value(doc_to_toml(v)));
    }
    doc.to_string()
}

} // verus!
