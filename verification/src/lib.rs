//! Conversion of the pipeline's dynamic values into a TOML document.
//!
//! The heart of the crate is the `to_toml` module: a recursive, pure
//! translation of a tagged dynamic `Value` tree into a `DocValue` tree that
//! mirrors the TOML value model, together with the shape rules a document
//! root must satisfy and the error taxonomy of that translation.  The
//! surrounding command modules (`camel_case`, `pascal_case`, `url_scheme`,
//! `path_expand`, `dataframe_open`) hold the plain-value cores of the other
//! commands, each one calling its outside library through a narrow trusted
//! wrapper.

pub mod span;
pub mod error;
pub mod value;
pub mod doc;
pub mod text;
pub mod toml_text;
pub mod example;
pub mod to_toml;
pub mod str_case;
pub mod camel_case;
pub mod pascal_case;
pub mod url_scheme;
pub mod path_expand;
pub mod dataframe_open;
