//! The `dataframe open` command's metadata and the one plain-value rule
//! of its option handling.  Reading a csv, json or parquet file is file
//! I/O through a dataframe library and stays outside this crate; the
//! delimiter rule below is the part of that path that is a pure function
//! of its argument.

use vstd::prelude::*;

use crate::error::{ErrView, ShellError};
use crate::example::Example;

verus! {

/// The `dataframe open` command.
#[derive(Clone, Debug)]
pub struct OpenDataFrame;

impl OpenDataFrame {
    /// The command's name in the pipeline language.
    pub fn name(&self) -> (r: &'static str)
        ensures
            r@ == "dataframe open"@,
    {
        "dataframe open"
    }

    /// One line on what the command does.
    pub fn usage(&self) -> (r: &'static str)
        ensures
            r@ == "Opens csv, json or parquet file to create dataframe"@,
    {
        "Opens csv, json or parquet file to create dataframe"
    }

    /// The command's worked examples.
    pub fn examples(&self) -> (r: Vec<Example>)
        ensures
            r@.len() == 1,
            r@[0].result is None,
    {
        let mut es: Vec<Example> = Vec::new();
        es.push(
            Example {
                description: String::from_str("Takes a file name and creates a dataframe"),
                example: String::from_str("dataframe open test.csv"),
                result: None,
            },
        );
        es
    }
}

/// The delimiter rule of the csv path: exactly one character names the
/// delimiter byte (its code point truncated to a byte, as the reader
/// takes it); any other length is refused.
pub fn csv_delimiter(d: &String) -> (r: Result<u8, ShellError>)
    ensures
        d@.len() == 1 ==> r == Ok::<u8, ShellError>(d@[0] as u8),
        d@.len() != 1 ==> (r matches Err(e) && e@ == ErrView::Labeled(
            "Incorrect delimiter"@,
            "Delimiter has to be one character"@,
        )),
{
    if d.as_str().unicode_len() != 1 {
        Err(
            ShellError::LabeledError(
                String::from_str("Incorrect delimiter"),
                String::from_str("Delimiter has to be one character"),
            ),
        )
    } else {
        let c = d.as_str().get_char(0);
        Ok(c as u8)
    }
}

} // verus!
