use vstd::prelude::*;

use crate::value::Value;

verus! {

/// One worked example of a command: a description, the pipeline text a
/// user would type, and the value the command is expected to produce,
/// where one is fixed.
#[derive(Debug)]
pub struct Example {
    pub description: String,
    pub example: String,
    pub result: Option<Value>,
}

} // verus!
