use vstd::prelude::*;

use crate::span::Span;

verus! {

/// A failure surfaced by one of the commands.
///
/// The conversion to TOML distinguishes three situations:
/// a root value whose shape cannot head a document (`UnsupportedInput`,
/// with a message naming the runtime type or, for a root string, saying
/// that it would not parse), a finished document value that the target
/// format cannot render at its root (`CantConvert`), and a labelled
/// failure with a headline and an explanation (`LabeledError`).
#[derive(Clone, Debug, PartialEq, Eq)]
pub enum ShellError {
    UnsupportedInput(String, Span),
    CantConvert(String, String, Span),
    LabeledError(String, String),
}

/// The mathematical image of a `ShellError`: the same variants with each
/// message read as its sequence of characters.
pub enum ErrView {
    Unsupported(Seq<char>, Span),
    CantConvert(Seq<char>, Seq<char>, Span),
    Labeled(Seq<char>, Seq<char>),
}

impl View for ShellError {
    type V = ErrView;

    open spec fn view(&self) -> ErrView {
        match self {
            ShellError::UnsupportedInput(m, s) => ErrView::Unsupported(m@, *s),
            ShellError::CantConvert(m, t, s) => ErrView::CantConvert(m@, t@, *s),
            ShellError::LabeledError(m, t) => ErrView::Labeled(m@, t@),
        }
    }
}

impl ShellError {
    /// An owned copy that is equal to the original, so that an error found
    /// inside a value tree can be handed out unchanged.
    pub fn dup(&self) -> (r: ShellError)
        ensures
            r == *self,
    {
        match self {
            ShellError::UnsupportedInput(m, s) => ShellError::UnsupportedInput(m.clone(), *s),
            ShellError::CantConvert(m, t, s) => ShellError::CantConvert(m.clone(), t.clone(), *s),
            ShellError::LabeledError(m, t) => ShellError::LabeledError(m.clone(), t.clone()),
        }
    }
}

} // verus!
