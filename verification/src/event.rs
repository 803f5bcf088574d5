//! The event type emitted by the tokenizer.

use vstd::prelude::*;

verus! {

/// The mathematical value of one classified argument: each variant carries
/// the character sequences of the strings that the executable event holds.
pub enum OptView {
    Flag(Seq<char>),
    Named(Seq<char>, Seq<char>),
    Ordinal(Seq<char>),
    Raw(Seq<char>),
}

/// One classified command-line argument.
///
/// - `Flag(name)`: an option present without a value (`-x`, `--name`, or one
///   character of a stacked group such as `-abc`).
/// - `Named(name, value)`: an option name paired with the token that followed
///   it.
/// - `Ordinal(value)`: a positional value, not attached to any option name.
/// - `Raw(value)`: a token after the `--` terminator, passed through
///   unchanged.
#[derive(Debug, PartialEq)]
pub enum Opt {
    Flag(String),
    Named(String, String),
    Ordinal(String),
    Raw(String),
}

impl View for Opt {
    type V = OptView;

    open spec fn view(&self) -> OptView {
        match self {
            Opt::Flag(name) => OptView::Flag(name@),
            Opt::Named(name, value) => OptView::Named(name@, value@),
            Opt::Ordinal(value) => OptView::Ordinal(value@),
            Opt::Raw(value) => OptView::Raw(value@),
        }
    }
}

impl DeepView for Opt {
    type V = OptView;

    open spec fn deep_view(&self) -> OptView {
        self.view()
    }
}

} // verus!
