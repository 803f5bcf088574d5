//! A pull-based tokenizer for command-line arguments.
//!
//! A flat list of raw argument strings is classified into a sequence of
//! discrete option events: boolean flags (`-v`, `--verbose`, stacked as in
//! `-abc`), named values (`-o file`, `--out file`), positional values, and
//! raw values passed through unchanged after the `--` terminator.
#![verifier::loop_isolation(false)]

pub mod event;
pub mod model;
pub mod tokenizer;

pub use event::Opt;
pub use event::OptView;
pub use model::opts_of;
pub use tokenizer::parse;
pub use tokenizer::parse_all;
pub use tokenizer::OptIter;
