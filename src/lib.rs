//! A small HTML parser: a tokenizer that turns characters into tokens, and a
//! tree builder that turns tokens into an arena of elements under the
//! insertion-mode state machine of the HTML standard.
//!
//! Both stages are written as state machines whose transitions are stated as
//! spec functions; the executable code is proved to follow them.

pub mod arena;
pub mod error;
pub mod parser;
pub mod preprocessor;
pub mod states;
pub mod token;
pub mod tokenizer;
