use vstd::prelude::*;

use crate::states::{InsertionMode, TokenizationState};
use crate::token::Token;

verus! {

/// Errors reported by the tokenizer.
///
/// `UnexpectedNullCharacter` and `MalformedTagOpen` are not fatal: they come
/// together with the token that was built despite them. `UnsupportedState`
/// ends the token stream.
#[derive(Clone, Copy, Debug, PartialEq, Eq, Structural)]
pub enum HtmlTokenizerError {
    UnexpectedNullCharacter,
    MalformedTagOpen,
    UnsupportedState(TokenizationState),
}

/// Errors that end a parse.
#[derive(Debug)]
pub enum HtmlParseError {
    InsertionModeCaseNotHandled(InsertionMode),
    ReconsumeNonExistingToken,
    UnexpectedToken(Token),
    GenericParseError,
    Tokenizer(HtmlTokenizerError),
}

impl HtmlTokenizerError {
    /// A line of text that describes the error.
    pub fn message(&self) -> (r: String)
        ensures
            r@ == match self {
                HtmlTokenizerError::UnexpectedNullCharacter => "unexpected NULL character"@,
                HtmlTokenizerError::MalformedTagOpen => "malformed tag open"@,
                HtmlTokenizerError::UnsupportedState(_) => "unsupported tokenizer state"@,
            },
    {
        match self {
            HtmlTokenizerError::UnexpectedNullCharacter => "unexpected NULL character".to_owned(),
            HtmlTokenizerError::MalformedTagOpen => "malformed tag open".to_owned(),
            HtmlTokenizerError::UnsupportedState(_) => "unsupported tokenizer state".to_owned(),
        }
    }
}

impl HtmlParseError {
    /// A line of text that describes the error.
    pub fn message(&self) -> (r: String)
        ensures
            r@ == match self {
                HtmlParseError::InsertionModeCaseNotHandled(_) => "insertion mode not handled"@,
                HtmlParseError::ReconsumeNonExistingToken => "reconsume requested with no previous token"@,
                HtmlParseError::UnexpectedToken(_) => "unexpected token"@,
                HtmlParseError::GenericParseError => "generic parse error"@,
                HtmlParseError::Tokenizer(e) => match e {
                    HtmlTokenizerError::UnexpectedNullCharacter => "unexpected NULL character"@,
                    HtmlTokenizerError::MalformedTagOpen => "malformed tag open"@,
                    HtmlTokenizerError::UnsupportedState(_) => "unsupported tokenizer state"@,
                },
            },
    {
        match self {
            HtmlParseError::InsertionModeCaseNotHandled(_) => "insertion mode not handled".to_owned(),
            HtmlParseError::ReconsumeNonExistingToken => "reconsume requested with no previous token".to_owned(),
            HtmlParseError::UnexpectedToken(_) => "unexpected token".to_owned(),
            HtmlParseError::GenericParseError => "generic parse error".to_owned(),
            HtmlParseError::Tokenizer(e) => e.message(),
        }
    }
}

} // verus!
