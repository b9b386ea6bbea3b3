use vstd::prelude::*;

use crate::error::HtmlParseError;

verus! {

/// How sure the preprocessor is of the document's encoding.
#[derive(Clone, Copy, Debug, PartialEq, Eq, Structural)]
pub enum EncodingConfidence {
    Tentative(Encoding),
    Certain(Encoding),
    Irrelevant,
}

/// The encodings that the preprocessor knows.
#[derive(Clone, Copy, Debug, PartialEq, Eq, Structural)]
pub enum Encoding {
    Utf8,
}

/// Relies on `str::chars` collected into a `Vec`: the characters of the
/// string, in order.
#[verifier::external_body]
fn chars_of(s: &str) -> (r: Vec<char>)
    ensures
        r@ == s@,
{
    s.chars().collect()
}

/// The input buffer: the document as a sequence of characters, ready for the
/// tokenizer.
pub struct PreProccessor {
    raw: Vec<char>,
    encoding: EncodingConfidence,
}

impl View for PreProccessor {
    type V = Seq<char>;

    closed spec fn view(&self) -> Seq<char> {
        self.raw@
    }
}

impl PreProccessor {
    /// Takes in a document; the text is kept as it is.
    pub fn new(document: &str) -> (r: Result<PreProccessor, HtmlParseError>)
        ensures
            r matches Ok(p) && p@ == document@,
    {
        PreProccessor::preprocess(document)
    }

    /// Appends text to the document. Were the longer document refused, the
    /// appended text would be taken off again; every text is accepted.
    pub fn append_and_revalidate(&mut self, value: &str) -> (r: Result<(), HtmlParseError>)
        ensures
            r is Ok,
            final(self)@ == old(self)@ + value@,
    {
        let mut more = chars_of(value);
        self.raw.append(&mut more);
        Ok(())
    }

    fn preprocess(document: &str) -> (r: Result<PreProccessor, HtmlParseError>)
        ensures
            r matches Ok(p) && p@ == document@,
    {
        Ok(PreProccessor { raw: chars_of(document), encoding: EncodingConfidence::Irrelevant })
    }

    /// The characters of the document.
    pub fn into_chars(self) -> (r: Vec<char>)
        ensures
            r@ == self@,
    {
        self.raw
    }
}

} // verus!
