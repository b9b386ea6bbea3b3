use vstd::prelude::*;

verus! {

/// A name/value pair of a start or end tag.
#[derive(Debug, PartialEq, Clone)]
pub struct Attribute {
    pub name: String,
    pub value: String,
}

/// What an attribute holds, as character sequences.
pub type AttributeModel = (Seq<char>, Seq<char>);

impl View for Attribute {
    type V = AttributeModel;

    open spec fn view(&self) -> AttributeModel {
        (self.name@, self.value@)
    }
}

impl Attribute {
    pub fn new(name: &str, value: &str) -> (r: Attribute)
        ensures
            r@ == (name@, value@),
    {
        Attribute { name: name.to_owned(), value: value.to_owned() }
    }
}

/// A lexical token.
#[derive(Debug, PartialEq, Clone)]
pub enum Token {
    DOCTYPE(Option<String>, Option<String>, Option<String>, bool),
    Character(char),
    StartTag(String, bool, Vec<Attribute>),
    EndTag(String, bool, Vec<Attribute>),
    Comment(String),
    EOF,
}

/// What a token holds, with its text as character sequences.
pub enum TokenModel {
    Doctype(Option<Seq<char>>, Option<Seq<char>>, Option<Seq<char>>, bool),
    Character(char),
    StartTag(Seq<char>, bool, Seq<AttributeModel>),
    EndTag(Seq<char>, bool, Seq<AttributeModel>),
    Comment(Seq<char>),
    EndOfInput,
}

pub open spec fn opt_view(s: Option<String>) -> Option<Seq<char>> {
    match s {
        Some(t) => Some(t@),
        None => None,
    }
}

pub open spec fn attrs_view(v: Seq<Attribute>) -> Seq<AttributeModel> {
    v.map_values(|a: Attribute| a@)
}

impl View for Token {
    type V = TokenModel;

    open spec fn view(&self) -> TokenModel {
        match self {
            Token::DOCTYPE(n, p, s, q) => TokenModel::Doctype(opt_view(*n), opt_view(*p), opt_view(*s), *q),
            Token::Character(c) => TokenModel::Character(*c),
            Token::StartTag(n, sc, a) => TokenModel::StartTag(n@, *sc, attrs_view(a@)),
            Token::EndTag(n, sc, a) => TokenModel::EndTag(n@, *sc, attrs_view(a@)),
            Token::Comment(s) => TokenModel::Comment(s@),
            Token::EOF => TokenModel::EndOfInput,
        }
    }
}

/// The parts of a start or end tag, filled in one by one.
#[derive(Debug, PartialEq)]
pub struct TagData {
    pub name: String,
    pub self_closing_flag: bool,
    pub attributes: Vec<Attribute>,
}

impl TagData {
    /// A tag with an empty name, no attributes, not self-closing.
    pub fn new() -> (r: TagData)
        ensures
            r.name@ == Seq::<char>::empty(),
            !r.self_closing_flag,
            r.attributes@ == Seq::<Attribute>::empty(),
    {
        TagData { name: String::new(), self_closing_flag: false, attributes: Vec::new() }
    }

    pub fn name(self, name: String) -> (r: TagData)
        ensures
            r.name == name,
            r.self_closing_flag == self.self_closing_flag,
            r.attributes == self.attributes,
    {
        TagData { name, ..self }
    }

    pub fn self_closing_flag(self, flag: bool) -> (r: TagData)
        ensures
            r.name == self.name,
            r.self_closing_flag == flag,
            r.attributes == self.attributes,
    {
        TagData { self_closing_flag: flag, ..self }
    }

    pub fn attributes(self, attributes: Vec<Attribute>) -> (r: TagData)
        ensures
            r.name == self.name,
            r.self_closing_flag == self.self_closing_flag,
            r.attributes == attributes,
    {
        TagData { attributes, ..self }
    }

    /// The start tag made of these parts.
    pub fn start_tag(self) -> (r: Token)
        ensures
            r == Token::StartTag(self.name, self.self_closing_flag, self.attributes),
    {
        Token::StartTag(self.name, self.self_closing_flag, self.attributes)
    }

    /// The end tag made of these parts.
    pub fn end_tag(self) -> (r: Token)
        ensures
            r == Token::EndTag(self.name, self.self_closing_flag, self.attributes),
    {
        Token::EndTag(self.name, self.self_closing_flag, self.attributes)
    }
}

/// Whether a tag under construction opens or closes an element.
#[derive(Clone, Copy, Debug, PartialEq, Eq, Structural)]
pub enum TagKind {
    StartTag,
    EndTag,
}

/// The tokens of a whole document, in order.
#[derive(Debug, PartialEq)]
pub struct TokenStream {
    pub tokens: Vec<Token>,
}

} // verus!
