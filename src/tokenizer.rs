use vstd::prelude::*;

use crate::error::HtmlTokenizerError;
use crate::preprocessor::PreProccessor;
use crate::states::TokenizationState;
use crate::token::{attrs_view, Attribute, AttributeModel, TagKind, Token, TokenModel, TokenStream};

verus! {

/// The working buffers of the tokenizer, as values.
pub struct Lex {
    pub state: TokenizationState,
    pub kind: TagKind,
    pub name: Seq<char>,
    pub attrs: Seq<AttributeModel>,
    pub self_closing: bool,
    pub comment: Seq<char>,
    pub error: Option<HtmlTokenizerError>,
}

/// What one character does besides changing the buffers.
pub enum Outcome {
    /// Go on with the next character.
    Continue,
    /// Process the same character again, in the new state.
    Reconsume,
    /// A token is complete, with the first non-fatal error met while it was
    /// built; when the flag is set the character is read again by the next call.
    Emit(TokenModel, Option<HtmlTokenizerError>, bool),
    /// The tokenizer would enter a state that it does not implement.
    Fatal(TokenizationState),
}

/// One item of the token stream: a token with an optional non-fatal error,
/// or a fatal error.
pub type ItemModel = Result<(TokenModel, Option<HtmlTokenizerError>), HtmlTokenizerError>;

pub type Item = Result<(Token, Option<HtmlTokenizerError>), HtmlTokenizerError>;

pub open spec fn item_view(r: Item) -> ItemModel {
    match r {
        Ok((t, e)) => Ok((t@, e)),
        Err(e) => Err(e),
    }
}

pub open spec fn opt_item_view(r: Option<Item>) -> Option<ItemModel> {
    match r {
        Some(i) => Some(item_view(i)),
        None => None,
    }
}

pub open spec fn is_ws(c: char) -> bool {
    c == '\t' || c == '\n' || c == '\x0C' || c == ' ' || c == '\r'
}

pub open spec fn is_upper(c: char) -> bool {
    'A' <= c && c <= 'Z'
}

pub open spec fn is_alpha(c: char) -> bool {
    is_upper(c) || ('a' <= c && c <= 'z')
}

/// ASCII lowercase of a character; other characters stay as they are.
pub open spec fn lower(c: char) -> char {
    if is_upper(c) {
        ((c as u8) + 32) as char
    } else {
        c
    }
}

pub open spec fn with_state(l: Lex, s: TokenizationState) -> Lex {
    Lex { state: s, ..l }
}

/// Records an error; the first one met while building a token is kept.
pub open spec fn with_error(l: Lex, e: HtmlTokenizerError) -> Lex {
    Lex { error: if l.error is None { Some(e) } else { l.error }, ..l }
}

pub open spec fn with_name_char(l: Lex, c: char) -> Lex {
    Lex { name: l.name.push(c), ..l }
}

pub open spec fn with_new_attr(l: Lex, c: char) -> Lex {
    Lex { attrs: l.attrs.push((seq![c], Seq::empty())), ..l }
}

/// Appends to the name of the last attribute (starting one if there is none).
pub open spec fn with_attr_name_char(l: Lex, c: char) -> Lex {
    if l.attrs.len() == 0 {
        with_new_attr(l, c)
    } else {
        let last = l.attrs.last();
        Lex { attrs: l.attrs.update(l.attrs.len() - 1, (last.0.push(c), last.1)), ..l }
    }
}

/// Appends to the value of the last attribute (starting one if there is none).
pub open spec fn with_attr_value_char(l: Lex, c: char) -> Lex {
    if l.attrs.len() == 0 {
        Lex { attrs: l.attrs.push((Seq::empty(), seq![c])), ..l }
    } else {
        let last = l.attrs.last();
        Lex { attrs: l.attrs.update(l.attrs.len() - 1, (last.0, last.1.push(c))), ..l }
    }
}

pub open spec fn with_comment_char(l: Lex, c: char) -> Lex {
    Lex { comment: l.comment.push(c), ..l }
}

/// The buffers with the token under construction dropped; the state and the
/// tag kind are kept.
pub open spec fn emptied(l: Lex) -> Lex {
    Lex { name: Seq::empty(), attrs: Seq::empty(), self_closing: false, comment: Seq::empty(), error: None, ..l }
}

/// Empty buffers in the given state.
pub open spec fn cleared(s: TokenizationState) -> Lex {
    Lex {
        state: s,
        kind: TagKind::StartTag,
        name: Seq::empty(),
        attrs: Seq::empty(),
        self_closing: false,
        comment: Seq::empty(),
        error: None,
    }
}

pub open spec fn tag_token(l: Lex) -> TokenModel {
    match l.kind {
        TagKind::StartTag => TokenModel::StartTag(l.name, l.self_closing, l.attrs),
        TagKind::EndTag => TokenModel::EndTag(l.name, l.self_closing, l.attrs),
    }
}

/// Completes the tag under construction and goes back to `Data`.
pub open spec fn emit_tag(l: Lex) -> (Lex, Outcome) {
    (cleared(TokenizationState::Data), Outcome::Emit(tag_token(l), l.error, false))
}

pub open spec fn fatal(l: Lex, s: TokenizationState) -> (Lex, Outcome) {
    (with_state(l, s), Outcome::Fatal(s))
}

pub open spec fn go(l: Lex, s: TokenizationState) -> (Lex, Outcome) {
    (with_state(l, s), Outcome::Continue)
}

pub open spec fn stay(l: Lex) -> (Lex, Outcome) {
    (l, Outcome::Continue)
}

pub open spec fn nul() -> HtmlTokenizerError {
    HtmlTokenizerError::UnexpectedNullCharacter
}

pub open spec fn step_data(l: Lex, c: char) -> (Lex, Outcome) {
    if c == '&' {
        fatal(l, TokenizationState::CharacterReferenceInData)
    } else if c == '<' {
        go(l, TokenizationState::TagOpen)
    } else if c == '\0' {
        (l, Outcome::Emit(TokenModel::Character('\u{FFFD}'), Some(nul()), false))
    } else {
        (l, Outcome::Emit(TokenModel::Character(c), None, false))
    }
}

pub open spec fn step_tag_open(l: Lex, c: char) -> (Lex, Outcome) {
    if c == '!' {
        fatal(l, TokenizationState::MarkupDeclarationOpen)
    } else if c == '/' {
        (Lex { kind: TagKind::EndTag, ..with_state(l, TokenizationState::EndTagOpen) }, Outcome::Continue)
    } else if is_alpha(c) {
        go(with_name_char(l, lower(c)), TokenizationState::TagName)
    } else if c == '?' {
        (with_state(with_error(l, HtmlTokenizerError::MalformedTagOpen), TokenizationState::BogusComment), Outcome::Reconsume)
    } else {
        (with_state(l, TokenizationState::Data),
         Outcome::Emit(TokenModel::Character('<'), Some(HtmlTokenizerError::MalformedTagOpen), true))
    }
}

pub open spec fn step_end_tag_open(l: Lex, c: char) -> (Lex, Outcome) {
    if is_alpha(c) {
        go(with_name_char(l, lower(c)), TokenizationState::TagName)
    } else if c == '>' {
        (Lex { kind: TagKind::StartTag, ..with_state(l, TokenizationState::Data) }, Outcome::Continue)
    } else {
        (Lex {
            kind: TagKind::StartTag,
            ..with_state(with_error(l, HtmlTokenizerError::MalformedTagOpen), TokenizationState::BogusComment)
        }, Outcome::Reconsume)
    }
}

pub open spec fn step_tag_name(l: Lex, c: char) -> (Lex, Outcome) {
    if is_ws(c) {
        go(l, TokenizationState::BeforeAttributeName)
    } else if c == '/' {
        go(l, TokenizationState::SelfClosingStartTag)
    } else if c == '>' {
        emit_tag(l)
    } else if c == '\0' {
        stay(with_error(with_name_char(l, '\u{FFFD}'), nul()))
    } else {
        stay(with_name_char(l, lower(c)))
    }
}

pub open spec fn step_self_closing(l: Lex, c: char) -> (Lex, Outcome) {
    if c == '>' {
        emit_tag(Lex { self_closing: true, ..l })
    } else {
        (with_state(l, TokenizationState::BeforeAttributeName), Outcome::Reconsume)
    }
}

pub open spec fn step_before_attr_name(l: Lex, c: char) -> (Lex, Outcome) {
    if is_ws(c) {
        stay(l)
    } else if c == '/' {
        go(l, TokenizationState::SelfClosingStartTag)
    } else if c == '>' {
        emit_tag(l)
    } else if c == '\0' {
        go(with_error(with_new_attr(l, '\u{FFFD}'), nul()), TokenizationState::AttributeName)
    } else {
        go(with_new_attr(l, lower(c)), TokenizationState::AttributeName)
    }
}

pub open spec fn step_attr_name(l: Lex, c: char) -> (Lex, Outcome) {
    if is_ws(c) {
        go(l, TokenizationState::AfterAttributeName)
    } else if c == '/' {
        go(l, TokenizationState::SelfClosingStartTag)
    } else if c == '=' {
        go(l, TokenizationState::BeforeAttributeValue)
    } else if c == '>' {
        emit_tag(l)
    } else if c == '\0' {
        stay(with_error(with_attr_name_char(l, '\u{FFFD}'), nul()))
    } else {
        stay(with_attr_name_char(l, lower(c)))
    }
}

pub open spec fn step_after_attr_name(l: Lex, c: char) -> (Lex, Outcome) {
    if is_ws(c) {
        stay(l)
    } else if c == '/' {
        go(l, TokenizationState::SelfClosingStartTag)
    } else if c == '=' {
        go(l, TokenizationState::BeforeAttributeValue)
    } else if c == '>' {
        emit_tag(l)
    } else if c == '\0' {
        go(with_error(with_new_attr(l, '\u{FFFD}'), nul()), TokenizationState::AttributeName)
    } else {
        go(with_new_attr(l, lower(c)), TokenizationState::AttributeName)
    }
}

pub open spec fn step_before_attr_value(l: Lex, c: char) -> (Lex, Outcome) {
    if is_ws(c) {
        stay(l)
    } else if c == '"' {
        go(l, TokenizationState::AttributeValueDoubleQuoted)
    } else if c == '\'' {
        go(l, TokenizationState::AttributeValueSingleQuoted)
    } else if c == '&' {
        (with_state(l, TokenizationState::AttributeValueUnquoted), Outcome::Reconsume)
    } else if c == '>' {
        emit_tag(l)
    } else if c == '\0' {
        go(with_error(with_attr_value_char(l, '\u{FFFD}'), nul()), TokenizationState::AttributeValueUnquoted)
    } else {
        go(with_attr_value_char(l, c), TokenizationState::AttributeValueUnquoted)
    }
}

/// The quoted value states; `q` is the quote that closes the value.
pub open spec fn step_attr_value_quoted(l: Lex, c: char, q: char) -> (Lex, Outcome) {
    if c == q {
        go(l, TokenizationState::AfterAttributeValueQuoted)
    } else if c == '&' {
        fatal(l, TokenizationState::CharacterReferenceInAttributeValue)
    } else if c == '\0' {
        stay(with_error(with_attr_value_char(l, '\u{FFFD}'), nul()))
    } else {
        stay(with_attr_value_char(l, c))
    }
}

/// Characters that may not stand in an unquoted attribute value.
pub open spec fn ends_unquoted_value(c: char) -> bool {
    c == '"' || c == '\'' || c == '<' || c == '=' || c == '`'
}

/// An unquoted value ends at whitespace, and also (dropping the character)
/// at a quote, `<`, `=` or a backtick.
pub open spec fn step_attr_value_unquoted(l: Lex, c: char) -> (Lex, Outcome) {
    if is_ws(c) || ends_unquoted_value(c) {
        go(l, TokenizationState::BeforeAttributeName)
    } else if c == '&' {
        fatal(l, TokenizationState::CharacterReferenceInAttributeValue)
    } else if c == '>' {
        emit_tag(l)
    } else if c == '\0' {
        stay(with_error(with_attr_value_char(l, '\u{FFFD}'), nul()))
    } else {
        stay(with_attr_value_char(l, c))
    }
}

pub open spec fn step_after_attr_value_quoted(l: Lex, c: char) -> (Lex, Outcome) {
    if is_ws(c) {
        go(l, TokenizationState::BeforeAttributeName)
    } else if c == '/' {
        go(l, TokenizationState::SelfClosingStartTag)
    } else if c == '>' {
        emit_tag(l)
    } else {
        (with_state(l, TokenizationState::BeforeAttributeName), Outcome::Reconsume)
    }
}

pub open spec fn step_bogus_comment(l: Lex, c: char) -> (Lex, Outcome) {
    if c == '>' {
        (cleared(TokenizationState::Data), Outcome::Emit(TokenModel::Comment(l.comment), l.error, false))
    } else if c == '\0' {
        stay(with_error(with_comment_char(l, '\u{FFFD}'), nul()))
    } else {
        stay(with_comment_char(l, c))
    }
}

/// The transition table: what one character does in the current state.
pub open spec fn step(l: Lex, c: char) -> (Lex, Outcome) {
    match l.state {
        TokenizationState::Data => step_data(l, c),
        TokenizationState::TagOpen => step_tag_open(l, c),
        TokenizationState::EndTagOpen => step_end_tag_open(l, c),
        TokenizationState::TagName => step_tag_name(l, c),
        TokenizationState::SelfClosingStartTag => step_self_closing(l, c),
        TokenizationState::BeforeAttributeName => step_before_attr_name(l, c),
        TokenizationState::AttributeName => step_attr_name(l, c),
        TokenizationState::AfterAttributeName => step_after_attr_name(l, c),
        TokenizationState::BeforeAttributeValue => step_before_attr_value(l, c),
        TokenizationState::AttributeValueDoubleQuoted => step_attr_value_quoted(l, c, '"'),
        TokenizationState::AttributeValueSingleQuoted => step_attr_value_quoted(l, c, '\''),
        TokenizationState::AttributeValueUnquoted => step_attr_value_unquoted(l, c),
        TokenizationState::AfterAttributeValueQuoted => step_after_attr_value_quoted(l, c),
        TokenizationState::BogusComment => step_bogus_comment(l, c),
        _ => fatal(l, l.state),
    }
}

/// The states from which a character may be reconsumed; a reconsumed
/// character always lands in a state of rank zero.
pub open spec fn rank(s: TokenizationState) -> nat {
    match s {
        TokenizationState::TagOpen | TokenizationState::EndTagOpen
        | TokenizationState::SelfClosingStartTag | TokenizationState::BeforeAttributeValue
        | TokenizationState::AfterAttributeValueQuoted => 1,
        _ => 0,
    }
}

pub open spec fn measure(l: Lex, input: Seq<char>, pos: nat) -> nat {
    if pos <= input.len() {
        (2 * (input.len() - pos) + rank(l.state)) as nat
    } else {
        0
    }
}

/// Reads characters from `pos` on until a token is complete, a fatal state is
/// reached or the input ends; returns the buffers and the position after it.
pub open spec fn run(l: Lex, input: Seq<char>, pos: nat) -> (Lex, nat, Option<ItemModel>)
    decreases measure(l, input, pos),
{
    if pos >= input.len() {
        (l, pos, None)
    } else {
        let (l2, o) = step(l, input[pos as int]);
        match o {
            Outcome::Continue => run(l2, input, pos + 1),
            Outcome::Reconsume => run(l2, input, pos),
            Outcome::Emit(t, e, again) => (l2, if again { pos } else { pos + 1 }, Some(Ok((t, e)))),
            Outcome::Fatal(s) => (l2, pos + 1, Some(Err(HtmlTokenizerError::UnsupportedState(s)))),
        }
    }
}

/// The whole state of a tokenizer.
pub struct TokState {
    pub lex: Lex,
    pub input: Seq<char>,
    pub pos: nat,
    pub finished: bool,
}

/// What one call of `Tokenizer::next` does.
pub open spec fn tok_next(t: TokState) -> (TokState, Option<ItemModel>) {
    if t.finished {
        (t, None)
    } else {
        let (l, p, out) = run(t.lex, t.input, t.pos);
        let finished = match out {
            Some(Ok(_)) => false,
            _ => true,
        };
        (TokState { lex: l, input: t.input, pos: p, finished }, out)
    }
}

/// A tokenizer at the start of the given input.
pub open spec fn tok_start(input: Seq<char>) -> TokState {
    TokState { lex: cleared(TokenizationState::Data), input, pos: 0, finished: false }
}

pub open spec fn tok_measure(t: TokState) -> nat {
    if t.finished { 0 } else { measure(t.lex, t.input, t.pos) + 1 }
}

pub open spec fn tok_wf(t: TokState) -> bool {
    t.pos <= t.input.len()
}

pub proof fn lemma_tok_next_decreases(t: TokState)
    requires
        tok_wf(t),
    ensures
        tok_wf(tok_next(t).0),
        tok_next(t).1 is Some ==> tok_measure(tok_next(t).0) < tok_measure(t),
        tok_next(t).1 is None ==> tok_next(t).0.finished || t.finished,
{
    if !t.finished {
        lemma_run_decreases(t.lex, t.input, t.pos);
    }
}

proof fn lemma_run_decreases(l: Lex, input: Seq<char>, pos: nat)
    requires
        pos <= input.len(),
    ensures
        run(l, input, pos).1 <= input.len(),
        run(l, input, pos).2 is Some ==> measure(run(l, input, pos).0, input, run(l, input, pos).1) < measure(l, input, pos),
    decreases measure(l, input, pos),
{
    if pos < input.len() {
        let (l2, o) = step(l, input[pos as int]);
        match o {
            Outcome::Continue => lemma_run_decreases(l2, input, pos + 1),
            Outcome::Reconsume => lemma_run_decreases(l2, input, pos),
            _ => {},
        }
    }
}



pub open spec fn no_upper(s: Seq<char>) -> bool {
    forall|i: int| 0 <= i < s.len() ==> !is_upper(#[trigger] s[i])
}

pub open spec fn names_lower(name: Seq<char>, attrs: Seq<AttributeModel>) -> bool {
    &&& no_upper(name)
    &&& forall|j: int| 0 <= j < attrs.len() ==> no_upper(#[trigger] attrs[j].0)
}

/// Tag and attribute names hold no ASCII uppercase letter.
pub open spec fn token_lower(t: TokenModel) -> bool {
    match t {
        TokenModel::StartTag(n, _, a) => names_lower(n, a),
        TokenModel::EndTag(n, _, a) => names_lower(n, a),
        _ => true,
    }
}

pub open spec fn item_lower(i: Option<ItemModel>) -> bool {
    i matches Some(Ok((t, _))) ==> token_lower(t)
}

proof fn lemma_lower_not_upper(c: char)
    ensures
        !is_upper(lower(c)),
{
    if is_upper(c) {
        assert(65 <= c as u32 <= 90);
    }
}

proof fn lemma_step_lower(l: Lex, c: char)
    requires
        names_lower(l.name, l.attrs),
    ensures
        names_lower(step(l, c).0.name, step(l, c).0.attrs),
        step(l, c).1 matches Outcome::Emit(t, _, _) ==> token_lower(t),
{
    lemma_lower_not_upper(c);
    assert(!is_upper('\u{FFFD}'));
    let (l2, _) = step(l, c);
    assert forall|i: int| 0 <= i < l2.name.len() implies !is_upper(#[trigger] l2.name[i]) by {
        if i < l.name.len() {
            assert(l.name[i] == l2.name[i]);
        }
    }
    assert forall|j: int| 0 <= j < l2.attrs.len() implies no_upper(#[trigger] l2.attrs[j].0) by {
        if j < l.attrs.len() && j != l.attrs.len() - 1 {
            assert(l2.attrs[j] == l.attrs[j]);
        } else if j < l.attrs.len() {
            assert forall|i: int| 0 <= i < l2.attrs[j].0.len() implies !is_upper(#[trigger] l2.attrs[j].0[i]) by {
                if i < l.attrs[j].0.len() {
                    assert(l2.attrs[j].0[i] == l.attrs[j].0[i]);
                }
            }
        }
    }
}

proof fn lemma_run_lower(l: Lex, input: Seq<char>, pos: nat)
    requires
        pos <= input.len(),
        names_lower(l.name, l.attrs),
    ensures
        names_lower(run(l, input, pos).0.name, run(l, input, pos).0.attrs),
        item_lower(run(l, input, pos).2),
    decreases measure(l, input, pos),
{
    if pos < input.len() {
        lemma_step_lower(l, input[pos as int]);
        let (l2, o) = step(l, input[pos as int]);
        match o {
            Outcome::Continue => lemma_run_lower(l2, input, pos + 1),
            Outcome::Reconsume => lemma_run_lower(l2, input, pos),
            _ => {},
        }
    }
}

/// Tag names and attribute names come out in lowercase: along any run of
/// the tokenizer from its start, no tag that it emits holds an ASCII
/// uppercase letter in its name or in the name of one of its attributes.
pub proof fn lemma_names_lowercase(t: TokState)
    requires
        tok_wf(t),
        names_lower(t.lex.name, t.lex.attrs),
    ensures
        item_lower(tok_next(t).1),
        names_lower(tok_next(t).0.lex.name, tok_next(t).0.lex.attrs),
        names_lower(tok_start(t.input).lex.name, tok_start(t.input).lex.attrs),
{
    if !t.finished {
        lemma_run_lower(t.lex, t.input, t.pos);
    }
}


/// Between characters the self-closing flag is clear, and the tokenizer is
/// in `SelfClosingStartTag` only right after reading a `/`.
pub open spec fn solidus_inv(l: Lex, input: Seq<char>, pos: nat) -> bool {
    &&& !l.self_closing
    &&& l.state == TokenizationState::SelfClosingStartTag ==> pos >= 1 && pos <= input.len() && input[pos - 1] == '/'
}

pub open spec fn is_self_closing_tag(t: TokenModel) -> bool {
    match t {
        TokenModel::StartTag(_, sc, _) => sc,
        TokenModel::EndTag(_, sc, _) => sc,
        _ => false,
    }
}

/// A self-closing tag was completed by the two characters before `end`,
/// which are `/` and `>`.
pub open spec fn ends_with_solidus(input: Seq<char>, end: nat) -> bool {
    end >= 2 && end <= input.len() && input[end - 2] == '/' && input[end - 1] == '>'
}

proof fn lemma_run_self_closing(l: Lex, input: Seq<char>, pos: nat)
    requires
        pos <= input.len(),
        solidus_inv(l, input, pos),
    ensures
        solidus_inv(run(l, input, pos).0, input, run(l, input, pos).1),
        run(l, input, pos).2 matches Some(Ok((t, _))) && is_self_closing_tag(t) ==> ends_with_solidus(
            input,
            run(l, input, pos).1,
        ),
    decreases measure(l, input, pos),
{
    if pos < input.len() {
        let (l2, o) = step(l, input[pos as int]);
        match o {
            Outcome::Continue => lemma_run_self_closing(l2, input, pos + 1),
            Outcome::Reconsume => lemma_run_self_closing(l2, input, pos),
            _ => {},
        }
    }
}

/// A tag comes out self-closing only when its text ends in `/>`, and the
/// flag of one tag never carries over to the next: it is clear in the
/// buffers between tokens, from the start of the input on.
pub proof fn lemma_self_closing_needs_solidus(t: TokState)
    requires
        tok_wf(t),
        solidus_inv(t.lex, t.input, t.pos),
    ensures
        solidus_inv(tok_next(t).0.lex, t.input, tok_next(t).0.pos),
        tok_next(t).1 matches Some(Ok((tok, _))) && is_self_closing_tag(tok) ==> ends_with_solidus(
            t.input,
            tok_next(t).0.pos,
        ),
        solidus_inv(tok_start(t.input).lex, t.input, 0),
{
    if !t.finished {
        lemma_run_self_closing(t.lex, t.input, t.pos);
    }
}


/// The states in which `>` completes a tag.
pub open spec fn closes_tag_on_gt(s: TokenizationState) -> bool {
    match s {
        TokenizationState::TagName | TokenizationState::SelfClosingStartTag
        | TokenizationState::BeforeAttributeName | TokenizationState::AttributeName
        | TokenizationState::AfterAttributeName | TokenizationState::BeforeAttributeValue
        | TokenizationState::AttributeValueUnquoted | TokenizationState::AfterAttributeValueQuoted => true,
        _ => false,
    }
}

/// The value of the last attribute ends in `/`.
pub open spec fn value_ends_with_solidus(attrs: Seq<AttributeModel>) -> bool {
    attrs.len() > 0 && attrs.last().1.len() > 0 && attrs.last().1.last() == '/'
}

pub open spec fn tag_attrs(t: TokenModel) -> Seq<AttributeModel> {
    match t {
        TokenModel::StartTag(_, _, a) => a,
        TokenModel::EndTag(_, _, a) => a,
        _ => Seq::empty(),
    }
}

/// A tag completed just before `end` by `/>` is self-closing, or the `/`
/// ends the unquoted value of its last attribute.
pub open spec fn solidus_outcome(out: Option<ItemModel>, input: Seq<char>, end: nat) -> bool {
    match out {
        Some(Ok((t, _))) => (ends_with_solidus(input, end) && (t is StartTag || t is EndTag)) ==> (
        is_self_closing_tag(t) || value_ends_with_solidus(tag_attrs(t))),
        _ => true,
    }
}

/// When the next character is a `>` that follows a `/` and will complete a
/// tag, the `/` either made the tag self-closing or ended an unquoted value.
pub open spec fn solidus_gt_inv(l: Lex, input: Seq<char>, pos: nat) -> bool {
    (1 <= pos < input.len() && input[pos - 1] == '/' && input[pos as int] == '>' && closes_tag_on_gt(l.state))
        ==> (l.state == TokenizationState::SelfClosingStartTag || (l.state
        == TokenizationState::AttributeValueUnquoted && value_ends_with_solidus(l.attrs)))
}

proof fn lemma_run_solidus_gt(l: Lex, input: Seq<char>, pos: nat)
    requires
        pos <= input.len(),
        solidus_gt_inv(l, input, pos),
    ensures
        solidus_gt_inv(run(l, input, pos).0, input, run(l, input, pos).1),
        solidus_outcome(run(l, input, pos).2, input, run(l, input, pos).1),
    decreases measure(l, input, pos),
{
    if pos < input.len() {
        let (l2, o) = step(l, input[pos as int]);
        match o {
            Outcome::Continue => lemma_run_solidus_gt(l2, input, pos + 1),
            Outcome::Reconsume => lemma_run_solidus_gt(l2, input, pos),
            _ => {},
        }
    }
}

/// A tag whose text ends in `/>` comes out self-closing, unless the `/` is
/// the last character of an unquoted value of its last attribute.
pub proof fn lemma_solidus_makes_self_closing(t: TokState)
    requires
        tok_wf(t),
        solidus_gt_inv(t.lex, t.input, t.pos),
    ensures
        solidus_gt_inv(tok_next(t).0.lex, t.input, tok_next(t).0.pos),
        solidus_outcome(tok_next(t).1, t.input, tok_next(t).0.pos),
        solidus_gt_inv(tok_start(t.input).lex, t.input, 0),
{
    if !t.finished {
        lemma_run_solidus_gt(t.lex, t.input, t.pos);
    }
}

/// Relies on `FromIterator<char>` for `String`: the string holds the
/// characters in order.
#[verifier::external_body]
pub(crate) fn string_of(chars: &Vec<char>) -> (r: String)
    ensures
        r@ == chars@,
{
    chars.iter().collect()
}

/// The result of one character, with the token when one is complete.
pub enum StepOutcome {
    Continue,
    Reconsume,
    Emit(Token, Option<HtmlTokenizerError>, bool),
    Fatal(TokenizationState),
}

impl View for StepOutcome {
    type V = Outcome;

    open spec fn view(&self) -> Outcome {
        match self {
            StepOutcome::Continue => Outcome::Continue,
            StepOutcome::Reconsume => Outcome::Reconsume,
            StepOutcome::Emit(t, e, a) => Outcome::Emit(t@, *e, *a),
            StepOutcome::Fatal(s) => Outcome::Fatal(*s),
        }
    }
}

fn is_ws_exec(c: char) -> (r: bool)
    ensures
        r == is_ws(c),
{
    c == '\t' || c == '\n' || c == '\x0C' || c == ' ' || c == '\r'
}

fn is_alpha_exec(c: char) -> (r: bool)
    ensures
        r == is_alpha(c),
{
    ('A' <= c && c <= 'Z') || ('a' <= c && c <= 'z')
}

fn lower_exec(c: char) -> (r: char)
    ensures
        r == lower(c),
{
    if 'A' <= c && c <= 'Z' {
        ((c as u8) + 32) as char
    } else {
        c
    }
}

pub open spec fn pair_view(p: (Vec<char>, Vec<char>)) -> AttributeModel {
    (p.0@, p.1@)
}

pub open spec fn buf_view(v: Seq<(Vec<char>, Vec<char>)>) -> Seq<AttributeModel> {
    v.map_values(|p: (Vec<char>, Vec<char>)| pair_view(p))
}

/// Splits a document into tokens, one token per call of `next`.
pub struct Tokenizer {
    input: Vec<char>,
    position: usize,
    state: TokenizationState,
    tag_kind: TagKind,
    tag_name_buf: Vec<char>,
    attributes_buf: Vec<(Vec<char>, Vec<char>)>,
    is_self_closing: bool,
    comment_buf: Vec<char>,
    error: Option<HtmlTokenizerError>,
    finished: bool,
}

impl View for Tokenizer {
    type V = TokState;

    closed spec fn view(&self) -> TokState {
        TokState { lex: self.lex(), input: self.input@, pos: self.position as nat, finished: self.finished }
    }
}

impl Tokenizer {
    pub closed spec fn lex(&self) -> Lex {
        Lex {
            state: self.state,
            kind: self.tag_kind,
            name: self.tag_name_buf@,
            attrs: buf_view(self.attributes_buf@),
            self_closing: self.is_self_closing,
            comment: self.comment_buf@,
            error: self.error,
        }
    }

    pub closed spec fn same_input(&self, other: &Tokenizer) -> bool {
        &&& self.input@ == other.input@
        &&& self.position == other.position
        &&& self.finished == other.finished
    }

    pub fn new(document: PreProccessor) -> (r: Tokenizer)
        ensures
            r@ == tok_start(document@),
            tok_wf(r@),
    {
        let t = Tokenizer {
            input: document.into_chars(),
            position: 0,
            state: TokenizationState::Data,
            tag_kind: TagKind::StartTag,
            tag_name_buf: Vec::new(),
            attributes_buf: Vec::new(),
            is_self_closing: false,
            comment_buf: Vec::new(),
            error: None,
            finished: false,
        };
        assert(t.lex().attrs =~= Seq::empty());
        t
    }

    /// Empties the buffers of the token under construction: the tag name, the
    /// attributes, the self-closing flag, the comment text and the pending
    /// error. The state, the tag kind and the position stay as they are.
    pub fn reset(&mut self)
        ensures
            final(self)@ == (TokState { lex: emptied(old(self)@.lex), ..old(self)@ }),
    {
        self.tag_name_buf.clear();
        self.attributes_buf.clear();
        self.is_self_closing = false;
        self.comment_buf.clear();
        self.error = None;
        assert(self.lex().attrs =~= Seq::empty());
        assert(self.tag_name_buf@ =~= Seq::empty());
        assert(self.comment_buf@ =~= Seq::empty());
    }

    fn set_state(&mut self, s: TokenizationState)
        ensures
            final(self).lex() == with_state(old(self).lex(), s),
            final(self).same_input(old(self)),
    {
        self.state = s;
    }

    fn note_error(&mut self, e: HtmlTokenizerError)
        ensures
            final(self).lex() == with_error(old(self).lex(), e),
            final(self).same_input(old(self)),
    {
        if self.error.is_none() {
            self.error = Some(e);
        }
    }

    fn push_name_char(&mut self, c: char)
        ensures
            final(self).lex() == with_name_char(old(self).lex(), c),
            final(self).same_input(old(self)),
    {
        self.tag_name_buf.push(c);
    }

    fn push_comment_char(&mut self, c: char)
        ensures
            final(self).lex() == with_comment_char(old(self).lex(), c),
            final(self).same_input(old(self)),
    {
        self.comment_buf.push(c);
    }

    fn start_attribute(&mut self, c: char)
        ensures
            final(self).lex() == with_new_attr(old(self).lex(), c),
            final(self).same_input(old(self)),
    {
        let ghost before = self.attributes_buf@;
        let n = vec![c];
        let v: Vec<char> = Vec::new();
        assert(pair_view((n, v)) == (seq![c], Seq::<char>::empty())) by {
            assert(n@ =~= seq![c]);
            assert(v@ =~= Seq::<char>::empty());
        }
        self.attributes_buf.push((n, v));
        proof {
            assert(buf_view(self.attributes_buf@) =~= buf_view(before).push((seq![c], Seq::empty())));
        }
    }

    fn push_attr_name_char(&mut self, c: char)
        ensures
            final(self).lex() == with_attr_name_char(old(self).lex(), c),
            final(self).same_input(old(self)),
    {
        let ghost before = self.attributes_buf@;
        match self.attributes_buf.pop() {
            Some(last) => {
                let (mut n, v) = last;
                n.push(c);
                self.attributes_buf.push((n, v));
                proof {
                    assert(buf_view(self.attributes_buf@) =~= buf_view(before).update(
                        before.len() - 1,
                            (buf_view(before).last().0.push(c), buf_view(before).last().1),
                    ));
                }
            },
            None => {
                let n = vec![c];
                let v: Vec<char> = Vec::new();
                assert(pair_view((n, v)) == (seq![c], Seq::<char>::empty())) by {
                    assert(n@ =~= seq![c]);
                    assert(v@ =~= Seq::<char>::empty());
                }
                self.attributes_buf.push((n, v));
                proof {
                    assert(buf_view(self.attributes_buf@) =~= buf_view(before).push((seq![c], Seq::empty())));
                }
            },
        }
    }

    fn push_attr_value_char(&mut self, c: char)
        ensures
            final(self).lex() == with_attr_value_char(old(self).lex(), c),
            final(self).same_input(old(self)),
    {
        let ghost before = self.attributes_buf@;
        match self.attributes_buf.pop() {
            Some(last) => {
                let (n, mut v) = last;
                v.push(c);
                self.attributes_buf.push((n, v));
                proof {
                    assert(buf_view(self.attributes_buf@) =~= buf_view(before).update(
                        before.len() - 1,
                            (buf_view(before).last().0, buf_view(before).last().1.push(c)),
                    ));
                }
            },
            None => {
                let n: Vec<char> = Vec::new();
                let v = vec![c];
                assert(pair_view((n, v)) == (Seq::<char>::empty(), seq![c])) by {
                    assert(v@ =~= seq![c]);
                    assert(n@ =~= Seq::<char>::empty());
                }
                self.attributes_buf.push((n, v));
                proof {
                    assert(buf_view(self.attributes_buf@) =~= buf_view(before).push((Seq::empty(), seq![c])));
                }
            },
        }
    }

    /// The attributes collected so far, as a list of `Attribute`s.
    fn collect_attributes(&self) -> (r: Vec<Attribute>)
        ensures
            attrs_view(r@) == self.lex().attrs,
    {
        let mut out: Vec<Attribute> = Vec::new();
        let mut i: usize = 0;
        while i < self.attributes_buf.len()
            invariant
                i <= self.attributes_buf@.len(),
                attrs_view(out@) =~= buf_view(self.attributes_buf@.take(i as int)),
            decreases self.attributes_buf@.len() - i,
        {
            let a = Attribute {
                name: string_of(&self.attributes_buf[i].0),
                value: string_of(&self.attributes_buf[i].1),
            };
            assert(a@ == pair_view(self.attributes_buf@[i as int]));
            let ghost prev = out@;
            out.push(a);
            i = i + 1;
            proof {
                assert(out@ =~= prev.push(a));
                assert(attrs_view(prev.push(a)) =~= attrs_view(prev).push(a@));
                assert(buf_view(self.attributes_buf@.take(i as int)) =~= buf_view(self.attributes_buf@.take(i - 1)).push(
                    pair_view(self.attributes_buf@[i - 1]),
                ));
                assert(self.attributes_buf@.take(i as int) =~= self.attributes_buf@.take(i - 1).push(self.attributes_buf@[i - 1]));
                assert(attrs_view(out@) =~= buf_view(self.attributes_buf@.take(i as int)));
            }
        }
        assert(self.attributes_buf@.take(i as int) =~= self.attributes_buf@);
        out
    }

    /// Completes the tag under construction, empties the buffers and goes back
    /// to `Data`.
    fn emit_tag(&mut self) -> (r: StepOutcome)
        ensures
            (final(self).lex(), r@) == emit_tag(old(self).lex()),
            final(self).same_input(old(self)),
    {
        let name = string_of(&self.tag_name_buf);
        let attrs = self.collect_attributes();
        let token = match self.tag_kind {
            TagKind::StartTag => Token::StartTag(name, self.is_self_closing, attrs),
            TagKind::EndTag => Token::EndTag(name, self.is_self_closing, attrs),
        };
        let e = self.error;
        self.state = TokenizationState::Data;
        self.tag_kind = TagKind::StartTag;
        self.reset();
        StepOutcome::Emit(token, e, false)
    }

    fn fatal(&mut self, s: TokenizationState) -> (r: StepOutcome)
        ensures
            (final(self).lex(), r@) == fatal(old(self).lex(), s),
            final(self).same_input(old(self)),
    {
        self.state = s;
        StepOutcome::Fatal(s)
    }

    fn step_data(&mut self, c: char) -> (r: StepOutcome)
        ensures
            (final(self).lex(), r@) == step_data(old(self).lex(), c),
            final(self).same_input(old(self)),
    {
        if c == '&' {
            self.fatal(TokenizationState::CharacterReferenceInData)
        } else if c == '<' {
            self.set_state(TokenizationState::TagOpen);
            StepOutcome::Continue
        } else if c == '\0' {
            StepOutcome::Emit(Token::Character('\u{FFFD}'), Some(HtmlTokenizerError::UnexpectedNullCharacter), false)
        } else {
            StepOutcome::Emit(Token::Character(c), None, false)
        }
    }

    fn step_tag_open(&mut self, c: char) -> (r: StepOutcome)
        ensures
            (final(self).lex(), r@) == step_tag_open(old(self).lex(), c),
            final(self).same_input(old(self)),
    {
        if c == '!' {
            self.fatal(TokenizationState::MarkupDeclarationOpen)
        } else if c == '/' {
            self.tag_kind = TagKind::EndTag;
            self.set_state(TokenizationState::EndTagOpen);
            StepOutcome::Continue
        } else if is_alpha_exec(c) {
            self.push_name_char(lower_exec(c));
            self.set_state(TokenizationState::TagName);
            StepOutcome::Continue
        } else if c == '?' {
            self.note_error(HtmlTokenizerError::MalformedTagOpen);
            self.set_state(TokenizationState::BogusComment);
            StepOutcome::Reconsume
        } else {
            self.set_state(TokenizationState::Data);
            StepOutcome::Emit(Token::Character('<'), Some(HtmlTokenizerError::MalformedTagOpen), true)
        }
    }

    fn step_end_tag_open(&mut self, c: char) -> (r: StepOutcome)
        ensures
            (final(self).lex(), r@) == step_end_tag_open(old(self).lex(), c),
            final(self).same_input(old(self)),
    {
        if is_alpha_exec(c) {
            self.push_name_char(lower_exec(c));
            self.set_state(TokenizationState::TagName);
            StepOutcome::Continue
        } else if c == '>' {
            self.tag_kind = TagKind::StartTag;
            self.set_state(TokenizationState::Data);
            StepOutcome::Continue
        } else {
            self.note_error(HtmlTokenizerError::MalformedTagOpen);
            self.tag_kind = TagKind::StartTag;
            self.set_state(TokenizationState::BogusComment);
            StepOutcome::Reconsume
        }
    }

    fn step_tag_name(&mut self, c: char) -> (r: StepOutcome)
        ensures
            (final(self).lex(), r@) == step_tag_name(old(self).lex(), c),
            final(self).same_input(old(self)),
    {
        if is_ws_exec(c) {
            self.set_state(TokenizationState::BeforeAttributeName);
            StepOutcome::Continue
        } else if c == '/' {
            self.set_state(TokenizationState::SelfClosingStartTag);
            StepOutcome::Continue
        } else if c == '>' {
            self.emit_tag()
        } else if c == '\0' {
            self.push_name_char('\u{FFFD}');
            self.note_error(HtmlTokenizerError::UnexpectedNullCharacter);
            StepOutcome::Continue
        } else {
            self.push_name_char(lower_exec(c));
            StepOutcome::Continue
        }
    }

    fn step_self_closing(&mut self, c: char) -> (r: StepOutcome)
        ensures
            (final(self).lex(), r@) == step_self_closing(old(self).lex(), c),
            final(self).same_input(old(self)),
    {
        if c == '>' {
            self.is_self_closing = true;
            self.emit_tag()
        } else {
            self.set_state(TokenizationState::BeforeAttributeName);
            StepOutcome::Reconsume
        }
    }

    fn step_before_attr_name(&mut self, c: char) -> (r: StepOutcome)
        ensures
            (final(self).lex(), r@) == step_before_attr_name(old(self).lex(), c),
            final(self).same_input(old(self)),
    {
        if is_ws_exec(c) {
            StepOutcome::Continue
        } else if c == '/' {
            self.set_state(TokenizationState::SelfClosingStartTag);
            StepOutcome::Continue
        } else if c == '>' {
            self.emit_tag()
        } else if c == '\0' {
            self.start_attribute('\u{FFFD}');
            self.note_error(HtmlTokenizerError::UnexpectedNullCharacter);
            self.set_state(TokenizationState::AttributeName);
            StepOutcome::Continue
        } else {
            self.start_attribute(lower_exec(c));
            self.set_state(TokenizationState::AttributeName);
            StepOutcome::Continue
        }
    }

    fn step_attr_name(&mut self, c: char) -> (r: StepOutcome)
        ensures
            (final(self).lex(), r@) == step_attr_name(old(self).lex(), c),
            final(self).same_input(old(self)),
    {
        if is_ws_exec(c) {
            self.set_state(TokenizationState::AfterAttributeName);
            StepOutcome::Continue
        } else if c == '/' {
            self.set_state(TokenizationState::SelfClosingStartTag);
            StepOutcome::Continue
        } else if c == '=' {
            self.set_state(TokenizationState::BeforeAttributeValue);
            StepOutcome::Continue
        } else if c == '>' {
            self.emit_tag()
        } else if c == '\0' {
            self.push_attr_name_char('\u{FFFD}');
            self.note_error(HtmlTokenizerError::UnexpectedNullCharacter);
            StepOutcome::Continue
        } else {
            self.push_attr_name_char(lower_exec(c));
            StepOutcome::Continue
        }
    }

    fn step_after_attr_name(&mut self, c: char) -> (r: StepOutcome)
        ensures
            (final(self).lex(), r@) == step_after_attr_name(old(self).lex(), c),
            final(self).same_input(old(self)),
    {
        if is_ws_exec(c) {
            StepOutcome::Continue
        } else if c == '/' {
            self.set_state(TokenizationState::SelfClosingStartTag);
            StepOutcome::Continue
        } else if c == '=' {
            self.set_state(TokenizationState::BeforeAttributeValue);
            StepOutcome::Continue
        } else if c == '>' {
            self.emit_tag()
        } else if c == '\0' {
            self.start_attribute('\u{FFFD}');
            self.note_error(HtmlTokenizerError::UnexpectedNullCharacter);
            self.set_state(TokenizationState::AttributeName);
            StepOutcome::Continue
        } else {
            self.start_attribute(lower_exec(c));
            self.set_state(TokenizationState::AttributeName);
            StepOutcome::Continue
        }
    }

    fn step_before_attr_value(&mut self, c: char) -> (r: StepOutcome)
        ensures
            (final(self).lex(), r@) == step_before_attr_value(old(self).lex(), c),
            final(self).same_input(old(self)),
    {
        if is_ws_exec(c) {
            StepOutcome::Continue
        } else if c == '"' {
            self.set_state(TokenizationState::AttributeValueDoubleQuoted);
            StepOutcome::Continue
        } else if c == '\'' {
            self.set_state(TokenizationState::AttributeValueSingleQuoted);
            StepOutcome::Continue
        } else if c == '&' {
            self.set_state(TokenizationState::AttributeValueUnquoted);
            StepOutcome::Reconsume
        } else if c == '>' {
            self.emit_tag()
        } else if c == '\0' {
            self.push_attr_value_char('\u{FFFD}');
            self.note_error(HtmlTokenizerError::UnexpectedNullCharacter);
            self.set_state(TokenizationState::AttributeValueUnquoted);
            StepOutcome::Continue
        } else {
            self.push_attr_value_char(c);
            self.set_state(TokenizationState::AttributeValueUnquoted);
            StepOutcome::Continue
        }
    }

    fn step_attr_value_quoted(&mut self, c: char, q: char) -> (r: StepOutcome)
        ensures
            (final(self).lex(), r@) == step_attr_value_quoted(old(self).lex(), c, q),
            final(self).same_input(old(self)),
    {
        if c == q {
            self.set_state(TokenizationState::AfterAttributeValueQuoted);
            StepOutcome::Continue
        } else if c == '&' {
            self.fatal(TokenizationState::CharacterReferenceInAttributeValue)
        } else if c == '\0' {
            self.push_attr_value_char('\u{FFFD}');
            self.note_error(HtmlTokenizerError::UnexpectedNullCharacter);
            StepOutcome::Continue
        } else {
            self.push_attr_value_char(c);
            StepOutcome::Continue
        }
    }

    fn step_attr_value_unquoted(&mut self, c: char) -> (r: StepOutcome)
        ensures
            (final(self).lex(), r@) == step_attr_value_unquoted(old(self).lex(), c),
            final(self).same_input(old(self)),
    {
        if is_ws_exec(c) || c == '"' || c == '\'' || c == '<' || c == '=' || c == '`' {
            self.set_state(TokenizationState::BeforeAttributeName);
            StepOutcome::Continue
        } else if c == '&' {
            self.fatal(TokenizationState::CharacterReferenceInAttributeValue)
        } else if c == '>' {
            self.emit_tag()
        } else if c == '\0' {
            self.push_attr_value_char('\u{FFFD}');
            self.note_error(HtmlTokenizerError::UnexpectedNullCharacter);
            StepOutcome::Continue
        } else {
            self.push_attr_value_char(c);
            StepOutcome::Continue
        }
    }

    fn step_after_attr_value_quoted(&mut self, c: char) -> (r: StepOutcome)
        ensures
            (final(self).lex(), r@) == step_after_attr_value_quoted(old(self).lex(), c),
            final(self).same_input(old(self)),
    {
        if is_ws_exec(c) {
            self.set_state(TokenizationState::BeforeAttributeName);
            StepOutcome::Continue
        } else if c == '/' {
            self.set_state(TokenizationState::SelfClosingStartTag);
            StepOutcome::Continue
        } else if c == '>' {
            self.emit_tag()
        } else {
            self.set_state(TokenizationState::BeforeAttributeName);
            StepOutcome::Reconsume
        }
    }

    fn step_bogus_comment(&mut self, c: char) -> (r: StepOutcome)
        ensures
            (final(self).lex(), r@) == step_bogus_comment(old(self).lex(), c),
            final(self).same_input(old(self)),
    {
        if c == '>' {
            let data = string_of(&self.comment_buf);
            let e = self.error;
            self.state = TokenizationState::Data;
            self.tag_kind = TagKind::StartTag;
            self.reset();
            StepOutcome::Emit(Token::Comment(data), e, false)
        } else if c == '\0' {
            self.push_comment_char('\u{FFFD}');
            self.note_error(HtmlTokenizerError::UnexpectedNullCharacter);
            StepOutcome::Continue
        } else {
            self.push_comment_char(c);
            StepOutcome::Continue
        }
    }

    /// Processes one character in the current state.
    fn step(&mut self, c: char) -> (r: StepOutcome)
        ensures
            (final(self).lex(), r@) == step(old(self).lex(), c),
            final(self).same_input(old(self)),
    {
        match self.state {
            TokenizationState::Data => self.step_data(c),
            TokenizationState::TagOpen => self.step_tag_open(c),
            TokenizationState::EndTagOpen => self.step_end_tag_open(c),
            TokenizationState::TagName => self.step_tag_name(c),
            TokenizationState::SelfClosingStartTag => self.step_self_closing(c),
            TokenizationState::BeforeAttributeName => self.step_before_attr_name(c),
            TokenizationState::AttributeName => self.step_attr_name(c),
            TokenizationState::AfterAttributeName => self.step_after_attr_name(c),
            TokenizationState::BeforeAttributeValue => self.step_before_attr_value(c),
            TokenizationState::AttributeValueDoubleQuoted => self.step_attr_value_quoted(c, '"'),
            TokenizationState::AttributeValueSingleQuoted => self.step_attr_value_quoted(c, '\''),
            TokenizationState::AttributeValueUnquoted => self.step_attr_value_unquoted(c),
            TokenizationState::AfterAttributeValueQuoted => self.step_after_attr_value_quoted(c),
            TokenizationState::BogusComment => self.step_bogus_comment(c),
            _ => {
                let s = self.state;
                self.fatal(s)
            },
        }
    }

    /// The next token of the document, with the first non-fatal error met
    /// while building it; `None` once the input is exhausted or after a fatal
    /// error.
    pub fn next(&mut self) -> (r: Option<Item>)
        requires
            tok_wf(old(self)@),
        ensures
            (final(self)@, opt_item_view(r)) == tok_next(old(self)@),
            tok_wf(final(self)@),
    {
        if self.finished {
            return None;
        }
        loop
            invariant
                !self.finished,
                !old(self).finished,
                tok_wf(old(self)@),
                self.input@ == old(self).input@,
                self.position <= self.input@.len(),
                run(self.lex(), self.input@, self.position as nat) == run(
                    old(self).lex(),
                    old(self).input@,
                    old(self).position as nat,
                ),
            decreases measure(self.lex(), self.input@, self.position as nat),
        {
            if self.position >= self.input.len() {
                assert(run(self.lex(), self.input@, self.position as nat) == (self.lex(), self.position as nat, None::<ItemModel>));
                self.finished = true;
                return None;
            }
            let c = self.input[self.position];
            let ghost l0 = self.lex();
            let ghost p0 = self.position as nat;
            assert(c == self.input@[p0 as int]);
            let o = self.step(c);
            match o {
                StepOutcome::Continue => {
                    self.position = self.position + 1;
                },
                StepOutcome::Reconsume => {},
                StepOutcome::Emit(t, e, again) => {
                    if !again {
                        self.position = self.position + 1;
                    }
                    assert(run(l0, self.input@, p0) == (self.lex(), self.position as nat, Some(item_view(Ok((t, e))))));
                    return Some(Ok((t, e)));
                },
                StepOutcome::Fatal(s) => {
                    self.position = self.position + 1;
                    self.finished = true;
                    let r: Item = Err(HtmlTokenizerError::UnsupportedState(s));
                    assert(run(l0, self.input@, p0) == (self.lex(), self.position as nat, Some(item_view(r))));
                    return Some(r);
                },
            }
        }
    }

}


/// All tokens that are left, in order, or the fatal error that ends the
/// stream; non-fatal errors are dropped.
pub open spec fn token_list(t: TokState) -> Result<Seq<TokenModel>, HtmlTokenizerError>
    decreases tok_measure(t)
        when tok_wf(t)
{
    proof {
        lemma_tok_next_decreases(t);
    }
    match tok_next(t).1 {
        None => Ok(Seq::empty()),
        Some(Err(e)) => Err(e),
        Some(Ok((tok, _))) => match token_list(tok_next(t).0) {
            Ok(rest) => Ok(seq![tok] + rest),
            Err(e) => Err(e),
        },
    }
}


proof fn lemma_token_list_lower(t: TokState)
    requires
        tok_wf(t),
        names_lower(t.lex.name, t.lex.attrs),
    ensures
        token_list(t) matches Ok(s) ==> forall|k: int| 0 <= k < s.len() ==> token_lower(#[trigger] s[k]),
    decreases tok_measure(t),
{
    lemma_tok_next_decreases(t);
    lemma_names_lowercase(t);
    let (t2, out) = tok_next(t);
    if let Some(Ok((tok, _))) = out {
        lemma_token_list_lower(t2);
        if let Ok(rest) = token_list(t2) {
            let s = seq![tok] + rest;
            assert forall|k: int| 0 <= k < s.len() implies token_lower(#[trigger] s[k]) by {
                if k > 0 {
                    assert(s[k] == rest[k - 1]);
                }
            }
        }
    }
}

/// Tokenizing any document gives tags whose names, and whose attributes'
/// names, hold no ASCII uppercase letter.
pub proof fn lemma_document_names_lowercase(input: Seq<char>)
    ensures
        token_list(tok_start(input)) matches Ok(s) ==> forall|k: int|
            0 <= k < s.len() ==> token_lower(#[trigger] s[k]),
{
    lemma_token_list_lower(tok_start(input));
}

impl TokenStream {
    /// Runs the tokenizer to the end and keeps every token.
    pub fn from_tokenizer(source: Tokenizer) -> (r: Result<TokenStream, HtmlTokenizerError>)
        requires
            tok_wf(source@),
        ensures
            match token_list(source@) {
                Ok(s) => r matches Ok(ts) && ts.tokens@.map_values(|t: Token| t@) == s,
                Err(e) => r == Err::<TokenStream, _>(e),
            },
    {
        let ghost whole = token_list(source@);
        let mut tokenizer = source;
        let mut tokens: Vec<Token> = Vec::new();
        loop
            invariant
                tok_wf(tokenizer@),
                whole == token_list(source@),
                whole == match token_list(tokenizer@) {
                    Ok(rest) => Ok(tokens@.map_values(|t: Token| t@) + rest),
                    Err(e) => Err(e),
                },
            decreases tok_measure(tokenizer@),
        {
            proof {
                lemma_tok_next_decreases(tokenizer@);
            }
            let ghost before = tokenizer@;
            match tokenizer.next() {
                None => {
                    assert(token_list(before) == Ok::<_, HtmlTokenizerError>(Seq::<TokenModel>::empty()));
                    assert(tokens@.map_values(|t: Token| t@) + Seq::empty() =~= tokens@.map_values(|t: Token| t@));
                    return Ok(TokenStream { tokens });
                },
                Some(Err(e)) => {
                    assert(token_list(before) == Err::<Seq<TokenModel>, _>(e));
                    return Err(e);
                },
                Some(Ok((t, _))) => {
                    let ghost prefix = tokens@.map_values(|t: Token| t@);
                    let ghost tv = t@;
                    tokens.push(t);
                    proof {
                        assert(tokens@.map_values(|t: Token| t@) =~= prefix.push(tv));
                        match token_list(tokenizer@) {
                            Ok(rest) => {
                                assert(prefix + (seq![tv] + rest) =~= prefix.push(tv) + rest);
                            },
                            Err(_) => {},
                        }
                    }
                },
            }
        }
    }
}

} // verus!
