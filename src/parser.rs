use vstd::prelude::*;

use crate::arena::{doc_insert, Document, Element, ElementKind, NodeModel};
use crate::error::{HtmlParseError, HtmlTokenizerError};
use crate::states::{is_implemented_mode, InsertionMode};
use crate::token::{Token, TokenModel};
use crate::preprocessor::PreProccessor;
use crate::states::TokenizationState;
use crate::tokenizer::{
    cleared, is_ws, run, step, tok_measure, tok_next, tok_start, tok_wf, ItemModel, Outcome, TokState, Tokenizer,
};

verus! {

/// The parse state as a value: open elements and the head pointer are node
/// handles, `doc` is the tree built so far.
pub struct ParseModel {
    pub mode: InsertionMode,
    pub open: Seq<nat>,
    pub head: Option<nat>,
    pub frameset_ok: bool,
    pub reconsume: bool,
    pub doc: Seq<NodeModel>,
}

/// What a parse error holds, with the token as a value.
pub enum ParseErrorModel {
    NotHandled(InsertionMode),
    ReconsumeNone,
    Unexpected(TokenModel),
    Generic,
    Tokenizer(HtmlTokenizerError),
}

impl View for HtmlParseError {
    type V = ParseErrorModel;

    open spec fn view(&self) -> ParseErrorModel {
        match self {
            HtmlParseError::InsertionModeCaseNotHandled(m) => ParseErrorModel::NotHandled(*m),
            HtmlParseError::ReconsumeNonExistingToken => ParseErrorModel::ReconsumeNone,
            HtmlParseError::UnexpectedToken(t) => ParseErrorModel::Unexpected(t@),
            HtmlParseError::GenericParseError => ParseErrorModel::Generic,
            HtmlParseError::Tokenizer(e) => ParseErrorModel::Tokenizer(*e),
        }
    }
}

pub type StepModel = Result<ParseModel, ParseErrorModel>;

/// The initial state: mode `Initial`, nothing open, an empty tree.
pub open spec fn initial_model() -> ParseModel {
    ParseModel {
        mode: InsertionMode::Initial,
        open: Seq::empty(),
        head: None,
        frameset_ok: true,
        reconsume: false,
        doc: Seq::empty(),
    }
}

pub open spec fn top(open: Seq<nat>) -> Option<nat> {
    if open.len() > 0 {
        Some(open.last())
    } else {
        None
    }
}

/// Creates an element as the last child of the current node (or as a root
/// when nothing is open) and pushes it on the stack of open elements. The
/// tree cannot grow past the machine's index range.
pub open spec fn insert(m: ParseModel, kind: ElementKind) -> StepModel {
    if m.doc.len() + 1 >= usize::MAX {
        Err(ParseErrorModel::Generic)
    } else {
        Ok(ParseModel {
            doc: doc_insert(m.doc, Element { kind }, top(m.open)),
            open: m.open.push(m.doc.len()),
            ..m
        })
    }
}

pub open spec fn with_mode(m: ParseModel, mode: InsertionMode) -> ParseModel {
    ParseModel { mode, ..m }
}

pub open spec fn then_mode(r: StepModel, mode: InsertionMode) -> StepModel {
    match r {
        Ok(m) => Ok(with_mode(m, mode)),
        Err(e) => Err(e),
    }
}

pub open spec fn initial(m: ParseModel, t: TokenModel) -> StepModel {
    match t {
        TokenModel::Character(c) => if is_ws(c) {
            Ok(m)
        } else {
            Ok(ParseModel { mode: InsertionMode::BeforeHtml, reconsume: true, ..m })
        },
        TokenModel::Comment(_) => Ok(m),
        TokenModel::Doctype(..) => Ok(with_mode(m, InsertionMode::BeforeHtml)),
        _ => Ok(ParseModel { mode: InsertionMode::BeforeHtml, reconsume: true, ..m }),
    }
}

pub open spec fn is_start_tag_named(t: TokenModel, name: Seq<char>) -> bool {
    t matches TokenModel::StartTag(n, _, _) && n == name
}

pub open spec fn before_html(m: ParseModel, t: TokenModel) -> StepModel {
    match t {
        TokenModel::Doctype(..) => Err(ParseErrorModel::Unexpected(t)),
        TokenModel::Comment(_) => Ok(m),
        TokenModel::Character(c) if is_ws(c) => Ok(m),
        _ => match insert(m, ElementKind::Html) {
            Ok(m1) => Ok(ParseModel {
                mode: InsertionMode::BeforeHead,
                reconsume: !is_start_tag_named(t, "html"@),
                ..m1
            }),
            Err(e) => Err(e),
        },
    }
}

/// Creates a `head` element and records it as the head pointer.
pub open spec fn insert_head(m: ParseModel) -> StepModel {
    match insert(m, ElementKind::Head) {
        Ok(m1) => Ok(ParseModel { head: Some(m.doc.len()), ..m1 }),
        Err(e) => Err(e),
    }
}

pub open spec fn before_head(m: ParseModel, t: TokenModel) -> StepModel {
    match t {
        TokenModel::Character(c) => if is_ws(c) {
            Ok(m)
        } else {
            insert(m, ElementKind::Head)
        },
        TokenModel::Comment(_) => Ok(m),
        TokenModel::Doctype(..) => Err(ParseErrorModel::Unexpected(t)),
        TokenModel::StartTag(n, _, _) => if n == "html"@ {
            in_body(m, t)
        } else if n == "head"@ {
            then_mode(insert_head(m), InsertionMode::InHead)
        } else {
            insert(m, ElementKind::Head)
        },
        TokenModel::EndTag(n, _, _) => if n == "head"@ || n == "body"@ || n == "html"@ || n == "br"@ {
            insert(m, ElementKind::Head)
        } else {
            Err(ParseErrorModel::Generic)
        },
        TokenModel::EndOfInput => insert(m, ElementKind::Head),
    }
}

pub open spec fn in_head(m: ParseModel, t: TokenModel) -> StepModel {
    match t {
        TokenModel::EndTag(n, _, _) if n == "head"@ => Ok(ParseModel {
            open: if m.open.len() > 0 { m.open.drop_last() } else { m.open },
            mode: InsertionMode::AfterHead,
            ..m
        }),
        _ => Ok(m),
    }
}

pub open spec fn after_head(m: ParseModel, t: TokenModel) -> StepModel {
    match t {
        TokenModel::StartTag(..) => match insert(m, ElementKind::Body) {
            Ok(m1) => Ok(ParseModel { frameset_ok: false, mode: InsertionMode::InBody, ..m1 }),
            Err(e) => Err(e),
        },
        _ => Ok(m),
    }
}

pub open spec fn in_body(m: ParseModel, t: TokenModel) -> StepModel {
    match t {
        TokenModel::EndTag(n, _, _) if n == "body"@ => Ok(with_mode(m, InsertionMode::AfterBody)),
        _ => Err(ParseErrorModel::NotHandled(InsertionMode::InBody)),
    }
}

pub open spec fn after_body(m: ParseModel, t: TokenModel) -> StepModel {
    match t {
        TokenModel::EndTag(n, _, _) if n == "html"@ => Ok(with_mode(m, InsertionMode::AfterAfterBody)),
        _ => Err(ParseErrorModel::NotHandled(InsertionMode::AfterBody)),
    }
}

pub open spec fn after_after_body(m: ParseModel, t: TokenModel) -> StepModel {
    match t {
        TokenModel::Character(c) if is_ws(c) => Ok(m),
        TokenModel::Comment(_) | TokenModel::EndOfInput => Ok(m),
        _ => Err(ParseErrorModel::NotHandled(InsertionMode::AfterAfterBody)),
    }
}

/// What the handler of the current insertion mode does with a token.
pub open spec fn dispatch(m: ParseModel, t: TokenModel) -> StepModel {
    match m.mode {
        InsertionMode::Initial => initial(m, t),
        InsertionMode::BeforeHtml => before_html(m, t),
        InsertionMode::BeforeHead => before_head(m, t),
        InsertionMode::InHead => in_head(m, t),
        InsertionMode::AfterHead => after_head(m, t),
        InsertionMode::InBody => in_body(m, t),
        InsertionMode::AfterBody => after_body(m, t),
        InsertionMode::AfterAfterBody => after_after_body(m, t),
        _ => Err(ParseErrorModel::NotHandled(m.mode)),
    }
}

/// Where the driver takes the next token from.
pub enum Pull {
    /// The tokenizer has no more tokens.
    Done,
    Fail(ParseErrorModel),
    /// The token to dispatch, and the tokenizer after it was taken.
    Next(TokState, TokenModel),
}

/// A token asked for again is the previous one and leaves the tokenizer as
/// it is; otherwise the tokenizer is asked for a new one.
pub open spec fn pull(t: TokState, m: ParseModel, previous: Option<TokenModel>) -> Pull {
    if m.reconsume {
        match previous {
            None => Pull::Fail(ParseErrorModel::ReconsumeNone),
            Some(tok) => Pull::Next(t, tok),
        }
    } else {
        match tok_next(t).1 {
            None => Pull::Done,
            Some(Err(e)) => Pull::Fail(ParseErrorModel::Tokenizer(e)),
            Some(Ok((tok, _))) => Pull::Next(tok_next(t).0, tok),
        }
    }
}

/// Modes from which a token may be handed on with a request to reconsume it.
pub open spec fn mode_rank(m: InsertionMode) -> nat {
    match m {
        InsertionMode::Initial => 2,
        InsertionMode::BeforeHtml => 1,
        _ => 0,
    }
}

/// The result of parsing everything that is left.
pub open spec fn parse_loop(t: TokState, m: ParseModel, previous: Option<TokenModel>) -> StepModel
    decreases tok_measure(t), mode_rank(m.mode), if m.reconsume { 1nat } else { 0nat }
        when tok_wf(t)
{
    proof {
        crate::tokenizer::lemma_tok_next_decreases(t);
    }
    match pull(t, m, previous) {
        Pull::Done => Ok(m),
        Pull::Fail(e) => Err(e),
        Pull::Next(t2, tok) => match dispatch(ParseModel { reconsume: false, ..m }, tok) {
            Ok(m2) => parse_loop(t2, m2, Some(tok)),
            Err(e) => Err(e),
        },
    }
}


/// The handler returned what `expected` says: on success the state became
/// the expected one, on failure the expected error came back and the state
/// was left as it was.
pub open spec fn outcome_matches(
    r: Result<(), HtmlParseError>,
    before: ParseModel,
    after: ParseModel,
    expected: StepModel,
) -> bool {
    match expected {
        Ok(m) => r is Ok && after == m,
        Err(e) => r matches Err(x) && x@ == e && after == before,
    }
}

pub open spec fn opt_token_view(t: Option<Token>) -> Option<TokenModel> {
    match t {
        Some(x) => Some(x@),
        None => None,
    }
}

/// Every open element and the head pointer name a node of the tree.
pub open spec fn handles_in_tree(m: ParseModel) -> bool {
    &&& forall|i: int| 0 <= i < m.open.len() ==> #[trigger] m.open[i] < m.doc.len()
    &&& m.head matches Some(h) ==> h < m.doc.len()
}

/// The state of the tree builder.
pub struct ParseState {
    frame_set_ok: bool,
    reconsume: bool,
    tree: Document,
    mode: InsertionMode,
    open_elements: Vec<usize>,
    head_pointer: Option<usize>,
}

impl View for ParseState {
    type V = ParseModel;

    closed spec fn view(&self) -> ParseModel {
        ParseModel {
            mode: self.mode,
            open: self.open_elements@.map_values(|h: usize| h as nat),
            head: match self.head_pointer {
                Some(h) => Some(h as nat),
                None => None,
            },
            frameset_ok: self.frame_set_ok,
            reconsume: self.reconsume,
            doc: self.tree@,
        }
    }
}

impl ParseState {
    /// The tree is well formed and every handle held refers to a node of it.
    pub closed spec fn wf(&self) -> bool {
        &&& self.tree.wf()
        &&& forall|i: int| 0 <= i < self.open_elements@.len() ==> #[trigger] self.open_elements@[i] < self.tree@.len()
        &&& self.head_pointer matches Some(h) ==> h < self.tree@.len()
    }

    /// What `wf` tells of the model: every open element and the head
    /// pointer are handles of nodes of the tree.
    pub proof fn lemma_wf_handles(&self)
        requires
            self.wf(),
        ensures
            handles_in_tree(self@),
    {
    }

    pub fn new() -> (r: ParseState)
        ensures
            r.wf(),
            r@ == initial_model(),
    {
        let s = ParseState {
            mode: InsertionMode::Initial,
            open_elements: Vec::new(),
            tree: Document::new(),
            reconsume: false,
            head_pointer: None,
            frame_set_ok: true,
        };
        assert(s@.open =~= Seq::<nat>::empty());
        s
    }

    /// The current insertion mode.
    pub fn mode(&self) -> (r: InsertionMode)
        ensures
            r == self@.mode,
    {
        self.mode
    }

    /// Whether the last handler asked for its token again.
    pub fn reconsume_requested(&self) -> (r: bool)
        ensures
            r == self@.reconsume,
    {
        self.reconsume
    }

    /// The handle of the `head` element, once it has been created.
    pub fn head_pointer(&self) -> (r: Option<usize>)
        ensures
            r matches Some(h) ==> self@.head == Some(h as nat),
            r is None ==> self@.head is None,
    {
        self.head_pointer
    }

    /// The handles of the open elements, outermost first.
    pub fn open_elements(&self) -> (r: Vec<usize>)
        ensures
            r@.map_values(|h: usize| h as nat) == self@.open,
    {
        self.open_elements.clone()
    }

    /// The tree built so far.
    pub fn into_tree(self) -> (r: Document)
        requires
            self.wf(),
        ensures
            r.wf(),
            r@ == self@.doc,
    {
        self.tree
    }
}

fn name_is(name: &String, lit: &str) -> (r: bool)
    ensures
        r == (name@ == lit@),
{
    let l = lit.to_owned();
    name.eq(&l)
}

fn copy_text(s: &Option<String>) -> (r: Option<String>)
    ensures
        crate::token::opt_view(r) == crate::token::opt_view(*s),
{
    match s {
        Some(t) => Some(t.clone()),
        None => None,
    }
}

fn is_ws_char(c: char) -> (r: bool)
    ensures
        r == is_ws(c),
{
    c == '\t' || c == '\n' || c == '\x0C' || c == ' ' || c == '\r'
}

fn set_mode(state: &mut ParseState, mode: InsertionMode)
    requires
        old(state).wf(),
    ensures
        final(state).wf(),
        final(state)@ == with_mode(old(state)@, mode),
{
    state.mode = mode;
}

/// Creates an element under the current node and pushes it on the stack of
/// open elements.
fn insert_element(state: &mut ParseState, kind: ElementKind) -> (r: Result<(), HtmlParseError>)
    requires
        old(state).wf(),
    ensures
        final(state).wf(),
        outcome_matches(r, old(state)@, final(state)@, insert(old(state)@, kind)),
{
    let n = state.tree.len();
    if n >= usize::MAX - 1 {
        return Err(HtmlParseError::GenericParseError);
    }
    let parent = if state.open_elements.len() > 0 {
        Some(state.open_elements[state.open_elements.len() - 1])
    } else {
        None
    };
    let h = state.tree.new_node(Element { kind }, parent);
    state.open_elements.push(h);
    assert(state@.open =~= old(state)@.open.push(n as nat));
    assert(parent matches Some(p) ==> p as nat == old(state)@.open.last());
    Ok(())
}

fn insert_head_element(state: &mut ParseState) -> (r: Result<(), HtmlParseError>)
    requires
        old(state).wf(),
    ensures
        final(state).wf(),
        outcome_matches(r, old(state)@, final(state)@, insert_head(old(state)@)),
{
    let n = state.tree.len();
    let r = insert_element(state, ElementKind::Head);
    if r.is_ok() {
        state.head_pointer = Some(n);
    }
    r
}

// https://html.spec.whatwg.org/multipage/parsing.html#the-initial-insertion-mode
pub fn parse_initial(token: &Token, state: &mut ParseState) -> (r: Result<(), HtmlParseError>)
    requires
        old(state).wf(),
    ensures
        final(state).wf(),
        outcome_matches(r, old(state)@, final(state)@, initial(old(state)@, token@)),
{
    match token {
        Token::Character(c) => {
            if !is_ws_char(*c) {
                state.mode = InsertionMode::BeforeHtml;
                state.reconsume = true;
            }
        },
        Token::Comment(_) => {},
        Token::DOCTYPE(..) => {
            state.mode = InsertionMode::BeforeHtml;
        },
        _ => {
            state.mode = InsertionMode::BeforeHtml;
            state.reconsume = true;
        },
    }
    Ok(())
}

fn unexpected(token: &Token) -> (r: HtmlParseError)
    requires
        token is DOCTYPE,
    ensures
        r@ == ParseErrorModel::Unexpected(token@),
{
    match token {
        Token::DOCTYPE(a, b, c, d) => HtmlParseError::UnexpectedToken(
            Token::DOCTYPE(copy_text(a), copy_text(b), copy_text(c), *d),
        ),
        _ => HtmlParseError::GenericParseError,
    }
}

// https://html.spec.whatwg.org/multipage/parsing.html#the-before-html-insertion-mode
pub fn parse_before_html(token: &Token, state: &mut ParseState) -> (r: Result<(), HtmlParseError>)
    requires
        old(state).wf(),
    ensures
        final(state).wf(),
        outcome_matches(r, old(state)@, final(state)@, before_html(old(state)@, token@)),
{
    match token {
        Token::DOCTYPE(..) => {
            return Err(unexpected(token));
        },
        Token::Comment(_) => {
            return Ok(());
        },
        Token::Character(c) => {
            if is_ws_char(*c) {
                return Ok(());
            }
        },
        _ => {},
    }
    let again = match token {
        Token::StartTag(name, _, _) => !name_is(name, "html"),
        _ => true,
    };
    let r = insert_element(state, ElementKind::Html);
    if r.is_ok() {
        state.mode = InsertionMode::BeforeHead;
        state.reconsume = again;
    }
    r
}

// https://html.spec.whatwg.org/multipage/parsing.html#the-before-head-insertion-mode
pub fn parse_before_head(token: &Token, state: &mut ParseState) -> (r: Result<(), HtmlParseError>)
    requires
        old(state).wf(),
    ensures
        final(state).wf(),
        outcome_matches(r, old(state)@, final(state)@, before_head(old(state)@, token@)),
{
    match token {
        Token::Character(c) => {
            if is_ws_char(*c) {
                Ok(())
            } else {
                insert_element(state, ElementKind::Head)
            }
        },
        Token::Comment(_) => Ok(()),
        Token::DOCTYPE(..) => Err(unexpected(token)),
        Token::StartTag(name, _, _) => {
            if name_is(name, "html") {
                parse_in_body(token, state)
            } else if name_is(name, "head") {
                let r = insert_head_element(state);
                if r.is_ok() {
                    set_mode(state, InsertionMode::InHead);
                }
                r
            } else {
                insert_element(state, ElementKind::Head)
            }
        },
        Token::EndTag(name, _, _) => {
            if name_is(name, "head") || name_is(name, "body") || name_is(name, "html") || name_is(name, "br") {
                insert_element(state, ElementKind::Head)
            } else {
                Err(HtmlParseError::GenericParseError)
            }
        },
        Token::EOF => insert_element(state, ElementKind::Head),
    }
}

// https://html.spec.whatwg.org/multipage/parsing.html#parsing-main-inhead
pub fn parse_in_head(token: &Token, state: &mut ParseState) -> (r: Result<(), HtmlParseError>)
    requires
        old(state).wf(),
    ensures
        final(state).wf(),
        outcome_matches(r, old(state)@, final(state)@, in_head(old(state)@, token@)),
{
    if let Token::EndTag(name, _, _) = token {
        if name_is(name, "head") {
            if state.open_elements.len() > 0 {
                state.open_elements.pop();
                assert(state@.open =~= old(state)@.open.drop_last());
            }
            state.mode = InsertionMode::AfterHead;
        }
    }
    Ok(())
}

// https://html.spec.whatwg.org/multipage/parsing.html#the-after-head-insertion-mode
pub fn parse_after_head(token: &Token, state: &mut ParseState) -> (r: Result<(), HtmlParseError>)
    requires
        old(state).wf(),
    ensures
        final(state).wf(),
        outcome_matches(r, old(state)@, final(state)@, after_head(old(state)@, token@)),
{
    if let Token::StartTag(..) = token {
        let r = insert_element(state, ElementKind::Body);
        if r.is_ok() {
            state.frame_set_ok = false;
            state.mode = InsertionMode::InBody;
        }
        r
    } else {
        Ok(())
    }
}

// https://html.spec.whatwg.org/multipage/parsing.html#parsing-main-inbody
pub fn parse_in_body(token: &Token, state: &mut ParseState) -> (r: Result<(), HtmlParseError>)
    requires
        old(state).wf(),
    ensures
        final(state).wf(),
        outcome_matches(r, old(state)@, final(state)@, in_body(old(state)@, token@)),
{
    if let Token::EndTag(name, _, _) = token {
        if name_is(name, "body") {
            set_mode(state, InsertionMode::AfterBody);
            return Ok(());
        }
    }
    Err(HtmlParseError::InsertionModeCaseNotHandled(InsertionMode::InBody))
}

// https://html.spec.whatwg.org/multipage/parsing.html#parsing-main-afterbody
pub fn parse_after_body(token: &Token, state: &mut ParseState) -> (r: Result<(), HtmlParseError>)
    requires
        old(state).wf(),
    ensures
        final(state).wf(),
        outcome_matches(r, old(state)@, final(state)@, after_body(old(state)@, token@)),
{
    if let Token::EndTag(name, _, _) = token {
        if name_is(name, "html") {
            set_mode(state, InsertionMode::AfterAfterBody);
            return Ok(());
        }
    }
    Err(HtmlParseError::InsertionModeCaseNotHandled(InsertionMode::AfterBody))
}

// https://html.spec.whatwg.org/multipage/parsing.html#the-after-after-body-insertion-mode
pub fn parse_after_after_body(token: &Token, state: &mut ParseState) -> (r: Result<(), HtmlParseError>)
    requires
        old(state).wf(),
    ensures
        final(state).wf(),
        outcome_matches(r, old(state)@, final(state)@, after_after_body(old(state)@, token@)),
{
    match token {
        Token::Character(c) => {
            if is_ws_char(*c) {
                Ok(())
            } else {
                Err(HtmlParseError::InsertionModeCaseNotHandled(InsertionMode::AfterAfterBody))
            }
        },
        Token::Comment(_) | Token::EOF => Ok(()),
        _ => Err(HtmlParseError::InsertionModeCaseNotHandled(InsertionMode::AfterAfterBody)),
    }
}

// https://html.spec.whatwg.org/multipage/parsing.html#parsing-main-inheadnoscript
/// Not implemented: always fails with `InsertionModeCaseNotHandled`.
pub fn parse_in_head_noscript(token: &Token, state: &mut ParseState) -> (r: Result<(), HtmlParseError>)
    requires
        old(state).wf(),
    ensures
        final(state).wf(),
        r matches Err(e) && e@ == ParseErrorModel::NotHandled(InsertionMode::InHeadNoScript),
        final(state)@ == old(state)@,
{
    Err(HtmlParseError::InsertionModeCaseNotHandled(InsertionMode::InHeadNoScript))
}

// https://html.spec.whatwg.org/multipage/parsing.html#parsing-main-incdata
/// Not implemented: always fails with `InsertionModeCaseNotHandled`.
pub fn parse_text(token: &Token, state: &mut ParseState) -> (r: Result<(), HtmlParseError>)
    requires
        old(state).wf(),
    ensures
        final(state).wf(),
        r matches Err(e) && e@ == ParseErrorModel::NotHandled(InsertionMode::Text),
        final(state)@ == old(state)@,
{
    Err(HtmlParseError::InsertionModeCaseNotHandled(InsertionMode::Text))
}

// https://html.spec.whatwg.org/multipage/parsing.html#parsing-main-intable
/// Not implemented: always fails with `InsertionModeCaseNotHandled`.
pub fn parse_in_table(token: &Token, state: &mut ParseState) -> (r: Result<(), HtmlParseError>)
    requires
        old(state).wf(),
    ensures
        final(state).wf(),
        r matches Err(e) && e@ == ParseErrorModel::NotHandled(InsertionMode::InTable),
        final(state)@ == old(state)@,
{
    Err(HtmlParseError::InsertionModeCaseNotHandled(InsertionMode::InTable))
}

// https://html.spec.whatwg.org/multipage/parsing.html#parsing-main-intabletext
/// Not implemented: always fails with `InsertionModeCaseNotHandled`.
pub fn parse_in_table_text(token: &Token, state: &mut ParseState) -> (r: Result<(), HtmlParseError>)
    requires
        old(state).wf(),
    ensures
        final(state).wf(),
        r matches Err(e) && e@ == ParseErrorModel::NotHandled(InsertionMode::InTableText),
        final(state)@ == old(state)@,
{
    Err(HtmlParseError::InsertionModeCaseNotHandled(InsertionMode::InTableText))
}

// https://html.spec.whatwg.org/multipage/parsing.html#parsing-main-incaption
/// Not implemented: always fails with `InsertionModeCaseNotHandled`.
pub fn parse_in_caption(token: &Token, state: &mut ParseState) -> (r: Result<(), HtmlParseError>)
    requires
        old(state).wf(),
    ensures
        final(state).wf(),
        r matches Err(e) && e@ == ParseErrorModel::NotHandled(InsertionMode::InCaption),
        final(state)@ == old(state)@,
{
    Err(HtmlParseError::InsertionModeCaseNotHandled(InsertionMode::InCaption))
}

// https://html.spec.whatwg.org/multipage/parsing.html#parsing-main-incolgroup
/// Not implemented: always fails with `InsertionModeCaseNotHandled`.
pub fn parse_in_column_group(token: &Token, state: &mut ParseState) -> (r: Result<(), HtmlParseError>)
    requires
        old(state).wf(),
    ensures
        final(state).wf(),
        r matches Err(e) && e@ == ParseErrorModel::NotHandled(InsertionMode::InColumnGroup),
        final(state)@ == old(state)@,
{
    Err(HtmlParseError::InsertionModeCaseNotHandled(InsertionMode::InColumnGroup))
}

// https://html.spec.whatwg.org/multipage/parsing.html#parsing-main-intbody
/// Not implemented: always fails with `InsertionModeCaseNotHandled`.
pub fn parse_in_table_body(token: &Token, state: &mut ParseState) -> (r: Result<(), HtmlParseError>)
    requires
        old(state).wf(),
    ensures
        final(state).wf(),
        r matches Err(e) && e@ == ParseErrorModel::NotHandled(InsertionMode::InTableBody),
        final(state)@ == old(state)@,
{
    Err(HtmlParseError::InsertionModeCaseNotHandled(InsertionMode::InTableBody))
}

// https://html.spec.whatwg.org/multipage/parsing.html#parsing-main-intr
/// Not implemented: always fails with `InsertionModeCaseNotHandled`.
pub fn parse_in_row(token: &Token, state: &mut ParseState) -> (r: Result<(), HtmlParseError>)
    requires
        old(state).wf(),
    ensures
        final(state).wf(),
        r matches Err(e) && e@ == ParseErrorModel::NotHandled(InsertionMode::InRow),
        final(state)@ == old(state)@,
{
    Err(HtmlParseError::InsertionModeCaseNotHandled(InsertionMode::InRow))
}

// https://html.spec.whatwg.org/multipage/parsing.html#parsing-main-intd
/// Not implemented: always fails with `InsertionModeCaseNotHandled`.
pub fn parse_in_cell(token: &Token, state: &mut ParseState) -> (r: Result<(), HtmlParseError>)
    requires
        old(state).wf(),
    ensures
        final(state).wf(),
        r matches Err(e) && e@ == ParseErrorModel::NotHandled(InsertionMode::InCell),
        final(state)@ == old(state)@,
{
    Err(HtmlParseError::InsertionModeCaseNotHandled(InsertionMode::InCell))
}

// https://html.spec.whatwg.org/multipage/parsing.html#parsing-main-inselect
/// Not implemented: always fails with `InsertionModeCaseNotHandled`.
pub fn parse_in_select(token: &Token, state: &mut ParseState) -> (r: Result<(), HtmlParseError>)
    requires
        old(state).wf(),
    ensures
        final(state).wf(),
        r matches Err(e) && e@ == ParseErrorModel::NotHandled(InsertionMode::InSelect),
        final(state)@ == old(state)@,
{
    Err(HtmlParseError::InsertionModeCaseNotHandled(InsertionMode::InSelect))
}

// https://html.spec.whatwg.org/multipage/parsing.html#parsing-main-inselectintable
/// Not implemented: always fails with `InsertionModeCaseNotHandled`.
pub fn parse_in_select_table(token: &Token, state: &mut ParseState) -> (r: Result<(), HtmlParseError>)
    requires
        old(state).wf(),
    ensures
        final(state).wf(),
        r matches Err(e) && e@ == ParseErrorModel::NotHandled(InsertionMode::InSelectTable),
        final(state)@ == old(state)@,
{
    Err(HtmlParseError::InsertionModeCaseNotHandled(InsertionMode::InSelectTable))
}

// https://html.spec.whatwg.org/multipage/parsing.html#parsing-main-intemplate
/// Not implemented: always fails with `InsertionModeCaseNotHandled`.
pub fn parse_in_template(token: &Token, state: &mut ParseState) -> (r: Result<(), HtmlParseError>)
    requires
        old(state).wf(),
    ensures
        final(state).wf(),
        r matches Err(e) && e@ == ParseErrorModel::NotHandled(InsertionMode::InTemplate),
        final(state)@ == old(state)@,
{
    Err(HtmlParseError::InsertionModeCaseNotHandled(InsertionMode::InTemplate))
}

// https://html.spec.whatwg.org/multipage/parsing.html#parsing-main-inframeset
/// Not implemented: always fails with `InsertionModeCaseNotHandled`.
pub fn parse_in_frameset(token: &Token, state: &mut ParseState) -> (r: Result<(), HtmlParseError>)
    requires
        old(state).wf(),
    ensures
        final(state).wf(),
        r matches Err(e) && e@ == ParseErrorModel::NotHandled(InsertionMode::InFrameset),
        final(state)@ == old(state)@,
{
    Err(HtmlParseError::InsertionModeCaseNotHandled(InsertionMode::InFrameset))
}

// https://html.spec.whatwg.org/multipage/parsing.html#parsing-main-afterframeset
/// Not implemented: always fails with `InsertionModeCaseNotHandled`.
pub fn parse_after_frameset(token: &Token, state: &mut ParseState) -> (r: Result<(), HtmlParseError>)
    requires
        old(state).wf(),
    ensures
        final(state).wf(),
        r matches Err(e) && e@ == ParseErrorModel::NotHandled(InsertionMode::AfterFrameset),
        final(state)@ == old(state)@,
{
    Err(HtmlParseError::InsertionModeCaseNotHandled(InsertionMode::AfterFrameset))
}

// https://html.spec.whatwg.org/multipage/parsing.html#the-after-after-frameset-insertion-mode
/// Not implemented: always fails with `InsertionModeCaseNotHandled`.
pub fn parse_after_after_frameset(token: &Token, state: &mut ParseState) -> (r: Result<(), HtmlParseError>)
    requires
        old(state).wf(),
    ensures
        final(state).wf(),
        r matches Err(e) && e@ == ParseErrorModel::NotHandled(InsertionMode::AfterAfterFrameset),
        final(state)@ == old(state)@,
{
    Err(HtmlParseError::InsertionModeCaseNotHandled(InsertionMode::AfterAfterFrameset))
}

/// Hands a token to the handler of the current insertion mode.
pub fn dispatch_token(token: &Token, state: &mut ParseState) -> (r: Result<(), HtmlParseError>)
    requires
        old(state).wf(),
    ensures
        final(state).wf(),
        outcome_matches(r, old(state)@, final(state)@, dispatch(old(state)@, token@)),
        !is_implemented_mode(old(state)@.mode) ==> (r matches Err(e) && e@ == ParseErrorModel::NotHandled(
            old(state)@.mode,
        )),
{
    match state.mode {
        InsertionMode::Initial => parse_initial(token, state),
        InsertionMode::BeforeHtml => parse_before_html(token, state),
        InsertionMode::BeforeHead => parse_before_head(token, state),
        InsertionMode::InHead => parse_in_head(token, state),
        InsertionMode::InHeadNoScript => parse_in_head_noscript(token, state),
        InsertionMode::AfterHead => parse_after_head(token, state),
        InsertionMode::InBody => parse_in_body(token, state),
        InsertionMode::Text => parse_text(token, state),
        InsertionMode::InTable => parse_in_table(token, state),
        InsertionMode::InTableText => parse_in_table_text(token, state),
        InsertionMode::InCaption => parse_in_caption(token, state),
        InsertionMode::InColumnGroup => parse_in_column_group(token, state),
        InsertionMode::InTableBody => parse_in_table_body(token, state),
        InsertionMode::InRow => parse_in_row(token, state),
        InsertionMode::InCell => parse_in_cell(token, state),
        InsertionMode::InSelect => parse_in_select(token, state),
        InsertionMode::InSelectTable => parse_in_select_table(token, state),
        InsertionMode::InTemplate => parse_in_template(token, state),
        InsertionMode::AfterBody => parse_after_body(token, state),
        InsertionMode::InFrameset => parse_in_frameset(token, state),
        InsertionMode::AfterFrameset => parse_after_frameset(token, state),
        InsertionMode::AfterAfterBody => parse_after_after_body(token, state),
        InsertionMode::AfterAfterFrameset => parse_after_after_frameset(token, state),
    }
}


/// The tree builder.
pub struct HtmlParser {}

impl HtmlParser {
    pub fn new() -> (r: HtmlParser) {
        HtmlParser {}
    }

    /// Parses a document into a tree, starting from `start_state`.
    // https://html.spec.whatwg.org/multipage/parsing.html#tree-construction
    pub fn parse(input: &str, start_state: ParseState) -> (r: Result<Document, HtmlParseError>)
        requires
            start_state.wf(),
        ensures
            match parse_loop(tok_start(input@), start_state@, None) {
                Ok(m) => r matches Ok(d) && d.wf() && d@ == m.doc,
                Err(e) => r matches Err(x) && x@ == e,
            },
    {
        match HtmlParser::run(input, start_state) {
            Ok(state) => Ok(state.into_tree()),
            Err(e) => Err(e),
        }
    }

    /// Runs the tree builder over a document, starting from `start_state`:
    /// tokens are taken from the tokenizer one at a time (or the previous
    /// token again when a handler asked for it) and handed to the handler of
    /// the current insertion mode, until the tokens run out or an error ends
    /// the parse. Returns the state at the end.
    pub fn run(input: &str, start_state: ParseState) -> (r: Result<ParseState, HtmlParseError>)
        requires
            start_state.wf(),
        ensures
            match parse_loop(tok_start(input@), start_state@, None) {
                Ok(m) => r matches Ok(s) && s.wf() && s@ == m,
                Err(e) => r matches Err(x) && x@ == e,
            },
    {
        let ghost m_in = start_state@;
        let mut state = start_state;
        let html = match PreProccessor::new(input) {
            Ok(p) => p,
            Err(e) => return Err(e),
        };
        let mut tokens = Tokenizer::new(html);
        let mut previous: Option<Token> = None;
        let ghost start = parse_loop(tokens@, state@, None);
        loop
            invariant
                state.wf(),
                tok_wf(tokens@),
                parse_loop(tokens@, state@, opt_token_view(previous)) == start,
                start == parse_loop(tok_start(input@), m_in, None),
                m_in == start_state@,
            decreases tok_measure(tokens@), mode_rank(state@.mode), if state@.reconsume { 1nat } else { 0nat },
        {
            proof {
                crate::tokenizer::lemma_tok_next_decreases(tokens@);
            }
            let ghost t0 = tokens@;
            let ghost m0 = state@;
            let ghost p0 = opt_token_view(previous);
            if state.reconsume {
                if previous.is_none() {
                    assert(parse_loop(t0, m0, p0) == Err::<ParseModel, _>(ParseErrorModel::ReconsumeNone));
                    return Err(HtmlParseError::ReconsumeNonExistingToken);
                }
            } else {
                match tokens.next() {
                    Some(Ok((t, _))) => {
                        previous = Some(t);
                    },
                    Some(Err(e)) => {
                        assert(parse_loop(t0, m0, p0) == Err::<ParseModel, _>(ParseErrorModel::Tokenizer(e)));
                        return Err(HtmlParseError::Tokenizer(e));
                    },
                    None => {
                        assert(parse_loop(t0, m0, p0) == Ok::<_, ParseErrorModel>(m0));
                        return Ok(state);
                    },
                }
            }
            let token = previous.unwrap();
            assert(pull(t0, m0, p0) == Pull::Next(tokens@, token@));
            state.reconsume = false;
            let r = dispatch_token(&token, &mut state);
            previous = Some(token);
            if let Err(e) = r {
                return Err(e);
            }
        }
    }
}

/// A tokenizer in `Data` at position `pos`, with empty buffers.
pub open spec fn data_at(input: Seq<char>, pos: nat) -> TokState {
    TokState { lex: cleared(TokenizationState::Data), input, pos, finished: false }
}

proof fn lemma_whitespace_rest(input: Seq<char>, pos: nat, m: ParseModel, previous: Option<TokenModel>)
    requires
        pos <= input.len(),
        forall|i: int| 0 <= i < input.len() ==> is_ws(#[trigger] input[i]),
        m.mode == InsertionMode::Initial,
        !m.reconsume,
    ensures
        parse_loop(data_at(input, pos), m, previous) == Ok::<_, ParseErrorModel>(m),
    decreases input.len() - pos,
{
    let t = data_at(input, pos);
    if pos < input.len() {
        let c = input[pos as int];
        assert(is_ws(c));
        assert(step(t.lex, c) == (t.lex, Outcome::Emit(TokenModel::Character(c), None, false)));
        assert(run(t.lex, input, pos) == (t.lex, pos + 1, Some(Ok::<_, HtmlTokenizerError>((TokenModel::Character(c), None::<HtmlTokenizerError>)))));
        assert(tok_next(t).0 == data_at(input, pos + 1));
        assert(pull(t, m, previous) == Pull::Next(data_at(input, pos + 1), TokenModel::Character(c)));
        assert(ParseModel { reconsume: false, ..m } == m);
        assert(dispatch(m, TokenModel::Character(c)) == Ok::<_, ParseErrorModel>(m));
        lemma_whitespace_rest(input, pos + 1, m, Some(TokenModel::Character(c)));
    } else {
        assert(run(t.lex, input, pos) == (t.lex, pos, None::<ItemModel>));
        assert(pull(t, m, previous) == Pull::Done);
    }
}

/// A document made of whitespace only leaves the tree builder in `Initial`:
/// every token is absorbed, no element is created and the state at the end
/// is the state at the start.
pub proof fn lemma_whitespace_only_input(input: Seq<char>, m: ParseModel)
    requires
        forall|i: int| 0 <= i < input.len() ==> is_ws(#[trigger] input[i]),
        m.mode == InsertionMode::Initial,
        !m.reconsume,
    ensures
        parse_loop(tok_start(input), m, None) == Ok::<_, ParseErrorModel>(m),
{
    assert(tok_start(input) == data_at(input, 0));
    lemma_whitespace_rest(input, 0, m, None);
}

/// When a handler asks for its token again, the next token dispatched is
/// that same token, and the tokenizer is not asked for anything in between.
pub proof fn lemma_reconsume_replays(t: TokState, m: ParseModel, previous: Option<TokenModel>)
    requires
        pull(t, m, previous) matches Pull::Next(_, _),
        dispatch(ParseModel { reconsume: false, ..m }, pull(t, m, previous)->Next_1) matches Ok(m2) && m2.reconsume,
    ensures
        ({
            let (t2, tok) = (pull(t, m, previous)->Next_0, pull(t, m, previous)->Next_1);
            let m2 = dispatch(ParseModel { reconsume: false, ..m }, tok)->Ok_0;
            pull(t2, m2, Some(tok)) == Pull::Next(t2, tok)
        }),
{
}

/// A token dispatched in a mode without a handler always ends the parse with
/// `InsertionModeCaseNotHandled` for that mode.
pub proof fn lemma_unhandled_mode_fails(m: ParseModel, t: TokenModel)
    requires
        !is_implemented_mode(m.mode),
    ensures
        dispatch(m, t) == Err::<ParseModel, _>(ParseErrorModel::NotHandled(m.mode)),
{
}


proof fn lemma_replay_has_token(t: TokState, m: ParseModel, previous: Option<TokenModel>)
    requires
        tok_wf(t),
        m.reconsume ==> previous is Some,
    ensures
        parse_loop(t, m, previous) != Err::<ParseModel, _>(ParseErrorModel::ReconsumeNone),
    decreases tok_measure(t), mode_rank(m.mode), if m.reconsume { 1nat } else { 0nat },
{
    crate::tokenizer::lemma_tok_next_decreases(t);
    if let Pull::Next(t2, tok) = pull(t, m, previous) {
        if let Ok(m2) = dispatch(ParseModel { reconsume: false, ..m }, tok) {
            lemma_replay_has_token(t2, m2, Some(tok));
        }
    }
}

/// A parse that starts with no pending request to reconsume never fails
/// with `ReconsumeNonExistingToken`: a handler asks for a token again only
/// after a token was handed to it.
pub proof fn lemma_reconsume_always_has_a_token(input: Seq<char>, m: ParseModel)
    requires
        !m.reconsume,
    ensures
        parse_loop(tok_start(input), m, None) != Err::<ParseModel, _>(ParseErrorModel::ReconsumeNone),
{
    lemma_replay_has_token(tok_start(input), m, None);
}

} // verus!
