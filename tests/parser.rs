use html_parser::arena::{Document, Element, ElementKind};
use html_parser::error::{HtmlParseError, HtmlTokenizerError};
use html_parser::parser::{
    parse_after_after_frameset, parse_before_head, parse_before_html, parse_in_body, parse_in_table,
    parse_initial, HtmlParser, ParseState,
};
use html_parser::states::{InsertionMode, TokenizationState};
use html_parser::token::Token;

fn kinds(d: &Document) -> Vec<ElementKind> {
    d.iterate().into_iter().map(|(_, e)| e.kind).collect()
}

#[test]
fn full_document_builds_html_head_body() {
    let _parser = HtmlParser::new();
    let doc = HtmlParser::parse("<html><head></head><body></body></html>", ParseState::new()).unwrap();
    assert_eq!(kinds(&doc), vec![ElementKind::Html, ElementKind::Head, ElementKind::Body]);
    assert_eq!(doc.len(), 3);
    assert_eq!(doc.parent(0), None);
    assert_eq!(doc.parent(1), Some(0));
    assert_eq!(doc.parent(2), Some(0));
    assert_eq!(doc.children(0), vec![1, 2]);
    assert_eq!(doc.children(1), Vec::<usize>::new());
    let pairs = doc.iterate();
    assert_eq!(pairs[1], (1, Element::new(ElementKind::Head)));
    assert_eq!(pairs[2], (2, Element::new(ElementKind::Body)));
}

#[test]
fn full_document_ends_in_after_after_body() {
    let state = HtmlParser::run("<html><head></head><body></body></html>", ParseState::new()).unwrap();
    assert_eq!(state.mode(), InsertionMode::AfterAfterBody);
    assert!(!state.reconsume_requested());
    assert_eq!(state.head_pointer(), Some(1));
    assert_eq!(state.open_elements(), vec![0, 2]);
    assert_eq!(state.into_tree().len(), 3);
}

#[test]
fn whitespace_only_input_creates_nothing() {
    let doc = HtmlParser::parse(" \t\n\r\u{000C} ", ParseState::new()).unwrap();
    assert_eq!(doc.len(), 0);
    let end = HtmlParser::run("  \n ", ParseState::new()).unwrap();
    assert_eq!(end.mode(), InsertionMode::Initial);
    assert_eq!(end.open_elements(), Vec::<usize>::new());
    let mut state = ParseState::new();
    for c in [' ', '\t', '\n', '\r', '\u{000C}'] {
        parse_initial(&Token::Character(c), &mut state).unwrap();
        assert_eq!(state.mode(), InsertionMode::Initial);
        assert!(!state.reconsume_requested());
    }
}

#[test]
fn first_non_whitespace_is_reconsumed() {
    let mut state = ParseState::new();
    parse_initial(&Token::Character('x'), &mut state).unwrap();
    assert_eq!(state.mode(), InsertionMode::BeforeHtml);
    assert!(state.reconsume_requested());
    let doc = HtmlParser::parse("x", ParseState::new()).unwrap();
    assert_eq!(kinds(&doc), vec![ElementKind::Html, ElementKind::Head]);
    assert_eq!(doc.parent(1), Some(0));
}

#[test]
fn html_start_tag_is_not_reconsumed() {
    let mut state = ParseState::new();
    parse_before_html(&Token::StartTag("html".to_string(), false, Vec::new()), &mut state).unwrap();
    assert_eq!(state.mode(), InsertionMode::BeforeHead);
    assert!(!state.reconsume_requested());
    let mut state = ParseState::new();
    parse_before_html(&Token::StartTag("p".to_string(), false, Vec::new()), &mut state).unwrap();
    assert!(state.reconsume_requested());
}

#[test]
fn unimplemented_mode_is_reported() {
    let mut state = ParseState::new();
    let r = parse_in_table(&Token::Character('a'), &mut state);
    assert!(matches!(r, Err(HtmlParseError::InsertionModeCaseNotHandled(InsertionMode::InTable))));
    let r = parse_after_after_frameset(&Token::EOF, &mut state);
    assert!(matches!(
        r,
        Err(HtmlParseError::InsertionModeCaseNotHandled(InsertionMode::AfterAfterFrameset))
    ));
}

#[test]
fn in_body_content_is_not_handled() {
    let r = HtmlParser::parse("<html><head></head><body><div>", ParseState::new());
    assert!(matches!(r, Err(HtmlParseError::InsertionModeCaseNotHandled(InsertionMode::InBody))));
    let mut state = ParseState::new();
    let r = parse_in_body(&Token::Character('a'), &mut state);
    assert!(matches!(r, Err(HtmlParseError::InsertionModeCaseNotHandled(InsertionMode::InBody))));
}

#[test]
fn stray_end_tag_before_head_is_an_error() {
    let r = HtmlParser::parse("<html></div>", ParseState::new());
    assert!(matches!(r, Err(HtmlParseError::GenericParseError)));
    assert_eq!(HtmlParseError::GenericParseError.message(), "generic parse error");
}

#[test]
fn doctype_before_html_is_unexpected() {
    let mut state = ParseState::new();
    let doctype = Token::DOCTYPE(Some("html".to_string()), None, None, false);
    let r = parse_before_html(&doctype, &mut state);
    match r {
        Err(HtmlParseError::UnexpectedToken(t)) => assert_eq!(t, doctype),
        _ => panic!("expected an unexpected-token error"),
    }
    let r = parse_before_head(&doctype, &mut state);
    assert!(matches!(r, Err(HtmlParseError::UnexpectedToken(_))));
}

#[test]
fn tokenizer_failure_ends_the_parse() {
    let r = HtmlParser::parse("<html>&amp;", ParseState::new());
    assert!(matches!(
        r,
        Err(HtmlParseError::Tokenizer(HtmlTokenizerError::UnsupportedState(
            TokenizationState::CharacterReferenceInData
        )))
    ));
}

#[test]
fn end_tag_br_before_head_creates_head() {
    let doc = HtmlParser::parse("<html></br>", ParseState::new()).unwrap();
    assert_eq!(kinds(&doc), vec![ElementKind::Html, ElementKind::Head]);
}

#[test]
fn document_nodes_and_parents() {
    let mut doc = Document::new();
    let a = doc.new_node(Element::new(ElementKind::Html), None);
    let b = doc.new_node(Element::new(ElementKind::Br), Some(a));
    let c = doc.new_node(Element::new(ElementKind::Body), Some(b));
    assert_eq!((a, b, c), (0, 1, 2));
    assert_eq!(doc.parent(a), None);
    assert_eq!(doc.parent(b), Some(a));
    assert_eq!(doc.parent(c), Some(b));
    assert_eq!(doc.element(c).kind, ElementKind::Body);
    let d = doc.new_node(Element::new(ElementKind::Head), Some(a));
    assert_eq!(doc.children(a), vec![b, d]);
    assert_eq!(doc.children(b), vec![c]);
    assert_eq!(doc.iterate(), vec![
        (0, Element::new(ElementKind::Html)),
        (1, Element::new(ElementKind::Br)),
        (2, Element::new(ElementKind::Body)),
        (3, Element::new(ElementKind::Head)),
    ]);
}

#[test]
fn failed_handler_leaves_the_state() {
    let mut state = HtmlParser::run("<html>", ParseState::new()).unwrap();
    assert_eq!(state.mode(), InsertionMode::BeforeHead);
    let r = parse_before_head(&Token::EndTag("div".to_string(), false, Vec::new()), &mut state);
    assert!(matches!(r, Err(HtmlParseError::GenericParseError)));
    assert_eq!(state.mode(), InsertionMode::BeforeHead);
    assert_eq!(state.open_elements(), vec![0]);
    assert_eq!(state.head_pointer(), None);
    parse_before_head(&Token::Character('x'), &mut state).unwrap();
    assert_eq!(state.open_elements(), vec![0, 1]);
    assert_eq!(state.head_pointer(), None);
    assert_eq!(state.mode(), InsertionMode::BeforeHead);
}
