use html_parser::error::HtmlTokenizerError;
use html_parser::preprocessor::PreProccessor;
use html_parser::states::TokenizationState;
use html_parser::token::{Attribute, TagData, Token, TokenStream};
use html_parser::tokenizer::Tokenizer;

fn tokens_with_errors(text: &str) -> Vec<(Token, Option<HtmlTokenizerError>)> {
    let document = PreProccessor::new(text).unwrap();
    let mut tokenizer = Tokenizer::new(document);
    let mut output = Vec::new();
    while let Some(item) = tokenizer.next() {
        output.push(item.unwrap());
    }
    output
}

fn tokens(text: &str) -> Vec<Token> {
    tokens_with_errors(text).into_iter().map(|(token, _error)| token).collect()
}

fn stream(text: &str) -> Vec<Token> {
    let document = PreProccessor::new(text).unwrap();
    TokenStream::from_tokenizer(Tokenizer::new(document)).unwrap().tokens
}

#[test]
fn basic_tokenizer_1() {
    const TAG: &'static str = r#"<html></html>"#;
    let output = tokens(TAG);
    let correct_output = vec![
        Token::StartTag("html".to_string(), false, Vec::new()),
        Token::EndTag("html".to_string(), false, Vec::new()),
    ];
    assert_eq!(output, correct_output);
}

#[test]
fn basic_tokenizer_2() {
    const TAG: &'static str = r#"<html><img/></html>"#;
    let output = tokens(TAG);
    let correct_output = vec![
        Token::StartTag("html".to_string(), false, Vec::new()),
        Token::StartTag("img".to_string(), true, Vec::new()),
        Token::EndTag("html".to_string(), false, Vec::new()),
    ];
    assert_eq!(output, correct_output);
}

#[test]
fn basic_tokenizer_3() {
    const TAG: &'static str = r#"<html>a<div>b</div>c</html>"#;
    let output = tokens(TAG);
    let correct_output = vec![
        Token::StartTag("html".to_string(), false, Vec::new()),
        Token::Character('a'),
        Token::StartTag("div".to_string(), false, Vec::new()),
        Token::Character('b'),
        Token::EndTag("div".to_string(), false, Vec::new()),
        Token::Character('c'),
        Token::EndTag("html".to_string(), false, Vec::new()),
    ];
    assert_eq!(output, correct_output);
}

#[test]
fn basic_tokenizer_4() {
    const TAG: &'static str = "<html this=100><body nope yes=three>yes</body></html>";
    let output = tokens(TAG);
    let correct_output = vec![
        Token::StartTag("html".to_string(), false, vec![Attribute::new("this", "100")]),
        Token::StartTag(
            "body".to_string(),
            false,
            vec![Attribute::new("nope", ""), Attribute::new("yes", "three")],
        ),
        Token::Character('y'),
        Token::Character('e'),
        Token::Character('s'),
        Token::EndTag("body".to_string(), false, Vec::new()),
        Token::EndTag("html".to_string(), false, Vec::new()),
    ];
    assert_eq!(output, correct_output);
}

#[test]
fn tokenizer_basic_tokenizer_1() {
    const TAG1: &'static str = r#"<html></html>"#;
    let output = stream(TAG1);
    let correct_output = vec![
        TagData::new().name(String::from("html")).start_tag(),
        TagData::new().name(String::from("html")).end_tag(),
    ];
    assert_eq!(output, correct_output);
}

#[test]
fn tokenizer_basic_tokenizer_2() {
    const TAG1: &'static str = r#"<html><img/></html>"#;
    let output = stream(TAG1);
    let correct_output = vec![
        TagData::new().name(String::from("html")).start_tag(),
        TagData::new().name(String::from("img")).self_closing_flag(true).start_tag(),
        TagData::new().name(String::from("html")).end_tag(),
    ];
    assert_eq!(output, correct_output);
}

#[test]
fn tokenizer_basic() {
    const TAG: &'static str = r#"<html></html>"#;
    let output = stream(TAG);
    let correct_output = vec![
        Token::StartTag("html".to_string(), false, Vec::new()),
        Token::EndTag("html".to_string(), false, Vec::new()),
    ];
    assert_eq!(output, correct_output);
}

#[test]
fn tokenizer_multiple_tags() {
    const TAG: &'static str = r#"<html>a<div>b</div>c</html>"#;
    let output = stream(TAG);
    let correct_output = vec![
        Token::StartTag("html".to_string(), false, Vec::new()),
        Token::Character('a'),
        Token::StartTag("div".to_string(), false, Vec::new()),
        Token::Character('b'),
        Token::EndTag("div".to_string(), false, Vec::new()),
        Token::Character('c'),
        Token::EndTag("html".to_string(), false, Vec::new()),
    ];
    assert_eq!(output, correct_output);
}

#[test]
fn tokenizer_self_closing_tag() {
    const TAG: &'static str = r#"<html><img/></html>"#;
    let output = stream(TAG);
    let correct_output = vec![
        Token::StartTag("html".to_string(), false, Vec::new()),
        Token::StartTag("img".to_string(), true, Vec::new()),
        Token::EndTag("html".to_string(), false, Vec::new()),
    ];
    assert_eq!(output, correct_output);
}

#[test]
fn tokenizer_tag_attribute() {
    const TAG: &'static str = "<html this=100 other ohYeah=yes ></html>";
    let output = stream(TAG);
    let correct_output = vec![
        Token::StartTag(
            "html".to_string(),
            false,
            vec![
                Attribute::new("this", "100"),
                Attribute::new("other", ""),
                // Capital letters in attribute names are turned to lower case.
                Attribute::new("ohyeah", "yes"),
            ],
        ),
        Token::EndTag("html".to_string(), false, Vec::new()),
    ];
    assert_eq!(output, correct_output);
}

#[test]
fn uppercase_tag_names_are_lowered() {
    let output = stream("<HTML></HTML>");
    assert_eq!(
        output,
        vec![
            Token::StartTag("html".to_string(), false, Vec::new()),
            Token::EndTag("html".to_string(), false, Vec::new()),
        ]
    );
}

#[test]
fn lone_self_closing_tag() {
    assert_eq!(stream("<img/>"), vec![Token::StartTag("img".to_string(), true, Vec::new())]);
}

#[test]
fn attributes_keep_their_order() {
    let output = stream("<html this=100 other ohYeah=yes>");
    assert_eq!(
        output,
        vec![Token::StartTag(
            "html".to_string(),
            false,
            vec![
                Attribute::new("this", "100"),
                Attribute::new("other", ""),
                Attribute::new("ohyeah", "yes"),
            ],
        )]
    );
}

#[test]
fn quoted_attribute_values() {
    let output = stream("<a HREF=\"x Y\" b='z' c=\"\">");
    assert_eq!(
        output,
        vec![Token::StartTag(
            "a".to_string(),
            false,
            vec![Attribute::new("href", "x Y"), Attribute::new("b", "z"), Attribute::new("c", "")],
        )]
    );
}

#[test]
fn quoted_value_then_self_closing() {
    let output = stream("<br a=\"1\"/>");
    assert_eq!(
        output,
        vec![Token::StartTag("br".to_string(), true, vec![Attribute::new("a", "1")])]
    );
}

#[test]
fn solidus_inside_a_tag_is_reconsumed() {
    let output = stream("<a /b>");
    assert_eq!(
        output,
        vec![Token::StartTag("a".to_string(), false, vec![Attribute::new("b", "")])]
    );
}

#[test]
fn null_in_data_is_replaced_and_reported() {
    let output = tokens_with_errors("a\0");
    assert_eq!(
        output,
        vec![
            (Token::Character('a'), None),
            (Token::Character('\u{FFFD}'), Some(HtmlTokenizerError::UnexpectedNullCharacter)),
        ]
    );
}

#[test]
fn null_in_attribute_value_is_replaced_and_reported() {
    let output = tokens_with_errors("<p a=x\0y>");
    assert_eq!(
        output,
        vec![(
            Token::StartTag("p".to_string(), false, vec![Attribute::new("a", "x\u{FFFD}y")]),
            Some(HtmlTokenizerError::UnexpectedNullCharacter),
        )]
    );
}

#[test]
fn malformed_tag_open_gives_the_angle_bracket() {
    let output = tokens_with_errors("<1");
    assert_eq!(
        output,
        vec![
            (Token::Character('<'), Some(HtmlTokenizerError::MalformedTagOpen)),
            (Token::Character('1'), None),
        ]
    );
}

#[test]
fn question_mark_opens_a_bogus_comment() {
    let output = tokens_with_errors("<?x>a");
    assert_eq!(
        output,
        vec![
            (Token::Comment("?x".to_string()), Some(HtmlTokenizerError::MalformedTagOpen)),
            (Token::Character('a'), None),
        ]
    );
}

#[test]
fn empty_end_tag_is_skipped() {
    assert_eq!(stream("</>a"), vec![Token::Character('a')]);
}

#[test]
fn unsupported_state_ends_the_stream() {
    let document = PreProccessor::new("a&amp;").unwrap();
    let mut tokenizer = Tokenizer::new(document);
    assert_eq!(tokenizer.next().unwrap().unwrap(), (Token::Character('a'), None));
    assert_eq!(
        tokenizer.next().unwrap(),
        Err(HtmlTokenizerError::UnsupportedState(TokenizationState::CharacterReferenceInData))
    );
    assert!(tokenizer.next().is_none());
    let document = PreProccessor::new("a&amp;").unwrap();
    assert_eq!(
        TokenStream::from_tokenizer(Tokenizer::new(document)),
        Err(HtmlTokenizerError::UnsupportedState(TokenizationState::CharacterReferenceInData))
    );
}

#[test]
fn markup_declaration_is_unsupported() {
    let document = PreProccessor::new("<!DOCTYPE html>").unwrap();
    assert_eq!(
        TokenStream::from_tokenizer(Tokenizer::new(document)),
        Err(HtmlTokenizerError::UnsupportedState(TokenizationState::MarkupDeclarationOpen))
    );
}

#[test]
fn unfinished_tag_yields_nothing() {
    assert_eq!(stream("<html"), Vec::<Token>::new());
    assert_eq!(stream(""), Vec::<Token>::new());
}

#[test]
fn reset_keeps_the_position() {
    let document = PreProccessor::new("<ab>c").unwrap();
    let mut tokenizer = Tokenizer::new(document);
    tokenizer.reset();
    assert_eq!(
        tokenizer.next().unwrap().unwrap().0,
        Token::StartTag("ab".to_string(), false, Vec::new())
    );
    tokenizer.reset();
    assert_eq!(tokenizer.next().unwrap().unwrap().0, Token::Character('c'));
}

#[test]
fn appended_text_is_tokenized() {
    let mut document = PreProccessor::new("<a>").unwrap();
    assert!(document.append_and_revalidate("é<B>").is_ok());
    let output = TokenStream::from_tokenizer(Tokenizer::new(document)).unwrap().tokens;
    assert_eq!(
        output,
        vec![
            Token::StartTag("a".to_string(), false, Vec::new()),
            Token::Character('é'),
            Token::StartTag("b".to_string(), false, Vec::new()),
        ]
    );
}

#[test]
fn tokenizer_error_messages() {
    assert_eq!(HtmlTokenizerError::UnexpectedNullCharacter.message(), "unexpected NULL character");
    assert_eq!(HtmlTokenizerError::MalformedTagOpen.message(), "malformed tag open");
}

#[test]
fn tag_data_builds_tokens() {
    let tag = TagData::new()
        .name("a".to_string())
        .self_closing_flag(true)
        .attributes(vec![Attribute::new("x", "1")]);
    assert_eq!(tag.start_tag(), Token::StartTag("a".to_string(), true, vec![Attribute::new("x", "1")]));
    assert_eq!(TagData::new().end_tag(), Token::EndTag(String::new(), false, Vec::new()));
}

#[test]
fn quote_ends_an_unquoted_value() {
    let output = stream("<p a=x\"b>");
    assert_eq!(
        output,
        vec![Token::StartTag("p".to_string(), false, vec![Attribute::new("a", "x"), Attribute::new("b", "")])]
    );
}

#[test]
fn solidus_in_unquoted_value_is_not_self_closing() {
    assert_eq!(
        stream("<a b=c/>"),
        vec![Token::StartTag("a".to_string(), false, vec![Attribute::new("b", "c/")])]
    );
    assert_eq!(
        stream("<a b='c'/><i>"),
        vec![
            Token::StartTag("a".to_string(), true, vec![Attribute::new("b", "c")]),
            Token::StartTag("i".to_string(), false, Vec::new()),
        ]
    );
}
