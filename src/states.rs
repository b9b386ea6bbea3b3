use vstd::prelude::*;

verus! {

/// The lexical states of the tokenizer. Only a subset is implemented; the
/// tokenizer stops with an error when it would enter any of the others.
#[derive(Clone, Copy, Debug, PartialEq, Eq, Structural)]
pub enum TokenizationState {
    Data,
    CharacterReferenceInData,
    RCDATA,
    CharacterReferenceInRCDATA,
    RAWTEXT,
    ScriptData,
    PLAINTEXT,
    TagOpen,
    EndTagOpen,
    TagName,
    RCDATALessThanSign,
    RCDATAEndTagOpen,
    RCDATAEndTagName,
    RAWTEXTLessThanSign,
    RAWTEXTEndTagOpen,
    RAWTEXTEndTagName,
    BeforeAttributeName,
    AttributeName,
    AfterAttributeName,
    BeforeAttributeValue,
    AttributeValueDoubleQuoted,
    AttributeValueSingleQuoted,
    AttributeValueUnquoted,
    CharacterReferenceInAttributeValue,
    AfterAttributeValueQuoted,
    SelfClosingStartTag,
    BogusComment,
    MarkupDeclarationOpen,
    CommentStart,
    CommentStartDash,
    Comment,
    CommentEndDash,
    CommentEnd,
    CommentEndBang,
    DOCTYPE,
    BeforeDOCTYPEName,
    DOCTYPEName,
    AfterDOCTYPEName,
    CDATASection,
}

/// The insertion modes of the tree builder.
#[derive(Clone, Copy, Debug, PartialEq, Eq, Structural)]
pub enum InsertionMode {
    Initial,
    BeforeHtml,
    BeforeHead,
    InHead,
    InHeadNoScript,
    AfterHead,
    InBody,
    Text,
    InTable,
    InTableText,
    InCaption,
    InColumnGroup,
    InTableBody,
    InRow,
    InCell,
    InSelect,
    InSelectTable,
    InTemplate,
    AfterBody,
    InFrameset,
    AfterFrameset,
    AfterAfterBody,
    AfterAfterFrameset,
}

/// The insertion modes that have a handler in the tree builder.
pub open spec fn is_implemented_mode(m: InsertionMode) -> bool {
    match m {
        InsertionMode::Initial | InsertionMode::BeforeHtml | InsertionMode::BeforeHead
        | InsertionMode::InHead | InsertionMode::AfterHead | InsertionMode::InBody
        | InsertionMode::AfterBody | InsertionMode::AfterAfterBody => true,
        _ => false,
    }
}

} // verus!
