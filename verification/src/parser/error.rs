use crate::ast::Pos;
use vstd::prelude::*;

verus! {

/// What went wrong inside a JSON value.
#[derive(Clone, Copy, Debug, PartialEq, Eq, Structural)]
pub enum JsonErrorVariant {
    TrailingComma,
    ExpectingElement,
    EmptyElement,
}

/// The kinds of parse failure.
#[derive(Clone, Debug, PartialEq, Eq)]
pub enum ParseError {
    Expecting { value: String },
    Space,
    Eof,
    Multiline,
    GraphQlVariables,
    InvalidCookieAttribute,
    DuplicateSection,
    JsonError(JsonErrorVariant),
    XmlError,
    RegexExpr { message: String },
    InvalidOption,
    EscapeChar,
    HexDigit,
    Unicode,
    Predicate,
    PredicateValue,
    Filter,
    Version,
    Status,
    Method,
    TemplateVariable,
}

/// A [`ParseError`] as mathematical values.
pub enum ParseErrorView {
    Expecting { value: Seq<char> },
    Space,
    Eof,
    Multiline,
    GraphQlVariables,
    InvalidCookieAttribute,
    DuplicateSection,
    JsonError(JsonErrorVariant),
    XmlError,
    RegexExpr { message: Seq<char> },
    InvalidOption,
    EscapeChar,
    HexDigit,
    Unicode,
    Predicate,
    PredicateValue,
    Filter,
    Version,
    Status,
    Method,
    TemplateVariable,
}

impl DeepView for ParseError {
    type V = ParseErrorView;

    open spec fn deep_view(&self) -> ParseErrorView {
        match *self {
            ParseError::Expecting { value } => ParseErrorView::Expecting { value: value@ },
            ParseError::Space => ParseErrorView::Space,
            ParseError::Eof => ParseErrorView::Eof,
            ParseError::Multiline => ParseErrorView::Multiline,
            ParseError::GraphQlVariables => ParseErrorView::GraphQlVariables,
            ParseError::InvalidCookieAttribute => ParseErrorView::InvalidCookieAttribute,
            ParseError::DuplicateSection => ParseErrorView::DuplicateSection,
            ParseError::JsonError(variant) => ParseErrorView::JsonError(variant),
            ParseError::XmlError => ParseErrorView::XmlError,
            ParseError::RegexExpr { message } => ParseErrorView::RegexExpr { message: message@ },
            ParseError::InvalidOption => ParseErrorView::InvalidOption,
            ParseError::EscapeChar => ParseErrorView::EscapeChar,
            ParseError::HexDigit => ParseErrorView::HexDigit,
            ParseError::Unicode => ParseErrorView::Unicode,
            ParseError::Predicate => ParseErrorView::Predicate,
            ParseError::PredicateValue => ParseErrorView::PredicateValue,
            ParseError::Filter => ParseErrorView::Filter,
            ParseError::Version => ParseErrorView::Version,
            ParseError::Status => ParseErrorView::Status,
            ParseError::Method => ParseErrorView::Method,
            ParseError::TemplateVariable => ParseErrorView::TemplateVariable,
        }
    }
}

/// A parse failure: where it happened, what was wrong, and whether an
/// enclosing combinator may go on with another alternative.
#[derive(Clone, Debug, PartialEq, Eq)]
pub struct Error {
    pub pos: Pos,
    pub recoverable: bool,
    pub inner: ParseError,
}

/// An [`Error`] as mathematical values.
pub struct ErrorView {
    pub pos: Pos,
    pub recoverable: bool,
    pub inner: ParseErrorView,
}

impl DeepView for Error {
    type V = ErrorView;

    open spec fn deep_view(&self) -> ErrorView {
        ErrorView {
            pos: self.pos,
            recoverable: self.recoverable,
            inner: self.inner.deep_view(),
        }
    }
}

impl Error {
    pub fn new(pos: Pos, recoverable: bool, inner: ParseError) -> (error: Error)
        ensures
            error == (Error { pos, recoverable, inner }),
    {
        Error { pos, recoverable, inner }
    }

    /// The same failure, marked so that no combinator goes on past it.
    pub fn non_recoverable(self) -> (error: Error)
        ensures
            error == (Error { pos: self.pos, recoverable: false, inner: self.inner }),
    {
        Error { pos: self.pos, recoverable: false, inner: self.inner }
    }
}

} // verus!
