use impostor_core::ast::{
    Assert, Capture, CookieAttributeName, GraphQl, LineTerminator, Method, MultilineString, Pos,
    Predicate, PredicateFunc, PredicateFuncValue, Query, QueryValue, Request, RequestSection,
    RequestSectionValue, Retry, SourceInfo, Template, TemplateElement, Text, Whitespace,
};
use impostor_core::parser::primitives::{regex, regex_error_message, RegexFailure};
use impostor_core::parser::reader::Reader;
use impostor_core::parser::{Error, ParseError};

fn span() -> SourceInfo {
    SourceInfo::new(Pos::new(1, 1), Pos::new(1, 1))
}

fn blank(value: &str) -> Whitespace {
    Whitespace {
        value: value.to_string(),
        source_info: span(),
    }
}

fn template(value: &str) -> Template {
    Template {
        delimiter: None,
        elements: vec![TemplateElement::String {
            value: value.to_string(),
            encoded: value.to_string(),
        }],
        source_info: span(),
    }
}

fn line_end() -> LineTerminator {
    LineTerminator {
        space0: blank(""),
        comment: None,
        newline: blank("\n"),
    }
}

fn capture(name: &str) -> Capture {
    Capture {
        line_terminators: vec![],
        space0: blank(""),
        name: template(name),
        space1: blank(""),
        space2: blank(" "),
        query: Query {
            source_info: span(),
            value: QueryValue::Path,
        },
        filters: vec![],
        line_terminator0: line_end(),
    }
}

fn assert_exists() -> Assert {
    Assert {
        line_terminators: vec![],
        space0: blank(""),
        query: Query {
            source_info: span(),
            value: QueryValue::Body,
        },
        filters: vec![],
        space1: blank(" "),
        predicate: Predicate {
            not: false,
            space0: blank(""),
            predicate_func: PredicateFunc {
                source_info: span(),
                value: PredicateFuncValue::Exist,
            },
        },
        line_terminator0: line_end(),
    }
}

fn section(value: RequestSectionValue) -> RequestSection {
    RequestSection {
        line_terminators: vec![],
        space0: blank(""),
        line_terminator0: line_end(),
        value,
        source_info: span(),
    }
}

fn request(sections: Vec<RequestSection>) -> Request {
    Request {
        line_terminators: vec![],
        space0: blank(""),
        method: Method("GET".to_string()),
        space1: blank(" "),
        path: template("/"),
        line_terminator0: line_end(),
        headers: vec![],
        sections,
        body: None,
        source_info: span(),
    }
}

#[test]
fn test_pos_and_source_info() {
    assert_eq!(Pos::new(3, 4), Pos { line: 3, column: 4 });
    assert_eq!(
        SourceInfo::new(Pos::new(1, 2), Pos::new(3, 4)),
        SourceInfo {
            start: Pos { line: 1, column: 2 },
            end: Pos { line: 3, column: 4 }
        }
    );
}

#[test]
fn test_request_captures_and_asserts() {
    let empty = request(vec![]);
    assert_eq!(empty.captures(), vec![]);
    assert_eq!(empty.asserts(), vec![]);

    let both = request(vec![
        section(RequestSectionValue::Asserts(vec![assert_exists()])),
        section(RequestSectionValue::Captures(vec![capture("a"), capture("b")])),
        section(RequestSectionValue::Captures(vec![capture("c")])),
    ]);
    assert_eq!(both.captures(), vec![capture("a"), capture("b")]);
    assert_eq!(both.asserts(), vec![assert_exists()]);
    assert_eq!(both.clone(), both);
}

#[test]
fn test_section_name() {
    assert_eq!(
        section(RequestSectionValue::Asserts(vec![])).name(),
        "Asserts"
    );
    assert_eq!(
        section(RequestSectionValue::Captures(vec![])).name(),
        "Captures"
    );
}

#[test]
fn test_cookie_attribute_name_value() {
    assert_eq!(
        CookieAttributeName::Value("Value".to_string()).value(),
        "Value"
    );
    assert_eq!(
        CookieAttributeName::MaxAge("max-age".to_string()).value(),
        "max-age"
    );
    assert_eq!(
        CookieAttributeName::SameSite("SameSite".to_string()).value(),
        "SameSite"
    );
    assert_eq!(
        CookieAttributeName::HttpOnly("httponly".to_string()).value(),
        "httponly"
    );
}

#[test]
fn test_multiline_string_lang_and_value() {
    let text = Text {
        space: blank(""),
        newline: blank("\n"),
        value: template("x\n"),
    };
    assert_eq!(MultilineString::OneLineText(template("y")).lang(), "");
    assert_eq!(
        MultilineString::OneLineText(template("y")).value(),
        template("y")
    );
    assert_eq!(MultilineString::Text(text.clone()).lang(), "");
    assert_eq!(MultilineString::Json(text.clone()).lang(), "json");
    assert_eq!(MultilineString::Xml(text.clone()).lang(), "xml");
    assert_eq!(MultilineString::Xml(text.clone()).value(), template("x\n"));
    let graphql = MultilineString::GraphQl(GraphQl {
        space: blank(""),
        newline: blank("\n"),
        value: template("q"),
        variables: None,
    });
    assert_eq!(graphql.lang(), "graphql");
    assert_eq!(graphql.value(), template("q"));
}

#[test]
fn test_retry_kinds() {
    assert_ne!(Retry::Never, Retry::Infinite);
    assert_eq!(Retry::Finite(3), Retry::Finite(3));
}

#[test]
fn test_regex_literal() {
    let mut reader = Reader::new("/a{3}/ x");
    assert_eq!(regex(&mut reader).unwrap().pattern, "a{3}");
    assert_eq!(reader.state.cursor, 6);

    // a slash inside the pattern is written with a backslash
    let mut reader = Reader::new("/^\\d{4}\\/\\d{2}$/");
    assert_eq!(regex(&mut reader).unwrap().pattern, "^\\d{4}/\\d{2}$");
    assert!(reader.is_eof());
}

#[test]
fn test_regex_literal_errors() {
    let mut reader = Reader::new("xxx");
    let error = regex(&mut reader).err().unwrap();
    assert_eq!(
        error,
        Error::new(
            Pos::new(1, 1),
            true,
            ParseError::Expecting {
                value: "/".to_string()
            }
        )
    );
    assert_eq!(reader.state.cursor, 0);

    let mut reader = Reader::new("/xxx");
    let error = regex(&mut reader).err().unwrap();
    assert_eq!(
        error,
        Error::new(
            Pos::new(1, 5),
            false,
            ParseError::RegexExpr {
                message: "unexpected end of file".to_string()
            }
        )
    );

    // the library refuses the pattern: its report is cut down to its last line
    let mut reader = Reader::new("/x{a}/");
    let error = regex(&mut reader).err().unwrap();
    assert_eq!(
        error,
        Error::new(
            Pos::new(1, 2),
            false,
            ParseError::RegexExpr {
                message: "repetition quantifier expects a valid decimal".to_string()
            }
        )
    );
    let mut reader = Reader::new("/(/");
    let error = regex(&mut reader).err().unwrap();
    assert_eq!(error.pos, Pos::new(1, 2));
    assert!(!error.recoverable);
    assert_eq!(
        error.inner,
        ParseError::RegexExpr {
            message: "unclosed group".to_string()
        }
    );
}

#[test]
fn test_regex_error_message() {
    let report = "regex parse error:\n    x{a\n      ^\nerror: repetition quantifier expects a valid decimal";
    assert_eq!(
        regex_error_message(&RegexFailure::Syntax(report.to_string())),
        "repetition quantifier expects a valid decimal"
    );
    assert_eq!(
        regex_error_message(&RegexFailure::Syntax("one line".to_string())),
        "one line"
    );
    assert_eq!(
        regex_error_message(&RegexFailure::Syntax("a\nerror:".to_string())),
        "error:"
    );
    assert_eq!(
        regex_error_message(&RegexFailure::Syntax("a\n".to_string())),
        ""
    );
    assert_eq!(
        regex_error_message(&RegexFailure::Syntax(String::new())),
        ""
    );
    assert_eq!(
        regex_error_message(&RegexFailure::CompiledTooBig),
        "Size limit exceeded"
    );
    assert_eq!(regex_error_message(&RegexFailure::Other), "unknown");
}
