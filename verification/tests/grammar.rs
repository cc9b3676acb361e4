use impostor_core::ast::{
    CookieAttributeName, FilterValue, Pos, PredicateFuncValue, PredicateValue, QueryValue,
    RegexValue, SourceInfo, TemplateElement,
};
use impostor_core::parser::base64;
use impostor_core::parser::bytes::{hex, BytesKind};
use impostor_core::parser::combinators::Parser;
use impostor_core::parser::cookiepath::{cookiepath, cookiepath_attribute_name};
use impostor_core::parser::filter::{filter, filters};
use impostor_core::parser::key_string;
use impostor_core::parser::predicate::{predicate, Accept};
use impostor_core::parser::predicate_value::predicate_value;
use impostor_core::parser::primitives::{
    comment, eof, line_terminator, one_or_more_spaces, optional_line_terminators, try_literals,
};
use impostor_core::parser::json::hex_value;
use impostor_core::parser::parsers::{checked_sections, reject_duplicates, request_line};
use impostor_core::parser::query::{keyword_template, query, regex_value, word_query};
use impostor_core::parser::sections::{assert_line, capture, request_section, section_name};
use impostor_core::parser::string::{
    any_char, backtick_template, quoted_template, unescape, unquoted_template,
};
use impostor_core::parser::xml;
use impostor_core::parser::{Error, ParseError, Reader};

fn text(value: &str) -> TemplateElement {
    TemplateElement::String {
        value: value.to_string(),
        encoded: value.to_string(),
    }
}

fn expecting(value: &str) -> ParseError {
    ParseError::Expecting {
        value: value.to_string(),
    }
}

#[test]
fn test_one_or_more_spaces() {
    let mut reader = Reader::new("  x");
    assert_eq!(one_or_more_spaces(&mut reader).unwrap().value, "  ");
    assert_eq!(reader.state.cursor, 2);
    let mut reader = Reader::new("x");
    assert_eq!(
        one_or_more_spaces(&mut reader),
        Err(Error::new(Pos::new(1, 1), false, ParseError::Space))
    );
}

#[test]
fn test_comment() {
    let mut reader = Reader::new("# a comment\r\nx");
    let found = comment(&mut reader).unwrap();
    assert_eq!(found.value, " a comment");
    assert_eq!(
        found.source_info,
        SourceInfo::new(Pos::new(1, 2), Pos::new(1, 12))
    );
    assert_eq!(reader.state.cursor, 11);
    let mut reader = Reader::new("#");
    assert_eq!(comment(&mut reader).unwrap().value, "");
    let mut reader = Reader::new("# a\rb\n");
    assert_eq!(comment(&mut reader).unwrap().value, " a\rb");
    let mut reader = Reader::new("x");
    let error = comment(&mut reader).err().unwrap();
    assert_eq!(error, Error::new(Pos::new(1, 1), true, expecting("#")));
}

#[test]
fn test_line_terminator() {
    let mut reader = Reader::new("  # x\ny");
    let line = line_terminator(&mut reader).unwrap();
    assert_eq!(line.space0.value, "  ");
    assert_eq!(line.comment.unwrap().value, " x");
    assert_eq!(line.newline.value, "\n");
    assert_eq!(reader.state.cursor, 6);
    let mut reader = Reader::new("");
    let line = line_terminator(&mut reader).unwrap();
    assert_eq!(line.newline.value, "");
    let mut reader = Reader::new(" x");
    assert_eq!(
        line_terminator(&mut reader),
        Err(Error::new(Pos::new(1, 2), false, expecting("line_terminator")))
    );
    let mut reader = Reader::new("\n\n # c\nGET");
    assert_eq!(optional_line_terminators(&mut reader).unwrap().len(), 3);
    assert_eq!(reader.state.cursor, 7);
}

#[test]
fn test_eof_and_try_literals() {
    let mut reader = Reader::new("");
    assert_eq!(eof(&mut reader), Ok(()));
    let mut reader = Reader::new("x");
    assert_eq!(
        eof(&mut reader),
        Err(Error::new(Pos::new(1, 1), false, expecting("eof")))
    );
    let mut reader = Reader::new("== 1");
    assert_eq!(try_literals("equals", "==", &mut reader), Ok(true));
    assert_eq!(reader.state.cursor, 2);
    let mut reader = Reader::new("equals 1");
    assert_eq!(try_literals("equals", "==", &mut reader), Ok(false));
    let mut reader = Reader::new("= 1");
    assert_eq!(
        try_literals("equals", "==", &mut reader),
        Err(Error::new(Pos::new(1, 1), true, expecting("equals or ==")))
    );
    assert_eq!(reader.state.cursor, 0);
}

#[test]
fn test_unquoted_template() {
    let mut reader = Reader::new("a b  c   # x\n");
    let template = unquoted_template(&mut reader).unwrap();
    assert_eq!(template.elements, vec![text("a b  c")]);
    assert_eq!(
        template.source_info,
        SourceInfo::new(Pos::new(1, 1), Pos::new(1, 7))
    );
    assert_eq!(reader.state.cursor, 6);

    let mut reader = Reader::new("   \n");
    let template = unquoted_template(&mut reader).unwrap();
    assert!(template.elements.is_empty());
    assert_eq!(reader.state.cursor, 0);

    let mut reader = Reader::new("a\\n\\u0041\\{\\{b");
    let template = unquoted_template(&mut reader).unwrap();
    assert_eq!(
        template.elements,
        vec![TemplateElement::String {
            value: "a\nA{{b".to_string(),
            encoded: "a\\n\\u0041\\{\\{b".to_string(),
        }]
    );
    let mut reader = Reader::new("a\\xb");
    assert_eq!(
        unquoted_template(&mut reader),
        Err(Error::new(Pos::new(1, 3), false, ParseError::EscapeChar))
    );
    let mut reader = Reader::new("{{a}");
    assert_eq!(
        unquoted_template(&mut reader),
        Err(Error::new(Pos::new(1, 5), false, expecting("}}")))
    );
}

#[test]
fn test_quoted_and_backtick_template() {
    let mut reader = Reader::new("\"a#\\\"b\" x");
    let template = quoted_template(&mut reader).unwrap();
    assert_eq!(template.delimiter, Some('"'));
    assert_eq!(
        template.elements,
        vec![TemplateElement::String {
            value: "a#\"b".to_string(),
            encoded: "a#\\\"b".to_string(),
        }]
    );
    // the span covers the quotes
    assert_eq!(
        template.source_info,
        SourceInfo::new(Pos::new(1, 1), Pos::new(1, 8))
    );
    assert_eq!(template.encoded(), "a#\\\"b");
    assert_eq!(reader.state.cursor, 7);

    let mut reader = Reader::new("\"\"");
    assert!(quoted_template(&mut reader).unwrap().elements.is_empty());
    let mut reader = Reader::new("x");
    let error = quoted_template(&mut reader).err().unwrap();
    assert_eq!(error, Error::new(Pos::new(1, 1), true, expecting("\"")));
    let mut reader = Reader::new("\"abc\n\"");
    assert_eq!(
        quoted_template(&mut reader),
        Err(Error::new(Pos::new(1, 5), false, expecting("\"")))
    );

    let mut reader = Reader::new("`a \"b\"`");
    let template = backtick_template(&mut reader).unwrap();
    assert_eq!(template.delimiter, Some('`'));
    assert_eq!(template.elements, vec![text("a \"b\"")]);
}

#[test]
fn test_template_any_char() {
    let mut reader = Reader::new("#");
    let error = any_char('#', &mut reader).err().unwrap();
    assert!(error.recoverable);
    assert_eq!(reader.state.cursor, 0);
    let mut reader = Reader::new("#");
    assert_eq!(
        any_char('"', &mut reader),
        Ok(('#', "#".to_string(), Pos::new(1, 1)))
    );
    let mut reader = Reader::new("\\}");
    assert_eq!(
        any_char('"', &mut reader),
        Ok(('}', "\\}".to_string(), Pos::new(1, 1)))
    );
    let mut reader = Reader::new("\\/");
    assert_eq!(
        any_char('"', &mut reader),
        Err(Error::new(Pos::new(1, 2), false, ParseError::EscapeChar))
    );
}

#[test]
fn test_key_string() {
    let mut reader = Reader::new("aaa\\: ");
    assert_eq!(
        key_string::parse(&mut reader),
        Err(Error::new(Pos::new(1, 5), false, ParseError::EscapeChar))
    );
    let mut reader = Reader::new("a.b_c-d[0]@$ :");
    let key = key_string::parse(&mut reader).unwrap();
    assert_eq!(key.elements, vec![text("a.b_c-d[0]@$")]);
    assert_eq!(reader.state.cursor, 12);

    let mut reader = Reader::new("{{key}}_x: 1");
    let key = key_string::parse(&mut reader).unwrap();
    assert_eq!(key.elements.len(), 2);
    assert!(matches!(key.elements[0], TemplateElement::Expression(_)));
    assert_eq!(key.elements[1], text("_x"));
    assert_eq!(key.encoded(), "{{key}}_x");

    let mut reader = Reader::new("a\\u0062c");
    let key = key_string::parse(&mut reader).unwrap();
    assert_eq!(
        key.elements,
        vec![TemplateElement::String {
            value: "abc".to_string(),
            encoded: "a\\u0062c".to_string(),
        }]
    );

    // no key: the way stays open and nothing is read
    for input in ["", ": x", "[Asserts]", " a"] {
        let mut reader = Reader::new(input);
        let error = key_string::parse(&mut reader).err().unwrap();
        assert_eq!(
            error,
            Error::new(Pos::new(1, 1), true, expecting("key-string")),
            "{}",
            input
        );
        assert_eq!(reader.state.cursor, 0, "{}", input);
    }
    assert!(key_string::key_char('@'));
    assert!(!key_string::key_char(':'));
    assert!(!key_string::key_char(' '));
}

#[test]
fn test_base64() {
    for (input, bytes, cursor) in [
        ("", "", 0),
        ("AA==", "\0", 4),
        ("AA", "\0", 2),
        ("aGVsbG8gd29ybGQ=", "hello world", 16),
        ("aGVs bG8g\nd29y\tbGQ=;", "hello world", 19),
        ("TWE=", "Ma", 4),
        ("TWFu", "Man", 4),
        ("TWFu;", "Man", 4),
        ("T", "", 1),
        ("TWFuTQ", "ManM", 6),
    ] {
        let mut reader = Reader::new(input);
        assert_eq!(base64::parse(&mut reader), bytes.as_bytes(), "{}", input);
        assert_eq!(reader.state.cursor, cursor, "{}", input);
    }
    let mut reader = Reader::new("//79");
    assert_eq!(base64::parse(&mut reader), vec![0xff, 0xfe, 0xfd]);
    assert_eq!(base64::value('A'), Some(0));
    assert_eq!(base64::value('z'), Some(51));
    assert_eq!(base64::value('9'), Some(61));
    assert_eq!(base64::value('+'), Some(62));
    assert_eq!(base64::value('/'), Some(63));
    assert_eq!(base64::value('='), None);
}

#[test]
fn test_hex() {
    let mut reader = Reader::new("hex, ff;");
    let found = hex(&mut reader).unwrap();
    assert_eq!(found.value, vec![255]);
    assert_eq!(found.encoded, "ff");
    assert_eq!(found.space0.value, " ");
    let mut reader = Reader::new("hex,010203 ;");
    let found = hex(&mut reader).unwrap();
    assert_eq!(found.value, vec![1, 2, 3]);
    assert_eq!(found.space1.value, " ");
    let mut reader = Reader::new("hex,;");
    assert!(hex(&mut reader).unwrap().value.is_empty());
    let mut reader = Reader::new("hex,012;");
    assert_eq!(
        hex(&mut reader),
        Err(Error::new(Pos::new(1, 8), false, ParseError::HexDigit))
    );
    let mut reader = Reader::new("hex,xx;");
    assert_eq!(
        hex(&mut reader),
        Err(Error::new(Pos::new(1, 5), false, expecting(";")))
    );
    let mut reader = Reader::new("hexa");
    let error = hex(&mut reader).err().unwrap();
    assert!(!error.recoverable);
    let mut reader = Reader::new("he");
    let error = hex(&mut reader).err().unwrap();
    assert!(error.recoverable);
    assert_eq!(reader.state.cursor, 0);
}

#[test]
fn test_xml() {
    for (input, cursor) in [
        ("<a/>", 4),
        ("<a></a>x", 7),
        ("<?xml version=\"1.0\"?>\n<a b=\"1>2\">t<!-- c --><b/><![CDATA[<]]></a>\nGET", 65),
        ("<!DOCTYPE a><a>x</a>", 20),
        ("<a><a></a></a></a>", 14),
    ] {
        let mut reader = Reader::new(input);
        let found = xml::parse(&mut reader).unwrap();
        assert_eq!(reader.state.cursor, cursor, "{}", input);
        assert_eq!(found, input.chars().take(cursor).collect::<String>());
    }
    let mut reader = Reader::new("x");
    assert_eq!(
        xml::parse(&mut reader),
        Err(Error::new(Pos::new(1, 1), true, ParseError::XmlError))
    );
    assert_eq!(reader.state.cursor, 0);
    for (input, column) in [
        ("<a>", 4),
        ("<a", 3),
        ("</a>", 1),
        ("<!-- x", 7),
        ("<?xml ?>x<a/>", 9),
        ("<![CDATA[x]]>", 1),
        ("<a b=\">", 8),
    ] {
        let mut reader = Reader::new(input);
        assert_eq!(
            xml::parse(&mut reader),
            Err(Error::new(Pos::new(1, column), false, ParseError::XmlError)),
            "{}",
            input
        );
    }
}

#[test]
fn test_bytes_kind_rule() {
    let mut reader = Reader::new("hex,00;");
    assert!(BytesKind::Hex.parse(&mut reader).is_ok());
    let mut reader = Reader::new("hex,00;");
    let error = BytesKind::Json.parse(&mut reader).err().unwrap();
    assert!(error.recoverable);
}

#[test]
fn test_cookiepath() {
    let mut reader = Reader::new("cookie1");
    let path = cookiepath(&mut reader).unwrap();
    assert_eq!(path.name.elements, vec![text("cookie1")]);
    assert_eq!(path.attribute, None);

    let mut reader = Reader::new("cookie1[ Domain ]");
    let path = cookiepath(&mut reader).unwrap();
    let attribute = path.attribute.unwrap();
    assert_eq!(attribute.space0.value, " ");
    assert_eq!(
        attribute.name,
        CookieAttributeName::Domain("Domain".to_string())
    );
    assert_eq!(attribute.space1.value, " ");

    let mut reader = Reader::new("{{name}}[max-age]");
    let path = cookiepath(&mut reader).unwrap();
    assert!(matches!(
        path.name.elements[0],
        TemplateElement::Expression(_)
    ));
    assert_eq!(
        path.attribute.unwrap().name,
        CookieAttributeName::MaxAge("max-age".to_string())
    );

    let mut reader = Reader::new("c[unknown]");
    assert_eq!(
        cookiepath(&mut reader),
        Err(Error::new(
            Pos::new(1, 3),
            false,
            ParseError::InvalidCookieAttribute
        ))
    );
    let mut reader = Reader::new("c[Path]x");
    assert_eq!(
        cookiepath(&mut reader),
        Err(Error::new(Pos::new(1, 8), false, expecting("eof")))
    );
    for (input, name) in [
        ("Value", CookieAttributeName::Value("Value".to_string())),
        ("EXPIRES", CookieAttributeName::Expires("EXPIRES".to_string())),
        ("path", CookieAttributeName::Path("path".to_string())),
        ("Secure", CookieAttributeName::Secure("Secure".to_string())),
        ("HttpOnly", CookieAttributeName::HttpOnly("HttpOnly".to_string())),
        ("SameSite", CookieAttributeName::SameSite("SameSite".to_string())),
    ] {
        let mut reader = Reader::new(input);
        assert_eq!(cookiepath_attribute_name(&mut reader), Ok(name));
    }
}

#[test]
fn test_query() {
    for (input, cursor) in [
        ("status", 6),
        ("body", 4),
        ("bytes", 5),
        ("sha256", 6),
        ("md5", 3),
        ("header \"Foo\"", 12),
        ("xpath \"//a\"", 11),
        ("jsonpath \"$.a\"", 14),
        ("variable \"x\"", 12),
        ("querystring \"page\" ", 18),
        ("regex /a+/", 10),
        ("regex \"a+\"", 10),
        ("cookie \"id[Value]\"", 18),
    ] {
        let mut reader = Reader::new(input);
        let found = query(&mut reader).unwrap();
        assert_eq!(reader.state.cursor, cursor, "{}", input);
        assert_eq!(
            found.source_info,
            SourceInfo::new(Pos::new(1, 1), Pos::new(1, cursor + 1)),
            "{}",
            input
        );
    }
    let mut reader = Reader::new("status");
    assert_eq!(query(&mut reader).unwrap().value, QueryValue::Path);
    let mut reader = Reader::new("header  \"Foo\"");
    match query(&mut reader).unwrap().value {
        QueryValue::Header { space0, name } => {
            assert_eq!(space0.value, "  ");
            assert_eq!(name.elements, vec![text("Foo")]);
        }
        other => panic!("{:?}", other),
    }
    let mut reader = Reader::new("cookie \"id[Value]\"");
    match query(&mut reader).unwrap().value {
        QueryValue::Cookie { expr, .. } => {
            assert_eq!(
                expr.name.source_info,
                SourceInfo::new(Pos::new(1, 9), Pos::new(1, 11))
            );
            assert_eq!(
                expr.attribute.unwrap().name,
                CookieAttributeName::Value("Value".to_string())
            );
        }
        other => panic!("{:?}", other),
    }
    let mut reader = Reader::new("querystring \"p\"");
    assert!(matches!(
        query(&mut reader).unwrap().value,
        QueryValue::QueryParam { .. }
    ));

    let mut reader = Reader::new("HTTP/1.1");
    let error = query(&mut reader).err().unwrap();
    assert!(error.recoverable);
    assert_eq!(reader.state.cursor, 0);
    let mut reader = Reader::new("header Foo");
    assert_eq!(
        query(&mut reader),
        Err(Error::new(Pos::new(1, 8), false, expecting("\"")))
    );
    let mut reader = Reader::new("header\"Foo\"");
    assert_eq!(
        query(&mut reader),
        Err(Error::new(Pos::new(1, 7), false, ParseError::Space))
    );
    let mut reader = Reader::new("regex /(/");
    let error = query(&mut reader).err().unwrap();
    assert_eq!(error.pos, Pos::new(1, 8));
    assert!(matches!(error.inner, ParseError::RegexExpr { .. }));
}

#[test]
fn test_regex_value() {
    let mut reader = Reader::new("\"a\"");
    assert!(matches!(
        regex_value(&mut reader),
        Ok(RegexValue::Template(_))
    ));
    let mut reader = Reader::new("/a/");
    assert!(matches!(regex_value(&mut reader), Ok(RegexValue::Regex(_))));
    let mut reader = Reader::new("a");
    let error = regex_value(&mut reader).err().unwrap();
    assert!(error.recoverable);
    assert_eq!(reader.state.cursor, 0);
}

#[test]
fn test_predicate_value() {
    let cases: Vec<(&str, fn(&PredicateValue) -> bool)> = vec![
        ("null", |v| matches!(v, PredicateValue::Null)),
        ("true", |v| matches!(v, PredicateValue::Bool(true))),
        ("false", |v| matches!(v, PredicateValue::Bool(false))),
        ("\"a\"", |v| matches!(v, PredicateValue::String(_))),
        ("```a```", |v| matches!(v, PredicateValue::MultilineString(_))),
        ("/a/", |v| matches!(v, PredicateValue::Regex(_))),
        ("hex,00;", |v| matches!(v, PredicateValue::Hex(_))),
        ("base64,AA==;", |v| matches!(v, PredicateValue::Base64(_))),
        ("file,a.txt;", |v| matches!(v, PredicateValue::File(_))),
        ("{{x}}", |v| matches!(v, PredicateValue::Expression(_))),
        ("-1.5", |v| matches!(v, PredicateValue::Number(_))),
        ("12", |v| matches!(v, PredicateValue::Number(_))),
    ];
    for (input, check) in cases {
        let mut reader = Reader::new(input);
        let value = predicate_value(&mut reader).unwrap();
        assert!(check(&value), "{}: {:?}", input, value);
        assert!(reader.is_eof(), "{}", input);
    }
    let mut reader = Reader::new("xx");
    let error = predicate_value(&mut reader).err().unwrap();
    assert_eq!(error, Error::new(Pos::new(1, 1), true, expecting("number")));
    assert_eq!(reader.state.cursor, 0);
}

#[test]
fn test_predicate() {
    let mut reader = Reader::new("not equals true");
    let found = predicate(&mut reader).unwrap();
    assert!(found.not);
    assert_eq!(found.space0.value, " ");
    assert_eq!(
        found.predicate_func.source_info,
        SourceInfo::new(Pos::new(1, 5), Pos::new(1, 16))
    );
    assert!(matches!(
        found.predicate_func.value,
        PredicateFuncValue::Equal {
            operator: false,
            ..
        }
    ));
    let mut reader = Reader::new("==1");
    let found = predicate(&mut reader).unwrap();
    assert!(!found.not);
    match found.predicate_func.value {
        PredicateFuncValue::Equal {
            space0,
            value,
            operator,
        } => {
            assert!(operator);
            assert_eq!(space0.value, "");
            assert!(matches!(value, PredicateValue::Number(_)));
        }
        other => panic!("{:?}", other),
    }
    let cases: Vec<(&str, fn(&PredicateFuncValue) -> bool)> = vec![
        ("!= 1", |v| matches!(v, PredicateFuncValue::NotEqual { operator: true, .. })),
        ("notEquals 1", |v| matches!(v, PredicateFuncValue::NotEqual { operator: false, .. })),
        (">= 1", |v| matches!(v, PredicateFuncValue::GreaterThanOrEqual { .. })),
        ("> 1", |v| matches!(v, PredicateFuncValue::GreaterThan { .. })),
        ("greaterThanOrEquals 1", |v| matches!(v, PredicateFuncValue::GreaterThanOrEqual { .. })),
        ("greaterThan 1", |v| matches!(v, PredicateFuncValue::GreaterThan { .. })),
        ("<= \"a\"", |v| matches!(v, PredicateFuncValue::LessThanOrEqual { .. })),
        ("< {{x}}", |v| matches!(v, PredicateFuncValue::LessThan { .. })),
        ("lessThan 2", |v| matches!(v, PredicateFuncValue::LessThan { operator: false, .. })),
        ("lessThanOrEquals 2", |v| matches!(v, PredicateFuncValue::LessThanOrEqual { .. })),
        ("startsWith \"a\"", |v| matches!(v, PredicateFuncValue::StartWith { .. })),
        ("endsWith hex,00;", |v| matches!(v, PredicateFuncValue::EndWith { .. })),
        ("contains 1", |v| matches!(v, PredicateFuncValue::Contain { .. })),
        ("includes null", |v| matches!(v, PredicateFuncValue::Include { .. })),
        ("matches /a/", |v| matches!(v, PredicateFuncValue::Match { .. })),
        ("matches \"a\"", |v| matches!(v, PredicateFuncValue::Match { .. })),
        ("isInteger", |v| matches!(v, PredicateFuncValue::IsInteger)),
        ("isFloat", |v| matches!(v, PredicateFuncValue::IsFloat)),
        ("isBoolean", |v| matches!(v, PredicateFuncValue::IsBoolean)),
        ("isString", |v| matches!(v, PredicateFuncValue::IsString)),
        ("isCollection", |v| matches!(v, PredicateFuncValue::IsCollection)),
        ("isDate", |v| matches!(v, PredicateFuncValue::IsDate)),
        ("exists", |v| matches!(v, PredicateFuncValue::Exist)),
        ("isEmpty", |v| matches!(v, PredicateFuncValue::IsEmpty)),
    ];
    for (input, check) in cases {
        let mut reader = Reader::new(input);
        let found = predicate(&mut reader).unwrap();
        assert!(check(&found.predicate_func.value), "{}", input);
        assert!(reader.is_eof(), "{}", input);
    }
    // the word `not` needs a blank after it
    let mut reader = Reader::new("notEquals 1");
    assert!(!predicate(&mut reader).unwrap().not);
}

#[test]
fn test_predicate_errors() {
    let mut reader = Reader::new("foo");
    assert_eq!(
        predicate(&mut reader),
        Err(Error::new(Pos::new(1, 1), false, ParseError::Predicate))
    );
    let mut reader = Reader::new("> true");
    assert_eq!(
        predicate(&mut reader),
        Err(Error::new(Pos::new(1, 3), false, ParseError::PredicateValue))
    );
    let mut reader = Reader::new("startsWith 1");
    assert_eq!(
        predicate(&mut reader),
        Err(Error::new(Pos::new(1, 12), false, ParseError::PredicateValue))
    );
    let mut reader = Reader::new("matches 1");
    assert_eq!(
        predicate(&mut reader),
        Err(Error::new(Pos::new(1, 9), false, ParseError::PredicateValue))
    );
    let mut reader = Reader::new("equals1");
    assert_eq!(
        predicate(&mut reader),
        Err(Error::new(Pos::new(1, 7), false, ParseError::Space))
    );
    let mut reader = Reader::new("== ?");
    assert_eq!(
        predicate(&mut reader),
        Err(Error::new(Pos::new(1, 4), false, ParseError::PredicateValue))
    );
    assert!(Accept::Any.accepts(&PredicateValue::Null));
    assert!(!Accept::Ordered.accepts(&PredicateValue::Null));
    assert!(!Accept::Text.accepts(&PredicateValue::Bool(true)));
    assert!(!Accept::Pattern.accepts(&PredicateValue::Null));
}

#[test]
fn test_filter() {
    let cases: Vec<(&str, fn(&FilterValue) -> bool)> = vec![
        ("count", |v| matches!(v, FilterValue::Count)),
        ("daysAfterNow", |v| matches!(v, FilterValue::DaysAfterNow)),
        ("daysBeforeNow", |v| matches!(v, FilterValue::DaysBeforeNow)),
        ("decode \"utf-8\"", |v| matches!(v, FilterValue::Decode { .. })),
        ("format \"%Y\"", |v| matches!(v, FilterValue::Format { .. })),
        ("htmlEscape", |v| matches!(v, FilterValue::HtmlEscape)),
        ("htmlUnescape", |v| matches!(v, FilterValue::HtmlUnescape)),
        ("jsonpath \"$.a\"", |v| matches!(v, FilterValue::JsonPath { .. })),
        ("nth 2", |v| matches!(v, FilterValue::Nth { n: 2, .. })),
        ("regex /a(b)/", |v| matches!(v, FilterValue::Regex { .. })),
        ("replace /a/ \"b\"", |v| matches!(v, FilterValue::Replace { .. })),
        ("replace \"a\" \"b\"", |v| matches!(v, FilterValue::Replace { .. })),
        ("split \",\"", |v| matches!(v, FilterValue::Split { .. })),
        ("toDate \"%Y\"", |v| matches!(v, FilterValue::ToDate { .. })),
        ("toInt", |v| matches!(v, FilterValue::ToInt)),
        ("urlDecode", |v| matches!(v, FilterValue::UrlDecode)),
        ("urlEncode", |v| matches!(v, FilterValue::UrlEncode)),
        ("xpath \"//a\"", |v| matches!(v, FilterValue::XPath { .. })),
    ];
    for (input, check) in cases {
        let mut reader = Reader::new(input);
        let found = filter(&mut reader).unwrap();
        assert!(check(&found.value), "{}", input);
        assert!(reader.is_eof(), "{}", input);
        assert_eq!(found.source_info.start, Pos::new(1, 1));
        assert_eq!(found.source_info.end, Pos::new(1, input.len() + 1));
    }
    let mut reader = Reader::new("xxx");
    assert_eq!(
        filter(&mut reader),
        Err(Error::new(Pos::new(1, 1), true, ParseError::Filter))
    );
    assert_eq!(reader.state.cursor, 0);
    let mut reader = Reader::new("nth x");
    assert_eq!(
        filter(&mut reader),
        Err(Error::new(Pos::new(1, 5), false, expecting("natural")))
    );
    let mut reader = Reader::new("replace /a/ b");
    assert_eq!(
        filter(&mut reader),
        Err(Error::new(Pos::new(1, 13), false, expecting("\"")))
    );
}

#[test]
fn test_filters() {
    let mut reader = Reader::new(" count  toInt == 1");
    let found = filters(&mut reader).unwrap();
    assert_eq!(found.len(), 2);
    assert_eq!(found[0].0.value, " ");
    assert_eq!(found[1].0.value, "  ");
    assert!(matches!(found[1].1.value, FilterValue::ToInt));
    // the blanks before the predicate stay unread
    assert_eq!(reader.state.cursor, 13);
    let mut reader = Reader::new("count");
    assert!(filters(&mut reader).unwrap().is_empty());
    assert_eq!(reader.state.cursor, 0);
    let mut reader = Reader::new(" split x");
    assert!(filters(&mut reader).is_err());
}

#[test]
fn test_sections() {
    let mut reader = Reader::new("[Asserts]");
    assert_eq!(section_name(&mut reader), Ok("Asserts".to_string()));
    for input in ["[]", "[a", "x", "[a b]"] {
        let mut reader = Reader::new(input);
        let error = section_name(&mut reader).err().unwrap();
        assert!(error.recoverable, "{}", input);
        assert_eq!(reader.state.cursor, 0, "{}", input);
    }

    let mut reader = Reader::new("token: jsonpath \"$.token\" nth 0\n");
    let found = capture(&mut reader).unwrap();
    assert_eq!(found.name.elements, vec![text("token")]);
    assert_eq!(found.space1.value, "");
    assert_eq!(found.space2.value, " ");
    assert_eq!(found.filters.len(), 1);
    assert!(reader.is_eof());

    let mut reader = Reader::new("  header \"A\" count == 1 # one\n");
    let found = assert_line(&mut reader).unwrap();
    assert_eq!(found.space0.value, "  ");
    assert_eq!(found.filters.len(), 1);
    assert_eq!(found.space1.value, " ");
    assert!(found.line_terminator0.comment.is_some());

    let mut reader = Reader::new("\n# c\n [Captures] # d\na: body\nb: status\nHTTP 200");
    let found = request_section(&mut reader).unwrap();
    assert_eq!(found.line_terminators.len(), 2);
    assert_eq!(found.space0.value, " ");
    assert_eq!(
        found.source_info,
        SourceInfo::new(Pos::new(3, 2), Pos::new(3, 12))
    );
    assert_eq!(found.name(), "Captures");
    assert_eq!(reader.state.cursor, 39);

    let mut reader = Reader::new("[Asserts]\nbody\n");
    assert_eq!(
        request_section(&mut reader),
        Err(Error::new(Pos::new(2, 5), false, ParseError::Space))
    );
}

#[test]
fn test_reader_looking_at() {
    let mut reader = Reader::new("abc");
    assert!(reader.looking_at("ab"));
    assert!(reader.looking_at(""));
    assert!(!reader.looking_at("abcd"));
    assert!(!reader.looking_at("b"));
    reader.read();
    assert!(reader.looking_at("bc"));
    assert_eq!(reader.state.cursor, 1);
}

#[test]
fn test_multiline_string_of_blanks() {
    let mut reader = Reader::new("``` ```");
    let found = impostor_core::parser::multiline::multiline_string(&mut reader).unwrap();
    assert_eq!(found.lang(), "");
    assert_eq!(found.value().elements, vec![text(" ")]);
    assert_eq!(
        found.value().source_info,
        SourceInfo::new(Pos::new(1, 4), Pos::new(1, 5))
    );
    assert!(reader.is_eof());
}

#[test]
fn test_request_line_and_checked_sections() {
    let mut reader = Reader::new("\n  DELETE   /items/1 # gone\nHTTP 204");
    let line = request_line(&mut reader).unwrap();
    assert_eq!(line.line_terminators.len(), 1);
    assert_eq!(line.space0.value, "  ");
    assert_eq!(line.method.0, "DELETE");
    assert_eq!(line.space1.value, "   ");
    assert_eq!(line.path.elements, vec![text("/items/1")]);
    assert_eq!(reader.state.cursor, 28);

    let mut reader = Reader::new("[Asserts]\n[Captures]\n[Captures]\n");
    assert_eq!(
        checked_sections(&mut reader),
        Err(Error::new(Pos::new(3, 1), false, ParseError::DuplicateSection))
    );
    assert_eq!(reject_duplicates(vec![]), Ok(vec![]));
}

#[test]
fn test_word_and_keyword_helpers() {
    let mut reader = Reader::new("md5 x");
    assert_eq!(
        word_query("md5", QueryValue::Md5, &mut reader),
        Ok(QueryValue::Md5)
    );
    assert_eq!(reader.state.cursor, 3);
    let mut reader = Reader::new("name \"a\"");
    let (space, template) = keyword_template("name", &mut reader).unwrap();
    assert_eq!(space.value, " ");
    assert_eq!(template.elements, vec![text("a")]);
    let mut reader = Reader::new("nam \"a\"");
    let error = keyword_template("name", &mut reader).err().unwrap();
    assert!(error.recoverable);
    assert_eq!(reader.state.cursor, 0);
}

#[test]
fn test_template_unescape() {
    assert_eq!(unescape('{'), Some('{'));
    assert_eq!(unescape('}'), Some('}'));
    assert_eq!(unescape('"'), Some('"'));
    assert_eq!(unescape('\\'), Some('\\'));
    assert_eq!(unescape('t'), Some('\t'));
    assert_eq!(unescape('/'), None);
    assert_eq!(unescape('#'), None);
}

#[test]
fn test_hex_value() {
    let mut reader = Reader::new("00e9x");
    assert_eq!(hex_value(&mut reader), Ok(0xe9));
    assert_eq!(reader.state.cursor, 4);
    let mut reader = Reader::new("FFFF");
    assert_eq!(hex_value(&mut reader), Ok(0xffff));
    let mut reader = Reader::new("12");
    assert_eq!(
        hex_value(&mut reader),
        Err(Error::new(Pos::new(1, 3), false, ParseError::HexDigit))
    );
}
