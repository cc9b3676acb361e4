use impostor_core::ast::{
    Expr, JsonListElement, JsonObjectElement, JsonValue, Pos, SourceInfo, Template,
    TemplateElement, Variable, Whitespace,
};
use impostor_core::parser::error::{Error, JsonErrorVariant, ParseError};
use impostor_core::parser::json::{
    any_char, boolean_value, list_value, null_value, number_value, object_value, parse,
    string_template, string_value, unescape, whitespace,
};
use impostor_core::parser::reader::Reader;
use impostor_core::parser::{parse_json, parse_json_boolean, parse_json_null, parse_json_number};

fn text(value: &str, encoded: &str) -> TemplateElement {
    TemplateElement::String {
        value: value.to_string(),
        encoded: encoded.to_string(),
    }
}

fn string(value: &str, line: usize, from: usize, to: usize) -> Template {
    Template {
        delimiter: Some('"'),
        elements: if value.is_empty() {
            vec![]
        } else {
            vec![text(value, value)]
        },
        source_info: SourceInfo::new(Pos::new(line, from), Pos::new(line, to)),
    }
}

fn expecting(value: &str) -> ParseError {
    ParseError::Expecting {
        value: value.to_string(),
    }
}

#[test]
fn test_json_null() {
    let mut reader = Reader::new("null,");
    assert_eq!(null_value(&mut reader), Ok(JsonValue::Null));
    assert_eq!(reader.state.cursor, 4);
    let mut reader = Reader::new("nul");
    assert_eq!(
        parse_json_null(&mut reader),
        Err(Error::new(Pos::new(1, 1), true, expecting("null")))
    );
    assert_eq!(reader.state.cursor, 0);
}

#[test]
fn test_json_boolean() {
    let mut reader = Reader::new("true");
    assert_eq!(boolean_value(&mut reader), Ok(JsonValue::Boolean(true)));
    let mut reader = Reader::new("false");
    assert_eq!(
        parse_json_boolean(&mut reader),
        Ok(JsonValue::Boolean(false))
    );
    let mut reader = Reader::new("1");
    let error = boolean_value(&mut reader).err().unwrap();
    assert_eq!(error.inner, expecting("true|false"));
    assert!(error.recoverable);
}

#[test]
fn test_json_number() {
    for (input, number, cursor) in [
        ("0", "0", 1),
        ("-0", "-0", 2),
        ("1x", "1", 1),
        ("1234.5", "1234.5", 6),
        ("1.7e+10", "1.7e+10", 7),
        ("2E-3,", "2E-3", 4),
        ("-1.0e5", "-1.0e5", 6),
        ("01", "0", 1),
        ("1e", "1e", 2),
        ("0.010", "0.010", 5),
    ] {
        let mut reader = Reader::new(input);
        assert_eq!(
            number_value(&mut reader),
            Ok(JsonValue::Number(number.to_string())),
            "{}",
            input
        );
        assert_eq!(reader.state.cursor, cursor, "{}", input);
    }
    let mut reader = Reader::new("x");
    assert_eq!(
        parse_json_number(&mut reader),
        Err(Error::new(Pos::new(1, 1), true, expecting("number")))
    );
    let mut reader = Reader::new("-");
    assert_eq!(
        number_value(&mut reader),
        Err(Error::new(Pos::new(1, 1), true, expecting("number")))
    );
    assert_eq!(reader.state.cursor, 1);
    let mut reader = Reader::new("1.x");
    assert_eq!(
        number_value(&mut reader),
        Err(Error::new(Pos::new(1, 3), false, expecting("digits")))
    );
}

#[test]
fn test_json_string() {
    let mut reader = Reader::new("\"\"");
    assert_eq!(
        string_value(&mut reader),
        Ok(JsonValue::String(string("", 1, 2, 2)))
    );
    assert_eq!(reader.state.cursor, 2);

    let mut reader = Reader::new("\"Hello\\u0020{{name}}!\"");
    assert_eq!(
        string_template(&mut reader),
        Ok(Template {
            delimiter: Some('"'),
            elements: vec![
                text("Hello ", "Hello\\u0020"),
                TemplateElement::Expression(Expr {
                    space0: Whitespace {
                        value: String::new(),
                        source_info: SourceInfo::new(Pos::new(1, 15), Pos::new(1, 15)),
                    },
                    variable: Variable {
                        name: "name".to_string(),
                        source_info: SourceInfo::new(Pos::new(1, 15), Pos::new(1, 19)),
                    },
                    space1: Whitespace {
                        value: String::new(),
                        source_info: SourceInfo::new(Pos::new(1, 19), Pos::new(1, 19)),
                    },
                }),
                text("!", "!"),
            ],
            source_info: SourceInfo::new(Pos::new(1, 2), Pos::new(1, 22)),
        })
    );
    assert_eq!(reader.state.cursor, 22);
}

#[test]
fn test_json_string_errors() {
    let mut reader = Reader::new("1");
    let error = string_value(&mut reader).err().unwrap();
    assert_eq!(error, Error::new(Pos::new(1, 1), true, expecting("\"")));
    assert_eq!(reader.state.cursor, 0);

    let mut reader = Reader::new("\"1");
    let error = string_value(&mut reader).err().unwrap();
    assert_eq!(error, Error::new(Pos::new(1, 3), false, expecting("\"")));

    let mut reader = Reader::new("\"{{x\"");
    let error = string_value(&mut reader).err().unwrap();
    assert_eq!(error, Error::new(Pos::new(1, 5), false, expecting("}}")));
}

#[test]
fn test_json_any_char() {
    let mut reader = Reader::new("a");
    assert_eq!(
        any_char(&mut reader),
        Ok(('a', "a".to_string(), Pos::new(1, 1)))
    );
    let mut reader = Reader::new(" ");
    assert_eq!(
        any_char(&mut reader),
        Ok((' ', " ".to_string(), Pos::new(1, 1)))
    );
    let mut reader = Reader::new("\\t");
    assert_eq!(
        any_char(&mut reader),
        Ok(('\t', "\\t".to_string(), Pos::new(1, 1)))
    );
    assert_eq!(reader.state.cursor, 2);
    let mut reader = Reader::new("\\\"x");
    assert_eq!(
        any_char(&mut reader),
        Ok(('"', "\\\"".to_string(), Pos::new(1, 1)))
    );
    // the four digits give the number of the character in base sixteen
    let mut reader = Reader::new("\\u0041");
    assert_eq!(
        any_char(&mut reader),
        Ok(('A', "\\u0041".to_string(), Pos::new(1, 1)))
    );
    assert_eq!(reader.state.cursor, 6);
    let mut reader = Reader::new("\\u20aC");
    assert_eq!(
        any_char(&mut reader),
        Ok(('€', "\\u20aC".to_string(), Pos::new(1, 1)))
    );
    let mut reader = Reader::new("\\u1234");
    assert_eq!(any_char(&mut reader).unwrap().0, '\u{1234}');
}

#[test]
fn test_json_any_char_errors() {
    let mut reader = Reader::new("");
    assert_eq!(
        any_char(&mut reader),
        Err(Error::new(Pos::new(1, 1), true, expecting("char")))
    );
    let mut reader = Reader::new("\t");
    assert_eq!(
        any_char(&mut reader),
        Err(Error::new(Pos::new(1, 1), true, expecting("char")))
    );
    let mut reader = Reader::new("\\x");
    assert_eq!(
        any_char(&mut reader),
        Err(Error::new(Pos::new(1, 2), false, ParseError::EscapeChar))
    );
    let mut reader = Reader::new("\\");
    assert_eq!(
        any_char(&mut reader),
        Err(Error::new(Pos::new(1, 2), false, ParseError::EscapeChar))
    );
    let mut reader = Reader::new("\\u00g0");
    assert_eq!(
        any_char(&mut reader),
        Err(Error::new(Pos::new(1, 5), false, ParseError::HexDigit))
    );
    // a number that lies in the range of the surrogates is no character
    let mut reader = Reader::new("\\ud800");
    assert_eq!(
        any_char(&mut reader),
        Err(Error::new(Pos::new(1, 7), false, ParseError::Unicode))
    );
}

#[test]
fn test_json_unescape() {
    assert_eq!(unescape('n'), Some('\n'));
    assert_eq!(unescape('b'), Some('\u{8}'));
    assert_eq!(unescape('f'), Some('\u{c}'));
    assert_eq!(unescape('r'), Some('\r'));
    assert_eq!(unescape('/'), Some('/'));
    assert_eq!(unescape('\\'), Some('\\'));
    assert_eq!(unescape('x'), None);
    assert_eq!(unescape('u'), None);
}

#[test]
fn test_json_whitespace() {
    let mut reader = Reader::new(" \n\r\tx ");
    assert_eq!(whitespace(&mut reader), " \n\r\t");
    assert_eq!(reader.state.cursor, 4);
    assert_eq!(whitespace(&mut reader), "");
}

#[test]
fn test_json_list() {
    let mut reader = Reader::new("[]");
    assert_eq!(
        list_value(&mut reader),
        Ok(JsonValue::List {
            space0: String::new(),
            elements: vec![]
        })
    );
    assert_eq!(reader.state.cursor, 2);

    let mut reader = Reader::new("[ ]");
    assert_eq!(
        list_value(&mut reader),
        Ok(JsonValue::List {
            space0: " ".to_string(),
            elements: vec![]
        })
    );

    let mut reader = Reader::new("[true, false ,null]x");
    assert_eq!(
        list_value(&mut reader),
        Ok(JsonValue::List {
            space0: String::new(),
            elements: vec![
                JsonListElement {
                    space0: String::new(),
                    value: JsonValue::Boolean(true),
                    space1: String::new(),
                },
                JsonListElement {
                    space0: " ".to_string(),
                    value: JsonValue::Boolean(false),
                    space1: " ".to_string(),
                },
                JsonListElement {
                    space0: String::new(),
                    value: JsonValue::Null,
                    space1: String::new(),
                },
            ]
        })
    );
    assert_eq!(reader.state.cursor, 19);
}

#[test]
fn test_json_list_errors() {
    let mut reader = Reader::new("true");
    let error = list_value(&mut reader).err().unwrap();
    assert_eq!(error, Error::new(Pos::new(1, 1), true, expecting("[")));
    assert_eq!(reader.state.cursor, 0);

    let mut reader = Reader::new("[1, 2,]");
    assert_eq!(
        list_value(&mut reader),
        Err(Error::new(
            Pos::new(1, 6),
            false,
            ParseError::JsonError(JsonErrorVariant::TrailingComma)
        ))
    );
    let mut reader = Reader::new("[1 2]");
    assert_eq!(
        list_value(&mut reader),
        Err(Error::new(Pos::new(1, 4), false, expecting(",")))
    );
    let mut reader = Reader::new("[,1]");
    assert_eq!(
        list_value(&mut reader),
        Err(Error::new(
            Pos::new(1, 2),
            false,
            ParseError::JsonError(JsonErrorVariant::EmptyElement)
        ))
    );
    let mut reader = Reader::new("[1, x]");
    assert_eq!(
        list_value(&mut reader),
        Err(Error::new(
            Pos::new(1, 5),
            false,
            ParseError::JsonError(JsonErrorVariant::ExpectingElement)
        ))
    );
    let mut reader = Reader::new("[1");
    assert_eq!(
        list_value(&mut reader),
        Err(Error::new(Pos::new(1, 3), false, expecting(",")))
    );
}

#[test]
fn test_json_object() {
    let mut reader = Reader::new("{}");
    assert_eq!(
        object_value(&mut reader),
        Ok(JsonValue::Object {
            space0: String::new(),
            elements: vec![]
        })
    );
    let mut reader = Reader::new("{\n  \"a\": [1],\n \"b\" :{\"c\":\"d\"} }");
    assert_eq!(
        object_value(&mut reader),
        Ok(JsonValue::Object {
            space0: "\n  ".to_string(),
            elements: vec![
                JsonObjectElement {
                    space0: String::new(),
                    name: string("a", 2, 4, 5),
                    space1: String::new(),
                    space2: " ".to_string(),
                    value: JsonValue::List {
                        space0: String::new(),
                        elements: vec![JsonListElement {
                            space0: String::new(),
                            value: JsonValue::Number("1".to_string()),
                            space1: String::new(),
                        }]
                    },
                    space3: String::new(),
                },
                JsonObjectElement {
                    space0: "\n ".to_string(),
                    name: string("b", 3, 3, 4),
                    space1: " ".to_string(),
                    space2: String::new(),
                    value: JsonValue::Object {
                        space0: String::new(),
                        elements: vec![JsonObjectElement {
                            space0: String::new(),
                            name: string("c", 3, 9, 10),
                            space1: String::new(),
                            space2: String::new(),
                            value: JsonValue::String(string("d", 3, 13, 14)),
                            space3: String::new(),
                        }]
                    },
                    space3: " ".to_string(),
                },
            ]
        })
    );
    assert!(reader.is_eof());
}

#[test]
fn test_json_object_errors() {
    let mut reader = Reader::new("[");
    let error = object_value(&mut reader).err().unwrap();
    assert_eq!(error, Error::new(Pos::new(1, 1), true, expecting("{")));
    assert_eq!(reader.state.cursor, 0);

    let mut reader = Reader::new("{\"a\":}");
    assert_eq!(
        object_value(&mut reader),
        Err(Error::new(
            Pos::new(1, 6),
            false,
            ParseError::JsonError(JsonErrorVariant::EmptyElement)
        ))
    );
    let mut reader = Reader::new("{\"a\": 1,}");
    assert_eq!(
        object_value(&mut reader),
        Err(Error::new(
            Pos::new(1, 8),
            false,
            ParseError::JsonError(JsonErrorVariant::TrailingComma)
        ))
    );
    let mut reader = Reader::new("{a: 1}");
    assert_eq!(
        object_value(&mut reader),
        Err(Error::new(Pos::new(1, 2), false, expecting("\"")))
    );
    let mut reader = Reader::new("{\"\": 1}");
    assert_eq!(
        object_value(&mut reader),
        Err(Error::new(
            Pos::new(1, 2),
            false,
            ParseError::JsonError(JsonErrorVariant::EmptyElement)
        ))
    );
    let mut reader = Reader::new("{\"a\" 1}");
    assert_eq!(
        object_value(&mut reader),
        Err(Error::new(Pos::new(1, 6), false, expecting(":")))
    );
}

#[test]
fn test_json_parse() {
    let mut reader = Reader::new("{{x}}");
    assert!(matches!(parse(&mut reader), Ok(JsonValue::Expression(_))));
    assert_eq!(reader.state.cursor, 5);
    let mut reader = Reader::new("\"a\"");
    assert!(matches!(parse_json(&mut reader), Ok(JsonValue::String(_))));
    let mut reader = Reader::new("-1");
    assert_eq!(parse(&mut reader), Ok(JsonValue::Number("-1".to_string())));
    let mut reader = Reader::new("[[]]");
    assert!(matches!(parse(&mut reader), Ok(JsonValue::List { .. })));
    assert!(reader.is_eof());

    // nothing that starts a value: the way stays open and nothing is read
    let mut reader = Reader::new(" x");
    reader.read();
    let error = parse(&mut reader).err().unwrap();
    assert_eq!(error, Error::new(Pos::new(1, 2), true, expecting("{")));
    assert_eq!(reader.state.cursor, 1);
    let mut reader = Reader::new("");
    let error = parse(&mut reader).err().unwrap();
    assert!(error.recoverable);
}

#[test]
fn test_json_value_copy() {
    let mut reader = Reader::new("{\"a\": [1, {\"b\": null}], \"c\": \"{{d}}\"}");
    let value = parse(&mut reader).unwrap();
    assert_eq!(value.clone(), value);
    assert_eq!(value.duplicate(), value);
}
