use impostor_core::ast::{
    GraphQl, GraphQlVariables, JsonObjectElement, JsonValue, MultilineString, Pos, SourceInfo,
    Template, TemplateElement, Text, Whitespace,
};
use impostor_core::parser::error::{Error, ParseError};
use impostor_core::parser::multiline::{multiline_string, multiline_string_value};
use impostor_core::parser::reader::Reader;

#[test]
fn test_multiline_string_text() {
    let mut reader = Reader::new("```\nline1\nline2\nline3\n```");
    assert_eq!(
        multiline_string(&mut reader).unwrap(),
        MultilineString::Text(Text {
            space: Whitespace {
                value: String::new(),
                source_info: SourceInfo::new(Pos::new(1, 4), Pos::new(1, 4)),
            },
            newline: Whitespace {
                value: "\n".to_string(),
                source_info: SourceInfo::new(Pos::new(1, 4), Pos::new(2, 1)),
            },
            value: Template {
                delimiter: None,
                elements: vec![TemplateElement::String {
                    value: "line1\nline2\nline3\n".to_string(),
                    encoded: "line1\nline2\nline3\n".to_string(),
                }],
                source_info: SourceInfo::new(Pos::new(2, 1), Pos::new(5, 1)),
            },
        })
    );

    let mut reader = Reader::new("```         \nline1\nline2\nline3\n```");
    assert_eq!(
        multiline_string(&mut reader).unwrap(),
        MultilineString::Text(Text {
            space: Whitespace {
                value: "         ".to_string(),
                source_info: SourceInfo::new(Pos::new(1, 4), Pos::new(1, 13)),
            },
            newline: Whitespace {
                value: "\n".to_string(),
                source_info: SourceInfo::new(Pos::new(1, 13), Pos::new(2, 1)),
            },
            value: Template {
                delimiter: None,
                elements: vec![TemplateElement::String {
                    value: "line1\nline2\nline3\n".to_string(),
                    encoded: "line1\nline2\nline3\n".to_string(),
                }],
                source_info: SourceInfo::new(Pos::new(2, 1), Pos::new(5, 1)),
            },
        })
    );
}

#[test]
fn test_multiline_string_json() {
    let mut reader = Reader::new("```json\nline1\nline2\nline3\n```");
    assert_eq!(
        multiline_string(&mut reader).unwrap(),
        MultilineString::Json(Text {
            space: Whitespace {
                value: String::new(),
                source_info: SourceInfo::new(Pos::new(1, 8), Pos::new(1, 8)),
            },
            newline: Whitespace {
                value: "\n".to_string(),
                source_info: SourceInfo::new(Pos::new(1, 8), Pos::new(2, 1)),
            },
            value: Template {
                delimiter: None,
                elements: vec![TemplateElement::String {
                    value: "line1\nline2\nline3\n".to_string(),
                    encoded: "line1\nline2\nline3\n".to_string(),
                }],
                source_info: SourceInfo::new(Pos::new(2, 1), Pos::new(5, 1)),
            },
        })
    );
}

#[test]
fn test_multiline_string_graphql() {
    let mut reader = Reader::new("```graphql\nline1\nline2\nline3\n```");
    assert_eq!(
        multiline_string(&mut reader).unwrap(),
        MultilineString::GraphQl(GraphQl {
            space: Whitespace {
                value: String::new(),
                source_info: SourceInfo::new(Pos::new(1, 11), Pos::new(1, 11)),
            },
            newline: Whitespace {
                value: "\n".to_string(),
                source_info: SourceInfo::new(Pos::new(1, 11), Pos::new(2, 1)),
            },
            value: Template {
                delimiter: None,
                elements: vec![TemplateElement::String {
                    value: "line1\nline2\nline3\n".to_string(),
                    encoded: "line1\nline2\nline3\n".to_string(),
                }],
                source_info: SourceInfo::new(Pos::new(2, 1), Pos::new(5, 1)),
            },
            variables: None,
        })
    );

    let mut reader = Reader::new("```graphql      \nline1\nline2\nline3\n```");
    assert_eq!(
        multiline_string(&mut reader).unwrap(),
        MultilineString::GraphQl(GraphQl {
            space: Whitespace {
                value: "      ".to_string(),
                source_info: SourceInfo::new(Pos::new(1, 11), Pos::new(1, 17)),
            },
            newline: Whitespace {
                value: "\n".to_string(),
                source_info: SourceInfo::new(Pos::new(1, 17), Pos::new(2, 1)),
            },
            value: Template {
                delimiter: None,
                elements: vec![TemplateElement::String {
                    value: "line1\nline2\nline3\n".to_string(),
                    encoded: "line1\nline2\nline3\n".to_string(),
                }],
                source_info: SourceInfo::new(Pos::new(2, 1), Pos::new(5, 1)),
            },
            variables: None,
        })
    );
}

#[test]
fn test_multiline_string_failed() {
    let datas = [
        "```hexaaa\nline1\nline2\nline3\n```",
        "```aaa\nline1\nline2\nline3\n```",
    ];

    for text in datas.iter() {
        let mut reader = Reader::new(text);
        assert!(multiline_string(&mut reader).is_err())
    }
}

#[test]
fn test_multiline_string_empty() {
    let mut reader = Reader::new("``````");
    assert_eq!(
        multiline_string(&mut reader).unwrap(),
        MultilineString::OneLineText(Template {
            delimiter: None,
            elements: vec![],
            source_info: SourceInfo::new(Pos::new(1, 4), Pos::new(1, 4)),
        })
    );

    let mut reader = Reader::new("```\n```");
    assert_eq!(
        multiline_string(&mut reader).unwrap(),
        MultilineString::Text(Text {
            space: Whitespace {
                value: String::new(),
                source_info: SourceInfo::new(Pos::new(1, 4), Pos::new(1, 4)),
            },
            newline: Whitespace {
                value: "\n".to_string(),
                source_info: SourceInfo::new(Pos::new(1, 4), Pos::new(2, 1)),
            },
            value: Template {
                delimiter: None,
                elements: vec![],
                source_info: SourceInfo::new(Pos::new(2, 1), Pos::new(2, 1)),
            },
        })
    );
    let mut reader = Reader::new("```\r\n```");
    assert_eq!(
        multiline_string(&mut reader).unwrap(),
        MultilineString::Text(Text {
            space: Whitespace {
                value: String::new(),
                source_info: SourceInfo::new(Pos::new(1, 4), Pos::new(1, 4)),
            },
            newline: Whitespace {
                value: "\r\n".to_string(),
                source_info: SourceInfo::new(Pos::new(1, 4), Pos::new(2, 1)),
            },
            value: Template {
                delimiter: None,
                elements: vec![],
                source_info: SourceInfo::new(Pos::new(2, 1), Pos::new(2, 1)),
            },
        })
    );
}

#[test]
fn test_multiline_string_hello() {
    let mut reader = Reader::new("```Hello World!```");
    assert_eq!(
        multiline_string(&mut reader).unwrap(),
        MultilineString::OneLineText(Template {
            delimiter: None,
            elements: vec![TemplateElement::String {
                value: "Hello World!".to_string(),
                encoded: "Hello World!".to_string(),
            }],
            source_info: SourceInfo::new(Pos::new(1, 4), Pos::new(1, 16)),
        })
    );
}

#[test]
fn test_multiline_string_base64_prefix() {
    let mut reader = Reader::new("```base64_inline```");
    assert_eq!(
        multiline_string(&mut reader).unwrap(),
        MultilineString::OneLineText(Template {
            delimiter: None,
            elements: vec![TemplateElement::String {
                value: "base64_inline".to_string(),
                encoded: "base64_inline".to_string(),
            }],
            source_info: SourceInfo::new(Pos::new(1, 4), Pos::new(1, 17)),
        })
    );
}

#[test]
fn test_multiline_string_csv() {
    let mut reader = Reader::new("```\nline1\nline2\nline3\n```");
    assert_eq!(
        multiline_string(&mut reader).unwrap(),
        MultilineString::Text(Text {
            space: Whitespace {
                value: String::new(),
                source_info: SourceInfo::new(Pos::new(1, 4), Pos::new(1, 4)),
            },
            newline: Whitespace {
                value: "\n".to_string(),
                source_info: SourceInfo::new(Pos::new(1, 4), Pos::new(2, 1)),
            },
            value: Template {
                delimiter: None,
                elements: vec![TemplateElement::String {
                    value: "line1\nline2\nline3\n".to_string(),
                    encoded: "line1\nline2\nline3\n".to_string(),
                }],
                source_info: SourceInfo::new(Pos::new(2, 1), Pos::new(5, 1)),
            },
        })
    );
}

#[test]
fn test_multiline_string_one_empty_line() {
    let mut reader = Reader::new("```\n\n```");
    assert_eq!(
        multiline_string(&mut reader).unwrap(),
        MultilineString::Text(Text {
            space: Whitespace {
                value: String::new(),
                source_info: SourceInfo::new(Pos::new(1, 4), Pos::new(1, 4)),
            },
            newline: Whitespace {
                value: "\n".to_string(),
                source_info: SourceInfo::new(Pos::new(1, 4), Pos::new(2, 1)),
            },
            value: Template {
                delimiter: None,
                elements: vec![TemplateElement::String {
                    value: "\n".to_string(),
                    encoded: "\n".to_string(),
                }],
                source_info: SourceInfo::new(Pos::new(2, 1), Pos::new(3, 1)),
            },
        })
    );

    // One cr
    let mut reader = Reader::new("```\n\r\n````");
    assert_eq!(
        multiline_string(&mut reader).unwrap(),
        MultilineString::Text(Text {
            space: Whitespace {
                value: String::new(),
                source_info: SourceInfo::new(Pos::new(1, 4), Pos::new(1, 4)),
            },
            newline: Whitespace {
                value: "\n".to_string(),
                source_info: SourceInfo::new(Pos::new(1, 4), Pos::new(2, 1)),
            },
            value: Template {
                delimiter: None,
                elements: vec![TemplateElement::String {
                    value: "\r\n".to_string(),
                    encoded: "\r\n".to_string(),
                }],
                source_info: SourceInfo::new(Pos::new(2, 1), Pos::new(3, 1)),
            },
        })
    );
}

#[test]
fn test_multiline_string_error() {
    let mut reader = Reader::new("xxx");
    let error = multiline_string(&mut reader).err().unwrap();
    assert_eq!(error.pos, Pos { line: 1, column: 1 });
    assert_eq!(
        error.inner,
        ParseError::Expecting {
            value: "```".to_string()
        }
    );
    assert!(error.recoverable);

    let mut reader = Reader::new("```\nxxx");
    let error = multiline_string(&mut reader).err().unwrap();
    assert_eq!(error.pos, Pos { line: 1, column: 4 });
    assert_eq!(error.inner, ParseError::Multiline);
    assert!(!error.recoverable);

    let mut reader = Reader::new("```xxx");
    let error = multiline_string(&mut reader).err().unwrap();
    assert_eq!(error.pos, Pos { line: 1, column: 7 });
    assert_eq!(
        error.inner,
        ParseError::Expecting {
            value: "```".to_string()
        }
    );
    assert!(!error.recoverable);
}

#[test]
fn test_multiline_string_value() {
    let mut reader = Reader::new("```");
    assert_eq!(
        multiline_string_value(&mut reader).unwrap(),
        Template {
            delimiter: None,
            elements: vec![],
            source_info: SourceInfo::new(Pos::new(1, 1), Pos::new(1, 1)),
        }
    );
    assert_eq!(reader.state.cursor, 3);

    let mut reader = Reader::new("hello```");
    assert_eq!(
        multiline_string_value(&mut reader).unwrap(),
        Template {
            delimiter: None,
            elements: vec![TemplateElement::String {
                value: "hello".to_string(),
                encoded: "hello".to_string(),
            }],
            source_info: SourceInfo::new(Pos::new(1, 1), Pos::new(1, 6)),
        }
    );
    assert_eq!(reader.state.cursor, 8);
}

#[test]
fn test_multiline_string_graphql_with_variables() {
    let mut reader = Reader::new(
        r#"```graphql
query Human($name: String!) {
  human(name: $name) {
    name
    height(unit: FOOT)
}

variables {
  "name": "Han Solo"
}
```"#,
    );

    assert_eq!(
        multiline_string(&mut reader).unwrap(),
        MultilineString::GraphQl(GraphQl {
            space: Whitespace {
                value: String::new(),
                source_info: SourceInfo::new(Pos::new(1, 11), Pos::new(1, 11)),
            },
            newline: Whitespace {
                value: "\n".to_string(),
                source_info: SourceInfo::new(Pos::new(1, 11), Pos::new(2, 1)),
            },
            value: Template {
                delimiter: None,
                elements: vec![TemplateElement::String {
                    value: "query Human($name: String!) {\n  human(name: $name) {\n    name\n    height(unit: FOOT)\n}\n\n".to_string(),
                    encoded:
                        "query Human($name: String!) {\n  human(name: $name) {\n    name\n    height(unit: FOOT)\n}\n\n".to_string()
                }],
                source_info: SourceInfo::new(Pos::new(2, 1), Pos::new(8, 1)),
            },
            variables: Some(GraphQlVariables {
                space: Whitespace {
                    value: " ".to_string(),
                    source_info: SourceInfo::new(Pos::new(8, 10), Pos::new(8, 11)),
                },
                value: JsonValue::Object {
                    space0: "\n  ".to_string(),
                    elements: vec![JsonObjectElement {
                        space0: String::new(),
                        name: Template {
                            delimiter: Some('"'),
                            elements: vec![
                                TemplateElement::String {
                                    value: "name".to_string(),
                                    encoded: "name".to_string()
                                }
                            ],
                            source_info: SourceInfo::new(Pos::new(9, 4), Pos::new(9, 8))
                        },
                        space1: String::new(),
                        space2: " ".to_string(),
                        value: JsonValue::String(Template {
                            delimiter: Some('"'),
                            elements: vec![
                                TemplateElement::String {
                                    value: "Han Solo".to_string(),
                                    encoded: "Han Solo".to_string()
                                }
                            ],
                            source_info: SourceInfo::new(Pos::new(9, 12), Pos::new(9, 20))
                        }),
                        space3: "\n".to_string()
                    }]
                },
                whitespace: Whitespace {
                    value: "\n".to_string(),
                    source_info: SourceInfo::new(Pos::new(10, 2), Pos::new(11, 1))
                }
            })
        })
    )
}

#[test]
fn test_multiline_string_graphql_with_variables_error() {
    let mut reader = Reader::new(
        r#"```graphql
query Human($name: String!) {
  human(name: $name) {
    name
    height(unit: FOOT)
}

variables
```"#,
    );

    let error = multiline_string(&mut reader).err().unwrap();
    assert_eq!(
        error,
        Error::new(Pos::new(8, 10), false, ParseError::GraphQlVariables)
    )
}

#[test]
fn test_multiline_string_graphql_with_variables_not_an_object() {
    let mut reader = Reader::new(
        r#"```graphql
query Human($name: String!) {
  human(name: $name) {
    name
    height(unit: FOOT)
}

variables [
  "one",
  "two",
  "three"
]
```"#,
    );

    let error = multiline_string(&mut reader).err().unwrap();
    assert_eq!(
        error,
        Error::new(Pos::new(8, 11), false, ParseError::GraphQlVariables)
    )
}
