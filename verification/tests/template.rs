use impostor_core::ast::{
    Expr, Pos, SourceInfo, Template, TemplateElement, Variable, Whitespace,
};
use impostor_core::parser::error::{Error, ParseError};
use impostor_core::parser::expr;
use impostor_core::parser::multiline::{multiline_string_value, oneline_string_value};
use impostor_core::parser::reader::Reader;
use impostor_core::parser::template::{templatize, EncodedString};

fn encoded(text: &str, line: usize, column: usize) -> EncodedString {
    let mut chars = vec![];
    let mut col = column;
    for c in text.chars() {
        chars.push((c, c.to_string(), Pos::new(line, col)));
        col += 1;
    }
    EncodedString {
        source_info: SourceInfo::new(Pos::new(line, column), Pos::new(line, col)),
        chars,
    }
}

fn text(value: &str) -> TemplateElement {
    TemplateElement::String {
        value: value.to_string(),
        encoded: value.to_string(),
    }
}

fn blank(value: &str, line: usize, from: usize, to: usize) -> Whitespace {
    Whitespace {
        value: value.to_string(),
        source_info: SourceInfo::new(Pos::new(line, from), Pos::new(line, to)),
    }
}

#[test]
fn test_templatize_plain_text() {
    assert_eq!(templatize(encoded("", 1, 1)), Ok(vec![]));
    assert_eq!(templatize(encoded("hello", 1, 1)), Ok(vec![text("hello")]));
    assert_eq!(templatize(encoded("a{b}c", 1, 1)), Ok(vec![text("a{b}c")]));
    assert_eq!(templatize(encoded("a{", 1, 1)), Ok(vec![text("a{")]));
    assert_eq!(templatize(encoded("{", 1, 1)), Ok(vec![text("{")]));
    assert_eq!(templatize(encoded("}}", 1, 1)), Ok(vec![text("}}")]));
}

#[test]
fn test_templatize_expression() {
    let elements = templatize(encoded("Hi {{ name }}!", 1, 1)).unwrap();
    assert_eq!(
        elements,
        vec![
            text("Hi "),
            TemplateElement::Expression(Expr {
                space0: blank(" ", 1, 6, 7),
                variable: Variable {
                    name: "name".to_string(),
                    source_info: SourceInfo::new(Pos::new(1, 7), Pos::new(1, 11)),
                },
                space1: blank(" ", 1, 11, 12),
            }),
            text("!"),
        ]
    );
    let written: String = elements.iter().map(|e| e.encoded()).collect();
    assert_eq!(written, "Hi {{ name }}!");
}

#[test]
fn test_templatize_two_expressions() {
    let elements = templatize(encoded("{{a}}{{b_1-c}}", 3, 5)).unwrap();
    assert_eq!(
        elements,
        vec![
            TemplateElement::Expression(Expr {
                space0: blank("", 3, 7, 7),
                variable: Variable {
                    name: "a".to_string(),
                    source_info: SourceInfo::new(Pos::new(3, 7), Pos::new(3, 8)),
                },
                space1: blank("", 3, 8, 8),
            }),
            TemplateElement::Expression(Expr {
                space0: blank("", 3, 12, 12),
                variable: Variable {
                    name: "b_1-c".to_string(),
                    source_info: SourceInfo::new(Pos::new(3, 12), Pos::new(3, 17)),
                },
                space1: blank("", 3, 17, 17),
            }),
        ]
    );
}

#[test]
fn test_templatize_escaped_brace_is_text() {
    // a brace that was written with a backslash does not open an expression
    let chars = vec![
        ('{', "\\{".to_string(), Pos::new(1, 1)),
        ('{', "{".to_string(), Pos::new(1, 3)),
        ('x', "x".to_string(), Pos::new(1, 4)),
    ];
    let string = EncodedString {
        source_info: SourceInfo::new(Pos::new(1, 1), Pos::new(1, 5)),
        chars,
    };
    assert_eq!(
        templatize(string),
        Ok(vec![TemplateElement::String {
            value: "{{x".to_string(),
            encoded: "\\{{x".to_string(),
        }])
    );
}

#[test]
fn test_templatize_errors() {
    assert_eq!(
        templatize(encoded("a{{b", 1, 1)),
        Err(Error::new(
            Pos::new(1, 5),
            false,
            ParseError::Expecting {
                value: "}}".to_string()
            }
        ))
    );
    assert_eq!(
        templatize(encoded("a{{b}", 1, 1)),
        Err(Error::new(
            Pos::new(1, 6),
            false,
            ParseError::Expecting {
                value: "}}".to_string()
            }
        ))
    );
    assert_eq!(
        templatize(encoded("{{}}", 1, 1)),
        Err(Error::new(Pos::new(1, 3), false, ParseError::TemplateVariable))
    );
    assert_eq!(
        templatize(encoded("{{ ? }}", 1, 1)),
        Err(Error::new(Pos::new(1, 4), false, ParseError::TemplateVariable))
    );
    // something after the name
    assert_eq!(
        templatize(encoded("{{a b}}", 1, 1)),
        Err(Error::new(
            Pos::new(1, 5),
            false,
            ParseError::Expecting {
                value: "}}".to_string()
            }
        ))
    );
}

#[test]
fn test_expr_parse() {
    let mut reader = Reader::new("{{ name}}x");
    assert_eq!(
        expr::parse(&mut reader),
        Ok(Expr {
            space0: blank(" ", 1, 3, 4),
            variable: Variable {
                name: "name".to_string(),
                source_info: SourceInfo::new(Pos::new(1, 4), Pos::new(1, 8)),
            },
            space1: blank("", 1, 8, 8),
        })
    );
    assert_eq!(reader.state.cursor, 9);

    let mut reader = Reader::new("{x");
    let error = expr::parse(&mut reader).err().unwrap();
    assert!(error.recoverable);
    assert_eq!(reader.state.cursor, 0);

    let mut reader = Reader::new("{{x}");
    let error = expr::parse(&mut reader).err().unwrap();
    assert_eq!(
        error,
        Error::new(
            Pos::new(1, 4),
            false,
            ParseError::Expecting {
                value: "}}".to_string()
            }
        )
    );

    let mut reader = Reader::new("{{}}");
    assert_eq!(
        expr::parse(&mut reader),
        Err(Error::new(Pos::new(1, 3), false, ParseError::TemplateVariable))
    );
}

#[test]
fn test_variable_name() {
    let mut reader = Reader::new("ab_C-9.x");
    assert_eq!(
        expr::variable_name(&mut reader),
        Ok(Variable {
            name: "ab_C-9".to_string(),
            source_info: SourceInfo::new(Pos::new(1, 1), Pos::new(1, 7)),
        })
    );
    assert!(expr::is_variable_char('z'));
    assert!(expr::is_variable_char('A'));
    assert!(expr::is_variable_char('0'));
    assert!(!expr::is_variable_char(' '));
    assert!(!expr::is_variable_char('é'));
}

#[test]
fn test_multiline_value_with_expression() {
    let mut reader = Reader::new("a\n{{b}}\n```");
    let template = multiline_string_value(&mut reader).unwrap();
    assert_eq!(
        template,
        Template {
            delimiter: None,
            elements: vec![
                text("a\n"),
                TemplateElement::Expression(Expr {
                    space0: blank("", 2, 3, 3),
                    variable: Variable {
                        name: "b".to_string(),
                        source_info: SourceInfo::new(Pos::new(2, 3), Pos::new(2, 4)),
                    },
                    space1: blank("", 2, 4, 4),
                }),
                text("\n"),
            ],
            source_info: SourceInfo::new(Pos::new(1, 1), Pos::new(3, 1)),
        }
    );
    // the elements are written as the text that was read
    assert_eq!(template.encoded(), "a\n{{b}}\n");
    assert_eq!(reader.state.cursor, 11);
}

#[test]
fn test_oneline_string_value() {
    let mut reader = Reader::new("hello```x");
    let template = oneline_string_value(&mut reader).unwrap();
    assert_eq!(template.encoded(), "hello");
    assert_eq!(
        template.source_info,
        SourceInfo::new(Pos::new(1, 1), Pos::new(1, 6))
    );
    assert_eq!(reader.state.cursor, 8);

    let mut reader = Reader::new("he\nllo```");
    assert_eq!(
        oneline_string_value(&mut reader),
        Err(Error::new(Pos::new(1, 1), false, ParseError::Multiline))
    );
    assert_eq!(reader.state.cursor, 3);

    let mut reader = Reader::new("hello``");
    assert_eq!(
        oneline_string_value(&mut reader),
        Err(Error::new(
            Pos::new(1, 8),
            false,
            ParseError::Expecting {
                value: "```".to_string()
            }
        ))
    );
}
