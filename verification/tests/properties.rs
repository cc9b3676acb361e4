use impostor_core::ast::{
    Bytes, MultilineString, Number, Pos, SourceInfo, Template, TemplateElement,
};
use impostor_core::parser::error::{Error, ParseError};
use impostor_core::parser::combinators::{choice, optional};
use impostor_core::parser::multiline::{multiline_string, Dialect, Variables};
use impostor_core::parser::number::number;
use impostor_core::parser::string::{quoted_template, unquoted_template};
use impostor_core::parser::{parse_impostor_file, Reader};

const FILE: &str = "\
# a mock
POST /users/{{id}}?q=a\\u0020b   # the path
Accept: text/\\{plain\\}
[Asserts]
header \"X-A\" == \"a{{b}}c\"
{ \"k\": \"v\\n{{w}}\" }
HTTP/1.1 200
```
line {{one}}
two
```
";

/// The position reached from `start` by reading `text`.
fn advance(start: Pos, text: &str) -> Pos {
    let mut reader = Reader::new_at(text, start);
    while reader.read().is_some() {}
    reader.state.pos
}

/// The index of the character that stands at `pos`.
fn index_of(input: &str, pos: Pos) -> usize {
    let mut reader = Reader::new(input);
    while reader.state.pos != pos {
        assert!(reader.read().is_some(), "no such position: {:?}", pos);
    }
    reader.state.cursor
}

fn slice(input: &str, span: SourceInfo) -> String {
    let chars: Vec<char> = input.chars().collect();
    chars[index_of(input, span.start)..index_of(input, span.end)]
        .iter()
        .collect()
}

fn check_template(input: &str, template: &Template) {
    let written = template.encoded();
    let text = slice(input, template.source_info);
    match template.delimiter {
        None => assert_eq!(written, text),
        Some(d) => assert_eq!(format!("{}{}{}", d, written, d), text),
    }
    // the end of the span is reached from its start by reading the text
    assert_eq!(
        advance(template.source_info.start, &text),
        template.source_info.end
    );
    for element in template.elements.iter() {
        if let TemplateElement::Expression(expr) = element {
            assert_eq!(
                slice(input, expr.variable.source_info),
                expr.variable.name
            );
            assert_eq!(slice(input, expr.space0.source_info), expr.space0.value);
        }
    }
}

#[test]
fn test_literal_elements_are_the_source_text() {
    let file = parse_impostor_file(FILE).unwrap();
    let entry = &file.entries[0];
    check_template(FILE, &entry.request.path);
    assert_eq!(entry.request.path.encoded(), "/users/{{id}}?q=a\\u0020b");
    match &entry.request.path.elements[2] {
        TemplateElement::String { value, encoded } => {
            assert_eq!(value, "?q=a b");
            assert_eq!(encoded, "?q=a\\u0020b");
        }
        other => panic!("{:?}", other),
    }
    for header in entry.request.headers.iter() {
        check_template(FILE, &header.key);
        check_template(FILE, &header.value);
    }
    assert_eq!(
        entry.request.headers[0].value.elements,
        vec![TemplateElement::String {
            value: "text/{plain}".to_string(),
            encoded: "text/\\{plain\\}".to_string(),
        }]
    );
    match &entry.response.body.as_ref().unwrap().value {
        Bytes::MultilineString(found) => {
            let template = found.value();
            check_template(FILE, &template);
            assert_eq!(template.encoded(), "line {{one}}\ntwo\n");
        }
        other => panic!("{:?}", other),
    }
}

#[test]
fn test_spans_are_reached_by_reading() {
    let file = parse_impostor_file(FILE).unwrap();
    let entry = &file.entries[0];
    for span in [
        entry.request.source_info,
        entry.response.source_info,
        entry.request.sections[0].source_info,
        entry.request.asserts()[0].query.source_info,
        entry.request.asserts()[0].predicate.predicate_func.source_info,
        entry.response.version.source_info,
        entry.response.status.source_info,
        entry.request.line_terminators[0].newline.source_info,
        entry.request.line_terminator0.comment.as_ref().unwrap().source_info,
    ] {
        let text = slice(FILE, span);
        assert_eq!(advance(span.start, &text), span.end);
        assert!(span.start.line < span.end.line
            || (span.start.line == span.end.line && span.start.column <= span.end.column));
    }
    assert_eq!(slice(FILE, entry.response.version.source_info), "HTTP/1.1");
    assert_eq!(slice(FILE, entry.response.status.source_info), "200");
    assert_eq!(
        slice(FILE, entry.request.sections[0].source_info),
        "[Asserts]"
    );
    assert_eq!(
        slice(FILE, entry.request.asserts()[0].query.source_info),
        "header \"X-A\""
    );
    assert_eq!(
        slice(
            FILE,
            entry.request.asserts()[0].predicate.predicate_func.source_info
        ),
        "== \"a{{b}}c\""
    );
}

#[test]
fn test_same_input_same_tree() {
    let first = parse_impostor_file(FILE).unwrap();
    let second = parse_impostor_file(FILE).unwrap();
    assert_eq!(first, second);
    assert_eq!(first.clone(), first);
    let broken = "GET /a\nHTTP/1.1 2x\n";
    assert_eq!(parse_impostor_file(broken), parse_impostor_file(broken));
    assert!(parse_impostor_file(broken).is_err());
}

#[test]
fn test_cursor_is_what_was_read() {
    // alternatives that are given up leave nothing read
    let input = "```graphql\nquery\n```rest";
    let mut reader = Reader::new(input);
    let found = multiline_string(&mut reader).unwrap();
    assert_eq!(found.lang(), "graphql");
    assert_eq!(reader.state.cursor, 20);
    assert_eq!(reader.state.pos, Pos::new(3, 4));
    assert_eq!(reader.peek_back(0), "```graphql\nquery\n```");

    let mut reader = Reader::new("xml\n```");
    let alternatives = [Dialect::Json, Dialect::Xml];
    assert!(choice(&alternatives, &mut reader).is_ok());
    assert_eq!(reader.state.cursor, 7);
    let mut reader = Reader::new("graphql\n```");
    let error = choice(&alternatives, &mut reader).err().unwrap();
    assert!(error.recoverable);
    assert_eq!(reader.state.cursor, 0);
    assert_eq!(reader.state.pos, Pos::new(1, 1));

    let mut reader = Reader::new("variable");
    assert_eq!(optional(&Variables, &mut reader), Ok(None));
    assert_eq!(reader.state.cursor, 0);
    // a failure without a way back is handed on, and what was read stays read
    let mut reader = Reader::new("variables [");
    let error = optional(&Variables, &mut reader).err().unwrap();
    assert!(!error.recoverable);
    assert_eq!(reader.state.cursor, 10);

    let mut reader = Reader::new("\"ab\" rest");
    quoted_template(&mut reader).unwrap();
    assert_eq!(reader.peek_back(0), "\"ab\"");
    let mut reader = Reader::new("ab  \nrest");
    unquoted_template(&mut reader).unwrap();
    assert_eq!(reader.peek_back(0), "ab");
}

#[test]
fn test_big_integers_keep_their_text() {
    for text in [
        "9223372036854775808",
        "-9223372036854775809",
        "340282366920938463463374607431768211456",
    ] {
        let mut reader = Reader::new(text);
        assert_eq!(
            number(&mut reader),
            Ok(Number::BigInteger(text.to_string()))
        );
        assert!(reader.is_eof());
    }
    for (text, value) in [
        ("9223372036854775807", i64::MAX),
        ("-9223372036854775808", i64::MIN),
        ("-0", 0),
    ] {
        let mut reader = Reader::new(text);
        assert_eq!(number(&mut reader), Ok(Number::Integer(value)));
    }
}

#[test]
fn test_multiline_json_body() {
    let mut reader = Reader::new("```json\nx\n```");
    match multiline_string(&mut reader).unwrap() {
        MultilineString::Json(text) => {
            assert_eq!(
                text.value.elements,
                vec![TemplateElement::String {
                    value: "x\n".to_string(),
                    encoded: "x\n".to_string(),
                }]
            );
            assert_eq!(
                text.value.source_info,
                SourceInfo::new(Pos::new(2, 1), Pos::new(3, 1))
            );
        }
        other => panic!("{:?}", other),
    }
    assert!(reader.is_eof());
}

#[test]
fn test_graphql_variables_without_object() {
    let mut reader = Reader::new("```graphql\nq\nvariables\n```");
    assert_eq!(
        multiline_string(&mut reader),
        Err(Error::new(
            Pos::new(3, 10),
            false,
            ParseError::GraphQlVariables
        ))
    );
}
