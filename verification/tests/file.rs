use impostor_core::ast::{
    Bytes, ImpostorFile, JsonValue, Method, MultilineString, Pos, PredicateFuncValue,
    PredicateValue, QueryValue, RequestSectionValue, SourceInfo, Status, TemplateElement,
    Version, VersionValue,
};
use impostor_core::parser::parsers::{
    body, duplicate_section, entry, key_value, method, request, response, status, version,
};
use impostor_core::parser::{parse_impostor_file, Error, ParseError, Reader};

fn text(value: &str) -> TemplateElement {
    TemplateElement::String {
        value: value.to_string(),
        encoded: value.to_string(),
    }
}

#[test]
fn test_file_one_entry() {
    let file = parse_impostor_file("GET /foo\nHTTP/1.1 200\n").unwrap();
    assert_eq!(file.entries.len(), 1);
    assert!(file.line_terminators.is_empty());
    let entry = &file.entries[0];
    assert_eq!(entry.request.method, Method("GET".to_string()));
    assert_eq!(entry.request.path.elements, vec![text("/foo")]);
    assert_eq!(entry.request.path.delimiter, None);
    assert_eq!(
        entry.request.path.source_info,
        SourceInfo::new(Pos::new(1, 5), Pos::new(1, 9))
    );
    assert_eq!(entry.request.space1.value, " ");
    assert_eq!(entry.request.line_terminator0.newline.value, "\n");
    assert!(entry.request.headers.is_empty());
    assert!(entry.request.sections.is_empty());
    assert!(entry.request.body.is_none());
    assert_eq!(
        entry.request.source_info,
        SourceInfo::new(Pos::new(1, 1), Pos::new(2, 1))
    );
    assert_eq!(
        entry.response.version,
        Version {
            value: VersionValue::Version11,
            source_info: SourceInfo::new(Pos::new(2, 1), Pos::new(2, 9)),
        }
    );
    assert_eq!(
        entry.response.status,
        Status {
            value: 200,
            source_info: SourceInfo::new(Pos::new(2, 10), Pos::new(2, 13)),
        }
    );
    assert_eq!(
        entry.response.source_info,
        SourceInfo::new(Pos::new(2, 1), Pos::new(3, 1))
    );
    assert!(entry.response.body.is_none());
}

#[test]
fn test_file_empty() {
    assert_eq!(
        parse_impostor_file(""),
        Ok(ImpostorFile {
            entries: vec![],
            line_terminators: vec![]
        })
    );
}

#[test]
fn test_file_blank_and_comment_lines_only() {
    let file = parse_impostor_file("\n  # nothing here\n\n").unwrap();
    assert!(file.entries.is_empty());
    assert_eq!(file.line_terminators.len(), 3);
    assert_eq!(
        file.line_terminators[1].comment.as_ref().unwrap().value,
        " nothing here"
    );
    assert_eq!(file.line_terminators[1].space0.value, "  ");
}

#[test]
fn test_file_trailing_blank_lines() {
    let file = parse_impostor_file("GET /\nHTTP 200\n\n\n").unwrap();
    assert_eq!(file.entries.len(), 1);
    assert_eq!(file.entries[0].response.version.value, VersionValue::VersionAny);
    assert_eq!(file.line_terminators.len(), 2);
}

#[test]
fn test_file_crlf() {
    let file = parse_impostor_file("GET /a\r\nHTTP/2 204\r\n").unwrap();
    let entry = &file.entries[0];
    assert_eq!(entry.request.path.elements, vec![text("/a")]);
    assert_eq!(entry.request.line_terminator0.newline.value, "\r\n");
    assert_eq!(entry.response.version.value, VersionValue::Version2);
    assert_eq!(entry.response.status.value, 204);
    assert_eq!(entry.response.line_terminator0.newline.value, "\r\n");
    assert_eq!(
        entry.response.source_info,
        SourceInfo::new(Pos::new(2, 1), Pos::new(3, 1))
    );
}

#[test]
fn test_file_without_final_line_end() {
    let file = parse_impostor_file("GET /a\nHTTP/3 200").unwrap();
    assert_eq!(file.entries[0].response.version.value, VersionValue::Version3);
    assert_eq!(file.entries[0].response.line_terminator0.newline.value, "");
}

#[test]
fn test_file_two_entries_with_comments_between() {
    let input = "# first\nGET /a # the path\nHTTP/1.0 200\n\n# second\n\nPOST /b\nHTTP/* 404\n";
    let file = parse_impostor_file(input).unwrap();
    assert_eq!(file.entries.len(), 2);
    let first = &file.entries[0];
    assert_eq!(first.request.line_terminators.len(), 1);
    assert_eq!(
        first.request.line_terminators[0]
            .comment
            .as_ref()
            .unwrap()
            .value,
        " first"
    );
    // the spaces before a comment do not belong to the path
    assert_eq!(first.request.path.elements, vec![text("/a")]);
    assert_eq!(first.request.line_terminator0.space0.value, " ");
    assert_eq!(
        first
            .request
            .line_terminator0
            .comment
            .as_ref()
            .unwrap()
            .value,
        " the path"
    );
    assert_eq!(first.response.version.value, VersionValue::Version1);
    let second = &file.entries[1];
    assert_eq!(second.request.line_terminators.len(), 3);
    assert_eq!(second.request.method, Method("POST".to_string()));
    assert_eq!(
        second.response.version.value,
        VersionValue::VersionAnyLegacy
    );
    assert_eq!(second.response.status.value, 404);
}

#[test]
fn test_file_headers_sections_and_bodies() {
    let input = "\
POST /users/{{id}}
Content-Type: application/json
X-Token: abc def  
[Asserts]
header \"Accept\" == \"text/plain\"
body matches /^a+$/
[Captures]
token: header \"X-Token\"
{
  \"name\": \"{{name}}\"
}
HTTP/1.1 201
Location: /users/1
```
created
```
";
    let file = parse_impostor_file(input).unwrap();
    assert_eq!(file.entries.len(), 1);
    let request = &file.entries[0].request;
    assert_eq!(request.path.elements.len(), 2);
    assert_eq!(request.path.elements[0], text("/users/"));
    assert!(matches!(
        request.path.elements[1],
        TemplateElement::Expression(_)
    ));
    assert_eq!(request.headers.len(), 2);
    assert_eq!(request.headers[0].key.elements, vec![text("Content-Type")]);
    assert_eq!(
        request.headers[0].value.elements,
        vec![text("application/json")]
    );
    assert_eq!(request.headers[1].value.elements, vec![text("abc def")]);
    assert_eq!(request.headers[1].line_terminator0.space0.value, "  ");
    assert_eq!(request.sections.len(), 2);
    assert_eq!(request.sections[0].name(), "Asserts");
    assert_eq!(
        request.sections[0].source_info,
        SourceInfo::new(Pos::new(4, 1), Pos::new(4, 10))
    );
    let asserts = request.asserts();
    assert_eq!(asserts.len(), 2);
    assert!(matches!(asserts[0].query.value, QueryValue::Header { .. }));
    assert!(matches!(
        asserts[0].predicate.predicate_func.value,
        PredicateFuncValue::Equal { operator: true, .. }
    ));
    assert!(matches!(asserts[1].query.value, QueryValue::Body));
    match &asserts[1].predicate.predicate_func.value {
        PredicateFuncValue::Match { value, .. } => match value {
            PredicateValue::Regex(regex) => assert_eq!(regex.pattern, "^a+$"),
            other => panic!("{:?}", other),
        },
        other => panic!("{:?}", other),
    }
    let captures = request.captures();
    assert_eq!(captures.len(), 1);
    assert_eq!(captures[0].name.elements, vec![text("token")]);
    match &request.sections[1].value {
        RequestSectionValue::Captures(found) => assert_eq!(found.len(), 1),
        other => panic!("{:?}", other),
    }
    match &request.body.as_ref().unwrap().value {
        Bytes::Json(JsonValue::Object { elements, .. }) => assert_eq!(elements.len(), 1),
        other => panic!("{:?}", other),
    }
    let response = &file.entries[0].response;
    assert_eq!(response.status.value, 201);
    assert_eq!(response.headers.len(), 1);
    match &response.body.as_ref().unwrap().value {
        Bytes::MultilineString(MultilineString::Text(text)) => {
            assert_eq!(text.value.encoded(), "created\n")
        }
        other => panic!("{:?}", other),
    }
}

#[test]
fn test_file_errors() {
    // a request without a response
    let error = parse_impostor_file("GET /a\n").err().unwrap();
    assert_eq!(
        error,
        Error::new(
            Pos::new(2, 1),
            false,
            ParseError::Expecting {
                value: "HTTP".to_string()
            }
        )
    );
    let error = parse_impostor_file("get /a\nHTTP 200\n").err().unwrap();
    assert_eq!(error, Error::new(Pos::new(1, 1), false, ParseError::Method));
    let error = parse_impostor_file("GET /a\nHTTP/9 200\n").err().unwrap();
    assert_eq!(error, Error::new(Pos::new(2, 1), false, ParseError::Version));
    let error = parse_impostor_file("GET /a\nHTTP/1.1 abc\n").err().unwrap();
    assert_eq!(error, Error::new(Pos::new(2, 10), false, ParseError::Status));
    let error = parse_impostor_file("GET /a\nHTTP/1.1 1000\n").err().unwrap();
    assert_eq!(error, Error::new(Pos::new(2, 10), false, ParseError::Status));
    let error = parse_impostor_file("GET\nHTTP 200\n").err().unwrap();
    assert_eq!(error, Error::new(Pos::new(1, 4), false, ParseError::Space));
    let error = parse_impostor_file("GET /a\nHTTP 200\n%%%\n").err().unwrap();
    assert_eq!(error, Error::new(Pos::new(3, 1), false, ParseError::Method));
    let error = parse_impostor_file("GET /a\n[Asserts]\n[Asserts]\nHTTP 200\n")
        .err()
        .unwrap();
    assert_eq!(
        error,
        Error::new(Pos::new(3, 1), false, ParseError::DuplicateSection)
    );
    let error = parse_impostor_file("GET /a\n[Options]\nHTTP 200\n")
        .err()
        .unwrap();
    assert_eq!(
        error,
        Error::new(
            Pos::new(2, 1),
            false,
            ParseError::Expecting {
                value: "a valid section name".to_string()
            }
        )
    );
    let error = parse_impostor_file("GET /a\n[Asserts]\nbody foo\nHTTP 200\n")
        .err()
        .unwrap();
    assert_eq!(error, Error::new(Pos::new(3, 6), false, ParseError::Predicate));
}

#[test]
fn test_method() {
    let mut reader = Reader::new("PATCH /");
    assert_eq!(method(&mut reader), Ok(Method("PATCH".to_string())));
    assert_eq!(reader.state.cursor, 5);
    // any word in capital letters will do
    let mut reader = Reader::new("FROBNICATE");
    assert_eq!(method(&mut reader), Ok(Method("FROBNICATE".to_string())));
    let mut reader = Reader::new("");
    assert_eq!(
        method(&mut reader),
        Err(Error::new(Pos::new(1, 1), true, ParseError::Method))
    );
    let mut reader = Reader::new("Get");
    assert_eq!(method(&mut reader), Ok(Method("G".to_string())));
    let mut reader = Reader::new("1");
    assert_eq!(
        method(&mut reader),
        Err(Error::new(Pos::new(1, 1), false, ParseError::Method))
    );
}

#[test]
fn test_version() {
    for (input, value, cursor) in [
        ("HTTP/1.0 200", VersionValue::Version1, 8),
        ("HTTP/1.1 200", VersionValue::Version11, 8),
        ("HTTP/2 200", VersionValue::Version2, 6),
        ("HTTP/3 200", VersionValue::Version3, 6),
        ("HTTP/* 200", VersionValue::VersionAnyLegacy, 6),
        ("HTTP 200", VersionValue::VersionAny, 4),
        ("HTTP\t200", VersionValue::VersionAny, 4),
        ("HTTP", VersionValue::VersionAny, 4),
    ] {
        let mut reader = Reader::new(input);
        assert_eq!(version(&mut reader).unwrap().value, value, "{}", input);
        assert_eq!(reader.state.cursor, cursor, "{}", input);
    }
    let mut reader = Reader::new("HTTPS 200");
    assert_eq!(
        version(&mut reader),
        Err(Error::new(Pos::new(1, 1), false, ParseError::Version))
    );
    let mut reader = Reader::new("http 200");
    let error = version(&mut reader).err().unwrap();
    assert!(error.recoverable);
    assert_eq!(reader.state.cursor, 0);
}

#[test]
fn test_status() {
    let mut reader = Reader::new("0");
    assert_eq!(status(&mut reader).unwrap().value, 0);
    let mut reader = Reader::new("999 ");
    assert_eq!(
        status(&mut reader),
        Ok(Status {
            value: 999,
            source_info: SourceInfo::new(Pos::new(1, 1), Pos::new(1, 4)),
        })
    );
    let mut reader = Reader::new("1000");
    assert_eq!(
        status(&mut reader),
        Err(Error::new(Pos::new(1, 1), false, ParseError::Status))
    );
    let mut reader = Reader::new("007");
    assert!(status(&mut reader).is_err());
    let mut reader = Reader::new("");
    assert_eq!(
        status(&mut reader),
        Err(Error::new(Pos::new(1, 1), false, ParseError::Status))
    );
}

#[test]
fn test_key_value() {
    let mut reader = Reader::new("  Accept : */*  # any\nx");
    let header = key_value(&mut reader).unwrap();
    assert_eq!(header.space0.value, "  ");
    assert_eq!(header.key.elements, vec![text("Accept")]);
    assert_eq!(
        header.key.source_info,
        SourceInfo::new(Pos::new(1, 3), Pos::new(1, 9))
    );
    assert_eq!(header.space1.value, " ");
    assert_eq!(header.space2.value, " ");
    assert_eq!(header.value.elements, vec![text("*/*")]);
    assert_eq!(header.line_terminator0.space0.value, "  ");
    assert_eq!(reader.state.cursor, 22);

    // what is no header leaves the way open
    let mut reader = Reader::new("HTTP/1.1 200");
    let error = key_value(&mut reader).err().unwrap();
    assert!(error.recoverable);
    let mut reader = Reader::new("[Asserts]");
    let error = key_value(&mut reader).err().unwrap();
    assert!(error.recoverable);
}

#[test]
fn test_body_kinds() {
    let mut reader = Reader::new("`one line`\n");
    assert!(matches!(
        body(&mut reader).unwrap().value,
        Bytes::OnelineString(_)
    ));
    let mut reader = Reader::new("[1, 2]\n");
    assert!(matches!(
        body(&mut reader).unwrap().value,
        Bytes::Json(JsonValue::List { .. })
    ));
    let mut reader = Reader::new("<a><b/></a>\n");
    assert_eq!(
        body(&mut reader).unwrap().value,
        Bytes::Xml("<a><b/></a>".to_string())
    );
    let mut reader = Reader::new("base64,aGVsbG8=;\n");
    match body(&mut reader).unwrap().value {
        Bytes::Base64(found) => {
            assert_eq!(found.value, b"hello".to_vec());
            assert_eq!(found.encoded, "aGVsbG8=");
        }
        other => panic!("{:?}", other),
    }
    let mut reader = Reader::new("hex,cafe01;\n");
    match body(&mut reader).unwrap().value {
        Bytes::Hex(found) => {
            assert_eq!(found.value, vec![0xca, 0xfe, 0x01]);
            assert_eq!(found.encoded, "cafe01");
        }
        other => panic!("{:?}", other),
    }
    let mut reader = Reader::new("file, data/body.bin ;\n");
    match body(&mut reader).unwrap().value {
        Bytes::File(found) => {
            assert_eq!(found.filename.value, "data/body.bin");
            assert_eq!(found.space0.value, " ");
            assert_eq!(found.space1.value, " ");
        }
        other => panic!("{:?}", other),
    }
    let mut reader = Reader::new("```json\n{}\n```\n");
    assert!(matches!(
        body(&mut reader).unwrap().value,
        Bytes::MultilineString(MultilineString::Json(_))
    ));
    let mut reader = Reader::new("GET /next");
    let error = body(&mut reader).err().unwrap();
    assert!(error.recoverable);
}

#[test]
fn test_request_response_entry() {
    let mut reader = Reader::new("GET /a\nA: b\n\nHTTP 200\n");
    let found = request(&mut reader).unwrap();
    assert_eq!(found.headers.len(), 1);
    assert_eq!(reader.state.cursor, 12);
    let found = response(&mut reader).unwrap();
    assert_eq!(found.line_terminators.len(), 1);
    assert!(reader.is_eof());

    let mut reader = Reader::new("GET /a\nHTTP 200\nGET /b\nHTTP 201\n");
    let first = entry(&mut reader).unwrap();
    assert_eq!(first.response.status.value, 200);
    assert_eq!(reader.state.cursor, 16);
    let second = entry(&mut reader).unwrap();
    assert_eq!(second.response.status.value, 201);
    assert_eq!(second.clone(), second);
}

#[test]
fn test_duplicate_section() {
    let file = parse_impostor_file("GET /a\n[Captures]\n[Asserts]\nHTTP 200\n").unwrap();
    assert_eq!(duplicate_section(&file.entries[0].request.sections), None);
}
