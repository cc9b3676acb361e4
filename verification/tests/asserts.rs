use impostor_core::asserts::predicate::{Predicate, Value};
use impostor_core::asserts::query::{Query, QueryError, RequestParts};
use impostor_core::parser::primitives::eq_ignore_case;
use impostor_core::asserts::{Assert, AssertCompilationError, AssertionError};
use impostor_core::ast;
use impostor_core::ast::{Pos, SourceInfo, Template, TemplateElement, Whitespace};

fn span() -> SourceInfo {
    SourceInfo::new(Pos::new(1, 1), Pos::new(1, 1))
}

fn blank(value: &str) -> Whitespace {
    Whitespace {
        value: value.to_string(),
        source_info: span(),
    }
}

fn template(value: &str) -> Template {
    Template {
        delimiter: None,
        elements: vec![TemplateElement::String {
            value: value.to_string(),
            encoded: value.to_string(),
        }],
        source_info: span(),
    }
}

fn line_end() -> ast::LineTerminator {
    ast::LineTerminator {
        space0: blank(""),
        comment: None,
        newline: blank("\n"),
    }
}

fn header(key: &str, value: &str) -> ast::KeyValue {
    ast::KeyValue {
        line_terminators: vec![],
        space0: blank(""),
        key: template(key),
        space1: blank(""),
        space2: blank(" "),
        value: template(value),
        line_terminator0: line_end(),
    }
}

fn header_query(name: &str) -> ast::Query {
    ast::Query {
        source_info: span(),
        value: ast::QueryValue::Header {
            space0: blank(" "),
            name: template(name),
        },
    }
}

fn equal(value: ast::PredicateValue, not: bool) -> ast::Predicate {
    ast::Predicate {
        not,
        space0: blank(""),
        predicate_func: ast::PredicateFunc {
            source_info: span(),
            value: ast::PredicateFuncValue::Equal {
                space0: blank(" "),
                value,
                operator: true,
            },
        },
    }
}

fn assert_of(query: ast::Query, predicate: ast::Predicate) -> ast::Assert {
    ast::Assert {
        line_terminators: vec![],
        space0: blank(""),
        query,
        filters: vec![],
        space1: blank(" "),
        predicate,
        line_terminator0: line_end(),
    }
}

fn request(headers: &[(&str, &str)]) -> RequestParts {
    RequestParts {
        headers: headers
            .iter()
            .map(|(name, value)| (name.to_string(), value.to_string()))
            .collect(),
    }
}

#[test]
fn test_compilation_error_in_words() {
    assert_eq!(
        AssertCompilationError::InvalidQueryType.to_string(),
        "invalid query type"
    );
    assert_eq!(
        AssertCompilationError::InvalidPredicate.to_string(),
        "invalid predicate"
    );
    assert_eq!(
        AssertCompilationError::InvalidPredicateValue("float".to_string()).to_string(),
        "invalid predicate value - float"
    );
}

#[test]
fn test_header_becomes_assert() {
    let compiled = Assert::from_header(header("Content-Type", "text/plain")).unwrap();
    assert_eq!(
        compiled.apply(&request(&[("accept", "*/*"), ("content-type", "text/plain")])),
        Ok(true)
    );
    assert_eq!(
        compiled.apply(&request(&[("content-type", "text/html")])),
        Ok(false)
    );
    assert_eq!(
        compiled.apply(&request(&[("accept", "*/*")])),
        Err(AssertionError::InvalidQueryValue(
            "missing header Content-Type".to_string()
        ))
    );
    // the first header of that name decides
    assert_eq!(
        compiled.apply(&request(&[
            ("Content-Type", "text/html"),
            ("Content-Type", "text/plain")
        ])),
        Ok(false)
    );
}

#[test]
fn test_assert_negated() {
    let value = ast::PredicateValue::String(template("secret"));
    let compiled = Assert::try_from(assert_of(header_query("X-Token"), equal(value, true))).unwrap();
    assert_eq!(compiled.apply(&request(&[("x-token", "secret")])), Ok(false));
    assert_eq!(compiled.apply(&request(&[("x-token", "other")])), Ok(true));
    assert!(compiled.apply(&request(&[])).is_err());
    assert_eq!(compiled.clone(), compiled);
}

#[test]
fn test_assert_compilation_errors() {
    let path = ast::Query {
        source_info: span(),
        value: ast::QueryValue::Path,
    };
    assert_eq!(
        Assert::try_from(assert_of(path, equal(ast::PredicateValue::Null, false))),
        Err(AssertCompilationError::InvalidQueryType)
    );
    // the query is looked at before the predicate
    let body = ast::Query {
        source_info: span(),
        value: ast::QueryValue::Body,
    };
    let exists = ast::Predicate {
        not: false,
        space0: blank(""),
        predicate_func: ast::PredicateFunc {
            source_info: span(),
            value: ast::PredicateFuncValue::Exist,
        },
    };
    assert_eq!(
        Assert::try_from(assert_of(body, exists.clone())),
        Err(AssertCompilationError::InvalidQueryType)
    );
    assert_eq!(
        Assert::try_from(assert_of(header_query("a"), exists)),
        Err(AssertCompilationError::InvalidPredicate)
    );
    let float = ast::PredicateValue::Number(ast::Number::Float(ast::Float {
        encoded: "1.0".to_string(),
    }));
    assert_eq!(
        Assert::try_from(assert_of(header_query("a"), equal(float, false))),
        Err(AssertCompilationError::InvalidPredicateValue(
            "float".to_string()
        ))
    );
}

#[test]
fn test_value_compilation() {
    assert_eq!(Value::try_from(ast::PredicateValue::Null), Ok(Value::Null));
    assert_eq!(
        Value::try_from(ast::PredicateValue::Bool(true)),
        Ok(Value::Bool(true))
    );
    assert_eq!(
        Value::try_from(ast::PredicateValue::Number(ast::Number::Integer(-3))),
        Ok(Value::Number(-3))
    );
    assert_eq!(
        Value::try_from(ast::PredicateValue::String(template("a b"))),
        Ok(Value::String("a b".to_string()))
    );
    let big = ast::PredicateValue::Number(ast::Number::BigInteger("99999999999999999999".to_string()));
    assert_eq!(
        Value::try_from(big),
        Err(AssertCompilationError::InvalidPredicateValue(
            "big integer".to_string()
        ))
    );
    let regex = ast::PredicateValue::Regex(ast::Regex {
        pattern: "a+".to_string(),
    });
    assert_eq!(
        Value::try_from(regex),
        Err(AssertCompilationError::InvalidPredicateValue(
            "regex".to_string()
        ))
    );
}

#[test]
fn test_predicate_and_query() {
    let predicate = Predicate::Equal(Value::Number(1));
    assert!(predicate.apply(&Value::Number(1)));
    assert!(!predicate.apply(&Value::Number(2)));
    assert!(!predicate.apply(&Value::String("1".to_string())));
    assert!(Value::Null.same(&Value::Null));
    assert!(!Value::Null.same(&Value::Bool(false)));

    let query = Query::Header("Host".to_string());
    assert_eq!(
        query.apply(&request(&[("HOST", "example.org")])),
        Ok(Value::String("example.org".to_string()))
    );
    assert_eq!(
        query.apply(&request(&[("Hos", "x"), ("Hostx", "y")])),
        Err(QueryError::MissingHeader("Host".to_string()))
    );
    assert_eq!(
        QueryError::MissingHeader("Host".to_string()).to_string(),
        "missing header Host"
    );
    assert_eq!(
        Query::try_from(header_query("Host")),
        Ok(Query::Header("Host".to_string()))
    );
}

#[test]
fn test_eq_ignore_case() {
    assert!(eq_ignore_case("Content-Type", "content-type"));
    assert!(eq_ignore_case("", ""));
    assert!(!eq_ignore_case("a", "ab"));
    assert!(!eq_ignore_case("a-b", "a_b"));
    // only the letters of ASCII have two cases here
    assert!(!eq_ignore_case("é", "É"));
    assert!(!eq_ignore_case("@", "`"));
    assert!(!eq_ignore_case("[", "{"));
}
