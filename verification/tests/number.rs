use impostor_core::ast::{Float, Number, Pos};
use impostor_core::parser::error::ParseError;
use impostor_core::parser::number::{integer, natural, number};
use impostor_core::parser::reader::Reader;

#[test]
fn test_natural() {
    let mut reader = Reader::new("0");
    assert_eq!(natural(&mut reader).unwrap(), 0);
    assert_eq!(reader.state.cursor, 1);

    let mut reader = Reader::new("10x");
    assert_eq!(natural(&mut reader).unwrap(), 10);
    assert_eq!(reader.state.cursor, 2);
}

#[test]
fn test_natural_error() {
    let mut reader = Reader::new("");
    let error = natural(&mut reader).err().unwrap();
    assert_eq!(error.pos, Pos { line: 1, column: 1 });
    assert_eq!(
        error.inner,
        ParseError::Expecting {
            value: String::from("natural")
        }
    );
    assert!(error.recoverable);

    let mut reader = Reader::new("01");
    let error = natural(&mut reader).err().unwrap();
    assert_eq!(error.pos, Pos { line: 1, column: 2 });
    assert_eq!(
        error.inner,
        ParseError::Expecting {
            value: String::from("natural")
        }
    );
    assert!(!error.recoverable);

    let mut reader = Reader::new("x");
    let error = natural(&mut reader).err().unwrap();
    assert_eq!(error.pos, Pos { line: 1, column: 1 });
    assert_eq!(
        error.inner,
        ParseError::Expecting {
            value: String::from("natural")
        }
    );
    assert!(error.recoverable);
}

#[test]
fn test_integer() {
    let mut reader = Reader::new("0");
    assert_eq!(integer(&mut reader).unwrap(), 0);
    assert_eq!(reader.state.cursor, 1);

    let mut reader = Reader::new("-1");
    assert_eq!(integer(&mut reader).unwrap(), -1);
    assert_eq!(reader.state.cursor, 2);

    let mut reader = Reader::new("0");
    assert_eq!(number(&mut reader).unwrap(), Number::Integer(0));
    assert_eq!(reader.state.cursor, 1);

    let mut reader = Reader::new("10x");
    assert_eq!(number(&mut reader).unwrap(), Number::Integer(10));
    assert_eq!(reader.state.cursor, 2);

    let mut reader = Reader::new("-10x");
    assert_eq!(number(&mut reader).unwrap(), Number::Integer(-10));
    assert_eq!(reader.state.cursor, 3);
}

fn float_of(text: &str) -> (f64, Number, usize) {
    let mut reader = Reader::new(text);
    let parsed = number(&mut reader).unwrap();
    let value = match &parsed {
        Number::Float(float) => float.encoded.parse::<f64>().unwrap(),
        other => panic!("not a float: {:?}", other),
    };
    (value, parsed, reader.state.cursor)
}

#[test]
fn test_float() {
    let (value, parsed, cursor) = float_of("1.0");
    assert_eq!(value, 1.0);
    assert_eq!(
        parsed,
        Number::Float(Float {
            encoded: "1.0".to_string()
        })
    );
    assert_eq!(cursor, 3);

    let (value, parsed, cursor) = float_of("-1.0");
    assert_eq!(value, -1.0);
    assert_eq!(
        parsed,
        Number::Float(Float {
            encoded: "-1.0".to_string()
        })
    );
    assert_eq!(cursor, 4);

    let (value, parsed, cursor) = float_of("1.1");
    assert_eq!(value, 1.1);
    assert_eq!(
        parsed,
        Number::Float(Float {
            encoded: "1.1".to_string()
        })
    );
    assert_eq!(cursor, 3);

    let (value, parsed, cursor) = float_of("1.100");
    assert_eq!(value, 1.1);
    assert_eq!(
        parsed,
        Number::Float(Float {
            encoded: "1.100".to_string()
        })
    );
    assert_eq!(cursor, 5);

    let (value, parsed, cursor) = float_of("1.01");
    assert_eq!(value, 1.01);
    assert_eq!(
        parsed,
        Number::Float(Float {
            encoded: "1.01".to_string()
        })
    );
    assert_eq!(cursor, 4);

    let (value, parsed, cursor) = float_of("1.010");
    assert_eq!(value, 1.01);
    assert_eq!(
        parsed,
        Number::Float(Float {
            encoded: "1.010".to_string()
        })
    );
    assert_eq!(cursor, 5);

    // provide more digits than necessary
    let (value, parsed, cursor) = float_of("-0.3333333333333333333");
    assert_eq!(value, -0.3333333333333333);
    assert_eq!(
        parsed,
        Number::Float(Float {
            encoded: "-0.3333333333333333333".to_string()
        })
    );
    assert_eq!(cursor, 22);

    let (value, parsed, cursor) = float_of("1000000000000000000000.5");
    assert_eq!(value, 1000000000000000000000.0);
    assert_eq!(
        parsed,
        Number::Float(Float {
            encoded: "1000000000000000000000.5".to_string()
        })
    );
    assert_eq!(cursor, 24);
}

#[test]
pub fn test_number_error() {
    let mut reader = Reader::new("");
    let error = number(&mut reader).err().unwrap();
    assert_eq!(
        error.inner,
        ParseError::Expecting {
            value: String::from("number")
        }
    );
    assert_eq!(error.pos, Pos { line: 1, column: 1 });
    assert!(error.recoverable);

    let mut reader = Reader::new("-");
    let error = number(&mut reader).err().unwrap();
    assert_eq!(
        error.inner,
        ParseError::Expecting {
            value: String::from("number")
        }
    );
    assert_eq!(error.pos, Pos { line: 1, column: 2 });
    assert!(error.recoverable);

    let mut reader = Reader::new("x");
    let error = number(&mut reader).err().unwrap();
    assert_eq!(error.pos, Pos { line: 1, column: 1 });
    assert_eq!(
        error.inner,
        ParseError::Expecting {
            value: String::from("number")
        }
    );
    assert!(error.recoverable);

    let mut reader = Reader::new("1.");
    let error = number(&mut reader).err().unwrap();
    assert_eq!(error.pos, Pos { line: 1, column: 3 });
    assert_eq!(
        error.inner,
        ParseError::Expecting {
            value: String::from("decimal digits")
        }
    );
    assert!(!error.recoverable);
}

#[test]
fn test_big_integer_keeps_text() {
    let mut reader = Reader::new("9223372036854775807");
    assert_eq!(
        number(&mut reader).unwrap(),
        Number::Integer(9223372036854775807)
    );
    let mut reader = Reader::new("-9223372036854775808 ");
    assert_eq!(number(&mut reader).unwrap(), Number::Integer(i64::MIN));
    assert_eq!(reader.state.cursor, 20);

    let mut reader = Reader::new("9223372036854775808");
    assert_eq!(
        number(&mut reader).unwrap(),
        Number::BigInteger("9223372036854775808".to_string())
    );
    let mut reader = Reader::new("-9223372036854775809,");
    assert_eq!(
        number(&mut reader).unwrap(),
        Number::BigInteger("-9223372036854775809".to_string())
    );
    assert_eq!(reader.state.cursor, 20);
    let mut reader = Reader::new("123456789012345678901234567890");
    assert_eq!(
        number(&mut reader).unwrap(),
        Number::BigInteger("123456789012345678901234567890".to_string())
    );
}

#[test]
fn test_natural_limits() {
    let mut reader = Reader::new("18446744073709551615");
    assert_eq!(natural(&mut reader).unwrap(), u64::MAX);
    let mut reader = Reader::new("18446744073709551616");
    let error = natural(&mut reader).err().unwrap();
    assert_eq!(error.pos, Pos { line: 1, column: 2 });
    assert!(!error.recoverable);
    assert_eq!(reader.state.cursor, 20);
}

#[test]
fn test_integer_limits() {
    let mut reader = Reader::new("-9223372036854775808");
    assert_eq!(integer(&mut reader).unwrap(), i64::MIN);
    let mut reader = Reader::new("9223372036854775808");
    let error = integer(&mut reader).err().unwrap();
    assert_eq!(
        error.inner,
        ParseError::Expecting {
            value: String::from("integer")
        }
    );
    assert_eq!(error.pos, Pos { line: 1, column: 1 });
    assert!(!error.recoverable);
    let mut reader = Reader::new("-x");
    let error = integer(&mut reader).err().unwrap();
    assert_eq!(error.pos, Pos { line: 1, column: 2 });
    assert!(error.recoverable);
}

#[test]
fn test_number_leading_zero() {
    let mut reader = Reader::new("01");
    let error = number(&mut reader).err().unwrap();
    assert_eq!(
        error.inner,
        ParseError::Expecting {
            value: String::from("natural")
        }
    );
    assert_eq!(error.pos, Pos { line: 1, column: 3 });
    assert!(!error.recoverable);
}
