use impostor_core::ast::{Pos, SourceInfo, Whitespace};
use impostor_core::parser::combinators::{choice, one_or_more, optional, zero_or_more};
use impostor_core::parser::error::{Error, ParseError};
use impostor_core::parser::primitives::{
    boolean, hex_digit, literal, newline, space, try_literal, zero_or_more_spaces, Blank,
};
use impostor_core::parser::reader::{Reader, ReaderState};

fn expecting(value: &str) -> ParseError {
    ParseError::Expecting {
        value: value.to_string(),
    }
}

#[test]
fn test_reader_reads_and_tracks_position() {
    let mut reader = Reader::new("hi\r\nyou");
    assert!(!reader.is_eof());
    assert_eq!(reader.state.cursor, 0);
    assert_eq!(reader.state.pos, Pos::new(1, 1));
    assert_eq!(reader.peek(), Some('h'));
    assert_eq!(reader.read(), Some('h'));
    assert_eq!(reader.state.pos, Pos::new(1, 2));
    assert_eq!(reader.read(), Some('i'));
    assert_eq!(reader.read(), Some('\r'));
    // a carriage return alone does not start a line
    assert_eq!(reader.state.pos, Pos::new(1, 4));
    assert_eq!(reader.read(), Some('\n'));
    assert_eq!(reader.state.pos, Pos::new(2, 1));
    assert_eq!(reader.peek_n(2), "yo");
    assert_eq!(reader.peek_n(10), "you");
    assert_eq!(reader.state.cursor, 4);
    assert_eq!(reader.read(), Some('y'));
    assert_eq!(reader.read(), Some('o'));
    assert_eq!(reader.read(), Some('u'));
    assert!(reader.is_eof());
    assert_eq!(reader.read(), None);
    assert_eq!(reader.peek(), None);
    assert_eq!(reader.peek_n(3), "");
    assert_eq!(reader.state.cursor, 7);
    assert_eq!(reader.state.pos, Pos::new(2, 4));
    assert_eq!(reader.peek_back(4), "you");
    assert_eq!(reader.peek_back(0), "hi\r\nyou");
    assert_eq!(reader.peek_back(7), "");
    assert_eq!(reader.peek_back(9), "");
}

#[test]
fn test_reader_counts_characters_not_bytes() {
    let mut reader = Reader::new("é€x");
    assert_eq!(reader.read(), Some('é'));
    assert_eq!(reader.state.cursor, 1);
    assert_eq!(reader.state.pos, Pos::new(1, 2));
    assert_eq!(reader.read(), Some('€'));
    assert_eq!(reader.state.cursor, 2);
    assert_eq!(reader.peek_back(0), "é€");
}

#[test]
fn test_reader_read_while() {
    let mut reader = Reader::new("123abc");
    assert_eq!(reader.read_while(|c| c.is_ascii_digit()), "123");
    assert_eq!(reader.state.cursor, 3);
    assert_eq!(reader.read_while(|c| c.is_ascii_digit()), "");
    assert_eq!(reader.state.cursor, 3);
    assert_eq!(reader.read_while(|c| c.is_ascii_alphabetic()), "abc");
    assert!(reader.is_eof());
    assert_eq!(reader.read_while(|_| true), "");
}

#[test]
fn test_reader_state_saved_and_restored() {
    let mut reader = Reader::new("a\nb");
    let save = reader.state;
    assert_eq!(
        save,
        ReaderState {
            cursor: 0,
            pos: Pos::new(1, 1)
        }
    );
    reader.read();
    reader.read();
    assert_eq!(reader.state.pos, Pos::new(2, 1));
    reader.state = save;
    assert_eq!(reader.read(), Some('a'));
}

#[test]
fn test_reader_new_at() {
    let mut reader = Reader::new_at("ab", Pos::new(7, 3));
    assert_eq!(reader.state.cursor, 0);
    assert_eq!(reader.state.pos, Pos::new(7, 3));
    reader.read();
    assert_eq!(reader.state.pos, Pos::new(7, 4));
}

#[test]
fn test_reader_empty_input() {
    let mut reader = Reader::new("");
    assert!(reader.is_eof());
    assert_eq!(reader.read(), None);
    assert_eq!(reader.state.cursor, 0);
    assert_eq!(reader.state.pos, Pos::new(1, 1));
}

#[test]
fn test_literal() {
    let mut reader = Reader::new("hello");
    assert_eq!(literal("hello", &mut reader), Ok(()));
    assert_eq!(reader.state.cursor, 5);

    let mut reader = Reader::new("");
    let error = literal("hello", &mut reader).err().unwrap();
    assert_eq!(error, Error::new(Pos::new(1, 1), false, expecting("hello")));
    assert_eq!(reader.state.cursor, 0);

    let mut reader = Reader::new("hi");
    let error = literal("hello", &mut reader).err().unwrap();
    assert_eq!(error, Error::new(Pos::new(1, 1), false, expecting("hello")));
    assert_eq!(reader.state.cursor, 2);

    let mut reader = Reader::new("he");
    let error = literal("hello", &mut reader).err().unwrap();
    assert_eq!(error, Error::new(Pos::new(1, 1), false, expecting("hello")));
    assert_eq!(reader.state.cursor, 2);

    let mut reader = Reader::new("x");
    assert_eq!(literal("", &mut reader), Ok(()));
    assert_eq!(reader.state.cursor, 0);
}

#[test]
fn test_try_literal_restores_on_failure() {
    let mut reader = Reader::new("  hi");
    reader.read();
    let error = try_literal("hello", &mut reader).err().unwrap();
    assert_eq!(error, Error::new(Pos::new(1, 2), true, expecting("hello")));
    assert_eq!(reader.state.cursor, 1);
    assert_eq!(reader.state.pos, Pos::new(1, 2));
    assert_eq!(try_literal(" hi", &mut reader), Ok(()));
    assert_eq!(reader.state.cursor, 4);
}

#[test]
fn test_space() {
    let mut reader = Reader::new("x");
    let error = space(&mut reader).err().unwrap();
    assert_eq!(error, Error::new(Pos::new(1, 1), true, ParseError::Space));
    assert_eq!(reader.state.cursor, 1);

    let mut reader = Reader::new("");
    let error = space(&mut reader).err().unwrap();
    assert_eq!(error, Error::new(Pos::new(1, 1), true, ParseError::Space));
    assert_eq!(reader.state.cursor, 0);

    let mut reader = Reader::new("\t ");
    assert_eq!(
        space(&mut reader),
        Ok(Whitespace {
            value: "\t".to_string(),
            source_info: SourceInfo::new(Pos::new(1, 1), Pos::new(1, 2)),
        })
    );
    let mut reader = Reader::new("\n");
    assert!(space(&mut reader).is_err());
}

#[test]
fn test_zero_or_more_spaces() {
    let mut reader = Reader::new(" \t x");
    assert_eq!(
        zero_or_more_spaces(&mut reader),
        Ok(Whitespace {
            value: " \t ".to_string(),
            source_info: SourceInfo::new(Pos::new(1, 1), Pos::new(1, 4)),
        })
    );
    assert_eq!(reader.state.cursor, 3);

    let mut reader = Reader::new("x");
    assert_eq!(
        zero_or_more_spaces(&mut reader),
        Ok(Whitespace {
            value: String::new(),
            source_info: SourceInfo::new(Pos::new(1, 1), Pos::new(1, 1)),
        })
    );
    assert_eq!(reader.state.cursor, 0);

    let mut reader = Reader::new("  ");
    assert_eq!(zero_or_more_spaces(&mut reader).unwrap().value, "  ");
    assert!(reader.is_eof());
}

#[test]
fn test_blank_kinds() {
    assert!(Blank::Space.accepts(' '));
    assert!(Blank::Space.accepts('\t'));
    assert!(!Blank::Space.accepts('\n'));
    assert!(!Blank::Space.accepts('\r'));
    assert!(Blank::Whitespace.accepts('\n'));
    assert!(Blank::Whitespace.accepts('\r'));
    assert!(!Blank::Whitespace.accepts('x'));
    let mut reader = Reader::new(" \r\n\tx");
    assert_eq!(Blank::Whitespace.run(&mut reader).unwrap().value, " \r\n\t");
    assert_eq!(reader.state.pos, Pos::new(2, 2));
}

#[test]
fn test_newline() {
    let mut reader = Reader::new("\n");
    assert_eq!(
        newline(&mut reader),
        Ok(Whitespace {
            value: "\n".to_string(),
            source_info: SourceInfo::new(Pos::new(1, 1), Pos::new(2, 1)),
        })
    );
    let mut reader = Reader::new("\r\nx");
    assert_eq!(
        newline(&mut reader),
        Ok(Whitespace {
            value: "\r\n".to_string(),
            source_info: SourceInfo::new(Pos::new(1, 1), Pos::new(2, 1)),
        })
    );
    assert_eq!(reader.state.cursor, 2);
    let mut reader = Reader::new("x\n");
    let error = newline(&mut reader).err().unwrap();
    assert_eq!(error, Error::new(Pos::new(1, 1), false, expecting("newline")));
    assert_eq!(reader.state.cursor, 1);
    let mut reader = Reader::new("\rx");
    assert!(newline(&mut reader).is_err());
    let mut reader = Reader::new("");
    let error = newline(&mut reader).err().unwrap();
    assert_eq!(error.pos, Pos::new(1, 1));
    assert_eq!(reader.state.cursor, 0);
}

#[test]
fn test_boolean() {
    let mut reader = Reader::new("true");
    assert_eq!(boolean(&mut reader), Ok(true));
    assert_eq!(reader.state.cursor, 4);
    let mut reader = Reader::new("falsex");
    assert_eq!(boolean(&mut reader), Ok(false));
    assert_eq!(reader.state.cursor, 5);
    let mut reader = Reader::new("xxx");
    let error = boolean(&mut reader).err().unwrap();
    assert_eq!(
        error,
        Error::new(Pos::new(1, 1), true, expecting("true|false"))
    );
    let mut reader = Reader::new("trux");
    let error = boolean(&mut reader).err().unwrap();
    assert_eq!(
        error,
        Error::new(Pos::new(1, 1), true, expecting("true|false"))
    );
    assert_eq!(reader.state.cursor, 1);
}

#[test]
fn test_hex_digit() {
    let mut reader = Reader::new("0");
    assert_eq!(hex_digit(&mut reader), Ok(0));
    let mut reader = Reader::new("9");
    assert_eq!(hex_digit(&mut reader), Ok(9));
    let mut reader = Reader::new("a");
    assert_eq!(hex_digit(&mut reader), Ok(10));
    let mut reader = Reader::new("F");
    assert_eq!(hex_digit(&mut reader), Ok(15));
    let mut reader = Reader::new("g");
    assert_eq!(
        hex_digit(&mut reader),
        Err(Error::new(Pos::new(1, 1), true, ParseError::HexDigit))
    );
    assert_eq!(reader.state.cursor, 1);
    let mut reader = Reader::new("");
    assert_eq!(
        hex_digit(&mut reader),
        Err(Error::new(Pos::new(1, 1), true, ParseError::HexDigit))
    );
}

#[test]
fn test_optional() {
    let mut reader = Reader::new(" x");
    assert_eq!(
        optional(&Blank::Space, &mut reader).unwrap().unwrap().value,
        " "
    );
    assert_eq!(reader.state.cursor, 1);
    // a failure that leaves the way open reads nothing
    assert_eq!(optional(&Blank::Space, &mut reader), Ok(None));
    assert_eq!(reader.state.cursor, 1);
    assert_eq!(reader.state.pos, Pos::new(1, 2));
}

#[test]
fn test_zero_or_more() {
    let mut reader = Reader::new("  \tx");
    let found = zero_or_more(&Blank::Space, &mut reader).unwrap();
    assert_eq!(found.len(), 3);
    assert_eq!(found[2].value, "\t");
    assert_eq!(
        found[1].source_info,
        SourceInfo::new(Pos::new(1, 2), Pos::new(1, 3))
    );
    assert_eq!(reader.state.cursor, 3);
    let found = zero_or_more(&Blank::Space, &mut reader).unwrap();
    assert!(found.is_empty());
    assert_eq!(reader.state.cursor, 3);
}

#[test]
fn test_one_or_more() {
    let mut reader = Reader::new("  x");
    let found = one_or_more(&Blank::Space, &mut reader).unwrap();
    assert_eq!(found.len(), 2);
    assert_eq!(reader.state.cursor, 2);
    let error = one_or_more(&Blank::Space, &mut reader).err().unwrap();
    assert_eq!(error, Error::new(Pos::new(1, 3), false, ParseError::Space));
}

#[test]
fn test_choice() {
    let alternatives = [Blank::Space, Blank::Whitespace];
    let mut reader = Reader::new("\nx");
    assert_eq!(choice(&alternatives, &mut reader).unwrap().value, "\n");
    assert_eq!(reader.state.cursor, 1);
    // every alternative fails and leaves the way open: the failure is the
    // last one's, and nothing is read
    let error = choice(&alternatives, &mut reader).err().unwrap();
    assert_eq!(error, Error::new(Pos::new(2, 1), true, ParseError::Space));
    assert_eq!(reader.state.cursor, 1);
}

#[test]
fn test_error_non_recoverable() {
    let error = Error::new(Pos::new(1, 2), true, ParseError::Eof);
    assert_eq!(
        error.non_recoverable(),
        Error {
            pos: Pos::new(1, 2),
            recoverable: false,
            inner: ParseError::Eof
        }
    );
}
