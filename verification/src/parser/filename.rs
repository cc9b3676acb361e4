use crate::ast::{Filename, FilenameView, SourceInfo};
use crate::parser::error::{Error, ParseError, ParseErrorView};
use crate::parser::outcome::{parses, Parsed};
use crate::parser::reader::{lemma_run_end_unique, Input, Reader};
use vstd::prelude::*;

verus! {

/// Whether `c` may stand in the name of a file: a letter or a digit of
/// ASCII, or one of `. / \ _ -`.
pub open spec fn is_filename_char(c: char) -> bool {
    ||| 'a' <= c <= 'z'
    ||| 'A' <= c <= 'Z'
    ||| '0' <= c <= '9'
    ||| c == '.'
    ||| c == '/'
    ||| c == '\\'
    ||| c == '_'
    ||| c == '-'
}

/// The class of the characters of a file name.
pub open spec fn filename_chars() -> spec_fn(char) -> bool {
    |c: char| is_filename_char(c)
}

/// Whether `c` may stand in the name of a file.
pub fn filename_char(c: char) -> (yes: bool)
    ensures
        yes == is_filename_char(c),
{
    ('a' <= c && c <= 'z') || ('A' <= c && c <= 'Z') || ('0' <= c && c <= '9') || c == '.' || c
        == '/' || c == '\\' || c == '_' || c == '-'
}

/// What [`parse`] does: it reads the longest run of characters that a file
/// name may hold. An empty one is a failure without a way back.
pub open spec fn parse_spec(input: Input, at: int) -> Parsed<FilenameView> {
    let end = input.run_end(at, filename_chars());
    if end == at {
        Parsed::failed(
            input.pos_at(at),
            false,
            ParseErrorView::Expecting { value: "filename"@ },
            at,
        )
    } else {
        Parsed::done(
            FilenameView { value: input.slice(at, end), source_info: input.span(at, end) },
            end,
        )
    }
}

/// Reads the name of a file.
pub fn parse(reader: &mut Reader) -> (r: Result<Filename, Error>)
    requires
        old(reader).wf(),
    ensures
        parses(
            *old(reader),
            *final(reader),
            r,
            parse_spec(old(reader).input(), old(reader).state.cursor as int),
        ),
{
    let start = reader.state;
    let allowed = |c: &char| -> (b: bool)
        ensures
            b == is_filename_char(*c),
        { filename_char(*c) };
    let value = reader.read_while(allowed);
    proof {
        lemma_run_end_unique(
            reader.input(),
            start.cursor as int,
            reader.state.cursor as int,
            filename_chars(),
        );
    }
    if reader.state.cursor == start.cursor {
        let inner = ParseError::Expecting { value: "filename".to_owned() };
        return Err(Error::new(start.pos, false, inner));
    }
    Ok(Filename { value, source_info: SourceInfo::new(start.pos, reader.state.pos) })
}

} // verus!
