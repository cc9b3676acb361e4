use crate::ast::{
    Base64, Base64View, Bytes, BytesView, File, FileView, Hex, HexView, JsonValueView,
    MultilineStringView, TemplateView,
};
use crate::parser::base64;
use crate::parser::combinators::{choice, choice_spec, Parser};
use crate::parser::error::{Error, ParseError, ParseErrorView};
use crate::parser::filename;
use crate::parser::json;
use crate::parser::multiline::{multiline_string, multiline_string_spec};
use crate::parser::outcome::{mapped, parses, Parsed};
use crate::parser::primitives::{
    hex_digit_value, literal, literal_spec, to_hex_digit, try_literal, try_literal_spec,
    zero_or_more_spaces, zero_or_more_spaces_spec,
};
use crate::parser::reader::{chars_of, lemma_run_end_unique, Input, Reader};
use crate::parser::string::{backtick_template, backtick_template_spec};
use crate::parser::xml;
use vstd::prelude::*;

verus! {

/// What [`base64`] does: it reads `base64,`, failing with the way left
/// open and nothing read where the input does not start with `base64`;
/// then blanks, the text in base 64, blanks, and a `;`.
pub open spec fn base64_spec(input: Input, at: int) -> Parsed<Base64View> {
    let comma = literal_spec(input, at + "base64"@.len(), ","@);
    let space0 = zero_or_more_spaces_spec(input, comma.end);
    let decoded = base64::decode_spec(input, space0.end, Seq::empty(), Seq::empty());
    let space1 = zero_or_more_spaces_spec(input, decoded.1);
    let close = literal_spec(input, space1.end, ";"@);
    match (try_literal_spec(input, at, "base64"@).result, comma.result, close.result) {
        (Err(error), _, _) => Parsed::refused(error, at),
        (Ok(_), Err(error), _) => Parsed::refused(error, comma.end),
        (Ok(_), Ok(_), Err(error)) => Parsed::refused(error, close.end),
        (Ok(_), Ok(_), Ok(_)) => Parsed::done(
            Base64View {
                space0: space0.result->Ok_0,
                value: decoded.0,
                encoded: input.slice(space0.end, decoded.1),
                space1: space1.result->Ok_0,
            },
            close.end,
        ),
    }
}

/// Reads bytes written in base 64.
pub fn base64(reader: &mut Reader) -> (r: Result<Base64, Error>)
    requires
        old(reader).wf(),
    ensures
        parses(
            *old(reader),
            *final(reader),
            r,
            base64_spec(old(reader).input(), old(reader).state.cursor as int),
        ),
        r is Ok ==> old(reader).state.cursor < final(reader).state.cursor,
{
    proof {
        reveal_strlit(";");
    }
    try_literal("base64", reader)?;
    literal(",", reader)?;
    let space0 = zero_or_more_spaces(reader)?;
    let save = reader.state.cursor;
    let value = base64::parse(reader);
    let encoded = reader.peek_back(save);
    let space1 = zero_or_more_spaces(reader)?;
    literal(";", reader)?;
    Ok(Base64 { space0, value, encoded, space1 })
}

/// What [`file`] does: it reads `file,`, failing with the way left open
/// and nothing read where the input does not start with `file`; then
/// blanks, the name of the file, blanks, and a `;`.
pub open spec fn file_spec(input: Input, at: int) -> Parsed<FileView> {
    let comma = literal_spec(input, at + "file"@.len(), ","@);
    let space0 = zero_or_more_spaces_spec(input, comma.end);
    let name = filename::parse_spec(input, space0.end);
    let space1 = zero_or_more_spaces_spec(input, name.end);
    let close = literal_spec(input, space1.end, ";"@);
    match (
        try_literal_spec(input, at, "file"@).result,
        comma.result,
        name.result,
        close.result,
    ) {
        (Err(error), _, _, _) => Parsed::refused(error, at),
        (Ok(_), Err(error), _, _) => Parsed::refused(error, comma.end),
        (Ok(_), Ok(_), Err(error), _) => Parsed::refused(error, name.end),
        (Ok(_), Ok(_), Ok(_), Err(error)) => Parsed::refused(error, close.end),
        (Ok(_), Ok(_), Ok(filename), Ok(_)) => Parsed::done(
            FileView { space0: space0.result->Ok_0, filename, space1: space1.result->Ok_0 },
            close.end,
        ),
    }
}

/// Reads a reference to a file.
pub fn file(reader: &mut Reader) -> (r: Result<File, Error>)
    requires
        old(reader).wf(),
    ensures
        parses(
            *old(reader),
            *final(reader),
            r,
            file_spec(old(reader).input(), old(reader).state.cursor as int),
        ),
        r is Ok ==> old(reader).state.cursor < final(reader).state.cursor,
{
    proof {
        reveal_strlit(";");
    }
    try_literal("file", reader)?;
    literal(",", reader)?;
    let space0 = zero_or_more_spaces(reader)?;
    let f = filename::parse(reader)?;
    let space1 = zero_or_more_spaces(reader)?;
    literal(";", reader)?;
    Ok(File { space0, filename: f, space1 })
}

/// The class of the digits of base sixteen.
pub open spec fn hex_digits() -> spec_fn(char) -> bool {
    |c: char| hex_digit_value(c) is Some
}

/// The bytes that an even number of digits of base sixteen stand for, two
/// digits to the byte.
pub open spec fn hex_bytes(digits: Seq<char>) -> Seq<u8> {
    Seq::new(
        digits.len() / 2,
        |i: int|
            ((hex_digit_value(digits[2 * i])->Some_0 * 16 + hex_digit_value(
                digits[2 * i + 1],
            )->Some_0) % 256) as u8,
    )
}

/// What [`hex`] does: it reads `hex,`, failing with the way left open and
/// nothing read where the input does not start with `hex`; then blanks,
/// digits of base sixteen, blanks, and a `;`. An odd number of digits is a
/// failure without a way back, reported after the digits.
pub open spec fn hex_spec(input: Input, at: int) -> Parsed<HexView> {
    let comma = literal_spec(input, at + "hex"@.len(), ","@);
    let space0 = zero_or_more_spaces_spec(input, comma.end);
    let end = input.run_end(space0.end, hex_digits());
    let space1 = zero_or_more_spaces_spec(input, end);
    let close = literal_spec(input, space1.end, ";"@);
    let encoded = input.slice(space0.end, end);
    match (try_literal_spec(input, at, "hex"@).result, comma.result, close.result) {
        (Err(error), _, _) => Parsed::refused(error, at),
        (Ok(_), Err(error), _) => Parsed::refused(error, comma.end),
        (Ok(_), Ok(_), _) => if (end - space0.end) % 2 != 0 {
            Parsed::failed(input.pos_at(end), false, ParseErrorView::HexDigit, end)
        } else {
            match close.result {
                Err(error) => Parsed::refused(error, close.end),
                Ok(_) => Parsed::done(
                    HexView {
                        space0: space0.result->Ok_0,
                        value: hex_bytes(encoded),
                        encoded,
                        space1: space1.result->Ok_0,
                    },
                    close.end,
                ),
            }
        },
    }
}

/// The bytes that the digits `text` stand for.
fn decode_hex(text: &str) -> (bytes: Vec<u8>)
    requires
        text@.len() % 2 == 0,
        forall|i: int| 0 <= i < text@.len() ==> hex_digit_value(#[trigger] text@[i]) is Some,
    ensures
        bytes@ == hex_bytes(text@),
{
    let digits = chars_of(text);
    let mut bytes: Vec<u8> = Vec::new();
    let mut i: usize = 0;
    while i + 1 < digits.len()
        invariant
            digits@ == text@,
            digits@.len() % 2 == 0,
            i % 2 == 0,
            i <= digits@.len(),
            bytes@.len() == i / 2,
            forall|k: int| 0 <= k < text@.len() ==> hex_digit_value(#[trigger] text@[k]) is Some,
            forall|k: int| 0 <= k < bytes@.len() ==> bytes@[k] == hex_bytes(text@)[k],
        decreases digits@.len() - i,
    {
        let high = to_hex_digit(digits[i]);
        let low = to_hex_digit(digits[i + 1]);
        match (high, low) {
            (Some(h), Some(l)) => {
                bytes.push((h * 16 + l) as u8);
            },
            _ => {
                assert(false);
            },
        }
        i = i + 2;
    }
    assert(bytes@ =~= hex_bytes(text@));
    bytes
}

/// Reads bytes written in base sixteen.
pub fn hex(reader: &mut Reader) -> (r: Result<Hex, Error>)
    requires
        old(reader).wf(),
    ensures
        parses(
            *old(reader),
            *final(reader),
            r,
            hex_spec(old(reader).input(), old(reader).state.cursor as int),
        ),
        r is Ok ==> old(reader).state.cursor < final(reader).state.cursor,
{
    proof {
        reveal_strlit(";");
    }
    try_literal("hex", reader)?;
    literal(",", reader)?;
    let space0 = zero_or_more_spaces(reader)?;
    let start = reader.state.cursor;
    let digit = |c: &char| -> (b: bool)
        ensures
            b == (hex_digit_value(*c) is Some),
        { to_hex_digit(*c).is_some() };
    let encoded = reader.read_while(digit);
    proof {
        lemma_run_end_unique(
            reader.input(),
            start as int,
            reader.state.cursor as int,
            hex_digits(),
        );
    }
    if (reader.state.cursor - start) % 2 != 0 {
        return Err(Error::new(reader.state.pos, false, ParseError::HexDigit));
    }
    let value = decode_hex(encoded.as_str());
    let space1 = zero_or_more_spaces(reader)?;
    literal(";", reader)?;
    Ok(Hex { space0, value, encoded, space1 })
}

/// The forms that a body can take, in the order in which they are tried.
#[derive(Clone, Copy, Debug, PartialEq, Eq, Structural)]
pub enum BytesKind {
    MultilineString,
    OnelineString,
    Json,
    Xml,
    Base64,
    Hex,
    File,
}

impl Parser for BytesKind {
    type Output = Bytes;

    open spec fn spec_parse(&self, input: Input, at: int) -> Parsed<BytesView> {
        match *self {
            BytesKind::MultilineString => mapped(
                multiline_string_spec(input, at),
                |value: MultilineStringView| BytesView::MultilineString(value),
            ),
            BytesKind::OnelineString => mapped(
                backtick_template_spec(input, at),
                |value: TemplateView| BytesView::OnelineString(value),
            ),
            BytesKind::Json => mapped(
                json::parse_spec(input, at),
                |value: JsonValueView| BytesView::Json(value),
            ),
            BytesKind::Xml => mapped(
                xml::parse_spec(input, at),
                |value: Seq<char>| BytesView::Xml(value),
            ),
            BytesKind::Base64 => mapped(
                base64_spec(input, at),
                |value: Base64View| BytesView::Base64(value),
            ),
            BytesKind::Hex => mapped(hex_spec(input, at), |value: HexView| BytesView::Hex(value)),
            BytesKind::File => mapped(
                file_spec(input, at),
                |value: FileView| BytesView::File(value),
            ),
        }
    }

    fn parse(&self, reader: &mut Reader) -> (r: Result<Bytes, Error>) {
        match *self {
            BytesKind::MultilineString => Ok(Bytes::MultilineString(multiline_string(reader)?)),
            BytesKind::OnelineString => Ok(Bytes::OnelineString(backtick_template(reader)?)),
            BytesKind::Json => Ok(Bytes::Json(json::parse(reader)?)),
            BytesKind::Xml => Ok(Bytes::Xml(xml::parse(reader)?)),
            BytesKind::Base64 => Ok(Bytes::Base64(base64(reader)?)),
            BytesKind::Hex => Ok(Bytes::Hex(hex(reader)?)),
            BytesKind::File => Ok(Bytes::File(file(reader)?)),
        }
    }
}

/// The forms of a body in the order in which [`bytes`] tries them.
pub open spec fn kinds() -> Seq<BytesKind> {
    seq![
        BytesKind::MultilineString,
        BytesKind::OnelineString,
        BytesKind::Json,
        BytesKind::Xml,
        BytesKind::Base64,
        BytesKind::Hex,
        BytesKind::File,
    ]
}

/// What [`bytes`] does: it tries the forms of a body in their order. The
/// first that can be read, or that fails without a way back, decides.
pub open spec fn bytes_spec(input: Input, at: int) -> Parsed<BytesView> {
    choice_spec(kinds(), 0, input, at)
}

/// Reads the value of a body.
pub fn bytes(reader: &mut Reader) -> (r: Result<Bytes, Error>)
    requires
        old(reader).wf(),
    ensures
        parses(
            *old(reader),
            *final(reader),
            r,
            bytes_spec(old(reader).input(), old(reader).state.cursor as int),
        ),
{
    let alternatives = [
        BytesKind::MultilineString,
        BytesKind::OnelineString,
        BytesKind::Json,
        BytesKind::Xml,
        BytesKind::Base64,
        BytesKind::Hex,
        BytesKind::File,
    ];
    assert(alternatives@ =~= kinds());
    choice(alternatives.as_slice(), reader)
}

} // verus!
