use crate::ast::{
    lemma_list_view, lemma_object_view, JsonListElement, JsonListElementView, JsonObjectElement,
    JsonObjectElementView, JsonValue, JsonValueView, Pos, SourceInfo, Template, TemplateView,
};
use crate::parser::error::{Error, JsonErrorVariant, ParseError, ParseErrorView};
use crate::parser::expr;
use crate::parser::number::{digits, is_ascii_digit, is_digit};
use crate::parser::outcome::{or_else, parses, restored, Parsed};
use crate::parser::primitives::{
    boolean, boolean_spec, hex_digit, hex_digit_spec, lemma_starts_with_one, literal,
    literal_spec, try_literal, try_literal_spec, Blank,
};
use crate::parser::reader::{lemma_run_end_bounds, lemma_run_end_unique, Input, Reader};
use crate::parser::template::{templatize, templatize_spec, EncodedChar, EncodedString, EncodedStringView};
use vstd::prelude::*;

verus! {

/// Whether `code` is the number of a character: any number up to 10FFFF in
/// base sixteen that does not lie in the range kept for surrogates.
pub open spec fn is_scalar(code: u32) -> bool {
    code <= 0xD7FF || 0xE000 <= code <= 0x10FFFF
}

/// The character with the number `code`, by `char::from_u32` of the
/// standard library. The contract states what its documentation says: there
/// is such a character exactly where `code` is a scalar value, and its
/// number is `code`.
#[verifier::external_body]
pub(crate) fn char_from_u32(code: u32) -> (c: Option<char>)
    ensures
        c is Some <==> is_scalar(code),
        c matches Some(ch) ==> ch as u32 == code,
{
    char::from_u32(code)
}

/// The class of the blanks that JSON allows between its tokens.
pub open spec fn blanks() -> spec_fn(char) -> bool {
    |c: char| Blank::Whitespace.holds(c)
}

/// Reads the blanks at the cursor and returns them.
pub fn whitespace(reader: &mut Reader) -> (s: String)
    requires
        old(reader).wf(),
    ensures
        final(reader).wf(),
        final(reader).input() == old(reader).input(),
        old(reader).state.cursor <= final(reader).state.cursor,
        final(reader).state.cursor == old(reader).input().run_end(
            old(reader).state.cursor as int,
            blanks(),
        ),
        s@ == old(reader).input().slice(
            old(reader).state.cursor as int,
            final(reader).state.cursor as int,
        ),
{
    let blank = |c: &char| -> (b: bool)
        ensures
            b == Blank::Whitespace.holds(*c),
        { Blank::Whitespace.accepts(*c) };
    let s = reader.read_while(blank);
    proof {
        lemma_run_end_unique(
            old(reader).input(),
            old(reader).state.cursor as int,
            reader.state.cursor as int,
            blanks(),
        );
    }
    s
}

/// What [`null_value`] does: it reads `null`, or fails with the way left
/// open and nothing read.
pub open spec fn null_value_spec(input: Input, at: int) -> Parsed<JsonValueView> {
    match try_literal_spec(input, at, "null"@).result {
        Ok(_) => Parsed::done(JsonValueView::Null, at + "null"@.len()),
        Err(error) => Parsed::refused(error, at),
    }
}

/// Reads the JSON value `null`.
pub fn null_value(reader: &mut Reader) -> (r: Result<JsonValue, Error>)
    requires
        old(reader).wf(),
    ensures
        parses(
            *old(reader),
            *final(reader),
            r,
            null_value_spec(old(reader).input(), old(reader).state.cursor as int),
        ),
        r is Ok ==> old(reader).state.cursor < final(reader).state.cursor,
{
    proof {
        reveal_strlit("null");
    }
    try_literal("null", reader)?;
    Ok(JsonValue::Null)
}

/// What [`boolean_value`] does: what reading `true` or `false` does.
pub open spec fn boolean_value_spec(input: Input, at: int) -> Parsed<JsonValueView> {
    let inner = boolean_spec(input, at);
    match inner.result {
        Ok(value) => Parsed::done(JsonValueView::Boolean(value), inner.end),
        Err(error) => Parsed::refused(error, inner.end),
    }
}

/// Reads the JSON value `true` or `false`.
pub fn boolean_value(reader: &mut Reader) -> (r: Result<JsonValue, Error>)
    requires
        old(reader).wf(),
    ensures
        parses(
            *old(reader),
            *final(reader),
            r,
            boolean_value_spec(old(reader).input(), old(reader).state.cursor as int),
        ),
        r is Ok ==> old(reader).state.cursor < final(reader).state.cursor,
{
    proof {
        reveal_strlit("true");
        reveal_strlit("false");
    }
    let value = boolean(reader)?;
    Ok(JsonValue::Boolean(value))
}

/// Where the whole part of a JSON number that starts at `from` ends: after
/// a single zero, or after a run of digits.
pub open spec fn whole_end(input: Input, from: int) -> int {
    if input.at(from) == Some('0') {
        from + 1
    } else {
        input.run_end(from, digits())
    }
}

/// Where the exponent of a JSON number ends that may start at `from`: an
/// `e` of either case, a sign or none, and digits.
pub open spec fn exponent_end(input: Input, from: int) -> int {
    if input.at(from) == Some('e') || input.at(from) == Some('E') {
        let signed = input.at(from + 1) == Some('-') || input.at(from + 1) == Some('+');
        input.run_end(
            if signed {
                from + 2
            } else {
                from + 1
            },
            digits(),
        )
    } else {
        from
    }
}

/// What [`number_value`] does. A number is a minus sign or none, a zero or
/// a run of digits, a point with digits after it or none, and an exponent
/// or none; it is kept as its text. Where no digit stands at the start, the
/// failure leaves the way open; a point without digits after it is a
/// failure without a way back.
pub open spec fn number_value_spec(input: Input, at: int) -> Parsed<JsonValueView> {
    let from = if input.at(at) == Some('-') {
        at + 1
    } else {
        at
    };
    let whole = whole_end(input, from);
    let fraction = input.run_end(whole + 1, digits());
    if whole == from {
        Parsed::failed(
            input.pos_at(at),
            true,
            ParseErrorView::Expecting { value: "number"@ },
            from,
        )
    } else if input.at(whole) == Some('.') && fraction == whole + 1 {
        Parsed::failed(
            input.pos_at(fraction),
            false,
            ParseErrorView::Expecting { value: "digits"@ },
            fraction,
        )
    } else {
        let mantissa = if input.at(whole) == Some('.') {
            fraction
        } else {
            whole
        };
        let end = exponent_end(input, mantissa);
        Parsed::done(JsonValueView::Number(input.slice(at, end)), end)
    }
}

/// Reads the digits at the cursor.
fn skip_digits(reader: &mut Reader)
    requires
        old(reader).wf(),
    ensures
        final(reader).wf(),
        final(reader).input() == old(reader).input(),
        old(reader).state.cursor <= final(reader).state.cursor,
        final(reader).state.cursor == old(reader).input().run_end(
            old(reader).state.cursor as int,
            digits(),
        ),
{
    let digit = |c: &char| -> (b: bool)
        ensures
            b == is_digit(*c),
        { is_ascii_digit(*c) };
    let _ = reader.read_while(digit);
    proof {
        lemma_run_end_unique(
            old(reader).input(),
            old(reader).state.cursor as int,
            reader.state.cursor as int,
            digits(),
        );
    }
}

/// Reads a JSON number.
pub fn number_value(reader: &mut Reader) -> (r: Result<JsonValue, Error>)
    requires
        old(reader).wf(),
    ensures
        parses(
            *old(reader),
            *final(reader),
            r,
            number_value_spec(old(reader).input(), old(reader).state.cursor as int),
        ),
        r is Ok ==> old(reader).state.cursor < final(reader).state.cursor,
{
    let start = reader.state;
    if reader.peek() == Some('-') {
        reader.read();
    }
    let from = reader.state.cursor;
    if reader.peek() == Some('0') {
        reader.read();
    } else {
        skip_digits(reader);
        if reader.state.cursor == from {
            let inner = ParseError::Expecting { value: "number".to_owned() };
            return Err(Error::new(start.pos, true, inner));
        }
    }
    if reader.peek() == Some('.') {
        reader.read();
        let save = reader.state.cursor;
        skip_digits(reader);
        if reader.state.cursor == save {
            let inner = ParseError::Expecting { value: "digits".to_owned() };
            return Err(Error::new(reader.state.pos, false, inner));
        }
    }
    if reader.peek() == Some('e') || reader.peek() == Some('E') {
        reader.read();
        if reader.peek() == Some('-') || reader.peek() == Some('+') {
            reader.read();
        }
        skip_digits(reader);
    }
    Ok(JsonValue::Number(reader.peek_back(start.cursor)))
}

/// What [`expression_value`] does: what reading an expression between
/// braces does.
pub open spec fn expression_value_spec(input: Input, at: int) -> Parsed<JsonValueView> {
    let inner = expr::parse_spec(input, at);
    match inner.result {
        Ok(value) => Parsed::done(JsonValueView::Expression(value), inner.end),
        Err(error) => Parsed::refused(error, inner.end),
    }
}

/// Reads an expression that stands in the place of a JSON value.
pub fn expression_value(reader: &mut Reader) -> (r: Result<JsonValue, Error>)
    requires
        old(reader).wf(),
    ensures
        parses(
            *old(reader),
            *final(reader),
            r,
            expression_value_spec(old(reader).input(), old(reader).state.cursor as int),
        ),
        r is Ok ==> old(reader).state.cursor < final(reader).state.cursor,
{
    let exp = expr::parse(reader)?;
    Ok(JsonValue::Expression(exp))
}

/// The character that a backslash and `c` stand for, where `c` is one of
/// the short escapes.
pub open spec fn short_escape(c: char) -> Option<char> {
    if c == '"' {
        Some('"')
    } else if c == '\\' {
        Some('\\')
    } else if c == '/' {
        Some('/')
    } else if c == 'b' {
        Some('\u{8}')
    } else if c == 'n' {
        Some('\n')
    } else if c == 'f' {
        Some('\u{c}')
    } else if c == 'r' {
        Some('\r')
    } else if c == 't' {
        Some('\t')
    } else {
        None
    }
}

/// The character that a backslash and `c` stand for, where `c` is one of
/// the short escapes.
pub fn unescape(c: char) -> (r: Option<char>)
    ensures
        r == short_escape(c),
{
    if c == '"' {
        Some('"')
    } else if c == '\\' {
        Some('\\')
    } else if c == '/' {
        Some('/')
    } else if c == 'b' {
        Some('\u{8}')
    } else if c == 'n' {
        Some('\n')
    } else if c == 'f' {
        Some('\u{c}')
    } else if c == 'r' {
        Some('\r')
    } else if c == 't' {
        Some('\t')
    } else {
        None
    }
}

/// Reading `count` more digits of base sixteen from index `at` on, `value`
/// being the number that the digits before them stand for. A character
/// that is no such digit is a failure without a way back, reported where
/// it stands, after it has been read.
pub open spec fn hex_value_spec(input: Input, at: int, count: nat, value: nat) -> Parsed<nat>
    decreases count,
{
    if count == 0 {
        Parsed::done(value, at)
    } else {
        let digit = hex_digit_spec(input, at);
        match digit.result {
            Ok(d) => hex_value_spec(input, at + 1, (count - 1) as nat, value * 16 + d as nat),
            Err(error) => Parsed::failed(error.pos, false, error.inner, digit.end),
        }
    }
}

/// Digits of base sixteen that cannot be read fail without a way back.
pub proof fn lemma_hex_value_fails_for_good(input: Input, at: int, count: nat, value: nat)
    ensures
        hex_value_spec(input, at, count, value).result matches Err(error) ==> !error.recoverable,
    decreases count,
{
    if count > 0 {
        match hex_digit_spec(input, at).result {
            Ok(d) => {
                lemma_hex_value_fails_for_good(
                    input,
                    at + 1,
                    (count - 1) as nat,
                    value * 16 + d as nat,
                );
            },
            Err(_) => {},
        }
    }
}

/// Reads the four digits of a `\u` escape and returns their number.
pub fn hex_value(reader: &mut Reader) -> (r: Result<u32, Error>)
    requires
        old(reader).wf(),
    ensures
        final(reader).wf(),
        final(reader).input() == old(reader).input(),
        old(reader).state.cursor <= final(reader).state.cursor,
        ({
            let expected = hex_value_spec(
                old(reader).input(),
                old(reader).state.cursor as int,
                4,
                0,
            );
            &&& final(reader).state.cursor == expected.end
            &&& match r {
                Ok(v) => expected.result == Ok::<nat, crate::parser::error::ErrorView>(v as nat),
                Err(e) => expected.result == Err::<nat, crate::parser::error::ErrorView>(
                    e.deep_view(),
                ),
            }
        }),
{
    let mut value: u32 = 0;
    let mut i: usize = 0;
    while i < 4
        invariant
            i <= 4,
            reader.wf(),
            reader.input() == old(reader).input(),
            reader.state.cursor == old(reader).state.cursor + i,
            value < 0x10000,
            i < 4 ==> value < 0x1000,
            i < 3 ==> value < 0x100,
            i < 2 ==> value < 0x10,
            i < 1 ==> value == 0,
            hex_value_spec(old(reader).input(), old(reader).state.cursor as int, 4, 0)
                == hex_value_spec(
                reader.input(),
                reader.state.cursor as int,
                (4 - i) as nat,
                value as nat,
            ),
        decreases 4 - i,
    {
        match hex_digit(reader) {
            Ok(d) => {
                value = value * 16 + d;
            },
            Err(e) => {
                return Err(Error::new(e.pos, false, e.inner));
            },
        }
        i = i + 1;
    }
    Ok(value)
}

/// What follows a backslash at index `at - 1`: a short escape, or `u` and
/// four digits of base sixteen that give the number of a character. Any
/// other character is a failure without a way back, as is a number that no
/// character has.
pub open spec fn escape_spec(input: Input, at: int) -> Parsed<char> {
    match input.at(at) {
        None => Parsed::failed(input.pos_at(at), false, ParseErrorView::EscapeChar, at),
        Some(c) => if c == 'u' {
            let code = hex_value_spec(input, at + 1, 4, 0);
            match code.result {
                Err(error) => Parsed::refused(error, code.end),
                Ok(n) => if n <= u32::MAX && is_scalar(n as u32) {
                    Parsed::done((n as u32) as char, code.end)
                } else {
                    Parsed::failed(
                        input.pos_at(code.end),
                        false,
                        ParseErrorView::Unicode,
                        code.end,
                    )
                },
            }
        } else {
            match short_escape(c) {
                Some(value) => Parsed::done(value, at + 1),
                None => Parsed::failed(
                    input.pos_at(at),
                    false,
                    ParseErrorView::EscapeChar,
                    at + 1,
                ),
            }
        },
    }
}

/// Reads what follows a backslash.
fn escape(reader: &mut Reader) -> (r: Result<char, Error>)
    requires
        old(reader).wf(),
    ensures
        parses(
            *old(reader),
            *final(reader),
            r,
            escape_spec(old(reader).input(), old(reader).state.cursor as int),
        ),
{
    let start = reader.state;
    match reader.read() {
        None => Err(Error::new(start.pos, false, ParseError::EscapeChar)),
        Some(c) => {
            if c == 'u' {
                let code = hex_value(reader)?;
                match char_from_u32(code) {
                    Some(value) => {
                        proof {
                            vstd::utf8::char_u32_cast(value, code);
                        }
                        Ok(value)
                    },
                    None => Err(Error::new(reader.state.pos, false, ParseError::Unicode)),
                }
            } else {
                match unescape(c) {
                    Some(value) => Ok(value),
                    None => Err(Error::new(start.pos, false, ParseError::EscapeChar)),
                }
            }
        },
    }
}

/// Whether `c` may not stand in a JSON string as it is.
pub open spec fn needs_escape(c: char) -> bool {
    c == '\\' || c == '\u{8}' || c == '\n' || c == '\u{c}' || c == '\r' || c == '\t'
}

/// What [`any_char`] does: it reads one character of a string, which is
/// an escape after a backslash, or any character that needs none. At the
/// end of the input, and on a character that needs an escape and has none,
/// the failure leaves the way open.
pub open spec fn any_char_spec(input: Input, at: int) -> Parsed<EncodedChar> {
    let expecting = ParseErrorView::Expecting { value: "char"@ };
    match input.at(at) {
        None => Parsed::failed(input.pos_at(at), true, expecting, at),
        Some(c) => if c == '\\' {
            let escaped = escape_spec(input, at + 1);
            match escaped.result {
                Ok(value) => Parsed::done(
                    (value, input.slice(at, escaped.end), input.pos_at(at)),
                    escaped.end,
                ),
                Err(error) => Parsed::refused(error, escaped.end),
            }
        } else if needs_escape(c) {
            Parsed::failed(input.pos_at(at), true, expecting, at + 1)
        } else {
            Parsed::done((c, seq![c], input.pos_at(at)), at + 1)
        },
    }
}

/// Reads one character of a JSON string: what it means, how it was
/// written, and where it stood.
pub fn any_char(reader: &mut Reader) -> (r: Result<(char, String, Pos), Error>)
    requires
        old(reader).wf(),
    ensures
        parses(
            *old(reader),
            *final(reader),
            r,
            any_char_spec(old(reader).input(), old(reader).state.cursor as int),
        ),
        r is Ok ==> old(reader).state.cursor < final(reader).state.cursor,
{
    let start = reader.state;
    match reader.read() {
        None => Err(
            Error::new(start.pos, true, ParseError::Expecting { value: "char".to_owned() }),
        ),
        Some(c) => {
            if c == '\\' {
                let value = escape(reader)?;
                Ok((value, reader.peek_back(start.cursor), start.pos))
            } else if c == '\u{8}' || c == '\n' || c == '\u{c}' || c == '\r' || c == '\t' {
                Err(
                    Error::new(
                        start.pos,
                        true,
                        ParseError::Expecting { value: "char".to_owned() },
                    ),
                )
            } else {
                let encoded = reader.peek_back(start.cursor);
                assert(encoded@ =~= seq![c]);
                Ok((c, encoded, start.pos))
            }
        },
    }
}

/// The text of a double quote.
pub open spec fn quote() -> Seq<char> {
    seq!['"']
}

/// The characters of a string from index `at` on, after those in `found`,
/// up to the next double quote or the end of the input.
pub open spec fn string_chars_spec(input: Input, at: int, found: Seq<EncodedChar>) -> Parsed<
    Seq<EncodedChar>,
>
    decreases input.text.len() - at,
{
    if at >= input.text.len() || input.at(at) == Some('"') {
        Parsed::done(found, at)
    } else {
        let next = any_char_spec(input, at);
        match next.result {
            Err(error) => Parsed::refused(error, next.end),
            Ok(c) => if at < next.end <= input.text.len() {
                string_chars_spec(input, next.end, found.push(c))
            } else {
                Parsed::done(found.push(c), next.end)
            },
        }
    }
}

/// What [`string_template`] does: it reads a double quote, failing with
/// the way left open where there is none; the characters up to the next
/// double quote, which must be there; and splits them into the pieces of a
/// template. The span of the template is that of the characters between
/// the quotes.
pub open spec fn string_template_spec(input: Input, at: int) -> Parsed<TemplateView> {
    let chars = string_chars_spec(input, at + 1, Seq::empty());
    let close = literal_spec(input, chars.end, quote());
    let source_info = input.span(at + 1, chars.end);
    match (try_literal_spec(input, at, quote()).result, chars.result, close.result) {
        (Err(error), _, _) => Parsed::refused(error, at),
        (Ok(_), Err(error), _) => Parsed::refused(error, chars.end),
        (Ok(_), Ok(_), Err(error)) => Parsed::refused(error, close.end),
        (Ok(_), Ok(found), Ok(_)) => match templatize_spec(
            EncodedStringView { source_info, chars: found },
        ) {
            Err(error) => Parsed::refused(error, close.end),
            Ok(elements) => Parsed::done(
                TemplateView { delimiter: Some('"'), elements, source_info },
                close.end,
            ),
        },
    }
}

/// Reads a JSON string as a template.
pub fn string_template(reader: &mut Reader) -> (r: Result<Template, Error>)
    requires
        old(reader).wf(),
    ensures
        parses(
            *old(reader),
            *final(reader),
            r,
            string_template_spec(old(reader).input(), old(reader).state.cursor as int),
        ),
        r is Ok ==> old(reader).state.cursor < final(reader).state.cursor,
{
    proof {
        reveal_strlit("\"");
        assert("\""@ =~= quote());
    }
    try_literal("\"", reader)?;
    let delimiter = Some('"');
    let mut chars: Vec<(char, String, Pos)> = Vec::new();
    let start = reader.state.pos;
    let ghost from = reader.state.cursor as int;
    assert(chars.deep_view() =~= Seq::empty());
    loop
        invariant
            reader.wf(),
            reader.input() == old(reader).input(),
            from <= reader.state.cursor,
            from == old(reader).state.cursor + 1,
            old(reader).input().starts_with(old(reader).state.cursor as int, quote()),
            string_chars_spec(reader.input(), from, Seq::empty()) == string_chars_spec(
                reader.input(),
                reader.state.cursor as int,
                chars.deep_view(),
            ),
        ensures
            reader.wf(),
            reader.input() == old(reader).input(),
            from <= reader.state.cursor,
            string_chars_spec(reader.input(), from, Seq::empty()) == Parsed::done(
                chars.deep_view(),
                reader.state.cursor as int,
            ),
        decreases reader.buffer@.len() - reader.state.cursor,
    {
        if reader.peek() == Some('"') || reader.is_eof() {
            break ;
        }
        let c = any_char(reader)?;
        let ghost before = chars.deep_view();
        chars.push(c);
        assert(chars.deep_view() =~= before.push(c.deep_view()));
    }
    let end = reader.state.pos;
    let encoded_string = EncodedString { source_info: SourceInfo { start, end }, chars };
    literal("\"", reader)?;
    let elements = templatize(encoded_string)?;
    Ok(Template { delimiter, elements, source_info: SourceInfo { start, end } })
}

/// What [`string_value`] does: what reading a string as a template does.
pub open spec fn string_value_spec(input: Input, at: int) -> Parsed<JsonValueView> {
    let inner = string_template_spec(input, at);
    match inner.result {
        Ok(value) => Parsed::done(JsonValueView::String(value), inner.end),
        Err(error) => Parsed::refused(error, inner.end),
    }
}

/// Reads a JSON string.
pub fn string_value(reader: &mut Reader) -> (r: Result<JsonValue, Error>)
    requires
        old(reader).wf(),
    ensures
        parses(
            *old(reader),
            *final(reader),
            r,
            string_value_spec(old(reader).input(), old(reader).state.cursor as int),
        ),
        r is Ok ==> old(reader).state.cursor < final(reader).state.cursor,
{
    let template = string_template(reader)?;
    Ok(JsonValue::String(template))
}

/// The text of an opening square bracket.
pub open spec fn list_open() -> Seq<char> {
    seq!['[']
}

/// The text of an opening brace.
pub open spec fn object_open() -> Seq<char> {
    seq!['{']
}

/// The text of a comma.
pub open spec fn comma() -> Seq<char> {
    seq![',']
}

/// The text of a colon.
pub open spec fn colon() -> Seq<char> {
    seq![':']
}

/// The text of a closing square bracket.
pub open spec fn list_close() -> Seq<char> {
    seq![']']
}

/// The text of a closing brace.
pub open spec fn object_close() -> Seq<char> {
    seq!['}']
}

/// What [`parse`] does: it tries, in this order, `null`, a boolean, a
/// string, a number, an expression, a list and an object. The first that
/// succeeds, or that fails without a way back, decides. Where none does,
/// the failure is that of the object, and nothing is read.
pub open spec fn parse_spec(input: Input, at: int) -> Parsed<JsonValueView>
    decreases input.text.len() - at, 3int,
{
    or_else(
        null_value_spec(input, at),
        or_else(
            boolean_value_spec(input, at),
            or_else(
                string_value_spec(input, at),
                or_else(
                    number_value_spec(input, at),
                    or_else(
                        expression_value_spec(input, at),
                        or_else(
                            list_value_spec(input, at),
                            restored(object_value_spec(input, at), at),
                        ),
                    ),
                ),
            ),
        ),
    )
}

/// What reading a value does in a place where only a value can stand: a
/// comma there is a failure of its own kind, and every failure is one
/// without a way back.
pub open spec fn parse_in_json_spec(input: Input, at: int) -> Parsed<JsonValueView>
    decreases input.text.len() - at, 4int,
{
    let value = parse_spec(input, at);
    if input.at(at) == Some(',') {
        Parsed::failed(
            input.pos_at(at),
            false,
            ParseErrorView::JsonError(JsonErrorVariant::EmptyElement),
            at,
        )
    } else {
        match value.result {
            Ok(_) => value,
            Err(error) => if error.recoverable {
                Parsed::failed(
                    error.pos,
                    false,
                    ParseErrorView::JsonError(JsonErrorVariant::ExpectingElement),
                    value.end,
                )
            } else {
                value
            },
        }
    }
}

/// What reading one element of a list does: blanks, a value, blanks.
pub open spec fn list_element_spec(input: Input, at: int) -> Parsed<JsonListElementView>
    decreases input.text.len() - at, 5int,
    via list_element_ends
{
    let from = input.run_end(at, blanks());
    let value = parse_in_json_spec(input, from);
    let end = input.run_end(value.end, blanks());
    match value.result {
        Err(error) => Parsed::refused(error, value.end),
        Ok(inner) => Parsed::done(
            JsonListElementView {
                space0: input.slice(at, from),
                value: inner,
                space1: input.slice(value.end, end),
            },
            end,
        ),
    }
}

#[via_fn]
proof fn list_element_ends(input: Input, at: int) {
    if 0 <= at <= input.text.len() {
        lemma_run_end_bounds(input, at, blanks());
    }
}

/// What reading a list does from index `at` on, after its first element:
/// `found` holds the elements so far. The list ends with a closing
/// bracket; before that, a comma and an element must follow. A comma with
/// only blanks between it and the closing bracket is a failure of its own
/// kind, reported at the comma. (An element always ends after the comma
/// before it; the test for that only serves to show that the definition
/// ends.)
pub open spec fn list_rest_spec(
    input: Input,
    at: int,
    space0: Seq<char>,
    found: Seq<JsonListElementView>,
) -> Parsed<JsonValueView>
    decreases input.text.len() - at, 6int,
{
    let separator = literal_spec(input, at, comma());
    if input.at(at) == Some(']') {
        Parsed::done(JsonValueView::List { space0, elements: found }, at + 1)
    } else if separator.result is Err {
        Parsed::refused(separator.result->Err_0, separator.end)
    } else if input.at(input.run_end(at + 1, blanks())) == Some(']') {
        Parsed::failed(
            input.pos_at(at),
            false,
            ParseErrorView::JsonError(JsonErrorVariant::TrailingComma),
            at + 1,
        )
    } else if at < input.text.len() {
        let element = list_element_spec(input, at + 1);
        match element.result {
            Err(error) => Parsed::refused(error, element.end),
            Ok(value) => if at < element.end <= input.text.len() {
                list_rest_spec(input, element.end, space0, found.push(value))
            } else {
                Parsed::done(
                    JsonValueView::List { space0, elements: found.push(value) },
                    element.end,
                )
            },
        }
    } else {
        Parsed::refused(separator.result->Err_0, separator.end)
    }
}

/// What [`list_value`] does: it reads an opening bracket, failing with the
/// way left open where there is none, then blanks, then a closing bracket
/// or elements with commas between them and a closing bracket.
pub open spec fn list_value_spec(input: Input, at: int) -> Parsed<JsonValueView>
    decreases input.text.len() - at, 2int,
    via list_value_ends
{
    let open = try_literal_spec(input, at, list_open());
    let from = input.run_end(at + 1, blanks());
    let space0 = input.slice(at + 1, from);
    if open.result is Err {
        Parsed::refused(open.result->Err_0, at)
    } else if input.at(from) == Some(']') {
        Parsed::done(JsonValueView::List { space0, elements: Seq::empty() }, from + 1)
    } else {
        let first = list_element_spec(input, from);
        match first.result {
            Err(error) => Parsed::refused(error, first.end),
            Ok(value) => if at < first.end <= input.text.len() {
                list_rest_spec(input, first.end, space0, seq![value])
            } else {
                Parsed::done(JsonValueView::List { space0, elements: seq![value] }, first.end)
            },
        }
    }
}

#[via_fn]
proof fn list_value_ends(input: Input, at: int) {
    if input.starts_with(at, list_open()) {
        lemma_run_end_bounds(input, at + 1, blanks());
    }
}

/// What reading the name of a member does: a string, every failure being
/// one without a way back, and the empty string a failure of its own kind.
pub open spec fn key_spec(input: Input, at: int) -> Parsed<TemplateView> {
    let name = string_template_spec(input, at);
    match name.result {
        Err(error) => Parsed::failed(error.pos, false, error.inner, name.end),
        Ok(template) => if template.elements.len() == 0 {
            Parsed::failed(
                input.pos_at(at),
                false,
                ParseErrorView::JsonError(JsonErrorVariant::EmptyElement),
                name.end,
            )
        } else {
            name
        },
    }
}

/// What reading one member of an object does: blanks, a name, blanks, a
/// colon, blanks, a value, blanks. Where a closing brace or the end of the
/// input follows the colon, the failure is of its own kind, reported after
/// the colon.
pub open spec fn object_element_spec(input: Input, at: int) -> Parsed<JsonObjectElementView>
    decreases input.text.len() - at, 5int,
    via object_element_ends
{
    let from = input.run_end(at, blanks());
    let name = key_spec(input, from);
    let before_colon = input.run_end(name.end, blanks());
    let separator = literal_spec(input, before_colon, colon());
    let after_colon = input.run_end(before_colon + 1, blanks());
    if name.result is Err {
        Parsed::refused(name.result->Err_0, name.end)
    } else if separator.result is Err {
        Parsed::refused(separator.result->Err_0, separator.end)
    } else if input.at(after_colon) == Some('}') || input.at(after_colon) is None {
        Parsed::failed(
            input.pos_at(before_colon + 1),
            false,
            ParseErrorView::JsonError(JsonErrorVariant::EmptyElement),
            after_colon,
        )
    } else if at <= after_colon {
        let value = parse_in_json_spec(input, after_colon);
        let end = input.run_end(value.end, blanks());
        match value.result {
            Err(error) => Parsed::refused(error, value.end),
            Ok(inner) => Parsed::done(
                JsonObjectElementView {
                    space0: input.slice(at, from),
                    name: name.result->Ok_0,
                    space1: input.slice(name.end, before_colon),
                    space2: input.slice(before_colon + 1, after_colon),
                    value: inner,
                    space3: input.slice(value.end, end),
                },
                end,
            ),
        }
    } else {
        Parsed::refused(separator.result->Err_0, separator.end)
    }
}

#[via_fn]
proof fn object_element_ends(input: Input, at: int) {
}

/// What reading an object does from index `at` on, after its first member:
/// `found` holds the members so far. The rules are those of a list, with a
/// closing brace in place of the bracket.
pub open spec fn object_rest_spec(
    input: Input,
    at: int,
    space0: Seq<char>,
    found: Seq<JsonObjectElementView>,
) -> Parsed<JsonValueView>
    decreases input.text.len() - at, 6int,
{
    let separator = literal_spec(input, at, comma());
    if input.at(at) == Some('}') {
        Parsed::done(JsonValueView::Object { space0, elements: found }, at + 1)
    } else if separator.result is Err {
        Parsed::refused(separator.result->Err_0, separator.end)
    } else if input.at(input.run_end(at + 1, blanks())) == Some('}') {
        Parsed::failed(
            input.pos_at(at),
            false,
            ParseErrorView::JsonError(JsonErrorVariant::TrailingComma),
            at + 1,
        )
    } else if at < input.text.len() {
        let element = object_element_spec(input, at + 1);
        match element.result {
            Err(error) => Parsed::refused(error, element.end),
            Ok(value) => if at < element.end <= input.text.len() {
                object_rest_spec(input, element.end, space0, found.push(value))
            } else {
                Parsed::done(
                    JsonValueView::Object { space0, elements: found.push(value) },
                    element.end,
                )
            },
        }
    } else {
        Parsed::refused(separator.result->Err_0, separator.end)
    }
}

/// What [`object_value`] does: it reads an opening brace, failing with the
/// way left open where there is none, then blanks, then a closing brace or
/// members with commas between them and a closing brace.
pub open spec fn object_value_spec(input: Input, at: int) -> Parsed<JsonValueView>
    decreases input.text.len() - at, 2int,
    via object_value_ends
{
    let open = try_literal_spec(input, at, object_open());
    let from = input.run_end(at + 1, blanks());
    let space0 = input.slice(at + 1, from);
    if open.result is Err {
        Parsed::refused(open.result->Err_0, at)
    } else if input.at(from) == Some('}') {
        Parsed::done(JsonValueView::Object { space0, elements: Seq::empty() }, from + 1)
    } else {
        let first = object_element_spec(input, from);
        match first.result {
            Err(error) => Parsed::refused(error, first.end),
            Ok(value) => if at < first.end <= input.text.len() {
                object_rest_spec(input, first.end, space0, seq![value])
            } else {
                Parsed::done(JsonValueView::Object { space0, elements: seq![value] }, first.end)
            },
        }
    }
}

#[via_fn]
proof fn object_value_ends(input: Input, at: int) {
    if input.starts_with(at, object_open()) {
        lemma_run_end_bounds(input, at + 1, blanks());
    }
}

/// The first character at or after the cursor that is no blank, which
/// stays unread, as do the blanks.
fn peek_past_blanks(reader: &mut Reader) -> (next: Option<char>)
    requires
        old(reader).wf(),
    ensures
        final(reader).wf(),
        final(reader).input() == old(reader).input(),
        final(reader).state == old(reader).state,
        next == old(reader).input().at(
            old(reader).input().run_end(old(reader).state.cursor as int, blanks()),
        ),
{
    let save = reader.state;
    let _ = whitespace(reader);
    let next = reader.peek();
    reader.state = save;
    next
}

/// Reads a JSON value.
pub fn parse(reader: &mut Reader) -> (r: Result<JsonValue, Error>)
    requires
        old(reader).wf(),
    ensures
        parses(
            *old(reader),
            *final(reader),
            r,
            parse_spec(old(reader).input(), old(reader).state.cursor as int),
        ),
        r is Ok ==> old(reader).state.cursor < final(reader).state.cursor,
    decreases old(reader).buffer@.len() - old(reader).state.cursor, 3int,
{
    let start = reader.state;
    match null_value(reader) {
        Ok(value) => {
            return Ok(value);
        },
        Err(error) => if !error.recoverable {
            return Err(error);
        },
    }
    reader.state = start;
    match boolean_value(reader) {
        Ok(value) => {
            return Ok(value);
        },
        Err(error) => if !error.recoverable {
            return Err(error);
        },
    }
    reader.state = start;
    match string_value(reader) {
        Ok(value) => {
            return Ok(value);
        },
        Err(error) => if !error.recoverable {
            return Err(error);
        },
    }
    reader.state = start;
    match number_value(reader) {
        Ok(value) => {
            return Ok(value);
        },
        Err(error) => if !error.recoverable {
            return Err(error);
        },
    }
    reader.state = start;
    match expression_value(reader) {
        Ok(value) => {
            return Ok(value);
        },
        Err(error) => if !error.recoverable {
            return Err(error);
        },
    }
    reader.state = start;
    match list_value(reader) {
        Ok(value) => {
            return Ok(value);
        },
        Err(error) => if !error.recoverable {
            return Err(error);
        },
    }
    reader.state = start;
    match object_value(reader) {
        Ok(value) => Ok(value),
        Err(error) => {
            if error.recoverable {
                reader.state = start;
            }
            Err(error)
        },
    }
}

/// Reads a value in a place where only a value can stand.
fn parse_in_json(reader: &mut Reader) -> (r: Result<JsonValue, Error>)
    requires
        old(reader).wf(),
    ensures
        parses(
            *old(reader),
            *final(reader),
            r,
            parse_in_json_spec(old(reader).input(), old(reader).state.cursor as int),
        ),
        r is Ok ==> old(reader).state.cursor < final(reader).state.cursor,
    decreases old(reader).buffer@.len() - old(reader).state.cursor, 4int,
{
    if let Some(c) = reader.peek() {
        if c == ',' {
            let inner = ParseError::JsonError(JsonErrorVariant::EmptyElement);
            return Err(Error::new(reader.state.pos, false, inner));
        }
    }
    match parse(reader) {
        Ok(value) => Ok(value),
        // Here a value was expected and nothing else can stand: the failure
        // that would let another alternative try becomes final.
        Err(error) => {
            if error.recoverable {
                let inner = ParseError::JsonError(JsonErrorVariant::ExpectingElement);
                Err(Error::new(error.pos, false, inner))
            } else {
                Err(error)
            }
        },
    }
}

/// Reads one element of a list.
fn list_element(reader: &mut Reader) -> (r: Result<JsonListElement, Error>)
    requires
        old(reader).wf(),
    ensures
        parses(
            *old(reader),
            *final(reader),
            r,
            list_element_spec(old(reader).input(), old(reader).state.cursor as int),
        ),
    decreases old(reader).buffer@.len() - old(reader).state.cursor, 5int,
{
    let space0 = whitespace(reader);
    let value = parse_in_json(reader)?;
    let space1 = whitespace(reader);
    Ok(JsonListElement { space0, value, space1 })
}

/// Reads a JSON list.
#[verifier::rlimit(50)]
pub fn list_value(reader: &mut Reader) -> (r: Result<JsonValue, Error>)
    requires
        old(reader).wf(),
    ensures
        parses(
            *old(reader),
            *final(reader),
            r,
            list_value_spec(old(reader).input(), old(reader).state.cursor as int),
        ),
        r is Ok ==> old(reader).state.cursor < final(reader).state.cursor,
    decreases old(reader).buffer@.len() - old(reader).state.cursor, 2int,
{
    proof {
        reveal_strlit("[");
        reveal_strlit("]");
        reveal_strlit(",");
        assert("["@ =~= list_open());
        assert("]"@ =~= list_close());
        assert(","@ =~= comma());
    }
    try_literal("[", reader)?;
    let space0 = whitespace(reader);
    let mut elements: Vec<JsonListElement> = Vec::new();
    let ghost input = reader.input();
    let ghost at = old(reader).state.cursor as int;

    // at least one element
    if reader.peek() != Some(']') {
        let first_element = list_element(reader)?;
        elements.push(first_element);
        assert(elements.deep_view() =~= seq![first_element.deep_view()]);
        loop
            invariant
                reader.wf(),
                reader.input() == input,
                input == old(reader).input(),
                at == old(reader).state.cursor,
                at < reader.state.cursor,
                ","@ == comma(),
                list_value_spec(input, at) == list_rest_spec(
                    input,
                    reader.state.cursor as int,
                    space0@,
                    elements.deep_view(),
                ),
            ensures
                reader.wf(),
                reader.input() == input,
                at < reader.state.cursor,
                reader.input().at(reader.state.cursor as int) == Some(']'),
                list_value_spec(input, at) == list_rest_spec(
                    input,
                    reader.state.cursor as int,
                    space0@,
                    elements.deep_view(),
                ),
            decreases reader.buffer@.len() - reader.state.cursor,
        {
            if reader.peek() == Some(']') {
                break ;
            }
            // The reader moves on with the comma: this keeps where it stood,
            // to report a comma that nothing follows.

            let save = reader.state.pos;
            literal(",", reader)?;
            if peek_past_blanks(reader) == Some(']') {
                let inner = ParseError::JsonError(JsonErrorVariant::TrailingComma);
                return Err(Error::new(save, false, inner));
            }
            let element = list_element(reader)?;
            let ghost before = elements.deep_view();
            elements.push(element);
            assert(elements.deep_view() =~= before.push(element.deep_view()));
        }
    }
    proof {
        lemma_starts_with_one(reader.input(), reader.state.cursor as int, ']');
        lemma_list_view(space0, elements);
        if elements@.len() == 0 {
            assert(elements.deep_view() =~= Seq::empty());
        }
    }
    literal("]", reader)?;
    Ok(JsonValue::List { space0, elements })
}

/// Reads the name of a member of an object.
fn key(reader: &mut Reader) -> (r: Result<Template, Error>)
    requires
        old(reader).wf(),
    ensures
        parses(
            *old(reader),
            *final(reader),
            r,
            key_spec(old(reader).input(), old(reader).state.cursor as int),
        ),
        r is Ok ==> old(reader).state.cursor < final(reader).state.cursor,
{
    let save = reader.state;
    let name = match string_template(reader) {
        Ok(name) => name,
        Err(error) => {
            return Err(error.non_recoverable());
        },
    };
    if name.elements.len() == 0 {
        let inner = ParseError::JsonError(JsonErrorVariant::EmptyElement);
        Err(Error::new(save.pos, false, inner))
    } else {
        Ok(name)
    }
}

/// Reads one member of an object.
#[verifier::rlimit(50)]
fn object_element(reader: &mut Reader) -> (r: Result<JsonObjectElement, Error>)
    requires
        old(reader).wf(),
    ensures
        parses(
            *old(reader),
            *final(reader),
            r,
            object_element_spec(old(reader).input(), old(reader).state.cursor as int),
        ),
    decreases old(reader).buffer@.len() - old(reader).state.cursor, 5int,
{
    proof {
        reveal_strlit(":");
        assert(":"@ =~= colon());
    }
    let space0 = whitespace(reader);
    let name = key(reader)?;
    let space1 = whitespace(reader);
    literal(":", reader)?;
    let save = reader.state;
    let space2 = whitespace(reader);
    // A member without a value is common enough to be reported as such.
    let next_char = reader.peek();
    if next_char == Some('}') || next_char.is_none() {
        let inner = ParseError::JsonError(JsonErrorVariant::EmptyElement);
        return Err(Error::new(save.pos, false, inner));
    }
    let value = parse_in_json(reader)?;
    let space3 = whitespace(reader);
    Ok(JsonObjectElement { space0, name, space1, space2, value, space3 })
}

/// Reads a JSON object.
#[verifier::rlimit(50)]
pub fn object_value(reader: &mut Reader) -> (r: Result<JsonValue, Error>)
    requires
        old(reader).wf(),
    ensures
        parses(
            *old(reader),
            *final(reader),
            r,
            object_value_spec(old(reader).input(), old(reader).state.cursor as int),
        ),
        r is Ok ==> old(reader).state.cursor < final(reader).state.cursor,
    decreases old(reader).buffer@.len() - old(reader).state.cursor, 2int,
{
    proof {
        reveal_strlit("{");
        reveal_strlit("}");
        reveal_strlit(",");
        assert("{"@ =~= object_open());
        assert("}"@ =~= object_close());
        assert(","@ =~= comma());
    }
    try_literal("{", reader)?;
    let space0 = whitespace(reader);
    let mut elements: Vec<JsonObjectElement> = Vec::new();
    let ghost input = reader.input();
    let ghost at = old(reader).state.cursor as int;
    if reader.peek() != Some('}') {
        let first_element = object_element(reader)?;
        elements.push(first_element);
        assert(elements.deep_view() =~= seq![first_element.deep_view()]);
        loop
            invariant
                reader.wf(),
                reader.input() == input,
                input == old(reader).input(),
                at == old(reader).state.cursor,
                at < reader.state.cursor,
                ","@ == comma(),
                object_value_spec(input, at) == object_rest_spec(
                    input,
                    reader.state.cursor as int,
                    space0@,
                    elements.deep_view(),
                ),
            ensures
                reader.wf(),
                reader.input() == input,
                at < reader.state.cursor,
                reader.input().at(reader.state.cursor as int) == Some('}'),
                object_value_spec(input, at) == object_rest_spec(
                    input,
                    reader.state.cursor as int,
                    space0@,
                    elements.deep_view(),
                ),
            decreases reader.buffer@.len() - reader.state.cursor,
        {
            if reader.peek() == Some('}') {
                break ;
            }
            let save = reader.state.pos;
            literal(",", reader)?;
            if peek_past_blanks(reader) == Some('}') {
                let inner = ParseError::JsonError(JsonErrorVariant::TrailingComma);
                return Err(Error::new(save, false, inner));
            }
            let element = object_element(reader)?;
            let ghost before = elements.deep_view();
            elements.push(element);
            assert(elements.deep_view() =~= before.push(element.deep_view()));
        }
    }
    proof {
        lemma_starts_with_one(reader.input(), reader.state.cursor as int, '}');
        lemma_object_view(space0, elements);
        if elements@.len() == 0 {
            assert(elements.deep_view() =~= Seq::empty());
        }
    }
    literal("}", reader)?;
    Ok(JsonValue::Object { space0, elements })
}

/// Digits of base sixteen that were read are as many characters as were
/// asked for.
pub proof fn lemma_hex_value_end(input: Input, at: int, count: nat, value: nat)
    requires
        0 <= at,
        hex_value_spec(input, at, count, value).result is Ok,
    ensures
        hex_value_spec(input, at, count, value).end == at + count,
        at + count <= input.text.len() || count == 0,
    decreases count,
{
    if count > 0 {
        match hex_digit_spec(input, at).result {
            Ok(d) => {
                lemma_hex_value_end(input, at + 1, (count - 1) as nat, value * 16 + d as nat);
            },
            Err(_) => {},
        }
    }
}

/// A character of a string that was read is written as the input from
/// where reading started to where it stopped, which is at least one
/// character.
pub proof fn lemma_any_char_written(input: Input, at: int)
    requires
        0 <= at,
        any_char_spec(input, at).result is Ok,
    ensures
        any_char_spec(input, at).result->Ok_0.1 == input.slice(at, any_char_spec(input, at).end),
        at < any_char_spec(input, at).end <= input.text.len(),
{
    if input.at(at) == Some('\\') {
        if input.at(at + 1) == Some('u') {
            lemma_hex_value_end(input, at + 2, 4, 0);
        }
    } else {
        assert(input.slice(at, at + 1) =~= seq![input.text[at]]);
    }
}

/// The characters of a string that were read from index `at` on are
/// written as the input from there to where reading stopped.
pub proof fn lemma_string_chars_written(input: Input, at: int, found: Seq<EncodedChar>)
    requires
        0 <= at <= input.text.len(),
        string_chars_spec(input, at, found).result is Ok,
    ensures
        crate::parser::template::written(string_chars_spec(input, at, found).result->Ok_0)
            == crate::parser::template::written(found) + input.slice(
            at,
            string_chars_spec(input, at, found).end,
        ),
        at <= string_chars_spec(input, at, found).end <= input.text.len(),
    decreases input.text.len() - at,
{
    let before = crate::parser::template::written(found);
    if at >= input.text.len() || input.at(at) == Some('"') {
        assert(before + input.slice(at, at) =~= before);
    } else {
        let next = any_char_spec(input, at);
        lemma_any_char_written(input, at);
        let c = next.result->Ok_0;
        lemma_string_chars_written(input, next.end, found.push(c));
        crate::parser::template::lemma_written_push(found, c);
        let end = string_chars_spec(input, at, found).end;
        assert((before + input.slice(at, next.end)) + input.slice(next.end, end) =~= before
            + input.slice(at, end));
    }
}

/// The text of a JSON string is kept as it stands: the elements of the
/// template are written as the input between the double quotes, and the
/// span of the template is the span of that text.
pub proof fn law_string_template_round_trip(input: Input, at: int)
    requires
        0 <= at <= input.text.len(),
        string_template_spec(input, at).result is Ok,
    ensures
        ({
            let parsed = string_template_spec(input, at);
            let template = parsed.result->Ok_0;
            &&& at + 2 <= parsed.end <= input.text.len()
            &&& input.text[at] == '"'
            &&& input.text[parsed.end - 1] == '"'
            &&& crate::ast::source_of(template.elements) == input.slice(at + 1, parsed.end - 1)
            &&& template.source_info == input.span(at + 1, parsed.end - 1)
        }),
{
    lemma_starts_with_one(input, at, '"');
    let chars = string_chars_spec(input, at + 1, Seq::empty());
    lemma_string_chars_written(input, at + 1, Seq::empty());
    lemma_starts_with_one(input, chars.end, '"');
    let found = chars.result->Ok_0;
    crate::parser::template::law_templatize_round_trip(
        EncodedStringView { source_info: input.span(at + 1, chars.end), chars: found },
    );
    assert(crate::parser::template::written(Seq::<EncodedChar>::empty()) + input.slice(
        at + 1,
        chars.end,
    ) =~= input.slice(at + 1, chars.end));
}

} // verus!
