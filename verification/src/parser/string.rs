use crate::ast::{Pos, SourceInfo, Template, TemplateView};
use crate::parser::error::{Error, ParseError, ParseErrorView};
use crate::parser::json::{char_from_u32, hex_value, hex_value_spec, is_scalar};
use crate::parser::outcome::{parses, Parsed};
use crate::parser::primitives::{lemma_starts_with_one, literal, literal_spec, try_literal};
use crate::parser::reader::{is_one, one_char, Input, Reader};
use crate::parser::template::{templatize, templatize_spec, EncodedChar, EncodedString, EncodedStringView};
use vstd::prelude::*;

verus! {

/// The character that a backslash and `c` stand for in a template, where
/// `c` is one of the short escapes.
pub open spec fn short_escape(c: char) -> Option<char> {
    if c == '\\' || c == '"' || c == '{' || c == '}' {
        Some(c)
    } else if c == 'b' {
        Some('\u{8}')
    } else if c == 'f' {
        Some('\u{c}')
    } else if c == 'n' {
        Some('\n')
    } else if c == 'r' {
        Some('\r')
    } else if c == 't' {
        Some('\t')
    } else {
        None
    }
}

/// The character that a backslash and `c` stand for in a template, where
/// `c` is one of the short escapes.
pub fn unescape(c: char) -> (r: Option<char>)
    ensures
        r == short_escape(c),
{
    if c == '\\' || c == '"' || c == '{' || c == '}' {
        Some(c)
    } else if c == 'b' {
        Some('\u{8}')
    } else if c == 'f' {
        Some('\u{c}')
    } else if c == 'n' {
        Some('\n')
    } else if c == 'r' {
        Some('\r')
    } else if c == 't' {
        Some('\t')
    } else {
        None
    }
}

/// What follows a backslash in a template: a short escape, or `u` and four
/// digits of base sixteen that give the number of a character. Anything
/// else is a failure without a way back.
pub open spec fn escape_spec(input: Input, at: int) -> Parsed<char> {
    match input.at(at) {
        None => Parsed::failed(input.pos_at(at), false, ParseErrorView::EscapeChar, at),
        Some(c) => if c == 'u' {
            let code = hex_value_spec(input, at + 1, 4, 0);
            match code.result {
                Err(error) => Parsed::refused(error, code.end),
                Ok(n) => if n <= u32::MAX && is_scalar(n as u32) {
                    Parsed::done((n as u32) as char, code.end)
                } else {
                    Parsed::failed(
                        input.pos_at(code.end),
                        false,
                        ParseErrorView::Unicode,
                        code.end,
                    )
                },
            }
        } else {
            match short_escape(c) {
                Some(value) => Parsed::done(value, at + 1),
                None => Parsed::failed(
                    input.pos_at(at),
                    false,
                    ParseErrorView::EscapeChar,
                    at + 1,
                ),
            }
        },
    }
}

/// Reads what follows a backslash.
fn escape(reader: &mut Reader) -> (r: Result<char, Error>)
    requires
        old(reader).wf(),
    ensures
        parses(
            *old(reader),
            *final(reader),
            r,
            escape_spec(old(reader).input(), old(reader).state.cursor as int),
        ),
{
    let start = reader.state;
    match reader.read() {
        None => Err(Error::new(start.pos, false, ParseError::EscapeChar)),
        Some(c) => {
            if c == 'u' {
                let code = hex_value(reader)?;
                match char_from_u32(code) {
                    Some(value) => {
                        proof {
                            vstd::utf8::char_u32_cast(value, code);
                        }
                        Ok(value)
                    },
                    None => Err(Error::new(reader.state.pos, false, ParseError::Unicode)),
                }
            } else {
                match unescape(c) {
                    Some(value) => Ok(value),
                    None => Err(Error::new(start.pos, false, ParseError::EscapeChar)),
                }
            }
        },
    }
}

/// Whether `c` may not stand in a template as it is.
pub open spec fn needs_escape(c: char) -> bool {
    c == '\\' || c == '\u{8}' || c == '\n' || c == '\u{c}' || c == '\r' || c == '\t'
}

/// What [`any_char`] does: it reads one character of a template, which is
/// an escape after a backslash, or any character that needs none and is
/// not `except`. At the end of the input, on `except`, and on a character
/// that needs an escape and has none, the failure leaves the way open and
/// nothing is read.
pub open spec fn any_char_spec(input: Input, at: int, except: char) -> Parsed<EncodedChar> {
    let expecting = ParseErrorView::Expecting { value: "char"@ };
    match input.at(at) {
        None => Parsed::failed(input.pos_at(at), true, expecting, at),
        Some(c) => if c == '\\' {
            let escaped = escape_spec(input, at + 1);
            match escaped.result {
                Ok(value) => Parsed::done(
                    (value, input.slice(at, escaped.end), input.pos_at(at)),
                    escaped.end,
                ),
                Err(error) => Parsed::refused(error, escaped.end),
            }
        } else if needs_escape(c) || c == except {
            Parsed::failed(input.pos_at(at), true, expecting, at)
        } else {
            Parsed::done((c, seq![c], input.pos_at(at)), at + 1)
        },
    }
}

/// A character of a template that cannot be read, but leaves the way
/// open, leaves the cursor where it was.
pub proof fn lemma_any_char_gives_up(input: Input, at: int, except: char)
    ensures
        any_char_spec(input, at, except).result matches Err(error) && error.recoverable
            ==> any_char_spec(input, at, except).end == at,
{
    crate::parser::json::lemma_hex_value_fails_for_good(input, at + 2, 4, 0);
}

/// Reads one character of a template: what it means, how it was written,
/// and where it stood.
pub fn any_char(except: char, reader: &mut Reader) -> (r: Result<(char, String, Pos), Error>)
    requires
        old(reader).wf(),
    ensures
        parses(
            *old(reader),
            *final(reader),
            r,
            any_char_spec(old(reader).input(), old(reader).state.cursor as int, except),
        ),
        r is Ok ==> old(reader).state.cursor < final(reader).state.cursor,
{
    let start = reader.state;
    match reader.read() {
        None => Err(
            Error::new(start.pos, true, ParseError::Expecting { value: "char".to_owned() }),
        ),
        Some(c) => {
            if c == '\\' {
                let value = escape(reader)?;
                Ok((value, reader.peek_back(start.cursor), start.pos))
            } else if c == '\u{8}' || c == '\n' || c == '\u{c}' || c == '\r' || c == '\t' || c
                == except {
                reader.state = start;
                Err(
                    Error::new(
                        start.pos,
                        true,
                        ParseError::Expecting { value: "char".to_owned() },
                    ),
                )
            } else {
                let encoded = reader.peek_back(start.cursor);
                assert(encoded@ =~= seq![c]);
                Ok((c, encoded, start.pos))
            }
        },
    }
}

/// The characters of a template from index `at` on, after those in
/// `found`, up to the first that cannot be read as one.
pub open spec fn template_chars_spec(
    input: Input,
    at: int,
    except: char,
    found: Seq<EncodedChar>,
) -> Parsed<Seq<EncodedChar>>
    decreases input.text.len() - at,
{
    let next = any_char_spec(input, at, except);
    match next.result {
        Err(error) => if error.recoverable {
            Parsed::done(found, at)
        } else {
            Parsed::refused(error, next.end)
        },
        Ok(c) => if at < next.end <= input.text.len() {
            template_chars_spec(input, next.end, except, found.push(c))
        } else {
            Parsed::done(found.push(c), next.end)
        },
    }
}

/// Reads the characters of a template up to the first that cannot be read
/// as one.
pub fn template_chars(except: char, reader: &mut Reader) -> (r: Result<
    Vec<(char, String, Pos)>,
    Error,
>)
    requires
        old(reader).wf(),
    ensures
        parses(
            *old(reader),
            *final(reader),
            r,
            template_chars_spec(
                old(reader).input(),
                old(reader).state.cursor as int,
                except,
                Seq::empty(),
            ),
        ),
{
    let mut chars: Vec<(char, String, Pos)> = Vec::new();
    assert(chars.deep_view() =~= Seq::empty());
    loop
        invariant
            reader.wf(),
            reader.input() == old(reader).input(),
            old(reader).state.cursor <= reader.state.cursor,
            template_chars_spec(
                old(reader).input(),
                old(reader).state.cursor as int,
                except,
                Seq::empty(),
            ) == template_chars_spec(
                reader.input(),
                reader.state.cursor as int,
                except,
                chars.deep_view(),
            ),
        decreases reader.buffer@.len() - reader.state.cursor,
    {
        let ghost at = reader.state.cursor as int;
        match any_char(except, reader) {
            Err(e) => {
                if e.recoverable {
                    proof {
                        lemma_any_char_gives_up(reader.input(), at, except);
                    }
                    return Ok(chars);
                } else {
                    return Err(e);
                }
            },
            Ok(c) => {
                let ghost before = chars.deep_view();
                chars.push(c);
                assert(chars.deep_view() =~= before.push(c.deep_view()));
            },
        }
    }
}

/// The template that ends at `end`, made of the characters `chars`, which
/// started at `from`.
pub open spec fn template_of(
    input: Input,
    from: int,
    to: int,
    chars: Seq<EncodedChar>,
    delimiter: Option<char>,
    span: SourceInfo,
    end: int,
) -> Parsed<TemplateView> {
    match templatize_spec(EncodedStringView { source_info: input.span(from, to), chars }) {
        Err(error) => Parsed::refused(error, end),
        Ok(elements) => Parsed::done(TemplateView { delimiter, elements, source_info: span }, end),
    }
}

/// Reading a template that runs to the end of the line, from index `at`
/// on; the template started at `from`. The characters in `kept` belong to
/// it and end at `end`; those in `pending` are spaces that belong to it
/// only if something else follows them on the line. So the spaces at the
/// end of the line, and those before a comment, stay unread.
pub open spec fn unquoted_scan(
    input: Input,
    from: int,
    at: int,
    kept: Seq<EncodedChar>,
    pending: Seq<EncodedChar>,
    end: int,
) -> Parsed<TemplateView>
    decreases input.text.len() - at,
{
    let next = any_char_spec(input, at, '#');
    match next.result {
        Err(error) => if error.recoverable {
            template_of(input, from, end, kept, None, input.span(from, end), end)
        } else {
            Parsed::refused(error, next.end)
        },
        Ok(c) => if !(at < next.end <= input.text.len()) {
            template_of(input, from, end, kept, None, input.span(from, end), end)
        } else if c.1 == seq![' '] {
            unquoted_scan(input, from, next.end, kept, pending.push(c), end)
        } else {
            unquoted_scan(input, from, next.end, (kept + pending).push(c), Seq::empty(), next.end)
        },
    }
}

/// What [`unquoted_template`] does: it reads up to the end of the line or
/// the start of a comment, but for the spaces just before that, and splits
/// what it read into the pieces of a template.
pub open spec fn unquoted_template_spec(input: Input, at: int) -> Parsed<TemplateView> {
    unquoted_scan(input, at, at, Seq::empty(), Seq::empty(), at)
}

/// Reads a template that runs to the end of the line.
pub fn unquoted_template(reader: &mut Reader) -> (r: Result<Template, Error>)
    requires
        old(reader).wf(),
    ensures
        parses(
            *old(reader),
            *final(reader),
            r,
            unquoted_template_spec(old(reader).input(), old(reader).state.cursor as int),
        ),
{
    let start = reader.state;
    let mut chars: Vec<(char, String, Pos)> = Vec::new();
    let mut spaces: Vec<(char, String, Pos)> = Vec::new();
    let mut end = start;
    let ghost input = reader.input();
    assert(chars.deep_view() =~= Seq::empty());
    assert(spaces.deep_view() =~= Seq::empty());
    loop
        invariant_except_break
            unquoted_template_spec(input, start.cursor as int) == unquoted_scan(
                input,
                start.cursor as int,
                reader.state.cursor as int,
                chars.deep_view(),
                spaces.deep_view(),
                end.cursor as int,
            ),
        invariant
            reader.wf(),
            reader.input() == input,
            input == old(reader).input(),
            start == old(reader).state,
            start.cursor <= end.cursor <= reader.state.cursor,
            end.pos == input.pos_at(end.cursor as int),
            start.pos == input.pos_at(start.cursor as int),
        ensures
            unquoted_template_spec(input, start.cursor as int) == template_of(
                input,
                start.cursor as int,
                end.cursor as int,
                chars.deep_view(),
                None,
                input.span(start.cursor as int, end.cursor as int),
                end.cursor as int,
            ),
        decreases reader.buffer@.len() - reader.state.cursor,
    {
        proof {
            lemma_any_char_gives_up(input, reader.state.cursor as int, '#');
        }
        match any_char('#', reader) {
            Err(e) => {
                if e.recoverable {
                    break ;
                } else {
                    return Err(e);
                }
            },
            Ok(c) => {
                if is_one(c.1.as_str(), ' ') {
                    let ghost before = spaces.deep_view();
                    spaces.push(c);
                    assert(spaces.deep_view() =~= before.push(c.deep_view()));
                } else {
                    let ghost kept = chars.deep_view();
                    let ghost pending = spaces.deep_view();
                    chars.append(&mut spaces);
                    chars.push(c);
                    assert(chars.deep_view() =~= (kept + pending).push(c.deep_view()));
                    assert(spaces.deep_view() =~= Seq::empty());
                    end = reader.state;
                }
            },
        }
    }
    reader.state = end;
    let encoded_string = EncodedString { source_info: SourceInfo::new(start.pos, end.pos), chars };
    let elements = templatize(encoded_string)?;
    Ok(Template { delimiter: None, elements, source_info: SourceInfo::new(start.pos, end.pos) })
}

/// What [`delimited_template`] does: it reads the delimiter, failing with
/// the way left open and nothing read where there is none; then the
/// characters up to the next delimiter, which must follow them on the same
/// line; and splits them into the pieces of a template. The span of the
/// template covers the delimiters.
pub open spec fn delimited_template_spec(input: Input, at: int, delimiter: char) -> Parsed<
    TemplateView,
> {
    let chars = template_chars_spec(input, at + 1, delimiter, Seq::empty());
    let close = literal_spec(input, chars.end, seq![delimiter]);
    if input.at(at) != Some(delimiter) {
        Parsed::failed(
            input.pos_at(at),
            true,
            ParseErrorView::Expecting { value: seq![delimiter] },
            at,
        )
    } else {
        match (chars.result, close.result) {
            (Err(error), _) => Parsed::refused(error, chars.end),
            (Ok(_), Err(error)) => Parsed::refused(error, close.end),
            (Ok(found), Ok(_)) => template_of(
                input,
                at + 1,
                chars.end,
                found,
                Some(delimiter),
                input.span(at, close.end),
                close.end,
            ),
        }
    }
}

/// Reads a template between two delimiters.
pub fn delimited_template(delimiter: char, reader: &mut Reader) -> (r: Result<Template, Error>)
    requires
        old(reader).wf(),
    ensures
        parses(
            *old(reader),
            *final(reader),
            r,
            delimited_template_spec(
                old(reader).input(),
                old(reader).state.cursor as int,
                delimiter,
            ),
        ),
        r is Ok ==> old(reader).state.cursor < final(reader).state.cursor,
{
    let start = reader.state;
    let mark = one_char(delimiter);
    proof {
        lemma_starts_with_one(reader.input(), reader.state.cursor as int, delimiter);
    }
    try_literal(mark.as_str(), reader)?;
    let from = reader.state.pos;
    let chars = template_chars(delimiter, reader)?;
    let to = reader.state.pos;
    literal(mark.as_str(), reader)?;
    let encoded_string = EncodedString { source_info: SourceInfo::new(from, to), chars };
    let elements = templatize(encoded_string)?;
    Ok(
        Template {
            delimiter: Some(delimiter),
            elements,
            source_info: SourceInfo::new(start.pos, reader.state.pos),
        },
    )
}

/// What [`quoted_template`] does: what [`delimited_template_spec`] says
/// for the double quote.
pub open spec fn quoted_template_spec(input: Input, at: int) -> Parsed<TemplateView> {
    delimited_template_spec(input, at, '"')
}

/// Reads a template between double quotes.
pub fn quoted_template(reader: &mut Reader) -> (r: Result<Template, Error>)
    requires
        old(reader).wf(),
    ensures
        parses(
            *old(reader),
            *final(reader),
            r,
            quoted_template_spec(old(reader).input(), old(reader).state.cursor as int),
        ),
        r is Ok ==> old(reader).state.cursor < final(reader).state.cursor,
{
    delimited_template('"', reader)
}

/// What [`backtick_template`] does: what [`delimited_template_spec`] says
/// for the backtick.
pub open spec fn backtick_template_spec(input: Input, at: int) -> Parsed<TemplateView> {
    delimited_template_spec(input, at, '`')
}

/// Reads a template between backticks.
pub fn backtick_template(reader: &mut Reader) -> (r: Result<Template, Error>)
    requires
        old(reader).wf(),
    ensures
        parses(
            *old(reader),
            *final(reader),
            r,
            backtick_template_spec(old(reader).input(), old(reader).state.cursor as int),
        ),
        r is Ok ==> old(reader).state.cursor < final(reader).state.cursor,
{
    delimited_template('`', reader)
}

/// A character of a template that was read is written as the input from
/// where reading started to where it stopped, which is at least one
/// character.
pub proof fn lemma_any_char_written(input: Input, at: int, except: char)
    requires
        0 <= at,
        any_char_spec(input, at, except).result is Ok,
    ensures
        any_char_spec(input, at, except).result->Ok_0.1 == input.slice(
            at,
            any_char_spec(input, at, except).end,
        ),
        at < any_char_spec(input, at, except).end <= input.text.len(),
{
    if input.at(at) == Some('\\') {
        if input.at(at + 1) == Some('u') {
            crate::parser::json::lemma_hex_value_end(input, at + 2, 4, 0);
        }
    } else {
        assert(input.slice(at, at + 1) =~= seq![input.text[at]]);
    }
}

/// The characters of a template that were read from index `at` on are
/// written as the input from there to where reading stopped.
pub proof fn lemma_template_chars_written(
    input: Input,
    at: int,
    except: char,
    found: Seq<EncodedChar>,
)
    requires
        0 <= at <= input.text.len(),
        template_chars_spec(input, at, except, found).result is Ok,
    ensures
        crate::parser::template::written(
            template_chars_spec(input, at, except, found).result->Ok_0,
        ) == crate::parser::template::written(found) + input.slice(
            at,
            template_chars_spec(input, at, except, found).end,
        ),
        at <= template_chars_spec(input, at, except, found).end <= input.text.len(),
    decreases input.text.len() - at,
{
    let before = crate::parser::template::written(found);
    let next = any_char_spec(input, at, except);
    match next.result {
        Err(_) => {
            assert(before + input.slice(at, at) =~= before);
        },
        Ok(c) => {
            lemma_any_char_written(input, at, except);
            lemma_template_chars_written(input, next.end, except, found.push(c));
            crate::parser::template::lemma_written_push(found, c);
            let end = template_chars_spec(input, at, except, found).end;
            assert((before + input.slice(at, next.end)) + input.slice(next.end, end) =~= before
                + input.slice(at, end));
        },
    }
}

/// A template between delimiters is kept as it stands: its elements are
/// written as the input between the delimiters, and its span is the span
/// of that text with the delimiters.
pub proof fn law_delimited_template_round_trip(input: Input, at: int, delimiter: char)
    requires
        0 <= at <= input.text.len(),
        delimited_template_spec(input, at, delimiter).result is Ok,
    ensures
        ({
            let parsed = delimited_template_spec(input, at, delimiter);
            let template = parsed.result->Ok_0;
            &&& at + 2 <= parsed.end <= input.text.len()
            &&& input.text[at] == delimiter
            &&& input.text[parsed.end - 1] == delimiter
            &&& crate::ast::source_of(template.elements) == input.slice(at + 1, parsed.end - 1)
            &&& template.source_info == input.span(at, parsed.end)
            &&& template.delimiter == Some(delimiter)
        }),
{
    let chars = template_chars_spec(input, at + 1, delimiter, Seq::empty());
    lemma_template_chars_written(input, at + 1, delimiter, Seq::empty());
    lemma_starts_with_one(input, chars.end, delimiter);
    let found = chars.result->Ok_0;
    crate::parser::template::law_templatize_round_trip(
        EncodedStringView { source_info: input.span(at + 1, chars.end), chars: found },
    );
    assert(crate::parser::template::written(Seq::<EncodedChar>::empty()) + input.slice(
        at + 1,
        chars.end,
    ) =~= input.slice(at + 1, chars.end));
}

/// Reading a template that runs to the end of the line keeps the text as
/// it stands: where the characters kept so far are written as the input
/// from `from` to `end`, and the spaces set aside as the input from `end`
/// to `at`, the elements of the template are written as the input from
/// `from` to where the template ends, and its span is the span of that
/// text.
pub proof fn lemma_unquoted_scan_round_trip(
    input: Input,
    from: int,
    at: int,
    kept: Seq<EncodedChar>,
    pending: Seq<EncodedChar>,
    end: int,
)
    requires
        0 <= from <= end <= at <= input.text.len(),
        crate::parser::template::written(kept) == input.slice(from, end),
        crate::parser::template::written(pending) == input.slice(end, at),
        unquoted_scan(input, from, at, kept, pending, end).result is Ok,
    ensures
        ({
            let parsed = unquoted_scan(input, from, at, kept, pending, end);
            let template = parsed.result->Ok_0;
            &&& from <= parsed.end <= input.text.len()
            &&& crate::ast::source_of(template.elements) == input.slice(from, parsed.end)
            &&& template.source_info == input.span(from, parsed.end)
            &&& template.delimiter is None
        }),
    decreases input.text.len() - at,
{
    let next = any_char_spec(input, at, '#');
    match next.result {
        Err(_) => {
            crate::parser::template::law_templatize_round_trip(
                EncodedStringView { source_info: input.span(from, end), chars: kept },
            );
        },
        Ok(c) => {
            lemma_any_char_written(input, at, '#');
            if c.1 == seq![' '] {
                crate::parser::template::lemma_written_push(pending, c);
                assert(input.slice(end, at) + input.slice(at, next.end) =~= input.slice(
                    end,
                    next.end,
                ));
                lemma_unquoted_scan_round_trip(input, from, next.end, kept, pending.push(c), end);
            } else {
                crate::parser::template::lemma_written_concat(kept, pending);
                crate::parser::template::lemma_written_push(kept + pending, c);
                assert((input.slice(from, end) + input.slice(end, at)) + input.slice(at, next.end)
                    =~= input.slice(from, next.end));
                assert(crate::parser::template::written(Seq::<EncodedChar>::empty())
                    =~= input.slice(next.end, next.end));
                lemma_unquoted_scan_round_trip(
                    input,
                    from,
                    next.end,
                    (kept + pending).push(c),
                    Seq::empty(),
                    next.end,
                );
            }
        },
    }
}

/// A template that runs to the end of the line is kept as it stands: its
/// elements are written as the input from where reading started to where
/// it stopped, and its span is the span of that text.
pub proof fn law_unquoted_template_round_trip(input: Input, at: int)
    requires
        0 <= at <= input.text.len(),
        unquoted_template_spec(input, at).result is Ok,
    ensures
        ({
            let parsed = unquoted_template_spec(input, at);
            let template = parsed.result->Ok_0;
            &&& at <= parsed.end <= input.text.len()
            &&& crate::ast::source_of(template.elements) == input.slice(at, parsed.end)
            &&& template.source_info == input.span(at, parsed.end)
        }),
{
    assert(crate::parser::template::written(Seq::<EncodedChar>::empty()) =~= input.slice(at, at));
    lemma_unquoted_scan_round_trip(input, at, at, Seq::empty(), Seq::empty(), at);
}

} // verus!
