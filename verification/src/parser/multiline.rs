use crate::ast::{
    GraphQl, GraphQlVariables, GraphQlVariablesView, GraphQlView, MultilineString,
    MultilineStringView, Pos, SourceInfo, Template, TemplateView, Text, TextView, Whitespace,
    WhitespaceView,
};
use crate::parser::combinators::{choice, choice_spec, optional, optional_spec, Parser};
use crate::parser::error::{Error, ParseError, ParseErrorView};
use crate::parser::json::{object_value, object_value_spec};
use crate::parser::outcome::{mapped, parses, Parsed};
use crate::parser::primitives::{
    literal, literal_spec, newline, newline_spec, try_literal, try_literal_spec,
    zero_or_more_spaces, zero_or_more_spaces_spec, Blank,
};
use crate::parser::reader::{one_char, Input, Reader};
use crate::parser::template::{templatize, templatize_spec, EncodedChar, EncodedString, EncodedStringView};
use vstd::prelude::*;

verus! {

/// The three backticks that open and close a multiline string.
pub open spec fn fence() -> Seq<char> {
    seq!['`', '`', '`']
}

/// The characters from index `from` up to index `to`, each written as
/// itself.
pub open spec fn plain_chars(input: Input, from: int, to: int) -> Seq<EncodedChar> {
    Seq::new(
        (to - from) as nat,
        |i: int| (input.text[from + i], seq![input.text[from + i]], input.pos_at(from + i)),
    )
}

/// Where the body that starts at `at` ends: at the next fence, or at the
/// end of the input.
pub open spec fn body_end(input: Input, at: int) -> int
    decreases input.text.len() - at,
{
    if at < 0 || at >= input.text.len() || input.starts_with(at, fence()) {
        at
    } else {
        body_end(input, at + 1)
    }
}

/// Where the body that starts at `at` ends if it is to stay on one line: at
/// the next fence, at the next line feed, or at the end of the input.
pub open spec fn line_end(input: Input, at: int) -> int
    decreases input.text.len() - at,
{
    if at < 0 || at >= input.text.len() || input.starts_with(at, fence()) || input.text[at]
        == '\n' {
        at
    } else {
        line_end(input, at + 1)
    }
}

/// The template made of the characters from `from` up to `to`, once the
/// closing fence has been read at `close_at`, where it must stand. The span
/// of the template is that of its characters.
pub open spec fn fenced_spec(input: Input, from: int, to: int, close_at: int) -> Parsed<
    TemplateView,
> {
    let close = literal_spec(input, close_at, fence());
    let source_info = input.span(from, to);
    match close.result {
        Err(error) => Parsed::refused(error, close.end),
        Ok(_) => match templatize_spec(
            EncodedStringView { source_info, chars: plain_chars(input, from, to) },
        ) {
            Err(error) => Parsed::refused(error, close.end),
            Ok(elements) => Parsed::done(
                TemplateView { delimiter: None, elements, source_info },
                close.end,
            ),
        },
    }
}

/// What [`multiline_string_value`] does: it reads up to the next fence,
/// which must be there, and splits what it read into the pieces of a
/// template.
pub open spec fn multiline_string_value_spec(input: Input, at: int) -> Parsed<TemplateView> {
    fenced_spec(input, at, body_end(input, at), body_end(input, at))
}

/// What [`oneline_string_value`] does: as [`multiline_string_value_spec`],
/// but a line feed before the fence is a failure without a way back,
/// reported where the text starts.
pub open spec fn oneline_string_value_spec(input: Input, at: int) -> Parsed<TemplateView> {
    let end = line_end(input, at);
    if input.at(end) == Some('\n') && !input.starts_with(end, fence()) {
        Parsed::failed(input.pos_at(at), false, ParseErrorView::Multiline, end + 1)
    } else {
        fenced_spec(input, at, end, end)
    }
}

/// Whether a fence stands at the cursor.
fn at_fence(reader: &Reader) -> (yes: bool)
    requires
        reader.wf(),
    ensures
        yes == reader.input().starts_with(reader.state.cursor as int, fence()),
{
    let next = reader.peek_n(3);
    let expected = "```".to_owned();
    proof {
        reveal_strlit("```");
        assert("```"@ =~= fence());
        let input = reader.input();
        let at = reader.state.cursor as int;
        if at + 3 <= input.text.len() {
            assert(input.ahead(at, 3) == input.text.subrange(at, at + 3));
        } else {
            assert(input.ahead(at, 3).len() < 3);
        }
    }
    next == expected
}

/// Reads the closing fence and makes the template of the characters
/// `chars`, which were read from index `from` up to index `to`.
fn close_fence(
    reader: &mut Reader,
    chars: Vec<(char, String, Pos)>,
    start: Pos,
    end: Pos,
    Ghost(from): Ghost<int>,
    Ghost(to): Ghost<int>,
) -> (r: Result<Template, Error>)
    requires
        old(reader).wf(),
        0 <= from <= to <= old(reader).state.cursor,
        start == old(reader).input().pos_at(from),
        end == old(reader).input().pos_at(to),
        chars.deep_view() == plain_chars(old(reader).input(), from, to),
    ensures
        parses(
            *old(reader),
            *final(reader),
            r,
            fenced_spec(old(reader).input(), from, to, old(reader).state.cursor as int),
        ),
{
    proof {
        reveal_strlit("```");
        assert("```"@ =~= fence());
    }
    literal("```", reader)?;
    let encoded_string = EncodedString { source_info: SourceInfo { start, end }, chars };
    let elements = templatize(encoded_string)?;
    Ok(Template { delimiter: None, elements, source_info: SourceInfo { start, end } })
}

/// Reads the text of a multiline string, up to and with the closing fence.
pub fn multiline_string_value(reader: &mut Reader) -> (r: Result<Template, Error>)
    requires
        old(reader).wf(),
    ensures
        parses(
            *old(reader),
            *final(reader),
            r,
            multiline_string_value_spec(old(reader).input(), old(reader).state.cursor as int),
        ),
{
    let mut chars: Vec<(char, String, Pos)> = Vec::new();
    let start = reader.state.pos;
    let ghost from = reader.state.cursor as int;
    assert(chars.deep_view() =~= plain_chars(reader.input(), from, from));
    while !at_fence(reader) && !reader.is_eof()
        invariant
            reader.wf(),
            reader.input() == old(reader).input(),
            from == old(reader).state.cursor,
            from <= reader.state.cursor,
            start == reader.input().pos_at(from),
            chars.deep_view() == plain_chars(reader.input(), from, reader.state.cursor as int),
            body_end(reader.input(), from) == body_end(reader.input(), reader.state.cursor as int),
        decreases reader.buffer@.len() - reader.state.cursor,
    {
        let pos = reader.state.pos;
        let ghost before = chars.deep_view();
        let ghost k = reader.state.cursor as int;
        match reader.read() {
            Some(c) => {
                chars.push((c, one_char(c), pos));
                assert(chars.deep_view() =~= before.push((c, seq![c], pos)));
                assert(chars.deep_view() =~= plain_chars(reader.input(), from, k + 1));
            },
            None => {},
        }
    }
    let end = reader.state.pos;
    close_fence(reader, chars, start, end, Ghost(from), Ghost(reader.state.cursor as int))
}

/// Reads the text of a multiline string that stands on one line, up to and
/// with the closing fence.
pub fn oneline_string_value(reader: &mut Reader) -> (r: Result<Template, Error>)
    requires
        old(reader).wf(),
    ensures
        parses(
            *old(reader),
            *final(reader),
            r,
            oneline_string_value_spec(old(reader).input(), old(reader).state.cursor as int),
        ),
{
    let mut chars: Vec<(char, String, Pos)> = Vec::new();
    let start = reader.state.pos;
    let ghost from = reader.state.cursor as int;
    assert(chars.deep_view() =~= plain_chars(reader.input(), from, from));
    while !at_fence(reader) && !reader.is_eof()
        invariant
            reader.wf(),
            reader.input() == old(reader).input(),
            from == old(reader).state.cursor,
            from <= reader.state.cursor,
            start == reader.input().pos_at(from),
            chars.deep_view() == plain_chars(reader.input(), from, reader.state.cursor as int),
            line_end(reader.input(), from) == line_end(reader.input(), reader.state.cursor as int),
        ensures
            line_end(reader.input(), from) == reader.state.cursor,
            reader.input().at(reader.state.cursor as int) != Some('\n')
                || reader.input().starts_with(reader.state.cursor as int, fence()),
        decreases reader.buffer@.len() - reader.state.cursor,
    {
        let pos = reader.state.pos;
        let ghost before = chars.deep_view();
        let ghost k = reader.state.cursor as int;
        match reader.read() {
            Some(c) => {
                if c == '\n' {
                    return Err(Error::new(start, false, ParseError::Multiline));
                }
                chars.push((c, one_char(c), pos));
                assert(chars.deep_view() =~= before.push((c, seq![c], pos)));
                assert(chars.deep_view() =~= plain_chars(reader.input(), from, k + 1));
            },
            None => {},
        }
    }
    let end = reader.state.pos;
    close_fence(reader, chars, start, end, Ghost(from), Ghost(reader.state.cursor as int))
}

/// What [`whitespace`] does: it reads one space, tab, line feed or
/// carriage return.
pub open spec fn whitespace_spec(input: Input, at: int) -> Parsed<WhitespaceView> {
    Blank::Whitespace.one_spec(input, at)
}

/// Reads one blank character, a line end being one too.
pub fn whitespace(reader: &mut Reader) -> (r: Result<Whitespace, Error>)
    requires
        old(reader).wf(),
    ensures
        parses(
            *old(reader),
            *final(reader),
            r,
            whitespace_spec(old(reader).input(), old(reader).state.cursor as int),
        ),
{
    Blank::Whitespace.one(reader)
}

/// What [`zero_or_more_whitespaces`] does: it reads the blanks at `at`,
/// line ends too, all of them, and never fails.
pub open spec fn zero_or_more_whitespaces_spec(input: Input, at: int) -> Parsed<WhitespaceView> {
    Blank::Whitespace.run_spec(input, at)
}

/// Reads the blanks at the cursor, line ends too.
pub fn zero_or_more_whitespaces(reader: &mut Reader) -> (r: Result<Whitespace, Error>)
    requires
        old(reader).wf(),
    ensures
        parses(
            *old(reader),
            *final(reader),
            r,
            zero_or_more_whitespaces_spec(old(reader).input(), old(reader).state.cursor as int),
        ),
{
    Blank::Whitespace.run(reader)
}

/// What follows the name of the dialect: blanks, the end of the line, and
/// the text up to the closing fence.
pub open spec fn body_spec(input: Input, at: int) -> Parsed<TextView> {
    let space = zero_or_more_spaces_spec(input, at);
    let line = newline_spec(input, space.end);
    let value = multiline_string_value_spec(input, line.end);
    match (space.result, line.result, value.result) {
        (Err(error), _, _) => Parsed::refused(error, space.end),
        (Ok(_), Err(error), _) => Parsed::refused(error, line.end),
        (Ok(_), Ok(_), Err(error)) => Parsed::refused(error, value.end),
        (Ok(space), Ok(newline), Ok(template)) => Parsed::done(
            TextView { space, newline, value: template },
            value.end,
        ),
    }
}

/// What [`text`] does: it reads the name of the dialect, failing with the
/// way left open and nothing read where the input does not hold it, and
/// then what [`body_spec`] says.
pub open spec fn text_spec(lang: Seq<char>, input: Input, at: int) -> Parsed<TextView> {
    match try_literal_spec(input, at, lang).result {
        Err(error) => Parsed::refused(error, at),
        Ok(_) => body_spec(input, at + lang.len()),
    }
}

/// Reads what follows the name of the dialect.
fn body(reader: &mut Reader) -> (r: Result<Text, Error>)
    requires
        old(reader).wf(),
    ensures
        parses(
            *old(reader),
            *final(reader),
            r,
            body_spec(old(reader).input(), old(reader).state.cursor as int),
        ),
{
    let space = zero_or_more_spaces(reader)?;
    let newline = newline(reader)?;
    let value = multiline_string_value(reader)?;
    Ok(Text { space, newline, value })
}

/// Reads a multiline string of the dialect `lang`, after its opening fence.
pub fn text(lang: &str, reader: &mut Reader) -> (r: Result<Text, Error>)
    requires
        old(reader).wf(),
    ensures
        parses(
            *old(reader),
            *final(reader),
            r,
            text_spec(lang@, old(reader).input(), old(reader).state.cursor as int),
        ),
{
    try_literal(lang, reader)?;
    body(reader)
}

/// What [`json_text`] does: what [`text`] does for `json`.
pub open spec fn json_text_spec(input: Input, at: int) -> Parsed<MultilineStringView> {
    mapped(text_spec("json"@, input, at), |text: TextView| MultilineStringView::Json(text))
}

/// Reads a multiline string of JSON, after its opening fence.
pub fn json_text(reader: &mut Reader) -> (r: Result<MultilineString, Error>)
    requires
        old(reader).wf(),
    ensures
        parses(
            *old(reader),
            *final(reader),
            r,
            json_text_spec(old(reader).input(), old(reader).state.cursor as int),
        ),
{
    let text = text("json", reader)?;
    Ok(MultilineString::Json(text))
}

/// What [`xml_text`] does: what [`text`] does for `xml`.
pub open spec fn xml_text_spec(input: Input, at: int) -> Parsed<MultilineStringView> {
    mapped(text_spec("xml"@, input, at), |text: TextView| MultilineStringView::Xml(text))
}

/// Reads a multiline string of XML, after its opening fence.
pub fn xml_text(reader: &mut Reader) -> (r: Result<MultilineString, Error>)
    requires
        old(reader).wf(),
    ensures
        parses(
            *old(reader),
            *final(reader),
            r,
            xml_text_spec(old(reader).input(), old(reader).state.cursor as int),
        ),
{
    let text = text("xml", reader)?;
    Ok(MultilineString::Xml(text))
}

/// What [`plain_text`] does: what [`body_spec`] says, with no name of a
/// dialect before it.
pub open spec fn plain_text_spec(input: Input, at: int) -> Parsed<MultilineStringView> {
    mapped(body_spec(input, at), |text: TextView| MultilineStringView::Text(text))
}

/// Reads a multiline string of plain text, after its opening fence.
pub fn plain_text(reader: &mut Reader) -> (r: Result<MultilineString, Error>)
    requires
        old(reader).wf(),
    ensures
        parses(
            *old(reader),
            *final(reader),
            r,
            plain_text_spec(old(reader).input(), old(reader).state.cursor as int),
        ),
{
    let text = body(reader)?;
    Ok(MultilineString::Text(text))
}

/// What [`graphql_variables`] does: it reads the word `variables`, failing
/// with the way left open and nothing read where the input does not hold
/// it; then blanks; then a JSON object, which must be there: any failure
/// to read one is a failure of its own kind without a way back, reported
/// where the object should start; then blanks and line ends.
pub open spec fn graphql_variables_spec(input: Input, at: int) -> Parsed<GraphQlVariablesView> {
    let space = zero_or_more_spaces_spec(input, at + "variables"@.len());
    let object = object_value_spec(input, space.end);
    let whitespace = zero_or_more_whitespaces_spec(input, object.end);
    match (try_literal_spec(input, at, "variables"@).result, object.result) {
        (Err(error), _) => Parsed::refused(error, at),
        (Ok(_), Err(_)) => Parsed::failed(
            input.pos_at(space.end),
            false,
            ParseErrorView::GraphQlVariables,
            object.end,
        ),
        (Ok(_), Ok(value)) => Parsed::done(
            GraphQlVariablesView {
                space: space.result->Ok_0,
                value,
                whitespace: whitespace.result->Ok_0,
            },
            whitespace.end,
        ),
    }
}

/// Reads the variables of a GraphQL query.
#[verifier::rlimit(50)]
pub fn graphql_variables(reader: &mut Reader) -> (r: Result<GraphQlVariables, Error>)
    requires
        old(reader).wf(),
    ensures
        parses(
            *old(reader),
            *final(reader),
            r,
            graphql_variables_spec(old(reader).input(), old(reader).state.cursor as int),
        ),
{
    try_literal("variables", reader)?;
    let space = zero_or_more_spaces(reader)?;
    let start = reader.state;
    let object = object_value(reader);
    let value = match object {
        Ok(obj) => obj,
        Err(_) => return Err(Error::new(start.pos, false, ParseError::GraphQlVariables)),
    };
    let whitespace = zero_or_more_whitespaces(reader)?;
    Ok(GraphQlVariables { space, value, whitespace })
}

/// The rule for the variables of a GraphQL query.
pub struct Variables;

impl Parser for Variables {
    type Output = GraphQlVariables;

    open spec fn spec_parse(&self, input: Input, at: int) -> Parsed<GraphQlVariablesView> {
        graphql_variables_spec(input, at)
    }

    fn parse(&self, reader: &mut Reader) -> (r: Result<GraphQlVariables, Error>) {
        graphql_variables(reader)
    }
}

/// What reading the text of a GraphQL query does from index `at` on, the
/// text having started at `start`. It reads up to the next fence, as for
/// any multiline string; but after each line feed the variables may
/// follow, and where they do, the closing fence must follow them, and the
/// text ends with that line feed.
pub open spec fn graphql_scan(
    input: Input,
    start: int,
    at: int,
    space: WhitespaceView,
    newline: WhitespaceView,
) -> Parsed<MultilineStringView>
    decreases input.text.len() - at,
{
    let variables = optional_spec(graphql_variables_spec(input, at + 1), at + 1);
    if at < 0 || at >= input.text.len() || input.starts_with(at, fence()) {
        mapped(
            fenced_spec(input, start, at, at),
            |value: TemplateView|
                MultilineStringView::GraphQl(GraphQlView { space, newline, value, variables: None }),
        )
    } else if input.text[at] != '\n' {
        graphql_scan(input, start, at + 1, space, newline)
    } else {
        match variables.result {
            Err(error) => Parsed::refused(error, variables.end),
            Ok(None) => graphql_scan(input, start, at + 1, space, newline),
            Ok(Some(found)) => mapped(
                fenced_spec(input, start, at + 1, variables.end),
                |value: TemplateView|
                    MultilineStringView::GraphQl(
                        GraphQlView { space, newline, value, variables: Some(found) },
                    ),
            ),
        }
    }
}

/// What [`graphql`] does: it reads the word `graphql`, failing with the
/// way left open and nothing read where the input does not hold it; then
/// blanks and the end of the line; then the query, as [`graphql_scan`]
/// says.
pub open spec fn graphql_spec(input: Input, at: int) -> Parsed<MultilineStringView> {
    let space = zero_or_more_spaces_spec(input, at + "graphql"@.len());
    let line = newline_spec(input, space.end);
    match (try_literal_spec(input, at, "graphql"@).result, line.result) {
        (Err(error), _) => Parsed::refused(error, at),
        (Ok(_), Err(error)) => Parsed::refused(error, line.end),
        (Ok(_), Ok(newline)) => graphql_scan(
            input,
            line.end,
            line.end,
            space.result->Ok_0,
            newline,
        ),
    }
}

/// Reads a GraphQL query, after the opening fence.
#[verifier::rlimit(50)]
pub fn graphql(reader: &mut Reader) -> (r: Result<MultilineString, Error>)
    requires
        old(reader).wf(),
    ensures
        parses(
            *old(reader),
            *final(reader),
            r,
            graphql_spec(old(reader).input(), old(reader).state.cursor as int),
        ),
{
    try_literal("graphql", reader)?;
    let space = zero_or_more_spaces(reader)?;
    let newline = newline(reader)?;

    let mut chars: Vec<(char, String, Pos)> = Vec::new();

    let start = reader.state.pos;
    let ghost from = reader.state.cursor as int;
    let ghost input = reader.input();
    let ghost whole = graphql_spec(input, old(reader).state.cursor as int);
    assert(chars.deep_view() =~= plain_chars(input, from, from));
    while !at_fence(reader) && !reader.is_eof()
        invariant
            reader.wf(),
            reader.input() == input,
            input == old(reader).input(),
            old(reader).state.cursor <= from <= reader.state.cursor,
            start == input.pos_at(from),
            chars.deep_view() == plain_chars(input, from, reader.state.cursor as int),
            whole == graphql_scan(
                input,
                from,
                reader.state.cursor as int,
                space.deep_view(),
                newline.deep_view(),
            ),
            whole == graphql_spec(input, old(reader).state.cursor as int),
        decreases reader.buffer@.len() - reader.state.cursor,
    {
        let pos = reader.state.pos;
        let ghost before = chars.deep_view();
        let ghost k = reader.state.cursor as int;
        match reader.read() {
            Some(c) => {
                chars.push((c, one_char(c), pos));
                assert(chars.deep_view() =~= before.push((c, seq![c], pos)));
                assert(chars.deep_view() =~= plain_chars(input, from, k + 1));
                if c == '\n' {
                    let end = reader.state.pos;
                    let variables = optional(&Variables, reader)?;
                    match variables {
                        None => {},
                        Some(variables) => {
                            let value = close_fence(
                                reader,
                                chars,
                                start,
                                end,
                                Ghost(from),
                                Ghost(k + 1),
                            )?;
                            return Ok(
                                MultilineString::GraphQl(
                                    GraphQl { space, newline, value, variables: Some(variables) },
                                ),
                            );
                        },
                    }
                }
            },
            None => {},
        }
    }
    let end = reader.state.pos;
    let value = close_fence(
        reader,
        chars,
        start,
        end,
        Ghost(from),
        Ghost(reader.state.cursor as int),
    )?;
    Ok(MultilineString::GraphQl(GraphQl { space, newline, value, variables: None }))
}

/// The dialects of a multiline string, in the order in which they are
/// tried.
#[derive(Clone, Copy, Debug, PartialEq, Eq, Structural)]
pub enum Dialect {
    Json,
    Xml,
    GraphQl,
    Plain,
}

impl Parser for Dialect {
    type Output = MultilineString;

    open spec fn spec_parse(&self, input: Input, at: int) -> Parsed<MultilineStringView> {
        match *self {
            Dialect::Json => json_text_spec(input, at),
            Dialect::Xml => xml_text_spec(input, at),
            Dialect::GraphQl => graphql_spec(input, at),
            Dialect::Plain => plain_text_spec(input, at),
        }
    }

    fn parse(&self, reader: &mut Reader) -> (r: Result<MultilineString, Error>) {
        match *self {
            Dialect::Json => json_text(reader),
            Dialect::Xml => xml_text(reader),
            Dialect::GraphQl => graphql(reader),
            Dialect::Plain => plain_text(reader),
        }
    }
}

/// The dialects in the order in which [`multiline_string`] tries them.
pub open spec fn dialects() -> Seq<Dialect> {
    seq![Dialect::Json, Dialect::Xml, Dialect::GraphQl, Dialect::Plain]
}

/// What [`multiline_string`] does. It reads the opening fence, failing
/// with the way left open and nothing read where there is none. Then it
/// tries the dialects in their order. Where none can be read, and the
/// failure is not that of the variables of a GraphQL query, which is handed
/// on, it goes back to the point after the fence and reads a text that
/// stands on one line.
pub open spec fn multiline_string_spec(input: Input, at: int) -> Parsed<MultilineStringView> {
    let after = at + fence().len();
    let dialect = choice_spec(dialects(), 0, input, after);
    match (try_literal_spec(input, at, fence()).result, dialect.result) {
        (Err(error), _) => Parsed::refused(error, at),
        (Ok(_), Ok(_)) => dialect,
        (Ok(_), Err(error)) => if error.inner is GraphQlVariables {
            dialect
        } else {
            mapped(
                oneline_string_value_spec(input, after),
                |value: TemplateView| MultilineStringView::OneLineText(value),
            )
        },
    }
}

/// Reads a multiline string: a text between two fences of three backticks.
#[verifier::rlimit(50)]
pub fn multiline_string(reader: &mut Reader) -> (r: Result<MultilineString, Error>)
    requires
        old(reader).wf(),
    ensures
        parses(
            *old(reader),
            *final(reader),
            r,
            multiline_string_spec(old(reader).input(), old(reader).state.cursor as int),
        ),
{
    proof {
        reveal_strlit("```");
        assert("```"@ =~= fence());
    }
    try_literal("```", reader)?;
    let save = reader.state;
    let alternatives = [Dialect::Json, Dialect::Xml, Dialect::GraphQl, Dialect::Plain];
    assert(alternatives@ =~= dialects());
    match choice(alternatives.as_slice(), reader) {
        Ok(multi) => Ok(multi),
        Err(err) => {
            // A query whose variables cannot be read is no text on one
            // line: that failure is final.
            if let ParseError::GraphQlVariables = err.inner {
                return Err(err);
            }
            reader.state = save;
            let value = oneline_string_value(reader)?;
            Ok(MultilineString::OneLineText(value))
        },
    }
}

/// Characters that are written as themselves are written as the text that
/// they are.
pub proof fn lemma_plain_chars(input: Input, from: int, to: int, k: int)
    requires
        0 <= from <= to <= input.text.len(),
        0 <= k <= to - from,
    ensures
        crate::parser::template::encodings(plain_chars(input, from, to), 0, k) == input.slice(
            from,
            from + k,
        ),
    decreases k,
{
    if k > 0 {
        lemma_plain_chars(input, from, to, k - 1);
        assert(input.slice(from, from + k - 1) + seq![input.text[from + k - 1]] =~= input.slice(
            from,
            from + k,
        ));
    } else {
        assert(input.slice(from, from) =~= Seq::<char>::empty());
    }
}

/// Where the body of a multiline string ends: not before it starts, within
/// the input, and at a fence unless the input ends there.
pub proof fn lemma_body_end(input: Input, at: int)
    requires
        0 <= at <= input.text.len(),
    ensures
        at <= body_end(input, at) <= input.text.len(),
        body_end(input, at) < input.text.len() ==> input.starts_with(
            body_end(input, at),
            fence(),
        ),
        forall|k: int| at <= k < body_end(input, at) ==> !input.starts_with(k, fence()),
    decreases input.text.len() - at,
{
    if at < input.text.len() && !input.starts_with(at, fence()) {
        lemma_body_end(input, at + 1);
    }
}

/// The text between the fences is kept as it stands: the elements of the
/// template are written as the input from the start of the text to the
/// closing fence, the span of the template is the span of that text, and
/// the cursor is left after the fence.
pub proof fn law_fenced_round_trip(input: Input, from: int, to: int, close_at: int)
    requires
        0 <= from <= to <= close_at <= input.text.len(),
        fenced_spec(input, from, to, close_at).result is Ok,
    ensures
        ({
            let parsed = fenced_spec(input, from, to, close_at);
            let template = parsed.result->Ok_0;
            &&& crate::ast::source_of(template.elements) == input.slice(from, to)
            &&& template.source_info == input.span(from, to)
            &&& template.delimiter is None
            &&& input.starts_with(close_at, fence())
            &&& parsed.end == close_at + 3
        }),
{
    let chars = plain_chars(input, from, to);
    let text = EncodedStringView { source_info: input.span(from, to), chars };
    crate::parser::template::law_templatize_round_trip(text);
    lemma_plain_chars(input, from, to, to - from);
}

/// What [`multiline_string_value`] returns is the text up to the first
/// fence, kept as it stands.
pub proof fn law_multiline_value_round_trip(input: Input, at: int)
    requires
        0 <= at <= input.text.len(),
        multiline_string_value_spec(input, at).result is Ok,
    ensures
        ({
            let parsed = multiline_string_value_spec(input, at);
            let template = parsed.result->Ok_0;
            let end = body_end(input, at);
            &&& at <= end
            &&& end + 3 == parsed.end <= input.text.len()
            &&& crate::ast::source_of(template.elements) == input.slice(at, end)
            &&& template.source_info == input.span(at, end)
            &&& forall|k: int| at <= k < end ==> !input.starts_with(k, fence())
        }),
{
    lemma_body_end(input, at);
    law_fenced_round_trip(input, at, body_end(input, at), body_end(input, at));
}

} // verus!
