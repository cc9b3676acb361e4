use crate::ast::{
    Body, BodyView, Entry, EntryView, ImpostorFile, ImpostorFileView, KeyValue, KeyValueView,
    Method, MethodView, Request, RequestSection, RequestSectionValue, RequestSectionValueView,
    RequestSectionView, RequestView, Response, ResponseView, SourceInfo, Status, StatusView,
    Version, VersionValue, VersionView,
};
use crate::parser::bytes::{bytes, bytes_spec};
use crate::parser::combinators::{optional, optional_spec, repeat_spec, zero_or_more, Parser};
use crate::parser::error::{Error, ParseError, ParseErrorView};
use crate::parser::key_string;
use crate::parser::number::{natural, natural_spec};
use crate::parser::outcome::{parses, recovered, Parsed};
use crate::parser::primitives::{
    eof, eof_spec, line_terminator, line_terminator_spec, literal, literal_spec,
    one_or_more_spaces, one_or_more_spaces_spec, optional_line_terminators,
    optional_line_terminators_spec, try_literal, try_literal_spec, zero_or_more_spaces,
    zero_or_more_spaces_spec,
};
use crate::parser::reader::{lemma_run_end_unique, Input, Reader};
use crate::parser::sections::{request_sections, request_sections_spec};
use crate::parser::string::{unquoted_template, unquoted_template_spec};
use vstd::prelude::*;

verus! {

/// Whether `c` is a capital letter of ASCII.
pub open spec fn is_upper(c: char) -> bool {
    'A' <= c <= 'Z'
}

/// The class of the capital letters.
pub open spec fn upper() -> spec_fn(char) -> bool {
    |c: char| is_upper(c)
}

/// What [`method`] does: it reads a run of capital letters. At the end of
/// the input the failure leaves the way open; anywhere else, an empty run
/// is a failure without a way back.
pub open spec fn method_spec(input: Input, at: int) -> Parsed<MethodView> {
    let end = input.run_end(at, upper());
    if at >= input.text.len() {
        Parsed::failed(input.pos_at(at), true, ParseErrorView::Method, at)
    } else if end == at {
        Parsed::failed(input.pos_at(at), false, ParseErrorView::Method, at)
    } else {
        Parsed::done(MethodView(input.slice(at, end)), end)
    }
}

/// Reads the method of a request.
pub fn method(reader: &mut Reader) -> (r: Result<Method, Error>)
    requires
        old(reader).wf(),
    ensures
        parses(
            *old(reader),
            *final(reader),
            r,
            method_spec(old(reader).input(), old(reader).state.cursor as int),
        ),
        r is Ok ==> old(reader).state.cursor < final(reader).state.cursor,
{
    if reader.is_eof() {
        return Err(Error::new(reader.state.pos, true, ParseError::Method));
    }
    let start = reader.state;
    let capital = |c: &char| -> (b: bool)
        ensures
            b == is_upper(*c),
        { 'A' <= *c && *c <= 'Z' };
    let name = reader.read_while(capital);
    proof {
        lemma_run_end_unique(
            reader.input(),
            start.cursor as int,
            reader.state.cursor as int,
            upper(),
        );
    }
    if reader.state.cursor == start.cursor {
        Err(Error::new(start.pos, false, ParseError::Method))
    } else {
        Ok(Method(name))
    }
}

/// The version that the text after `HTTP` names, and the length of that
/// text: nothing where a blank, a line end or the end of the input
/// follows, and otherwise one of `/1.0`, `/1.1`, `/2`, `/3` and `/*`.
pub open spec fn version_suffix(input: Input, at: int) -> Option<(VersionValue, int)> {
    match input.at(at) {
        None => Some((VersionValue::VersionAny, 0int)),
        Some(c) => if c == ' ' || c == '\t' || c == '\n' || c == '\r' {
            Some((VersionValue::VersionAny, 0int))
        } else if input.starts_with(at, "/1.0"@) {
            Some((VersionValue::Version1, 4int))
        } else if input.starts_with(at, "/1.1"@) {
            Some((VersionValue::Version11, 4int))
        } else if input.starts_with(at, "/2"@) {
            Some((VersionValue::Version2, 2int))
        } else if input.starts_with(at, "/3"@) {
            Some((VersionValue::Version3, 2int))
        } else if input.starts_with(at, "/*"@) {
            Some((VersionValue::VersionAnyLegacy, 2int))
        } else {
            None
        },
    }
}

/// What [`version`] does: it reads `HTTP`, failing with the way left open
/// and nothing read where the input does not hold it, and what names the
/// version after it. Anything else after `HTTP` is a failure without a way
/// back, reported where the version starts.
pub open spec fn version_spec(input: Input, at: int) -> Parsed<VersionView> {
    let after = at + "HTTP"@.len();
    match try_literal_spec(input, at, "HTTP"@).result {
        Err(error) => Parsed::refused(error, at),
        Ok(_) => match version_suffix(input, after) {
            Some(found) => Parsed::done(
                VersionView { value: found.0, source_info: input.span(at, after + found.1) },
                after + found.1,
            ),
            None => Parsed::failed(input.pos_at(at), false, ParseErrorView::Version, after),
        },
    }
}

/// Reads the version of a response.
pub fn version(reader: &mut Reader) -> (r: Result<Version, Error>)
    requires
        old(reader).wf(),
    ensures
        parses(
            *old(reader),
            *final(reader),
            r,
            version_spec(old(reader).input(), old(reader).state.cursor as int),
        ),
        r is Ok ==> old(reader).state.cursor < final(reader).state.cursor,
{
    let start = reader.state;
    proof {
        reveal_strlit("HTTP");
        reveal_strlit("/1.0");
        reveal_strlit("/1.1");
        reveal_strlit("/2");
        reveal_strlit("/3");
        reveal_strlit("/*");
    }
    try_literal("HTTP", reader)?;
    let value = match reader.peek() {
        None => Some(VersionValue::VersionAny),
        Some(c) => {
            if c == ' ' || c == '\t' || c == '\n' || c == '\r' {
                Some(VersionValue::VersionAny)
            } else if try_literal("/1.0", reader).is_ok() {
                Some(VersionValue::Version1)
            } else if try_literal("/1.1", reader).is_ok() {
                Some(VersionValue::Version11)
            } else if try_literal("/2", reader).is_ok() {
                Some(VersionValue::Version2)
            } else if try_literal("/3", reader).is_ok() {
                Some(VersionValue::Version3)
            } else if try_literal("/*", reader).is_ok() {
                Some(VersionValue::VersionAnyLegacy)
            } else {
                None
            }
        },
    };
    match value {
        Some(value) => Ok(
            Version { value, source_info: SourceInfo::new(start.pos, reader.state.pos) },
        ),
        None => Err(Error::new(start.pos, false, ParseError::Version)),
    }
}

/// What [`status`] does: it reads a natural number that is at most 999.
/// Anything else is a failure without a way back, reported where the
/// status starts.
pub open spec fn status_spec(input: Input, at: int) -> Parsed<StatusView> {
    let number = natural_spec(input, at);
    match number.result {
        Ok(value) => if value <= 999 {
            Parsed::done(
                StatusView { value: value as u16, source_info: input.span(at, number.end) },
                number.end,
            )
        } else {
            Parsed::failed(input.pos_at(at), false, ParseErrorView::Status, number.end)
        },
        Err(_) => Parsed::failed(input.pos_at(at), false, ParseErrorView::Status, number.end),
    }
}

/// Reads the status of a response.
pub fn status(reader: &mut Reader) -> (r: Result<Status, Error>)
    requires
        old(reader).wf(),
    ensures
        parses(
            *old(reader),
            *final(reader),
            r,
            status_spec(old(reader).input(), old(reader).state.cursor as int),
        ),
{
    let start = reader.state.pos;
    match natural(reader) {
        Ok(value) => {
            if value <= 999 {
                Ok(
                    Status {
                        value: value as u16,
                        source_info: SourceInfo::new(start, reader.state.pos),
                    },
                )
            } else {
                Err(Error::new(start, false, ParseError::Status))
            }
        },
        Err(_) => Err(Error::new(start, false, ParseError::Status)),
    }
}

/// What [`key_value`] does: it reads blank lines, blanks, a key, blanks, a
/// colon, blanks, a value that runs to the end of the line, and the end of
/// the line. Up to the colon every failure leaves the way open.
pub open spec fn key_value_spec(input: Input, at: int) -> Parsed<KeyValueView> {
    let lines = optional_line_terminators_spec(input, at);
    let space0 = zero_or_more_spaces_spec(input, lines.end);
    let key = recovered(key_string::parse_spec(input, space0.end));
    let space1 = zero_or_more_spaces_spec(input, key.end);
    let colon = recovered(literal_spec(input, space1.end, ":"@));
    let space2 = zero_or_more_spaces_spec(input, colon.end);
    let value = unquoted_template_spec(input, space2.end);
    let last = line_terminator_spec(input, value.end);
    if lines.result is Err {
        Parsed::refused(lines.result->Err_0, lines.end)
    } else if key.result is Err {
        Parsed::refused(key.result->Err_0, key.end)
    } else if colon.result is Err {
        Parsed::refused(colon.result->Err_0, colon.end)
    } else if value.result is Err {
        Parsed::refused(value.result->Err_0, value.end)
    } else if last.result is Err {
        Parsed::refused(last.result->Err_0, last.end)
    } else {
        Parsed::done(
            KeyValueView {
                line_terminators: lines.result->Ok_0,
                space0: space0.result->Ok_0,
                key: key.result->Ok_0,
                space1: space1.result->Ok_0,
                space2: space2.result->Ok_0,
                value: value.result->Ok_0,
                line_terminator0: last.result->Ok_0,
            },
            last.end,
        )
    }
}

/// Reads a line of the form `key: value`.
pub fn key_value(reader: &mut Reader) -> (r: Result<KeyValue, Error>)
    requires
        old(reader).wf(),
    ensures
        parses(
            *old(reader),
            *final(reader),
            r,
            key_value_spec(old(reader).input(), old(reader).state.cursor as int),
        ),
{
    let line_terminators = optional_line_terminators(reader)?;
    let space0 = zero_or_more_spaces(reader)?;
    let key = match key_string::parse(reader) {
        Ok(key) => key,
        Err(e) => {
            return Err(Error::new(e.pos, true, e.inner));
        },
    };
    let space1 = zero_or_more_spaces(reader)?;
    match literal(":", reader) {
        Ok(_) => {},
        Err(e) => {
            return Err(Error::new(e.pos, true, e.inner));
        },
    }
    let space2 = zero_or_more_spaces(reader)?;
    let value = unquoted_template(reader)?;
    let line_terminator0 = line_terminator(reader)?;
    Ok(KeyValue { line_terminators, space0, key, space1, space2, value, line_terminator0 })
}

/// The rule for a header.
pub struct HeaderRule;

impl Parser for HeaderRule {
    type Output = KeyValue;

    open spec fn spec_parse(&self, input: Input, at: int) -> Parsed<KeyValueView> {
        key_value_spec(input, at)
    }

    fn parse(&self, reader: &mut Reader) -> (r: Result<KeyValue, Error>) {
        key_value(reader)
    }
}

/// What [`body`] does: it reads blank lines, blanks, the value of the
/// body, and the end of the line.
pub open spec fn body_spec(input: Input, at: int) -> Parsed<BodyView> {
    let lines = optional_line_terminators_spec(input, at);
    let space0 = zero_or_more_spaces_spec(input, lines.end);
    let value = bytes_spec(input, space0.end);
    let last = line_terminator_spec(input, value.end);
    if lines.result is Err {
        Parsed::refused(lines.result->Err_0, lines.end)
    } else if value.result is Err {
        Parsed::refused(value.result->Err_0, value.end)
    } else if last.result is Err {
        Parsed::refused(last.result->Err_0, last.end)
    } else {
        Parsed::done(
            BodyView {
                line_terminators: lines.result->Ok_0,
                space0: space0.result->Ok_0,
                value: value.result->Ok_0,
                line_terminator0: last.result->Ok_0,
            },
            last.end,
        )
    }
}

/// Reads a body.
pub fn body(reader: &mut Reader) -> (r: Result<Body, Error>)
    requires
        old(reader).wf(),
    ensures
        parses(
            *old(reader),
            *final(reader),
            r,
            body_spec(old(reader).input(), old(reader).state.cursor as int),
        ),
{
    let line_terminators = optional_line_terminators(reader)?;
    let space0 = zero_or_more_spaces(reader)?;
    let value = bytes(reader)?;
    let line_terminator0 = line_terminator(reader)?;
    Ok(Body { line_terminators, space0, value, line_terminator0 })
}

/// The rule for a body.
pub struct BodyRule;

impl Parser for BodyRule {
    type Output = Body;

    open spec fn spec_parse(&self, input: Input, at: int) -> Parsed<BodyView> {
        body_spec(input, at)
    }

    fn parse(&self, reader: &mut Reader) -> (r: Result<Body, Error>) {
        body(reader)
    }
}

/// The index of the first section from index `i` on that is of a kind
/// that came before: `captures` and `asserts` say which kinds did.
pub open spec fn duplicate_from(
    sections: Seq<RequestSectionView>,
    i: int,
    captures: bool,
    asserts: bool,
) -> Option<int>
    decreases sections.len() - i,
{
    if i < 0 || i >= sections.len() {
        None
    } else {
        match sections[i].value {
            RequestSectionValueView::Captures(_) => if captures {
                Some(i)
            } else {
                duplicate_from(sections, i + 1, true, asserts)
            },
            RequestSectionValueView::Asserts(_) => if asserts {
                Some(i)
            } else {
                duplicate_from(sections, i + 1, captures, true)
            },
        }
    }
}

/// The index of the first section that is of the same kind as one before
/// it.
pub open spec fn first_duplicate(sections: Seq<RequestSectionView>) -> Option<int> {
    duplicate_from(sections, 0, false, false)
}

/// The span of the first section that is of the same kind as one before
/// it.
pub fn duplicate_section(sections: &Vec<RequestSection>) -> (r: Option<SourceInfo>)
    ensures
        match first_duplicate(sections.deep_view()) {
            Some(i) => r == Some(sections@[i].source_info),
            None => r is None,
        },
{
    let mut captures = false;
    let mut asserts = false;
    let mut i: usize = 0;
    while i < sections.len()
        invariant
            i <= sections.len(),
            first_duplicate(sections.deep_view()) == duplicate_from(
                sections.deep_view(),
                i as int,
                captures,
                asserts,
            ),
        decreases sections.len() - i,
    {
        assert(sections.deep_view()[i as int] == sections@[i as int].deep_view());
        match &sections[i].value {
            RequestSectionValue::Captures(_) => {
                if captures {
                    return Some(sections[i].source_info);
                }
                captures = true;
            },
            RequestSectionValue::Asserts(_) => {
                if asserts {
                    return Some(sections[i].source_info);
                }
                asserts = true;
            },
        }
        i = i + 1;
    }
    None
}

/// The first line of a request, with what stands before it.
pub struct RequestLine {
    pub line_terminators: Vec<crate::ast::LineTerminator>,
    pub space0: crate::ast::Whitespace,
    pub method: Method,
    pub space1: crate::ast::Whitespace,
    pub path: crate::ast::Template,
    pub line_terminator0: crate::ast::LineTerminator,
}

/// What a [`RequestLine`] holds, as mathematical values.
pub struct RequestLineView {
    pub line_terminators: Seq<crate::ast::LineTerminatorView>,
    pub space0: crate::ast::WhitespaceView,
    pub method: MethodView,
    pub space1: crate::ast::WhitespaceView,
    pub path: crate::ast::TemplateView,
    pub line_terminator0: crate::ast::LineTerminatorView,
}

impl DeepView for RequestLine {
    type V = RequestLineView;

    open spec fn deep_view(&self) -> RequestLineView {
        RequestLineView {
            line_terminators: self.line_terminators.deep_view(),
            space0: self.space0.deep_view(),
            method: self.method.deep_view(),
            space1: self.space1.deep_view(),
            path: self.path.deep_view(),
            line_terminator0: self.line_terminator0.deep_view(),
        }
    }
}

/// What [`request_line`] does: it reads blank lines, blanks, the method,
/// blanks, the path, which is a template and runs to the end of the line,
/// and the end of the line.
pub open spec fn request_line_spec(input: Input, at: int) -> Parsed<RequestLineView> {
    let lines = optional_line_terminators_spec(input, at);
    let space0 = zero_or_more_spaces_spec(input, lines.end);
    let m = method_spec(input, space0.end);
    let space1 = one_or_more_spaces_spec(input, m.end);
    let path = unquoted_template_spec(input, space1.end);
    let line = line_terminator_spec(input, path.end);
    if lines.result is Err {
        Parsed::refused(lines.result->Err_0, lines.end)
    } else if m.result is Err {
        Parsed::refused(m.result->Err_0, m.end)
    } else if space1.result is Err {
        Parsed::refused(space1.result->Err_0, space1.end)
    } else if path.result is Err {
        Parsed::refused(path.result->Err_0, path.end)
    } else if line.result is Err {
        Parsed::refused(line.result->Err_0, line.end)
    } else {
        Parsed::done(
            RequestLineView {
                line_terminators: lines.result->Ok_0,
                space0: space0.result->Ok_0,
                method: m.result->Ok_0,
                space1: space1.result->Ok_0,
                path: path.result->Ok_0,
                line_terminator0: line.result->Ok_0,
            },
            line.end,
        )
    }
}

/// Reads the first line of a request, with what stands before it.
pub fn request_line(reader: &mut Reader) -> (r: Result<RequestLine, Error>)
    requires
        old(reader).wf(),
    ensures
        parses(
            *old(reader),
            *final(reader),
            r,
            request_line_spec(old(reader).input(), old(reader).state.cursor as int),
        ),
        r is Ok ==> old(reader).state.cursor < final(reader).state.cursor,
{
    let line_terminators = optional_line_terminators(reader)?;
    let space0 = zero_or_more_spaces(reader)?;
    let m = method(reader)?;
    let space1 = one_or_more_spaces(reader)?;
    let path = unquoted_template(reader)?;
    let line_terminator0 = line_terminator(reader)?;
    Ok(RequestLine { line_terminators, space0, method: m, space1, path, line_terminator0 })
}

/// What [`checked_sections`] does: it reads the sections of a request. Two
/// sections of the same kind are a failure without a way back, reported at
/// the second one.
pub open spec fn checked_sections_spec(input: Input, at: int) -> Parsed<Seq<RequestSectionView>> {
    let sections = request_sections_spec(input, at);
    match sections.result {
        Err(_) => sections,
        Ok(found) => Parsed { result: without_duplicates(found), end: sections.end },
    }
}

/// Reads the sections of a request and makes sure that no two are of the
/// same kind.
pub fn checked_sections(reader: &mut Reader) -> (r: Result<Vec<RequestSection>, Error>)
    requires
        old(reader).wf(),
    ensures
        parses(
            *old(reader),
            *final(reader),
            r,
            checked_sections_spec(old(reader).input(), old(reader).state.cursor as int),
        ),
{
    let sections = request_sections(reader)?;
    reject_duplicates(sections)
}

/// The failure that two sections of the same kind give, or the sections
/// themselves where there are no two such.
pub open spec fn without_duplicates(sections: Seq<RequestSectionView>) -> Result<
    Seq<RequestSectionView>,
    crate::parser::error::ErrorView,
> {
    match first_duplicate(sections) {
        None => Ok(sections),
        Some(i) => Err(
            crate::parser::error::ErrorView {
                pos: sections[i].source_info.start,
                recoverable: false,
                inner: ParseErrorView::DuplicateSection,
            },
        ),
    }
}

/// Hands the sections on, unless two of them are of the same kind.
pub fn reject_duplicates(sections: Vec<RequestSection>) -> (r: Result<Vec<RequestSection>, Error>)
    ensures
        crate::parser::outcome::yields(r, without_duplicates(sections.deep_view())),
{
    proof {
        let found = sections.deep_view();
        if first_duplicate(found) is Some {
            let i = first_duplicate(found)->Some_0;
            lemma_duplicate_bounds(found, 0, false, false);
            assert(found[i] == sections@[i].deep_view());
        }
    }
    if let Some(source_info) = duplicate_section(&sections) {
        return Err(Error::new(source_info.start, false, ParseError::DuplicateSection));
    }
    Ok(sections)
}

/// What [`request`] does: it reads the first line of the request, then
/// headers, sections, and a body if there is one.
pub open spec fn request_spec(input: Input, at: int) -> Parsed<RequestView> {
    let first = request_line_spec(input, at);
    let headers = repeat_spec(HeaderRule, input, first.end, Seq::empty());
    let sections = checked_sections_spec(input, headers.end);
    let b = optional_spec(body_spec(input, sections.end), sections.end);
    if first.result is Err {
        Parsed::refused(first.result->Err_0, first.end)
    } else if headers.result is Err {
        Parsed::refused(headers.result->Err_0, headers.end)
    } else if sections.result is Err {
        Parsed::refused(sections.result->Err_0, sections.end)
    } else if b.result is Err {
        Parsed::refused(b.result->Err_0, b.end)
    } else {
        Parsed::done(
            RequestView {
                line_terminators: first.result->Ok_0.line_terminators,
                space0: first.result->Ok_0.space0,
                method: first.result->Ok_0.method,
                space1: first.result->Ok_0.space1,
                path: first.result->Ok_0.path,
                line_terminator0: first.result->Ok_0.line_terminator0,
                headers: headers.result->Ok_0,
                sections: sections.result->Ok_0,
                body: b.result->Ok_0,
                source_info: input.span(at, b.end),
            },
            b.end,
        )
    }
}

/// Reads a request.
pub fn request(reader: &mut Reader) -> (r: Result<Request, Error>)
    requires
        old(reader).wf(),
    ensures
        parses(
            *old(reader),
            *final(reader),
            r,
            request_spec(old(reader).input(), old(reader).state.cursor as int),
        ),
        r is Ok ==> old(reader).state.cursor < final(reader).state.cursor,
{
    let start = reader.state;
    let first = request_line(reader)?;
    let headers = zero_or_more(&HeaderRule, reader)?;
    let sections = checked_sections(reader)?;
    let b = optional(&BodyRule, reader)?;
    let source_info = SourceInfo::new(start.pos, reader.state.pos);
    Ok(
        Request {
            line_terminators: first.line_terminators,
            space0: first.space0,
            method: first.method,
            space1: first.space1,
            path: first.path,
            line_terminator0: first.line_terminator0,
            headers,
            sections,
            body: b,
            source_info,
        },
    )
}

/// The index of a duplicate lies within the sections.
pub proof fn lemma_duplicate_bounds(
    sections: Seq<RequestSectionView>,
    i: int,
    captures: bool,
    asserts: bool,
)
    requires
        0 <= i,
    ensures
        duplicate_from(sections, i, captures, asserts) matches Some(j) ==> i <= j < sections.len(),
    decreases sections.len() - i,
{
    if i < sections.len() {
        match sections[i].value {
            RequestSectionValueView::Captures(_) => {
                if !captures {
                    lemma_duplicate_bounds(sections, i + 1, true, asserts);
                }
            },
            RequestSectionValueView::Asserts(_) => {
                if !asserts {
                    lemma_duplicate_bounds(sections, i + 1, captures, true);
                }
            },
        }
    }
}

/// What [`response`] does: it reads blank lines, the version, blanks, the
/// status, blanks, the end of the line, headers, and a body if there is
/// one.
pub open spec fn response_spec(input: Input, at: int) -> Parsed<ResponseView> {
    let lines = optional_line_terminators_spec(input, at);
    let v = version_spec(input, lines.end);
    let space0 = one_or_more_spaces_spec(input, v.end);
    let s = status_spec(input, space0.end);
    let space1 = zero_or_more_spaces_spec(input, s.end);
    let line = line_terminator_spec(input, space1.end);
    let headers = repeat_spec(HeaderRule, input, line.end, Seq::empty());
    let b = optional_spec(body_spec(input, headers.end), headers.end);
    if lines.result is Err {
        Parsed::refused(lines.result->Err_0, lines.end)
    } else if v.result is Err {
        Parsed::refused(v.result->Err_0, v.end)
    } else if space0.result is Err {
        Parsed::refused(space0.result->Err_0, space0.end)
    } else if s.result is Err {
        Parsed::refused(s.result->Err_0, s.end)
    } else if line.result is Err {
        Parsed::refused(line.result->Err_0, line.end)
    } else if headers.result is Err {
        Parsed::refused(headers.result->Err_0, headers.end)
    } else if b.result is Err {
        Parsed::refused(b.result->Err_0, b.end)
    } else {
        Parsed::done(
            ResponseView {
                line_terminators: lines.result->Ok_0,
                version: v.result->Ok_0,
                space0: space0.result->Ok_0,
                status: s.result->Ok_0,
                space1: space1.result->Ok_0,
                line_terminator0: line.result->Ok_0,
                headers: headers.result->Ok_0,
                body: b.result->Ok_0,
                source_info: input.span(at, b.end),
            },
            b.end,
        )
    }
}

/// Reads a response.
pub fn response(reader: &mut Reader) -> (r: Result<Response, Error>)
    requires
        old(reader).wf(),
    ensures
        parses(
            *old(reader),
            *final(reader),
            r,
            response_spec(old(reader).input(), old(reader).state.cursor as int),
        ),
{
    let start = reader.state;
    let line_terminators = optional_line_terminators(reader)?;
    let v = version(reader)?;
    let space0 = one_or_more_spaces(reader)?;
    let s = status(reader)?;
    let space1 = zero_or_more_spaces(reader)?;
    let line_terminator0 = line_terminator(reader)?;
    let headers = zero_or_more(&HeaderRule, reader)?;
    let b = optional(&BodyRule, reader)?;
    Ok(
        Response {
            line_terminators,
            version: v,
            space0,
            status: s,
            space1,
            line_terminator0,
            headers,
            body: b,
            source_info: SourceInfo::new(start.pos, reader.state.pos),
        },
    )
}

/// What [`entry`] does: it reads a request and the response that follows
/// it. After the request every failure is one without a way back: a
/// request must have its response.
pub open spec fn entry_spec(input: Input, at: int) -> Parsed<EntryView> {
    let req = request_spec(input, at);
    let resp = response_spec(input, req.end);
    match (req.result, resp.result) {
        (Err(error), _) => Parsed::refused(error, req.end),
        (Ok(_), Err(error)) => Parsed::failed(error.pos, false, error.inner, resp.end),
        (Ok(request), Ok(response)) => Parsed::done(EntryView { request, response }, resp.end),
    }
}

/// Reads an entry.
pub fn entry(reader: &mut Reader) -> (r: Result<Entry, Error>)
    requires
        old(reader).wf(),
    ensures
        parses(
            *old(reader),
            *final(reader),
            r,
            entry_spec(old(reader).input(), old(reader).state.cursor as int),
        ),
{
    let req = request(reader)?;
    let resp = match response(reader) {
        Ok(resp) => resp,
        Err(e) => {
            return Err(e.non_recoverable());
        },
    };
    Ok(Entry { request: req, response: resp })
}

/// The rule for an entry.
pub struct EntryRule;

impl Parser for EntryRule {
    type Output = Entry;

    open spec fn spec_parse(&self, input: Input, at: int) -> Parsed<EntryView> {
        entry_spec(input, at)
    }

    fn parse(&self, reader: &mut Reader) -> (r: Result<Entry, Error>) {
        entry(reader)
    }
}

/// What [`impostor_file`] does: it reads entries, as many as follow, then
/// blank lines, and must then stand at the end of the input.
pub open spec fn impostor_file_spec(input: Input, at: int) -> Parsed<ImpostorFileView> {
    let entries = repeat_spec(EntryRule, input, at, Seq::empty());
    let lines = optional_line_terminators_spec(input, entries.end);
    let end = eof_spec(input, lines.end);
    match (entries.result, lines.result, end.result) {
        (Err(error), _, _) => Parsed::refused(error, entries.end),
        (Ok(_), Err(error), _) => Parsed::refused(error, lines.end),
        (Ok(_), Ok(_), Err(error)) => Parsed::refused(error, end.end),
        (Ok(entries), Ok(line_terminators), Ok(_)) => Parsed::done(
            ImpostorFileView { entries, line_terminators },
            end.end,
        ),
    }
}

/// Reads a whole mock file.
pub fn impostor_file(reader: &mut Reader) -> (r: Result<ImpostorFile, Error>)
    requires
        old(reader).wf(),
    ensures
        parses(
            *old(reader),
            *final(reader),
            r,
            impostor_file_spec(old(reader).input(), old(reader).state.cursor as int),
        ),
{
    let entries = zero_or_more(&EntryRule, reader)?;
    let line_terminators = optional_line_terminators(reader)?;
    eof(reader)?;
    Ok(ImpostorFile { entries, line_terminators })
}

/// What [`parse_impostor_file`] returns for the text `text`: what reading
/// a whole mock file gives from the start of the text, whose first
/// character stands at line 1 and column 1.
pub open spec fn parse_impostor_file_spec(text: Seq<char>) -> Result<
    ImpostorFileView,
    crate::parser::error::ErrorView,
> {
    impostor_file_spec(Input { text, origin: crate::ast::Pos { line: 1, column: 1 } }, 0).result
}

/// Parses the text of a mock file into its syntax tree.
pub fn parse_impostor_file(s: &str) -> (r: Result<ImpostorFile, Error>)
    ensures
        crate::parser::outcome::yields(r, parse_impostor_file_spec(s@)),
{
    let mut reader = Reader::new(s);
    impostor_file(&mut reader)
}

/// A mock file that parses was read to its end: nothing of the text is
/// left out of the tree.
pub proof fn law_file_read_to_end(text: Seq<char>)
    requires
        parse_impostor_file_spec(text) is Ok,
    ensures
        impostor_file_spec(
            Input { text, origin: crate::ast::Pos { line: 1, column: 1 } },
            0,
        ).end >= text.len(),
{
    let input = Input { text, origin: crate::ast::Pos { line: 1, column: 1 } };
    let entries = repeat_spec(EntryRule, input, 0, Seq::empty());
    let lines = optional_line_terminators_spec(input, entries.end);
    assert(eof_spec(input, lines.end).result is Ok);
}

} // verus!
