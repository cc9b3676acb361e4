use crate::ast::{
    Assert, AssertView, Capture, CaptureView, RequestSection, RequestSectionValue,
    RequestSectionValueView, RequestSectionView, SourceInfo,
};
use crate::parser::combinators::{repeat_spec, zero_or_more, Parser};
use crate::parser::error::{Error, ParseError, ParseErrorView};
use crate::parser::filter::{filters, filters_spec};
use crate::parser::key_string;
use crate::parser::outcome::{parses, recovered, Parsed};
use crate::parser::predicate::{predicate, predicate_spec};
use crate::parser::primitives::{
    line_terminator, line_terminator_spec, literal, literal_spec, one_or_more_spaces,
    one_or_more_spaces_spec, optional_line_terminators, optional_line_terminators_spec,
    zero_or_more_spaces, zero_or_more_spaces_spec,
};
use crate::parser::query::{query, query_spec};
use crate::parser::reader::{lemma_run_end_unique, Input, Reader};
use vstd::prelude::*;

verus! {

/// What [`capture`] does: it reads blank lines, blanks, a name, blanks, a
/// colon, blanks, a query, filters, and the end of the line. Up to the
/// colon every failure leaves the way open.
pub open spec fn capture_spec(input: Input, at: int) -> Parsed<CaptureView> {
    let lines = optional_line_terminators_spec(input, at);
    let space0 = zero_or_more_spaces_spec(input, lines.end);
    let name = recovered(key_string::parse_spec(input, space0.end));
    let space1 = zero_or_more_spaces_spec(input, name.end);
    let colon = recovered(literal_spec(input, space1.end, ":"@));
    let space2 = zero_or_more_spaces_spec(input, colon.end);
    let q = query_spec(input, space2.end);
    let f = filters_spec(input, q.end);
    let last = line_terminator_spec(input, f.end);
    if lines.result is Err {
        Parsed::refused(lines.result->Err_0, lines.end)
    } else if name.result is Err {
        Parsed::refused(name.result->Err_0, name.end)
    } else if colon.result is Err {
        Parsed::refused(colon.result->Err_0, colon.end)
    } else if q.result is Err {
        Parsed::refused(q.result->Err_0, q.end)
    } else if f.result is Err {
        Parsed::refused(f.result->Err_0, f.end)
    } else if last.result is Err {
        Parsed::refused(last.result->Err_0, last.end)
    } else {
        Parsed::done(
            CaptureView {
                line_terminators: lines.result->Ok_0,
                space0: space0.result->Ok_0,
                name: name.result->Ok_0,
                space1: space1.result->Ok_0,
                space2: space2.result->Ok_0,
                query: q.result->Ok_0,
                filters: f.result->Ok_0,
                line_terminator0: last.result->Ok_0,
            },
            last.end,
        )
    }
}

/// Reads a capture.
pub fn capture(reader: &mut Reader) -> (r: Result<Capture, Error>)
    requires
        old(reader).wf(),
    ensures
        parses(
            *old(reader),
            *final(reader),
            r,
            capture_spec(old(reader).input(), old(reader).state.cursor as int),
        ),
{
    let line_terminators = optional_line_terminators(reader)?;
    let space0 = zero_or_more_spaces(reader)?;
    let name = match key_string::parse(reader) {
        Ok(name) => name,
        Err(e) => {
            return Err(Error::new(e.pos, true, e.inner));
        },
    };
    let space1 = zero_or_more_spaces(reader)?;
    match literal(":", reader) {
        Ok(_) => {},
        Err(e) => {
            return Err(Error::new(e.pos, true, e.inner));
        },
    }
    let space2 = zero_or_more_spaces(reader)?;
    let q = query(reader)?;
    let filters = filters(reader)?;
    let line_terminator0 = line_terminator(reader)?;
    Ok(Capture { line_terminators, space0, name, space1, space2, query: q, filters, line_terminator0 })
}

/// The rule for a capture.
pub struct CaptureRule;

impl Parser for CaptureRule {
    type Output = Capture;

    open spec fn spec_parse(&self, input: Input, at: int) -> Parsed<CaptureView> {
        capture_spec(input, at)
    }

    fn parse(&self, reader: &mut Reader) -> (r: Result<Capture, Error>) {
        capture(reader)
    }
}

/// What [`assert_line`] does: it reads blank lines, blanks, a query, filters,
/// blanks, a predicate, and the end of the line.
pub open spec fn assert_spec(input: Input, at: int) -> Parsed<AssertView> {
    let lines = optional_line_terminators_spec(input, at);
    let space0 = zero_or_more_spaces_spec(input, lines.end);
    let q = query_spec(input, space0.end);
    let f = filters_spec(input, q.end);
    let space1 = one_or_more_spaces_spec(input, f.end);
    let p = predicate_spec(input, space1.end);
    let last = line_terminator_spec(input, p.end);
    if lines.result is Err {
        Parsed::refused(lines.result->Err_0, lines.end)
    } else if q.result is Err {
        Parsed::refused(q.result->Err_0, q.end)
    } else if f.result is Err {
        Parsed::refused(f.result->Err_0, f.end)
    } else if space1.result is Err {
        Parsed::refused(space1.result->Err_0, space1.end)
    } else if p.result is Err {
        Parsed::refused(p.result->Err_0, p.end)
    } else if last.result is Err {
        Parsed::refused(last.result->Err_0, last.end)
    } else {
        Parsed::done(
            AssertView {
                line_terminators: lines.result->Ok_0,
                space0: space0.result->Ok_0,
                query: q.result->Ok_0,
                filters: f.result->Ok_0,
                space1: space1.result->Ok_0,
                predicate: p.result->Ok_0,
                line_terminator0: last.result->Ok_0,
            },
            last.end,
        )
    }
}

/// Reads an assert.
pub fn assert_line(reader: &mut Reader) -> (r: Result<Assert, Error>)
    requires
        old(reader).wf(),
    ensures
        parses(
            *old(reader),
            *final(reader),
            r,
            assert_spec(old(reader).input(), old(reader).state.cursor as int),
        ),
{
    let line_terminators = optional_line_terminators(reader)?;
    let space0 = zero_or_more_spaces(reader)?;
    let query0 = query(reader)?;
    let filters = filters(reader)?;
    let space1 = one_or_more_spaces(reader)?;
    let predicate0 = predicate(reader)?;
    let line_terminator0 = line_terminator(reader)?;
    Ok(
        Assert {
            line_terminators,
            space0,
            query: query0,
            filters,
            space1,
            predicate: predicate0,
            line_terminator0,
        },
    )
}

/// The rule for an assert.
pub struct AssertRule;

impl Parser for AssertRule {
    type Output = Assert;

    open spec fn spec_parse(&self, input: Input, at: int) -> Parsed<AssertView> {
        assert_spec(input, at)
    }

    fn parse(&self, reader: &mut Reader) -> (r: Result<Assert, Error>) {
        assert_line(reader)
    }
}

/// Whether `c` may stand in the name of a section: a letter or a digit of
/// ASCII.
pub open spec fn is_section_char(c: char) -> bool {
    'a' <= c <= 'z' || 'A' <= c <= 'Z' || '0' <= c <= '9'
}

/// The class of the characters of the name of a section.
pub open spec fn section_chars() -> spec_fn(char) -> bool {
    |c: char| is_section_char(c)
}

/// What [`section_name`] does: it reads a name between square brackets.
/// Every failure leaves the way open, with nothing read: what stands there
/// may be the start of a body.
pub open spec fn section_name_spec(input: Input, at: int) -> Parsed<Seq<char>> {
    let end = input.run_end(at + 1, section_chars());
    if input.at(at) != Some('[') {
        Parsed::failed(input.pos_at(at), true, ParseErrorView::Expecting { value: "["@ }, at)
    } else if end == at + 1 {
        Parsed::failed(
            input.pos_at(at),
            true,
            ParseErrorView::Expecting { value: "a valid section name"@ },
            at,
        )
    } else if input.at(end) != Some(']') {
        Parsed::failed(input.pos_at(end), true, ParseErrorView::Expecting { value: "]"@ }, at)
    } else {
        Parsed::done(input.slice(at + 1, end), end + 1)
    }
}

/// Reads the name of a section, between square brackets.
pub fn section_name(reader: &mut Reader) -> (r: Result<String, Error>)
    requires
        old(reader).wf(),
    ensures
        parses(
            *old(reader),
            *final(reader),
            r,
            section_name_spec(old(reader).input(), old(reader).state.cursor as int),
        ),
        r is Ok ==> old(reader).state.cursor < final(reader).state.cursor,
{
    let start = reader.state;
    if reader.peek() != Some('[') {
        return Err(Error::new(start.pos, true, ParseError::Expecting { value: "[".to_owned() }));
    }
    reader.read();
    let from = reader.state.cursor;
    let allowed = |c: &char| -> (b: bool)
        ensures
            b == is_section_char(*c),
        { ('a' <= *c && *c <= 'z') || ('A' <= *c && *c <= 'Z') || ('0' <= *c && *c <= '9') };
    let name = reader.read_while(allowed);
    proof {
        lemma_run_end_unique(
            reader.input(),
            from as int,
            reader.state.cursor as int,
            section_chars(),
        );
    }
    if reader.state.cursor == from {
        // this may be the empty list of a body in JSON
        reader.state = start;
        let inner = ParseError::Expecting { value: "a valid section name".to_owned() };
        return Err(Error::new(start.pos, true, inner));
    }
    if reader.peek() != Some(']') {
        let pos = reader.state.pos;
        reader.state = start;
        return Err(Error::new(pos, true, ParseError::Expecting { value: "]".to_owned() }));
    }
    reader.read();
    Ok(name)
}

/// What a section of the name `name` holds from index `at` on: captures
/// or asserts, as many as follow. Any other name is a failure without a
/// way back, reported at `start`, where the name stands.
pub open spec fn section_value_spec(input: Input, at: int, name: Seq<char>, start: int) -> Parsed<
    RequestSectionValueView,
> {
    let captures = repeat_spec(CaptureRule, input, at, Seq::empty());
    let asserts = repeat_spec(AssertRule, input, at, Seq::empty());
    if name == "Captures"@ {
        match captures.result {
            Ok(found) => Parsed::done(RequestSectionValueView::Captures(found), captures.end),
            Err(error) => Parsed::refused(error, captures.end),
        }
    } else if name == "Asserts"@ {
        match asserts.result {
            Ok(found) => Parsed::done(RequestSectionValueView::Asserts(found), asserts.end),
            Err(error) => Parsed::refused(error, asserts.end),
        }
    } else {
        Parsed::failed(
            input.pos_at(start),
            false,
            ParseErrorView::Expecting { value: "a valid section name"@ },
            at,
        )
    }
}

/// What [`request_section`] does: it reads blank lines, blanks, the name
/// of the section between square brackets, the end of the line, and what
/// the section holds. The span of the section is that of its name with the
/// brackets.
pub open spec fn request_section_spec(input: Input, at: int) -> Parsed<RequestSectionView> {
    let lines = optional_line_terminators_spec(input, at);
    let space0 = zero_or_more_spaces_spec(input, lines.end);
    let name = section_name_spec(input, space0.end);
    let line = line_terminator_spec(input, name.end);
    let value = section_value_spec(input, line.end, name.result->Ok_0, space0.end);
    if lines.result is Err {
        Parsed::refused(lines.result->Err_0, lines.end)
    } else if name.result is Err {
        Parsed::refused(name.result->Err_0, name.end)
    } else if line.result is Err {
        Parsed::refused(line.result->Err_0, line.end)
    } else if value.result is Err {
        Parsed::refused(value.result->Err_0, value.end)
    } else {
        Parsed::done(
            RequestSectionView {
                line_terminators: lines.result->Ok_0,
                space0: space0.result->Ok_0,
                line_terminator0: line.result->Ok_0,
                value: value.result->Ok_0,
                source_info: input.span(space0.end, name.end),
            },
            value.end,
        )
    }
}

/// Reads a section of a request.
pub fn request_section(reader: &mut Reader) -> (r: Result<RequestSection, Error>)
    requires
        old(reader).wf(),
    ensures
        parses(
            *old(reader),
            *final(reader),
            r,
            request_section_spec(old(reader).input(), old(reader).state.cursor as int),
        ),
{
    let line_terminators = optional_line_terminators(reader)?;
    let space0 = zero_or_more_spaces(reader)?;
    let start = reader.state;
    let name = section_name(reader)?;
    let source_info = SourceInfo::new(start.pos, reader.state.pos);
    let line_terminator0 = line_terminator(reader)?;
    let value = if name == "Captures".to_owned() {
        RequestSectionValue::Captures(zero_or_more(&CaptureRule, reader)?)
    } else if name == "Asserts".to_owned() {
        RequestSectionValue::Asserts(zero_or_more(&AssertRule, reader)?)
    } else {
        let inner = ParseError::Expecting { value: "a valid section name".to_owned() };
        return Err(Error::new(start.pos, false, inner));
    };
    Ok(RequestSection { line_terminators, space0, line_terminator0, value, source_info })
}

/// The rule for a section of a request.
pub struct SectionRule;

impl Parser for SectionRule {
    type Output = RequestSection;

    open spec fn spec_parse(&self, input: Input, at: int) -> Parsed<RequestSectionView> {
        request_section_spec(input, at)
    }

    fn parse(&self, reader: &mut Reader) -> (r: Result<RequestSection, Error>) {
        request_section(reader)
    }
}

/// What [`request_sections`] does: it reads the sections at `at`, as many
/// as follow.
pub open spec fn request_sections_spec(input: Input, at: int) -> Parsed<Seq<RequestSectionView>> {
    repeat_spec(SectionRule, input, at, Seq::empty())
}

/// Reads the sections of a request.
pub fn request_sections(reader: &mut Reader) -> (r: Result<Vec<RequestSection>, Error>)
    requires
        old(reader).wf(),
    ensures
        parses(
            *old(reader),
            *final(reader),
            r,
            request_sections_spec(old(reader).input(), old(reader).state.cursor as int),
        ),
{
    zero_or_more(&SectionRule, reader)
}

} // verus!
