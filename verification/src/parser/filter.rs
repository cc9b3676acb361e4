use crate::ast::{
    Filter, FilterValue, FilterValueView, FilterView, RegexValueView, SourceInfo, TemplateView,
    Whitespace, WhitespaceView,
};
use crate::parser::combinators::{choice, choice_spec, Parser};
use crate::parser::error::{Error, ParseError, ParseErrorView};
use crate::parser::number::{natural, natural_spec};
use crate::parser::outcome::{mapped, parses, Parsed};
use crate::parser::primitives::{
    one_or_more_spaces, one_or_more_spaces_spec, try_literal, try_literal_spec,
    zero_or_more_spaces, zero_or_more_spaces_spec,
};
use crate::parser::query::{
    keyword_template, keyword_template_spec, regex_value, regex_value_spec,
};
use crate::parser::reader::{Input, Reader};
use crate::parser::string::{quoted_template, quoted_template_spec};
use vstd::prelude::*;

verus! {

/// Reading a filter that only the word `name` stands for.
pub open spec fn word_spec(input: Input, at: int, name: Seq<char>, value: FilterValueView)
    -> Parsed<FilterValueView> {
    match try_literal_spec(input, at, name).result {
        Ok(_) => Parsed::done(value, at + name.len()),
        Err(error) => Parsed::refused(error, at),
    }
}

/// Reads a filter that only a word stands for.
pub fn word(name: &str, value: FilterValue, reader: &mut Reader) -> (r: Result<
    FilterValue,
    Error,
>)
    requires
        old(reader).wf(),
    ensures
        parses(
            *old(reader),
            *final(reader),
            r,
            word_spec(
                old(reader).input(),
                old(reader).state.cursor as int,
                name@,
                value.deep_view(),
            ),
        ),
{
    try_literal(name, reader)?;
    Ok(value)
}

/// What reading the filter `nth` does: the word, blanks, and a natural
/// number. Without the word the failure leaves the way open and nothing is
/// read; after it every failure is one without a way back.
pub open spec fn nth_filter_spec(input: Input, at: int) -> Parsed<FilterValueView> {
    let space0 = one_or_more_spaces_spec(input, at + "nth"@.len());
    let n = natural_spec(input, space0.end);
    match (try_literal_spec(input, at, "nth"@).result, space0.result, n.result) {
        (Err(error), _, _) => Parsed::refused(error, at),
        (Ok(_), Err(error), _) => Parsed::refused(error, space0.end),
        (Ok(_), Ok(_), Err(error)) => Parsed::failed(error.pos, false, error.inner, n.end),
        (Ok(_), Ok(space0), Ok(found)) => Parsed::done(
            FilterValueView::Nth { space0, n: found },
            n.end,
        ),
    }
}

/// Reads the filter `nth`.
pub fn nth_filter(reader: &mut Reader) -> (r: Result<FilterValue, Error>)
    requires
        old(reader).wf(),
    ensures
        parses(
            *old(reader),
            *final(reader),
            r,
            nth_filter_spec(old(reader).input(), old(reader).state.cursor as int),
        ),
{
    try_literal("nth", reader)?;
    let space0 = one_or_more_spaces(reader)?;
    let n = match natural(reader) {
        Ok(n) => n,
        Err(e) => {
            return Err(e.non_recoverable());
        },
    };
    Ok(FilterValue::Nth { space0, n })
}

/// Reading a word, blanks, and a pattern. Without the word the failure
/// leaves the way open and nothing is read.
pub open spec fn keyword_pattern_spec(input: Input, at: int, keyword: Seq<char>) -> Parsed<
    (WhitespaceView, RegexValueView),
> {
    let space0 = one_or_more_spaces_spec(input, at + keyword.len());
    let value = regex_value_spec(input, space0.end);
    match (try_literal_spec(input, at, keyword).result, space0.result, value.result) {
        (Err(error), _, _) => Parsed::refused(error, at),
        (Ok(_), Err(error), _) => Parsed::refused(error, space0.end),
        (Ok(_), Ok(_), Err(error)) => Parsed::failed(error.pos, false, error.inner, value.end),
        (Ok(_), Ok(space0), Ok(found)) => Parsed::done((space0, found), value.end),
    }
}

/// Reads a word, blanks, and a pattern.
pub fn keyword_pattern(keyword: &str, reader: &mut Reader) -> (r: Result<
    (Whitespace, crate::ast::RegexValue),
    Error,
>)
    requires
        old(reader).wf(),
    ensures
        parses(
            *old(reader),
            *final(reader),
            r,
            keyword_pattern_spec(old(reader).input(), old(reader).state.cursor as int, keyword@),
        ),
{
    try_literal(keyword, reader)?;
    let space0 = one_or_more_spaces(reader)?;
    let value = match regex_value(reader) {
        Ok(value) => value,
        Err(e) => {
            return Err(e.non_recoverable());
        },
    };
    Ok((space0, value))
}

/// What reading the filter `regex` does.
pub open spec fn regex_filter_spec(input: Input, at: int) -> Parsed<FilterValueView> {
    mapped(
        keyword_pattern_spec(input, at, "regex"@),
        |found: (WhitespaceView, RegexValueView)|
            FilterValueView::Regex { space0: found.0, value: found.1 },
    )
}

/// Reads the filter `regex`.
pub fn regex_filter(reader: &mut Reader) -> (r: Result<FilterValue, Error>)
    requires
        old(reader).wf(),
    ensures
        parses(
            *old(reader),
            *final(reader),
            r,
            regex_filter_spec(old(reader).input(), old(reader).state.cursor as int),
        ),
{
    let (space0, value) = keyword_pattern("regex", reader)?;
    Ok(FilterValue::Regex { space0, value })
}

/// What reading the filter `replace` does: the word, blanks, the pattern
/// to look for, blanks, and between double quotes the text to put in its
/// place. After the word every failure is one without a way back.
pub open spec fn replace_filter_spec(input: Input, at: int) -> Parsed<FilterValueView> {
    let old_value = keyword_pattern_spec(input, at, "replace"@);
    let space1 = one_or_more_spaces_spec(input, old_value.end);
    let new_value = quoted_template_spec(input, space1.end);
    match (old_value.result, space1.result, new_value.result) {
        (Err(error), _, _) => Parsed::refused(error, old_value.end),
        (Ok(_), Err(error), _) => Parsed::refused(error, space1.end),
        (Ok(_), Ok(_), Err(error)) => Parsed::failed(
            error.pos,
            false,
            error.inner,
            new_value.end,
        ),
        (Ok(found), Ok(space1), Ok(replacement)) => Parsed::done(
            FilterValueView::Replace {
                space0: found.0,
                old_value: found.1,
                space1,
                new_value: replacement,
            },
            new_value.end,
        ),
    }
}

/// Reads the filter `replace`.
pub fn replace_filter(reader: &mut Reader) -> (r: Result<FilterValue, Error>)
    requires
        old(reader).wf(),
    ensures
        parses(
            *old(reader),
            *final(reader),
            r,
            replace_filter_spec(old(reader).input(), old(reader).state.cursor as int),
        ),
{
    let (space0, old_value) = keyword_pattern("replace", reader)?;
    let space1 = one_or_more_spaces(reader)?;
    let new_value = match quoted_template(reader) {
        Ok(value) => value,
        Err(e) => {
            return Err(e.non_recoverable());
        },
    };
    Ok(FilterValue::Replace { space0, old_value, space1, new_value })
}

/// What reading the filter `decode` does.
pub open spec fn decode_filter_spec(input: Input, at: int) -> Parsed<FilterValueView> {
    mapped(
        keyword_template_spec(input, at, "decode"@),
        |found: (WhitespaceView, TemplateView)|
            FilterValueView::Decode { space0: found.0, encoding: found.1 },
    )
}

/// Reads the filter `decode`.
pub fn decode_filter(reader: &mut Reader) -> (r: Result<FilterValue, Error>)
    requires
        old(reader).wf(),
    ensures
        parses(
            *old(reader),
            *final(reader),
            r,
            decode_filter_spec(old(reader).input(), old(reader).state.cursor as int),
        ),
{
    let (space0, encoding) = keyword_template("decode", reader)?;
    Ok(FilterValue::Decode { space0, encoding })
}

/// What reading the filter `format` does.
pub open spec fn format_filter_spec(input: Input, at: int) -> Parsed<FilterValueView> {
    mapped(
        keyword_template_spec(input, at, "format"@),
        |found: (WhitespaceView, TemplateView)|
            FilterValueView::Format { space0: found.0, fmt: found.1 },
    )
}

/// Reads the filter `format`.
pub fn format_filter(reader: &mut Reader) -> (r: Result<FilterValue, Error>)
    requires
        old(reader).wf(),
    ensures
        parses(
            *old(reader),
            *final(reader),
            r,
            format_filter_spec(old(reader).input(), old(reader).state.cursor as int),
        ),
{
    let (space0, fmt) = keyword_template("format", reader)?;
    Ok(FilterValue::Format { space0, fmt })
}

/// What reading the filter `jsonpath` does.
pub open spec fn jsonpath_filter_spec(input: Input, at: int) -> Parsed<FilterValueView> {
    mapped(
        keyword_template_spec(input, at, "jsonpath"@),
        |found: (WhitespaceView, TemplateView)|
            FilterValueView::JsonPath { space0: found.0, expr: found.1 },
    )
}

/// Reads the filter `jsonpath`.
pub fn jsonpath_filter(reader: &mut Reader) -> (r: Result<FilterValue, Error>)
    requires
        old(reader).wf(),
    ensures
        parses(
            *old(reader),
            *final(reader),
            r,
            jsonpath_filter_spec(old(reader).input(), old(reader).state.cursor as int),
        ),
{
    let (space0, expr) = keyword_template("jsonpath", reader)?;
    Ok(FilterValue::JsonPath { space0, expr })
}

/// What reading the filter `split` does.
pub open spec fn split_filter_spec(input: Input, at: int) -> Parsed<FilterValueView> {
    mapped(
        keyword_template_spec(input, at, "split"@),
        |found: (WhitespaceView, TemplateView)|
            FilterValueView::Split { space0: found.0, sep: found.1 },
    )
}

/// Reads the filter `split`.
pub fn split_filter(reader: &mut Reader) -> (r: Result<FilterValue, Error>)
    requires
        old(reader).wf(),
    ensures
        parses(
            *old(reader),
            *final(reader),
            r,
            split_filter_spec(old(reader).input(), old(reader).state.cursor as int),
        ),
{
    let (space0, sep) = keyword_template("split", reader)?;
    Ok(FilterValue::Split { space0, sep })
}

/// What reading the filter `toDate` does.
pub open spec fn to_date_filter_spec(input: Input, at: int) -> Parsed<FilterValueView> {
    mapped(
        keyword_template_spec(input, at, "toDate"@),
        |found: (WhitespaceView, TemplateView)|
            FilterValueView::ToDate { space0: found.0, fmt: found.1 },
    )
}

/// Reads the filter `toDate`.
pub fn to_date_filter(reader: &mut Reader) -> (r: Result<FilterValue, Error>)
    requires
        old(reader).wf(),
    ensures
        parses(
            *old(reader),
            *final(reader),
            r,
            to_date_filter_spec(old(reader).input(), old(reader).state.cursor as int),
        ),
{
    let (space0, fmt) = keyword_template("toDate", reader)?;
    Ok(FilterValue::ToDate { space0, fmt })
}

/// What reading the filter `xpath` does.
pub open spec fn xpath_filter_spec(input: Input, at: int) -> Parsed<FilterValueView> {
    mapped(
        keyword_template_spec(input, at, "xpath"@),
        |found: (WhitespaceView, TemplateView)|
            FilterValueView::XPath { space0: found.0, expr: found.1 },
    )
}

/// Reads the filter `xpath`.
pub fn xpath_filter(reader: &mut Reader) -> (r: Result<FilterValue, Error>)
    requires
        old(reader).wf(),
    ensures
        parses(
            *old(reader),
            *final(reader),
            r,
            xpath_filter_spec(old(reader).input(), old(reader).state.cursor as int),
        ),
{
    let (space0, expr) = keyword_template("xpath", reader)?;
    Ok(FilterValue::XPath { space0, expr })
}

/// The kinds of filter, in the order in which they are tried.
#[derive(Clone, Copy, Debug, PartialEq, Eq, Structural)]
pub enum FilterKind {
    Count,
    DaysAfterNow,
    DaysBeforeNow,
    Decode,
    Format,
    HtmlEscape,
    HtmlUnescape,
    JsonPath,
    Nth,
    Regex,
    Replace,
    Split,
    ToDate,
    ToInt,
    UrlDecode,
    UrlEncode,
    XPath,
}

impl Parser for FilterKind {
    type Output = FilterValue;

    open spec fn spec_parse(&self, input: Input, at: int) -> Parsed<FilterValueView> {
        match *self {
            FilterKind::Count => word_spec(input, at, "count"@, FilterValueView::Count),
            FilterKind::DaysAfterNow => word_spec(input, at, "daysAfterNow"@, FilterValueView::DaysAfterNow),
            FilterKind::DaysBeforeNow => word_spec(input, at, "daysBeforeNow"@, FilterValueView::DaysBeforeNow),
            FilterKind::Decode => decode_filter_spec(input, at),
            FilterKind::Format => format_filter_spec(input, at),
            FilterKind::HtmlEscape => word_spec(input, at, "htmlEscape"@, FilterValueView::HtmlEscape),
            FilterKind::HtmlUnescape => word_spec(input, at, "htmlUnescape"@, FilterValueView::HtmlUnescape),
            FilterKind::JsonPath => jsonpath_filter_spec(input, at),
            FilterKind::Nth => nth_filter_spec(input, at),
            FilterKind::Regex => regex_filter_spec(input, at),
            FilterKind::Replace => replace_filter_spec(input, at),
            FilterKind::Split => split_filter_spec(input, at),
            FilterKind::ToDate => to_date_filter_spec(input, at),
            FilterKind::ToInt => word_spec(input, at, "toInt"@, FilterValueView::ToInt),
            FilterKind::UrlDecode => word_spec(input, at, "urlDecode"@, FilterValueView::UrlDecode),
            FilterKind::UrlEncode => word_spec(input, at, "urlEncode"@, FilterValueView::UrlEncode),
            FilterKind::XPath => xpath_filter_spec(input, at),
        }
    }

    fn parse(&self, reader: &mut Reader) -> (r: Result<FilterValue, Error>) {
        match *self {
            FilterKind::Count => word("count", FilterValue::Count, reader),
            FilterKind::DaysAfterNow => word("daysAfterNow", FilterValue::DaysAfterNow, reader),
            FilterKind::DaysBeforeNow => word("daysBeforeNow", FilterValue::DaysBeforeNow, reader),
            FilterKind::Decode => decode_filter(reader),
            FilterKind::Format => format_filter(reader),
            FilterKind::HtmlEscape => word("htmlEscape", FilterValue::HtmlEscape, reader),
            FilterKind::HtmlUnescape => word("htmlUnescape", FilterValue::HtmlUnescape, reader),
            FilterKind::JsonPath => jsonpath_filter(reader),
            FilterKind::Nth => nth_filter(reader),
            FilterKind::Regex => regex_filter(reader),
            FilterKind::Replace => replace_filter(reader),
            FilterKind::Split => split_filter(reader),
            FilterKind::ToDate => to_date_filter(reader),
            FilterKind::ToInt => word("toInt", FilterValue::ToInt, reader),
            FilterKind::UrlDecode => word("urlDecode", FilterValue::UrlDecode, reader),
            FilterKind::UrlEncode => word("urlEncode", FilterValue::UrlEncode, reader),
            FilterKind::XPath => xpath_filter(reader),
        }
    }
}

/// The kinds of filter in the order in which they are tried.
pub open spec fn kinds() -> Seq<FilterKind> {
    seq![
        FilterKind::Count,
        FilterKind::DaysAfterNow,
        FilterKind::DaysBeforeNow,
        FilterKind::Decode,
        FilterKind::Format,
        FilterKind::HtmlEscape,
        FilterKind::HtmlUnescape,
        FilterKind::JsonPath,
        FilterKind::Nth,
        FilterKind::Regex,
        FilterKind::Replace,
        FilterKind::Split,
        FilterKind::ToDate,
        FilterKind::ToInt,
        FilterKind::UrlDecode,
        FilterKind::UrlEncode,
        FilterKind::XPath,
    ]
}

/// What [`filter`] does: it tries the kinds of filter in their order.
/// Where none can be read, the failure leaves the way open and nothing is
/// read. The span of the filter is that of what was read.
pub open spec fn filter_spec(input: Input, at: int) -> Parsed<FilterView> {
    let value = choice_spec(kinds(), 0, input, at);
    match value.result {
        Ok(found) => Parsed::done(
            FilterView { source_info: input.span(at, value.end), value: found },
            value.end,
        ),
        Err(error) => if error.recoverable {
            Parsed::failed(error.pos, true, ParseErrorView::Filter, value.end)
        } else {
            Parsed::refused(error, value.end)
        },
    }
}

/// Reads a filter.
pub fn filter(reader: &mut Reader) -> (r: Result<Filter, Error>)
    requires
        old(reader).wf(),
    ensures
        parses(
            *old(reader),
            *final(reader),
            r,
            filter_spec(old(reader).input(), old(reader).state.cursor as int),
        ),
{
    let start = reader.state.pos;
    let alternatives = [
        FilterKind::Count,
        FilterKind::DaysAfterNow,
        FilterKind::DaysBeforeNow,
        FilterKind::Decode,
        FilterKind::Format,
        FilterKind::HtmlEscape,
        FilterKind::HtmlUnescape,
        FilterKind::JsonPath,
        FilterKind::Nth,
        FilterKind::Regex,
        FilterKind::Replace,
        FilterKind::Split,
        FilterKind::ToDate,
        FilterKind::ToInt,
        FilterKind::UrlDecode,
        FilterKind::UrlEncode,
        FilterKind::XPath,
    ];
    assert(alternatives@ =~= kinds());
    match choice(alternatives.as_slice(), reader) {
        Ok(value) => Ok(Filter { source_info: SourceInfo::new(start, reader.state.pos), value }),
        Err(e) => {
            if e.recoverable {
                Err(Error::new(e.pos, true, ParseError::Filter))
            } else {
                Err(e)
            }
        },
    }
}

/// What [`filters`] does from index `at` on, after the filters in `found`:
/// it reads filters as long as blanks and a filter follow. Blanks that no
/// filter follows stay unread.
pub open spec fn filters_from(
    input: Input,
    at: int,
    found: Seq<(WhitespaceView, FilterView)>,
) -> Parsed<Seq<(WhitespaceView, FilterView)>>
    decreases input.text.len() - at,
{
    let space = zero_or_more_spaces_spec(input, at);
    let next = filter_spec(input, space.end);
    if space.end <= at {
        Parsed::done(found, at)
    } else {
        match next.result {
            Ok(value) => if at < next.end <= input.text.len() {
                filters_from(input, next.end, found.push((space.result->Ok_0, value)))
            } else {
                Parsed::done(found.push((space.result->Ok_0, value)), next.end)
            },
            Err(error) => if error.recoverable {
                Parsed::done(found, at)
            } else {
                Parsed::refused(error, next.end)
            },
        }
    }
}

/// What [`filters`] does.
pub open spec fn filters_spec(input: Input, at: int) -> Parsed<Seq<(WhitespaceView, FilterView)>> {
    filters_from(input, at, Seq::empty())
}

/// Reads the filters that follow a query, each with the blanks before it.
pub fn filters(reader: &mut Reader) -> (r: Result<Vec<(Whitespace, Filter)>, Error>)
    requires
        old(reader).wf(),
    ensures
        parses(
            *old(reader),
            *final(reader),
            r,
            filters_spec(old(reader).input(), old(reader).state.cursor as int),
        ),
{
    let mut found: Vec<(Whitespace, Filter)> = Vec::new();
    assert(found.deep_view() =~= Seq::empty());
    loop
        invariant
            reader.wf(),
            reader.input() == old(reader).input(),
            old(reader).state.cursor <= reader.state.cursor,
            filters_spec(old(reader).input(), old(reader).state.cursor as int) == filters_from(
                reader.input(),
                reader.state.cursor as int,
                found.deep_view(),
            ),
        decreases reader.buffer@.len() - reader.state.cursor,
    {
        let save = reader.state;
        let space = zero_or_more_spaces(reader)?;
        if reader.state.cursor == save.cursor {
            return Ok(found);
        }
        match filter(reader) {
            Ok(f) => {
                let ghost before = found.deep_view();
                let item = (space, f);
                found.push(item);
                assert(found.deep_view() =~= before.push(item.deep_view()));
            },
            Err(e) => {
                if e.recoverable {
                    reader.state = save;
                    return Ok(found);
                } else {
                    return Err(e);
                }
            },
        }
    }
}

} // verus!
