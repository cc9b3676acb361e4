use crate::ast::{
    Query, QueryValue, QueryValueView, QueryView, RegexValue, RegexValueView, RegexView,
    SourceInfo, Template, TemplateView, Whitespace, WhitespaceView,
};
use crate::parser::combinators::{choice, choice_spec, Parser};
use crate::parser::cookiepath::{cookiepath, cookiepath_spec};
use crate::parser::error::Error;
use crate::parser::outcome::{mapped, or_else, parses, restored, Parsed};
use crate::parser::primitives::{
    literal, literal_spec, one_or_more_spaces, one_or_more_spaces_spec, regex, regex_spec,
    try_literal, try_literal_spec,
};
use crate::parser::reader::{lemma_run_end_unique, Input, Reader};
use crate::parser::string::{quoted_template, quoted_template_spec};
use vstd::prelude::*;

verus! {

/// Reading a word, blanks, and a template between double quotes. Without
/// the word the failure leaves the way open and nothing is read; after it,
/// every failure is one without a way back.
pub open spec fn keyword_template_spec(input: Input, at: int, keyword: Seq<char>) -> Parsed<
    (WhitespaceView, TemplateView),
> {
    let space0 = one_or_more_spaces_spec(input, at + keyword.len());
    let name = quoted_template_spec(input, space0.end);
    match (try_literal_spec(input, at, keyword).result, space0.result, name.result) {
        (Err(error), _, _) => Parsed::refused(error, at),
        (Ok(_), Err(error), _) => Parsed::refused(error, space0.end),
        (Ok(_), Ok(_), Err(error)) => Parsed::failed(error.pos, false, error.inner, name.end),
        (Ok(_), Ok(space0), Ok(found)) => Parsed::done((space0, found), name.end),
    }
}

/// Reads a word, blanks, and a template between double quotes.
pub fn keyword_template(keyword: &str, reader: &mut Reader) -> (r: Result<
    (Whitespace, Template),
    Error,
>)
    requires
        old(reader).wf(),
    ensures
        parses(
            *old(reader),
            *final(reader),
            r,
            keyword_template_spec(old(reader).input(), old(reader).state.cursor as int, keyword@),
        ),
{
    try_literal(keyword, reader)?;
    let space0 = one_or_more_spaces(reader)?;
    let name = match quoted_template(reader) {
        Ok(name) => name,
        Err(e) => {
            return Err(e.non_recoverable());
        },
    };
    Ok((space0, name))
}

/// What [`regex_value`] does: it reads a template between double quotes
/// or, where the input does not start with one, a regular expression
/// between slashes. Where it starts with neither, the failure leaves the
/// way open and nothing is read.
pub open spec fn regex_value_spec(input: Input, at: int) -> Parsed<RegexValueView> {
    or_else(
        mapped(
            quoted_template_spec(input, at),
            |value: TemplateView| RegexValueView::Template(value),
        ),
        restored(mapped(regex_spec(input, at), |value: RegexView| RegexValueView::Regex(value)), at),
    )
}

/// Reads a pattern, written as a template or as a regular expression.
pub fn regex_value(reader: &mut Reader) -> (r: Result<RegexValue, Error>)
    requires
        old(reader).wf(),
    ensures
        parses(
            *old(reader),
            *final(reader),
            r,
            regex_value_spec(old(reader).input(), old(reader).state.cursor as int),
        ),
{
    let start = reader.state;
    match quoted_template(reader) {
        Ok(value) => {
            return Ok(RegexValue::Template(value));
        },
        Err(e) => if !e.recoverable {
            return Err(e);
        },
    }
    reader.state = start;
    match regex(reader) {
        Ok(value) => Ok(RegexValue::Regex(value)),
        Err(e) => {
            if e.recoverable {
                reader.state = start;
            }
            Err(e)
        },
    }
}

/// The class of the characters that may stand between the double quotes
/// around the path of a cookie: all but the double quote and the line
/// feed.
pub open spec fn quoted_chars() -> spec_fn(char) -> bool {
    |c: char| c != '"' && c != '\n'
}

/// What reading the query for a cookie does: the word `cookie`, blanks,
/// and between double quotes the path of the cookie. Without the word the
/// failure leaves the way open and nothing is read.
pub open spec fn cookie_query_spec(input: Input, at: int) -> Parsed<QueryValueView> {
    let space0 = one_or_more_spaces_spec(input, at + "cookie"@.len());
    let open = literal_spec(input, space0.end, "\""@);
    let content_end = input.run_end(open.end, quoted_chars());
    let close = literal_spec(input, content_end, "\""@);
    let path = cookiepath_spec(
        Input { text: input.slice(open.end, content_end), origin: input.pos_at(open.end) },
        0,
    );
    match (
        try_literal_spec(input, at, "cookie"@).result,
        space0.result,
        open.result,
        close.result,
        path.result,
    ) {
        (Err(error), _, _, _, _) => Parsed::refused(error, at),
        (Ok(_), Err(error), _, _, _) => Parsed::refused(error, space0.end),
        (Ok(_), Ok(_), Err(error), _, _) => Parsed::refused(error, open.end),
        (Ok(_), Ok(_), Ok(_), Err(error), _) => Parsed::refused(error, close.end),
        (Ok(_), Ok(_), Ok(_), Ok(_), Err(error)) => Parsed::refused(error, close.end),
        (Ok(_), Ok(space0), Ok(_), Ok(_), Ok(expr)) => Parsed::done(
            QueryValueView::Cookie { space0, expr },
            close.end,
        ),
    }
}

/// Reads the query for a cookie.
pub fn cookie_query(reader: &mut Reader) -> (r: Result<QueryValue, Error>)
    requires
        old(reader).wf(),
    ensures
        parses(
            *old(reader),
            *final(reader),
            r,
            cookie_query_spec(old(reader).input(), old(reader).state.cursor as int),
        ),
{
    try_literal("cookie", reader)?;
    let space0 = one_or_more_spaces(reader)?;
    literal("\"", reader)?;
    // The path is read as a whole and then taken apart by a reader of its
    // own, which starts at the position of the path.
    let start = reader.state;
    let inside = |c: &char| -> (b: bool)
        ensures
            b == (*c != '"' && *c != '\n'),
        { *c != '"' && *c != '\n' };
    let s = reader.read_while(inside);
    proof {
        lemma_run_end_unique(
            reader.input(),
            start.cursor as int,
            reader.state.cursor as int,
            quoted_chars(),
        );
    }
    literal("\"", reader)?;
    let mut cookiepath_reader = Reader::new_at(s.as_str(), start.pos);
    let expr = cookiepath(&mut cookiepath_reader)?;
    Ok(QueryValue::Cookie { space0, expr })
}

/// The kinds of query, in the order in which they are tried.
#[derive(Clone, Copy, Debug, PartialEq, Eq, Structural)]
pub enum QueryKind {
    Path,
    Header,
    Cookie,
    Body,
    Xpath,
    Jsonpath,
    Regex,
    Variable,
    QueryParam,
    Bytes,
    Sha256,
    Md5,
}

/// The query that only a word stands for.
pub open spec fn word_query_spec(
    input: Input,
    at: int,
    keyword: Seq<char>,
    value: QueryValueView,
) -> Parsed<QueryValueView> {
    match try_literal_spec(input, at, keyword).result {
        Ok(_) => Parsed::done(value, at + keyword.len()),
        Err(error) => Parsed::refused(error, at),
    }
}

/// What reading the query for a pattern does: the word `regex`, blanks,
/// and the pattern, whose failures are all without a way back.
pub open spec fn regex_query_spec(input: Input, at: int) -> Parsed<QueryValueView> {
    let space0 = one_or_more_spaces_spec(input, at + "regex"@.len());
    let value = regex_value_spec(input, space0.end);
    match (try_literal_spec(input, at, "regex"@).result, space0.result, value.result) {
        (Err(error), _, _) => Parsed::refused(error, at),
        (Ok(_), Err(error), _) => Parsed::refused(error, space0.end),
        (Ok(_), Ok(_), Err(error)) => Parsed::failed(error.pos, false, error.inner, value.end),
        (Ok(_), Ok(space0), Ok(found)) => Parsed::done(
            QueryValueView::Regex { space0, value: found },
            value.end,
        ),
    }
}

/// Reads the query for a pattern.
pub fn regex_query(reader: &mut Reader) -> (r: Result<QueryValue, Error>)
    requires
        old(reader).wf(),
    ensures
        parses(
            *old(reader),
            *final(reader),
            r,
            regex_query_spec(old(reader).input(), old(reader).state.cursor as int),
        ),
{
    try_literal("regex", reader)?;
    let space0 = one_or_more_spaces(reader)?;
    let value = match regex_value(reader) {
        Ok(value) => value,
        Err(e) => {
            return Err(e.non_recoverable());
        },
    };
    Ok(QueryValue::Regex { space0, value })
}

/// What reading the query `header` does.
pub open spec fn header_query_spec(input: Input, at: int) -> Parsed<QueryValueView> {
    mapped(
        keyword_template_spec(input, at, "header"@),
        |found: (WhitespaceView, TemplateView)|
            QueryValueView::Header { space0: found.0, name: found.1 },
    )
}

/// Reads the query `header`.
pub fn header_query(reader: &mut Reader) -> (r: Result<QueryValue, Error>)
    requires
        old(reader).wf(),
    ensures
        parses(
            *old(reader),
            *final(reader),
            r,
            header_query_spec(old(reader).input(), old(reader).state.cursor as int),
        ),
{
    let (space0, name) = keyword_template("header", reader)?;
    Ok(QueryValue::Header { space0, name })
}

/// What reading the query `xpath` does.
pub open spec fn xpath_query_spec(input: Input, at: int) -> Parsed<QueryValueView> {
    mapped(
        keyword_template_spec(input, at, "xpath"@),
        |found: (WhitespaceView, TemplateView)|
            QueryValueView::Xpath { space0: found.0, expr: found.1 },
    )
}

/// Reads the query `xpath`.
pub fn xpath_query(reader: &mut Reader) -> (r: Result<QueryValue, Error>)
    requires
        old(reader).wf(),
    ensures
        parses(
            *old(reader),
            *final(reader),
            r,
            xpath_query_spec(old(reader).input(), old(reader).state.cursor as int),
        ),
{
    let (space0, expr) = keyword_template("xpath", reader)?;
    Ok(QueryValue::Xpath { space0, expr })
}

/// What reading the query `jsonpath` does.
pub open spec fn jsonpath_query_spec(input: Input, at: int) -> Parsed<QueryValueView> {
    mapped(
        keyword_template_spec(input, at, "jsonpath"@),
        |found: (WhitespaceView, TemplateView)|
            QueryValueView::Jsonpath { space0: found.0, expr: found.1 },
    )
}

/// Reads the query `jsonpath`.
pub fn jsonpath_query(reader: &mut Reader) -> (r: Result<QueryValue, Error>)
    requires
        old(reader).wf(),
    ensures
        parses(
            *old(reader),
            *final(reader),
            r,
            jsonpath_query_spec(old(reader).input(), old(reader).state.cursor as int),
        ),
{
    let (space0, expr) = keyword_template("jsonpath", reader)?;
    Ok(QueryValue::Jsonpath { space0, expr })
}

/// What reading the query `variable` does.
pub open spec fn variable_query_spec(input: Input, at: int) -> Parsed<QueryValueView> {
    mapped(
        keyword_template_spec(input, at, "variable"@),
        |found: (WhitespaceView, TemplateView)|
            QueryValueView::Variable { space0: found.0, name: found.1 },
    )
}

/// Reads the query `variable`.
pub fn variable_query(reader: &mut Reader) -> (r: Result<QueryValue, Error>)
    requires
        old(reader).wf(),
    ensures
        parses(
            *old(reader),
            *final(reader),
            r,
            variable_query_spec(old(reader).input(), old(reader).state.cursor as int),
        ),
{
    let (space0, name) = keyword_template("variable", reader)?;
    Ok(QueryValue::Variable { space0, name })
}

/// What reading the query `querystring` does.
pub open spec fn query_param_query_spec(input: Input, at: int) -> Parsed<QueryValueView> {
    mapped(
        keyword_template_spec(input, at, "querystring"@),
        |found: (WhitespaceView, TemplateView)|
            QueryValueView::QueryParam { space0: found.0, name: found.1 },
    )
}

/// Reads the query `querystring`.
pub fn query_param_query(reader: &mut Reader) -> (r: Result<QueryValue, Error>)
    requires
        old(reader).wf(),
    ensures
        parses(
            *old(reader),
            *final(reader),
            r,
            query_param_query_spec(old(reader).input(), old(reader).state.cursor as int),
        ),
{
    let (space0, name) = keyword_template("querystring", reader)?;
    Ok(QueryValue::QueryParam { space0, name })
}

/// Reads the query that only the word `keyword` stands for.
pub fn word_query(keyword: &str, value: QueryValue, reader: &mut Reader) -> (r: Result<
    QueryValue,
    Error,
>)
    requires
        old(reader).wf(),
    ensures
        parses(
            *old(reader),
            *final(reader),
            r,
            word_query_spec(
                old(reader).input(),
                old(reader).state.cursor as int,
                keyword@,
                value.deep_view(),
            ),
        ),
{
    try_literal(keyword, reader)?;
    Ok(value)
}

impl Parser for QueryKind {
    type Output = QueryValue;

    open spec fn spec_parse(&self, input: Input, at: int) -> Parsed<QueryValueView> {
        match *self {
            QueryKind::Path => word_query_spec(input, at, "status"@, QueryValueView::Path),
            QueryKind::Header => header_query_spec(input, at),
            QueryKind::Cookie => cookie_query_spec(input, at),
            QueryKind::Body => word_query_spec(input, at, "body"@, QueryValueView::Body),
            QueryKind::Xpath => xpath_query_spec(input, at),
            QueryKind::Jsonpath => jsonpath_query_spec(input, at),
            QueryKind::Regex => regex_query_spec(input, at),
            QueryKind::Variable => variable_query_spec(input, at),
            QueryKind::QueryParam => query_param_query_spec(input, at),
            QueryKind::Bytes => word_query_spec(input, at, "bytes"@, QueryValueView::Bytes),
            QueryKind::Sha256 => word_query_spec(input, at, "sha256"@, QueryValueView::Sha256),
            QueryKind::Md5 => word_query_spec(input, at, "md5"@, QueryValueView::Md5),
        }
    }

    fn parse(&self, reader: &mut Reader) -> (r: Result<QueryValue, Error>) {
        match *self {
            QueryKind::Path => word_query("status", QueryValue::Path, reader),
            QueryKind::Header => header_query(reader),
            QueryKind::Cookie => cookie_query(reader),
            QueryKind::Body => word_query("body", QueryValue::Body, reader),
            QueryKind::Xpath => xpath_query(reader),
            QueryKind::Jsonpath => jsonpath_query(reader),
            QueryKind::Regex => regex_query(reader),
            QueryKind::Variable => variable_query(reader),
            QueryKind::QueryParam => query_param_query(reader),
            QueryKind::Bytes => word_query("bytes", QueryValue::Bytes, reader),
            QueryKind::Sha256 => word_query("sha256", QueryValue::Sha256, reader),
            QueryKind::Md5 => word_query("md5", QueryValue::Md5, reader),
        }
    }
}

/// The kinds of query in the order in which [`query`] tries them.
pub open spec fn kinds() -> Seq<QueryKind> {
    seq![
        QueryKind::Path,
        QueryKind::Header,
        QueryKind::Cookie,
        QueryKind::Body,
        QueryKind::Xpath,
        QueryKind::Jsonpath,
        QueryKind::Regex,
        QueryKind::Variable,
        QueryKind::QueryParam,
        QueryKind::Bytes,
        QueryKind::Sha256,
        QueryKind::Md5,
    ]
}

/// What [`query`] does: it tries the kinds of query in their order; the
/// span of the query is that of what was read.
pub open spec fn query_spec(input: Input, at: int) -> Parsed<QueryView> {
    let value = choice_spec(kinds(), 0, input, at);
    match value.result {
        Ok(found) => Parsed::done(
            QueryView { source_info: input.span(at, value.end), value: found },
            value.end,
        ),
        Err(error) => Parsed::refused(error, value.end),
    }
}

/// Reads a query.
pub fn query(reader: &mut Reader) -> (r: Result<Query, Error>)
    requires
        old(reader).wf(),
    ensures
        parses(
            *old(reader),
            *final(reader),
            r,
            query_spec(old(reader).input(), old(reader).state.cursor as int),
        ),
{
    let start = reader.state.pos;
    let alternatives = [
        QueryKind::Path,
        QueryKind::Header,
        QueryKind::Cookie,
        QueryKind::Body,
        QueryKind::Xpath,
        QueryKind::Jsonpath,
        QueryKind::Regex,
        QueryKind::Variable,
        QueryKind::QueryParam,
        QueryKind::Bytes,
        QueryKind::Sha256,
        QueryKind::Md5,
    ];
    assert(alternatives@ =~= kinds());
    let value = choice(alternatives.as_slice(), reader)?;
    let end = reader.state.pos;
    Ok(Query { source_info: SourceInfo::new(start, end), value })
}

} // verus!
