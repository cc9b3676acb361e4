use crate::ast::json::{JsonValue, JsonValueView};
use crate::ast::multiline::{MultilineString, MultilineStringView};
use crate::ast::nodes::{
    clone_option, clone_vec, Base64, Base64View, Expr, ExprView, File, FileView, Hex, HexView,
    LineTerminator, LineTerminatorView, Number, NumberView, Regex, RegexView, SourceInfo,
    Template, TemplateView, Whitespace, WhitespaceView,
};
use vstd::prelude::*;

verus! {

/// The protocol versions that a response can name. `VersionAny` is the
/// bare word `HTTP`, `VersionAnyLegacy` the older `HTTP/*`.
#[derive(Clone, Copy, Debug, PartialEq, Eq, Structural)]
pub enum VersionValue {
    Version1,
    Version11,
    Version2,
    Version3,
    VersionAny,
    VersionAnyLegacy,
}

impl DeepView for VersionValue {
    type V = VersionValue;

    open spec fn deep_view(&self) -> VersionValue {
        *self
    }
}

/// How often a request is tried again.
#[derive(Clone, Copy, Debug, PartialEq, Eq, Structural)]
pub enum Retry {
    Never,
    Finite(usize),
    Infinite,
}

impl DeepView for Retry {
    type V = Retry;

    open spec fn deep_view(&self) -> Retry {
        *self
    }
}

/// A header line.
pub type Header = KeyValue;

/// A copy of a list of filters, each with the blanks before it.
pub fn clone_filters(filters: &Vec<(Whitespace, Filter)>) -> (copy: Vec<(Whitespace, Filter)>)
    ensures
        copy.deep_view() == filters.deep_view(),
{
    let mut copy: Vec<(Whitespace, Filter)> = Vec::new();
    let mut i: usize = 0;
    while i < filters.len()
        invariant
            i <= filters.len(),
            copy@.len() == i,
            forall|j: int| 0 <= j < i ==> copy@[j].deep_view() == filters@[j].deep_view(),
        decreases filters.len() - i,
    {
        copy.push((filters[i].0.clone(), filters[i].1.clone()));
        i = i + 1;
    }
    assert(copy.deep_view() =~= filters.deep_view());
    copy
}

/// A whole mock file: its entries, and the blank and comment lines after the
/// last one.
#[derive(Debug, PartialEq, Eq)]
pub struct ImpostorFile {
    pub entries: Vec<Entry>,
    pub line_terminators: Vec<LineTerminator>,
}

/// What an [`ImpostorFile`] holds, as mathematical values.
pub struct ImpostorFileView {
    pub entries: Seq<EntryView>,
    pub line_terminators: Seq<LineTerminatorView>,
}

impl DeepView for ImpostorFile {
    type V = ImpostorFileView;

    open spec fn deep_view(&self) -> ImpostorFileView {
        ImpostorFileView {
            entries: self.entries.deep_view(),
            line_terminators: self.line_terminators.deep_view(),
        }
    }
}

impl Clone for ImpostorFile {
    fn clone(&self) -> (copy: Self)
        ensures
            copy.deep_view() == self.deep_view(),
    {
        ImpostorFile {
            entries: clone_vec(&self.entries),
            line_terminators: clone_vec(&self.line_terminators),
        }
    }
}

/// One mock: the request to look for and the response to give.
#[derive(Debug, PartialEq, Eq)]
pub struct Entry {
    pub request: Request,
    pub response: Response,
}

/// What an [`Entry`] holds, as mathematical values.
pub struct EntryView {
    pub request: RequestView,
    pub response: ResponseView,
}

impl DeepView for Entry {
    type V = EntryView;

    open spec fn deep_view(&self) -> EntryView {
        EntryView {
            request: self.request.deep_view(),
            response: self.response.deep_view(),
        }
    }
}

impl Clone for Entry {
    fn clone(&self) -> (copy: Self)
        ensures
            copy.deep_view() == self.deep_view(),
    {
        Entry {
            request: self.request.clone(),
            response: self.response.clone(),
        }
    }
}

/// What an incoming request is held against.
#[derive(Debug, PartialEq, Eq)]
pub struct Request {
    pub line_terminators: Vec<LineTerminator>,
    pub space0: Whitespace,
    pub method: Method,
    pub space1: Whitespace,
    pub path: Template,
    pub line_terminator0: LineTerminator,
    pub headers: Vec<KeyValue>,
    pub sections: Vec<RequestSection>,
    pub body: Option<Body>,
    pub source_info: SourceInfo,
}

/// What a [`Request`] holds, as mathematical values.
pub struct RequestView {
    pub line_terminators: Seq<LineTerminatorView>,
    pub space0: WhitespaceView,
    pub method: MethodView,
    pub space1: WhitespaceView,
    pub path: TemplateView,
    pub line_terminator0: LineTerminatorView,
    pub headers: Seq<KeyValueView>,
    pub sections: Seq<RequestSectionView>,
    pub body: Option<BodyView>,
    pub source_info: SourceInfo,
}

impl DeepView for Request {
    type V = RequestView;

    open spec fn deep_view(&self) -> RequestView {
        RequestView {
            line_terminators: self.line_terminators.deep_view(),
            space0: self.space0.deep_view(),
            method: self.method.deep_view(),
            space1: self.space1.deep_view(),
            path: self.path.deep_view(),
            line_terminator0: self.line_terminator0.deep_view(),
            headers: self.headers.deep_view(),
            sections: self.sections.deep_view(),
            body: self.body.deep_view(),
            source_info: self.source_info,
        }
    }
}

impl Clone for Request {
    fn clone(&self) -> (copy: Self)
        ensures
            copy.deep_view() == self.deep_view(),
    {
        Request {
            line_terminators: clone_vec(&self.line_terminators),
            space0: self.space0.clone(),
            method: self.method.clone(),
            space1: self.space1.clone(),
            path: self.path.clone(),
            line_terminator0: self.line_terminator0.clone(),
            headers: clone_vec(&self.headers),
            sections: clone_vec(&self.sections),
            body: clone_option(&self.body),
            source_info: self.source_info,
        }
    }
}

/// What is sent back when the request matches.
#[derive(Debug, PartialEq, Eq)]
pub struct Response {
    pub line_terminators: Vec<LineTerminator>,
    pub version: Version,
    pub space0: Whitespace,
    pub status: Status,
    pub space1: Whitespace,
    pub line_terminator0: LineTerminator,
    pub headers: Vec<KeyValue>,
    pub body: Option<Body>,
    pub source_info: SourceInfo,
}

/// What a [`Response`] holds, as mathematical values.
pub struct ResponseView {
    pub line_terminators: Seq<LineTerminatorView>,
    pub version: VersionView,
    pub space0: WhitespaceView,
    pub status: StatusView,
    pub space1: WhitespaceView,
    pub line_terminator0: LineTerminatorView,
    pub headers: Seq<KeyValueView>,
    pub body: Option<BodyView>,
    pub source_info: SourceInfo,
}

impl DeepView for Response {
    type V = ResponseView;

    open spec fn deep_view(&self) -> ResponseView {
        ResponseView {
            line_terminators: self.line_terminators.deep_view(),
            version: self.version.deep_view(),
            space0: self.space0.deep_view(),
            status: self.status.deep_view(),
            space1: self.space1.deep_view(),
            line_terminator0: self.line_terminator0.deep_view(),
            headers: self.headers.deep_view(),
            body: self.body.deep_view(),
            source_info: self.source_info,
        }
    }
}

impl Clone for Response {
    fn clone(&self) -> (copy: Self)
        ensures
            copy.deep_view() == self.deep_view(),
    {
        Response {
            line_terminators: clone_vec(&self.line_terminators),
            version: self.version.clone(),
            space0: self.space0.clone(),
            status: self.status.clone(),
            space1: self.space1.clone(),
            line_terminator0: self.line_terminator0.clone(),
            headers: clone_vec(&self.headers),
            body: clone_option(&self.body),
            source_info: self.source_info,
        }
    }
}

/// The method of a request: a word in capital letters, which need not be one of
/// the known verbs.
#[derive(Debug, PartialEq, Eq)]
pub struct Method(pub String);

/// What a [`Method`] holds, as mathematical values.
pub struct MethodView(pub Seq<char>);

impl DeepView for Method {
    type V = MethodView;

    open spec fn deep_view(&self) -> MethodView {
        MethodView(self.0@)
    }
}

impl Clone for Method {
    fn clone(&self) -> (copy: Self)
        ensures
            copy.deep_view() == self.deep_view(),
    {
        Method(self.0.clone())
    }
}

/// The protocol version of a response.
#[derive(Debug, PartialEq, Eq)]
pub struct Version {
    pub value: VersionValue,
    pub source_info: SourceInfo,
}

/// What a [`Version`] holds, as mathematical values.
pub struct VersionView {
    pub value: VersionValue,
    pub source_info: SourceInfo,
}

impl DeepView for Version {
    type V = VersionView;

    open spec fn deep_view(&self) -> VersionView {
        VersionView {
            value: self.value,
            source_info: self.source_info,
        }
    }
}

impl Clone for Version {
    fn clone(&self) -> (copy: Self)
        ensures
            copy.deep_view() == self.deep_view(),
    {
        Version {
            value: self.value,
            source_info: self.source_info,
        }
    }
}

/// The status code of a response.
#[derive(Debug, PartialEq, Eq)]
pub struct Status {
    pub value: u16,
    pub source_info: SourceInfo,
}

/// What a [`Status`] holds, as mathematical values.
pub struct StatusView {
    pub value: u16,
    pub source_info: SourceInfo,
}

impl DeepView for Status {
    type V = StatusView;

    open spec fn deep_view(&self) -> StatusView {
        StatusView {
            value: self.value,
            source_info: self.source_info,
        }
    }
}

impl Clone for Status {
    fn clone(&self) -> (copy: Self)
        ensures
            copy.deep_view() == self.deep_view(),
    {
        Status {
            value: self.value,
            source_info: self.source_info,
        }
    }
}

/// The body of a request or a response.
#[derive(Debug, PartialEq, Eq)]
pub struct Body {
    pub line_terminators: Vec<LineTerminator>,
    pub space0: Whitespace,
    pub value: Bytes,
    pub line_terminator0: LineTerminator,
}

/// What a [`Body`] holds, as mathematical values.
pub struct BodyView {
    pub line_terminators: Seq<LineTerminatorView>,
    pub space0: WhitespaceView,
    pub value: BytesView,
    pub line_terminator0: LineTerminatorView,
}

impl DeepView for Body {
    type V = BodyView;

    open spec fn deep_view(&self) -> BodyView {
        BodyView {
            line_terminators: self.line_terminators.deep_view(),
            space0: self.space0.deep_view(),
            value: self.value.deep_view(),
            line_terminator0: self.line_terminator0.deep_view(),
        }
    }
}

impl Clone for Body {
    fn clone(&self) -> (copy: Self)
        ensures
            copy.deep_view() == self.deep_view(),
    {
        Body {
            line_terminators: clone_vec(&self.line_terminators),
            space0: self.space0.clone(),
            value: self.value.clone(),
            line_terminator0: self.line_terminator0.clone(),
        }
    }
}

/// A block of a request under a name in square brackets.
#[derive(Debug, PartialEq, Eq)]
pub struct RequestSection {
    pub line_terminators: Vec<LineTerminator>,
    pub space0: Whitespace,
    pub line_terminator0: LineTerminator,
    pub value: RequestSectionValue,
    pub source_info: SourceInfo,
}

/// What a [`RequestSection`] holds, as mathematical values.
pub struct RequestSectionView {
    pub line_terminators: Seq<LineTerminatorView>,
    pub space0: WhitespaceView,
    pub line_terminator0: LineTerminatorView,
    pub value: RequestSectionValueView,
    pub source_info: SourceInfo,
}

impl DeepView for RequestSection {
    type V = RequestSectionView;

    open spec fn deep_view(&self) -> RequestSectionView {
        RequestSectionView {
            line_terminators: self.line_terminators.deep_view(),
            space0: self.space0.deep_view(),
            line_terminator0: self.line_terminator0.deep_view(),
            value: self.value.deep_view(),
            source_info: self.source_info,
        }
    }
}

impl Clone for RequestSection {
    fn clone(&self) -> (copy: Self)
        ensures
            copy.deep_view() == self.deep_view(),
    {
        RequestSection {
            line_terminators: clone_vec(&self.line_terminators),
            space0: self.space0.clone(),
            line_terminator0: self.line_terminator0.clone(),
            value: self.value.clone(),
            source_info: self.source_info,
        }
    }
}

/// The two kinds of section and what they hold.
#[derive(Debug, PartialEq, Eq)]
pub enum RequestSectionValue {
    Captures(Vec<Capture>),
    Asserts(Vec<Assert>),
}

/// What a [`RequestSectionValue`] holds, as mathematical values.
pub enum RequestSectionValueView {
    Captures(Seq<CaptureView>),
    Asserts(Seq<AssertView>),
}

impl DeepView for RequestSectionValue {
    type V = RequestSectionValueView;

    open spec fn deep_view(&self) -> RequestSectionValueView {
        match *self {
            RequestSectionValue::Captures(inner) => RequestSectionValueView::Captures(inner.deep_view()),
            RequestSectionValue::Asserts(inner) => RequestSectionValueView::Asserts(inner.deep_view()),
        }
    }
}

impl Clone for RequestSectionValue {
    fn clone(&self) -> (copy: Self)
        ensures
            copy.deep_view() == self.deep_view(),
    {
        match self {
            RequestSectionValue::Captures(inner) => RequestSectionValue::Captures(clone_vec(inner)),
            RequestSectionValue::Asserts(inner) => RequestSectionValue::Asserts(clone_vec(inner)),
        }
    }
}

/// A line of the form `key: value`.
#[derive(Debug, PartialEq, Eq)]
pub struct KeyValue {
    pub line_terminators: Vec<LineTerminator>,
    pub space0: Whitespace,
    pub key: Template,
    pub space1: Whitespace,
    pub space2: Whitespace,
    pub value: Template,
    pub line_terminator0: LineTerminator,
}

/// What a [`KeyValue`] holds, as mathematical values.
pub struct KeyValueView {
    pub line_terminators: Seq<LineTerminatorView>,
    pub space0: WhitespaceView,
    pub key: TemplateView,
    pub space1: WhitespaceView,
    pub space2: WhitespaceView,
    pub value: TemplateView,
    pub line_terminator0: LineTerminatorView,
}

impl DeepView for KeyValue {
    type V = KeyValueView;

    open spec fn deep_view(&self) -> KeyValueView {
        KeyValueView {
            line_terminators: self.line_terminators.deep_view(),
            space0: self.space0.deep_view(),
            key: self.key.deep_view(),
            space1: self.space1.deep_view(),
            space2: self.space2.deep_view(),
            value: self.value.deep_view(),
            line_terminator0: self.line_terminator0.deep_view(),
        }
    }
}

impl Clone for KeyValue {
    fn clone(&self) -> (copy: Self)
        ensures
            copy.deep_view() == self.deep_view(),
    {
        KeyValue {
            line_terminators: clone_vec(&self.line_terminators),
            space0: self.space0.clone(),
            key: self.key.clone(),
            space1: self.space1.clone(),
            space2: self.space2.clone(),
            value: self.value.clone(),
            line_terminator0: self.line_terminator0.clone(),
        }
    }
}

/// A name bound to what a query finds in the request.
#[derive(Debug, PartialEq, Eq)]
pub struct Capture {
    pub line_terminators: Vec<LineTerminator>,
    pub space0: Whitespace,
    pub name: Template,
    pub space1: Whitespace,
    pub space2: Whitespace,
    pub query: Query,
    pub filters: Vec<(Whitespace, Filter)>,
    pub line_terminator0: LineTerminator,
}

/// What a [`Capture`] holds, as mathematical values.
pub struct CaptureView {
    pub line_terminators: Seq<LineTerminatorView>,
    pub space0: WhitespaceView,
    pub name: TemplateView,
    pub space1: WhitespaceView,
    pub space2: WhitespaceView,
    pub query: QueryView,
    pub filters: Seq<(WhitespaceView, FilterView)>,
    pub line_terminator0: LineTerminatorView,
}

impl DeepView for Capture {
    type V = CaptureView;

    open spec fn deep_view(&self) -> CaptureView {
        CaptureView {
            line_terminators: self.line_terminators.deep_view(),
            space0: self.space0.deep_view(),
            name: self.name.deep_view(),
            space1: self.space1.deep_view(),
            space2: self.space2.deep_view(),
            query: self.query.deep_view(),
            filters: self.filters.deep_view(),
            line_terminator0: self.line_terminator0.deep_view(),
        }
    }
}

impl Clone for Capture {
    fn clone(&self) -> (copy: Self)
        ensures
            copy.deep_view() == self.deep_view(),
    {
        Capture {
            line_terminators: clone_vec(&self.line_terminators),
            space0: self.space0.clone(),
            name: self.name.clone(),
            space1: self.space1.clone(),
            space2: self.space2.clone(),
            query: self.query.clone(),
            filters: clone_filters(&self.filters),
            line_terminator0: self.line_terminator0.clone(),
        }
    }
}

/// A test on what a query finds in the request.
#[derive(Debug, PartialEq, Eq)]
pub struct Assert {
    pub line_terminators: Vec<LineTerminator>,
    pub space0: Whitespace,
    pub query: Query,
    pub filters: Vec<(Whitespace, Filter)>,
    pub space1: Whitespace,
    pub predicate: Predicate,
    pub line_terminator0: LineTerminator,
}

/// What an [`Assert`] holds, as mathematical values.
pub struct AssertView {
    pub line_terminators: Seq<LineTerminatorView>,
    pub space0: WhitespaceView,
    pub query: QueryView,
    pub filters: Seq<(WhitespaceView, FilterView)>,
    pub space1: WhitespaceView,
    pub predicate: PredicateView,
    pub line_terminator0: LineTerminatorView,
}

impl DeepView for Assert {
    type V = AssertView;

    open spec fn deep_view(&self) -> AssertView {
        AssertView {
            line_terminators: self.line_terminators.deep_view(),
            space0: self.space0.deep_view(),
            query: self.query.deep_view(),
            filters: self.filters.deep_view(),
            space1: self.space1.deep_view(),
            predicate: self.predicate.deep_view(),
            line_terminator0: self.line_terminator0.deep_view(),
        }
    }
}

impl Clone for Assert {
    fn clone(&self) -> (copy: Self)
        ensures
            copy.deep_view() == self.deep_view(),
    {
        Assert {
            line_terminators: clone_vec(&self.line_terminators),
            space0: self.space0.clone(),
            query: self.query.clone(),
            filters: clone_filters(&self.filters),
            space1: self.space1.clone(),
            predicate: self.predicate.clone(),
            line_terminator0: self.line_terminator0.clone(),
        }
    }
}

/// What to look up in a request.
#[derive(Debug, PartialEq, Eq)]
pub struct Query {
    pub source_info: SourceInfo,
    pub value: QueryValue,
}

/// What a [`Query`] holds, as mathematical values.
pub struct QueryView {
    pub source_info: SourceInfo,
    pub value: QueryValueView,
}

impl DeepView for Query {
    type V = QueryView;

    open spec fn deep_view(&self) -> QueryView {
        QueryView {
            source_info: self.source_info,
            value: self.value.deep_view(),
        }
    }
}

impl Clone for Query {
    fn clone(&self) -> (copy: Self)
        ensures
            copy.deep_view() == self.deep_view(),
    {
        Query {
            source_info: self.source_info,
            value: self.value.clone(),
        }
    }
}

/// The kinds of query.
#[derive(Debug, PartialEq, Eq)]
#[allow(inconsistent_fields)]
pub enum QueryValue {
    Path,
    Header { space0: Whitespace, name: Template },
    Cookie { space0: Whitespace, expr: CookiePath },
    Body,
    Xpath { space0: Whitespace, expr: Template },
    Jsonpath { space0: Whitespace, expr: Template },
    QueryParam { space0: Whitespace, name: Template },
    Regex { space0: Whitespace, value: RegexValue },
    Variable { space0: Whitespace, name: Template },
    Bytes,
    Sha256,
    Md5,
}

/// What a [`QueryValue`] holds, as mathematical values.
#[allow(inconsistent_fields)]
pub enum QueryValueView {
    Path,
    Header { space0: WhitespaceView, name: TemplateView },
    Cookie { space0: WhitespaceView, expr: CookiePathView },
    Body,
    Xpath { space0: WhitespaceView, expr: TemplateView },
    Jsonpath { space0: WhitespaceView, expr: TemplateView },
    QueryParam { space0: WhitespaceView, name: TemplateView },
    Regex { space0: WhitespaceView, value: RegexValueView },
    Variable { space0: WhitespaceView, name: TemplateView },
    Bytes,
    Sha256,
    Md5,
}

impl DeepView for QueryValue {
    type V = QueryValueView;

    open spec fn deep_view(&self) -> QueryValueView {
        match *self {
            QueryValue::Path => QueryValueView::Path,
            QueryValue::Header { space0, name } => QueryValueView::Header {
                space0: space0.deep_view(),
                name: name.deep_view(),
            },
            QueryValue::Cookie { space0, expr } => QueryValueView::Cookie {
                space0: space0.deep_view(),
                expr: expr.deep_view(),
            },
            QueryValue::Body => QueryValueView::Body,
            QueryValue::Xpath { space0, expr } => QueryValueView::Xpath {
                space0: space0.deep_view(),
                expr: expr.deep_view(),
            },
            QueryValue::Jsonpath { space0, expr } => QueryValueView::Jsonpath {
                space0: space0.deep_view(),
                expr: expr.deep_view(),
            },
            QueryValue::QueryParam { space0, name } => QueryValueView::QueryParam {
                space0: space0.deep_view(),
                name: name.deep_view(),
            },
            QueryValue::Regex { space0, value } => QueryValueView::Regex {
                space0: space0.deep_view(),
                value: value.deep_view(),
            },
            QueryValue::Variable { space0, name } => QueryValueView::Variable {
                space0: space0.deep_view(),
                name: name.deep_view(),
            },
            QueryValue::Bytes => QueryValueView::Bytes,
            QueryValue::Sha256 => QueryValueView::Sha256,
            QueryValue::Md5 => QueryValueView::Md5,
        }
    }
}

impl Clone for QueryValue {
    fn clone(&self) -> (copy: Self)
        ensures
            copy.deep_view() == self.deep_view(),
    {
        match self {
            QueryValue::Path => QueryValue::Path,
            QueryValue::Header { space0, name } => QueryValue::Header {
                space0: space0.clone(),
                name: name.clone(),
            },
            QueryValue::Cookie { space0, expr } => QueryValue::Cookie {
                space0: space0.clone(),
                expr: expr.clone(),
            },
            QueryValue::Body => QueryValue::Body,
            QueryValue::Xpath { space0, expr } => QueryValue::Xpath {
                space0: space0.clone(),
                expr: expr.clone(),
            },
            QueryValue::Jsonpath { space0, expr } => QueryValue::Jsonpath {
                space0: space0.clone(),
                expr: expr.clone(),
            },
            QueryValue::QueryParam { space0, name } => QueryValue::QueryParam {
                space0: space0.clone(),
                name: name.clone(),
            },
            QueryValue::Regex { space0, value } => QueryValue::Regex {
                space0: space0.clone(),
                value: value.clone(),
            },
            QueryValue::Variable { space0, name } => QueryValue::Variable {
                space0: space0.clone(),
                name: name.clone(),
            },
            QueryValue::Bytes => QueryValue::Bytes,
            QueryValue::Sha256 => QueryValue::Sha256,
            QueryValue::Md5 => QueryValue::Md5,
        }
    }
}

/// A pattern, written between quotes as a template or between slashes.
#[derive(Debug, PartialEq, Eq)]
pub enum RegexValue {
    Template(Template),
    Regex(Regex),
}

/// What a [`RegexValue`] holds, as mathematical values.
pub enum RegexValueView {
    Template(TemplateView),
    Regex(RegexView),
}

impl DeepView for RegexValue {
    type V = RegexValueView;

    open spec fn deep_view(&self) -> RegexValueView {
        match *self {
            RegexValue::Template(inner) => RegexValueView::Template(inner.deep_view()),
            RegexValue::Regex(inner) => RegexValueView::Regex(inner.deep_view()),
        }
    }
}

impl Clone for RegexValue {
    fn clone(&self) -> (copy: Self)
        ensures
            copy.deep_view() == self.deep_view(),
    {
        match self {
            RegexValue::Template(inner) => RegexValue::Template(inner.clone()),
            RegexValue::Regex(inner) => RegexValue::Regex(inner.clone()),
        }
    }
}

/// A cookie, or one attribute of it.
#[derive(Debug, PartialEq, Eq)]
pub struct CookiePath {
    pub name: Template,
    pub attribute: Option<CookieAttribute>,
}

/// What a [`CookiePath`] holds, as mathematical values.
pub struct CookiePathView {
    pub name: TemplateView,
    pub attribute: Option<CookieAttributeView>,
}

impl DeepView for CookiePath {
    type V = CookiePathView;

    open spec fn deep_view(&self) -> CookiePathView {
        CookiePathView {
            name: self.name.deep_view(),
            attribute: self.attribute.deep_view(),
        }
    }
}

impl Clone for CookiePath {
    fn clone(&self) -> (copy: Self)
        ensures
            copy.deep_view() == self.deep_view(),
    {
        CookiePath {
            name: self.name.clone(),
            attribute: clone_option(&self.attribute),
        }
    }
}

/// The attribute of a cookie that a query asks for.
#[derive(Debug, PartialEq, Eq)]
pub struct CookieAttribute {
    pub space0: Whitespace,
    pub name: CookieAttributeName,
    pub space1: Whitespace,
}

/// What a [`CookieAttribute`] holds, as mathematical values.
pub struct CookieAttributeView {
    pub space0: WhitespaceView,
    pub name: CookieAttributeNameView,
    pub space1: WhitespaceView,
}

impl DeepView for CookieAttribute {
    type V = CookieAttributeView;

    open spec fn deep_view(&self) -> CookieAttributeView {
        CookieAttributeView {
            space0: self.space0.deep_view(),
            name: self.name.deep_view(),
            space1: self.space1.deep_view(),
        }
    }
}

impl Clone for CookieAttribute {
    fn clone(&self) -> (copy: Self)
        ensures
            copy.deep_view() == self.deep_view(),
    {
        CookieAttribute {
            space0: self.space0.clone(),
            name: self.name.clone(),
            space1: self.space1.clone(),
        }
    }
}

/// The attributes of a cookie, each with its name as it was written.
#[derive(Debug, PartialEq, Eq)]
pub enum CookieAttributeName {
    Value(String),
    Expires(String),
    MaxAge(String),
    Domain(String),
    Path(String),
    Secure(String),
    HttpOnly(String),
    SameSite(String),
}

/// What a [`CookieAttributeName`] holds, as mathematical values.
pub enum CookieAttributeNameView {
    Value(Seq<char>),
    Expires(Seq<char>),
    MaxAge(Seq<char>),
    Domain(Seq<char>),
    Path(Seq<char>),
    Secure(Seq<char>),
    HttpOnly(Seq<char>),
    SameSite(Seq<char>),
}

impl DeepView for CookieAttributeName {
    type V = CookieAttributeNameView;

    open spec fn deep_view(&self) -> CookieAttributeNameView {
        match *self {
            CookieAttributeName::Value(inner) => CookieAttributeNameView::Value(inner@),
            CookieAttributeName::Expires(inner) => CookieAttributeNameView::Expires(inner@),
            CookieAttributeName::MaxAge(inner) => CookieAttributeNameView::MaxAge(inner@),
            CookieAttributeName::Domain(inner) => CookieAttributeNameView::Domain(inner@),
            CookieAttributeName::Path(inner) => CookieAttributeNameView::Path(inner@),
            CookieAttributeName::Secure(inner) => CookieAttributeNameView::Secure(inner@),
            CookieAttributeName::HttpOnly(inner) => CookieAttributeNameView::HttpOnly(inner@),
            CookieAttributeName::SameSite(inner) => CookieAttributeNameView::SameSite(inner@),
        }
    }
}

impl Clone for CookieAttributeName {
    fn clone(&self) -> (copy: Self)
        ensures
            copy.deep_view() == self.deep_view(),
    {
        match self {
            CookieAttributeName::Value(inner) => CookieAttributeName::Value(inner.clone()),
            CookieAttributeName::Expires(inner) => CookieAttributeName::Expires(inner.clone()),
            CookieAttributeName::MaxAge(inner) => CookieAttributeName::MaxAge(inner.clone()),
            CookieAttributeName::Domain(inner) => CookieAttributeName::Domain(inner.clone()),
            CookieAttributeName::Path(inner) => CookieAttributeName::Path(inner.clone()),
            CookieAttributeName::Secure(inner) => CookieAttributeName::Secure(inner.clone()),
            CookieAttributeName::HttpOnly(inner) => CookieAttributeName::HttpOnly(inner.clone()),
            CookieAttributeName::SameSite(inner) => CookieAttributeName::SameSite(inner.clone()),
        }
    }
}

/// A test, which `not` turns into its opposite.
#[derive(Debug, PartialEq, Eq)]
pub struct Predicate {
    pub not: bool,
    pub space0: Whitespace,
    pub predicate_func: PredicateFunc,
}

/// What a [`Predicate`] holds, as mathematical values.
pub struct PredicateView {
    pub not: bool,
    pub space0: WhitespaceView,
    pub predicate_func: PredicateFuncView,
}

impl DeepView for Predicate {
    type V = PredicateView;

    open spec fn deep_view(&self) -> PredicateView {
        PredicateView {
            not: self.not,
            space0: self.space0.deep_view(),
            predicate_func: self.predicate_func.deep_view(),
        }
    }
}

impl Clone for Predicate {
    fn clone(&self) -> (copy: Self)
        ensures
            copy.deep_view() == self.deep_view(),
    {
        Predicate {
            not: self.not,
            space0: self.space0.clone(),
            predicate_func: self.predicate_func.clone(),
        }
    }
}

/// The word `not` before a test, or its absence.
#[derive(Debug, PartialEq, Eq)]
pub struct Not {
    pub value: bool,
    pub space0: Whitespace,
}

/// What a [`Not`] holds, as mathematical values.
pub struct NotView {
    pub value: bool,
    pub space0: WhitespaceView,
}

impl DeepView for Not {
    type V = NotView;

    open spec fn deep_view(&self) -> NotView {
        NotView {
            value: self.value,
            space0: self.space0.deep_view(),
        }
    }
}

impl Clone for Not {
    fn clone(&self) -> (copy: Self)
        ensures
            copy.deep_view() == self.deep_view(),
    {
        Not {
            value: self.value,
            space0: self.space0.clone(),
        }
    }
}

/// The test of a predicate.
#[derive(Debug, PartialEq, Eq)]
pub struct PredicateFunc {
    pub source_info: SourceInfo,
    pub value: PredicateFuncValue,
}

/// What a [`PredicateFunc`] holds, as mathematical values.
pub struct PredicateFuncView {
    pub source_info: SourceInfo,
    pub value: PredicateFuncValueView,
}

impl DeepView for PredicateFunc {
    type V = PredicateFuncView;

    open spec fn deep_view(&self) -> PredicateFuncView {
        PredicateFuncView {
            source_info: self.source_info,
            value: self.value.deep_view(),
        }
    }
}

impl Clone for PredicateFunc {
    fn clone(&self) -> (copy: Self)
        ensures
            copy.deep_view() == self.deep_view(),
    {
        PredicateFunc {
            source_info: self.source_info,
            value: self.value.clone(),
        }
    }
}

/// What a test compares with.
#[derive(Debug, PartialEq, Eq)]
pub enum PredicateValue {
    Base64(Base64),
    Bool(bool),
    Expression(Expr),
    File(File),
    Hex(Hex),
    MultilineString(MultilineString),
    Null,
    Number(Number),
    Regex(Regex),
    String(Template),
}

/// What a [`PredicateValue`] holds, as mathematical values.
pub enum PredicateValueView {
    Base64(Base64View),
    Bool(bool),
    Expression(ExprView),
    File(FileView),
    Hex(HexView),
    MultilineString(MultilineStringView),
    Null,
    Number(NumberView),
    Regex(RegexView),
    String(TemplateView),
}

impl DeepView for PredicateValue {
    type V = PredicateValueView;

    open spec fn deep_view(&self) -> PredicateValueView {
        match *self {
            PredicateValue::Base64(inner) => PredicateValueView::Base64(inner.deep_view()),
            PredicateValue::Bool(inner) => PredicateValueView::Bool(inner),
            PredicateValue::Expression(inner) => PredicateValueView::Expression(inner.deep_view()),
            PredicateValue::File(inner) => PredicateValueView::File(inner.deep_view()),
            PredicateValue::Hex(inner) => PredicateValueView::Hex(inner.deep_view()),
            PredicateValue::MultilineString(inner) => PredicateValueView::MultilineString(inner.deep_view()),
            PredicateValue::Null => PredicateValueView::Null,
            PredicateValue::Number(inner) => PredicateValueView::Number(inner.deep_view()),
            PredicateValue::Regex(inner) => PredicateValueView::Regex(inner.deep_view()),
            PredicateValue::String(inner) => PredicateValueView::String(inner.deep_view()),
        }
    }
}

impl Clone for PredicateValue {
    fn clone(&self) -> (copy: Self)
        ensures
            copy.deep_view() == self.deep_view(),
    {
        match self {
            PredicateValue::Base64(inner) => PredicateValue::Base64(inner.clone()),
            PredicateValue::Bool(inner) => PredicateValue::Bool(*inner),
            PredicateValue::Expression(inner) => PredicateValue::Expression(inner.clone()),
            PredicateValue::File(inner) => PredicateValue::File(inner.clone()),
            PredicateValue::Hex(inner) => PredicateValue::Hex(inner.clone()),
            PredicateValue::MultilineString(inner) => PredicateValue::MultilineString(inner.clone()),
            PredicateValue::Null => PredicateValue::Null,
            PredicateValue::Number(inner) => PredicateValue::Number(inner.clone()),
            PredicateValue::Regex(inner) => PredicateValue::Regex(inner.clone()),
            PredicateValue::String(inner) => PredicateValue::String(inner.clone()),
        }
    }
}

/// The kinds of test. A comparison records in `operator` whether it was written
/// as a sign or as a word.
#[derive(Debug, PartialEq, Eq)]
#[allow(inconsistent_fields)]
pub enum PredicateFuncValue {
    Equal { space0: Whitespace, value: PredicateValue, operator: bool },
    NotEqual { space0: Whitespace, value: PredicateValue, operator: bool },
    GreaterThan { space0: Whitespace, value: PredicateValue, operator: bool },
    GreaterThanOrEqual { space0: Whitespace, value: PredicateValue, operator: bool },
    LessThan { space0: Whitespace, value: PredicateValue, operator: bool },
    LessThanOrEqual { space0: Whitespace, value: PredicateValue, operator: bool },
    StartWith { space0: Whitespace, value: PredicateValue },
    EndWith { space0: Whitespace, value: PredicateValue },
    Contain { space0: Whitespace, value: PredicateValue },
    Include { space0: Whitespace, value: PredicateValue },
    Match { space0: Whitespace, value: PredicateValue },
    IsInteger,
    IsFloat,
    IsBoolean,
    IsString,
    IsCollection,
    IsDate,
    Exist,
    IsEmpty,
}

/// What a [`PredicateFuncValue`] holds, as mathematical values.
#[allow(inconsistent_fields)]
pub enum PredicateFuncValueView {
    Equal { space0: WhitespaceView, value: PredicateValueView, operator: bool },
    NotEqual { space0: WhitespaceView, value: PredicateValueView, operator: bool },
    GreaterThan { space0: WhitespaceView, value: PredicateValueView, operator: bool },
    GreaterThanOrEqual { space0: WhitespaceView, value: PredicateValueView, operator: bool },
    LessThan { space0: WhitespaceView, value: PredicateValueView, operator: bool },
    LessThanOrEqual { space0: WhitespaceView, value: PredicateValueView, operator: bool },
    StartWith { space0: WhitespaceView, value: PredicateValueView },
    EndWith { space0: WhitespaceView, value: PredicateValueView },
    Contain { space0: WhitespaceView, value: PredicateValueView },
    Include { space0: WhitespaceView, value: PredicateValueView },
    Match { space0: WhitespaceView, value: PredicateValueView },
    IsInteger,
    IsFloat,
    IsBoolean,
    IsString,
    IsCollection,
    IsDate,
    Exist,
    IsEmpty,
}

impl DeepView for PredicateFuncValue {
    type V = PredicateFuncValueView;

    open spec fn deep_view(&self) -> PredicateFuncValueView {
        match *self {
            PredicateFuncValue::Equal { space0, value, operator } => PredicateFuncValueView::Equal {
                space0: space0.deep_view(),
                value: value.deep_view(),
                operator: operator,
            },
            PredicateFuncValue::NotEqual { space0, value, operator } => PredicateFuncValueView::NotEqual {
                space0: space0.deep_view(),
                value: value.deep_view(),
                operator: operator,
            },
            PredicateFuncValue::GreaterThan { space0, value, operator } => PredicateFuncValueView::GreaterThan {
                space0: space0.deep_view(),
                value: value.deep_view(),
                operator: operator,
            },
            PredicateFuncValue::GreaterThanOrEqual { space0, value, operator } => PredicateFuncValueView::GreaterThanOrEqual {
                space0: space0.deep_view(),
                value: value.deep_view(),
                operator: operator,
            },
            PredicateFuncValue::LessThan { space0, value, operator } => PredicateFuncValueView::LessThan {
                space0: space0.deep_view(),
                value: value.deep_view(),
                operator: operator,
            },
            PredicateFuncValue::LessThanOrEqual { space0, value, operator } => PredicateFuncValueView::LessThanOrEqual {
                space0: space0.deep_view(),
                value: value.deep_view(),
                operator: operator,
            },
            PredicateFuncValue::StartWith { space0, value } => PredicateFuncValueView::StartWith {
                space0: space0.deep_view(),
                value: value.deep_view(),
            },
            PredicateFuncValue::EndWith { space0, value } => PredicateFuncValueView::EndWith {
                space0: space0.deep_view(),
                value: value.deep_view(),
            },
            PredicateFuncValue::Contain { space0, value } => PredicateFuncValueView::Contain {
                space0: space0.deep_view(),
                value: value.deep_view(),
            },
            PredicateFuncValue::Include { space0, value } => PredicateFuncValueView::Include {
                space0: space0.deep_view(),
                value: value.deep_view(),
            },
            PredicateFuncValue::Match { space0, value } => PredicateFuncValueView::Match {
                space0: space0.deep_view(),
                value: value.deep_view(),
            },
            PredicateFuncValue::IsInteger => PredicateFuncValueView::IsInteger,
            PredicateFuncValue::IsFloat => PredicateFuncValueView::IsFloat,
            PredicateFuncValue::IsBoolean => PredicateFuncValueView::IsBoolean,
            PredicateFuncValue::IsString => PredicateFuncValueView::IsString,
            PredicateFuncValue::IsCollection => PredicateFuncValueView::IsCollection,
            PredicateFuncValue::IsDate => PredicateFuncValueView::IsDate,
            PredicateFuncValue::Exist => PredicateFuncValueView::Exist,
            PredicateFuncValue::IsEmpty => PredicateFuncValueView::IsEmpty,
        }
    }
}

impl Clone for PredicateFuncValue {
    fn clone(&self) -> (copy: Self)
        ensures
            copy.deep_view() == self.deep_view(),
    {
        match self {
            PredicateFuncValue::Equal { space0, value, operator } => PredicateFuncValue::Equal {
                space0: space0.clone(),
                value: value.clone(),
                operator: *operator,
            },
            PredicateFuncValue::NotEqual { space0, value, operator } => PredicateFuncValue::NotEqual {
                space0: space0.clone(),
                value: value.clone(),
                operator: *operator,
            },
            PredicateFuncValue::GreaterThan { space0, value, operator } => PredicateFuncValue::GreaterThan {
                space0: space0.clone(),
                value: value.clone(),
                operator: *operator,
            },
            PredicateFuncValue::GreaterThanOrEqual { space0, value, operator } => PredicateFuncValue::GreaterThanOrEqual {
                space0: space0.clone(),
                value: value.clone(),
                operator: *operator,
            },
            PredicateFuncValue::LessThan { space0, value, operator } => PredicateFuncValue::LessThan {
                space0: space0.clone(),
                value: value.clone(),
                operator: *operator,
            },
            PredicateFuncValue::LessThanOrEqual { space0, value, operator } => PredicateFuncValue::LessThanOrEqual {
                space0: space0.clone(),
                value: value.clone(),
                operator: *operator,
            },
            PredicateFuncValue::StartWith { space0, value } => PredicateFuncValue::StartWith {
                space0: space0.clone(),
                value: value.clone(),
            },
            PredicateFuncValue::EndWith { space0, value } => PredicateFuncValue::EndWith {
                space0: space0.clone(),
                value: value.clone(),
            },
            PredicateFuncValue::Contain { space0, value } => PredicateFuncValue::Contain {
                space0: space0.clone(),
                value: value.clone(),
            },
            PredicateFuncValue::Include { space0, value } => PredicateFuncValue::Include {
                space0: space0.clone(),
                value: value.clone(),
            },
            PredicateFuncValue::Match { space0, value } => PredicateFuncValue::Match {
                space0: space0.clone(),
                value: value.clone(),
            },
            PredicateFuncValue::IsInteger => PredicateFuncValue::IsInteger,
            PredicateFuncValue::IsFloat => PredicateFuncValue::IsFloat,
            PredicateFuncValue::IsBoolean => PredicateFuncValue::IsBoolean,
            PredicateFuncValue::IsString => PredicateFuncValue::IsString,
            PredicateFuncValue::IsCollection => PredicateFuncValue::IsCollection,
            PredicateFuncValue::IsDate => PredicateFuncValue::IsDate,
            PredicateFuncValue::Exist => PredicateFuncValue::Exist,
            PredicateFuncValue::IsEmpty => PredicateFuncValue::IsEmpty,
        }
    }
}

/// The forms that a body can take.
#[derive(Debug, PartialEq, Eq)]
pub enum Bytes {
    Json(JsonValue),
    Xml(String),
    MultilineString(MultilineString),
    OnelineString(Template),
    Base64(Base64),
    File(File),
    Hex(Hex),
}

/// What a [`Bytes`] holds, as mathematical values.
pub enum BytesView {
    Json(JsonValueView),
    Xml(Seq<char>),
    MultilineString(MultilineStringView),
    OnelineString(TemplateView),
    Base64(Base64View),
    File(FileView),
    Hex(HexView),
}

impl DeepView for Bytes {
    type V = BytesView;

    open spec fn deep_view(&self) -> BytesView {
        match *self {
            Bytes::Json(inner) => BytesView::Json(inner.deep_view()),
            Bytes::Xml(inner) => BytesView::Xml(inner@),
            Bytes::MultilineString(inner) => BytesView::MultilineString(inner.deep_view()),
            Bytes::OnelineString(inner) => BytesView::OnelineString(inner.deep_view()),
            Bytes::Base64(inner) => BytesView::Base64(inner.deep_view()),
            Bytes::File(inner) => BytesView::File(inner.deep_view()),
            Bytes::Hex(inner) => BytesView::Hex(inner.deep_view()),
        }
    }
}

impl Clone for Bytes {
    fn clone(&self) -> (copy: Self)
        ensures
            copy.deep_view() == self.deep_view(),
    {
        match self {
            Bytes::Json(inner) => Bytes::Json(inner.clone()),
            Bytes::Xml(inner) => Bytes::Xml(inner.clone()),
            Bytes::MultilineString(inner) => Bytes::MultilineString(inner.clone()),
            Bytes::OnelineString(inner) => Bytes::OnelineString(inner.clone()),
            Bytes::Base64(inner) => Bytes::Base64(inner.clone()),
            Bytes::File(inner) => Bytes::File(inner.clone()),
            Bytes::Hex(inner) => Bytes::Hex(inner.clone()),
        }
    }
}

/// A switch, given outright or by a variable.
#[derive(Debug, PartialEq, Eq)]
pub enum BooleanOption {
    Literal(bool),
    Expression(Expr),
}

/// What a [`BooleanOption`] holds, as mathematical values.
pub enum BooleanOptionView {
    Literal(bool),
    Expression(ExprView),
}

impl DeepView for BooleanOption {
    type V = BooleanOptionView;

    open spec fn deep_view(&self) -> BooleanOptionView {
        match *self {
            BooleanOption::Literal(inner) => BooleanOptionView::Literal(inner),
            BooleanOption::Expression(inner) => BooleanOptionView::Expression(inner.deep_view()),
        }
    }
}

impl Clone for BooleanOption {
    fn clone(&self) -> (copy: Self)
        ensures
            copy.deep_view() == self.deep_view(),
    {
        match self {
            BooleanOption::Literal(inner) => BooleanOption::Literal(*inner),
            BooleanOption::Expression(inner) => BooleanOption::Expression(inner.clone()),
        }
    }
}

/// A count, given outright or by a variable.
#[derive(Debug, PartialEq, Eq)]
pub enum NaturalOption {
    Literal(u64),
    Expression(Expr),
}

/// What a [`NaturalOption`] holds, as mathematical values.
pub enum NaturalOptionView {
    Literal(u64),
    Expression(ExprView),
}

impl DeepView for NaturalOption {
    type V = NaturalOptionView;

    open spec fn deep_view(&self) -> NaturalOptionView {
        match *self {
            NaturalOption::Literal(inner) => NaturalOptionView::Literal(inner),
            NaturalOption::Expression(inner) => NaturalOptionView::Expression(inner.deep_view()),
        }
    }
}

impl Clone for NaturalOption {
    fn clone(&self) -> (copy: Self)
        ensures
            copy.deep_view() == self.deep_view(),
    {
        match self {
            NaturalOption::Literal(inner) => NaturalOption::Literal(*inner),
            NaturalOption::Expression(inner) => NaturalOption::Expression(inner.clone()),
        }
    }
}

/// A number of retries, given outright or by a variable.
#[derive(Debug, PartialEq, Eq)]
pub enum RetryOption {
    Literal(Retry),
    Expression(Expr),
}

/// What a [`RetryOption`] holds, as mathematical values.
pub enum RetryOptionView {
    Literal(Retry),
    Expression(ExprView),
}

impl DeepView for RetryOption {
    type V = RetryOptionView;

    open spec fn deep_view(&self) -> RetryOptionView {
        match *self {
            RetryOption::Literal(inner) => RetryOptionView::Literal(inner),
            RetryOption::Expression(inner) => RetryOptionView::Expression(inner.deep_view()),
        }
    }
}

impl Clone for RetryOption {
    fn clone(&self) -> (copy: Self)
        ensures
            copy.deep_view() == self.deep_view(),
    {
        match self {
            RetryOption::Literal(inner) => RetryOption::Literal(*inner),
            RetryOption::Expression(inner) => RetryOption::Expression(inner.clone()),
        }
    }
}

/// A variable with the value given to it.
#[derive(Debug, PartialEq, Eq)]
pub struct VariableDefinition {
    pub name: String,
    pub space0: Whitespace,
    pub space1: Whitespace,
    pub value: VariableValue,
}

/// What a [`VariableDefinition`] holds, as mathematical values.
pub struct VariableDefinitionView {
    pub name: Seq<char>,
    pub space0: WhitespaceView,
    pub space1: WhitespaceView,
    pub value: VariableValueView,
}

impl DeepView for VariableDefinition {
    type V = VariableDefinitionView;

    open spec fn deep_view(&self) -> VariableDefinitionView {
        VariableDefinitionView {
            name: self.name@,
            space0: self.space0.deep_view(),
            space1: self.space1.deep_view(),
            value: self.value.deep_view(),
        }
    }
}

impl Clone for VariableDefinition {
    fn clone(&self) -> (copy: Self)
        ensures
            copy.deep_view() == self.deep_view(),
    {
        VariableDefinition {
            name: self.name.clone(),
            space0: self.space0.clone(),
            space1: self.space1.clone(),
            value: self.value.clone(),
        }
    }
}

/// The values that a variable can be given.
#[derive(Debug, PartialEq, Eq)]
pub enum VariableValue {
    Null,
    Bool(bool),
    Number(Number),
    String(Template),
}

/// What a [`VariableValue`] holds, as mathematical values.
pub enum VariableValueView {
    Null,
    Bool(bool),
    Number(NumberView),
    String(TemplateView),
}

impl DeepView for VariableValue {
    type V = VariableValueView;

    open spec fn deep_view(&self) -> VariableValueView {
        match *self {
            VariableValue::Null => VariableValueView::Null,
            VariableValue::Bool(inner) => VariableValueView::Bool(inner),
            VariableValue::Number(inner) => VariableValueView::Number(inner.deep_view()),
            VariableValue::String(inner) => VariableValueView::String(inner.deep_view()),
        }
    }
}

impl Clone for VariableValue {
    fn clone(&self) -> (copy: Self)
        ensures
            copy.deep_view() == self.deep_view(),
    {
        match self {
            VariableValue::Null => VariableValue::Null,
            VariableValue::Bool(inner) => VariableValue::Bool(*inner),
            VariableValue::Number(inner) => VariableValue::Number(inner.clone()),
            VariableValue::String(inner) => VariableValue::String(inner.clone()),
        }
    }
}

/// A step that changes what a query found before it is tested.
#[derive(Debug, PartialEq, Eq)]
pub struct Filter {
    pub source_info: SourceInfo,
    pub value: FilterValue,
}

/// What a [`Filter`] holds, as mathematical values.
pub struct FilterView {
    pub source_info: SourceInfo,
    pub value: FilterValueView,
}

impl DeepView for Filter {
    type V = FilterView;

    open spec fn deep_view(&self) -> FilterView {
        FilterView {
            source_info: self.source_info,
            value: self.value.deep_view(),
        }
    }
}

impl Clone for Filter {
    fn clone(&self) -> (copy: Self)
        ensures
            copy.deep_view() == self.deep_view(),
    {
        Filter {
            source_info: self.source_info,
            value: self.value.clone(),
        }
    }
}

/// The kinds of filter.
#[derive(Debug, PartialEq, Eq)]
#[allow(inconsistent_fields)]
pub enum FilterValue {
    Count,
    DaysAfterNow,
    DaysBeforeNow,
    Decode { space0: Whitespace, encoding: Template },
    Format { space0: Whitespace, fmt: Template },
    HtmlEscape,
    HtmlUnescape,
    JsonPath { space0: Whitespace, expr: Template },
    Nth { space0: Whitespace, n: u64 },
    Regex { space0: Whitespace, value: RegexValue },
    Replace { space0: Whitespace, old_value: RegexValue, space1: Whitespace, new_value: Template },
    Split { space0: Whitespace, sep: Template },
    ToDate { space0: Whitespace, fmt: Template },
    ToInt,
    UrlDecode,
    UrlEncode,
    XPath { space0: Whitespace, expr: Template },
}

/// What a [`FilterValue`] holds, as mathematical values.
#[allow(inconsistent_fields)]
pub enum FilterValueView {
    Count,
    DaysAfterNow,
    DaysBeforeNow,
    Decode { space0: WhitespaceView, encoding: TemplateView },
    Format { space0: WhitespaceView, fmt: TemplateView },
    HtmlEscape,
    HtmlUnescape,
    JsonPath { space0: WhitespaceView, expr: TemplateView },
    Nth { space0: WhitespaceView, n: u64 },
    Regex { space0: WhitespaceView, value: RegexValueView },
    Replace { space0: WhitespaceView, old_value: RegexValueView, space1: WhitespaceView, new_value: TemplateView },
    Split { space0: WhitespaceView, sep: TemplateView },
    ToDate { space0: WhitespaceView, fmt: TemplateView },
    ToInt,
    UrlDecode,
    UrlEncode,
    XPath { space0: WhitespaceView, expr: TemplateView },
}

impl DeepView for FilterValue {
    type V = FilterValueView;

    open spec fn deep_view(&self) -> FilterValueView {
        match *self {
            FilterValue::Count => FilterValueView::Count,
            FilterValue::DaysAfterNow => FilterValueView::DaysAfterNow,
            FilterValue::DaysBeforeNow => FilterValueView::DaysBeforeNow,
            FilterValue::Decode { space0, encoding } => FilterValueView::Decode {
                space0: space0.deep_view(),
                encoding: encoding.deep_view(),
            },
            FilterValue::Format { space0, fmt } => FilterValueView::Format {
                space0: space0.deep_view(),
                fmt: fmt.deep_view(),
            },
            FilterValue::HtmlEscape => FilterValueView::HtmlEscape,
            FilterValue::HtmlUnescape => FilterValueView::HtmlUnescape,
            FilterValue::JsonPath { space0, expr } => FilterValueView::JsonPath {
                space0: space0.deep_view(),
                expr: expr.deep_view(),
            },
            FilterValue::Nth { space0, n } => FilterValueView::Nth {
                space0: space0.deep_view(),
                n: n,
            },
            FilterValue::Regex { space0, value } => FilterValueView::Regex {
                space0: space0.deep_view(),
                value: value.deep_view(),
            },
            FilterValue::Replace { space0, old_value, space1, new_value } => FilterValueView::Replace {
                space0: space0.deep_view(),
                old_value: old_value.deep_view(),
                space1: space1.deep_view(),
                new_value: new_value.deep_view(),
            },
            FilterValue::Split { space0, sep } => FilterValueView::Split {
                space0: space0.deep_view(),
                sep: sep.deep_view(),
            },
            FilterValue::ToDate { space0, fmt } => FilterValueView::ToDate {
                space0: space0.deep_view(),
                fmt: fmt.deep_view(),
            },
            FilterValue::ToInt => FilterValueView::ToInt,
            FilterValue::UrlDecode => FilterValueView::UrlDecode,
            FilterValue::UrlEncode => FilterValueView::UrlEncode,
            FilterValue::XPath { space0, expr } => FilterValueView::XPath {
                space0: space0.deep_view(),
                expr: expr.deep_view(),
            },
        }
    }
}

impl Clone for FilterValue {
    fn clone(&self) -> (copy: Self)
        ensures
            copy.deep_view() == self.deep_view(),
    {
        match self {
            FilterValue::Count => FilterValue::Count,
            FilterValue::DaysAfterNow => FilterValue::DaysAfterNow,
            FilterValue::DaysBeforeNow => FilterValue::DaysBeforeNow,
            FilterValue::Decode { space0, encoding } => FilterValue::Decode {
                space0: space0.clone(),
                encoding: encoding.clone(),
            },
            FilterValue::Format { space0, fmt } => FilterValue::Format {
                space0: space0.clone(),
                fmt: fmt.clone(),
            },
            FilterValue::HtmlEscape => FilterValue::HtmlEscape,
            FilterValue::HtmlUnescape => FilterValue::HtmlUnescape,
            FilterValue::JsonPath { space0, expr } => FilterValue::JsonPath {
                space0: space0.clone(),
                expr: expr.clone(),
            },
            FilterValue::Nth { space0, n } => FilterValue::Nth {
                space0: space0.clone(),
                n: *n,
            },
            FilterValue::Regex { space0, value } => FilterValue::Regex {
                space0: space0.clone(),
                value: value.clone(),
            },
            FilterValue::Replace { space0, old_value, space1, new_value } => FilterValue::Replace {
                space0: space0.clone(),
                old_value: old_value.clone(),
                space1: space1.clone(),
                new_value: new_value.clone(),
            },
            FilterValue::Split { space0, sep } => FilterValue::Split {
                space0: space0.clone(),
                sep: sep.clone(),
            },
            FilterValue::ToDate { space0, fmt } => FilterValue::ToDate {
                space0: space0.clone(),
                fmt: fmt.clone(),
            },
            FilterValue::ToInt => FilterValue::ToInt,
            FilterValue::UrlDecode => FilterValue::UrlDecode,
            FilterValue::UrlEncode => FilterValue::UrlEncode,
            FilterValue::XPath { space0, expr } => FilterValue::XPath {
                space0: space0.clone(),
                expr: expr.clone(),
            },
        }
    }
}

/// The captures of the first section, from index `i` on, that holds any.
pub open spec fn first_captures(sections: Seq<RequestSectionView>, i: int) -> Seq<CaptureView>
    decreases sections.len() - i,
{
    if i < 0 || i >= sections.len() {
        Seq::empty()
    } else {
        match sections[i].value {
            RequestSectionValueView::Captures(captures) => captures,
            _ => first_captures(sections, i + 1),
        }
    }
}

/// The asserts of the first section, from index `i` on, that holds any.
pub open spec fn first_asserts(sections: Seq<RequestSectionView>, i: int) -> Seq<AssertView>
    decreases sections.len() - i,
{
    if i < 0 || i >= sections.len() {
        Seq::empty()
    } else {
        match sections[i].value {
            RequestSectionValueView::Asserts(asserts) => asserts,
            _ => first_asserts(sections, i + 1),
        }
    }
}

impl RequestView {
    /// The captures of the request: those of its first `[Captures]`
    /// section, and none where it has no such section.
    pub open spec fn captures(self) -> Seq<CaptureView> {
        first_captures(self.sections, 0)
    }

    /// The asserts of the request: those of its first `[Asserts]` section,
    /// and none where it has no such section.
    pub open spec fn asserts(self) -> Seq<AssertView> {
        first_asserts(self.sections, 0)
    }
}

impl Request {
    /// Returns the captures list of this spec request.
    pub fn captures(&self) -> (captures: Vec<Capture>)
        ensures
            captures.deep_view() == self.deep_view().captures(),
    {
        let mut i: usize = 0;
        while i < self.sections.len()
            invariant
                i <= self.sections.len(),
                first_captures(self.deep_view().sections, 0) == first_captures(
                    self.deep_view().sections,
                    i as int,
                ),
            decreases self.sections.len() - i,
        {
            if let RequestSectionValue::Captures(captures) = &self.sections[i].value {
                return clone_vec(captures);
            }
            i = i + 1;
        }
        let none: Vec<Capture> = Vec::new();
        assert(none.deep_view() =~= Seq::empty());
        none
    }

    /// Returns the asserts list of this spec request.
    pub fn asserts(&self) -> (asserts: Vec<Assert>)
        ensures
            asserts.deep_view() == self.deep_view().asserts(),
    {
        let mut i: usize = 0;
        while i < self.sections.len()
            invariant
                i <= self.sections.len(),
                first_asserts(self.deep_view().sections, 0) == first_asserts(
                    self.deep_view().sections,
                    i as int,
                ),
            decreases self.sections.len() - i,
        {
            if let RequestSectionValue::Asserts(asserts) = &self.sections[i].value {
                return clone_vec(asserts);
            }
            i = i + 1;
        }
        let none: Vec<Assert> = Vec::new();
        assert(none.deep_view() =~= Seq::empty());
        none
    }
}

impl RequestSectionView {
    /// The name of the section, as it stands between the square brackets.
    pub open spec fn name(self) -> Seq<char> {
        match self.value {
            RequestSectionValueView::Asserts(_) => "Asserts"@,
            RequestSectionValueView::Captures(_) => "Captures"@,
        }
    }
}

impl RequestSection {
    /// The name of the section, as it stands between the square brackets.
    pub fn name(&self) -> (name: &'static str)
        ensures
            name@ == self.deep_view().name(),
    {
        match self.value {
            RequestSectionValue::Asserts(_) => "Asserts",
            RequestSectionValue::Captures(_) => "Captures",
        }
    }
}

impl CookieAttributeNameView {
    /// The name of the attribute, as it was written.
    pub open spec fn value(self) -> Seq<char> {
        match self {
            CookieAttributeNameView::Value(value)
            | CookieAttributeNameView::Expires(value)
            | CookieAttributeNameView::MaxAge(value)
            | CookieAttributeNameView::Domain(value)
            | CookieAttributeNameView::Path(value)
            | CookieAttributeNameView::Secure(value)
            | CookieAttributeNameView::HttpOnly(value)
            | CookieAttributeNameView::SameSite(value) => value,
        }
    }
}

impl CookieAttributeName {
    /// The name of the attribute, as it was written.
    pub fn value(&self) -> (value: String)
        ensures
            value@ == self.deep_view().value(),
    {
        match self {
            CookieAttributeName::Value(value)
            | CookieAttributeName::Expires(value)
            | CookieAttributeName::MaxAge(value)
            | CookieAttributeName::Domain(value)
            | CookieAttributeName::Path(value)
            | CookieAttributeName::Secure(value)
            | CookieAttributeName::HttpOnly(value)
            | CookieAttributeName::SameSite(value) => value.clone(),
        }
    }
}

} // verus!
