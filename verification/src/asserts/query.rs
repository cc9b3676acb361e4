use crate::asserts::predicate::{Value, ValueView};
use crate::asserts::{AssertCompilationError, AssertCompilationErrorView};
use crate::ast;
use crate::parser::primitives::{eq_ignore_case, same_name};
use vstd::prelude::*;

verus! {

/// What the matcher reads of an incoming request: its headers, each a name
/// and a value, in the order in which they came.
pub struct RequestParts {
    pub headers: Vec<(String, String)>,
}

/// What a [`RequestParts`] holds, as mathematical values.
pub struct RequestPartsView {
    pub headers: Seq<(Seq<char>, Seq<char>)>,
}

impl DeepView for RequestParts {
    type V = RequestPartsView;

    open spec fn deep_view(&self) -> RequestPartsView {
        RequestPartsView { headers: self.headers.deep_view() }
    }
}

/// A query in the form in which it is run against a request.
#[derive(Debug, PartialEq, Eq)]
pub enum Query {
    /// The value of the header of this name.
    Header(String),
}

/// What a [`Query`] holds, as mathematical values.
pub enum QueryView {
    Header(Seq<char>),
}

impl DeepView for Query {
    type V = QueryView;

    open spec fn deep_view(&self) -> QueryView {
        match *self {
            Query::Header(name) => QueryView::Header(name@),
        }
    }
}

impl Clone for Query {
    fn clone(&self) -> (copy: Self)
        ensures
            copy.deep_view() == self.deep_view(),
    {
        match self {
            Query::Header(name) => Query::Header(name.clone()),
        }
    }
}

/// Why a query found nothing in a request.
#[derive(Debug, PartialEq, Eq)]
pub enum QueryError {
    /// The request has no header of this name.
    MissingHeader(String),
}

/// What a [`QueryError`] holds, as mathematical values.
pub enum QueryErrorView {
    MissingHeader(Seq<char>),
}

impl DeepView for QueryError {
    type V = QueryErrorView;

    open spec fn deep_view(&self) -> QueryErrorView {
        match *self {
            QueryError::MissingHeader(name) => QueryErrorView::MissingHeader(name@),
        }
    }
}

impl QueryErrorView {
    /// The failure in words.
    pub open spec fn message(self) -> Seq<char> {
        match self {
            QueryErrorView::MissingHeader(name) => "missing header "@ + name,
        }
    }
}

impl QueryError {
    /// The failure in words.
    pub fn to_string(&self) -> (text: String)
        ensures
            text@ == self.deep_view().message(),
    {
        match self {
            QueryError::MissingHeader(name) => {
                let text = "missing header ".to_owned();
                vstd::string::StringExecFns::concat(text, name.as_str())
            },
        }
    }
}

/// The index of the first header from index `i` on whose name is `name`,
/// but for case; the number of headers where there is none.
pub open spec fn find_header(headers: Seq<(Seq<char>, Seq<char>)>, name: Seq<char>, i: int) -> int
    decreases headers.len() - i,
{
    if i < 0 || i >= headers.len() {
        headers.len() as int
    } else if same_name(headers[i].0, name) {
        i
    } else {
        find_header(headers, name, i + 1)
    }
}

impl QueryView {
    /// What the query finds in a request: for a header, the value of the
    /// first header of that name, names being held equal whatever the case
    /// of their letters.
    pub open spec fn apply(self, request: RequestPartsView) -> Result<ValueView, QueryErrorView> {
        match self {
            QueryView::Header(name) => {
                let at = find_header(request.headers, name, 0);
                if at < request.headers.len() {
                    Ok(ValueView::String(request.headers[at].1))
                } else {
                    Err(QueryErrorView::MissingHeader(name))
                }
            },
        }
    }
}

/// The query that `query` compiles to. Only a query for a header has a
/// compiled form; its name is the text of the template as it was written.
pub open spec fn compiled_query(query: ast::QueryView) -> Result<
    QueryView,
    AssertCompilationErrorView,
> {
    match query.value {
        ast::QueryValueView::Header { space0, name } => Ok(
            QueryView::Header(ast::source_of(name.elements)),
        ),
        _ => Err(AssertCompilationErrorView::InvalidQueryType),
    }
}

impl Query {
    /// Runs the query against a request.
    pub fn apply(&self, request: &RequestParts) -> (r: Result<Value, QueryError>)
        ensures
            match r {
                Ok(value) => self.deep_view().apply(request.deep_view()) == Ok::<
                    ValueView,
                    QueryErrorView,
                >(value.deep_view()),
                Err(error) => self.deep_view().apply(request.deep_view()) == Err::<
                    ValueView,
                    QueryErrorView,
                >(error.deep_view()),
            },
    {
        match self {
            Query::Header(name) => {
                let mut i: usize = 0;
                while i < request.headers.len()
                    invariant
                        i <= request.headers.len(),
                        self.deep_view() == QueryView::Header(name@),
                        find_header(request.deep_view().headers, name@, 0) == find_header(
                            request.deep_view().headers,
                            name@,
                            i as int,
                        ),
                    decreases request.headers.len() - i,
                {
                    assert(request.deep_view().headers[i as int]
                        == request.headers@[i as int].deep_view());
                    if eq_ignore_case(request.headers[i].0.as_str(), name.as_str()) {
                        let value = request.headers[i].1.clone();
                        return Ok(Value::String(value));
                    }
                    i = i + 1;
                }
                Err(QueryError::MissingHeader(name.clone()))
            },
        }
    }

    /// Compiles a query of the syntax tree.
    pub fn try_from(query: ast::Query) -> (r: Result<Query, AssertCompilationError>)
        ensures
            match r {
                Ok(compiled) => compiled_query(query.deep_view()) == Ok::<
                    QueryView,
                    AssertCompilationErrorView,
                >(compiled.deep_view()),
                Err(error) => compiled_query(query.deep_view()) == Err::<
                    QueryView,
                    AssertCompilationErrorView,
                >(error.deep_view()),
            },
    {
        match query.value {
            ast::QueryValue::Header { space0, name } => Ok(Query::Header(name.encoded())),
            _ => Err(AssertCompilationError::InvalidQueryType),
        }
    }
}

} // verus!
