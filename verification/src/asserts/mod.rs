//! The asserts of a mock entry in the form in which they are held against
//! an incoming request.

pub mod predicate;
pub mod query;

use self::predicate::{compiled_predicate, Predicate, PredicateView, Value, ValueView};
use self::query::{compiled_query, Query, QueryErrorView, QueryView, RequestParts, RequestPartsView};
use crate::ast;
use vstd::prelude::*;

verus! {

/// Why an assert of the syntax tree has no compiled form.
#[allow(clippy::enum_variant_names)]
#[derive(Debug, PartialEq, Eq)]
pub enum AssertCompilationError {
    InvalidQueryType,
    InvalidPredicate,
    InvalidPredicateValue(String),
}

/// What an [`AssertCompilationError`] holds, as mathematical values.
pub enum AssertCompilationErrorView {
    InvalidQueryType,
    InvalidPredicate,
    InvalidPredicateValue(Seq<char>),
}

impl DeepView for AssertCompilationError {
    type V = AssertCompilationErrorView;

    open spec fn deep_view(&self) -> AssertCompilationErrorView {
        match *self {
            AssertCompilationError::InvalidQueryType => AssertCompilationErrorView::InvalidQueryType,
            AssertCompilationError::InvalidPredicate => AssertCompilationErrorView::InvalidPredicate,
            AssertCompilationError::InvalidPredicateValue(message) => {
                AssertCompilationErrorView::InvalidPredicateValue(message@)
            },
        }
    }
}

impl AssertCompilationErrorView {
    /// The failure in words.
    pub open spec fn message(self) -> Seq<char> {
        match self {
            AssertCompilationErrorView::InvalidQueryType => "invalid query type"@,
            AssertCompilationErrorView::InvalidPredicate => "invalid predicate"@,
            AssertCompilationErrorView::InvalidPredicateValue(message) => {
                "invalid predicate value - "@ + message
            },
        }
    }
}

impl AssertCompilationError {
    /// The failure in words.
    pub fn to_string(&self) -> (text: String)
        ensures
            text@ == self.deep_view().message(),
    {
        match self {
            AssertCompilationError::InvalidQueryType => "invalid query type".to_owned(),
            AssertCompilationError::InvalidPredicate => "invalid predicate".to_owned(),
            AssertCompilationError::InvalidPredicateValue(message) => {
                let text = "invalid predicate value - ".to_owned();
                vstd::string::StringExecFns::concat(text, message.as_str())
            },
        }
    }
}

/// Why an assert could not be held against a request.
#[derive(Debug, PartialEq, Eq)]
pub enum AssertionError {
    /// The query found nothing; the text says why.
    InvalidQueryValue(String),
}

/// What an [`AssertionError`] holds, as mathematical values.
pub enum AssertionErrorView {
    InvalidQueryValue(Seq<char>),
}

impl DeepView for AssertionError {
    type V = AssertionErrorView;

    open spec fn deep_view(&self) -> AssertionErrorView {
        match *self {
            AssertionError::InvalidQueryValue(message) => AssertionErrorView::InvalidQueryValue(
                message@,
            ),
        }
    }
}

/// An assert in the form in which it is held against a request.
#[derive(Debug, PartialEq, Eq)]
pub struct Assert {
    query: Query,
    predicate: Predicate,
    not: bool,
}

/// What an [`Assert`] holds, as mathematical values.
pub struct AssertView {
    pub query: QueryView,
    pub predicate: PredicateView,
    pub not: bool,
}

impl DeepView for Assert {
    type V = AssertView;

    closed spec fn deep_view(&self) -> AssertView {
        AssertView {
            query: self.query.deep_view(),
            predicate: self.predicate.deep_view(),
            not: self.not,
        }
    }
}

impl Clone for Assert {
    fn clone(&self) -> (copy: Self)
        ensures
            copy.deep_view() == self.deep_view(),
    {
        Assert { query: self.query.clone(), predicate: self.predicate.clone(), not: self.not }
    }
}

impl AssertView {
    /// What holding the assert against a request gives: the failure of the
    /// query, in words; or whether the predicate holds of what the query
    /// found, turned into its opposite where the assert is negated.
    pub open spec fn apply(self, request: RequestPartsView) -> Result<bool, AssertionErrorView> {
        match self.query.apply(request) {
            Err(error) => Err(AssertionErrorView::InvalidQueryValue(error.message())),
            Ok(value) => Ok(self.predicate.apply(value) != self.not),
        }
    }
}

/// The assert that an assert of the syntax tree compiles to: its query,
/// its predicate, and whether it is negated. A query without a compiled
/// form is reported before a predicate without one. The filters are not
/// part of the compiled form.
pub open spec fn compiled_assert(value: ast::AssertView) -> Result<
    AssertView,
    AssertCompilationErrorView,
> {
    match (compiled_query(value.query), compiled_predicate(value.predicate)) {
        (Err(error), _) => Err(error),
        (Ok(_), Err(error)) => Err(error),
        (Ok(query), Ok(predicate)) => Ok(
            AssertView { query, predicate, not: value.predicate.not },
        ),
    }
}

/// The assert that a header of a mock request stands for: the request must
/// have a header of that name with that value, both as they were written.
pub open spec fn header_assert(header: ast::KeyValueView) -> AssertView {
    AssertView {
        query: QueryView::Header(ast::source_of(header.key.elements)),
        predicate: PredicateView::Equal(ValueView::String(ast::source_of(header.value.elements))),
        not: false,
    }
}

impl Assert {
    /// Compiles an assert of the syntax tree.
    pub fn try_from(value: ast::Assert) -> (r: Result<Assert, AssertCompilationError>)
        ensures
            match r {
                Ok(compiled) => compiled_assert(value.deep_view()) == Ok::<
                    AssertView,
                    AssertCompilationErrorView,
                >(compiled.deep_view()),
                Err(error) => compiled_assert(value.deep_view()) == Err::<
                    AssertView,
                    AssertCompilationErrorView,
                >(error.deep_view()),
            },
    {
        let query = Query::try_from(value.query)?;
        let not = value.predicate.not;
        let predicate = Predicate::try_from(value.predicate)?;

        Ok(Assert { query, predicate, not })
    }

    /// The assert that a header of a mock request stands for.
    pub fn from_header(value: ast::KeyValue) -> (r: Result<Assert, AssertCompilationError>)
        ensures
            r matches Ok(compiled) && compiled.deep_view() == header_assert(value.deep_view()),
    {
        let query = Query::Header(value.key.encoded());
        let not = false;
        let predicate = Predicate::Equal(Value::String(value.value.encoded()));

        Ok(Assert { query, predicate, not })
    }

    /// Holds the assert against a request.
    pub fn apply(&self, request: &RequestParts) -> (r: Result<bool, AssertionError>)
        ensures
            match r {
                Ok(holds) => self.deep_view().apply(request.deep_view()) == Ok::<
                    bool,
                    AssertionErrorView,
                >(holds),
                Err(error) => self.deep_view().apply(request.deep_view()) == Err::<
                    bool,
                    AssertionErrorView,
                >(error.deep_view()),
            },
    {
        let query_value = match self.query.apply(request) {
            Ok(value) => value,
            Err(e) => return Err(AssertionError::InvalidQueryValue(e.to_string())),
        };
        let assertion_result = self.predicate.apply(&query_value);
        Ok(
            if self.not {
                !assertion_result
            } else {
                assertion_result
            },
        )
    }
}

} // verus!
