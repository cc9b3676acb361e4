use crate::asserts::{AssertCompilationError, AssertCompilationErrorView};
use crate::ast;
use vstd::prelude::*;

verus! {

/// A value that a query finds, or that a predicate compares with.
#[derive(Debug, PartialEq, Eq)]
pub enum Value {
    Null,
    Bool(bool),
    Number(i64),
    String(String),
}

/// What a [`Value`] holds, as mathematical values.
pub enum ValueView {
    Null,
    Bool(bool),
    Number(i64),
    String(Seq<char>),
}

impl DeepView for Value {
    type V = ValueView;

    open spec fn deep_view(&self) -> ValueView {
        match *self {
            Value::Null => ValueView::Null,
            Value::Bool(value) => ValueView::Bool(value),
            Value::Number(value) => ValueView::Number(value),
            Value::String(value) => ValueView::String(value@),
        }
    }
}

impl Clone for Value {
    fn clone(&self) -> (copy: Self)
        ensures
            copy.deep_view() == self.deep_view(),
    {
        match self {
            Value::Null => Value::Null,
            Value::Bool(value) => Value::Bool(*value),
            Value::Number(value) => Value::Number(*value),
            Value::String(value) => Value::String(value.clone()),
        }
    }
}

impl Value {
    /// Whether two values are the same.
    pub fn same(&self, other: &Value) -> (same: bool)
        ensures
            same == (self.deep_view() == other.deep_view()),
    {
        match (self, other) {
            (Value::Null, Value::Null) => true,
            (Value::Bool(a), Value::Bool(b)) => *a == *b,
            (Value::Number(a), Value::Number(b)) => *a == *b,
            (Value::String(a), Value::String(b)) => *a == *b,
            _ => false,
        }
    }
}

/// A predicate in the form in which it is held against a value.
#[derive(Debug, PartialEq, Eq)]
pub enum Predicate {
    /// The value is this one.
    Equal(Value),
}

/// What a [`Predicate`] holds, as mathematical values.
pub enum PredicateView {
    Equal(ValueView),
}

impl DeepView for Predicate {
    type V = PredicateView;

    open spec fn deep_view(&self) -> PredicateView {
        match *self {
            Predicate::Equal(value) => PredicateView::Equal(value.deep_view()),
        }
    }
}

impl Clone for Predicate {
    fn clone(&self) -> (copy: Self)
        ensures
            copy.deep_view() == self.deep_view(),
    {
        match self {
            Predicate::Equal(value) => Predicate::Equal(value.clone()),
        }
    }
}

impl PredicateView {
    /// Whether the predicate holds of `value`.
    pub open spec fn apply(self, value: ValueView) -> bool {
        match self {
            PredicateView::Equal(expected) => value == expected,
        }
    }
}

/// The value that a value of the syntax tree compiles to: `null`, a
/// boolean, an integer of 64 bits, or a text, which stands for itself as
/// it was written. The other kinds have no compiled form; the failure names
/// the kind.
pub open spec fn compiled_value(value: ast::PredicateValueView) -> Result<
    ValueView,
    AssertCompilationErrorView,
> {
    match value {
        ast::PredicateValueView::Null => Ok(ValueView::Null),
        ast::PredicateValueView::Bool(value) => Ok(ValueView::Bool(value)),
        ast::PredicateValueView::Number(ast::NumberView::Integer(value)) => Ok(
            ValueView::Number(value),
        ),
        ast::PredicateValueView::String(template) => Ok(
            ValueView::String(ast::source_of(template.elements)),
        ),
        ast::PredicateValueView::Number(ast::NumberView::Float(_)) => Err(
            AssertCompilationErrorView::InvalidPredicateValue("float"@),
        ),
        ast::PredicateValueView::Number(ast::NumberView::BigInteger(_)) => Err(
            AssertCompilationErrorView::InvalidPredicateValue("big integer"@),
        ),
        ast::PredicateValueView::Base64(_) => Err(
            AssertCompilationErrorView::InvalidPredicateValue("base64"@),
        ),
        ast::PredicateValueView::Expression(_) => Err(
            AssertCompilationErrorView::InvalidPredicateValue("expression"@),
        ),
        ast::PredicateValueView::File(_) => Err(
            AssertCompilationErrorView::InvalidPredicateValue("file"@),
        ),
        ast::PredicateValueView::Hex(_) => Err(
            AssertCompilationErrorView::InvalidPredicateValue("hex"@),
        ),
        ast::PredicateValueView::MultilineString(_) => Err(
            AssertCompilationErrorView::InvalidPredicateValue("multiline string"@),
        ),
        ast::PredicateValueView::Regex(_) => Err(
            AssertCompilationErrorView::InvalidPredicateValue("regex"@),
        ),
    }
}

/// The predicate that a predicate of the syntax tree compiles to. Only a
/// test for equality has a compiled form. Whether the test is negated is
/// not part of it: the assert keeps that.
pub open spec fn compiled_predicate(predicate: ast::PredicateView) -> Result<
    PredicateView,
    AssertCompilationErrorView,
> {
    match predicate.predicate_func.value {
        ast::PredicateFuncValueView::Equal { space0, value, operator } => match compiled_value(
            value,
        ) {
            Ok(expected) => Ok(PredicateView::Equal(expected)),
            Err(error) => Err(error),
        },
        _ => Err(AssertCompilationErrorView::InvalidPredicate),
    }
}

impl Value {
    /// Compiles a value of the syntax tree.
    pub fn try_from(value: ast::PredicateValue) -> (r: Result<Value, AssertCompilationError>)
        ensures
            match r {
                Ok(compiled) => compiled_value(value.deep_view()) == Ok::<
                    ValueView,
                    AssertCompilationErrorView,
                >(compiled.deep_view()),
                Err(error) => compiled_value(value.deep_view()) == Err::<
                    ValueView,
                    AssertCompilationErrorView,
                >(error.deep_view()),
            },
    {
        match value {
            ast::PredicateValue::Null => Ok(Value::Null),
            ast::PredicateValue::Bool(value) => Ok(Value::Bool(value)),
            ast::PredicateValue::Number(ast::Number::Integer(value)) => Ok(Value::Number(value)),
            ast::PredicateValue::String(template) => Ok(Value::String(template.encoded())),
            ast::PredicateValue::Number(ast::Number::Float(_)) => Err(
                AssertCompilationError::InvalidPredicateValue("float".to_owned()),
            ),
            ast::PredicateValue::Number(ast::Number::BigInteger(_)) => Err(
                AssertCompilationError::InvalidPredicateValue("big integer".to_owned()),
            ),
            ast::PredicateValue::Base64(_) => Err(
                AssertCompilationError::InvalidPredicateValue("base64".to_owned()),
            ),
            ast::PredicateValue::Expression(_) => Err(
                AssertCompilationError::InvalidPredicateValue("expression".to_owned()),
            ),
            ast::PredicateValue::File(_) => Err(
                AssertCompilationError::InvalidPredicateValue("file".to_owned()),
            ),
            ast::PredicateValue::Hex(_) => Err(
                AssertCompilationError::InvalidPredicateValue("hex".to_owned()),
            ),
            ast::PredicateValue::MultilineString(_) => Err(
                AssertCompilationError::InvalidPredicateValue("multiline string".to_owned()),
            ),
            ast::PredicateValue::Regex(_) => Err(
                AssertCompilationError::InvalidPredicateValue("regex".to_owned()),
            ),
        }
    }
}

impl Predicate {
    /// Whether the predicate holds of `value`.
    pub fn apply(&self, value: &Value) -> (holds: bool)
        ensures
            holds == self.deep_view().apply(value.deep_view()),
    {
        match self {
            Predicate::Equal(expected) => value.same(expected),
        }
    }

    /// Compiles a predicate of the syntax tree.
    pub fn try_from(predicate: ast::Predicate) -> (r: Result<Predicate, AssertCompilationError>)
        ensures
            match r {
                Ok(compiled) => compiled_predicate(predicate.deep_view()) == Ok::<
                    PredicateView,
                    AssertCompilationErrorView,
                >(compiled.deep_view()),
                Err(error) => compiled_predicate(predicate.deep_view()) == Err::<
                    PredicateView,
                    AssertCompilationErrorView,
                >(error.deep_view()),
            },
    {
        match predicate.predicate_func.value {
            ast::PredicateFuncValue::Equal { space0, value, operator } => {
                let expected = Value::try_from(value)?;
                Ok(Predicate::Equal(expected))
            },
            _ => Err(AssertCompilationError::InvalidPredicate),
        }
    }
}

} // verus!
