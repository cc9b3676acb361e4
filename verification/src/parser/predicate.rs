use crate::ast::{
    Predicate, PredicateFunc, PredicateFuncValue, PredicateFuncValueView, PredicateFuncView,
    PredicateValue, PredicateValueView, PredicateView, SourceInfo, Whitespace, WhitespaceView,
};
use crate::parser::combinators::{choice, choice_spec, Parser};
use crate::parser::error::{Error, ParseError, ParseErrorView};
use crate::parser::outcome::{mapped, parses, Parsed};
use crate::parser::predicate_value::{predicate_value, predicate_value_spec};
use crate::parser::primitives::{
    one_or_more_spaces, one_or_more_spaces_spec, try_literal, try_literal_spec, try_literals,
    try_literals_spec, zero_or_more_spaces, zero_or_more_spaces_spec,
};
use crate::parser::reader::{Input, Reader};
use vstd::prelude::*;

verus! {

/// Which kinds of value a test takes.
#[derive(Clone, Copy, Debug, PartialEq, Eq, Structural)]
pub enum Accept {
    /// Any value.
    Any,
    /// What can be put in order: a number, a text or an expression.
    Ordered,
    /// A text or bytes.
    Text,
    /// A text or a regular expression.
    Pattern,
}

impl Accept {
    /// Whether a test that takes these kinds takes `value`.
    pub open spec fn admits(self, value: PredicateValueView) -> bool {
        match self {
            Accept::Any => true,
            Accept::Ordered => value is Number || value is String || value is Expression,
            Accept::Text => value is String || value is Base64 || value is File || value is Hex,
            Accept::Pattern => value is String || value is Regex,
        }
    }

    /// Whether a test that takes these kinds takes `value`.
    pub fn accepts(self, value: &PredicateValue) -> (yes: bool)
        ensures
            yes == self.admits(value.deep_view()),
    {
        match self {
            Accept::Any => true,
            Accept::Ordered => match value {
                PredicateValue::Number(_) => true,
                PredicateValue::String(_) => true,
                PredicateValue::Expression(_) => true,
                _ => false,
            },
            Accept::Text => match value {
                PredicateValue::String(_) => true,
                PredicateValue::Base64(_) => true,
                PredicateValue::File(_) => true,
                PredicateValue::Hex(_) => true,
                _ => false,
            },
            Accept::Pattern => match value {
                PredicateValue::String(_) => true,
                PredicateValue::Regex(_) => true,
                _ => false,
            },
        }
    }
}

/// Reading the value of a test at `at`: where no value stands there, and
/// where the value is of a kind that the test does not take, the failure
/// is one without a way back, reported where the value starts.
pub open spec fn accepted_value_spec(input: Input, at: int, accept: Accept) -> Parsed<
    PredicateValueView,
> {
    let value = predicate_value_spec(input, at);
    match value.result {
        Err(error) => if error.recoverable {
            Parsed::failed(input.pos_at(at), false, ParseErrorView::PredicateValue, value.end)
        } else {
            value
        },
        Ok(found) => if accept.admits(found) {
            value
        } else {
            Parsed::failed(input.pos_at(at), false, ParseErrorView::PredicateValue, value.end)
        },
    }
}

/// Reads the value of a test.
pub fn accepted_value(accept: Accept, reader: &mut Reader) -> (r: Result<PredicateValue, Error>)
    requires
        old(reader).wf(),
    ensures
        parses(
            *old(reader),
            *final(reader),
            r,
            accepted_value_spec(old(reader).input(), old(reader).state.cursor as int, accept),
        ),
{
    let start = reader.state;
    let value = match predicate_value(reader) {
        Ok(value) => value,
        Err(e) => {
            if e.recoverable {
                return Err(Error::new(start.pos, false, ParseError::PredicateValue));
            }
            return Err(e);
        },
    };
    if accept.accepts(&value) {
        Ok(value)
    } else {
        Err(Error::new(start.pos, false, ParseError::PredicateValue))
    }
}

/// Reading a comparison: its name, written as the word `word` or as the
/// sign `sign`; blanks, of which there must be one after a word; and the
/// value. Without the name the failure leaves the way open and nothing is
/// read. The result says which blanks were read, which value, and whether
/// the name was written as a sign.
pub open spec fn comparison_spec(
    input: Input,
    at: int,
    word: Seq<char>,
    sign: Seq<char>,
    accept: Accept,
) -> Parsed<(WhitespaceView, PredicateValueView, bool)> {
    let name = try_literals_spec(input, at, word, sign);
    let space0 = if name.result == Ok::<bool, crate::parser::error::ErrorView>(true) {
        zero_or_more_spaces_spec(input, name.end)
    } else {
        one_or_more_spaces_spec(input, name.end)
    };
    let value = accepted_value_spec(input, space0.end, accept);
    match (name.result, space0.result, value.result) {
        (Err(error), _, _) => Parsed::refused(error, at),
        (Ok(_), Err(error), _) => Parsed::refused(error, space0.end),
        (Ok(_), Ok(_), Err(error)) => Parsed::refused(error, value.end),
        (Ok(operator), Ok(space0), Ok(found)) => Parsed::done(
            (space0, found, operator),
            value.end,
        ),
    }
}

/// Reads a comparison.
pub fn comparison(word: &str, sign: &str, accept: Accept, reader: &mut Reader) -> (r: Result<
    (Whitespace, PredicateValue, bool),
    Error,
>)
    requires
        old(reader).wf(),
    ensures
        parses(
            *old(reader),
            *final(reader),
            r,
            comparison_spec(
                old(reader).input(),
                old(reader).state.cursor as int,
                word@,
                sign@,
                accept,
            ),
        ),
{
    let operator = try_literals(word, sign, reader)?;
    let space0 = if operator {
        zero_or_more_spaces(reader)?
    } else {
        one_or_more_spaces(reader)?
    };
    let value = accepted_value(accept, reader)?;
    Ok((space0, value, operator))
}

/// Reading a test that is named by the word `word` and takes a value: the
/// word, blanks, and the value. Without the word the failure leaves the
/// way open and nothing is read.
pub open spec fn word_value_spec(input: Input, at: int, word: Seq<char>, accept: Accept) -> Parsed<
    (WhitespaceView, PredicateValueView),
> {
    let space0 = one_or_more_spaces_spec(input, at + word.len());
    let value = accepted_value_spec(input, space0.end, accept);
    match (try_literal_spec(input, at, word).result, space0.result, value.result) {
        (Err(error), _, _) => Parsed::refused(error, at),
        (Ok(_), Err(error), _) => Parsed::refused(error, space0.end),
        (Ok(_), Ok(_), Err(error)) => Parsed::refused(error, value.end),
        (Ok(_), Ok(space0), Ok(found)) => Parsed::done((space0, found), value.end),
    }
}

/// Reads a test that is named by a word and takes a value.
pub fn word_value(word: &str, accept: Accept, reader: &mut Reader) -> (r: Result<
    (Whitespace, PredicateValue),
    Error,
>)
    requires
        old(reader).wf(),
    ensures
        parses(
            *old(reader),
            *final(reader),
            r,
            word_value_spec(old(reader).input(), old(reader).state.cursor as int, word@, accept),
        ),
{
    try_literal(word, reader)?;
    let space0 = one_or_more_spaces(reader)?;
    let value = accepted_value(accept, reader)?;
    Ok((space0, value))
}

/// Reading a test that only the word `word` stands for.
pub open spec fn word_spec(input: Input, at: int, word: Seq<char>, value: PredicateFuncValueView)
    -> Parsed<PredicateFuncValueView> {
    match try_literal_spec(input, at, word).result {
        Ok(_) => Parsed::done(value, at + word.len()),
        Err(error) => Parsed::refused(error, at),
    }
}

/// Reads a test that only a word stands for.
pub fn word(name: &str, value: PredicateFuncValue, reader: &mut Reader) -> (r: Result<
    PredicateFuncValue,
    Error,
>)
    requires
        old(reader).wf(),
    ensures
        parses(
            *old(reader),
            *final(reader),
            r,
            word_spec(
                old(reader).input(),
                old(reader).state.cursor as int,
                name@,
                value.deep_view(),
            ),
        ),
{
    try_literal(name, reader)?;
    Ok(value)
}

/// What reading the test `equals`, or `==`, does.
pub open spec fn equal_predicate_spec(input: Input, at: int) -> Parsed<PredicateFuncValueView> {
    mapped(
        comparison_spec(input, at, "equals"@, "=="@, Accept::Any),
        |found: (WhitespaceView, PredicateValueView, bool)|
            PredicateFuncValueView::Equal { space0: found.0, value: found.1, operator: found.2 },
    )
}

/// Reads the test `equals`, or `==`.
pub fn equal_predicate(reader: &mut Reader) -> (r: Result<PredicateFuncValue, Error>)
    requires
        old(reader).wf(),
    ensures
        parses(
            *old(reader),
            *final(reader),
            r,
            equal_predicate_spec(old(reader).input(), old(reader).state.cursor as int),
        ),
{
    let (space0, value, operator) = comparison("equals", "==", Accept::Any, reader)?;
    Ok(PredicateFuncValue::Equal { space0, value, operator })
}

/// What reading the test `notEquals`, or `!=`, does.
pub open spec fn not_equal_predicate_spec(input: Input, at: int) -> Parsed<PredicateFuncValueView> {
    mapped(
        comparison_spec(input, at, "notEquals"@, "!="@, Accept::Any),
        |found: (WhitespaceView, PredicateValueView, bool)|
            PredicateFuncValueView::NotEqual { space0: found.0, value: found.1, operator: found.2 },
    )
}

/// Reads the test `notEquals`, or `!=`.
pub fn not_equal_predicate(reader: &mut Reader) -> (r: Result<PredicateFuncValue, Error>)
    requires
        old(reader).wf(),
    ensures
        parses(
            *old(reader),
            *final(reader),
            r,
            not_equal_predicate_spec(old(reader).input(), old(reader).state.cursor as int),
        ),
{
    let (space0, value, operator) = comparison("notEquals", "!=", Accept::Any, reader)?;
    Ok(PredicateFuncValue::NotEqual { space0, value, operator })
}

/// What reading the test `greaterThanOrEquals`, or `>=`, does.
pub open spec fn greater_or_equal_predicate_spec(input: Input, at: int) -> Parsed<PredicateFuncValueView> {
    mapped(
        comparison_spec(input, at, "greaterThanOrEquals"@, ">="@, Accept::Ordered),
        |found: (WhitespaceView, PredicateValueView, bool)|
            PredicateFuncValueView::GreaterThanOrEqual { space0: found.0, value: found.1, operator: found.2 },
    )
}

/// Reads the test `greaterThanOrEquals`, or `>=`.
pub fn greater_or_equal_predicate(reader: &mut Reader) -> (r: Result<PredicateFuncValue, Error>)
    requires
        old(reader).wf(),
    ensures
        parses(
            *old(reader),
            *final(reader),
            r,
            greater_or_equal_predicate_spec(old(reader).input(), old(reader).state.cursor as int),
        ),
{
    let (space0, value, operator) = comparison("greaterThanOrEquals", ">=", Accept::Ordered, reader)?;
    Ok(PredicateFuncValue::GreaterThanOrEqual { space0, value, operator })
}

/// What reading the test `greaterThan`, or `>`, does.
pub open spec fn greater_predicate_spec(input: Input, at: int) -> Parsed<PredicateFuncValueView> {
    mapped(
        comparison_spec(input, at, "greaterThan"@, ">"@, Accept::Ordered),
        |found: (WhitespaceView, PredicateValueView, bool)|
            PredicateFuncValueView::GreaterThan { space0: found.0, value: found.1, operator: found.2 },
    )
}

/// Reads the test `greaterThan`, or `>`.
pub fn greater_predicate(reader: &mut Reader) -> (r: Result<PredicateFuncValue, Error>)
    requires
        old(reader).wf(),
    ensures
        parses(
            *old(reader),
            *final(reader),
            r,
            greater_predicate_spec(old(reader).input(), old(reader).state.cursor as int),
        ),
{
    let (space0, value, operator) = comparison("greaterThan", ">", Accept::Ordered, reader)?;
    Ok(PredicateFuncValue::GreaterThan { space0, value, operator })
}

/// What reading the test `lessThanOrEquals`, or `<=`, does.
pub open spec fn less_or_equal_predicate_spec(input: Input, at: int) -> Parsed<PredicateFuncValueView> {
    mapped(
        comparison_spec(input, at, "lessThanOrEquals"@, "<="@, Accept::Ordered),
        |found: (WhitespaceView, PredicateValueView, bool)|
            PredicateFuncValueView::LessThanOrEqual { space0: found.0, value: found.1, operator: found.2 },
    )
}

/// Reads the test `lessThanOrEquals`, or `<=`.
pub fn less_or_equal_predicate(reader: &mut Reader) -> (r: Result<PredicateFuncValue, Error>)
    requires
        old(reader).wf(),
    ensures
        parses(
            *old(reader),
            *final(reader),
            r,
            less_or_equal_predicate_spec(old(reader).input(), old(reader).state.cursor as int),
        ),
{
    let (space0, value, operator) = comparison("lessThanOrEquals", "<=", Accept::Ordered, reader)?;
    Ok(PredicateFuncValue::LessThanOrEqual { space0, value, operator })
}

/// What reading the test `lessThan`, or `<`, does.
pub open spec fn less_predicate_spec(input: Input, at: int) -> Parsed<PredicateFuncValueView> {
    mapped(
        comparison_spec(input, at, "lessThan"@, "<"@, Accept::Ordered),
        |found: (WhitespaceView, PredicateValueView, bool)|
            PredicateFuncValueView::LessThan { space0: found.0, value: found.1, operator: found.2 },
    )
}

/// Reads the test `lessThan`, or `<`.
pub fn less_predicate(reader: &mut Reader) -> (r: Result<PredicateFuncValue, Error>)
    requires
        old(reader).wf(),
    ensures
        parses(
            *old(reader),
            *final(reader),
            r,
            less_predicate_spec(old(reader).input(), old(reader).state.cursor as int),
        ),
{
    let (space0, value, operator) = comparison("lessThan", "<", Accept::Ordered, reader)?;
    Ok(PredicateFuncValue::LessThan { space0, value, operator })
}

/// What reading the test `startsWith` does.
pub open spec fn start_with_predicate_spec(input: Input, at: int) -> Parsed<PredicateFuncValueView> {
    mapped(
        word_value_spec(input, at, "startsWith"@, Accept::Text),
        |found: (WhitespaceView, PredicateValueView)|
            PredicateFuncValueView::StartWith { space0: found.0, value: found.1 },
    )
}

/// Reads the test `startsWith`.
pub fn start_with_predicate(reader: &mut Reader) -> (r: Result<PredicateFuncValue, Error>)
    requires
        old(reader).wf(),
    ensures
        parses(
            *old(reader),
            *final(reader),
            r,
            start_with_predicate_spec(old(reader).input(), old(reader).state.cursor as int),
        ),
{
    let (space0, value) = word_value("startsWith", Accept::Text, reader)?;
    Ok(PredicateFuncValue::StartWith { space0, value })
}

/// What reading the test `endsWith` does.
pub open spec fn end_with_predicate_spec(input: Input, at: int) -> Parsed<PredicateFuncValueView> {
    mapped(
        word_value_spec(input, at, "endsWith"@, Accept::Text),
        |found: (WhitespaceView, PredicateValueView)|
            PredicateFuncValueView::EndWith { space0: found.0, value: found.1 },
    )
}

/// Reads the test `endsWith`.
pub fn end_with_predicate(reader: &mut Reader) -> (r: Result<PredicateFuncValue, Error>)
    requires
        old(reader).wf(),
    ensures
        parses(
            *old(reader),
            *final(reader),
            r,
            end_with_predicate_spec(old(reader).input(), old(reader).state.cursor as int),
        ),
{
    let (space0, value) = word_value("endsWith", Accept::Text, reader)?;
    Ok(PredicateFuncValue::EndWith { space0, value })
}

/// What reading the test `contains` does.
pub open spec fn contain_predicate_spec(input: Input, at: int) -> Parsed<PredicateFuncValueView> {
    mapped(
        word_value_spec(input, at, "contains"@, Accept::Any),
        |found: (WhitespaceView, PredicateValueView)|
            PredicateFuncValueView::Contain { space0: found.0, value: found.1 },
    )
}

/// Reads the test `contains`.
pub fn contain_predicate(reader: &mut Reader) -> (r: Result<PredicateFuncValue, Error>)
    requires
        old(reader).wf(),
    ensures
        parses(
            *old(reader),
            *final(reader),
            r,
            contain_predicate_spec(old(reader).input(), old(reader).state.cursor as int),
        ),
{
    let (space0, value) = word_value("contains", Accept::Any, reader)?;
    Ok(PredicateFuncValue::Contain { space0, value })
}

/// What reading the test `includes` does.
pub open spec fn include_predicate_spec(input: Input, at: int) -> Parsed<PredicateFuncValueView> {
    mapped(
        word_value_spec(input, at, "includes"@, Accept::Any),
        |found: (WhitespaceView, PredicateValueView)|
            PredicateFuncValueView::Include { space0: found.0, value: found.1 },
    )
}

/// Reads the test `includes`.
pub fn include_predicate(reader: &mut Reader) -> (r: Result<PredicateFuncValue, Error>)
    requires
        old(reader).wf(),
    ensures
        parses(
            *old(reader),
            *final(reader),
            r,
            include_predicate_spec(old(reader).input(), old(reader).state.cursor as int),
        ),
{
    let (space0, value) = word_value("includes", Accept::Any, reader)?;
    Ok(PredicateFuncValue::Include { space0, value })
}

/// What reading the test `matches` does.
pub open spec fn match_predicate_spec(input: Input, at: int) -> Parsed<PredicateFuncValueView> {
    mapped(
        word_value_spec(input, at, "matches"@, Accept::Pattern),
        |found: (WhitespaceView, PredicateValueView)|
            PredicateFuncValueView::Match { space0: found.0, value: found.1 },
    )
}

/// Reads the test `matches`.
pub fn match_predicate(reader: &mut Reader) -> (r: Result<PredicateFuncValue, Error>)
    requires
        old(reader).wf(),
    ensures
        parses(
            *old(reader),
            *final(reader),
            r,
            match_predicate_spec(old(reader).input(), old(reader).state.cursor as int),
        ),
{
    let (space0, value) = word_value("matches", Accept::Pattern, reader)?;
    Ok(PredicateFuncValue::Match { space0, value })
}

/// The kinds of test, in the order in which they are tried.
#[derive(Clone, Copy, Debug, PartialEq, Eq, Structural)]
pub enum PredicateKind {
    Equal,
    NotEqual,
    GreaterThanOrEqual,
    GreaterThan,
    LessThanOrEqual,
    LessThan,
    StartWith,
    EndWith,
    Contain,
    Include,
    Match,
    IsInteger,
    IsFloat,
    IsBoolean,
    IsString,
    IsCollection,
    IsDate,
    Exist,
    IsEmpty,
}

impl Parser for PredicateKind {
    type Output = PredicateFuncValue;

    open spec fn spec_parse(&self, input: Input, at: int) -> Parsed<PredicateFuncValueView> {
        match *self {
            PredicateKind::Equal => equal_predicate_spec(input, at),
            PredicateKind::NotEqual => not_equal_predicate_spec(input, at),
            PredicateKind::GreaterThanOrEqual => greater_or_equal_predicate_spec(input, at),
            PredicateKind::GreaterThan => greater_predicate_spec(input, at),
            PredicateKind::LessThanOrEqual => less_or_equal_predicate_spec(input, at),
            PredicateKind::LessThan => less_predicate_spec(input, at),
            PredicateKind::StartWith => start_with_predicate_spec(input, at),
            PredicateKind::EndWith => end_with_predicate_spec(input, at),
            PredicateKind::Contain => contain_predicate_spec(input, at),
            PredicateKind::Include => include_predicate_spec(input, at),
            PredicateKind::Match => match_predicate_spec(input, at),
            PredicateKind::IsInteger => word_spec(
                input,
                at,
                "isInteger"@,
                PredicateFuncValueView::IsInteger,
            ),
            PredicateKind::IsFloat => word_spec(
                input,
                at,
                "isFloat"@,
                PredicateFuncValueView::IsFloat,
            ),
            PredicateKind::IsBoolean => word_spec(
                input,
                at,
                "isBoolean"@,
                PredicateFuncValueView::IsBoolean,
            ),
            PredicateKind::IsString => word_spec(
                input,
                at,
                "isString"@,
                PredicateFuncValueView::IsString,
            ),
            PredicateKind::IsCollection => word_spec(
                input,
                at,
                "isCollection"@,
                PredicateFuncValueView::IsCollection,
            ),
            PredicateKind::IsDate => word_spec(
                input,
                at,
                "isDate"@,
                PredicateFuncValueView::IsDate,
            ),
            PredicateKind::Exist => word_spec(
                input,
                at,
                "exists"@,
                PredicateFuncValueView::Exist,
            ),
            PredicateKind::IsEmpty => word_spec(
                input,
                at,
                "isEmpty"@,
                PredicateFuncValueView::IsEmpty,
            ),
        }
    }

    fn parse(&self, reader: &mut Reader) -> (r: Result<PredicateFuncValue, Error>) {
        match *self {
            PredicateKind::Equal => equal_predicate(reader),
            PredicateKind::NotEqual => not_equal_predicate(reader),
            PredicateKind::GreaterThanOrEqual => greater_or_equal_predicate(reader),
            PredicateKind::GreaterThan => greater_predicate(reader),
            PredicateKind::LessThanOrEqual => less_or_equal_predicate(reader),
            PredicateKind::LessThan => less_predicate(reader),
            PredicateKind::StartWith => start_with_predicate(reader),
            PredicateKind::EndWith => end_with_predicate(reader),
            PredicateKind::Contain => contain_predicate(reader),
            PredicateKind::Include => include_predicate(reader),
            PredicateKind::Match => match_predicate(reader),
            PredicateKind::IsInteger => word("isInteger", PredicateFuncValue::IsInteger, reader),
            PredicateKind::IsFloat => word("isFloat", PredicateFuncValue::IsFloat, reader),
            PredicateKind::IsBoolean => word("isBoolean", PredicateFuncValue::IsBoolean, reader),
            PredicateKind::IsString => word("isString", PredicateFuncValue::IsString, reader),
            PredicateKind::IsCollection => word("isCollection", PredicateFuncValue::IsCollection, reader),
            PredicateKind::IsDate => word("isDate", PredicateFuncValue::IsDate, reader),
            PredicateKind::Exist => word("exists", PredicateFuncValue::Exist, reader),
            PredicateKind::IsEmpty => word("isEmpty", PredicateFuncValue::IsEmpty, reader),
        }
    }
}

/// The kinds of test in the order in which they are tried.
pub open spec fn kinds() -> Seq<PredicateKind> {
    seq![
        PredicateKind::Equal,
        PredicateKind::NotEqual,
        PredicateKind::GreaterThanOrEqual,
        PredicateKind::GreaterThan,
        PredicateKind::LessThanOrEqual,
        PredicateKind::LessThan,
        PredicateKind::StartWith,
        PredicateKind::EndWith,
        PredicateKind::Contain,
        PredicateKind::Include,
        PredicateKind::Match,
        PredicateKind::IsInteger,
        PredicateKind::IsFloat,
        PredicateKind::IsBoolean,
        PredicateKind::IsString,
        PredicateKind::IsCollection,
        PredicateKind::IsDate,
        PredicateKind::Exist,
        PredicateKind::IsEmpty,
    ]
}

/// What [`predicate_func`] does: it tries the kinds of test in their
/// order. Where none can be read, the failure is one without a way back,
/// reported where the test should start. The span of the test is that of
/// what was read.
pub open spec fn predicate_func_spec(input: Input, at: int) -> Parsed<PredicateFuncView> {
    let value = choice_spec(kinds(), 0, input, at);
    match value.result {
        Ok(found) => Parsed::done(
            PredicateFuncView { source_info: input.span(at, value.end), value: found },
            value.end,
        ),
        Err(error) => if error.recoverable {
            Parsed::failed(input.pos_at(at), false, ParseErrorView::Predicate, value.end)
        } else {
            Parsed::refused(error, value.end)
        },
    }
}

/// Reads the test of a predicate.
pub fn predicate_func(reader: &mut Reader) -> (r: Result<PredicateFunc, Error>)
    requires
        old(reader).wf(),
    ensures
        parses(
            *old(reader),
            *final(reader),
            r,
            predicate_func_spec(old(reader).input(), old(reader).state.cursor as int),
        ),
{
    let start = reader.state;
    let alternatives = [
        PredicateKind::Equal,
        PredicateKind::NotEqual,
        PredicateKind::GreaterThanOrEqual,
        PredicateKind::GreaterThan,
        PredicateKind::LessThanOrEqual,
        PredicateKind::LessThan,
        PredicateKind::StartWith,
        PredicateKind::EndWith,
        PredicateKind::Contain,
        PredicateKind::Include,
        PredicateKind::Match,
        PredicateKind::IsInteger,
        PredicateKind::IsFloat,
        PredicateKind::IsBoolean,
        PredicateKind::IsString,
        PredicateKind::IsCollection,
        PredicateKind::IsDate,
        PredicateKind::Exist,
        PredicateKind::IsEmpty,
    ];
    assert(alternatives@ =~= kinds());
    match choice(alternatives.as_slice(), reader) {
        Ok(value) => Ok(
            PredicateFunc { source_info: SourceInfo::new(start.pos, reader.state.pos), value },
        ),
        Err(e) => {
            if e.recoverable {
                Err(Error::new(start.pos, false, ParseError::Predicate))
            } else {
                Err(e)
            }
        },
    }
}

/// What reading the word `not` before a test does: where the word and a
/// blank after it stand at `at`, they are read; otherwise nothing is.
pub open spec fn predicate_not_spec(input: Input, at: int) -> (bool, WhitespaceView, int) {
    let space0 = one_or_more_spaces_spec(input, at + "not"@.len());
    if input.starts_with(at, "not"@) && space0.result is Ok {
        (true, space0.result->Ok_0, space0.end)
    } else {
        (false, WhitespaceView { value: Seq::empty(), source_info: input.span(at, at) }, at)
    }
}

/// Reads the word `not` before a test, if it stands there.
pub fn predicate_not(reader: &mut Reader) -> (r: (bool, Whitespace))
    requires
        old(reader).wf(),
    ensures
        final(reader).wf(),
        final(reader).input() == old(reader).input(),
        old(reader).state.cursor <= final(reader).state.cursor,
        (r.0, r.1.deep_view(), final(reader).state.cursor as int) == predicate_not_spec(
            old(reader).input(),
            old(reader).state.cursor as int,
        ),
{
    let save = reader.state;
    if try_literal("not", reader).is_ok() {
        match one_or_more_spaces(reader) {
            Ok(space0) => {
                return (true, space0);
            },
            Err(_) => {
                reader.state = save;
            },
        }
    }
    (false, Whitespace { value: String::new(), source_info: SourceInfo::new(save.pos, save.pos) })
}

/// What [`predicate`] does: it reads the word `not`, if it stands there,
/// and the test.
pub open spec fn predicate_spec(input: Input, at: int) -> Parsed<PredicateView> {
    let not = predicate_not_spec(input, at);
    let func = predicate_func_spec(input, not.2);
    match func.result {
        Ok(predicate_func) => Parsed::done(
            PredicateView { not: not.0, space0: not.1, predicate_func },
            func.end,
        ),
        Err(error) => Parsed::refused(error, func.end),
    }
}

/// Reads a predicate.
pub fn predicate(reader: &mut Reader) -> (r: Result<Predicate, Error>)
    requires
        old(reader).wf(),
    ensures
        parses(
            *old(reader),
            *final(reader),
            r,
            predicate_spec(old(reader).input(), old(reader).state.cursor as int),
        ),
{
    let (not, space0) = predicate_not(reader);
    let func = predicate_func(reader)?;
    Ok(Predicate { not, space0, predicate_func: func })
}

} // verus!
