use crate::ast::{
    Base64View, ExprView, FileView, HexView, MultilineStringView, NumberView, PredicateValue,
    PredicateValueView, RegexView, TemplateView,
};
use crate::parser::bytes::{base64, base64_spec, file, file_spec, hex, hex_spec};
use crate::parser::combinators::{choice, choice_spec, Parser};
use crate::parser::error::Error;
use crate::parser::expr;
use crate::parser::multiline::{multiline_string, multiline_string_spec};
use crate::parser::number::{number, number_spec};
use crate::parser::outcome::{mapped, parses, Parsed};
use crate::parser::primitives::{boolean, boolean_spec, null, null_spec, regex, regex_spec};
use crate::parser::reader::{Input, Reader};
use crate::parser::string::{quoted_template, quoted_template_spec};
use vstd::prelude::*;

verus! {

/// The kinds of value that a test can compare with, in the order in which
/// they are tried.
#[derive(Clone, Copy, Debug, PartialEq, Eq, Structural)]
pub enum ValueKind {
    Null,
    Bool,
    String,
    MultilineString,
    Regex,
    Hex,
    Base64,
    File,
    Expression,
    Number,
}

/// What reading the word `null` as a value does.
pub open spec fn null_value_spec(input: Input, at: int) -> Parsed<PredicateValueView> {
    mapped(null_spec(input, at), |unit: ()| PredicateValueView::Null)
}

/// Reads the word `null` as a value.
pub fn null_value(reader: &mut Reader) -> (r: Result<PredicateValue, Error>)
    requires
        old(reader).wf(),
    ensures
        parses(
            *old(reader),
            *final(reader),
            r,
            null_value_spec(old(reader).input(), old(reader).state.cursor as int),
        ),
{
    null(reader)?;
    Ok(PredicateValue::Null)
}

/// What reading a boolean as a value does.
pub open spec fn bool_value_spec(input: Input, at: int) -> Parsed<PredicateValueView> {
    mapped(boolean_spec(input, at), |value: bool| PredicateValueView::Bool(value))
}

/// Reads a boolean as a value.
pub fn bool_value(reader: &mut Reader) -> (r: Result<PredicateValue, Error>)
    requires
        old(reader).wf(),
    ensures
        parses(
            *old(reader),
            *final(reader),
            r,
            bool_value_spec(old(reader).input(), old(reader).state.cursor as int),
        ),
{
    Ok(PredicateValue::Bool(boolean(reader)?))
}

/// What reading a text between double quotes as a value does.
pub open spec fn string_value_spec(input: Input, at: int) -> Parsed<PredicateValueView> {
    mapped(quoted_template_spec(input, at), |value: TemplateView| PredicateValueView::String(value))
}

/// Reads a text between double quotes as a value.
pub fn string_value(reader: &mut Reader) -> (r: Result<PredicateValue, Error>)
    requires
        old(reader).wf(),
    ensures
        parses(
            *old(reader),
            *final(reader),
            r,
            string_value_spec(old(reader).input(), old(reader).state.cursor as int),
        ),
{
    Ok(PredicateValue::String(quoted_template(reader)?))
}

/// What reading a multiline string as a value does.
pub open spec fn multiline_value_spec(input: Input, at: int) -> Parsed<PredicateValueView> {
    mapped(multiline_string_spec(input, at), |value: MultilineStringView| PredicateValueView::MultilineString(value))
}

/// Reads a multiline string as a value.
pub fn multiline_value(reader: &mut Reader) -> (r: Result<PredicateValue, Error>)
    requires
        old(reader).wf(),
    ensures
        parses(
            *old(reader),
            *final(reader),
            r,
            multiline_value_spec(old(reader).input(), old(reader).state.cursor as int),
        ),
{
    Ok(PredicateValue::MultilineString(multiline_string(reader)?))
}

/// What reading a regular expression as a value does.
pub open spec fn regex_value_spec(input: Input, at: int) -> Parsed<PredicateValueView> {
    mapped(regex_spec(input, at), |value: RegexView| PredicateValueView::Regex(value))
}

/// Reads a regular expression as a value.
pub fn regex_value(reader: &mut Reader) -> (r: Result<PredicateValue, Error>)
    requires
        old(reader).wf(),
    ensures
        parses(
            *old(reader),
            *final(reader),
            r,
            regex_value_spec(old(reader).input(), old(reader).state.cursor as int),
        ),
{
    Ok(PredicateValue::Regex(regex(reader)?))
}

/// What reading bytes in base sixteen as a value does.
pub open spec fn hex_value_spec(input: Input, at: int) -> Parsed<PredicateValueView> {
    mapped(hex_spec(input, at), |value: HexView| PredicateValueView::Hex(value))
}

/// Reads bytes in base sixteen as a value.
pub fn hex_value(reader: &mut Reader) -> (r: Result<PredicateValue, Error>)
    requires
        old(reader).wf(),
    ensures
        parses(
            *old(reader),
            *final(reader),
            r,
            hex_value_spec(old(reader).input(), old(reader).state.cursor as int),
        ),
{
    Ok(PredicateValue::Hex(hex(reader)?))
}

/// What reading bytes in base 64 as a value does.
pub open spec fn base64_value_spec(input: Input, at: int) -> Parsed<PredicateValueView> {
    mapped(base64_spec(input, at), |value: Base64View| PredicateValueView::Base64(value))
}

/// Reads bytes in base 64 as a value.
pub fn base64_value(reader: &mut Reader) -> (r: Result<PredicateValue, Error>)
    requires
        old(reader).wf(),
    ensures
        parses(
            *old(reader),
            *final(reader),
            r,
            base64_value_spec(old(reader).input(), old(reader).state.cursor as int),
        ),
{
    Ok(PredicateValue::Base64(base64(reader)?))
}

/// What reading a reference to a file as a value does.
pub open spec fn file_value_spec(input: Input, at: int) -> Parsed<PredicateValueView> {
    mapped(file_spec(input, at), |value: FileView| PredicateValueView::File(value))
}

/// Reads a reference to a file as a value.
pub fn file_value(reader: &mut Reader) -> (r: Result<PredicateValue, Error>)
    requires
        old(reader).wf(),
    ensures
        parses(
            *old(reader),
            *final(reader),
            r,
            file_value_spec(old(reader).input(), old(reader).state.cursor as int),
        ),
{
    Ok(PredicateValue::File(file(reader)?))
}

/// What reading an expression as a value does.
pub open spec fn expression_value_spec(input: Input, at: int) -> Parsed<PredicateValueView> {
    mapped(expr::parse_spec(input, at), |value: ExprView| PredicateValueView::Expression(value))
}

/// Reads an expression as a value.
pub fn expression_value(reader: &mut Reader) -> (r: Result<PredicateValue, Error>)
    requires
        old(reader).wf(),
    ensures
        parses(
            *old(reader),
            *final(reader),
            r,
            expression_value_spec(old(reader).input(), old(reader).state.cursor as int),
        ),
{
    Ok(PredicateValue::Expression(expr::parse(reader)?))
}

/// What reading a number as a value does.
pub open spec fn number_value_spec(input: Input, at: int) -> Parsed<PredicateValueView> {
    mapped(number_spec(input, at), |value: NumberView| PredicateValueView::Number(value))
}

/// Reads a number as a value.
pub fn number_value(reader: &mut Reader) -> (r: Result<PredicateValue, Error>)
    requires
        old(reader).wf(),
    ensures
        parses(
            *old(reader),
            *final(reader),
            r,
            number_value_spec(old(reader).input(), old(reader).state.cursor as int),
        ),
{
    Ok(PredicateValue::Number(number(reader)?))
}

impl Parser for ValueKind {
    type Output = PredicateValue;

    open spec fn spec_parse(&self, input: Input, at: int) -> Parsed<PredicateValueView> {
        match *self {
            ValueKind::Null => null_value_spec(input, at),
            ValueKind::Bool => bool_value_spec(input, at),
            ValueKind::String => string_value_spec(input, at),
            ValueKind::MultilineString => multiline_value_spec(input, at),
            ValueKind::Regex => regex_value_spec(input, at),
            ValueKind::Hex => hex_value_spec(input, at),
            ValueKind::Base64 => base64_value_spec(input, at),
            ValueKind::File => file_value_spec(input, at),
            ValueKind::Expression => expression_value_spec(input, at),
            ValueKind::Number => number_value_spec(input, at),
        }
    }

    fn parse(&self, reader: &mut Reader) -> (r: Result<PredicateValue, Error>) {
        match *self {
            ValueKind::Null => null_value(reader),
            ValueKind::Bool => bool_value(reader),
            ValueKind::String => string_value(reader),
            ValueKind::MultilineString => multiline_value(reader),
            ValueKind::Regex => regex_value(reader),
            ValueKind::Hex => hex_value(reader),
            ValueKind::Base64 => base64_value(reader),
            ValueKind::File => file_value(reader),
            ValueKind::Expression => expression_value(reader),
            ValueKind::Number => number_value(reader),
        }
    }
}

/// The kinds of value in the order in which [`predicate_value`] tries
/// them.
pub open spec fn kinds() -> Seq<ValueKind> {
    seq![
        ValueKind::Null,
        ValueKind::Bool,
        ValueKind::String,
        ValueKind::MultilineString,
        ValueKind::Regex,
        ValueKind::Hex,
        ValueKind::Base64,
        ValueKind::File,
        ValueKind::Expression,
        ValueKind::Number,
    ]
}

/// What [`predicate_value`] does: it tries the kinds of value in their
/// order. The first that can be read, or that fails without a way back,
/// decides.
pub open spec fn predicate_value_spec(input: Input, at: int) -> Parsed<PredicateValueView> {
    choice_spec(kinds(), 0, input, at)
}

/// Reads the value that a test compares with.
pub fn predicate_value(reader: &mut Reader) -> (r: Result<PredicateValue, Error>)
    requires
        old(reader).wf(),
    ensures
        parses(
            *old(reader),
            *final(reader),
            r,
            predicate_value_spec(old(reader).input(), old(reader).state.cursor as int),
        ),
{
    let alternatives = [
        ValueKind::Null,
        ValueKind::Bool,
        ValueKind::String,
        ValueKind::MultilineString,
        ValueKind::Regex,
        ValueKind::Hex,
        ValueKind::Base64,
        ValueKind::File,
        ValueKind::Expression,
        ValueKind::Number,
    ];
    assert(alternatives@ =~= kinds());
    choice(alternatives.as_slice(), reader)
}

} // verus!
