use crate::ast::{Expr, ExprView, SourceInfo, Variable, VariableView};
use crate::parser::error::{Error, ParseError, ParseErrorView};
use crate::parser::outcome::{parses, Parsed};
use crate::parser::primitives::{literal, literal_spec, try_literal, try_literal_spec, Blank};
use crate::parser::reader::{lemma_run_end_unique, Input, Reader};
use vstd::prelude::*;

verus! {

/// Whether `c` may stand in the name of a variable: a letter or a digit of
/// ASCII, an underscore or a hyphen.
pub open spec fn is_name_char(c: char) -> bool {
    ||| 'a' <= c <= 'z'
    ||| 'A' <= c <= 'Z'
    ||| '0' <= c <= '9'
    ||| c == '_'
    ||| c == '-'
}

/// The class of the characters of a name.
pub open spec fn name_chars() -> spec_fn(char) -> bool {
    |c: char| is_name_char(c)
}

/// Whether `c` may stand in the name of a variable.
pub fn is_variable_char(c: char) -> (yes: bool)
    ensures
        yes == is_name_char(c),
{
    ('a' <= c && c <= 'z') || ('A' <= c && c <= 'Z') || ('0' <= c && c <= '9') || c == '_' || c
        == '-'
}

/// What [`variable_name`] does: it reads the longest run of name
/// characters. An empty one is a failure without a way back.
pub open spec fn variable_name_spec(input: Input, at: int) -> Parsed<VariableView> {
    let end = input.run_end(at, name_chars());
    if end == at {
        Parsed::failed(input.pos_at(at), false, ParseErrorView::TemplateVariable, at)
    } else {
        Parsed::done(
            VariableView { name: input.slice(at, end), source_info: input.span(at, end) },
            end,
        )
    }
}

/// Reads the name of a variable.
pub fn variable_name(reader: &mut Reader) -> (r: Result<Variable, Error>)
    requires
        old(reader).wf(),
    ensures
        parses(
            *old(reader),
            *final(reader),
            r,
            variable_name_spec(old(reader).input(), old(reader).state.cursor as int),
        ),
{
    let start = reader.state;
    let name_char = |c: &char| -> (b: bool)
        ensures
            b == is_name_char(*c),
        { is_variable_char(*c) };
    let name = reader.read_while(name_char);
    proof {
        lemma_run_end_unique(
            reader.input(),
            start.cursor as int,
            reader.state.cursor as int,
            name_chars(),
        );
    }
    if reader.state.cursor == start.cursor {
        return Err(Error::new(start.pos, false, ParseError::TemplateVariable));
    }
    Ok(Variable { name, source_info: SourceInfo::new(start.pos, reader.state.pos) })
}

/// What [`parse_inner`] does: blanks, a name, blanks. The failure is that
/// of the name.
pub open spec fn inner_spec(input: Input, at: int) -> Parsed<ExprView> {
    let space0 = Blank::Space.run_spec(input, at);
    let variable = variable_name_spec(input, space0.end);
    match variable.result {
        Err(error) => Parsed::refused(error, variable.end),
        Ok(name) => {
            let space1 = Blank::Space.run_spec(input, variable.end);
            Parsed::done(
                ExprView { space0: space0.result->Ok_0, variable: name, space1: space1.result->Ok_0 },
                space1.end,
            )
        },
    }
}

/// Reads what stands between the braces of an expression.
pub fn parse_inner(reader: &mut Reader) -> (r: Result<Expr, Error>)
    requires
        old(reader).wf(),
    ensures
        parses(
            *old(reader),
            *final(reader),
            r,
            inner_spec(old(reader).input(), old(reader).state.cursor as int),
        ),
{
    let space0 = Blank::Space.run(reader)?;
    let variable = variable_name(reader)?;
    let space1 = Blank::Space.run(reader)?;
    Ok(Expr { space0, variable, space1 })
}

/// The text that opens an expression.
pub open spec fn opening() -> Seq<char> {
    seq!['{', '{']
}

/// The text that closes an expression.
pub open spec fn closing() -> Seq<char> {
    seq!['}', '}']
}

/// What [`parse`] does: it reads `{{`, failing with the way left open where
/// the input does not hold it, then what [`parse_inner`] reads, then `}}`.
pub open spec fn parse_spec(input: Input, at: int) -> Parsed<ExprView> {
    let open = try_literal_spec(input, at, opening());
    match open.result {
        Err(error) => Parsed::refused(error, open.end),
        Ok(_) => {
            let inner = inner_spec(input, open.end);
            match inner.result {
                Err(error) => Parsed::refused(error, inner.end),
                Ok(expr) => {
                    let close = literal_spec(input, inner.end, closing());
                    match close.result {
                        Err(error) => Parsed::refused(error, close.end),
                        Ok(_) => Parsed::done(expr, close.end),
                    }
                },
            }
        },
    }
}

/// Reads an expression with its braces.
pub fn parse(reader: &mut Reader) -> (r: Result<Expr, Error>)
    requires
        old(reader).wf(),
    ensures
        parses(
            *old(reader),
            *final(reader),
            r,
            parse_spec(old(reader).input(), old(reader).state.cursor as int),
        ),
        r is Ok ==> old(reader).state.cursor < final(reader).state.cursor,
{
    proof {
        reveal_strlit("{{");
        reveal_strlit("}}");
        assert("{{"@ =~= opening());
        assert("}}"@ =~= closing());
    }
    try_literal("{{", reader)?;
    let expr = parse_inner(reader)?;
    literal("}}", reader)?;
    Ok(expr)
}

/// What stands between the braces of an expression is kept as it stands:
/// the blanks and the name that were read are the input from where reading
/// started to where it stopped.
pub proof fn law_inner_round_trip(input: Input, at: int)
    requires
        0 <= at <= input.text.len(),
        inner_spec(input, at).result is Ok,
    ensures
        inner_spec(input, at).result->Ok_0.source() == input.slice(at, inner_spec(input, at).end),
        at <= inner_spec(input, at).end <= input.text.len(),
{
    let space = |c: char| Blank::Space.holds(c);
    let e0 = input.run_end(at, space);
    crate::parser::reader::lemma_run_end_bounds(input, at, space);
    let e1 = input.run_end(e0, name_chars());
    crate::parser::reader::lemma_run_end_bounds(input, e0, name_chars());
    let e2 = input.run_end(e1, space);
    crate::parser::reader::lemma_run_end_bounds(input, e1, space);
    assert(input.slice(at, e0) + input.slice(e0, e1) + input.slice(e1, e2) =~= input.slice(
        at,
        e2,
    ));
}

/// An expression is kept as it stands: its braces, with what was read
/// between them, are the input from where reading started to where it
/// stopped.
pub proof fn law_expr_round_trip(input: Input, at: int)
    requires
        0 <= at <= input.text.len(),
        parse_spec(input, at).result is Ok,
    ensures
        opening() + parse_spec(input, at).result->Ok_0.source() + closing() == input.slice(
            at,
            parse_spec(input, at).end,
        ),
        at < parse_spec(input, at).end <= input.text.len(),
{
    let inner = inner_spec(input, at + 2);
    law_inner_round_trip(input, at + 2);
    let end = parse_spec(input, at).end;
    assert(opening().len() == 2);
    assert(closing().len() == 2);
    assert(input.slice(at, at + 2) =~= opening());
    assert(input.slice(inner.end, end) =~= closing());
    assert(input.slice(at, at + 2) + input.slice(at + 2, inner.end) + input.slice(inner.end, end)
        =~= input.slice(at, end));
}

} // verus!
