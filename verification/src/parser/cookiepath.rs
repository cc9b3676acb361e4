use crate::ast::{
    CookieAttribute, CookieAttributeName, CookieAttributeNameView, CookieAttributeView,
    CookiePath, CookiePathView,
};
use crate::parser::combinators::{optional, optional_spec, Parser};
use crate::parser::error::{Error, ParseError, ParseErrorView};
use crate::parser::outcome::{parses, Parsed};
use crate::parser::primitives::{
    eof, eof_spec, eq_ignore_case, literal, literal_spec, same_name, try_literal,
    try_literal_spec, zero_or_more_spaces, zero_or_more_spaces_spec,
};
use crate::parser::reader::{lemma_run_end_unique, Input, Reader};
use crate::parser::string::{unquoted_template, unquoted_template_spec};
use vstd::prelude::*;

verus! {

/// Whether `c` may stand in the name of an attribute: a letter of ASCII or
/// a hyphen.
pub open spec fn is_attribute_char(c: char) -> bool {
    'a' <= c <= 'z' || 'A' <= c <= 'Z' || c == '-'
}

/// The class of the characters of the name of an attribute.
pub open spec fn attribute_chars() -> spec_fn(char) -> bool {
    |c: char| is_attribute_char(c)
}

/// The attribute that `name` names, whatever the case of its letters.
pub open spec fn attribute_named(name: Seq<char>) -> Option<CookieAttributeNameView> {
    if same_name(name, "value"@) {
        Some(CookieAttributeNameView::Value(name))
    } else if same_name(name, "expires"@) {
        Some(CookieAttributeNameView::Expires(name))
    } else if same_name(name, "max-age"@) {
        Some(CookieAttributeNameView::MaxAge(name))
    } else if same_name(name, "domain"@) {
        Some(CookieAttributeNameView::Domain(name))
    } else if same_name(name, "path"@) {
        Some(CookieAttributeNameView::Path(name))
    } else if same_name(name, "secure"@) {
        Some(CookieAttributeNameView::Secure(name))
    } else if same_name(name, "httponly"@) {
        Some(CookieAttributeNameView::HttpOnly(name))
    } else if same_name(name, "samesite"@) {
        Some(CookieAttributeNameView::SameSite(name))
    } else {
        None
    }
}

/// What [`cookiepath_attribute_name`] does: it reads a run of letters and
/// hyphens, which must name an attribute of a cookie; anything else is a
/// failure without a way back, reported where the name starts.
pub open spec fn attribute_name_spec(input: Input, at: int) -> Parsed<CookieAttributeNameView> {
    let end = input.run_end(at, attribute_chars());
    match attribute_named(input.slice(at, end)) {
        Some(name) => Parsed::done(name, end),
        None => Parsed::failed(
            input.pos_at(at),
            false,
            ParseErrorView::InvalidCookieAttribute,
            end,
        ),
    }
}

/// Reads the name of an attribute of a cookie.
pub fn cookiepath_attribute_name(reader: &mut Reader) -> (r: Result<CookieAttributeName, Error>)
    requires
        old(reader).wf(),
    ensures
        parses(
            *old(reader),
            *final(reader),
            r,
            attribute_name_spec(old(reader).input(), old(reader).state.cursor as int),
        ),
{
    let start = reader.state;
    let allowed = |c: &char| -> (b: bool)
        ensures
            b == is_attribute_char(*c),
        { ('a' <= *c && *c <= 'z') || ('A' <= *c && *c <= 'Z') || *c == '-' };
    let s = reader.read_while(allowed);
    proof {
        lemma_run_end_unique(
            reader.input(),
            start.cursor as int,
            reader.state.cursor as int,
            attribute_chars(),
        );
    }
    if eq_ignore_case(s.as_str(), "value") {
        Ok(CookieAttributeName::Value(s))
    } else if eq_ignore_case(s.as_str(), "expires") {
        Ok(CookieAttributeName::Expires(s))
    } else if eq_ignore_case(s.as_str(), "max-age") {
        Ok(CookieAttributeName::MaxAge(s))
    } else if eq_ignore_case(s.as_str(), "domain") {
        Ok(CookieAttributeName::Domain(s))
    } else if eq_ignore_case(s.as_str(), "path") {
        Ok(CookieAttributeName::Path(s))
    } else if eq_ignore_case(s.as_str(), "secure") {
        Ok(CookieAttributeName::Secure(s))
    } else if eq_ignore_case(s.as_str(), "httponly") {
        Ok(CookieAttributeName::HttpOnly(s))
    } else if eq_ignore_case(s.as_str(), "samesite") {
        Ok(CookieAttributeName::SameSite(s))
    } else {
        Err(Error::new(start.pos, false, ParseError::InvalidCookieAttribute))
    }
}

/// What [`cookiepath_attribute`] does: it reads a `[`, failing with the
/// way left open and nothing read where there is none; then blanks, the
/// name of an attribute, blanks, and a `]`.
pub open spec fn attribute_spec(input: Input, at: int) -> Parsed<CookieAttributeView> {
    let space0 = zero_or_more_spaces_spec(input, at + 1);
    let name = attribute_name_spec(input, space0.end);
    let space1 = zero_or_more_spaces_spec(input, name.end);
    let close = literal_spec(input, space1.end, "]"@);
    match (try_literal_spec(input, at, "["@).result, name.result, close.result) {
        (Err(error), _, _) => Parsed::refused(error, at),
        (Ok(_), Err(error), _) => Parsed::refused(error, name.end),
        (Ok(_), Ok(_), Err(error)) => Parsed::refused(error, close.end),
        (Ok(_), Ok(name), Ok(_)) => Parsed::done(
            CookieAttributeView { space0: space0.result->Ok_0, name, space1: space1.result->Ok_0 },
            close.end,
        ),
    }
}

/// Reads the attribute of a cookie, between square brackets.
pub fn cookiepath_attribute(reader: &mut Reader) -> (r: Result<CookieAttribute, Error>)
    requires
        old(reader).wf(),
    ensures
        parses(
            *old(reader),
            *final(reader),
            r,
            attribute_spec(old(reader).input(), old(reader).state.cursor as int),
        ),
{
    proof {
        reveal_strlit("[");
    }
    try_literal("[", reader)?;
    let space0 = zero_or_more_spaces(reader)?;
    let name = cookiepath_attribute_name(reader)?;
    let space1 = zero_or_more_spaces(reader)?;
    literal("]", reader)?;
    Ok(CookieAttribute { space0, name, space1 })
}

/// The rule for the attribute of a cookie.
pub struct AttributeRule;

impl Parser for AttributeRule {
    type Output = CookieAttribute;

    open spec fn spec_parse(&self, input: Input, at: int) -> Parsed<CookieAttributeView> {
        attribute_spec(input, at)
    }

    fn parse(&self, reader: &mut Reader) -> (r: Result<CookieAttribute, Error>) {
        cookiepath_attribute(reader)
    }
}

/// The class of the characters of the name of a cookie: all but `[`.
pub open spec fn name_chars() -> spec_fn(char) -> bool {
    |c: char| c != '['
}

/// What [`cookiepath`] does, on a text that holds nothing else: the name
/// of the cookie, which is a template and runs up to the first `[`, and
/// after it the attribute, if there is one. Anything after that is a
/// failure without a way back. The failures of the name are reported at
/// the index in the text at which the name ends.
pub open spec fn cookiepath_spec(input: Input, at: int) -> Parsed<CookiePathView> {
    let name_end = input.run_end(at, name_chars());
    let name = unquoted_template_spec(
        Input { text: input.slice(at, name_end), origin: input.pos_at(at) },
        0,
    );
    let attribute = optional_spec(attribute_spec(input, name_end), name_end);
    let end = eof_spec(input, attribute.end);
    match (name.result, attribute.result, end.result) {
        (Err(error), _, _) => Parsed::refused(error, name_end),
        (Ok(_), Err(error), _) => Parsed::refused(error, attribute.end),
        (Ok(_), Ok(_), Err(error)) => Parsed::refused(error, end.end),
        (Ok(name), Ok(attribute), Ok(_)) => Parsed::done(
            CookiePathView { name, attribute },
            end.end,
        ),
    }
}

/// Reads the path of a cookie: its name, and the attribute that is asked
/// for, if any.
pub fn cookiepath(reader: &mut Reader) -> (r: Result<CookiePath, Error>)
    requires
        old(reader).wf(),
    ensures
        parses(
            *old(reader),
            *final(reader),
            r,
            cookiepath_spec(old(reader).input(), old(reader).state.cursor as int),
        ),
{
    let start = reader.state;
    let not_bracket = |c: &char| -> (b: bool)
        ensures
            b == (*c != '['),
        { *c != '[' };
    let s = reader.read_while(not_bracket);
    proof {
        lemma_run_end_unique(
            reader.input(),
            start.cursor as int,
            reader.state.cursor as int,
            name_chars(),
        );
    }
    let mut template_reader = Reader::new_at(s.as_str(), start.pos);
    let name = unquoted_template(&mut template_reader)?;
    let attribute = optional(&AttributeRule, reader)?;
    eof(reader)?;
    Ok(CookiePath { name, attribute })
}

} // verus!
