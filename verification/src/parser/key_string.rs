use crate::ast::{SourceInfo, Template, TemplateElement, TemplateElementView, TemplateView};
use crate::parser::error::{Error, ParseError, ParseErrorView};
use crate::parser::expr;
use crate::parser::outcome::{parses, Parsed};
use crate::parser::reader::{Input, Reader};
use crate::parser::string::{any_char, any_char_spec};
use vstd::prelude::*;
use vstd::string::StringExecFns;

verus! {

/// Whether `c` may stand in a key as it is: a letter or a digit of ASCII,
/// or one of `_ - . [ ] @ $`.
pub open spec fn is_key_char(c: char) -> bool {
    ||| 'a' <= c <= 'z'
    ||| 'A' <= c <= 'Z'
    ||| '0' <= c <= '9'
    ||| c == '_'
    ||| c == '-'
    ||| c == '.'
    ||| c == '['
    ||| c == ']'
    ||| c == '@'
    ||| c == '$'
}

/// Whether `c` may stand in a key as it is.
pub fn key_char(c: char) -> (yes: bool)
    ensures
        yes == is_key_char(c),
{
    ('a' <= c && c <= 'z') || ('A' <= c && c <= 'Z') || ('0' <= c && c <= '9') || c == '_' || c
        == '-' || c == '.' || c == '[' || c == ']' || c == '@' || c == '$'
}

/// Whether the next character of a key can be read at `at`: a backslash
/// starts an escape, and any other character must be one that a key may
/// hold.
pub open spec fn key_char_at(input: Input, at: int) -> bool {
    match input.at(at) {
        None => false,
        Some(c) => c == '\\' || is_key_char(c),
    }
}

/// The elements so far, with the text that was being read added to them if
/// there is any.
pub open spec fn flushed(
    elements: Seq<TemplateElementView>,
    value: Seq<char>,
    encoded: Seq<char>,
) -> Seq<TemplateElementView> {
    if encoded.len() > 0 {
        elements.push(TemplateElementView::String { value, encoded })
    } else {
        elements
    }
}

/// Whether a key may be made of `elements`: there must be one at least,
/// and the first must not be a text that starts with `[`, which would make
/// the line the heading of a section.
pub open spec fn is_key(elements: Seq<TemplateElementView>) -> bool {
    &&& elements.len() > 0
    &&& match elements[0] {
        TemplateElementView::String { value, encoded } => encoded.len() == 0 || encoded[0] != '[',
        TemplateElementView::Expression(_) => true,
    }
}

/// Reading a key from index `at` on; the key started at `from`. So far
/// `elements` have been read, and after them the text `value`, written as
/// `encoded`. A key is made of expressions between braces and of text,
/// and ends before the first character that a key cannot hold. Where what
/// was read makes no key, the failure leaves the way open and nothing is
/// read.
pub open spec fn key_scan(
    input: Input,
    from: int,
    at: int,
    elements: Seq<TemplateElementView>,
    value: Seq<char>,
    encoded: Seq<char>,
) -> Parsed<TemplateView>
    decreases input.text.len() - at,
{
    let expression = expr::parse_spec(input, at);
    let next = any_char_spec(input, at, '#');
    let all = flushed(elements, value, encoded);
    if input.starts_with(at, expr::opening()) {
        match expression.result {
            Err(error) => Parsed::refused(error, expression.end),
            Ok(found) => if at < expression.end <= input.text.len() {
                key_scan(
                    input,
                    from,
                    expression.end,
                    all.push(TemplateElementView::Expression(found)),
                    Seq::empty(),
                    Seq::empty(),
                )
            } else {
                Parsed::refused(expression.result->Err_0, expression.end)
            },
        }
    } else if key_char_at(input, at) && next.result is Err {
        Parsed::refused(next.result->Err_0, next.end)
    } else if key_char_at(input, at) && at < next.end <= input.text.len() {
        key_scan(
            input,
            from,
            next.end,
            elements,
            value.push(next.result->Ok_0.0),
            encoded + next.result->Ok_0.1,
        )
    } else if is_key(all) {
        Parsed::done(
            TemplateView { delimiter: None, elements: all, source_info: input.span(from, at) },
            at,
        )
    } else {
        Parsed::failed(
            input.pos_at(from),
            true,
            ParseErrorView::Expecting { value: "key-string"@ },
            from,
        )
    }
}

/// What [`parse`] does: what [`key_scan`] says from the start of a key.
pub open spec fn parse_spec(input: Input, at: int) -> Parsed<TemplateView> {
    key_scan(input, at, at, Seq::empty(), Seq::empty(), Seq::empty())
}

/// Whether the text `s` starts with `[`.
fn starts_with_bracket(s: &str) -> (yes: bool)
    ensures
        yes == (s@.len() > 0 && s@[0] == '['),
{
    s.unicode_len() > 0 && s.get_char(0) == '['
}

/// Reads a key: the name of a header or of a capture.
pub fn parse(reader: &mut Reader) -> (r: Result<Template, Error>)
    requires
        old(reader).wf(),
    ensures
        parses(
            *old(reader),
            *final(reader),
            r,
            parse_spec(old(reader).input(), old(reader).state.cursor as int),
        ),
{
    let start = reader.state;
    let mut elements: Vec<TemplateElement> = Vec::new();
    let mut value = String::new();
    let mut encoded = String::new();
    let ghost input = reader.input();
    let ghost from = start.cursor as int;
    proof {
        reveal_strlit("{{");
        assert("{{"@ =~= expr::opening());
        assert(elements.deep_view() =~= Seq::empty());
    }
    loop
        invariant_except_break
            parse_spec(input, from) == key_scan(
                input,
                from,
                reader.state.cursor as int,
                elements.deep_view(),
                value@,
                encoded@,
            ),
        invariant
            reader.wf(),
            reader.input() == input,
            input == old(reader).input(),
            start == old(reader).state,
            from == start.cursor,
            from <= reader.state.cursor,
            "{{"@ == expr::opening(),
            encoded@.len() == 0 ==> value@.len() == 0,
        ensures
            !input.starts_with(reader.state.cursor as int, expr::opening()),
            !key_char_at(input, reader.state.cursor as int),
            parse_spec(input, from) == key_scan(
                input,
                from,
                reader.state.cursor as int,
                elements.deep_view(),
                value@,
                encoded@,
            ),
        decreases reader.buffer@.len() - reader.state.cursor,
    {
        let next = reader.peek_n(2);
        proof {
            let at = reader.state.cursor as int;
            if at + 2 <= input.text.len() {
                assert(input.ahead(at, 2) == input.text.subrange(at, at + 2));
            } else {
                assert(input.ahead(at, 2).len() < 2);
                assert(expr::opening().len() == 2);
            }
        }
        if next == "{{".to_owned() {
            assert(value@.len() == 0 ==> value@ =~= Seq::<char>::empty());
            if encoded.as_str().unicode_len() > 0 {
                let ghost before = elements.deep_view();
                let element = TemplateElement::String { value, encoded };
                elements.push(element);
                assert(elements.deep_view() =~= before.push(element.deep_view()));
                value = String::new();
                encoded = String::new();
            }
            let found = expr::parse(reader)?;
            let ghost before = elements.deep_view();
            let element = TemplateElement::Expression(found);
            elements.push(element);
            assert(elements.deep_view() =~= before.push(element.deep_view()));
        } else {
            match reader.peek() {
                None => {
                    break ;
                },
                Some(c) => {
                    if c != '\\' && !key_char(c) {
                        break ;
                    }
                    let ghost at = reader.state.cursor as int;
                    let (decoded, written, _) = any_char('#', reader)?;
                    assert(written@.len() > 0) by {
                        if c == '\\' {
                            assert(written@ == input.slice(at, reader.state.cursor as int));
                        }
                    }
                    value.push(decoded);
                    encoded.append(written.as_str());
                },
            }
        }
    }
    if encoded.as_str().unicode_len() > 0 {
        let ghost before = elements.deep_view();
        let element = TemplateElement::String { value, encoded };
        elements.push(element);
        assert(elements.deep_view() =~= before.push(element.deep_view()));
    }
    let refused = if elements.len() == 0 {
        true
    } else {
        match &elements[0] {
            TemplateElement::String { value, encoded } => starts_with_bracket(encoded.as_str()),
            TemplateElement::Expression(_) => false,
        }
    };
    proof {
        if elements@.len() > 0 {
            assert(elements.deep_view()[0] == elements@[0].deep_view());
        }
    }
    if refused {
        reader.state = start;
        return Err(
            Error::new(start.pos, true, ParseError::Expecting { value: "key-string".to_owned() }),
        );
    }
    Ok(
        Template {
            delimiter: None,
            elements,
            source_info: SourceInfo::new(start.pos, reader.state.pos),
        },
    )
}

/// The elements so far with the text that was being read are written as
/// the elements and then the text.
pub proof fn lemma_flushed_source(
    elements: Seq<TemplateElementView>,
    value: Seq<char>,
    encoded: Seq<char>,
)
    ensures
        crate::ast::source_of(flushed(elements, value, encoded)) == crate::ast::source_of(elements)
            + encoded,
{
    if encoded.len() > 0 {
        crate::parser::template::lemma_source_of_push(
            elements,
            TemplateElementView::String { value, encoded },
        );
    } else {
        assert(crate::ast::source_of(elements) + encoded =~= crate::ast::source_of(elements));
    }
}

/// Reading a key keeps the text as it stands: where what was read so far
/// is written as the input from `from` to `at`, the elements of the key
/// are written as the input from `from` to where the key ends, and its
/// span is the span of that text.
pub proof fn lemma_key_scan_round_trip(
    input: Input,
    from: int,
    at: int,
    elements: Seq<TemplateElementView>,
    value: Seq<char>,
    encoded: Seq<char>,
)
    requires
        0 <= from <= at <= input.text.len(),
        crate::ast::source_of(elements) + encoded == input.slice(from, at),
        key_scan(input, from, at, elements, value, encoded).result is Ok,
    ensures
        ({
            let parsed = key_scan(input, from, at, elements, value, encoded);
            let template = parsed.result->Ok_0;
            &&& from <= parsed.end <= input.text.len()
            &&& crate::ast::source_of(template.elements) == input.slice(from, parsed.end)
            &&& template.source_info == input.span(from, parsed.end)
        }),
    decreases input.text.len() - at,
{
    let all = flushed(elements, value, encoded);
    lemma_flushed_source(elements, value, encoded);
    let expression = expr::parse_spec(input, at);
    let next = any_char_spec(input, at, '#');
    if input.starts_with(at, expr::opening()) {
        expr::law_expr_round_trip(input, at);
        let element = TemplateElementView::Expression(expression.result->Ok_0);
        crate::parser::template::lemma_source_of_push(all, element);
        assert(element.source() =~= expr::opening() + expression.result->Ok_0.source()
            + expr::closing());
        assert((input.slice(from, at) + input.slice(at, expression.end)) + Seq::<char>::empty()
            =~= input.slice(from, expression.end));
        lemma_key_scan_round_trip(
            input,
            from,
            expression.end,
            all.push(element),
            Seq::empty(),
            Seq::empty(),
        );
    } else if key_char_at(input, at) && next.result is Ok {
        crate::parser::string::lemma_any_char_written(input, at, '#');
        let c = next.result->Ok_0;
        let before = crate::ast::source_of(elements);
        assert(before + (encoded + c.1) =~= (before + encoded) + c.1);
        assert(input.slice(from, at) + input.slice(at, next.end) =~= input.slice(from, next.end));
        lemma_key_scan_round_trip(input, from, next.end, elements, value.push(c.0), encoded + c.1);
    }
}

/// A key is kept as it stands: its elements are written as the input from
/// where reading started to where it stopped, and its span is the span of
/// that text.
pub proof fn law_key_round_trip(input: Input, at: int)
    requires
        0 <= at <= input.text.len(),
        parse_spec(input, at).result is Ok,
    ensures
        ({
            let parsed = parse_spec(input, at);
            let template = parsed.result->Ok_0;
            &&& at <= parsed.end <= input.text.len()
            &&& crate::ast::source_of(template.elements) == input.slice(at, parsed.end)
            &&& template.source_info == input.span(at, parsed.end)
        }),
{
    assert(crate::ast::source_of(Seq::<TemplateElementView>::empty()) + Seq::<char>::empty()
        =~= input.slice(at, at));
    lemma_key_scan_round_trip(input, at, at, Seq::empty(), Seq::empty(), Seq::empty());
}

} // verus!
