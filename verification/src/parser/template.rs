use crate::ast::{ExprView, Pos, SourceInfo, TemplateElement, TemplateElementView};
use crate::parser::error::{Error, ErrorView, ParseError, ParseErrorView};
use crate::parser::expr::{inner_spec, parse_inner};
use crate::parser::outcome::yields;
use crate::parser::reader::{is_one, Input, Reader};
use vstd::prelude::*;
use vstd::string::StringExecFns;

verus! {

/// The characters of a piece of text as they were read: for each one what
/// it means, how it was written, and where it stood.
pub struct EncodedString {
    pub source_info: SourceInfo,
    pub chars: Vec<(char, String, Pos)>,
}

/// One character as it was read, as mathematical values.
pub type EncodedChar = (char, Seq<char>, Pos);

/// What an [`EncodedString`] holds, as mathematical values.
pub struct EncodedStringView {
    pub source_info: SourceInfo,
    pub chars: Seq<EncodedChar>,
}

impl DeepView for EncodedString {
    type V = EncodedStringView;

    open spec fn deep_view(&self) -> EncodedStringView {
        EncodedStringView { source_info: self.source_info, chars: self.chars.deep_view() }
    }
}

/// What the characters from index `from` up to index `to` mean.
pub open spec fn values(chars: Seq<EncodedChar>, from: int, to: int) -> Seq<char>
    decreases to - from,
{
    if to <= from {
        Seq::empty()
    } else {
        values(chars, from, to - 1).push(chars[to - 1].0)
    }
}

/// How the characters from index `from` up to index `to` were written.
pub open spec fn encodings(chars: Seq<EncodedChar>, from: int, to: int) -> Seq<char>
    decreases to - from,
{
    if to <= from {
        Seq::empty()
    } else {
        encodings(chars, from, to - 1) + chars[to - 1].1
    }
}

/// Whether the characters with index `i` and `i + 1` were both written as
/// `brace`, plainly.
pub open spec fn pair_at(chars: Seq<EncodedChar>, i: int, brace: char) -> bool {
    &&& 0 <= i
    &&& i + 1 < chars.len()
    &&& chars[i].1 == seq![brace]
    &&& chars[i + 1].1 == seq![brace]
}

/// The index of the first pair of `brace` from index `from` on, or the
/// number of characters where there is none.
pub open spec fn find_pair(chars: Seq<EncodedChar>, from: int, brace: char) -> int
    decreases chars.len() - from,
{
    if from < 0 || from + 1 >= chars.len() {
        chars.len() as int
    } else if pair_at(chars, from, brace) {
        from
    } else {
        find_pair(chars, from + 1, brace)
    }
}

/// The expression written by the characters from index `from` up to index
/// `to`: blanks, a name, blanks, and nothing else.
pub open spec fn expression_spec(chars: Seq<EncodedChar>, from: int, to: int) -> Result<
    ExprView,
    ErrorView,
> {
    let input = Input { text: encodings(chars, from, to), origin: chars[from].2 };
    let inner = inner_spec(input, 0);
    match inner.result {
        Err(error) => Err(error),
        Ok(expr) => if inner.end == input.text.len() {
            Ok(expr)
        } else {
            Err(
                ErrorView {
                    pos: input.pos_at(inner.end),
                    recoverable: false,
                    inner: ParseErrorView::Expecting { value: "}}"@ },
                },
            )
        },
    }
}

/// The elements that the characters from index `from` on make, after those
/// in `found`. Text runs up to the next `{{`; an expression runs from there
/// to the next `}}`, which must come before the characters end at `end`.
pub open spec fn elements_from(
    chars: Seq<EncodedChar>,
    from: int,
    end: Pos,
    found: Seq<TemplateElementView>,
) -> Result<Seq<TemplateElementView>, ErrorView>
    decreases chars.len() - from,
    via elements_from_ends
{
    if from < 0 || from >= chars.len() {
        Ok(found)
    } else {
        let open = find_pair(chars, from, '{');
        let close = find_pair(chars, open + 2, '}');
        let with_text = if open > from {
            found.push(
                TemplateElementView::String {
                    value: values(chars, from, open),
                    encoded: encodings(chars, from, open),
                },
            )
        } else {
            found
        };
        if open >= chars.len() {
            Ok(with_text)
        } else if close >= chars.len() {
            Err(
                ErrorView {
                    pos: end,
                    recoverable: false,
                    inner: ParseErrorView::Expecting { value: "}}"@ },
                },
            )
        } else {
            match expression_spec(chars, open + 2, close) {
                Err(error) => Err(error),
                Ok(expr) => elements_from(
                    chars,
                    close + 2,
                    end,
                    with_text.push(TemplateElementView::Expression(expr)),
                ),
            }
        }
    }
}

#[via_fn]
proof fn elements_from_ends(
    chars: Seq<EncodedChar>,
    from: int,
    end: Pos,
    found: Seq<TemplateElementView>,
) {
    if 0 <= from < chars.len() {
        let open = find_pair(chars, from, '{');
        lemma_find_pair_bounds(chars, from, '{');
        lemma_find_pair_bounds(chars, open + 2, '}');
    }
}

/// What [`templatize`] yields.
pub open spec fn templatize_spec(text: EncodedStringView) -> Result<
    Seq<TemplateElementView>,
    ErrorView,
> {
    elements_from(text.chars, 0, text.source_info.end, Seq::empty())
}

/// A pair of braces is found at or after the index where the search starts,
/// and not beyond the last character.
pub proof fn lemma_find_pair_bounds(chars: Seq<EncodedChar>, from: int, brace: char)
    requires
        0 <= from,
    ensures
        from <= find_pair(chars, from, brace) || find_pair(chars, from, brace) == chars.len(),
        find_pair(chars, from, brace) <= chars.len(),
        find_pair(chars, from, brace) < chars.len() ==> pair_at(
            chars,
            find_pair(chars, from, brace),
            brace,
        ),
    decreases chars.len() - from,
{
    if from + 1 < chars.len() && !pair_at(chars, from, brace) {
        lemma_find_pair_bounds(chars, from + 1, brace);
    }
}

/// Finds the next pair of `brace`.
fn next_pair(chars: &Vec<(char, String, Pos)>, from: usize, brace: char) -> (at: usize)
    ensures
        at == find_pair(chars.deep_view(), from as int, brace),
        from <= at || at == chars@.len(),
        at <= chars@.len(),
        at < chars@.len() ==> at + 1 < chars@.len(),
{
    let mut i: usize = from;
    proof {
        lemma_find_pair_bounds(chars.deep_view(), from as int, brace);
    }
    while i < chars.len() && i + 1 < chars.len()
        invariant
            from <= i,
            find_pair(chars.deep_view(), from as int, brace) == find_pair(
                chars.deep_view(),
                i as int,
                brace,
            ),
        decreases chars@.len() - i,
    {
        if is_one(chars[i].1.as_str(), brace) && is_one(chars[i + 1].1.as_str(), brace) {
            return i;
        }
        i = i + 1;
    }
    chars.len()
}

/// What the characters from `from` up to `to` mean, and how they were
/// written.
fn collect(chars: &Vec<(char, String, Pos)>, from: usize, to: usize) -> (r: (String, String))
    requires
        from <= to <= chars@.len(),
    ensures
        r.0@ == values(chars.deep_view(), from as int, to as int),
        r.1@ == encodings(chars.deep_view(), from as int, to as int),
{
    let mut value = String::new();
    let mut encoded = String::new();
    let mut i: usize = from;
    while i < to
        invariant
            from <= i <= to <= chars@.len(),
            value@ == values(chars.deep_view(), from as int, i as int),
            encoded@ == encodings(chars.deep_view(), from as int, i as int),
        decreases to - i,
    {
        value.push(chars[i].0);
        encoded.append(chars[i].1.as_str());
        i = i + 1;
    }
    (value, encoded)
}

/// Reads the expression that the characters from `from` up to `to` write.
fn expression(chars: &Vec<(char, String, Pos)>, from: usize, to: usize) -> (r: Result<
    crate::ast::Expr,
    Error,
>)
    requires
        from <= to <= chars@.len(),
        from < chars@.len(),
    ensures
        yields(r, expression_spec(chars.deep_view(), from as int, to as int)),
{
    let (_, text) = collect(chars, from, to);
    let mut reader = Reader::new_at(text.as_str(), chars[from].2);
    let expr = parse_inner(&mut reader)?;
    if !reader.is_eof() {
        let inner = ParseError::Expecting { value: "}}".to_owned() };
        return Err(Error::new(reader.state.pos, false, inner));
    }
    Ok(expr)
}

/// Splits a text into the pieces of a template: runs of plain text, and
/// the expressions that stand between `{{` and `}}`.
pub fn templatize(encoded_string: EncodedString) -> (r: Result<Vec<TemplateElement>, Error>)
    ensures
        yields(r, templatize_spec(encoded_string.deep_view())),
{
    let chars = &encoded_string.chars;
    let end = encoded_string.source_info.end;
    let mut elements: Vec<TemplateElement> = Vec::new();
    let mut from: usize = 0;
    assert(elements.deep_view() =~= Seq::empty());
    while from < chars.len()
        invariant
            chars == &encoded_string.chars,
            end == encoded_string.source_info.end,
            elements_from(chars.deep_view(), 0, end, Seq::empty()) == elements_from(
                chars.deep_view(),
                from as int,
                end,
                elements.deep_view(),
            ),
        decreases chars@.len() - from,
    {
        let open = next_pair(chars, from, '{');
        if open > from {
            let (value, encoded) = collect(chars, from, open);
            let ghost before = elements.deep_view();
            let element = TemplateElement::String { value, encoded };
            elements.push(element);
            assert(elements.deep_view() =~= before.push(element.deep_view()));
        }
        if open >= chars.len() {
            return Ok(elements);
        }
        let close = next_pair(chars, open + 2, '}');
        if close >= chars.len() {
            let inner = ParseError::Expecting { value: "}}".to_owned() };
            return Err(Error::new(end, false, inner));
        }
        let expr = expression(chars, open + 2, close)?;
        let ghost before = elements.deep_view();
        let element = TemplateElement::Expression(expr);
        elements.push(element);
        assert(elements.deep_view() =~= before.push(element.deep_view()));
        from = close + 2;
    }
    Ok(elements)
}

/// How a run of characters was written is how its two parts were written,
/// one after the other.
pub proof fn lemma_encodings_split(chars: Seq<EncodedChar>, from: int, mid: int, to: int)
    requires
        from <= mid <= to,
    ensures
        encodings(chars, from, to) == encodings(chars, from, mid) + encodings(chars, mid, to),
    decreases to - mid,
{
    if mid < to {
        lemma_encodings_split(chars, from, mid, to - 1);
        assert(encodings(chars, from, mid) + (encodings(chars, mid, to - 1) + chars[to - 1].1)
            =~= (encodings(chars, from, mid) + encodings(chars, mid, to - 1)) + chars[to - 1].1);
    } else {
        assert(encodings(chars, from, mid) + encodings(chars, mid, to) =~= encodings(
            chars,
            from,
            mid,
        ));
    }
}

/// How all of `chars` were written.
pub open spec fn written(chars: Seq<EncodedChar>) -> Seq<char> {
    encodings(chars, 0, chars.len() as int)
}

/// How the first characters of a sequence were written does not depend on
/// those after them.
pub proof fn lemma_encodings_same(a: Seq<EncodedChar>, b: Seq<EncodedChar>, to: int)
    requires
        0 <= to <= a.len(),
        to <= b.len(),
        forall|i: int| 0 <= i < to ==> a[i] == b[i],
    ensures
        encodings(a, 0, to) == encodings(b, 0, to),
    decreases to,
{
    if to > 0 {
        lemma_encodings_same(a, b, to - 1);
    }
}

/// How a sequence of characters with one more at its end was written.
pub proof fn lemma_written_push(chars: Seq<EncodedChar>, c: EncodedChar)
    ensures
        written(chars.push(c)) == written(chars) + c.1,
{
    lemma_encodings_same(chars.push(c), chars, chars.len() as int);
}

/// How two sequences of characters were written, one after the other.
pub proof fn lemma_written_concat(a: Seq<EncodedChar>, b: Seq<EncodedChar>)
    ensures
        written(a + b) == written(a) + written(b),
    decreases b.len(),
{
    if b.len() == 0 {
        assert(a + b =~= a);
        assert(written(a) + written(b) =~= written(a));
    } else {
        lemma_written_concat(a, b.drop_last());
        lemma_written_push(a + b.drop_last(), b.last());
        lemma_written_push(b.drop_last(), b.last());
        assert((a + b.drop_last()).push(b.last()) =~= a + b);
        assert(b.drop_last().push(b.last()) =~= b);
        assert((written(a) + written(b.drop_last())) + b.last().1 =~= written(a) + (written(
            b.drop_last(),
        ) + b.last().1));
    }
}

/// How two characters were written, one after the other.
pub proof fn lemma_encodings_pair(chars: Seq<EncodedChar>, i: int)
    ensures
        encodings(chars, i, i + 2) == chars[i].1 + chars[i + 1].1,
{
    assert(encodings(chars, i, i) =~= Seq::<char>::empty());
    assert(encodings(chars, i, i + 1) =~= chars[i].1);
    assert(encodings(chars, i, i + 2) =~= chars[i].1 + chars[i + 1].1);
}

/// The text of a sequence of elements with one more at its end.
pub proof fn lemma_source_of_push(found: Seq<TemplateElementView>, last: TemplateElementView)
    ensures
        crate::ast::source_of(found.push(last)) == crate::ast::source_of(found) + last.source(),
{
    assert(found.push(last).drop_last() =~= found);
}

/// An expression that was read is written as the characters that it was
/// read from.
pub proof fn lemma_expression_round_trip(chars: Seq<EncodedChar>, from: int, to: int)
    requires
        expression_spec(chars, from, to) is Ok,
    ensures
        expression_spec(chars, from, to)->Ok_0.source() == encodings(chars, from, to),
{
    let input = Input { text: encodings(chars, from, to), origin: chars[from].2 };
    let space = |c: char| crate::parser::primitives::Blank::Space.holds(c);
    let e0 = input.run_end(0, space);
    crate::parser::reader::lemma_run_end_bounds(input, 0, space);
    let e1 = input.run_end(e0, crate::parser::expr::name_chars());
    crate::parser::reader::lemma_run_end_bounds(input, e0, crate::parser::expr::name_chars());
    let e2 = input.run_end(e1, space);
    crate::parser::reader::lemma_run_end_bounds(input, e1, space);
    assert(input.slice(0, e0) + input.slice(e0, e1) + input.slice(e1, e2) =~= input.text);
}

/// Six texts in a row are the same text however they are grouped.
proof fn lemma_regroup(
    s: Seq<char>,
    a: Seq<char>,
    b: Seq<char>,
    c: Seq<char>,
    d: Seq<char>,
    e: Seq<char>,
)
    ensures
        ((s + a) + ((b + c) + d)) + e == s + (a + (b + (c + (d + e)))),
{
    assert(((s + a) + ((b + c) + d)) + e =~= s + (a + (b + (c + (d + e)))));
}

/// The text of the elements so far, once the text before the next
/// expression has been added to them.
proof fn lemma_with_text(chars: Seq<EncodedChar>, from: int, found: Seq<TemplateElementView>)
    requires
        0 <= from < chars.len(),
    ensures
        ({
            let open = find_pair(chars, from, '{');
            let with_text = if open > from {
                found.push(
                    TemplateElementView::String {
                        value: values(chars, from, open),
                        encoded: encodings(chars, from, open),
                    },
                )
            } else {
                found
            };
            &&& from <= open <= chars.len()
            &&& crate::ast::source_of(with_text) == crate::ast::source_of(found) + encodings(
                chars,
                from,
                open,
            )
        }),
{
    let open = find_pair(chars, from, '{');
    lemma_find_pair_bounds(chars, from, '{');
    let text = TemplateElementView::String {
        value: values(chars, from, open),
        encoded: encodings(chars, from, open),
    };
    if open > from {
        lemma_source_of_push(found, text);
    } else {
        assert(crate::ast::source_of(found) + encodings(chars, from, open)
            =~= crate::ast::source_of(found));
    }
}

/// The elements that were made of the characters from `from` on, after
/// those in `found`, are written as those in `found` and then as the
/// characters.
pub proof fn lemma_elements_round_trip(
    chars: Seq<EncodedChar>,
    from: int,
    end: Pos,
    found: Seq<TemplateElementView>,
)
    requires
        0 <= from,
        elements_from(chars, from, end, found) is Ok,
    ensures
        crate::ast::source_of(elements_from(chars, from, end, found)->Ok_0) == crate::ast::source_of(
            found,
        ) + encodings(chars, from, chars.len() as int),
    decreases chars.len() - from,
{
    let len = chars.len() as int;
    let before = crate::ast::source_of(found);
    if from >= len {
        assert(before + encodings(chars, from, len) =~= before);
    } else {
        let open = find_pair(chars, from, '{');
        let with_text = if open > from {
            found.push(
                TemplateElementView::String {
                    value: values(chars, from, open),
                    encoded: encodings(chars, from, open),
                },
            )
        } else {
            found
        };
        lemma_with_text(chars, from, found);
        let a = encodings(chars, from, open);
        if open < len {
            let close = find_pair(chars, open + 2, '}');
            lemma_find_pair_bounds(chars, from, '{');
            lemma_find_pair_bounds(chars, open + 2, '}');
            let expr = expression_spec(chars, open + 2, close)->Ok_0;
            let element = TemplateElementView::Expression(expr);
            let b = seq!['{', '{'];
            let c = encodings(chars, open + 2, close);
            let d = seq!['}', '}'];
            let e = encodings(chars, close + 2, len);
            assert(element.source() == (b + c) + d) by {
                lemma_expression_round_trip(chars, open + 2, close);
            }
            assert(crate::ast::source_of(with_text.push(element)) == (before + a) + ((b + c)
                + d)) by {
                lemma_source_of_push(with_text, element);
            }
            assert(crate::ast::source_of(elements_from(chars, from, end, found)->Ok_0) == ((before
                + a) + ((b + c) + d)) + e) by {
                lemma_elements_round_trip(chars, close + 2, end, with_text.push(element));
            }
            assert(encodings(chars, from, len) == a + (b + (c + (d + e)))) by {
                lemma_encodings_split(chars, from, open, len);
                lemma_encodings_split(chars, open, open + 2, len);
                lemma_encodings_split(chars, open + 2, close, len);
                lemma_encodings_split(chars, close, close + 2, len);
                lemma_encodings_pair(chars, open);
                lemma_encodings_pair(chars, close);
                assert(chars[open].1 + chars[open + 1].1 =~= b);
                assert(chars[close].1 + chars[close + 1].1 =~= d);
            }
            lemma_regroup(before, a, b, c, d, e);
        }
    }
}

/// The elements of a template are written as the text that they were made
/// of: a piece of text as its characters were written, an expression as
/// what stood between its braces, with the braces.
pub proof fn law_templatize_round_trip(text: EncodedStringView)
    requires
        templatize_spec(text) is Ok,
    ensures
        crate::ast::source_of(templatize_spec(text)->Ok_0) == encodings(
            text.chars,
            0,
            text.chars.len() as int,
        ),
{
    lemma_elements_round_trip(text.chars, 0, text.source_info.end, Seq::empty());
    assert(crate::ast::source_of(Seq::<TemplateElementView>::empty()) + encodings(
        text.chars,
        0,
        text.chars.len() as int,
    ) =~= encodings(text.chars, 0, text.chars.len() as int));
}

} // verus!
