use crate::parser::error::Error;
use crate::parser::outcome::{parses, Parsed};
use crate::parser::reader::{Input, Reader};
use vstd::prelude::*;

verus! {

/// A grammar rule: something that reads a value of one kind from a reader,
/// together with the statement of what it reads.
pub trait Parser {
    /// What the rule produces.
    type Output: DeepView;

    /// What the rule does on `input` from index `at`.
    spec fn spec_parse(&self, input: Input, at: int) -> Parsed<<Self::Output as DeepView>::V>;

    /// Applies the rule at the reader's cursor.
    fn parse(&self, reader: &mut Reader) -> (r: Result<Self::Output, Error>)
        requires
            old(reader).wf(),
        ensures
            parses(
                *old(reader),
                *final(reader),
                r,
                self.spec_parse(old(reader).input(), old(reader).state.cursor as int),
            ),
    ;
}

/// What [`optional`] makes of the outcome `inner` of its rule at `at`: a
/// failure that leaves alternatives open becomes the absence of a value,
/// with nothing read.
pub open spec fn optional_spec<T>(inner: Parsed<T>, at: int) -> Parsed<Option<T>> {
    match inner.result {
        Ok(value) => Parsed::done(Some(value), inner.end),
        Err(error) => if error.recoverable {
            Parsed::done(None, at)
        } else {
            Parsed::refused(error, inner.end)
        },
    }
}

/// Applies `p` if it can be applied.
pub fn optional<P: Parser>(p: &P, reader: &mut Reader) -> (r: Result<Option<P::Output>, Error>)
    requires
        old(reader).wf(),
    ensures
        parses(
            *old(reader),
            *final(reader),
            r,
            optional_spec(
                p.spec_parse(old(reader).input(), old(reader).state.cursor as int),
                old(reader).state.cursor as int,
            ),
        ),
{
    let start = reader.state;
    match p.parse(reader) {
        Ok(value) => Ok(Some(value)),
        Err(error) => {
            if error.recoverable {
                reader.state = start;
                Ok(None)
            } else {
                Err(error)
            }
        },
    }
}

/// What [`zero_or_more`] does from index `at` on, `found` being the values
/// that came before: it applies the rule until the input ends, the rule
/// fails, or the rule succeeds without reading anything.
pub open spec fn repeat_spec<P: Parser>(
    p: P,
    input: Input,
    at: int,
    found: Seq<<P::Output as DeepView>::V>,
) -> Parsed<Seq<<P::Output as DeepView>::V>>
    decreases input.text.len() - at,
{
    if at >= input.text.len() {
        Parsed::done(found, at)
    } else {
        let step = p.spec_parse(input, at);
        match step.result {
            Ok(value) => if at < step.end <= input.text.len() {
                repeat_spec(p, input, step.end, found.push(value))
            } else {
                Parsed::done(found.push(value), step.end)
            },
            Err(error) => if error.recoverable {
                Parsed::done(found, at)
            } else {
                Parsed::refused(error, step.end)
            },
        }
    }
}

/// Goes on with a run of which `found` holds the values so far.
fn repeat<P: Parser>(p: &P, reader: &mut Reader, first: Vec<P::Output>) -> (r: Result<
    Vec<P::Output>,
    Error,
>)
    requires
        old(reader).wf(),
    ensures
        parses(
            *old(reader),
            *final(reader),
            r,
            repeat_spec(
                *p,
                old(reader).input(),
                old(reader).state.cursor as int,
                first.deep_view(),
            ),
        ),
{
    let ghost given = first.deep_view();
    let mut found = first;
    loop
        invariant
            given == first.deep_view(),
            old(reader).state.cursor <= reader.state.cursor,
            reader.wf(),
            reader.input() == old(reader).input(),
            repeat_spec(
                *p,
                old(reader).input(),
                old(reader).state.cursor as int,
                given,
            ) == repeat_spec(*p, reader.input(), reader.state.cursor as int, found.deep_view()),
        decreases reader.buffer@.len() - reader.state.cursor,
    {
        let start = reader.state;
        if reader.is_eof() {
            return Ok(found);
        }
        match p.parse(reader) {
            Ok(value) => {
                let ghost before = found.deep_view();
                found.push(value);
                assert(found.deep_view() =~= before.push(value.deep_view()));
                if reader.state.cursor <= start.cursor {
                    return Ok(found);
                }
            },
            Err(error) => {
                if error.recoverable {
                    reader.state = start;
                    return Ok(found);
                } else {
                    return Err(error);
                }
            },
        }
    }
}

/// Applies `p` as often as it succeeds. The failure that ends the run reads
/// nothing, unless it is one without a way back, which is handed on.
pub fn zero_or_more<P: Parser>(p: &P, reader: &mut Reader) -> (r: Result<Vec<P::Output>, Error>)
    requires
        old(reader).wf(),
    ensures
        parses(
            *old(reader),
            *final(reader),
            r,
            repeat_spec(
                *p,
                old(reader).input(),
                old(reader).state.cursor as int,
                Seq::empty(),
            ),
        ),
{
    let found: Vec<P::Output> = Vec::new();
    assert(found.deep_view() =~= Seq::empty());
    repeat(p, reader, found)
}

/// What [`one_or_more`] does: the rule must succeed once, and a failure
/// there is one without a way back; after that it goes on as
/// [`zero_or_more`] does.
pub open spec fn one_or_more_spec<P: Parser>(p: P, input: Input, at: int) -> Parsed<
    Seq<<P::Output as DeepView>::V>,
> {
    let first = p.spec_parse(input, at);
    match first.result {
        Ok(value) => if at < first.end <= input.text.len() {
            repeat_spec(p, input, first.end, seq![value])
        } else {
            Parsed::done(seq![value], first.end)
        },
        Err(error) => Parsed::failed(error.pos, false, error.inner, first.end),
    }
}

/// Applies `p` once, and then as often as it succeeds.
pub fn one_or_more<P: Parser>(p: &P, reader: &mut Reader) -> (r: Result<Vec<P::Output>, Error>)
    requires
        old(reader).wf(),
    ensures
        parses(
            *old(reader),
            *final(reader),
            r,
            one_or_more_spec(*p, old(reader).input(), old(reader).state.cursor as int),
        ),
{
    let start = reader.state;
    match p.parse(reader) {
        Ok(first) => {
            let mut found: Vec<P::Output> = Vec::new();
            found.push(first);
            assert(found.deep_view() =~= seq![first.deep_view()]);
            if reader.state.cursor <= start.cursor {
                Ok(found)
            } else {
                repeat(p, reader, found)
            }
        },
        Err(error) => Err(Error::new(error.pos, false, error.inner)),
    }
}

/// What [`choice`] does with the alternatives from index `i` on: the first
/// one that succeeds, or that fails without a way back, decides. Where all
/// fail and leave the way open, the failure is that of the last one, and
/// nothing is read.
pub open spec fn choice_spec<P: Parser>(alts: Seq<P>, i: int, input: Input, at: int) -> Parsed<
    <P::Output as DeepView>::V,
>
    decreases alts.len() - i,
{
    if 0 <= i < alts.len() {
        let step = alts[i].spec_parse(input, at);
        match step.result {
            Ok(_) => step,
            Err(error) => if !error.recoverable {
                step
            } else if i + 1 < alts.len() {
                choice_spec(alts, i + 1, input, at)
            } else {
                Parsed::refused(error, at)
            },
        }
    } else {
        arbitrary()
    }
}

/// Tries the alternatives in order, each from the same point of the input.
pub fn choice<P: Parser>(alts: &[P], reader: &mut Reader) -> (r: Result<P::Output, Error>)
    requires
        old(reader).wf(),
        alts@.len() > 0,
    ensures
        parses(
            *old(reader),
            *final(reader),
            r,
            choice_spec(alts@, 0, old(reader).input(), old(reader).state.cursor as int),
        ),
{
    let start = reader.state;
    let mut i: usize = 0;
    loop
        invariant
            reader.wf(),
            reader.input() == old(reader).input(),
            reader.state == start,
            start == old(reader).state,
            i < alts@.len(),
            choice_spec(alts@, 0, old(reader).input(), old(reader).state.cursor as int)
                == choice_spec(alts@, i as int, reader.input(), start.cursor as int),
        decreases alts@.len() - i,
    {
        match alts[i].parse(reader) {
            Ok(value) => {
                return Ok(value);
            },
            Err(error) => {
                if !error.recoverable {
                    return Err(error);
                }
                reader.state = start;
                if i + 1 == alts.len() {
                    return Err(error);
                }
                i = i + 1;
            },
        }
    }
}

/// An alternative that is given up leaves nothing read: where [`choice`]
/// fails and leaves the way open, and where [`optional`] finds nothing,
/// the cursor is where it was.
pub proof fn law_given_up_reads_nothing<P: Parser>(alts: Seq<P>, p: P, input: Input, at: int)
    requires
        alts.len() > 0,
    ensures
        choice_spec(alts, 0, input, at).result matches Err(error) && error.recoverable
            ==> choice_spec(alts, 0, input, at).end == at,
        optional_spec(p.spec_parse(input, at), at).result matches Ok(None) ==> optional_spec(
            p.spec_parse(input, at),
            at,
        ).end == at,
        optional_spec(p.spec_parse(input, at), at).result matches Err(error)
            ==> !error.recoverable,
{
    lemma_choice_given_up(alts, 0, input, at);
}

/// Where the alternatives from index `i` on all fail and leave the way
/// open, nothing is read.
proof fn lemma_choice_given_up<P: Parser>(alts: Seq<P>, i: int, input: Input, at: int)
    requires
        0 <= i < alts.len(),
    ensures
        choice_spec(alts, i, input, at).result matches Err(error) && error.recoverable
            ==> choice_spec(alts, i, input, at).end == at,
    decreases alts.len() - i,
{
    if i + 1 < alts.len() {
        lemma_choice_given_up(alts, i + 1, input, at);
    }
}

} // verus!
