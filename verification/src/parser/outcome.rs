use crate::ast::{Pos, SourceInfo};
use crate::parser::error::{Error, ErrorView, ParseErrorView};
use crate::parser::reader::Reader;
use vstd::prelude::*;

verus! {

/// What a parser does on a given input from a given index: the value or the
/// failure that it yields, and the index at which it leaves the cursor.
pub struct Parsed<T> {
    pub result: Result<T, ErrorView>,
    pub end: int,
}

impl<T> Parsed<T> {
    /// Success with `value`, the cursor left at `end`.
    pub open spec fn done(value: T, end: int) -> Parsed<T> {
        Parsed { result: Ok(value), end }
    }

    /// Failure of kind `inner`, reported at `pos`, the cursor left at `end`.
    pub open spec fn failed(pos: Pos, recoverable: bool, inner: ParseErrorView, end: int) -> Parsed<
        T,
    > {
        Parsed { result: Err(ErrorView { pos, recoverable, inner }), end }
    }

    /// The failure `error`, the cursor left at `end`.
    pub open spec fn refused(error: ErrorView, end: int) -> Parsed<T> {
        Parsed { result: Err(error), end }
    }
}

/// The result `r` as mathematical values.
pub open spec fn viewed<T: DeepView>(r: Result<T, Error>) -> Result<T::V, ErrorView> {
    match r {
        Ok(value) => Ok(value.deep_view()),
        Err(error) => Err(error.deep_view()),
    }
}

/// The result `r` is the `expected` one.
pub open spec fn yields<T: DeepView>(r: Result<T, Error>, expected: Result<T::V, ErrorView>) -> bool {
    match r {
        Ok(value) => expected == Ok::<T::V, ErrorView>(value.deep_view()),
        Err(error) => expected == Err::<T::V, ErrorView>(error.deep_view()),
    }
}

/// A call that took the reader from `before` to `after` and returned `r`
/// did what `expected` says: same input, the reader still well formed, the
/// cursor where it should be and not before the point where it was, and the
/// result the expected one.
pub open spec fn parses<T: DeepView>(
    before: Reader,
    after: Reader,
    r: Result<T, Error>,
    expected: Parsed<T::V>,
) -> bool {
    &&& after.wf()
    &&& after.input() == before.input()
    &&& before.state.cursor <= after.state.cursor
    &&& after.state.cursor as int == expected.end
    &&& yields(r, expected.result)
}

/// The outcome `inner` with its value, where it has one, changed by `f`.
pub open spec fn mapped<A, B>(inner: Parsed<A>, f: spec_fn(A) -> B) -> Parsed<B> {
    match inner.result {
        Ok(value) => Parsed::done(f(value), inner.end),
        Err(error) => Parsed::refused(error, inner.end),
    }
}

/// The outcome `first`, unless it is a failure that leaves the way open:
/// then `second` decides.
pub open spec fn or_else<T>(first: Parsed<T>, second: Parsed<T>) -> Parsed<T> {
    match first.result {
        Ok(_) => first,
        Err(error) => if error.recoverable {
            second
        } else {
            first
        },
    }
}

/// The outcome `last`, with nothing read where it is a failure that leaves
/// the way open.
pub open spec fn restored<T>(last: Parsed<T>, at: int) -> Parsed<T> {
    match last.result {
        Ok(_) => last,
        Err(error) => if error.recoverable {
            Parsed::refused(error, at)
        } else {
            last
        },
    }
}

/// The outcome `inner`, with its failure, if it is one, made one that
/// leaves the way open.
pub open spec fn recovered<T>(inner: Parsed<T>) -> Parsed<T> {
    match inner.result {
        Ok(_) => inner,
        Err(error) => Parsed::failed(error.pos, true, error.inner, inner.end),
    }
}

/// Whatever a parser returns, it leaves the reader at the position that is
/// reached from the one where it started by reading exactly the text
/// between the two cursors: positions never run ahead of the text that was
/// read, nor fall behind it.
pub proof fn law_position_follows_text<T: DeepView>(
    before: Reader,
    after: Reader,
    r: Result<T, Error>,
    expected: Parsed<T::V>,
)
    requires
        before.wf(),
        parses(before, after, r, expected),
    ensures
        before.state.cursor <= after.state.cursor <= before.input().text.len(),
        crate::parser::reader::pos_after(
            before.state.pos,
            before.input().slice(before.state.cursor as int, after.state.cursor as int),
        ) == after.state.pos,
        before.input().span(before.state.cursor as int, after.state.cursor as int) == (SourceInfo {
            start: before.state.pos,
            end: after.state.pos,
        }),
{
    crate::parser::reader::law_span_reachable(
        before.input(),
        before.state.cursor as int,
        after.state.cursor as int,
    );
}

/// Two calls on the same input from the same point, of a parser whose
/// outcome is a function of the input, end in the same state and return
/// the same value or the same failure.
pub proof fn law_equal_parses<T: DeepView>(
    before1: Reader,
    after1: Reader,
    r1: Result<T, Error>,
    before2: Reader,
    after2: Reader,
    r2: Result<T, Error>,
    expected: Parsed<T::V>,
)
    requires
        before1.input() == before2.input(),
        parses(before1, after1, r1, expected),
        parses(before2, after2, r2, expected),
    ensures
        after1.state == after2.state,
        match (r1, r2) {
            (Ok(a), Ok(b)) => a.deep_view() == b.deep_view(),
            (Err(a), Err(b)) => a.deep_view() == b.deep_view(),
            _ => false,
        },
{
}

} // verus!
