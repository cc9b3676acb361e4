use crate::ast::{Pos, SourceInfo};
use vstd::prelude::*;

verus! {

/// `String::push` of the standard library. The contract states what its
/// documentation says: afterwards the string holds the characters that it
/// held before, and `c` after them.
pub assume_specification[ std::string::String::push ](s: &mut std::string::String, c: char)
    ensures
        final(s)@ == old(s)@.push(c),
;

/// The next value of a line or column counter. A counter that has reached
/// the largest value of its type stays there.
pub open spec fn bump(n: usize) -> usize {
    if n < usize::MAX {
        (n + 1) as usize
    } else {
        n
    }
}

/// The position that follows `pos` once `c` has been read. A line feed
/// starts a new line; every other character, a carriage return too, moves
/// one column to the right.
pub open spec fn advance(pos: Pos, c: char) -> Pos {
    if c == '\n' {
        Pos { line: bump(pos.line), column: 1 }
    } else {
        Pos { line: pos.line, column: bump(pos.column) }
    }
}

/// The position reached from `origin` once all of `text` has been read.
pub open spec fn pos_after(origin: Pos, text: Seq<char>) -> Pos
    decreases text.len(),
{
    if text.len() == 0 {
        origin
    } else {
        advance(pos_after(origin, text.drop_last()), text.last())
    }
}

/// The text that a reader works on, and the position of its first character.
pub struct Input {
    pub text: Seq<char>,
    pub origin: Pos,
}

impl Input {
    /// The position of the character with index `k`.
    pub open spec fn pos_at(self, k: int) -> Pos {
        pos_after(self.origin, self.text.take(k))
    }

    /// The character with index `k`, if the text has one.
    pub open spec fn at(self, k: int) -> Option<char> {
        if 0 <= k < self.text.len() {
            Some(self.text[k])
        } else {
            None
        }
    }

    /// The `count` characters from index `from` on, or as many as the text
    /// has there.
    pub open spec fn ahead(self, from: int, count: int) -> Seq<char> {
        if from + count <= self.text.len() {
            self.text.subrange(from, from + count)
        } else {
            self.text.subrange(from, self.text.len() as int)
        }
    }

    /// The index of the first character, from index `at` on, that `class`
    /// does not hold, or the length of the text where it holds them all.
    pub open spec fn run_end(self, at: int, class: spec_fn(char) -> bool) -> int
        decreases self.text.len() - at,
    {
        if 0 <= at < self.text.len() && class(self.text[at]) {
            self.run_end(at + 1, class)
        } else {
            at
        }
    }

    /// The span from index `from` to index `to`.
    pub open spec fn span(self, from: int, to: int) -> SourceInfo {
        SourceInfo { start: self.pos_at(from), end: self.pos_at(to) }
    }

    /// Whether the characters of `lit` stand in the text from index `at` on.
    pub open spec fn starts_with(self, at: int, lit: Seq<char>) -> bool {
        &&& 0 <= at
        &&& at + lit.len() <= self.text.len()
        &&& self.text.subrange(at, at + lit.len()) == lit
    }

    /// The characters from index `from` up to, not including, index `to`.
    pub open spec fn slice(self, from: int, to: int) -> Seq<char> {
        self.text.subrange(from, to)
    }
}

/// Reading `text` one character further moves the position by that character.
pub proof fn lemma_pos_at_next(input: Input, k: int)
    requires
        0 <= k < input.text.len(),
    ensures
        input.pos_at(k + 1) == advance(input.pos_at(k), input.text[k]),
{
    let longer = input.text.take(k + 1);
    assert(longer.drop_last() =~= input.text.take(k));
    assert(longer.last() == input.text[k]);
}

/// The characters of `s`, one by one.
pub fn chars_of(s: &str) -> (chars: Vec<char>)
    ensures
        chars@ == s@,
{
    let mut chars: Vec<char> = Vec::new();
    for c in iter: s.chars()
        invariant
            iter.seq() == s@,
            chars@ == iter.seq().take(iter.index() as int),
    {
        chars.push(c);
    }
    assert(chars@ =~= s@);
    chars
}

/// The string made of the one character `c`.
pub fn one_char(c: char) -> (s: String)
    ensures
        s@ == seq![c],
{
    let mut s = String::new();
    s.push(c);
    assert(s@ =~= seq![c]);
    s
}

/// Whether `s` is the one character `c`.
pub fn is_one(s: &str, c: char) -> (yes: bool)
    ensures
        yes == (s@ == seq![c]),
{
    if s.unicode_len() == 1 {
        let first = s.get_char(0);
        proof {
            if first == c {
                assert(s@ =~= seq![c]);
            }
        }
        first == c
    } else {
        false
    }
}

/// Reading one text after another moves the position as reading the two as
/// one text does.
pub proof fn lemma_pos_after_concat(origin: Pos, first: Seq<char>, second: Seq<char>)
    ensures
        pos_after(origin, first + second) == pos_after(pos_after(origin, first), second),
    decreases second.len(),
{
    if second.len() == 0 {
        assert(first + second =~= first);
    } else {
        lemma_pos_after_concat(origin, first, second.drop_last());
        assert((first + second).drop_last() =~= first + second.drop_last());
        assert((first + second).last() == second.last());
    }
}

/// The end of a span is reached from its start by reading exactly the text
/// between the two.
pub proof fn law_span_reachable(input: Input, from: int, to: int)
    requires
        0 <= from <= to <= input.text.len(),
    ensures
        pos_after(input.span(from, to).start, input.slice(from, to)) == input.span(from, to).end,
{
    lemma_pos_after_concat(input.origin, input.text.take(from), input.slice(from, to));
    assert(input.text.take(from) + input.slice(from, to) =~= input.text.take(to));
}

/// Whether the position `a` comes before the position `b` in reading
/// order, or is the same.
pub open spec fn pos_le(a: Pos, b: Pos) -> bool {
    a.line < b.line || (a.line == b.line && a.column <= b.column)
}

/// Whether the line and column counters have room for every character of
/// the input, so that none of them stops at the largest value of its type.
pub open spec fn has_room(input: Input) -> bool {
    &&& input.origin.line + input.text.len() <= usize::MAX
    &&& input.origin.column + input.text.len() <= usize::MAX
    &&& input.text.len() < usize::MAX
}

/// Where the counters have room, a position lies at most as many lines and
/// columns from the origin as characters were read.
pub proof fn lemma_pos_at_bounds(input: Input, k: int)
    requires
        has_room(input),
        0 <= k <= input.text.len(),
    ensures
        input.origin.line <= input.pos_at(k).line <= input.origin.line + k,
        input.pos_at(k).column <= input.origin.column + k,
        input.pos_at(k).column <= k + 1 || input.pos_at(k).line == input.origin.line,
    decreases k,
{
    if k > 0 {
        lemma_pos_at_bounds(input, k - 1);
        lemma_pos_at_next(input, k - 1);
    } else {
        assert(input.text.take(0) =~= Seq::<char>::empty());
    }
}

/// Where the counters have room, the positions follow the reading order:
/// the start of a span does not come after its end.
pub proof fn law_span_ordered(input: Input, from: int, to: int)
    requires
        has_room(input),
        0 <= from <= to <= input.text.len(),
    ensures
        pos_le(input.span(from, to).start, input.span(from, to).end),
    decreases to - from,
{
    if from < to {
        law_span_ordered(input, from, to - 1);
        lemma_pos_at_next(input, to - 1);
        lemma_pos_at_bounds(input, to - 1);
    }
}

/// A run of characters of one class ends within the text, and not before
/// it starts.
pub proof fn lemma_run_end_bounds(input: Input, at: int, class: spec_fn(char) -> bool)
    requires
        0 <= at <= input.text.len(),
    ensures
        at <= input.run_end(at, class) <= input.text.len(),
    decreases input.text.len() - at,
{
    if at < input.text.len() && class(input.text[at]) {
        lemma_run_end_bounds(input, at + 1, class);
    }
}

/// An index up to which every character is of the class, and at which the
/// text ends or holds a character of another class, is where the run ends.
pub proof fn lemma_run_end_unique(input: Input, at: int, end: int, class: spec_fn(char) -> bool)
    requires
        0 <= at <= end <= input.text.len(),
        forall|i: int| at <= i < end ==> class(#[trigger] input.text[i]),
        end < input.text.len() ==> !class(input.text[end]),
    ensures
        input.run_end(at, class) == end,
    decreases end - at,
{
    if at < end {
        lemma_run_end_unique(input, at + 1, end, class);
    }
}

/// A point in the input: the index of the next character and its position.
#[derive(Copy, Clone, Debug, PartialEq, Eq, Structural)]
pub struct ReaderState {
    pub cursor: usize,
    pub pos: Pos,
}

/// A cursor over the characters of an input text.
pub struct Reader {
    pub buffer: Vec<char>,
    pub state: ReaderState,
    pub origin: Ghost<Pos>,
}

impl Reader {
    /// The text and origin that this reader works on.
    pub open spec fn input(&self) -> Input {
        Input { text: self.buffer@, origin: self.origin@ }
    }

    /// The state that a reader over `input` has at index `k`.
    pub open spec fn state_at(input: Input, k: int) -> ReaderState {
        ReaderState { cursor: k as usize, pos: input.pos_at(k) }
    }

    /// The cursor lies within the text and the position is the one that
    /// belongs to the cursor.
    pub open spec fn wf(&self) -> bool {
        &&& self.state.cursor <= self.buffer@.len()
        &&& self.state.pos == self.input().pos_at(self.state.cursor as int)
    }

    /// A reader at the start of `s`, at line 1 and column 1.
    pub fn new(s: &str) -> (reader: Reader)
        ensures
            reader.wf(),
            reader.input() == (Input { text: s@, origin: Pos { line: 1, column: 1 } }),
            reader.state.cursor == 0,
    {
        Reader::new_at(s, Pos { line: 1, column: 1 })
    }

    /// A reader at the start of `s`, whose first character stands at `origin`.
    pub fn new_at(s: &str, origin: Pos) -> (reader: Reader)
        ensures
            reader.wf(),
            reader.input() == (Input { text: s@, origin }),
            reader.state.cursor == 0,
    {
        let buffer = chars_of(s);
        assert(buffer@.take(0) =~= Seq::<char>::empty());
        Reader { buffer, state: ReaderState { cursor: 0, pos: origin }, origin: Ghost(origin) }
    }

    /// Whether every character has been read.
    pub fn is_eof(&self) -> (eof: bool)
        requires
            self.wf(),
        ensures
            eof == (self.state.cursor == self.buffer@.len()),
    {
        self.state.cursor == self.buffer.len()
    }

    /// The next character, which stays unread.
    pub fn peek(&self) -> (next: Option<char>)
        requires
            self.wf(),
        ensures
            next == self.input().at(self.state.cursor as int),
    {
        if self.state.cursor < self.buffer.len() {
            Some(self.buffer[self.state.cursor])
        } else {
            None
        }
    }

    /// Reads the next character, if there is one.
    pub fn read(&mut self) -> (next: Option<char>)
        requires
            old(self).wf(),
        ensures
            final(self).wf(),
            final(self).input() == old(self).input(),
            next == old(self).input().at(old(self).state.cursor as int),
            final(self).state.cursor == (if next is Some {
                old(self).state.cursor + 1
            } else {
                old(self).state.cursor as int
            }),
    {
        if self.state.cursor < self.buffer.len() {
            let c = self.buffer[self.state.cursor];
            proof {
                lemma_pos_at_next(self.input(), self.state.cursor as int);
            }
            self.state.cursor = self.state.cursor + 1;
            if c == '\n' {
                if self.state.pos.line < usize::MAX {
                    self.state.pos.line = self.state.pos.line + 1;
                }
                self.state.pos.column = 1;
            } else if self.state.pos.column < usize::MAX {
                self.state.pos.column = self.state.pos.column + 1;
            }
            Some(c)
        } else {
            None
        }
    }

    /// The next `count` characters, or as many as are left, which stay unread.
    pub fn peek_n(&self, count: usize) -> (s: String)
        requires
            self.wf(),
        ensures
            s@ == self.input().ahead(self.state.cursor as int, count as int),
    {
        let mut s = String::new();
        let mut i: usize = 0;
        let start = self.state.cursor;
        while i < count && i < self.buffer.len() - start
            invariant
                self.wf(),
                start == self.state.cursor,
                i <= count,
                i <= self.buffer@.len() - start,
                s@ == self.buffer@.subrange(start as int, start + i),
            decreases count - i,
        {
            s.push(self.buffer[start + i]);
            i = i + 1;
            assert(self.buffer@.subrange(start as int, start + i) =~= self.buffer@.subrange(
                start as int,
                start + i - 1,
            ).push(self.buffer@[start + i - 1]));
        }
        s
    }

    /// The characters from index `start` up to the cursor. Where `start`
    /// lies behind the cursor, there are none.
    pub fn peek_back(&self, start: usize) -> (s: String)
        requires
            self.wf(),
        ensures
            s@ == (if start <= self.state.cursor {
                self.input().slice(start as int, self.state.cursor as int)
            } else {
                Seq::<char>::empty()
            }),
    {
        let mut s = String::new();
        let mut i: usize = start;
        proof {
            if start <= self.state.cursor {
                assert(self.buffer@.subrange(start as int, start as int) =~= Seq::<char>::empty());
            }
        }
        while i < self.state.cursor
            invariant
                self.wf(),
                start <= i,
                start <= self.state.cursor ==> i <= self.state.cursor,
                s@ == (if start <= self.state.cursor {
                    self.buffer@.subrange(start as int, i as int)
                } else {
                    Seq::<char>::empty()
                }),
            decreases self.state.cursor - i,
        {
            s.push(self.buffer[i]);
            i = i + 1;
            assert(self.buffer@.subrange(start as int, i as int) =~= self.buffer@.subrange(
                start as int,
                i - 1,
            ).push(self.buffer@[i - 1]));
        }
        s
    }

    /// Reads characters as long as `predicate` accepts them, and returns
    /// them. The first character that it refuses stays unread.
    pub fn read_while<F: Fn(&char) -> bool>(&mut self, predicate: F) -> (s: String)
        requires
            old(self).wf(),
            forall|c: char| call_requires(predicate, (&c,)),
        ensures
            final(self).wf(),
            final(self).input() == old(self).input(),
            old(self).state.cursor <= final(self).state.cursor,
            s@ == old(self).input().slice(
                old(self).state.cursor as int,
                final(self).state.cursor as int,
            ),
            forall|i: int|
                old(self).state.cursor <= i < final(self).state.cursor ==> call_ensures(
                    predicate,
                    (&#[trigger] old(self).buffer@[i],),
                    true,
                ),
            final(self).state.cursor < old(self).buffer@.len() ==> call_ensures(
                predicate,
                (&old(self).buffer@[final(self).state.cursor as int],),
                false,
            ),
    {
        let mut s = String::new();
        let start = self.state.cursor;
        assert(self.buffer@.subrange(start as int, start as int) =~= Seq::<char>::empty());
        loop
            invariant
                self.wf(),
                self.input() == old(self).input(),
                start == old(self).state.cursor,
                start <= self.state.cursor,
                forall|c: char| call_requires(predicate, (&c,)),
                s@ == self.buffer@.subrange(start as int, self.state.cursor as int),
                forall|i: int|
                    start <= i < self.state.cursor ==> call_ensures(
                        predicate,
                        (&#[trigger] self.buffer@[i],),
                        true,
                    ),
            ensures
                self.state.cursor < self.buffer@.len() ==> call_ensures(
                    predicate,
                    (&self.buffer@[self.state.cursor as int],),
                    false,
                ),
            decreases self.buffer@.len() - self.state.cursor,
        {
            match self.peek() {
                None => {
                    break ;
                },
                Some(c) => {
                    if !predicate(&c) {
                        break ;
                    }
                    let before = self.state.cursor;
                    self.read();
                    s.push(c);
                    assert(self.buffer@.subrange(start as int, self.state.cursor as int)
                        =~= self.buffer@.subrange(start as int, before as int).push(c));
                },
            }
        }
        s
    }

    /// Whether the characters of `s` stand at the cursor; they stay unread.
    pub fn looking_at(&self, s: &str) -> (yes: bool)
        requires
            self.wf(),
        ensures
            yes == self.input().starts_with(self.state.cursor as int, s@),
    {
        let expected = chars_of(s);
        if expected.len() > self.buffer.len() - self.state.cursor {
            return false;
        }
        let mut i: usize = 0;
        while i < expected.len()
            invariant
                self.wf(),
                expected@ == s@,
                i <= expected.len(),
                self.state.cursor + expected.len() <= self.buffer@.len() <= usize::MAX,
                forall|j: int| 0 <= j < i ==> self.buffer@[self.state.cursor + j] == s@[j],
            decreases expected.len() - i,
        {
            if self.buffer[self.state.cursor + i] != expected[i] {
                assert(self.buffer@.subrange(
                    self.state.cursor as int,
                    self.state.cursor + s@.len(),
                )[i as int] != s@[i as int]);
                return false;
            }
            i = i + 1;
        }
        assert(self.buffer@.subrange(self.state.cursor as int, self.state.cursor + s@.len())
            =~= s@);
        true
    }
}

} // verus!
