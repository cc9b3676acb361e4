use crate::ast::{
    Comment, CommentView, LineTerminator, LineTerminatorView, Pos, Regex, RegexView, SourceInfo,
    Whitespace, WhitespaceView,
};
use crate::parser::combinators::{optional, optional_spec, repeat_spec, zero_or_more, Parser};
use crate::parser::error::{Error, ParseError, ParseErrorView};
use crate::parser::outcome::{parses, Parsed};
use crate::parser::reader::{chars_of, lemma_run_end_bounds, Input, Reader};
use vstd::string::StringExecFns;
use vstd::prelude::*;

verus! {

/// How many leading characters of `lit`, from its index `i` on, stand in the
/// input from index `at + i` on: the result is the index in `lit` of the
/// first character that the input does not have, or the length of `lit`.
pub open spec fn agreement(input: Input, at: int, lit: Seq<char>, i: int) -> int
    decreases lit.len() - i,
{
    if 0 <= i < lit.len() && input.at(at + i) == Some(lit[i]) {
        agreement(input, at, lit, i + 1)
    } else {
        i
    }
}

/// What [`literal`] does: where the input holds `lit` at `at`, it moves
/// past it. Otherwise it fails at `at`, for good, having read the first
/// character that differs, if there is one.
pub open spec fn literal_spec(input: Input, at: int, lit: Seq<char>) -> Parsed<()> {
    let same = agreement(input, at, lit, 0);
    if input.starts_with(at, lit) {
        Parsed::done((), at + lit.len())
    } else {
        Parsed::failed(
            input.pos_at(at),
            false,
            ParseErrorView::Expecting { value: lit },
            if at + same < input.text.len() {
                at + same + 1
            } else {
                at + same
            },
        )
    }
}

/// A text of one character stands at `at` exactly where that character does.
pub proof fn lemma_starts_with_one(input: Input, at: int, c: char)
    requires
        0 <= at,
    ensures
        input.starts_with(at, seq![c]) <==> input.at(at) == Some(c),
{
    if input.at(at) == Some(c) {
        assert(input.text.subrange(at, at + 1) =~= seq![c]);
    }
    if input.starts_with(at, seq![c]) {
        assert(input.text.subrange(at, at + 1)[0] == c);
    }
}

/// What [`try_literal`] does: as [`literal_spec`], but a failure reads
/// nothing and leaves other alternatives open.
pub open spec fn try_literal_spec(input: Input, at: int, lit: Seq<char>) -> Parsed<()> {
    if input.starts_with(at, lit) {
        Parsed::done((), at + lit.len())
    } else {
        Parsed::failed(input.pos_at(at), true, ParseErrorView::Expecting { value: lit }, at)
    }
}

/// Reads exactly the characters of `s`, or fails without a way back.
pub fn literal(s: &str, reader: &mut Reader) -> (r: Result<(), Error>)
    requires
        old(reader).wf(),
    ensures
        parses(
            *old(reader),
            *final(reader),
            r,
            literal_spec(old(reader).input(), old(reader).state.cursor as int, s@),
        ),
{
    let start = reader.state;
    let expected = chars_of(s);
    let mut i: usize = 0;
    while i < expected.len()
        invariant
            reader.wf(),
            reader.input() == old(reader).input(),
            start == old(reader).state,
            start.pos == reader.input().pos_at(start.cursor as int),
            expected@ == s@,
            i <= expected.len(),
            reader.state.cursor == start.cursor + i,
            forall|j: int| 0 <= j < i ==> reader.input().at(start.cursor + j) == Some(s@[j]),
            agreement(reader.input(), start.cursor as int, s@, 0) == agreement(
                reader.input(),
                start.cursor as int,
                s@,
                i as int,
            ),
        decreases expected.len() - i,
    {
        let next = reader.read();
        if next != Some(expected[i]) {
            assert(!reader.input().starts_with(start.cursor as int, s@)) by {
                if reader.input().starts_with(start.cursor as int, s@) {
                    assert(reader.input().text.subrange(
                        start.cursor as int,
                        start.cursor + s@.len(),
                    )[i as int] == s@[i as int]);
                }
            }
            assert(agreement(reader.input(), start.cursor as int, s@, i as int) == i);
            return Err(Error::new(start.pos, false, ParseError::Expecting { value: s.to_owned() }));
        }
        i = i + 1;
    }
    assert(reader.input().text.subrange(start.cursor as int, start.cursor + s@.len()) =~= s@);
    Ok(())
}

/// Reads exactly the characters of `s`. Where the input does not hold them,
/// nothing is read and the failure leaves other alternatives open.
pub fn try_literal(s: &str, reader: &mut Reader) -> (r: Result<(), Error>)
    requires
        old(reader).wf(),
    ensures
        parses(
            *old(reader),
            *final(reader),
            r,
            try_literal_spec(old(reader).input(), old(reader).state.cursor as int, s@),
        ),
{
    let save = reader.state;
    match literal(s, reader) {
        Ok(_) => Ok(()),
        Err(e) => {
            reader.state = save;
            Err(Error::new(e.pos, true, e.inner))
        },
    }
}

/// The two kinds of blank character that the grammar tells apart.
#[derive(Clone, Copy, Debug, PartialEq, Eq, Structural)]
pub enum Blank {
    /// A space or a tab.
    Space,
    /// A space, a tab, a line feed or a carriage return.
    Whitespace,
}

impl Blank {
    /// Whether `c` is a blank of this kind.
    pub open spec fn holds(self, c: char) -> bool {
        match self {
            Blank::Space => c == ' ' || c == '\t',
            Blank::Whitespace => c == ' ' || c == '\t' || c == '\n' || c == '\r',
        }
    }

    /// Whether `c` is a blank of this kind.
    pub fn accepts(self, c: char) -> (yes: bool)
        ensures
            yes == self.holds(c),
    {
        match self {
            Blank::Space => c == ' ' || c == '\t',
            Blank::Whitespace => c == ' ' || c == '\t' || c == '\n' || c == '\r',
        }
    }

    /// Reading one blank of this kind: it fails, leaving the way open, on
    /// any other character, which it has then read, and at the end of the
    /// input.
    pub open spec fn one_spec(self, input: Input, at: int) -> Parsed<WhitespaceView> {
        match input.at(at) {
            Some(c) => if self.holds(c) {
                Parsed::done(
                    WhitespaceView { value: seq![c], source_info: input.span(at, at + 1) },
                    at + 1,
                )
            } else {
                Parsed::failed(input.pos_at(at), true, ParseErrorView::Space, at + 1)
            },
            None => Parsed::failed(input.pos_at(at), true, ParseErrorView::Space, at),
        }
    }

    /// Reading the longest run of blanks of this kind, which may be empty:
    /// it never fails.
    pub open spec fn run_spec(self, input: Input, at: int) -> Parsed<WhitespaceView> {
        let end = input.run_end(at, |c: char| self.holds(c));
        Parsed::done(
            WhitespaceView { value: input.slice(at, end), source_info: input.span(at, end) },
            end,
        )
    }

    /// Reads one blank of this kind.
    pub fn one(self, reader: &mut Reader) -> (r: Result<Whitespace, Error>)
        requires
            old(reader).wf(),
        ensures
            parses(
                *old(reader),
                *final(reader),
                r,
                self.one_spec(old(reader).input(), old(reader).state.cursor as int),
            ),
    {
        let start = reader.state;
        match reader.read() {
            None => Err(Error::new(start.pos, true, ParseError::Space)),
            Some(c) => {
                if self.accepts(c) {
                    let mut value = String::new();
                    value.push(c);
                    assert(value@ =~= seq![c]);
                    Ok(Whitespace { value, source_info: SourceInfo::new(start.pos, reader.state.pos) })
                } else {
                    Err(Error::new(start.pos, true, ParseError::Space))
                }
            },
        }
    }

    /// Reads the longest run of blanks of this kind.
    pub fn run(self, reader: &mut Reader) -> (r: Result<Whitespace, Error>)
        requires
            old(reader).wf(),
        ensures
            parses(
                *old(reader),
                *final(reader),
                r,
                self.run_spec(old(reader).input(), old(reader).state.cursor as int),
            ),
    {
        let start = reader.state;
        proof {
            lemma_repeat_blank(self, reader.input(), start.cursor as int, Seq::empty());
        }
        match zero_or_more(&self, reader) {
            Ok(found) => {
                let ghost input = reader.input();
                let mut value = String::new();
                let mut i: usize = 0;
                assert(input.slice(start.cursor as int, start.cursor as int) =~= Seq::empty());
                while i < found.len()
                    invariant
                        i <= found.len(),
                        input == reader.input(),
                        0 <= start.cursor,
                        start.cursor + found.len() <= input.text.len(),
                        found.deep_view() == singles(input, start.cursor as int, found.len() as int),
                        value@ == input.slice(start.cursor as int, start.cursor + i),
                    decreases found.len() - i,
                {
                    assert(found.deep_view()[i as int] == found[i as int].deep_view());
                    value.append(found[i].value.as_str());
                    i = i + 1;
                    assert(input.slice(start.cursor as int, start.cursor + i) =~= input.slice(
                        start.cursor as int,
                        start.cursor + i - 1,
                    ) + seq![input.text[start.cursor + i - 1]]);
                }
                Ok(Whitespace { value, source_info: SourceInfo::new(start.pos, reader.state.pos) })
            },
            Err(e) => Err(e),
        }
    }
}

impl Parser for Blank {
    type Output = Whitespace;

    open spec fn spec_parse(&self, input: Input, at: int) -> Parsed<WhitespaceView> {
        self.one_spec(input, at)
    }

    fn parse(&self, reader: &mut Reader) -> (r: Result<Whitespace, Error>) {
        self.one(reader)
    }
}

/// The characters from index `at` on, `count` of them, each as a blank of
/// its own.
pub open spec fn singles(input: Input, at: int, count: int) -> Seq<WhitespaceView> {
    Seq::new(
        count as nat,
        |i: int|
            WhitespaceView {
                value: seq![input.text[at + i]],
                source_info: input.span(at + i, at + i + 1),
            },
    )
}

/// Repeating the rule for one blank reads the longest run of blanks, one
/// value for each character.
pub proof fn lemma_repeat_blank(kind: Blank, input: Input, at: int, found: Seq<WhitespaceView>)
    requires
        0 <= at <= input.text.len(),
    ensures
        ({
            let end = input.run_end(at, |c: char| kind.holds(c));
            &&& at <= end <= input.text.len()
            &&& repeat_spec(kind, input, at, found) == Parsed::done(
                found + singles(input, at, end - at),
                end,
            )
        }),
    decreases input.text.len() - at,
{
    let class = |c: char| kind.holds(c);
    let end = input.run_end(at, class);
    lemma_run_end_bounds(input, at, class);
    if at < input.text.len() && kind.holds(input.text[at]) {
        let one = WhitespaceView { value: seq![input.text[at]], source_info: input.span(at, at + 1) };
        lemma_repeat_blank(kind, input, at + 1, found.push(one));
        assert(found.push(one) + singles(input, at + 1, end - at - 1) =~= found + singles(
            input,
            at,
            end - at,
        ));
    } else {
        assert(found + singles(input, at, 0) =~= found);
    }
}

/// What [`space`] does.
pub open spec fn space_spec(input: Input, at: int) -> Parsed<WhitespaceView> {
    Blank::Space.one_spec(input, at)
}

/// Reads one space or tab.
pub fn space(reader: &mut Reader) -> (r: Result<Whitespace, Error>)
    requires
        old(reader).wf(),
    ensures
        parses(
            *old(reader),
            *final(reader),
            r,
            space_spec(old(reader).input(), old(reader).state.cursor as int),
        ),
{
    Blank::Space.one(reader)
}

/// What [`zero_or_more_spaces`] does: it reads the spaces and tabs that
/// stand at `at`, all of them, and never fails.
pub open spec fn zero_or_more_spaces_spec(input: Input, at: int) -> Parsed<WhitespaceView> {
    Blank::Space.run_spec(input, at)
}

/// Reads the spaces and tabs at the cursor.
pub fn zero_or_more_spaces(reader: &mut Reader) -> (r: Result<Whitespace, Error>)
    requires
        old(reader).wf(),
    ensures
        parses(
            *old(reader),
            *final(reader),
            r,
            zero_or_more_spaces_spec(old(reader).input(), old(reader).state.cursor as int),
        ),
{
    Blank::Space.run(reader)
}

/// The characters of a line end in its longer form.
pub open spec fn crlf() -> Seq<char> {
    seq!['\r', '\n']
}

/// The character of a line end in its shorter form.
pub open spec fn lf() -> Seq<char> {
    seq!['\n']
}

/// What [`newline`] does: it reads a carriage return and a line feed, or a
/// line feed alone. Anything else is a failure without a way back, after
/// which one character has been read, if there was one.
pub open spec fn newline_spec(input: Input, at: int) -> Parsed<WhitespaceView> {
    if input.starts_with(at, crlf()) {
        Parsed::done(WhitespaceView { value: crlf(), source_info: input.span(at, at + 2) }, at + 2)
    } else if input.starts_with(at, lf()) {
        Parsed::done(WhitespaceView { value: lf(), source_info: input.span(at, at + 1) }, at + 1)
    } else {
        Parsed::failed(
            input.pos_at(at),
            false,
            ParseErrorView::Expecting { value: "newline"@ },
            if at < input.text.len() {
                at + 1
            } else {
                at
            },
        )
    }
}

/// Reads the end of a line.
pub fn newline(reader: &mut Reader) -> (r: Result<Whitespace, Error>)
    requires
        old(reader).wf(),
    ensures
        parses(
            *old(reader),
            *final(reader),
            r,
            newline_spec(old(reader).input(), old(reader).state.cursor as int),
        ),
{
    let start = reader.state;
    proof {
        reveal_strlit("\r\n");
        reveal_strlit("\n");
        assert("\r\n"@ =~= crlf());
        assert("\n"@ =~= lf());
        assert(agreement(reader.input(), start.cursor as int, lf(), 1) == 1);
        if reader.input().at(start.cursor as int) == Some('\n') {
            assert(reader.input().text.subrange(start.cursor as int, start.cursor + 1) =~= lf());
        }
    }
    match try_literal("\r\n", reader) {
        Ok(_) => Ok(
            Whitespace {
                value: "\r\n".to_owned(),
                source_info: SourceInfo::new(start.pos, reader.state.pos),
            },
        ),
        Err(_) => match literal("\n", reader) {
            Ok(_) => Ok(
                Whitespace {
                    value: "\n".to_owned(),
                    source_info: SourceInfo::new(start.pos, reader.state.pos),
                },
            ),
            Err(_) => Err(
                Error::new(start.pos, false, ParseError::Expecting { value: "newline".to_owned() }),
            ),
        },
    }
}

/// What [`boolean`] does: it reads `true` or `false`. Anything else is a
/// failure that leaves the way open, after which as much of `false` has
/// been read as the input holds, and the character after it.
pub open spec fn boolean_spec(input: Input, at: int) -> Parsed<bool> {
    if input.starts_with(at, "true"@) {
        Parsed::done(true, at + "true"@.len())
    } else if input.starts_with(at, "false"@) {
        Parsed::done(false, at + "false"@.len())
    } else {
        Parsed::failed(
            input.pos_at(at),
            true,
            ParseErrorView::Expecting { value: "true|false"@ },
            literal_spec(input, at, "false"@).end,
        )
    }
}

/// Reads `true` or `false`.
pub fn boolean(reader: &mut Reader) -> (r: Result<bool, Error>)
    requires
        old(reader).wf(),
    ensures
        parses(
            *old(reader),
            *final(reader),
            r,
            boolean_spec(old(reader).input(), old(reader).state.cursor as int),
        ),
{
    let start = reader.state;
    match try_literal("true", reader) {
        Ok(_) => Ok(true),
        Err(_) => match literal("false", reader) {
            Ok(_) => Ok(false),
            Err(_) => Err(
                Error::new(
                    start.pos,
                    true,
                    ParseError::Expecting { value: "true|false".to_owned() },
                ),
            ),
        },
    }
}

/// The number that `c` stands for as a digit of base sixteen, if it is one.
pub open spec fn hex_digit_value(c: char) -> Option<u32> {
    if '0' <= c <= '9' {
        Some((c as u32 - '0' as u32) as u32)
    } else if 'a' <= c <= 'f' {
        Some((c as u32 - 'a' as u32 + 10) as u32)
    } else if 'A' <= c <= 'F' {
        Some((c as u32 - 'A' as u32 + 10) as u32)
    } else {
        None
    }
}

/// The number that `c` stands for as a digit of base sixteen, if it is one.
pub fn to_hex_digit(c: char) -> (value: Option<u32>)
    ensures
        value == hex_digit_value(c),
        value matches Some(v) ==> v < 16,
{
    if '0' <= c && c <= '9' {
        Some(c as u32 - '0' as u32)
    } else if 'a' <= c && c <= 'f' {
        Some(c as u32 - 'a' as u32 + 10)
    } else if 'A' <= c && c <= 'F' {
        Some(c as u32 - 'A' as u32 + 10)
    } else {
        None
    }
}

/// What [`hex_digit`] does: it reads one character, which must be a digit
/// of base sixteen. The failure leaves the way open.
pub open spec fn hex_digit_spec(input: Input, at: int) -> Parsed<u32> {
    match input.at(at) {
        Some(c) => match hex_digit_value(c) {
            Some(value) => Parsed::done(value, at + 1),
            None => Parsed::failed(input.pos_at(at), true, ParseErrorView::HexDigit, at + 1),
        },
        None => Parsed::failed(input.pos_at(at), true, ParseErrorView::HexDigit, at),
    }
}

/// Reads one digit of base sixteen.
pub fn hex_digit(reader: &mut Reader) -> (r: Result<u32, Error>)
    requires
        old(reader).wf(),
    ensures
        parses(
            *old(reader),
            *final(reader),
            r,
            hex_digit_spec(old(reader).input(), old(reader).state.cursor as int),
        ),
        r matches Ok(v) ==> v < 16,
{
    let start = reader.state;
    match reader.read() {
        Some(c) => match to_hex_digit(c) {
            Some(value) => Ok(value),
            None => Err(Error::new(start.pos, true, ParseError::HexDigit)),
        },
        None => Err(Error::new(start.pos, true, ParseError::HexDigit)),
    }
}

/// Why a pattern could not be made into a regular expression.
#[derive(Debug, PartialEq, Eq)]
pub enum RegexFailure {
    /// The pattern is ill formed; the text is the report of the library.
    Syntax(String),
    /// The compiled expression would be larger than the library allows.
    CompiledTooBig,
    /// Any other failure.
    Other,
}

/// What a [`RegexFailure`] holds, as mathematical values.
pub enum RegexFailureView {
    Syntax(Seq<char>),
    CompiledTooBig,
    Other,
}

impl DeepView for RegexFailure {
    type V = RegexFailureView;

    open spec fn deep_view(&self) -> RegexFailureView {
        match *self {
            RegexFailure::Syntax(report) => RegexFailureView::Syntax(report@),
            RegexFailure::CompiledTooBig => RegexFailureView::CompiledTooBig,
            RegexFailure::Other => RegexFailureView::Other,
        }
    }
}

/// What `regex::Regex::new` makes of a pattern: nothing where the pattern
/// compiles, and the failure where it does not. Which patterns compile is
/// for that library to say; nothing of it is stated here, but that the
/// answer depends on the pattern alone.
pub uninterp spec fn regex_failure(pattern: Seq<char>) -> Option<RegexFailureView>;

/// Compiles `pattern` with `regex::Regex::new` and returns the failure, if
/// there was one: the report of a syntax error, or which other kind of
/// failure it was. The contract is not proved; it only gives the outcome
/// its name, [`regex_failure`].
#[verifier::external_body]
fn compile(pattern: &str) -> (failure: Option<RegexFailure>)
    ensures
        failure.deep_view() == regex_failure(pattern@),
{
    match regex::Regex::new(pattern) {
        Ok(_) => None,
        Err(regex::Error::Syntax(report)) => Some(RegexFailure::Syntax(report)),
        Err(regex::Error::CompiledTooBig(_)) => Some(RegexFailure::CompiledTooBig),
        Err(_) => Some(RegexFailure::Other),
    }
}

/// Where the last line of `text` starts, looking at the characters before
/// index `k`: after the last line feed, or at the start.
pub open spec fn last_line_start(text: Seq<char>, k: int) -> int
    decreases k,
{
    if k <= 0 || k > text.len() {
        0
    } else if text[k - 1] == '\n' {
        k
    } else {
        last_line_start(text, k - 1)
    }
}

/// The last line of `text`.
pub open spec fn last_line(text: Seq<char>) -> Seq<char> {
    text.subrange(last_line_start(text, text.len() as int), text.len() as int)
}

/// The text `line` without `prefix` at its start, or `line` itself where it
/// does not start with it.
pub open spec fn without_prefix(line: Seq<char>, prefix: Seq<char>) -> Seq<char> {
    if prefix.len() <= line.len() && line.subrange(0, prefix.len() as int) == prefix {
        line.subrange(prefix.len() as int, line.len() as int)
    } else {
        line
    }
}

/// The message that a failure to compile a pattern is reported with. The
/// report of a syntax error runs over several lines, of which the last one
/// says what is wrong: the message is that line, without the word `error`
/// and the colon that it starts with.
pub open spec fn regex_message(failure: RegexFailureView) -> Seq<char> {
    match failure {
        RegexFailureView::Syntax(report) => without_prefix(last_line(report), "error: "@),
        RegexFailureView::CompiledTooBig => "Size limit exceeded"@,
        RegexFailureView::Other => "unknown"@,
    }
}

/// The characters of `chars` from index `from` on, as a string.
fn string_from(chars: &Vec<char>, from: usize) -> (s: String)
    requires
        from <= chars@.len(),
    ensures
        s@ == chars@.subrange(from as int, chars@.len() as int),
{
    let mut s = String::new();
    let mut i: usize = from;
    assert(chars@.subrange(from as int, from as int) =~= Seq::<char>::empty());
    while i < chars.len()
        invariant
            from <= i <= chars@.len(),
            s@ == chars@.subrange(from as int, i as int),
        decreases chars@.len() - i,
    {
        s.push(chars[i]);
        i = i + 1;
        assert(chars@.subrange(from as int, i as int) =~= chars@.subrange(
            from as int,
            i - 1,
        ).push(chars@[i - 1]));
    }
    s
}

/// The message that a failure to compile a pattern is reported with.
pub fn regex_error_message(failure: &RegexFailure) -> (message: String)
    ensures
        message@ == regex_message(failure.deep_view()),
{
    match failure {
        RegexFailure::Syntax(report) => {
            let chars = chars_of(report.as_str());
            let mut start: usize = chars.len();
            while start > 0 && chars[start - 1] != '\n'
                invariant
                    start <= chars@.len(),
                    last_line_start(chars@, chars@.len() as int) == last_line_start(
                        chars@,
                        start as int,
                    ),
                decreases start,
            {
                start = start - 1;
            }
            let prefix = chars_of("error: ");
            let mut same: usize = 0;
            while same < prefix.len()
                invariant
                    same <= prefix@.len(),
                    start + same <= chars@.len() <= usize::MAX,
                    forall|j: int| 0 <= j < same ==> chars@[start + j] == prefix@[j],
                ensures
                    same < prefix@.len() ==> start + same == chars@.len() || chars@[start + same]
                        != prefix@[same as int],
                decreases prefix@.len() - same,
            {
                if start + same >= chars.len() || chars[start + same] != prefix[same] {
                    break ;
                }
                same = same + 1;
            }
            let ghost line = last_line(chars@);
            proof {
                assert(line == chars@.subrange(start as int, chars@.len() as int));
                if same == prefix@.len() {
                    assert(line.subrange(0, prefix@.len() as int) =~= prefix@);
                    assert(line.subrange(prefix@.len() as int, line.len() as int)
                        =~= chars@.subrange(start + same, chars@.len() as int));
                } else if prefix@.len() <= line.len() {
                    assert(line.subrange(0, prefix@.len() as int)[same as int] == line[same as int]);
                }
            }
            if same == prefix.len() {
                string_from(&chars, start + same)
            } else {
                string_from(&chars, start)
            }
        },
        RegexFailure::CompiledTooBig => "Size limit exceeded".to_owned(),
        RegexFailure::Other => "unknown".to_owned(),
    }
}

/// Reading the text of a pattern from index `at` on, after the characters
/// in `found`: up to the next slash, which ends it. A backslash before a
/// slash stands for the slash alone; any other backslash stands for
/// itself. The result is the pattern, or nothing where the input ends
/// before the slash, and the index where reading stops.
pub open spec fn pattern_spec(input: Input, at: int, found: Seq<char>) -> (Option<Seq<char>>, int)
    decreases input.text.len() - at,
{
    match input.at(at) {
        None => (None, at),
        Some(c) => if c == '/' {
            (Some(found), at + 1)
        } else if c == '\\' && input.at(at + 1) == Some('/') {
            pattern_spec(input, at + 2, found.push('/'))
        } else {
            pattern_spec(input, at + 1, found.push(c))
        },
    }
}

/// What [`regex`] does once the text of the pattern has been read and
/// compiled: `failure` is what compiling gave. Without a failure the
/// result is the pattern; with one, a failure without a way back, reported
/// at `start`, where the pattern began.
pub open spec fn regex_result(pattern: Seq<char>, start: Pos, failure: Option<RegexFailureView>)
    -> Result<RegexView, crate::parser::error::ErrorView> {
    match failure {
        None => Ok(RegexView { pattern }),
        Some(failure) => Err(
            crate::parser::error::ErrorView {
                pos: start,
                recoverable: false,
                inner: ParseErrorView::RegexExpr { message: regex_message(failure) },
            },
        ),
    }
}

/// The result of reading a pattern, given what compiling it gave.
pub fn regex_outcome(pattern: String, start: Pos, failure: Option<RegexFailure>) -> (r: Result<
    Regex,
    Error,
>)
    ensures
        crate::parser::outcome::yields(
            r,
            regex_result(pattern@, start, failure.deep_view()),
        ),
{
    match failure {
        None => Ok(Regex { pattern }),
        Some(failure) => {
            let message = regex_error_message(&failure);
            Err(Error::new(start, false, ParseError::RegexExpr { message }))
        },
    }
}

/// What [`regex`] does. The pattern starts with a slash; without one the
/// failure leaves the way open and nothing is read. Where the input ends
/// before the closing slash, the failure is one without a way back,
/// reported at the end of the input. Whether the pattern compiles is for
/// the library to say.
pub open spec fn regex_spec(input: Input, at: int) -> Parsed<RegexView> {
    let scanned = pattern_spec(input, at + 1, Seq::empty());
    if input.at(at) != Some('/') {
        Parsed::failed(input.pos_at(at), true, ParseErrorView::Expecting { value: "/"@ }, at)
    } else {
        match scanned.0 {
            None => Parsed::failed(
                input.pos_at(scanned.1),
                false,
                ParseErrorView::RegexExpr { message: "unexpected end of file"@ },
                scanned.1,
            ),
            Some(pattern) => Parsed {
                result: regex_result(pattern, input.pos_at(at + 1), regex_failure(pattern)),
                end: scanned.1,
            },
        }
    }
}

/// Reads a regular expression between slashes.
pub fn regex(reader: &mut Reader) -> (r: Result<Regex, Error>)
    requires
        old(reader).wf(),
    ensures
        parses(
            *old(reader),
            *final(reader),
            r,
            regex_spec(old(reader).input(), old(reader).state.cursor as int),
        ),
{
    proof {
        reveal_strlit("/");
        assert("/"@ =~= seq!['/']);
        lemma_starts_with_one(reader.input(), reader.state.cursor as int, '/');
    }
    let ghost input = reader.input();
    let ghost at = reader.state.cursor as int;
    try_literal("/", reader)?;
    let start = reader.state.pos;
    let mut s = String::new();
    assert(s@ =~= Seq::<char>::empty());
    // A slash inside the pattern is written with a backslash before it, so
    // that it does not end the pattern. Every other backslash belongs to
    // the pattern itself.
    loop
        invariant_except_break
            pattern_spec(input, at + 1, Seq::empty()) == pattern_spec(
                input,
                reader.state.cursor as int,
                s@,
            ),
        invariant
            reader.wf(),
            reader.input() == input,
            input == old(reader).input(),
            at == old(reader).state.cursor,
            at < reader.state.cursor,
            input.at(at) == Some('/'),
            start == input.pos_at(at + 1),
        ensures
            reader.wf(),
            reader.input() == input,
            at < reader.state.cursor,
            pattern_spec(input, at + 1, Seq::empty()) == (Some(s@), reader.state.cursor as int),
        decreases reader.buffer@.len() - reader.state.cursor,
    {
        match reader.read() {
            None => {
                let message = "unexpected end of file".to_owned();
                return Err(
                    Error::new(reader.state.pos, false, ParseError::RegexExpr { message }),
                );
            },
            Some(c) => {
                if c == '/' {
                    break ;
                } else if c == '\\' {
                    if let Some('/') = reader.peek() {
                        reader.read();
                        s.push('/');
                    } else {
                        s.push('\\');
                    }
                } else {
                    s.push(c);
                }
            },
        }
    }
    let failure = compile(s.as_str());
    regex_outcome(s, start, failure)
}

/// What [`one_or_more_spaces`] does: it reads the spaces and tabs at `at`,
/// of which there must be one at least. Where there is none, the failure
/// is one without a way back, and the character that stands there has been
/// read.
pub open spec fn one_or_more_spaces_spec(input: Input, at: int) -> Parsed<WhitespaceView> {
    let first = Blank::Space.one_spec(input, at);
    match first.result {
        Ok(_) => Blank::Space.run_spec(input, at),
        Err(error) => Parsed::failed(error.pos, false, error.inner, first.end),
    }
}

/// Reads the spaces and tabs at the cursor, of which there must be one.
pub fn one_or_more_spaces(reader: &mut Reader) -> (r: Result<Whitespace, Error>)
    requires
        old(reader).wf(),
    ensures
        parses(
            *old(reader),
            *final(reader),
            r,
            one_or_more_spaces_spec(old(reader).input(), old(reader).state.cursor as int),
        ),
        r is Ok ==> old(reader).state.cursor < final(reader).state.cursor,
{
    let start = reader.state;
    match Blank::Space.one(reader) {
        Ok(_) => {
            reader.state = start;
            proof {
                lemma_run_end_bounds(
                    reader.input(),
                    start.cursor + 1,
                    |c: char| Blank::Space.holds(c),
                );
            }
            Blank::Space.run(reader)
        },
        Err(error) => Err(Error::new(error.pos, false, error.inner)),
    }
}

/// Whether `c` ends a line or belongs to a line end.
pub open spec fn is_line_end(c: char) -> bool {
    c == '\n' || c == '\r'
}

/// Where the comment that starts at `at` ends: before the next line end,
/// which is a line feed or a carriage return with a line feed after it, or
/// at the end of the input.
pub open spec fn comment_end(input: Input, at: int) -> int
    decreases input.text.len() - at,
{
    if at < 0 || at >= input.text.len() || input.starts_with(at, lf()) || input.starts_with(
        at,
        crlf(),
    ) {
        at
    } else {
        comment_end(input, at + 1)
    }
}

/// What [`comment`] does: it reads a `#`, failing with the way left open
/// and nothing read where there is none, and the rest of the line, which
/// is the comment.
pub open spec fn comment_spec(input: Input, at: int) -> Parsed<CommentView> {
    let end = comment_end(input, at + 1);
    if input.at(at) == Some('#') {
        Parsed::done(
            CommentView { value: input.slice(at + 1, end), source_info: input.span(at + 1, end) },
            end,
        )
    } else {
        Parsed::failed(input.pos_at(at), true, ParseErrorView::Expecting { value: "#"@ }, at)
    }
}

/// Whether a line end stands at the cursor.
fn at_line_end(reader: &Reader) -> (yes: bool)
    requires
        reader.wf(),
    ensures
        yes == (reader.input().starts_with(reader.state.cursor as int, lf())
            || reader.input().starts_with(reader.state.cursor as int, crlf())),
{
    let next = reader.peek_n(2);
    let chars = chars_of(next.as_str());
    proof {
        let input = reader.input();
        let at = reader.state.cursor as int;
        lemma_starts_with_one(input, at, '\n');
        if at + 2 <= input.text.len() {
            assert(input.ahead(at, 2) == input.text.subrange(at, at + 2));
            assert(chars@[0] == input.text[at]);
            assert(chars@[1] == input.text[at + 1]);
            if chars@[0] == '\r' && chars@[1] == '\n' {
                assert(input.text.subrange(at, at + 2) =~= crlf());
            }
            if input.starts_with(at, crlf()) {
                assert(input.text.subrange(at, at + 2)[0] == '\r');
                assert(input.text.subrange(at, at + 2)[1] == '\n');
            }
        } else if at < input.text.len() {
            assert(input.ahead(at, 2) == input.text.subrange(at, at + 1));
            assert(chars@[0] == input.text[at]);
        }
    }
    if chars.len() >= 1 && chars[0] == '\n' {
        true
    } else {
        chars.len() == 2 && chars[0] == '\r' && chars[1] == '\n'
    }
}

/// Reads a comment: a `#` and the rest of the line.
pub fn comment(reader: &mut Reader) -> (r: Result<Comment, Error>)
    requires
        old(reader).wf(),
    ensures
        parses(
            *old(reader),
            *final(reader),
            r,
            comment_spec(old(reader).input(), old(reader).state.cursor as int),
        ),
{
    proof {
        reveal_strlit("#");
        assert("#"@ =~= seq!['#']);
        lemma_starts_with_one(reader.input(), reader.state.cursor as int, '#');
    }
    try_literal("#", reader)?;
    let start = reader.state;
    let mut value = String::new();
    assert(reader.input().slice(start.cursor as int, start.cursor as int) =~= Seq::<char>::empty());
    while !reader.is_eof() && !at_line_end(reader)
        invariant
            reader.wf(),
            reader.input() == old(reader).input(),
            start.cursor == old(reader).state.cursor + 1,
            start.cursor <= reader.state.cursor,
            start.pos == reader.input().pos_at(start.cursor as int),
            value@ == reader.input().slice(start.cursor as int, reader.state.cursor as int),
            comment_end(reader.input(), start.cursor as int) == comment_end(
                reader.input(),
                reader.state.cursor as int,
            ),
        decreases reader.buffer@.len() - reader.state.cursor,
    {
        let ghost k = reader.state.cursor as int;
        if let Some(c) = reader.read() {
            value.push(c);
            assert(reader.input().slice(start.cursor as int, k + 1) =~= reader.input().slice(
                start.cursor as int,
                k,
            ).push(c));
        }
    }
    Ok(Comment { value, source_info: SourceInfo::new(start.pos, reader.state.pos) })
}

/// The rule for a comment.
pub struct CommentRule;

impl Parser for CommentRule {
    type Output = Comment;

    open spec fn spec_parse(&self, input: Input, at: int) -> Parsed<CommentView> {
        comment_spec(input, at)
    }

    fn parse(&self, reader: &mut Reader) -> (r: Result<Comment, Error>) {
        comment(reader)
    }
}

/// What [`line_terminator`] does: it reads blanks, a comment if there is
/// one, and the end of the line, in place of which the end of the input
/// will do. Anything else where the line should end is a failure without a
/// way back.
pub open spec fn line_terminator_spec(input: Input, at: int) -> Parsed<LineTerminatorView> {
    let space0 = zero_or_more_spaces_spec(input, at);
    let comment = optional_spec(comment_spec(input, space0.end), space0.end);
    let line = newline_spec(input, comment.end);
    match (space0.result, comment.result) {
        (Ok(space0), Ok(found)) => if comment.end >= input.text.len() {
            Parsed::done(
                LineTerminatorView {
                    space0,
                    comment: found,
                    newline: WhitespaceView {
                        value: Seq::empty(),
                        source_info: input.span(comment.end, comment.end),
                    },
                },
                comment.end,
            )
        } else {
            match line.result {
                Ok(newline) => Parsed::done(
                    LineTerminatorView { space0, comment: found, newline },
                    line.end,
                ),
                Err(error) => Parsed::failed(
                    error.pos,
                    false,
                    ParseErrorView::Expecting { value: "line_terminator"@ },
                    line.end,
                ),
            }
        },
        (Err(error), _) => Parsed::refused(error, space0.end),
        (_, Err(error)) => Parsed::refused(error, comment.end),
    }
}

/// Reads the end of a line, with the blanks and the comment before it.
pub fn line_terminator(reader: &mut Reader) -> (r: Result<LineTerminator, Error>)
    requires
        old(reader).wf(),
    ensures
        parses(
            *old(reader),
            *final(reader),
            r,
            line_terminator_spec(old(reader).input(), old(reader).state.cursor as int),
        ),
{
    let space0 = zero_or_more_spaces(reader)?;
    let comment = optional(&CommentRule, reader)?;
    let nl = if reader.is_eof() {
        Whitespace {
            value: String::new(),
            source_info: SourceInfo::new(reader.state.pos, reader.state.pos),
        }
    } else {
        match newline(reader) {
            Ok(r) => r,
            Err(e) => {
                return Err(
                    Error::new(
                        e.pos,
                        false,
                        ParseError::Expecting { value: "line_terminator".to_owned() },
                    ),
                );
            },
        }
    };
    Ok(LineTerminator { space0, comment, newline: nl })
}

/// The rule for a line that holds nothing but blanks and a comment. Its
/// failures all leave the way open, so that a run of such lines ends where
/// something else starts.
pub struct BlankLine;

impl Parser for BlankLine {
    type Output = LineTerminator;

    open spec fn spec_parse(&self, input: Input, at: int) -> Parsed<LineTerminatorView> {
        let line = line_terminator_spec(input, at);
        match line.result {
            Ok(_) => line,
            Err(error) => Parsed::failed(error.pos, true, error.inner, line.end),
        }
    }

    fn parse(&self, reader: &mut Reader) -> (r: Result<LineTerminator, Error>) {
        match line_terminator(reader) {
            Ok(line) => Ok(line),
            Err(e) => Err(Error::new(e.pos, true, e.inner)),
        }
    }
}

/// What [`optional_line_terminators`] does: it reads the lines at `at`
/// that hold nothing but blanks and a comment, and never fails.
pub open spec fn optional_line_terminators_spec(input: Input, at: int) -> Parsed<
    Seq<LineTerminatorView>,
> {
    repeat_spec(BlankLine, input, at, Seq::empty())
}

/// Reads the blank lines and the comment lines at the cursor.
pub fn optional_line_terminators(reader: &mut Reader) -> (r: Result<Vec<LineTerminator>, Error>)
    requires
        old(reader).wf(),
    ensures
        parses(
            *old(reader),
            *final(reader),
            r,
            optional_line_terminators_spec(old(reader).input(), old(reader).state.cursor as int),
        ),
{
    zero_or_more(&BlankLine, reader)
}

/// What [`eof`] does: it succeeds at the end of the input and nowhere
/// else; the failure is one without a way back.
pub open spec fn eof_spec(input: Input, at: int) -> Parsed<()> {
    if at >= input.text.len() {
        Parsed::done((), at)
    } else {
        Parsed::failed(input.pos_at(at), false, ParseErrorView::Expecting { value: "eof"@ }, at)
    }
}

/// Makes sure that the input has been read to its end.
pub fn eof(reader: &mut Reader) -> (r: Result<(), Error>)
    requires
        old(reader).wf(),
    ensures
        parses(
            *old(reader),
            *final(reader),
            r,
            eof_spec(old(reader).input(), old(reader).state.cursor as int),
        ),
{
    if reader.is_eof() {
        Ok(())
    } else {
        Err(Error::new(reader.state.pos, false, ParseError::Expecting { value: "eof".to_owned() }))
    }
}

/// What [`null`] does: it reads `null`, or fails with the way left open
/// and nothing read.
pub open spec fn null_spec(input: Input, at: int) -> Parsed<()> {
    try_literal_spec(input, at, "null"@)
}

/// Reads the word `null`.
pub fn null(reader: &mut Reader) -> (r: Result<(), Error>)
    requires
        old(reader).wf(),
    ensures
        parses(
            *old(reader),
            *final(reader),
            r,
            null_spec(old(reader).input(), old(reader).state.cursor as int),
        ),
{
    try_literal("null", reader)
}

/// What [`try_literals`] does: it reads `first`, or else `second`, and
/// says which it was: `false` for the first, `true` for the second. Where
/// the input holds neither, the failure leaves the way open and nothing is
/// read.
pub open spec fn try_literals_spec(input: Input, at: int, first: Seq<char>, second: Seq<char>)
    -> Parsed<bool> {
    if input.starts_with(at, first) {
        Parsed::done(false, at + first.len())
    } else if input.starts_with(at, second) {
        Parsed::done(true, at + second.len())
    } else {
        Parsed::failed(
            input.pos_at(at),
            true,
            ParseErrorView::Expecting { value: first + " or "@ + second },
            at,
        )
    }
}

/// Reads one of two texts, the first if the input holds both, and says
/// whether it was the second.
pub fn try_literals(s1: &str, s2: &str, reader: &mut Reader) -> (r: Result<bool, Error>)
    requires
        old(reader).wf(),
    ensures
        parses(
            *old(reader),
            *final(reader),
            r,
            try_literals_spec(old(reader).input(), old(reader).state.cursor as int, s1@, s2@),
        ),
{
    let start = reader.state;
    match try_literal(s1, reader) {
        Ok(_) => Ok(false),
        Err(_) => match try_literal(s2, reader) {
            Ok(_) => Ok(true),
            Err(_) => {
                let mut value = s1.to_owned();
                value.append(" or ");
                value.append(s2);
                Err(Error::new(start.pos, true, ParseError::Expecting { value }))
            },
        },
    }
}

/// The letter `c` in lower case, where it is a capital letter of ASCII, and
/// `c` itself otherwise.
pub open spec fn lower(c: char) -> char {
    if 'A' <= c <= 'Z' {
        ((c as u32) + 32) as char
    } else {
        c
    }
}

/// Whether two names are the same but for the case of their ASCII letters.
pub open spec fn same_name(a: Seq<char>, b: Seq<char>) -> bool {
    &&& a.len() == b.len()
    &&& forall|i: int| 0 <= i < a.len() ==> lower(#[trigger] a[i]) == lower(b[i])
}

/// Whether two characters are the same but for their case.
fn same_letter(a: char, b: char) -> (same: bool)
    ensures
        same == (lower(a) == lower(b)),
{
    let x: u32 = if 'A' <= a && a <= 'Z' {
        a as u32 + 32
    } else {
        a as u32
    };
    let y: u32 = if 'A' <= b && b <= 'Z' {
        b as u32 + 32
    } else {
        b as u32
    };
    proof {
        vstd::utf8::char_u32_cast(lower(a), x);
        vstd::utf8::char_u32_cast(lower(b), y);
    }
    x == y
}

/// Whether two names are the same but for the case of their ASCII letters.
pub fn eq_ignore_case(a: &str, b: &str) -> (same: bool)
    ensures
        same == same_name(a@, b@),
{
    let x = chars_of(a);
    let y = chars_of(b);
    if x.len() != y.len() {
        return false;
    }
    let mut i: usize = 0;
    while i < x.len()
        invariant
            i <= x.len(),
            x@ == a@,
            y@ == b@,
            x.len() == y.len(),
            forall|j: int| 0 <= j < i ==> lower(#[trigger] a@[j]) == lower(b@[j]),
        decreases x.len() - i,
    {
        if !same_letter(x[i], y[i]) {
            return false;
        }
        i = i + 1;
    }
    true
}

} // verus!
