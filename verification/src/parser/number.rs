use crate::ast::{Float, FloatView, Number, NumberView};
use crate::parser::error::{Error, ParseError, ParseErrorView};
use crate::parser::outcome::{parses, Parsed};
use crate::parser::primitives::{lemma_starts_with_one, try_literal};
use crate::parser::reader::{lemma_run_end_unique, Input, Reader};
use vstd::prelude::*;

verus! {

/// Whether `c` is one of the ten decimal digits.
pub open spec fn is_digit(c: char) -> bool {
    '0' <= c <= '9'
}

/// The number that the digit `c` stands for.
pub open spec fn digit_value(c: char) -> nat {
    (c as nat - '0' as nat) as nat
}

/// The number that a sequence of digits stands for in base ten.
pub open spec fn decimal(digits: Seq<char>) -> nat
    decreases digits.len(),
{
    if digits.len() == 0 {
        0
    } else {
        decimal(digits.drop_last()) * 10 + digit_value(digits.last())
    }
}

/// The class of the decimal digits.
pub open spec fn digits() -> spec_fn(char) -> bool {
    |c: char| is_digit(c)
}

/// A longer sequence of digits stands for a number at least as large as its
/// beginning does.
pub proof fn lemma_decimal_grows(digits: Seq<char>, k: int)
    requires
        0 <= k <= digits.len(),
    ensures
        decimal(digits.take(k)) <= decimal(digits),
    decreases digits.len() - k,
{
    if k < digits.len() {
        lemma_decimal_grows(digits, k + 1);
        assert(digits.take(k + 1).drop_last() =~= digits.take(k));
    } else {
        assert(digits.take(k) =~= digits);
    }
}

/// Whether `c` is a decimal digit.
pub fn is_ascii_digit(c: char) -> (yes: bool)
    ensures
        yes == is_digit(c),
{
    '0' <= c && c <= '9'
}

/// The number that `digits` stand for, where it fits 64 bits.
pub fn decimal_u64(digits: &str) -> (value: Option<u64>)
    requires
        forall|i: int| 0 <= i < digits@.len() ==> is_digit(#[trigger] digits@[i]),
    ensures
        value is Some <==> decimal(digits@) <= u64::MAX,
        value matches Some(v) ==> v == decimal(digits@),
{
    let mut value: u64 = 0;
    proof {
        assert(digits@.take(0) =~= Seq::<char>::empty());
    }
    for c in iter: digits.chars()
        invariant
            iter.seq() == digits@,
            forall|i: int| 0 <= i < digits@.len() ==> is_digit(#[trigger] digits@[i]),
            value == decimal(digits@.take(iter.index() as int)),
    {
        let ghost k = iter.index() as int;
        proof {
            assert(digits@.take(k + 1).drop_last() =~= digits@.take(k));
            assert(digits@.take(k + 1).last() == c);
            lemma_decimal_grows(digits@, k + 1);
        }
        let d: u64 = (c as u32 - '0' as u32) as u64;
        if value > (u64::MAX - d) / 10 {
            return None;
        }
        value = value * 10 + d;
    }
    proof {
        assert(digits@.take(digits@.len() as int) =~= digits@);
    }
    Some(value)
}

/// What [`natural`] does: it reads a run of digits and returns the number
/// that they stand for. Where no digit stands at `at`, it fails and leaves
/// the way open, having read one character if there was one. A zero that
/// other digits follow, and a number that does not fit 64 bits, are
/// failures without a way back, reported after the first digit.
pub open spec fn natural_spec(input: Input, at: int) -> Parsed<u64> {
    let expecting = ParseErrorView::Expecting { value: "natural"@ };
    match input.at(at) {
        None => Parsed::failed(input.pos_at(at), true, expecting, at),
        Some(first) => {
            let end = input.run_end(at + 1, digits());
            let value = decimal(input.slice(at, end));
            if !is_digit(first) {
                Parsed::failed(input.pos_at(at), true, expecting, at + 1)
            } else if first == '0' && end > at + 1 {
                Parsed::failed(input.pos_at(at + 1), false, expecting, end)
            } else if value > u64::MAX {
                Parsed::failed(input.pos_at(at + 1), false, expecting, end)
            } else {
                Parsed::done(value as u64, end)
            }
        },
    }
}

/// Reads the digits at the cursor, up to the first character that is none.
fn read_digits(reader: &mut Reader) -> (s: String)
    requires
        old(reader).wf(),
    ensures
        final(reader).wf(),
        final(reader).input() == old(reader).input(),
        final(reader).state.cursor == old(reader).input().run_end(
            old(reader).state.cursor as int,
            digits(),
        ),
        old(reader).state.cursor <= final(reader).state.cursor,
        s@ == old(reader).input().slice(
            old(reader).state.cursor as int,
            final(reader).state.cursor as int,
        ),
        forall|i: int| 0 <= i < s@.len() ==> is_digit(#[trigger] s@[i]),
{
    let digit = |c: &char| -> (b: bool)
        ensures
            b == is_digit(*c),
        { is_ascii_digit(*c) };
    let s = reader.read_while(digit);
    proof {
        lemma_run_end_unique(
            old(reader).input(),
            old(reader).state.cursor as int,
            reader.state.cursor as int,
            digits(),
        );
    }
    s
}

/// Reads a natural number.
pub fn natural(reader: &mut Reader) -> (r: Result<u64, Error>)
    requires
        old(reader).wf(),
    ensures
        parses(
            *old(reader),
            *final(reader),
            r,
            natural_spec(old(reader).input(), old(reader).state.cursor as int),
        ),
{
    let start = reader.state;

    if reader.is_eof() {
        let inner = ParseError::Expecting { value: "natural".to_owned() };
        return Err(Error::new(start.pos, true, inner));
    }
    let first_digit = match reader.read() {
        Some(c) => c,
        None => {
            let inner = ParseError::Expecting { value: "natural".to_owned() };
            return Err(Error::new(start.pos, true, inner));
        },
    };
    if !is_ascii_digit(first_digit) {
        let inner = ParseError::Expecting { value: "natural".to_owned() };
        return Err(Error::new(start.pos, true, inner));
    }
    let save = reader.state;
    let s = read_digits(reader);

    // if the first digit is zero, you should not have any more digits
    if first_digit == '0' && s.as_str().unicode_len() > 0 {
        let inner = ParseError::Expecting { value: "natural".to_owned() };
        return Err(Error::new(save.pos, false, inner));
    }
    let text = reader.peek_back(start.cursor);
    proof {
        let input = reader.input();
        assert forall|i: int| 0 <= i < text@.len() implies is_digit(#[trigger] text@[i]) by {
            if i > 0 {
                assert(text@[i] == s@[i - 1]);
            }
        }
    }
    match decimal_u64(text.as_str()) {
        Some(value) => Ok(value),
        None => {
            let inner = ParseError::Expecting { value: "natural".to_owned() };
            Err(Error::new(save.pos, false, inner))
        },
    }
}

/// The text of a minus sign.
pub open spec fn minus() -> Seq<char> {
    seq!['-']
}

/// What [`integer`] does: it reads a minus sign, if there is one, and then
/// a natural number, whose failures are its own. A number that does not fit
/// 64 signed bits is a failure without a way back, reported where the
/// digits start.
pub open spec fn integer_spec(input: Input, at: int) -> Parsed<i64> {
    let negative = input.at(at) == Some('-');
    let from = if negative {
        at + 1
    } else {
        at
    };
    let digits = natural_spec(input, from);
    match digits.result {
        Err(error) => Parsed::refused(error, digits.end),
        Ok(n) => {
            let value = if negative {
                -(n as int)
            } else {
                n as int
            };
            if i64::MIN <= value <= i64::MAX {
                Parsed::done(value as i64, digits.end)
            } else {
                Parsed::failed(
                    input.pos_at(from),
                    false,
                    ParseErrorView::Expecting { value: "integer"@ },
                    digits.end,
                )
            }
        },
    }
}

/// The number `n`, or the one opposite to it, where it fits 64 signed bits.
pub fn signed(negative: bool, n: u64) -> (value: Option<i64>)
    ensures
        ({
            let exact = if negative {
                -(n as int)
            } else {
                n as int
            };
            &&& value is Some <==> i64::MIN <= exact <= i64::MAX
            &&& value matches Some(v) ==> v == exact
        }),
{
    if n <= 0x7fff_ffff_ffff_ffff {
        let v = n as i64;
        if negative {
            Some(-v)
        } else {
            Some(v)
        }
    } else if negative && n == 0x8000_0000_0000_0000 {
        Some(i64::MIN)
    } else {
        None
    }
}

/// Reads a minus sign, if one stands at the cursor, and says whether it did.
fn read_minus(reader: &mut Reader) -> (negative: bool)
    requires
        old(reader).wf(),
    ensures
        final(reader).wf(),
        final(reader).input() == old(reader).input(),
        negative == (old(reader).input().at(old(reader).state.cursor as int) == Some('-')),
        final(reader).state.cursor == (if negative {
            old(reader).state.cursor + 1
        } else {
            old(reader).state.cursor as int
        }),
{
    proof {
        reveal_strlit("-");
        assert("-"@ =~= minus());
        lemma_starts_with_one(reader.input(), reader.state.cursor as int, '-');
    }
    match try_literal("-", reader) {
        Err(_) => false,
        Ok(_) => true,
    }
}

/// Reads an integer.
pub fn integer(reader: &mut Reader) -> (r: Result<i64, Error>)
    requires
        old(reader).wf(),
    ensures
        parses(
            *old(reader),
            *final(reader),
            r,
            integer_spec(old(reader).input(), old(reader).state.cursor as int),
        ),
{
    let negative = read_minus(reader);
    let from = reader.state;
    let magnitude = natural(reader)?;
    match signed(negative, magnitude) {
        Some(value) => Ok(value),
        None => Err(
            Error::new(from.pos, false, ParseError::Expecting { value: "integer".to_owned() }),
        ),
    }
}

/// What [`number`] does. It reads a minus sign, if there is one, and the
/// digits that follow. Where there are none it fails and leaves the way
/// open; a zero before other digits is a failure without a way back. A
/// point after the digits must have digits of its own after it, and makes
/// the number a [`Float`], which keeps the text as it stands. Without a
/// point the number is an integer, or, where it does not fit 64 signed
/// bits, the text as it stands.
pub open spec fn number_spec(input: Input, at: int) -> Parsed<NumberView> {
    let negative = input.at(at) == Some('-');
    let from = if negative {
        at + 1
    } else {
        at
    };
    let end = input.run_end(from, digits());
    if end == from {
        Parsed::failed(
            input.pos_at(from),
            true,
            ParseErrorView::Expecting { value: "number"@ },
            from,
        )
    } else if end > from + 1 && input.text[from] == '0' {
        Parsed::failed(
            input.pos_at(end),
            false,
            ParseErrorView::Expecting { value: "natural"@ },
            end,
        )
    } else if input.at(end) == Some('.') {
        let last = input.run_end(end + 1, digits());
        if last == end + 1 {
            Parsed::failed(
                input.pos_at(end + 1),
                false,
                ParseErrorView::Expecting { value: "decimal digits"@ },
                end + 1,
            )
        } else {
            Parsed::done(NumberView::Float(FloatView { encoded: input.slice(at, last) }), last)
        }
    } else {
        let n = decimal(input.slice(from, end));
        let value = if negative {
            -(n as int)
        } else {
            n as int
        };
        if i64::MIN <= value <= i64::MAX {
            Parsed::done(NumberView::Integer(value as i64), end)
        } else {
            Parsed::done(NumberView::BigInteger(input.slice(at, end)), end)
        }
    }
}

/// Reads a number: an integer of any size, or a number with a fraction.
pub fn number(reader: &mut Reader) -> (r: Result<Number, Error>)
    requires
        old(reader).wf(),
    ensures
        parses(
            *old(reader),
            *final(reader),
            r,
            number_spec(old(reader).input(), old(reader).state.cursor as int),
        ),
{
    let start = reader.state;
    let negative = read_minus(reader);
    let integer_digits = read_digits(reader);
    let count = integer_digits.as_str().unicode_len();
    if count == 0 {
        let inner = ParseError::Expecting { value: "number".to_owned() };
        return Err(Error::new(reader.state.pos, true, inner));
        // if the first digit is zero, you should not have any more digits
    } else if count > 1 && integer_digits.as_str().get_char(0) == '0' {
        let inner = ParseError::Expecting { value: "natural".to_owned() };
        return Err(Error::new(reader.state.pos, false, inner));
    }
    // Float

    if reader.peek() == Some('.') {
        reader.read();
        let save = reader.state;
        let decimal_digits = read_digits(reader);
        if decimal_digits.as_str().unicode_len() == 0 {
            let inner = ParseError::Expecting { value: "decimal digits".to_owned() };
            return Err(Error::new(save.pos, false, inner));
        }
        let encoded = reader.peek_back(start.cursor);
        Ok(Number::Float(Float { encoded }))
        // Integer or BigInteger
    } else {
        let magnitude = decimal_u64(integer_digits.as_str());
        let value = match magnitude {
            Some(n) => signed(negative, n),
            None => None,
        };
        match value {
            Some(value) => Ok(Number::Integer(value)),
            None => Ok(Number::BigInteger(reader.peek_back(start.cursor))),
        }
    }
}

/// The number that the digits of an integer literal and its sign stand
/// for.
pub open spec fn literal_value(input: Input, at: int) -> int {
    let negative = input.at(at) == Some('-');
    let from = if negative {
        at + 1
    } else {
        at
    };
    let n = decimal(input.slice(from, input.run_end(from, digits())));
    if negative {
        -(n as int)
    } else {
        n as int
    }
}

/// An integer that does not fit 64 signed bits is kept as the text that
/// was read, sign and all: where [`number`] reads an integer literal, it
/// returns the number where it lies between -2^63 and 2^63 - 1, and
/// otherwise the text from where it started to where it stopped.
pub proof fn law_big_integer_kept(input: Input, at: int)
    requires
        0 <= at <= input.text.len(),
    ensures
        match number_spec(input, at).result {
            Ok(NumberView::Integer(n)) => n == literal_value(input, at),
            Ok(NumberView::BigInteger(text)) => {
                &&& text == input.slice(at, number_spec(input, at).end)
                &&& !(i64::MIN <= literal_value(input, at) <= i64::MAX)
            },
            _ => true,
        },
{
}

/// A number with a fraction is kept as the text that was read: `encoded`
/// is the input from where [`number`] started to where it stopped.
pub proof fn law_float_kept(input: Input, at: int)
    requires
        0 <= at <= input.text.len(),
    ensures
        number_spec(input, at).result matches Ok(NumberView::Float(float)) ==> float.encoded
            == input.slice(at, number_spec(input, at).end),
{
}

} // verus!
