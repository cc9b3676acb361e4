use crate::parser::reader::{Input, Reader};
use vstd::prelude::*;

verus! {

/// The six bits that `c` stands for in base 64, if it is a character of
/// that alphabet.
pub open spec fn sextet(c: char) -> Option<u8> {
    if 'A' <= c <= 'Z' {
        Some((c as u32 - 'A' as u32) as u8)
    } else if 'a' <= c <= 'z' {
        Some((c as u32 - 'a' as u32 + 26) as u8)
    } else if '0' <= c <= '9' {
        Some((c as u32 - '0' as u32 + 52) as u8)
    } else if c == '+' {
        Some(62u8)
    } else if c == '/' {
        Some(63u8)
    } else {
        None
    }
}

/// The six bits that `c` stands for in base 64.
pub fn value(c: char) -> (v: Option<u8>)
    ensures
        v == sextet(c),
        v matches Some(bits) ==> bits < 64,
{
    if 'A' <= c && c <= 'Z' {
        Some((c as u32 - 'A' as u32) as u8)
    } else if 'a' <= c && c <= 'z' {
        Some((c as u32 - 'a' as u32 + 26) as u8)
    } else if '0' <= c && c <= '9' {
        Some((c as u32 - '0' as u32 + 52) as u8)
    } else if c == '+' {
        Some(62)
    } else if c == '/' {
        Some(63)
    } else {
        None
    }
}

/// Whether `c` is a blank that may stand between the characters of a text
/// in base 64.
pub open spec fn is_filler(c: char) -> bool {
    c == ' ' || c == '\n' || c == '\t'
}

/// The bytes that a group of sextets stands for: three bytes for four
/// sextets, two for three, one for two, none for fewer. The bits that are
/// left over are dropped.
pub open spec fn group_bytes(group: Seq<u8>) -> Seq<u8> {
    if group.len() >= 4 {
        seq![
            ((group[0] as int * 4 + group[1] as int / 16) % 256) as u8,
            (((group[1] as int % 16) * 16 + group[2] as int / 4) % 256) as u8,
            (((group[2] as int % 4) * 64 + group[3] as int) % 256) as u8,
        ]
    } else if group.len() == 3 {
        seq![
            ((group[0] as int * 4 + group[1] as int / 16) % 256) as u8,
            (((group[1] as int % 16) * 16 + group[2] as int / 4) % 256) as u8,
        ]
    } else if group.len() == 2 {
        seq![((group[0] as int * 4 + group[1] as int / 16) % 256) as u8]
    } else {
        Seq::empty()
    }
}

/// Where the run of `=` that starts at `at` ends.
pub open spec fn padding_end(input: Input, at: int) -> int {
    input.run_end(at, |c: char| c == '=')
}

/// Reading a text in base 64 from index `at` on: `bytes` are the bytes
/// decoded so far, `group` the sextets that do not make a byte yet. The
/// text ends with padding, which is read, or before the first character
/// that is neither of the alphabet nor a blank. The result is the bytes and
/// the index where reading stops.
pub open spec fn decode_spec(input: Input, at: int, bytes: Seq<u8>, group: Seq<u8>) -> (
    Seq<u8>,
    int,
)
    decreases input.text.len() - at,
{
    match input.at(at) {
        None => (bytes + group_bytes(group), at),
        Some(c) => if c == '=' {
            (bytes + group_bytes(group), padding_end(input, at))
        } else if is_filler(c) {
            decode_spec(input, at + 1, bytes, group)
        } else {
            match sextet(c) {
                None => (bytes + group_bytes(group), at),
                Some(bits) => if group.len() >= 3 {
                    decode_spec(input, at + 1, bytes + group_bytes(group.push(bits)), Seq::empty())
                } else {
                    decode_spec(input, at + 1, bytes, group.push(bits))
                },
            }
        },
    }
}

/// Appends to `bytes` the bytes that `group` stands for.
fn push_group(bytes: &mut Vec<u8>, group: &Vec<u8>)
    requires
        forall|i: int| 0 <= i < group@.len() ==> group@[i] < 64,
    ensures
        final(bytes)@ == old(bytes)@ + group_bytes(group@),
{
    let ghost before = bytes@;
    if group.len() >= 2 {
        let a = group[0] as u32;
        let b = group[1] as u32;
        bytes.push((a * 4 + b / 16) as u8);
        if group.len() >= 3 {
            let c = group[2] as u32;
            bytes.push(((b % 16) * 16 + c / 4) as u8);
            if group.len() >= 4 {
                let d = group[3] as u32;
                bytes.push(((c % 4) * 64 + d) as u8);
            }
        }
    }
    assert(bytes@ =~= before + group_bytes(group@));
}

/// Reads a text in base 64 and returns the bytes that it stands for. It
/// never fails: it stops before the first character that does not belong
/// to the text.
pub fn parse(reader: &mut Reader) -> (bytes: Vec<u8>)
    requires
        old(reader).wf(),
    ensures
        final(reader).wf(),
        final(reader).input() == old(reader).input(),
        old(reader).state.cursor <= final(reader).state.cursor,
        (bytes@, final(reader).state.cursor as int) == decode_spec(
            old(reader).input(),
            old(reader).state.cursor as int,
            Seq::empty(),
            Seq::empty(),
        ),
{
    let mut bytes: Vec<u8> = Vec::new();
    let mut group: Vec<u8> = Vec::new();
    let ghost input = reader.input();
    let ghost from = reader.state.cursor as int;
    loop
        invariant_except_break
            decode_spec(input, from, Seq::empty(), Seq::empty()) == decode_spec(
                input,
                reader.state.cursor as int,
                bytes@,
                group@,
            ),
        invariant
            reader.wf(),
            reader.input() == input,
            input == old(reader).input(),
            from == old(reader).state.cursor,
            from <= reader.state.cursor,
            group@.len() <= 3,
            forall|i: int| 0 <= i < group@.len() ==> group@[i] < 64,
        ensures
            decode_spec(input, from, Seq::empty(), Seq::empty()) == (
                bytes@ + group_bytes(group@),
                reader.state.cursor as int,
            ),
        decreases reader.buffer@.len() - reader.state.cursor,
    {
        match reader.peek() {
            None => {
                break ;
            },
            Some(c) => {
                if c == '=' {
                    let pad = |c: &char| -> (b: bool)
                        ensures
                            b == (*c == '='),
                        { *c == '=' };
                    let ghost at = reader.state.cursor as int;
                    let _ = reader.read_while(pad);
                    proof {
                        crate::parser::reader::lemma_run_end_unique(
                            input,
                            at,
                            reader.state.cursor as int,
                            |c: char| c == '=',
                        );
                    }
                    break ;
                } else if c == ' ' || c == '\n' || c == '\t' {
                    reader.read();
                } else {
                    match value(c) {
                        None => {
                            break ;
                        },
                        Some(bits) => {
                            reader.read();
                            group.push(bits);
                            if group.len() == 4 {
                                push_group(&mut bytes, &group);
                                group = Vec::new();
                            }
                        },
                    }
                }
            },
        }
    }
    push_group(&mut bytes, &group);
    bytes
}

} // verus!
