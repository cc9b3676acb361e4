use crate::parser::error::{Error, ParseError, ParseErrorView};
use crate::parser::outcome::{parses, Parsed};
use crate::parser::reader::{Input, Reader};
use vstd::prelude::*;

verus! {

/// The index of the first place from `at` on where `mark` stands, or the
/// length of the input where it stands nowhere.
pub open spec fn find(input: Input, at: int, mark: Seq<char>) -> int
    decreases input.text.len() - at,
{
    if at < 0 || at >= input.text.len() || input.starts_with(at, mark) {
        if at < 0 || at >= input.text.len() {
            input.text.len() as int
        } else {
            at
        }
    } else {
        find(input, at + 1, mark)
    }
}

/// The index of the `>` that ends the tag in which `at` lies, or the length
/// of the input where the tag does not end. Inside an attribute value,
/// which stands between the quotes `quote`, a `>` does not end the tag.
pub open spec fn tag_end(input: Input, at: int, quote: Option<char>) -> int
    decreases input.text.len() - at,
{
    match input.at(at) {
        None => input.text.len() as int,
        Some(c) => match quote {
            Some(q) => tag_end(
                input,
                at + 1,
                if c == q {
                    None
                } else {
                    quote
                },
            ),
            None => if c == '>' {
                at
            } else if c == '"' || c == '\'' {
                tag_end(input, at + 1, Some(c))
            } else {
                tag_end(input, at + 1, None)
            },
        },
    }
}

/// Whether `c` is a blank of XML.
pub open spec fn is_blank(c: char) -> bool {
    c == ' ' || c == '\t' || c == '\n' || c == '\r'
}

/// The failure of a document that is ill formed at index `at`.
pub open spec fn ill_formed(input: Input, at: int) -> Parsed<()> {
    Parsed::failed(input.pos_at(at), false, ParseErrorView::XmlError, at)
}

/// Reading a document from index `at` on, `depth` elements being open. A
/// comment, a processing instruction, a document type and a CDATA section
/// are skipped; a start tag opens an element unless it ends with `/>`; an
/// end tag closes one. The document ends with the tag that closes its
/// first element. Before that element only blanks may stand as text. The
/// names of the tags are not compared.
pub open spec fn scan_spec(input: Input, at: int, depth: nat) -> Parsed<()>
    decreases input.text.len() - at,
    via scan_ends
{
    let len = input.text.len() as int;
    let close = tag_end(input, at + 1, None);
    if at < 0 || at >= len {
        ill_formed(input, at)
    } else if input.starts_with(at, "<!--"@) {
        let end = find(input, at + 4, "-->"@);
        if end >= len {
            ill_formed(input, len)
        } else {
            scan_spec(input, end + 3, depth)
        }
    } else if input.starts_with(at, "<![CDATA["@) {
        let end = find(input, at + 9, "]]>"@);
        if depth == 0 {
            ill_formed(input, at)
        } else if end >= len {
            ill_formed(input, len)
        } else {
            scan_spec(input, end + 3, depth)
        }
    } else if input.starts_with(at, "<?"@) {
        let end = find(input, at + 2, "?>"@);
        if end >= len {
            ill_formed(input, len)
        } else {
            scan_spec(input, end + 2, depth)
        }
    } else if input.text[at] == '<' {
        if input.at(at + 1) == Some('/') && depth == 0 {
            ill_formed(input, at)
        } else if close >= len {
            ill_formed(input, len)
        } else if input.at(at + 1) == Some('!') {
            scan_spec(input, close + 1, depth)
        } else if input.at(at + 1) == Some('/') {
            if depth == 1 {
                Parsed::done((), close + 1)
            } else {
                scan_spec(input, close + 1, (depth - 1) as nat)
            }
        } else if input.text[close - 1] == '/' {
            if depth == 0 {
                Parsed::done((), close + 1)
            } else {
                scan_spec(input, close + 1, depth)
            }
        } else {
            scan_spec(input, close + 1, depth + 1)
        }
    } else if depth == 0 && !is_blank(input.text[at]) {
        ill_formed(input, at)
    } else {
        scan_spec(input, at + 1, depth)
    }
}

#[via_fn]
proof fn scan_ends(input: Input, at: int, depth: nat) {
    if 0 <= at < input.text.len() {
        reveal_strlit("<!--");
        reveal_strlit("-->");
        reveal_strlit("<![CDATA[");
        reveal_strlit("]]>");
        reveal_strlit("<?");
        reveal_strlit("?>");
        lemma_tag_end_bounds(input, at + 1, None);
        lemma_find_bounds(input, at + 4, "-->"@);
        lemma_find_bounds(input, at + 9, "]]>"@);
        lemma_find_bounds(input, at + 2, "?>"@);
    }
}

/// What [`parse`] does: where a `<` stands at `at`, it reads a document as
/// [`scan_spec`] says and returns its text; otherwise the failure leaves
/// the way open and nothing is read.
pub open spec fn parse_spec(input: Input, at: int) -> Parsed<Seq<char>> {
    let scan = scan_spec(input, at, 0);
    if input.at(at) != Some('<') {
        Parsed::failed(input.pos_at(at), true, ParseErrorView::XmlError, at)
    } else {
        match scan.result {
            Ok(_) => Parsed::done(input.slice(at, scan.end), scan.end),
            Err(error) => Parsed::refused(error, scan.end),
        }
    }
}

/// The `>` that ends a tag lies after the point from which it is looked
/// for, or the input ends first.
pub proof fn lemma_tag_end_bounds(input: Input, at: int, quote: Option<char>)
    requires
        0 <= at,
    ensures
        at <= tag_end(input, at, quote) <= input.text.len() || (at > input.text.len() && tag_end(
            input,
            at,
            quote,
        ) == input.text.len()),
        tag_end(input, at, quote) < input.text.len() ==> input.text[tag_end(input, at, quote)]
            == '>',
    decreases input.text.len() - at,
{
    if at < input.text.len() {
        let c = input.text[at];
        match quote {
            Some(q) => {
                lemma_tag_end_bounds(
                    input,
                    at + 1,
                    if c == q {
                        None
                    } else {
                        quote
                    },
                );
            },
            None => {
                if c == '>' {
                } else if c == '"' || c == '\'' {
                    lemma_tag_end_bounds(input, at + 1, Some(c));
                } else {
                    lemma_tag_end_bounds(input, at + 1, None);
                }
            },
        }
    }
}

/// A mark is found at or after the point from which it is looked for, or
/// the input ends first.
pub proof fn lemma_find_bounds(input: Input, at: int, mark: Seq<char>)
    requires
        0 <= at,
    ensures
        at <= find(input, at, mark) <= input.text.len() || (at > input.text.len() && find(
            input,
            at,
            mark,
        ) == input.text.len()),
        find(input, at, mark) < input.text.len() ==> input.starts_with(
            find(input, at, mark),
            mark,
        ),
    decreases input.text.len() - at,
{
    if at < input.text.len() && !input.starts_with(at, mark) {
        lemma_find_bounds(input, at + 1, mark);
    }
}

/// Moves the cursor to the next place where `mark` stands, or to the end
/// of the input.
fn skip_to(reader: &mut Reader, mark: &str)
    requires
        old(reader).wf(),
    ensures
        final(reader).wf(),
        final(reader).input() == old(reader).input(),
        old(reader).state.cursor <= final(reader).state.cursor,
        final(reader).state.cursor == find(
            old(reader).input(),
            old(reader).state.cursor as int,
            mark@,
        ),
{
    while !reader.is_eof() && !reader.looking_at(mark)
        invariant
            reader.wf(),
            reader.input() == old(reader).input(),
            old(reader).state.cursor <= reader.state.cursor,
            find(old(reader).input(), old(reader).state.cursor as int, mark@) == find(
                reader.input(),
                reader.state.cursor as int,
                mark@,
            ),
        decreases reader.buffer@.len() - reader.state.cursor,
    {
        reader.read();
    }
}

/// Reads `open`, which stands at the cursor, and everything up to and with
/// the next `close`, which must be there.
fn skip_past(reader: &mut Reader, open: &str, close: &str) -> (r: Result<(), Error>)
    requires
        old(reader).wf(),
        old(reader).input().starts_with(old(reader).state.cursor as int, open@),
    ensures
        final(reader).wf(),
        final(reader).input() == old(reader).input(),
        old(reader).state.cursor <= final(reader).state.cursor,
        ({
            let input = old(reader).input();
            let end = find(input, old(reader).state.cursor + open@.len(), close@);
            match r {
                Ok(_) => end < input.text.len() && final(reader).state.cursor == end + close@.len(),
                Err(error) => {
                    &&& end >= input.text.len()
                    &&& final(reader).state.cursor == input.text.len()
                    &&& error.deep_view() == (crate::parser::error::ErrorView {
                        pos: input.pos_at(input.text.len() as int),
                        recoverable: false,
                        inner: ParseErrorView::XmlError,
                    })
                },
            }
        }),
{
    let _ = crate::parser::primitives::literal(open, reader);
    proof {
        lemma_find_bounds(reader.input(), reader.state.cursor as int, close@);
    }
    skip_to(reader, close);
    if reader.is_eof() {
        return Err(Error::new(reader.state.pos, false, ParseError::XmlError));
    }
    let _ = crate::parser::primitives::literal(close, reader);
    Ok(())
}

/// Moves the cursor to the `>` that ends the tag in which it stands, or to
/// the end of the input.
fn skip_tag(reader: &mut Reader)
    requires
        old(reader).wf(),
    ensures
        final(reader).wf(),
        final(reader).input() == old(reader).input(),
        old(reader).state.cursor <= final(reader).state.cursor,
        final(reader).state.cursor == tag_end(
            old(reader).input(),
            old(reader).state.cursor as int,
            None,
        ),
{
    let mut quote: Option<char> = None;
    loop
        invariant_except_break
            tag_end(old(reader).input(), old(reader).state.cursor as int, None) == tag_end(
                reader.input(),
                reader.state.cursor as int,
                quote,
            ),
        invariant
            reader.wf(),
            reader.input() == old(reader).input(),
            old(reader).state.cursor <= reader.state.cursor,
        ensures
            reader.state.cursor == tag_end(
                old(reader).input(),
                old(reader).state.cursor as int,
                None,
            ),
        decreases reader.buffer@.len() - reader.state.cursor,
    {
        match reader.peek() {
            None => {
                break ;
            },
            Some(c) => {
                match quote {
                    Some(q) => {
                        if c == q {
                            quote = None;
                        }
                    },
                    None => {
                        if c == '>' {
                            break ;
                        } else if c == '"' || c == '\'' {
                            quote = Some(c);
                        }
                    },
                }
                reader.read();
            },
        }
    }
}

/// The failure of a document that is ill formed at the cursor.
fn fail(reader: &Reader) -> (r: Result<String, Error>)
    requires
        reader.wf(),
    ensures
        r matches Err(error) && error.deep_view() == (crate::parser::error::ErrorView {
            pos: reader.input().pos_at(reader.state.cursor as int),
            recoverable: false,
            inner: ParseErrorView::XmlError,
        }),
{
    Err(Error::new(reader.state.pos, false, ParseError::XmlError))
}

/// Reads an XML document and returns its text.
#[verifier::rlimit(50)]
pub fn parse(reader: &mut Reader) -> (r: Result<String, Error>)
    requires
        old(reader).wf(),
    ensures
        parses(
            *old(reader),
            *final(reader),
            r,
            parse_spec(old(reader).input(), old(reader).state.cursor as int),
        ),
        r is Ok ==> old(reader).state.cursor < final(reader).state.cursor,
{
    let start = reader.state;
    if reader.peek() != Some('<') {
        return Err(Error::new(start.pos, true, ParseError::XmlError));
    }
    let mut depth: usize = 0;
    let ghost input = reader.input();
    let ghost from = start.cursor as int;
    loop
        invariant_except_break
            scan_spec(input, from, 0) == scan_spec(
                input,
                reader.state.cursor as int,
                depth as nat,
            ),
        invariant
            reader.wf(),
            reader.input() == input,
            input == old(reader).input(),
            start == old(reader).state,
            from == start.cursor,
            from <= reader.state.cursor,
            input.at(from) == Some('<'),
            depth <= reader.state.cursor - from,
        ensures
            from < reader.state.cursor,
            scan_spec(input, from, 0) == Parsed::done((), reader.state.cursor as int),
        decreases reader.buffer@.len() - reader.state.cursor,
    {
        let ghost at = reader.state.cursor as int;
        proof {
            reveal_strlit("<!--");
            reveal_strlit("-->");
            reveal_strlit("<![CDATA[");
            reveal_strlit("]]>");
            reveal_strlit("<?");
            reveal_strlit("?>");
            lemma_tag_end_bounds(input, at + 1, None);
            lemma_find_bounds(input, at + 4, "-->"@);
            lemma_find_bounds(input, at + 9, "]]>"@);
            lemma_find_bounds(input, at + 2, "?>"@);
        }
        if reader.is_eof() {
            return fail(reader);
        } else if reader.looking_at("<!--") {
            skip_past(reader, "<!--", "-->")?;
        } else if reader.looking_at("<![CDATA[") {
            if depth == 0 {
                return fail(reader);
            }
            skip_past(reader, "<![CDATA[", "]]>")?;
        } else if reader.looking_at("<?") {
            skip_past(reader, "<?", "?>")?;
        } else if reader.peek() == Some('<') {
            let tag = reader.state;
            reader.read();
            let second = reader.peek();
            if second == Some('/') && depth == 0 {
                reader.state = tag;
                return fail(reader);
            }
            skip_tag(reader);
            if reader.is_eof() {
                return fail(reader);
            }
            let slash = reader.buffer[reader.state.cursor - 1] == '/';
            reader.read();
            if second == Some('!') {
            } else if second == Some('/') {
                if depth == 1 {
                    break ;
                }
                depth = depth - 1;
            } else if slash {
                if depth == 0 {
                    break ;
                }
            } else {
                depth = depth + 1;
            }
        } else {
            match reader.peek() {
                Some(c) => {
                    if depth == 0 && !(c == ' ' || c == '\t' || c == '\n' || c == '\r') {
                        return fail(reader);
                    }
                    reader.read();
                },
                None => {},
            }
        }
    }
    Ok(reader.peek_back(start.cursor))
}

} // verus!
