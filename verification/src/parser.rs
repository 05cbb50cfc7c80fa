//! The message parser: segments a received byte buffer into CRLF-terminated
//! lines, reads the start line and the header block, and extracts the body
//! declared by `Content-Length`.

use vstd::prelude::*;

use crate::bytes::find_byte;
use crate::bytes::find_byte_spec;
use crate::bytes::find_crlf;
use crate::bytes::find_crlf_spec;
use crate::bytes::has_suffix;
use crate::bytes::ends_with;
use crate::bytes::lemma_find_byte_bounds;
use crate::bytes::lemma_find_crlf_bounds;
use crate::bytes::subcopy;
use crate::bytes::trim;
use crate::bytes::trim_spec;
use crate::number::all_digits;
use crate::number::dec_value;
use crate::number::parse_dec;
use crate::request::Body;
use crate::request::Header;
use crate::request::HeaderView;
use crate::request::Headers;
use crate::request::Request;
use crate::request::RequestView;
use crate::request::StartLine;
use crate::request::Verb;
use crate::request::lookup_spec;
use crate::request::verb_of;
use crate::text::content_length_key;
use crate::text::content_length_key_vec;
use crate::text::http_version_suffix;
use crate::text::http_version_suffix_vec;

verus! {

/// Longest accepted line, in bytes, not counting its CRLF terminator.
pub const MAX_LINE: usize = 8192;

/// Largest accepted `Content-Length` value, in bytes (100 MiB). A declared
/// length beyond it is refused like a non-numeric one.
pub const MAX_BODY: usize = 104857600;

/// Why a request could not be parsed from the received bytes.
#[derive(Clone, Copy, PartialEq, Eq, Structural, Debug)]
pub enum ParseError {
    /// The bytes ran out before a full line or a full body was seen.
    UnexpectedEof,
    /// A line exceeded [`MAX_LINE`] bytes.
    LineTooLong,
    /// The start line does not carry the version sentinel, or is missing
    /// its method or its target.
    BadStartLine,
    /// The method token is not a known variant.
    UnknownMethod,
    /// A header field has an empty name or an empty value after trimming.
    BadHeader,
    /// `Content-Length` is present but not an in-bounds decimal number.
    BadContentLength,
}

/// The next CRLF-terminated line of `s` starting at `pos`, without its
/// terminator, and the position just past the terminator.
pub open spec fn line_at(s: Seq<u8>, pos: int) -> Result<(Seq<u8>, int), ParseError> {
    match find_crlf_spec(s, pos) {
        None => Err(ParseError::UnexpectedEof),
        Some(i) => if i - pos > MAX_LINE as int {
            Err(ParseError::LineTooLong)
        } else {
            Ok((s.subrange(pos, i), i + 2))
        },
    }
}

/// Reads the next CRLF-terminated line of `v` starting at `pos`.
pub fn read_line(v: &Vec<u8>, pos: usize) -> (r: Result<(Vec<u8>, usize), ParseError>)
    requires
        pos <= v@.len(),
    ensures
        match r {
            Ok(lp) => {
                &&& line_at(v@, pos as int) == Ok::<(Seq<u8>, int), ParseError>(
                    (lp.0@, lp.1 as int),
                )
                &&& pos < lp.1 <= v@.len()
            },
            Err(e) => line_at(v@, pos as int) == Err::<(Seq<u8>, int), ParseError>(e),
        },
{
    match find_crlf(v, pos) {
        None => Err(ParseError::UnexpectedEof),
        Some(i) => {
            proof {
                lemma_find_crlf_bounds(v@, pos as int);
            }
            if i - pos > MAX_LINE {
                Err(ParseError::LineTooLong)
            } else {
                let n = v.len();
                let line = subcopy(v, pos, i);
                assert(i + 2 <= n);
                Ok((line, i + 2))
            }
        },
    }
}

/// The method and target denoted by a start line (its CRLF already
/// removed): the line must end with the version sentinel; what precedes the
/// sentinel is trimmed and split at its first space into the method token
/// and the target.
pub open spec fn parse_start_line_spec(line: Seq<u8>) -> Result<(Verb, Seq<u8>), ParseError> {
    if !has_suffix(line, http_version_suffix()) {
        Err(ParseError::BadStartLine)
    } else {
        let head = trim_spec(line.subrange(0, line.len() - http_version_suffix().len()));
        match find_byte_spec(head, 32, 0) {
            None => Err(ParseError::BadStartLine),
            Some(i) => match verb_of(head.subrange(0, i)) {
                None => Err(ParseError::UnknownMethod),
                Some(verb) => Ok((verb, head.subrange(i + 1, head.len() as int))),
            },
        }
    }
}

impl StartLine {
    /// Parses a start line (without its CRLF terminator).
    pub fn parse(line: &Vec<u8>) -> (r: Result<StartLine, ParseError>)
        ensures
            match r {
                Ok(sl) => parse_start_line_spec(line@) == Ok::<(Verb, Seq<u8>), ParseError>(
                    (sl.verb, sl.path@),
                ),
                Err(e) => parse_start_line_spec(line@) == Err::<(Verb, Seq<u8>), ParseError>(e),
            },
    {
        let sentinel = http_version_suffix_vec();
        if !ends_with(line, &sentinel) {
            return Err(ParseError::BadStartLine);
        }
        let head = trim(&subcopy(line, 0, line.len() - sentinel.len()));
        match find_byte(&head, 32, 0) {
            None => Err(ParseError::BadStartLine),
            Some(i) => {
                proof {
                    lemma_find_byte_bounds(head@, 32, 0);
                }
                let token = subcopy(&head, 0, i);
                match Verb::parse(&token) {
                    None => Err(ParseError::UnknownMethod),
                    Some(verb) => {
                        let path = subcopy(&head, i + 1, head.len());
                        Ok(StartLine { verb, path })
                    },
                }
            },
        }
    }
}

/// The field denoted by a header line (its CRLF already removed): the name
/// is what precedes the first colon, the value what follows it, both
/// trimmed; either being empty after trimming is a fault, as is a line
/// without a colon.
pub open spec fn parse_header_spec(line: Seq<u8>) -> Result<HeaderView, ParseError> {
    match find_byte_spec(line, 58, 0) {
        None => Err(ParseError::BadHeader),
        Some(i) => {
            let key = trim_spec(line.subrange(0, i));
            let value = trim_spec(line.subrange(i + 1, line.len() as int));
            if key.len() == 0 || value.len() == 0 {
                Err(ParseError::BadHeader)
            } else {
                Ok(HeaderView { key, value })
            }
        },
    }
}

impl Header {
    /// Parses a header line (without its CRLF terminator).
    pub fn parse(line: &Vec<u8>) -> (r: Result<Header, ParseError>)
        ensures
            match r {
                Ok(h) => parse_header_spec(line@) == Ok::<HeaderView, ParseError>(h@),
                Err(e) => parse_header_spec(line@) == Err::<HeaderView, ParseError>(e),
            },
    {
        match find_byte(line, 58, 0) {
            None => Err(ParseError::BadHeader),
            Some(i) => {
                proof {
                    lemma_find_byte_bounds(line@, 58, 0);
                }
                let n = line.len();
                let key = trim(&subcopy(line, 0, i));
                let value = trim(&subcopy(line, i + 1, n));
                if key.len() == 0 || value.len() == 0 {
                    Err(ParseError::BadHeader)
                } else {
                    Ok(Header { key, value })
                }
            },
        }
    }
}

/// The header block of `s` starting at `pos`, and the position just past
/// its terminator line. Lines are read until the first one without a colon
/// (the blank line, or any malformed line), which is consumed and ends the
/// block.
pub open spec fn parse_headers_spec(s: Seq<u8>, pos: int) -> Result<
    (Seq<HeaderView>, int),
    ParseError,
>
    decreases s.len() - pos,
        when pos >= 0
        via parse_headers_spec_dec
{
    match line_at(s, pos) {
        Err(e) => Err(e),
        Ok(lp) => {
            if find_byte_spec(lp.0, 58, 0) is Some {
                match parse_header_spec(lp.0) {
                    Err(e) => Err(e),
                    Ok(h) => match parse_headers_spec(s, lp.1) {
                        Err(e) => Err(e),
                        Ok(rest) => Ok((seq![h] + rest.0, rest.1)),
                    },
                }
            } else {
                Ok((Seq::empty(), lp.1))
            }
        },
    }
}

#[via_fn]
proof fn parse_headers_spec_dec(s: Seq<u8>, pos: int) {
    if find_crlf_spec(s, pos) is Some {
        lemma_find_crlf_bounds(s, pos);
    }
}

/// The header block read so far together with what remains: reading the
/// rest of the block from `cur` and appending it to `acc` gives the same
/// outcome as reading the whole block from `pos`.
pub open spec fn headers_resume(s: Seq<u8>, pos: int, acc: Seq<HeaderView>, cur: int) -> bool {
    match parse_headers_spec(s, cur) {
        Ok(rest) => parse_headers_spec(s, pos) == Ok::<(Seq<HeaderView>, int), ParseError>(
            (acc + rest.0, rest.1),
        ),
        Err(e) => parse_headers_spec(s, pos) == Err::<(Seq<HeaderView>, int), ParseError>(e),
    }
}

/// Reads the header block of `v` starting at `pos`.
pub fn parse_headers(v: &Vec<u8>, pos: usize) -> (r: Result<(Headers, usize), ParseError>)
    requires
        pos <= v@.len(),
    ensures
        match r {
            Ok(hp) => {
                &&& parse_headers_spec(v@, pos as int) == Ok::<(Seq<HeaderView>, int), ParseError>(
                    (hp.0@, hp.1 as int),
                )
                &&& hp.1 <= v@.len()
            },
            Err(e) => parse_headers_spec(v@, pos as int) == Err::<
                (Seq<HeaderView>, int),
                ParseError,
            >(e),
        },
{
    let mut acc = Headers::new();
    let mut cur: usize = pos;
    loop
        invariant
            pos <= cur <= v@.len(),
            headers_resume(v@, pos as int, acc@, cur as int),
        decreases v@.len() - cur,
    {
        match read_line(v, cur) {
            Err(e) => {
                proof {
                    assert(parse_headers_spec(v@, cur as int) == Err::<
                        (Seq<HeaderView>, int),
                        ParseError,
                    >(e));
                }
                return Err(e);
            },
            Ok((line, next)) => {
                if Header::is_header(&line) {
                    match Header::parse(&line) {
                        Err(e) => {
                            proof {
                                assert(parse_headers_spec(v@, cur as int) == Err::<
                                    (Seq<HeaderView>, int),
                                    ParseError,
                                >(e));
                            }
                            return Err(e);
                        },
                        Ok(h) => {
                            let ghost hv = h@;
                            let ghost prev = acc@;
                            acc.add(h);
                            proof {
                                match parse_headers_spec(v@, next as int) {
                                    Ok(rest) => {
                                        assert(parse_headers_spec(v@, cur as int) == Ok::<
                                            (Seq<HeaderView>, int),
                                            ParseError,
                                        >((seq![hv] + rest.0, rest.1)));
                                        assert(prev + (seq![hv] + rest.0) =~= acc@ + rest.0);
                                    },
                                    Err(e) => {
                                        assert(parse_headers_spec(v@, cur as int) == Err::<
                                            (Seq<HeaderView>, int),
                                            ParseError,
                                        >(e));
                                    },
                                }
                            }
                            cur = next;
                        },
                    }
                } else {
                    proof {
                        assert(parse_headers_spec(v@, cur as int) == Ok::<
                            (Seq<HeaderView>, int),
                            ParseError,
                        >((Seq::empty(), next as int)));
                        assert(acc@ + Seq::<HeaderView>::empty() =~= acc@);
                    }
                    return Ok((acc, next));
                }
            },
        }
    }
}

/// A header block that parses ends strictly past where it began and
/// within the buffer.
pub proof fn lemma_parse_headers_end_bounds(s: Seq<u8>, pos: int)
    requires
        pos >= 0,
        parse_headers_spec(s, pos) is Ok,
    ensures
        pos < parse_headers_spec(s, pos).unwrap().1 <= s.len(),
    decreases s.len() - pos,
{
    lemma_find_crlf_bounds(s, pos);
    let lp = line_at(s, pos).unwrap();
    if find_byte_spec(lp.0, 58, 0) is Some {
        lemma_parse_headers_end_bounds(s, lp.1);
    }
}

/// The request denoted by `s`, with the number of bytes consumed: one start
/// line, the header block, and, exactly when a valid `Content-Length` field
/// is present, that many bytes of body.
pub open spec fn parse_request_spec(s: Seq<u8>) -> Result<(RequestView, int), ParseError> {
    match line_at(s, 0) {
        Err(e) => Err(e),
        Ok(lp) => match parse_start_line_spec(lp.0) {
            Err(e) => Err(e),
            Ok(vp) => match parse_headers_spec(s, lp.1) {
                Err(e) => Err(e),
                Ok(he) => match lookup_spec(he.0, content_length_key()) {
                    None => Ok(
                        (RequestView { verb: vp.0, path: vp.1, headers: he.0, body: None }, he.1),
                    ),
                    Some(cl) => if !(cl.len() > 0 && all_digits(cl) && dec_value(cl)
                        <= MAX_BODY as int) {
                        Err(ParseError::BadContentLength)
                    } else if he.1 + dec_value(cl) > s.len() {
                        Err(ParseError::UnexpectedEof)
                    } else {
                        Ok(
                            (
                                RequestView {
                                    verb: vp.0,
                                    path: vp.1,
                                    headers: he.0,
                                    body: Some(s.subrange(he.1, he.1 + dec_value(cl))),
                                },
                                he.1 + dec_value(cl),
                            ),
                        )
                    },
                },
            },
        },
    }
}

/// Parses one request from the received bytes, returning it with the
/// number of bytes consumed.
pub fn parse_request(v: &Vec<u8>) -> (r: Result<(Request, usize), ParseError>)
    ensures
        match r {
            Ok(ru) => parse_request_spec(v@) == Ok::<(RequestView, int), ParseError>(
                (ru.0@, ru.1 as int),
            ),
            Err(e) => parse_request_spec(v@) == Err::<(RequestView, int), ParseError>(e),
        },
{
    let (line, after_start) = match read_line(v, 0) {
        Err(e) => {
            return Err(e);
        },
        Ok(lp) => lp,
    };
    let start = match StartLine::parse(&line) {
        Err(e) => {
            return Err(e);
        },
        Ok(sl) => sl,
    };
    let (headers, after_headers) = match parse_headers(v, after_start) {
        Err(e) => {
            return Err(e);
        },
        Ok(hp) => hp,
    };
    let key = content_length_key_vec();
    match headers.get(&key) {
        None => Ok((Request(start, headers, None), after_headers)),
        Some(cl) => {
            match parse_dec(&cl, MAX_BODY as u64) {
                None => Err(ParseError::BadContentLength),
                Some(n) => {
                    let n = n as usize;
                    if n > v.len() - after_headers {
                        Err(ParseError::UnexpectedEof)
                    } else {
                        let body = subcopy(v, after_headers, after_headers + n);
                        Ok((Request(start, headers, Some(Body(body))), after_headers + n))
                    }
                },
            }
        },
    }
}

} // verus!
