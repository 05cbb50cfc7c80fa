//! Unit tests of the message parser: line reading, start lines, header
//! fields, bodies, and every parse failure.

use tinyhttp::parser::{parse_request, read_line, ParseError, MAX_LINE};
use tinyhttp::request::{Header, Headers, StartLine, Verb};

#[test]
fn simple_request_parses() {
    let input = b"GET / HTTP/1.1\r\nHost: x\r\n\r\n".to_vec();
    let (req, used) = parse_request(&input).unwrap();
    assert!(matches!(req.0.verb, Verb::Get));
    assert_eq!(req.0.path, b"/".to_vec());
    assert_eq!(req.1 .0.len(), 1);
    assert_eq!(req.1 .0[0].key, b"Host".to_vec());
    assert_eq!(req.1 .0[0].value, b"x".to_vec());
    assert!(req.2.is_none());
    assert_eq!(used, input.len());
}

#[test]
fn request_without_length_consumes_through_blank_line() {
    let head = b"GET / HTTP/1.1\r\nHost: x\r\n\r\n";
    let input = [head.as_slice(), b"leftover bytes"].concat();
    let (req, used) = parse_request(&input).unwrap();
    assert!(req.2.is_none());
    assert_eq!(used, head.len());
}

#[test]
fn declared_length_sets_body_length() {
    let input = b"POST /files/a HTTP/1.1\r\nContent-Length: 5\r\n\r\nworld!!".to_vec();
    let (req, used) = parse_request(&input).unwrap();
    let body = req.2.expect("a declared length implies a body");
    assert_eq!(body.0.len(), 5);
    assert_eq!(body.0, b"world".to_vec());
    assert_eq!(used, input.len() - 2);
}

#[test]
fn header_without_colon_ends_the_block() {
    let input = b"GET / HTTP/1.1\r\nContent-Length: 3\r\nnocolon\r\nabcrest".to_vec();
    let (req, _) = parse_request(&input).unwrap();
    assert_eq!(req.1 .0.len(), 1);
    assert_eq!(req.2.unwrap().0, b"abc".to_vec());
}

#[test]
fn header_without_colon_without_length_means_no_body() {
    let input = b"GET / HTTP/1.1\r\nnocolon\r\nignored".to_vec();
    let (req, used) = parse_request(&input).unwrap();
    assert_eq!(req.1 .0.len(), 0);
    assert!(req.2.is_none());
    assert_eq!(used, b"GET / HTTP/1.1\r\nnocolon\r\n".len());
}

#[test]
fn missing_terminator_is_eof() {
    let input = b"GET / HTTP/1.1\r\nHost: x".to_vec();
    assert_eq!(parse_request(&input).unwrap_err(), ParseError::UnexpectedEof);
}

#[test]
fn short_body_is_eof() {
    let input = b"GET / HTTP/1.1\r\nContent-Length: 9\r\n\r\nabc".to_vec();
    assert_eq!(parse_request(&input).unwrap_err(), ParseError::UnexpectedEof);
}

#[test]
fn overlong_line_is_refused() {
    let mut input = vec![97u8; MAX_LINE + 1];
    input.extend_from_slice(b"\r\n\r\n");
    assert_eq!(parse_request(&input).unwrap_err(), ParseError::LineTooLong);
}

#[test]
fn missing_version_is_bad_start_line() {
    let input = b"GET / HTTP/1.0\r\n\r\n".to_vec();
    assert_eq!(parse_request(&input).unwrap_err(), ParseError::BadStartLine);
}

#[test]
fn missing_target_is_bad_start_line() {
    let input = b"GET HTTP/1.1\r\n\r\n".to_vec();
    assert_eq!(parse_request(&input).unwrap_err(), ParseError::BadStartLine);
}

#[test]
fn unknown_method_is_refused() {
    let input = b"PUT / HTTP/1.1\r\n\r\n".to_vec();
    assert_eq!(parse_request(&input).unwrap_err(), ParseError::UnknownMethod);
}

#[test]
fn empty_header_name_is_refused() {
    let input = b"GET / HTTP/1.1\r\n : value\r\n\r\n".to_vec();
    assert_eq!(parse_request(&input).unwrap_err(), ParseError::BadHeader);
}

#[test]
fn non_numeric_length_is_refused() {
    let input = b"GET / HTTP/1.1\r\nContent-Length: ten\r\n\r\n".to_vec();
    assert_eq!(parse_request(&input).unwrap_err(), ParseError::BadContentLength);
}

#[test]
fn oversized_length_is_refused() {
    let input = b"GET / HTTP/1.1\r\nContent-Length: 999999999999\r\n\r\n".to_vec();
    assert_eq!(parse_request(&input).unwrap_err(), ParseError::BadContentLength);
}

#[test]
fn read_line_strips_the_terminator() {
    let input = b"one\r\ntwo\r\n".to_vec();
    let (line, next) = read_line(&input, 0).unwrap();
    assert_eq!(line, b"one".to_vec());
    assert_eq!(next, 5);
    let (line2, next2) = read_line(&input, next).unwrap();
    assert_eq!(line2, b"two".to_vec());
    assert_eq!(next2, input.len());
}

#[test]
fn start_line_splits_on_first_space_only() {
    let sl = StartLine::parse(&b"GET /echo/a b HTTP/1.1".to_vec()).unwrap();
    assert!(matches!(sl.verb, Verb::Get));
    assert_eq!(sl.path, b"/echo/a b".to_vec());
}

#[test]
fn start_line_trims_around_the_fields() {
    let sl = StartLine::parse(&b"  POST /x  HTTP/1.1".to_vec()).unwrap();
    assert!(matches!(sl.verb, Verb::Post));
    assert_eq!(sl.path, b"/x".to_vec());
}

#[test]
fn header_parse_splits_at_first_colon_and_trims() {
    let h = Header::parse(&b"Host:  example.com:8080  ".to_vec()).unwrap();
    assert_eq!(h.key, b"Host".to_vec());
    assert_eq!(h.value, b"example.com:8080".to_vec());
}

#[test]
fn header_parse_refuses_empty_pieces() {
    assert_eq!(Header::parse(&b"  : v".to_vec()).unwrap_err(), ParseError::BadHeader);
    assert_eq!(Header::parse(&b"k:   ".to_vec()).unwrap_err(), ParseError::BadHeader);
    assert_eq!(Header::parse(&b"no colon".to_vec()).unwrap_err(), ParseError::BadHeader);
}

#[test]
fn header_lookup_takes_first_insertion() {
    let mut hs = Headers::new();
    hs.add(Header { key: b"K".to_vec(), value: b"first".to_vec() });
    hs.add(Header { key: b"K".to_vec(), value: b"second".to_vec() });
    assert_eq!(hs.get(&b"K".to_vec()), Some(b"first".to_vec()));
    assert_eq!(hs.get(&b"Missing".to_vec()), None);
}

#[test]
fn header_names_are_case_sensitive() {
    let input = b"GET / HTTP/1.1\r\ncontent-length: 3\r\n\r\nabc".to_vec();
    let (req, _) = parse_request(&input).unwrap();
    assert!(req.2.is_none());
}

#[test]
fn verb_tokens_resolve_exactly() {
    assert!(matches!(Verb::parse(&b"GET".to_vec()), Some(Verb::Get)));
    assert!(matches!(Verb::parse(&b"POST".to_vec()), Some(Verb::Post)));
    assert!(Verb::parse(&b"get".to_vec()).is_none());
    assert!(Verb::parse(&b"GETX".to_vec()).is_none());
}
