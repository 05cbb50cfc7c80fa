//! Unit tests of the router, the response builder, the decimal helpers,
//! and the argument scanner.

use tinyhttp::args::Args;
use tinyhttp::number::{dec_of, parse_dec};
use tinyhttp::parser::parse_request;
use tinyhttp::request::{Body, Header, Headers, Request, StartLine, Verb};
use tinyhttp::response::{ok_file, ok_text, render, short_response};
use tinyhttp::router::{route, Action, RouteError};
use tinyhttp::bytes::trim;

fn get_request(path: &[u8]) -> Request {
    Request(
        StartLine { verb: Verb::Get, path: path.to_vec() },
        Headers(Vec::new()),
        None,
    )
}

#[test]
fn echo_route_strips_the_prefix() {
    match route(get_request(b"/echo/xyz"), false).unwrap() {
        Action::Reply(resp) => {
            assert_eq!(resp.status, 200);
            assert_eq!(resp.content_type, Some(b"text/plain".to_vec()));
            assert_eq!(resp.body, b"xyz".to_vec());
        },
        _ => panic!("expected a reply"),
    }
}

#[test]
fn files_routes_need_the_directory() {
    match route(get_request(b"/files/a"), true).unwrap() {
        Action::ReadFile { name } => assert_eq!(name, b"a".to_vec()),
        _ => panic!("expected a file read"),
    }
    match route(get_request(b"/files/a"), false).unwrap() {
        Action::Reply(resp) => assert_eq!(resp.status, 404),
        _ => panic!("expected a reply"),
    }
}

#[test]
fn post_files_carries_the_body() {
    let req = Request(
        StartLine { verb: Verb::Post, path: b"/files/name".to_vec() },
        Headers(Vec::new()),
        Some(Body(b"data".to_vec())),
    );
    match route(req, true).unwrap() {
        Action::WriteFile { name, contents } => {
            assert_eq!(name, b"name".to_vec());
            assert_eq!(contents, b"data".to_vec());
        },
        _ => panic!("expected a file write"),
    }
}

#[test]
fn missing_user_agent_is_a_route_error() {
    let err = route(get_request(b"/user-agent"), false).unwrap_err();
    assert_eq!(err, RouteError::MissingUserAgent);
}

#[test]
fn user_agent_route_returns_first_value() {
    let req = Request(
        StartLine { verb: Verb::Get, path: b"/user-agent".to_vec() },
        Headers(vec![
            Header { key: b"User-Agent".to_vec(), value: b"one".to_vec() },
            Header { key: b"User-Agent".to_vec(), value: b"two".to_vec() },
        ]),
        None,
    );
    match route(req, false).unwrap() {
        Action::Reply(resp) => assert_eq!(resp.body, b"one".to_vec()),
        _ => panic!("expected a reply"),
    }
}

#[test]
fn post_to_root_is_404() {
    let req = Request(
        StartLine { verb: Verb::Post, path: b"/".to_vec() },
        Headers(Vec::new()),
        None,
    );
    match route(req, true).unwrap() {
        Action::Reply(resp) => assert_eq!(resp.status, 404),
        _ => panic!("expected a reply"),
    }
}

#[test]
fn render_emits_the_long_form() {
    let out = render(&ok_text(b"hi".to_vec()));
    assert_eq!(
        out,
        b"HTTP/1.1 200 OK\r\nContent-Type: text/plain\r\nContent-Length: 2\r\n\r\nhi".to_vec()
    );
    let out = render(&ok_file(Vec::new()));
    assert_eq!(
        out,
        b"HTTP/1.1 200 OK\r\nContent-Type: application/octet-stream\r\nContent-Length: 0\r\n\r\n"
            .to_vec()
    );
}

#[test]
fn render_emits_the_short_form_without_length() {
    let out = render(&short_response(200, b"OK".to_vec()));
    assert_eq!(out, b"HTTP/1.1 200 OK\r\n\r\n200 OK".to_vec());
}

#[test]
fn decimal_rendering_is_exact() {
    assert_eq!(dec_of(0), b"0".to_vec());
    assert_eq!(dec_of(105), b"105".to_vec());
    assert_eq!(dec_of(8192), b"8192".to_vec());
}

#[test]
fn decimal_parsing_is_exact() {
    assert_eq!(parse_dec(&b"0".to_vec(), 100), Some(0));
    assert_eq!(parse_dec(&b"007".to_vec(), 100), Some(7));
    assert_eq!(parse_dec(&b"100".to_vec(), 100), Some(100));
    assert_eq!(parse_dec(&b"101".to_vec(), 100), None);
    assert_eq!(parse_dec(&b"".to_vec(), 100), None);
    assert_eq!(parse_dec(&b"12a".to_vec(), 100), None);
    assert_eq!(parse_dec(&b"-1".to_vec(), 100), None);
    assert_eq!(parse_dec(&b"00000000000000000009".to_vec(), 100), Some(9));
}

#[test]
fn trim_strips_both_ends_only() {
    assert_eq!(trim(&b"  a b \t".to_vec()), b"a b".to_vec());
    assert_eq!(trim(&b"".to_vec()), Vec::<u8>::new());
    assert_eq!(trim(&b" \t ".to_vec()), Vec::<u8>::new());
    assert_eq!(trim(&b"x".to_vec()), b"x".to_vec());
}

#[test]
fn directory_flag_takes_the_following_value() {
    let args = vec![b"--directory".to_vec(), b"/tmp".to_vec()];
    assert_eq!(Args::from_list(&args).directory, Some(b"/tmp".to_vec()));
    let args = vec![b"-d".to_vec(), b"/srv".to_vec()];
    assert_eq!(Args::from_list(&args).directory, Some(b"/srv".to_vec()));
}

#[test]
fn unknown_arguments_are_ignored() {
    let args = vec![b"--verbose".to_vec(), b"--directory".to_vec(), b"/a".to_vec(), b"extra".to_vec()];
    assert_eq!(Args::from_list(&args).directory, Some(b"/a".to_vec()));
    assert_eq!(Args::from_list(&Vec::new()).directory, None);
}

#[test]
fn later_directory_flags_win() {
    let args = vec![
        b"--directory".to_vec(),
        b"/first".to_vec(),
        b"-d".to_vec(),
        b"/second".to_vec(),
    ];
    assert_eq!(Args::from_list(&args).directory, Some(b"/second".to_vec()));
}

#[test]
fn trailing_directory_flag_clears_the_choice() {
    let args = vec![b"--directory".to_vec(), b"/tmp".to_vec(), b"-d".to_vec()];
    assert_eq!(Args::from_list(&args).directory, None);
}

#[test]
fn routing_matches_the_parsed_request() {
    let input = b"GET /echo/route HTTP/1.1\r\n\r\n".to_vec();
    let (req, _) = parse_request(&input).unwrap();
    match route(req, false).unwrap() {
        Action::Reply(resp) => assert_eq!(resp.body, b"route".to_vec()),
        _ => panic!("expected a reply"),
    }
}
