//! End-to-end scenarios: request bytes in, response bytes (or file-system
//! actions) out.

use tinyhttp::worker::{handle_bytes, read_file_response, write_file_response, Step};

fn expect_done(input: &[u8], has_dir: bool) -> Vec<u8> {
    match handle_bytes(&input.to_vec(), has_dir) {
        Step::Done(bytes) => bytes,
        _ => panic!("expected a finished response"),
    }
}

#[test]
fn root_returns_200_ok() {
    let out = expect_done(b"GET / HTTP/1.1\r\nHost: x\r\n\r\n", false);
    assert!(out.starts_with(b"HTTP/1.1 200 OK\r\n"));
    assert!(out.ends_with(b"200 OK"));
    assert_eq!(out, b"HTTP/1.1 200 OK\r\n\r\n200 OK".to_vec());
}

#[test]
fn echo_returns_suffix_verbatim() {
    let out = expect_done(b"GET /echo/abc HTTP/1.1\r\n\r\n", false);
    assert_eq!(
        out,
        b"HTTP/1.1 200 OK\r\nContent-Type: text/plain\r\nContent-Length: 3\r\n\r\nabc".to_vec()
    );
}

#[test]
fn echo_keeps_inner_spaces() {
    let out = expect_done(b"GET /echo/a c HTTP/1.1\r\n\r\n", false);
    assert_eq!(
        out,
        b"HTTP/1.1 200 OK\r\nContent-Type: text/plain\r\nContent-Length: 3\r\n\r\na c".to_vec()
    );
}

#[test]
fn echo_empty_suffix_has_length_zero() {
    let out = expect_done(b"GET /echo/ HTTP/1.1\r\n\r\n", false);
    assert_eq!(
        out,
        b"HTTP/1.1 200 OK\r\nContent-Type: text/plain\r\nContent-Length: 0\r\n\r\n".to_vec()
    );
}

#[test]
fn user_agent_is_reflected() {
    let out = expect_done(b"GET /user-agent HTTP/1.1\r\nUser-Agent: foo/1.0\r\n\r\n", false);
    assert_eq!(
        out,
        b"HTTP/1.1 200 OK\r\nContent-Type: text/plain\r\nContent-Length: 7\r\n\r\nfoo/1.0".to_vec()
    );
}

#[test]
fn user_agent_reflection_ignores_other_headers() {
    let a = expect_done(b"GET /user-agent HTTP/1.1\r\nUser-Agent: same/1\r\n\r\n", false);
    let b = expect_done(
        b"GET /user-agent HTTP/1.1\r\nHost: elsewhere\r\nUser-Agent: same/1\r\nAccept: */*\r\n\r\n",
        true,
    );
    assert_eq!(a, b);
}

#[test]
fn missing_user_agent_is_500() {
    let out = expect_done(b"GET /user-agent HTTP/1.1\r\nHost: x\r\n\r\n", false);
    assert_eq!(
        out,
        b"HTTP/1.1 500 Internal Server Error\r\n\r\n500 Internal Server Error".to_vec()
    );
}

#[test]
fn unknown_path_is_404() {
    let out = expect_done(b"GET /nope HTTP/1.1\r\n\r\n", false);
    assert_eq!(out, b"HTTP/1.1 404 Not Found\r\n\r\n404 Not Found".to_vec());
}

#[test]
fn bad_version_is_500_not_a_crash() {
    let out = expect_done(b"GET / HTTP/1.0\r\n\r\n", false);
    assert_eq!(
        out,
        b"HTTP/1.1 500 Internal Server Error\r\n\r\n500 Internal Server Error".to_vec()
    );
}

#[test]
fn files_post_without_directory_is_404() {
    let out = expect_done(b"POST /files/x HTTP/1.1\r\nContent-Length: 2\r\n\r\nhi", false);
    assert_eq!(out, b"HTTP/1.1 404 Not Found\r\n\r\n404 Not Found".to_vec());
}

#[test]
fn files_get_without_directory_is_404() {
    let out = expect_done(b"GET /files/x HTTP/1.1\r\n\r\n", false);
    assert_eq!(out, b"HTTP/1.1 404 Not Found\r\n\r\n404 Not Found".to_vec());
}

#[test]
fn files_post_reads_exactly_declared_bytes() {
    let input = b"POST /files/hello HTTP/1.1\r\nContent-Length: 5\r\n\r\nworld!".to_vec();
    match handle_bytes(&input, true) {
        Step::WriteFile { name, contents } => {
            assert_eq!(name, b"hello".to_vec());
            assert_eq!(contents, b"world".to_vec());
        },
        _ => panic!("expected a file write"),
    }
    let out = write_file_response(true);
    assert!(out.starts_with(b"HTTP/1.1 201 Created\r\n"));
    assert_eq!(out, b"HTTP/1.1 201 Created\r\n\r\n201 Created".to_vec());
}

#[test]
fn files_get_returns_stored_bytes_as_octet_stream() {
    let input = b"GET /files/hello HTTP/1.1\r\n\r\n".to_vec();
    match handle_bytes(&input, true) {
        Step::ReadFile { name } => assert_eq!(name, b"hello".to_vec()),
        _ => panic!("expected a file read"),
    }
    let out = read_file_response(Some(b"world".to_vec()));
    assert_eq!(
        out,
        b"HTTP/1.1 200 OK\r\nContent-Type: application/octet-stream\r\nContent-Length: 5\r\n\r\nworld"
            .to_vec()
    );
}

#[test]
fn files_post_then_get_round_trips_the_body() {
    let posted = b"some stored bytes".to_vec();
    let post = b"POST /files/x HTTP/1.1\r\nContent-Length: 17\r\n\r\nsome stored bytes".to_vec();
    let stored = match handle_bytes(&post, true) {
        Step::WriteFile { name, contents } => {
            assert_eq!(name, b"x".to_vec());
            contents
        },
        _ => panic!("expected a file write"),
    };
    assert_eq!(stored, posted);
    match handle_bytes(&b"GET /files/x HTTP/1.1\r\n\r\n".to_vec(), true) {
        Step::ReadFile { name } => assert_eq!(name, b"x".to_vec()),
        _ => panic!("expected a file read"),
    }
    let out = read_file_response(Some(stored));
    let expected: Vec<u8> = [
        b"HTTP/1.1 200 OK\r\nContent-Type: application/octet-stream\r\nContent-Length: 17\r\n\r\n"
            .to_vec(),
        posted,
    ]
    .concat();
    assert_eq!(out, expected);
}

#[test]
fn missing_file_is_404() {
    let out = read_file_response(None);
    assert_eq!(out, b"HTTP/1.1 404 Not Found\r\n\r\n404 Not Found".to_vec());
}

#[test]
fn failed_write_is_500() {
    let out = write_file_response(false);
    assert_eq!(
        out,
        b"HTTP/1.1 500 Internal Server Error\r\n\r\n500 Internal Server Error".to_vec()
    );
}

#[test]
fn zero_length_post_creates_empty_file() {
    let input = b"POST /files/empty HTTP/1.1\r\nContent-Length: 0\r\n\r\n".to_vec();
    match handle_bytes(&input, true) {
        Step::WriteFile { name, contents } => {
            assert_eq!(name, b"empty".to_vec());
            assert_eq!(contents, Vec::<u8>::new());
        },
        _ => panic!("expected a file write"),
    }
}

#[test]
fn post_files_without_body_is_404() {
    let out = expect_done(b"POST /files/x HTTP/1.1\r\n\r\n", true);
    assert_eq!(out, b"HTTP/1.1 404 Not Found\r\n\r\n404 Not Found".to_vec());
}
