//! The laws that relate the parser, the router and the response builder
//! across calls, proved over the same spec functions that the executable
//! functions' contracts use.

use vstd::prelude::*;

use crate::bytes::has_prefix;
use crate::bytes::has_suffix;
use crate::bytes::is_ws;
use crate::bytes::lemma_find_byte_at;
use crate::bytes::lemma_find_crlf_at;
use crate::bytes::lemma_find_crlf_bounds;
use crate::bytes::lemma_trim_noop;
use crate::number::all_digits;
use crate::number::dec_value;
use crate::number::lemma_dec_value_nonneg;
use crate::parser::MAX_BODY;
use crate::parser::MAX_LINE;
use crate::parser::ParseError;
use crate::parser::line_at;
use crate::parser::parse_headers_spec;
use crate::parser::lemma_parse_headers_end_bounds;
use crate::parser::parse_request_spec;
use crate::request::HeaderView;
use crate::request::RequestView;
use crate::request::Verb;
use crate::request::lookup_spec;
use crate::response::ok_file_view;
use crate::response::ok_text_view;
use crate::response::render_spec;
use crate::router::ActionView;
use crate::router::RouteError;
use crate::router::route_spec;
use crate::text::content_length_key;
use crate::text::crlf;
use crate::text::echo_prefix;
use crate::text::files_prefix;
use crate::text::get_token;
use crate::text::http_version_suffix;
use crate::text::reason_not_found;
use crate::text::user_agent_key;
use crate::text::user_agent_path;
use crate::response::short_view;
use crate::worker::StepView;
use crate::worker::internal_error_bytes;
use crate::worker::handle_spec;
use crate::worker::read_file_response_spec;

verus! {

/// A request without a `Content-Length` field has no body, and parsing it
/// consumes exactly the bytes up to and including the terminator line of
/// the header block.
pub proof fn law_no_length_no_body(s: Seq<u8>, r: RequestView, used: int)
    requires
        parse_request_spec(s) == Ok::<(RequestView, int), ParseError>((r, used)),
        lookup_spec(r.headers, content_length_key()) is None,
    ensures
        r.body is None,
        line_at(s, 0) is Ok,
        parse_headers_spec(s, line_at(s, 0).unwrap().1) == Ok::<(Seq<HeaderView>, int), ParseError>(
            (r.headers, used),
        ),
{
}

/// A request with a `Content-Length` field parses only if the value is a
/// nonempty in-bounds digit string, and then the body holds exactly that
/// many bytes; parsing consumes exactly the header block and the body.
pub proof fn law_body_length_is_declared_length(s: Seq<u8>, r: RequestView, used: int, cl: Seq<u8>)
    requires
        parse_request_spec(s) == Ok::<(RequestView, int), ParseError>((r, used)),
        lookup_spec(r.headers, content_length_key()) == Some(cl),
    ensures
        cl.len() > 0,
        all_digits(cl),
        0 <= dec_value(cl) <= MAX_BODY as int,
        r.body is Some,
        r.body.unwrap().len() == dec_value(cl),
        line_at(s, 0) is Ok,
        used == parse_headers_spec(s, line_at(s, 0).unwrap().1).unwrap().1 + dec_value(cl),
{
    lemma_find_crlf_bounds(s, 0);
    lemma_dec_value_nonneg(cl);
    lemma_parse_headers_end_bounds(s, line_at(s, 0).unwrap().1);
}

/// The bytes of the request `GET /echo/<s> HTTP/1.1` followed by the blank
/// line.
pub open spec fn echo_request_bytes(s: Seq<u8>) -> Seq<u8> {
    get_token() + seq![32u8] + echo_prefix() + s + http_version_suffix() + crlf() + crlf()
}

/// Echo round trip: for printable ASCII `s` that does not end in a space
/// (trailing whitespace would be trimmed with the start line) and fits the
/// line bound, the request `GET /echo/<s>` is answered with the
/// `200 OK` `text/plain` response whose body is exactly `s` and whose
/// declared length is exactly `s.len()`.
pub proof fn law_echo_round_trip(s: Seq<u8>, has_dir: bool)
    requires
        forall|i: int| 0 <= i < s.len() ==> 32 <= #[trigger] s[i] <= 126,
        s.len() > 0 ==> s[s.len() - 1] != 32,
        s.len() + 19 <= MAX_LINE as int,
    ensures
        handle_spec(echo_request_bytes(s), has_dir) == StepView::Done(
            render_spec(ok_text_view(s)),
        ),
{
    let input = echo_request_bytes(s);
    let line = get_token() + seq![32u8] + echo_prefix() + s + http_version_suffix();
    let open_line = get_token() + seq![32u8] + echo_prefix() + s;
    let eleft = line.len() as int;
    assert(eleft == 19 + s.len());
    assert(input.len() == eleft + 4);

    // The first CRLF stands exactly at the end of the start line.
    assert forall|k: int| 0 <= k < eleft implies input[k] != 13 by {
        if k < 10 {
            assert(input[k] == (get_token() + seq![32u8] + echo_prefix())[k]);
        } else if k < 10 + s.len() {
            assert(input[k] == s[k - 10]);
        } else {
            assert(input[k] == http_version_suffix()[k - 10 - s.len()]);
        }
    }
    assert(input[eleft] == 13 && input[eleft + 1] == 10);
    lemma_find_crlf_at(input, 0, eleft);
    assert(input.subrange(0, eleft) =~= line);
    assert(line_at(input, 0) == Ok::<(Seq<u8>, int), ParseError>((line, eleft + 2)));

    // The start line carries the version sentinel; the rest is already
    // trimmed and splits at the space after the method token.
    assert(line.subrange(eleft - 9, eleft) =~= http_version_suffix());
    assert(line.subrange(0, eleft - 9) =~= open_line);
    if s.len() > 0 {
        assert(open_line[open_line.len() - 1] == s[s.len() - 1]);
        assert(!is_ws(open_line[open_line.len() - 1]));
    }
    lemma_trim_noop(open_line);
    assert forall|k: int| 0 <= k < 3 implies open_line[k] != 32 by {
        assert(open_line[k] == get_token()[k]);
    }
    assert(open_line[3] == 32);
    lemma_find_byte_at(open_line, 32, 0, 3);
    assert(open_line.subrange(0, 3) =~= get_token());
    assert(open_line.subrange(4, open_line.len() as int) =~= echo_prefix() + s);

    // The header block is just the blank terminator line.
    assert(input[eleft + 2] == 13 && input[eleft + 3] == 10);
    lemma_find_crlf_at(input, eleft + 2, eleft + 2);
    assert(input.subrange(eleft + 2, eleft + 2) =~= Seq::<u8>::empty());
    assert(parse_headers_spec(input, eleft + 2) == Ok::<(Seq<HeaderView>, int), ParseError>(
        (Seq::empty(), eleft + 4),
    ));

    let rv = RequestView {
        verb: Verb::Get,
        path: echo_prefix() + s,
        headers: Seq::empty(),
        body: None,
    };
    assert(parse_request_spec(input) == Ok::<(RequestView, int), ParseError>((rv, eleft + 4)));

    // The router takes the echo arm and hands back exactly `s`.
    assert(rv.path.subrange(0, 6) =~= echo_prefix());
    assert(has_prefix(rv.path, echo_prefix()));
    assert(rv.path.skip(6) =~= s);
    assert(route_spec(rv, has_dir) == Ok::<ActionView, RouteError>(
        ActionView::Reply(ok_text_view(s)),
    ));
}

/// Reflecting the user agent is a function of the `User-Agent` value
/// alone: two parsed `GET /user-agent` requests whose first `User-Agent`
/// values agree are answered byte-identically, whatever else differs
/// between them.
pub proof fn law_user_agent_reflection_is_deterministic(
    s1: Seq<u8>,
    s2: Seq<u8>,
    d1: bool,
    d2: bool,
    r1: RequestView,
    r2: RequestView,
    u1: int,
    u2: int,
)
    requires
        parse_request_spec(s1) == Ok::<(RequestView, int), ParseError>((r1, u1)),
        parse_request_spec(s2) == Ok::<(RequestView, int), ParseError>((r2, u2)),
        r1.verb == Verb::Get,
        r1.path == user_agent_path(),
        r2.verb == Verb::Get,
        r2.path == user_agent_path(),
        lookup_spec(r1.headers, user_agent_key()) == lookup_spec(r2.headers, user_agent_key()),
    ensures
        handle_spec(s1, d1) == handle_spec(s2, d2),
{
    lemma_user_agent_path_matches_no_prefix();
    assert(route_spec(r1, d1) == route_spec(r2, d2));
}

/// `/user-agent` matches neither the `/echo/` nor the `/files/` prefix.
proof fn lemma_user_agent_path_matches_no_prefix()
    ensures
        !has_prefix(user_agent_path(), echo_prefix()),
        !has_prefix(user_agent_path(), files_prefix()),
{
    if has_prefix(user_agent_path(), echo_prefix()) {
        assert(user_agent_path().subrange(0, 6)[1] == user_agent_path()[1]);
    }
    if has_prefix(user_agent_path(), files_prefix()) {
        assert(user_agent_path().subrange(0, 7)[1] == user_agent_path()[1]);
    }
}

/// Storing then fetching: with a directory configured, `POST /files/<n>`
/// is routed to writing exactly the posted body under `<n>`, and
/// `GET /files/<n>` to reading `<n>`; a read that hands those bytes back
/// is answered with the `200 OK` `application/octet-stream` response
/// whose body is exactly what was posted.
pub proof fn law_files_store_round_trip(
    name: Seq<u8>,
    contents: Seq<u8>,
    post: RequestView,
    get: RequestView,
)
    requires
        post.verb == Verb::Post,
        post.path == files_prefix() + name,
        post.body == Some(contents),
        get.verb == Verb::Get,
        get.path == files_prefix() + name,
    ensures
        route_spec(post, true) == Ok::<ActionView, RouteError>(
            ActionView::WriteFile { name, contents },
        ),
        route_spec(get, true) == Ok::<ActionView, RouteError>(ActionView::ReadFile { name }),
        read_file_response_spec(Some(contents)) == render_spec(ok_file_view(contents)),
{
    assert(get.path.subrange(0, 7) =~= files_prefix());
    assert(has_prefix(get.path, files_prefix()));
    if has_prefix(get.path, echo_prefix()) {
        assert(get.path.subrange(0, 6)[1] == get.path[1]);
        assert(get.path[1] == files_prefix()[1]);
    }
    assert(get.path.skip(7) =~= name);
    assert(post.path.skip(7) =~= name);
}

/// A start line that does not carry the version sentinel is answered with
/// the `500` response, whatever follows it.
pub proof fn law_bad_version_means_500(s: Seq<u8>, has_dir: bool)
    requires
        line_at(s, 0) is Ok,
        !has_suffix(line_at(s, 0).unwrap().0, http_version_suffix()),
    ensures
        handle_spec(s, has_dir) == StepView::Done(internal_error_bytes()),
{
}

/// A parsed `GET /user-agent` request without a `User-Agent` field is
/// answered with the `500` response.
pub proof fn law_missing_user_agent_means_500(
    s: Seq<u8>,
    has_dir: bool,
    r: RequestView,
    used: int,
)
    requires
        parse_request_spec(s) == Ok::<(RequestView, int), ParseError>((r, used)),
        r.verb == Verb::Get,
        r.path == user_agent_path(),
        lookup_spec(r.headers, user_agent_key()) is None,
    ensures
        handle_spec(s, has_dir) == StepView::Done(internal_error_bytes()),
{
    lemma_user_agent_path_matches_no_prefix();
}

/// Without a configured directory every request under `/files/` is
/// answered `404`, whatever the method and whether a body came along.
pub proof fn law_files_without_directory_is_404(r: RequestView)
    requires
        has_prefix(r.path, files_prefix()),
    ensures
        route_spec(r, false) == Ok::<ActionView, RouteError>(
            ActionView::Reply(short_view(404, reason_not_found())),
        ),
{
    assert(r.path[1] == r.path.subrange(0, 7)[1]);
    if has_prefix(r.path, echo_prefix()) {
        assert(r.path[1] == r.path.subrange(0, 6)[1]);
    }
    if r.path == user_agent_path() {
        assert(r.path[1] == 117);
    }
    assert(r.path.len() >= 7);
}

} // verus!
