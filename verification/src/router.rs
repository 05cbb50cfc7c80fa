//! The router: maps a parsed request onto a response, or onto the
//! file-system action the response depends on. First match wins; the
//! `/echo/` and `/files/` patterns match by prefix, `/user-agent` and `/`
//! exactly.

use vstd::prelude::*;

use crate::bytes::bytes_eq;
use crate::bytes::has_prefix;
use crate::bytes::starts_with;
use crate::bytes::subcopy;
use crate::request::Request;
use crate::request::RequestView;
use crate::request::Verb;
use crate::request::lookup_spec;
use crate::response::Response;
use crate::response::ResponseView;
use crate::response::ok_text;
use crate::response::ok_text_view;
use crate::response::short_response;
use crate::response::short_view;
use crate::text::echo_prefix;
use crate::text::echo_prefix_vec;
use crate::text::files_prefix;
use crate::text::files_prefix_vec;
use crate::text::reason_not_found;
use crate::text::reason_not_found_vec;
use crate::text::reason_ok;
use crate::text::reason_ok_vec;
use crate::text::root_path;
use crate::text::root_path_vec;
use crate::text::user_agent_key;
use crate::text::user_agent_key_vec;
use crate::text::user_agent_path;
use crate::text::user_agent_path_vec;

verus! {

/// Why the router could not produce a response.
#[derive(Clone, Copy, PartialEq, Eq, Structural, Debug)]
pub enum RouteError {
    /// `/user-agent` was requested without a `User-Agent` header.
    MissingUserAgent,
}

/// What the router decided: either a finished response, or the
/// file-system action whose outcome the response depends on.
#[derive(Debug)]
pub enum Action {
    /// Send this response.
    Reply(Response),
    /// Create (truncating) the file `name` under the configured directory
    /// with `contents`, then send the outcome's response.
    WriteFile { name: Vec<u8>, contents: Vec<u8> },
    /// Read the file `name` under the configured directory, then send the
    /// outcome's response.
    ReadFile { name: Vec<u8> },
}

/// The mathematical content of an [`Action`].
pub ghost enum ActionView {
    Reply(ResponseView),
    WriteFile { name: Seq<u8>, contents: Seq<u8> },
    ReadFile { name: Seq<u8> },
}

impl View for Action {
    type V = ActionView;

    open spec fn view(&self) -> ActionView {
        match self {
            Action::Reply(resp) => ActionView::Reply(resp@),
            Action::WriteFile { name, contents } => ActionView::WriteFile {
                name: name@,
                contents: contents@,
            },
            Action::ReadFile { name } => ActionView::ReadFile { name: name@ },
        }
    }
}

/// The routing table. `has_dir` says whether a serving directory was
/// configured; without one, both `/files/` routes answer `404`.
pub open spec fn route_spec(r: RequestView, has_dir: bool) -> Result<ActionView, RouteError> {
    if r.verb == Verb::Get && has_prefix(r.path, echo_prefix()) {
        Ok(ActionView::Reply(ok_text_view(r.path.skip(echo_prefix().len() as int))))
    } else if r.verb == Verb::Post && r.body is Some && has_prefix(r.path, files_prefix()) {
        if has_dir {
            Ok(
                ActionView::WriteFile {
                    name: r.path.skip(files_prefix().len() as int),
                    contents: r.body.unwrap(),
                },
            )
        } else {
            Ok(ActionView::Reply(short_view(404, reason_not_found())))
        }
    } else if r.verb == Verb::Get && has_dir && has_prefix(r.path, files_prefix()) {
        Ok(ActionView::ReadFile { name: r.path.skip(files_prefix().len() as int) })
    } else if r.verb == Verb::Get && r.path == user_agent_path() {
        match lookup_spec(r.headers, user_agent_key()) {
            Some(ua) => Ok(ActionView::Reply(ok_text_view(ua))),
            None => Err(RouteError::MissingUserAgent),
        }
    } else if r.verb == Verb::Get && r.path == root_path() {
        Ok(ActionView::Reply(short_view(200, reason_ok())))
    } else {
        Ok(ActionView::Reply(short_view(404, reason_not_found())))
    }
}

/// Routes a parsed request.
pub fn route(req: Request, has_dir: bool) -> (r: Result<Action, RouteError>)
    ensures
        match r {
            Ok(a) => route_spec(req@, has_dir) == Ok::<ActionView, RouteError>(a@),
            Err(e) => route_spec(req@, has_dir) == Err::<ActionView, RouteError>(e),
        },
{
    let ghost rv = req@;
    let Request(start, headers, body) = req;
    let path = start.path;
    let is_get = matches!(start.verb, Verb::Get);
    let is_post = matches!(start.verb, Verb::Post);
    let echo = echo_prefix_vec();
    if is_get && starts_with(&path, &echo) {
        let rest = subcopy(&path, echo.len(), path.len());
        proof {
            assert(rest@ =~= rv.path.skip(echo_prefix().len() as int));
        }
        return Ok(Action::Reply(ok_text(rest)));
    }
    let files = files_prefix_vec();
    if is_post && body.is_some() && starts_with(&path, &files) {
        if has_dir {
            let name = subcopy(&path, files.len(), path.len());
            proof {
                assert(name@ =~= rv.path.skip(files_prefix().len() as int));
            }
            let contents = match body {
                Some(b) => b.0,
                None => Vec::new(),
            };
            return Ok(Action::WriteFile { name, contents });
        } else {
            return Ok(Action::Reply(short_response(404, reason_not_found_vec())));
        }
    }
    if is_get && has_dir && starts_with(&path, &files) {
        let name = subcopy(&path, files.len(), path.len());
        proof {
            assert(name@ =~= rv.path.skip(files_prefix().len() as int));
        }
        return Ok(Action::ReadFile { name });
    }
    let agent_path = user_agent_path_vec();
    if is_get && bytes_eq(&path, &agent_path) {
        let agent_key = user_agent_key_vec();
        return match headers.get(&agent_key) {
            Some(ua) => Ok(Action::Reply(ok_text(ua))),
            None => Err(RouteError::MissingUserAgent),
        };
    }
    let root = root_path_vec();
    if is_get && bytes_eq(&path, &root) {
        return Ok(Action::Reply(short_response(200, reason_ok_vec())));
    }
    Ok(Action::Reply(short_response(404, reason_not_found_vec())))
}

} // verus!
