//! The connection worker's decisions: one request in, one response out.
//! Parsing or routing failures become the `500` response; the `/files/`
//! routes come back as file-system actions, and separate entry points turn
//! an action's outcome into the final response bytes.

use vstd::prelude::*;

use crate::parser::parse_request;
use crate::parser::parse_request_spec;
use crate::response::ok_file;
use crate::response::ok_file_view;
use crate::response::render;
use crate::response::render_spec;
use crate::response::short_response;
use crate::response::short_view;
use crate::router::Action;
use crate::router::ActionView;
use crate::router::route;
use crate::router::route_spec;
use crate::text::reason_created;
use crate::text::reason_created_vec;
use crate::text::reason_internal_error;
use crate::text::reason_internal_error_vec;
use crate::text::reason_not_found;
use crate::text::reason_not_found_vec;

verus! {

/// What the worker must do next: send finished bytes, or perform a
/// file-system action and then ask for the outcome's response.
pub enum Step {
    /// Send these bytes and close.
    Done(Vec<u8>),
    /// Create (truncating) the file `name` under the configured directory
    /// with `contents`; then send [`write_file_response`] of the outcome.
    WriteFile { name: Vec<u8>, contents: Vec<u8> },
    /// Read the file `name` under the configured directory; then send
    /// [`read_file_response`] of the outcome.
    ReadFile { name: Vec<u8> },
}

/// The mathematical content of a [`Step`].
pub ghost enum StepView {
    Done(Seq<u8>),
    WriteFile { name: Seq<u8>, contents: Seq<u8> },
    ReadFile { name: Seq<u8> },
}

impl View for Step {
    type V = StepView;

    open spec fn view(&self) -> StepView {
        match self {
            Step::Done(bytes) => StepView::Done(bytes@),
            Step::WriteFile { name, contents } => StepView::WriteFile {
                name: name@,
                contents: contents@,
            },
            Step::ReadFile { name } => StepView::ReadFile { name: name@ },
        }
    }
}

/// The serialized `500 Internal Server Error` response.
pub open spec fn internal_error_bytes() -> Seq<u8> {
    render_spec(short_view(500, reason_internal_error()))
}

/// The worker's whole decision on the received bytes: any parse or route
/// failure is answered with the `500` response; otherwise the routed
/// response is serialized, or the routed file-system action is reported.
pub open spec fn handle_spec(input: Seq<u8>, has_dir: bool) -> StepView {
    match parse_request_spec(input) {
        Err(_) => StepView::Done(internal_error_bytes()),
        Ok(ru) => match route_spec(ru.0, has_dir) {
            Err(_) => StepView::Done(internal_error_bytes()),
            Ok(ActionView::Reply(resp)) => StepView::Done(render_spec(resp)),
            Ok(ActionView::WriteFile { name, contents }) => StepView::WriteFile { name, contents },
            Ok(ActionView::ReadFile { name }) => StepView::ReadFile { name },
        },
    }
}

/// Decides on one received request. `has_dir` says whether a serving
/// directory was configured.
pub fn handle_bytes(input: &Vec<u8>, has_dir: bool) -> (r: Step)
    ensures
        r@ == handle_spec(input@, has_dir),
{
    let parsed = match parse_request(input) {
        Err(_) => {
            let resp = short_response(500, reason_internal_error_vec());
            return Step::Done(render(&resp));
        },
        Ok(ru) => ru.0,
    };
    match route(parsed, has_dir) {
        Err(_) => {
            let resp = short_response(500, reason_internal_error_vec());
            Step::Done(render(&resp))
        },
        Ok(Action::Reply(resp)) => Step::Done(render(&resp)),
        Ok(Action::WriteFile { name, contents }) => Step::WriteFile { name, contents },
        Ok(Action::ReadFile { name }) => Step::ReadFile { name },
    }
}

/// The response bytes after a file write: `201 Created` when the write
/// succeeded, the `500` response when it did not.
pub open spec fn write_file_response_spec(ok: bool) -> Seq<u8> {
    if ok {
        render_spec(short_view(201, reason_created()))
    } else {
        internal_error_bytes()
    }
}

/// Serializes the response to a file-write outcome.
pub fn write_file_response(ok: bool) -> (r: Vec<u8>)
    ensures
        r@ == write_file_response_spec(ok),
{
    if ok {
        let resp = short_response(201, reason_created_vec());
        render(&resp)
    } else {
        let resp = short_response(500, reason_internal_error_vec());
        render(&resp)
    }
}

/// The response bytes after a file read: the contents as
/// `application/octet-stream` when the file could be read, `404 Not Found`
/// when it could not.
pub open spec fn read_file_response_spec(contents: Option<Seq<u8>>) -> Seq<u8> {
    match contents {
        Some(c) => render_spec(ok_file_view(c)),
        None => render_spec(short_view(404, reason_not_found())),
    }
}

/// Serializes the response to a file-read outcome.
pub fn read_file_response(contents: Option<Vec<u8>>) -> (r: Vec<u8>)
    ensures
        r@ == read_file_response_spec(
            match contents {
                Some(c) => Some(c@),
                None => None,
            },
        ),
{
    match contents {
        Some(c) => {
            let resp = ok_file(c);
            render(&resp)
        },
        None => {
            let resp = short_response(404, reason_not_found_vec());
            render(&resp)
        },
    }
}

} // verus!
