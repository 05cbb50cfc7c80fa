//! The response builder: a response value and its serialization into a
//! status line, a header block, and a body.

use vstd::prelude::*;

use crate::bytes::push_all;
use crate::number::dec_rep;
use crate::number::dec_of;
use crate::number::push_dec;
use crate::text::content_length_prefix;
use crate::text::content_length_prefix_vec;
use crate::text::content_type_prefix;
use crate::text::content_type_prefix_vec;
use crate::text::crlf;
use crate::text::crlf_vec;
use crate::text::http_version_prefix;
use crate::text::http_version_prefix_vec;
use crate::text::octet_stream;
use crate::text::octet_stream_vec;
use crate::text::reason_ok;
use crate::text::reason_ok_vec;
use crate::text::text_plain;
use crate::text::text_plain_vec;

verus! {

/// One response: status code, reason phrase, optional media type, body.
/// When a media type is present the serialized form declares the body
/// length; without one the short form is emitted, whose body is just
/// `<code> <reason>`.
#[derive(Debug)]
pub struct Response {
    pub status: u16,
    pub reason: Vec<u8>,
    pub content_type: Option<Vec<u8>>,
    pub body: Vec<u8>,
}

/// The mathematical content of a [`Response`].
pub ghost struct ResponseView {
    pub status: int,
    pub reason: Seq<u8>,
    pub content_type: Option<Seq<u8>>,
    pub body: Seq<u8>,
}

impl View for Response {
    type V = ResponseView;

    open spec fn view(&self) -> ResponseView {
        ResponseView {
            status: self.status as int,
            reason: self.reason@,
            content_type: match self.content_type {
                Some(ref ct) => Some(ct@),
                None => None,
            },
            body: self.body@,
        }
    }
}

/// The serialized form of a response: the status line; when a media type
/// is present, a `Content-Type` and a `Content-Length` header line; the
/// blank line; the body.
pub open spec fn render_spec(r: ResponseView) -> Seq<u8> {
    http_version_prefix() + dec_rep(r.status) + seq![32u8] + r.reason + crlf() + (match r
        .content_type {
        Some(ct) => content_type_prefix() + ct + crlf() + content_length_prefix() + dec_rep(
            r.body.len() as int,
        ) + crlf(),
        None => Seq::<u8>::empty(),
    }) + crlf() + r.body
}

/// Serializes a response into one byte buffer.
pub fn render(r: &Response) -> (out: Vec<u8>)
    ensures
        out@ == render_spec(r@),
{
    let mut out: Vec<u8> = Vec::new();
    let version = http_version_prefix_vec();
    push_all(&mut out, &version);
    push_dec(&mut out, r.status as u64);
    out.push(32);
    push_all(&mut out, &r.reason);
    let terminator = crlf_vec();
    push_all(&mut out, &terminator);
    match &r.content_type {
        Some(ct) => {
            let ct_prefix = content_type_prefix_vec();
            push_all(&mut out, &ct_prefix);
            push_all(&mut out, ct);
            push_all(&mut out, &terminator);
            let cl_prefix = content_length_prefix_vec();
            push_all(&mut out, &cl_prefix);
            push_dec(&mut out, r.body.len() as u64);
            push_all(&mut out, &terminator);
        },
        None => {},
    }
    push_all(&mut out, &terminator);
    push_all(&mut out, &r.body);
    proof {
        assert(out@ =~= render_spec(r@));
    }
    out
}

/// A `200 OK` response carrying `body` as `text/plain`.
pub open spec fn ok_text_view(body: Seq<u8>) -> ResponseView {
    ResponseView {
        status: 200,
        reason: reason_ok(),
        content_type: Some(text_plain()),
        body,
    }
}

/// Builds the `200 OK` `text/plain` response around `body`.
pub fn ok_text(body: Vec<u8>) -> (r: Response)
    ensures
        r@ == ok_text_view(body@),
{
    Response {
        status: 200,
        reason: reason_ok_vec(),
        content_type: Some(text_plain_vec()),
        body,
    }
}

/// A `200 OK` response carrying `body` as `application/octet-stream`.
pub open spec fn ok_file_view(body: Seq<u8>) -> ResponseView {
    ResponseView {
        status: 200,
        reason: reason_ok(),
        content_type: Some(octet_stream()),
        body,
    }
}

/// Builds the `200 OK` `application/octet-stream` response around `body`.
pub fn ok_file(body: Vec<u8>) -> (r: Response)
    ensures
        r@ == ok_file_view(body@),
{
    Response {
        status: 200,
        reason: reason_ok_vec(),
        content_type: Some(octet_stream_vec()),
        body,
    }
}

/// A short response: no media type, no declared length, and the body is
/// `<code> <reason>`.
pub open spec fn short_view(status: int, reason: Seq<u8>) -> ResponseView {
    ResponseView {
        status,
        reason,
        content_type: None,
        body: dec_rep(status) + seq![32u8] + reason,
    }
}

/// Builds the short response for `status` and `reason`.
pub fn short_response(status: u16, reason: Vec<u8>) -> (r: Response)
    ensures
        r@ == short_view(status as int, reason@),
{
    let mut body = dec_of(status as u64);
    body.push(32);
    push_all(&mut body, &reason);
    proof {
        assert(body@ =~= dec_rep(status as int) + seq![32u8] + reason@);
    }
    Response { status, reason, content_type: None, body }
}

} // verus!
