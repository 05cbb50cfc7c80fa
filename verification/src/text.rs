//! The fixed ASCII byte strings of the protocol: method tokens, route
//! prefixes, header names, and the pieces of a serialized response.

use vstd::prelude::*;

verus! {

/// The method token `"GET"`.
pub open spec fn get_token() -> Seq<u8> {
    seq![71u8, 69u8, 84u8]
}

/// Executable copy of [`get_token`].
pub fn get_token_vec() -> (r: Vec<u8>)
    ensures
        r@ == get_token(),
{
    let v: Vec<u8> = vec![71u8, 69u8, 84u8];
    proof {
        assert(v@ =~= get_token());
    }
    v
}

/// The method token `"POST"`.
pub open spec fn post_token() -> Seq<u8> {
    seq![80u8, 79u8, 83u8, 84u8]
}

/// Executable copy of [`post_token`].
pub fn post_token_vec() -> (r: Vec<u8>)
    ensures
        r@ == post_token(),
{
    let v: Vec<u8> = vec![80u8, 79u8, 83u8, 84u8];
    proof {
        assert(v@ =~= post_token());
    }
    v
}

/// The start-line version sentinel `" HTTP/1.1"`, as it stands after the CRLF terminator is removed.
pub open spec fn http_version_suffix() -> Seq<u8> {
    seq![32u8, 72u8, 84u8, 84u8, 80u8, 47u8, 49u8, 46u8, 49u8]
}

/// Executable copy of [`http_version_suffix`].
pub fn http_version_suffix_vec() -> (r: Vec<u8>)
    ensures
        r@ == http_version_suffix(),
{
    let v: Vec<u8> = vec![32u8, 72u8, 84u8, 84u8, 80u8, 47u8, 49u8, 46u8, 49u8];
    proof {
        assert(v@ =~= http_version_suffix());
    }
    v
}

/// The opening of every status line, `"HTTP/1.1 "`.
pub open spec fn http_version_prefix() -> Seq<u8> {
    seq![72u8, 84u8, 84u8, 80u8, 47u8, 49u8, 46u8, 49u8, 32u8]
}

/// Executable copy of [`http_version_prefix`].
pub fn http_version_prefix_vec() -> (r: Vec<u8>)
    ensures
        r@ == http_version_prefix(),
{
    let v: Vec<u8> = vec![72u8, 84u8, 84u8, 80u8, 47u8, 49u8, 46u8, 49u8, 32u8];
    proof {
        assert(v@ =~= http_version_prefix());
    }
    v
}

/// The header name `"Content-Length"`.
pub open spec fn content_length_key() -> Seq<u8> {
    seq![67u8, 111u8, 110u8, 116u8, 101u8, 110u8, 116u8, 45u8, 76u8, 101u8, 110u8, 103u8, 116u8, 104u8]
}

/// Executable copy of [`content_length_key`].
pub fn content_length_key_vec() -> (r: Vec<u8>)
    ensures
        r@ == content_length_key(),
{
    let v: Vec<u8> = vec![67u8, 111u8, 110u8, 116u8, 101u8, 110u8, 116u8, 45u8, 76u8, 101u8, 110u8, 103u8, 116u8, 104u8];
    proof {
        assert(v@ =~= content_length_key());
    }
    v
}

/// The header name `"User-Agent"`.
pub open spec fn user_agent_key() -> Seq<u8> {
    seq![85u8, 115u8, 101u8, 114u8, 45u8, 65u8, 103u8, 101u8, 110u8, 116u8]
}

/// Executable copy of [`user_agent_key`].
pub fn user_agent_key_vec() -> (r: Vec<u8>)
    ensures
        r@ == user_agent_key(),
{
    let v: Vec<u8> = vec![85u8, 115u8, 101u8, 114u8, 45u8, 65u8, 103u8, 101u8, 110u8, 116u8];
    proof {
        assert(v@ =~= user_agent_key());
    }
    v
}

/// The route prefix `"/echo/"`.
pub open spec fn echo_prefix() -> Seq<u8> {
    seq![47u8, 101u8, 99u8, 104u8, 111u8, 47u8]
}

/// Executable copy of [`echo_prefix`].
pub fn echo_prefix_vec() -> (r: Vec<u8>)
    ensures
        r@ == echo_prefix(),
{
    let v: Vec<u8> = vec![47u8, 101u8, 99u8, 104u8, 111u8, 47u8];
    proof {
        assert(v@ =~= echo_prefix());
    }
    v
}

/// The route prefix `"/files/"`.
pub open spec fn files_prefix() -> Seq<u8> {
    seq![47u8, 102u8, 105u8, 108u8, 101u8, 115u8, 47u8]
}

/// Executable copy of [`files_prefix`].
pub fn files_prefix_vec() -> (r: Vec<u8>)
    ensures
        r@ == files_prefix(),
{
    let v: Vec<u8> = vec![47u8, 102u8, 105u8, 108u8, 101u8, 115u8, 47u8];
    proof {
        assert(v@ =~= files_prefix());
    }
    v
}

/// The route path `"/user-agent"`.
pub open spec fn user_agent_path() -> Seq<u8> {
    seq![47u8, 117u8, 115u8, 101u8, 114u8, 45u8, 97u8, 103u8, 101u8, 110u8, 116u8]
}

/// Executable copy of [`user_agent_path`].
pub fn user_agent_path_vec() -> (r: Vec<u8>)
    ensures
        r@ == user_agent_path(),
{
    let v: Vec<u8> = vec![47u8, 117u8, 115u8, 101u8, 114u8, 45u8, 97u8, 103u8, 101u8, 110u8, 116u8];
    proof {
        assert(v@ =~= user_agent_path());
    }
    v
}

/// The route path `"/"`.
pub open spec fn root_path() -> Seq<u8> {
    seq![47u8]
}

/// Executable copy of [`root_path`].
pub fn root_path_vec() -> (r: Vec<u8>)
    ensures
        r@ == root_path(),
{
    let v: Vec<u8> = vec![47u8];
    proof {
        assert(v@ =~= root_path());
    }
    v
}

/// The header-line opening `"Content-Type: "`.
pub open spec fn content_type_prefix() -> Seq<u8> {
    seq![67u8, 111u8, 110u8, 116u8, 101u8, 110u8, 116u8, 45u8, 84u8, 121u8, 112u8, 101u8, 58u8, 32u8]
}

/// Executable copy of [`content_type_prefix`].
pub fn content_type_prefix_vec() -> (r: Vec<u8>)
    ensures
        r@ == content_type_prefix(),
{
    let v: Vec<u8> = vec![67u8, 111u8, 110u8, 116u8, 101u8, 110u8, 116u8, 45u8, 84u8, 121u8, 112u8, 101u8, 58u8, 32u8];
    proof {
        assert(v@ =~= content_type_prefix());
    }
    v
}

/// The header-line opening `"Content-Length: "`.
pub open spec fn content_length_prefix() -> Seq<u8> {
    seq![67u8, 111u8, 110u8, 116u8, 101u8, 110u8, 116u8, 45u8, 76u8, 101u8, 110u8, 103u8, 116u8, 104u8, 58u8, 32u8]
}

/// Executable copy of [`content_length_prefix`].
pub fn content_length_prefix_vec() -> (r: Vec<u8>)
    ensures
        r@ == content_length_prefix(),
{
    let v: Vec<u8> = vec![67u8, 111u8, 110u8, 116u8, 101u8, 110u8, 116u8, 45u8, 76u8, 101u8, 110u8, 103u8, 116u8, 104u8, 58u8, 32u8];
    proof {
        assert(v@ =~= content_length_prefix());
    }
    v
}

/// The media type `"text/plain"`.
pub open spec fn text_plain() -> Seq<u8> {
    seq![116u8, 101u8, 120u8, 116u8, 47u8, 112u8, 108u8, 97u8, 105u8, 110u8]
}

/// Executable copy of [`text_plain`].
pub fn text_plain_vec() -> (r: Vec<u8>)
    ensures
        r@ == text_plain(),
{
    let v: Vec<u8> = vec![116u8, 101u8, 120u8, 116u8, 47u8, 112u8, 108u8, 97u8, 105u8, 110u8];
    proof {
        assert(v@ =~= text_plain());
    }
    v
}

/// The media type `"application/octet-stream"`.
pub open spec fn octet_stream() -> Seq<u8> {
    seq![97u8, 112u8, 112u8, 108u8, 105u8, 99u8, 97u8, 116u8, 105u8, 111u8, 110u8, 47u8, 111u8, 99u8, 116u8, 101u8, 116u8, 45u8, 115u8, 116u8, 114u8, 101u8, 97u8, 109u8]
}

/// Executable copy of [`octet_stream`].
pub fn octet_stream_vec() -> (r: Vec<u8>)
    ensures
        r@ == octet_stream(),
{
    let v: Vec<u8> = vec![97u8, 112u8, 112u8, 108u8, 105u8, 99u8, 97u8, 116u8, 105u8, 111u8, 110u8, 47u8, 111u8, 99u8, 116u8, 101u8, 116u8, 45u8, 115u8, 116u8, 114u8, 101u8, 97u8, 109u8];
    proof {
        assert(v@ =~= octet_stream());
    }
    v
}

/// The reason phrase `"OK"`.
pub open spec fn reason_ok() -> Seq<u8> {
    seq![79u8, 75u8]
}

/// Executable copy of [`reason_ok`].
pub fn reason_ok_vec() -> (r: Vec<u8>)
    ensures
        r@ == reason_ok(),
{
    let v: Vec<u8> = vec![79u8, 75u8];
    proof {
        assert(v@ =~= reason_ok());
    }
    v
}

/// The reason phrase `"Not Found"`.
pub open spec fn reason_not_found() -> Seq<u8> {
    seq![78u8, 111u8, 116u8, 32u8, 70u8, 111u8, 117u8, 110u8, 100u8]
}

/// Executable copy of [`reason_not_found`].
pub fn reason_not_found_vec() -> (r: Vec<u8>)
    ensures
        r@ == reason_not_found(),
{
    let v: Vec<u8> = vec![78u8, 111u8, 116u8, 32u8, 70u8, 111u8, 117u8, 110u8, 100u8];
    proof {
        assert(v@ =~= reason_not_found());
    }
    v
}

/// The reason phrase `"Created"`.
pub open spec fn reason_created() -> Seq<u8> {
    seq![67u8, 114u8, 101u8, 97u8, 116u8, 101u8, 100u8]
}

/// Executable copy of [`reason_created`].
pub fn reason_created_vec() -> (r: Vec<u8>)
    ensures
        r@ == reason_created(),
{
    let v: Vec<u8> = vec![67u8, 114u8, 101u8, 97u8, 116u8, 101u8, 100u8];
    proof {
        assert(v@ =~= reason_created());
    }
    v
}

/// The reason phrase `"Internal Server Error"`.
pub open spec fn reason_internal_error() -> Seq<u8> {
    seq![73u8, 110u8, 116u8, 101u8, 114u8, 110u8, 97u8, 108u8, 32u8, 83u8, 101u8, 114u8, 118u8, 101u8, 114u8, 32u8, 69u8, 114u8, 114u8, 111u8, 114u8]
}

/// Executable copy of [`reason_internal_error`].
pub fn reason_internal_error_vec() -> (r: Vec<u8>)
    ensures
        r@ == reason_internal_error(),
{
    let v: Vec<u8> = vec![73u8, 110u8, 116u8, 101u8, 114u8, 110u8, 97u8, 108u8, 32u8, 83u8, 101u8, 114u8, 118u8, 101u8, 114u8, 32u8, 69u8, 114u8, 114u8, 111u8, 114u8];
    proof {
        assert(v@ =~= reason_internal_error());
    }
    v
}

/// The line terminator: a carriage return followed by a line feed.
pub open spec fn crlf() -> Seq<u8> {
    seq![13u8, 10u8]
}

/// Executable copy of [`crlf`].
pub fn crlf_vec() -> (r: Vec<u8>)
    ensures
        r@ == crlf(),
{
    let v: Vec<u8> = vec![13u8, 10u8];
    proof {
        assert(v@ =~= crlf());
    }
    v
}

/// The argument flag `"--directory"`.
pub open spec fn dir_flag_long() -> Seq<u8> {
    seq![45u8, 45u8, 100u8, 105u8, 114u8, 101u8, 99u8, 116u8, 111u8, 114u8, 121u8]
}

/// Executable copy of [`dir_flag_long`].
pub fn dir_flag_long_vec() -> (r: Vec<u8>)
    ensures
        r@ == dir_flag_long(),
{
    let v: Vec<u8> = vec![45u8, 45u8, 100u8, 105u8, 114u8, 101u8, 99u8, 116u8, 111u8, 114u8, 121u8];
    proof {
        assert(v@ =~= dir_flag_long());
    }
    v
}

/// The argument flag `"-d"`.
pub open spec fn dir_flag_short() -> Seq<u8> {
    seq![45u8, 100u8]
}

/// Executable copy of [`dir_flag_short`].
pub fn dir_flag_short_vec() -> (r: Vec<u8>)
    ensures
        r@ == dir_flag_short(),
{
    let v: Vec<u8> = vec![45u8, 100u8];
    proof {
        assert(v@ =~= dir_flag_short());
    }
    v
}

} // verus!
