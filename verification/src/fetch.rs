//! The download-and-save pipeline: method dispatch, request-body framing,
//! response validation and body hand-through.
//!
//! The host performs the network send and the file write; everything that is
//! decided or computed on the way — which verb goes out, the exact bytes of
//! the request body, whether a response is accepted, which error is reported
//! — is decided here.

use vstd::prelude::*;
use crate::decimal::{spec_int_digits, push_i32_decimal};
use crate::error::OpError;

verus! {

/// The only two verbs the pipeline ever sends.
#[derive(Clone, Copy, Debug, PartialEq, Eq, Structural)]
pub enum HttpMethod {
    Get,
    Post,
}

/// Case-insensitive equality of a method string with the POST token.
pub open spec fn spec_is_post(m: Seq<char>) -> bool {
    &&& m.len() == 4
    &&& (m[0] == 'P' || m[0] == 'p')
    &&& (m[1] == 'O' || m[1] == 'o')
    &&& (m[2] == 'S' || m[2] == 's')
    &&& (m[3] == 'T' || m[3] == 't')
}

/// Resolves a free-form method string: only a case-insensitive match of the
/// POST token selects `Post`; every other value falls back to `Get`.
pub fn resolve_method(method: &str) -> (r: HttpMethod)
    ensures
        r == HttpMethod::Post <==> spec_is_post(method@),
        r == HttpMethod::Get <==> !spec_is_post(method@),
{
    let n = method.unicode_len();
    if n == 4 {
        let c0 = method.get_char(0);
        let c1 = method.get_char(1);
        let c2 = method.get_char(2);
        let c3 = method.get_char(3);
        if (c0 == 'P' || c0 == 'p') && (c1 == 'O' || c1 == 'o') && (c2 == 'S' || c2 == 's')
            && (c3 == 'T' || c3 == 't') {
            HttpMethod::Post
        } else {
            HttpMethod::Get
        }
    } else {
        HttpMethod::Get
    }
}

/// The identifiers rendered in input order, separated by commas.
pub open spec fn spec_ids_list(ids: Seq<i32>) -> Seq<char>
    decreases ids.len(),
{
    if ids.len() == 0 {
        Seq::empty()
    } else if ids.len() == 1 {
        spec_int_digits(ids[0] as int)
    } else {
        spec_ids_list(ids.drop_last()) + seq![','] + spec_int_digits(ids.last() as int)
    }
}

/// The exact JSON text of a POST request body: a single object whose one
/// field `file_ids` holds the identifiers in input order.
pub open spec fn spec_post_body(ids: Seq<i32>) -> Seq<char> {
    "{\"file_ids\":["@ + spec_ids_list(ids) + "]}"@
}

/// Builds the JSON request body for a POST download request.
pub fn post_body(ids: &Vec<i32>) -> (r: String)
    ensures
        r@ == spec_post_body(ids@),
{
    let mut s = "{\"file_ids\":[".to_owned();
    let mut i: usize = 0;
    while i < ids.len()
        invariant
            i <= ids.len(),
            s@ == "{\"file_ids\":["@ + spec_ids_list(ids@.take(i as int)),
        decreases ids.len() - i,
    {
        if i > 0 {
            s.append(",");
        }
        push_i32_decimal(&mut s, ids[i]);
        proof {
            reveal_strlit(",");
            let taken = ids@.take(i + 1 as int);
            assert(taken.drop_last() =~= ids@.take(i as int));
            assert(taken.last() == ids@[i as int]);
            if i == 0 {
                assert(s@ =~= "{\"file_ids\":["@ + spec_ids_list(taken));
            } else {
                assert(","@ =~= seq![',']);
                assert(s@ =~= "{\"file_ids\":["@ + spec_ids_list(taken));
            }
        }
        i = i + 1;
    }
    s.append("]}");
    proof {
        assert(ids@.take(ids@.len() as int) =~= ids@);
        assert(s@ =~= spec_post_body(ids@));
    }
    s
}

/// A fully decided outbound request: the verb, and for POST the exact body
/// text; a GET carries no body.
pub struct RequestPlan {
    pub method: HttpMethod,
    pub body: Option<String>,
}

/// Decides the outbound request from the caller's free-form method string
/// and identifier list. Only a case-insensitive POST gets a body, and that
/// body is exactly the JSON object with the identifiers in input order.
pub fn plan_request(method: &str, ids: &Vec<i32>) -> (r: RequestPlan)
    ensures
        r.method == HttpMethod::Post <==> spec_is_post(method@),
        r.method == HttpMethod::Get <==> !spec_is_post(method@),
        spec_is_post(method@) ==> (r.body matches Some(b) && b@ == spec_post_body(ids@)),
        !spec_is_post(method@) ==> r.body is None,
{
    match resolve_method(method) {
        HttpMethod::Post => RequestPlan { method: HttpMethod::Post, body: Some(post_body(ids)) },
        HttpMethod::Get => RequestPlan { method: HttpMethod::Get, body: None },
    }
}

/// The HTTP success range.
pub open spec fn spec_is_success(status: u16) -> bool {
    200 <= status < 300
}

/// Accepts or rejects a response by its status code alone, before any body
/// is read: a status outside the success range yields the status error that
/// embeds the code.
pub fn check_status(status: u16) -> (r: Result<(), OpError>)
    ensures
        r is Ok <==> spec_is_success(status),
        !spec_is_success(status) ==> r == Err::<(), OpError>(OpError::Status(status)),
{
    if 200 <= status && status < 300 {
        Ok(())
    } else {
        Err(OpError::Status(status))
    }
}

/// Decides what reaches the destination file: on a success status exactly
/// the response body, byte for byte; on any other status the status error,
/// and no content.
pub fn response_content(status: u16, bytes: Vec<u8>) -> (r: Result<Vec<u8>, OpError>)
    ensures
        spec_is_success(status) ==> (r matches Ok(b) && b@ == bytes@),
        !spec_is_success(status) ==> r == Err::<Vec<u8>, OpError>(OpError::Status(status)),
{
    match check_status(status) {
        Ok(()) => Ok(bytes),
        Err(e) => Err(e),
    }
}

} // verus!
