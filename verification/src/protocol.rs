//! The request/response protocol spoken with the remote template service.
//!
//! Two requests exist: listing the available target names and fetching the
//! merged ignore body for a target set. This module builds the request
//! URLs and translates HTTP outcomes into the error taxonomy; it performs
//! no network access itself and never inspects a response body.

use vstd::prelude::*;
use vstd::string::StringExecFns;
use crate::error::Error;

verus! {

/// An HTTP status code in the success range.
pub open spec fn is_success(status: u16) -> bool {
    200 <= status < 300
}

/// Executable check that a status code signals success.
pub fn status_is_success(status: u16) -> (r: bool)
    ensures
        r == is_success(status),
{
    200 <= status && status < 300
}

/// The given names joined with `,`, in the given order.
pub open spec fn joined_with_commas(parts: Seq<Seq<char>>) -> Seq<char>
    decreases parts.len(),
{
    if parts.len() == 0 {
        Seq::empty()
    } else if parts.len() == 1 {
        parts[0]
    } else {
        joined_with_commas(parts.drop_last()) + seq![','] + parts.last()
    }
}

/// Joins the target names with `,`, preserving the caller's order; the
/// order is passed through to the service verbatim.
pub fn join_targets(targets: &Vec<String>) -> (r: String)
    ensures
        r@ == joined_with_commas(targets@.map_values(|t: String| t@)),
{
    let ghost parts = targets@.map_values(|t: String| t@);
    let mut out = String::new();
    let mut i: usize = 0;
    while i < targets.len()
        invariant
            i <= targets.len(),
            parts == targets@.map_values(|t: String| t@),
            out@ == joined_with_commas(parts.take(i as int)),
        decreases targets.len() - i,
    {
        if i > 0 {
            out.append(",");
        }
        out.append(targets[i].as_str());
        proof {
            reveal_strlit(",");
            assert(parts.take(i + 1).drop_last() =~= parts.take(i as int));
            assert(out@ =~= joined_with_commas(parts.take(i + 1)));
        }
        i += 1;
    }
    proof {
        assert(parts.take(targets@.len() as int) =~= parts);
    }
    out
}

/// The URL of the listing request against the given base endpoint.
pub fn list_url(base: &str) -> (r: String)
    ensures
        r@ == base@ + "/list?format=lines"@,
{
    String::from_str(base).concat("/list?format=lines")
}

/// The URL of a fetch request: the base endpoint, a slash, and the target
/// names joined with commas in the caller's order.
pub fn fetch_url(base: &str, targets: &Vec<String>) -> (r: String)
    requires
        targets@.len() > 0,
    ensures
        r@ == base@ + "/"@ + joined_with_commas(targets@.map_values(|t: String| t@)),
{
    let joined = join_targets(targets);
    String::from_str(base).concat("/").concat(joined.as_str())
}

/// Translates the outcome of a listing request: any success status hands
/// the body through unmodified; anything else is a transport failure.
pub fn interpret_list_response(status: u16, body: String, detail: String) -> (r: Result<
    String,
    Error,
>)
    ensures
        is_success(status) ==> r == Ok::<String, Error>(body),
        !is_success(status) ==> r == Err::<String, Error>(
            Error::Http { status: Some(status), detail },
        ),
{
    if status_is_success(status) {
        Ok(body)
    } else {
        Err(Error::Http { status: Some(status), detail })
    }
}

/// Translates the outcome of a fetch request: success hands the body
/// through unmodified; 404 means the service recognized none of the
/// requested set, reported with the exact joined target string; any other
/// status is a transport failure.
pub fn interpret_fetch_response(
    status: u16,
    body: String,
    joined: String,
    detail: String,
) -> (r: Result<String, Error>)
    ensures
        is_success(status) ==> r == Ok::<String, Error>(body),
        status == 404 ==> r == Err::<String, Error>(Error::InvalidTarget(joined)),
        !is_success(status) && status != 404 ==> r == Err::<String, Error>(
            Error::Http { status: Some(status), detail },
        ),
{
    if status_is_success(status) {
        Ok(body)
    } else if status == 404 {
        Err(Error::InvalidTarget(joined))
    } else {
        Err(Error::Http { status: Some(status), detail })
    }
}

} // verus!
