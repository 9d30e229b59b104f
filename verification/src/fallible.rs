use vstd::prelude::*;
use vstd::string::StringExecFns;

use crate::response::{spec_text_plain, HttpResponse, ResponseModel};

verus! {

/// Relies on rand::random: draws a value from the thread-local generator.
/// Nothing is promised of the outcome.
pub assume_specification<T>[ rand::random::<T> ]() -> (r: T)
    where
        rand::distr::StandardUniform: rand::distr::Distribution<T>,
;

/// Message of the one failure the fallible computation can produce.
pub open spec fn spec_failure_message() -> Seq<char> {
    "Function failed"@
}

/// Body of a successful call of the fallible computation.
pub open spec fn spec_success_body() -> Seq<char> {
    "Success"@
}

/// Body of the adapter's error response for a given failure message.
pub open spec fn spec_error_body(msg: Seq<char>) -> Seq<char> {
    "Something went wrong: "@ + msg
}

/// The fallible computation for a given draw: it fails exactly when the
/// draw says so.
pub fn thing_that_might_fail_with(fails: bool) -> (r: Result<String, String>)
    ensures
        fails ==> (r matches Err(e) && e@ == spec_failure_message()),
        !fails ==> (r matches Ok(s) && s@ == spec_success_body()),
{
    if fails {
        Err("Function failed".to_owned())
    } else {
        Ok("Success".to_owned())
    }
}

/// Draws a random boolean and runs the fallible computation on it: about
/// half of all calls fail.
pub fn thing_that_might_fail() -> (r: Result<String, String>)
    ensures
        r matches Ok(s) ==> s@ == spec_success_body(),
        r matches Err(e) ==> e@ == spec_failure_message(),
{
    let fails: bool = rand::random();
    thing_that_might_fail_with(fails)
}

/// Error adapter: turns a failure message into the fixed 500 response.
pub fn handle_error(msg: &str) -> (r: HttpResponse)
    ensures
        r@ == (ResponseModel {
            status: 500,
            content_type: spec_text_plain(),
            body: spec_error_body(msg@),
        }),
{
    let mut body = String::new();
    body.append("Something went wrong: ");
    body.append(msg);
    proof {
        assert(body@ =~= spec_error_body(msg@));
    }
    HttpResponse {
        status: 500,
        content_type: "text/plain; charset=utf-8".to_owned(),
        body,
    }
}

/// Adapter: the result of a fallible handler becomes a response in every
/// case, the success body passed through unchanged and the failure turned
/// into the fixed 500 response.
pub fn adapt_result(result: Result<String, String>) -> (r: HttpResponse)
    ensures
        result matches Ok(s) ==> r@ == (ResponseModel {
            status: 200,
            content_type: spec_text_plain(),
            body: s@,
        }),
        result matches Err(e) ==> r@ == (ResponseModel {
            status: 500,
            content_type: spec_text_plain(),
            body: spec_error_body(e@),
        }),
{
    match result {
        Ok(s) => HttpResponse {
            status: 200,
            content_type: "text/plain; charset=utf-8".to_owned(),
            body: s,
        },
        Err(e) => handle_error(e.as_str()),
    }
}

} // verus!
