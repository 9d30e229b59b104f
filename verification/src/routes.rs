use vstd::prelude::*;
use vstd::string::StringExecFns;

use crate::fallible::{
    adapt_result, spec_error_body, spec_failure_message, spec_success_body,
    thing_that_might_fail_with,
};
use crate::json::{spec_json_object, Address};
use crate::response::{
    spec_application_json, spec_text_ok, text_response, HttpResponse, Method, ResponseModel,
};
use crate::strutil::str_eq;

verus! {

/// Body of the handler bound to `GET /`.
pub fn root() -> (r: String)
    ensures
        r@ == "hello"@,
{
    "hello".to_owned()
}

/// Body of the handler bound to `GET /foo`.
pub fn get_foo() -> (r: String)
    ensures
        r@ == "foo"@,
{
    "foo".to_owned()
}

/// Body of the handler bound to `POST /foo`.
pub fn post_foo() -> (r: String)
    ensures
        r@ == "post_foo"@,
{
    "post_foo".to_owned()
}

/// Body of the handler bound to `GET /foo/bar`.
pub fn foo_bar() -> (r: String)
    ensures
        r@ == "foo_bar"@,
{
    "foo_bar".to_owned()
}

/// Body of the handler bound to `GET /plain_text`.
pub fn plain_text() -> (r: &'static str)
    ensures
        r@ == "foo"@,
{
    "foo"
}

/// The fixed address that the JSON route serves.
pub fn default_address() -> (r: Address)
    ensures
        r.street@ == "10 Downing Street"@,
        r.city@ == "London"@,
{
    Address { street: "10 Downing Street".to_owned(), city: "London".to_owned() }
}

/// The model of the JSON route's response.
pub open spec fn spec_json_response() -> ResponseModel {
    ResponseModel {
        status: 200,
        content_type: spec_application_json(),
        body: spec_json_object("10 Downing Street"@, "London"@),
    }
}

/// Handler bound to `GET /json`: the fixed address as a JSON response.
pub fn json() -> (r: HttpResponse)
    ensures
        r@ == spec_json_response(),
{
    let address = default_address();
    let body = address.to_json();
    HttpResponse { status: 200, content_type: "application/json".to_owned(), body }
}

/// The model of the `/error` route's response for a given draw: a 500
/// carrying the failure message when the computation fails, a 200 carrying
/// the success body when it does not.
pub open spec fn spec_error_route(fails: bool) -> ResponseModel {
    if fails {
        ResponseModel {
            status: 500,
            content_type: crate::response::spec_text_plain(),
            body: spec_error_body(spec_failure_message()),
        }
    } else {
        spec_text_ok(spec_success_body())
    }
}

/// The routing table: the response owed to a method and path, `None` where
/// no route matches. The draw decides only the `/error` route's outcome.
pub open spec fn spec_route(m: Method, path: Seq<char>, fails: bool) -> Option<ResponseModel> {
    if path == "/"@ {
        if m == Method::Get {
            Some(spec_text_ok("hello"@))
        } else {
            None
        }
    } else if path == "/foo"@ {
        if m == Method::Get {
            Some(spec_text_ok("foo"@))
        } else {
            Some(spec_text_ok("post_foo"@))
        }
    } else if path == "/foo/bar"@ {
        if m == Method::Get {
            Some(spec_text_ok("foo_bar"@))
        } else {
            None
        }
    } else if path == "/plain_text"@ {
        if m == Method::Get {
            Some(spec_text_ok("foo"@))
        } else {
            None
        }
    } else if path == "/json"@ {
        if m == Method::Get {
            Some(spec_json_response())
        } else {
            None
        }
    } else if path == "/error"@ {
        if m == Method::Get {
            Some(spec_error_route(fails))
        } else {
            None
        }
    } else {
        None
    }
}

/// Matches a request against the routing table and runs the bound handler,
/// with the `/error` outcome decided by the given draw.
pub fn dispatch(method: Method, path: &str, error_fails: bool) -> (r: Option<HttpResponse>)
    ensures
        match spec_route(method, path@, error_fails) {
            Some(model) => r matches Some(resp) && resp@ == model,
            None => r is None,
        },
{
    if str_eq(path, "/") {
        match method {
            Method::Get => Some(text_response(root())),
            Method::Post => None,
        }
    } else if str_eq(path, "/foo") {
        match method {
            Method::Get => Some(text_response(get_foo())),
            Method::Post => Some(text_response(post_foo())),
        }
    } else if str_eq(path, "/foo/bar") {
        match method {
            Method::Get => Some(text_response(foo_bar())),
            Method::Post => None,
        }
    } else if str_eq(path, "/plain_text") {
        match method {
            Method::Get => Some(text_response(String::from_str(plain_text()))),
            Method::Post => None,
        }
    } else if str_eq(path, "/json") {
        match method {
            Method::Get => Some(json()),
            Method::Post => None,
        }
    } else if str_eq(path, "/error") {
        match method {
            Method::Get => Some(adapt_result(thing_that_might_fail_with(error_fails))),
            Method::Post => None,
        }
    } else {
        None
    }
}

/// Dispatches a request, drawing the `/error` outcome at random. Whatever
/// the draw, a route matches exactly when the table has it, and the
/// response is the table's under one of the two draws.
pub fn handle_request(method: Method, path: &str) -> (r: Option<HttpResponse>)
    ensures
        r is Some <==> spec_route(method, path@, true) is Some,
        r matches Some(resp) ==> resp@ == spec_route(method, path@, true).unwrap() || resp@
            == spec_route(method, path@, false).unwrap(),
{
    let fails: bool = rand::random();
    dispatch(method, path, fails)
}

/// The JSON route's body is literally the expected object text: neither
/// field of the fixed address holds a character that escaping changes.
pub proof fn lemma_json_body_literal()
    ensures
        spec_json_response().body == "{\"street\":\"10 Downing Street\",\"city\":\"London\"}"@,
{
    reveal_strlit("10 Downing Street");
    reveal_strlit("London");
    reveal_strlit("{\"street\":\"");
    reveal_strlit("\",\"city\":\"");
    reveal_strlit("\"}");
    reveal_strlit("{\"street\":\"10 Downing Street\",\"city\":\"London\"}");
    let street = "10 Downing Street"@;
    let city = "London"@;
    assert(forall|i: int| 0 <= i < street.len() ==> !crate::json::spec_needs_escape(
        #[trigger] street[i],
    ));
    assert(forall|i: int| 0 <= i < city.len() ==> !crate::json::spec_needs_escape(
        #[trigger] city[i],
    ));
    crate::json::lemma_escape_plain(street);
    crate::json::lemma_escape_plain(city);
    assert(spec_json_object(street, city)
        =~= "{\"street\":\"10 Downing Street\",\"city\":\"London\"}"@);
}

/// The routing table is a pure function of method and path: away from the
/// random `/error` route the draw changes nothing, so repeated identical
/// requests are owed identical responses.
pub proof fn lemma_routes_stateless(m: Method, path: Seq<char>, f1: bool, f2: bool)
    requires
        path != "/error"@,
    ensures
        spec_route(m, path, f1) == spec_route(m, path, f2),
{
}

/// Both outcomes of the `/error` route are reachable: one draw is owed the
/// success response, the other the failure response, and the two differ.
pub proof fn lemma_error_both_branches()
    ensures
        spec_error_route(false).status == 200,
        spec_error_route(false).body == spec_success_body(),
        spec_error_route(true).status == 500,
        spec_error_route(true).body == spec_error_body(spec_failure_message()),
        spec_error_route(true) != spec_error_route(false),
{
}

} // verus!
