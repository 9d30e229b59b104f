use vstd::prelude::*;

verus! {

/// HTTP method of a request, as far as the routing table distinguishes them.
#[derive(Clone, Copy, PartialEq, Eq, Structural, Debug)]
pub enum Method {
    Get,
    Post,
}

/// Mathematical model of an HTTP response: status code, content type and body.
pub ghost struct ResponseModel {
    pub status: int,
    pub content_type: Seq<char>,
    pub body: Seq<char>,
}

/// An HTTP response as the dispatcher produces it.
pub struct HttpResponse {
    pub status: u16,
    pub content_type: String,
    pub body: String,
}

impl View for HttpResponse {
    type V = ResponseModel;

    open spec fn view(&self) -> ResponseModel {
        ResponseModel {
            status: self.status as int,
            content_type: self.content_type@,
            body: self.body@,
        }
    }
}

/// Content type of every plain-text route.
pub open spec fn spec_text_plain() -> Seq<char> {
    "text/plain; charset=utf-8"@
}

/// Content type of the JSON route.
pub open spec fn spec_application_json() -> Seq<char> {
    "application/json"@
}

/// The model of a 200 plain-text response with the given body.
pub open spec fn spec_text_ok(body: Seq<char>) -> ResponseModel {
    ResponseModel { status: 200, content_type: spec_text_plain(), body }
}

/// Wraps a body in a 200 plain-text response.
pub fn text_response(body: String) -> (r: HttpResponse)
    ensures
        r@ == spec_text_ok(body@),
{
    HttpResponse {
        status: 200,
        content_type: "text/plain; charset=utf-8".to_owned(),
        body,
    }
}

} // verus!
