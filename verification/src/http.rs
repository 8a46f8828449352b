//! The HTTP surface: which request goes where, and the responses that do
//! not depend on a job.

use vstd::prelude::*;

verus! {

/// Status of a response that delivers what was asked for.
pub const STATUS_OK: u16 = 200;

/// Status of a response to a request that lacks a required part.
pub const STATUS_BAD_REQUEST: u16 = 400;

/// Status of a response to a request that no route matches.
pub const STATUS_NOT_FOUND: u16 = 404;

/// Status of a response to a request that failed on the server's side.
pub const STATUS_INTERNAL_ERROR: u16 = 500;

/// A status code and a body of text.
#[derive(Clone, Debug, PartialEq, Eq)]
pub struct Response {
    pub status: u16,
    pub body: String,
}

/// A `Response` as plain values.
pub struct ResponseView {
    pub status: u16,
    pub body: Seq<char>,
}

impl View for Response {
    type V = ResponseView;

    open spec fn view(&self) -> ResponseView {
        ResponseView { status: self.status, body: self.body@ }
    }
}

/// The method of a request, as far as routing tells methods apart.
#[derive(Clone, Copy, Debug, PartialEq, Eq, Structural)]
pub enum Method {
    Get,
    Post,
    Other,
}

/// What a request is for.
#[derive(Clone, Copy, Debug, PartialEq, Eq, Structural)]
pub enum Route {
    /// The landing page.
    Landing,
    /// A conversion.
    Convert,
    /// Nothing that the server offers.
    NotFound,
}

/// The route of a request: the root path leads to the landing page when
/// read and to a conversion when posted to; nothing else is offered.
pub open spec fn route_of(method: Method, path: Seq<char>) -> Route {
    if path == seq!['/'] {
        match method {
            Method::Get => Route::Landing,
            Method::Post => Route::Convert,
            Method::Other => Route::NotFound,
        }
    } else {
        Route::NotFound
    }
}

/// The response to a request that no route matches.
pub open spec fn not_found_response() -> ResponseView {
    ResponseView { status: STATUS_NOT_FOUND, body: "Wow. Such 404."@ }
}

/// The route of the request with this method and path.
pub fn route(method: Method, path: &str) -> (r: Route)
    ensures
        r == route_of(method, path@),
{
    if path.unicode_len() == 1 && path.get_char(0) == '/' {
        assert(path@ =~= seq!['/']);
        match method {
            Method::Get => Route::Landing,
            Method::Post => Route::Convert,
            Method::Other => Route::NotFound,
        }
    } else {
        assert(seq!['/'].len() == 1 && seq!['/'][0] == '/');
        Route::NotFound
    }
}

/// The response to a request that no route matches: always the same.
pub fn not_found() -> (response: Response)
    ensures
        response@ == not_found_response(),
{
    Response { status: STATUS_NOT_FOUND, body: String::from_str("Wow. Such 404.") }
}

/// What the server answers when handling a request ended in an error:
/// the fixed response if the error is that no route matched, and nothing
/// otherwise, so that any other error goes on as it is.
pub fn recover_unrouted(no_route: bool) -> (response: Option<Response>)
    ensures
        response is Some <==> no_route,
        response matches Some(r) ==> r@ == not_found_response(),
{
    if no_route {
        Some(not_found())
    } else {
        None
    }
}

/// The landing page: the template's name and the fields it is filled with.
#[derive(Clone, Debug, PartialEq, Eq)]
pub struct LandingPage {
    pub template: String,
    pub fields: Vec<(String, String)>,
}

/// A `LandingPage` as plain values.
pub struct LandingPageView {
    pub template: Seq<char>,
    pub fields: Seq<(Seq<char>, Seq<char>)>,
}

impl View for LandingPage {
    type V = LandingPageView;

    open spec fn view(&self) -> LandingPageView {
        LandingPageView { template: self.template@, fields: self.fields.deep_view() }
    }
}

/// The landing page of this version of the service.
pub open spec fn landing_page_spec() -> LandingPageView {
    LandingPageView { template: "welcome"@, fields: seq![("version"@, "1.0"@)] }
}

/// The landing page: the template `welcome`, with the version as its one
/// field.
pub fn landing_page() -> (page: LandingPage)
    ensures
        page@ == landing_page_spec(),
{
    let mut fields: Vec<(String, String)> = Vec::new();
    fields.push((String::from_str("version"), String::from_str("1.0")));
    let page = LandingPage { template: String::from_str("welcome"), fields };
    assert(page@.fields =~= landing_page_spec().fields);
    page
}

} // verus!
