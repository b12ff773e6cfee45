//! What an endpoint answers: the pages, and the other kinds of response.
//!
//! Nothing here renders HTML or speaks HTTP. A [`Response`] says which answer
//! is due, with the values that go into it; turning it into bytes on the wire
//! is left to the server around this library.

use vstd::prelude::*;

verus! {

/// The plain page: one line of text in the site's frame.
#[derive(Debug, Clone, Copy, PartialEq, Eq)]
pub struct BaseTemplate<'a> {
    pub content: &'a str,
}

/// The login page, with the address at the identity provider to send the user to.
#[derive(Debug, Clone, Copy, PartialEq, Eq)]
pub struct LoginTemplate<'a> {
    pub redirect_url: &'a str,
}

/// The page shown after a registration: the short name and the host it lives on.
#[derive(Debug, PartialEq, Eq)]
pub struct RegisteredTemplate {
    pub host: String,
    pub short: String,
}

/// An answer to a request.
#[derive(Debug, PartialEq, Eq)]
pub enum Response<'a> {
    /// The plain page, sent with the given status code.
    Page { status: u16, page: BaseTemplate<'a> },
    /// The login page, status 200.
    Login(LoginTemplate<'a>),
    /// The confirmation of a registration, status 200.
    Registered(RegisteredTemplate),
    /// A line of plain text, sent with the given status code.
    Text { status: u16, body: String },
    /// A status code with an empty body.
    Empty { status: u16 },
    /// A redirect to the given address.
    Redirect { to: String },
}

/// A [`Response`] as a mathematical value: each text as its sequence of characters.
pub enum ResponseView {
    Page { status: u16, content: Seq<char> },
    Login { redirect_url: Seq<char> },
    Registered { host: Seq<char>, short: Seq<char> },
    Text { status: u16, body: Seq<char> },
    Empty { status: u16 },
    Redirect { to: Seq<char> },
}

impl<'a> View for Response<'a> {
    type V = ResponseView;

    open spec fn view(&self) -> ResponseView {
        match *self {
            Response::Page { status, page } => ResponseView::Page { status, content: page.content@ },
            Response::Login(page) => ResponseView::Login { redirect_url: page.redirect_url@ },
            Response::Registered(page) => ResponseView::Registered {
                host: page.host@,
                short: page.short@,
            },
            Response::Text { status, body } => ResponseView::Text { status, body: body@ },
            Response::Empty { status } => ResponseView::Empty { status },
            Response::Redirect { to } => ResponseView::Redirect { to: to@ },
        }
    }
}

/// The answer "404 Not Found" as a value.
pub open spec fn not_found_view() -> ResponseView {
    ResponseView::Page { status: 404, content: "404 Not Found"@ }
}

/// The answer "500 Internal Server Error" as a value.
pub open spec fn internal_server_error_view() -> ResponseView {
    ResponseView::Page { status: 500, content: "500 Internal Server Error"@ }
}

/// The answer to a request for something that is not there, or not the caller's.
pub fn not_found() -> (response: Response<'static>)
    ensures
        response@ == not_found_view(),
{
    Response::Page { status: 404, page: BaseTemplate { content: "404 Not Found" } }
}

/// The answer to a request that the server itself could not carry out.
pub fn internal_server_error() -> (response: Response<'static>)
    ensures
        response@ == internal_server_error_view(),
{
    Response::Page { status: 500, page: BaseTemplate { content: "500 Internal Server Error" } }
}

/// The plain page with the given line, status 200.
pub fn page<'a>(content: &'a str) -> (response: Response<'a>)
    ensures
        response@ == (ResponseView::Page { status: 200, content: content@ }),
{
    Response::Page { status: 200, page: BaseTemplate { content } }
}

} // verus!
