//! Signing in through the identity provider, one decision at a time.
//!
//! Signing in takes several steps that only the server can do: keep a value
//! in the session, ask the provider, mark the session as signed in. Between
//! those steps something has to decide what comes next. That is what stands
//! here: for each endpoint a small machine that is told how the last step
//! went and answers with the next step, or with the response that ends the
//! request.

use crate::auth::{Credentials, User};
use crate::templates::{
    internal_server_error, internal_server_error_view, page, LoginTemplate, Response, ResponseView,
};
use vstd::prelude::*;

verus! {

/// The key under which the session keeps the state handed to the provider.
pub const CSRF_STATE_KEY: &'static str = "oauth.csrf-state";

/// The key under which the session keeps where to go after signing in.
pub const NEXT_URL_KEY: &'static str = "oauth.next-url";

/// How far a request for the login page has come.
#[derive(Debug, Clone, Copy, PartialEq, Eq, Structural)]
pub enum LoginState {
    /// The state for the provider is being put into the session.
    SavingState,
    /// The address to return to is being put into the session.
    SavingNextUrl,
    /// The response has been given.
    Finished,
}

/// What the server is to do next for a request for the login page.
#[derive(Debug, PartialEq, Eq)]
pub enum LoginAction<'a> {
    /// Put the address to return to into the session, under [`NEXT_URL_KEY`].
    SaveNextUrl,
    /// Answer with this response.
    Respond(Response<'a>),
}

/// Begins a request for the login page. The server first puts the state for
/// the provider into the session, under [`CSRF_STATE_KEY`], and tells
/// [`login_step`] how that went.
pub fn login_begin() -> (state: LoginState)
    ensures
        state == LoginState::SavingState,
{
    LoginState::SavingState
}

/// Decides how a request for the login page goes on. `saved` tells whether
/// the session took what was last put into it; `url` is the provider's
/// address for this login.
///
/// Both values must be in the session before the login page is shown; if the
/// session refuses either, the answer is an internal error.
pub fn login_step<'a>(state: LoginState, saved: bool, url: &'a str) -> (next: (
    LoginState,
    LoginAction<'a>,
))
    ensures
        match (state, saved) {
            (LoginState::SavingState, true) => {
                &&& next.0 == LoginState::SavingNextUrl
                &&& next.1 is SaveNextUrl
            },
            (LoginState::SavingNextUrl, true) => {
                &&& next.0 == LoginState::Finished
                &&& next.1 matches LoginAction::Respond(response)
                &&& response@ == (ResponseView::Login { redirect_url: url@ })
            },
            _ => {
                &&& next.0 == LoginState::Finished
                &&& next.1 matches LoginAction::Respond(response)
                &&& response@ == internal_server_error_view()
            },
        },
{
    match (state, saved) {
        (LoginState::SavingState, true) => (LoginState::SavingNextUrl, LoginAction::SaveNextUrl),
        (LoginState::SavingNextUrl, true) => (
            LoginState::Finished,
            LoginAction::Respond(Response::Login(LoginTemplate { redirect_url: url })),
        ),
        _ => (LoginState::Finished, LoginAction::Respond(internal_server_error())),
    }
}

/// How the provider's check of the credentials went.
#[derive(Debug)]
pub enum Authentication {
    /// The provider vouches for this user.
    Accepted(User),
    /// The state that came back is not the one that was handed out.
    Rejected,
    /// The provider could not be asked, or did not answer as expected.
    Failed,
}

/// How far a request on the way back from the provider has come.
#[derive(Debug)]
pub enum CallbackState {
    /// The state kept in the session is being fetched; `code` and `state` are
    /// what came back from the provider.
    FetchingState { code: String, state: String },
    /// The credentials are being checked.
    Authenticating,
    /// The session is being marked as signed in.
    LoggingIn,
    /// The address to return to is being taken out of the session.
    TakingNextUrl,
    /// The response has been given.
    Finished,
}

/// How the step that the server was last asked to do went.
#[derive(Debug)]
pub enum CallbackEvent {
    /// What the session kept under [`CSRF_STATE_KEY`]; `None` where it kept
    /// nothing, or could not be read.
    StoredState(Option<String>),
    /// How the check of the credentials went.
    Authenticated(Authentication),
    /// Whether the session could be marked as signed in.
    LoggedIn(bool),
    /// What the session kept under [`NEXT_URL_KEY`]; `None` where it kept
    /// nothing, or could not be read.
    NextUrl(Option<String>),
}

/// What the server is to do next for a request on the way back from the
/// provider.
#[derive(Debug)]
pub enum CallbackAction {
    /// Check these credentials and sign the user in with the provider.
    Authenticate(Credentials),
    /// Mark the session as signed in as this user.
    LogIn(User),
    /// Take the address to return to out of the session.
    TakeNextUrl,
    /// Answer with this response.
    Respond(Response<'static>),
}

/// The answer to a request that came back with a state that was not handed out.
pub open spec fn invalid_state_view() -> ResponseView {
    ResponseView::Text { status: 401, body: "invalid CSRF state"@ }
}

/// Where a user lands after signing in: at the address kept for them, or at
/// the front page.
pub open spec fn landing(next: Option<String>) -> Seq<char> {
    match next {
        Some(to) => to@,
        None => "/"@,
    }
}

/// Begins a request on the way back from the provider, which brought `code`
/// and `state`. The server first fetches what the session keeps under
/// [`CSRF_STATE_KEY`], and tells [`callback_step`] what it found.
pub fn callback_begin(code: String, state: String) -> (begun: CallbackState)
    ensures
        begun matches CallbackState::FetchingState { code: c, state: s } && c@ == code@ && s@
            == state@,
{
    CallbackState::FetchingState { code, state }
}

/// Decides how a request on the way back from the provider goes on.
///
/// A session that kept no state is answered with status 400. With a state,
/// the credentials are checked; a state that does not match is answered with
/// status 401. A user that the provider vouches for is signed in, and sent
/// on to where they wanted to go, or to the front page. Whatever else goes
/// wrong, or an event that does not answer the step asked for, is answered
/// with an internal error.
pub fn callback_step(state: CallbackState, event: CallbackEvent) -> (next: (
    CallbackState,
    CallbackAction,
))
    ensures
        match (state, event) {
            (
                CallbackState::FetchingState { code, state: new_state },
                CallbackEvent::StoredState(Some(old_state)),
            ) => {
                &&& next.0 is Authenticating
                &&& next.1 matches CallbackAction::Authenticate(creds)
                &&& creds.code@ == code@
                &&& creds.old_state@ == old_state@
                &&& creds.new_state@ == new_state@
            },
            (CallbackState::FetchingState { .. }, CallbackEvent::StoredState(None)) => {
                &&& next.0 is Finished
                &&& next.1 matches CallbackAction::Respond(response)
                &&& response@ == (ResponseView::Empty { status: 400 })
            },
            (
                CallbackState::Authenticating,
                CallbackEvent::Authenticated(Authentication::Accepted(user)),
            ) => {
                &&& next.0 is LoggingIn
                &&& next.1 matches CallbackAction::LogIn(signed_in)
                &&& signed_in@ == user@
            },
            (CallbackState::Authenticating, CallbackEvent::Authenticated(Authentication::Rejected)) => {
                &&& next.0 is Finished
                &&& next.1 matches CallbackAction::Respond(response)
                &&& response@ == invalid_state_view()
            },
            (CallbackState::LoggingIn, CallbackEvent::LoggedIn(true)) => {
                &&& next.0 is TakingNextUrl
                &&& next.1 is TakeNextUrl
            },
            (CallbackState::TakingNextUrl, CallbackEvent::NextUrl(url)) => {
                &&& next.0 is Finished
                &&& next.1 matches CallbackAction::Respond(response)
                &&& response@ == (ResponseView::Redirect { to: landing(url) })
            },
            _ => {
                &&& next.0 is Finished
                &&& next.1 matches CallbackAction::Respond(response)
                &&& response@ == internal_server_error_view()
            },
        },
{
    match (state, event) {
        (
            CallbackState::FetchingState { code, state: new_state },
            CallbackEvent::StoredState(Some(old_state)),
        ) => (
            CallbackState::Authenticating,
            CallbackAction::Authenticate(Credentials { code, old_state, new_state }),
        ),
        (CallbackState::FetchingState { .. }, CallbackEvent::StoredState(None)) => (
            CallbackState::Finished,
            CallbackAction::Respond(Response::Empty { status: 400 }),
        ),
        (
            CallbackState::Authenticating,
            CallbackEvent::Authenticated(Authentication::Accepted(user)),
        ) => (CallbackState::LoggingIn, CallbackAction::LogIn(user)),
        (CallbackState::Authenticating, CallbackEvent::Authenticated(Authentication::Rejected)) => (
            CallbackState::Finished,
            CallbackAction::Respond(
                Response::Text { status: 401, body: "invalid CSRF state".to_owned() },
            ),
        ),
        (CallbackState::LoggingIn, CallbackEvent::LoggedIn(true)) => (
            CallbackState::TakingNextUrl,
            CallbackAction::TakeNextUrl,
        ),
        (CallbackState::TakingNextUrl, CallbackEvent::NextUrl(Some(to))) => (
            CallbackState::Finished,
            CallbackAction::Respond(Response::Redirect { to }),
        ),
        (CallbackState::TakingNextUrl, CallbackEvent::NextUrl(None)) => (
            CallbackState::Finished,
            CallbackAction::Respond(Response::Redirect { to: "/".to_owned() }),
        ),
        _ => (CallbackState::Finished, CallbackAction::Respond(internal_server_error())),
    }
}

/// The answer to a request to sign out; `signed_out` tells whether the
/// session let go of the user.
pub fn logout<'a>(signed_out: bool) -> (response: Response<'a>)
    ensures
        response@ == if signed_out {
            ResponseView::Page { status: 200, content: "Logged out."@ }
        } else {
            internal_server_error_view()
        },
{
    if signed_out {
        page("Logged out.")
    } else {
        internal_server_error()
    }
}

} // verus!
