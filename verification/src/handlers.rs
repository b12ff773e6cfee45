//! What each endpoint decides: given who asks and what they sent, what
//! happens to the registry and what is answered.
//!
//! These functions take plain values and give a [`Response`]. Reading a
//! request and writing the answer is the server's part.

use crate::auth::User;
use crate::model::{honored, looked_up, owns, removed, updated};
use crate::names::{drawn_for, random_short};
use crate::registry::Registry;
use crate::templates::{
    internal_server_error, internal_server_error_view, not_found, not_found_view, page,
    RegisteredTemplate, Response, ResponseView,
};
use crate::text::text_of;
use crate::time::{current_time, parse_rfc3339, rfc3339, Timestamp};
use crate::url::{limit_of, ShortenedUrl, ShortenedUrlView};
use vstd::prelude::*;
use vstd::string::StringExecFns;
use vstd::string::StrSliceExecFns;

verus! {

/// What the form for a registration or an edit carries.
#[derive(Debug)]
pub struct RegistrationInfo {
    /// Where the short name shall lead.
    pub target: String,
    /// The short name. A registration may leave it out; an edit may not.
    pub name: Option<String>,
    /// When the record runs out: a date and a time to the minute, as in
    /// `2030-01-31T18:30`, taken as UTC.
    pub expiration: Option<String>,
    /// How often the short name may be followed.
    pub max_uses: Option<usize>,
}

/// What the form for a removal carries.
#[derive(Debug)]
pub struct DeleteInfo {
    /// The short name to remove.
    pub name: String,
}

/// What the expiration field of a form stands for: no expiration where the
/// field is empty, an instant where the text, completed with seconds and the
/// mark of UTC, reads as a date, and the parser's reason where it does not.
pub open spec fn expiration_of(field: Option<Seq<char>>) -> Result<Option<Timestamp>, Seq<char>> {
    match field {
        None => Ok(None),
        Some(text) => match rfc3339(text + ":00Z"@) {
            Ok((secs, nanos)) => Ok(Some(Timestamp { secs, nanos })),
            Err(reason) => Err(reason),
        },
    }
}

/// The short name that a response confirms as registered, if it confirms one.
pub open spec fn registered_short(response: ResponseView) -> Option<Seq<char>> {
    match response {
        ResponseView::Registered { short, .. } => Some(short),
        _ => None,
    }
}

/// The answer to an expiration that does not read as a date, with the
/// parser's reason.
pub open spec fn unparsable(detail: Seq<char>) -> ResponseView {
    ResponseView::Text { status: 422, body: "Could not parse expiration: "@ + detail }
}

/// The answer to an edit that does not say which short name it is about.
pub open spec fn name_required_view() -> ResponseView {
    ResponseView::Text { status: 422, body: "field `name` is required"@ }
}

/// The answer to an edit of `name` that `caller` asked for in the registry `m`.
pub open spec fn edit_answer(
    m: Map<Seq<char>, ShortenedUrlView>,
    name: Seq<char>,
    caller: u32,
) -> ResponseView {
    if owns(m, name, caller) {
        ResponseView::Page { status: 200, content: "Sucessfully edited!"@ }
    } else {
        not_found_view()
    }
}

/// The answer to a removal of `name` that `caller` asked for in the registry `m`.
pub open spec fn remove_answer(
    m: Map<Seq<char>, ShortenedUrlView>,
    name: Seq<char>,
    caller: u32,
) -> ResponseView {
    if owns(m, name, caller) {
        ResponseView::Page { status: 200, content: "Sucessfully removed!"@ }
    } else {
        not_found_view()
    }
}

/// The short name that a request path asks for: the path without its first
/// character, the slash.
pub open spec fn short_name(path: Seq<char>) -> Seq<char> {
    if path.len() == 0 {
        path
    } else {
        path.subrange(1, path.len() as int)
    }
}

/// What following the path `path` at the instant `now` does: `before` and
/// `after` are the registry before and after, `response` is the answer.
pub open spec fn redirected(
    before: Map<Seq<char>, ShortenedUrlView>,
    path: Seq<char>,
    now: Timestamp,
    after: Map<Seq<char>, ShortenedUrlView>,
    response: ResponseView,
) -> bool {
    &&& after == looked_up(before, short_name(path), now)
    &&& response == if honored(before, short_name(path), now) {
        ResponseView::Redirect { to: before[short_name(path)].target }
    } else {
        not_found_view()
    }
}

/// The answer to an expiration that does not read as a date; `detail` is the
/// parser's reason.
pub fn could_not_parse(detail: &str) -> (response: Response<'static>)
    ensures
        response@ == unparsable(detail@),
{
    let mut body = "Could not parse expiration: ".to_owned();
    body.append(detail);
    Response::Text { status: 422, body }
}

/// Reads the expiration field of a form. The field holds a date and a time to
/// the minute; seconds and the mark of UTC are added before it is parsed.
///
/// An empty field means no expiration. A field that does not read as a date
/// is answered with status 422 and the parser's reason.
pub fn parse_date(expiration: Option<String>) -> (parsed: Result<
    Option<Timestamp>,
    Response<'static>,
>)
    ensures
        match expiration_of(text_of(expiration)) {
            Ok(instant) => parsed matches Ok(found) && found == instant,
            Err(reason) => parsed matches Err(response) && response@ == unparsable(reason),
        },
{
    match expiration {
        Some(text) => {
            let mut text = text;
            text.append(":00Z");
            match parse_rfc3339(text.as_str()) {
                Ok(instant) => Ok(Some(instant)),
                Err(reason) => Err(could_not_parse(reason.as_str())),
            }
        },
        None => Ok(None),
    }
}

/// Registers a short name for the signed-in user.
///
/// With a name in the form, that name stands for the new record from now on,
/// whatever it stood for before. Without one, random names are drawn and the
/// first that is free is taken, so that no record is replaced; where all of
/// them are taken, the answer is an internal error and nothing changes. The
/// new record has no uses yet.
///
/// Nothing changes either where nobody is signed in (an internal error: the
/// server should not have let the request through) or where the expiration
/// does not read as a date.
pub fn register(
    registry: &mut Registry,
    user: Option<&User>,
    host: String,
    info: RegistrationInfo,
) -> (response: Response<'static>)
    ensures
        match user {
            None => response@ == internal_server_error_view() && final(registry)@ == old(registry)@,
            Some(u) => match expiration_of(text_of(info.expiration)) {
                Err(reason) => response@ == unparsable(reason) && final(registry)@ == old(registry)@,
                Ok(expiration) => {
                    let url = ShortenedUrlView::fresh(
                        u@.id,
                        info.target@,
                        expiration,
                        limit_of(info.max_uses),
                    );
                    match info.name {
                        Some(name) => {
                            &&& response@ == (ResponseView::Registered { host: host@, short: name@ })
                            &&& final(registry)@ == old(registry)@.insert(name@, url)
                        },
                        None => {
                            &&& drawn_for(old(registry)@, registered_short(response@))
                            &&& match registered_short(response@) {
                                Some(short) => {
                                    &&& response@ == (ResponseView::Registered { host: host@, short })
                                    &&& final(registry)@ == old(registry)@.insert(short, url)
                                },
                                None => {
                                    &&& response@ == internal_server_error_view()
                                    &&& final(registry)@ == old(registry)@
                                },
                            }
                        },
                    }
                },
            },
        },
        info.name is None ==> forall|name: Seq<char>| #[trigger]
            old(registry)@.contains_key(name) ==> final(registry)@.contains_key(name)
                && final(registry)@[name] == old(registry)@[name],
{
    let owner = match user {
        Some(user) => user.id(),
        None => {
            return internal_server_error();
        },
    };
    let expiration = match parse_date(info.expiration) {
        Ok(expiration) => expiration,
        Err(response) => {
            return response;
        },
    };
    let short = match info.name {
        Some(name) => name,
        None => match random_short(registry) {
            Some(random) => random,
            None => {
                return internal_server_error();
            },
        },
    };
    let shortened = ShortenedUrl {
        owner,
        target: info.target,
        uses: 0,
        expiration,
        max_uses: info.max_uses,
    };
    registry.insert(short.clone(), shortened);
    Response::Registered(RegisteredTemplate { host, short })
}

/// Edits a record on behalf of the signed-in user: the record at the name in
/// the form gets the form's target and limits, and keeps its count of uses.
///
/// The answer is "not found", and nothing changes, unless the name stands for
/// a record of this user; a record of somebody else is answered like none.
/// Nothing changes either where nobody is signed in, where the form has no
/// name, or where the expiration does not read as a date.
pub fn edit(registry: &mut Registry, user: Option<&User>, info: RegistrationInfo) -> (response:
    Response<'static>)
    ensures
        match user {
            None => response@ == internal_server_error_view() && final(registry)@ == old(registry)@,
            Some(u) => match info.name {
                None => response@ == name_required_view() && final(registry)@ == old(registry)@,
                Some(name) => match expiration_of(text_of(info.expiration)) {
                    Err(reason) => {
                        &&& response@ == unparsable(reason)
                        &&& final(registry)@ == old(registry)@
                    },
                    Ok(expiration) => {
                        &&& response@ == edit_answer(old(registry)@, name@, u@.id)
                        &&& final(registry)@ == updated(
                            old(registry)@,
                            name@,
                            u@.id,
                            info.target@,
                            expiration,
                            limit_of(info.max_uses),
                        )
                    },
                },
            },
        },
{
    let owner = match user {
        Some(user) => user.id(),
        None => {
            return internal_server_error();
        },
    };
    let name = match info.name {
        Some(name) => name,
        None => {
            return Response::Text { status: 422, body: "field `name` is required".to_owned() };
        },
    };
    let expiration = match parse_date(info.expiration) {
        Ok(expiration) => expiration,
        Err(response) => {
            return response;
        },
    };
    match registry.update(name.as_str(), owner, info.target, expiration, info.max_uses) {
        Ok(()) => page("Sucessfully edited!"),
        Err(_) => not_found(),
    }
}

/// Removes a record on behalf of the signed-in user.
///
/// The answer is "not found", and nothing changes, unless the name stands for
/// a record of this user; a record of somebody else is answered like none.
/// Where nobody is signed in the answer is an internal error.
pub fn remove(registry: &mut Registry, user: Option<&User>, info: DeleteInfo) -> (response: Response<
    'static,
>)
    ensures
        match user {
            None => response@ == internal_server_error_view() && final(registry)@ == old(registry)@,
            Some(u) => {
                &&& response@ == remove_answer(old(registry)@, info.name@, u@.id)
                &&& final(registry)@ == removed(old(registry)@, info.name@, u@.id)
            },
        },
{
    let owner = match user {
        Some(user) => user.id(),
        None => {
            return internal_server_error();
        },
    };
    match registry.remove(info.name.as_str(), owner) {
        Ok(()) => page("Sucessfully removed!"),
        Err(_) => not_found(),
    }
}

/// The records of `user`: each of them once, and no others.
pub fn list(registry: &Registry, user: &User) -> (urls: Vec<ShortenedUrl>)
    ensures
        registry.owned_names(user@.id).no_duplicates(),
        forall|name: Seq<char>|
            registry.owned_names(user@.id).contains(name) <==> owns(registry@, name, user@.id),
        urls@.len() == registry.owned_names(user@.id).len(),
        forall|i: int|
            0 <= i < urls@.len() ==> (#[trigger] urls@[i])@ == registry@[registry.owned_names(
                user@.id,
            )[i]],
{
    registry.list(user.id())
}

/// The short name that the request path `path` asks for.
pub fn short_of(path: &str) -> (short: &str)
    ensures
        short@ == short_name(path@),
{
    let len = path.unicode_len();
    if len == 0 {
        path
    } else {
        path.substring_char(1, len)
    }
}

/// Follows the short name in the request path `path` at the instant `now`:
/// counts the use, and redirects to the target unless the record has run out.
/// A record that has run out is removed, and the answer is "not found", as it
/// is where the name stands for nothing.
///
/// The count of uses must have room for one more.
pub fn redirect_at(registry: &mut Registry, path: &str, now: Timestamp) -> (response: Response<
    'static,
>)
    requires
        old(registry)@.contains_key(short_name(path@)) ==> old(registry)@[short_name(path@)].uses
            < usize::MAX,
    ensures
        redirected(old(registry)@, path@, now, final(registry)@, response@),
{
    match registry.lookup(short_of(path), now) {
        Ok(target) => Response::Redirect { to: target },
        Err(_) => not_found(),
    }
}

/// Follows the short name in the request path `path` now, by the system's
/// clock: see [`redirect_at`].
///
/// The count of uses must have room for one more.
pub fn redirect(registry: &mut Registry, path: &str) -> (response: Response<'static>)
    requires
        old(registry)@.contains_key(short_name(path@)) ==> old(registry)@[short_name(path@)].uses
            < usize::MAX,
    ensures
        exists|now: Timestamp| redirected(old(registry)@, path@, now, final(registry)@, response@),
{
    redirect_at(registry, path, current_time())
}

/// What is registered can be followed: once `name` stands for a record that
/// has not been followed yet, asking for the path `/name` redirects to exactly
/// the record's target, and counts one use. This holds unless the record runs
/// out with that first use: its expiration has passed already, or it allows
/// no use at all.
pub proof fn lemma_registered_name_redirects(
    m: Map<Seq<char>, ShortenedUrlView>,
    name: Seq<char>,
    url: ShortenedUrlView,
    now: Timestamp,
    after: Map<Seq<char>, ShortenedUrlView>,
    response: ResponseView,
)
    requires
        url.uses == 0,
        !(url.expiration matches Some(t) && t.before(now)),
        url.max_uses != Some(0nat),
        redirected(m.insert(name, url), seq!['/'] + name, now, after, response),
    ensures
        response == (ResponseView::Redirect { to: url.target }),
        after == m.insert(name, url.used()),
{
    let path = seq!['/'] + name;
    assert(short_name(path) =~= name);
    assert(after =~= m.insert(name, url.used()));
}

/// Nobody can tell a record of somebody else from none: asking to edit or to
/// remove it is answered "not found", exactly as for a name that stands for
/// nothing.
pub proof fn lemma_foreign_is_not_found(
    m: Map<Seq<char>, ShortenedUrlView>,
    name: Seq<char>,
    caller: u32,
)
    requires
        m.contains_key(name),
        m[name].owner != caller,
    ensures
        edit_answer(m, name, caller) == not_found_view(),
        edit_answer(m, name, caller) == edit_answer(m.remove(name), name, caller),
        remove_answer(m, name, caller) == not_found_view(),
        remove_answer(m, name, caller) == remove_answer(m.remove(name), name, caller),
{
}

} // verus!
