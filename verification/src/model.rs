//! The registry as mathematics: a map from short names to records, the
//! functions that say what each operation does to it, and what follows from
//! them.

use crate::time::Timestamp;
use crate::url::ShortenedUrlView;
use vstd::prelude::*;

verus! {

/// `owner` is the one who may edit or remove what stands at `name`: there is a
/// record at `name`, and it is theirs.
pub open spec fn owns(m: Map<Seq<char>, ShortenedUrlView>, name: Seq<char>, owner: u32) -> bool {
    m.contains_key(name) && m[name].owner == owner
}

/// The registry after `owner` has asked to edit `name`: the record is edited
/// where it is theirs, and nothing happens otherwise.
pub open spec fn updated(
    m: Map<Seq<char>, ShortenedUrlView>,
    name: Seq<char>,
    owner: u32,
    target: Seq<char>,
    expiration: Option<Timestamp>,
    max_uses: Option<nat>,
) -> Map<Seq<char>, ShortenedUrlView> {
    if owns(m, name, owner) {
        m.insert(name, m[name].edited(target, expiration, max_uses))
    } else {
        m
    }
}

/// The registry after `owner` has asked to remove `name`: the record is gone
/// where it was theirs, and nothing happens otherwise.
pub open spec fn removed(
    m: Map<Seq<char>, ShortenedUrlView>,
    name: Seq<char>,
    owner: u32,
) -> Map<Seq<char>, ShortenedUrlView> {
    if owns(m, name, owner) {
        m.remove(name)
    } else {
        m
    }
}

/// Following `name` at the instant `now` leads somewhere: there is a record at
/// `name`, and counting this use it has not run out.
pub open spec fn honored(m: Map<Seq<char>, ShortenedUrlView>, name: Seq<char>, now: Timestamp) -> bool {
    m.contains_key(name) && !m[name].used().expired(now)
}

/// The registry after `name` has been followed at the instant `now`: the use is
/// counted; a record that has run out with it is gone.
pub open spec fn looked_up(
    m: Map<Seq<char>, ShortenedUrlView>,
    name: Seq<char>,
    now: Timestamp,
) -> Map<Seq<char>, ShortenedUrlView> {
    if !m.contains_key(name) {
        m
    } else if m[name].used().expired(now) {
        m.remove(name)
    } else {
        m.insert(name, m[name].used())
    }
}

/// The registry after `name` has been followed once at each of the instants
/// `nows`, in their order.
pub open spec fn followed(
    m: Map<Seq<char>, ShortenedUrlView>,
    name: Seq<char>,
    nows: Seq<Timestamp>,
) -> Map<Seq<char>, ShortenedUrlView>
    decreases nows.len(),
{
    if nows.len() == 0 {
        m
    } else {
        looked_up(followed(m, name, nows.drop_last()), name, nows.last())
    }
}

/// One thing that can happen to a registry.
pub enum Operation {
    /// A registration: `name` stands for `url` from now on.
    Insert { name: Seq<char>, url: ShortenedUrlView },
    /// `owner` asks to edit the record at `name`.
    Update {
        name: Seq<char>,
        owner: u32,
        target: Seq<char>,
        expiration: Option<Timestamp>,
        max_uses: Option<nat>,
    },
    /// `owner` asks to remove the record at `name`.
    Remove { name: Seq<char>, owner: u32 },
    /// Somebody follows `name` at the instant `now`.
    Lookup { name: Seq<char>, now: Timestamp },
}

impl Operation {
    /// The registry after this has happened to `m`.
    pub open spec fn apply(self, m: Map<Seq<char>, ShortenedUrlView>) -> Map<
        Seq<char>,
        ShortenedUrlView,
    > {
        match self {
            Operation::Insert { name, url } => m.insert(name, url),
            Operation::Update { name, owner, target, expiration, max_uses } => updated(
                m,
                name,
                owner,
                target,
                expiration,
                max_uses,
            ),
            Operation::Remove { name, owner } => removed(m, name, owner),
            Operation::Lookup { name, now } => looked_up(m, name, now),
        }
    }

    /// This registers `name` anew.
    pub open spec fn registers(self, name: Seq<char>) -> bool {
        self matches Operation::Insert { name: n, .. } && n == name
    }

    /// This follows `name`.
    pub open spec fn follows(self, name: Seq<char>) -> bool {
        self matches Operation::Lookup { name: n, .. } && n == name
    }
}

/// The count of uses of a record never goes down, and it goes up by exactly
/// one each time the record's name is followed: whatever happens to a
/// registry, a record that is there before and after has as many uses as
/// before, and one more if its name was followed. Only a new registration
/// under the same name starts the count again.
pub proof fn lemma_uses_count_lookups(
    m: Map<Seq<char>, ShortenedUrlView>,
    op: Operation,
    name: Seq<char>,
)
    requires
        m.contains_key(name),
        op.apply(m).contains_key(name),
        !op.registers(name),
    ensures
        op.apply(m)[name].uses >= m[name].uses,
        op.apply(m)[name].uses == m[name].uses + (if op.follows(name) {
            1nat
        } else {
            0nat
        }),
        op.apply(m)[name].owner == m[name].owner,
{
}

/// Following a name touches no other name: every other record stays, and
/// stays as it was.
pub proof fn lemma_lookup_is_local(
    m: Map<Seq<char>, ShortenedUrlView>,
    name: Seq<char>,
    now: Timestamp,
    other: Seq<char>,
)
    requires
        other != name,
    ensures
        looked_up(m, name, now).contains_key(other) == m.contains_key(other),
        m.contains_key(other) ==> looked_up(m, name, now)[other] == m[other],
{
}

/// Following a name that leads somewhere leaves its record in place with one
/// use more; following one that has run out removes it; following one that
/// stands for nothing changes nothing.
pub proof fn lemma_lookup_outcomes(m: Map<Seq<char>, ShortenedUrlView>, name: Seq<char>, now: Timestamp)
    ensures
        honored(m, name, now) ==> looked_up(m, name, now) == m.insert(name, m[name].used()),
        m.contains_key(name) && !honored(m, name, now) ==> looked_up(m, name, now) == m.remove(name),
        !m.contains_key(name) ==> looked_up(m, name, now) == m && !honored(m, name, now),
{
}

/// The limit on uses counts the uses that lead somewhere: a record that has
/// not run out by time leads somewhere exactly as long as it has been followed
/// fewer times than its limit.
pub proof fn lemma_limit_boundary(
    m: Map<Seq<char>, ShortenedUrlView>,
    name: Seq<char>,
    now: Timestamp,
    limit: nat,
)
    requires
        m.contains_key(name),
        m[name].max_uses == Some(limit),
        !(m[name].expiration matches Some(t) && t.before(now)),
    ensures
        honored(m, name, now) <==> m[name].uses < limit,
{
}

/// A record with a limit of `limit` uses and no expiration leads somewhere
/// exactly `limit` times: counted from its registration, every one of the
/// first `limit` times it is followed leads to its target, the next removes
/// it, and from then on the name stands for nothing.
pub proof fn lemma_limit_allows_exactly(
    m: Map<Seq<char>, ShortenedUrlView>,
    name: Seq<char>,
    limit: nat,
    nows: Seq<Timestamp>,
    i: int,
)
    requires
        m.contains_key(name),
        m[name].uses == 0,
        m[name].max_uses == Some(limit),
        m[name].expiration is None,
        0 <= i < nows.len(),
    ensures
        honored(followed(m, name, nows.take(i)), name, nows[i]) <==> i < limit,
        i < limit ==> followed(m, name, nows.take(i))[name].target == m[name].target,
        i > limit ==> !followed(m, name, nows.take(i)).contains_key(name),
{
    lemma_followed_with_limit(m, name, limit, nows.take(i));
}

/// Where a record with a limit and no expiration stands after it has been
/// followed some number of times.
proof fn lemma_followed_with_limit(
    m: Map<Seq<char>, ShortenedUrlView>,
    name: Seq<char>,
    limit: nat,
    nows: Seq<Timestamp>,
)
    requires
        m.contains_key(name),
        m[name].uses == 0,
        m[name].max_uses == Some(limit),
        m[name].expiration is None,
    ensures
        nows.len() <= limit ==> followed(m, name, nows).contains_key(name) && followed(
            m,
            name,
            nows,
        )[name] == (ShortenedUrlView { uses: nows.len(), ..m[name] }),
        nows.len() > limit ==> !followed(m, name, nows).contains_key(name),
    decreases nows.len(),
{
    if nows.len() > 0 {
        lemma_followed_with_limit(m, name, limit, nows.drop_last());
    }
}

/// A record whose expiration has passed leads nowhere: following it removes
/// it, and following the name again finds nothing, at whatever instant.
pub proof fn lemma_expired_by_time(
    m: Map<Seq<char>, ShortenedUrlView>,
    name: Seq<char>,
    now: Timestamp,
    later: Timestamp,
)
    requires
        m.contains_key(name),
        m[name].expiration matches Some(t) && t.before(now),
    ensures
        !honored(m, name, now),
        !looked_up(m, name, now).contains_key(name),
        !honored(looked_up(m, name, now), name, later),
        looked_up(looked_up(m, name, now), name, later) == looked_up(m, name, now),
{
}

/// To one who does not own it, a record looks exactly like none: asking to
/// edit or to remove it fails as it would for a name that stands for nothing,
/// and changes nothing.
pub proof fn lemma_foreign_is_missing(
    m: Map<Seq<char>, ShortenedUrlView>,
    name: Seq<char>,
    caller: u32,
    target: Seq<char>,
    expiration: Option<Timestamp>,
    max_uses: Option<nat>,
)
    requires
        m.contains_key(name),
        m[name].owner != caller,
    ensures
        owns(m, name, caller) == owns(m.remove(name), name, caller),
        !owns(m, name, caller),
        updated(m, name, caller, target, expiration, max_uses) == m,
        removed(m, name, caller) == m,
{
}

/// What is registered can be followed: right after a registration, the name
/// leads to exactly the registered target, unless the record has run out with
/// that first use.
pub proof fn lemma_round_trip(
    m: Map<Seq<char>, ShortenedUrlView>,
    name: Seq<char>,
    url: ShortenedUrlView,
    now: Timestamp,
)
    ensures
        honored(m.insert(name, url), name, now) <==> !url.used().expired(now),
        m.insert(name, url)[name].target == url.target,
        url.expiration is None && url.max_uses is None ==> honored(m.insert(name, url), name, now),
{
}

} // verus!
