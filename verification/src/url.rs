//! The record behind a short name, and the rule that says when it has run out.

use crate::time::Timestamp;
use vstd::prelude::*;

verus! {

/// What a short name stands for: where it leads, whose it is, how often it has
/// been followed, and the limits its owner has set.
#[derive(Debug, PartialEq, Eq)]
pub struct ShortenedUrl {
    pub owner: u32,
    pub target: String,
    pub uses: usize,
    pub expiration: Option<Timestamp>,
    pub max_uses: Option<usize>,
}

/// A [`ShortenedUrl`] as a mathematical value.
pub struct ShortenedUrlView {
    pub owner: u32,
    pub target: Seq<char>,
    pub uses: nat,
    pub expiration: Option<Timestamp>,
    pub max_uses: Option<nat>,
}

/// A limit on uses as a mathematical value.
pub open spec fn limit_of(max_uses: Option<usize>) -> Option<nat> {
    match max_uses {
        Some(m) => Some(m as nat),
        None => None,
    }
}

impl View for ShortenedUrl {
    type V = ShortenedUrlView;

    open spec fn view(&self) -> ShortenedUrlView {
        ShortenedUrlView {
            owner: self.owner,
            target: self.target@,
            uses: self.uses as nat,
            expiration: self.expiration,
            max_uses: limit_of(self.max_uses),
        }
    }
}

impl ShortenedUrlView {
    /// A record as it stands right after registration: never followed yet.
    pub open spec fn fresh(
        owner: u32,
        target: Seq<char>,
        expiration: Option<Timestamp>,
        max_uses: Option<nat>,
    ) -> ShortenedUrlView {
        ShortenedUrlView { owner, target, uses: 0, expiration, max_uses }
    }

    /// The record after it has been followed once more.
    pub open spec fn used(self) -> ShortenedUrlView {
        ShortenedUrlView { uses: self.uses + 1, ..self }
    }

    /// The record after its owner has edited it: a new target and new limits,
    /// the owner and the count of uses as they were.
    pub open spec fn edited(
        self,
        target: Seq<char>,
        expiration: Option<Timestamp>,
        max_uses: Option<nat>,
    ) -> ShortenedUrlView {
        ShortenedUrlView { target, expiration, max_uses, ..self }
    }

    /// The record has run out at the instant `now`: its expiration lies before
    /// `now`, or it has been followed more often than its limit allows.
    pub open spec fn expired(self, now: Timestamp) -> bool {
        ||| self.expiration matches Some(t) && t.before(now)
        ||| self.max_uses matches Some(m) && self.uses > m
    }
}

impl ShortenedUrl {
    /// Tells whether the record has run out at the instant `now`.
    pub fn is_expired(&self, now: Timestamp) -> (expired: bool)
        ensures
            expired == self@.expired(now),
    {
        let by_time = match self.expiration {
            Some(t) => t.is_before(now),
            None => false,
        };
        let by_uses = match self.max_uses {
            Some(m) => self.uses > m,
            None => false,
        };
        by_time || by_uses
    }
}

impl Clone for ShortenedUrl {
    fn clone(&self) -> (copy: Self)
        ensures
            copy@ == self@,
    {
        ShortenedUrl {
            owner: self.owner,
            target: self.target.clone(),
            uses: self.uses,
            expiration: self.expiration,
            max_uses: self.max_uses,
        }
    }
}

} // verus!
