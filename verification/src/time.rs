//! Instants on the UTC time line, and the two places where they come from: the
//! text of a date and the system clock.

use vstd::prelude::*;

verus! {

/// An instant in UTC: the whole seconds since 1970-01-01T00:00:00Z and the
/// nanoseconds into that second.
///
/// Two instants are ordered first by their seconds, then by their nanoseconds.
#[derive(Clone, Copy, Debug, PartialEq, Eq, Structural)]
pub struct Timestamp {
    pub secs: i64,
    pub nanos: u32,
}

impl Timestamp {
    /// `self` lies strictly before `other`.
    pub open spec fn before(self, other: Timestamp) -> bool {
        self.secs < other.secs || (self.secs == other.secs && self.nanos < other.nanos)
    }

    /// Tells whether this instant lies strictly before `other`.
    pub fn is_before(self, other: Timestamp) -> (earlier: bool)
        ensures
            earlier == self.before(other),
    {
        self.secs < other.secs || (self.secs == other.secs && self.nanos < other.nanos)
    }
}

/// No instant lies before itself, and of two different instants exactly one
/// lies before the other.
pub proof fn lemma_before_is_total(a: Timestamp, b: Timestamp)
    ensures
        !a.before(a),
        a != b ==> (a.before(b) <==> !b.before(a)),
        a == b ==> !a.before(b) && !b.before(a),
{
}

/// What lies before an instant also lies before every later one.
pub proof fn lemma_before_is_transitive(a: Timestamp, b: Timestamp, c: Timestamp)
    requires
        a.before(b),
        b.before(c),
    ensures
        a.before(c),
{
}

/// What chrono makes of a text that is to be an RFC 3339 date and time: the
/// instant it names, as seconds and nanoseconds, or the parser's words on why
/// the text names none.
pub uninterp spec fn rfc3339(text: Seq<char>) -> Result<(i64, u32), Seq<char>>;

/// Calls `chrono::DateTime::parse_from_rfc3339`. An instant that comes back
/// is read off with `timestamp` and `timestamp_subsec_nanos`; an error is
/// turned into its text, as its `Display` gives it.
///
/// Trusted: the parser depends on the text alone, so its outcome has the name
/// [`rfc3339`]; the contract says no more than that the result is that
/// outcome.
#[verifier::external_body]
pub(crate) fn parse_rfc3339(text: &str) -> (parsed: Result<Timestamp, String>)
    ensures
        rfc3339(text@) == (match parsed {
            Ok(instant) => Ok((instant.secs, instant.nanos)),
            Err(reason) => Err(reason@),
        }),
{
    match chrono::DateTime::parse_from_rfc3339(text) {
        Ok(date) => {
            let utc = date.with_timezone(&chrono::Utc);
            Ok(Timestamp { secs: utc.timestamp(), nanos: utc.timestamp_subsec_nanos() })
        },
        Err(e) => Err(e.to_string()),
    }
}

/// Calls `chrono::Utc::now` and reads the instant off the result with
/// `timestamp` and `timestamp_subsec_nanos`.
///
/// Trusted, and nothing is promised: the clock may show any instant. It
/// panics where the system clock stands before 1970.
#[verifier::external_body]
pub(crate) fn current_time() -> Timestamp {
    let now = chrono::Utc::now();
    Timestamp { secs: now.timestamp(), nanos: now.timestamp_subsec_nanos() }
}

} // verus!
