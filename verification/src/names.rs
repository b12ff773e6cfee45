//! Short names that nobody chose: eight random letters and digits, drawn a
//! few times over, of which the first one that is free is taken.

use crate::registry::Registry;
use crate::text::text_of;
use crate::url::ShortenedUrlView;
use rand::distributions::{Alphanumeric, DistString};
use vstd::prelude::*;

verus! {

/// How many characters a generated short name has.
pub const SHORT_LEN: usize = 8;

/// How many names are drawn before giving up.
pub const MAX_ATTEMPTS: usize = 10;

/// `c` is one of the 62 characters `A`-`Z`, `a`-`z`, `0`-`9`.
pub open spec fn is_alphanumeric(c: char) -> bool {
    ('A' <= c <= 'Z') || ('a' <= c <= 'z') || ('0' <= c <= '9')
}

/// `name` has the shape of a generated short name: eight characters, each a
/// letter or a digit.
pub open spec fn is_generated_name(name: Seq<char>) -> bool {
    &&& name.len() == SHORT_LEN
    &&& forall|i: int| 0 <= i < name.len() ==> is_alphanumeric(#[trigger] name[i])
}

/// The first of `candidates` that stands for nothing in the registry `m`, if
/// there is one.
pub open spec fn first_free(
    m: Map<Seq<char>, ShortenedUrlView>,
    candidates: Seq<Seq<char>>,
) -> Option<Seq<char>>
    decreases candidates.len(),
{
    if candidates.len() == 0 {
        None
    } else if !m.contains_key(candidates.first()) {
        Some(candidates.first())
    } else {
        first_free(m, candidates.drop_first())
    }
}

/// What [`first_free`] gives is one of the candidates, is free, and comes
/// after taken candidates only; it gives nothing only where every candidate
/// is taken.
pub proof fn lemma_first_free(m: Map<Seq<char>, ShortenedUrlView>, candidates: Seq<Seq<char>>)
    ensures
        match first_free(m, candidates) {
            Some(name) => !m.contains_key(name) && exists|i: int|
                0 <= i < candidates.len() && candidates[i] == name && forall|j: int|
                    0 <= j < i ==> m.contains_key(#[trigger] candidates[j]),
            None => forall|i: int| 0 <= i < candidates.len() ==> m.contains_key(#[trigger] candidates[i]),
        },
    decreases candidates.len(),
{
    if candidates.len() > 0 {
        let rest = candidates.drop_first();
        lemma_first_free(m, rest);
        if m.contains_key(candidates.first()) {
            match first_free(m, rest) {
                Some(name) => {
                    let i = choose|i: int|
                        0 <= i < rest.len() && rest[i] == name && forall|j: int|
                            0 <= j < i ==> m.contains_key(#[trigger] rest[j]);
                    assert(candidates[i + 1] == name);
                    assert forall|j: int| 0 <= j < i + 1 implies m.contains_key(
                        #[trigger] candidates[j],
                    ) by {
                        if j > 0 {
                            assert(candidates[j] == rest[j - 1]);
                        }
                    }
                },
                None => {
                    assert forall|i: int| 0 <= i < candidates.len() implies m.contains_key(
                        #[trigger] candidates[i],
                    ) by {
                        if i > 0 {
                            assert(candidates[i] == rest[i - 1]);
                        }
                    }
                },
            }
        } else {
            assert(candidates[0] == candidates.first());
        }
    }
}

/// `short` is what comes of drawing names for the registry `m`: there are
/// [`MAX_ATTEMPTS`] names of the generated shape of which `short` is the first
/// free one, or nothing where all of them are taken.
pub open spec fn drawn_for(m: Map<Seq<char>, ShortenedUrlView>, short: Option<Seq<char>>) -> bool {
    exists|drawn: Seq<Seq<char>>|
        {
            &&& drawn.len() == MAX_ATTEMPTS
            &&& forall|i: int| 0 <= i < drawn.len() ==> is_generated_name(#[trigger] drawn[i])
            &&& first_free(m, drawn) == short
        }
}

/// What was drawn for a registry is of the generated shape and free in it,
/// and something was drawn unless a name of that shape is taken.
pub proof fn lemma_drawn_for(m: Map<Seq<char>, ShortenedUrlView>, short: Option<Seq<char>>)
    requires
        drawn_for(m, short),
    ensures
        short matches Some(name) ==> is_generated_name(name) && !m.contains_key(name),
        short is None ==> exists|name: Seq<char>| is_generated_name(name) && m.contains_key(name),
{
    let drawn = choose|drawn: Seq<Seq<char>>|
        {
            &&& drawn.len() == MAX_ATTEMPTS
            &&& forall|i: int| 0 <= i < drawn.len() ==> is_generated_name(#[trigger] drawn[i])
            &&& first_free(m, drawn) == short
        };
    lemma_first_free(m, drawn);
    if short is None {
        assert(m.contains_key(drawn[0]));
    }
}

/// The candidates as mathematical values.
pub open spec fn names_of(candidates: Seq<String>) -> Seq<Seq<char>> {
    candidates.map_values(|name: String| name@)
}

/// Takes the first of `candidates` that is free in `registry`; gives nothing
/// where all of them are taken.
pub fn pick_free(registry: &Registry, candidates: Vec<String>) -> (short: Option<String>)
    ensures
        match first_free(registry@, names_of(candidates@)) {
            Some(name) => short matches Some(picked) && picked@ == name,
            None => short is None,
        },
{
    let ghost all = names_of(candidates@);
    let mut pool = candidates;
    let mut i: usize = 0;
    assert(all.skip(0) =~= all);
    while i < pool.len()
        invariant
            i <= pool@.len(),
            all == names_of(candidates@),
            names_of(pool@) == all,
            first_free(registry@, all) == first_free(registry@, all.skip(i as int)),
        decreases pool@.len() - i,
    {
        proof {
            assert(all.skip(i as int).first() == pool@[i as int]@);
            assert(all.skip(i as int).drop_first() =~= all.skip(i + 1));
        }
        if !registry.contains_key(pool[i].as_str()) {
            return Some(pool.swap_remove(i));
        }
        i += 1;
    }
    None
}

/// Calls `rand::distributions::DistString::sample_string` on `Alphanumeric`
/// with the thread's generator, for a string of [`SHORT_LEN`] characters.
///
/// Trusted: the string has that many characters, each drawn from `A`-`Z`,
/// `a`-`z`, `0`-`9`. Which ones is left to chance, so nothing more is said.
#[verifier::external_body]
fn random_name() -> (name: String)
    ensures
        is_generated_name(name@),
{
    Alphanumeric.sample_string(&mut rand::thread_rng(), SHORT_LEN)
}

/// Draws [`MAX_ATTEMPTS`] random names.
fn draw_names() -> (names: Vec<String>)
    ensures
        names@.len() == MAX_ATTEMPTS,
        forall|i: int| 0 <= i < names@.len() ==> is_generated_name(#[trigger] names@[i]@),
{
    let mut names: Vec<String> = Vec::new();
    while names.len() < MAX_ATTEMPTS
        invariant
            names@.len() <= MAX_ATTEMPTS,
            forall|i: int| 0 <= i < names@.len() ==> is_generated_name(#[trigger] names@[i]@),
        decreases MAX_ATTEMPTS - names@.len(),
    {
        names.push(random_name());
    }
    names
}

/// A random short name that is free in `registry`: of [`MAX_ATTEMPTS`] names
/// drawn at random, the first that stands for nothing yet. Gives nothing
/// where all of them are taken.
///
/// A name that comes back is never one that stands for something already,
/// and as long as no name of the generated shape is taken, one comes back.
pub fn random_short(registry: &Registry) -> (short: Option<String>)
    ensures
        drawn_for(registry@, text_of(short)),
        short matches Some(picked) ==> is_generated_name(picked@) && !registry@.contains_key(picked@),
        short is None ==> exists|name: Seq<char>|
            is_generated_name(name) && registry@.contains_key(name),
{
    let names = draw_names();
    let ghost drawn = names_of(names@);
    proof {
        assert forall|i: int| 0 <= i < drawn.len() implies is_generated_name(#[trigger] drawn[i]) by {
            assert(drawn[i] == names@[i]@);
        }
    }
    let short = pick_free(registry, names);
    proof {
        assert(first_free(registry@, drawn) == text_of(short));
        lemma_drawn_for(registry@, text_of(short));
    }
    short
}

} // verus!
