//! The registry: which short name stands for which record.
//!
//! A [`Registry`] is, mathematically, a finite map from short names to
//! records. That map is its view, and every operation is specified by what it
//! does to the map, in the terms of [`crate::model`].

use crate::model::{honored, looked_up, owns, removed, updated};
use crate::time::Timestamp;
use crate::url::{limit_of, ShortenedUrl, ShortenedUrlView};
use vstd::prelude::*;

verus! {

/// The answer of the registry where a short name is not there, or not the caller's.
#[derive(Debug, Clone, Copy, PartialEq, Eq)]
pub struct NotFound;

struct Entry {
    name: String,
    url: ShortenedUrl,
}

/// The map that a list of entries with distinct names stands for.
spec fn assoc(entries: Seq<Entry>) -> Map<Seq<char>, ShortenedUrlView> {
    Map::new(
        |k: Seq<char>| exists|i: int| 0 <= i < entries.len() && #[trigger] entries[i].name@ == k,
        |k: Seq<char>|
            entries[choose|i: int| 0 <= i < entries.len() && #[trigger] entries[i].name@ == k].url@,
    )
}

/// No two entries have the same name.
spec fn distinct(entries: Seq<Entry>) -> bool {
    forall|i: int, j: int|
        0 <= i < entries.len() && 0 <= j < entries.len() && i != j ==> #[trigger] entries[i].name@
            != #[trigger] entries[j].name@
}

proof fn lemma_assoc_at(entries: Seq<Entry>, i: int)
    requires
        distinct(entries),
        0 <= i < entries.len(),
    ensures
        assoc(entries).contains_key(entries[i].name@),
        assoc(entries)[entries[i].name@] == entries[i].url@,
{
}

proof fn lemma_assoc_push(entries: Seq<Entry>, e: Entry)
    requires
        distinct(entries),
        !assoc(entries).contains_key(e.name@),
    ensures
        distinct(entries.push(e)),
        assoc(entries.push(e)) == assoc(entries).insert(e.name@, e.url@),
{
    let after = entries.push(e);
    assert(distinct(after));
    assert forall|k: Seq<char>| assoc(after).contains_key(k) <==> assoc(entries).insert(
        e.name@,
        e.url@,
    ).contains_key(k) by {
        if assoc(after).contains_key(k) {
            let i = choose|i: int| 0 <= i < after.len() && #[trigger] after[i].name@ == k;
            if i < entries.len() {
                assert(entries[i].name@ == k);
            }
        }
        if assoc(entries).contains_key(k) {
            let i = choose|i: int| 0 <= i < entries.len() && #[trigger] entries[i].name@ == k;
            assert(after[i].name@ == k);
        }
        if k == e.name@ {
            assert(after[entries.len() as int].name@ == k);
        }
    }
    assert forall|k: Seq<char>| assoc(after).contains_key(k) implies assoc(after)[k] == assoc(
        entries,
    ).insert(e.name@, e.url@)[k] by {
        let i = choose|i: int| 0 <= i < after.len() && #[trigger] after[i].name@ == k;
        lemma_assoc_at(after, i);
        if i < entries.len() {
            lemma_assoc_at(entries, i);
        }
    }
    assert(assoc(after) =~= assoc(entries).insert(e.name@, e.url@));
}

proof fn lemma_assoc_update(entries: Seq<Entry>, i: int, e: Entry)
    requires
        distinct(entries),
        0 <= i < entries.len(),
        e.name@ == entries[i].name@,
    ensures
        distinct(entries.update(i, e)),
        assoc(entries.update(i, e)) == assoc(entries).insert(e.name@, e.url@),
{
    let after = entries.update(i, e);
    assert(distinct(after)) by {
        assert forall|a: int, b: int|
            0 <= a < after.len() && 0 <= b < after.len() && a != b implies #[trigger] after[a].name@
            != #[trigger] after[b].name@ by {
            assert(after[a].name@ == entries[a].name@);
            assert(after[b].name@ == entries[b].name@);
        }
    }
    assert forall|k: Seq<char>| assoc(after).contains_key(k) <==> assoc(entries).insert(
        e.name@,
        e.url@,
    ).contains_key(k) by {
        if assoc(after).contains_key(k) {
            let j = choose|j: int| 0 <= j < after.len() && #[trigger] after[j].name@ == k;
            assert(entries[j].name@ == k);
        }
        if assoc(entries).contains_key(k) {
            let j = choose|j: int| 0 <= j < entries.len() && #[trigger] entries[j].name@ == k;
            assert(after[j].name@ == k);
        }
        if k == e.name@ {
            assert(after[i].name@ == k);
        }
    }
    assert forall|k: Seq<char>| assoc(after).contains_key(k) implies assoc(after)[k] == assoc(
        entries,
    ).insert(e.name@, e.url@)[k] by {
        let j = choose|j: int| 0 <= j < after.len() && #[trigger] after[j].name@ == k;
        lemma_assoc_at(after, j);
        lemma_assoc_at(entries, j);
    }
    assert(assoc(after) =~= assoc(entries).insert(e.name@, e.url@));
}

proof fn lemma_assoc_remove(entries: Seq<Entry>, i: int)
    requires
        distinct(entries),
        0 <= i < entries.len(),
    ensures
        distinct(entries.remove(i)),
        assoc(entries.remove(i)) == assoc(entries).remove(entries[i].name@),
{
    let after = entries.remove(i);
    let gone = entries[i].name@;
    assert forall|a: int| 0 <= a < after.len() implies #[trigger] after[a] == entries[if a < i {
        a
    } else {
        a + 1
    }] by {}
    assert(distinct(after)) by {
        assert forall|a: int, b: int|
            0 <= a < after.len() && 0 <= b < after.len() && a != b implies #[trigger] after[a].name@
            != #[trigger] after[b].name@ by {
            let a0 = if a < i { a } else { a + 1 };
            let b0 = if b < i { b } else { b + 1 };
            assert(after[a] == entries[a0]);
            assert(after[b] == entries[b0]);
        }
    }
    assert forall|k: Seq<char>| assoc(after).contains_key(k) <==> assoc(entries).remove(
        gone,
    ).contains_key(k) by {
        if assoc(after).contains_key(k) {
            let a = choose|a: int| 0 <= a < after.len() && #[trigger] after[a].name@ == k;
            let a0 = if a < i { a } else { a + 1 };
            assert(after[a] == entries[a0]);
            assert(entries[a0].name@ == k);
        }
        if assoc(entries).contains_key(k) && k != gone {
            let j = choose|j: int| 0 <= j < entries.len() && #[trigger] entries[j].name@ == k;
            let a = if j < i { j } else { j - 1 };
            assert(after[a] == entries[j]);
            assert(after[a].name@ == k);
        }
    }
    assert forall|k: Seq<char>| assoc(after).contains_key(k) implies assoc(after)[k] == assoc(
        entries,
    ).remove(gone)[k] by {
        let a = choose|a: int| 0 <= a < after.len() && #[trigger] after[a].name@ == k;
        let a0 = if a < i { a } else { a + 1 };
        assert(after[a] == entries[a0]);
        lemma_assoc_at(after, a);
        lemma_assoc_at(entries, a0);
    }
    assert(assoc(after) =~= assoc(entries).remove(gone));
}

/// The places in the list at which the entries of `owner` stand, in rising order.
spec fn owned_at(entries: Seq<Entry>, owner: u32) -> Seq<int>
    decreases entries.len(),
{
    if entries.len() == 0 {
        Seq::empty()
    } else {
        let rest = owned_at(entries.drop_last(), owner);
        if entries.last().url.owner == owner {
            rest.push(entries.len() - 1)
        } else {
            rest
        }
    }
}

proof fn lemma_owned_at(entries: Seq<Entry>, owner: u32)
    ensures
        forall|j: int|
            0 <= j < owned_at(entries, owner).len() ==> 0 <= #[trigger] owned_at(entries, owner)[j]
                < entries.len() && entries[owned_at(entries, owner)[j]].url.owner == owner,
        forall|j: int, k: int|
            0 <= j < k < owned_at(entries, owner).len() ==> #[trigger] owned_at(entries, owner)[j]
                < #[trigger] owned_at(entries, owner)[k],
        forall|i: int|
            0 <= i < entries.len() && entries[i].url.owner == owner ==> #[trigger] owned_at(
                entries,
                owner,
            ).contains(i),
    decreases entries.len(),
{
    if entries.len() > 0 {
        let init = entries.drop_last();
        let rest = owned_at(init, owner);
        let all = owned_at(entries, owner);
        let top = entries.len() - 1;
        lemma_owned_at(init, owner);
        assert forall|j: int| 0 <= j < all.len() implies 0 <= #[trigger] all[j] < entries.len()
            && entries[all[j]].url.owner == owner by {
            if j < rest.len() {
                assert(all[j] == rest[j]);
                assert(init[rest[j]] == entries[rest[j]]);
            }
        }
        assert forall|j: int, k: int| 0 <= j < k < all.len() implies #[trigger] all[j]
            < #[trigger] all[k] by {
            assert(all[j] == rest[j]);
            if k < rest.len() {
                assert(all[k] == rest[k]);
            }
        }
        assert forall|i: int|
            0 <= i < entries.len() && entries[i].url.owner == owner implies #[trigger] all.contains(
            i,
        ) by {
            if i < top {
                assert(init[i] == entries[i]);
                assert(rest.contains(i));
                let j = choose|j: int| 0 <= j < rest.len() && rest[j] == i;
                assert(all[j] == i);
            } else {
                assert(all[all.len() - 1] == i);
            }
        }
    }
}

proof fn lemma_assoc_len(entries: Seq<Entry>)
    requires
        distinct(entries),
    ensures
        assoc(entries).dom().finite(),
        assoc(entries).len() == entries.len(),
    decreases entries.len(),
{
    if entries.len() == 0 {
        assert(assoc(entries) =~= Map::<Seq<char>, ShortenedUrlView>::empty());
    } else {
        let init = entries.drop_last();
        let last = entries.last();
        assert(distinct(init)) by {
            assert forall|a: int, b: int|
                0 <= a < init.len() && 0 <= b < init.len() && a != b implies #[trigger] init[a].name@
                != #[trigger] init[b].name@ by {
                assert(init[a] == entries[a] && init[b] == entries[b]);
            }
        }
        lemma_assoc_len(init);
        assert(!assoc(init).contains_key(last.name@)) by {
            if assoc(init).contains_key(last.name@) {
                let i = choose|i: int| 0 <= i < init.len() && #[trigger] init[i].name@ == last.name@;
                assert(entries[i].name@ == entries[entries.len() - 1].name@);
            }
        }
        lemma_assoc_push(init, last);
        assert(init.push(last) =~= entries);
    }
}

/// The short names and what each stands for.
///
/// The names are kept in a list in which none occurs twice, and every
/// operation walks that list: this is a registry for thousands of names, not
/// for millions.
pub struct Registry {
    entries: Vec<Entry>,
}

impl View for Registry {
    type V = Map<Seq<char>, ShortenedUrlView>;

    closed spec fn view(&self) -> Map<Seq<char>, ShortenedUrlView> {
        assoc(self.entries@)
    }
}

impl Registry {
    #[verifier::type_invariant]
    spec fn well_formed(&self) -> bool {
        distinct(self.entries@)
    }

    /// A registry with nothing in it.
    pub fn new() -> (registry: Registry)
        ensures
            registry@ == Map::<Seq<char>, ShortenedUrlView>::empty(),
    {
        let registry = Registry { entries: Vec::new() };
        assert(registry@ =~= Map::<Seq<char>, ShortenedUrlView>::empty());
        registry
    }

    /// Where in the list the entry of `name` stands, if there is one.
    fn position(&self, name: &str) -> (found: Option<usize>)
        ensures
            match found {
                Some(i) => i < self.entries@.len() && self.entries@[i as int].name@ == name@,
                None => !self@.contains_key(name@),
            },
    {
        let mut i: usize = 0;
        while i < self.entries.len()
            invariant
                i <= self.entries@.len(),
                forall|j: int| 0 <= j < i ==> (#[trigger] self.entries@[j]).name@ != name@,
            decreases self.entries@.len() - i,
        {
            if *self.entries[i].name.as_str() == *name {
                return Some(i);
            }
            i += 1;
        }
        None
    }

    /// Tells whether `name` stands for something.
    pub fn contains_key(&self, name: &str) -> (present: bool)
        ensures
            present == self@.contains_key(name@),
    {
        proof {
            use_type_invariant(self);
        }
        match self.position(name) {
            Some(i) => {
                proof {
                    lemma_assoc_at(self.entries@, i as int);
                }
                true
            },
            None => false,
        }
    }

    /// The record that `name` stands for, if there is one.
    pub fn get(&self, name: &str) -> (found: Option<&ShortenedUrl>)
        ensures
            match found {
                Some(url) => self@.contains_key(name@) && url@ == self@[name@],
                None => !self@.contains_key(name@),
            },
    {
        proof {
            use_type_invariant(self);
        }
        match self.position(name) {
            Some(i) => {
                proof {
                    lemma_assoc_at(self.entries@, i as int);
                }
                Some(&self.entries[i].url)
            },
            None => None,
        }
    }

    /// Lets `name` stand for `url`, whatever it stood for before.
    pub fn insert(&mut self, name: String, url: ShortenedUrl)
        ensures
            final(self)@ == old(self)@.insert(name@, url@),
    {
        proof {
            use_type_invariant(&*self);
        }
        let found = self.position(name.as_str());
        let entry = Entry { name, url };
        let mut entries = Vec::new();
        std::mem::swap(&mut entries, &mut self.entries);
        match found {
            Some(i) => {
                proof {
                    lemma_assoc_update(entries@, i as int, entry);
                }
                entries[i] = entry;
            },
            None => {
                proof {
                    lemma_assoc_push(entries@, entry);
                }
                entries.push(entry);
            },
        }
        self.entries = entries;
    }

    /// Edits the record at `name` on behalf of `owner`: it gets a new target
    /// and new limits, and keeps its owner and its count of uses.
    ///
    /// Fails, and changes nothing, unless there is a record at `name` and it
    /// is `owner`'s. The two failures look the same.
    pub fn update(
        &mut self,
        name: &str,
        owner: u32,
        target: String,
        expiration: Option<Timestamp>,
        max_uses: Option<usize>,
    ) -> (done: Result<(), NotFound>)
        ensures
            done is Ok <==> owns(old(self)@, name@, owner),
            final(self)@ == updated(
                old(self)@,
                name@,
                owner,
                target@,
                expiration,
                limit_of(max_uses),
            ),
    {
        proof {
            use_type_invariant(&*self);
        }
        match self.position(name) {
            Some(i) => {
                proof {
                    lemma_assoc_at(self.entries@, i as int);
                }
                if self.entries[i].url.owner == owner {
                    let mut entries = Vec::new();
                    std::mem::swap(&mut entries, &mut self.entries);
                    let ghost before = entries@;
                    let uses = entries[i].url.uses;
                    entries[i].url = ShortenedUrl { owner, target, uses, expiration, max_uses };
                    proof {
                        assert(entries@ =~= before.update(i as int, entries@[i as int]));
                        lemma_assoc_update(before, i as int, entries@[i as int]);
                    }
                    self.entries = entries;
                    Ok(())
                } else {
                    Err(NotFound)
                }
            },
            None => Err(NotFound),
        }
    }

    /// Removes the record at `name` on behalf of `owner`.
    ///
    /// Fails, and changes nothing, unless there is a record at `name` and it
    /// is `owner`'s. The two failures look the same.
    pub fn remove(&mut self, name: &str, owner: u32) -> (done: Result<(), NotFound>)
        ensures
            done is Ok <==> owns(old(self)@, name@, owner),
            final(self)@ == removed(old(self)@, name@, owner),
    {
        proof {
            use_type_invariant(&*self);
        }
        match self.position(name) {
            Some(i) => {
                proof {
                    lemma_assoc_at(self.entries@, i as int);
                }
                if self.entries[i].url.owner == owner {
                    self.discard(i);
                    Ok(())
                } else {
                    Err(NotFound)
                }
            },
            None => Err(NotFound),
        }
    }

    /// Takes the entry at index `i` out of the list.
    fn discard(&mut self, i: usize)
        requires
            i < old(self).entries@.len(),
        ensures
            final(self)@ == old(self)@.remove(old(self).entries@[i as int].name@),
    {
        proof {
            use_type_invariant(&*self);
            lemma_assoc_remove(self.entries@, i as int);
        }
        let mut entries = Vec::new();
        std::mem::swap(&mut entries, &mut self.entries);
        entries.remove(i);
        self.entries = entries;
    }

    /// Follows `name` at the instant `now`: counts the use, and gives the
    /// target where the record has not run out with it. A record that has run
    /// out is removed, and the answer is the same as for a name that stands
    /// for nothing.
    ///
    /// The count of uses must have room for one more.
    pub fn lookup(&mut self, name: &str, now: Timestamp) -> (target: Result<String, NotFound>)
        requires
            old(self)@.contains_key(name@) ==> old(self)@[name@].uses < usize::MAX,
        ensures
            final(self)@ == looked_up(old(self)@, name@, now),
            match target {
                Ok(t) => honored(old(self)@, name@, now) && t@ == old(self)@[name@].target,
                Err(_) => !honored(old(self)@, name@, now),
            },
    {
        proof {
            use_type_invariant(&*self);
        }
        match self.position(name) {
            Some(i) => {
                proof {
                    lemma_assoc_at(self.entries@, i as int);
                }
                let mut entries = Vec::new();
                std::mem::swap(&mut entries, &mut self.entries);
                let ghost before = entries@;
                entries[i].url.uses += 1;
                proof {
                    assert(entries@ =~= before.update(i as int, entries@[i as int]));
                    lemma_assoc_update(before, i as int, entries@[i as int]);
                }
                let target = if entries[i].url.is_expired(now) {
                    proof {
                        lemma_assoc_remove(entries@, i as int);
                    }
                    entries.remove(i);
                    Err(NotFound)
                } else {
                    Ok(entries[i].url.target.clone())
                };
                self.entries = entries;
                target
            },
            None => Err(NotFound),
        }
    }

    /// The names whose records belong to `owner`, in the order in which
    /// [`Registry::list`] gives the records.
    pub closed spec fn owned_names(&self, owner: u32) -> Seq<Seq<char>> {
        owned_at(self.entries@, owner).map_values(|i: int| self.entries@[i].name@)
    }

    /// The records that belong to `owner`: each of them once, and no others.
    pub fn list(&self, owner: u32) -> (urls: Vec<ShortenedUrl>)
        ensures
            self.owned_names(owner).no_duplicates(),
            forall|name: Seq<char>|
                self.owned_names(owner).contains(name) <==> owns(self@, name, owner),
            urls@.len() == self.owned_names(owner).len(),
            forall|i: int|
                0 <= i < urls@.len() ==> (#[trigger] urls@[i])@ == self@[self.owned_names(owner)[i]],
    {
        proof {
            use_type_invariant(self);
        }
        let mut urls: Vec<ShortenedUrl> = Vec::new();
        let mut i: usize = 0;
        while i < self.entries.len()
            invariant
                i <= self.entries@.len(),
                urls@.len() == owned_at(self.entries@.take(i as int), owner).len(),
                forall|j: int|
                    0 <= j < urls@.len() ==> (#[trigger] urls@[j])@ == self.entries@[owned_at(
                        self.entries@.take(i as int),
                        owner,
                    )[j]].url@,
            decreases self.entries@.len() - i,
        {
            proof {
                assert(self.entries@.take(i + 1).drop_last() =~= self.entries@.take(i as int));
                assert(self.entries@.take(i + 1).last() == self.entries@[i as int]);
            }
            if self.entries[i].url.owner == owner {
                urls.push(self.entries[i].url.clone());
            }
            i += 1;
        }
        proof {
            assert(self.entries@.take(i as int) =~= self.entries@);
            self.lemma_owned_names(owner);
        }
        urls
    }

    proof fn lemma_owned_names(&self, owner: u32)
        requires
            distinct(self.entries@),
        ensures
            self.owned_names(owner).len() == owned_at(self.entries@, owner).len(),
            self.owned_names(owner).no_duplicates(),
            forall|name: Seq<char>|
                self.owned_names(owner).contains(name) <==> owns(self@, name, owner),
            forall|j: int|
                0 <= j < self.owned_names(owner).len() ==> self@[#[trigger] self.owned_names(
                    owner,
                )[j]] == self.entries@[owned_at(self.entries@, owner)[j]].url@,
    {
        let entries = self.entries@;
        let at = owned_at(entries, owner);
        let names = self.owned_names(owner);
        lemma_owned_at(entries, owner);
        assert forall|j: int| 0 <= j < names.len() implies self@.contains_key(#[trigger] names[j])
            && self@[names[j]] == entries[at[j]].url@ && self@[names[j]].owner == owner by {
            assert(0 <= at[j] < entries.len());
            lemma_assoc_at(entries, at[j]);
        }
        assert forall|a: int, b: int|
            0 <= a < names.len() && 0 <= b < names.len() && a != b implies names[a] != names[b] by {
            assert(0 <= at[a] < entries.len() && 0 <= at[b] < entries.len());
            if a < b {
                assert(at[a] < at[b]);
            } else {
                assert(at[b] < at[a]);
            }
        }
        assert forall|name: Seq<char>| names.contains(name) <==> owns(self@, name, owner) by {
            if names.contains(name) {
                let j = choose|j: int| 0 <= j < names.len() && names[j] == name;
                assert(self@.contains_key(names[j]));
            }
            if owns(self@, name, owner) {
                let k = choose|k: int| 0 <= k < entries.len() && #[trigger] entries[k].name@ == name;
                lemma_assoc_at(entries, k);
                assert(at.contains(k));
                let j = choose|j: int| 0 <= j < at.len() && at[j] == k;
                assert(names[j] == name);
            }
        }
    }

    /// How many short names there are.
    pub fn len(&self) -> (count: usize)
        ensures
            self@.dom().finite(),
            count == self@.len(),
    {
        proof {
            use_type_invariant(self);
            lemma_assoc_len(self.entries@);
        }
        self.entries.len()
    }
}

} // verus!
