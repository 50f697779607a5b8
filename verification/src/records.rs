//! The record store: the (domain, secret) pairs of one vault, in order, with
//! no domain twice.

use crate::text::same_text;
use vstd::prelude::*;

verus! {

/// A record as the contracts see it: its domain and its secret.
pub type Entry = (Seq<char>, Seq<char>);

/// What a list of stored pairs stands for.
pub open spec fn entries_of(pairs: Seq<(String, String)>) -> Seq<Entry> {
    Seq::new(pairs.len(), |i: int| (pairs[i].0@, pairs[i].1@))
}

/// No record of `s` has the domain.
pub open spec fn absent(s: Seq<Entry>, domain: Seq<char>) -> bool {
    forall|i: int| 0 <= i < s.len() ==> (#[trigger] s[i]).0 != domain
}

/// The record at `i` is the first of `s` with the domain.
pub open spec fn first_at(s: Seq<Entry>, domain: Seq<char>, i: int) -> bool {
    &&& 0 <= i < s.len()
    &&& s[i].0 == domain
    &&& absent(s.take(i), domain)
}

/// The place of the first record with the domain, where there is one.
pub open spec fn index_of(s: Seq<Entry>, domain: Seq<char>) -> int {
    choose|i: int| first_at(s, domain, i)
}

/// No two records share a domain.
pub open spec fn unique_domains(s: Seq<Entry>) -> bool {
    forall|i: int, j: int| 0 <= i < j < s.len() ==> (#[trigger] s[i]).0 != (#[trigger] s[j]).0
}

/// The secret kept for a domain.
pub open spec fn lookup(s: Seq<Entry>, domain: Seq<char>) -> Option<Seq<char>> {
    if absent(s, domain) {
        None
    } else {
        Some(s[index_of(s, domain)].1)
    }
}

/// Exactly one record has the domain.
pub open spec fn holds_once(s: Seq<Entry>, domain: Seq<char>) -> bool {
    exists|i: int|
        {
            &&& 0 <= i < s.len()
            &&& (#[trigger] s[i]).0 == domain
            &&& forall|j: int| 0 <= j < s.len() && j != i ==> (#[trigger] s[j]).0 != domain
        }
}

/// The store after a record was added: a record of the same domain has its
/// secret replaced where it stands, and otherwise the new record comes last.
pub open spec fn upsert(s: Seq<Entry>, domain: Seq<char>, secret: Seq<char>) -> Seq<Entry> {
    if absent(s, domain) {
        s.push((domain, secret))
    } else {
        s.update(index_of(s, domain), (domain, secret))
    }
}

/// The store without the record of a domain; the others keep their order.
pub open spec fn without(s: Seq<Entry>, domain: Seq<char>) -> Seq<Entry> {
    if absent(s, domain) {
        s
    } else {
        s.remove(index_of(s, domain))
    }
}

/// The first record with the domain is found at one place only.
pub proof fn lemma_first_at_unique(s: Seq<Entry>, domain: Seq<char>, i: int)
    requires
        first_at(s, domain, i),
    ensures
        index_of(s, domain) == i,
        !absent(s, domain),
{
    let j = index_of(s, domain);
    assert(first_at(s, domain, j));
    if j < i {
        assert(s.take(i)[j].0 != domain);
    }
    if i < j {
        assert(s.take(j)[i].0 != domain);
    }
    assert(s[i].0 == domain);
}

/// A store that holds a domain holds it first somewhere.
pub proof fn lemma_present_has_first(s: Seq<Entry>, domain: Seq<char>)
    requires
        !absent(s, domain),
    ensures
        first_at(s, domain, index_of(s, domain)),
    decreases s.len(),
{
    let k = choose|k: int| 0 <= k < s.len() && (#[trigger] s[k]).0 == domain;
    if absent(s.take(k), domain) {
        assert(first_at(s, domain, k));
    } else {
        let t = s.take(k);
        lemma_present_has_first(t, domain);
        let i = index_of(t, domain);
        assert(t.take(i) =~= s.take(i));
        assert(t[i] == s[i]);
        assert(first_at(s, domain, i));
    }
}

/// The record store of one vault. No two of its records share a domain.
#[derive(Debug)]
pub struct Records {
    entries: Vec<(String, String)>,
}

impl View for Records {
    type V = Seq<Entry>;

    closed spec fn view(&self) -> Seq<Entry> {
        entries_of(self.entries@)
    }
}

impl Records {
    #[verifier::type_invariant]
    spec fn unique(self) -> bool {
        unique_domains(entries_of(self.entries@))
    }

    /// The empty store.
    pub fn new() -> (records: Self)
        ensures
            records@ == Seq::<Entry>::empty(),
    {
        let records = Records { entries: Vec::new() };
        assert(records@ =~= Seq::<Entry>::empty());
        records
    }

    /// The number of records. No store holds a domain twice.
    pub fn len(&self) -> (n: usize)
        ensures
            n == self@.len(),
            unique_domains(self@),
    {
        proof {
            use_type_invariant(self);
        }
        self.entries.len()
    }

    /// The place of the record of `domain`.
    pub fn find(&self, domain: &str) -> (place: Option<usize>)
        ensures
            match place {
                Some(i) => first_at(self@, domain@, i as int),
                None => absent(self@, domain@),
            },
    {
        let mut i: usize = 0;
        while i < self.entries.len()
            invariant
                i <= self.entries.len(),
                absent(self@.take(i as int), domain@),
            decreases self.entries.len() - i,
        {
            if same_text(self.entries[i].0.as_str(), domain) {
                return Some(i);
            }
            assert(self@.take(i + 1).drop_last() =~= self@.take(i as int));
            i = i + 1;
        }
        assert(self@.take(i as int) =~= self@);
        None
    }

    /// The secret kept for `domain`.
    pub fn get(&self, domain: &str) -> (secret: Option<String>)
        ensures
            match secret {
                Some(text) => lookup(self@, domain@) == Some(text@),
                None => lookup(self@, domain@) is None,
            },
    {
        match self.find(domain) {
            Some(i) => {
                proof {
                    lemma_first_at_unique(self@, domain@, i as int);
                }
                Some(self.entries[i].1.clone())
            },
            None => None,
        }
    }

    /// Adds a record. Where the store has a record of `domain` already, its
    /// secret is replaced and it keeps its place; otherwise the record comes
    /// last.
    pub fn add(&mut self, domain: &str, secret: &str)
        ensures
            final(self)@ == upsert(old(self)@, domain@, secret@),
            unique_domains(final(self)@),
    {
        proof {
            use_type_invariant(&*self);
            lemma_upsert_unique(self@, domain@, secret@);
        }
        let place = self.find(domain);
        let entry = (domain.to_owned(), secret.to_owned());
        let mut entries: Vec<(String, String)> = Vec::new();
        std::mem::swap(&mut self.entries, &mut entries);
        match place {
            Some(i) => {
                proof {
                    lemma_first_at_unique(old(self)@, domain@, i as int);
                }
                entries.set(i, entry);
            },
            None => {
                entries.push(entry);
            },
        }
        assert(entries_of(entries@) =~= upsert(old(self)@, domain@, secret@));
        self.entries = entries;
    }

    /// Removes the record of `domain` and says whether there was one. The
    /// other records keep their order.
    pub fn remove(&mut self, domain: &str) -> (removed: bool)
        ensures
            removed == !absent(old(self)@, domain@),
            final(self)@ == without(old(self)@, domain@),
            absent(final(self)@, domain@),
            unique_domains(final(self)@),
    {
        proof {
            use_type_invariant(&*self);
            lemma_without_unique(self@, domain@);
        }
        match self.find(domain) {
            Some(i) => {
                proof {
                    lemma_first_at_unique(old(self)@, domain@, i as int);
                }
                let mut entries: Vec<(String, String)> = Vec::new();
                std::mem::swap(&mut self.entries, &mut entries);
                entries.remove(i);
                assert(entries_of(entries@) =~= without(old(self)@, domain@));
                self.entries = entries;
                true
            },
            None => false,
        }
    }

    /// Replaces the secret of the record of `domain` and says whether there
    /// was such a record. A store without one stays as it is.
    pub fn modify(&mut self, domain: &str, secret: &str) -> (modified: bool)
        ensures
            modified == !absent(old(self)@, domain@),
            modified ==> final(self)@ == upsert(old(self)@, domain@, secret@),
            !modified ==> final(self)@ == old(self)@,
            unique_domains(final(self)@),
    {
        proof {
            use_type_invariant(&*self);
        }
        match self.find(domain) {
            Some(_) => {
                self.add(domain, secret);
                true
            },
            None => false,
        }
    }

    /// The records of a list of pairs, if no two of the pairs share a
    /// domain.
    pub fn from_pairs(pairs: Vec<(String, String)>) -> (records: Option<Self>)
        ensures
            records is Some <==> unique_domains(entries_of(pairs@)),
            records matches Some(r) ==> r@ == entries_of(pairs@),
    {
        let ghost all = entries_of(pairs@);
        let mut i: usize = 0;
        while i < pairs.len()
            invariant
                i <= pairs.len(),
                all == entries_of(pairs@),
                unique_domains(all.take(i as int)),
            decreases pairs.len() - i,
        {
            let mut j: usize = 0;
            while j < i
                invariant
                    j <= i < pairs.len(),
                    all == entries_of(pairs@),
                    forall|k: int| 0 <= k < j ==> (#[trigger] all[k]).0 != all[i as int].0,
                decreases i - j,
            {
                if same_text(pairs[j].0.as_str(), pairs[i].0.as_str()) {
                    assert(all[j as int].0 == all[i as int].0);
                    return None;
                }
                j = j + 1;
            }
            assert forall|a: int, b: int| 0 <= a < b < i + 1 implies (#[trigger] all.take(
                i + 1,
            )[a]).0 != (#[trigger] all.take(i + 1)[b]).0 by {
                if b < i {
                    assert(all.take(i as int)[a].0 != all.take(i as int)[b].0);
                }
            }
            i = i + 1;
        }
        assert(all.take(i as int) =~= all);
        Some(Records { entries: pairs })
    }

    /// A copy of the records for the caller to keep.
    pub fn snapshot(&self) -> (copy: ReadOnlyRecords)
        ensures
            copy@ == self@,
            unique_domains(copy@),
    {
        proof {
            use_type_invariant(self);
        }
        let mut records: Vec<(String, String)> = Vec::new();
        let mut i: usize = 0;
        while i < self.entries.len()
            invariant
                i <= self.entries.len(),
                entries_of(records@) == self@.take(i as int),
            decreases self.entries.len() - i,
        {
            let domain = self.entries[i].0.clone();
            let secret = self.entries[i].1.clone();
            records.push((domain, secret));
            i = i + 1;
            assert(entries_of(records@).drop_last() =~= self@.take(i - 1));
            assert(entries_of(records@).last() == self@[i - 1]);
            assert(entries_of(records@) =~= self@.take(i as int));
        }
        assert(self@.take(i as int) =~= self@);
        ReadOnlyRecords { records }
    }
}

/// The records of a vault as a caller sees them after an operation: a copy
/// that is the caller's own. Changing it changes no vault.
#[derive(Debug)]
pub struct ReadOnlyRecords {
    records: Vec<(String, String)>,
}

impl View for ReadOnlyRecords {
    type V = Seq<Entry>;

    closed spec fn view(&self) -> Seq<Entry> {
        entries_of(self.records@)
    }
}

impl ReadOnlyRecords {
    #[verifier::type_invariant]
    spec fn unique(self) -> bool {
        unique_domains(entries_of(self.records@))
    }

    /// The pairs of domain and secret, in the order of the store.
    pub fn records(&self) -> (pairs: &Vec<(String, String)>)
        ensures
            entries_of(pairs@) == self@,
            unique_domains(self@),
    {
        proof {
            use_type_invariant(self);
        }
        &self.records
    }
}

/// Adding a record keeps the domains of a store apart.
pub proof fn lemma_upsert_unique(s: Seq<Entry>, domain: Seq<char>, secret: Seq<char>)
    requires
        unique_domains(s),
    ensures
        unique_domains(upsert(s, domain, secret)),
{
    if !absent(s, domain) {
        lemma_present_has_first(s, domain);
    }
}

/// Removing a record keeps the domains of a store apart, and the domain is
/// gone afterwards.
pub proof fn lemma_without_unique(s: Seq<Entry>, domain: Seq<char>)
    requires
        unique_domains(s),
    ensures
        unique_domains(without(s, domain)),
        absent(without(s, domain), domain),
{
    if !absent(s, domain) {
        lemma_present_has_first(s, domain);
        let i = index_of(s, domain);
        let r = s.remove(i);
        assert forall|j: int| 0 <= j < r.len() implies (#[trigger] r[j]).0 != domain by {
            if j < i {
                assert(r[j] == s[j]);
            } else {
                assert(r[j] == s[j + 1]);
            }
        }
        assert forall|a: int, b: int| 0 <= a < b < r.len() implies (#[trigger] r[a]).0 != (
        #[trigger] r[b]).0 by {
            let a0 = if a < i { a } else { a + 1 };
            let b0 = if b < i { b } else { b + 1 };
            assert(r[a] == s[a0] && r[b] == s[b0]);
        }
    }
}

/// After a record is added, the store keeps its secret for its domain.
pub proof fn lemma_upsert_lookup(s: Seq<Entry>, domain: Seq<char>, secret: Seq<char>)
    ensures
        lookup(upsert(s, domain, secret), domain) == Some(secret),
        !absent(upsert(s, domain, secret), domain),
{
    let r = upsert(s, domain, secret);
    if absent(s, domain) {
        assert(r.take(s.len() as int) =~= s);
        assert(r[s.len() as int] == (domain, secret));
        lemma_first_at_unique(r, domain, s.len() as int);
    } else {
        lemma_present_has_first(s, domain);
        let i = index_of(s, domain);
        assert(r.take(i) =~= s.take(i));
        assert(r[i] == (domain, secret));
        lemma_first_at_unique(r, domain, i);
    }
}

/// Adding a record changes the secret of no other domain.
pub proof fn lemma_upsert_keeps_others(
    s: Seq<Entry>,
    domain: Seq<char>,
    secret: Seq<char>,
    other: Seq<char>,
)
    requires
        other != domain,
    ensures
        lookup(upsert(s, domain, secret), other) == lookup(s, other),
{
    let r = upsert(s, domain, secret);
    if !absent(s, domain) {
        lemma_present_has_first(s, domain);
    }
    if absent(s, other) {
        assert forall|j: int| 0 <= j < r.len() implies (#[trigger] r[j]).0 != other by {
            if j < s.len() && (absent(s, domain) || j != index_of(s, domain)) {
                assert(r[j] == s[j]);
            }
        }
    } else {
        lemma_present_has_first(s, other);
        let k = index_of(s, other);
        assert(r[k] == s[k]);
        assert forall|j: int| 0 <= j < k implies (#[trigger] r.take(k)[j]).0 != other by {
            assert(s.take(k)[j].0 != other);
            if absent(s, domain) || j != index_of(s, domain) {
                assert(r[j] == s[j]);
            }
        }
        lemma_first_at_unique(r, other, k);
    }
}

/// Adding a record for a domain twice leaves what adding the second alone
/// would leave: one record of that domain, with the second secret.
pub proof fn lemma_upsert_twice(
    s: Seq<Entry>,
    domain: Seq<char>,
    first: Seq<char>,
    second: Seq<char>,
)
    requires
        unique_domains(s),
    ensures
        upsert(upsert(s, domain, first), domain, second) == upsert(s, domain, second),
        holds_once(upsert(upsert(s, domain, first), domain, second), domain),
        lookup(upsert(upsert(s, domain, first), domain, second), domain) == Some(second),
{
    let once = upsert(s, domain, first);
    let twice = upsert(once, domain, second);
    lemma_upsert_lookup(s, domain, first);
    lemma_upsert_lookup(once, domain, second);
    lemma_upsert_unique(s, domain, first);
    lemma_upsert_unique(once, domain, second);
    let i = if absent(s, domain) {
        s.len() as int
    } else {
        index_of(s, domain)
    };
    if absent(s, domain) {
        assert(once.take(i) =~= s);
    } else {
        lemma_present_has_first(s, domain);
        assert(once.take(i) =~= s.take(i));
    }
    lemma_first_at_unique(once, domain, i);
    assert(twice =~= upsert(s, domain, second));
    assert(twice[i].0 == domain);
    assert forall|j: int| 0 <= j < twice.len() && j != i implies (#[trigger] twice[j]).0
        != domain by {
        if j < i {
            assert(twice[j].0 != twice[i].0);
        } else {
            assert(twice[i].0 != twice[j].0);
        }
    }
}

} // verus!
