//! The preferences store in memory: a mapping from string keys to string
//! values that remembers the order in which its keys were first set.

use vstd::prelude::*;

verus! {

/// A key with its value, both as sequences of characters.
pub type Entry = (Seq<char>, Seq<char>);

/// The mapping that a list of entries stands for. Where a key occurs more
/// than once, its last entry counts.
pub open spec fn entries_map(entries: Seq<Entry>) -> Map<Seq<char>, Seq<char>>
    decreases entries.len(),
{
    if entries.len() == 0 {
        Map::empty()
    } else {
        entries_map(entries.drop_last()).insert(entries.last().0, entries.last().1)
    }
}

/// No key occurs twice in `entries`.
pub open spec fn distinct_keys(entries: Seq<Entry>) -> bool {
    forall|i: int, j: int| 0 <= i < j < entries.len() ==> entries[i].0 != entries[j].0
}

/// The position of `key` in `entries`, or the length of `entries` where it
/// does not occur.
pub open spec fn key_position(entries: Seq<Entry>, key: Seq<char>) -> int
    decreases entries.len(),
{
    if entries.len() == 0 {
        0
    } else if entries.first().0 == key {
        0
    } else {
        1 + key_position(entries.drop_first(), key)
    }
}

/// `entries` after `key` has been set to `value`: the entry of `key` is
/// replaced where it stands, and a new key is added at the end.
pub open spec fn entries_set(entries: Seq<Entry>, key: Seq<char>, value: Seq<char>) -> Seq<Entry> {
    let at = key_position(entries, key);
    if at < entries.len() {
        entries.update(at, (key, value))
    } else {
        entries.push((key, value))
    }
}

/// The entries that result from setting the pairs of `pairs` one after the
/// other, starting with nothing.
pub open spec fn entries_from(pairs: Seq<Entry>) -> Seq<Entry>
    decreases pairs.len(),
{
    if pairs.len() == 0 {
        Seq::empty()
    } else {
        entries_set(entries_from(pairs.drop_last()), pairs.last().0, pairs.last().1)
    }
}

/// `key_position` is an index into `entries` or their length; below it `key`
/// does not occur, and at it, if it is an index, stands `key`.
pub proof fn lemma_key_position(entries: Seq<Entry>, key: Seq<char>)
    ensures
        0 <= key_position(entries, key) <= entries.len(),
        forall|i: int| 0 <= i < key_position(entries, key) ==> entries[i].0 != key,
        key_position(entries, key) < entries.len() ==> entries[key_position(entries, key)].0 == key,
    decreases entries.len(),
{
    if entries.len() != 0 && entries.first().0 != key {
        let rest = entries.drop_first();
        lemma_key_position(rest, key);
        assert forall|i: int| 0 <= i < key_position(entries, key) implies entries[i].0 != key by {
            if i > 0 {
                assert(entries[i] == rest[i - 1]);
            }
        }
    }
}

/// A key is in the mapping of `entries` exactly if some entry has it, and
/// what it maps to is the value of one of its entries.
pub proof fn lemma_entries_map_keys(entries: Seq<Entry>, key: Seq<char>)
    ensures
        entries_map(entries).contains_key(key) <==> exists|i: int|
            0 <= i < entries.len() && entries[i].0 == key,
        entries_map(entries).contains_key(key) ==> exists|i: int|
            0 <= i < entries.len() && entries[i] == (key, entries_map(entries)[key]),
    decreases entries.len(),
{
    if entries.len() != 0 {
        let front = entries.drop_last();
        lemma_entries_map_keys(front, key);
        if entries.last().0 != key && !entries_map(front).contains_key(key) {
            assert forall|i: int| 0 <= i < entries.len() implies entries[i].0 != key by {
                if i < front.len() {
                    assert(entries[i] == front[i]);
                }
            }
        }
    }
}

/// What is left of entries without a repeated key when the last one is
/// taken away has no repeated key either.
pub proof fn lemma_distinct_front(entries: Seq<Entry>)
    requires
        distinct_keys(entries),
        entries.len() > 0,
    ensures
        distinct_keys(entries.drop_last()),
{
    let front = entries.drop_last();
    assert forall|i: int, j: int| 0 <= i < j < front.len() implies front[i].0 != front[j].0 by {
        assert(front[i] == entries[i] && front[j] == entries[j]);
    }
}

/// Where no key occurs twice, each entry's key maps to that entry's value.
pub proof fn lemma_entries_map_at(entries: Seq<Entry>, at: int)
    requires
        distinct_keys(entries),
        0 <= at < entries.len(),
    ensures
        entries_map(entries).contains_key(entries[at].0),
        entries_map(entries)[entries[at].0] == entries[at].1,
    decreases entries.len(),
{
    if at < entries.len() - 1 {
        lemma_distinct_front(entries);
        lemma_entries_map_at(entries.drop_last(), at);
    }
}

/// Setting a key in a list without repeated keys sets it in the mapping, and
/// no key is repeated afterwards.
pub proof fn lemma_entries_set(entries: Seq<Entry>, key: Seq<char>, value: Seq<char>)
    requires
        distinct_keys(entries),
    ensures
        distinct_keys(entries_set(entries, key, value)),
        entries_map(entries_set(entries, key, value)) == entries_map(entries).insert(key, value),
    decreases entries.len(),
{
    let at = key_position(entries, key);
    let after = entries_set(entries, key, value);
    lemma_key_position(entries, key);
    if at < entries.len() {
        let front = entries.drop_last();
        lemma_distinct_front(entries);
        if at == entries.len() - 1 {
            assert(after.drop_last() == front);
        } else {
            assert(key_position(front, key) == at) by {
                lemma_key_position(front, key);
                assert(front[at] == entries[at]);
            }
            lemma_entries_set(front, key, value);
            assert(after.drop_last() == entries_set(front, key, value));
        }
    } else {
        assert(after.drop_last() == entries);
    }
}

/// Setting pairs one after the other never repeats a key, and yields the
/// mapping of the pairs.
pub proof fn lemma_entries_from(pairs: Seq<Entry>)
    ensures
        distinct_keys(entries_from(pairs)),
        entries_map(entries_from(pairs)) == entries_map(pairs),
    decreases pairs.len(),
{
    if pairs.len() != 0 {
        lemma_entries_from(pairs.drop_last());
        lemma_entries_set(entries_from(pairs.drop_last()), pairs.last().0, pairs.last().1);
    }
}

/// Entries without a repeated key come back as they are when they are set
/// one after the other: nothing is lost, and the order stays.
pub proof fn lemma_entries_round_trip(entries: Seq<Entry>)
    requires
        distinct_keys(entries),
    ensures
        entries_from(entries) == entries,
    decreases entries.len(),
{
    if entries.len() != 0 {
        let front = entries.drop_last();
        lemma_distinct_front(entries);
        lemma_entries_round_trip(front);
        lemma_key_position(front, entries.last().0);
        assert(front.push(entries.last()) == entries);
    }
}

/// Every key of the mapping of `first` maps to the same value in the
/// mapping of `second`, where neither repeats a key and `second` has every
/// entry of `first`.
proof fn lemma_mapping_included(first: Seq<Entry>, second: Seq<Entry>)
    requires
        distinct_keys(second),
        forall|e: Entry| first.contains(e) ==> second.contains(e),
    ensures
        forall|key: Seq<char>| #[trigger]
            entries_map(first).contains_key(key) ==> entries_map(second).contains_key(key)
                && entries_map(second)[key] == entries_map(first)[key],
{
    assert forall|key: Seq<char>| #[trigger]
        entries_map(first).contains_key(key) implies entries_map(second).contains_key(key)
        && entries_map(second)[key] == entries_map(first)[key] by {
        lemma_entries_map_keys(first, key);
        let entry = (key, entries_map(first)[key]);
        let i = choose|i: int| 0 <= i < first.len() && first[i] == entry;
        assert(first[i] == entry);
        assert(first.contains(entry));
        let j = choose|j: int| 0 <= j < second.len() && second[j] == entry;
        lemma_entries_map_at(second, j);
    }
}

/// Lists of entries without a repeated key that hold the same entries stand
/// for the same mapping, in whatever order the entries come: the store may
/// hand them back in another order than it was given them.
pub proof fn lemma_order_is_irrelevant(first: Seq<Entry>, second: Seq<Entry>)
    requires
        distinct_keys(first),
        distinct_keys(second),
        forall|e: Entry| first.contains(e) <==> second.contains(e),
    ensures
        entries_map(first) == entries_map(second),
{
    lemma_mapping_included(first, second);
    lemma_mapping_included(second, first);
    assert(entries_map(first) =~= entries_map(second));
}

/// The stored preferences.
#[derive(Debug)]
pub struct Preferences {
    entries: Vec<(String, String)>,
}

impl Preferences {
    #[verifier::type_invariant]
    spec fn no_key_twice(self) -> bool {
        distinct_keys(self.entries.deep_view())
    }

    /// The entries in the order in which they are listed.
    pub closed spec fn entries(&self) -> Seq<Entry> {
        self.entries.deep_view()
    }

    /// The mapping from keys to values.
    pub open spec fn view(&self) -> Map<Seq<char>, Seq<char>> {
        entries_map(self.entries())
    }

    /// Preferences with nothing set.
    pub fn new() -> (prefs: Self)
        ensures
            prefs.entries() == Seq::<Entry>::empty(),
            prefs@ == Map::<Seq<char>, Seq<char>>::empty(),
    {
        Preferences { entries: Vec::new() }
    }

    /// The number of keys that are set.
    pub fn len(&self) -> (n: usize)
        ensures
            n == self.entries().len(),
    {
        self.entries.len()
    }

    /// The index of `key` among the entries, or their number where it is not set.
    fn position(&self, key: &String) -> (at: usize)
        ensures
            at == key_position(self.entries(), key@),
    {
        let mut at: usize = 0;
        assert(self.entries().skip(0) =~= self.entries());
        while at < self.entries.len()
            invariant
                at <= self.entries.len(),
                key_position(self.entries(), key@) == at + key_position(
                    self.entries().skip(at as int),
                    key@,
                ),
            decreases self.entries.len() - at,
        {
            let ghost rest = self.entries().skip(at as int);
            assert(rest.drop_first() == self.entries().skip(at + 1));
            if self.entries[at].0 == *key {
                return at;
            }
            at += 1;
        }
        at
    }

    /// Whether `key` is set.
    pub fn contains(&self, key: &str) -> (found: bool)
        ensures
            found == self@.contains_key(key@),
    {
        let owned = key.to_owned();
        let at = self.position(&owned);
        proof {
            lemma_key_position(self.entries(), key@);
            lemma_entries_map_keys(self.entries(), key@);
        }
        at < self.entries.len()
    }

    /// The value of `key`, if it is set.
    pub fn get(&self, key: &str) -> (value: Option<String>)
        ensures
            match value {
                Some(text) => self@.contains_key(key@) && self@[key@] == text@,
                None => !self@.contains_key(key@),
            },
    {
        let owned = key.to_owned();
        let at = self.position(&owned);
        proof {
            use_type_invariant(self);
            lemma_key_position(self.entries(), key@);
            lemma_entries_map_keys(self.entries(), key@);
        }
        if at < self.entries.len() {
            proof {
                lemma_entries_map_at(self.entries(), at as int);
            }
            Some(self.entries[at].1.clone())
        } else {
            None
        }
    }

    /// Sets `key` to `value` and tells whether that changed the mapping.
    pub fn set(&mut self, key: &str, value: &str) -> (changed: bool)
        ensures
            final(self).entries() == entries_set(old(self).entries(), key@, value@),
            final(self)@ == old(self)@.insert(key@, value@),
            changed == !(old(self)@.contains_key(key@) && old(self)@[key@] == value@),
            changed == (final(self)@ != old(self)@),
    {
        let owned = key.to_owned();
        let at = self.position(&owned);
        proof {
            use_type_invariant(&*self);
            lemma_key_position(self.entries(), key@);
            lemma_entries_map_keys(self.entries(), key@);
            lemma_entries_set(self.entries(), key@, value@);
        }
        let ghost before = self.entries();
        let mut taken = Preferences::new();
        core::mem::swap(self, &mut taken);
        let mut entries = taken.entries;
        let changed = if at < entries.len() {
            proof {
                lemma_entries_map_at(before, at as int);
            }
            let same = entries[at].1 == value.to_owned();
            entries.set(at, (owned, value.to_owned()));
            assert(same ==> entries_map(before).insert(key@, value@) =~= entries_map(before));
            !same
        } else {
            entries.push((owned, value.to_owned()));
            true
        };
        assert(entries.deep_view() =~= entries_set(before, key@, value@));
        self.entries = entries;
        changed
    }

    /// The entries in listing order, as pairs of strings. No key occurs
    /// twice among them.
    pub fn to_pairs(&self) -> (pairs: Vec<(String, String)>)
        ensures
            pairs.deep_view() == self.entries(),
            distinct_keys(self.entries()),
    {
        proof {
            use_type_invariant(self);
        }
        let mut pairs: Vec<(String, String)> = Vec::new();
        let mut at: usize = 0;
        while at < self.entries.len()
            invariant
                at <= self.entries.len(),
                pairs@.len() == at,
                pairs.deep_view() == self.entries().take(at as int),
            decreases self.entries.len() - at,
        {
            let ghost copied = pairs.deep_view();
            pairs.push((self.entries[at].0.clone(), self.entries[at].1.clone()));
            at += 1;
            assert forall|i: int| 0 <= i < at implies pairs.deep_view()[i] == self.entries()[i] by {
                if i < at - 1 {
                    assert(pairs.deep_view()[i] == copied[i]);
                }
            }
        }
        pairs
    }

    /// The preferences that result from setting the pairs of `pairs` one
    /// after the other: of two pairs with one key the later one counts.
    pub fn from_pairs(pairs: &Vec<(String, String)>) -> (prefs: Self)
        ensures
            prefs.entries() == entries_from(pairs.deep_view()),
            prefs@ == entries_map(pairs.deep_view()),
    {
        let mut prefs = Preferences::new();
        let mut at: usize = 0;
        while at < pairs.len()
            invariant
                at <= pairs.len(),
                prefs.entries() == entries_from(pairs.deep_view().take(at as int)),
            decreases pairs.len() - at,
        {
            let ghost done = pairs.deep_view().take(at as int);
            let ghost next = pairs.deep_view().take(at + 1);
            assert(next.drop_last() =~= done);
            prefs.set(pairs[at].0.as_str(), pairs[at].1.as_str());
            at += 1;
        }
        proof {
            assert(pairs.deep_view().take(at as int) =~= pairs.deep_view());
            lemma_entries_from(pairs.deep_view());
        }
        prefs
    }
}

impl Clone for Preferences {
    /// A copy with the same entries in the same order.
    fn clone(&self) -> (copy: Self)
        ensures
            copy.entries() == self.entries(),
    {
        Preferences { entries: self.to_pairs() }
    }
}

/// The preferences with which an invocation starts: those that were loaded
/// from the store, or none where loading failed. Of two loaded pairs with
/// one key the later one counts.
pub fn get_preferences(loaded: Option<Vec<(String, String)>>) -> (prefs: Preferences)
    ensures
        prefs.entries() == match loaded {
            Some(pairs) => entries_from(pairs.deep_view()),
            None => Seq::<Entry>::empty(),
        },
{
    match loaded {
        Some(pairs) => Preferences::from_pairs(&pairs),
        None => Preferences::new(),
    }
}

} // verus!
