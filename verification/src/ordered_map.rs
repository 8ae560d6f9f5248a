//! An insertion-ordered map keyed by text.
//!
//! The model of a map is the sequence of its pairs, in the order in which
//! their keys were first written. Writing under a key that is present
//! replaces the value in place; writing under a new key appends.
use vstd::prelude::*;
use vstd::string::*;

verus! {

/// The index of the first pair of `pairs` under `key`, or `pairs.len()` where
/// there is none.
pub open spec fn first_index<V>(pairs: Seq<(Seq<char>, V)>, key: Seq<char>) -> int
    decreases pairs.len(),
{
    if pairs.len() == 0 {
        0
    } else if pairs[0].0 == key {
        0
    } else {
        1 + first_index(pairs.drop_first(), key)
    }
}

/// Whether some pair of `pairs` stands under `key`.
pub open spec fn has_key<V>(pairs: Seq<(Seq<char>, V)>, key: Seq<char>) -> bool {
    first_index(pairs, key) < pairs.len()
}

/// The value of the first pair under `key`.
pub open spec fn lookup<V>(pairs: Seq<(Seq<char>, V)>, key: Seq<char>) -> Option<V> {
    if has_key(pairs, key) {
        Some(pairs[first_index(pairs, key)].1)
    } else {
        None
    }
}

/// No two pairs share a key.
pub open spec fn keys_unique<V>(pairs: Seq<(Seq<char>, V)>) -> bool {
    forall|i: int, j: int|
        0 <= i < j < pairs.len() ==> (#[trigger] pairs[i]).0 != (#[trigger] pairs[j]).0
}

/// One write: the value under `key` is replaced where the key is present, and
/// the pair is appended where it is not.
pub open spec fn put<V>(pairs: Seq<(Seq<char>, V)>, key: Seq<char>, value: V) -> Seq<
    (Seq<char>, V),
> {
    if has_key(pairs, key) {
        pairs.update(first_index(pairs, key), (key, value))
    } else {
        pairs.push((key, value))
    }
}

/// The map that results from writing `pairs` one after the other, from the
/// first to the last, into an empty map.
pub open spec fn collect<V>(pairs: Seq<(Seq<char>, V)>) -> Seq<(Seq<char>, V)>
    decreases pairs.len(),
{
    if pairs.len() == 0 {
        Seq::empty()
    } else {
        put(collect(pairs.drop_last()), pairs.last().0, pairs.last().1)
    }
}

/// The value of the last pair of `pairs` under `key`.
pub open spec fn last_value<V>(pairs: Seq<(Seq<char>, V)>, key: Seq<char>) -> Option<V>
    decreases pairs.len(),
{
    if pairs.len() == 0 {
        None
    } else if pairs.last().0 == key {
        Some(pairs.last().1)
    } else {
        last_value(pairs.drop_last(), key)
    }
}

/// `first_index` is the least index under `key`.
pub proof fn lemma_first_index<V>(pairs: Seq<(Seq<char>, V)>, key: Seq<char>)
    ensures
        0 <= first_index(pairs, key) <= pairs.len(),
        has_key(pairs, key) ==> pairs[first_index(pairs, key)].0 == key,
        forall|j: int| 0 <= j < first_index(pairs, key) ==> (#[trigger] pairs[j]).0 != key,
    decreases pairs.len(),
{
    if pairs.len() != 0 && pairs[0].0 != key {
        let rest = pairs.drop_first();
        lemma_first_index(rest, key);
        assert forall|j: int| 0 <= j < first_index(pairs, key) implies (#[trigger] pairs[j]).0
            != key by {
            if j > 0 {
                assert(rest[j - 1] == pairs[j]);
            }
        }
    }
}

/// An index under `key` (or the length) before which no pair stands under
/// `key` is the `first_index`.
pub proof fn lemma_first_index_is<V>(pairs: Seq<(Seq<char>, V)>, key: Seq<char>, at: int)
    requires
        0 <= at <= pairs.len(),
        at < pairs.len() ==> pairs[at].0 == key,
        forall|j: int| 0 <= j < at ==> (#[trigger] pairs[j]).0 != key,
    ensures
        first_index(pairs, key) == at,
    decreases pairs.len(),
{
    if pairs.len() != 0 && at != 0 {
        let rest = pairs.drop_first();
        assert(pairs[0].0 != key);
        assert forall|j: int| 0 <= j < at - 1 implies (#[trigger] rest[j]).0 != key by {
            assert(rest[j] == pairs[j + 1]);
        }
        lemma_first_index_is(rest, key, at - 1);
    }
}

/// Two sequences with the same keys at the same places find every key at the
/// same place.
pub proof fn lemma_first_index_same_keys<V>(
    left: Seq<(Seq<char>, V)>,
    right: Seq<(Seq<char>, V)>,
    key: Seq<char>,
)
    requires
        left.len() == right.len(),
        forall|i: int| 0 <= i < left.len() ==> (#[trigger] left[i]).0 == right[i].0,
    ensures
        first_index(left, key) == first_index(right, key),
{
    lemma_first_index(left, key);
    let at = first_index(left, key);
    assert forall|j: int| 0 <= j < at implies (#[trigger] right[j]).0 != key by {
        assert(left[j].0 == right[j].0);
    }
    if at < left.len() {
        assert(left[at].0 == right[at].0);
    }
    lemma_first_index_is(right, key, at);
}

/// Where a key is found once a pair has been appended.
pub proof fn lemma_first_index_push<V>(
    pairs: Seq<(Seq<char>, V)>,
    pair: (Seq<char>, V),
    key: Seq<char>,
)
    ensures
        has_key(pairs, key) ==> first_index(pairs.push(pair), key) == first_index(pairs, key),
        !has_key(pairs, key) && pair.0 == key ==> first_index(pairs.push(pair), key)
            == pairs.len(),
        !has_key(pairs, key) && pair.0 != key ==> first_index(pairs.push(pair), key)
            == pairs.len() + 1,
{
    lemma_first_index(pairs, key);
    let longer = pairs.push(pair);
    let at = first_index(pairs, key);
    assert forall|j: int| 0 <= j < at implies (#[trigger] longer[j]).0 != key by {
        assert(longer[j] == pairs[j]);
    }
    if has_key(pairs, key) {
        assert(longer[at] == pairs[at]);
        lemma_first_index_is(longer, key, at);
    } else if pair.0 == key {
        assert(longer[at] == pair);
        lemma_first_index_is(longer, key, at);
    } else {
        assert forall|j: int| 0 <= j < at + 1 implies (#[trigger] longer[j]).0 != key by {
            if j < at {
                assert(longer[j] == pairs[j]);
            } else {
                assert(longer[j] == pair);
            }
        }
        lemma_first_index_is(longer, key, at + 1);
    }
}

/// A write keeps the keys apart.
pub proof fn lemma_put_keeps_unique<V>(pairs: Seq<(Seq<char>, V)>, key: Seq<char>, value: V)
    requires
        keys_unique(pairs),
    ensures
        keys_unique(put(pairs, key, value)),
{
    lemma_first_index(pairs, key);
    let after = put(pairs, key, value);
    let at = first_index(pairs, key);
    assert forall|i: int, j: int| 0 <= i < j < after.len() implies (#[trigger] after[i]).0 != (
    #[trigger] after[j]).0 by {
        if has_key(pairs, key) {
            assert(after[i].0 == pairs[i].0);
            assert(after[j].0 == pairs[j].0);
        } else if j < pairs.len() {
            assert(after[i] == pairs[i]);
            assert(after[j] == pairs[j]);
        } else {
            assert(after[i] == pairs[i]);
            assert(pairs[i].0 != key);
        }
    }
}

/// Every pair after a write is the written pair or a pair that was there
/// before.
pub proof fn lemma_put_members<V>(pairs: Seq<(Seq<char>, V)>, key: Seq<char>, value: V)
    ensures
        forall|i: int|
            0 <= i < put(pairs, key, value).len() ==> (#[trigger] put(pairs, key, value)[i]) == (
                key,
                value,
            ) || pairs.contains(put(pairs, key, value)[i]),
{
    lemma_first_index(pairs, key);
    let after = put(pairs, key, value);
    assert forall|i: int| 0 <= i < after.len() implies (#[trigger] after[i]) == (key, value)
        || pairs.contains(after[i]) by {
        if after[i] != (key, value) {
            assert(after[i] == pairs[i]);
        }
    }
}

/// After a write, the written key holds the written value and every other key
/// holds what it held before.
pub proof fn lemma_lookup_put<V>(
    pairs: Seq<(Seq<char>, V)>,
    key: Seq<char>,
    value: V,
    other: Seq<char>,
)
    ensures
        lookup(put(pairs, key, value), other) == if other == key {
            Some(value)
        } else {
            lookup(pairs, other)
        },
{
    lemma_first_index(pairs, key);
    lemma_first_index(pairs, other);
    let after = put(pairs, key, value);
    let at = first_index(pairs, key);
    if has_key(pairs, key) {
        assert forall|i: int| 0 <= i < after.len() implies (#[trigger] after[i]).0
            == pairs[i].0 by {}
        lemma_first_index_same_keys(after, pairs, other);
    } else {
        lemma_first_index_push(pairs, (key, value), other);
    }
}

/// Writing the pairs of a sequence one after the other keeps the keys apart.
pub proof fn collect_keeps_keys_apart<V>(pairs: Seq<(Seq<char>, V)>)
    ensures
        keys_unique(collect(pairs)),
        collect(pairs).len() <= pairs.len(),
    decreases pairs.len(),
{
    if pairs.len() != 0 {
        collect_keeps_keys_apart(pairs.drop_last());
        lemma_put_keeps_unique(collect(pairs.drop_last()), pairs.last().0, pairs.last().1);
        lemma_first_index(collect(pairs.drop_last()), pairs.last().0);
    }
}

/// Order is preserved: pairs whose keys differ from one another are collected
/// as they stand.
pub proof fn lemma_collect_keeps_order<V>(pairs: Seq<(Seq<char>, V)>)
    requires
        keys_unique(pairs),
    ensures
        collect(pairs) == pairs,
    decreases pairs.len(),
{
    if pairs.len() != 0 {
        let front = pairs.drop_last();
        assert forall|i: int, j: int| 0 <= i < j < front.len() implies (#[trigger] front[i]).0 != (
        #[trigger] front[j]).0 by {
            assert(front[i] == pairs[i]);
            assert(front[j] == pairs[j]);
        }
        lemma_collect_keeps_order(front);
        assert forall|j: int| 0 <= j < front.len() implies (#[trigger] front[j]).0
            != pairs.last().0 by {
            assert(front[j] == pairs[j]);
            assert(pairs.last() == pairs[pairs.len() - 1]);
        }
        lemma_first_index_is(front, pairs.last().0, front.len() as int);
        assert(front.push(pairs.last()) =~= pairs);
    }
}

/// The last write wins: each key of the collected map holds the value of the
/// last pair that was written under it, and no other key is present.
pub proof fn lemma_collect_last_wins<V>(pairs: Seq<(Seq<char>, V)>, key: Seq<char>)
    ensures
        lookup(collect(pairs), key) == last_value(pairs, key),
    decreases pairs.len(),
{
    if pairs.len() != 0 {
        lemma_collect_last_wins(pairs.drop_last(), key);
        lemma_lookup_put(collect(pairs.drop_last()), pairs.last().0, pairs.last().1, key);
    }
}

/// The model of a vector of pairs: each key's text beside each value's view.
pub open spec fn pairs_view<V: View>(entries: Seq<(String, V)>) -> Seq<(Seq<char>, V::V)> {
    Seq::new(entries.len(), |i: int| (entries[i].0@, entries[i].1@))
}

/// A map from text to values that remembers the order in which its keys were
/// first written. No key occurs twice.
pub struct OrderedMap<V: View> {
    entries: Vec<(String, V)>,
}

impl<V: View> View for OrderedMap<V> {
    type V = Seq<(Seq<char>, V::V)>;

    closed spec fn view(&self) -> Seq<(Seq<char>, V::V)> {
        pairs_view(self.entries@)
    }
}

impl<V: View> OrderedMap<V> {
    #[verifier::type_invariant]
    spec fn keys_apart(&self) -> bool {
        keys_unique(pairs_view(self.entries@))
    }

    /// The empty map.
    pub fn new() -> (map: OrderedMap<V>)
        ensures
            map@ == Seq::<(Seq<char>, V::V)>::empty(),
    {
        let map = OrderedMap { entries: Vec::new() };
        assert(map@ =~= Seq::<(Seq<char>, V::V)>::empty());
        map
    }

    /// The number of keys.
    pub fn len(&self) -> (count: usize)
        ensures
            count == self@.len(),
    {
        self.entries.len()
    }

    /// Writes `value` under `key`: in place where the key is present, at the
    /// end where it is not.
    #[verifier::loop_isolation(false)]
    pub fn insert(&mut self, key: String, value: V)
        ensures
            final(self)@ == put(old(self)@, key@, value@),
            keys_unique(final(self)@),
    {
        proof {
            use_type_invariant(&*self);
        }
        let mut entries: Vec<(String, V)> = Vec::new();
        std::mem::swap(&mut self.entries, &mut entries);
        let ghost before = pairs_view(entries@);
        proof {
            lemma_put_keeps_unique(before, key@, value@);
        }
        let count: usize = entries.len();
        let mut at: usize = 0;
        while at < count
            invariant
                count == entries.len(),
                at <= count,
                pairs_view(entries@) == before,
                forall|j: int| 0 <= j < at ==> (#[trigger] before[j]).0 != key@,
            decreases count - at,
        {
            if entries[at].0 == key {
                proof {
                    lemma_first_index_is(before, key@, at as int);
                }
                entries.set(at, (key, value));
                assert(pairs_view(entries@) =~= put(before, key@, value@));
                self.entries = entries;
                return ;
            }
            at += 1;
        }
        proof {
            lemma_first_index_is(before, key@, count as int);
        }
        entries.push((key, value));
        assert(pairs_view(entries@) =~= put(before, key@, value@));
        self.entries = entries;
    }

    /// The value under `key`, if the key is present.
    #[verifier::loop_isolation(false)]
    pub fn get(&self, key: &str) -> (found: Option<&V>)
        ensures
            match found {
                Some(value) => lookup(self@, key@) == Some(value@),
                None => lookup(self@, key@) is None,
            },
    {
        let wanted = String::from_str(key);
        let count: usize = self.entries.len();
        let mut at: usize = 0;
        while at < count
            invariant
                count == self.entries.len(),
                at <= count,
                forall|j: int| 0 <= j < at ==> (#[trigger] self@[j]).0 != key@,
            decreases count - at,
        {
            if self.entries[at].0 == wanted {
                proof {
                    lemma_first_index_is(self@, key@, at as int);
                }
                return Some(&self.entries[at].1);
            }
            at += 1;
        }
        proof {
            lemma_first_index_is(self@, key@, count as int);
        }
        None
    }

    /// The pairs of the map, in the order in which their keys were first
    /// written.
    pub fn entries(&self) -> (pairs: &Vec<(String, V)>)
        ensures
            pairs_view(pairs@) == self@,
            keys_unique(self@),
    {
        proof {
            use_type_invariant(self);
        }
        &self.entries
    }

    /// The pairs of the map, given up by it.
    pub fn into_entries(self) -> (pairs: Vec<(String, V)>)
        ensures
            pairs_view(pairs@) == self@,
            keys_unique(self@),
    {
        proof {
            use_type_invariant(&self);
        }
        self.entries
    }
}

} // verus!
