//! A map with text keys, walked in the order of its keys.

use crate::datum::{Datum, Same};
use crate::text::{
    comes_before, lemma_text_before_total, lemma_text_before_transitive, same_text, text_before,
};
use vstd::prelude::*;

verus! {

/// Whether the keys of `entries` ascend strictly.
pub open spec fn ascending<W>(entries: Seq<(Seq<char>, W)>) -> bool {
    forall|i: int, j: int|
        0 <= i < j < entries.len() ==> text_before(#[trigger] entries[i].0, #[trigger] entries[j].0)
}

/// The value under `key`.
pub open spec fn lookup<W>(entries: Seq<(Seq<char>, W)>, key: Seq<char>) -> Option<W>
    decreases entries.len(),
{
    if entries.len() == 0 {
        None
    } else if entries[0].0 == key {
        Some(entries[0].1)
    } else {
        lookup(entries.drop_first(), key)
    }
}

/// The entries with `value` under `key`: in place of the old value, or before the first greater
/// key.
pub open spec fn stored<W>(entries: Seq<(Seq<char>, W)>, key: Seq<char>, value: W) -> Seq<
    (Seq<char>, W),
>
    decreases entries.len(),
{
    if entries.len() == 0 {
        seq![(key, value)]
    } else if entries[0].0 == key {
        entries.update(0, (key, value))
    } else if text_before(key, entries[0].0) {
        seq![(key, value)] + entries
    } else {
        seq![entries[0]] + stored(entries.drop_first(), key, value)
    }
}

/// What was stored under a key is found there, and no other key is touched.
pub proof fn stored_then_found<W>(
    entries: Seq<(Seq<char>, W)>,
    key: Seq<char>,
    value: W,
    other: Seq<char>,
)
    ensures
        lookup(stored(entries, key, value), other) == if other == key {
            Some(value)
        } else {
            lookup(entries, other)
        },
    decreases entries.len(),
{
    reveal_with_fuel(lookup, 2);
    let result = stored(entries, key, value);
    if entries.len() == 0 {
    } else if entries[0].0 == key {
        assert(result.drop_first() =~= entries.drop_first());
    } else if text_before(key, entries[0].0) {
        assert(result.drop_first() =~= entries);
    } else {
        assert(result.drop_first() =~= stored(entries.drop_first(), key, value));
        stored_then_found(entries.drop_first(), key, value, other);
    }
}

/// Storing keeps the keys in order.
pub proof fn stored_keeps_order<W>(entries: Seq<(Seq<char>, W)>, key: Seq<char>, value: W)
    requires
        ascending(entries),
    ensures
        ascending(stored(entries, key, value)),
    decreases entries.len(),
{
    lemma_stored_keys(entries, key, value);
    let result = stored(entries, key, value);
    if entries.len() > 0 {
        let first = entries[0].0;
        lemma_text_before_total(key, first);
        if first == key {
        } else if text_before(key, first) {
            assert forall|i: int, j: int| 0 <= i < j < result.len() implies text_before(
                #[trigger] result[i].0,
                #[trigger] result[j].0,
            ) by {
                if i == 0 && j > 1 {
                    lemma_text_before_transitive(key, first, result[j].0);
                }
            }
        } else {
            let rest = entries.drop_first();
            stored_keeps_order(rest, key, value);
            lemma_stored_keys(rest, key, value);
            let tail = stored(rest, key, value);
            assert forall|i: int, j: int| 0 <= i < j < result.len() implies text_before(
                #[trigger] result[i].0,
                #[trigger] result[j].0,
            ) by {
                assert(result[j] == tail[j - 1]);
                if i == 0 {
                    if tail[j - 1].0 != key {
                        let k = choose|k: int| 0 <= k < rest.len() && rest[k].0 == tail[j - 1].0;
                        assert(entries[k + 1].0 == result[j].0);
                    }
                } else {
                    assert(result[i] == tail[i - 1]);
                }
            }
        }
    }
}

proof fn lemma_stored_keys<W>(entries: Seq<(Seq<char>, W)>, key: Seq<char>, value: W)
    ensures
        forall|i: int|
            0 <= i < stored(entries, key, value).len() ==> {
                ||| (#[trigger] stored(entries, key, value)[i]).0 == key
                ||| exists|k: int|
                    0 <= k < entries.len() && entries[k].0 == stored(entries, key, value)[i].0
            },
    decreases entries.len(),
{
    let result = stored(entries, key, value);
    if entries.len() > 0 && entries[0].0 != key && !text_before(key, entries[0].0) {
        let rest = entries.drop_first();
        lemma_stored_keys(rest, key, value);
        assert forall|i: int| 0 <= i < result.len() implies {
            ||| (#[trigger] result[i]).0 == key
            ||| exists|k: int| 0 <= k < entries.len() && entries[k].0 == result[i].0
        } by {
            if i == 0 {
                assert(entries[0].0 == result[0].0);
            } else {
                let tail = stored(rest, key, value);
                assert(result[i] == tail[i - 1]);
                if tail[i - 1].0 != key {
                    let k = choose|k: int| 0 <= k < rest.len() && rest[k].0 == tail[i - 1].0;
                    assert(entries[k + 1].0 == result[i].0);
                }
            }
        }
    } else if entries.len() > 0 {
        assert forall|i: int| 0 <= i < result.len() implies {
            ||| (#[trigger] result[i]).0 == key
            ||| exists|k: int| 0 <= k < entries.len() && entries[k].0 == result[i].0
        } by {
            if entries[0].0 == key {
                if i > 0 {
                    assert(entries[i].0 == result[i].0);
                }
            } else if i > 0 {
                assert(entries[i - 1].0 == result[i].0);
            }
        }
    }
}

proof fn lemma_lookup_skip<W>(entries: Seq<(Seq<char>, W)>, key: Seq<char>, n: int)
    requires
        0 <= n <= entries.len(),
        forall|i: int| 0 <= i < n ==> entries[i].0 != key,
    ensures
        lookup(entries, key) == lookup(entries.skip(n), key),
    decreases n,
{
    if n > 0 {
        assert(entries.drop_first().skip(n - 1) =~= entries.skip(n));
        lemma_lookup_skip(entries.drop_first(), key, n - 1);
    } else {
        assert(entries.skip(0) =~= entries);
    }
}

proof fn lemma_stored_skip<W>(entries: Seq<(Seq<char>, W)>, key: Seq<char>, value: W, n: int)
    requires
        0 <= n <= entries.len(),
        forall|i: int|
            0 <= i < n ==> entries[i].0 != key && !text_before(key, #[trigger] entries[i].0),
    ensures
        stored(entries, key, value) == entries.take(n) + stored(entries.skip(n), key, value),
    decreases n,
{
    if n > 0 {
        let rest = entries.drop_first();
        assert(rest.skip(n - 1) =~= entries.skip(n));
        lemma_stored_skip(rest, key, value, n - 1);
        assert(entries.take(n) =~= seq![entries[0]] + rest.take(n - 1));
        assert(stored(entries, key, value) =~= seq![entries[0]] + stored(rest, key, value));
    } else {
        assert(entries.skip(0) =~= entries);
        assert(entries.take(0) + stored(entries, key, value) =~= stored(entries, key, value));
    }
}

/// Accepts the entries under other keys.
pub open spec fn keyed_otherwise<W>(key: Seq<char>) -> spec_fn((Seq<char>, W)) -> bool {
    |entry: (Seq<char>, W)| entry.0 != key
}

/// Accepts the entries above a number.
pub open spec fn numbered_above(floor: u64) -> spec_fn((Seq<char>, u64)) -> bool {
    |entry: (Seq<char>, u64)| entry.1 > floor
}

proof fn lemma_filter_next<A>(items: Seq<A>, keep: spec_fn(A) -> bool, index: int)
    requires
        0 <= index < items.len(),
    ensures
        items.take(index + 1).filter(keep) == if keep(items[index]) {
            items.take(index).filter(keep).push(items[index])
        } else {
            items.take(index).filter(keep)
        },
{
    reveal(Seq::filter);
    assert(items.take(index + 1).drop_last() =~= items.take(index));
}

/// What is kept is found as before: an entry is lost only with what it holds.
pub proof fn kept_is_found(entries: Seq<(Seq<char>, u64)>, floor: u64, key: Seq<char>)
    ensures
        lookup(entries, key) matches Some(number) ==> (number > floor ==> lookup(
            entries.filter(numbered_above(floor)),
            key,
        ) == Some(number)),
    decreases entries.len(),
{
    let keep = numbered_above(floor);
    if entries.len() > 0 {
        let rest = entries.drop_first();
        kept_is_found(rest, floor, key);
        lemma_filter_first(entries, keep);
        let filtered = entries.filter(keep);
        if keep(entries[0]) {
            assert(filtered.drop_first() =~= rest.filter(keep));
        }
    }
}

/// What was taken away is not found.
pub proof fn removed_is_not_found<W>(entries: Seq<(Seq<char>, W)>, key: Seq<char>, other: Seq<char>)
    ensures
        lookup(entries.filter(keyed_otherwise(key)), other) == if other == key {
            None
        } else {
            lookup(entries, other)
        },
    decreases entries.len(),
{
    reveal(Seq::filter);
    let keep = keyed_otherwise::<W>(key);
    if entries.len() > 0 {
        let rest = entries.drop_first();
        removed_is_not_found(rest, key, other);
        lemma_filter_first(entries, keep);
        let filtered = entries.filter(keep);
        if keep(entries[0]) {
            assert(filtered.drop_first() =~= rest.filter(keep));
        }
    }
}

proof fn lemma_filter_first<A>(items: Seq<A>, keep: spec_fn(A) -> bool)
    requires
        items.len() > 0,
    ensures
        items.filter(keep) == if keep(items[0]) {
            seq![items[0]] + items.drop_first().filter(keep)
        } else {
            items.drop_first().filter(keep)
        },
    decreases items.len(),
{
    reveal(Seq::filter);
    let front = items.drop_last();
    if items.len() == 1 {
        assert(front =~= Seq::empty());
        assert(items.drop_first() =~= Seq::empty());
    } else {
        lemma_filter_first(front, keep);
        assert(front.drop_first() =~= items.drop_first().drop_last());
        assert(items.drop_first().last() == items.last());
    }
    assert(items.filter(keep) =~= if keep(items[0]) {
        seq![items[0]] + items.drop_first().filter(keep)
    } else {
        items.drop_first().filter(keep)
    });
}

proof fn lemma_filter_ascending<W>(
    entries: Seq<(Seq<char>, W)>,
    keep: spec_fn((Seq<char>, W)) -> bool,
)
    requires
        ascending(entries),
    ensures
        ascending(entries.filter(keep)),
    decreases entries.len(),
{
    reveal(Seq::filter);
    if entries.len() > 0 {
        let front = entries.drop_last();
        lemma_filter_ascending(front, keep);
        let kept = front.filter(keep);
        let result = entries.filter(keep);
        assert forall|i: int, j: int| 0 <= i < j < result.len() implies text_before(
            #[trigger] result[i].0,
            #[trigger] result[j].0,
        ) by {
            assert(result[i] == kept[i]);
            if j == kept.len() {
                assert(kept.contains(kept[i]));
                front.lemma_filter_contains_rev(keep, kept[i]);
                let k = choose|k: int| 0 <= k < front.len() && front[k] == kept[i];
                assert(text_before(entries[k].0, entries[entries.len() - 1].0));
            }
        }
    }
}

/// The contents of entries.
spec fn contents<V: DeepView>(entries: Seq<(String, V)>) -> Seq<(Seq<char>, V::V)> {
    Seq::new(entries.len(), |i: int| (entries[i].0@, entries[i].1.deep_view()))
}

/// Whether the keys of entries ascend strictly.
spec fn in_key_order<V>(entries: Seq<(String, V)>) -> bool {
    forall|i: int, j: int|
        0 <= i < j < entries.len() ==> text_before(
            #[trigger] entries[i].0@,
            #[trigger] entries[j].0@,
        )
}

proof fn lemma_in_key_order<V: DeepView>(entries: Seq<(String, V)>)
    ensures
        in_key_order(entries) == ascending(contents(entries)),
{
    let view = contents(entries);
    if ascending(view) {
        assert forall|i: int, j: int| 0 <= i < j < entries.len() implies text_before(
            #[trigger] entries[i].0@,
            #[trigger] entries[j].0@,
        ) by {
            assert(text_before(view[i].0, view[j].0));
        }
    }
    if in_key_order(entries) {
        assert forall|i: int, j: int| 0 <= i < j < view.len() implies text_before(
            #[trigger] view[i].0,
            #[trigger] view[j].0,
        ) by {
            assert(text_before(entries[i].0@, entries[j].0@));
        }
    }
}

fn store_entry<V: DeepView>(entries: &mut Vec<(String, V)>, key: String, value: V)
    ensures
        contents(final(entries)@) == stored(contents(old(entries)@), key@, value.deep_view()),
{
    let ghost view = contents(entries@);
    let ghost name = key@;
    let ghost content = value.deep_view();
    let mut index: usize = 0;
    while index < entries.len()
        invariant
            view == contents(entries@),
            contents(entries@) == contents(old(entries)@),
            name == key@,
            content == value.deep_view(),
            index <= entries.len(),
            forall|i: int|
                0 <= i < index ==> view[i].0 != name && !text_before(name, #[trigger] view[i].0),
        decreases entries.len() - index,
    {
        if same_text(&entries[index].0, &key) {
            proof {
                lemma_stored_skip(view, name, content, index as int);
                assert(view.skip(index as int)[0] == view[index as int]);
            }
            entries.set(index, (key, value));
            assert(contents(entries@) =~= view.take(index as int) + view.skip(
                index as int,
            ).update(0, (name, content)));
            return;
        }
        if comes_before(&key, &entries[index].0) {
            proof {
                lemma_stored_skip(view, name, content, index as int);
                assert(view.skip(index as int)[0] == view[index as int]);
            }
            entries.insert(index, (key, value));
            assert(contents(entries@) =~= view.take(index as int) + (seq![(name, content)]
                + view.skip(index as int)));
            return;
        }
        index += 1;
    }
    proof {
        lemma_stored_skip(view, name, content, index as int);
    }
    entries.push((key, value));
    assert(contents(entries@) =~= view.take(index as int) + seq![(name, content)]);
}

fn remove_entries<V: DeepView>(entries: &mut Vec<(String, V)>, key: &str)
    ensures
        contents(final(entries)@) == contents(old(entries)@).filter(keyed_otherwise(key@)),
{
    let ghost view = contents(entries@);
    let ghost keep = keyed_otherwise::<V::V>(key@);
    let ghost mut done: int = 0;
    let mut index: usize = 0;
    proof {
        reveal(Seq::filter);
        assert(view.take(0).filter(keep) =~= Seq::empty());
        assert(view.skip(0) =~= view);
    }
    while index < entries.len()
        invariant
            view == contents(old(entries)@),
            keep == keyed_otherwise::<V::V>(key@),
            0 <= done <= view.len(),
            index <= entries.len(),
            index == view.take(done).filter(keep).len(),
            contents(entries@) == view.take(done).filter(keep) + view.skip(done),
        decreases entries.len() - index,
    {
        let ghost before = contents(entries@);
        proof {
            lemma_filter_next(view, keep, done);
            assert(before[index as int] == view.skip(done)[0]);
            assert(view.skip(done).skip(1) =~= view.skip(done + 1));
        }
        if same_text(&entries[index].0, key) {
            let _ = entries.remove(index);
            assert(contents(entries@) =~= before.remove(index as int));
        } else {
            index += 1;
        }
        proof {
            done = done + 1;
            assert(contents(entries@) =~= view.take(done).filter(keep) + view.skip(done));
        }
    }
    assert(view.take(done) =~= view);
    assert(contents(entries@) =~= view.filter(keep));
}

fn keep_numbers_above(entries: &mut Vec<(String, u64)>, floor: u64)
    ensures
        contents(final(entries)@) == contents(old(entries)@).filter(numbered_above(floor)),
{
    let ghost view = contents(entries@);
    let ghost keep = numbered_above(floor);
    let ghost mut done: int = 0;
    let mut index: usize = 0;
    proof {
        reveal(Seq::filter);
        assert(view.take(0).filter(keep) =~= Seq::empty());
        assert(view.skip(0) =~= view);
    }
    while index < entries.len()
        invariant
            view == contents(old(entries)@),
            keep == numbered_above(floor),
            0 <= done <= view.len(),
            index <= entries.len(),
            index == view.take(done).filter(keep).len(),
            contents(entries@) == view.take(done).filter(keep) + view.skip(done),
        decreases entries.len() - index,
    {
        let ghost before = contents(entries@);
        proof {
            lemma_filter_next(view, keep, done);
            assert(before[index as int] == view.skip(done)[0]);
            assert(view.skip(done).skip(1) =~= view.skip(done + 1));
        }
        if entries[index].1 <= floor {
            let _ = entries.remove(index);
            assert(contents(entries@) =~= before.remove(index as int));
        } else {
            index += 1;
        }
        proof {
            done = done + 1;
            assert(contents(entries@) =~= view.take(done).filter(keep) + view.skip(done));
        }
    }
    assert(view.take(done) =~= view);
    assert(contents(entries@) =~= view.filter(keep));
}

/// An ordered map from text to `V`: its keys ascend strictly.
#[derive(Debug, PartialEq)]
pub struct TextMap<V> {
    entries: Vec<(String, V)>,
}

impl<V> TextMap<V> {
    #[verifier::type_invariant]
    spec fn keys_ascend(&self) -> bool {
        in_key_order(self.entries@)
    }
}

impl<V: Clone> Clone for TextMap<V> {
    fn clone(&self) -> (copy: Self) {
        proof {
            use_type_invariant(self);
        }
        let mut entries: Vec<(String, V)> = Vec::with_capacity(self.entries.len());
        let mut index: usize = 0;
        while index < self.entries.len()
            invariant
                index <= self.entries.len(),
                entries.len() == index,
                forall|i: int| 0 <= i < index ==> (#[trigger] entries[i]).0@ == self.entries[i].0@,
            decreases self.entries.len() - index,
        {
            let entry = &self.entries[index];
            entries.push((entry.0.clone(), entry.1.clone()));
            index += 1;
        }
        TextMap { entries }
    }
}

impl<V: DeepView> DeepView for TextMap<V> {
    type V = Seq<(Seq<char>, V::V)>;

    closed spec fn deep_view(&self) -> Self::V {
        contents(self.entries@)
    }
}

impl<V: DeepView> TextMap<V> {
    /// A map without entries.
    pub fn new() -> (map: Self)
        ensures
            map.deep_view() == Seq::<(Seq<char>, V::V)>::empty(),
    {
        let map = TextMap { entries: Vec::new() };
        assert(map.deep_view() =~= Seq::empty());
        map
    }

    /// The number of entries.
    pub fn len(&self) -> (len: usize)
        ensures
            len == self.deep_view().len(),
            ascending(self.deep_view()),
    {
        proof {
            use_type_invariant(self);
        }
        self.entries.len()
    }

    /// The key at a position in the order of keys.
    pub fn key_at(&self, index: usize) -> (key: &String)
        requires
            index < self.deep_view().len(),
        ensures
            key@ == self.deep_view()[index as int].0,
    {
        &self.entries[index].0
    }

    /// The value at a position in the order of keys.
    pub fn value_at(&self, index: usize) -> (value: &V)
        requires
            index < self.deep_view().len(),
        ensures
            value.deep_view() == self.deep_view()[index as int].1,
    {
        &self.entries[index].1
    }

    /// The value under `key`.
    pub fn get(&self, key: &str) -> (value: Option<&V>)
        ensures
            value.deep_view() == lookup(self.deep_view(), key@),
    {
        let ghost view = self.deep_view();
        let mut index: usize = 0;
        while index < self.entries.len()
            invariant
                view == self.deep_view(),
                index <= self.entries.len(),
                forall|i: int| 0 <= i < index ==> view[i].0 != key@,
            decreases self.entries.len() - index,
        {
            if same_text(&self.entries[index].0, key) {
                proof {
                    lemma_lookup_skip(view, key@, index as int);
                    assert(view.skip(index as int)[0] == view[index as int]);
                }
                return Some(&self.entries[index].1);
            }
            index += 1;
        }
        proof {
            lemma_lookup_skip(view, key@, index as int);
        }
        None
    }

    /// Whether there is a value under `key`.
    pub fn contains_key(&self, key: &str) -> (found: bool)
        ensures
            found == (lookup(self.deep_view(), key@) is Some),
    {
        self.get(key).is_some()
    }

    /// Puts `value` under `key`, in place of the value that was there.
    pub fn insert(&mut self, key: String, value: V)
        ensures
            final(self).deep_view() == stored(old(self).deep_view(), key@, value.deep_view()),
    {
        let mut entries: Vec<(String, V)> = Vec::new();
        proof {
            use_type_invariant(&*self);
            lemma_in_key_order(self.entries@);
        }
        let ghost before = contents(self.entries@);
        std::mem::swap(&mut self.entries, &mut entries);
        let ghost (name, content) = (key@, value.deep_view());
        store_entry(&mut entries, key, value);
        proof {
            stored_keeps_order(before, name, content);
            lemma_in_key_order(entries@);
        }
        self.entries = entries;
    }

    /// Takes away what is under `key`.
    pub fn remove(&mut self, key: &str)
        ensures
            final(self).deep_view() == old(self).deep_view().filter(keyed_otherwise(key@)),
    {
        let mut entries: Vec<(String, V)> = Vec::new();
        proof {
            use_type_invariant(&*self);
            lemma_in_key_order(self.entries@);
        }
        let ghost before = contents(self.entries@);
        std::mem::swap(&mut self.entries, &mut entries);
        remove_entries(&mut entries, key);
        proof {
            lemma_filter_ascending(before, keyed_otherwise(key@));
            lemma_in_key_order(entries@);
        }
        self.entries = entries;
    }
}

impl TextMap<u64> {
    /// Keeps the entries above a number.
    pub fn keep_above(&mut self, floor: u64)
        ensures
            final(self).deep_view() == old(self).deep_view().filter(numbered_above(floor)),
    {
        let mut entries: Vec<(String, u64)> = Vec::new();
        proof {
            use_type_invariant(&*self);
            lemma_in_key_order(self.entries@);
        }
        let ghost before = contents(self.entries@);
        std::mem::swap(&mut self.entries, &mut entries);
        keep_numbers_above(&mut entries, floor);
        proof {
            lemma_filter_ascending(before, numbered_above(floor));
            lemma_in_key_order(entries@);
        }
        self.entries = entries;
    }
}

impl<V: Datum> Datum for TextMap<V> {
    fn replica(&self) -> (copy: Self) {
        proof {
            use_type_invariant(self);
        }
        let mut entries: Vec<(String, V)> = Vec::with_capacity(self.entries.len());
        let mut index: usize = 0;
        while index < self.entries.len()
            invariant
                index <= self.entries.len(),
                entries.len() == index,
                forall|i: int|
                    0 <= i < index ==> (#[trigger] entries[i]).0@ == self.entries[i].0@
                        && entries[i].1.deep_view() == self.entries[i].1.deep_view(),
            decreases self.entries.len() - index,
        {
            let entry = &self.entries[index];
            entries.push((entry.0.clone(), entry.1.replica()));
            index += 1;
        }
        let copy = TextMap { entries };
        assert(copy.deep_view() =~= self.deep_view());
        copy
    }
}

impl<V: Same> Same for TextMap<V> {
    fn same(&self, other: &Self) -> (same: bool) {
        if self.entries.len() != other.entries.len() {
            assert(self.deep_view().len() != other.deep_view().len());
            return false;
        }
        let mut index: usize = 0;
        while index < self.entries.len()
            invariant
                self.entries.len() == other.entries.len(),
                index <= self.entries.len(),
                forall|i: int|
                    0 <= i < index ==> #[trigger] self.deep_view()[i] == other.deep_view()[i],
            decreases self.entries.len() - index,
        {
            let left = &self.entries[index];
            let right = &other.entries[index];
            if !same_text(&left.0, &right.0) || !left.1.same(&right.1) {
                assert(self.deep_view()[index as int] != other.deep_view()[index as int]);
                return false;
            }
            index += 1;
        }
        assert(self.deep_view() =~= other.deep_view());
        true
    }
}

} // verus!
