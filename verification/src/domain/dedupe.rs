//! The keys of what was seen last, so that it is not taken in twice.

use super::error::{fault_of, invalid, invalid_state, DomainError, DomainErrorView};
use super::MAX_RECENT_DEDUPE_FACTS;
use crate::checks::fault_if;
use crate::datum::Datum;
use crate::text::same_text;
use std::collections::VecDeque;
use vstd::prelude::*;

verus! {

/// The most recent keys, the newest last.
#[derive(Clone, Debug, PartialEq)]
pub struct DedupeFacts {
    pub recent_keys: VecDeque<String>,
}

/// The content of a [`DedupeFacts`].
pub struct DedupeFactsView {
    pub recent_keys: Seq<Seq<char>>,
}

impl DeepView for DedupeFacts {
    type V = DedupeFactsView;

    open spec fn deep_view(&self) -> DedupeFactsView {
        DedupeFactsView {
            recent_keys: self.recent_keys.deep_view(),
        }
    }
}

impl Datum for DedupeFacts {
    fn replica(&self) -> (copy: Self) {
        DedupeFacts {
            recent_keys: self.recent_keys.replica(),
        }
    }
}

/// The keys without the first one that equals `key`.
pub open spec fn without_key(keys: Seq<Seq<char>>, key: Seq<char>) -> Seq<Seq<char>>
    decreases keys.len(),
{
    if keys.len() == 0 {
        keys
    } else if keys[0] == key {
        keys.drop_first()
    } else {
        seq![keys[0]] + without_key(keys.drop_first(), key)
    }
}

/// The newest keys that the window has room for.
pub open spec fn newest_keys(keys: Seq<Seq<char>>) -> Seq<Seq<char>> {
    if keys.len() > MAX_RECENT_DEDUPE_FACTS {
        keys.skip(keys.len() - MAX_RECENT_DEDUPE_FACTS)
    } else {
        keys
    }
}

/// The keys after `key` was seen: it is the newest, and the oldest leave the window.
pub open spec fn remembered(facts: DedupeFactsView, key: Seq<char>) -> DedupeFactsView {
    DedupeFactsView { recent_keys: newest_keys(without_key(facts.recent_keys, key).push(key)) }
}

/// What is wrong with the window.
pub open spec fn dedupe_fault(facts: DedupeFactsView) -> Option<DomainErrorView> {
    fault_if(
        facts.recent_keys.len() > MAX_RECENT_DEDUPE_FACTS || facts.recent_keys.contains(
            Seq::<char>::empty(),
        ),
        invalid("dedupe facts exceed the bounded recent window"@),
    )
}

proof fn lemma_without_key_skip(keys: Seq<Seq<char>>, key: Seq<char>, n: int)
    requires
        0 <= n <= keys.len(),
        forall|i: int| 0 <= i < n ==> keys[i] != key,
    ensures
        without_key(keys, key) == keys.take(n) + without_key(keys.skip(n), key),
    decreases n,
{
    if n > 0 {
        let rest = keys.drop_first();
        assert(rest.skip(n - 1) =~= keys.skip(n));
        assert(keys.take(n) =~= seq![keys[0]] + rest.take(n - 1));
        lemma_without_key_skip(rest, key, n - 1);
        assert(without_key(keys, key) =~= keys.take(n) + without_key(keys.skip(n), key));
    } else {
        assert(keys.skip(0) =~= keys);
        assert(keys.take(0) + without_key(keys, key) =~= without_key(keys, key));
    }
}

impl DedupeFacts {
    /// Whether `key` is in the window.
    pub fn contains(&self, key: &str) -> (found: bool)
        ensures
            found == self.deep_view().recent_keys.contains(key@),
    {
        self.position(key).is_some()
    }

    fn position(&self, key: &str) -> (position: Option<usize>)
        ensures
            match position {
                Some(index) => index < self.recent_keys.len() && self.deep_view().recent_keys[index
                    as int] == key@ && forall|i: int|
                    0 <= i < index ==> self.deep_view().recent_keys[i] != key@,
                None => !self.deep_view().recent_keys.contains(key@),
            },
    {
        let ghost view = self.deep_view().recent_keys;
        let mut index: usize = 0;
        while index < self.recent_keys.len()
            invariant
                view == self.deep_view().recent_keys,
                index <= self.recent_keys.len(),
                forall|i: int| 0 <= i < index ==> view[i] != key@,
            decreases self.recent_keys.len() - index,
        {
            if same_text(&self.recent_keys[index], key) {
                assert(view[index as int] == key@);
                return Some(index);
            }
            index += 1;
        }
        None
    }

    /// Makes `key` the newest key of the window.
    pub(crate) fn remember(&mut self, key: String)
        ensures
            final(self).deep_view() == remembered(old(self).deep_view(), key@),
    {
        let ghost view = self.deep_view().recent_keys;
        let ghost name = key@;
        match self.position(&key) {
            Some(index) => {
                proof {
                    lemma_without_key_skip(view, name, index as int);
                    assert(view.skip(index as int)[0] == name);
                    assert(view.take(index as int) + view.skip(index as int).drop_first()
                        =~= view.remove(index as int));
                }
                self.recent_keys.remove(index);
                assert(self.deep_view().recent_keys =~= without_key(view, name));
            },
            None => {
                proof {
                    lemma_without_key_skip(view, name, view.len() as int);
                    assert(view.skip(view.len() as int) =~= Seq::empty());
                    assert(without_key(view, name) =~= view);
                }
            },
        }
        self.recent_keys.push_back(key);
        let ghost all = without_key(view, name).push(name);
        assert(self.deep_view().recent_keys =~= all);
        assert(all.skip(0) =~= all);
        let ghost mut dropped: int = 0;
        while self.recent_keys.len() > MAX_RECENT_DEDUPE_FACTS
            invariant
                0 <= dropped <= all.len(),
                self.deep_view().recent_keys == all.skip(dropped),
                dropped > 0 ==> all.len() - dropped >= MAX_RECENT_DEDUPE_FACTS,
            decreases self.recent_keys.len(),
        {
            let ghost before = self.recent_keys@;
            assert(self.deep_view().recent_keys.len() == before.len());
            self.recent_keys.pop_front();
            assert(self.recent_keys@ =~= before.skip(1));
            assert forall|i: int| 0 <= i < self.recent_keys@.len() implies #[trigger]
                self.deep_view().recent_keys[i] == all.skip(dropped + 1)[i] by {
                assert(before[i + 1].deep_view() == all.skip(dropped)[i + 1]);
            }
            assert(self.deep_view().recent_keys =~= all.skip(dropped + 1));
            proof {
                dropped = dropped + 1;
            }
        }
        assert(self.deep_view().recent_keys =~= newest_keys(all));
    }

    /// Checks the bound of the window and that no key is empty.
    pub(crate) fn validate(&self) -> (result: Result<(), DomainError>)
        ensures
            fault_of(result) == dedupe_fault(self.deep_view()),
    {
        if self.recent_keys.len() > MAX_RECENT_DEDUPE_FACTS || self.contains("") {
            proof {
                reveal_strlit("");
                assert(""@ =~= Seq::<char>::empty());
            }
            return Err(invalid_state("dedupe facts exceed the bounded recent window"));
        }
        proof {
            reveal_strlit("");
            assert(""@ =~= Seq::<char>::empty());
        }
        Ok(())
    }
}

impl Default for DedupeFacts {
    fn default() -> (facts: Self)
        ensures
            facts.deep_view().recent_keys == Seq::<Seq<char>>::empty(),
    {
        let facts = DedupeFacts { recent_keys: VecDeque::new() };
        assert(facts.deep_view().recent_keys =~= Seq::empty());
        facts
    }
}

} // verus!
