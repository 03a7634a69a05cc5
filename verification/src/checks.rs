//! Vocabulary for validations that stop at the first fault.

use vstd::prelude::*;

verus! {

/// Chaining of checks: the outcome of a sequence of checks is the fault of the first one that
/// fails.
pub trait Checks {
    /// This check's fault, or that of `next` where this one passed.
    spec fn before(self, next: Self) -> Self;
}

impl<E> Checks for Option<E> {
    open spec fn before(self, next: Self) -> Self {
        if self is Some {
            self
        } else {
            next
        }
    }
}

/// A check that fails exactly where `bad` holds.
pub open spec fn fault_if<E>(bad: bool, fault: E) -> Option<E> {
    if bad {
        Some(fault)
    } else {
        None
    }
}

/// A check of an optional value, which passes where the value is absent.
pub open spec fn optional_fault<T, E>(
    value: Option<T>,
    check: spec_fn(T) -> Option<E>,
) -> Option<E> {
    match value {
        Some(present) => check(present),
        None => None,
    }
}

/// The first fault among `items`, each checked in the light of the items before it.
pub open spec fn first_fault<A, E>(
    items: Seq<A>,
    check: spec_fn(Seq<A>, A) -> Option<E>,
) -> Option<E>
    decreases items.len(),
{
    if items.len() == 0 {
        None
    } else {
        first_fault(items.drop_last(), check).before(check(items.drop_last(), items.last()))
    }
}

/// The prefix of `items` up to and with position `index` is decided by that of `index` items.
pub proof fn lemma_first_fault_step<A, E>(
    items: Seq<A>,
    check: spec_fn(Seq<A>, A) -> Option<E>,
    index: int,
)
    requires
        0 <= index < items.len(),
    ensures
        first_fault(items.take(index + 1), check) == first_fault(items.take(index), check).before(
            check(items.take(index), items[index]),
        ),
{
    assert(items.take(index + 1).drop_last() =~= items.take(index));
}

/// A fault in a prefix is the fault of the whole.
pub proof fn lemma_first_fault_prefix<A, E>(
    items: Seq<A>,
    check: spec_fn(Seq<A>, A) -> Option<E>,
    index: int,
)
    requires
        0 <= index <= items.len(),
        first_fault(items.take(index), check) is Some,
    ensures
        first_fault(items, check) == first_fault(items.take(index), check),
    decreases items.len() - index,
{
    if index == items.len() {
        assert(items.take(index) =~= items);
    } else {
        lemma_first_fault_step(items, check, index);
        lemma_first_fault_prefix(items, check, index + 1);
    }
}

/// The whole is decided by the prefix of full length.
pub proof fn lemma_first_fault_whole<A, E>(items: Seq<A>, check: spec_fn(Seq<A>, A) -> Option<E>)
    ensures
        first_fault(items.take(items.len() as int), check) == first_fault(items, check),
        first_fault(items.take(0), check) is None,
{
    assert(items.take(items.len() as int) =~= items);
    assert(items.take(0).len() == 0);
}

/// Where a sequence has no fault, no item of it has one.
pub proof fn lemma_no_fault_at<A, E>(
    items: Seq<A>,
    check: spec_fn(Seq<A>, A) -> Option<E>,
    index: int,
)
    requires
        0 <= index < items.len(),
        first_fault(items, check) is None,
    ensures
        check(items.take(index), items[index]) is None,
    decreases items.len(),
{
    if index == items.len() - 1 {
        assert(items.drop_last() =~= items.take(index));
    } else {
        lemma_no_fault_at(items.drop_last(), check, index);
        assert(items.drop_last().take(index) =~= items.take(index));
    }
}

/// A sequence has no fault exactly if no item of it has one in the light of those before it.
pub proof fn lemma_faultless<A, E>(items: Seq<A>, check: spec_fn(Seq<A>, A) -> Option<E>)
    ensures
        first_fault(items, check) is None <==> forall|i: int|
            0 <= i < items.len() ==> check(#[trigger] items.take(i), items[i]) is None,
    decreases items.len(),
{
    if first_fault(items, check) is None {
        assert forall|i: int| 0 <= i < items.len() implies check(
            #[trigger] items.take(i),
            items[i],
        ) is None by {
            lemma_no_fault_at(items, check, i);
        }
    }
    if items.len() > 0 && (forall|i: int|
        0 <= i < items.len() ==> check(#[trigger] items.take(i), items[i]) is None) {
        let front = items.drop_last();
        assert forall|i: int| 0 <= i < front.len() implies check(
            #[trigger] front.take(i),
            front[i],
        ) is None by {
            assert(front.take(i) =~= items.take(i));
            assert(check(items.take(i), items[i]) is None);
        }
        lemma_faultless(front, check);
        assert(front =~= items.take(items.len() - 1));
        assert(check(items.take(items.len() - 1), items[items.len() - 1]) is None);
    }
}

/// The position of the first item that `pick` accepts.
pub open spec fn first_index<A>(items: Seq<A>, pick: spec_fn(A) -> bool) -> Option<int>
    decreases items.len(),
{
    if items.len() == 0 {
        None
    } else if pick(items[0]) {
        Some(0)
    } else {
        match first_index(items.drop_first(), pick) {
            Some(index) => Some(index + 1),
            None => None,
        }
    }
}

/// The first item that `pick` accepts.
pub open spec fn first_match<A>(items: Seq<A>, pick: spec_fn(A) -> bool) -> Option<A> {
    match first_index(items, pick) {
        Some(index) => Some(items[index]),
        None => None,
    }
}

/// An accepted item with no accepted item before it is the first.
pub proof fn lemma_first_index_is<A>(items: Seq<A>, pick: spec_fn(A) -> bool, index: int)
    requires
        0 <= index < items.len(),
        pick(items[index]),
        forall|i: int| 0 <= i < index ==> !pick(items[i]),
    ensures
        first_index(items, pick) == Some(index),
        first_match(items, pick) == Some(items[index]),
    decreases index,
{
    if index > 0 {
        assert(!pick(items[0]));
        lemma_first_index_is(items.drop_first(), pick, index - 1);
    }
}

/// Where no item is accepted there is no first.
pub proof fn lemma_no_first_index<A>(items: Seq<A>, pick: spec_fn(A) -> bool)
    requires
        forall|i: int| 0 <= i < items.len() ==> !pick(items[i]),
    ensures
        first_index(items, pick) is None,
        first_match(items, pick) is None,
    decreases items.len(),
{
    if items.len() > 0 {
        assert(!pick(items[0]));
        lemma_no_first_index(items.drop_first(), pick);
    }
}

/// The first accepted item is accepted, and none before it is.
pub proof fn lemma_first_index_sound<A>(items: Seq<A>, pick: spec_fn(A) -> bool)
    ensures
        match first_index(items, pick) {
            Some(index) => {
                &&& 0 <= index < items.len()
                &&& pick(items[index])
                &&& forall|i: int| 0 <= i < index ==> !pick(items[i])
            },
            None => forall|i: int| 0 <= i < items.len() ==> !pick(items[i]),
        },
    decreases items.len(),
{
    if items.len() > 0 && !pick(items[0]) {
        let rest = items.drop_first();
        lemma_first_index_sound(rest, pick);
        match first_index(rest, pick) {
            Some(index) => {
                assert forall|i: int| 0 <= i < index + 1 implies !pick(items[i]) by {
                    if i > 0 {
                        assert(rest[i - 1] == items[i]);
                    }
                }
            },
            None => {
                assert forall|i: int| 0 <= i < items.len() implies !pick(items[i]) by {
                    if i > 0 {
                        assert(rest[i - 1] == items[i]);
                    }
                }
            },
        }
    }
}

} // verus!
