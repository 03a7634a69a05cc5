//! Putting named things in the order of their names.

use crate::datum::Datum;
use crate::text::{comes_before, lemma_text_before_total, lemma_text_before_transitive, text_before};
use vstd::prelude::*;

verus! {

/// A thing with a name.
pub trait Named: DeepView + Sized {
    /// The name of a thing with this content.
    spec fn name_of(content: Self::V) -> Seq<char>;

    /// The name.
    fn name(&self) -> (name: &String)
        ensures
            name@ == Self::name_of(self.deep_view()),
    ;
}

impl Named for String {
    open spec fn name_of(content: Seq<char>) -> Seq<char> {
        content
    }

    fn name(&self) -> (name: &String) {
        self
    }
}

/// The items with one more, which stands behind all whose name does not come after its own.
pub open spec fn inserted<T: Named>(items: Seq<T::V>, item: T::V) -> Seq<T::V>
    decreases items.len(),
{
    if items.len() == 0 {
        seq![item]
    } else if text_before(T::name_of(item), T::name_of(items.last())) {
        inserted::<T>(items.drop_last(), item).push(items.last())
    } else {
        items.push(item)
    }
}

/// The items in the order of their names; those with one name keep their order.
pub open spec fn in_name_order<T: Named>(items: Seq<T::V>) -> Seq<T::V>
    decreases items.len(),
{
    if items.len() == 0 {
        items
    } else {
        inserted::<T>(in_name_order::<T>(items.drop_last()), items.last())
    }
}

/// Whether no name comes before one that stands ahead of it.
pub open spec fn is_in_order<T: Named>(items: Seq<T::V>) -> bool {
    forall|i: int, j: int|
        0 <= i < j < items.len() ==> !text_before(
            T::name_of(#[trigger] items[j]),
            T::name_of(#[trigger] items[i]),
        )
}

proof fn lemma_inserted_from<T: Named>(items: Seq<T::V>, item: T::V, at: int)
    requires
        0 <= at <= items.len(),
        forall|i: int|
            at <= i < items.len() ==> text_before(
                T::name_of(item),
                T::name_of(#[trigger] items[i]),
            ),
        at > 0 ==> !text_before(T::name_of(item), T::name_of(items[at - 1])),
    ensures
        inserted::<T>(items, item) == items.insert(at, item),
    decreases items.len(),
{
    if items.len() == 0 {
        assert(items.insert(0, item) =~= seq![item]);
    } else if at == items.len() {
        assert(items.insert(at, item) =~= items.push(item));
    } else {
        lemma_inserted_from::<T>(items.drop_last(), item, at);
        assert(items.insert(at, item) =~= items.drop_last().insert(at, item).push(items.last()));
    }
}

fn insert_in_order<T: Named>(items: &mut Vec<T>, item: T)
    ensures
        final(items).deep_view() == inserted::<T>(old(items).deep_view(), item.deep_view()),
{
    let ghost view = items.deep_view();
    let ghost content = item.deep_view();
    let mut at: usize = items.len();
    while at > 0 && comes_before(item.name(), items[at - 1].name())
        invariant
            *items == *old(items),
            view == items.deep_view(),
            content == item.deep_view(),
            at <= items.len(),
            forall|i: int|
                at <= i < items.len() ==> text_before(
                    T::name_of(content),
                    T::name_of(#[trigger] view[i]),
                ),
        decreases at,
    {
        assert(view[at - 1] == items[at - 1].deep_view());
        at -= 1;
    }
    proof {
        if at > 0 {
            assert(view[at - 1] == items[at - 1].deep_view());
        }
        lemma_inserted_from::<T>(view, content, at as int);
    }
    items.insert(at, item);
    assert(items.deep_view() =~= view.insert(at as int, content));
}

/// Puts items in the order of their names.
pub fn sort_by_name<T: Named + Datum>(items: &Vec<T>) -> (sorted: Vec<T>)
    ensures
        sorted.deep_view() == in_name_order::<T>(items.deep_view()),
{
    let ghost view = items.deep_view();
    let mut sorted: Vec<T> = Vec::with_capacity(items.len());
    let mut index: usize = 0;
    assert(sorted.deep_view() =~= view.take(0));
    while index < items.len()
        invariant
            view == items.deep_view(),
            index <= items.len(),
            sorted.deep_view() == in_name_order::<T>(view.take(index as int)),
        decreases items.len() - index,
    {
        insert_in_order(&mut sorted, items[index].replica());
        assert(view.take(index + 1).drop_last() =~= view.take(index as int));
        index += 1;
    }
    assert(view.take(index as int) =~= view);
    sorted
}

proof fn lemma_inserted_order<T: Named>(items: Seq<T::V>, item: T::V)
    requires
        is_in_order::<T>(items),
    ensures
        is_in_order::<T>(inserted::<T>(items, item)),
        inserted::<T>(items, item).to_multiset() == items.to_multiset().insert(item),
        forall|i: int|
            0 <= i < inserted::<T>(items, item).len() ==> {
                ||| #[trigger] inserted::<T>(items, item)[i] == item
                ||| items.contains(inserted::<T>(items, item)[i])
            },
    decreases items.len(),
{
    broadcast use vstd::seq_lib::group_to_multiset_ensures;

    let result = inserted::<T>(items, item);
    if items.len() == 0 {
        assert(result =~= items.push(item));
    } else if text_before(T::name_of(item), T::name_of(items.last())) {
        let rest = items.drop_last();
        lemma_inserted_order::<T>(rest, item);
        let head = inserted::<T>(rest, item);
        assert(items =~= rest.push(items.last()));
        assert(result.to_multiset() =~= items.to_multiset().insert(item));
        assert forall|i: int| 0 <= i < result.len() implies {
            ||| #[trigger] result[i] == item
            ||| items.contains(result[i])
        } by {
            if i < head.len() {
                assert(result[i] == head[i]);
                if head[i] != item {
                    let k = choose|k: int| 0 <= k < rest.len() && rest[k] == head[i];
                    assert(items[k] == result[i]);
                }
            } else {
                assert(items[items.len() - 1] == result[i]);
            }
        }
        assert forall|i: int, j: int| 0 <= i < j < result.len() implies !text_before(
            T::name_of(#[trigger] result[j]),
            T::name_of(#[trigger] result[i]),
        ) by {
            let last = items.last();
            if j == result.len() - 1 {
                assert(result[j] == last);
                assert(result[i] == head[i]);
                if head[i] == item {
                    lemma_text_before_total(T::name_of(item), T::name_of(last));
                } else {
                    let k = choose|k: int| 0 <= k < rest.len() && rest[k] == head[i];
                    assert(items[k] == head[i]);
                    assert(items[items.len() - 1] == last);
                }
            } else {
                assert(result[i] == head[i] && result[j] == head[j]);
            }
        }
    } else {
        let last = items.last();
        assert forall|i: int, j: int| 0 <= i < j < result.len() implies !text_before(
            T::name_of(#[trigger] result[j]),
            T::name_of(#[trigger] result[i]),
        ) by {
            if j == items.len() {
                if text_before(T::name_of(item), T::name_of(items[i])) {
                    let a = T::name_of(items[i]);
                    let b = T::name_of(last);
                    assert(items[items.len() - 1] == last);
                    lemma_text_before_total(a, b);
                    if i < items.len() - 1 && a != b {
                        assert(!text_before(b, a));
                        lemma_text_before_transitive(T::name_of(item), a, b);
                    }
                }
            }
        }
        assert forall|i: int| 0 <= i < result.len() implies {
            ||| #[trigger] result[i] == item
            ||| items.contains(result[i])
        } by {
            if i < items.len() {
                assert(items[i] == result[i]);
            }
        }
    }
}

/// Sorting puts the items in order, and neither adds nor loses any.
pub proof fn sorting_orders_all<T: Named>(items: Seq<T::V>)
    ensures
        is_in_order::<T>(in_name_order::<T>(items)),
        in_name_order::<T>(items).to_multiset() == items.to_multiset(),
    decreases items.len(),
{
    broadcast use vstd::seq_lib::group_to_multiset_ensures;

    if items.len() > 0 {
        sorting_orders_all::<T>(items.drop_last());
        lemma_inserted_order::<T>(in_name_order::<T>(items.drop_last()), items.last());
        assert(items =~= items.drop_last().push(items.last()));
    }
}

} // verus!
