//! Putting a list in order. Items that the order does not tell apart keep the order
//! in which they came.

use vstd::prelude::*;

use crate::lists;
use crate::text::Order;

verus! {

/// The comparison can order lists: it gives the opposite the other way round and
/// is transitive.
pub open spec fn is_order<V>(order: spec_fn(V, V) -> Order) -> bool {
    &&& forall|a: V, b: V| #[trigger] order(b, a) == order(a, b).spec_reverse()
    &&& forall|a: V, b: V, c: V|
        #[trigger] order(a, b) != Order::Greater && #[trigger] order(b, c) != Order::Greater
            ==> order(a, c) != Order::Greater
}

/// The list is in order.
pub open spec fn in_order<V>(list: Seq<V>, order: spec_fn(V, V) -> Order) -> bool {
    forall|i: int, j: int|
        0 <= i < j < list.len() ==> order(#[trigger] list[i], #[trigger] list[j])
            != Order::Greater
}

/// The items that the order does not tell from the given one.
pub open spec fn beside<V>(order: spec_fn(V, V) -> Order, v: V) -> spec_fn(V) -> bool {
    |o: V| order(o, v) == Order::Equal
}

/// The list is another put in order: it is in order, and of the items that the
/// order does not tell apart it holds the same ones in the same order.
pub open spec fn is_sorted_from<V>(
    list: Seq<V>,
    from: Seq<V>,
    order: spec_fn(V, V) -> Order,
) -> bool {
    &&& in_order(list, order)
    &&& forall|v: V|
        #![trigger beside(order, v)]
        list.filter(beside(order, v)) == from.filter(beside(order, v))
}

/// A way to order items by what they hold.
pub trait Ranking<T: DeepView>: Sized {
    /// How two items compare.
    spec fn order(self) -> spec_fn(T::V, T::V) -> Order;

    /// The comparison can order lists.
    proof fn lemma_is_order(self)
        ensures
            is_order(self.order()),
    ;

    /// Compares two items.
    fn compare(&self, a: &T, b: &T) -> (r: Order)
        ensures
            r == (self.order())(a.deep_view(), b.deep_view()),
    ;
}

/// Inserting an item behind those that do not come after it keeps a list sorted.
proof fn lemma_insert_sorted<V>(
    order: spec_fn(V, V) -> Order,
    list: Seq<V>,
    from: Seq<V>,
    at: int,
    new: V,
)
    requires
        is_order(order),
        is_sorted_from(list, from, order),
        0 <= at <= list.len(),
        forall|i: int| 0 <= i < at ==> order(#[trigger] list[i], new) != Order::Greater,
        forall|i: int| at <= i < list.len() ==> order(#[trigger] list[i], new) == Order::Greater,
    ensures
        is_sorted_from(list.insert(at, new), from.push(new), order),
{
    let longer = list.insert(at, new);
    assert forall|i: int, j: int| 0 <= i < j < longer.len() implies order(
        #[trigger] longer[i],
        #[trigger] longer[j],
    ) != Order::Greater by {
        if i == at {
            assert(order(new, list[j - 1]) == order(list[j - 1], new).spec_reverse());
        } else if j == at {
            assert(longer[i] == list[i]);
        } else {
            let a = if i < at {
                i
            } else {
                i - 1
            };
            let b = if j < at {
                j
            } else {
                j - 1
            };
            assert(longer[i] == list[a] && longer[j] == list[b]);
        }
    }
    assert forall|v: V|
        longer.filter(#[trigger] beside(order, v)) == from.push(new).filter(beside(order, v)) by {
        let same = beside(order, v);
        let head = list.take(at);
        let tail = list.skip(at);
        assert(list =~= head + tail);
        assert(longer =~= head + (seq![new] + tail));
        assert(from.push(new) =~= from + seq![new]);
        lists::lemma_filter_concat(head, tail, same);
        lists::lemma_filter_concat(head, seq![new] + tail, same);
        lists::lemma_filter_concat(seq![new], tail, same);
        lists::lemma_filter_concat(from, seq![new], same);
        if same(new) {
            assert forall|i: int| 0 <= i < tail.len() implies !same(#[trigger] tail[i]) by {
                assert(tail[i] == list[at + i]);
                if same(tail[i]) {
                    assert(order(v, new) == order(new, v).spec_reverse());
                    assert(order(tail[i], v) != Order::Greater);
                    assert(order(v, new) != Order::Greater);
                    assert(order(tail[i], new) != Order::Greater);
                }
            }
            lists::lemma_filter_nothing(tail, same);
            assert(head.filter(same) + tail.filter(same) =~= head.filter(same));
            assert(head.filter(same) + (seq![new].filter(same) + tail.filter(same))
                =~= head.filter(same) + seq![new].filter(same));
        } else {
            assert forall|i: int| 0 <= i < seq![new].len() implies !same(#[trigger] seq![new][i]) by {
            }
            lists::lemma_filter_nothing(seq![new], same);
            assert(seq![new].filter(same) + tail.filter(same) =~= tail.filter(same));
            assert(from.filter(same) + seq![new].filter(same) =~= from.filter(same));
        }
    }
}

/// Puts a list in order.
pub fn sort_by<T: DeepView, R: Ranking<T>>(items: Vec<T>, by: &R) -> (r: Vec<T>)
    ensures
        is_sorted_from(r.deep_view(), items.deep_view(), by.order()),
        r@.len() == items@.len(),
{
    let ghost whole = items;
    let ghost all = items.deep_view();
    let ghost order = by.order();
    let mut list: Vec<T> = Vec::new();
    proof {
        by.lemma_is_order();
        assert(list.deep_view() =~= Seq::<T::V>::empty());
        assert(all.take(0) =~= Seq::<T::V>::empty());
    }
    for item in it: items.into_iter()
        invariant
            it.seq() == whole@,
            all == whole.deep_view(),
            order == by.order(),
            is_order(order),
            is_sorted_from(list.deep_view(), all.take(it.index()), order),
            list@.len() == it.index(),
    {
        let ghost new = item.deep_view();
        assert(all[it.index()] == new);
        let mut at: usize = list.len();
        while at > 0 && matches!(by.compare(&list[at - 1], &item), Order::Greater)
            invariant
                at <= list.len(),
                order == by.order(),
                new == item.deep_view(),
                forall|k: int|
                    at <= k < list@.len() ==> order(#[trigger] list.deep_view()[k], new)
                        == Order::Greater,
            decreases at,
        {
            at -= 1;
            assert(list.deep_view()[at as int] == list@[at as int].deep_view());
        }
        let ghost views = list.deep_view();
        proof {
            assert forall|k: int| 0 <= k < at implies order(#[trigger] views[k], new)
                != Order::Greater by {
                assert(views[at - 1] == list@[at - 1].deep_view());
                assert(order(views[at - 1], new) != Order::Greater);
                if k < at - 1 {
                    assert(order(views[k], views[at - 1]) != Order::Greater);
                }
            }
            lemma_insert_sorted(order, views, all.take(it.index()), at as int, new);
            lists::lemma_take_push(all, it.index());
        }
        list.insert(at, item);
        assert(list.deep_view() =~= views.insert(at as int, new));
    }
    proof {
        lists::lemma_take_all(all);
    }
    list
}

/// A list that was put in order holds what it held before, and nothing else.
pub proof fn law_sorting_keeps_the_items<V>(
    list: Seq<V>,
    from: Seq<V>,
    order: spec_fn(V, V) -> Order,
    v: V,
)
    requires
        is_order(order),
        is_sorted_from(list, from, order),
    ensures
        list.contains(v) <==> from.contains(v),
{
    let same = beside(order, v);
    assert(order(v, v) == order(v, v).spec_reverse());
    assert(same(v));
    assert(list.filter(same) == from.filter(same));
    lists::lemma_filter_set(list, same);
    lists::lemma_filter_set(from, same);
    assert(list.filter(same).contains(v) <==> list.contains(v));
    assert(from.filter(same).contains(v) <==> from.contains(v));
}

/// There is only one way to put a list in order: of two lists that are the same one
/// put in order, each is the other.
pub proof fn law_sorting_is_unique<V>(
    a: Seq<V>,
    b: Seq<V>,
    from: Seq<V>,
    order: spec_fn(V, V) -> Order,
)
    requires
        is_order(order),
        is_sorted_from(a, from, order),
        is_sorted_from(b, from, order),
        a.len() == b.len(),
    ensures
        a == b,
    decreases a.len(),
{
    if a.len() > 0 {
        let x = a.last();
        let y = b.last();
        // The two last items compare equal: each is in the other list, where
        // nothing comes after its last item.
        law_sorting_keeps_the_items(a, from, order, x);
        law_sorting_keeps_the_items(b, from, order, x);
        law_sorting_keeps_the_items(a, from, order, y);
        law_sorting_keeps_the_items(b, from, order, y);
        assert(a.contains(x)) by {
            assert(a[a.len() - 1] == x);
        }
        assert(b.contains(y)) by {
            assert(b[b.len() - 1] == y);
        }
        assert(b.contains(x) && a.contains(y));
        let i = choose|i: int| 0 <= i < b.len() && b[i] == x;
        let j = choose|j: int| 0 <= j < a.len() && a[j] == y;
        assert(order(x, x) == order(x, x).spec_reverse());
        assert(order(y, y) == order(y, y).spec_reverse());
        assert(order(x, y) != Order::Greater) by {
            if i < b.len() - 1 {
                assert(order(b[i], b[b.len() - 1]) != Order::Greater);
            }
        }
        assert(order(y, x) != Order::Greater) by {
            if j < a.len() - 1 {
                assert(order(a[j], a[a.len() - 1]) != Order::Greater);
            }
        }
        assert(order(y, x) == order(x, y).spec_reverse());
        assert(order(x, y) == Order::Equal);
        // Both are then the last of the items beside them.
        let same = beside(order, x);
        assert(same(x) && same(y));
        let fa = a.filter(same);
        let fb = b.filter(same);
        reveal(Seq::filter);
        assert(fa == a.drop_last().filter(same).push(x));
        assert(fb == b.drop_last().filter(same).push(y));
        assert(fa == fb);
        assert(fa.last() == x && fb.last() == y);
        assert(x == y);
        // Without them the two lists are sorted from the same list still.
        let front = a.drop_last();
        assert forall|v: V|
            a.drop_last().filter(#[trigger] beside(order, v)) == b.drop_last().filter(
                beside(order, v),
            ) by {
            let p = beside(order, v);
            assert(a.filter(p) == from.filter(p));
            assert(b.filter(p) == from.filter(p));
            let pa = a.drop_last().filter(p);
            let pb = b.drop_last().filter(p);
            if p(x) {
                assert(a.filter(p) == pa.push(x));
                assert(b.filter(p) == pb.push(x));
                assert(pa =~= pa.push(x).drop_last());
                assert(pb =~= pb.push(x).drop_last());
            }
        }
        assert(in_order(a.drop_last(), order));
        assert(in_order(b.drop_last(), order));
        assert(is_sorted_from(a.drop_last(), front, order));
        assert(is_sorted_from(b.drop_last(), front, order));
        law_sorting_is_unique(a.drop_last(), b.drop_last(), front, order);
        assert(a =~= a.drop_last().push(x));
        assert(b =~= b.drop_last().push(y));
    } else {
        assert(a =~= b);
    }
}

/// In a list that was put in order nothing stands before what comes before it in the
/// order.
pub proof fn law_smaller_items_come_first<V>(
    list: Seq<V>,
    from: Seq<V>,
    order: spec_fn(V, V) -> Order,
    i: int,
    j: int,
)
    requires
        is_order(order),
        is_sorted_from(list, from, order),
        0 <= i < list.len(),
        0 <= j < list.len(),
        order(list[i], list[j]) == Order::Less,
    ensures
        i < j,
{
    if j < i {
        assert(order(list[j], list[i]) != Order::Greater);
        assert(order(list[i], list[j]) == order(list[j], list[i]).spec_reverse());
    } else if i == j {
        assert(order(list[i], list[j]) == order(list[j], list[i]).spec_reverse());
    }
}

/// Items that the order does not tell apart keep the order in which they came.
pub proof fn law_ties_are_left_alone<V>(
    list: Seq<V>,
    from: Seq<V>,
    order: spec_fn(V, V) -> Order,
    v: V,
)
    requires
        is_sorted_from(list, from, order),
    ensures
        list.filter(|o: V| order(o, v) == Order::Equal) == from.filter(
            |o: V| order(o, v) == Order::Equal,
        ),
{
    let same = beside(order, v);
    assert(list.filter(same) == from.filter(same));
    assert(same =~= (|o: V| order(o, v) == Order::Equal));
}

} // verus!
