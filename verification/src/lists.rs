//! Facts about lists: how the contents of a vector change as it grows, and what
//! filtering and mapping keep.

use vstd::prelude::*;

verus! {

/// Appending an item to a vector appends its contents to the vector's contents.
pub proof fn lemma_deep_push<T: DeepView>(before: Vec<T>, after: Vec<T>, item: T)
    requires
        after@ == before@.push(item),
    ensures
        after.deep_view() == before.deep_view().push(item.deep_view()),
{
    assert(after.deep_view() =~= before.deep_view().push(item.deep_view()));
}

/// One more item of the front of a list.
pub proof fn lemma_take_push<T>(s: Seq<T>, i: int)
    requires
        0 <= i < s.len(),
    ensures
        s.take(i + 1) == s.take(i).push(s[i]),
{
    assert(s.take(i + 1) =~= s.take(i).push(s[i]));
}

/// Filtering a front of a list one item longer adds that item if it passes.
pub proof fn lemma_filter_take_push<A>(s: Seq<A>, p: spec_fn(A) -> bool, i: int)
    requires
        0 <= i < s.len(),
    ensures
        s.take(i + 1).filter(p) == (if p(s[i]) {
            s.take(i).filter(p).push(s[i])
        } else {
            s.take(i).filter(p)
        }),
{
    reveal(Seq::filter);
    assert(s.take(i + 1).drop_last() =~= s.take(i));
}

/// One more item in a list is one more in its set; a list without repeats stays
/// without repeats if the item is new.
pub proof fn lemma_push_set<T>(s: Seq<T>, x: T)
    ensures
        s.push(x).to_set() == s.to_set().insert(x),
        s.no_duplicates() && !s.contains(x) ==> s.push(x).no_duplicates(),
{
    assert forall|y: T| s.push(x).to_set().contains(y) <==> s.to_set().insert(x).contains(y) by {
        lemma_contains_push(s, x, y);
    }
    assert(s.push(x).to_set() =~= s.to_set().insert(x));
}

/// Filtering keeps a list without repeats so.
pub proof fn lemma_filter_no_duplicates<A>(s: Seq<A>, p: spec_fn(A) -> bool)
    requires
        s.no_duplicates(),
    ensures
        s.filter(p).no_duplicates(),
    decreases s.len(),
{
    reveal(Seq::filter);
    if s.len() > 0 {
        let front = s.drop_last();
        lemma_filter_no_duplicates(front, p);
        lemma_filter_set(front, p);
        assert(!front.contains(s.last()));
        assert(front.filter(p).to_set().contains(s.last()) <==> front.filter(p).contains(s.last()));
        assert(front.to_set().contains(s.last()) <==> front.contains(s.last()));
        lemma_push_set(front.filter(p), s.last());
    }
}

/// Filtering keeps exactly the items that pass.
pub proof fn lemma_filter_set<A>(s: Seq<A>, p: spec_fn(A) -> bool)
    ensures
        forall|x: A|
            #[trigger] s.filter(p).to_set().contains(x) <==> s.to_set().contains(x) && p(x),
        forall|x: A| #[trigger] s.filter(p).contains(x) <==> s.contains(x) && p(x),
    decreases s.len(),
{
    reveal(Seq::filter);
    if s.len() > 0 {
        let front = s.drop_last();
        lemma_filter_set(front, p);
        assert(s =~= front.push(s.last()));
        assert forall|x: A| #[trigger] s.filter(p).contains(x) <==> s.contains(x) && p(x) by {
            lemma_contains_push(front, s.last(), x);
            lemma_contains_push(front.filter(p), s.last(), x);
        }
    }
}

/// Filtering two lists joined is filtering each.
pub proof fn lemma_filter_concat<A>(a: Seq<A>, b: Seq<A>, p: spec_fn(A) -> bool)
    ensures
        (a + b).filter(p) == a.filter(p) + b.filter(p),
    decreases b.len(),
{
    reveal(Seq::filter);
    if b.len() == 0 {
        assert(a + b =~= a);
        assert(a.filter(p) + b.filter(p) =~= a.filter(p));
    } else {
        lemma_filter_concat(a, b.drop_last(), p);
        assert((a + b).drop_last() =~= a + b.drop_last());
        assert((a + b).last() == b.last());
        if p(b.last()) {
            assert((a.filter(p) + b.drop_last().filter(p)).push(b.last()) =~= a.filter(p)
                + b.drop_last().filter(p).push(b.last()));
        }
    }
}

/// Nothing is left where nothing passes.
pub proof fn lemma_filter_nothing<A>(s: Seq<A>, p: spec_fn(A) -> bool)
    requires
        forall|i: int| 0 <= i < s.len() ==> !p(#[trigger] s[i]),
    ensures
        s.filter(p) == Seq::<A>::empty(),
    decreases s.len(),
{
    reveal(Seq::filter);
    if s.len() > 0 {
        assert(!p(s[s.len() - 1]));
        lemma_filter_nothing(s.drop_last(), p);
    } else {
        assert(s.filter(p) =~= Seq::<A>::empty());
    }
}

/// Filtering never makes a list longer.
pub proof fn lemma_filter_len<A>(s: Seq<A>, p: spec_fn(A) -> bool)
    ensures
        s.filter(p).len() <= s.len(),
    decreases s.len(),
{
    reveal(Seq::filter);
    if s.len() > 0 {
        lemma_filter_len(s.drop_last(), p);
    }
}

// ── First occurrences ──────────────────────────────────────────────────────

/// The keys of the items, in order.
pub open spec fn keys<T>(items: Seq<T>, key: spec_fn(T) -> Seq<char>) -> Seq<Seq<char>> {
    items.map_values(key)
}

/// The items whose key has not come before, in order.
pub open spec fn firsts<T>(items: Seq<T>, key: spec_fn(T) -> Seq<char>) -> Seq<T>
    decreases items.len(),
{
    if items.len() == 0 {
        Seq::empty()
    } else {
        let front = items.drop_last();
        if keys(front, key).contains(key(items.last())) {
            firsts(front, key)
        } else {
            firsts(front, key).push(items.last())
        }
    }
}

/// Keeping first occurrences loses no key and keeps none twice.
pub proof fn lemma_firsts<T>(items: Seq<T>, key: spec_fn(T) -> Seq<char>)
    ensures
        keys(firsts(items, key), key).no_duplicates(),
        forall|k: Seq<char>|
            keys(items, key).contains(k) <==> #[trigger] keys(firsts(items, key), key).contains(k),
        firsts(items, key).len() <= items.len(),
    decreases items.len(),
{
    if items.len() > 0 {
        let front = items.drop_last();
        let last = items.last();
        lemma_firsts(front, key);
        let kept = keys(firsts(front, key), key);
        assert(keys(items, key) =~= keys(front, key).push(key(last)));
        assert(keys(firsts(front, key).push(last), key) =~= kept.push(key(last)));
        assert forall|k: Seq<char>|
            keys(items, key).contains(k) <==> #[trigger] keys(firsts(items, key), key).contains(
                k,
            ) by {
            lemma_contains_push(keys(front, key), key(last), k);
            lemma_contains_push(kept, key(last), k);
        }
        if !keys(front, key).contains(key(last)) {
            assert(!kept.contains(key(last)));
        }
    }
}

/// Every first occurrence is one of the items.
pub proof fn lemma_firsts_subset<T>(items: Seq<T>, key: spec_fn(T) -> Seq<char>, i: int)
    requires
        0 <= i < firsts(items, key).len(),
    ensures
        items.contains(firsts(items, key)[i]),
    decreases items.len(),
{
    let front = items.drop_last();
    if i < firsts(front, key).len() {
        lemma_firsts_subset(front, key, i);
        let k = choose|k: int| 0 <= k < front.len() && front[k] == firsts(front, key)[i];
        assert(items[k] == firsts(items, key)[i]);
    } else {
        assert(items[items.len() - 1] == firsts(items, key)[i]);
    }
}

/// What a list one longer contains.
pub proof fn lemma_contains_push<T>(s: Seq<T>, x: T, y: T)
    ensures
        s.push(x).contains(y) <==> s.contains(y) || x == y,
{
    if s.contains(y) {
        let i = choose|i: int| 0 <= i < s.len() && s[i] == y;
        assert(s.push(x)[i] == y);
    }
    if x == y {
        assert(s.push(x)[s.len() as int] == y);
    }
}

/// One more item of the list: it is kept if its key has not come before.
pub proof fn lemma_firsts_push<T>(items: Seq<T>, key: spec_fn(T) -> Seq<char>, i: int)
    requires
        0 <= i < items.len(),
    ensures
        firsts(items.take(i + 1), key) == (if keys(items.take(i), key).contains(key(items[i])) {
            firsts(items.take(i), key)
        } else {
            firsts(items.take(i), key).push(items[i])
        }),
        keys(items.take(i + 1), key) == keys(items.take(i), key).push(key(items[i])),
{
    assert(items.take(i + 1).drop_last() =~= items.take(i));
    assert(keys(items.take(i + 1), key) =~= keys(items.take(i), key).push(key(items[i])));
}

/// The whole list is its own front.
pub proof fn lemma_take_all<T>(s: Seq<T>)
    ensures
        s.take(s.len() as int) == s,
{
    assert(s.take(s.len() as int) =~= s);
}

/// Of the items with one key the first is kept.
pub proof fn law_first_of_each_key_is_kept<T>(
    items: Seq<T>,
    key: spec_fn(T) -> Seq<char>,
    k: int,
)
    requires
        0 <= k < items.len(),
        forall|j: int| 0 <= j < k ==> key(#[trigger] items[j]) != key(items[k]),
    ensures
        firsts(items, key).contains(items[k]),
    decreases items.len(),
{
    let front = items.drop_last();
    if k < items.len() - 1 {
        assert forall|j: int| 0 <= j < k implies key(#[trigger] front[j]) != key(front[k]) by {
            assert(items[j] == front[j]);
        }
        law_first_of_each_key_is_kept(front, key, k);
        lemma_contains_push(firsts(front, key), items.last(), items[k]);
    } else {
        if keys(front, key).contains(key(items.last())) {
            let j = choose|j: int|
                0 <= j < keys(front, key).len() && keys(front, key)[j] == key(items.last());
            assert(items[j] == front[j]);
        }
        lemma_contains_push(firsts(front, key), items.last(), items[k]);
    }
}

/// What is kept of a list is kept in order: more items add to the end.
pub proof fn law_kept_items_stay_in_order<T>(
    items: Seq<T>,
    key: spec_fn(T) -> Seq<char>,
    item: T,
    i: int,
)
    requires
        0 <= i < firsts(items, key).len(),
    ensures
        firsts(items.push(item), key)[i] == firsts(items, key)[i],
        firsts(items.push(item), key).len() <= firsts(items, key).len() + 1,
{
    assert(items.push(item).drop_last() =~= items);
}

} // verus!
