//! A set of ids that remembers the order in which they were added.

use vstd::prelude::*;

use crate::lists;
use crate::text::{id_in, str_eq};

verus! {

/// A set of ids. No id is held twice; the ids keep the order in which they were
/// added.
#[derive(Debug, PartialEq, Eq)]
pub struct IdSet {
    pub ids: Vec<String>,
}

impl DeepView for IdSet {
    type V = Seq<Seq<char>>;

    open spec fn deep_view(&self) -> Seq<Seq<char>> {
        self.ids.deep_view()
    }
}

impl IdSet {
    /// No id is held twice.
    pub open spec fn wf(self) -> bool {
        self.ids.deep_view().no_duplicates()
    }

    /// The ids, in the order in which they were added.
    pub open spec fn seq(self) -> Seq<Seq<char>> {
        self.ids.deep_view()
    }

    /// The ids as a set.
    pub open spec fn set(self) -> Set<Seq<char>> {
        self.ids.deep_view().to_set()
    }

    /// No ids.
    pub fn new() -> (r: IdSet)
        ensures
            r.wf(),
            r.seq() == Seq::<Seq<char>>::empty(),
            r.set() == Set::<Seq<char>>::empty(),
    {
        let r = IdSet { ids: Vec::new() };
        assert(r.seq() =~= Seq::<Seq<char>>::empty());
        assert(r.set() =~= Set::<Seq<char>>::empty());
        r
    }

    /// Whether `id` is in the set.
    pub fn contains(&self, id: &str) -> (r: bool)
        ensures
            r == self.set().contains(id@),
    {
        id_in(&self.ids, id)
    }

    /// Adds `id`, behind the others if it is new; `true` if it is.
    pub fn insert(&mut self, id: &str) -> (r: bool)
        requires
            old(self).wf(),
        ensures
            final(self).wf(),
            r == !old(self).set().contains(id@),
            final(self).set() == old(self).set().insert(id@),
            final(self).seq() == (if r {
                old(self).seq().push(id@)
            } else {
                old(self).seq()
            }),
    {
        if self.contains(id) {
            assert(self.set() =~= self.set().insert(id@));
            return false;
        }
        let ghost before = self.ids;
        let owned: String = id.to_string();
        self.ids.push(owned);
        proof {
            lists::lemma_deep_push(before, self.ids, owned);
            lists::lemma_push_set(before.deep_view(), id@);
        }
        true
    }

    /// Takes `id` out; `true` if it was there.
    pub fn remove(&mut self, id: &str) -> (r: bool)
        requires
            old(self).wf(),
        ensures
            final(self).wf(),
            r == old(self).set().contains(id@),
            final(self).set() == old(self).set().remove(id@),
            final(self).seq() == old(self).seq().filter(|k: Seq<char>| k != id@),
    {
        let ghost all = self.ids.deep_view();
        let ghost other = |k: Seq<char>| k != id@;
        let found: bool = self.contains(id);
        let mut kept: Vec<String> = Vec::new();
        let mut i: usize = 0;
        proof {
            reveal(Seq::filter);
            assert(kept.deep_view() =~= all.take(0).filter(other));
        }
        while i < self.ids.len()
            invariant
                i <= self.ids.len(),
                all == self.ids.deep_view(),
                other == (|k: Seq<char>| k != id@),
                kept.deep_view() == all.take(i as int).filter(other),
            decreases self.ids.len() - i,
        {
            proof {
                lists::lemma_filter_take_push(all, other, i as int);
            }
            if !str_eq(self.ids[i].as_str(), id) {
                let ghost before = kept;
                let one: String = self.ids[i].clone();
                kept.push(one);
                proof {
                    lists::lemma_deep_push(before, kept, one);
                }
            }
            i += 1;
        }
        proof {
            lists::lemma_take_all(all);
            lists::lemma_filter_no_duplicates(all, other);
            lists::lemma_filter_set(all, other);
            assert(all.filter(other).to_set() =~= all.to_set().remove(id@));
        }
        self.ids = kept;
        found
    }

    /// The set of the ids in a list; of an id that is there more than once the
    /// first place counts.
    pub fn from_list(list: &Vec<String>) -> (r: IdSet)
        ensures
            r.wf(),
            r.set() == list.deep_view().to_set(),
            r.seq() == lists::firsts(list.deep_view(), |k: Seq<char>| k),
    {
        let ghost all = list.deep_view();
        let ghost same = |k: Seq<char>| k;
        let mut r = IdSet::new();
        let mut i: usize = 0;
        proof {
            assert(all.take(0).to_set() =~= Set::<Seq<char>>::empty());
        }
        while i < list.len()
            invariant
                i <= list.len(),
                all == list.deep_view(),
                same == (|k: Seq<char>| k),
                r.wf(),
                r.set() == all.take(i as int).to_set(),
                r.seq() == lists::firsts(all.take(i as int), same),
            decreases list.len() - i,
        {
            proof {
                lists::lemma_take_push(all, i as int);
                lists::lemma_push_set(all.take(i as int), all[i as int]);
                lists::lemma_firsts_push(all, same, i as int);
                assert(lists::keys(all.take(i as int), same) =~= all.take(i as int));
                assert(all.take(i as int).to_set().contains(all[i as int]) <==> all.take(
                    i as int,
                ).contains(all[i as int]));
            }
            r.insert(list[i].as_str());
            i += 1;
        }
        proof {
            lists::lemma_take_all(all);
        }
        r
    }
}

impl Clone for IdSet {
    fn clone(&self) -> (r: Self)
        ensures
            r.deep_view() == self.deep_view(),
    {
        IdSet { ids: self.ids.clone() }
    }
}

/// The set holds the ids that the list holds, and no other.
pub proof fn law_set_holds_the_ids(ids: IdSet, id: Seq<char>)
    ensures
        ids.set().contains(id) <==> exists|k: int|
            0 <= k < ids.ids@.len() && #[trigger] ids.ids@[k]@ == id,
        ids.seq().len() == ids.ids@.len(),
{
    let all = ids.ids.deep_view();
    if ids.set().contains(id) {
        let k = choose|k: int| 0 <= k < all.len() && all[k] == id;
        assert(ids.ids@[k]@ == id);
    }
    if exists|k: int| 0 <= k < ids.ids@.len() && #[trigger] ids.ids@[k]@ == id {
        let k = choose|k: int| 0 <= k < ids.ids@.len() && #[trigger] ids.ids@[k]@ == id;
        assert(all[k] == id);
    }
}

} // verus!
