//! The items that the user keeps at the top of the library.

use vstd::prelude::*;

use crate::lists;
use crate::text::{id_in, str_eq};

verus! {

/// The layout of the pin file. A file with another number is not read.
pub const PINNED_STORE_VERSION: u32 = 1;

/// The pins as they are kept on disk.
#[derive(Debug, PartialEq, Eq)]
pub struct PinnedFile {
    /// 0 where the file gives none.
    pub version: u32,
    /// The pinned ids, the oldest pin first.
    pub ids: Vec<String>,
}

/// The pins. There is one store; the list of the library and the menu of an item
/// are handed a reference to it, so that they always agree.
#[derive(Debug, PartialEq, Eq)]
pub struct PinnedStore {
    /// The pinned ids, the oldest pin first.
    pub order: Vec<String>,
    /// The pins have changed since they were last written to disk.
    pub unsaved: bool,
}

impl View for PinnedStore {
    type V = Seq<Seq<char>>;

    open spec fn view(&self) -> Seq<Seq<char>> {
        self.order.deep_view()
    }
}

/// The pins after `id` was pinned.
pub open spec fn with_pin(order: Seq<Seq<char>>, id: Seq<char>) -> Seq<Seq<char>> {
    if order.contains(id) {
        order
    } else {
        order.push(id)
    }
}

/// The ids other than `id`.
pub open spec fn other_than(id: Seq<char>) -> spec_fn(Seq<char>) -> bool {
    |k: Seq<char>| k != id
}

/// The pins after `id` was unpinned.
pub open spec fn without_pin(order: Seq<Seq<char>>, id: Seq<char>) -> Seq<Seq<char>> {
    order.filter(other_than(id))
}

/// The pins after `id` was pinned if it was not, and unpinned if it was.
pub open spec fn toggled(order: Seq<Seq<char>>, id: Seq<char>) -> Seq<Seq<char>> {
    if order.contains(id) {
        without_pin(order, id)
    } else {
        with_pin(order, id)
    }
}

/// The place of `id` among the pins from `from` on; an id that is not pinned
/// comes after all others.
pub open spec fn rank_from(order: Seq<Seq<char>>, id: Seq<char>, from: int) -> int
    decreases order.len() - from,
{
    if from >= order.len() {
        usize::MAX as int
    } else if order[from] == id {
        from
    } else {
        rank_from(order, id, from + 1)
    }
}

/// The place of `id` among the pins; an id that is not pinned comes after all
/// others.
pub open spec fn rank_of(order: Seq<Seq<char>>, id: Seq<char>) -> int {
    rank_from(order, id, 0)
}

/// The pins that a file holds: none if the file is missing, cannot be read or has
/// another layout.
pub open spec fn pins_of(file: Option<PinnedFile>) -> Seq<Seq<char>> {
    match file {
        Some(f) if f.version == PINNED_STORE_VERSION => f.ids.deep_view(),
        _ => Seq::empty(),
    }
}

impl PinnedStore {
    /// The pins that were kept on disk. `file` is what was read there, if it could
    /// be read.
    pub fn load(file: Option<PinnedFile>) -> (r: PinnedStore)
        ensures
            r@ == pins_of(file),
            !r.unsaved,
    {
        match file {
            Some(f) if f.version == PINNED_STORE_VERSION => PinnedStore {
                order: f.ids,
                unsaved: false,
            },
            _ => {
                let r = PinnedStore { order: Vec::new(), unsaved: false };
                assert(r@ =~= Seq::<Seq<char>>::empty());
                r
            },
        }
    }

    /// Whether `id` is pinned.
    pub fn is_pinned(&self, id: &str) -> (r: bool)
        ensures
            r == self@.contains(id@),
    {
        id_in(&self.order, id)
    }

    /// Pins `id`, behind the older pins; `true` if it was not pinned before.
    pub fn pin(&mut self, id: &str) -> (r: bool)
        ensures
            r == !old(self)@.contains(id@),
            final(self)@ == with_pin(old(self)@, id@),
            final(self).unsaved == (old(self).unsaved || r),
    {
        if self.is_pinned(id) {
            return false;
        }
        let ghost before = self.order;
        let owned: String = id.to_string();
        self.order.push(owned);
        proof {
            lists::lemma_deep_push(before, self.order, owned);
        }
        self.unsaved = true;
        true
    }

    /// Unpins `id`; `true` if it was pinned before.
    pub fn unpin(&mut self, id: &str) -> (r: bool)
        ensures
            r == old(self)@.contains(id@),
            final(self)@ == without_pin(old(self)@, id@),
            final(self).unsaved == (old(self).unsaved || r),
    {
        let ghost all = self@;
        let ghost other = other_than(id@);
        if !self.is_pinned(id) {
            proof {
                lemma_without_absent(all, id@);
            }
            return false;
        }
        let mut kept: Vec<String> = Vec::new();
        let mut i: usize = 0;
        proof {
            reveal(Seq::filter);
            assert(kept.deep_view() =~= all.take(0).filter(other));
        }
        while i < self.order.len()
            invariant
                i <= self.order.len(),
                all == self.order.deep_view(),
                other == other_than(id@),
                kept.deep_view() == all.take(i as int).filter(other),
            decreases self.order.len() - i,
        {
            proof {
                lists::lemma_filter_take_push(all, other, i as int);
            }
            if !str_eq(self.order[i].as_str(), id) {
                let ghost before = kept;
                let one: String = self.order[i].clone();
                kept.push(one);
                proof {
                    lists::lemma_deep_push(before, kept, one);
                }
            }
            i += 1;
        }
        proof {
            lists::lemma_take_all(all);
        }
        self.order = kept;
        self.unsaved = true;
        true
    }

    /// Pins `id` if it is not pinned and unpins it if it is; `true` if it is
    /// pinned now.
    pub fn toggle(&mut self, id: &str) -> (r: bool)
        ensures
            r == !old(self)@.contains(id@),
            r == final(self)@.contains(id@),
            final(self)@ == toggled(old(self)@, id@),
            final(self).unsaved,
    {
        proof {
            law_pin_and_unpin(self@, id@, id@);
        }
        if self.is_pinned(id) {
            self.unpin(id);
            false
        } else {
            self.pin(id);
            true
        }
    }

    /// The place of `id` among the pins; the largest number if it is not pinned.
    pub fn rank(&self, id: &str) -> (r: usize)
        ensures
            r == rank_of(self@, id@),
            r != usize::MAX <==> self@.contains(id@),
    {
        let ghost all = self@;
        let count: usize = self.order.len();
        proof {
            law_pinned_items_have_a_rank(all, id@);
        }
        let mut i: usize = 0;
        while i < count
            invariant
                i <= count == self.order.len(),
                all == self.order.deep_view(),
                rank_of(all, id@) == rank_from(all, id@, i as int),
            decreases count - i,
        {
            if str_eq(self.order[i].as_str(), id) {
                return i;
            }
            i += 1;
        }
        usize::MAX
    }

    /// What is to be written to disk, if the pins have changed.
    pub fn save(&mut self) -> (r: Option<PinnedFile>)
        ensures
            final(self)@ == old(self)@,
            !final(self).unsaved,
            match r {
                Some(file) => old(self).unsaved && file.version == PINNED_STORE_VERSION
                    && file.ids.deep_view() == old(self)@,
                None => !old(self).unsaved,
            },
    {
        if !self.unsaved {
            return None;
        }
        self.unsaved = false;
        Some(PinnedFile { version: PINNED_STORE_VERSION, ids: self.order.clone() })
    }
}

proof fn lemma_without_absent(order: Seq<Seq<char>>, id: Seq<char>)
    requires
        !order.contains(id),
    ensures
        without_pin(order, id) == order,
    decreases order.len(),
{
    reveal(Seq::filter);
    if order.len() > 0 {
        let front = order.drop_last();
        assert(order[order.len() - 1] == order.last());
        assert forall|i: int| 0 <= i < front.len() implies front[i] != id by {
            assert(order[i] == front[i]);
        }
        assert(!front.contains(id));
        lemma_without_absent(front, id);
        assert(order =~= front.push(order.last()));
    } else {
        assert(without_pin(order, id) =~= order);
    }
}

/// An item is pinned once it was pinned and is not once it was unpinned, and no
/// other item is touched by either.
pub proof fn law_pin_and_unpin(order: Seq<Seq<char>>, id: Seq<char>, other: Seq<char>)
    ensures
        with_pin(order, id).contains(id),
        !without_pin(order, id).contains(id),
        other != id ==> (with_pin(order, id).contains(other) <==> order.contains(other)),
        other != id ==> (without_pin(order, id).contains(other) <==> order.contains(other)),
{
    lists::lemma_contains_push(order, id, id);
    lists::lemma_contains_push(order, id, other);
    lists::lemma_filter_set(order, other_than(id));
}

/// Pinning an item and unpinning it again changes nothing.
pub proof fn law_unpin_undoes_pin(order: Seq<Seq<char>>, id: Seq<char>)
    requires
        !order.contains(id),
    ensures
        without_pin(with_pin(order, id), id) == order,
{
    reveal(Seq::filter);
    lemma_without_absent(order, id);
    assert(order.push(id).drop_last() =~= order);
}

/// No item is ever pinned twice, as long as none was in the file.
pub proof fn law_no_item_is_pinned_twice(order: Seq<Seq<char>>, id: Seq<char>)
    requires
        order.no_duplicates(),
    ensures
        with_pin(order, id).no_duplicates(),
        without_pin(order, id).no_duplicates(),
{
    lists::lemma_push_set(order, id);
    lists::lemma_filter_no_duplicates(order, other_than(id));
}

proof fn lemma_rank_from(order: Seq<Seq<char>>, id: Seq<char>, from: int)
    requires
        0 <= from <= order.len() <= usize::MAX,
    ensures
        order.skip(from).contains(id) ==> from <= rank_from(order, id, from) < order.len()
            && order[rank_from(order, id, from)] == id,
        !order.skip(from).contains(id) ==> rank_from(order, id, from) == usize::MAX,
        from <= rank_from(order, id, from),
    decreases order.len() - from,
{
    if from < order.len() {
        lemma_rank_from(order, id, from + 1);
        let rest = order.skip(from + 1);
        assert(order.skip(from) =~= seq![order[from]] + rest);
        if order[from] == id {
            assert(order.skip(from)[0] == id);
        } else if order.skip(from).contains(id) {
            let i = choose|i: int| 0 <= i < order.skip(from).len() && order.skip(from)[i] == id;
            assert(rest[i - 1] == id);
        } else if rest.contains(id) {
            let i = choose|i: int| 0 <= i < rest.len() && rest[i] == id;
            assert(order.skip(from)[i + 1] == id);
        }
    } else {
        assert(order.skip(from).len() == 0);
    }
}

/// The rank of a pinned item is its place among the pins; every item that is not
/// pinned ranks after every item that is.
pub proof fn law_rank_is_the_place(order: Seq<Seq<char>>, id: Seq<char>)
    requires
        order.len() <= usize::MAX,
    ensures
        order.contains(id) ==> 0 <= rank_of(order, id) < order.len() && order[rank_of(order, id)]
            == id,
        !order.contains(id) ==> rank_of(order, id) == usize::MAX,
        0 <= rank_of(order, id),
{
    lemma_rank_from(order, id, 0);
    assert(order.skip(0) =~= order);
}

/// An item is pinned if and only if it has a rank.
pub proof fn law_pinned_items_have_a_rank(order: Seq<Seq<char>>, id: Seq<char>)
    requires
        order.len() <= usize::MAX,
    ensures
        order.contains(id) <==> rank_of(order, id) != usize::MAX,
{
    law_rank_is_the_place(order, id);
}

/// Toggling an item turns round whether it is pinned, and touches no other.
pub proof fn law_toggle_turns_one_item(order: Seq<Seq<char>>, id: Seq<char>, other: Seq<char>)
    ensures
        toggled(order, id).contains(id) == !order.contains(id),
        other != id ==> toggled(order, id).contains(other) == order.contains(other),
{
    law_pin_and_unpin(order, id, other);
}

proof fn lemma_rank_push(order: Seq<Seq<char>>, new: Seq<char>, id: Seq<char>, from: int)
    requires
        0 <= from <= order.len() < usize::MAX,
        id != new,
    ensures
        rank_from(order.push(new), id, from) == rank_from(order, id, from),
    decreases order.len() - from,
{
    if from < order.len() {
        lemma_rank_push(order, new, id, from + 1);
    } else {
        assert(rank_from(order.push(new), id, from + 1) == usize::MAX);
    }
}

/// A new pin ranks behind all older ones, whose ranks stay.
pub proof fn law_new_pin_ranks_last(order: Seq<Seq<char>>, new: Seq<char>, id: Seq<char>)
    requires
        order.len() < usize::MAX,
        !order.contains(new),
        order.contains(id),
    ensures
        rank_of(with_pin(order, new), id) == rank_of(order, id),
        rank_of(with_pin(order, new), id) < rank_of(with_pin(order, new), new),
{
    lemma_rank_push(order, new, id, 0);
    law_rank_is_the_place(order, id);
    let longer = with_pin(order, new);
    lists::lemma_contains_push(order, new, new);
    law_rank_is_the_place(longer, new);
    let place = rank_of(longer, new);
    if place < order.len() {
        assert(order[place] == new);
    }
}

/// What was written to disk is read back as it was.
pub proof fn law_saved_pins_are_read_back(file: PinnedFile, order: Seq<Seq<char>>)
    requires
        file.version == PINNED_STORE_VERSION,
        file.ids.deep_view() == order,
    ensures
        pins_of(Some(file)) == order,
{
}

/// A file of any other layout, or none at all, holds no pins.
pub proof fn law_other_files_hold_no_pins(file: Option<PinnedFile>)
    ensures
        file is None ==> pins_of(file).len() == 0,
        file matches Some(f) ==> f.version != 1 ==> pins_of(file).len() == 0,
        file matches Some(f) ==> f.version == 1 ==> pins_of(file) == f.ids.deep_view(),
{
}

/// A new pin goes behind the others, and one that is there stays where it is; what
/// is unpinned leaves the others in their order.
pub proof fn law_pins_keep_their_order(front: Seq<Seq<char>>, back: Seq<Seq<char>>, id: Seq<char>)
    requires
        !front.contains(id),
        !back.contains(id),
    ensures
        with_pin(front + back, id) == front + back + seq![id],
        with_pin(front + seq![id] + back, id) == front + seq![id] + back,
        without_pin(front + seq![id] + back, id) == front + back,
        toggled(front + back, id) == front + back + seq![id],
        toggled(front + seq![id] + back, id) == front + back,
{
    let all = front + back;
    let pinned = front + seq![id] + back;
    if all.contains(id) {
        let i = choose|i: int| 0 <= i < all.len() && all[i] == id;
        if i < front.len() {
            assert(front[i] == id);
        } else {
            assert(back[i - front.len()] == id);
        }
    }
    assert(pinned[front.len() as int] == id);
    assert(with_pin(all, id) =~= all + seq![id]);
    let other = other_than(id);
    lists::lemma_filter_concat(front + seq![id], back, other);
    lists::lemma_filter_concat(front, seq![id], other);
    lemma_without_absent(front, id);
    lemma_without_absent(back, id);
    assert forall|i: int| 0 <= i < seq![id].len() implies !other(#[trigger] seq![id][i]) by {
    }
    lists::lemma_filter_nothing(seq![id], other);
    assert(front.filter(other) == front);
    assert(back.filter(other) == back);
    assert(without_pin(pinned, id) =~= front + back);
}

/// The rank is the first place at which the item stands.
pub proof fn law_rank_is_the_first_place(order: Seq<Seq<char>>, id: Seq<char>, k: int)
    requires
        0 <= k < order.len() <= usize::MAX,
        order[k] == id,
        forall|j: int| 0 <= j < k ==> #[trigger] order[j] != id,
    ensures
        rank_of(order, id) == k,
{
    assert(order.contains(id));
    law_rank_is_the_place(order, id);
    lemma_rank_not_after(order, id, k, 0);
}

proof fn lemma_rank_not_after(order: Seq<Seq<char>>, id: Seq<char>, k: int, from: int)
    requires
        0 <= from <= k < order.len() <= usize::MAX,
        order[k] == id,
    ensures
        rank_from(order, id, from) <= k,
    decreases k - from,
{
    if order[from] != id {
        lemma_rank_not_after(order, id, k, from + 1);
    }
}

} // verus!
