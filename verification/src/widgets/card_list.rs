//! A grid of cards. While cards are on their way placeholders stand in for them.

use vstd::prelude::*;

use crate::card_enums::{CardLayout, CardSize, ImageShape, SortOrder};
use crate::card_model::{CardModel, CardModelView};
use crate::lists;
use crate::pages::library;
use crate::pages::library::has_card;
use crate::sorting;
use crate::sorting::{sort_by, Ranking};
use crate::text;
use crate::text::{order_text, order_u32, to_ascii_lowercase, Order};

verus! {

/// How many placeholders there are.
pub const PLACEHOLDER_COUNT: u32 = 50;

// ── Order ──────────────────────────────────────────────────────────────────

/// How two cards of a grid compare. The newest, the most popular and the largest
/// come first; those whose size is not known come last.
pub open spec fn grid_order(sort: SortOrder, a: CardModelView, b: CardModelView) -> Order {
    match sort {
        SortOrder::RecentlyAdded => text::int_order(
            a.insertion_position as int,
            b.insertion_position as int,
        ),
        SortOrder::Alphabetic => text::text_order(
            text::ascii_lowered(a.title),
            text::ascii_lowered(b.title),
        ),
        SortOrder::Creator => text::text_order(
            text::ascii_lowered(a.subtitle),
            text::ascii_lowered(b.subtitle),
        ),
        SortOrder::DateReleased => text::text_order(b.release_date, a.release_date),
        SortOrder::Popularity => text::int_order(b.popularity as int, a.popularity as int),
        SortOrder::Size => if a.track_count == 0 && b.track_count != 0 {
            Order::Greater
        } else if a.track_count != 0 && b.track_count == 0 {
            Order::Less
        } else {
            text::int_order(b.track_count as int, a.track_count as int)
        },
    }
}

/// Compares two cards of a grid.
pub fn compare_cards(sort: SortOrder, a: &CardModel, b: &CardModel) -> (r: Order)
    ensures
        r == grid_order(sort, a.deep_view(), b.deep_view()),
{
    match sort {
        SortOrder::RecentlyAdded => order_u32(a.insertion_position, b.insertion_position),
        SortOrder::Alphabetic => order_text(
            to_ascii_lowercase(a.title.as_str()).as_str(),
            to_ascii_lowercase(b.title.as_str()).as_str(),
        ),
        SortOrder::Creator => order_text(
            to_ascii_lowercase(a.subtitle.as_str()).as_str(),
            to_ascii_lowercase(b.subtitle.as_str()).as_str(),
        ),
        SortOrder::DateReleased => order_text(b.release_date.as_str(), a.release_date.as_str()),
        SortOrder::Popularity => order_u32(b.popularity, a.popularity),
        SortOrder::Size => if a.track_count == 0 && b.track_count != 0 {
            Order::Greater
        } else if a.track_count != 0 && b.track_count == 0 {
            Order::Less
        } else {
            order_u32(b.track_count, a.track_count)
        },
    }
}

/// How two places of a grid compare: placeholders come last.
pub open spec fn child_order(
    sort: SortOrder,
    a: Option<CardModelView>,
    b: Option<CardModelView>,
) -> Order {
    match (a, b) {
        (Some(a), Some(b)) => grid_order(sort, a, b),
        (None, None) => Order::Equal,
        (None, Some(_)) => Order::Greater,
        (Some(_), None) => Order::Less,
    }
}

/// Compares two places of a grid.
pub fn sort_children(sort: SortOrder, a: &Option<CardModel>, b: &Option<CardModel>) -> (r: Order)
    ensures
        r == child_order(sort, a.deep_view(), b.deep_view()),
{
    match (a, b) {
        (Some(a), Some(b)) => compare_cards(sort, a, b),
        (None, None) => Order::Equal,
        (None, Some(_)) => Order::Greater,
        (Some(_), None) => Order::Less,
    }
}

/// Comparing two places the other way round gives the opposite.
pub proof fn law_child_order_is_antisymmetric(
    sort: SortOrder,
    a: Option<CardModelView>,
    b: Option<CardModelView>,
)
    ensures
        child_order(sort, b, a) == child_order(sort, a, b).spec_reverse(),
{
    if let (Some(a), Some(b)) = (a, b) {
        text::lemma_text_order_antisymmetric(
            text::ascii_lowered(a.title),
            text::ascii_lowered(b.title),
        );
        text::lemma_text_order_antisymmetric(
            text::ascii_lowered(a.subtitle),
            text::ascii_lowered(b.subtitle),
        );
        text::lemma_text_order_antisymmetric(b.release_date, a.release_date);
    }
}

/// A place that stands before or beside a second, which stands before or beside a
/// third, stands before or beside the third: the grid can be sorted.
pub proof fn law_child_order_is_transitive(
    sort: SortOrder,
    a: Option<CardModelView>,
    b: Option<CardModelView>,
    c: Option<CardModelView>,
)
    requires
        child_order(sort, a, b) != Order::Greater,
        child_order(sort, b, c) != Order::Greater,
    ensures
        child_order(sort, a, c) != Order::Greater,
{
    if let (Some(a), Some(b), Some(c)) = (a, b, c) {
        match sort {
            SortOrder::Alphabetic => text::lemma_text_order_transitive(
                text::ascii_lowered(a.title),
                text::ascii_lowered(b.title),
                text::ascii_lowered(c.title),
            ),
            SortOrder::Creator => text::lemma_text_order_transitive(
                text::ascii_lowered(a.subtitle),
                text::ascii_lowered(b.subtitle),
                text::ascii_lowered(c.subtitle),
            ),
            SortOrder::DateReleased => text::lemma_text_order_transitive(
                c.release_date,
                b.release_date,
                a.release_date,
            ),
            _ => {},
        }
    }
}

/// Placeholders stand behind all cards, and cards whose size is not known behind
/// those whose size is.
pub proof fn law_placeholders_come_last(sort: SortOrder, a: CardModelView, b: CardModelView)
    ensures
        child_order(sort, Some(a), None) == Order::Less,
        a.track_count != 0 && b.track_count == 0 ==> grid_order(SortOrder::Size, a, b)
            == Order::Less,
{
}

/// The order of a grid.
pub open spec fn child_ordering(sort: SortOrder) -> spec_fn(
    Option<CardModelView>,
    Option<CardModelView>,
) -> Order {
    |a: Option<CardModelView>, b: Option<CardModelView>| child_order(sort, a, b)
}

/// The order of a grid.
#[derive(Clone, Copy, Debug, PartialEq, Eq, Structural)]
pub struct GridRanking {
    pub sort: SortOrder,
}

impl Ranking<Option<CardModel>> for GridRanking {
    open spec fn order(self) -> spec_fn(Option<CardModelView>, Option<CardModelView>) -> Order {
        child_ordering(self.sort)
    }

    proof fn lemma_is_order(self) {
        let order = child_ordering(self.sort);
        assert forall|a: Option<CardModelView>, b: Option<CardModelView>| #[trigger]
            order(b, a) == order(a, b).spec_reverse() by {
            law_child_order_is_antisymmetric(self.sort, a, b);
        }
        assert forall|a: Option<CardModelView>, b: Option<CardModelView>, c: Option<CardModelView>|
            #[trigger] order(a, b) != Order::Greater && #[trigger] order(b, c)
                != Order::Greater implies order(a, c) != Order::Greater by {
            law_child_order_is_transitive(self.sort, a, b, c);
        }
    }

    fn compare(&self, a: &Option<CardModel>, b: &Option<CardModel>) -> (r: Order) {
        sort_children(self.sort, a, b)
    }
}

// ── Places ─────────────────────────────────────────────────────────────────

/// The cards with their places, counted from 1 on.
pub open spec fn placed_from_one(cards: Seq<CardModelView>) -> Seq<CardModelView> {
    Seq::new(
        cards.len(),
        |i: int| CardModelView { insertion_position: (i + 1) as u32, ..cards[i] },
    )
}

/// New cards with their places: those that have none yet get the next ones.
pub open spec fn place_new(cards: Seq<CardModelView>, next: int) -> (Seq<CardModelView>, int)
    decreases cards.len(),
{
    if cards.len() == 0 {
        (Seq::empty(), next)
    } else {
        let (front, after) = place_new(cards.drop_last(), next);
        let last = cards.last();
        if last.insertion_position == 0 {
            (front.push(CardModelView { insertion_position: after as u32, ..last }), after + 1)
        } else {
            (front.push(last), after)
        }
    }
}

/// The places that hold a card.
pub open spec fn is_card() -> spec_fn(Option<CardModelView>) -> bool {
    |c: Option<CardModelView>| c is Some
}

/// The placeholders, and the places that hold a card with one of the ids.
pub open spec fn still_there(ids: Set<Seq<char>>) -> spec_fn(Option<CardModelView>) -> bool {
    |c: Option<CardModelView>|
        match c {
            Some(card) => ids.contains(card.id),
            None => true,
        }
}

/// How many placeholders there are.
pub open spec fn placeholders(children: Seq<Option<CardModelView>>) -> nat
    decreases children.len(),
{
    if children.len() == 0 {
        0
    } else {
        placeholders(children.drop_last()) + if children.last() is None {
            1nat
        } else {
            0nat
        }
    }
}

/// Cards, each at a place.
pub open spec fn as_children(cards: Seq<CardModelView>) -> Seq<Option<CardModelView>> {
    cards.map_values(|c: CardModelView| Some(c))
}

proof fn lemma_placeholders_concat(a: Seq<Option<CardModelView>>, b: Seq<Option<CardModelView>>)
    ensures
        placeholders(a + b) == placeholders(a) + placeholders(b),
    decreases b.len(),
{
    if b.len() == 0 {
        assert(a + b =~= a);
    } else {
        assert((a + b).drop_last() =~= a + b.drop_last());
        lemma_placeholders_concat(a, b.drop_last());
    }
}

proof fn lemma_no_placeholders(children: Seq<Option<CardModelView>>)
    requires
        forall|i: int| 0 <= i < children.len() ==> #[trigger] children[i] is Some,
    ensures
        placeholders(children) == 0,
    decreases children.len(),
{
    if children.len() > 0 {
        assert(children[children.len() - 1] is Some);
        lemma_no_placeholders(children.drop_last());
    }
}

proof fn lemma_all_placeholders(children: Seq<Option<CardModelView>>)
    requires
        forall|i: int| 0 <= i < children.len() ==> #[trigger] children[i] is None,
    ensures
        placeholders(children) == children.len(),
    decreases children.len(),
{
    if children.len() > 0 {
        assert(children[children.len() - 1] is None);
        lemma_all_placeholders(children.drop_last());
    }
}

proof fn lemma_placeholders_stay(
    children: Seq<Option<CardModelView>>,
    p: spec_fn(Option<CardModelView>) -> bool,
)
    requires
        p(None),
    ensures
        placeholders(children.filter(p)) == placeholders(children),
    decreases children.len(),
{
    reveal(Seq::filter);
    if children.len() > 0 {
        lemma_placeholders_stay(children.drop_last(), p);
        if p(children.last()) {
            let front = children.drop_last().filter(p);
            assert(front.push(children.last()).drop_last() =~= front);
        }
    } else {
        assert(children.filter(p) =~= children);
    }
}

proof fn lemma_placeholders_go(children: Seq<Option<CardModelView>>)
    ensures
        placeholders(children.filter(is_card())) == 0,
{
    lists::lemma_filter_set(children, is_card());
    let kept = children.filter(is_card());
    assert forall|i: int| 0 <= i < kept.len() implies #[trigger] kept[i] is Some by {
        assert(kept.contains(kept[i]));
        assert(is_card()(kept[i]));
    }
    lemma_no_placeholders(kept);
}

// ── The grid ───────────────────────────────────────────────────────────────

/// A grid of cards.
#[derive(Debug, PartialEq, Eq)]
pub struct CardList {
    /// What is in the grid, in the order in which it came: cards, and placeholders
    /// for cards that are on their way.
    pub children: Vec<Option<CardModel>>,
    pub layout: CardLayout,
    pub size: CardSize,
    pub sort: SortOrder,
    /// The place that the next new card gets.
    pub next_position: u32,
    pub placeholder_count: u32,
}

/// The shape of the picture of a card: round if the card says so, otherwise that
/// of the grid.
pub fn child_shape(card: &CardModel, shape: ImageShape) -> (r: ImageShape)
    ensures
        r == (if card.is_round {
            ImageShape::Round
        } else {
            shape
        }),
{
    if card.is_round {
        ImageShape::Round
    } else {
        shape
    }
}

/// The id of the item that a child of the grid opens: a placeholder opens nothing,
/// and neither does a card without an id.
pub fn opened_by(child: &Option<CardModel>) -> (r: Option<String>)
    ensures
        r == (match child {
            Some(card) if card.id@.len() > 0 => Some(card.id),
            _ => None,
        }),
{
    match child {
        Some(card) => if card.id.as_str().is_empty() {
            None
        } else {
            Some(card.id.clone())
        },
        None => None,
    }
}

impl CardList {
    /// The placeholders are counted right.
    pub open spec fn wf(self) -> bool {
        placeholders(self.children.deep_view()) == self.placeholder_count
    }

    /// An empty grid.
    pub fn new() -> (r: CardList)
        ensures
            r.children@.len() == 0,
            r.layout == CardLayout::Vertical,
            r.size == CardSize::Large,
            r.sort == SortOrder::RecentlyAdded,
            r.next_position == 0,
            r.placeholder_count == 0,
            r.wf(),
    {
        let r = CardList {
            children: Vec::new(),
            layout: CardLayout::Vertical,
            size: CardSize::Large,
            sort: SortOrder::RecentlyAdded,
            next_position: 0,
            placeholder_count: 0,
        };
        assert(r.children.deep_view().len() == 0);
        r
    }

    /// Empties the grid.
    pub fn clear(&mut self, layout: CardLayout, size: CardSize)
        ensures
            final(self).wf(),
            final(self).children@.len() == 0,
            *final(self) == (CardList {
                children: final(self).children,
                layout,
                size,
                next_position: 0,
                placeholder_count: 0,
                ..*old(self)
            }),
    {
        self.children = Vec::new();
        self.next_position = 0;
        self.placeholder_count = 0;
        self.layout = layout;
        self.size = size;
        assert(self.children.deep_view().len() == 0);
    }

    /// Shows the cards of a store and nothing else. They get their places.
    pub fn bind(&mut self, cards: &mut Vec<CardModel>, layout: CardLayout, size: CardSize)
        requires
            old(cards)@.len() < u32::MAX,
        ensures
            final(self).wf(),
            final(cards).deep_view() == placed_from_one(old(cards).deep_view()),
            final(self).children.deep_view() == as_children(
                placed_from_one(old(cards).deep_view()),
            ),
            *final(self) == (CardList {
                children: final(self).children,
                layout,
                size,
                next_position: (old(cards)@.len() + 1) as u32,
                placeholder_count: 0,
                ..*old(self)
            }),
    {
        self.clear(layout, size);
        let ghost all = placed_from_one(cards.deep_view());
        let ghost before = cards.deep_view();
        let mut placed: Vec<CardModel> = Vec::new();
        let mut children: Vec<Option<CardModel>> = Vec::new();
        let mut i: usize = 0;
        assert(placed.deep_view() =~= all.take(0));
        assert(children.deep_view() =~= as_children(all.take(0)));
        while i < cards.len()
            invariant
                i <= cards.len() < u32::MAX,
                before == cards.deep_view(),
                all == placed_from_one(before),
                placed.deep_view() == all.take(i as int),
                children.deep_view() == as_children(all.take(i as int)),
            decreases cards.len() - i,
        {
            let ghost grown = placed;
            let ghost longer = children;
            let fresh = cards[i].clone();
            let card = CardModel { insertion_position: i as u32 + 1, ..fresh };
            let child: Option<CardModel> = Some(card.clone());
            placed.push(card);
            children.push(child);
            proof {
                lists::lemma_deep_push(grown, placed, card);
                lists::lemma_deep_push(longer, children, child);
                lists::lemma_take_push(all, i as int);
                assert(before[i as int] == cards@[i as int].deep_view());
                assert(card.deep_view() == all[i as int]);
                assert(as_children(all.take(i as int).push(all[i as int])) =~= as_children(
                    all.take(i as int),
                ).push(Some(all[i as int])));
            }
            i += 1;
        }
        proof {
            lists::lemma_take_all(all);
            lemma_no_placeholders(as_children(all));
        }
        self.next_position = cards.len() as u32 + 1;
        *cards = placed;
        self.children = children;
    }

    /// Takes the placeholders out.
    pub fn remove_placeholders(&mut self)
        ensures
            final(self).wf(),
            *final(self) == (CardList {
                children: final(self).children,
                placeholder_count: 0,
                ..*old(self)
            }),
            final(self).children.deep_view() == old(self).children.deep_view().filter(is_card()),
    {
        let ghost all = self.children.deep_view();
        let mut kept: Vec<Option<CardModel>> = Vec::new();
        let mut i: usize = 0;
        proof {
            reveal(Seq::filter);
            assert(kept.deep_view() =~= all.take(0).filter(is_card()));
        }
        while i < self.children.len()
            invariant
                i <= self.children.len(),
                all == self.children.deep_view(),
                kept.deep_view() == all.take(i as int).filter(is_card()),
            decreases self.children.len() - i,
        {
            proof {
                lists::lemma_filter_take_push(all, is_card(), i as int);
                assert(all[i as int] == self.children@[i as int].deep_view());
            }
            if self.children[i].is_some() {
                let ghost before = kept;
                let child = self.children[i].clone();
                kept.push(child);
                proof {
                    lists::lemma_deep_push(before, kept, child);
                }
            }
            i += 1;
        }
        proof {
            lists::lemma_take_all(all);
            lemma_placeholders_go(all);
        }
        self.children = kept;
        self.placeholder_count = 0;
    }

    /// Takes out the cards that are not in the store any more.
    fn remove_missing(&mut self, source: &Vec<CardModel>)
        requires
            old(self).wf(),
        ensures
            final(self).wf(),
            *final(self) == (CardList { children: final(self).children, ..*old(self) }),
            final(self).children.deep_view() == old(self).children.deep_view().filter(
                still_there(library::card_ids(source.deep_view())),
            ),
    {
        let ghost all = self.children.deep_view();
        let ghost there = still_there(library::card_ids(source.deep_view()));
        let mut kept: Vec<Option<CardModel>> = Vec::new();
        let mut i: usize = 0;
        proof {
            reveal(Seq::filter);
            assert(kept.deep_view() =~= all.take(0).filter(there));
        }
        while i < self.children.len()
            invariant
                i <= self.children.len(),
                all == self.children.deep_view(),
                there == still_there(library::card_ids(source.deep_view())),
                kept.deep_view() == all.take(i as int).filter(there),
            decreases self.children.len() - i,
        {
            proof {
                lists::lemma_filter_take_push(all, there, i as int);
                assert(all[i as int] == self.children@[i as int].deep_view());
            }
            let stays: bool = match &self.children[i] {
                Some(card) => has_card(source, card.id.as_str()),
                None => true,
            };
            if stays {
                let ghost before = kept;
                let child = self.children[i].clone();
                kept.push(child);
                proof {
                    lists::lemma_deep_push(before, kept, child);
                }
            }
            i += 1;
        }
        proof {
            lists::lemma_take_all(all);
            lemma_placeholders_stay(all, there);
        }
        self.children = kept;
    }

    /// Adds the cards `position..position + added` of the store, which get places
    /// if they have none.
    fn add_new(&mut self, source: &mut Vec<CardModel>, position: usize, added: usize)
        requires
            old(self).wf(),
            position + added <= old(source)@.len(),
            old(self).next_position + added <= u32::MAX,
        ensures
            final(self).wf(),
            ({
                let before = old(source).deep_view();
                let (new, next) = place_new(
                    before.subrange(position as int, position + added),
                    old(self).next_position as int,
                );
                &&& final(source).deep_view() == before.take(position as int) + new + before.skip(
                    position + added,
                )
                &&& *final(self) == (CardList {
                    children: final(self).children,
                    next_position: next as u32,
                    ..*old(self)
                })
                &&& final(self).children.deep_view() == old(self).children.deep_view()
                    + as_children(new)
            }),
    {
        let ghost before = source.deep_view();
        let ghost part = before.subrange(position as int, position + added);
        let ghost start = self.children.deep_view();
        let ghost first = self.next_position as int;
        let mut next: u32 = self.next_position;
        let mut i: usize = 0;
        proof {
            assert(part.take(0) =~= Seq::<CardModelView>::empty());
            assert(source.deep_view() =~= before.take(position as int) + place_new(
                part.take(0),
                first,
            ).0 + before.skip(position as int));
            assert(self.children.deep_view() =~= start + as_children(
                place_new(part.take(0), first).0,
            ));
        }
        while i < added
            invariant
                i <= added,
                position + added == position + part.len(),
                position + added <= source.len(),
                source@.len() == before.len(),
                part == before.subrange(position as int, position + added),
                next == place_new(part.take(i as int), first).1,
                next <= first + i,
                first + added <= u32::MAX,
                *self == (CardList { children: self.children, ..*old(self) }),
                place_new(part.take(i as int), first).0.len() == i,
                source.deep_view() == before.take(position as int) + place_new(
                    part.take(i as int),
                    first,
                ).0 + before.skip(position + i),
                self.children.deep_view() == start + as_children(
                    place_new(part.take(i as int), first).0,
                ),
            decreases added - i,
        {
            let at: usize = position + i;
            let ghost done = place_new(part.take(i as int), first).0;
            let ghost longer = place_new(part.take(i + 1), first).0;
            let ghost source_before = source.deep_view();
            let ghost children_before = self.children;
            proof {
                lists::lemma_take_push(part, i as int);
                assert(part.take(i + 1).drop_last() =~= part.take(i as int));
                assert(source_before[at as int] == before[at as int]);
                assert(source_before[at as int] == source@[at as int].deep_view());
                assert(part.take(i + 1).last() == before[at as int]);
            }
            let fresh = source[at].clone();
            let card: CardModel = if fresh.insertion_position == 0 {
                let placed = CardModel { insertion_position: next, ..fresh };
                next = next + 1;
                placed
            } else {
                fresh
            };
            let child: Option<CardModel> = Some(card.clone());
            source.set(at, card);
            self.children.push(child);
            proof {
                lists::lemma_deep_push(children_before, self.children, child);
                assert(longer == done.push(card.deep_view()));
                assert(source.deep_view() =~= source_before.update(at as int, card.deep_view()));
                assert(source.deep_view() =~= before.take(position as int) + longer + before.skip(
                    position + i + 1,
                ));
                assert(as_children(longer) =~= as_children(done).push(Some(card.deep_view())));
                assert(self.children.deep_view() =~= start + as_children(longer));
            }
            i += 1;
        }
        proof {
            lists::lemma_take_all(part);
            let new = place_new(part, first).0;
            lemma_placeholders_concat(start, as_children(new));
            lemma_no_placeholders(as_children(new));
        }
        self.next_position = next;
    }

    /// The store has changed: from `position` on, `removed` cards have gone and
    /// `added` have come. Placeholders make room for new cards.
    pub fn items_changed(
        &mut self,
        source: &mut Vec<CardModel>,
        position: usize,
        removed: usize,
        added: usize,
    )
        requires
            old(self).wf(),
            position + added <= old(source)@.len(),
            old(self).next_position + added <= u32::MAX,
        ensures
            final(self).wf(),
            final(self).layout == old(self).layout,
            final(self).size == old(self).size,
            final(self).sort == old(self).sort,
            final(self).placeholder_count == (if added > 0 {
                0
            } else {
                old(self).placeholder_count
            }),
            ({
                let before = old(source).deep_view();
                let start = old(self).children.deep_view();
                let cards = if added > 0 && old(self).placeholder_count > 0 {
                    start.filter(is_card())
                } else {
                    start
                };
                let kept = if removed > 0 {
                    cards.filter(still_there(library::card_ids(before)))
                } else {
                    cards
                };
                let (new, next) = place_new(
                    before.subrange(position as int, position + added),
                    old(self).next_position as int,
                );
                &&& final(self).children.deep_view() == kept + as_children(new)
                &&& final(self).next_position == next
                &&& final(source).deep_view() == before.take(position as int) + new + before.skip(
                    position + added,
                )
            }),
    {
        if added > 0 && self.placeholder_count > 0 {
            self.remove_placeholders();
        }
        if removed > 0 {
            self.remove_missing(source);
        }
        let ghost kept = self.children.deep_view();
        let ghost before = source.deep_view();
        if added > 0 {
            self.add_new(source, position, added);
        } else {
            proof {
                let part = before.subrange(position as int, position + added);
                assert(part =~= Seq::<CardModelView>::empty());
                assert(as_children(Seq::empty()) =~= Seq::<Option<CardModelView>>::empty());
                assert(kept + as_children(Seq::empty()) =~= kept);
                assert(before.take(position as int) + Seq::<CardModelView>::empty() + before.skip(
                    position + added,
                ) =~= before);
            }
        }
        proof {
            lemma_next_in_range(
                before.subrange(position as int, position + added),
                old(self).next_position as int,
            );
        }
    }

    fn push_placeholders(&mut self)
        requires
            old(self).wf(),
            old(self).placeholder_count == 0,
        ensures
            final(self).wf(),
            *final(self) == (CardList {
                children: final(self).children,
                placeholder_count: PLACEHOLDER_COUNT,
                ..*old(self)
            }),
            final(self).children.deep_view() == old(self).children.deep_view() + Seq::new(
                PLACEHOLDER_COUNT as nat,
                |i: int| None::<CardModelView>,
            ),
    {
        let ghost start = self.children.deep_view();
        let ghost none = |i: int| None::<CardModelView>;
        let mut i: u32 = 0;
        assert(self.children.deep_view() =~= start + Seq::new(0, none));
        while i < PLACEHOLDER_COUNT
            invariant
                i <= PLACEHOLDER_COUNT,
                none == (|i: int| None::<CardModelView>),
                *self == (CardList { children: self.children, ..*old(self) }),
                self.children.deep_view() == start + Seq::new(i as nat, none),
            decreases PLACEHOLDER_COUNT - i,
        {
            let ghost before = self.children;
            let child: Option<CardModel> = None;
            self.children.push(child);
            proof {
                lists::lemma_deep_push(before, self.children, child);
                assert(self.children.deep_view() =~= start + Seq::new((i + 1) as nat, none));
            }
            i += 1;
        }
        proof {
            let new = Seq::new(PLACEHOLDER_COUNT as nat, none);
            lemma_placeholders_concat(start, new);
            lemma_all_placeholders(new);
        }
        self.placeholder_count = PLACEHOLDER_COUNT;
    }

    /// Shows placeholders in an empty grid.
    pub fn show_placeholders(&mut self)
        requires
            old(self).wf(),
        ensures
            final(self).wf(),
            if old(self).children@.len() == 0 {
                &&& *final(self) == (CardList {
                    children: final(self).children,
                    placeholder_count: PLACEHOLDER_COUNT,
                    ..*old(self)
                })
                &&& final(self).children.deep_view() == Seq::new(
                    PLACEHOLDER_COUNT as nat,
                    |i: int| None::<CardModelView>,
                )
            } else {
                *final(self) == *old(self)
            },
    {
        if self.children.len() == 0 {
            assert(self.children.deep_view().len() == 0);
            let ghost start = self.children.deep_view();
            self.push_placeholders();
            assert(start + Seq::new(PLACEHOLDER_COUNT as nat, |i: int| None::<CardModelView>)
                =~= Seq::new(PLACEHOLDER_COUNT as nat, |i: int| None::<CardModelView>));
        }
    }

    /// Adds placeholders while more cards are on their way, unless there are any.
    pub fn append_placeholders(&mut self)
        requires
            old(self).wf(),
        ensures
            final(self).wf(),
            if old(self).placeholder_count == 0 {
                &&& *final(self) == (CardList {
                    children: final(self).children,
                    placeholder_count: PLACEHOLDER_COUNT,
                    ..*old(self)
                })
                &&& final(self).children.deep_view() == old(self).children.deep_view() + Seq::new(
                    PLACEHOLDER_COUNT as nat,
                    |i: int| None::<CardModelView>,
                )
            } else {
                *final(self) == *old(self)
            },
    {
        if self.placeholder_count > 0 {
            return;
        }
        self.push_placeholders();
    }

    /// What is in the grid, as it is laid out.
    pub fn listed(&self) -> (r: Vec<Option<CardModel>>)
        ensures
            sorting::is_sorted_from(
                r.deep_view(),
                self.children.deep_view(),
                child_ordering(self.sort),
            ),
            r@.len() == self.children@.len(),
    {
        let copies: Vec<Option<CardModel>> = self.children.clone();
        assert(copies.deep_view().len() == self.children.deep_view().len());
        sort_by(copies, &GridRanking { sort: self.sort })
    }

    /// Changes the size of the cards.
    pub fn update_size(&mut self, size: CardSize)
        ensures
            *final(self) == (CardList { size, ..*old(self) }),
    {
        self.size = size;
    }

    /// Changes the layout of the cards.
    pub fn update_layout(&mut self, layout: CardLayout)
        ensures
            *final(self) == (CardList { layout, ..*old(self) }),
    {
        self.layout = layout;
    }

    /// Changes the order.
    pub fn set_sort(&mut self, sort: SortOrder)
        ensures
            *final(self) == (CardList { sort, ..*old(self) }),
    {
        self.sort = sort;
    }
}

/// Each new card takes at most one place.
proof fn lemma_next_in_range(cards: Seq<CardModelView>, next: int)
    ensures
        next <= place_new(cards, next).1 <= next + cards.len(),
        place_new(cards, next).0.len() == cards.len(),
    decreases cards.len(),
{
    if cards.len() > 0 {
        lemma_next_in_range(cards.drop_last(), next);
    }
}

/// New cards that have no place yet get places that no card had before, one after
/// the other.
pub proof fn law_new_places_are_fresh(cards: Seq<CardModelView>, next: int, i: int, j: int)
    requires
        0 <= i < j < cards.len(),
        0 < next,
        next + cards.len() <= u32::MAX,
        cards[i].insertion_position == 0,
        cards[j].insertion_position == 0,
    ensures
        next <= place_new(cards, next).0[i].insertion_position < place_new(
            cards,
            next,
        ).0[j].insertion_position < place_new(cards, next).1,
    decreases cards.len(),
{
    let front = cards.drop_last();
    lemma_next_in_range(front, next);
    lemma_next_in_range(cards, next);
    if j < cards.len() - 1 {
        law_new_places_are_fresh(front, next, i, j);
    } else {
        lemma_place_in_range(front, next, i);
    }
}

proof fn lemma_place_in_range(cards: Seq<CardModelView>, next: int, i: int)
    requires
        0 <= i < cards.len(),
        0 < next,
        next + cards.len() <= u32::MAX,
        cards[i].insertion_position == 0,
    ensures
        place_new(cards, next).0.len() == cards.len(),
        next <= place_new(cards, next).0[i].insertion_position < place_new(cards, next).1,
    decreases cards.len(),
{
    let front = cards.drop_last();
    lemma_next_in_range(front, next);
    if i < cards.len() - 1 {
        lemma_place_in_range(front, next, i);
    }
}

/// Every way to sort goes by what it is named for: the first added, the first title, the
/// first name below it, the newest release, the most popular, the largest.
pub proof fn law_grid_is_sorted_by_what_is_chosen(a: CardModelView, b: CardModelView)
    ensures
        a.insertion_position < b.insertion_position ==> grid_order(SortOrder::RecentlyAdded, a, b)
            == Order::Less,
        a.insertion_position == b.insertion_position ==> grid_order(
            SortOrder::RecentlyAdded,
            a,
            b,
        ) == Order::Equal,
        grid_order(SortOrder::Alphabetic, a, b) == text::text_order(
            text::ascii_lowered(a.title),
            text::ascii_lowered(b.title),
        ),
        grid_order(SortOrder::Creator, a, b) == text::text_order(
            text::ascii_lowered(a.subtitle),
            text::ascii_lowered(b.subtitle),
        ),
        grid_order(SortOrder::DateReleased, a, b) == text::text_order(
            b.release_date,
            a.release_date,
        ),
        a.popularity > b.popularity ==> grid_order(SortOrder::Popularity, a, b) == Order::Less,
        a.popularity == b.popularity ==> grid_order(SortOrder::Popularity, a, b) == Order::Equal,
        a.track_count > b.track_count ==> grid_order(SortOrder::Size, a, b) == Order::Less,
        a.track_count == b.track_count ==> grid_order(SortOrder::Size, a, b) == Order::Equal,
{
}

/// Two cards compare as the way to sort says, two placeholders not at all.
pub proof fn law_cards_compare_by_the_sort(sort: SortOrder, a: CardModelView, b: CardModelView)
    ensures
        child_order(sort, Some(a), Some(b)) == grid_order(sort, a, b),
        child_order(sort, None, None) == Order::Equal,
        child_order(sort, None, Some(b)) == Order::Greater,
        child_order(sort, Some(a), None) == Order::Less,
        child_ordering(sort)(Some(a), Some(b)) == grid_order(sort, a, b),
{
}

/// The cards of a new grid are counted from one on, and nothing else of them changes.
pub proof fn law_cards_are_counted_from_one(cards: Seq<CardModelView>, k: int)
    requires
        0 <= k < cards.len() < u32::MAX,
    ensures
        placed_from_one(cards).len() == cards.len(),
        placed_from_one(cards)[k].insertion_position == k + 1,
        placed_from_one(cards)[k].id == cards[k].id,
        placed_from_one(cards)[k].title == cards[k].title,
        placed_from_one(cards)[k] == (CardModelView {
            insertion_position: (k + 1) as u32,
            ..cards[k]
        }),
{
}

/// A card that has a place keeps it; one that has none gets the next that is free, and
/// nothing else of it changes.
pub proof fn law_new_cards_get_the_next_place(cards: Seq<CardModelView>, card: CardModelView, next: int)
    requires
        0 <= next,
        next + cards.len() < u32::MAX,
    ensures
        ({
            let (placed, after) = place_new(cards, next);
            let (longer, then_next) = place_new(cards.push(card), next);
            &&& longer.drop_last() == placed
            &&& longer.len() == placed.len() + 1
            &&& (card.insertion_position != 0 ==> longer.last() == card && then_next == after)
            &&& (card.insertion_position == 0 ==> longer.last() == (CardModelView {
                insertion_position: after as u32,
                ..card
            }) && then_next == after + 1)
        }),
        place_new(Seq::empty(), next).1 == next,
        place_new(Seq::empty(), next).0.len() == 0,
{
    let (placed, after) = place_new(cards, next);
    assert(cards.push(card).drop_last() =~= cards);
    assert(place_new(cards.push(card), next).0.drop_last() =~= placed);
}

/// What is shown of a grid that lost items is its placeholders and the cards whose items
/// are still there.
pub proof fn law_cards_go_with_their_items(ids: Set<Seq<char>>, card: CardModelView)
    ensures
        still_there(ids)(Some(card)) <==> ids.contains(card.id),
        still_there(ids)(None),
        is_card()(Some(card)),
        !is_card()(None),
{
}

/// Placeholders are counted, cards are not.
pub proof fn law_placeholders_are_counted(children: Seq<Option<CardModelView>>, card: CardModelView)
    ensures
        placeholders(children.push(None)) == placeholders(children) + 1,
        placeholders(children.push(Some(card))) == placeholders(children),
        placeholders(Seq::empty()) == 0,
{
    assert(children.push(None).drop_last() =~= children);
    assert(children.push(Some(card)).drop_last() =~= children);
}

/// Every card stands at a place of its own, in order.
pub proof fn law_every_card_has_a_place(cards: Seq<CardModelView>, k: int)
    requires
        0 <= k < cards.len(),
    ensures
        as_children(cards).len() == cards.len(),
        as_children(cards)[k] == Some(cards[k]),
        PLACEHOLDER_COUNT == 50,
{
}

} // verus!
