//! The list of the library: how its cards are ordered and which are kept on top.

use vstd::prelude::*;

use crate::card_enums::{CardLayout, SortOrder};
use crate::card_model::{CardModel, CardModelView};
use crate::lists;
use crate::pages::pinned_store;
use crate::pages::pinned_store::PinnedStore;
use crate::sorting;
use crate::sorting::{sort_by, Ranking};
use crate::text;
use crate::text::{order_text, order_u32, order_usize, to_lowercase, Order};

verus! {

/// The first comparison decides unless it finds the two equal.
pub open spec fn first_then(first: Order, second: Order) -> Order {
    if first == Order::Equal {
        second
    } else {
        first
    }
}

/// How two cards compare that the chosen order does not tell apart: by the place
/// at which they came, then by id.
pub open spec fn tiebreak_order(a: CardModelView, b: CardModelView) -> Order {
    first_then(
        text::int_order(a.insertion_position as int, b.insertion_position as int),
        text::text_order(a.id, b.id),
    )
}

/// How two cards compare in the chosen order; an order that the library does not
/// offer stands for the order in which the cards came. The larger number of
/// tracks comes first.
pub open spec fn primary_order(sort: SortOrder, a: CardModelView, b: CardModelView) -> Order {
    match sort {
        SortOrder::Alphabetic => text::text_order(
            text::lowercase(a.title),
            text::lowercase(b.title),
        ),
        SortOrder::Size => text::int_order(b.track_count as int, a.track_count as int),
        _ => text::int_order(a.insertion_position as int, b.insertion_position as int),
    }
}

/// How two cards compare that are not pinned. Turning the order round does not
/// turn round how ties are broken, and does not move the cards whose number of
/// tracks is not known from the end.
pub open spec fn base_order(
    sort: SortOrder,
    descending: bool,
    a: CardModelView,
    b: CardModelView,
) -> Order {
    if sort == SortOrder::Size && a.track_count == 0 && b.track_count != 0 {
        Order::Greater
    } else if sort == SortOrder::Size && a.track_count != 0 && b.track_count == 0 {
        Order::Less
    } else {
        let primary = primary_order(sort, a, b);
        first_then(
            if descending {
                primary.spec_reverse()
            } else {
                primary
            },
            tiebreak_order(a, b),
        )
    }
}

/// How two cards of the library compare: pinned cards come first, in the order in
/// which they were pinned.
pub open spec fn card_order(
    pins: Seq<Seq<char>>,
    sort: SortOrder,
    descending: bool,
    a: CardModelView,
    b: CardModelView,
) -> Order {
    if a.pinned && !b.pinned {
        Order::Less
    } else if !a.pinned && b.pinned {
        Order::Greater
    } else if a.pinned && b.pinned {
        text::int_order(pinned_store::rank_of(pins, a.id), pinned_store::rank_of(pins, b.id))
    } else {
        base_order(sort, descending, a, b)
    }
}

/// Compares two cards of the library.
pub fn compare_cards(
    pins: &PinnedStore,
    sort: SortOrder,
    descending: bool,
    a: &CardModel,
    b: &CardModel,
) -> (r: Order)
    ensures
        r == card_order(pins@, sort, descending, a.deep_view(), b.deep_view()),
{
    if a.pinned && !b.pinned {
        Order::Less
    } else if !a.pinned && b.pinned {
        Order::Greater
    } else if a.pinned && b.pinned {
        order_usize(pins.rank(a.id.as_str()), pins.rank(b.id.as_str()))
    } else {
        base_compare(sort, descending, a, b)
    }
}

/// Compares two cards that are not pinned.
pub fn base_compare(sort: SortOrder, descending: bool, a: &CardModel, b: &CardModel) -> (r: Order)
    ensures
        r == base_order(sort, descending, a.deep_view(), b.deep_view()),
{
    let primary: Order = match sort {
        SortOrder::Alphabetic => order_text(
            to_lowercase(a.title.as_str()).as_str(),
            to_lowercase(b.title.as_str()).as_str(),
        ),
        SortOrder::Size => {
            if a.track_count == 0 && b.track_count != 0 {
                return Order::Greater;
            }
            if a.track_count != 0 && b.track_count == 0 {
                return Order::Less;
            }
            order_u32(b.track_count, a.track_count)
        },
        _ => order_u32(a.insertion_position, b.insertion_position),
    };
    let directed: Order = if descending {
        primary.reverse()
    } else {
        primary
    };
    match directed {
        Order::Equal => stable_tiebreak(a, b),
        Order::Less => Order::Less,
        Order::Greater => Order::Greater,
    }
}

/// Compares two cards that the chosen order does not tell apart.
pub fn stable_tiebreak(a: &CardModel, b: &CardModel) -> (r: Order)
    ensures
        r == tiebreak_order(a.deep_view(), b.deep_view()),
{
    match order_u32(a.insertion_position, b.insertion_position) {
        Order::Equal => order_text(a.id.as_str(), b.id.as_str()),
        Order::Less => Order::Less,
        Order::Greater => Order::Greater,
    }
}

// ── The list ───────────────────────────────────────────────────────────────

/// The cards with their pins and places brought up to date.
pub open spec fn synced(cards: Seq<CardModelView>, pins: Seq<Seq<char>>) -> Seq<CardModelView> {
    Seq::new(
        cards.len(),
        |i: int|
            CardModelView {
                pinned: pins.contains(cards[i].id),
                insertion_position: (i + 1) as u32,
                ..cards[i]
            },
    )
}

/// The list or grid of the library.
#[derive(Debug, PartialEq, Eq)]
pub struct LibraryList {
    pub sort: SortOrder,
    pub descending: bool,
    /// Whether the list is shown, rather than the grid.
    pub shows_list: bool,
}

impl LibraryList {
    /// The list in the given order.
    pub fn new(sort: SortOrder, descending: bool) -> (r: LibraryList)
        ensures
            r == (LibraryList { sort, descending, shows_list: true }),
    {
        LibraryList { sort, descending, shows_list: true }
    }

    /// Shows the list or the grid.
    pub fn set_layout(&mut self, layout: CardLayout)
        ensures
            *final(self) == (LibraryList {
                shows_list: layout == CardLayout::Horizontal,
                ..*old(self)
            }),
    {
        self.shows_list = layout == CardLayout::Horizontal;
    }

    /// The name of the view that is shown.
    pub fn visible_view(&self) -> (r: &'static str)
        ensures
            r@ == (if self.shows_list {
                "list"@
            } else {
                "grid"@
            }),
    {
        if self.shows_list {
            "list"
        } else {
            "grid"
        }
    }

    /// Changes the order.
    pub fn set_sort(&mut self, sort: SortOrder, descending: bool)
        ensures
            *final(self) == (LibraryList { sort, descending, ..*old(self) }),
    {
        self.sort = sort;
        self.descending = descending;
    }

    /// The cards in the order of the list.
    pub fn listed(&self, pins: &PinnedStore, cards: &Vec<CardModel>) -> (r: Vec<CardModel>)
        ensures
            sorting::is_sorted_from(
                r.deep_view(),
                cards.deep_view(),
                card_ordering(pins@, self.sort, self.descending),
            ),
            r@.len() == cards@.len(),
    {
        let copies: Vec<CardModel> = cards.clone();
        assert(copies.deep_view().len() == cards.deep_view().len());
        sort_by(copies, &CardRanking { pins, sort: self.sort, descending: self.descending })
    }

    /// Marks the pinned cards and numbers the cards from 1 on.
    pub fn sync_pins(&self, pins: &PinnedStore, cards: &mut Vec<CardModel>)
        requires
            old(cards)@.len() <= u32::MAX,
        ensures
            final(cards).deep_view() == synced(old(cards).deep_view(), pins@),
    {
        let ghost before = cards.deep_view();
        let mut out: Vec<CardModel> = Vec::new();
        let mut i: usize = 0;
        while i < cards.len()
            invariant
                i <= cards.len() <= u32::MAX,
                before == cards.deep_view(),
                out.deep_view() == synced(before, pins@).take(i as int),
            decreases cards.len() - i,
        {
            let pinned: bool = pins.is_pinned(cards[i].id.as_str());
            let fresh = cards[i].clone();
            let card = CardModel { pinned, insertion_position: i as u32 + 1, ..fresh };
            let ghost grown = out;
            out.push(card);
            proof {
                lists::lemma_deep_push(grown, out, card);
                lists::lemma_take_push(synced(before, pins@), i as int);
                assert(before[i as int] == cards@[i as int].deep_view());
            }
            i += 1;
        }
        proof {
            lists::lemma_take_all(synced(before, pins@));
        }
        *cards = out;
    }
}

// ── Laws ───────────────────────────────────────────────────────────────────

/// Pinned cards stand above all others, in whatever order and direction.
pub proof fn law_pinned_cards_come_first(
    pins: Seq<Seq<char>>,
    sort: SortOrder,
    descending: bool,
    a: CardModelView,
    b: CardModelView,
)
    requires
        a.pinned,
        !b.pinned,
    ensures
        card_order(pins, sort, descending, a, b) == Order::Less,
        card_order(pins, sort, descending, b, a) == Order::Greater,
{
}

/// Cards whose number of tracks is not known stand below those whose number is,
/// in both directions.
pub proof fn law_unknown_sizes_come_last(
    pins: Seq<Seq<char>>,
    descending: bool,
    a: CardModelView,
    b: CardModelView,
)
    requires
        !a.pinned,
        !b.pinned,
        a.track_count != 0,
        b.track_count == 0,
    ensures
        card_order(pins, SortOrder::Size, descending, a, b) == Order::Less,
{
}

/// Turning the order round turns round how two cards compare that are not pinned,
/// if the order tells them apart; otherwise they keep their places.
pub proof fn law_direction_turns_only_the_order(
    pins: Seq<Seq<char>>,
    sort: SortOrder,
    a: CardModelView,
    b: CardModelView,
)
    requires
        !a.pinned,
        !b.pinned,
        sort == SortOrder::Size ==> (a.track_count == 0 <==> b.track_count == 0),
    ensures
        primary_order(sort, a, b) != Order::Equal ==> card_order(pins, sort, true, a, b)
            == card_order(pins, sort, false, a, b).spec_reverse(),
        primary_order(sort, a, b) == Order::Equal ==> card_order(pins, sort, true, a, b)
            == card_order(pins, sort, false, a, b) && card_order(pins, sort, true, a, b)
            == tiebreak_order(a, b),
{
}

proof fn lemma_primary_antisymmetric(sort: SortOrder, a: CardModelView, b: CardModelView)
    ensures
        primary_order(sort, b, a) == primary_order(sort, a, b).spec_reverse(),
{
    text::lemma_text_order_antisymmetric(text::lowercase(a.title), text::lowercase(b.title));
}

/// Comparing two cards the other way round gives the opposite.
pub proof fn law_card_order_is_antisymmetric(
    pins: Seq<Seq<char>>,
    sort: SortOrder,
    descending: bool,
    a: CardModelView,
    b: CardModelView,
)
    ensures
        card_order(pins, sort, descending, b, a) == card_order(
            pins,
            sort,
            descending,
            a,
            b,
        ).spec_reverse(),
{
    lemma_primary_antisymmetric(sort, a, b);
    text::lemma_text_order_antisymmetric(a.id, b.id);
}

/// Two cards that are not pinned and have different ids never compare equal, so
/// the order of the list is the same each time.
pub proof fn law_card_order_tells_cards_apart(
    pins: Seq<Seq<char>>,
    sort: SortOrder,
    descending: bool,
    a: CardModelView,
    b: CardModelView,
)
    requires
        !a.pinned,
        !b.pinned,
        a.id != b.id,
    ensures
        card_order(pins, sort, descending, a, b) != Order::Equal,
{
    text::lemma_text_order_antisymmetric(a.id, b.id);
}

proof fn lemma_primary_transitive(
    sort: SortOrder,
    a: CardModelView,
    b: CardModelView,
    c: CardModelView,
)
    requires
        primary_order(sort, a, b) != Order::Greater,
        primary_order(sort, b, c) != Order::Greater,
    ensures
        primary_order(sort, a, c) != Order::Greater,
        primary_order(sort, a, c) == Order::Equal ==> primary_order(sort, a, b) == Order::Equal
            && primary_order(sort, b, c) == Order::Equal,
{
    if sort == SortOrder::Alphabetic {
        text::lemma_text_order_transitive(
            text::lowercase(a.title),
            text::lowercase(b.title),
            text::lowercase(c.title),
        );
    }
}

proof fn lemma_tiebreak_transitive(a: CardModelView, b: CardModelView, c: CardModelView)
    requires
        tiebreak_order(a, b) != Order::Greater,
        tiebreak_order(b, c) != Order::Greater,
    ensures
        tiebreak_order(a, c) != Order::Greater,
{
    if a.insertion_position == b.insertion_position && b.insertion_position
        == c.insertion_position {
        text::lemma_text_order_transitive(a.id, b.id, c.id);
    }
}

proof fn lemma_base_transitive(
    sort: SortOrder,
    descending: bool,
    a: CardModelView,
    b: CardModelView,
    c: CardModelView,
)
    requires
        base_order(sort, descending, a, b) != Order::Greater,
        base_order(sort, descending, b, c) != Order::Greater,
    ensures
        base_order(sort, descending, a, c) != Order::Greater,
{
    lemma_primary_antisymmetric(sort, a, b);
    lemma_primary_antisymmetric(sort, b, c);
    lemma_primary_antisymmetric(sort, a, c);
    let ab = primary_order(sort, a, b);
    let bc = primary_order(sort, b, c);
    if descending {
        if ab != Order::Less && bc != Order::Less {
            lemma_primary_transitive(sort, c, b, a);
        }
    } else {
        if ab != Order::Greater && bc != Order::Greater {
            lemma_primary_transitive(sort, a, b, c);
        }
    }
    if tiebreak_order(a, b) != Order::Greater && tiebreak_order(b, c) != Order::Greater {
        lemma_tiebreak_transitive(a, b, c);
    }
    if ab == Order::Equal && bc == Order::Equal {
        lemma_primary_transitive(sort, a, b, c);
        lemma_primary_transitive(sort, c, b, a);
    }
}

/// A card that stands above or beside a second, which stands above or beside a
/// third, stands above or beside the third: the cards can be sorted.
pub proof fn law_card_order_is_transitive(
    pins: Seq<Seq<char>>,
    sort: SortOrder,
    descending: bool,
    a: CardModelView,
    b: CardModelView,
    c: CardModelView,
)
    requires
        card_order(pins, sort, descending, a, b) != Order::Greater,
        card_order(pins, sort, descending, b, c) != Order::Greater,
    ensures
        card_order(pins, sort, descending, a, c) != Order::Greater,
{
    if !a.pinned && !b.pinned && !c.pinned {
        lemma_base_transitive(sort, descending, a, b, c);
    }
}

/// Bringing pins and places up to date twice is the same as once, and touches
/// nothing else of a card.
pub proof fn law_sync_is_stable(cards: Seq<CardModelView>, pins: Seq<Seq<char>>)
    ensures
        synced(synced(cards, pins), pins) == synced(cards, pins),
        synced(cards, pins).len() == cards.len(),
        forall|i: int|
            0 <= i < cards.len() ==> (#[trigger] synced(cards, pins)[i]) == (CardModelView {
                pinned: synced(cards, pins)[i].pinned,
                insertion_position: synced(cards, pins)[i].insertion_position,
                ..cards[i]
            }),
{
    assert(synced(synced(cards, pins), pins) =~= synced(cards, pins));
}

/// A pin that is toggled shows on its card once the cards are brought up to date,
/// and on no other card.
pub proof fn law_toggled_pin_is_shown(
    cards: Seq<CardModelView>,
    pins: Seq<Seq<char>>,
    id: Seq<char>,
    i: int,
)
    requires
        0 <= i < cards.len(),
    ensures
        cards[i].id == id ==> synced(cards, pinned_store::toggled(pins, id))[i].pinned
            == !pins.contains(id),
        cards[i].id != id ==> synced(cards, pinned_store::toggled(pins, id))[i].pinned
            == pins.contains(cards[i].id),
{
    pinned_store::law_toggle_turns_one_item(pins, id, cards[i].id);
}

/// How the list orders its cards.
pub open spec fn card_ordering(
    pins: Seq<Seq<char>>,
    sort: SortOrder,
    descending: bool,
) -> spec_fn(CardModelView, CardModelView) -> Order {
    |a: CardModelView, b: CardModelView| card_order(pins, sort, descending, a, b)
}

/// The order of the list, given the pins.
#[derive(Debug, PartialEq, Eq)]
pub struct CardRanking<'a> {
    pub pins: &'a PinnedStore,
    pub sort: SortOrder,
    pub descending: bool,
}

impl<'a> Ranking<CardModel> for CardRanking<'a> {
    open spec fn order(self) -> spec_fn(CardModelView, CardModelView) -> Order {
        card_ordering(self.pins@, self.sort, self.descending)
    }

    proof fn lemma_is_order(self) {
        let order = self.order();
        assert forall|a: CardModelView, b: CardModelView| #[trigger]
            order(b, a) == order(a, b).spec_reverse() by {
            law_card_order_is_antisymmetric(self.pins@, self.sort, self.descending, a, b);
        }
        assert forall|a: CardModelView, b: CardModelView, c: CardModelView| #[trigger]
            order(a, b) != Order::Greater && #[trigger] order(b, c)
                != Order::Greater implies order(a, c) != Order::Greater by {
            law_card_order_is_transitive(self.pins@, self.sort, self.descending, a, b, c);
        }
    }

    /// Compares two cards in the order of the list.
    fn compare(&self, a: &CardModel, b: &CardModel) -> (r: Order) {
        compare_cards(self.pins, self.sort, self.descending, a, b)
    }
}

/// Of the cards as they are listed, no pinned one stands below one that is not, and
/// where the largest come first, no card whose number of tracks is not known stands
/// above one whose number is, unless it is pinned.
pub proof fn law_listed_cards_keep_their_groups(
    pins: Seq<Seq<char>>,
    sort: SortOrder,
    descending: bool,
    listed: Seq<CardModelView>,
    i: int,
    j: int,
)
    requires
        sorting::in_order(listed, card_ordering(pins, sort, descending)),
        0 <= i < j < listed.len(),
    ensures
        listed[j].pinned ==> listed[i].pinned,
        sort == SortOrder::Size && !listed[i].pinned && listed[j].track_count != 0
            ==> listed[i].track_count != 0 || listed[j].pinned,
{
    let order = card_ordering(pins, sort, descending);
    assert(order(listed[i], listed[j]) != Order::Greater);
}

/// Cards that are not pinned are listed in the chosen order: by title from A on, by
/// number of tracks with the largest first, or as they came; turned round where that
/// was chosen.
pub proof fn law_listed_cards_are_in_the_chosen_order(
    pins: Seq<Seq<char>>,
    sort: SortOrder,
    descending: bool,
    listed: Seq<CardModelView>,
    i: int,
    j: int,
)
    requires
        sorting::in_order(listed, card_ordering(pins, sort, descending)),
        0 <= i < j < listed.len(),
        !listed[i].pinned,
        !listed[j].pinned,
    ensures
        sort == SortOrder::Alphabetic && !descending ==> text::text_order(
            text::lowercase(listed[i].title),
            text::lowercase(listed[j].title),
        ) != Order::Greater,
        sort == SortOrder::Alphabetic && descending ==> text::text_order(
            text::lowercase(listed[i].title),
            text::lowercase(listed[j].title),
        ) != Order::Less,
        sort == SortOrder::Size && !descending ==> listed[i].track_count >= listed[j].track_count,
        sort == SortOrder::Size && descending && listed[j].track_count != 0
            ==> listed[i].track_count <= listed[j].track_count && listed[i].track_count != 0,
        sort == SortOrder::RecentlyAdded && !descending ==> listed[i].insertion_position
            <= listed[j].insertion_position,
        sort == SortOrder::RecentlyAdded && descending ==> listed[i].insertion_position
            >= listed[j].insertion_position,
{
    let order = card_ordering(pins, sort, descending);
    assert(order(listed[i], listed[j]) != Order::Greater);
}

/// Cards that the chosen order does not tell apart are listed as they came, in both
/// directions.
pub proof fn law_ties_keep_their_order(
    pins: Seq<Seq<char>>,
    descending: bool,
    listed: Seq<CardModelView>,
    i: int,
    j: int,
)
    requires
        sorting::in_order(listed, card_ordering(pins, SortOrder::Size, descending)),
        0 <= i < j < listed.len(),
        !listed[i].pinned,
        !listed[j].pinned,
        listed[i].track_count == listed[j].track_count,
    ensures
        listed[i].insertion_position <= listed[j].insertion_position,
        listed[i].insertion_position == listed[j].insertion_position ==> text::text_order(
            listed[i].id,
            listed[j].id,
        ) != Order::Greater,
{
    let order = card_ordering(pins, SortOrder::Size, descending);
    assert(order(listed[i], listed[j]) != Order::Greater);
}

/// Pinned cards are listed in the order in which they were pinned, whatever the
/// chosen order and direction.
pub proof fn law_pinned_cards_keep_the_order_of_the_pins(
    pins: Seq<Seq<char>>,
    sort: SortOrder,
    descending: bool,
    listed: Seq<CardModelView>,
    i: int,
    j: int,
)
    requires
        sorting::in_order(listed, card_ordering(pins, sort, descending)),
        0 <= i < j < listed.len(),
        listed[i].pinned,
        listed[j].pinned,
    ensures
        pinned_store::rank_of(pins, listed[i].id) <= pinned_store::rank_of(pins, listed[j].id),
{
    let order = card_ordering(pins, sort, descending);
    assert(order(listed[i], listed[j]) != Order::Greater);
}

/// Cards that are brought up to date are numbered from one on, are marked exactly if
/// their id is pinned, and stay what they are otherwise.
pub proof fn law_synced_cards_are_numbered(
    cards: Seq<CardModelView>,
    pins: Seq<Seq<char>>,
    i: int,
)
    requires
        0 <= i < cards.len() <= u32::MAX,
    ensures
        synced(cards, pins).len() == cards.len(),
        synced(cards, pins)[i].insertion_position == i + 1,
        synced(cards, pins)[i].pinned == pins.contains(cards[i].id),
        synced(cards, pins)[i].id == cards[i].id,
        synced(cards, pins)[i].title == cards[i].title,
        synced(cards, pins)[i].subtitle == cards[i].subtitle,
        synced(cards, pins)[i].kind == cards[i].kind,
        synced(cards, pins)[i].track_count == cards[i].track_count,
        synced(cards, pins)[i].image == cards[i].image,
{
}

} // verus!
