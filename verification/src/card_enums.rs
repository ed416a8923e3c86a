//! How cards are sorted, how large they are and how they are laid out.

use vstd::prelude::*;

use crate::text;
use crate::text::{gettext, str_eq};

verus! {

/// The order in which cards are listed.
#[derive(Clone, Copy, Debug, PartialEq, Eq, Structural)]
pub enum SortOrder {
    RecentlyAdded,
    Alphabetic,
    Creator,
    DateReleased,
    Popularity,
    Size,
}

impl SortOrder {
    /// The key under which the settings keep the order.
    pub open spec fn key(self) -> Seq<char> {
        match self {
            SortOrder::RecentlyAdded => "recently-added"@,
            SortOrder::Alphabetic => "alphabetic"@,
            SortOrder::Creator => "creator"@,
            SortOrder::DateReleased => "date-released"@,
            SortOrder::Popularity => "popularity"@,
            SortOrder::Size => "size"@,
        }
    }

    /// The key under which the settings keep the order.
    pub fn to_str(self) -> (r: &'static str)
        ensures
            r@ == self.key(),
    {
        match self {
            SortOrder::RecentlyAdded => "recently-added",
            SortOrder::Alphabetic => "alphabetic",
            SortOrder::Creator => "creator",
            SortOrder::DateReleased => "date-released",
            SortOrder::Popularity => "popularity",
            SortOrder::Size => "size",
        }
    }

    /// The order that a key stands for; an unknown key stands for the order of
    /// addition.
    pub open spec fn of_key(key: Seq<char>) -> SortOrder {
        if key == "alphabetic"@ {
            SortOrder::Alphabetic
        } else if key == "creator"@ {
            SortOrder::Creator
        } else if key == "date-released"@ {
            SortOrder::DateReleased
        } else if key == "popularity"@ {
            SortOrder::Popularity
        } else if key == "size"@ {
            SortOrder::Size
        } else {
            SortOrder::RecentlyAdded
        }
    }

    /// The order that a key stands for.
    pub fn parse_key(s: &str) -> (r: SortOrder)
        ensures
            r == SortOrder::of_key(s@),
    {
        if str_eq(s, "alphabetic") {
            SortOrder::Alphabetic
        } else if str_eq(s, "creator") {
            SortOrder::Creator
        } else if str_eq(s, "date-released") {
            SortOrder::DateReleased
        } else if str_eq(s, "popularity") {
            SortOrder::Popularity
        } else if str_eq(s, "size") {
            SortOrder::Size
        } else {
            SortOrder::RecentlyAdded
        }
    }

    /// The English label of the order, which is also its message id.
    pub open spec fn spec_msgid(self) -> Seq<char> {
        match self {
            SortOrder::RecentlyAdded => "Recently Added"@,
            SortOrder::Alphabetic => "Alphabetic"@,
            SortOrder::Creator => "Creator"@,
            SortOrder::DateReleased => "Date Released"@,
            SortOrder::Popularity => "Popularity"@,
            SortOrder::Size => "Largest"@,
        }
    }

    /// The English label of the order, which is also its message id.
    pub fn msgid(self) -> (r: &'static str)
        ensures
            r@ == self.spec_msgid(),
            text::no_nul(r@),
    {
        proof {
            reveal_strlit("Recently Added");
            reveal_strlit("Alphabetic");
            reveal_strlit("Creator");
            reveal_strlit("Date Released");
            reveal_strlit("Popularity");
            reveal_strlit("Largest");
        }
        match self {
            SortOrder::RecentlyAdded => "Recently Added",
            SortOrder::Alphabetic => "Alphabetic",
            SortOrder::Creator => "Creator",
            SortOrder::DateReleased => "Date Released",
            SortOrder::Popularity => "Popularity",
            SortOrder::Size => "Largest",
        }
    }

    /// The label of the order in the user's language: a translation of `msgid`.
    pub fn label(self) -> (r: String)
        ensures
            text::translates(r@, self.spec_msgid()),
    {
        gettext(self.msgid())
    }

    /// The place of the order in the cycle.
    pub open spec fn number(self) -> int {
        match self {
            SortOrder::RecentlyAdded => 0,
            SortOrder::Alphabetic => 1,
            SortOrder::Creator => 2,
            SortOrder::DateReleased => 3,
            SortOrder::Popularity => 4,
            SortOrder::Size => 5,
        }
    }

    /// The next order; behind the last comes the first.
    pub fn next(self) -> (r: SortOrder)
        ensures
            r.number() == (self.number() + 1) % 6,
    {
        match self {
            SortOrder::RecentlyAdded => SortOrder::Alphabetic,
            SortOrder::Alphabetic => SortOrder::Creator,
            SortOrder::Creator => SortOrder::DateReleased,
            SortOrder::DateReleased => SortOrder::Popularity,
            SortOrder::Popularity => SortOrder::Size,
            SortOrder::Size => SortOrder::RecentlyAdded,
        }
    }
}

/// A sort order that was kept in the settings is read back as it was.
pub proof fn law_sort_order_round_trip(order: SortOrder)
    ensures
        SortOrder::of_key(order.key()) == order,
{
    reveal_strlit("recently-added");
    reveal_strlit("alphabetic");
    reveal_strlit("creator");
    reveal_strlit("date-released");
    reveal_strlit("popularity");
    reveal_strlit("size");
    assert("recently-added"@[0] == 'r' && "alphabetic"@[0] == 'a' && "creator"@[0] == 'c'
        && "date-released"@[0] == 'd' && "popularity"@[0] == 'p' && "size"@[0] == 's');
}

/// No two orders have the same place in the cycle, so `next` visits all of them.
pub proof fn law_sort_order_numbers(a: SortOrder, b: SortOrder)
    ensures
        0 <= a.number() < 6,
        a.number() == b.number() <==> a == b,
{
}

/// How large the picture of a card is.
#[derive(Clone, Copy, Debug, PartialEq, Eq, Structural)]
pub enum CardSize {
    Small,
    Medium,
    Large,
}

impl CardSize {
    /// The place of the size among the sizes.
    pub open spec fn number(self) -> int {
        match self {
            CardSize::Small => 0,
            CardSize::Medium => 1,
            CardSize::Large => 2,
        }
    }

    /// One size up; the largest stays.
    pub fn increase(self) -> (r: CardSize)
        ensures
            r.number() == (if self.number() + 1 < 3 {
                self.number() + 1
            } else {
                2
            }),
    {
        match self {
            CardSize::Small => CardSize::Medium,
            CardSize::Medium => CardSize::Large,
            CardSize::Large => CardSize::Large,
        }
    }

    /// One size down; the smallest stays.
    pub fn decrease(self) -> (r: CardSize)
        ensures
            r.number() == (if self.number() > 0 {
                self.number() - 1
            } else {
                0
            }),
    {
        match self {
            CardSize::Small => CardSize::Small,
            CardSize::Medium => CardSize::Small,
            CardSize::Large => CardSize::Medium,
        }
    }

    /// The width and height of the picture in pixels.
    pub open spec fn pixels(self) -> int {
        match self {
            CardSize::Small => 100,
            CardSize::Medium => 140,
            CardSize::Large => 180,
        }
    }

    /// The width and height of the picture in pixels.
    pub fn pixel_size(self) -> (r: i32)
        ensures
            r == self.pixels(),
    {
        match self {
            CardSize::Small => 100,
            CardSize::Medium => 140,
            CardSize::Large => 180,
        }
    }

    /// The style class of the size.
    pub fn css_class(self) -> (r: &'static str)
        ensures
            r@ == (match self {
                CardSize::Small => "card--small"@,
                CardSize::Medium => "card--medium"@,
                CardSize::Large => "card--large"@,
            }),
    {
        match self {
            CardSize::Small => "card--small",
            CardSize::Medium => "card--medium",
            CardSize::Large => "card--large",
        }
    }
}

/// A larger size has a larger picture, and no two sizes are the same.
pub proof fn law_card_sizes_grow(a: CardSize, b: CardSize)
    ensures
        a.number() < b.number() <==> a.pixels() < b.pixels(),
        a.number() == b.number() <==> a == b,
{
}

/// How picture and text of a card are arranged.
#[derive(Clone, Copy, Debug, PartialEq, Eq, Structural)]
pub enum CardLayout {
    /// The text below the picture.
    Vertical,
    /// No text.
    ImageOnly,
    /// The text beside the picture.
    Horizontal,
}

impl CardLayout {
    /// The place of the layout in the cycle.
    pub open spec fn number(self) -> int {
        match self {
            CardLayout::Vertical => 0,
            CardLayout::ImageOnly => 1,
            CardLayout::Horizontal => 2,
        }
    }

    /// The next layout; behind the last comes the first.
    pub fn next(self) -> (r: CardLayout)
        ensures
            r.number() == (self.number() + 1) % 3,
    {
        match self {
            CardLayout::Vertical => CardLayout::ImageOnly,
            CardLayout::ImageOnly => CardLayout::Horizontal,
            CardLayout::Horizontal => CardLayout::Vertical,
        }
    }

    /// The style class of the layout.
    pub fn css_class(self) -> (r: &'static str)
        ensures
            r@ == (match self {
                CardLayout::Vertical => "card--vertical"@,
                CardLayout::ImageOnly => "card--image-only"@,
                CardLayout::Horizontal => "card--horizontal"@,
            }),
    {
        match self {
            CardLayout::Vertical => "card--vertical",
            CardLayout::ImageOnly => "card--image-only",
            CardLayout::Horizontal => "card--horizontal",
        }
    }
}

/// No two layouts have the same place in the cycle, so `next` visits all of them.
pub proof fn law_card_layout_numbers(a: CardLayout, b: CardLayout)
    ensures
        0 <= a.number() < 3,
        a.number() == b.number() <==> a == b,
{
}

/// The shape in which a picture is shown.
#[derive(Clone, Copy, Debug, PartialEq, Eq, Structural)]
pub enum ImageShape {
    Square,
    Round,
}

/// The settings keep every order under its own key, and menus call it by its own
/// name. An unknown key stands for the order of addition.
pub proof fn law_sort_orders_have_their_names(unknown: Seq<char>)
    ensures
        SortOrder::RecentlyAdded.key() == "recently-added"@,
        SortOrder::Alphabetic.key() == "alphabetic"@,
        SortOrder::Creator.key() == "creator"@,
        SortOrder::DateReleased.key() == "date-released"@,
        SortOrder::Popularity.key() == "popularity"@,
        SortOrder::Size.key() == "size"@,
        SortOrder::RecentlyAdded.spec_msgid() == "Recently Added"@,
        SortOrder::Alphabetic.spec_msgid() == "Alphabetic"@,
        SortOrder::Creator.spec_msgid() == "Creator"@,
        SortOrder::DateReleased.spec_msgid() == "Date Released"@,
        SortOrder::Popularity.spec_msgid() == "Popularity"@,
        SortOrder::Size.spec_msgid() == "Largest"@,
        SortOrder::of_key(unknown) == SortOrder::RecentlyAdded <==> (unknown != "alphabetic"@
            && unknown != "creator"@ && unknown != "date-released"@ && unknown != "popularity"@
            && unknown != "size"@),
{
}

/// Orders follow each other as menus list them, sizes grow from small to large, and
/// layouts go from text below over no text to text beside.
pub proof fn law_cycles_have_their_order()
    ensures
        SortOrder::RecentlyAdded.number() == 0,
        SortOrder::Alphabetic.number() == 1,
        SortOrder::Creator.number() == 2,
        SortOrder::DateReleased.number() == 3,
        SortOrder::Popularity.number() == 4,
        SortOrder::Size.number() == 5,
        CardSize::Small.number() < CardSize::Medium.number() < CardSize::Large.number(),
        CardSize::Small.pixels() == 100,
        CardSize::Medium.pixels() == 140,
        CardSize::Large.pixels() == 180,
        CardLayout::Vertical.number() == 0,
        CardLayout::ImageOnly.number() == 1,
        CardLayout::Horizontal.number() == 2,
{
}

} // verus!
