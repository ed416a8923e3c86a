//! A card: a picture with a title and a line below it.

use vstd::prelude::*;

use crate::card_enums::{CardLayout, CardSize, ImageShape};
use crate::card_model::{CardKind, CardModel};
use crate::pages::library_rows;
use crate::pages::library_rows::{compose_subtitle, cover_of, Cover};

verus! {

/// The gap between the picture and the text below it.
pub const LABEL_GAP: i32 = 6;

/// The gap between the picture and the text beside it.
pub const HORIZONTAL_GAP: i32 = 12;

/// The size of the picture where the text is beside it, whatever the size of the
/// card.
pub const HORIZONTAL_COVER_SIZE: i32 = 56;

/// The width of the text beside a picture: nine fifths of the picture.
pub const HORIZONTAL_LABEL_WIDTH: i32 = 100;

/// Cards up to this place load their picture at once, the others when there is
/// time.
pub const VISIBLE_THRESHOLD: u32 = 15;

// ── Sizes ──────────────────────────────────────────────────────────────────

/// The size of the picture of a card.
pub open spec fn cover_size(layout: CardLayout, px: int) -> int {
    if layout == CardLayout::Horizontal {
        HORIZONTAL_COVER_SIZE as int
    } else {
        px
    }
}

/// How wide a card is.
pub fn measure_width(layout: CardLayout, px: i32) -> (r: i32)
    ensures
        r == (if layout == CardLayout::Horizontal {
            HORIZONTAL_COVER_SIZE + HORIZONTAL_GAP + HORIZONTAL_LABEL_WIDTH
        } else {
            px as int
        }),
{
    match layout {
        CardLayout::Horizontal => HORIZONTAL_COVER_SIZE + HORIZONTAL_GAP + HORIZONTAL_LABEL_WIDTH,
        _ => px,
    }
}

/// For which width the text of a card is measured; a card without text has none.
pub fn label_width(layout: CardLayout, px: i32) -> (r: Option<i32>)
    ensures
        r == (match layout {
            CardLayout::Horizontal => Some(HORIZONTAL_LABEL_WIDTH),
            CardLayout::ImageOnly => None,
            CardLayout::Vertical => Some(px),
        }),
{
    match layout {
        CardLayout::Horizontal => Some(HORIZONTAL_LABEL_WIDTH),
        CardLayout::ImageOnly => None,
        CardLayout::Vertical => Some(px),
    }
}

/// How high a card is, at least and by its nature, given how high its text is.
pub fn measure_height(layout: CardLayout, px: i32, label_min: i32, label_nat: i32) -> (r: (
    i32,
    i32,
))
    requires
        0 <= px,
        0 <= label_min <= label_nat,
        px + LABEL_GAP + label_nat <= i32::MAX,
    ensures
        r == (match layout {
            CardLayout::Horizontal => if label_min > HORIZONTAL_COVER_SIZE {
                (label_min, label_min)
            } else {
                (HORIZONTAL_COVER_SIZE, HORIZONTAL_COVER_SIZE)
            },
            CardLayout::ImageOnly => (px, px),
            CardLayout::Vertical => (
                (px + LABEL_GAP + label_min) as i32,
                (px + LABEL_GAP + label_nat) as i32,
            ),
        }),
        r.0 <= r.1,
        r.0 >= cover_size(layout, px as int),
{
    match layout {
        CardLayout::Horizontal => {
            let h: i32 = if label_min > HORIZONTAL_COVER_SIZE {
                label_min
            } else {
                HORIZONTAL_COVER_SIZE
            };
            (h, h)
        },
        CardLayout::ImageOnly => (px, px),
        CardLayout::Vertical => (px + LABEL_GAP + label_min, px + LABEL_GAP + label_nat),
    }
}

/// Where a part of a card is.
#[derive(Clone, Copy, Debug, PartialEq, Eq, Structural)]
pub struct Area {
    pub x: i32,
    pub y: i32,
    pub width: i32,
    pub height: i32,
}

/// Half of a number, rounded towards zero.
pub open spec fn half(n: int) -> int {
    if n >= 0 {
        n / 2
    } else {
        -((-n) / 2)
    }
}

fn half_of(n: i32) -> (r: i32)
    requires
        n > i32::MIN,
    ensures
        r == half(n as int),
{
    if n >= 0 {
        n / 2
    } else {
        -((-n) / 2)
    }
}

/// Where the picture of a card is: in the middle, at the top or beside the text.
pub fn cover_area(layout: CardLayout, px: i32, width: i32, height: i32) -> (r: Area)
    requires
        px >= 0,
        width >= 0,
        height >= 0,
    ensures
        r == (if layout == CardLayout::Horizontal {
            Area {
                x: 0,
                y: half(height - HORIZONTAL_COVER_SIZE) as i32,
                width: HORIZONTAL_COVER_SIZE,
                height: HORIZONTAL_COVER_SIZE,
            }
        } else {
            Area { x: half(width - px) as i32, y: 0, width: px, height: px }
        }),
{
    match layout {
        CardLayout::Horizontal => Area {
            x: 0,
            y: half_of(height - HORIZONTAL_COVER_SIZE),
            width: HORIZONTAL_COVER_SIZE,
            height: HORIZONTAL_COVER_SIZE,
        },
        _ => Area { x: half_of(width - px), y: 0, width: px, height: px },
    }
}

/// Where the text of a card is; none if there is no room for it. `label_min` is how
/// high the text beside a picture is at least.
pub open spec fn text_area(
    layout: CardLayout,
    px: int,
    width: int,
    height: int,
    label_min: int,
) -> Option<Area> {
    match layout {
        CardLayout::Vertical => if height - px - LABEL_GAP > 0 {
            Some(
                Area {
                    x: 0,
                    y: (px + LABEL_GAP) as i32,
                    width: width as i32,
                    height: (height - px - LABEL_GAP) as i32,
                },
            )
        } else {
            None
        },
        CardLayout::ImageOnly => None,
        CardLayout::Horizontal => if width - HORIZONTAL_COVER_SIZE - HORIZONTAL_GAP > 0 {
            let h = if label_min < height {
                label_min
            } else {
                height
            };
            Some(
                Area {
                    x: (HORIZONTAL_COVER_SIZE + HORIZONTAL_GAP) as i32,
                    y: half(height - h) as i32,
                    width: (width - HORIZONTAL_COVER_SIZE - HORIZONTAL_GAP) as i32,
                    height: h as i32,
                },
            )
        } else {
            None
        },
    }
}

/// Where the text of a card is.
pub fn label_area(layout: CardLayout, px: i32, width: i32, height: i32, label_min: i32) -> (r:
    Option<Area>)
    requires
        0 <= px <= i32::MAX - LABEL_GAP,
        width >= 0,
        height >= 0,
        label_min >= 0,
    ensures
        r == text_area(layout, px as int, width as int, height as int, label_min as int),
{
    match layout {
        CardLayout::Vertical => {
            let label_height: i32 = height - px - LABEL_GAP;
            if label_height > 0 {
                Some(Area { x: 0, y: px + LABEL_GAP, width, height: label_height })
            } else {
                None
            }
        },
        CardLayout::ImageOnly => None,
        CardLayout::Horizontal => {
            let label_width: i32 = width - HORIZONTAL_COVER_SIZE - HORIZONTAL_GAP;
            if label_width > 0 {
                let label_height: i32 = if label_min < height {
                    label_min
                } else {
                    height
                };
                Some(
                    Area {
                        x: HORIZONTAL_COVER_SIZE + HORIZONTAL_GAP,
                        y: half_of(height - label_height),
                        width: label_width,
                        height: label_height,
                    },
                )
            } else {
                None
            }
        },
    }
}

/// The text of a card lies within the card and never over its picture.
pub proof fn law_text_is_beside_the_picture(
    layout: CardLayout,
    px: int,
    width: int,
    height: int,
    label_min: int,
)
    requires
        0 <= px <= i32::MAX - LABEL_GAP,
        0 <= width <= i32::MAX,
        0 <= height <= i32::MAX,
        0 <= label_min <= i32::MAX,
    ensures
        text_area(layout, px, width, height, label_min) matches Some(area) ==> {
            &&& area.x >= 0
            &&& area.y >= 0
            &&& area.x + area.width <= width
            &&& area.y + area.height <= height
            &&& layout == CardLayout::Vertical ==> area.y >= px + LABEL_GAP
            &&& layout == CardLayout::Horizontal ==> area.x >= HORIZONTAL_COVER_SIZE
                + HORIZONTAL_GAP
        },
{
}

// ── The card ───────────────────────────────────────────────────────────────

/// How the text of a card is aligned.
#[derive(Clone, Copy, Debug, PartialEq, Eq, Structural)]
pub enum LabelAlign {
    Start,
    Fill,
}

/// When the picture of a card is loaded.
#[derive(Clone, Copy, Debug, PartialEq, Eq, Structural)]
pub enum LoadTime {
    AtOnce,
    WhenIdle,
}

/// The text is a line for below the title of a card. Where the text is beside the
/// picture it names the kind and the number of songs, too.
pub open spec fn is_subtitle_label(line: Seq<char>, card: CardModel, with_kind: bool) -> bool {
    if with_kind {
        library_rows::is_subtitle(line, card.kind, card.subtitle@, card.track_count)
    } else {
        line == card.subtitle@
    }
}

/// The line below the title of a card.
pub fn compose_subtitle_label(card: &CardModel, with_kind: bool) -> (r: String)
    ensures
        is_subtitle_label(r@, *card, with_kind),
{
    if with_kind {
        compose_subtitle(card)
    } else {
        card.subtitle.clone()
    }
}

/// A card as it is shown.
#[derive(Debug, PartialEq, Eq)]
pub struct CardWidget {
    pub shape: ImageShape,
    pub layout: CardLayout,
    pub size: CardSize,
    pub labels_visible: bool,
    pub label_align: LabelAlign,
    pub card_id: String,
    pub title: String,
    pub subtitle: String,
    pub subtitle_visible: bool,
    pub cover: Option<Cover>,
    /// Whether the contents have come; until then the card is a skeleton.
    pub loaded: bool,
}

/// A picture that is to be loaded, and what is shown once it has been tried.
#[derive(Debug, PartialEq, Eq)]
pub struct CoverLoad {
    pub url: String,
    pub when: LoadTime,
    pub title: String,
    pub subtitle: String,
}

impl CardWidget {
    /// An empty card.
    pub fn new(shape: ImageShape, layout: CardLayout) -> (r: CardWidget)
        ensures
            r.shape == shape,
            r.layout == layout,
            r.size == CardSize::Large,
            r.labels_visible,
            r.label_align == LabelAlign::Fill,
            r.card_id@.len() == 0,
            r.title@.len() == 0,
            r.subtitle@.len() == 0,
            !r.subtitle_visible,
            r.cover is None,
            !r.loaded,
    {
        CardWidget {
            shape,
            layout,
            size: CardSize::Large,
            labels_visible: true,
            label_align: LabelAlign::Fill,
            card_id: String::new(),
            title: String::new(),
            subtitle: String::new(),
            subtitle_visible: false,
            cover: None,
            loaded: false,
        }
    }

    /// Changes the size.
    pub fn set_image_size(&mut self, size: CardSize)
        ensures
            *final(self) == (CardWidget { size, ..*old(self) }),
    {
        self.size = size;
    }

    /// Changes the layout, and with it whether there is text and how it is aligned.
    pub fn set_layout(&mut self, layout: CardLayout)
        ensures
            *final(self) == (CardWidget {
                layout,
                labels_visible: layout != CardLayout::ImageOnly,
                label_align: match layout {
                    CardLayout::Horizontal => LabelAlign::Start,
                    CardLayout::Vertical => LabelAlign::Fill,
                    CardLayout::ImageOnly => old(self).label_align,
                },
                ..*old(self)
            }),
    {
        self.layout = layout;
        match layout {
            CardLayout::ImageOnly => {
                self.labels_visible = false;
            },
            CardLayout::Horizontal => {
                self.labels_visible = true;
                self.label_align = LabelAlign::Start;
            },
            CardLayout::Vertical => {
                self.labels_visible = true;
                self.label_align = LabelAlign::Fill;
            },
        }
    }

    /// The card after it was bound, with `subtitle` below its title: an empty card
    /// stays a skeleton; a card without a picture is complete at once; any other is
    /// when its picture, which is handed back, has been tried.
    pub open spec fn bound(
        self,
        before: Self,
        card: CardModel,
        subtitle: Seq<char>,
        load: Option<CoverLoad>,
    ) -> bool {
        if card.id@.len() == 0 || card.image is Some {
            &&& self == (CardWidget { card_id: card.id, ..before })
            &&& match load {
                Some(load) => {
                    &&& card.id@.len() > 0
                    &&& card.image == Some(load.url)
                    &&& load.title == card.title
                    &&& load.subtitle@ == subtitle
                    &&& load.when == (if card.insertion_position <= VISIBLE_THRESHOLD {
                        LoadTime::AtOnce
                    } else {
                        LoadTime::WhenIdle
                    })
                },
                None => card.id@.len() == 0,
            }
        } else {
            &&& self == (CardWidget {
                card_id: card.id,
                title: card.title,
                subtitle: self.subtitle,
                subtitle_visible: subtitle.len() > 0,
                cover: self.cover,
                loaded: true,
                ..before
            })
            &&& self.subtitle@ == subtitle
            &&& self.cover matches Some(Cover::Icon(icon)) && icon@ == library_rows::missing_icon(
                card.kind,
                card.id@,
            )
            &&& load is None
        }
    }

    /// Nothing is shown yet.
    pub open spec fn is_blank(self, shape: ImageShape, layout: CardLayout, size: CardSize) -> bool {
        &&& self.shape == shape
        &&& self.layout == layout
        &&& self.size == size
        &&& self.labels_visible == (layout != CardLayout::ImageOnly)
        &&& self.label_align == (if layout == CardLayout::Horizontal {
            LabelAlign::Start
        } else {
            LabelAlign::Fill
        })
        &&& self.card_id@.len() == 0
        &&& self.title@.len() == 0
        &&& self.subtitle@.len() == 0
        &&& !self.subtitle_visible
        &&& self.cover is None
        &&& !self.loaded
    }

    /// A card that shows the given one from the start.
    pub fn for_model(card: &CardModel, shape: ImageShape, layout: CardLayout, size: CardSize) -> (r:
        (CardWidget, Option<CoverLoad>))
        ensures
            exists|before: CardWidget, subtitle: Seq<char>|
                {
                    &&& before.is_blank(shape, layout, size)
                    &&& is_subtitle_label(subtitle, *card, layout == CardLayout::Horizontal)
                    &&& #[trigger] r.0.bound(before, *card, subtitle, r.1)
                },
    {
        let mut widget = CardWidget::new(shape, layout);
        widget.set_image_size(size);
        widget.set_layout(layout);
        let ghost before = widget;
        let load = widget.bind(card);
        let r = (widget, load);
        proof {
            let subtitle = choose|subtitle: Seq<char>|
                is_subtitle_label(subtitle, *card, layout == CardLayout::Horizontal)
                    && #[trigger] widget.bound(before, *card, subtitle, load);
            assert(r.0.bound(before, *card, subtitle, r.1));
        }
        r
    }

    /// Shows a card. Where the text is beside the picture, the line below the title
    /// names the kind, too.
    pub fn bind(&mut self, card: &CardModel) -> (r: Option<CoverLoad>)
        ensures
            exists|subtitle: Seq<char>|
                {
                    &&& is_subtitle_label(
                        subtitle,
                        *card,
                        old(self).layout == CardLayout::Horizontal,
                    )
                    &&& #[trigger] final(self).bound(*old(self), *card, subtitle, r)
                },
    {
        let with_kind: bool = self.layout == CardLayout::Horizontal;
        let subtitle: String = compose_subtitle_label(card, with_kind);
        let ghost line = subtitle@;
        let r = self.bind_with(card, subtitle);
        assert(self.bound(*old(self), *card, line, r));
        r
    }

    /// Shows a card, with `subtitle` below its title.
    pub fn bind_with(&mut self, card: &CardModel, subtitle: String) -> (r: Option<CoverLoad>)
        ensures
            final(self).bound(*old(self), *card, subtitle@, r),
    {
        self.card_id = card.id.clone();
        if card.id.as_str().is_empty() {
            return None;
        }
        match cover_of(card) {
            Cover::Remote(url) => {
                let when: LoadTime = if card.insertion_position <= VISIBLE_THRESHOLD {
                    LoadTime::AtOnce
                } else {
                    LoadTime::WhenIdle
                };
                Some(CoverLoad { url, when, title: card.title.clone(), subtitle })
            },
            Cover::Icon(icon) => {
                self.cover = Some(Cover::Icon(icon));
                self.title = card.title.clone();
                self.subtitle_visible = !subtitle.as_str().is_empty();
                self.subtitle = subtitle;
                self.loaded = true;
                None
            },
        }
    }

    /// A picture has been tried: the card is complete, with or without it.
    pub fn cover_tried(&mut self, load: CoverLoad, found: bool)
        ensures
            final(self).loaded,
            final(self).title == load.title,
            final(self).subtitle == load.subtitle,
            final(self).subtitle_visible == (load.subtitle@.len() > 0),
            final(self).cover == (if found {
                Some(Cover::Remote(load.url))
            } else {
                old(self).cover
            }),
            final(self).card_id == old(self).card_id,
            final(self).shape == old(self).shape,
            final(self).layout == old(self).layout,
            final(self).size == old(self).size,
            final(self).labels_visible == old(self).labels_visible,
            final(self).label_align == old(self).label_align,
    {
        if found {
            self.cover = Some(Cover::Remote(load.url));
        }
        self.title = load.title;
        self.subtitle_visible = !load.subtitle.as_str().is_empty();
        self.subtitle = load.subtitle;
        self.loaded = true;
    }
}

/// The picture of a card is as large as asked for, but always the same beside text.
pub proof fn law_pictures_have_their_size(layout: CardLayout, px: int)
    ensures
        layout == CardLayout::Horizontal ==> cover_size(layout, px) == 56,
        layout != CardLayout::Horizontal ==> cover_size(layout, px) == px,
        LABEL_GAP == 6,
        HORIZONTAL_GAP == 12,
        HORIZONTAL_LABEL_WIDTH == 100,
{
}

/// What is put in the middle has as much room on one side as on the other, up to
/// one that cannot be divided.
pub proof fn law_half_is_the_middle(n: int)
    ensures
        n >= 0 ==> half(n) <= n - half(n) <= half(n) + 1,
        half(-n) == -half(n),
{
}

/// Text below a picture takes what the picture leaves of the height; text beside it
/// takes what it leaves of the width and stands in the middle.
pub proof fn law_text_takes_the_room_that_is_left(
    layout: CardLayout,
    px: int,
    width: int,
    height: int,
    label_min: int,
)
    requires
        0 <= px <= i32::MAX - 6,
        0 <= width <= i32::MAX,
        0 <= height <= i32::MAX,
        0 <= label_min <= i32::MAX,
    ensures
        layout == CardLayout::ImageOnly ==> text_area(layout, px, width, height, label_min)
            is None,
        layout == CardLayout::Vertical ==> match text_area(layout, px, width, height, label_min) {
            Some(area) => area.x == 0 && area.y == px + 6 && area.width == width && area.y
                + area.height == height && area.height > 0,
            None => height <= px + 6,
        },
        layout == CardLayout::Horizontal ==> match text_area(layout, px, width, height, label_min) {
            Some(area) => {
                &&& area.x == 68
                &&& area.x + area.width == width
                &&& area.width > 0
                &&& area.height <= label_min
                &&& area.height <= height
                &&& (area.height == label_min || area.height == height)
                &&& area.y <= height - area.height - area.y <= area.y + 1
            },
            None => width <= 68,
        },
{
}

/// Beside a picture the line below the title names the kind, too; below one it is the
/// line of the card alone.
pub proof fn law_line_below_the_title(line: Seq<char>, card: CardModel)
    ensures
        is_subtitle_label(line, card, false) <==> line == card.subtitle@,
        is_subtitle_label(line, card, true) <==> library_rows::is_subtitle(
            line,
            card.kind,
            card.subtitle@,
            card.track_count,
        ),
{
}

/// A card with a picture shows its text when the picture has been tried, at once for
/// the first cards; a card without one is complete with its icon; a card without an
/// item stays empty.
pub proof fn law_bound_card_shows_its_item(
    before: CardWidget,
    after: CardWidget,
    card: CardModel,
    subtitle: Seq<char>,
    load: Option<CoverLoad>,
)
    requires
        after.bound(before, card, subtitle, load),
    ensures
        after.card_id == card.id,
        after.shape == before.shape,
        after.layout == before.layout,
        after.size == before.size,
        after.labels_visible == before.labels_visible,
        after.label_align == before.label_align,
        load is Some <==> card.id@.len() > 0 && card.image is Some,
        load matches Some(load) ==> {
            &&& card.image == Some(load.url)
            &&& load.title == card.title
            &&& load.subtitle@ == subtitle
            &&& load.when == LoadTime::AtOnce <==> card.insertion_position <= 15
        },
        card.id@.len() == 0 || card.image is Some ==> {
            &&& after.title == before.title
            &&& after.subtitle == before.subtitle
            &&& after.subtitle_visible == before.subtitle_visible
            &&& after.cover == before.cover
            &&& after.loaded == before.loaded
        },
        card.id@.len() > 0 && card.image is None ==> {
            &&& after.title == card.title
            &&& after.subtitle@ == subtitle
            &&& after.subtitle_visible == (subtitle.len() > 0)
            &&& after.loaded
            &&& after.cover is Some
            &&& after.cover->0 is Icon
        },
{
}

/// A new card is empty and laid out as asked for.
pub proof fn law_blank_card_is_empty(
    card: CardWidget,
    shape: ImageShape,
    layout: CardLayout,
    size: CardSize,
)
    requires
        card.is_blank(shape, layout, size),
    ensures
        card.shape == shape,
        card.layout == layout,
        card.size == size,
        card.labels_visible <==> layout != CardLayout::ImageOnly,
        card.label_align == LabelAlign::Start <==> layout == CardLayout::Horizontal,
        card.title@.len() == 0 && card.subtitle@.len() == 0 && card.card_id@.len() == 0,
        card.cover is None && !card.loaded && !card.subtitle_visible,
{
}

} // verus!
