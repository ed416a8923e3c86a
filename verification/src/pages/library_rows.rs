//! The rows and tiles of the library.

use vstd::prelude::*;

use crate::card_model::{CardKind, CardModel};
use crate::pages::library::LIKED_PREFIX;
use crate::text;
use crate::text::{cat, cat3, decimal_of, fill, ngettext, starts_with, str_eq};

verus! {

/// What separates the parts of a line.
pub const SEPARATOR: &'static str = " • ";

/// The part of a line that tells the number of songs; `template` is what the
/// user's language has for it. Only albums and playlists whose number is known
/// have one.
pub open spec fn count_suffix(kind: CardKind, count: u32, template: Seq<char>) -> Seq<char> {
    if (kind == CardKind::Album || kind == CardKind::Playlist) && count > 0 {
        SEPARATOR@ + text::filled(template, text::decimal(count as nat))
    } else {
        Seq::empty()
    }
}

/// A line of the kind, the subtitle and an ending; where the kind has no label
/// only the subtitle is left.
pub open spec fn kind_line(
    label: Option<Seq<char>>,
    subtitle: Seq<char>,
    suffix: Seq<char>,
) -> Seq<char> {
    match label {
        None => subtitle,
        Some(kind) => if subtitle.len() == 0 {
            kind + suffix
        } else {
            kind + SEPARATOR@ + subtitle + suffix
        },
    }
}

/// A line of the kind, the subtitle and an ending.
pub fn line_of(label: Option<String>, subtitle: &str, suffix: &str) -> (r: String)
    ensures
        r@ == kind_line(label.deep_view(), subtitle@, suffix@),
{
    match label {
        None => subtitle.to_string(),
        Some(kind) => if subtitle.is_empty() {
            cat(kind.as_str(), suffix)
        } else {
            let front: String = cat3(kind.as_str(), SEPARATOR, subtitle);
            cat(front.as_str(), suffix)
        },
    }
}

/// The line below the title of a card, given what the user's language has for the
/// kind and for the number of songs.
pub fn subtitle_in(label: Option<String>, template: &str, card: &CardModel) -> (r: String)
    ensures
        r@ == kind_line(
            label.deep_view(),
            card.subtitle@,
            count_suffix(card.kind, card.track_count, template@),
        ),
{
    let suffix: String = match card.kind {
        CardKind::Album | CardKind::Playlist => if card.track_count > 0 {
            let songs: String = fill(template, decimal_of(card.track_count as usize).as_str());
            cat(SEPARATOR, songs.as_str())
        } else {
            String::new()
        },
        _ => String::new(),
    };
    line_of(label, card.subtitle.as_str(), suffix.as_str())
}

/// The text is a line for below the title of a card: a label of its kind, the
/// subtitle, and a translation of "{} song" or "{} songs" with the number in it.
pub open spec fn is_subtitle(
    line: Seq<char>,
    kind: CardKind,
    subtitle: Seq<char>,
    track_count: u32,
) -> bool {
    exists|label: Option<Seq<char>>, template: Seq<char>|
        {
            &&& kind.is_label(label)
            &&& text::translates_count(template, "{} song"@, "{} songs"@, track_count)
            &&& line == #[trigger] kind_line(
                label,
                subtitle,
                #[trigger] count_suffix(kind, track_count, template),
            )
        }
}

/// The line below the title of a card: "Album • Artist • 12 songs" in the user's
/// language.
pub fn compose_subtitle(card: &CardModel) -> (r: String)
    ensures
        is_subtitle(r@, card.kind, card.subtitle@, card.track_count),
{
    proof {
        reveal_strlit("{} song");
        reveal_strlit("{} songs");
    }
    let label: Option<String> = card.kind.label();
    let template: String = ngettext("{} song", "{} songs", card.track_count);
    let ghost view = label.deep_view();
    let r: String = subtitle_in(label, template.as_str(), card);
    assert(r@ == kind_line(
        view,
        card.subtitle@,
        count_suffix(card.kind, card.track_count, template@),
    ));
    r
}

/// What a row shows for a picture.
#[derive(Debug, PartialEq, Eq)]
pub enum Cover {
    /// The picture at this address, once it is there.
    Remote(String),
    /// An icon.
    Icon(&'static str),
}

/// The icon that stands in for a missing picture: a heart for the liked songs, a
/// note for anything else.
pub open spec fn missing_icon(kind: CardKind, id: Seq<char>) -> Seq<char> {
    if kind == CardKind::Playlist && text::has_prefix(id, LIKED_PREFIX@) {
        "emblem-favorite-symbolic"@
    } else {
        "library-music-symbolic"@
    }
}

/// What is shown for the picture of a card: an icon if there is no picture.
pub fn cover_of(card: &CardModel) -> (r: Cover)
    ensures
        match card.image {
            Some(url) => r == Cover::Remote(url),
            None => r matches Cover::Icon(icon) && icon@ == missing_icon(card.kind, card.id@),
        },
{
    match &card.image {
        Some(url) => Cover::Remote(url.clone()),
        None => if matches!(card.kind, CardKind::Playlist) && starts_with(
            card.id.as_str(),
            LIKED_PREFIX,
        ) {
            Cover::Icon("emblem-favorite-symbolic")
        } else {
            Cover::Icon("library-music-symbolic")
        },
    }
}

/// The width and height of the picture in a row.
pub const ROW_COVER_SIZE: i32 = 56;

/// The width and height of the picture in a tile.
pub const CARD_COVER_SIZE: i32 = 100;

/// A tile of the grid. It shows the same as a row.
pub type LibraryCard = LibraryRow;

/// A row of the list. It is used for one card after another; `bound_id` is the id
/// of the card that it shows, empty if it shows none.
#[derive(Debug, PartialEq, Eq)]
pub struct LibraryRow {
    pub bound_id: String,
    pub title: String,
    pub subtitle: String,
    pub subtitle_visible: bool,
    pub pin_visible: bool,
    pub is_round: bool,
    /// What is shown for a picture; none while a picture is on its way.
    pub cover: Option<Cover>,
}

impl LibraryRow {
    /// A row that shows no card yet.
    pub fn new() -> (r: LibraryRow)
        ensures
            r.bound_id@.len() == 0,
            r.cover is None,
            !r.pin_visible,
            !r.is_round,
            !r.subtitle_visible,
            r.title@.len() == 0,
            r.subtitle@.len() == 0,
    {
        LibraryRow {
            bound_id: String::new(),
            title: String::new(),
            subtitle: String::new(),
            subtitle_visible: false,
            pin_visible: false,
            is_round: false,
            cover: None,
        }
    }

    /// The row shows the card, all but the line below its title. Its picture is
    /// still to come, if it has one.
    pub open spec fn shows(self, card: CardModel) -> bool {
        &&& self.bound_id == card.id
        &&& self.title == card.title
        &&& self.subtitle_visible == (self.subtitle@.len() > 0)
        &&& self.pin_visible == card.pinned
        &&& self.is_round == card.is_round
        &&& match card.image {
            Some(_) => self.cover is None,
            None => self.cover matches Some(Cover::Icon(icon)) && icon@ == missing_icon(
                card.kind,
                card.id@,
            ),
        }
    }

    /// Shows a card. The address of the picture is handed back if there is one to
    /// be read.
    pub fn bind(&mut self, card: &CardModel) -> (r: Option<String>)
        ensures
            final(self).shows(*card),
            is_subtitle(final(self).subtitle@, card.kind, card.subtitle@, card.track_count),
            r == card.image,
    {
        let subtitle: String = compose_subtitle(card);
        self.bind_with(card, subtitle)
    }

    /// Shows a card, with `subtitle` below its title.
    pub fn bind_with(&mut self, card: &CardModel, subtitle: String) -> (r: Option<String>)
        ensures
            final(self).shows(*card),
            final(self).subtitle == subtitle,
            r == card.image,
    {
        self.bound_id = card.id.clone();
        self.title = card.title.clone();
        self.subtitle_visible = !subtitle.as_str().is_empty();
        self.subtitle = subtitle;
        self.pin_visible = card.pinned;
        self.is_round = card.is_round;
        match cover_of(card) {
            Cover::Remote(url) => {
                self.cover = None;
                Some(url)
            },
            Cover::Icon(icon) => {
                self.cover = Some(Cover::Icon(icon));
                None
            },
        }
    }

    /// A picture has come that was asked for while the row showed the card with
    /// the id `expected`. It is dropped if the row shows another card by now.
    pub fn cover_loaded(&mut self, expected: &str, url: String) -> (r: bool)
        ensures
            r == (old(self).bound_id@ == expected@),
            *final(self) == (LibraryRow { cover: final(self).cover, ..*old(self) }),
            final(self).cover == (if r {
                Some(Cover::Remote(url))
            } else {
                old(self).cover
            }),
    {
        if !str_eq(self.bound_id.as_str(), expected) {
            return false;
        }
        self.cover = Some(Cover::Remote(url));
        true
    }

    /// Shows no card any more.
    pub fn unbind(&mut self)
        ensures
            final(self).bound_id@.len() == 0,
            final(self).cover is None,
            *final(self) == (LibraryRow {
                bound_id: final(self).bound_id,
                cover: None,
                ..*old(self)
            }),
    {
        self.cover = None;
        self.bound_id = String::new();
    }

    /// The id of the card that is shown, if one is.
    pub fn shown_id(&self) -> (r: Option<String>)
        ensures
            r == (if self.bound_id@.len() > 0 {
                Some(self.bound_id)
            } else {
                None
            }),
    {
        if self.bound_id.as_str().is_empty() {
            None
        } else {
            Some(self.bound_id.clone())
        }
    }
}

// ── Laws ───────────────────────────────────────────────────────────────────

/// The line below the title is the kind, a dot, the subtitle and the number of songs;
/// what is missing is left out together with its dot.
pub proof fn law_lines_leave_out_what_is_missing(
    kind: Seq<char>,
    subtitle: Seq<char>,
    suffix: Seq<char>,
)
    ensures
        subtitle.len() > 0 ==> kind_line(Some(kind), subtitle, suffix) == kind + " • "@ + subtitle
            + suffix,
        subtitle.len() == 0 ==> kind_line(Some(kind), subtitle, suffix) == kind + suffix,
        kind_line(None, subtitle, suffix) == subtitle,
{
}

/// Only an album or a playlist whose number of songs is known shows that number.
pub proof fn law_known_numbers_are_shown(count: u32, template: Seq<char>)
    ensures
        count > 0 ==> count_suffix(CardKind::Album, count, template) == " • "@ + text::filled(
            template,
            text::decimal(count as nat),
        ),
        count > 0 ==> count_suffix(CardKind::Playlist, count, template) == " • "@ + text::filled(
            template,
            text::decimal(count as nat),
        ),
        count_suffix(CardKind::Artist, count, template).len() == 0,
        count_suffix(CardKind::Untyped, count, template).len() == 0,
        count_suffix(CardKind::Album, 0, template).len() == 0,
        count_suffix(CardKind::Playlist, 0, template).len() == 0,
{
}

/// A row shows the card that it is bound to: its id, title, shape and pin. Without a
/// picture it shows a note, or a heart for the liked songs.
pub proof fn law_row_shows_its_card(row: LibraryRow, card: CardModel)
    requires
        row.shows(card),
    ensures
        row.bound_id@ == card.id@,
        row.title@ == card.title@,
        row.pin_visible == card.pinned,
        row.is_round == card.is_round,
        row.subtitle_visible == (row.subtitle@.len() > 0),
        card.image is Some ==> row.cover is None,
        card.image is None ==> (row.cover matches Some(Cover::Icon(icon)) && (if card.kind
            == CardKind::Playlist && text::has_prefix(card.id@, "__riff_liked"@) {
            icon@ == "emblem-favorite-symbolic"@
        } else {
            icon@ == "library-music-symbolic"@
        })),
{
}

/// The liked songs without a picture show a heart, anything else a note.
pub proof fn law_missing_pictures_have_icons(kind: CardKind, rest: Seq<char>, id: Seq<char>)
    ensures
        missing_icon(CardKind::Playlist, "__riff_liked"@ + rest) == "emblem-favorite-symbolic"@,
        kind != CardKind::Playlist ==> missing_icon(kind, id) == "library-music-symbolic"@,
        !text::has_prefix(id, "__riff_liked"@) ==> missing_icon(kind, id)
            == "library-music-symbolic"@,
        ROW_COVER_SIZE == 56,
        CARD_COVER_SIZE == 100,
        SEPARATOR@ == " • "@,
{
    let all = "__riff_liked"@ + rest;
    assert(all.take("__riff_liked"@.len() as int) =~= "__riff_liked"@);
    assert(all.subrange(0, "__riff_liked"@.len() as int) =~= "__riff_liked"@);
}

} // verus!
