//! The rows of the search results.

use vstd::prelude::*;

use crate::card_model::{CardKind, CardModel};
use crate::pages::library_rows;
use crate::pages::library_rows::{line_of, Cover};
use crate::text::str_eq;

verus! {

/// The line below the title, given what the user's language has for the kind.
pub fn subtitle_in(label: Option<String>, card: &CardModel) -> (r: String)
    ensures
        r@ == library_rows::kind_line(label.deep_view(), card.subtitle@, Seq::empty()),
{
    proof {
        reveal_strlit("");
        assert(""@ =~= Seq::<char>::empty());
    }
    line_of(label, card.subtitle.as_str(), "")
}

/// The text is a line for below the title: a label of the kind and the subtitle.
pub open spec fn is_subtitle(line: Seq<char>, kind: CardKind, subtitle: Seq<char>) -> bool {
    exists|label: Option<Seq<char>>|
        {
            &&& kind.is_label(label)
            &&& line == #[trigger] library_rows::kind_line(label, subtitle, Seq::empty())
        }
}

/// The line below the title: "Album • Artist" in the user's language.
pub fn compose_subtitle(card: &CardModel) -> (r: String)
    ensures
        is_subtitle(r@, card.kind, card.subtitle@),
{
    let label: Option<String> = card.kind.label();
    let ghost view = label.deep_view();
    let r: String = subtitle_in(label, card);
    assert(r@ == library_rows::kind_line(view, card.subtitle@, Seq::empty()));
    r
}

/// The icon that stands in for a missing picture.
pub open spec fn missing_icon(kind: CardKind) -> Seq<char> {
    if kind == CardKind::Artist {
        "avatar-default-symbolic"@
    } else {
        "emblem-music-symbolic"@
    }
}

/// A row. It is used for one card after another; `bound_id` is the id of the card
/// that it shows, empty if it shows none.
#[derive(Debug, PartialEq, Eq)]
pub struct SearchRow {
    pub bound_id: String,
    pub title: String,
    pub subtitle: String,
    pub subtitle_visible: bool,
    pub is_round: bool,
    /// What is shown for a picture; none while a picture is on its way.
    pub cover: Option<Cover>,
}

impl SearchRow {
    /// A row that shows no card yet.
    pub fn new() -> (r: SearchRow)
        ensures
            r.bound_id@.len() == 0,
            r.title@.len() == 0,
            r.subtitle@.len() == 0,
            !r.subtitle_visible,
            !r.is_round,
            r.cover is None,
    {
        SearchRow {
            bound_id: String::new(),
            title: String::new(),
            subtitle: String::new(),
            subtitle_visible: false,
            is_round: false,
            cover: None,
        }
    }

    /// The row shows the card, all but the line below its title. Its picture is
    /// still to come, if it has one.
    pub open spec fn shows(self, card: CardModel) -> bool {
        &&& self.bound_id == card.id
        &&& self.title == card.title
        &&& self.subtitle_visible == (self.subtitle@.len() > 0)
        &&& self.is_round == card.is_round
        &&& match card.image {
            Some(_) => self.cover is None,
            None => self.cover matches Some(Cover::Icon(icon)) && icon@ == missing_icon(card.kind),
        }
    }

    /// Shows a card. The address of the picture is handed back if there is one to
    /// be read.
    pub fn bind(&mut self, card: &CardModel) -> (r: Option<String>)
        ensures
            final(self).shows(*card),
            is_subtitle(final(self).subtitle@, card.kind, card.subtitle@),
            r == card.image,
    {
        let subtitle: String = compose_subtitle(card);
        self.bind_with(card, subtitle)
    }

    /// Shows a card, with `subtitle` below its title.
    pub fn bind_with(&mut self, card: &CardModel, subtitle: String) -> (r: Option<String>)
        ensures
            final(self).shows(*card),
            final(self).subtitle == subtitle,
            r == card.image,
    {
        self.bound_id = card.id.clone();
        self.title = card.title.clone();
        self.subtitle_visible = !subtitle.as_str().is_empty();
        self.subtitle = subtitle;
        self.is_round = card.is_round;
        match &card.image {
            Some(url) => {
                self.cover = None;
                Some(url.clone())
            },
            None => {
                let icon: &'static str = match card.kind {
                    CardKind::Artist => "avatar-default-symbolic",
                    _ => "emblem-music-symbolic",
                };
                self.cover = Some(Cover::Icon(icon));
                None
            },
        }
    }

    /// A picture has come that was asked for while the row showed the card with
    /// the id `expected`. It is dropped if the row shows another card by now.
    pub fn cover_loaded(&mut self, expected: &str, url: String) -> (r: bool)
        ensures
            r == (old(self).bound_id@ == expected@),
            *final(self) == (SearchRow { cover: final(self).cover, ..*old(self) }),
            final(self).cover == (if r {
                Some(Cover::Remote(url))
            } else {
                old(self).cover
            }),
    {
        if !str_eq(self.bound_id.as_str(), expected) {
            return false;
        }
        self.cover = Some(Cover::Remote(url));
        true
    }

    /// Shows no card any more.
    pub fn unbind(&mut self)
        ensures
            final(self).bound_id@.len() == 0,
            *final(self) == (SearchRow {
                bound_id: final(self).bound_id,
                cover: None,
                ..*old(self)
            }),
    {
        self.cover = None;
        self.bound_id = String::new();
    }
}

/// A row shows the card that it is bound to. Without a picture an artist has the icon
/// of a person and anything else that of music.
pub proof fn law_row_shows_its_card(row: SearchRow, card: CardModel)
    requires
        row.shows(card),
    ensures
        row.bound_id@ == card.id@,
        row.title@ == card.title@,
        row.is_round == card.is_round,
        row.subtitle_visible == (row.subtitle@.len() > 0),
        card.image is Some ==> row.cover is None,
        card.image is None && card.kind == CardKind::Artist ==> (row.cover matches Some(
            Cover::Icon(icon),
        ) && icon@ == "avatar-default-symbolic"@),
        card.image is None && card.kind != CardKind::Artist ==> (row.cover matches Some(
            Cover::Icon(icon),
        ) && icon@ == "emblem-music-symbolic"@),
{
}

/// An artist without a picture shows a person, anything else a note.
pub proof fn law_missing_pictures_have_icons(kind: CardKind)
    ensures
        kind == CardKind::Artist ==> missing_icon(kind) == "avatar-default-symbolic"@,
        kind != CardKind::Artist ==> missing_icon(kind) == "emblem-music-symbolic"@,
{
}

} // verus!
