//! The menu of an item of the library.

use vstd::prelude::*;

use crate::actions;
use crate::actions::{
    ActionDispatcher, ApiCall, ApiCallView, AppAction, AppActionView, AppEvent, BrowserAction,
    EffectView, PlaybackAction, PlaybackActionView, SongsSource, SongsSourceView,
};
use crate::api::cached_client::SpotifyResult;
use crate::card_model::{CardKind, LibraryItem, LibraryItemView};
use crate::models::{
    AlbumFullDescription, PlaylistDescription, SongBatch, SongBatchView, SongDescriptionView,
};
use crate::pages::library_rows;
use crate::pages::library_rows::line_of;
use crate::pages::pinned_store;
use crate::pages::pinned_store::PinnedStore;
use crate::shell::sheets::Sheets;
use crate::state::AppModel;
use crate::text;
use crate::text::{cat, cat3, gettext};

verus! {

/// The data and the wishes of the menu.
#[derive(Debug, PartialEq, Eq)]
pub struct LibraryMenuModel {
    pub app_model: AppModel,
    pub dispatcher: ActionDispatcher,
}

/// What takes an item out of the library.
pub open spec fn removal(kind: CardKind, id: Seq<char>) -> Seq<EffectView> {
    match kind {
        CardKind::Album => seq![EffectView::Call(ApiCallView::RemoveSavedAlbum(id))],
        CardKind::Artist => seq![EffectView::Call(ApiCallView::UnfollowArtist(id))],
        CardKind::Playlist => seq![EffectView::Call(ApiCallView::UnfollowPlaylist(id))],
        CardKind::Untyped => Seq::empty(),
    }
}

/// What plays the songs of a source from the first on: nothing if there are none.
pub open spec fn play_from_start(
    source: SongsSourceView,
    batch: SongBatchView,
) -> Seq<AppActionView> {
    if batch.songs.len() == 0 {
        Seq::empty()
    } else {
        seq![
            AppActionView::PlaybackAction(PlaybackActionView::LoadPagedSongs(source, batch)),
            AppActionView::PlaybackAction(PlaybackActionView::Load(batch.songs[0].id)),
        ]
    }
}

/// The word for the kind in a link.
pub open spec fn link_word(kind: CardKind) -> Option<Seq<char>> {
    match kind {
        CardKind::Album => Some("album"@),
        CardKind::Artist => Some("artist"@),
        CardKind::Playlist => Some("playlist"@),
        CardKind::Untyped => None,
    }
}

/// The link to an item; an item without a kind has none.
pub open spec fn link_of(kind: CardKind, id: Seq<char>) -> Option<Seq<char>> {
    match link_word(kind) {
        Some(word) => Some("https://open.spotify.com/"@ + word + "/"@ + id),
        None => None,
    }
}

/// The link to an item.
pub fn share_link(item: &LibraryItem) -> (r: Option<String>)
    ensures
        r.deep_view() == link_of(item.kind, item.id@),
{
    let word: &str = match item.kind {
        CardKind::Album => "album",
        CardKind::Artist => "artist",
        CardKind::Playlist => "playlist",
        CardKind::Untyped => {
            return None;
        },
    };
    let front: String = cat3("https://open.spotify.com/", word, "/");
    Some(cat(front.as_str(), item.id.as_str()))
}

fn play_batch(source: SongsSource, batch: SongBatch) -> (r: Vec<AppAction>)
    ensures
        r.deep_view() == play_from_start(source.deep_view(), batch.deep_view()),
{
    if batch.songs.len() == 0 {
        let r: Vec<AppAction> = Vec::new();
        assert(r.deep_view() =~= Seq::<AppActionView>::empty());
        return r;
    }
    assert(batch.deep_view().songs[0] == batch.songs@[0].deep_view());
    let first: String = batch.songs[0].id.clone();
    let r: Vec<AppAction> = vec![
        AppAction::PlaybackAction(PlaybackAction::LoadPagedSongs(source, batch)),
        AppAction::PlaybackAction(PlaybackAction::Load(first)),
    ];
    assert(r.deep_view() =~= play_from_start(source.deep_view(), batch.deep_view()));
    r
}

/// What follows from an album that is to be played; nothing if it could not be
/// read.
pub fn album_to_play(id: String, answer: SpotifyResult<AlbumFullDescription>) -> (r: Vec<
    AppAction,
>)
    ensures
        r.deep_view() == (match answer {
            Ok(album) => play_from_start(
                SongsSourceView::Album(id@),
                album.description.songs.deep_view(),
            ),
            Err(_) => Seq::empty(),
        }),
{
    match answer {
        Ok(album) => play_batch(SongsSource::Album(id), album.description.songs),
        Err(_) => {
            let r: Vec<AppAction> = Vec::new();
            assert(r.deep_view() =~= Seq::<AppActionView>::empty());
            r
        },
    }
}

/// What follows from a playlist that is to be played; nothing if it could not be
/// read.
pub fn playlist_to_play(answer: SpotifyResult<PlaylistDescription>) -> (r: Vec<AppAction>)
    ensures
        r.deep_view() == (match answer {
            Ok(playlist) => play_from_start(
                SongsSourceView::Playlist { id: playlist.id@, title: playlist.title@ },
                playlist.songs.deep_view(),
            ),
            Err(_) => Seq::empty(),
        }),
{
    match answer {
        Ok(playlist) => play_batch(
            SongsSource::Playlist { id: playlist.id, title: playlist.title },
            playlist.songs,
        ),
        Err(_) => {
            let r: Vec<AppAction> = Vec::new();
            assert(r.deep_view() =~= Seq::<AppActionView>::empty());
            r
        },
    }
}

/// What follows once the service has taken the item with the given kind and id out of
/// the library.
pub fn item_removed(kind: CardKind, id: String, answer: SpotifyResult<()>) -> (r: SpotifyResult<
    Option<AppAction>,
>)
    ensures
        match (answer, r) {
            (Ok(_), Ok(action)) => action == (match kind {
                CardKind::Album => Some(
                    AppAction::BrowserAction(BrowserAction::UnsaveAlbum(id)),
                ),
                CardKind::Artist => Some(
                    AppAction::BrowserAction(BrowserAction::UnfollowArtist(id)),
                ),
                CardKind::Playlist => Some(
                    AppAction::BrowserAction(BrowserAction::UnsavePlaylist(id)),
                ),
                CardKind::Untyped => None,
            }),
            (Err(e), Err(f)) => e == f,
            _ => false,
        },
{
    match answer {
        Ok(_) => {
            Ok(
                match kind {
                    CardKind::Album => Some(
                        AppAction::BrowserAction(BrowserAction::UnsaveAlbum(id)),
                    ),
                    CardKind::Artist => Some(
                        AppAction::BrowserAction(BrowserAction::UnfollowArtist(id)),
                    ),
                    CardKind::Playlist => Some(
                        AppAction::BrowserAction(BrowserAction::UnsavePlaylist(id)),
                    ),
                    CardKind::Untyped => None,
                },
            )
        },
        Err(e) => Err(e),
    }
}

impl LibraryMenuModel {
    /// The menu.
    pub fn new(app_model: AppModel, dispatcher: ActionDispatcher) -> (r: Self)
        ensures
            r == (LibraryMenuModel { app_model, dispatcher }),
    {
        LibraryMenuModel { app_model, dispatcher }
    }

    /// Pins the item, or unpins it, and tells the library.
    pub fn toggle_pin(&mut self, pins: &mut PinnedStore, id: &str)
        ensures
            final(self).app_model == old(self).app_model,
            final(pins)@ == pinned_store::toggled(old(pins)@, id@),
            final(pins).unsaved,
            final(self).dispatcher@ == old(self).dispatcher@ + seq![
                EffectView::Dispatch(AppActionView::LibraryPinsChanged),
            ],
    {
        let _ = pins.toggle(id);
        self.dispatcher.dispatch(AppAction::LibraryPinsChanged);
    }

    /// Takes the item out of the library. What is taken out does not stay pinned.
    pub fn remove_from_library(&mut self, pins: &mut PinnedStore, item: &LibraryItem)
        ensures
            final(self).app_model == old(self).app_model,
            final(pins)@ == pinned_store::without_pin(old(pins)@, item.id@),
            final(pins).unsaved == (old(pins).unsaved || old(pins)@.contains(item.id@)),
            final(self).dispatcher@ == old(self).dispatcher@ + removal(item.kind, item.id@) + (
            if old(pins)@.contains(item.id@) {
                seq![EffectView::Dispatch(AppActionView::LibraryPinsChanged)]
            } else {
                Seq::empty()
            }),
    {
        let id: String = item.id.clone();
        match item.kind {
            CardKind::Album => self.dispatcher.call(ApiCall::RemoveSavedAlbum(id)),
            CardKind::Artist => self.dispatcher.call(ApiCall::UnfollowArtist(id)),
            CardKind::Playlist => self.dispatcher.call(ApiCall::UnfollowPlaylist(id)),
            CardKind::Untyped => {},
        }
        assert(self.dispatcher@ =~= old(self).dispatcher@ + removal(item.kind, item.id@));
        if pins.unpin(item.id.as_str()) {
            self.dispatcher.dispatch(AppAction::LibraryPinsChanged);
        } else {
            assert(self.dispatcher@ =~= old(self).dispatcher@ + removal(item.kind, item.id@)
                + Seq::<EffectView>::empty());
        }
    }

    /// Wants an album or playlist read that is to be played.
    pub fn play_item(&mut self, item: &LibraryItem)
        ensures
            final(self).app_model == old(self).app_model,
            final(self).dispatcher@ == old(self).dispatcher@ + (match item.kind {
                CardKind::Album => seq![EffectView::Call(ApiCallView::GetAlbum(item.id@))],
                CardKind::Playlist => seq![EffectView::Call(ApiCallView::GetPlaylist(item.id@))],
                _ => Seq::empty(),
            }),
    {
        let id: String = item.id.clone();
        match item.kind {
            CardKind::Album => self.dispatcher.call(ApiCall::GetAlbum(id)),
            CardKind::Playlist => self.dispatcher.call(ApiCall::GetPlaylist(id)),
            _ => {
                assert(self.dispatcher@ =~= old(self).dispatcher@ + Seq::<EffectView>::empty());
            },
        }
    }

    /// Opens the page of the item.
    pub fn open_item(&mut self, item: &LibraryItem)
        ensures
            final(self).app_model == old(self).app_model,
            final(self).dispatcher@ == old(self).dispatcher@ + seq![
                EffectView::Dispatch(
                    match item.kind {
                        CardKind::Album => AppActionView::ViewAlbum(item.id@),
                        CardKind::Artist => AppActionView::ViewArtist(item.id@),
                        _ => AppActionView::ViewPlaylist(item.id@),
                    },
                ),
            ],
    {
        let id: String = item.id.clone();
        let action: AppAction = match item.kind {
            CardKind::Album => AppAction::ViewAlbum(id),
            CardKind::Artist => AppAction::ViewArtist(id),
            _ => AppAction::ViewPlaylist(id),
        };
        self.dispatcher.dispatch(action);
    }

    /// The link to be copied, if the item has one; the user is told.
    pub fn share(&mut self, item: &LibraryItem) -> (r: Option<String>)
        ensures
            final(self).app_model == old(self).app_model,
            r.deep_view() == link_of(item.kind, item.id@),
            match r {
                Some(_) => exists|message: Seq<char>|
                    text::translates(message, "Link copied"@) && final(self).dispatcher@ == old(
                        self,
                    ).dispatcher@ + seq![#[trigger] actions::notify(message)],
                None => final(self).dispatcher@ == old(self).dispatcher@,
            },
    {
        proof {
            reveal_strlit("Link copied");
        }
        match share_link(item) {
            Some(link) => {
                let message: String = gettext("Link copied");
                let ghost words = message@;
                self.dispatcher.dispatch(AppAction::ShowNotification(message));
                assert(self.dispatcher@ == old(self).dispatcher@ + seq![actions::notify(words)]);
                Some(link)
            },
            None => None,
        }
    }
}

// ── The rows ───────────────────────────────────────────────────────────────

/// A row of the menu.
#[derive(Clone, Copy, Debug, PartialEq, Eq, Structural)]
pub enum LibraryMenuRow {
    Pin,
    Play,
    GoTo,
    Remove,
    Share,
}

/// The rows of the menu of an item: only albums and playlists can be played.
pub open spec fn rows_of(kind: CardKind) -> Seq<LibraryMenuRow> {
    if kind == CardKind::Album || kind == CardKind::Playlist {
        seq![
            LibraryMenuRow::Pin,
            LibraryMenuRow::Play,
            LibraryMenuRow::GoTo,
            LibraryMenuRow::Remove,
            LibraryMenuRow::Share,
        ]
    } else {
        seq![
            LibraryMenuRow::Pin,
            LibraryMenuRow::GoTo,
            LibraryMenuRow::Remove,
            LibraryMenuRow::Share,
        ]
    }
}

/// The rows of the menu of an item.
pub fn menu_rows(item: &LibraryItem) -> (r: Vec<LibraryMenuRow>)
    ensures
        r@ == rows_of(item.kind),
{
    let mut rows: Vec<LibraryMenuRow> = vec![LibraryMenuRow::Pin];
    if matches!(item.kind, CardKind::Album | CardKind::Playlist) {
        rows.push(LibraryMenuRow::Play);
    }
    rows.push(LibraryMenuRow::GoTo);
    rows.push(LibraryMenuRow::Remove);
    rows.push(LibraryMenuRow::Share);
    assert(rows@ =~= rows_of(item.kind));
    rows
}

impl LibraryMenuRow {
    /// The icon of the row.
    pub fn icon(self) -> (r: &'static str)
        ensures
            r@ == (match self {
                LibraryMenuRow::Pin => "view-pin-symbolic"@,
                LibraryMenuRow::Play => "media-playback-start-symbolic"@,
                LibraryMenuRow::GoTo => "go-next-symbolic"@,
                LibraryMenuRow::Remove => "user-trash-symbolic"@,
                LibraryMenuRow::Share => "edit-copy-symbolic"@,
            }),
    {
        match self {
            LibraryMenuRow::Pin => "view-pin-symbolic",
            LibraryMenuRow::Play => "media-playback-start-symbolic",
            LibraryMenuRow::GoTo => "go-next-symbolic",
            LibraryMenuRow::Remove => "user-trash-symbolic",
            LibraryMenuRow::Share => "edit-copy-symbolic",
        }
    }

    /// The message id of the label of the row.
    pub open spec fn spec_msgid(self, pinned: bool, kind: CardKind) -> Seq<char> {
        match self {
            LibraryMenuRow::Pin => if pinned {
                "Unpin"@
            } else {
                "Pin"@
            },
            LibraryMenuRow::Play => "Play"@,
            LibraryMenuRow::GoTo => "Go to"@,
            LibraryMenuRow::Remove => if kind == CardKind::Artist {
                "Unfollow"@
            } else {
                "Remove from library"@
            },
            LibraryMenuRow::Share => "Share"@,
        }
    }

    /// The message id of the label of the row.
    pub fn msgid(self, item: &LibraryItem) -> (r: &'static str)
        ensures
            r@ == self.spec_msgid(item.pinned, item.kind),
            text::no_nul(r@),
    {
        proof {
            reveal_strlit("Unpin");
            reveal_strlit("Pin");
            reveal_strlit("Play");
            reveal_strlit("Go to");
            reveal_strlit("Unfollow");
            reveal_strlit("Remove from library");
            reveal_strlit("Share");
        }
        match self {
            LibraryMenuRow::Pin => if item.pinned {
                "Unpin"
            } else {
                "Pin"
            },
            LibraryMenuRow::Play => "Play",
            LibraryMenuRow::GoTo => "Go to",
            LibraryMenuRow::Remove => match item.kind {
                CardKind::Artist => "Unfollow",
                _ => "Remove from library",
            },
            LibraryMenuRow::Share => "Share",
        }
    }

    /// The label of the row: a translation of `msgid`.
    pub fn label(self, item: &LibraryItem) -> (r: String)
        ensures
            text::translates(r@, self.spec_msgid(item.pinned, item.kind)),
    {
        gettext(self.msgid(item))
    }
}

/// The line below the title of the item, given what the user's language has for
/// its kind.
pub fn subtitle_in(label: Option<String>, item: &LibraryItem) -> (r: String)
    ensures
        r@ == library_rows::kind_line(label.deep_view(), item.subtitle@, Seq::empty()),
{
    proof {
        reveal_strlit("");
        assert(""@ =~= Seq::<char>::empty());
    }
    line_of(label, item.subtitle.as_str(), "")
}

/// The line below the title of the item: "Album • Artist" in the user's language.
pub fn compose_subtitle(item: &LibraryItem) -> (r: String)
    ensures
        exists|label: Option<Seq<char>>|
            {
                &&& item.kind.is_label(label)
                &&& r@ == #[trigger] library_rows::kind_line(label, item.subtitle@, Seq::empty())
            },
{
    let label: Option<String> = item.kind.label();
    let ghost view = label.deep_view();
    let r: String = subtitle_in(label, item);
    assert(r@ == library_rows::kind_line(view, item.subtitle@, Seq::empty()));
    r
}

/// The menu and the item that it is for.
#[derive(Debug, PartialEq, Eq)]
pub struct LibraryMenu {
    pub model: LibraryMenuModel,
    pub current: Option<LibraryItem>,
}

impl LibraryMenu {
    /// The menu.
    pub fn new(model: LibraryMenuModel) -> (r: LibraryMenu)
        ensures
            r == (LibraryMenu { model, current: None }),
    {
        LibraryMenu { model, current: None }
    }

    /// The menu opens for the item that an event names; `true` if it does.
    pub fn on_event(&mut self, sheets: &mut Sheets, event: &AppEvent) -> (r: bool)
        ensures
            final(self).model == old(self).model,
            match event {
                AppEvent::LibraryItemMenuShown(item) => {
                    &&& r
                    &&& *final(sheets) == (Sheets { library_menu: true, ..*old(sheets) })
                    &&& final(self).current.deep_view() == Some(item.deep_view())
                },
                _ => !r && *final(self) == *old(self) && *final(sheets) == *old(sheets),
            },
    {
        match event {
            AppEvent::LibraryItemMenuShown(item) => {
                self.current = Some(item.clone());
                sheets.library_menu = true;
                true
            },
            _ => false,
        }
    }

    /// A row was chosen: the menu closes and does what the row says. A link that
    /// is to be copied is handed back.
    pub fn activate(
        &mut self,
        sheets: &mut Sheets,
        pins: &mut PinnedStore,
        row: LibraryMenuRow,
        item: &LibraryItem,
    ) -> (r: Option<String>)
        ensures
            *final(sheets) == (Sheets { library_menu: false, ..*old(sheets) }),
            final(self).current == old(self).current,
            final(self).model.app_model == old(self).model.app_model,
            !(row is Share) ==> r is None,
            match row {
                LibraryMenuRow::Pin => {
                    &&& final(pins)@ == pinned_store::toggled(old(pins)@, item.id@)
                    &&& final(pins).unsaved
                    &&& final(self).model.dispatcher@ == old(self).model.dispatcher@ + seq![
                        EffectView::Dispatch(AppActionView::LibraryPinsChanged),
                    ]
                },
                LibraryMenuRow::Play => {
                    &&& *final(pins) == *old(pins)
                    &&& final(self).model.dispatcher@ == old(self).model.dispatcher@ + (
                    match item.kind {
                        CardKind::Album => seq![EffectView::Call(ApiCallView::GetAlbum(item.id@))],
                        CardKind::Playlist => seq![
                            EffectView::Call(ApiCallView::GetPlaylist(item.id@)),
                        ],
                        _ => Seq::empty(),
                    })
                },
                LibraryMenuRow::GoTo => {
                    &&& *final(pins) == *old(pins)
                    &&& final(self).model.dispatcher@ == old(self).model.dispatcher@ + seq![
                        EffectView::Dispatch(
                            match item.kind {
                                CardKind::Album => AppActionView::ViewAlbum(item.id@),
                                CardKind::Artist => AppActionView::ViewArtist(item.id@),
                                _ => AppActionView::ViewPlaylist(item.id@),
                            },
                        ),
                    ]
                },
                LibraryMenuRow::Remove => {
                    &&& final(pins)@ == pinned_store::without_pin(old(pins)@, item.id@)
                    &&& final(pins).unsaved == (old(pins).unsaved || old(pins)@.contains(item.id@))
                    &&& final(self).model.dispatcher@ == old(self).model.dispatcher@ + removal(
                        item.kind,
                        item.id@,
                    ) + (if old(pins)@.contains(item.id@) {
                        seq![EffectView::Dispatch(AppActionView::LibraryPinsChanged)]
                    } else {
                        Seq::empty()
                    })
                },
                LibraryMenuRow::Share => {
                    &&& *final(pins) == *old(pins)
                    &&& r.deep_view() == link_of(item.kind, item.id@)
                    &&& match r {
                        Some(_) => exists|message: Seq<char>|
                            text::translates(message, "Link copied"@)
                                && final(self).model.dispatcher@ == old(self).model.dispatcher@
                                + seq![#[trigger] actions::notify(message)],
                        None => final(self).model.dispatcher@ == old(self).model.dispatcher@,
                    }
                },
            },
    {
        sheets.library_menu = false;
        match row {
            LibraryMenuRow::Pin => {
                self.model.toggle_pin(pins, item.id.as_str());
                None
            },
            LibraryMenuRow::Play => {
                self.model.play_item(item);
                None
            },
            LibraryMenuRow::GoTo => {
                self.model.open_item(item);
                None
            },
            LibraryMenuRow::Remove => {
                self.model.remove_from_library(pins, item);
                None
            },
            LibraryMenuRow::Share => self.model.share(item),
        }
    }
}

/// An item that was taken out of the library is not pinned any more.
pub proof fn law_removed_item_is_not_pinned(pins: Seq<Seq<char>>, id: Seq<char>)
    ensures
        !pinned_store::without_pin(pins, id).contains(id),
{
    pinned_store::law_pin_and_unpin(pins, id, id);
}

/// Different items have different links.
pub proof fn law_links_tell_items_apart(kind: CardKind, a: Seq<char>, b: Seq<char>)
    requires
        kind != CardKind::Untyped,
        link_of(kind, a) == link_of(kind, b),
    ensures
        a == b,
{
    let front = "https://open.spotify.com/"@ + link_word(kind)->0 + "/"@;
    assert((front + a).skip(front.len() as int) =~= a);
    assert((front + b).skip(front.len() as int) =~= b);
}

/// Choosing to remove an item asks the service for the call that takes an item of
/// its kind out of the library, with its own id: an album is taken out of the saved
/// albums, an artist and a playlist are no longer followed. The library is told if
/// the item was pinned.
pub proof fn law_removal_fits_the_kind(
    before: LibraryMenuModel,
    after: LibraryMenuModel,
    pins: PinnedStore,
    item: LibraryItem,
)
    requires
        after.dispatcher@ == before.dispatcher@ + removal(item.kind, item.id@) + (
        if pins@.contains(item.id@) {
            seq![EffectView::Dispatch(AppActionView::LibraryPinsChanged)]
        } else {
            Seq::empty()
        }),
    ensures
        ({
            let told = if pins@.contains(item.id@) {
                seq![EffectView::Dispatch(AppActionView::LibraryPinsChanged)]
            } else {
                seq![]
            };
            &&& item.kind == CardKind::Album ==> after.dispatcher@ == before.dispatcher@ + (seq![
                EffectView::Call(ApiCallView::RemoveSavedAlbum(item.id@)),
            ] + told)
            &&& item.kind == CardKind::Artist ==> after.dispatcher@ == before.dispatcher@ + (seq![
                EffectView::Call(ApiCallView::UnfollowArtist(item.id@)),
            ] + told)
            &&& item.kind == CardKind::Playlist ==> after.dispatcher@ == before.dispatcher@ + (
            seq![EffectView::Call(ApiCallView::UnfollowPlaylist(item.id@))] + told)
            &&& item.kind == CardKind::Untyped ==> after.dispatcher@ == before.dispatcher@ + told
        }),
{
    let told = if pins@.contains(item.id@) {
        seq![EffectView::Dispatch(AppActionView::LibraryPinsChanged)]
    } else {
        seq![]
    };
    assert(after.dispatcher@ =~= before.dispatcher@ + (removal(item.kind, item.id@) + told));
    assert(item.kind == CardKind::Untyped ==> removal(item.kind, item.id@) + told =~= told);
}

/// The songs of an album or playlist are loaded as they are, from that source, and
/// the first of them is started; if there are none, nothing happens.
pub proof fn law_play_starts_with_the_first_song(source: SongsSourceView, batch: SongBatchView)
    ensures
        batch.songs.len() == 0 ==> play_from_start(source, batch).len() == 0,
        batch.songs.len() > 0 ==> play_from_start(source, batch) == seq![
            AppActionView::PlaybackAction(PlaybackActionView::LoadPagedSongs(source, batch)),
            AppActionView::PlaybackAction(PlaybackActionView::Load(batch.songs.first().id)),
        ],
{
}

/// The link to an item names its kind and its id.
pub proof fn law_links_name_the_item(id: Seq<char>)
    ensures
        link_of(CardKind::Album, id) == Some("https://open.spotify.com/album/"@ + id),
        link_of(CardKind::Artist, id) == Some("https://open.spotify.com/artist/"@ + id),
        link_of(CardKind::Playlist, id) == Some("https://open.spotify.com/playlist/"@ + id),
        link_of(CardKind::Untyped, id) is None,
{
    reveal_strlit("https://open.spotify.com/");
    reveal_strlit("album");
    reveal_strlit("artist");
    reveal_strlit("playlist");
    reveal_strlit("/");
    reveal_strlit("https://open.spotify.com/album/");
    reveal_strlit("https://open.spotify.com/artist/");
    reveal_strlit("https://open.spotify.com/playlist/");
    assert("https://open.spotify.com/"@ + "album"@ + "/"@ =~= "https://open.spotify.com/album/"@);
    assert("https://open.spotify.com/"@ + "artist"@ + "/"@ =~= "https://open.spotify.com/artist/"@);
    assert("https://open.spotify.com/"@ + "playlist"@ + "/"@
        =~= "https://open.spotify.com/playlist/"@);
}

/// Every item can be pinned, opened, removed and shared; only an album or a playlist
/// can be played.
pub proof fn law_rows_fit_the_kind(kind: CardKind, row: LibraryMenuRow)
    ensures
        rows_of(kind).contains(row) <==> (row != LibraryMenuRow::Play || kind == CardKind::Album
            || kind == CardKind::Playlist),
        rows_of(kind).no_duplicates(),
        rows_of(kind).first() == LibraryMenuRow::Pin,
        rows_of(kind).last() == LibraryMenuRow::Share,
{
    let rows = rows_of(kind);
    assert(rows[0] == LibraryMenuRow::Pin);
    if kind == CardKind::Album || kind == CardKind::Playlist {
        assert(rows[1] == LibraryMenuRow::Play && rows[2] == LibraryMenuRow::GoTo && rows[3]
            == LibraryMenuRow::Remove && rows[4] == LibraryMenuRow::Share);
    } else {
        assert(rows[1] == LibraryMenuRow::GoTo && rows[2] == LibraryMenuRow::Remove && rows[3]
            == LibraryMenuRow::Share);
        assert(forall|i: int| 0 <= i < rows.len() ==> rows[i] != LibraryMenuRow::Play);
    }
    match row {
        LibraryMenuRow::Pin => {},
        LibraryMenuRow::Play => {},
        LibraryMenuRow::GoTo => {},
        LibraryMenuRow::Remove => {},
        LibraryMenuRow::Share => {},
    }
}

/// A row says what it does: an item that is pinned can be unpinned, and an artist is
/// unfollowed where anything else is removed.
pub proof fn law_rows_say_what_they_do(pinned: bool, kind: CardKind)
    ensures
        LibraryMenuRow::Pin.spec_msgid(true, kind) == "Unpin"@,
        LibraryMenuRow::Pin.spec_msgid(false, kind) == "Pin"@,
        LibraryMenuRow::Play.spec_msgid(pinned, kind) == "Play"@,
        LibraryMenuRow::GoTo.spec_msgid(pinned, kind) == "Go to"@,
        LibraryMenuRow::Remove.spec_msgid(pinned, CardKind::Artist) == "Unfollow"@,
        kind != CardKind::Artist ==> LibraryMenuRow::Remove.spec_msgid(pinned, kind)
            == "Remove from library"@,
        LibraryMenuRow::Share.spec_msgid(pinned, kind) == "Share"@,
{
}

} // verus!
