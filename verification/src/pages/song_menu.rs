//! The menu of a song.

use vstd::prelude::*;

use crate::actions;
use crate::actions::{
    ActionDispatcher, ApiCall, ApiCallView, AppAction, AppActionView, AppEvent, BrowserEvent,
    EffectView, PlaybackAction, PlaybackActionView,
};
use crate::models::{ArtistRef, SongDescription, SongDescriptionView};
use crate::shell::sheets::Sheets;
use crate::state::AppModel;
use crate::text;
use crate::text::{cat, gettext};

verus! {

/// The data and the wishes of the menu.
#[derive(Debug, PartialEq, Eq)]
pub struct SongMenuModel {
    pub app_model: AppModel,
    pub dispatcher: ActionDispatcher,
}

impl SongMenuModel {
    /// The menu.
    pub fn new(app_model: AppModel, dispatcher: ActionDispatcher) -> (r: Self)
        ensures
            r == (SongMenuModel { app_model, dispatcher }),
    {
        SongMenuModel { app_model, dispatcher }
    }

    /// Only the wishes changed: these were added.
    pub open spec fn wants(self, before: Self, added: Seq<EffectView>) -> bool {
        &&& self.app_model == before.app_model
        &&& self.dispatcher@ == before.dispatcher@ + added
    }

    /// Whether the song is among the liked songs.
    pub fn is_song_liked(&self, id: &str) -> (r: bool)
        ensures
            r == self.app_model.state.browser.liked(id@),
    {
        self.app_model.state.browser.is_song_liked(id)
    }

    /// Wants the song taken into the liked songs.
    pub fn save_track(&mut self, song: &SongDescription)
        ensures
            final(self).wants(
                *old(self),
                seq![EffectView::Call(ApiCallView::SaveTracks(seq![song.deep_view()]))],
            ),
    {
        let songs: Vec<SongDescription> = vec![song.clone()];
        assert(songs.deep_view() =~= seq![song.deep_view()]);
        self.dispatcher.call(ApiCall::SaveTracks(songs));
    }

    /// Wants the song taken out of the liked songs.
    pub fn remove_track(&mut self, id: String)
        ensures
            final(self).wants(
                *old(self),
                seq![EffectView::Call(ApiCallView::RemoveSavedTracks(seq![id@]))],
            ),
    {
        let ids: Vec<String> = vec![id];
        assert(ids.deep_view() =~= seq![id@]);
        self.dispatcher.call(ApiCall::RemoveSavedTracks(ids));
    }
}

/// A row of the menu.
#[derive(Clone, Copy, Debug, PartialEq, Eq, Structural)]
pub enum SongMenuRow {
    AddToPlaylist,
    AddToQueue,
    ViewAlbum,
    /// Open the page of the artist at this place.
    ViewArtist(usize),
    CopyLink,
    /// Like the song; or no longer, if it was liked when the menu was drawn.
    Like { is_liked: bool },
}

/// The rows of the menu: one for each artist.
pub open spec fn song_rows(artists: nat, is_liked: bool) -> Seq<SongMenuRow> {
    seq![SongMenuRow::AddToPlaylist, SongMenuRow::AddToQueue, SongMenuRow::ViewAlbum]
        + Seq::new(artists, |i: int| SongMenuRow::ViewArtist(i as usize))
        + seq![SongMenuRow::CopyLink, SongMenuRow::Like { is_liked }]
}

/// The link to a song.
pub open spec fn song_link(id: Seq<char>) -> Seq<char> {
    "https://open.spotify.com/track/"@ + id
}

impl SongMenuRow {
    /// The icon of the row.
    pub fn icon(self) -> (r: &'static str)
        ensures
            r@ == (match self {
                SongMenuRow::AddToPlaylist => "playlist-symbolic"@,
                SongMenuRow::AddToQueue => "media-playlist-consecutive-symbolic"@,
                SongMenuRow::ViewAlbum => "media-optical-symbolic"@,
                SongMenuRow::ViewArtist(_) => "system-users-symbolic"@,
                SongMenuRow::CopyLink => "edit-copy-symbolic"@,
                SongMenuRow::Like { is_liked } => if is_liked {
                    "starred-symbolic"@
                } else {
                    "non-starred-symbolic"@
                },
            }),
    {
        match self {
            SongMenuRow::AddToPlaylist => "playlist-symbolic",
            SongMenuRow::AddToQueue => "media-playlist-consecutive-symbolic",
            SongMenuRow::ViewAlbum => "media-optical-symbolic",
            SongMenuRow::ViewArtist(_) => "system-users-symbolic",
            SongMenuRow::CopyLink => "edit-copy-symbolic",
            SongMenuRow::Like { is_liked } => if is_liked {
                "starred-symbolic"
            } else {
                "non-starred-symbolic"
            },
        }
    }

    /// The message id of the label of the row.
    pub open spec fn spec_msgid(self) -> Seq<char> {
        match self {
            SongMenuRow::AddToPlaylist => "Add to playlist"@,
            SongMenuRow::AddToQueue => "Add to queue"@,
            SongMenuRow::ViewAlbum => "View album"@,
            SongMenuRow::ViewArtist(_) => "View artist"@,
            SongMenuRow::CopyLink => "Copy link"@,
            SongMenuRow::Like { is_liked } => if is_liked {
                "Remove from Liked Songs"@
            } else {
                "Add to Liked Songs"@
            },
        }
    }

    /// The message id of the label of the row.
    pub fn msgid(self) -> (r: &'static str)
        ensures
            r@ == self.spec_msgid(),
            text::no_nul(r@),
    {
        proof {
            reveal_strlit("Add to playlist");
            reveal_strlit("Add to queue");
            reveal_strlit("View album");
            reveal_strlit("View artist");
            reveal_strlit("Copy link");
            reveal_strlit("Remove from Liked Songs");
            reveal_strlit("Add to Liked Songs");
        }
        match self {
            SongMenuRow::AddToPlaylist => "Add to playlist",
            SongMenuRow::AddToQueue => "Add to queue",
            SongMenuRow::ViewAlbum => "View album",
            SongMenuRow::ViewArtist(_) => "View artist",
            SongMenuRow::CopyLink => "Copy link",
            SongMenuRow::Like { is_liked } => if is_liked {
                "Remove from Liked Songs"
            } else {
                "Add to Liked Songs"
            },
        }
    }

    /// The label of the row: where a song has several artists, each row names its
    /// own; any other label is a translation of `msgid`.
    pub fn label(self, song: &SongDescription) -> (r: String)
        ensures
            match self {
                SongMenuRow::ViewArtist(i) if i < song.artists@.len() && song.artists@.len()
                    != 1 => r@ == "View "@ + song.artists@[i as int].name@,
                _ => text::translates(r@, self.spec_msgid()),
            },
    {
        match self {
            SongMenuRow::ViewArtist(i) => if i < song.artists.len() && song.artists.len() != 1 {
                return cat("View ", song.artists[i].name.as_str());
            },
            _ => {},
        }
        gettext(self.msgid())
    }
}

/// The menu and the song that it is for.
#[derive(Debug, PartialEq, Eq)]
pub struct SongMenu {
    pub model: SongMenuModel,
    pub current_song: Option<SongDescription>,
}

/// The sheets after a row was chosen: the menu is closed, and before another page
/// is opened so are the queue and the player.
pub open spec fn sheets_after(row: SongMenuRow, before: Sheets) -> Sheets {
    let leaves = row is ViewAlbum || row is ViewArtist;
    Sheets {
        song_menu: false,
        add_to_playlist: before.add_to_playlist || row is AddToPlaylist,
        queue: before.queue && !leaves,
        now_playing: before.now_playing && !leaves,
        ..before
    }
}

/// What choosing a row wants done.
pub open spec fn row_effects(row: SongMenuRow, song: SongDescriptionView) -> Seq<EffectView> {
    match row {
        SongMenuRow::AddToPlaylist => seq![
            EffectView::Dispatch(AppActionView::ShowAddToPlaylist(song)),
        ],
        SongMenuRow::AddToQueue => seq![actions::play(PlaybackActionView::Queue(seq![song]))],
        SongMenuRow::ViewAlbum => seq![
            EffectView::Dispatch(AppActionView::ViewAlbum(song.album.id)),
        ],
        SongMenuRow::ViewArtist(i) => if i < song.artists.len() {
            seq![EffectView::Dispatch(AppActionView::ViewArtist(song.artists[i as int].id))]
        } else {
            Seq::empty()
        },
        SongMenuRow::CopyLink => Seq::empty(),
        SongMenuRow::Like { is_liked } => seq![
            EffectView::Call(
                if is_liked {
                    ApiCallView::RemoveSavedTracks(seq![song.id])
                } else {
                    ApiCallView::SaveTracks(seq![song])
                },
            ),
        ],
    }
}

impl SongMenu {
    /// The menu, closed.
    pub fn new(model: SongMenuModel) -> (r: SongMenu)
        ensures
            r == (SongMenu { model, current_song: None }),
    {
        SongMenu { model, current_song: None }
    }

    /// The rows of the menu of a song.
    pub fn rows(&self, song: &SongDescription) -> (r: Vec<SongMenuRow>)
        ensures
            r@ == song_rows(
                song.artists@.len(),
                self.model.app_model.state.browser.liked(song.id@),
            ),
    {
        let is_liked: bool = self.model.is_song_liked(song.id.as_str());
        let mut rows: Vec<SongMenuRow> = vec![
            SongMenuRow::AddToPlaylist,
            SongMenuRow::AddToQueue,
            SongMenuRow::ViewAlbum,
        ];
        let ghost front = seq![
            SongMenuRow::AddToPlaylist,
            SongMenuRow::AddToQueue,
            SongMenuRow::ViewAlbum,
        ];
        let mut i: usize = 0;
        while i < song.artists.len()
            invariant
                i <= song.artists.len(),
                rows@ =~= front + Seq::new(i as nat, |k: int| SongMenuRow::ViewArtist(k as usize)),
            decreases song.artists.len() - i,
        {
            rows.push(SongMenuRow::ViewArtist(i));
            i += 1;
        }
        rows.push(SongMenuRow::CopyLink);
        rows.push(SongMenuRow::Like { is_liked });
        assert(rows@ =~= song_rows(song.artists@.len(), is_liked));
        rows
    }

    /// The menu opens for the song that an event names. When the liked songs have
    /// changed it is drawn again, if it is open. The song that it is to be drawn
    /// for is handed back.
    pub fn on_event(&mut self, sheets: &mut Sheets, event: &AppEvent) -> (r: Option<
        SongDescription,
    >)
        ensures
            match event {
                AppEvent::SongMenuShown(song) => {
                    &&& r.deep_view() == Some(song.deep_view())
                    &&& final(self).current_song.deep_view() == Some(song.deep_view())
                    &&& final(self).model == old(self).model
                    &&& *final(sheets) == (Sheets { song_menu: true, ..*old(sheets) })
                },
                AppEvent::BrowserEvent(BrowserEvent::SavedTracksUpdated) => {
                    &&& *final(self) == *old(self)
                    &&& *final(sheets) == *old(sheets)
                    &&& r.deep_view() == (if old(sheets).song_menu {
                        old(self).current_song.deep_view()
                    } else {
                        None
                    })
                },
                _ => r is None && *final(self) == *old(self) && *final(sheets) == *old(sheets),
            },
    {
        match event {
            AppEvent::SongMenuShown(song) => {
                self.current_song = Some(song.clone());
                sheets.song_menu = true;
                Some(song.clone())
            },
            AppEvent::BrowserEvent(BrowserEvent::SavedTracksUpdated) => if sheets.song_menu {
                self.current_song.clone()
            } else {
                None
            },
            _ => None,
        }
    }

    /// A row was chosen: the menu closes, with the queue and the player if another
    /// page is opened, and does what the row says. A link that is to be copied is
    /// handed back.
    pub fn activate(
        &mut self,
        sheets: &mut Sheets,
        row: SongMenuRow,
        song: &SongDescription,
    ) -> (r: Option<String>)
        ensures
            final(self).model.wants(old(self).model, row_effects(row, song.deep_view())),
            final(self).current_song == old(self).current_song,
            *final(sheets) == sheets_after(row, *old(sheets)),
            r.deep_view() == (if row is CopyLink {
                Some(song_link(song.id@))
            } else {
                None
            }),
    {
        sheets.song_menu = false;
        let ghost start = self.model.dispatcher@;
        match row {
            SongMenuRow::AddToPlaylist => {
                self.model.dispatcher.dispatch(AppAction::ShowAddToPlaylist(song.clone()));
                sheets.add_to_playlist = true;
            },
            SongMenuRow::AddToQueue => {
                let songs: Vec<SongDescription> = vec![song.clone()];
                assert(songs.deep_view() =~= seq![song.deep_view()]);
                self.model.dispatcher.dispatch(
                    AppAction::PlaybackAction(PlaybackAction::Queue(songs)),
                );
            },
            SongMenuRow::ViewAlbum => {
                sheets.queue = false;
                sheets.now_playing = false;
                self.model.dispatcher.dispatch(AppAction::ViewAlbum(song.album.id.clone()));
            },
            SongMenuRow::ViewArtist(i) => {
                sheets.queue = false;
                sheets.now_playing = false;
                if i < song.artists.len() {
                    assert(song.deep_view().artists[i as int] == song.artists@[i as int].deep_view());
                    self.model.dispatcher.dispatch(
                        AppAction::ViewArtist(song.artists[i].id.clone()),
                    );
                } else {
                    assert(self.model.dispatcher@ =~= start + Seq::<EffectView>::empty());
                }
            },
            SongMenuRow::CopyLink => {
                assert(self.model.dispatcher@ =~= start + Seq::<EffectView>::empty());
                return Some(cat("https://open.spotify.com/track/", song.id.as_str()));
            },
            SongMenuRow::Like { is_liked } => if is_liked {
                self.model.remove_track(song.id.clone());
            } else {
                self.model.save_track(song);
            },
        }
        None
    }
}

/// The menu offers the playlists, the queue and the album, then every artist in order,
/// then the link and the liked songs.
pub proof fn law_menu_has_a_row_for_every_artist(artists: usize, is_liked: bool, k: usize)
    requires
        k < artists,
    ensures
        song_rows(artists as nat, is_liked).len() == artists + 5,
        song_rows(artists as nat, is_liked)[0] == SongMenuRow::AddToPlaylist,
        song_rows(artists as nat, is_liked)[1] == SongMenuRow::AddToQueue,
        song_rows(artists as nat, is_liked)[2] == SongMenuRow::ViewAlbum,
        song_rows(artists as nat, is_liked)[3 + k] == SongMenuRow::ViewArtist(k),
        song_rows(artists as nat, is_liked)[3 + artists] == SongMenuRow::CopyLink,
        song_rows(artists as nat, is_liked)[4 + artists] == (SongMenuRow::Like { is_liked }),
{
}

/// Every row says what it does.
pub proof fn law_rows_say_what_they_do(row: SongMenuRow)
    ensures
        row is AddToPlaylist ==> row.spec_msgid() == "Add to playlist"@,
        row is AddToQueue ==> row.spec_msgid() == "Add to queue"@,
        row is ViewAlbum ==> row.spec_msgid() == "View album"@,
        row is ViewArtist ==> row.spec_msgid() == "View artist"@,
        row is CopyLink ==> row.spec_msgid() == "Copy link"@,
        row is Like && row->is_liked ==> row.spec_msgid() == "Remove from Liked Songs"@,
        row is Like && !row->is_liked ==> row.spec_msgid() == "Add to Liked Songs"@,
{
}

/// The link to a song ends in its id, behind the address of the tracks.
pub proof fn law_link_names_the_song(id: Seq<char>)
    ensures
        song_link(id).len() == "https://open.spotify.com/track/"@.len() + id.len(),
        song_link(id).take("https://open.spotify.com/track/"@.len() as int)
            == "https://open.spotify.com/track/"@,
        song_link(id).skip("https://open.spotify.com/track/"@.len() as int) == id,
{
    let front = "https://open.spotify.com/track/"@;
    assert(song_link(id).take(front.len() as int) =~= front);
    assert(song_link(id).skip(front.len() as int) =~= id);
}

/// Every row closes the menu. Only a row that opens a page closes the queue and the
/// player, and only the one for playlists opens their list.
pub proof fn law_rows_close_what_is_in_the_way(row: SongMenuRow, before: Sheets)
    ensures
        !sheets_after(row, before).song_menu,
        row is ViewAlbum || row is ViewArtist ==> !sheets_after(row, before).queue
            && !sheets_after(row, before).now_playing && sheets_after(row, before).add_to_playlist
            == before.add_to_playlist,
        row is AddToPlaylist ==> sheets_after(row, before).add_to_playlist && sheets_after(
            row,
            before,
        ).queue == before.queue && sheets_after(row, before).now_playing == before.now_playing,
        row is AddToQueue || row is CopyLink || row is Like ==> sheets_after(row, before)
            == (Sheets { song_menu: false, ..before }),
{
}

/// Every row does what it says, to the song of the menu.
pub proof fn law_rows_act_on_the_song(
    before: SongMenuModel,
    after: SongMenuModel,
    row: SongMenuRow,
    song: SongDescriptionView,
)
    requires
        after.wants(before, row_effects(row, song)),
    ensures
        after.app_model == before.app_model,
        row is AddToPlaylist ==> after.dispatcher@ == before.dispatcher@.push(
            EffectView::Dispatch(AppActionView::ShowAddToPlaylist(song)),
        ),
        row is AddToQueue ==> after.dispatcher@ == before.dispatcher@.push(
            EffectView::Dispatch(
                AppActionView::PlaybackAction(PlaybackActionView::Queue(seq![song])),
            ),
        ),
        row is ViewAlbum ==> after.dispatcher@ == before.dispatcher@.push(
            EffectView::Dispatch(AppActionView::ViewAlbum(song.album.id)),
        ),
        row matches SongMenuRow::ViewArtist(i) ==> i < song.artists.len() ==> after.dispatcher@
            == before.dispatcher@.push(
            EffectView::Dispatch(AppActionView::ViewArtist(song.artists[i as int].id)),
        ),
        row matches SongMenuRow::ViewArtist(i) ==> i >= song.artists.len() ==> after.dispatcher@
            == before.dispatcher@,
        row is CopyLink ==> after.dispatcher@ == before.dispatcher@,
        row is Like && row->is_liked ==> after.dispatcher@ == before.dispatcher@.push(
            EffectView::Call(ApiCallView::RemoveSavedTracks(seq![song.id])),
        ),
        row is Like && !row->is_liked ==> after.dispatcher@ == before.dispatcher@.push(
            EffectView::Call(ApiCallView::SaveTracks(seq![song])),
        ),
{
    assert(before.dispatcher@ + Seq::<EffectView>::empty() =~= before.dispatcher@);
}

} // verus!
