//! The home feed: shelves of cards over what the user listens to.

use vstd::prelude::*;

use crate::actions::{
    ActionDispatcher, ApiCall, ApiCallView, AppAction, AppActionView, AppEvent, BrowserAction,
    BrowserActionView, BrowserEvent, EffectView, LoginEvent, ScreenName, ScreenNameView,
};
use crate::api::cached_client::SpotifyResult;
use crate::card_enums::{CardLayout, CardSize, ImageShape};
use crate::card_model::{CardKind, CardModel, CardModelView};
use crate::lists;
use crate::models::{
    AlbumDescription, AlbumDescriptionView, ArtistSummary, ArtistSummaryView, JumpBackContext,
    SongDescription,
};
use crate::pages::library;
use crate::pages::library::{liked_songs_card, LIKED_SONGS_ID};
use crate::state::{AppModel, HomeState};
use crate::text;
use crate::text::{fill, gettext, str_eq};

verus! {

/// How many plays are read.
pub const RECENTLY_PLAYED_LIMIT: usize = 20;

/// How many top artists are read.
pub const TOP_ARTISTS_LIMIT: usize = 20;

/// How many top tracks are read.
pub const TOP_TRACKS_LIMIT: usize = 20;

/// How many saved albums are read.
pub const SAVED_ALBUMS_LIMIT: usize = 20;

/// How many albums of one artist are read; the service gives no more.
pub const MADE_FOR_YOU_LIMIT: usize = 10;

/// How many of the sources that were played last have a shortcut.
pub const SHORTCUTS: usize = 5;

/// The data and the wishes of the home feed.
#[derive(Debug, PartialEq, Eq)]
pub struct HomeFeedModel {
    pub app_model: AppModel,
    pub dispatcher: ActionDispatcher,
}

/// What fills the feed.
pub open spec fn feed_calls() -> Seq<EffectView> {
    seq![
        EffectView::Call(ApiCallView::RecentlyPlayed(RECENTLY_PLAYED_LIMIT)),
        EffectView::Call(ApiCallView::GetTopArtists(TOP_ARTISTS_LIMIT)),
        EffectView::Call(ApiCallView::GetTopTracks(TOP_TRACKS_LIMIT)),
        EffectView::Call(ApiCallView::GetSavedAlbums { offset: 0, limit: SAVED_ALBUMS_LIMIT }),
        EffectView::Call(ApiCallView::GetSeedArtists(TOP_ARTISTS_LIMIT)),
    ]
}

/// What opens a card of the feed.
pub open spec fn open_card(id: Seq<char>, kind: CardKind) -> AppActionView {
    if id == LIKED_SONGS_ID@ {
        AppActionView::BrowserAction(
            BrowserActionView::NavigationPush(ScreenNameView::SavedTracks),
        )
    } else {
        match kind {
            CardKind::Artist => AppActionView::ViewArtist(id),
            CardKind::Playlist => AppActionView::ViewPlaylist(id),
            _ => AppActionView::ViewAlbum(id),
        }
    }
}

impl HomeFeedModel {
    /// The feed.
    pub fn new(app_model: AppModel, dispatcher: ActionDispatcher) -> (r: Self)
        ensures
            r == (HomeFeedModel { app_model, dispatcher }),
    {
        HomeFeedModel { app_model, dispatcher }
    }

    /// Only the wishes changed: these were added.
    pub open spec fn wants(self, before: Self, added: Seq<EffectView>) -> bool {
        &&& self.app_model == before.app_model
        &&& self.dispatcher@ == before.dispatcher@ + added
    }

    /// The state of the feed.
    pub open spec fn home(self) -> Option<HomeState> {
        self.app_model.state.browser.home
    }

    /// The state of the feed.
    pub fn state(&self) -> (r: Option<&HomeState>)
        ensures
            match (r, self.home()) {
                (Some(a), Some(b)) => *a == b,
                (None, None) => true,
                _ => false,
            },
    {
        self.app_model.state.browser.home.as_ref()
    }

    /// Wants all shelves filled. Each call stands alone; one that fails leaves its
    /// shelf empty. The last of them is the one of `refresh_made_for_you`.
    pub fn refresh_feed(&mut self)
        ensures
            final(self).wants(*old(self), feed_calls()),
    {
        self.dispatcher.call(ApiCall::RecentlyPlayed(RECENTLY_PLAYED_LIMIT));
        self.dispatcher.call(ApiCall::GetTopArtists(TOP_ARTISTS_LIMIT));
        self.dispatcher.call(ApiCall::GetTopTracks(TOP_TRACKS_LIMIT));
        self.dispatcher.call(ApiCall::GetSavedAlbums { offset: 0, limit: SAVED_ALBUMS_LIMIT });
        self.refresh_made_for_you();
        assert(self.dispatcher@ =~= old(self).dispatcher@ + feed_calls());
    }

    /// Wants the artists read of whom the first is the seed of a shelf.
    pub fn refresh_made_for_you(&mut self)
        ensures
            final(self).wants(
                *old(self),
                seq![EffectView::Call(ApiCallView::GetSeedArtists(TOP_ARTISTS_LIMIT))],
            ),
    {
        self.dispatcher.call(ApiCall::GetSeedArtists(TOP_ARTISTS_LIMIT));
    }

    /// Opens a card.
    pub fn open_item(&mut self, id: String, kind: CardKind)
        ensures
            final(self).wants(*old(self), seq![EffectView::Dispatch(open_card(id@, kind))]),
    {
        let action: AppAction = if str_eq(id.as_str(), LIKED_SONGS_ID) {
            AppAction::BrowserAction(BrowserAction::NavigationPush(ScreenName::SavedTracks))
        } else {
            match kind {
                CardKind::Artist => AppAction::ViewArtist(id),
                CardKind::Playlist => AppAction::ViewPlaylist(id),
                _ => AppAction::ViewAlbum(id),
            }
        };
        self.dispatcher.dispatch(action);
    }
}

// ── Answers ────────────────────────────────────────────────────────────────

/// What follows from the plays; nothing if they could not be read.
pub fn recently_played_read(
    answer: SpotifyResult<(Vec<SongDescription>, Vec<JumpBackContext>)>,
) -> (r: Option<AppAction>)
    ensures
        r == (match answer {
            Ok((songs, contexts)) => Some(
                AppAction::BrowserAction(BrowserAction::SetRecentlyPlayed(songs, contexts)),
            ),
            Err(_) => None,
        }),
{
    match answer {
        Ok((songs, contexts)) => Some(
            AppAction::BrowserAction(BrowserAction::SetRecentlyPlayed(songs, contexts)),
        ),
        Err(_) => None,
    }
}

/// What follows from the top artists; nothing if they could not be read.
pub fn top_artists_read(answer: SpotifyResult<Vec<ArtistSummary>>) -> (r: Option<AppAction>)
    ensures
        r == (match answer {
            Ok(artists) => Some(AppAction::BrowserAction(BrowserAction::SetTopArtists(artists))),
            Err(_) => None,
        }),
{
    match answer {
        Ok(artists) => Some(AppAction::BrowserAction(BrowserAction::SetTopArtists(artists))),
        Err(_) => None,
    }
}

/// What follows from the top tracks; nothing if they could not be read.
pub fn top_tracks_read(answer: SpotifyResult<Vec<SongDescription>>) -> (r: Option<AppAction>)
    ensures
        r == (match answer {
            Ok(songs) => Some(AppAction::BrowserAction(BrowserAction::SetTopTracks(songs))),
            Err(_) => None,
        }),
{
    match answer {
        Ok(songs) => Some(AppAction::BrowserAction(BrowserAction::SetTopTracks(songs))),
        Err(_) => None,
    }
}

/// What follows from the saved albums; nothing if they could not be read.
pub fn saved_albums_read(answer: SpotifyResult<Vec<AlbumDescription>>) -> (r: Option<AppAction>)
    ensures
        r == (match answer {
            Ok(albums) => Some(AppAction::BrowserAction(BrowserAction::SetLibraryContent(albums))),
            Err(_) => None,
        }),
{
    match answer {
        Ok(albums) => Some(AppAction::BrowserAction(BrowserAction::SetLibraryContent(albums))),
        Err(_) => None,
    }
}

/// What follows from the artists of whom the first is the seed.
#[derive(Debug, PartialEq, Eq)]
pub enum SeedStep {
    /// The albums of the seed are to be read.
    ReadAlbums { name: String, call: ApiCall },
    /// There is no seed: the shelf is emptied.
    Clear(AppAction),
    /// The artists could not be read: the shelf stays as it is.
    Leave,
}

/// What follows from the artists of whom the first is the seed.
pub fn seed_artists_read(answer: SpotifyResult<Vec<ArtistSummary>>) -> (r: SeedStep)
    ensures
        match answer {
            Err(_) => r is Leave,
            Ok(artists) => if artists@.len() == 0 {
                r matches SeedStep::Clear(action) && action.deep_view()
                    == AppActionView::BrowserAction(
                    BrowserActionView::SetMadeForYou(Seq::empty(), Seq::empty()),
                )
            } else {
                r matches SeedStep::ReadAlbums { name, call } && name == artists@[0].name
                    && call.deep_view() == (ApiCallView::GetArtistAlbums {
                    id: artists@[0].id@,
                    offset: 0,
                    limit: MADE_FOR_YOU_LIMIT,
                })
            },
        },
{
    match answer {
        Err(_) => SeedStep::Leave,
        Ok(artists) => if artists.len() == 0 {
            let none: Vec<AlbumDescription> = Vec::new();
            let name: String = String::new();
            proof {
                assert(none.deep_view() =~= Seq::<AlbumDescriptionView>::empty());
                assert(name@ =~= Seq::<char>::empty());
            }
            SeedStep::Clear(AppAction::BrowserAction(BrowserAction::SetMadeForYou(name, none)))
        } else {
            SeedStep::ReadAlbums {
                name: artists[0].name.clone(),
                call: ApiCall::GetArtistAlbums {
                    id: artists[0].id.clone(),
                    offset: 0,
                    limit: MADE_FOR_YOU_LIMIT,
                },
            }
        },
    }
}

/// What follows from the albums of the seed; nothing if they could not be read.
pub fn seed_albums_read(
    name: String,
    answer: SpotifyResult<Vec<AlbumDescription>>,
) -> (r: Option<AppAction>)
    ensures
        r == (match answer {
            Ok(albums) => Some(AppAction::BrowserAction(BrowserAction::SetMadeForYou(name, albums))),
            Err(_) => None,
        }),
{
    match answer {
        Ok(albums) => Some(AppAction::BrowserAction(BrowserAction::SetMadeForYou(name, albums))),
        Err(_) => None,
    }
}

// ── The shelves ────────────────────────────────────────────────────────────

/// A shelf of the feed.
#[derive(Clone, Copy, Debug, PartialEq, Eq, Structural)]
pub enum Shelf {
    JumpBackIn,
    RecentlyPlayed,
    TopArtists,
    TopTracks,
    MadeForYou,
    Library,
}

/// The shelves from top to bottom.
pub open spec fn shelf_order() -> Seq<Shelf> {
    seq![
        Shelf::JumpBackIn,
        Shelf::RecentlyPlayed,
        Shelf::TopArtists,
        Shelf::TopTracks,
        Shelf::MadeForYou,
        Shelf::Library,
    ]
}

impl Shelf {
    /// The place of the shelf, counted from the top.
    pub open spec fn place(self) -> int {
        match self {
            Shelf::JumpBackIn => 0,
            Shelf::RecentlyPlayed => 1,
            Shelf::TopArtists => 2,
            Shelf::TopTracks => 3,
            Shelf::MadeForYou => 4,
            Shelf::Library => 5,
        }
    }

    /// The place of the shelf, counted from the top.
    pub fn index(self) -> (r: usize)
        ensures
            r == self.place(),
            r < 6,
    {
        match self {
            Shelf::JumpBackIn => 0,
            Shelf::RecentlyPlayed => 1,
            Shelf::TopArtists => 2,
            Shelf::TopTracks => 3,
            Shelf::MadeForYou => 4,
            Shelf::Library => 5,
        }
    }

    /// The message id of the title of the shelf; the shelf that follows an artist
    /// has none of its own.
    pub open spec fn spec_msgid(self) -> Option<Seq<char>> {
        match self {
            Shelf::JumpBackIn => Some("Jump back in"@),
            Shelf::RecentlyPlayed => Some("Recently played"@),
            Shelf::TopArtists => Some("Your top artists"@),
            Shelf::TopTracks => Some("Your top tracks"@),
            Shelf::MadeForYou => None,
            Shelf::Library => Some("From your library"@),
        }
    }

    /// The message id of the title of the shelf.
    pub fn msgid(self) -> (r: Option<&'static str>)
        ensures
            match (r, self.spec_msgid()) {
                (Some(id), Some(message)) => id@ == message,
                (None, None) => true,
                _ => false,
            },
            r matches Some(id) ==> text::no_nul(id@),
    {
        proof {
            reveal_strlit("Jump back in");
            reveal_strlit("Recently played");
            reveal_strlit("Your top artists");
            reveal_strlit("Your top tracks");
            reveal_strlit("From your library");
        }
        match self {
            Shelf::JumpBackIn => Some("Jump back in"),
            Shelf::RecentlyPlayed => Some("Recently played"),
            Shelf::TopArtists => Some("Your top artists"),
            Shelf::TopTracks => Some("Your top tracks"),
            Shelf::MadeForYou => None,
            Shelf::Library => Some("From your library"),
        }
    }
}

/// The cards of a shelf.
pub open spec fn shelf_cards(home: Option<HomeState>, shelf: Shelf) -> Seq<CardModelView> {
    match home {
        None => Seq::empty(),
        Some(home) => match shelf {
            Shelf::JumpBackIn => home.jump_back_in.deep_view(),
            Shelf::RecentlyPlayed => home.recently_played.deep_view(),
            Shelf::TopArtists => home.top_artists.deep_view(),
            Shelf::TopTracks => home.top_tracks.deep_view(),
            Shelf::MadeForYou => home.made_for_you.deep_view(),
            Shelf::Library => home.albums.deep_view(),
        },
    }
}

/// The cards of the shortcuts: the liked songs and the sources played last.
pub open spec fn shortcut_cards(
    home: Option<HomeState>,
    liked: CardModelView,
) -> Seq<CardModelView> {
    let recent = match home {
        None => Seq::empty(),
        Some(home) => home.jump_back_in.deep_view(),
    };
    seq![liked] + recent.take(
        if recent.len() < SHORTCUTS {
            recent.len() as int
        } else {
            SHORTCUTS as int
        },
    )
}

/// The text is a title of the shelf that follows an artist: a translation of
/// "Because you listen to {}" with the name in it, or one of "Made for you" where
/// there is no artist.
pub open spec fn is_seed_title(title: Seq<char>, seed: Seq<char>) -> bool {
    if seed.len() == 0 {
        text::translates(title, "Made for you"@)
    } else {
        exists|template: Seq<char>|
            text::translates(template, "Because you listen to {}"@) && title
                == #[trigger] text::filled(template, seed)
    }
}

/// The title of the shelf that follows an artist.
pub fn made_for_you_title(seed: &str) -> (r: String)
    ensures
        is_seed_title(r@, seed@),
{
    proof {
        reveal_strlit("Made for you");
        reveal_strlit("Because you listen to {}");
    }
    if seed.is_empty() {
        gettext("Made for you")
    } else {
        let template: String = gettext("Because you listen to {}");
        fill(template.as_str(), seed)
    }
}

/// A shelf as it is shown. A shelf without cards is hidden.
#[derive(Debug, PartialEq, Eq)]
pub struct Section {
    pub shelf: Shelf,
    pub title: String,
    pub cards: Vec<CardModel>,
    pub visible: bool,
}

impl Section {
    /// The shelf is shown as the state has it.
    pub open spec fn shows(self, home: Option<HomeState>) -> bool {
        &&& self.cards.deep_view() == shelf_cards(home, self.shelf)
        &&& self.visible == (self.cards@.len() > 0)
    }

    /// The title is one that the shelf can have after it had another.
    pub open spec fn title_follows(self, before: Section, home: Option<HomeState>) -> bool {
        match home {
            Some(home) if self.shelf == Shelf::MadeForYou => is_seed_title(
                self.title@,
                home.made_for_you_artist@,
            ),
            _ => self.title == before.title,
        }
    }

    /// The title is the one that the shelf starts with and keeps unless it follows an
    /// artist.
    pub open spec fn titled(self, home: Option<HomeState>) -> bool {
        match (self.shelf.spec_msgid(), home) {
            (Some(message), _) => text::translates(self.title@, message),
            (None, Some(home)) => is_seed_title(self.title@, home.made_for_you_artist@),
            (None, None) => self.title@.len() == 0,
        }
    }

    /// An empty shelf, hidden.
    pub fn empty(shelf: Shelf) -> (r: Section)
        ensures
            r.shelf == shelf,
            r.cards@.len() == 0,
            !r.visible,
            match shelf.spec_msgid() {
                Some(message) => text::translates(r.title@, message),
                None => r.title@.len() == 0,
            },
    {
        let title: String = match shelf.msgid() {
            Some(id) => gettext(id),
            None => String::new(),
        };
        Section { shelf, title, cards: Vec::new(), visible: false }
    }

    /// Fills the shelf anew.
    pub fn rebuild(&mut self, home: Option<&HomeState>)
        ensures
            final(self).shelf == old(self).shelf,
            match home {
                Some(home) => final(self).shows(Some(*home)) && final(self).title_follows(
                    *old(self),
                    Some(*home),
                ),
                None => final(self).shows(None) && final(self).title == old(self).title,
            },
    {
        match home {
            None => {
                self.cards = Vec::new();
                assert(self.cards.deep_view() =~= Seq::<CardModelView>::empty());
            },
            Some(home) => {
                self.cards = match self.shelf {
                    Shelf::JumpBackIn => home.jump_back_in.clone(),
                    Shelf::RecentlyPlayed => home.recently_played.clone(),
                    Shelf::TopArtists => home.top_artists.clone(),
                    Shelf::TopTracks => home.top_tracks.clone(),
                    Shelf::MadeForYou => home.made_for_you.clone(),
                    Shelf::Library => home.albums.clone(),
                };
                if matches!(self.shelf, Shelf::MadeForYou) {
                    self.title = made_for_you_title(home.made_for_you_artist.as_str());
                }
            },
        }
        self.visible = self.cards.len() > 0;
    }
}

/// The shape of the picture of a card: artists are round.
pub fn card_shape(card: &CardModel) -> (r: ImageShape)
    ensures
        r == (if card.kind == CardKind::Artist {
            ImageShape::Round
        } else {
            ImageShape::Square
        }),
{
    match card.kind {
        CardKind::Artist => ImageShape::Round,
        _ => ImageShape::Square,
    }
}

/// The home feed as it is shown.
#[derive(Debug, PartialEq, Eq)]
pub struct HomeScreen {
    pub model: HomeFeedModel,
    pub shortcuts: Vec<CardModel>,
    pub sections: Vec<Section>,
}

/// What an event asks of the feed.
#[derive(Clone, Copy, Debug, PartialEq, Eq, Structural)]
pub enum FeedTask {
    /// Read everything anew.
    Refresh,
    /// Draw everything anew.
    RebuildAll,
    /// Draw the shortcuts and the shelves of what was played last anew.
    RebuildRecent,
    /// Draw one shelf anew.
    Rebuild(Shelf),
    Nothing,
}

/// What an event asks of the feed.
pub open spec fn feed_task(event: AppEvent) -> FeedTask {
    match event {
        AppEvent::Started => FeedTask::Refresh,
        AppEvent::LoginEvent(LoginEvent::LoginCompleted) => FeedTask::Refresh,
        AppEvent::LoginEvent(LoginEvent::LogoutCompleted) => FeedTask::RebuildAll,
        AppEvent::BrowserEvent(BrowserEvent::RecentlyPlayedUpdated) => FeedTask::RebuildRecent,
        AppEvent::BrowserEvent(BrowserEvent::TopArtistsUpdated) => FeedTask::Rebuild(
            Shelf::TopArtists,
        ),
        AppEvent::BrowserEvent(BrowserEvent::TopTracksUpdated) => FeedTask::Rebuild(
            Shelf::TopTracks,
        ),
        AppEvent::BrowserEvent(BrowserEvent::MadeForYouUpdated) => FeedTask::Rebuild(
            Shelf::MadeForYou,
        ),
        AppEvent::BrowserEvent(BrowserEvent::LibraryUpdated) => FeedTask::Rebuild(Shelf::Library),
        _ => FeedTask::Nothing,
    }
}

/// What an event asks of the feed.
pub fn feed_task_of(event: &AppEvent) -> (r: FeedTask)
    ensures
        r == feed_task(*event),
{
    match event {
        AppEvent::Started => FeedTask::Refresh,
        AppEvent::LoginEvent(LoginEvent::LoginCompleted) => FeedTask::Refresh,
        AppEvent::LoginEvent(LoginEvent::LogoutCompleted) => FeedTask::RebuildAll,
        AppEvent::BrowserEvent(BrowserEvent::RecentlyPlayedUpdated) => FeedTask::RebuildRecent,
        AppEvent::BrowserEvent(BrowserEvent::TopArtistsUpdated) => FeedTask::Rebuild(
            Shelf::TopArtists,
        ),
        AppEvent::BrowserEvent(BrowserEvent::TopTracksUpdated) => FeedTask::Rebuild(
            Shelf::TopTracks,
        ),
        AppEvent::BrowserEvent(BrowserEvent::MadeForYouUpdated) => FeedTask::Rebuild(
            Shelf::MadeForYou,
        ),
        AppEvent::BrowserEvent(BrowserEvent::LibraryUpdated) => FeedTask::Rebuild(Shelf::Library),
        _ => FeedTask::Nothing,
    }
}

/// Whether the shelf is drawn anew.
pub open spec fn redraws(task: FeedTask, shelf: Shelf) -> bool {
    match task {
        FeedTask::RebuildAll => true,
        FeedTask::RebuildRecent => shelf == Shelf::JumpBackIn || shelf == Shelf::RecentlyPlayed,
        FeedTask::Rebuild(one) => shelf == one,
        _ => false,
    }
}

/// Whether the shortcuts are drawn anew.
pub open spec fn redraws_shortcuts(task: FeedTask) -> bool {
    task == FeedTask::RebuildAll || task == FeedTask::RebuildRecent
}

impl HomeScreen {
    /// All shelves are there, in their order.
    pub open spec fn wf(self) -> bool {
        self.sections@.map_values(|s: Section| s.shelf) == shelf_order()
    }

    /// The shortcuts are shown as the state has them.
    pub open spec fn shortcuts_shown(self) -> bool {
        exists|title: Seq<char>|
            library::is_liked_title(title) && self.shortcuts.deep_view() == shortcut_cards(
                self.model.home(),
                #[trigger] library::liked_card(title),
            )
    }

    /// The feed, with all shelves filled.
    pub fn new(model: HomeFeedModel) -> (r: HomeScreen)
        ensures
            r.model == model,
            r.wf(),
            r.shortcuts_shown(),
            forall|i: int|
                0 <= i < 6 ==> (#[trigger] r.sections@[i]).shows(model.home())
                    && r.sections@[i].titled(model.home()),
    {
        let sections: Vec<Section> = vec![
            Section::empty(Shelf::JumpBackIn),
            Section::empty(Shelf::RecentlyPlayed),
            Section::empty(Shelf::TopArtists),
            Section::empty(Shelf::TopTracks),
            Section::empty(Shelf::MadeForYou),
            Section::empty(Shelf::Library),
        ];
        let mut r = HomeScreen { model, shortcuts: Vec::new(), sections };
        let ghost start = r;
        let ghost kinds = shelf_order();
        assert(r.sections@.map_values(|s: Section| s.shelf) =~= kinds);
        r.run(FeedTask::RebuildAll);
        proof {
            let shelves = r.sections@.map_values(|s: Section| s.shelf);
            assert forall|i: int| 0 <= i < 6 implies (#[trigger] r.sections@[i]).titled(
                model.home(),
            ) by {
                assert(shelves[i] == kinds[i]);
                assert(r.sections@[i].shelf == kinds[i]);
                assert(start.sections@[i].shelf == kinds[i]);
                assert(redraws(FeedTask::RebuildAll, kinds[i]));
                assert(r.sections@[i].title_follows(start.sections@[i], model.home()));
            }
        }
        r
    }

    /// Draws the shortcuts anew.
    pub fn rebuild_shortcuts(&mut self)
        ensures
            *final(self) == (HomeScreen { shortcuts: final(self).shortcuts, ..*old(self) }),
            final(self).shortcuts_shown(),
    {
        let liked = liked_songs_card();
        let ghost title = liked.title@;
        let mut cards: Vec<CardModel> = vec![liked];
        assert(cards.deep_view() =~= seq![library::liked_card(title)]);
        match self.model.state() {
            None => {
                assert(cards.deep_view() =~= shortcut_cards(None, library::liked_card(title)));
            },
            Some(home) => {
                let ghost recent = home.jump_back_in.deep_view();
                let count: usize = if home.jump_back_in.len() < SHORTCUTS {
                    home.jump_back_in.len()
                } else {
                    SHORTCUTS
                };
                let mut i: usize = 0;
                assert(cards.deep_view() =~= seq![library::liked_card(title)] + recent.take(0));
                while i < count
                    invariant
                        i <= count <= home.jump_back_in.len(),
                        recent == home.jump_back_in.deep_view(),
                        cards.deep_view() == seq![library::liked_card(title)] + recent.take(
                            i as int,
                        ),
                    decreases count - i,
                {
                    let ghost before = cards;
                    let card = home.jump_back_in[i].clone();
                    cards.push(card);
                    proof {
                        lists::lemma_deep_push(before, cards, card);
                        lists::lemma_take_push(recent, i as int);
                        assert(cards.deep_view() =~= seq![library::liked_card(title)]
                            + recent.take(i + 1));
                    }
                    i += 1;
                }
            },
        }
        self.shortcuts = cards;
    }

    /// Draws one shelf anew.
    pub fn rebuild_shelf(&mut self, shelf: Shelf)
        requires
            old(self).wf(),
        ensures
            final(self).wf(),
            final(self).model == old(self).model,
            final(self).shortcuts == old(self).shortcuts,
            forall|i: int|
                0 <= i < 6 && i != shelf.place() ==> #[trigger] final(self).sections@[i] == old(
                    self,
                ).sections@[i],
            final(self).sections@[shelf.place()].shows(old(self).model.home()),
            final(self).sections@[shelf.place()].title_follows(
                old(self).sections@[shelf.place()],
                old(self).model.home(),
            ),
    {
        let at: usize = shelf.index();
        assert(self.sections@.map_values(|s: Section| s.shelf).len() == 6);
        let ghost kinds = self.sections@.map_values(|s: Section| s.shelf);
        self.sections[at].rebuild(self.model.app_model.state.browser.home.as_ref());
        assert(self.sections@.map_values(|s: Section| s.shelf) =~= kinds);
    }

    /// Does what an event asks.
    pub fn run(&mut self, task: FeedTask)
        requires
            old(self).wf(),
        ensures
            final(self).wf(),
            final(self).model.wants(
                old(self).model,
                if task == FeedTask::Refresh {
                    feed_calls()
                } else {
                    Seq::empty()
                },
            ),
            if redraws_shortcuts(task) {
                final(self).shortcuts_shown()
            } else {
                final(self).shortcuts == old(self).shortcuts
            },
            forall|i: int|
                0 <= i < 6 ==> if redraws(task, shelf_order()[i]) {
                    (#[trigger] final(self).sections@[i]).shows(old(self).model.home())
                        && final(self).sections@[i].title_follows(
                        old(self).sections@[i],
                        old(self).model.home(),
                    )
                } else {
                    final(self).sections@[i] == old(self).sections@[i]
                },
            task != FeedTask::Refresh ==> final(self).model == old(self).model,
    {
        match task {
            FeedTask::Refresh => self.model.refresh_feed(),
            FeedTask::RebuildAll => {
                self.rebuild_shortcuts();
                self.rebuild_shelf(Shelf::JumpBackIn);
                self.rebuild_shelf(Shelf::RecentlyPlayed);
                self.rebuild_shelf(Shelf::TopArtists);
                self.rebuild_shelf(Shelf::TopTracks);
                self.rebuild_shelf(Shelf::MadeForYou);
                self.rebuild_shelf(Shelf::Library);
            },
            FeedTask::RebuildRecent => {
                self.rebuild_shortcuts();
                self.rebuild_shelf(Shelf::JumpBackIn);
                self.rebuild_shelf(Shelf::RecentlyPlayed);
            },
            FeedTask::Rebuild(shelf) => self.rebuild_shelf(shelf),
            FeedTask::Nothing => {},
        }
        proof {
            if task != FeedTask::Refresh {
                assert(self.model.dispatcher@ =~= old(self).model.dispatcher@ + Seq::<
                    EffectView,
                >::empty());
            }
        }
    }

    /// What an event does to the feed.
    pub fn on_event(&mut self, event: &AppEvent)
        requires
            old(self).wf(),
        ensures
            final(self).wf(),
            final(self).model.wants(
                old(self).model,
                if feed_task(*event) == FeedTask::Refresh {
                    feed_calls()
                } else {
                    Seq::empty()
                },
            ),
            if redraws_shortcuts(feed_task(*event)) {
                final(self).shortcuts_shown()
            } else {
                final(self).shortcuts == old(self).shortcuts
            },
            forall|i: int|
                0 <= i < 6 ==> if redraws(feed_task(*event), shelf_order()[i]) {
                    (#[trigger] final(self).sections@[i]).shows(old(self).model.home())
                        && final(self).sections@[i].title_follows(
                        old(self).sections@[i],
                        old(self).model.home(),
                    )
                } else {
                    final(self).sections@[i] == old(self).sections@[i]
                },
    {
        self.run(feed_task_of(event));
    }
}

/// The layout and size of the cards on the shelves.
pub fn shelf_card_style() -> (r: (CardLayout, CardSize))
    ensures
        r == (CardLayout::Vertical, CardSize::Medium),
{
    (CardLayout::Vertical, CardSize::Medium)
}

/// The layout and size of the shortcuts.
pub fn shortcut_style() -> (r: (CardLayout, CardSize))
    ensures
        r == (CardLayout::Horizontal, CardSize::Small),
{
    (CardLayout::Horizontal, CardSize::Small)
}

// ── Laws ───────────────────────────────────────────────────────────────────

/// On a feed whose shelves are all filled, each shelf stands under its own title and
/// shows the list of the state that the title names, card by card: what to jump back
/// in to, what was played, the top artists, the top tracks, the mix and the saved
/// albums, from top to bottom. A shelf is shown if its list is not empty.
pub proof fn law_every_shelf_shows_its_list(screen: HomeScreen, home: HomeState)
    requires
        screen.wf(),
        screen.model.app_model.state.browser.home == Some(home),
        forall|i: int|
            0 <= i < 6 ==> (#[trigger] screen.sections@[i]).shows(screen.model.home())
                && screen.sections@[i].titled(screen.model.home()),
    ensures
        screen.sections@.len() == 6,
        text::translates(screen.sections@[0].title@, "Jump back in"@),
        screen.sections@[0].cards.deep_view() == home.jump_back_in.deep_view(),
        text::translates(screen.sections@[1].title@, "Recently played"@),
        screen.sections@[1].cards.deep_view() == home.recently_played.deep_view(),
        text::translates(screen.sections@[2].title@, "Your top artists"@),
        screen.sections@[2].cards.deep_view() == home.top_artists.deep_view(),
        text::translates(screen.sections@[3].title@, "Your top tracks"@),
        screen.sections@[3].cards.deep_view() == home.top_tracks.deep_view(),
        home.made_for_you_artist@.len() == 0 ==> text::translates(
            screen.sections@[4].title@,
            "Made for you"@,
        ),
        home.made_for_you_artist@.len() > 0 ==> exists|template: Seq<char>|
            text::translates(template, "Because you listen to {}"@)
                && screen.sections@[4].title@ == #[trigger] text::filled(
                template,
                home.made_for_you_artist@,
            ),
        screen.sections@[4].cards.deep_view() == home.made_for_you.deep_view(),
        text::translates(screen.sections@[5].title@, "From your library"@),
        screen.sections@[5].cards.deep_view() == home.albums.deep_view(),
        forall|i: int|
            0 <= i < 6 ==> (#[trigger] screen.sections@[i]).visible == (
            screen.sections@[i].cards@.len() > 0),
{
    let shelves = screen.sections@.map_values(|s: Section| s.shelf);
    let kinds = shelf_order();
    assert(shelves.len() == 6);
    assert forall|i: int| 0 <= i < 6 implies (#[trigger] screen.sections@[i]).shelf
        == kinds[i] by {
        assert(shelves[i] == kinds[i]);
    }
    assert(screen.sections@[0].shows(Some(home)) && screen.sections@[0].titled(Some(home)));
    assert(screen.sections@[1].shows(Some(home)) && screen.sections@[1].titled(Some(home)));
    assert(screen.sections@[2].shows(Some(home)) && screen.sections@[2].titled(Some(home)));
    assert(screen.sections@[3].shows(Some(home)) && screen.sections@[3].titled(Some(home)));
    assert(screen.sections@[4].shows(Some(home)) && screen.sections@[4].titled(Some(home)));
    assert(screen.sections@[5].shows(Some(home)) && screen.sections@[5].titled(Some(home)));
}

/// A shelf that is filled anew shows the list of the state that it is for.
pub proof fn law_rebuilt_shelf_shows_its_list(section: Section, home: HomeState)
    requires
        section.shows(Some(home)),
    ensures
        section.shelf == Shelf::JumpBackIn ==> section.cards.deep_view()
            == home.jump_back_in.deep_view(),
        section.shelf == Shelf::RecentlyPlayed ==> section.cards.deep_view()
            == home.recently_played.deep_view(),
        section.shelf == Shelf::TopArtists ==> section.cards.deep_view()
            == home.top_artists.deep_view(),
        section.shelf == Shelf::TopTracks ==> section.cards.deep_view()
            == home.top_tracks.deep_view(),
        section.shelf == Shelf::MadeForYou ==> section.cards.deep_view()
            == home.made_for_you.deep_view(),
        section.shelf == Shelf::Library ==> section.cards.deep_view() == home.albums.deep_view(),
        section.visible == (section.cards@.len() > 0),
{
}

/// A change of a list draws the shelf of that list anew and no other; what was
/// played last is shown on two shelves and as shortcuts; a logout draws everything.
pub proof fn law_changes_redraw_their_shelf(event: AppEvent, shelf: Shelf)
    ensures
        redraws(feed_task(event), shelf) <==> {
            ||| event == AppEvent::LoginEvent(LoginEvent::LogoutCompleted)
            ||| event == AppEvent::BrowserEvent(BrowserEvent::RecentlyPlayedUpdated) && (shelf
                == Shelf::JumpBackIn || shelf == Shelf::RecentlyPlayed)
            ||| event == AppEvent::BrowserEvent(BrowserEvent::TopArtistsUpdated) && shelf
                == Shelf::TopArtists
            ||| event == AppEvent::BrowserEvent(BrowserEvent::TopTracksUpdated) && shelf
                == Shelf::TopTracks
            ||| event == AppEvent::BrowserEvent(BrowserEvent::MadeForYouUpdated) && shelf
                == Shelf::MadeForYou
            ||| event == AppEvent::BrowserEvent(BrowserEvent::LibraryUpdated) && shelf
                == Shelf::Library
        },
        redraws_shortcuts(feed_task(event)) <==> (event == AppEvent::LoginEvent(
            LoginEvent::LogoutCompleted,
        ) || event == AppEvent::BrowserEvent(BrowserEvent::RecentlyPlayedUpdated)),
        feed_task(event) == FeedTask::Refresh <==> (event is Started || event
            == AppEvent::LoginEvent(LoginEvent::LoginCompleted)),
{
}

/// A feed that is read anew asks for twenty plays, top artists, top tracks and saved
/// albums, and for the artists of the mix.
pub proof fn law_feed_asks_for_every_shelf(before: HomeFeedModel, after: HomeFeedModel)
    requires
        after.wants(before, feed_calls()),
    ensures
        after.dispatcher@ == before.dispatcher@ + seq![
            EffectView::Call(ApiCallView::RecentlyPlayed(20)),
            EffectView::Call(ApiCallView::GetTopArtists(20)),
            EffectView::Call(ApiCallView::GetTopTracks(20)),
            EffectView::Call(ApiCallView::GetSavedAlbums { offset: 0, limit: 20 }),
            EffectView::Call(ApiCallView::GetSeedArtists(20)),
        ],
{
}

/// A card of the feed opens the page of what it stands for: the liked songs by
/// their own id, whatever the kind; artists, playlists and otherwise albums by theirs.
pub proof fn law_feed_cards_open_their_page(id: Seq<char>, kind: CardKind)
    ensures
        id == LIKED_SONGS_ID@ ==> open_card(id, kind) == AppActionView::BrowserAction(
            BrowserActionView::NavigationPush(ScreenNameView::SavedTracks),
        ),
        id != LIKED_SONGS_ID@ && kind == CardKind::Artist ==> open_card(id, kind)
            == AppActionView::ViewArtist(id),
        id != LIKED_SONGS_ID@ && kind == CardKind::Playlist ==> open_card(id, kind)
            == AppActionView::ViewPlaylist(id),
        id != LIKED_SONGS_ID@ && (kind == CardKind::Album || kind == CardKind::Untyped)
            ==> open_card(id, kind) == AppActionView::ViewAlbum(id),
{
}

/// The shortcuts are the liked songs and then the first five of what was played
/// last, in order.
pub proof fn law_shortcuts_are_what_was_played_last(screen: HomeScreen, home: HomeState, i: int)
    requires
        screen.shortcuts_shown(),
        screen.model.app_model.state.browser.home == Some(home),
        0 <= i < home.jump_back_in@.len(),
    ensures
        screen.shortcuts@.len() == 1 + (if home.jump_back_in@.len() < 5 {
            home.jump_back_in@.len()
        } else {
            5
        }),
        screen.shortcuts@[0].id@ == LIKED_SONGS_ID@,
        text::translates(screen.shortcuts@[0].title@, "Liked Songs"@) || text::translates(
            screen.shortcuts@[0].title@,
            "Untitled"@,
        ),
        i < 5 ==> screen.shortcuts@[i + 1].deep_view() == home.jump_back_in@[i].deep_view(),
{
    let title = choose|title: Seq<char>|
        library::is_liked_title(title) && screen.shortcuts.deep_view() == shortcut_cards(
            screen.model.home(),
            #[trigger] library::liked_card(title),
        );
    let shown = screen.shortcuts.deep_view();
    assert(shown.len() == screen.shortcuts@.len());
    assert(home.jump_back_in.deep_view().len() == home.jump_back_in@.len());
    assert(shown[0] == screen.shortcuts@[0].deep_view());
    if i < 5 {
        assert(shown[i + 1] == screen.shortcuts@[i + 1].deep_view());
        assert(home.jump_back_in.deep_view()[i] == home.jump_back_in@[i].deep_view());
    }
}

/// The shelves stand in this order, each at its own place.
pub proof fn law_shelves_have_their_place(shelf: Shelf)
    ensures
        shelf_order() == seq![
            Shelf::JumpBackIn,
            Shelf::RecentlyPlayed,
            Shelf::TopArtists,
            Shelf::TopTracks,
            Shelf::MadeForYou,
            Shelf::Library,
        ],
        0 <= shelf.place() < shelf_order().len(),
        shelf_order()[shelf.place()] == shelf,
{
}

/// The shelf that follows an artist is titled after that artist, and after nobody where
/// there is none; no other shelf changes its title.
pub proof fn law_shelf_is_titled_after_its_artist(
    before: Section,
    after: Section,
    home: HomeState,
)
    requires
        after.title_follows(before, Some(home)),
    ensures
        after.shelf != Shelf::MadeForYou ==> after.title == before.title,
        after.shelf == Shelf::MadeForYou && home.made_for_you_artist@.len() == 0
            ==> text::translates(after.title@, "Made for you"@),
        after.shelf == Shelf::MadeForYou && home.made_for_you_artist@.len() > 0 ==> exists|
            template: Seq<char>,
        |
            text::translates(template, "Because you listen to {}"@) && after.title@
                == #[trigger] text::filled(template, home.made_for_you_artist@),
{
}

/// The shelves are as long as this.
pub proof fn law_shelves_have_a_length()
    ensures
        RECENTLY_PLAYED_LIMIT == 20,
        TOP_ARTISTS_LIMIT == 20,
        TOP_TRACKS_LIMIT == 20,
        SAVED_ALBUMS_LIMIT == 20,
        MADE_FOR_YOU_LIMIT == 10,
        SHORTCUTS == 5,
{
}

} // verus!
