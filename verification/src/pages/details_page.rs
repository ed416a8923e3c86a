//! What all pages with a list of songs have in common.

use vstd::prelude::*;

use crate::actions;
use crate::actions::{
    ActionDispatcher, ApiCall, ApiCallView, AppAction, AppActionView, AppEvent, BrowserAction,
    BrowserActionView, EffectView, PlaybackAction, PlaybackActionView, PlaybackEvent,
    PaginationTarget, PaginationTargetView, SelectionAction, SelectionActionView,
    SelectionContext, SongsSource, SongsSourceView,
};
use crate::api::cached_client::{SpotifyApiError, SpotifyResult};
use crate::models::{SongBatch, SongBatchView, SongDescription, SongDescriptionView};
use crate::song_list;
use crate::song_list::SongListModel;
use crate::state::{AppModel, AppState, SelectionState};

verus! {

/// `rand::random`: some number. Nothing is claimed of it.
#[verifier::external_body]
pub(crate) fn random_number() -> (r: usize) {
    rand::random::<usize>()
}

/// Whether an event says that playback goes on (`true`) or stops (`false`);
/// `None` if it says neither.
pub fn is_playback_event(event: &AppEvent) -> (r: Option<bool>)
    ensures
        r == (match event {
            AppEvent::PlaybackEvent(PlaybackEvent::PlaybackPaused) => Some(false),
            AppEvent::PlaybackEvent(PlaybackEvent::PlaybackResumed) => Some(true),
            AppEvent::PlaybackEvent(PlaybackEvent::TrackChanged(_)) => Some(true),
            _ => None,
        }),
{
    match event {
        AppEvent::PlaybackEvent(PlaybackEvent::PlaybackPaused) => Some(false),
        AppEvent::PlaybackEvent(PlaybackEvent::PlaybackResumed) => Some(true),
        AppEvent::PlaybackEvent(PlaybackEvent::TrackChanged(_)) => Some(true),
        _ => None,
    }
}

/// The song that playback starts with: its position and its id.
pub type StartSong = Option<(usize, String)>;

/// The position that playback starts at, in a list that is not empty: the first,
/// or with shuffling any, by the number drawn.
pub open spec fn start_position(shuffle: bool, len: int, draw: int) -> int {
    if shuffle {
        draw % len
    } else {
        0
    }
}

/// `start` is where playback of the songs starts, given the number drawn:
/// nowhere if there are no songs.
pub open spec fn is_start(
    start: StartSong,
    songs: Seq<SongDescriptionView>,
    shuffle: bool,
    draw: int,
) -> bool {
    match start {
        Some((i, id)) => {
            &&& songs.len() > 0
            &&& i == start_position(shuffle, songs.len() as int, draw)
            &&& i < songs.len()
            &&& id@ == songs[i as int].id
        },
        None => songs.len() == 0,
    }
}

/// Where playback of the songs starts, given the number drawn.
pub fn start_song(shuffle: bool, songs: &SongListModel, draw: usize) -> (r: StartSong)
    ensures
        is_start(r, songs.deep_view(), shuffle, draw as int),
{
    let len: usize = songs.partial_len();
    if len == 0 {
        return None;
    }
    let i: usize = if shuffle {
        draw % len
    } else {
        0
    };
    assert(songs.deep_view()[i as int].id == songs.songs@[i as int].id@);
    Some((i, songs.songs[i].id.clone()))
}

/// A number to choose the first song by; without shuffling none is needed.
pub fn draw_if(shuffle: bool) -> (r: usize)
    ensures
        !shuffle ==> r == 0,
{
    if shuffle {
        random_number()
    } else {
        0
    }
}

/// The action that brings shuffling to the wanted state, if it is not there yet.
pub open spec fn shuffle_effects(is_shuffled: bool, shuffle: bool) -> Seq<EffectView> {
    if is_shuffled != shuffle {
        seq![actions::play(PlaybackActionView::ToggleShuffle)]
    } else {
        Seq::empty()
    }
}

/// What the play button does: pause or resume what is playing from this page, or
/// start it, unshuffled.
pub open spec fn toggle_effects(state: AppState, source_is_playing: bool) -> Seq<EffectView> {
    if !source_is_playing {
        shuffle_effects(state.playback.is_shuffled, false)
    } else if state.playback.is_playing {
        seq![actions::play(PlaybackActionView::Pause)]
    } else {
        seq![actions::play(PlaybackActionView::Play)]
    }
}

/// What starts a page of songs of the given source with the given song: the page
/// is loaded, then the song. Without a page nothing happens.
pub open spec fn play_effects(
    source: SongsSourceView,
    batch: Option<SongBatchView>,
    id: Seq<char>,
) -> Seq<EffectView> {
    match batch {
        Some(b) => seq![
            actions::play(PlaybackActionView::LoadPagedSongs(source, b)),
            actions::play(PlaybackActionView::Load(id)),
        ],
        None => Seq::empty(),
    }
}

/// What fetches the next page of a list.
pub open spec fn page_effects(target: PaginationTargetView, call: ApiCallView) -> Seq<EffectView> {
    seq![
        EffectView::UpdateState(BrowserActionView::ConsumeNextPage(target)),
        EffectView::Call(call),
    ]
}

/// The service does not know the item that a page is for.
pub open spec fn is_unknown_item(error: SpotifyApiError) -> bool {
    error matches SpotifyApiError::BadStatus(status, _) && (status == 400 || status == 404)
}

/// What a page does when its item could not be read: it closes if the service
/// does not know the item; any other error is reported.
pub fn page_failed(error: SpotifyApiError) -> (r: SpotifyResult<AppAction>)
    ensures
        is_unknown_item(error) ==> r == Ok::<AppAction, SpotifyApiError>(
            AppAction::BrowserAction(BrowserAction::NavigationPop),
        ),
        !is_unknown_item(error) ==> r == Err::<AppAction, SpotifyApiError>(error),
{
    match error {
        SpotifyApiError::BadStatus(400, _) => Ok(
            AppAction::BrowserAction(BrowserAction::NavigationPop),
        ),
        SpotifyApiError::BadStatus(404, _) => Ok(
            AppAction::BrowserAction(BrowserAction::NavigationPop),
        ),
        _ => Err(error),
    }
}

/// The shape of the picture in a page's header.
#[derive(Clone, Copy, Debug, PartialEq, Eq, Structural)]
pub enum HeaderImageShape {
    Square,
    Circle,
}

/// The data and the wishes of a page with a list of songs.
#[derive(Debug, PartialEq, Eq)]
pub struct DetailsPageModel {
    pub id: String,
    pub app_model: AppModel,
    pub dispatcher: ActionDispatcher,
}

impl DetailsPageModel {
    /// The page for the item with the given id.
    pub fn new(id: String, app_model: AppModel, dispatcher: ActionDispatcher) -> (r: Self)
        ensures
            r == (DetailsPageModel { id, app_model, dispatcher }),
    {
        DetailsPageModel { id, app_model, dispatcher }
    }

    /// A page that is for no item in particular.
    pub fn new_without_id(app_model: AppModel, dispatcher: ActionDispatcher) -> (r: Self)
        ensures
            r.id@ == Seq::<char>::empty(),
            r.app_model == app_model,
            r.dispatcher == dispatcher,
    {
        DetailsPageModel::new(String::new(), app_model, dispatcher)
    }

    /// The state.
    pub fn state(&self) -> (r: &AppState)
        ensures
            *r == self.app_model.state,
    {
        self.app_model.get_state()
    }

    /// What the page wants done.
    pub fn dispatcher(&self) -> (r: &ActionDispatcher)
        ensures
            *r == self.dispatcher,
    {
        &self.dispatcher
    }

    /// Only the wishes of the page changed: these were added.
    pub open spec fn wants(self, before: Self, added: Seq<EffectView>) -> bool {
        &&& self.id == before.id
        &&& self.app_model == before.app_model
        &&& self.dispatcher@ == before.dispatcher@ + added
    }

    /// Whether nothing is playing.
    pub fn is_paused(&self) -> (r: bool)
        ensures
            r == !self.app_model.state.playback.is_playing,
    {
        !self.state().playback.is_playing
    }

    /// Whether something is playing.
    pub fn is_playing(&self) -> (r: bool)
        ensures
            r == self.app_model.state.playback.is_playing,
    {
        self.state().playback.is_playing
    }

    /// Whether songs are played in random order.
    pub fn is_shuffled(&self) -> (r: bool)
        ensures
            r == self.app_model.state.playback.is_shuffled,
    {
        self.state().playback.is_shuffled
    }

    /// The id of the current song.
    pub fn current_song_id(&self) -> (r: Option<String>)
        ensures
            r.deep_view() == self.app_model.state.playback.spec_current_song_id(),
    {
        self.state().playback.current_song_id()
    }

    /// Wants the song no longer selected.
    pub fn deselect_song(&mut self, id: &str)
        ensures
            final(self).wants(
                *old(self),
                seq![actions::select(SelectionActionView::Deselect(seq![id@]))],
            ),
    {
        let mut ids: Vec<String> = Vec::new();
        ids.push(id.to_string());
        assert(ids.deep_view() =~= seq![id@]);
        self.dispatcher.dispatch(AppAction::SelectionAction(SelectionAction::Deselect(ids)));
        assert(self.dispatcher@ =~= old(self).dispatcher@ + seq![
            actions::select(SelectionActionView::Deselect(seq![id@])),
        ]);
    }

    /// Which songs are selected.
    pub fn selection(&self) -> (r: Option<&SelectionState>)
        ensures
            r == Some(&self.app_model.state.selection),
    {
        Some(&self.app_model.state.selection)
    }

    /// Wants the song selected, if it is in the list.
    pub fn select_song_from_list(&mut self, song_list: &SongListModel, id: &str)
        ensures
            final(self).wants(
                *old(self),
                match song_list::position_of(song_list.deep_view(), id@) {
                    Some(i) => seq![
                        actions::select(
                            SelectionActionView::Select(seq![song_list.deep_view()[i]]),
                        ),
                    ],
                    None => Seq::empty(),
                },
            ),
    {
        match song_list.get(id) {
            Some(song) => {
                let mut songs: Vec<SongDescription> = Vec::new();
                songs.push(song.clone());
                assert(songs.deep_view() =~= seq![song.deep_view()]);
                self.dispatcher.dispatch(
                    AppAction::SelectionAction(SelectionAction::Select(songs)),
                );
                assert(self.dispatcher@ =~= old(self).dispatcher@ + seq![
                    actions::select(SelectionActionView::Select(seq![song.deep_view()])),
                ]);
            },
            None => {
                assert(self.dispatcher@ =~= old(self).dispatcher@ + Seq::<EffectView>::empty());
            },
        }
    }

    /// Wants songs to be selectable, if the user has switched that on; `true` if so.
    pub fn enable_selection_with_context(&mut self, context: SelectionContext) -> (r: bool)
        ensures
            r == old(self).app_model.state.select_mode,
            final(self).wants(
                *old(self),
                if r {
                    seq![EffectView::Dispatch(AppActionView::EnableSelection(context.deep_view()))]
                } else {
                    Seq::empty()
                },
            ),
    {
        if !self.app_model.state.select_mode {
            assert(self.dispatcher@ =~= old(self).dispatcher@ + Seq::<EffectView>::empty());
            return false;
        }
        let ghost view = context.deep_view();
        self.dispatcher.dispatch(AppAction::EnableSelection(context));
        assert(self.dispatcher@ =~= old(self).dispatcher@ + seq![
            EffectView::Dispatch(AppActionView::EnableSelection(view)),
        ]);
        true
    }

    /// Wants shuffling in the given state.
    pub fn want_shuffle(&mut self, shuffle: bool)
        ensures
            final(self).wants(
                *old(self),
                shuffle_effects(old(self).app_model.state.playback.is_shuffled, shuffle),
            ),
    {
        if shuffle != self.is_shuffled() {
            self.dispatcher.dispatch(AppAction::PlaybackAction(PlaybackAction::ToggleShuffle));
        }
        assert(self.dispatcher@ =~= old(self).dispatcher@ + shuffle_effects(
            old(self).app_model.state.playback.is_shuffled,
            shuffle,
        ));
    }

    /// Wants what is playing paused or resumed.
    pub fn want_pause_or_resume(&mut self)
        ensures
            final(self).wants(*old(self), toggle_effects(old(self).app_model.state, true)),
    {
        if self.is_playing() {
            self.dispatcher.dispatch(AppAction::PlaybackAction(PlaybackAction::Pause));
        } else {
            self.dispatcher.dispatch(AppAction::PlaybackAction(PlaybackAction::Play));
        }
        assert(self.dispatcher@ =~= old(self).dispatcher@ + toggle_effects(
            old(self).app_model.state,
            true,
        ));
    }

    /// The play button: pauses or resumes what is playing from this page; if
    /// something else is playing, starts this page's songs, unshuffled. The song
    /// to start with is returned.
    pub fn toggle_playback(
        &mut self,
        source_is_playing: bool,
        song_list: &SongListModel,
    ) -> (r: StartSong)
        ensures
            final(self).wants(
                *old(self),
                toggle_effects(old(self).app_model.state, source_is_playing),
            ),
            source_is_playing ==> r is None,
            !source_is_playing ==> is_start(r, song_list.deep_view(), false, 0),
    {
        if !source_is_playing {
            self.start_playback_by(false, song_list, 0)
        } else {
            self.want_pause_or_resume();
            None
        }
    }

    /// The shuffle button: starts this page's songs in random order. The song to
    /// start with is returned; it is any of them.
    pub fn shuffle_playback(&mut self, song_list: &SongListModel) -> (r: StartSong)
        ensures
            final(self).wants(
                *old(self),
                shuffle_effects(old(self).app_model.state.playback.is_shuffled, true),
            ),
            exists|draw: int| 0 <= draw && #[trigger] is_start(r, song_list.deep_view(), true, draw),
    {
        self.start_playback(true, song_list)
    }

    /// Starts the songs. The song to start with is returned: the first, or with
    /// shuffling any.
    pub fn start_playback(&mut self, shuffle: bool, song_list: &SongListModel) -> (r: StartSong)
        ensures
            final(self).wants(
                *old(self),
                shuffle_effects(old(self).app_model.state.playback.is_shuffled, shuffle),
            ),
            exists|draw: int|
                0 <= draw && #[trigger] is_start(r, song_list.deep_view(), shuffle, draw),
    {
        let draw: usize = draw_if(shuffle);
        let r = self.start_playback_by(shuffle, song_list, draw);
        assert(is_start(r, song_list.deep_view(), shuffle, draw as int));
        r
    }

    /// Starts the songs, with the number drawn to choose the first one by.
    pub fn start_playback_by(
        &mut self,
        shuffle: bool,
        song_list: &SongListModel,
        draw: usize,
    ) -> (r: StartSong)
        ensures
            final(self).wants(
                *old(self),
                shuffle_effects(old(self).app_model.state.playback.is_shuffled, shuffle),
            ),
            is_start(r, song_list.deep_view(), shuffle, draw as int),
    {
        self.want_shuffle(shuffle);
        start_song(shuffle, song_list, draw)
    }

    /// Wants a page of songs of the given source played, beginning with the song
    /// with the given id. Without a page nothing happens.
    pub fn play_from(&mut self, source: SongsSource, batch: Option<SongBatch>, id: &str)
        ensures
            final(self).wants(
                *old(self),
                play_effects(source.deep_view(), batch.deep_view(), id@),
            ),
    {
        let ghost effects = play_effects(source.deep_view(), batch.deep_view(), id@);
        match batch {
            Some(batch) => {
                self.dispatcher.dispatch(
                    AppAction::PlaybackAction(PlaybackAction::LoadPagedSongs(source, batch)),
                );
                self.dispatcher.dispatch(
                    AppAction::PlaybackAction(PlaybackAction::Load(id.to_string())),
                );
            },
            None => {},
        }
        assert(self.dispatcher@ =~= old(self).dispatcher@ + effects);
    }

    /// Wants one action handed on.
    pub fn want(&mut self, action: AppAction)
        ensures
            final(self).wants(*old(self), seq![EffectView::Dispatch(action.deep_view())]),
    {
        let ghost view = action.deep_view();
        self.dispatcher.dispatch(action);
        assert(self.dispatcher@ =~= old(self).dispatcher@ + seq![EffectView::Dispatch(view)]);
    }

    /// Wants one call to the web API made.
    pub fn want_call(&mut self, call: ApiCall)
        ensures
            final(self).wants(*old(self), seq![EffectView::Call(call.deep_view())]),
    {
        let ghost view = call.deep_view();
        self.dispatcher.call(call);
        assert(self.dispatcher@ =~= old(self).dispatcher@ + seq![EffectView::Call(view)]);
    }

    /// Wants the next page of a list: first that the page is noted as asked for,
    /// so that no later request asks for it again, then the call.
    pub fn want_page(&mut self, target: PaginationTarget, call: ApiCall)
        ensures
            final(self).wants(
                *old(self),
                page_effects(target.deep_view(), call.deep_view()),
            ),
    {
        let ghost effects = page_effects(target.deep_view(), call.deep_view());
        self.dispatcher.update_state(BrowserAction::ConsumeNextPage(target));
        self.dispatcher.call(call);
        assert(self.dispatcher@ =~= old(self).dispatcher@ + effects);
    }

    /// Whether the song is among the liked songs.
    pub fn is_song_liked(&self, id: &str) -> (r: bool)
        ensures
            r == self.app_model.state.browser.liked(id@),
    {
        self.app_model.state.browser.is_song_liked(id)
    }

    /// Wants the song liked, or no longer liked, if it is in the list. The song is
    /// returned for `song_like_toggled`, with whether it was liked.
    pub fn toggle_song_like(&mut self, song_list: &SongListModel, id: &str) -> (r: Option<
        (SongDescription, bool),
    >)
        ensures
            match (r, song_list::position_of(song_list.deep_view(), id@)) {
                (Some((song, was_liked)), Some(i)) => {
                    &&& song.deep_view() == song_list.deep_view()[i]
                    &&& was_liked == old(self).app_model.state.browser.liked(id@)
                    &&& final(self).wants(
                        *old(self),
                        seq![
                            EffectView::Call(
                                if was_liked {
                                    ApiCallView::RemoveSavedTracks(
                                        seq![song_list.deep_view()[i].id],
                                    )
                                } else {
                                    ApiCallView::SaveTracks(seq![song_list.deep_view()[i]])
                                },
                            ),
                        ],
                    )
                },
                (None, None) => *final(self) == *old(self),
                _ => false,
            },
    {
        match song_list.get(id) {
            None => None,
            Some(song) => {
                let song: SongDescription = song.clone();
                let was_liked: bool = self.is_song_liked(id);
                let call = if was_liked {
                    let ids: Vec<String> = vec![song.id.clone()];
                    assert(ids.deep_view() =~= seq![song.id@]);
                    ApiCall::RemoveSavedTracks(ids)
                } else {
                    let songs: Vec<SongDescription> = vec![song.clone()];
                    assert(songs.deep_view() =~= seq![song.deep_view()]);
                    ApiCall::SaveTracks(songs)
                };
                let ghost view = call.deep_view();
                self.dispatcher.call(call);
                assert(self.dispatcher@ =~= old(self).dispatcher@ + seq![EffectView::Call(view)]);
                Some((song, was_liked))
            },
        }
    }
}

/// What follows once the service has taken songs into the liked songs.
pub fn songs_saved(songs: Vec<SongDescription>, answer: SpotifyResult<()>) -> (r: SpotifyResult<
    AppAction,
>)
    ensures
        match (answer, r) {
            (Ok(_), Ok(action)) => action == AppAction::BrowserAction(
                BrowserAction::SaveTracks(songs),
            ),
            (Err(e), Err(f)) => e == f,
            _ => false,
        },
{
    match answer {
        Ok(_) => Ok(AppAction::BrowserAction(BrowserAction::SaveTracks(songs))),
        Err(e) => Err(e),
    }
}

/// What follows once the service has taken songs out of the liked songs.
pub fn songs_removed(ids: Vec<String>, answer: SpotifyResult<()>) -> (r: SpotifyResult<AppAction>)
    ensures
        match (answer, r) {
            (Ok(_), Ok(action)) => action == AppAction::BrowserAction(
                BrowserAction::RemoveSavedTracks(ids),
            ),
            (Err(e), Err(f)) => e == f,
            _ => false,
        },
{
    match answer {
        Ok(_) => Ok(AppAction::BrowserAction(BrowserAction::RemoveSavedTracks(ids))),
        Err(e) => Err(e),
    }
}

/// What follows once the service has taken a song into the liked songs, or out
/// of them. A failed call changes nothing.
pub fn song_like_toggled(
    song: SongDescription,
    was_liked: bool,
    answer: SpotifyResult<()>,
) -> (r: SpotifyResult<AppAction>)
    ensures
        match (answer, r) {
            (Ok(_), Ok(action)) => action.deep_view() == AppActionView::BrowserAction(
                if was_liked {
                    BrowserActionView::RemoveSavedTracks(seq![song.id@])
                } else {
                    BrowserActionView::SaveTracks(seq![song.deep_view()])
                },
            ),
            (Err(e), Err(f)) => e == f,
            _ => false,
        },
{
    if was_liked {
        let ids: Vec<String> = vec![song.id];
        assert(ids.deep_view() =~= seq![song.id@]);
        songs_removed(ids, answer)
    } else {
        let ghost view = song.deep_view();
        let songs: Vec<SongDescription> = vec![song];
        assert(songs.deep_view() =~= seq![view]);
        songs_saved(songs, answer)
    }
}

/// Playback never starts outside the list, whatever number was drawn.
pub proof fn law_start_is_in_the_list(len: int, shuffle: bool, draw: int)
    requires
        len > 0,
        draw >= 0,
    ensures
        0 <= start_position(shuffle, len, draw) < len,
{
}

/// Without shuffling the first song starts; with shuffling every song can, each by
/// its own number, and numbers that are a whole list apart start with the same song.
pub proof fn law_any_song_can_start(len: int, draw: int)
    requires
        0 <= draw,
        0 < len,
    ensures
        start_position(false, len, draw) == 0,
        draw < len ==> start_position(true, len, draw) == draw,
        start_position(true, len, len + draw) == start_position(true, len, draw),
{
    if draw < len {
        vstd::arithmetic::div_mod::lemma_small_mod(draw as nat, len as nat);
    }
    vstd::arithmetic::div_mod::lemma_mod_add_multiples_vanish(draw, len);
}

/// What starts is a song of the list with its own id; only an empty list starts nothing.
pub proof fn law_start_is_a_song_of_the_list(
    start: StartSong,
    songs: Seq<SongDescriptionView>,
    shuffle: bool,
    draw: int,
)
    requires
        is_start(start, songs, shuffle, draw),
    ensures
        start is None <==> songs.len() == 0,
        start matches Some((i, id)) ==> {
            &&& i < songs.len()
            &&& id@ == songs[i as int].id
            &&& (!shuffle ==> i == 0)
        },
{
}

/// Shuffling is toggled once if it is not as wanted, and left alone if it is.
pub proof fn law_shuffling_ends_as_wanted(
    before: DetailsPageModel,
    after: DetailsPageModel,
    shuffle: bool,
)
    requires
        after.wants(before, shuffle_effects(before.app_model.state.playback.is_shuffled, shuffle)),
    ensures
        after.id == before.id,
        after.app_model == before.app_model,
        before.app_model.state.playback.is_shuffled == shuffle ==> after.dispatcher@
            == before.dispatcher@,
        before.app_model.state.playback.is_shuffled != shuffle ==> after.dispatcher@
            == before.dispatcher@.push(
            EffectView::Dispatch(AppActionView::PlaybackAction(PlaybackActionView::ToggleShuffle)),
        ),
{
    assert(before.dispatcher@ + Seq::<EffectView>::empty() =~= before.dispatcher@);
}

/// The play button stops what plays from the page, resumes what is stopped there, and
/// before another source takes over, switches shuffling off.
pub proof fn law_play_button_goes_by_what_plays(
    before: DetailsPageModel,
    after: DetailsPageModel,
    source_is_playing: bool,
)
    requires
        after.wants(before, toggle_effects(before.app_model.state, source_is_playing)),
    ensures
        after.id == before.id,
        after.app_model == before.app_model,
        source_is_playing && before.app_model.state.playback.is_playing ==> after.dispatcher@
            == before.dispatcher@.push(
            EffectView::Dispatch(AppActionView::PlaybackAction(PlaybackActionView::Pause)),
        ),
        source_is_playing && !before.app_model.state.playback.is_playing ==> after.dispatcher@
            == before.dispatcher@.push(
            EffectView::Dispatch(AppActionView::PlaybackAction(PlaybackActionView::Play)),
        ),
        !source_is_playing && before.app_model.state.playback.is_shuffled ==> after.dispatcher@
            == before.dispatcher@.push(
            EffectView::Dispatch(AppActionView::PlaybackAction(PlaybackActionView::ToggleShuffle)),
        ),
        !source_is_playing && !before.app_model.state.playback.is_shuffled ==> after.dispatcher@
            == before.dispatcher@,
{
    assert(before.dispatcher@ + Seq::<EffectView>::empty() =~= before.dispatcher@);
}

/// A song is loaded after the page that holds it, and nothing without a page.
pub proof fn law_page_is_loaded_before_its_song(
    before: DetailsPageModel,
    after: DetailsPageModel,
    source: SongsSourceView,
    batch: Option<SongBatchView>,
    id: Seq<char>,
)
    requires
        after.wants(before, play_effects(source, batch, id)),
    ensures
        after.id == before.id,
        after.app_model == before.app_model,
        batch is None ==> after.dispatcher@ == before.dispatcher@,
        batch matches Some(page) ==> after.dispatcher@ == before.dispatcher@.push(
            EffectView::Dispatch(
                AppActionView::PlaybackAction(PlaybackActionView::LoadPagedSongs(source, page)),
            ),
        ).push(
            EffectView::Dispatch(AppActionView::PlaybackAction(PlaybackActionView::Load(id))),
        ),
{
    assert(before.dispatcher@ + Seq::<EffectView>::empty() =~= before.dispatcher@);
}

/// A page is noted as asked for before it is asked for.
pub proof fn law_page_is_noted_before_the_call(
    before: DetailsPageModel,
    after: DetailsPageModel,
    target: PaginationTargetView,
    call: ApiCallView,
)
    requires
        after.wants(before, page_effects(target, call)),
    ensures
        after.id == before.id,
        after.app_model == before.app_model,
        after.dispatcher@ == before.dispatcher@.push(
            EffectView::UpdateState(BrowserActionView::ConsumeNextPage(target)),
        ).push(EffectView::Call(call)),
{
}

/// Only the answers 400 and 404 say that the item is unknown.
pub proof fn law_unknown_items_are_answered_400_or_404(error: SpotifyApiError)
    ensures
        is_unknown_item(error) <==> (error is BadStatus && (error->BadStatus_0 == 400
            || error->BadStatus_0 == 404)),
{
}

} // verus!
