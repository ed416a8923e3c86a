//! A list of songs: which of them play, are selected or are liked.

use vstd::prelude::*;

use crate::actions::{AppEvent, BrowserEvent, PlaybackEvent, SelectionEvent};
use crate::models::{SongDescription, SongDescriptionView, SongState};
use crate::song_list::SongListModel;
use crate::state::{AppState, SelectionState};
use crate::text::str_eq;

verus! {

/// What a list of songs offers.
#[derive(Clone, Copy, Debug, PartialEq, Eq, Structural)]
pub struct PlaylistOptions {
    /// Songs can be selected.
    pub selects: bool,
    /// Songs can be liked.
    pub likes: bool,
    /// The list scrolls to the song that plays.
    pub autoscrolls: bool,
    /// Songs are shown with their covers.
    pub covers: bool,
}

/// How a song is shown.
pub open spec fn state_of(options: PlaylistOptions, state: AppState, id: Seq<char>) -> SongState {
    SongState {
        is_selected: options.selects && state.selection.selected.set().contains(id),
        is_playing: state.playback.spec_current_song_id() == Some(id),
        is_liked: options.likes && state.browser.liked(id),
    }
}

/// How a song is shown.
pub fn song_state(options: PlaylistOptions, state: &AppState, id: &str) -> (r: SongState)
    ensures
        r == state_of(options, *state, id@),
{
    let is_playing: bool = match state.playback.current_song() {
        Some(song) => str_eq(song.id.as_str(), id),
        None => false,
    };
    SongState {
        is_selected: options.selects && state.selection.is_song_selected(id),
        is_playing,
        is_liked: options.likes && state.browser.is_song_liked(id),
    }
}

/// What becomes of a song that was chosen while songs are selected.
#[derive(Clone, Copy, Debug, PartialEq, Eq, Structural)]
pub enum SelectTask {
    Select,
    Deselect,
    Nothing,
}

/// A song that is selected is deselected, and the other way round; a list in which
/// nothing can be selected does neither.
pub fn toggle_select(selection: Option<&SelectionState>, id: &str) -> (r: SelectTask)
    ensures
        r == (match selection {
            Some(selection) => if selection.selected.set().contains(id@) {
                SelectTask::Deselect
            } else {
                SelectTask::Select
            },
            None => SelectTask::Nothing,
        }),
{
    match selection {
        Some(selection) => if selection.is_song_selected(id) {
            SelectTask::Deselect
        } else {
            SelectTask::Select
        },
        None => SelectTask::Nothing,
    }
}

/// What becomes of a song that was chosen.
#[derive(Debug, PartialEq, Eq)]
pub enum RowTask {
    /// Select it, or deselect it.
    ToggleSelect(String),
    /// Play it.
    PlayAt(usize, String),
}

/// The song at a place was chosen: while songs are selected it is selected too,
/// otherwise it is played.
pub fn row_chosen(songs: &SongListModel, selecting: bool, position: usize) -> (r: RowTask)
    requires
        position < songs.songs@.len(),
    ensures
        r == (if selecting {
            RowTask::ToggleSelect(songs.songs@[position as int].id)
        } else {
            RowTask::PlayAt(position, songs.songs@[position as int].id)
        }),
{
    let id: String = songs.songs[position].id.clone();
    if selecting {
        RowTask::ToggleSelect(id)
    } else {
        RowTask::PlayAt(position, id)
    }
}

// ── Events ─────────────────────────────────────────────────────────────────

/// What an event asks of a list of songs.
#[derive(Clone, Copy, Debug, PartialEq, Eq, Structural)]
pub struct ListTask {
    /// Show whether playback is paused.
    pub paused: bool,
    /// Show whether songs can be selected.
    pub selection: bool,
    /// Show the songs anew.
    pub songs: bool,
    /// Scroll to the song that plays.
    pub follow: bool,
}

/// Nothing is asked of the list.
pub open spec fn no_task() -> ListTask {
    ListTask { paused: false, selection: false, songs: false, follow: false }
}

/// The songs of the list have changed.
pub open spec fn is_content_event(event: AppEvent) -> bool {
    match event {
        AppEvent::PlaybackEvent(event) => event is PlaylistChanged,
        AppEvent::BrowserEvent(event) => event is AlbumDetailsLoaded || event is AlbumTracksAppended
            || event is PlaylistDetailsLoaded || event is PlaylistTracksAppended || event
            is PlaylistTracksRemoved || event is ArtistDetailsUpdated || event
            is UserDetailsUpdated,
        _ => false,
    }
}

/// What an event asks of a list of songs. When its songs change the list does not
/// scroll: the user may be reading on.
pub open spec fn list_task(event: AppEvent) -> ListTask {
    if is_content_event(event) {
        ListTask { songs: true, ..no_task() }
    } else {
        match event {
            AppEvent::SelectionEvent(SelectionEvent::SelectionChanged) => ListTask {
                songs: true,
                follow: true,
                ..no_task()
            },
            AppEvent::SelectionEvent(SelectionEvent::SelectionModeChanged(_)) => ListTask {
                selection: true,
                songs: true,
                follow: true,
                ..no_task()
            },
            AppEvent::PlaybackEvent(PlaybackEvent::TrackChanged(_)) => ListTask {
                paused: true,
                songs: true,
                follow: true,
                ..no_task()
            },
            AppEvent::PlaybackEvent(PlaybackEvent::PlaybackResumed) => ListTask {
                paused: true,
                ..no_task()
            },
            AppEvent::PlaybackEvent(PlaybackEvent::PlaybackPaused) => ListTask {
                paused: true,
                ..no_task()
            },
            AppEvent::BrowserEvent(BrowserEvent::SavedTracksUpdated) => ListTask {
                songs: true,
                follow: true,
                ..no_task()
            },
            _ => no_task(),
        }
    }
}

/// What an event asks of a list of songs.
pub fn list_task_of(event: &AppEvent) -> (r: ListTask)
    ensures
        r == list_task(*event),
{
    let nothing = ListTask { paused: false, selection: false, songs: false, follow: false };
    match event {
        AppEvent::SelectionEvent(SelectionEvent::SelectionChanged) => ListTask {
            songs: true,
            follow: true,
            ..nothing
        },
        AppEvent::SelectionEvent(SelectionEvent::SelectionModeChanged(_)) => ListTask {
            selection: true,
            songs: true,
            follow: true,
            ..nothing
        },
        AppEvent::PlaybackEvent(event) => match event {
            PlaybackEvent::TrackChanged(_) => ListTask {
                paused: true,
                songs: true,
                follow: true,
                ..nothing
            },
            PlaybackEvent::PlaybackResumed => ListTask { paused: true, ..nothing },
            PlaybackEvent::PlaybackPaused => ListTask { paused: true, ..nothing },
            PlaybackEvent::PlaylistChanged => ListTask { songs: true, ..nothing },
            _ => nothing,
        },
        AppEvent::BrowserEvent(event) => match event {
            BrowserEvent::SavedTracksUpdated => ListTask { songs: true, follow: true, ..nothing },
            BrowserEvent::AlbumDetailsLoaded(_) => ListTask { songs: true, ..nothing },
            BrowserEvent::AlbumTracksAppended(_) => ListTask { songs: true, ..nothing },
            BrowserEvent::PlaylistDetailsLoaded(_) => ListTask { songs: true, ..nothing },
            BrowserEvent::PlaylistTracksAppended(_) => ListTask { songs: true, ..nothing },
            BrowserEvent::PlaylistTracksRemoved(_) => ListTask { songs: true, ..nothing },
            BrowserEvent::ArtistDetailsUpdated(_) => ListTask { songs: true, ..nothing },
            BrowserEvent::UserDetailsUpdated(_) => ListTask { songs: true, ..nothing },
            _ => nothing,
        },
        _ => nothing,
    }
}

/// A list never scrolls because its songs have changed, so that reading more never
/// makes it read more.
pub proof fn law_content_events_do_not_scroll(event: AppEvent)
    requires
        is_content_event(event),
    ensures
        list_task(event).songs,
        !list_task(event).follow,
{
}

// ── The list ───────────────────────────────────────────────────────────────

/// A list of songs as it is shown.
#[derive(Debug, PartialEq, Eq)]
pub struct Playlist {
    pub options: PlaylistOptions,
    pub paused: bool,
    pub selection_active: bool,
    /// How the songs are shown, in the order of the list.
    pub states: Vec<SongState>,
}

/// How the songs of a list are shown.
pub open spec fn states_of(
    options: PlaylistOptions,
    state: AppState,
    songs: Seq<SongDescriptionView>,
) -> Seq<SongState> {
    songs.map_values(|s: SongDescriptionView| state_of(options, state, s.id))
}

/// The places of the first `n` songs that play.
pub open spec fn playing_places(states: Seq<SongState>, n: nat) -> Seq<usize>
    decreases n,
{
    if n == 0 {
        Seq::empty()
    } else {
        let front = playing_places(states, (n - 1) as nat);
        if states[n - 1].is_playing {
            front.push((n - 1) as usize)
        } else {
            front
        }
    }
}

impl Playlist {
    /// The list, with its songs as they are.
    pub fn new(options: PlaylistOptions, songs: &SongListModel, state: &AppState) -> (r: Playlist)
        ensures
            r.options == options,
            r.paused == !state.playback.is_playing,
            r.selection_active == (options.selects && state.selection.enabled),
            r.states@ == states_of(options, *state, songs.deep_view()),
    {
        let mut r = Playlist {
            options,
            paused: !state.playback.is_playing,
            selection_active: options.selects && state.selection.is_selection_enabled(),
            states: Vec::new(),
        };
        r.seed_song_states(songs, state);
        r
    }

    /// Shows the songs anew.
    pub fn seed_song_states(&mut self, songs: &SongListModel, state: &AppState)
        ensures
            *final(self) == (Playlist { states: final(self).states, ..*old(self) }),
            final(self).states@ == states_of(old(self).options, *state, songs.deep_view()),
    {
        let ghost all = states_of(self.options, *state, songs.deep_view());
        let mut states: Vec<SongState> = Vec::new();
        let mut i: usize = 0;
        while i < songs.songs.len()
            invariant
                i <= songs.songs.len(),
                all == states_of(self.options, *state, songs.deep_view()),
                states@ =~= all.take(i as int),
            decreases songs.songs.len() - i,
        {
            assert(songs.deep_view()[i as int] == songs.songs@[i as int].deep_view());
            states.push(song_state(self.options, state, songs.songs[i].id.as_str()));
            i += 1;
        }
        assert(states@ =~= all);
        self.states = states;
    }

    /// The places to which the list scrolls, one after the other: those of the
    /// songs that play, unless songs are being selected.
    pub fn scroll_targets(&self, selecting: bool) -> (r: Vec<usize>)
        ensures
            r@ == (if self.options.autoscrolls && !selecting {
                playing_places(self.states@, self.states@.len())
            } else {
                Seq::empty()
            }),
    {
        let mut targets: Vec<usize> = Vec::new();
        if !self.options.autoscrolls || selecting {
            return targets;
        }
        let mut i: usize = 0;
        while i < self.states.len()
            invariant
                i <= self.states.len(),
                targets@ == playing_places(self.states@, i as nat),
            decreases self.states.len() - i,
        {
            if self.states[i].is_playing {
                targets.push(i);
            }
            i += 1;
        }
        targets
    }

    /// What an event does to the list. The places to which it scrolls are handed
    /// back.
    pub fn on_event(&mut self, event: &AppEvent, songs: &SongListModel, state: &AppState) -> (r:
        Vec<usize>)
        ensures
            final(self).options == old(self).options,
            final(self).paused == (if list_task(*event).paused {
                !state.playback.is_playing
            } else {
                old(self).paused
            }),
            final(self).selection_active == (if list_task(*event).selection {
                old(self).options.selects && state.selection.enabled
            } else {
                old(self).selection_active
            }),
            if list_task(*event).songs {
                final(self).states@ == states_of(old(self).options, *state, songs.deep_view())
            } else {
                final(self).states == old(self).states
            },
            r@ == (if list_task(*event).follow && old(self).options.autoscrolls && !(old(
                self,
            ).options.selects && state.selection.enabled) {
                playing_places(final(self).states@, final(self).states@.len())
            } else {
                Seq::empty()
            }),
    {
        let task: ListTask = list_task_of(event);
        let selecting: bool = self.options.selects && state.selection.is_selection_enabled();
        if task.paused {
            self.paused = !state.playback.is_playing;
        }
        if task.selection {
            self.selection_active = selecting;
        }
        if task.songs {
            self.seed_song_states(songs, state);
        }
        if task.follow {
            self.scroll_targets(selecting)
        } else {
            Vec::new()
        }
    }
}

/// The icon of the button that likes a song.
pub fn like_icon(is_liked: bool) -> (r: &'static str)
    ensures
        r@ == (if is_liked {
            "starred-symbolic"@
        } else {
            "non-starred-symbolic"@
        }),
{
    if is_liked {
        "starred-symbolic"
    } else {
        "non-starred-symbolic"
    }
}

/// The name of the button that likes a song.
pub fn like_tooltip(is_liked: bool) -> (r: &'static str)
    ensures
        r@ == (if is_liked {
            "Unlike"@
        } else {
            "Like"@
        }),
{
    if is_liked {
        "Unlike"
    } else {
        "Like"
    }
}

/// A song plays if it is the current one, is selected if it was selected where that
/// can be done, and is liked if it is among the liked songs where that is shown.
pub proof fn law_song_is_shown_as_it_is(options: PlaylistOptions, state: AppState, id: Seq<char>)
    ensures
        state_of(options, state, id).is_playing <==> (state.playback.spec_current_song()
            matches Some(song) && song.id@ == id),
        options.selects ==> state_of(options, state, id).is_selected
            == state.selection.selected.seq().contains(id),
        !options.selects ==> !state_of(options, state, id).is_selected,
        options.likes ==> state_of(options, state, id).is_liked == state.browser.liked(id),
        !options.likes ==> !state_of(options, state, id).is_liked,
{
}

/// Every song of the list is shown at its own place.
pub proof fn law_songs_are_shown_at_their_place(
    options: PlaylistOptions,
    state: AppState,
    songs: Seq<SongDescriptionView>,
    k: int,
)
    requires
        0 <= k < songs.len(),
    ensures
        states_of(options, state, songs).len() == songs.len(),
        states_of(options, state, songs)[k] == state_of(options, state, songs[k].id),
{
}

/// The list scrolls to the places of the songs that play and to no other, from the top
/// down.
pub proof fn law_list_scrolls_to_what_plays(states: Seq<SongState>, n: nat, k: usize)
    requires
        n <= states.len() <= usize::MAX,
    ensures
        playing_places(states, n).contains(k) <==> k < n && states[k as int].is_playing,
        forall|i: int, j: int|
            0 <= i < j < playing_places(states, n).len() ==> playing_places(states, n)[i]
                < playing_places(states, n)[j],
        forall|i: int|
            0 <= i < playing_places(states, n).len() ==> #[trigger] playing_places(states, n)[i] < n,
    decreases n,
{
    if n > 0 {
        let front = playing_places(states, (n - 1) as nat);
        law_list_scrolls_to_what_plays(states, (n - 1) as nat, k);
        crate::lists::lemma_contains_push(front, (n - 1) as usize, k);
    }
}

/// Every event asks for what it changes: the state of playback, the songs, whether
/// songs can be selected; the list follows the song that plays.
pub proof fn law_list_follows_the_event(event: AppEvent, playback: PlaybackEvent, browser: BrowserEvent)
    ensures
        event == AppEvent::SelectionEvent(SelectionEvent::SelectionChanged) ==> list_task(event)
            == (ListTask { paused: false, selection: false, songs: true, follow: true }),
        (event is SelectionEvent && event->SelectionEvent_0 is SelectionModeChanged) ==> list_task(
            event,
        ) == (ListTask { paused: false, selection: true, songs: true, follow: true }),
        playback is TrackChanged ==> list_task(AppEvent::PlaybackEvent(playback)) == (ListTask {
            paused: true,
            selection: false,
            songs: true,
            follow: true,
        }),
        playback is PlaybackPaused || playback is PlaybackResumed ==> list_task(
            AppEvent::PlaybackEvent(playback),
        ) == (ListTask { paused: true, selection: false, songs: false, follow: false }),
        playback is PlaylistChanged ==> list_task(AppEvent::PlaybackEvent(playback)) == (ListTask {
            paused: false,
            selection: false,
            songs: true,
            follow: false,
        }),
        !(playback is TrackChanged || playback is PlaybackPaused || playback is PlaybackResumed
            || playback is PlaylistChanged) ==> list_task(AppEvent::PlaybackEvent(playback)) == (
        ListTask { paused: false, selection: false, songs: false, follow: false }),
        browser is SavedTracksUpdated ==> list_task(AppEvent::BrowserEvent(browser)) == (ListTask {
            paused: false,
            selection: false,
            songs: true,
            follow: true,
        }),
        browser is AlbumDetailsLoaded || browser is AlbumTracksAppended || browser
            is PlaylistDetailsLoaded || browser is PlaylistTracksAppended || browser
            is PlaylistTracksRemoved || browser is ArtistDetailsUpdated || browser
            is UserDetailsUpdated ==> list_task(AppEvent::BrowserEvent(browser)) == (ListTask {
            paused: false,
            selection: false,
            songs: true,
            follow: false,
        }),
        !(browser is SavedTracksUpdated || browser is AlbumDetailsLoaded || browser
            is AlbumTracksAppended || browser is PlaylistDetailsLoaded || browser
            is PlaylistTracksAppended || browser is PlaylistTracksRemoved || browser
            is ArtistDetailsUpdated || browser is UserDetailsUpdated) ==> list_task(
            AppEvent::BrowserEvent(browser),
        ) == (ListTask { paused: false, selection: false, songs: false, follow: false }),
        !(event is SelectionEvent || event is PlaybackEvent || event is BrowserEvent) ==> list_task(
            event,
        ) == (ListTask { paused: false, selection: false, songs: false, follow: false }),
{
}

} // verus!
