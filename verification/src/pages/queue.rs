//! The queue: the current song, what the user queued, and what comes after.

use vstd::prelude::*;

use crate::actions;
use crate::actions::{
    ActionDispatcher, AppAction, AppEvent, EffectView, PlaybackAction, PlaybackActionView,
    PlaybackEvent,
};
use crate::lists;
use crate::models::{SongDescription, SongDescriptionView};
use crate::state::AppModel;
use crate::text;
use crate::text::gettext;

verus! {

/// How many of the songs that come next are listed.
pub const CONTEXT_LIMIT: usize = 100;

/// The data and the wishes of the queue.
#[derive(Debug, PartialEq, Eq)]
pub struct QueueModel {
    pub app_model: AppModel,
    pub dispatcher: ActionDispatcher,
}

/// The front of a list, no longer than `limit`.
pub open spec fn front<T>(items: Seq<T>, limit: nat) -> Seq<T> {
    items.take(
        if items.len() < limit {
            items.len() as int
        } else {
            limit as int
        },
    )
}

impl QueueModel {
    /// The queue.
    pub fn new(app_model: AppModel, dispatcher: ActionDispatcher) -> (r: Self)
        ensures
            r == (QueueModel { app_model, dispatcher }),
    {
        QueueModel { app_model, dispatcher }
    }

    /// Only the wishes changed: these were added.
    pub open spec fn wants(self, before: Self, added: Seq<EffectView>) -> bool {
        &&& self.app_model == before.app_model
        &&& self.dispatcher@ == before.dispatcher@ + added
    }

    /// The current song.
    pub fn current_song(&self) -> (r: Option<SongDescription>)
        ensures
            r.deep_view() == self.app_model.state.playback.spec_current_song().deep_view(),
    {
        match self.app_model.state.playback.current_song() {
            Some(song) => Some(song.clone()),
            None => None,
        }
    }

    /// What the user queued.
    pub fn manual_tracks(&self) -> (r: Vec<SongDescription>)
        ensures
            r.deep_view() == self.app_model.state.playback.manual_queue.deep_view(),
    {
        self.app_model.state.playback.manual_queue.clone()
    }

    /// What comes after the queue.
    pub fn context_tracks(&self) -> (r: Vec<SongDescription>)
        ensures
            r.deep_view() == front(
                self.app_model.state.playback.context_queue.deep_view(),
                CONTEXT_LIMIT as nat,
            ),
    {
        let all = &self.app_model.state.playback.context_queue;
        let ghost views = all.deep_view();
        let count: usize = if all.len() < CONTEXT_LIMIT {
            all.len()
        } else {
            CONTEXT_LIMIT
        };
        let mut out: Vec<SongDescription> = Vec::new();
        let mut i: usize = 0;
        assert(out.deep_view() =~= views.take(0));
        while i < count
            invariant
                i <= count <= all.len(),
                views == all.deep_view(),
                out.deep_view() == views.take(i as int),
            decreases count - i,
        {
            let ghost before = out;
            let song = all[i].clone();
            out.push(song);
            proof {
                lists::lemma_deep_push(before, out, song);
                lists::lemma_take_push(views, i as int);
            }
            i += 1;
        }
        out
    }

    /// Takes the song out of the queue.
    pub fn remove(&mut self, id: &str)
        ensures
            final(self).wants(*old(self), seq![actions::play(PlaybackActionView::Dequeue(id@))]),
    {
        self.dispatcher.dispatch(
            AppAction::PlaybackAction(PlaybackAction::Dequeue(id.to_string())),
        );
    }

    /// Starts the song.
    pub fn play(&mut self, id: &str)
        ensures
            final(self).wants(*old(self), seq![actions::play(PlaybackActionView::Load(id@))]),
    {
        self.dispatcher.dispatch(AppAction::PlaybackAction(PlaybackAction::Load(id.to_string())));
    }

    /// Moves the song to another place in the queue.
    pub fn move_in_queue(&mut self, id: &str, to: usize)
        ensures
            final(self).wants(
                *old(self),
                seq![actions::play(PlaybackActionView::MoveInQueue { id: id@, to })],
            ),
    {
        self.dispatcher.dispatch(
            AppAction::PlaybackAction(PlaybackAction::MoveInQueue { id: id.to_string(), to }),
        );
    }
}

// ── The rows ───────────────────────────────────────────────────────────────

/// A row of the queue.
#[derive(Debug, PartialEq, Eq)]
pub enum QueueRow {
    /// There is nothing in the queue.
    EmptyQueue,
    NowPlayingLabel,
    /// The current song, which cannot be chosen.
    Current(SongDescription),
    QueueLabel,
    /// A song that the user queued, with its place. It can be moved up unless it is
    /// the first, and down unless it is the last.
    Queued { song: SongDescription, position: usize, can_move_up: bool, can_move_down: bool },
    NextLabel,
    /// A song that comes later and can be chosen.
    Next(SongDescription),
}

/// The contents of a `QueueRow`.
pub enum QueueRowView {
    EmptyQueue,
    NowPlayingLabel,
    Current(SongDescriptionView),
    QueueLabel,
    Queued { song: SongDescriptionView, position: usize, can_move_up: bool, can_move_down: bool },
    NextLabel,
    Next(SongDescriptionView),
}

impl DeepView for QueueRow {
    type V = QueueRowView;

    open spec fn deep_view(&self) -> QueueRowView {
        match self {
            QueueRow::EmptyQueue => QueueRowView::EmptyQueue,
            QueueRow::NowPlayingLabel => QueueRowView::NowPlayingLabel,
            QueueRow::Current(song) => QueueRowView::Current(song.deep_view()),
            QueueRow::QueueLabel => QueueRowView::QueueLabel,
            QueueRow::Queued { song, position, can_move_up, can_move_down } => QueueRowView::Queued {
                song: song.deep_view(),
                position: *position,
                can_move_up: *can_move_up,
                can_move_down: *can_move_down,
            },
            QueueRow::NextLabel => QueueRowView::NextLabel,
            QueueRow::Next(song) => QueueRowView::Next(song.deep_view()),
        }
    }
}

/// The rows of the songs that the user queued.
pub open spec fn queued_rows(manual: Seq<SongDescriptionView>) -> Seq<QueueRowView> {
    Seq::new(
        manual.len(),
        |i: int|
            QueueRowView::Queued {
                song: manual[i],
                position: i as usize,
                can_move_up: i > 0,
                can_move_down: i + 1 < manual.len(),
            },
    )
}

/// The rows of the songs that come later.
pub open spec fn next_rows(context: Seq<SongDescriptionView>) -> Seq<QueueRowView> {
    context.map_values(|s: SongDescriptionView| QueueRowView::Next(s))
}

/// The rows of the queue: a part that has no songs is left out.
pub open spec fn rows_of(
    current: Option<SongDescriptionView>,
    manual: Seq<SongDescriptionView>,
    context: Seq<SongDescriptionView>,
) -> Seq<QueueRowView> {
    let playing = match current {
        Some(song) => seq![QueueRowView::NowPlayingLabel, QueueRowView::Current(song)],
        None => Seq::empty(),
    };
    let queued = if manual.len() > 0 {
        seq![QueueRowView::QueueLabel] + queued_rows(manual)
    } else {
        Seq::empty()
    };
    let next = if context.len() > 0 {
        seq![QueueRowView::NextLabel] + next_rows(context)
    } else {
        Seq::empty()
    };
    if current is None && manual.len() == 0 && context.len() == 0 {
        seq![QueueRowView::EmptyQueue]
    } else {
        playing + queued + next
    }
}

/// The rows of the queue.
pub fn queue_rows(
    current: Option<SongDescription>,
    manual: &Vec<SongDescription>,
    context: &Vec<SongDescription>,
) -> (r: Vec<QueueRow>)
    ensures
        r.deep_view() == rows_of(
            current.deep_view(),
            manual.deep_view(),
            context.deep_view(),
        ),
{
    let mut rows: Vec<QueueRow> = Vec::new();
    if current.is_none() && manual.len() == 0 && context.len() == 0 {
        rows.push(QueueRow::EmptyQueue);
        assert(rows.deep_view() =~= seq![QueueRowView::EmptyQueue]);
        return rows;
    }
    let ghost now = current.deep_view();
    match current {
        Some(song) => {
            rows.push(QueueRow::NowPlayingLabel);
            rows.push(QueueRow::Current(song));
        },
        None => {},
    }
    let ghost playing = match now {
        Some(song) => seq![QueueRowView::NowPlayingLabel, QueueRowView::Current(song)],
        None => Seq::empty(),
    };
    assert(rows.deep_view() =~= playing);
    let ghost all = queued_rows(manual.deep_view());
    let ghost queued = if manual.deep_view().len() > 0 {
        seq![QueueRowView::QueueLabel] + all
    } else {
        Seq::empty()
    };
    if manual.len() > 0 {
        rows.push(QueueRow::QueueLabel);
        let mut i: usize = 0;
        assert(rows.deep_view() =~= playing + (seq![QueueRowView::QueueLabel] + all.take(0)));
        while i < manual.len()
            invariant
                i <= manual.len(),
                all == queued_rows(manual.deep_view()),
                rows.deep_view() == playing + (seq![QueueRowView::QueueLabel] + all.take(
                    i as int,
                )),
            decreases manual.len() - i,
        {
            let ghost before = rows;
            let row = QueueRow::Queued {
                song: manual[i].clone(),
                position: i,
                can_move_up: i > 0,
                can_move_down: i < manual.len() - 1,
            };
            rows.push(row);
            proof {
                lists::lemma_deep_push(before, rows, row);
                lists::lemma_take_push(all, i as int);
                assert(manual.deep_view()[i as int] == manual@[i as int].deep_view());
                assert(rows.deep_view() =~= playing + (seq![QueueRowView::QueueLabel] + all.take(
                    i + 1,
                )));
            }
            i += 1;
        }
        proof {
            lists::lemma_take_all(all);
        }
    }
    assert(rows.deep_view() =~= playing + queued);
    if context.len() > 0 {
        let ghost later = next_rows(context.deep_view());
        rows.push(QueueRow::NextLabel);
        let mut i: usize = 0;
        assert(rows.deep_view() =~= playing + queued + (seq![QueueRowView::NextLabel] + later.take(
            0,
        )));
        while i < context.len()
            invariant
                i <= context.len(),
                later == next_rows(context.deep_view()),
                rows.deep_view() == playing + queued + (seq![QueueRowView::NextLabel] + later.take(
                    i as int,
                )),
            decreases context.len() - i,
        {
            let ghost before = rows;
            let row = QueueRow::Next(context[i].clone());
            rows.push(row);
            proof {
                lists::lemma_deep_push(before, rows, row);
                lists::lemma_take_push(later, i as int);
                assert(context.deep_view()[i as int] == context@[i as int].deep_view());
                assert(rows.deep_view() =~= playing + queued + (seq![QueueRowView::NextLabel]
                    + later.take(i + 1)));
            }
            i += 1;
        }
        proof {
            lists::lemma_take_all(later);
        }
    } else {
        assert(rows.deep_view() =~= playing + queued + Seq::<QueueRowView>::empty());
    }
    rows
}

/// The message id of a row without a song.
pub open spec fn label_message(row: QueueRow) -> Option<Seq<char>> {
    match row {
        QueueRow::EmptyQueue => Some("Queue is empty"@),
        QueueRow::NowPlayingLabel => Some("Now playing"@),
        QueueRow::QueueLabel => Some("Next in queue"@),
        QueueRow::NextLabel => Some("Next up"@),
        _ => None,
    }
}

/// The message id of a row without a song.
pub fn label_msgid(row: &QueueRow) -> (r: Option<&'static str>)
    ensures
        match (r, label_message(*row)) {
            (Some(id), Some(message)) => id@ == message,
            (None, None) => true,
            _ => false,
        },
        r matches Some(id) ==> text::no_nul(id@),
{
    proof {
        reveal_strlit("Queue is empty");
        reveal_strlit("Now playing");
        reveal_strlit("Next in queue");
        reveal_strlit("Next up");
    }
    match row {
        QueueRow::EmptyQueue => Some("Queue is empty"),
        QueueRow::NowPlayingLabel => Some("Now playing"),
        QueueRow::QueueLabel => Some("Next in queue"),
        QueueRow::NextLabel => Some("Next up"),
        _ => None,
    }
}

/// The label of a row without a song: a translation of `label_msgid`.
pub fn row_label(row: &QueueRow) -> (r: Option<String>)
    ensures
        match (r, label_message(*row)) {
            (Some(label), Some(message)) => text::translates(label@, message),
            (None, None) => true,
            _ => false,
        },
{
    match label_msgid(row) {
        Some(id) => Some(gettext(id)),
        None => None,
    }
}

/// The queue as it is shown.
#[derive(Debug, PartialEq, Eq)]
pub struct Queue {
    pub model: QueueModel,
    pub rows: Vec<QueueRow>,
}

impl Queue {
    /// The rows are those of the state.
    pub open spec fn shows_state(self) -> bool {
        self.rows.deep_view() == rows_of(
            self.model.app_model.state.playback.spec_current_song().deep_view(),
            self.model.app_model.state.playback.manual_queue.deep_view(),
            front(
                self.model.app_model.state.playback.context_queue.deep_view(),
                CONTEXT_LIMIT as nat,
            ),
        )
    }

    /// The queue.
    pub fn new(model: QueueModel) -> (r: Queue)
        ensures
            r.model == model,
            r.shows_state(),
    {
        let mut r = Queue { model, rows: Vec::new() };
        r.refresh();
        r
    }

    /// Lists the rows anew.
    pub fn refresh(&mut self)
        ensures
            final(self).model == old(self).model,
            final(self).shows_state(),
    {
        let current = self.model.current_song();
        let manual = self.model.manual_tracks();
        let context = self.model.context_tracks();
        self.rows = queue_rows(current, &manual, &context);
    }

    /// A song that the user queued is moved one place up.
    pub fn move_up(&mut self, id: &str, position: usize)
        ensures
            final(self).rows == old(self).rows,
            final(self).model.wants(
                old(self).model,
                seq![
                    actions::play(
                        PlaybackActionView::MoveInQueue {
                            id: id@,
                            to: if position > 0 {
                                (position - 1) as usize
                            } else {
                                0
                            },
                        },
                    ),
                ],
            ),
    {
        self.model.move_in_queue(id, position.saturating_sub(1));
    }

    /// A song that the user queued is moved one place down.
    pub fn move_down(&mut self, id: &str, position: usize)
        requires
            position < usize::MAX,
        ensures
            final(self).rows == old(self).rows,
            final(self).model.wants(
                old(self).model,
                seq![
                    actions::play(
                        PlaybackActionView::MoveInQueue { id: id@, to: (position + 1) as usize },
                    ),
                ],
            ),
    {
        self.model.move_in_queue(id, position + 1);
    }

    /// The rows are listed anew when what is played has changed.
    pub fn on_event(&mut self, event: &AppEvent)
        ensures
            final(self).model == old(self).model,
            if event matches AppEvent::PlaybackEvent(e) && (e is PlaylistChanged || e
                is TrackChanged || e is PlaybackStopped || e is SourceChanged) {
                final(self).shows_state()
            } else {
                final(self).rows == old(self).rows
            },
    {
        match event {
            AppEvent::PlaybackEvent(PlaybackEvent::PlaylistChanged) => self.refresh(),
            AppEvent::PlaybackEvent(PlaybackEvent::TrackChanged(_)) => self.refresh(),
            AppEvent::PlaybackEvent(PlaybackEvent::PlaybackStopped) => self.refresh(),
            AppEvent::PlaybackEvent(PlaybackEvent::SourceChanged) => self.refresh(),
            _ => {},
        }
    }
}

/// Of the songs that the user queued, the first cannot be moved up and the last
/// cannot be moved down; all others can be moved both ways.
pub proof fn law_ends_of_queue_stay(manual: Seq<SongDescriptionView>, i: int)
    requires
        0 <= i < manual.len(),
    ensures
        queued_rows(manual)[i]->can_move_up <==> i != 0,
        queued_rows(manual)[i]->can_move_down <==> i != manual.len() - 1,
{
}

/// The queue is shown as empty only if nothing is playing and nothing comes, and
/// is then nothing but that.
pub proof fn law_empty_queue_is_shown(
    current: Option<SongDescriptionView>,
    manual: Seq<SongDescriptionView>,
    context: Seq<SongDescriptionView>,
)
    ensures
        rows_of(current, manual, context).contains(QueueRowView::EmptyQueue) <==> (current is None
            && manual.len() == 0 && context.len() == 0),
        rows_of(current, manual, context).len() > 0,
{
    let rows = rows_of(current, manual, context);
    if current is None && manual.len() == 0 && context.len() == 0 {
        assert(rows[0] == QueueRowView::EmptyQueue);
    } else if rows.contains(QueueRowView::EmptyQueue) {
        let i = choose|i: int| 0 <= i < rows.len() && rows[i] == QueueRowView::EmptyQueue;
        let m = queued_rows(manual);
        let n = next_rows(context);
        assert(forall|k: int| 0 <= k < m.len() ==> !(#[trigger] m[k] is EmptyQueue));
        assert(forall|k: int| 0 <= k < n.len() ==> !(#[trigger] n[k] is EmptyQueue));
        assert(rows[i] is EmptyQueue);
    }
}

/// The front of a list holds its first items in order: all of them up to the limit.
pub proof fn law_front_is_the_beginning<T>(items: Seq<T>, limit: nat, k: int)
    requires
        0 <= k < items.len(),
        k < limit,
    ensures
        front(items, limit).len() <= limit,
        front(items, limit).len() <= items.len(),
        k < front(items, limit).len(),
        front(items, limit)[k] == items[k],
{
}

/// The current song stands first under its label.
pub proof fn law_current_song_stands_first(
    song: SongDescriptionView,
    manual: Seq<SongDescriptionView>,
    context: Seq<SongDescriptionView>,
)
    ensures
        rows_of(Some(song), manual, context).len() >= 2,
        rows_of(Some(song), manual, context)[0] == QueueRowView::NowPlayingLabel,
        rows_of(Some(song), manual, context)[1] == QueueRowView::Current(song),
        rows_of(Some(song), manual, context).skip(2) == (if manual.len() == 0 && context.len()
            == 0 {
            Seq::empty()
        } else {
            rows_of(None, manual, context)
        }),
{
    let rows = rows_of(Some(song), manual, context);
    assert(rows.skip(2) =~= (if manual.len() == 0 && context.len() == 0 {
        Seq::empty()
    } else {
        rows_of(None, manual, context)
    }));
}

/// What the user queued comes next under its label, each song with its place.
pub proof fn law_queued_songs_come_next(
    manual: Seq<SongDescriptionView>,
    context: Seq<SongDescriptionView>,
    k: usize,
)
    requires
        k < manual.len(),
    ensures
        rows_of(None, manual, context)[0] == QueueRowView::QueueLabel,
        rows_of(None, manual, context)[1 + k] matches QueueRowView::Queued { song, position, .. }
            && song == manual[k as int] && position == k,
        rows_of(None, manual, context).skip(1 + manual.len() as int) == (if context.len() == 0 {
            Seq::empty()
        } else {
            rows_of(None, Seq::empty(), context)
        }),
{
    let rows = rows_of(None, manual, context);
    assert(rows.skip(1 + manual.len() as int) =~= (if context.len() == 0 {
        Seq::empty()
    } else {
        rows_of(None, Seq::empty(), context)
    }));
}

/// What comes later stands last under its label, in order.
pub proof fn law_later_songs_stand_last(context: Seq<SongDescriptionView>, k: int)
    requires
        0 <= k < context.len(),
    ensures
        rows_of(None, Seq::empty(), context).len() == context.len() + 1,
        rows_of(None, Seq::empty(), context)[0] == QueueRowView::NextLabel,
        rows_of(None, Seq::empty(), context)[1 + k] == QueueRowView::Next(context[k]),
{
}

/// Every label says what stands under it.
pub proof fn law_labels_say_what_follows(row: QueueRow)
    ensures
        row is EmptyQueue ==> label_message(row) == Some("Queue is empty"@),
        row is NowPlayingLabel ==> label_message(row) == Some("Now playing"@),
        row is QueueLabel ==> label_message(row) == Some("Next in queue"@),
        row is NextLabel ==> label_message(row) == Some("Next up"@),
        row is Current || row is Queued || row is Next ==> label_message(row) is None,
{
}

/// The queue lists the current song, then what the user queued, then at most a hundred
/// songs of what comes later.
pub proof fn law_queue_lists_the_state(queue: Queue)
    requires
        queue.shows_state(),
    ensures
        queue.rows.deep_view() == rows_of(
            queue.model.app_model.state.playback.spec_current_song().deep_view(),
            queue.model.app_model.state.playback.manual_queue.deep_view(),
            front(queue.model.app_model.state.playback.context_queue.deep_view(), 100),
        ),
{
}

/// The view of a `QueueRow` is of the same kind and holds the same parts.
pub proof fn law_view_of_queue_row(value: QueueRow)
    ensures
        value is EmptyQueue ==> value.deep_view() == QueueRowView::EmptyQueue,
        value is NowPlayingLabel ==> value.deep_view() == QueueRowView::NowPlayingLabel,
        value matches QueueRow::Current(song) ==> value.deep_view() == QueueRowView::Current(song.deep_view()),
        value is QueueLabel ==> value.deep_view() == QueueRowView::QueueLabel,
        value matches QueueRow::Queued { song, position, can_move_up, can_move_down } ==> value.deep_view() == (QueueRowView::Queued { song: song.deep_view(), position: position, can_move_up: can_move_up, can_move_down: can_move_down }),
        value is NextLabel ==> value.deep_view() == QueueRowView::NextLabel,
        value matches QueueRow::Next(song) ==> value.deep_view() == QueueRowView::Next(song.deep_view()),
{
}

} // verus!
