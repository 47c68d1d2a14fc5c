//! What holds of the transitions of the state, whatever the state and
//! whatever the events.

use vstd::prelude::*;
use crate::models::song::SongView;
use crate::models::video::VideoView;
use crate::tui::app::{ActionView, Key, Pane};
use crate::tui::model::{
    digit_pane, index_ok, is_bound, is_digit_key, is_move_key, AppView, EventView,
};
use crate::tui::ui::notification::{NotificationType, NotificationView};
use crate::tui::ui::playlist::lemma_merged_extends;

verus! {

/// The starting state is valid.
pub proof fn lemma_initial_wf()
    ensures
        AppView::initial().wf(),
{
}

/// A key press takes a valid state to a valid state.
pub proof fn lemma_on_key_keeps_wf(state: AppView, key: Key, now: nat)
    requires
        state.wf(),
    ensures
        state.on_key(key, now).wf(),
{
}

/// Any number of key presses take a valid state to a valid state.
pub proof fn lemma_on_keys_keeps_wf(state: AppView, presses: Seq<(Key, nat)>)
    requires
        state.wf(),
    ensures
        state.on_keys(presses).wf(),
    decreases presses.len(),
{
    if presses.len() > 0 {
        lemma_on_keys_keeps_wf(state, presses.drop_last());
        lemma_on_key_keeps_wf(
            state.on_keys(presses.drop_last()),
            presses.last().0,
            presses.last().1,
        );
    }
}

/// The end of a search or of a download, a new notification and the check
/// of the notification slot each take a valid state to a valid state.
pub proof fn lemma_completions_keep_wf(
    state: AppView,
    search: Result<Seq<VideoView>, Seq<char>>,
    video_id: Seq<char>,
    download: Result<(), Seq<char>>,
    message: Seq<char>,
    notif_type: NotificationType,
    now: nat,
)
    requires
        state.wf(),
    ensures
        state.search_finished(search, now).wf(),
        state.download_finished(video_id, download, now).wf(),
        state.notify(message, notif_type, now).wf(),
        state.expire(now).wf(),
{
}

/// Taking the files found into the playlist keeps what it held, in place,
/// so that a valid state stays valid.
pub proof fn lemma_refresh_keeps_wf(state: AppView, found: Seq<SongView>)
    requires
        state.wf(),
    ensures
        state.playlist_refreshed(found).wf(),
        state.playlist.is_prefix_of(state.playlist_refreshed(found).playlist),
{
    lemma_merged_extends(state.playlist, found);
}

/// A digit key from 0 to 3 puts the focus on its own pane, from any state
/// and whatever was pressed before: after each press of a run of digit
/// keys, the pane with the focus is the one that the last digit names.
pub proof fn lemma_digit_keys_select_pane(state: AppView, presses: Seq<(Key, nat)>, i: int)
    requires
        0 <= i < presses.len(),
        forall|j: int| 0 <= j < presses.len() ==> is_digit_key(#[trigger] presses[j].0),
    ensures
        presses[i].0 matches Key::Char(c) && digit_pane(c) == Some(
            state.on_keys(presses.take(i + 1)).selected_pane,
        ),
{
    assert(presses.take(i + 1).last() == presses[i]);
}

/// While results are shown, `j` and `k` never take the selection out of
/// them: after any number of such presses the same results are shown and
/// the selection is one of them.
pub proof fn lemma_moves_stay_in_results(
    state: AppView,
    results: Seq<VideoView>,
    presses: Seq<(Key, nat)>,
)
    requires
        state.wf(),
        state.search_results == Some(results),
        results.len() > 0,
        forall|j: int| 0 <= j < presses.len() ==> is_move_key(#[trigger] presses[j].0),
    ensures
        state.on_keys(presses).search_results == Some(results),
        state.on_keys(presses).selected_pane == Pane::SearchResults,
        state.on_keys(presses).selected_search_index < results.len(),
    decreases presses.len(),
{
    if presses.len() > 0 {
        let before = presses.drop_last();
        assert forall|j: int| 0 <= j < before.len() implies is_move_key(#[trigger] before[j].0) by {
            assert(before[j] == presses[j]);
        }
        lemma_moves_stay_in_results(state, results, before);
    }
}

/// A notification posted at `posted` is still in the slot when the slot is
/// checked up to the timeout later, and gone when it is checked any later
/// than that.
pub proof fn lemma_notification_expiry(
    state: AppView,
    message: Seq<char>,
    notif_type: NotificationType,
    posted: nat,
    now: nat,
)
    ensures
        now <= posted + state.notification_timeout ==> state.notify(
            message,
            notif_type,
            posted,
        ).expire(now).notification == Some(
            NotificationView { message, notif_type, timestamp: posted },
        ),
        now > posted + state.notification_timeout ==> state.notify(
            message,
            notif_type,
            posted,
        ).expire(now).notification is None,
{
}

/// Leaving the search results, by a digit key or by Esc, drops them.
pub proof fn lemma_leaving_results_drops_them(state: AppView, key: Key, now: nat)
    requires
        state.selected_pane == Pane::SearchResults,
        is_digit_key(key) || key == Key::Esc,
    ensures
        state.on_key(key, now).search_results is None,
        state.on_key(key, now).selected_pane != Pane::SearchResults,
{
}

/// In a valid state, results are held only while their pane has the focus.
pub proof fn lemma_results_only_in_their_pane(state: AppView)
    requires
        state.wf(),
        state.selected_pane != Pane::SearchResults,
    ensures
        state.search_results is None,
{
}

/// `d` in the playlist removes the selected song and no other, leaves the
/// selection inside the playlist, or at 0 where the playlist is now empty,
/// and names the file of the removed song for deletion.
pub proof fn lemma_delete_removes_selected(state: AppView, now: nat)
    requires
        state.selected_pane == Pane::Playlist,
        state.selected_playlist_song_index < state.playlist.len(),
    ensures
        ({
            let i = state.selected_playlist_song_index as int;
            let after = state.on_key(Key::Char('d'), now);
            &&& after.playlist == state.playlist.remove(i)
            &&& after.playlist.len() == state.playlist.len() - 1
            &&& forall|j: int| 0 <= j < i ==> after.playlist[j] == state.playlist[j]
            &&& forall|j: int|
                i <= j < after.playlist.len() ==> after.playlist[j] == state.playlist[j + 1]
            &&& index_ok(after.selected_playlist_song_index, after.playlist.len())
            &&& after.queue == state.queue
            &&& state.key_action(Key::Char('d')) == ActionView::DeleteFile {
                file_name: state.playlist[i].title,
            }
        }),
{
}

/// A key without a binding in the pane that has the focus changes nothing
/// and leaves nothing to do.
pub proof fn lemma_unbound_key_does_nothing(state: AppView, key: Key, now: nat)
    requires
        !is_bound(state.selected_pane, key),
    ensures
        state.on_key(key, now) == state,
        state.key_action(key) == ActionView::Idle,
{
}

/// `q` asks to quit from every pane, and changes nothing.
pub proof fn lemma_q_quits_everywhere(state: AppView, now: nat)
    ensures
        state.on_key(Key::Char('q'), now) == state,
        state.key_action(Key::Char('q')) == ActionView::Quit,
{
}

/// The query changes only while the search box has the focus.
pub proof fn lemma_query_changes_only_in_search_bar(state: AppView, key: Key, now: nat)
    requires
        state.selected_pane != Pane::SearchBar,
    ensures
        state.on_key(key, now).search_input == state.search_input,
{
}

/// Of two notifications posted one after the other, the second is the one
/// in the slot.
pub proof fn lemma_last_notification_wins(
    state: AppView,
    first: NotificationView,
    second: NotificationView,
)
    ensures
        state.notify(first.message, first.notif_type, first.timestamp).notify(
            second.message,
            second.notif_type,
            second.timestamp,
        ).notification == Some(second),
{
}

/// An event takes a valid state to a valid state.
pub proof fn lemma_on_event_keeps_wf(state: AppView, event: EventView, now: nat)
    requires
        state.wf(),
    ensures
        state.on_event(event, now).wf(),
{
    match event {
        EventView::Tick { found } => {
            lemma_merged_extends(state.expire(now).playlist, found);
        },
        _ => {},
    }
}

/// The state is valid after every event: key presses, ends of searches and
/// downloads and ticks, in any order and at any times, take a valid state
/// to a valid state.
pub proof fn lemma_on_events_keeps_wf(state: AppView, events: Seq<(EventView, nat)>)
    requires
        state.wf(),
    ensures
        state.on_events(events).wf(),
    decreases events.len(),
{
    if events.len() > 0 {
        lemma_on_events_keeps_wf(state, events.drop_last());
        lemma_on_event_keeps_wf(
            state.on_events(events.drop_last()),
            events.last().0,
            events.last().1,
        );
    }
}

/// Once a download has ended, none is marked, whichever download it was
/// and whatever was marked before.
pub proof fn lemma_download_end_clears_mark(
    state: AppView,
    video_id: Seq<char>,
    outcome: Result<(), Seq<char>>,
    now: nat,
)
    ensures
        state.download_finished(video_id, outcome, now).downloading_video_index is None,
{
}

} // verus!
