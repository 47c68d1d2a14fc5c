//! The application state as mathematical values, and what each event makes
//! of it.
//!
//! [`AppView`] is the state; its methods are the transitions. The
//! executable methods of [`App`](crate::tui::app::App) are proved to do
//! what the transitions say.

use vstd::prelude::*;
use crate::models::song::SongView;
use crate::models::video::VideoView;
use crate::tui::app::{ActionView, Key, Pane, NOTIFICATION_TIMEOUT, SEARCH_MAX_RESULTS};
use crate::tui::ui::builder::LayoutBuilderView;
use crate::tui::ui::color_theme::mocha;
use crate::tui::ui::layout::Rect;
use crate::tui::ui::notification::{NotificationType, NotificationView};
use crate::tui::ui::playback::PlaybackView;
use crate::tui::ui::playlist::merged;
use crate::tui::ui::search_bar::without_last;

verus! {

/// The state of the application, as mathematical values.
pub struct AppView {
    pub search_input: Seq<char>,
    pub playlist: Seq<SongView>,
    pub queue: Seq<SongView>,
    pub playback: PlaybackView,
    pub selected_pane: Pane,
    pub search_results: Option<Seq<VideoView>>,
    pub selected_search_index: nat,
    pub selected_playlist_song_index: nat,
    pub notification: Option<NotificationView>,
    pub notification_timeout: nat,
    pub downloading_video_index: Option<nat>,
    pub selected_queue_song_index: nat,
}

/// What an [`Event`](crate::tui::app::Event) holds, as mathematical values.
pub enum EventView {
    Key(Key),
    SearchFinished(Result<Seq<VideoView>, Seq<char>>),
    DownloadFinished { video_id: Seq<char>, outcome: Result<(), Seq<char>> },
    Tick { found: Seq<SongView> },
}

/// An optional index as an optional natural number.
pub open spec fn index_view(index: Option<usize>) -> Option<nat> {
    match index {
        Some(i) => Some(i as nat),
        None => None,
    }
}

/// The pane that a digit key selects.
pub open spec fn digit_pane(c: char) -> Option<Pane> {
    if c == '0' {
        Some(Pane::SearchBar)
    } else if c == '1' {
        Some(Pane::Playlist)
    } else if c == '2' {
        Some(Pane::Queue)
    } else if c == '3' {
        Some(Pane::Playback)
    } else {
        None
    }
}

/// Whether `index` is a valid selection in a list of `len` entries: inside
/// the list, or 0 where the list is empty.
pub open spec fn index_ok(index: nat, len: nat) -> bool {
    if len == 0 {
        index == 0
    } else {
        index < len
    }
}

/// The selection after moving down in a list of `len` entries: one further,
/// but never past the last entry.
pub open spec fn index_down(index: nat, len: nat) -> nat {
    if len == 0 {
        0
    } else if index + 1 < len {
        index + 1
    } else {
        (len - 1) as nat
    }
}

/// The selection after moving up: one back, but never before the first
/// entry.
pub open spec fn index_up(index: nat) -> nat {
    if index > 0 {
        (index - 1) as nat
    } else {
        0
    }
}

/// The selection after the entry at `index` was removed and `len` entries
/// are left: unchanged where it is still inside the list, else the last
/// entry, or 0 where the list is empty.
pub open spec fn index_after_removal(index: nat, len: nat) -> nat {
    if len == 0 {
        0
    } else if index >= len {
        (len - 1) as nat
    } else {
        index
    }
}

/// The text of the error shown when the selected result has no identifier.
pub open spec fn missing_id_message() -> Seq<char> {
    "Failed to process video: Video ID is missing."@
}

/// The text shown when the download of `video_id` has succeeded.
pub open spec fn download_success_message(video_id: Seq<char>) -> Seq<char> {
    "Successfully processed video to MP3: "@ + video_id
}

/// The text shown when a download has failed with `error`.
pub open spec fn download_failure_message(error: Seq<char>) -> Seq<char> {
    "Failed to process video to MP3: "@ + error
}

/// The text shown when a search has failed with `error`.
pub open spec fn search_failure_message(error: Seq<char>) -> Seq<char> {
    "Error searching YouTube: "@ + error
}

impl AppView {
    /// The invariant of the state: every selection is valid for its list,
    /// and search results are held only while their pane has the focus.
    pub open spec fn wf(self) -> bool {
        &&& self.search_results matches Some(results) ==> index_ok(
            self.selected_search_index,
            results.len(),
        ) && self.selected_pane == Pane::SearchResults
        &&& index_ok(self.selected_playlist_song_index, self.playlist.len())
        &&& index_ok(self.selected_queue_song_index, self.queue.len())
    }

    /// The state with `notification` in the slot, instead of whatever was
    /// there.
    pub open spec fn notify(self, message: Seq<char>, notif_type: NotificationType, now: nat)
        -> AppView {
        AppView {
            notification: Some(NotificationView { message, notif_type, timestamp: now }),
            ..self
        }
    }

    /// The state after the notification slot was checked at `now`: a
    /// notification older than the timeout is gone.
    pub open spec fn expire(self, now: nat) -> AppView {
        match self.notification {
            Some(notification) if notification.should_clear(now, self.notification_timeout) => {
                AppView { notification: None, ..self }
            },
            _ => self,
        }
    }

    /// The state with the focus on `pane`. The search results are dropped:
    /// this is how every pane but the results is entered.
    pub open spec fn select_pane(self, pane: Pane) -> AppView {
        AppView { selected_pane: pane, search_results: None, ..self }
    }

    /// The result that `i` would download: the selected one, where results
    /// are shown and the selection is inside them.
    pub open spec fn selected_video(self) -> Option<VideoView> {
        match self.search_results {
            Some(results) if self.selected_search_index < results.len() => Some(
                results[self.selected_search_index as int],
            ),
            _ => None,
        }
    }

    /// The state after `c` was pressed in the search results.
    pub open spec fn on_results_char(self, c: char, now: nat) -> AppView {
        if c == 'j' {
            match self.search_results {
                Some(results) => AppView {
                    selected_search_index: index_down(self.selected_search_index, results.len()),
                    ..self
                },
                None => self,
            }
        } else if c == 'k' {
            AppView { selected_search_index: index_up(self.selected_search_index), ..self }
        } else if c == 'i' {
            match self.selected_video() {
                Some(video) => match video.id {
                    Some(_) => AppView {
                        downloading_video_index: Some(self.selected_search_index),
                        ..self
                    },
                    None => self.notify(missing_id_message(), NotificationType::Error, now),
                },
                None => self,
            }
        } else {
            self
        }
    }

    /// The state after `c` was pressed in the playlist.
    pub open spec fn on_playlist_char(self, c: char) -> AppView {
        let index = self.selected_playlist_song_index;
        if c == 'j' {
            AppView {
                selected_playlist_song_index: index_down(index, self.playlist.len()),
                ..self
            }
        } else if c == 'k' {
            AppView { selected_playlist_song_index: index_up(index), ..self }
        } else if c == 'd' && index < self.playlist.len() {
            let playlist = self.playlist.remove(index as int);
            AppView {
                playlist,
                selected_playlist_song_index: index_after_removal(index, playlist.len()),
                ..self
            }
        } else if c == 'a' && index < self.playlist.len() {
            AppView { queue: self.queue.push(self.playlist[index as int]), ..self }
        } else {
            self
        }
    }

    /// The state after `c` was pressed in the queue.
    pub open spec fn on_queue_char(self, c: char) -> AppView {
        let index = self.selected_queue_song_index;
        if c == 'j' {
            AppView { selected_queue_song_index: index_down(index, self.queue.len()), ..self }
        } else if c == 'k' {
            AppView { selected_queue_song_index: index_up(index), ..self }
        } else {
            self
        }
    }

    /// The state after the key `key` was pressed at `now`.
    ///
    /// The digits 0 to 3 select a pane from anywhere, and `q` quits from
    /// anywhere. Every other key goes to the pane that has the focus, and
    /// does nothing where that pane has no binding for it.
    pub open spec fn on_key(self, key: Key, now: nat) -> AppView {
        match key {
            Key::Char(c) => match digit_pane(c) {
                Some(pane) => self.select_pane(pane),
                None => if c == 'q' {
                    self
                } else {
                    match self.selected_pane {
                        Pane::SearchBar => AppView {
                            search_input: self.search_input.push(c),
                            ..self
                        },
                        Pane::SearchResults => self.on_results_char(c, now),
                        Pane::Playlist => self.on_playlist_char(c),
                        Pane::Queue => self.on_queue_char(c),
                        Pane::Playback => self,
                    }
                },
            },
            Key::Backspace => if self.selected_pane == Pane::SearchBar {
                AppView { search_input: without_last(self.search_input), ..self }
            } else {
                self
            },
            Key::Esc => if self.selected_pane == Pane::SearchResults {
                self.select_pane(Pane::SearchBar)
            } else {
                self
            },
            Key::Enter => self,
            Key::Other => self,
        }
    }

    /// What the caller has to do after the key `key` was pressed in this
    /// state.
    pub open spec fn key_action(self, key: Key) -> ActionView {
        match key {
            Key::Char(c) => if digit_pane(c) is Some {
                ActionView::Idle
            } else if c == 'q' {
                ActionView::Quit
            } else if self.selected_pane == Pane::SearchResults && c == 'i' {
                match self.selected_video() {
                    Some(video) => match video.id {
                        Some(video_id) => ActionView::Download {
                            index: self.selected_search_index,
                            video_id,
                            title: video.snippet.title,
                        },
                        None => ActionView::Idle,
                    },
                    None => ActionView::Idle,
                }
            } else if self.selected_pane == Pane::Playlist && c == 'd'
                && self.selected_playlist_song_index < self.playlist.len() {
                ActionView::DeleteFile {
                    file_name: self.playlist[self.selected_playlist_song_index as int].title,
                }
            } else {
                ActionView::Idle
            },
            Key::Enter => if self.selected_pane == Pane::SearchBar {
                ActionView::Search {
                    query: self.search_input,
                    max_results: SEARCH_MAX_RESULTS as nat,
                }
            } else {
                ActionView::Idle
            },
            _ => ActionView::Idle,
        }
    }

    /// The state after a search has ended at `now`, with the results found
    /// or with the text of an error.
    ///
    /// Results replace those held, with the first one selected and the
    /// focus on them. A failure drops the results held, leaves the focus
    /// where it is and posts the error. Either way the query is emptied.
    pub open spec fn search_finished(
        self,
        outcome: Result<Seq<VideoView>, Seq<char>>,
        now: nat,
    ) -> AppView {
        match outcome {
            Ok(results) => AppView {
                search_results: Some(results),
                selected_search_index: 0,
                selected_pane: Pane::SearchResults,
                search_input: Seq::empty(),
                ..self
            },
            Err(error) => AppView {
                search_results: None,
                search_input: Seq::empty(),
                ..self
            }.notify(search_failure_message(error), NotificationType::Error, now),
        }
    }

    /// The state after the download of `video_id` has ended at `now`, well
    /// or with the text of an error: no download is marked any more, and
    /// the outcome is posted.
    pub open spec fn download_finished(
        self,
        video_id: Seq<char>,
        outcome: Result<(), Seq<char>>,
        now: nat,
    ) -> AppView {
        let cleared = AppView { downloading_video_index: None, ..self };
        match outcome {
            Ok(_) => cleared.notify(
                download_success_message(video_id),
                NotificationType::Success,
                now,
            ),
            Err(error) => cleared.notify(
                download_failure_message(error),
                NotificationType::Error,
                now,
            ),
        }
    }

    /// The state after the files `found` in the music directory were taken
    /// into the playlist.
    pub open spec fn playlist_refreshed(self, found: Seq<SongView>) -> AppView {
        AppView { playlist: merged(self.playlist, found), ..self }
    }
}


impl AppView {
    /// The state in which the application starts: the focus on the search
    /// box, nothing typed, found, queued or posted.
    pub open spec fn initial() -> AppView {
        AppView {
            search_input: Seq::empty(),
            playlist: Seq::empty(),
            queue: Seq::empty(),
            playback: PlaybackView { current_song: "Song 1"@, current_time: 100, total_time: 300 },
            selected_pane: Pane::SearchBar,
            search_results: None,
            selected_search_index: 0,
            selected_playlist_song_index: 0,
            notification: None,
            notification_timeout: NOTIFICATION_TIMEOUT as nat,
            downloading_video_index: None,
            selected_queue_song_index: 0,
        }
    }
}

impl AppView {
    /// What a frame of size `frame` is drawn from in this state: every
    /// pane, the results and the notification as they are, and the
    /// selections.
    pub open spec fn layout(self, frame: Rect) -> LayoutBuilderView {
        LayoutBuilderView {
            frame: Some(frame),
            search_bar: Some(self.search_input),
            playlist: Some(self.playlist),
            queue: Some(self.queue),
            playback: Some(self.playback),
            search_results: self.search_results,
            selected_pane: Some(self.selected_pane),
            selected_search_index: Some(self.selected_search_index),
            selected_playlist_song_index: self.selected_playlist_song_index,
            notification: self.notification,
            downloading_video_index: self.downloading_video_index,
            selected_queue_song_index: self.selected_queue_song_index,
            theme: mocha(),
        }
    }

    /// The state after the event `event` was taken in at `now`.
    pub open spec fn on_event(self, event: EventView, now: nat) -> AppView {
        match event {
            EventView::Key(key) => self.on_key(key, now),
            EventView::SearchFinished(outcome) => self.search_finished(outcome, now),
            EventView::DownloadFinished { video_id, outcome } => self.download_finished(
                video_id,
                outcome,
                now,
            ),
            EventView::Tick { found } => self.expire(now).playlist_refreshed(found),
        }
    }

    /// What the caller has to do after the event `event` was taken in in
    /// this state: only a key leaves anything to do.
    pub open spec fn event_action(self, event: EventView) -> ActionView {
        match event {
            EventView::Key(key) => self.key_action(key),
            _ => ActionView::Idle,
        }
    }

    /// The state after the key presses `presses`, each a key and the time
    /// at which it was pressed, in the order given.
    pub open spec fn on_keys(self, presses: Seq<(Key, nat)>) -> AppView
        decreases presses.len(),
    {
        if presses.len() == 0 {
            self
        } else {
            self.on_keys(presses.drop_last()).on_key(presses.last().0, presses.last().1)
        }
    }

    /// The state after the events `events`, each with the time at which it
    /// was taken in, in the order given.
    pub open spec fn on_events(self, events: Seq<(EventView, nat)>) -> AppView
        decreases events.len(),
    {
        if events.len() == 0 {
            self
        } else {
            self.on_events(events.drop_last()).on_event(events.last().0, events.last().1)
        }
    }
}

/// Whether `key` has a binding while `pane` has the focus.
pub open spec fn is_bound(pane: Pane, key: Key) -> bool {
    match key {
        Key::Char(c) => digit_pane(c) is Some || c == 'q' || match pane {
            Pane::SearchBar => true,
            Pane::SearchResults => c == 'j' || c == 'k' || c == 'i',
            Pane::Playlist => c == 'j' || c == 'k' || c == 'd' || c == 'a',
            Pane::Queue => c == 'j' || c == 'k',
            Pane::Playback => false,
        },
        Key::Backspace => pane == Pane::SearchBar,
        Key::Enter => pane == Pane::SearchBar,
        Key::Esc => pane == Pane::SearchResults,
        Key::Other => false,
    }
}

/// Whether `key` is one of the digit keys that select a pane.
pub open spec fn is_digit_key(key: Key) -> bool {
    key matches Key::Char(c) && digit_pane(c) is Some
}

/// Whether `key` moves the selection: `j` or `k`.
pub open spec fn is_move_key(key: Key) -> bool {
    key == Key::Char('j') || key == Key::Char('k')
}

} // verus!
