//! The application state and the methods that change it.
//!
//! The state is one value, [`App`]. Every change to it is a method here:
//! [`App::handle_key`] for a key press, [`App::finish_search`] and
//! [`App::finish_download`] for background work that has ended,
//! [`App::check_notification_timeout`] and [`App::refresh_playlist`] for the
//! start of a frame; [`App::apply`] takes any of these as an [`Event`].
//! Each method says what it does over [`AppView`], the state as mathematical
//! values, and hands back as an [`Action`] what the caller has to do
//! outside: start a search or a download, delete a file, quit.
//!
//! Nothing here waits, locks or reads a clock. The caller keeps the state
//! behind its lock, performs the actions off the lock, and passes the time
//! in, in milliseconds of a clock that does not go back.

use vstd::prelude::*;
use crate::models::song::{Song, SongView};
use crate::models::video::{Video, VideoView};
use crate::tui::laws::lemma_on_key_keeps_wf;
use crate::tui::model::{
    digit_pane, index_down, index_up, index_view, AppView, EventView,
};
use crate::tui::ui::builder::{takes, LayoutBuilder, Part, Screen};
use crate::tui::ui::layout::Rect;
use crate::tui::ui::notification::{Notification, NotificationType};
use crate::tui::ui::playback::Playback;
use crate::tui::ui::playlist::{lemma_merged_extends, Playlist};
use crate::tui::ui::queue::Queue;
use crate::tui::ui::search_bar::SearchBar;

verus! {

/// How long a notification stays, in milliseconds.
pub const NOTIFICATION_TIMEOUT: u64 = 5000;

/// How many results a search asks for.
pub const SEARCH_MAX_RESULTS: u8 = 10;

/// How long the render loop waits for a key before it draws the next
/// frame, in milliseconds.
pub const POLL_TIMEOUT: u64 = 100;

/// A display region that can have the focus.
#[derive(Clone, Copy, Debug, PartialEq, Eq, Structural)]
pub enum Pane {
    SearchBar,
    Playlist,
    Queue,
    Playback,
    SearchResults,
}

/// A key press, as far as the bindings tell keys apart.
#[derive(Clone, Copy, Debug, PartialEq, Eq, Structural)]
pub enum Key {
    Char(char),
    Backspace,
    Enter,
    Esc,
    Other,
}

/// What the caller has to do after an event was taken in.
#[derive(Debug, PartialEq, Eq)]
pub enum Action {
    /// Nothing.
    Idle,
    /// Restore the terminal and end the process.
    Quit,
    /// Start a search for `query` in the background and report its outcome
    /// to [`App::finish_search`].
    Search { query: String, max_results: u8 },
    /// Start the download of the result at `index` in the background and
    /// report its outcome to [`App::finish_download`].
    Download { index: usize, video_id: String, title: String },
    /// Delete the file `file_name` from the music directory.
    DeleteFile { file_name: String },
}

/// What an [`Action`] holds, as mathematical values.
pub enum ActionView {
    Idle,
    Quit,
    Search { query: Seq<char>, max_results: nat },
    Download { index: nat, video_id: Seq<char>, title: Seq<char> },
    DeleteFile { file_name: Seq<char> },
}

impl View for Action {
    type V = ActionView;

    open spec fn view(&self) -> ActionView {
        match self {
            Action::Idle => ActionView::Idle,
            Action::Quit => ActionView::Quit,
            Action::Search { query, max_results } => ActionView::Search {
                query: query@,
                max_results: *max_results as nat,
            },
            Action::Download { index, video_id, title } => ActionView::Download {
                index: *index as nat,
                video_id: video_id@,
                title: title@,
            },
            Action::DeleteFile { file_name } => ActionView::DeleteFile { file_name: file_name@ },
        }
    }
}

/// The whole state of the application.
#[derive(Debug, PartialEq, Eq)]
pub struct App {
    /// The search box and the query typed so far.
    pub search_bar: SearchBar,
    /// The songs of the music directory.
    pub playlist: Playlist,
    /// The songs lined up to be played.
    pub queue: Queue,
    /// The song that is playing.
    pub playback: Playback,
    /// The pane that has the focus.
    pub selected_pane: Pane,
    /// The results of the last search that succeeded, while they are shown.
    pub search_results: Option<Vec<Video>>,
    /// The selected result; of no meaning while there are no results.
    pub selected_search_index: usize,
    /// The selected song of the playlist.
    pub selected_playlist_song_index: usize,
    /// The notification that is posted, if any. A new one takes the place
    /// of the old one.
    pub notification: Option<Notification>,
    /// How long a notification stays, in milliseconds.
    pub notification_timeout: u64,
    /// The place, in the results shown when it began, of the download that
    /// was started last and has not ended. It is not moved when a new
    /// search replaces the results, and the end of any download clears it.
    pub downloading_video_index: Option<usize>,
    /// The selected song of the queue.
    pub selected_queue_song_index: usize,
}

/// Something that has happened and that the state has to take in.
#[derive(Debug, PartialEq, Eq)]
pub enum Event {
    /// A key was pressed.
    Key(Key),
    /// A search that was started has ended, with the results found or with
    /// the text of an error.
    SearchFinished(Result<Vec<Video>, String>),
    /// The download of `video_id` that was started has ended, well or with
    /// the text of an error.
    DownloadFinished { video_id: String, outcome: Result<(), String> },
    /// A new frame begins; `found` are the files of the music directory
    /// that the playlist asked about.
    Tick { found: Vec<Song> },
}

impl View for Event {
    type V = EventView;

    open spec fn view(&self) -> EventView {
        match self {
            Event::Key(key) => EventView::Key(*key),
            Event::SearchFinished(outcome) => EventView::SearchFinished(
                search_outcome_view(*outcome),
            ),
            Event::DownloadFinished { video_id, outcome } => EventView::DownloadFinished {
                video_id: video_id@,
                outcome: download_outcome_view(*outcome),
            },
            Event::Tick { found } => EventView::Tick { found: found.deep_view() },
        }
    }
}

impl View for App {
    type V = AppView;

    open spec fn view(&self) -> AppView {
        AppView {
            search_input: self.search_bar@,
            playlist: self.playlist@,
            queue: self.queue@,
            playback: self.playback@,
            selected_pane: self.selected_pane,
            search_results: self.search_results.deep_view(),
            selected_search_index: self.selected_search_index as nat,
            selected_playlist_song_index: self.selected_playlist_song_index as nat,
            notification: self.notification.deep_view(),
            notification_timeout: self.notification_timeout as nat,
            downloading_video_index: index_view(self.downloading_video_index),
            selected_queue_song_index: self.selected_queue_song_index as nat,
        }
    }
}

/// The outcome of a search as mathematical values.
pub open spec fn search_outcome_view(outcome: Result<Vec<Video>, String>) -> Result<
    Seq<VideoView>,
    Seq<char>,
> {
    match outcome {
        Ok(videos) => Ok(videos.deep_view()),
        Err(error) => Err(error@),
    }
}

/// The outcome of a download as mathematical values.
pub open spec fn download_outcome_view(outcome: Result<(), String>) -> Result<(), Seq<char>> {
    match outcome {
        Ok(_) => Ok(()),
        Err(error) => Err(error@),
    }
}

fn pane_for_digit(c: char) -> (pane: Option<Pane>)
    ensures
        pane == digit_pane(c),
{
    if c == '0' {
        Some(Pane::SearchBar)
    } else if c == '1' {
        Some(Pane::Playlist)
    } else if c == '2' {
        Some(Pane::Queue)
    } else if c == '3' {
        Some(Pane::Playback)
    } else {
        None
    }
}

fn move_down(index: usize, len: usize) -> (next: usize)
    ensures
        next as nat == index_down(index as nat, len as nat),
{
    if len == 0 {
        0
    } else if index < len - 1 {
        index + 1
    } else {
        len - 1
    }
}

fn move_up(index: usize) -> (next: usize)
    ensures
        next as nat == index_up(index as nat),
{
    if index > 0 {
        index - 1
    } else {
        0
    }
}

impl App {
    /// The application as it starts.
    pub fn new() -> (app: Self)
        ensures
            app@ == AppView::initial(),
    {
        let app = App {
            search_bar: SearchBar::new(),
            playlist: Playlist::new(),
            queue: Queue::new(Vec::new()),
            playback: Playback::new("Song 1", 100, 300),
            selected_pane: Pane::SearchBar,
            search_results: None,
            selected_search_index: 0,
            selected_playlist_song_index: 0,
            notification: None,
            notification_timeout: NOTIFICATION_TIMEOUT,
            downloading_video_index: None,
            selected_queue_song_index: 0,
        };
        assert(app@.queue =~= Seq::<SongView>::empty());
        app
    }

    /// Posts a notification at `now`, over whatever was in the slot.
    pub fn set_notification(&mut self, message: String, notif_type: NotificationType, now: u64)
        ensures
            final(self)@ == old(self)@.notify(message@, notif_type, now as nat),
            old(self)@.wf() ==> final(self)@.wf(),
    {
        self.notification = Some(Notification::new(message, notif_type, now));
    }

    /// Empties the notification slot.
    pub fn clear_notification(&mut self)
        ensures
            final(self)@ == (AppView { notification: None, ..old(self)@ }),
            old(self)@.wf() ==> final(self)@.wf(),
    {
        self.notification = None;
    }

    /// Checks the notification slot at `now`, once per tick: a notification
    /// older than the timeout is cleared.
    pub fn check_notification_timeout(&mut self, now: u64)
        ensures
            final(self)@ == old(self)@.expire(now as nat),
            old(self)@.wf() ==> final(self)@.wf(),
    {
        let clear = match &self.notification {
            Some(notification) => notification.should_clear(now, self.notification_timeout),
            None => false,
        };
        if clear {
            self.clear_notification();
        }
    }

    /// Takes the audio files found in the music directory into the
    /// playlist, once per tick.
    pub fn refresh_playlist(&mut self, found: Vec<Song>)
        ensures
            final(self)@ == old(self)@.playlist_refreshed(found.deep_view()),
            old(self)@.wf() ==> final(self)@.wf(),
    {
        proof {
            lemma_merged_extends(self@.playlist, found.deep_view());
        }
        self.playlist.load_playlist(found);
    }

    fn select_pane(&mut self, pane: Pane)
        ensures
            final(self)@ == old(self)@.select_pane(pane),
    {
        self.selected_pane = pane;
        self.search_results = None;
    }

    fn handle_results_char(&mut self, c: char, now: u64) -> (action: Action)
        requires
            old(self).selected_pane == Pane::SearchResults,
            digit_pane(c) is None,
            c != 'q',
        ensures
            final(self)@ == old(self)@.on_results_char(c, now as nat),
            action@ == old(self)@.key_action(Key::Char(c)),
    {
        if c == 'j' {
            let len = match &self.search_results {
                Some(results) => Some(results.len()),
                None => None,
            };
            if let Some(len) = len {
                self.selected_search_index = move_down(self.selected_search_index, len);
            }
            Action::Idle
        } else if c == 'k' {
            self.selected_search_index = move_up(self.selected_search_index);
            Action::Idle
        } else if c == 'i' {
            let index = self.selected_search_index;
            let mut chosen: Option<(Option<String>, String)> = None;
            match &self.search_results {
                Some(results) => {
                    if index < results.len() {
                        let video = &results[index];
                        let video_id = match &video.id.video_id {
                            Some(id) => Some(id.clone()),
                            None => None,
                        };
                        chosen = Some((video_id, video.snippet.title.clone()));
                    }
                },
                None => {},
            }
            match chosen {
                Some((Some(video_id), title)) => {
                    self.downloading_video_index = Some(index);
                    Action::Download { index, video_id, title }
                },
                Some((None, _)) => {
                    self.set_notification(
                        String::from_str("Failed to process video: Video ID is missing."),
                        NotificationType::Error,
                        now,
                    );
                    Action::Idle
                },
                None => Action::Idle,
            }
        } else {
            Action::Idle
        }
    }

    fn handle_playlist_char(&mut self, c: char) -> (action: Action)
        requires
            old(self).selected_pane == Pane::Playlist,
            digit_pane(c) is None,
            c != 'q',
        ensures
            final(self)@ == old(self)@.on_playlist_char(c),
            action@ == old(self)@.key_action(Key::Char(c)),
    {
        let index = self.selected_playlist_song_index;
        let len = self.playlist.songs.len();
        if c == 'j' {
            self.selected_playlist_song_index = move_down(index, len);
            Action::Idle
        } else if c == 'k' {
            self.selected_playlist_song_index = move_up(index);
            Action::Idle
        } else if c == 'd' && index < len {
            let removed = self.playlist.remove_song(index);
            let left = self.playlist.songs.len();
            if left == 0 {
                self.selected_playlist_song_index = 0;
            } else if index >= left {
                self.selected_playlist_song_index = left - 1;
            }
            match removed {
                Some(file_name) => Action::DeleteFile { file_name },
                None => Action::Idle,
            }
        } else if c == 'a' && index < len {
            let song = self.playlist.songs[index].clone();
            self.queue.add_song(song);
            Action::Idle
        } else {
            Action::Idle
        }
    }

    fn handle_queue_char(&mut self, c: char)
        ensures
            final(self)@ == old(self)@.on_queue_char(c),
    {
        let index = self.selected_queue_song_index;
        if c == 'j' {
            self.selected_queue_song_index = move_down(index, self.queue.songs.len());
        } else if c == 'k' {
            self.selected_queue_song_index = move_up(index);
        }
    }

    /// Handles one key press at `now`: changes the state as the bindings
    /// say and returns what is left for the caller to do.
    pub fn handle_key(&mut self, key: Key, now: u64) -> (action: Action)
        ensures
            final(self)@ == old(self)@.on_key(key, now as nat),
            action@ == old(self)@.key_action(key),
            old(self)@.wf() ==> final(self)@.wf(),
    {
        proof {
            if self@.wf() {
                lemma_on_key_keeps_wf(self@, key, now as nat);
            }
        }
        match key {
            Key::Char(c) => match pane_for_digit(c) {
                Some(pane) => {
                    self.select_pane(pane);
                    Action::Idle
                },
                None => {
                    if c == 'q' {
                        Action::Quit
                    } else {
                        match self.selected_pane {
                            Pane::SearchBar => {
                                self.search_bar.update(c);
                                Action::Idle
                            },
                            Pane::SearchResults => self.handle_results_char(c, now),
                            Pane::Playlist => self.handle_playlist_char(c),
                            Pane::Queue => {
                                self.handle_queue_char(c);
                                Action::Idle
                            },
                            Pane::Playback => Action::Idle,
                        }
                    }
                },
            },
            Key::Backspace => {
                if self.selected_pane == Pane::SearchBar {
                    self.search_bar.delete();
                }
                Action::Idle
            },
            Key::Esc => {
                if self.selected_pane == Pane::SearchResults {
                    self.select_pane(Pane::SearchBar);
                }
                Action::Idle
            },
            Key::Enter => {
                if self.selected_pane == Pane::SearchBar {
                    Action::Search {
                        query: self.search_bar.input.clone(),
                        max_results: SEARCH_MAX_RESULTS,
                    }
                } else {
                    Action::Idle
                }
            },
            Key::Other => Action::Idle,
        }
    }

    /// Takes in the outcome of a search that has ended at `now`: the
    /// results found, or the text of the error.
    pub fn finish_search(&mut self, outcome: Result<Vec<Video>, String>, now: u64)
        ensures
            final(self)@ == old(self)@.search_finished(search_outcome_view(outcome), now as nat),
            old(self)@.wf() ==> final(self)@.wf(),
    {
        match outcome {
            Ok(videos) => {
                self.search_results = Some(videos);
                self.selected_search_index = 0;
                self.selected_pane = Pane::SearchResults;
            },
            Err(error) => {
                self.search_results = None;
                let mut message = String::from_str("Error searching YouTube: ");
                message.append(error.as_str());
                self.set_notification(message, NotificationType::Error, now);
            },
        }
        self.search_bar.clear();
    }

    /// Takes in the outcome of the download of `video_id` that has ended at
    /// `now`: success, or the text of the error.
    pub fn finish_download(&mut self, video_id: &str, outcome: Result<(), String>, now: u64)
        ensures
            final(self)@ == old(self)@.download_finished(
                video_id@,
                download_outcome_view(outcome),
                now as nat,
            ),
            old(self)@.wf() ==> final(self)@.wf(),
    {
        match outcome {
            Ok(_) => {
                let mut message = String::from_str("Successfully processed video to MP3: ");
                message.append(video_id);
                self.set_notification(message, NotificationType::Success, now);
            },
            Err(error) => {
                let mut message = String::from_str("Failed to process video to MP3: ");
                message.append(error.as_str());
                self.set_notification(message, NotificationType::Error, now);
            },
        }
        self.downloading_video_index = None;
    }

    /// What a frame of size `frame` is drawn from in this state.
    pub fn layout(&self, frame: Rect) -> (builder: LayoutBuilder<'_>)
        ensures
            builder@ == self@.layout(frame),
    {
        LayoutBuilder::new().frame(frame).selected_pane(&self.selected_pane).search_bar(
            self.search_bar.clone(),
        ).playlist(self.playlist.clone()).queue(self.queue.clone()).playback(
            self.playback.clone(),
        ).search_results(self.search_results.clone()).selected_search_index(
            self.selected_search_index,
        ).selected_playlist_song_index(self.selected_playlist_song_index).downloading_video_index(
            self.downloading_video_index,
        ).notification(self.notification.as_ref()).selected_queue_song_index(
            self.selected_queue_song_index,
        )
    }

    /// The screen of this state on a frame of size `frame`, where one can
    /// be built.
    pub fn screen(&self, frame: Rect) -> (screen: Option<Screen>)
        ensures
            !self@.layout(frame).can_draw() ==> screen is None,
            !takes(Part::Frame, frame) ==> screen is None,
            screen matches Some(built) ==> built@ == self@.layout(frame).screen(built.areas),
    {
        self.layout(frame).build()
    }

    /// Takes in one event at `now` and returns what is left for the caller
    /// to do. A tick checks the notification slot and then takes the files
    /// found into the playlist.
    pub fn apply(&mut self, event: Event, now: u64) -> (action: Action)
        ensures
            final(self)@ == old(self)@.on_event(event@, now as nat),
            action@ == old(self)@.event_action(event@),
            old(self)@.wf() ==> final(self)@.wf(),
    {
        match event {
            Event::Key(key) => self.handle_key(key, now),
            Event::SearchFinished(outcome) => {
                self.finish_search(outcome, now);
                Action::Idle
            },
            Event::DownloadFinished { video_id, outcome } => {
                self.finish_download(video_id.as_str(), outcome, now);
                Action::Idle
            },
            Event::Tick { found } => {
                self.check_notification_timeout(now);
                self.refresh_playlist(found);
                Action::Idle
            },
        }
    }
}

impl Clone for App {
    fn clone(&self) -> (copy: Self)
        ensures
            copy@ == self@,
    {
        App {
            search_bar: self.search_bar.clone(),
            playlist: self.playlist.clone(),
            queue: self.queue.clone(),
            playback: self.playback.clone(),
            selected_pane: self.selected_pane,
            search_results: self.search_results.clone(),
            selected_search_index: self.selected_search_index,
            selected_playlist_song_index: self.selected_playlist_song_index,
            notification: self.notification.clone(),
            notification_timeout: self.notification_timeout,
            downloading_video_index: self.downloading_video_index,
            selected_queue_song_index: self.selected_queue_song_index,
        }
    }
}

} // verus!
