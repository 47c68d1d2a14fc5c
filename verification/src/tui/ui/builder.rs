//! The screen as a whole: where each pane goes and what it shows.

use vstd::prelude::*;
use crate::models::song::SongView;
use crate::models::video::{Video, VideoView};
use crate::tui::app::Pane;
use crate::tui::model::index_view;
use crate::tui::ui::color_theme::{mocha, ColorTheme};
use crate::tui::ui::layout::{can_split, split, Direction, Rect};
use crate::tui::ui::notification::{notification_color, Notification, NotificationView};
use crate::tui::ui::playback::{
    playback_widget, Playback, PlaybackView, PlaybackWidget, PlaybackWidgetView,
};
use crate::tui::ui::playlist::{has_title, playlist_widget, Playlist};
use crate::tui::ui::queue::{queue_widget, Queue};
use crate::tui::ui::search_bar::{search_bar_widget, SearchBar};
use crate::tui::ui::style::{fg_style, Color, Style};
use crate::tui::ui::widgets::{
    Block, BlockView, List, ListItem, ListItemView, ListView, Paragraph, ParagraphView, Span,
    SpanView, Table, TableView,
};

verus! {

/// The rectangle of each of the four panes.
#[derive(Clone, Copy, Debug, PartialEq, Eq, Structural)]
pub struct PaneAreas {
    pub search_bar: Rect,
    pub playlist: Rect,
    pub queue: Rect,
    pub playback: Rect,
}

/// An area of the screen that is split in two.
#[derive(Clone, Copy, Debug, PartialEq, Eq, Structural)]
pub enum Part {
    /// The whole frame, split into its left and right halves.
    Frame,
    /// The left half, split into search box over playlist.
    LeftHalf,
    /// The right half, split into queue over playback.
    RightHalf,
}

/// How `part` is split: the direction, and the share of the first and of
/// the second part in percent. The frame is halved side by side; the left
/// half gives a tenth of its height to the search box and the rest to the
/// playlist; the right half gives seven tenths to the queue and the rest to
/// the playback.
pub open spec fn shares_of(part: Part) -> (Direction, u16, u16) {
    match part {
        Part::Frame => (Direction::Horizontal, 50, 50),
        Part::LeftHalf => (Direction::Vertical, 10, 90),
        Part::RightHalf => (Direction::Vertical, 70, 30),
    }
}

/// Whether the layout engine can take `area` to split it as `part` is
/// split.
pub open spec fn takes(part: Part, area: Rect) -> bool {
    can_split(shares_of(part).0, shares_of(part).1, shares_of(part).2, area)
}

/// How `part` is split: what is handed to the layout engine with the area.
pub fn shares(part: Part) -> (plan: (Direction, u16, u16))
    ensures
        plan == shares_of(part),
{
    match part {
        Part::Frame => (Direction::Horizontal, 50, 50),
        Part::LeftHalf => (Direction::Vertical, 10, 90),
        Part::RightHalf => (Direction::Vertical, 70, 30),
    }
}

/// Splits `area` as `part` is split, where the layout engine can take it.
pub fn split_part(part: Part, area: Rect) -> (parts: Option<(Rect, Rect)>)
    ensures
        parts is Some <==> takes(part, area),
{
    let plan = shares(part);
    split(plan.0, plan.1, plan.2, area)
}

impl PaneAreas {
    /// The pane rectangles from the two parts of the left half of the
    /// frame and the two parts of its right half: search box over playlist
    /// on the left, queue over playback on the right.
    pub fn from_halves(left: (Rect, Rect), right: (Rect, Rect)) -> (areas: Self)
        ensures
            areas == (PaneAreas {
                search_bar: left.0,
                playlist: left.1,
                queue: right.0,
                playback: right.1,
            }),
    {
        PaneAreas { search_bar: left.0, playlist: left.1, queue: right.0, playback: right.1 }
    }
}

/// The search results, drawn over the panes.
#[derive(Debug, PartialEq, Eq)]
pub struct Overlay {
    pub area: Rect,
    pub list: List,
}

/// What an [`Overlay`] holds, as mathematical values.
pub struct OverlayView {
    pub area: Rect,
    pub list: ListView,
}

impl View for Overlay {
    type V = OverlayView;

    open spec fn view(&self) -> OverlayView {
        OverlayView { area: self.area, list: self.list@ }
    }
}

impl DeepView for Overlay {
    type V = OverlayView;

    open spec fn deep_view(&self) -> OverlayView {
        self@
    }
}

/// The notification, drawn in the upper right corner of the frame.
#[derive(Debug, PartialEq, Eq)]
pub struct Notice {
    pub area: Rect,
    pub text: Span,
}

/// What a [`Notice`] holds, as mathematical values.
pub struct NoticeView {
    pub area: Rect,
    pub text: SpanView,
}

impl View for Notice {
    type V = NoticeView;

    open spec fn view(&self) -> NoticeView {
        NoticeView { area: self.area, text: self.text@ }
    }
}

impl DeepView for Notice {
    type V = NoticeView;

    open spec fn deep_view(&self) -> NoticeView {
        self@
    }
}

/// One frame of the interface: the rectangle of each pane, the widget of
/// each pane that was given, the overlay of search results where there are
/// any, and the notification where one is posted.
#[derive(Debug, PartialEq, Eq)]
pub struct Screen {
    pub areas: PaneAreas,
    pub search_bar: Option<Paragraph>,
    pub playlist: Option<List>,
    pub queue: Option<Table>,
    pub playback: Option<PlaybackWidget>,
    pub search_results: Option<Overlay>,
    pub notification: Option<Notice>,
}

/// What a [`Screen`] holds, as mathematical values.
pub struct ScreenView {
    pub areas: PaneAreas,
    pub search_bar: Option<ParagraphView>,
    pub playlist: Option<ListView>,
    pub queue: Option<TableView>,
    pub playback: Option<PlaybackWidgetView>,
    pub search_results: Option<OverlayView>,
    pub notification: Option<NoticeView>,
}

impl View for Screen {
    type V = ScreenView;

    open spec fn view(&self) -> ScreenView {
        ScreenView {
            areas: self.areas,
            search_bar: self.search_bar.deep_view(),
            playlist: self.playlist.deep_view(),
            queue: self.queue.deep_view(),
            playback: self.playback.deep_view(),
            search_results: self.search_results.deep_view(),
            notification: self.notification.deep_view(),
        }
    }
}

/// Collects what a frame is drawn from, piece by piece, and builds the
/// screen.
#[derive(Debug, PartialEq, Eq)]
pub struct LayoutBuilder<'a> {
    pub frame: Option<Rect>,
    pub search_bar: Option<SearchBar>,
    pub playlist: Option<Playlist>,
    pub queue: Option<Queue>,
    pub playback: Option<Playback>,
    pub search_results: Option<Vec<Video>>,
    pub selected_pane: Option<&'a Pane>,
    pub selected_search_index: Option<usize>,
    pub selected_playlist_song_index: usize,
    pub notification: Option<&'a Notification>,
    pub downloading_video_index: Option<usize>,
    pub selected_queue_song_index: usize,
    pub theme: ColorTheme,
}

/// What a [`LayoutBuilder`] holds, as mathematical values.
pub struct LayoutBuilderView {
    pub frame: Option<Rect>,
    pub search_bar: Option<Seq<char>>,
    pub playlist: Option<Seq<SongView>>,
    pub queue: Option<Seq<SongView>>,
    pub playback: Option<PlaybackView>,
    pub search_results: Option<Seq<VideoView>>,
    pub selected_pane: Option<Pane>,
    pub selected_search_index: Option<nat>,
    pub selected_playlist_song_index: nat,
    pub notification: Option<NotificationView>,
    pub downloading_video_index: Option<nat>,
    pub selected_queue_song_index: nat,
    pub theme: ColorTheme,
}

impl<'a> View for LayoutBuilder<'a> {
    type V = LayoutBuilderView;

    open spec fn view(&self) -> LayoutBuilderView {
        LayoutBuilderView {
            frame: self.frame,
            search_bar: self.search_bar.deep_view(),
            playlist: self.playlist.deep_view(),
            queue: self.queue.deep_view(),
            playback: self.playback.deep_view(),
            search_results: self.search_results.deep_view(),
            selected_pane: match self.selected_pane {
                Some(pane) => Some(*pane),
                None => None,
            },
            selected_search_index: index_view(self.selected_search_index),
            selected_playlist_song_index: self.selected_playlist_song_index as nat,
            notification: match self.notification {
                Some(notification) => Some(notification@),
                None => None,
            },
            downloading_video_index: index_view(self.downloading_video_index),
            selected_queue_song_index: self.selected_queue_song_index as nat,
            theme: self.theme,
        }
    }
}

/// The sign behind a search result: a check mark where its file is in the
/// playlist, else an hourglass where it is being downloaded, else a warning
/// sign.
pub open spec fn status_symbol(downloaded: bool, downloading: bool) -> Seq<char> {
    if downloaded {
        "\u{2705}"@
    } else if downloading {
        "\u{23f3}"@
    } else {
        "\u{26a0}\u{fe0f}"@
    }
}

/// The rectangle of the overlay on a frame: a quarter of the height, near
/// the top, with a margin of two cells on either side.
pub open spec fn overlay_area(frame: Rect) -> Rect {
    Rect { x: 2, y: 5, width: (frame.width - 4) as u16, height: frame.height / 4 }
}

/// The rectangle of a notification of `length` characters on a frame: in
/// the upper right corner, three rows high for the border, and as wide as
/// the text and the border, as far as the frame has room.
pub open spec fn notice_area(frame: Rect, length: nat) -> Rect {
    let width = if length + 2 <= frame.width {
        (length + 2) as u16
    } else {
        frame.width
    };
    let left = frame.x + (frame.width - width);
    Rect {
        x: if left <= u16::MAX {
            left as u16
        } else {
            u16::MAX
        },
        y: frame.y,
        width,
        height: if frame.height < 3 {
            frame.height
        } else {
            3
        },
    }
}

impl LayoutBuilderView {
    /// The builder before anything was given to it.
    pub open spec fn empty() -> LayoutBuilderView {
        LayoutBuilderView {
            frame: None,
            search_bar: None,
            playlist: None,
            queue: None,
            playback: None,
            search_results: None,
            selected_pane: None,
            selected_search_index: None,
            selected_playlist_song_index: 0,
            notification: None,
            downloading_video_index: None,
            selected_queue_song_index: 0,
            theme: mocha(),
        }
    }

    /// The style of a pane: the accent color `accent` where the pane has
    /// the focus, else the color of ordinary text.
    pub open spec fn pane_style(self, pane: Pane, accent: Color) -> Style {
        fg_style(
            if self.selected_pane == Some(pane) {
                accent
            } else {
                self.theme.text
            },
        )
    }

    /// Whether the song of a result titled `title` is in the playlist
    /// given: a song is named `title` followed by `.mp3`.
    pub open spec fn is_downloaded(self, title: Seq<char>) -> bool {
        match self.playlist {
            Some(songs) => has_title(songs, title + ".mp3"@),
            None => false,
        }
    }

    /// The entry of the result at `index` in the overlay: title, channel
    /// and download sign; in the accent color where it is selected.
    pub open spec fn result_item(self, video: VideoView, index: nat) -> ListItemView {
        ListItemView {
            spans: seq![
                SpanView {
                    content: video.snippet.title + " - "@ + video.snippet.channel_title + " "@
                        + status_symbol(
                        self.is_downloaded(video.snippet.title),
                        self.downloading_video_index == Some(index),
                    ),
                    style: Style { fg: None, bg: None },
                },
            ],
            style: fg_style(
                if self.selected_search_index == Some(index) {
                    self.theme.accent2
                } else {
                    self.theme.text
                },
            ),
        }
    }

    /// The overlay of the results `results` on the frame `frame`.
    pub open spec fn overlay(self, frame: Rect, results: Seq<VideoView>) -> OverlayView {
        OverlayView {
            area: overlay_area(frame),
            list: ListView {
                block: BlockView {
                    title: "Search Results"@,
                    style: Style { fg: Some(self.theme.text), bg: Some(self.theme.background) },
                    border_style: fg_style(self.theme.accent1),
                },
                items: Seq::new(results.len(), |i: int| self.result_item(results[i], i as nat)),
                style: Style { fg: None, bg: None },
            },
        }
    }

    /// Whether a screen can be built: the frame was given, and it is wide
    /// enough for the margins of the overlay where results are to be
    /// shown.
    pub open spec fn can_draw(self) -> bool {
        self.frame matches Some(frame) && (self.search_results is Some ==> frame.width >= 4)
    }

    /// The screen that is built on the pane rectangles `areas`.
    pub open spec fn screen(self, areas: PaneAreas) -> ScreenView
        recommends
            self.can_draw(),
    {
        ScreenView {
            areas,
            search_bar: match self.search_bar {
                Some(input) => Some(
                    search_bar_widget(input, self.pane_style(Pane::SearchBar, self.theme.accent2)),
                ),
                None => None,
            },
            playlist: match self.playlist {
                Some(songs) => Some(
                    playlist_widget(
                        songs,
                        self.pane_style(Pane::Playlist, self.theme.accent1),
                        self.selected_playlist_song_index,
                    ),
                ),
                None => None,
            },
            queue: match self.queue {
                Some(songs) => Some(
                    queue_widget(
                        songs,
                        self.pane_style(Pane::Queue, self.theme.accent2),
                        self.selected_queue_song_index,
                    ),
                ),
                None => None,
            },
            playback: match self.playback {
                Some(playback) => Some(
                    playback_widget(playback, self.pane_style(Pane::Playback, self.theme.accent2)),
                ),
                None => None,
            },
            search_results: match self.search_results {
                Some(results) => Some(self.overlay(self.frame.unwrap(), results)),
                None => None,
            },
            notification: match self.notification {
                Some(notification) => Some(
                    NoticeView {
                        area: notice_area(self.frame.unwrap(), notification.message.len()),
                        text: SpanView {
                            content: notification.message,
                            style: fg_style(notification_color(notification.notif_type)),
                        },
                    },
                ),
                None => None,
            },
        }
    }
}

fn status_text(downloaded: bool, downloading: bool) -> (symbol: &'static str)
    ensures
        symbol@ == status_symbol(downloaded, downloading),
{
    if downloaded {
        "\u{2705}"
    } else if downloading {
        "\u{23f3}"
    } else {
        "\u{26a0}\u{fe0f}"
    }
}

fn notice_rect(frame: Rect, length: usize) -> (area: Rect)
    ensures
        area == notice_area(frame, length as nat),
{
    let width: u16 = if length >= frame.width as usize {
        frame.width
    } else if length + 2 <= frame.width as usize {
        (length + 2) as u16
    } else {
        frame.width
    };
    let shift: u16 = frame.width - width;
    let x: u16 = if shift <= u16::MAX - frame.x {
        frame.x + shift
    } else {
        u16::MAX
    };
    let height: u16 = if frame.height < 3 {
        frame.height
    } else {
        3
    };
    Rect { x, y: frame.y, width, height }
}

fn same_index(index: Option<usize>, i: usize) -> (same: bool)
    ensures
        same == (index_view(index) == Some(i as nat)),
{
    match index {
        Some(j) => j == i,
        None => false,
    }
}

impl<'a> LayoutBuilder<'a> {
    /// A builder to which nothing was given yet.
    pub fn new() -> (builder: Self)
        ensures
            builder@ == LayoutBuilderView::empty(),
    {
        LayoutBuilder {
            frame: None,
            search_bar: None,
            playlist: None,
            queue: None,
            playback: None,
            search_results: None,
            selected_pane: None,
            selected_search_index: None,
            selected_playlist_song_index: 0,
            downloading_video_index: None,
            selected_queue_song_index: 0,
            notification: None,
            theme: ColorTheme::catppuccin_mocha(),
        }
    }

    /// Sets the rectangle of the whole frame.
    pub fn frame(self, frame: Rect) -> (builder: Self)
        ensures
            builder@ == (LayoutBuilderView { frame: Some(frame), ..self@ }),
    {
        let mut builder = self;
        builder.frame = Some(frame);
        builder
    }

    /// Gives the search box.
    pub fn search_bar(self, search_bar: SearchBar) -> (builder: Self)
        ensures
            builder@ == (LayoutBuilderView { search_bar: Some(search_bar@), ..self@ }),
    {
        let mut builder = self;
        builder.search_bar = Some(search_bar);
        builder
    }

    /// Sets which search result is selected.
    pub fn selected_search_index(self, selected_search_index: usize) -> (builder: Self)
        ensures
            builder@ == (LayoutBuilderView {
                selected_search_index: Some(selected_search_index as nat),
                ..self@
            }),
    {
        let mut builder = self;
        builder.selected_search_index = Some(selected_search_index);
        builder
    }

    /// Sets which song of the playlist is selected.
    pub fn selected_playlist_song_index(self, selected_playlist_song_index: usize) -> (builder:
        Self)
        ensures
            builder@ == (LayoutBuilderView {
                selected_playlist_song_index: selected_playlist_song_index as nat,
                ..self@
            }),
    {
        let mut builder = self;
        builder.selected_playlist_song_index = selected_playlist_song_index;
        builder
    }

    /// Sets which song of the queue is selected.
    pub fn selected_queue_song_index(self, selected_queue_song_index: usize) -> (builder: Self)
        ensures
            builder@ == (LayoutBuilderView {
                selected_queue_song_index: selected_queue_song_index as nat,
                ..self@
            }),
    {
        let mut builder = self;
        builder.selected_queue_song_index = selected_queue_song_index;
        builder
    }

    /// Gives the playlist.
    pub fn playlist(self, playlist: Playlist) -> (builder: Self)
        ensures
            builder@ == (LayoutBuilderView { playlist: Some(playlist@), ..self@ }),
    {
        let mut builder = self;
        builder.playlist = Some(playlist);
        builder
    }

    /// Gives the queue.
    pub fn queue(self, queue: Queue) -> (builder: Self)
        ensures
            builder@ == (LayoutBuilderView { queue: Some(queue@), ..self@ }),
    {
        let mut builder = self;
        builder.queue = Some(queue);
        builder
    }

    /// Gives the playback.
    pub fn playback(self, playback: Playback) -> (builder: Self)
        ensures
            builder@ == (LayoutBuilderView { playback: Some(playback@), ..self@ }),
    {
        let mut builder = self;
        builder.playback = Some(playback);
        builder
    }

    /// Gives the search results, or says that there are none to show.
    pub fn search_results(self, search_results: Option<Vec<Video>>) -> (builder: Self)
        ensures
            builder@ == (LayoutBuilderView {
                search_results: search_results.deep_view(),
                ..self@
            }),
    {
        let mut builder = self;
        builder.search_results = search_results;
        builder
    }

    /// Sets which search result is being downloaded, if any.
    pub fn downloading_video_index(self, index: Option<usize>) -> (builder: Self)
        ensures
            builder@ == (LayoutBuilderView {
                downloading_video_index: index_view(index),
                ..self@
            }),
    {
        let mut builder = self;
        builder.downloading_video_index = index;
        builder
    }

    /// Sets which pane has the focus.
    pub fn selected_pane(self, selected_pane: &'a Pane) -> (builder: Self)
        ensures
            builder@ == (LayoutBuilderView { selected_pane: Some(*selected_pane), ..self@ }),
    {
        let mut builder = self;
        builder.selected_pane = Some(selected_pane);
        builder
    }

    /// Gives the notification that is posted, if any.
    pub fn notification(self, notification: Option<&'a Notification>) -> (builder: Self)
        ensures
            builder@ == (LayoutBuilderView {
                notification: match notification {
                    Some(posted) => Some(posted@),
                    None => None,
                },
                ..self@
            }),
    {
        let mut builder = self;
        builder.notification = notification;
        builder
    }

    fn style_for(&self, pane: Pane, accent: Color) -> (style: Style)
        ensures
            style == self@.pane_style(pane, accent),
    {
        let focused = match self.selected_pane {
            Some(selected) => *selected == pane,
            None => false,
        };
        if focused {
            Style::default().fg(accent)
        } else {
            Style::default().fg(self.theme.text)
        }
    }

    fn result_entry(&self, video: &Video, index: usize) -> (item: ListItem)
        ensures
            item@ == self@.result_item(video@, index as nat),
    {
        let downloaded = match &self.playlist {
            Some(playlist) => {
                let mut file_name = video.snippet.title.clone();
                file_name.append(".mp3");
                playlist.contains_title(file_name.as_str())
            },
            None => false,
        };
        let downloading = same_index(self.downloading_video_index, index);
        let mut content = video.snippet.title.clone();
        content.append(" - ");
        content.append(video.snippet.channel_title.as_str());
        content.append(" ");
        content.append(status_text(downloaded, downloading));
        let color = if same_index(self.selected_search_index, index) {
            self.theme.accent2
        } else {
            self.theme.text
        };
        let mut spans: Vec<Span> = Vec::new();
        spans.push(Span { content, style: Style::default() });
        let item = ListItem { spans, style: Style::default().fg(color) };
        assert(item@.spans =~= self@.result_item(video@, index as nat).spans);
        item
    }

    fn result_overlay(&self, frame: Rect, results: &Vec<Video>) -> (overlay: Overlay)
        requires
            frame.width >= 4,
        ensures
            overlay@ == self@.overlay(frame, results.deep_view()),
    {
        let mut items: Vec<ListItem> = Vec::new();
        let mut i: usize = 0;
        while i < results.len()
            invariant
                i <= results.len(),
                items.len() == i,
                forall|j: int|
                    0 <= j < i ==> (#[trigger] items[j])@ == self@.result_item(
                        results[j]@,
                        j as nat,
                    ),
            decreases results.len() - i,
        {
            items.push(self.result_entry(&results[i], i));
            i += 1;
        }
        let block = Block {
            title: String::from_str("Search Results"),
            style: Style::default().bg(self.theme.background).fg(self.theme.text),
            border_style: Style::default().fg(self.theme.accent1),
        };
        let overlay = Overlay {
            area: Rect { x: 2, y: 5, width: frame.width - 4, height: frame.height / 4 },
            list: List { block, items, style: Style::default() },
        };
        assert(overlay@.list.items =~= self@.overlay(frame, results.deep_view()).list.items);
        overlay
    }

    /// Splits the frame into the rectangles of the four panes: into left
    /// and right halves as [`shares_of`] says of [`Part::Frame`], and these
    /// as [`LayoutBuilder::arrange_halves`] says. There are none where no
    /// frame was given or where the layout engine cannot take the frame.
    /// Past that, the halves that the layout engine returns decide.
    pub fn arrange(&self) -> (areas: Option<PaneAreas>)
        ensures
            self.frame is None ==> areas is None,
            self.frame matches Some(frame) && !takes(Part::Frame, frame) ==> areas is None,
    {
        let frame = match self.frame {
            Some(frame) => frame,
            None => {
                return None;
            },
        };
        match split_part(Part::Frame, frame) {
            Some(halves) => Self::arrange_halves(halves),
            None => None,
        }
    }

    /// Builds the screen on the pane rectangles `areas`: each pane that was
    /// given, in the accent color where it has the focus; the overlay
    /// where results were given; the notification where one was given.
    /// There is no screen where no frame was given, or where results are
    /// to be shown on a frame narrower than the margins of the overlay.
    pub fn compose(self, areas: PaneAreas) -> (screen: Option<Screen>)
        ensures
            screen is Some <==> self@.can_draw(),
            screen matches Some(built) ==> built@ == self@.screen(areas),
    {
        let frame = match self.frame {
            Some(frame) => frame,
            None => {
                return None;
            },
        };
        if self.search_results.is_some() && frame.width < 4 {
            return None;
        }
        let search_bar = match &self.search_bar {
            Some(search_bar) => Some(
                search_bar.render_with_style(self.style_for(Pane::SearchBar, self.theme.accent2)),
            ),
            None => None,
        };
        let playlist = match &self.playlist {
            Some(playlist) => Some(
                playlist.render_with_style(
                    self.style_for(Pane::Playlist, self.theme.accent1),
                    self.selected_playlist_song_index,
                ),
            ),
            None => None,
        };
        let queue = match &self.queue {
            Some(queue) => Some(
                queue.render_with_style(
                    self.style_for(Pane::Queue, self.theme.accent2),
                    self.selected_queue_song_index,
                ),
            ),
            None => None,
        };
        let playback = match &self.playback {
            Some(playback) => Some(
                playback.render_with_style(self.style_for(Pane::Playback, self.theme.accent2)),
            ),
            None => None,
        };
        let search_results = match &self.search_results {
            Some(results) => Some(self.result_overlay(frame, results)),
            None => None,
        };
        let notification = match self.notification {
            Some(posted) => Some(
                Notice {
                    area: notice_rect(frame, posted.message.as_str().unicode_len()),
                    text: Span { content: posted.message.clone(), style: posted.style() },
                },
            ),
            None => None,
        };
        Some(Screen { areas, search_bar, playlist, queue, playback, search_results, notification })
    }

    /// Builds the screen of one frame: splits the frame into the pane
    /// rectangles and composes the screen on them.
    pub fn build(self) -> (screen: Option<Screen>)
        ensures
            !self@.can_draw() ==> screen is None,
            self.frame matches Some(frame) && !takes(Part::Frame, frame) ==> screen is None,
            screen matches Some(built) ==> built@ == self@.screen(built.areas),
    {
        match self.arrange() {
            Some(areas) => self.compose(areas),
            None => None,
        }
    }

    /// Splits the two halves of a frame, as the layout engine has returned
    /// them, into the rectangles of the four panes: the left half as
    /// [`shares_of`] says of [`Part::LeftHalf`], the right half as it says
    /// of [`Part::RightHalf`]. There are some exactly where the layout
    /// engine can take both halves.
    pub fn arrange_halves(halves: (Rect, Rect)) -> (areas: Option<PaneAreas>)
        ensures
            areas is Some <==> takes(Part::LeftHalf, halves.0) && takes(Part::RightHalf, halves.1),
    {
        let left = match split_part(Part::LeftHalf, halves.0) {
            Some(left) => left,
            None => {
                return None;
            },
        };
        let right = match split_part(Part::RightHalf, halves.1) {
            Some(right) => right,
            None => {
                return None;
            },
        };
        Some(PaneAreas::from_halves(left, right))
    }
}

} // verus!
