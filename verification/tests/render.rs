use rusty_songs::models::song::Song;
use rusty_songs::models::video::{Snippet, Video, VideoId};
use rusty_songs::tui::app::{App, Event, Key, Pane};
use rusty_songs::tui::ui::builder::{
    shares, split_part, LayoutBuilder, Notice, PaneAreas, Part,
};
use rusty_songs::tui::ui::color_theme::ColorTheme;
use rusty_songs::tui::ui::layout::{first_two, split, Direction, Rect};
use rusty_songs::tui::ui::notification::{Notification, NotificationType};
use rusty_songs::tui::ui::playback::Playback;
use rusty_songs::tui::ui::playlist::Playlist;
use rusty_songs::tui::ui::queue::Queue;
use rusty_songs::tui::ui::search_bar::SearchBar;
use rusty_songs::tui::ui::style::{Color, Style};
use rusty_songs::tui::ui::widgets::{Block, ListItem, Row, Span};

const TEXT: Color = Color::Rgb(217, 224, 238);
const HIGHLIGHT: Color = Color::Rgb(245, 224, 220);
const ACCENT1: Color = Color::Rgb(242, 205, 205);
const ACCENT2: Color = Color::Rgb(148, 226, 213);
const BACKGROUND: Color = Color::Rgb(30, 30, 46);

fn fg(color: Color) -> Style {
    Style { fg: Some(color), bg: None }
}

fn plain() -> Style {
    Style { fg: None, bg: None }
}

fn tune(title: &str, duration: u64) -> Song {
    Song { title: title.to_string(), duration }
}

fn found(id: Option<&str>, title: &str, channel: &str) -> Video {
    Video {
        id: VideoId { video_id: id.map(|s| s.to_string()) },
        snippet: Snippet {
            title: title.to_string(),
            description: "d".to_string(),
            channel_title: channel.to_string(),
        },
    }
}

fn playlist_of(songs: Vec<Song>) -> Playlist {
    let mut playlist = Playlist::new();
    playlist.load_playlist(songs);
    playlist
}

fn areas() -> PaneAreas {
    PaneAreas {
        search_bar: Rect { x: 0, y: 0, width: 1, height: 1 },
        playlist: Rect { x: 1, y: 1, width: 2, height: 2 },
        queue: Rect { x: 2, y: 2, width: 3, height: 3 },
        playback: Rect { x: 3, y: 3, width: 4, height: 4 },
    }
}

fn frame_100_40() -> Rect {
    Rect { x: 0, y: 0, width: 100, height: 40 }
}

#[test]
fn theme_colors() {
    let theme = ColorTheme::catppuccin_mocha();
    assert_eq!(theme.background, Color::Rgb(30, 30, 46));
    assert_eq!(theme.text, Color::Rgb(217, 224, 238));
    assert_eq!(theme.highlight, Color::Rgb(245, 224, 220));
    assert_eq!(theme.accent1, Color::Rgb(242, 205, 205));
    assert_eq!(theme.accent2, Color::Rgb(148, 226, 213));
    assert_eq!(theme.error, Color::Rgb(243, 139, 168));
    assert_eq!(theme.success, Color::Rgb(166, 227, 161));
}

#[test]
fn style_builders() {
    assert_eq!(Style::default(), Style { fg: None, bg: None });
    assert_eq!(Style::default().fg(Color::Red), Style { fg: Some(Color::Red), bg: None });
    assert_eq!(
        Style::default().fg(Color::Red).bg(Color::Blue).fg(Color::Yellow),
        Style { fg: Some(Color::Yellow), bg: Some(Color::Blue) }
    );
}

#[test]
fn titled_block() {
    let block = Block::titled("Queue [2]");
    assert_eq!(block.title, "Queue [2]");
    assert_eq!(block.style, plain());
    assert_eq!(block.border_style, plain());
}

#[test]
fn search_bar_widget() {
    let mut bar = SearchBar::new();
    bar.update('h');
    bar.update('i');
    let widget = bar.render_with_style(fg(Color::Green));
    assert_eq!(widget.block, Block::titled("Search [0]"));
    assert_eq!(widget.style, fg(Color::Green));
    assert_eq!(
        widget.spans,
        vec![
            Span { content: "Song: ".to_string(), style: fg(ACCENT1) },
            Span { content: "hi".to_string(), style: fg(HIGHLIGHT) },
        ]
    );
}

#[test]
fn playlist_widget_strips_the_extension_and_marks_the_selection() {
    let playlist =
        playlist_of(vec![tune("a.mp3", 61), tune("b.mp3.mp3", 3600), tune("c d.mp3", 0)]);
    let widget = playlist.render_with_style(fg(ACCENT1), 1);
    assert_eq!(widget.block, Block::titled("Playlist [1]"));
    assert_eq!(widget.style, fg(ACCENT1));
    assert_eq!(
        widget.items,
        vec![
            ListItem {
                spans: vec![
                    Span { content: "a".to_string(), style: plain() },
                    Span { content: " [01:01]".to_string(), style: fg(ACCENT2) },
                ],
                style: fg(TEXT),
            },
            ListItem {
                spans: vec![
                    Span { content: "b.mp3".to_string(), style: plain() },
                    Span { content: " [60:00]".to_string(), style: fg(ACCENT2) },
                ],
                style: fg(HIGHLIGHT),
            },
            ListItem {
                spans: vec![
                    Span { content: "c d".to_string(), style: plain() },
                    Span { content: " [00:00]".to_string(), style: fg(ACCENT2) },
                ],
                style: fg(TEXT),
            },
        ]
    );
}

#[test]
fn playlist_widget_with_the_selection_outside() {
    let playlist = playlist_of(vec![tune("a.mp3", 5)]);
    let widget = playlist.render_with_style(plain(), 3);
    assert_eq!(widget.items.len(), 1);
    assert_eq!(widget.items[0].style, fg(TEXT));
    let empty = Playlist::new().render_with_style(plain(), 0);
    assert!(empty.items.is_empty());
    assert_eq!(empty.block.title, "Playlist [1]");
}

#[test]
fn queue_widget_numbers_the_rows_from_one() {
    let mut songs = Vec::new();
    for i in 0..11u64 {
        songs.push(tune(&format!("s{}.mp3", i), i * 70));
    }
    songs.push(tune("no extension", 59));
    let queue = Queue::new(songs);
    let widget = queue.render_with_style(fg(TEXT), 10);
    assert_eq!(widget.block, Block::titled("Queue [2]"));
    assert_eq!(widget.style, fg(TEXT));
    assert_eq!(widget.widths, vec![10, 60, 30]);
    assert_eq!(widget.rows.len(), 12);
    assert_eq!(
        widget.rows[0],
        Row {
            cells: vec!["1".to_string(), "s0".to_string(), "00:00".to_string()],
            style: fg(TEXT),
        }
    );
    assert_eq!(
        widget.rows[9],
        Row {
            cells: vec!["10".to_string(), "s9".to_string(), "10:30".to_string()],
            style: fg(TEXT),
        }
    );
    assert_eq!(
        widget.rows[10],
        Row {
            cells: vec!["11".to_string(), "s10".to_string(), "11:40".to_string()],
            style: fg(HIGHLIGHT),
        }
    );
    assert_eq!(
        widget.rows[11],
        Row {
            cells: vec!["12".to_string(), "no extension".to_string(), "00:59".to_string()],
            style: fg(TEXT),
        }
    );
}

#[test]
fn playback_widget() {
    let widget = Playback::new("Song 1", 100, 300).render();
    assert_eq!(widget.info.block, Block::titled("Now Playing"));
    assert_eq!(widget.info.style, plain());
    assert_eq!(
        widget.info.spans,
        vec![Span { content: "Playing: Song 1 - 100/300".to_string(), style: plain() }]
    );
    assert_eq!(widget.gauge_style, fg(Color::Yellow));
    let zero = Playback::new("", 0, u64::MAX).render();
    assert_eq!(zero.info.spans[0].content, "Playing:  - 0/18446744073709551615");
    let styled = Playback::new("Song 1", 100, 300).render_with_style(fg(ACCENT2));
    assert_eq!(styled.info.style, fg(ACCENT2));
    assert_eq!(styled.info.spans, widget.info.spans);
    assert_eq!(styled.info.block, widget.info.block);
    assert_eq!(styled.gauge_style, fg(Color::Yellow));
}

#[test]
fn split_in_halves() {
    let parts = split(Direction::Horizontal, 50, 50, frame_100_40());
    assert_eq!(
        parts,
        Some((
            Rect { x: 0, y: 0, width: 50, height: 40 },
            Rect { x: 50, y: 0, width: 50, height: 40 }
        ))
    );
}

#[test]
fn split_top_and_bottom() {
    let parts = split(Direction::Vertical, 10, 90, Rect { x: 3, y: 2, width: 50, height: 40 });
    assert_eq!(
        parts,
        Some((
            Rect { x: 3, y: 2, width: 50, height: 4 },
            Rect { x: 3, y: 6, width: 50, height: 36 }
        ))
    );
}

#[test]
fn split_refuses_sizes_that_overflow() {
    let wide = Rect { x: 0, y: 0, width: 1311, height: 10 };
    assert_eq!(split(Direction::Horizontal, 50, 50, wide), None);
    assert!(split(Direction::Vertical, 50, 50, wide).is_some());
    let fits = Rect { x: 0, y: 0, width: 1310, height: 10 };
    assert!(split(Direction::Horizontal, 50, 50, fits).is_some());
    assert_eq!(split(Direction::Horizontal, 50, 51, fits), None);
    assert_eq!(split(Direction::Horizontal, 51, 50, fits), None);
    let tall = Rect { x: 0, y: 0, width: 10, height: 729 };
    assert_eq!(split(Direction::Vertical, 10, 90, tall), None);
    assert!(split(Direction::Horizontal, 10, 90, tall).is_some());
}

#[test]
fn split_refuses_areas_that_run_out_of_the_coordinates() {
    let right = Rect { x: 65000, y: 0, width: 1000, height: 10 };
    assert_eq!(split(Direction::Vertical, 50, 50, right), None);
    let low = Rect { x: 0, y: 65530, width: 10, height: 10 };
    assert_eq!(split(Direction::Horizontal, 50, 50, low), None);
    let edge = Rect { x: 65525, y: 65525, width: 10, height: 10 };
    assert_eq!(
        split(Direction::Horizontal, 50, 50, edge),
        Some((
            Rect { x: 65525, y: 65525, width: 5, height: 10 },
            Rect { x: 65530, y: 65525, width: 5, height: 10 }
        ))
    );
    assert!(split(Direction::Vertical, 50, 50, edge).is_some());
}

#[test]
fn split_of_an_empty_area() {
    let nothing = Rect { x: 0, y: 0, width: 0, height: 0 };
    assert_eq!(split(Direction::Horizontal, 50, 50, nothing), Some((nothing, nothing)));
    assert_eq!(split(Direction::Vertical, 10, 90, nothing), Some((nothing, nothing)));
}

#[test]
fn arrange_places_the_four_panes() {
    let builder = LayoutBuilder::new().frame(frame_100_40());
    assert_eq!(
        builder.arrange(),
        Some(PaneAreas {
            search_bar: Rect { x: 0, y: 0, width: 50, height: 4 },
            playlist: Rect { x: 0, y: 4, width: 50, height: 36 },
            queue: Rect { x: 50, y: 0, width: 50, height: 28 },
            playback: Rect { x: 50, y: 28, width: 50, height: 12 },
        })
    );
}

#[test]
fn pane_areas_from_the_halves() {
    let a = Rect { x: 1, y: 2, width: 3, height: 4 };
    let b = Rect { x: 5, y: 6, width: 7, height: 8 };
    let c = Rect { x: 9, y: 10, width: 11, height: 12 };
    let d = Rect { x: 13, y: 14, width: 15, height: 16 };
    assert_eq!(
        PaneAreas::from_halves((a, b), (c, d)),
        PaneAreas { search_bar: a, playlist: b, queue: c, playback: d }
    );
}

#[test]
fn shares_of_each_part() {
    assert_eq!(shares(Part::Frame), (Direction::Horizontal, 50, 50));
    assert_eq!(shares(Part::LeftHalf), (Direction::Vertical, 10, 90));
    assert_eq!(shares(Part::RightHalf), (Direction::Vertical, 70, 30));
}

#[test]
fn split_part_hands_the_shares_of_the_part() {
    let area = Rect { x: 0, y: 0, width: 100, height: 40 };
    assert_eq!(split_part(Part::Frame, area), split(Direction::Horizontal, 50, 50, area));
    assert_eq!(split_part(Part::LeftHalf, area), split(Direction::Vertical, 10, 90, area));
    assert_eq!(split_part(Part::RightHalf, area), split(Direction::Vertical, 70, 30, area));
    assert_eq!(
        split_part(Part::Frame, area),
        Some((
            Rect { x: 0, y: 0, width: 50, height: 40 },
            Rect { x: 50, y: 0, width: 50, height: 40 }
        ))
    );
    assert_eq!(
        split_part(Part::LeftHalf, area),
        Some((
            Rect { x: 0, y: 0, width: 100, height: 4 },
            Rect { x: 0, y: 4, width: 100, height: 36 }
        ))
    );
    assert_eq!(
        split_part(Part::RightHalf, area),
        Some((
            Rect { x: 0, y: 0, width: 100, height: 28 },
            Rect { x: 0, y: 28, width: 100, height: 12 }
        ))
    );
    let wide = Rect { x: 0, y: 0, width: 1311, height: 10 };
    assert_eq!(split_part(Part::Frame, wide), None);
    assert!(split_part(Part::LeftHalf, wide).is_some());
    let tall = Rect { x: 0, y: 0, width: 10, height: 729 };
    assert!(split_part(Part::Frame, tall).is_some());
    assert_eq!(split_part(Part::LeftHalf, tall), None);
    assert!(split_part(Part::RightHalf, tall).is_some());
    assert_eq!(split_part(Part::RightHalf, Rect { x: 0, y: 0, width: 10, height: 937 }), None);
}

#[test]
fn first_two_keeps_the_order() {
    let a = Rect { x: 1, y: 2, width: 3, height: 4 };
    let b = Rect { x: 5, y: 6, width: 7, height: 8 };
    assert_eq!(first_two(vec![a, b]), Some((a, b)));
    assert_eq!(first_two(vec![b, a]), Some((b, a)));
    assert_eq!(first_two(vec![]), None);
    assert_eq!(first_two(vec![a]), None);
    assert_eq!(first_two(vec![a, b, a]), None);
}

#[test]
fn arrange_halves_splits_each_half() {
    let left = Rect { x: 0, y: 0, width: 50, height: 40 };
    let right = Rect { x: 50, y: 0, width: 50, height: 40 };
    assert_eq!(
        LayoutBuilder::arrange_halves((left, right)),
        Some(PaneAreas {
            search_bar: Rect { x: 0, y: 0, width: 50, height: 4 },
            playlist: Rect { x: 0, y: 4, width: 50, height: 36 },
            queue: Rect { x: 50, y: 0, width: 50, height: 28 },
            playback: Rect { x: 50, y: 28, width: 50, height: 12 },
        })
    );
}

#[test]
fn arrange_halves_needs_both_halves_to_fit() {
    let fine = Rect { x: 0, y: 0, width: 50, height: 40 };
    let tall = Rect { x: 0, y: 0, width: 50, height: 729 };
    let taller = Rect { x: 0, y: 0, width: 50, height: 937 };
    let outside = Rect { x: 65500, y: 0, width: 50, height: 40 };
    assert!(LayoutBuilder::arrange_halves((fine, fine)).is_some());
    assert!(LayoutBuilder::arrange_halves((fine, tall)).is_some());
    assert_eq!(LayoutBuilder::arrange_halves((tall, fine)), None);
    assert_eq!(LayoutBuilder::arrange_halves((fine, taller)), None);
    assert_eq!(LayoutBuilder::arrange_halves((outside, fine)), None);
    assert_eq!(LayoutBuilder::arrange_halves((fine, outside)), None);
}

#[test]
fn arrange_without_a_frame() {
    assert_eq!(LayoutBuilder::new().arrange(), None);
    assert_eq!(LayoutBuilder::new().build(), None);
    assert_eq!(LayoutBuilder::new().compose(areas()), None);
}

#[test]
fn arrange_on_a_frame_too_large_for_the_layout_engine() {
    let builder = LayoutBuilder::new().frame(Rect { x: 0, y: 0, width: 1311, height: 10 });
    assert_eq!(builder.arrange(), None);
    assert_eq!(builder.build(), None);
    let tall = LayoutBuilder::new().frame(Rect { x: 0, y: 0, width: 10, height: 729 });
    assert_eq!(tall.arrange(), None);
}

#[test]
fn new_builder_is_empty() {
    let builder = LayoutBuilder::new();
    assert_eq!(builder.frame, None);
    assert_eq!(builder.search_bar, None);
    assert_eq!(builder.playlist, None);
    assert_eq!(builder.queue, None);
    assert_eq!(builder.playback, None);
    assert_eq!(builder.search_results, None);
    assert_eq!(builder.selected_pane, None);
    assert_eq!(builder.selected_search_index, None);
    assert_eq!(builder.selected_playlist_song_index, 0);
    assert_eq!(builder.notification, None);
    assert_eq!(builder.downloading_video_index, None);
    assert_eq!(builder.selected_queue_song_index, 0);
    assert_eq!(builder.theme, ColorTheme::catppuccin_mocha());
}

#[test]
fn builder_setters_set_one_thing_each() {
    let pane = Pane::Queue;
    let posted = Notification::new("n".to_string(), NotificationType::Info, 3);
    let builder = LayoutBuilder::new()
        .frame(frame_100_40())
        .selected_pane(&pane)
        .search_bar(SearchBar::new())
        .playlist(Playlist::new())
        .queue(Queue::new(vec![tune("q.mp3", 1)]))
        .playback(Playback::new("p", 1, 2))
        .search_results(Some(vec![found(None, "t", "c")]))
        .selected_search_index(4)
        .selected_playlist_song_index(5)
        .downloading_video_index(Some(6))
        .notification(Some(&posted))
        .selected_queue_song_index(7);
    assert_eq!(builder.frame, Some(frame_100_40()));
    assert_eq!(builder.selected_pane, Some(&Pane::Queue));
    assert_eq!(builder.search_bar, Some(SearchBar::new()));
    assert_eq!(builder.playlist, Some(Playlist::new()));
    assert_eq!(builder.queue, Some(Queue::new(vec![tune("q.mp3", 1)])));
    assert_eq!(builder.playback, Some(Playback::new("p", 1, 2)));
    assert_eq!(builder.search_results, Some(vec![found(None, "t", "c")]));
    assert_eq!(builder.selected_search_index, Some(4));
    assert_eq!(builder.selected_playlist_song_index, 5);
    assert_eq!(builder.downloading_video_index, Some(6));
    assert_eq!(builder.notification, Some(&posted));
    assert_eq!(builder.selected_queue_song_index, 7);
    let cleared = builder.search_results(None).downloading_video_index(None).notification(None);
    assert_eq!(cleared.search_results, None);
    assert_eq!(cleared.downloading_video_index, None);
    assert_eq!(cleared.notification, None);
    assert_eq!(cleared.selected_queue_song_index, 7);
}

#[test]
fn compose_with_only_a_frame_shows_nothing() {
    let screen = LayoutBuilder::new().frame(frame_100_40()).compose(areas()).unwrap();
    assert_eq!(screen.areas, areas());
    assert_eq!(screen.search_bar, None);
    assert_eq!(screen.playlist, None);
    assert_eq!(screen.queue, None);
    assert_eq!(screen.playback, None);
    assert_eq!(screen.search_results, None);
    assert_eq!(screen.notification, None);
}

#[test]
fn compose_highlights_the_pane_with_the_focus() {
    let accents = [
        (Pane::SearchBar, [ACCENT2, TEXT, TEXT, TEXT]),
        (Pane::Playlist, [TEXT, ACCENT1, TEXT, TEXT]),
        (Pane::Queue, [TEXT, TEXT, ACCENT2, TEXT]),
        (Pane::Playback, [TEXT, TEXT, TEXT, ACCENT2]),
        (Pane::SearchResults, [TEXT, TEXT, TEXT, TEXT]),
    ];
    for (pane, colors) in accents {
        let screen = LayoutBuilder::new()
            .frame(frame_100_40())
            .selected_pane(&pane)
            .search_bar(SearchBar::new())
            .playlist(playlist_of(vec![tune("a.mp3", 1)]))
            .queue(Queue::new(vec![tune("a.mp3", 1)]))
            .playback(Playback::new("Song 1", 100, 300))
            .compose(areas())
            .unwrap();
        assert_eq!(screen.search_bar.as_ref().unwrap().style, fg(colors[0]));
        assert_eq!(screen.playlist.as_ref().unwrap().style, fg(colors[1]));
        assert_eq!(screen.queue.as_ref().unwrap().style, fg(colors[2]));
        assert_eq!(screen.playback.as_ref().unwrap().info.style, fg(colors[3]));
    }
    let unfocused = LayoutBuilder::new()
        .frame(frame_100_40())
        .search_bar(SearchBar::new())
        .compose(areas())
        .unwrap();
    assert_eq!(unfocused.search_bar.unwrap().style, fg(TEXT));
}

#[test]
fn compose_gives_each_pane_its_widget() {
    let pane = Pane::Playlist;
    let mut bar = SearchBar::new();
    bar.update('z');
    let playlist = playlist_of(vec![tune("a.mp3", 1), tune("b.mp3", 2)]);
    let queue = Queue::new(vec![tune("c.mp3", 3), tune("d.mp3", 4)]);
    let playback = Playback::new("Song 1", 100, 300);
    let screen = LayoutBuilder::new()
        .frame(frame_100_40())
        .selected_pane(&pane)
        .search_bar(bar.clone())
        .playlist(playlist.clone())
        .queue(Queue::new(vec![tune("c.mp3", 3), tune("d.mp3", 4)]))
        .playback(playback.clone())
        .selected_playlist_song_index(1)
        .selected_queue_song_index(0)
        .compose(areas())
        .unwrap();
    assert_eq!(screen.search_bar, Some(bar.render_with_style(fg(TEXT))));
    assert_eq!(screen.playlist, Some(playlist.render_with_style(fg(ACCENT1), 1)));
    assert_eq!(screen.queue, Some(queue.render_with_style(fg(TEXT), 0)));
    assert_eq!(screen.playback, Some(playback.render_with_style(fg(TEXT))));
}

#[test]
fn overlay_lists_the_results_with_their_download_state() {
    let results = vec![
        found(Some("1"), "Have", "Ch A"),
        found(Some("2"), "Loading", "Ch B"),
        found(None, "Missing", "Ch C"),
        found(Some("4"), "Have.mp3", "Ch D"),
    ];
    let screen = LayoutBuilder::new()
        .frame(frame_100_40())
        .playlist(playlist_of(vec![tune("Have.mp3", 1), tune("Other.mp3", 2)]))
        .search_results(Some(results))
        .selected_search_index(2)
        .downloading_video_index(Some(1))
        .compose(areas())
        .unwrap();
    let overlay = screen.search_results.unwrap();
    assert_eq!(overlay.area, Rect { x: 2, y: 5, width: 96, height: 10 });
    assert_eq!(
        overlay.list.block,
        Block {
            title: "Search Results".to_string(),
            style: Style { fg: Some(TEXT), bg: Some(BACKGROUND) },
            border_style: fg(ACCENT1),
        }
    );
    assert_eq!(overlay.list.style, plain());
    assert_eq!(
        overlay.list.items,
        vec![
            ListItem {
                spans: vec![Span { content: "Have - Ch A \u{2705}".to_string(), style: plain() }],
                style: fg(TEXT),
            },
            ListItem {
                spans: vec![Span {
                    content: "Loading - Ch B \u{23f3}".to_string(),
                    style: plain(),
                }],
                style: fg(TEXT),
            },
            ListItem {
                spans: vec![Span {
                    content: "Missing - Ch C \u{26a0}\u{fe0f}".to_string(),
                    style: plain(),
                }],
                style: fg(ACCENT2),
            },
            ListItem {
                spans: vec![Span {
                    content: "Have.mp3 - Ch D \u{26a0}\u{fe0f}".to_string(),
                    style: plain(),
                }],
                style: fg(TEXT),
            },
        ]
    );
}

#[test]
fn a_downloaded_result_shows_the_check_mark_even_while_downloading() {
    let screen = LayoutBuilder::new()
        .frame(frame_100_40())
        .playlist(playlist_of(vec![tune("Have.mp3", 1)]))
        .search_results(Some(vec![found(Some("1"), "Have", "Ch")]))
        .selected_search_index(0)
        .downloading_video_index(Some(0))
        .compose(areas())
        .unwrap();
    let overlay = screen.search_results.unwrap();
    assert_eq!(overlay.list.items[0].spans[0].content, "Have - Ch \u{2705}");
    assert_eq!(overlay.list.items[0].style, fg(ACCENT2));
}

#[test]
fn without_a_playlist_nothing_counts_as_downloaded() {
    let screen = LayoutBuilder::new()
        .frame(frame_100_40())
        .search_results(Some(vec![found(Some("1"), "Have", "Ch")]))
        .compose(areas())
        .unwrap();
    let overlay = screen.search_results.unwrap();
    assert_eq!(overlay.list.items[0].spans[0].content, "Have - Ch \u{26a0}\u{fe0f}");
    assert_eq!(overlay.list.items[0].style, fg(TEXT));
}

#[test]
fn overlay_of_no_results_is_an_empty_list() {
    let screen = LayoutBuilder::new()
        .frame(Rect { x: 0, y: 0, width: 4, height: 3 })
        .search_results(Some(vec![]))
        .compose(areas())
        .unwrap();
    let overlay = screen.search_results.unwrap();
    assert_eq!(overlay.area, Rect { x: 2, y: 5, width: 0, height: 0 });
    assert!(overlay.list.items.is_empty());
}

#[test]
fn no_screen_where_the_frame_is_narrower_than_the_overlay_margins() {
    let narrow = Rect { x: 0, y: 0, width: 3, height: 40 };
    let with_results =
        LayoutBuilder::new().frame(narrow).search_results(Some(vec![found(None, "t", "c")]));
    assert_eq!(with_results.compose(areas()), None);
    let again =
        LayoutBuilder::new().frame(narrow).search_results(Some(vec![found(None, "t", "c")]));
    assert_eq!(again.build(), None);
    let without = LayoutBuilder::new().frame(narrow);
    assert!(without.compose(areas()).is_some());
}

#[test]
fn notification_is_in_the_upper_right_corner_in_its_color() {
    let posted = Notification::new("done".to_string(), NotificationType::Success, 1);
    let screen = LayoutBuilder::new()
        .frame(frame_100_40())
        .notification(Some(&posted))
        .compose(areas())
        .unwrap();
    assert_eq!(
        screen.notification,
        Some(Notice {
            area: Rect { x: 94, y: 0, width: 6, height: 3 },
            text: Span { content: "done".to_string(), style: fg(Color::Green) },
        })
    );
    let failed = Notification::new("b\u{e9}d".to_string(), NotificationType::Error, 1);
    let screen = LayoutBuilder::new()
        .frame(Rect { x: 10, y: 20, width: 30, height: 2 })
        .notification(Some(&failed))
        .compose(areas())
        .unwrap();
    assert_eq!(
        screen.notification,
        Some(Notice {
            area: Rect { x: 35, y: 20, width: 5, height: 2 },
            text: Span { content: "b\u{e9}d".to_string(), style: fg(Color::Red) },
        })
    );
}

#[test]
fn a_long_notification_takes_the_width_of_the_frame() {
    let long = Notification::new("0123456789".to_string(), NotificationType::Info, 1);
    let cases: [(u16, (u16, u16)); 6] =
        [(12, (0, 12)), (13, (1, 12)), (11, (0, 11)), (10, (0, 10)), (3, (0, 3)), (0, (0, 0))];
    for (width, expected) in cases {
        let screen = LayoutBuilder::new()
            .frame(Rect { x: 0, y: 0, width, height: 40 })
            .notification(Some(&long))
            .compose(areas())
            .unwrap();
        let notice = screen.notification.unwrap();
        assert_eq!(notice.area, Rect { x: expected.0, y: 0, width: expected.1, height: 3 });
        assert_eq!(notice.text.style, fg(Color::Blue));
    }
    let far = LayoutBuilder::new()
        .frame(Rect { x: 65000, y: 7, width: 1000, height: 1 })
        .notification(Some(&long))
        .compose(areas())
        .unwrap();
    assert_eq!(far.notification.unwrap().area, Rect { x: 65535, y: 7, width: 12, height: 1 });
}

#[test]
fn the_screen_of_a_state_shows_all_of_it() {
    let mut app = App::new();
    app.apply(Event::Tick { found: vec![tune("Have.mp3", 61), tune("b.mp3", 5)] }, 0);
    for c in "1ja0hi".chars() {
        app.apply(Event::Key(Key::Char(c)), 0);
    }
    app.apply(
        Event::SearchFinished(Ok(vec![found(Some("1"), "Have", "Ch"), found(None, "No", "Ch")])),
        1,
    );
    app.apply(Event::Key(Key::Char('j')), 2);
    app.apply(Event::Key(Key::Char('i')), 3);
    let screen = app.screen(frame_100_40()).unwrap();
    let by_hand = LayoutBuilder::new()
        .frame(frame_100_40())
        .selected_pane(&app.selected_pane)
        .search_bar(app.search_bar.clone())
        .playlist(app.playlist.clone())
        .queue(app.queue.clone())
        .playback(app.playback.clone())
        .search_results(app.search_results.clone())
        .selected_search_index(app.selected_search_index)
        .selected_playlist_song_index(app.selected_playlist_song_index)
        .downloading_video_index(app.downloading_video_index)
        .notification(app.notification.as_ref())
        .selected_queue_song_index(app.selected_queue_song_index)
        .build()
        .unwrap();
    assert_eq!(screen, by_hand);
    assert_eq!(
        screen.areas,
        PaneAreas {
            search_bar: Rect { x: 0, y: 0, width: 50, height: 4 },
            playlist: Rect { x: 0, y: 4, width: 50, height: 36 },
            queue: Rect { x: 50, y: 0, width: 50, height: 28 },
            playback: Rect { x: 50, y: 28, width: 50, height: 12 },
        }
    );
    assert_eq!(screen.search_bar.as_ref().unwrap().spans[1].content, "");
    assert_eq!(screen.search_bar.as_ref().unwrap().style, fg(TEXT));
    assert_eq!(screen.playlist.as_ref().unwrap().items.len(), 2);
    assert_eq!(screen.playlist.as_ref().unwrap().items[1].style, fg(HIGHLIGHT));
    assert_eq!(screen.queue.as_ref().unwrap().rows.len(), 1);
    assert_eq!(screen.queue.as_ref().unwrap().rows[0].cells, vec!["1", "b", "00:05"]);
    assert_eq!(
        screen.playback.as_ref().unwrap().info.spans[0].content,
        "Playing: Song 1 - 100/300"
    );
    let overlay = screen.search_results.as_ref().unwrap();
    assert_eq!(overlay.list.items[0].spans[0].content, "Have - Ch \u{2705}");
    assert_eq!(overlay.list.items[0].style, fg(TEXT));
    assert_eq!(overlay.list.items[1].spans[0].content, "No - Ch \u{26a0}\u{fe0f}");
    assert_eq!(overlay.list.items[1].style, fg(ACCENT2));
    let notice = screen.notification.as_ref().unwrap();
    assert_eq!(notice.text.content, "Failed to process video: Video ID is missing.");
    assert_eq!(notice.text.style, fg(Color::Red));
    assert_eq!(notice.area, Rect { x: 53, y: 0, width: 47, height: 3 });
}

#[test]
fn no_screen_of_a_state_on_a_frame_that_cannot_be_laid_out() {
    let mut app = App::new();
    assert_eq!(app.screen(Rect { x: 0, y: 0, width: 1311, height: 10 }), None);
    assert_eq!(app.screen(Rect { x: 0, y: 65530, width: 10, height: 10 }), None);
    assert!(app.screen(Rect { x: 0, y: 0, width: 3, height: 10 }).is_some());
    app.apply(Event::SearchFinished(Ok(vec![])), 0);
    assert_eq!(app.screen(Rect { x: 0, y: 0, width: 3, height: 10 }), None);
    assert!(app.screen(Rect { x: 0, y: 0, width: 4, height: 10 }).is_some());
}

#[test]
fn build_composes_on_the_arranged_areas() {
    let pane = Pane::SearchResults;
    let posted = Notification::new("n".to_string(), NotificationType::Info, 0);
    let make = || {
        let mut bar = SearchBar::new();
        bar.update('q');
        LayoutBuilder::new()
            .frame(frame_100_40())
            .selected_pane(&pane)
            .search_bar(bar)
            .playlist(playlist_of(vec![tune("a.mp3", 100)]))
            .queue(Queue::new(vec![tune("a.mp3", 100)]))
            .playback(Playback::new("Song 1", 100, 300))
            .search_results(Some(vec![found(Some("x"), "a", "c"), found(None, "b", "c")]))
            .selected_search_index(1)
            .downloading_video_index(Some(0))
            .notification(Some(&posted))
    };
    let built = make().build().unwrap();
    let expected_areas = make().arrange().unwrap();
    assert_eq!(built.areas, expected_areas);
    assert_eq!(Some(built), make().compose(expected_areas));
}
