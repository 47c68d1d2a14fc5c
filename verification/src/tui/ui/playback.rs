//! The song that is playing and how far it has got.

use vstd::prelude::*;
use crate::tui::ui::style::{fg_style, Color, Style};
use crate::tui::ui::widgets::{titled, Block, Paragraph, ParagraphView, Span, SpanView};
use crate::utils::text::{decimal, push_decimal};

verus! {

/// The song that is playing, the seconds played and its length in seconds.
#[derive(Debug, PartialEq, Eq)]
pub struct Playback {
    pub current_song: String,
    pub current_time: u64,
    pub total_time: u64,
}

/// What a [`Playback`] holds, as mathematical values.
pub struct PlaybackView {
    pub current_song: Seq<char>,
    pub current_time: nat,
    pub total_time: nat,
}

impl View for Playback {
    type V = PlaybackView;

    open spec fn view(&self) -> PlaybackView {
        PlaybackView {
            current_song: self.current_song@,
            current_time: self.current_time as nat,
            total_time: self.total_time as nat,
        }
    }
}

impl DeepView for Playback {
    type V = PlaybackView;

    open spec fn deep_view(&self) -> PlaybackView {
        self@
    }
}

/// The line that says what is playing: the song, then the seconds played
/// over the seconds in all.
pub open spec fn playback_text(playback: PlaybackView) -> Seq<char> {
    "Playing: "@ + playback.current_song + " - "@ + decimal(playback.current_time) + seq!['/']
        + decimal(playback.total_time)
}

/// The playback pane as it is drawn: the line that says what is playing,
/// in a block, and over it a gauge of how much has played, in a style of
/// its own.
#[derive(Debug, PartialEq, Eq)]
pub struct PlaybackWidget {
    pub info: Paragraph,
    pub gauge_style: Style,
}

/// What a [`PlaybackWidget`] holds, as mathematical values.
pub struct PlaybackWidgetView {
    pub info: ParagraphView,
    pub gauge_style: Style,
}

impl View for PlaybackWidget {
    type V = PlaybackWidgetView;

    open spec fn view(&self) -> PlaybackWidgetView {
        PlaybackWidgetView { info: self.info@, gauge_style: self.gauge_style }
    }
}

impl DeepView for PlaybackWidget {
    type V = PlaybackWidgetView;

    open spec fn deep_view(&self) -> PlaybackWidgetView {
        self@
    }
}

/// The playback pane in the pane style `style`: the line that says what is
/// playing, in a block, and a yellow gauge.
pub open spec fn playback_widget(playback: PlaybackView, style: Style) -> PlaybackWidgetView {
    PlaybackWidgetView {
        info: ParagraphView {
            block: titled("Now Playing"@),
            spans: seq![
                SpanView { content: playback_text(playback), style: Style { fg: None, bg: None } },
            ],
            style,
        },
        gauge_style: fg_style(Color::Yellow),
    }
}

impl Playback {
    /// The playback of `song`, `current_time` seconds into `total_time`.
    pub fn new(song: &str, current_time: u64, total_time: u64) -> (playback: Self)
        ensures
            playback@ == (PlaybackView {
                current_song: song@,
                current_time: current_time as nat,
                total_time: total_time as nat,
            }),
    {
        Playback { current_song: String::from_str(song), current_time, total_time }
    }
}

impl Playback {
    /// The playback pane as a widget, without a style of its own.
    pub fn render(&self) -> (widget: PlaybackWidget)
        ensures
            widget@ == playback_widget(self@, Style { fg: None, bg: None }),
    {
        self.render_with_style(Style::default())
    }

    /// The playback pane as a widget in the pane style `style`.
    pub fn render_with_style(&self, style: Style) -> (widget: PlaybackWidget)
        ensures
            widget@ == playback_widget(self@, style),
    {
        let mut text = String::from_str("Playing: ");
        text.append(self.current_song.as_str());
        text.append(" - ");
        push_decimal(&mut text, self.current_time);
        text.push('/');
        push_decimal(&mut text, self.total_time);
        assert(text@ =~= playback_text(self@));
        let mut spans: Vec<Span> = Vec::new();
        spans.push(Span { content: text, style: Style::default() });
        let info = Paragraph { block: Block::titled("Now Playing"), spans, style };
        assert(info@.spans =~= playback_widget(self@, style).info.spans);
        PlaybackWidget { info, gauge_style: Style::default().fg(Color::Yellow) }
    }
}

impl Clone for Playback {
    fn clone(&self) -> (copy: Self)
        ensures
            copy == *self,
    {
        Playback {
            current_song: self.current_song.clone(),
            current_time: self.current_time,
            total_time: self.total_time,
        }
    }
}

} // verus!
