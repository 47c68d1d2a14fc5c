//! The songs lined up to be played.

use vstd::prelude::*;
use crate::models::song::{Song, SongView};
use crate::tui::ui::color_theme::{mocha, ColorTheme};
use crate::tui::ui::style::{fg_style, Style};
use crate::tui::ui::widgets::{titled, Block, Row, RowView, Table, TableView};
use crate::utils::format::{duration_text, format_duration};
use crate::utils::text::{decimal, push_decimal, strip_suffix, without_suffix};

verus! {

/// The play queue, first song first.
#[derive(Debug, PartialEq, Eq)]
pub struct Queue {
    pub songs: Vec<Song>,
}

impl View for Queue {
    type V = Seq<SongView>;

    open spec fn view(&self) -> Seq<SongView> {
        self.songs.deep_view()
    }
}

impl DeepView for Queue {
    type V = Seq<SongView>;

    open spec fn deep_view(&self) -> Seq<SongView> {
        self@
    }
}

/// The row of the song at position `index` of the queue: its place in the
/// queue counted from 1, its title without `.mp3` and its duration;
/// highlighted where it is selected.
pub open spec fn queue_row(song: SongView, index: nat, selected: bool) -> RowView {
    RowView {
        cells: seq![
            decimal(index + 1),
            without_suffix(song.title, ".mp3"@),
            duration_text(song.duration),
        ],
        style: fg_style(
            if selected {
                mocha().highlight
            } else {
                mocha().text
            },
        ),
    }
}

/// The queue pane in the pane style `style`, with the song at
/// `selected_index` highlighted. The columns take 10, 60 and 30 percent of
/// the width.
pub open spec fn queue_widget(songs: Seq<SongView>, style: Style, selected_index: nat)
    -> TableView {
    TableView {
        block: titled("Queue [2]"@),
        rows: Seq::new(
            songs.len(),
            |i: int| queue_row(songs[i], i as nat, i == selected_index),
        ),
        widths: seq![10u16, 60u16, 30u16],
        style,
    }
}

fn queue_entry(song: &Song, index: usize, selected: bool) -> (row: Row)
    requires
        index < usize::MAX,
    ensures
        row@ == queue_row(song@, index as nat, selected),
{
    let theme = ColorTheme::catppuccin_mocha();
    let mut order = String::new();
    push_decimal(&mut order, (index + 1) as u64);
    let mut cells: Vec<String> = Vec::new();
    cells.push(order);
    cells.push(strip_suffix(song.title.as_str(), ".mp3"));
    cells.push(format_duration(song.duration));
    let color = if selected {
        theme.highlight
    } else {
        theme.text
    };
    let row = Row { cells, style: Style::default().fg(color) };
    assert(row@.cells =~= queue_row(song@, index as nat, selected).cells);
    row
}

impl Queue {
    /// A queue that holds `songs` in the given order.
    pub fn new(songs: Vec<Song>) -> (queue: Self)
        ensures
            queue.songs == songs,
            queue@ == songs.deep_view(),
    {
        Queue { songs }
    }

    /// The queue pane as a widget in the pane style `style`, with the song
    /// at `selected_index` highlighted.
    pub fn render_with_style(&self, style: Style, selected_index: usize) -> (widget: Table)
        ensures
            widget@ == queue_widget(self@, style, selected_index as nat),
    {
        let mut rows: Vec<Row> = Vec::new();
        let mut i: usize = 0;
        while i < self.songs.len()
            invariant
                i <= self.songs.len(),
                rows.len() == i,
                forall|j: int|
                    0 <= j < i ==> (#[trigger] rows[j])@ == queue_row(
                        self@[j],
                        j as nat,
                        j == selected_index,
                    ),
            decreases self.songs.len() - i,
        {
            rows.push(queue_entry(&self.songs[i], i, i == selected_index));
            i += 1;
        }
        let mut widths: Vec<u16> = Vec::new();
        widths.push(10);
        widths.push(60);
        widths.push(30);
        let widget = Table { block: Block::titled("Queue [2]"), rows, widths, style };
        assert(widget@.rows =~= queue_widget(self@, style, selected_index as nat).rows);
        assert(widget@.widths =~= queue_widget(self@, style, selected_index as nat).widths);
        widget
    }

    /// Puts `song` at the end of the queue.
    pub fn add_song(&mut self, song: Song)
        ensures
            final(self).songs@ == old(self).songs@.push(song),
            final(self)@ == old(self)@.push(song@),
    {
        self.songs.push(song);
    }
}

impl Clone for Queue {
    fn clone(&self) -> (copy: Self)
        ensures
            copy@ == self@,
    {
        Queue { songs: self.songs.clone() }
    }
}

} // verus!
