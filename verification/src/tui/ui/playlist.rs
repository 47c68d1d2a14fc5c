//! The songs found in the music directory.

use vstd::prelude::*;
use crate::models::song::{Song, SongView};
use crate::tui::ui::color_theme::{mocha, ColorTheme};
use crate::tui::ui::style::{fg_style, Style};
use crate::tui::ui::widgets::{
    titled, Block, List, ListItem, ListItemView, ListView, Span, SpanView,
};
use crate::utils::format::{duration_text, format_duration};
use crate::utils::text::{ends_with, has_suffix, strip_suffix, without_suffix};

verus! {

/// The playlist, in the order in which its songs were found.
#[derive(Debug, PartialEq, Eq)]
pub struct Playlist {
    pub songs: Vec<Song>,
}

impl View for Playlist {
    type V = Seq<SongView>;

    open spec fn view(&self) -> Seq<SongView> {
        self.songs.deep_view()
    }
}

impl DeepView for Playlist {
    type V = Seq<SongView>;

    open spec fn deep_view(&self) -> Seq<SongView> {
        self@
    }
}

/// Whether a file of this name is an audio file of the playlist: the name
/// ends in `.mp3` and has something before it.
pub open spec fn is_mp3(file_name: Seq<char>) -> bool {
    file_name.len() > 4 && ends_with(file_name, ".mp3"@)
}

/// Whether one of `songs` has the title `title`.
pub open spec fn has_title(songs: Seq<SongView>, title: Seq<char>) -> bool {
    exists|i: int| 0 <= i < songs.len() && #[trigger] songs[i].title == title
}

/// Whether a file found in the music directory belongs in the playlist and
/// is not in it yet.
pub open spec fn is_new_song(songs: Seq<SongView>, file_name: Seq<char>) -> bool {
    is_mp3(file_name) && !has_title(songs, file_name)
}

/// The playlist after the files `found` were looked at in turn: each audio
/// file whose name no song has yet is put at the end.
pub open spec fn merged(songs: Seq<SongView>, found: Seq<SongView>) -> Seq<SongView>
    decreases found.len(),
{
    if found.len() == 0 {
        songs
    } else {
        let before = merged(songs, found.drop_last());
        if is_new_song(before, found.last().title) {
            before.push(found.last())
        } else {
            before
        }
    }
}

/// The entry of a song in the playlist pane: its title without `.mp3`,
/// then its duration in brackets; highlighted where it is selected.
pub open spec fn playlist_item(song: SongView, selected: bool) -> ListItemView {
    ListItemView {
        spans: seq![
            SpanView {
                content: without_suffix(song.title, ".mp3"@),
                style: Style { fg: None, bg: None },
            },
            SpanView {
                content: " ["@ + duration_text(song.duration) + "]"@,
                style: fg_style(mocha().accent2),
            },
        ],
        style: fg_style(
            if selected {
                mocha().highlight
            } else {
                mocha().text
            },
        ),
    }
}

/// The playlist pane in the pane style `style`, with the song at
/// `selected_index` highlighted.
pub open spec fn playlist_widget(songs: Seq<SongView>, style: Style, selected_index: nat)
    -> ListView {
    ListView {
        block: titled("Playlist [1]"@),
        items: Seq::new(songs.len(), |i: int| playlist_item(songs[i], i == selected_index)),
        style,
    }
}

/// Taking files in only adds at the end: the playlist as it was is the
/// beginning of the playlist as it is afterwards.
pub proof fn lemma_merged_extends(songs: Seq<SongView>, found: Seq<SongView>)
    ensures
        songs.is_prefix_of(merged(songs, found)),
    decreases found.len(),
{
    if found.len() > 0 {
        lemma_merged_extends(songs, found.drop_last());
    }
}

/// Whether no two of `songs` have the same title.
pub open spec fn distinct_titles(songs: Seq<SongView>) -> bool {
    forall|i: int, j: int|
        0 <= i < j < songs.len() ==> (#[trigger] songs[i]).title != (#[trigger] songs[j]).title
}

/// Taking files in never makes two songs of one title: a playlist without
/// such a pair has none afterwards.
pub proof fn lemma_merged_keeps_titles_distinct(songs: Seq<SongView>, found: Seq<SongView>)
    requires
        distinct_titles(songs),
    ensures
        distinct_titles(merged(songs, found)),
    decreases found.len(),
{
    if found.len() > 0 {
        lemma_merged_keeps_titles_distinct(songs, found.drop_last());
    }
}

/// After files were taken in, every audio file among them is in the
/// playlist.
pub proof fn lemma_merged_holds_every_audio_file(
    songs: Seq<SongView>,
    found: Seq<SongView>,
    i: int,
)
    requires
        0 <= i < found.len(),
        is_mp3(found[i].title),
    ensures
        has_title(merged(songs, found), found[i].title),
    decreases found.len(),
{
    let before = merged(songs, found.drop_last());
    let after = merged(songs, found);
    if i < found.len() - 1 {
        lemma_merged_holds_every_audio_file(songs, found.drop_last(), i);
        let k = choose|k: int|
            0 <= k < before.len() && #[trigger] before[k].title == found[i].title;
        assert(after[k].title == found[i].title);
    } else if is_new_song(before, found.last().title) {
        assert(after[after.len() - 1].title == found[i].title);
    } else {
        let k = choose|k: int|
            0 <= k < before.len() && #[trigger] before[k].title == found[i].title;
        assert(after[k].title == found[i].title);
    }
}

/// After files were taken in, every song of the playlist was in it before
/// or is one of the audio files taken in.
pub proof fn lemma_merged_holds_nothing_else(songs: Seq<SongView>, found: Seq<SongView>, k: int)
    requires
        0 <= k < merged(songs, found).len(),
    ensures
        (k < songs.len() && merged(songs, found)[k] == songs[k]) || exists|j: int|
            0 <= j < found.len() && #[trigger] found[j] == merged(songs, found)[k] && is_mp3(
                found[j].title,
            ),
    decreases found.len(),
{
    if found.len() > 0 {
        let before = merged(songs, found.drop_last());
        if k < before.len() {
            lemma_merged_holds_nothing_else(songs, found.drop_last(), k);
            if !(k < songs.len() && before[k] == songs[k]) {
                let j = choose|j: int|
                    0 <= j < found.drop_last().len() && #[trigger] found.drop_last()[j]
                        == before[k] && is_mp3(found.drop_last()[j].title);
                assert(found[j] == merged(songs, found)[k]);
            }
        } else {
            assert(found[found.len() - 1] == merged(songs, found)[k]);
        }
    }
}

/// Whether a file of this name is an audio file of the playlist.
pub fn is_mp3_file(file_name: &str) -> (mp3: bool)
    ensures
        mp3 == is_mp3(file_name@),
{
    file_name.unicode_len() > 4 && has_suffix(file_name, ".mp3")
}

fn playlist_entry(song: &Song, selected: bool) -> (item: ListItem)
    ensures
        item@ == playlist_item(song@, selected),
{
    let theme = ColorTheme::catppuccin_mocha();
    let mut label = String::from_str(" [");
    label.append(format_duration(song.duration).as_str());
    label.append("]");
    let mut spans: Vec<Span> = Vec::new();
    spans.push(
        Span { content: strip_suffix(song.title.as_str(), ".mp3"), style: Style::default() },
    );
    spans.push(Span { content: label, style: Style::default().fg(theme.accent2) });
    let color = if selected {
        theme.highlight
    } else {
        theme.text
    };
    let item = ListItem { spans, style: Style::default().fg(color) };
    assert(item@.spans =~= playlist_item(song@, selected).spans);
    item
}

impl Playlist {
    /// An empty playlist.
    pub fn new() -> (playlist: Self)
        ensures
            playlist@ == Seq::<SongView>::empty(),
    {
        let playlist = Playlist { songs: Vec::new() };
        playlist
    }

    /// Whether a song of the playlist has the title `title`.
    pub fn contains_title(&self, title: &str) -> (found: bool)
        ensures
            found == has_title(self@, title@),
    {
        let mut i: usize = 0;
        while i < self.songs.len()
            invariant
                i <= self.songs.len(),
                forall|j: int| 0 <= j < i ==> self@[j].title != title@,
            decreases self.songs.len() - i,
        {
            if *self.songs[i].title.as_str() == *title {
                assert(self@[i as int].title == title@);
                return true;
            }
            i += 1;
        }
        false
    }

    /// Whether a file found in the music directory should be probed and
    /// offered to [`Playlist::load_playlist`]: it is an audio file and the
    /// playlist does not hold it yet.
    pub fn needs_probe(&self, file_name: &str) -> (needed: bool)
        ensures
            needed == is_new_song(self@, file_name@),
    {
        is_mp3_file(file_name) && !self.contains_title(file_name)
    }

    /// Takes in the files found in the music directory, each with its name
    /// as title: those that are audio files and not yet in the playlist are
    /// put at its end, in the order given.
    pub fn load_playlist(&mut self, found: Vec<Song>)
        ensures
            final(self)@ == merged(old(self)@, found.deep_view()),
    {
        let mut i: usize = 0;
        while i < found.len()
            invariant
                i <= found.len(),
                self@ == merged(old(self)@, found.deep_view().take(i as int)),
            decreases found.len() - i,
        {
            if self.needs_probe(found[i].title.as_str()) {
                self.songs.push(found[i].clone());
            }
            assert(found.deep_view().take(i + 1).drop_last() =~= found.deep_view().take(
                i as int,
            ));
            i += 1;
        }
        assert(found.deep_view().take(found.len() as int) =~= found.deep_view());
    }

    /// The playlist pane as a widget in the pane style `style`, with the
    /// song at `selected_index` highlighted.
    pub fn render_with_style(&self, style: Style, selected_index: usize) -> (widget: List)
        ensures
            widget@ == playlist_widget(self@, style, selected_index as nat),
    {
        let mut items: Vec<ListItem> = Vec::new();
        let mut i: usize = 0;
        while i < self.songs.len()
            invariant
                i <= self.songs.len(),
                items.len() == i,
                forall|j: int|
                    0 <= j < i ==> (#[trigger] items[j])@ == playlist_item(
                        self@[j],
                        j == selected_index,
                    ),
            decreases self.songs.len() - i,
        {
            items.push(playlist_entry(&self.songs[i], i == selected_index));
            i += 1;
        }
        let widget = List { block: Block::titled("Playlist [1]"), items, style };
        assert(widget@.items =~= playlist_widget(self@, style, selected_index as nat).items);
        widget
    }

    /// Removes the song at `index` and returns the name of its file, which
    /// is now to be deleted. An index past the end removes nothing.
    pub fn remove_song(&mut self, index: usize) -> (removed: Option<String>)
        ensures
            index < old(self)@.len() ==> final(self)@ == old(self)@.remove(index as int)
                && final(self).songs@ == old(self).songs@.remove(index as int)
                && removed.deep_view() == Some(old(self)@[index as int].title),
            index >= old(self)@.len() ==> final(self).songs@ == old(self).songs@
                && final(self)@ == old(self)@ && removed is None,
    {
        if index < self.songs.len() {
            let song = self.songs.remove(index);
            Some(song.title)
        } else {
            None
        }
    }
}

impl Clone for Playlist {
    fn clone(&self) -> (copy: Self)
        ensures
            copy@ == self@,
    {
        Playlist { songs: self.songs.clone() }
    }
}

} // verus!
