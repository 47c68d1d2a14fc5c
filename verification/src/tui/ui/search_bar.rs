//! The box in which the search query is typed.

use vstd::prelude::*;
use crate::tui::ui::color_theme::{mocha, ColorTheme};
use crate::tui::ui::style::{fg_style, Style};
use crate::tui::ui::widgets::{titled, Block, Paragraph, ParagraphView, Span, SpanView};

verus! {

/// The search box and the query typed so far.
#[derive(Debug, PartialEq, Eq)]
pub struct SearchBar {
    pub input: String,
}

impl View for SearchBar {
    type V = Seq<char>;

    open spec fn view(&self) -> Seq<char> {
        self.input@
    }
}

impl DeepView for SearchBar {
    type V = Seq<char>;

    open spec fn deep_view(&self) -> Seq<char> {
        self@
    }
}

/// The query after Backspace: without its last character, or still empty.
pub open spec fn without_last(input: Seq<char>) -> Seq<char> {
    if input.len() > 0 {
        input.drop_last()
    } else {
        input
    }
}

/// The search box as it is drawn in the pane style `style`: the label and
/// the query typed so far, in a block.
pub open spec fn search_bar_widget(input: Seq<char>, style: Style) -> ParagraphView {
    ParagraphView {
        block: titled("Search [0]"@),
        spans: seq![
            SpanView { content: "Song: "@, style: fg_style(mocha().accent1) },
            SpanView { content: input, style: fg_style(mocha().highlight) },
        ],
        style,
    }
}

impl SearchBar {
    /// An empty search box.
    pub fn new() -> (bar: Self)
        ensures
            bar@ == Seq::<char>::empty(),
    {
        SearchBar { input: String::new() }
    }

    /// Types `c` at the end of the query.
    pub fn update(&mut self, c: char)
        ensures
            final(self)@ == old(self)@.push(c),
    {
        self.input.push(c);
    }

    /// Removes the last character of the query, if it has one.
    pub fn delete(&mut self)
        ensures
            final(self)@ == without_last(old(self)@),
    {
        self.input.pop();
    }

    /// The search box as a widget in the pane style `style`.
    pub fn render_with_style(&self, style: Style) -> (widget: Paragraph)
        ensures
            widget@ == search_bar_widget(self@, style),
    {
        let theme = ColorTheme::catppuccin_mocha();
        let mut spans: Vec<Span> = Vec::new();
        spans.push(
            Span { content: String::from_str("Song: "), style: Style::default().fg(theme.accent1) },
        );
        spans.push(
            Span { content: self.input.clone(), style: Style::default().fg(theme.highlight) },
        );
        let widget = Paragraph { block: Block::titled("Search [0]"), spans, style };
        assert(widget@.spans =~= search_bar_widget(self@, style).spans);
        widget
    }

    /// Empties the query.
    pub fn clear(&mut self)
        ensures
            final(self)@ == Seq::<char>::empty(),
    {
        self.input.clear();
    }
}

impl Clone for SearchBar {
    fn clone(&self) -> (copy: Self)
        ensures
            copy == *self,
    {
        SearchBar { input: self.input.clone() }
    }
}

} // verus!
