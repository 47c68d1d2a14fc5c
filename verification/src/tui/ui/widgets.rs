//! What is drawn, as plain values: texts with their styles, bordered blocks,
//! lists, tables and paragraphs. A render function of a pane returns one of
//! these; the terminal backend turns it into cells.

use vstd::prelude::*;
use crate::tui::ui::style::Style;

verus! {

/// A piece of text in one style.
#[derive(Debug, PartialEq, Eq)]
pub struct Span {
    pub content: String,
    pub style: Style,
}

/// What a [`Span`] holds, as mathematical values.
pub struct SpanView {
    pub content: Seq<char>,
    pub style: Style,
}

impl View for Span {
    type V = SpanView;

    open spec fn view(&self) -> SpanView {
        SpanView { content: self.content@, style: self.style }
    }
}

impl DeepView for Span {
    type V = SpanView;

    open spec fn deep_view(&self) -> SpanView {
        self@
    }
}

/// A border on all four sides with a title, in a style of its own.
#[derive(Debug, PartialEq, Eq)]
pub struct Block {
    pub title: String,
    pub style: Style,
    pub border_style: Style,
}

/// What a [`Block`] holds, as mathematical values.
pub struct BlockView {
    pub title: Seq<char>,
    pub style: Style,
    pub border_style: Style,
}

impl View for Block {
    type V = BlockView;

    open spec fn view(&self) -> BlockView {
        BlockView { title: self.title@, style: self.style, border_style: self.border_style }
    }
}

/// A block with the title `title` and nothing else set.
pub open spec fn titled(title: Seq<char>) -> BlockView {
    BlockView {
        title,
        style: Style { fg: None, bg: None },
        border_style: Style { fg: None, bg: None },
    }
}

impl Block {
    /// A block with the title `title` and the default styles.
    pub fn titled(title: &str) -> (block: Self)
        ensures
            block@ == titled(title@),
    {
        Block {
            title: String::from_str(title),
            style: Style::default(),
            border_style: Style::default(),
        }
    }
}

/// One line of text in a block.
#[derive(Debug, PartialEq, Eq)]
pub struct Paragraph {
    pub block: Block,
    pub spans: Vec<Span>,
    pub style: Style,
}

/// What a [`Paragraph`] holds, as mathematical values.
pub struct ParagraphView {
    pub block: BlockView,
    pub spans: Seq<SpanView>,
    pub style: Style,
}

impl View for Paragraph {
    type V = ParagraphView;

    open spec fn view(&self) -> ParagraphView {
        ParagraphView { block: self.block@, spans: self.spans.deep_view(), style: self.style }
    }
}

impl DeepView for Paragraph {
    type V = ParagraphView;

    open spec fn deep_view(&self) -> ParagraphView {
        self@
    }
}

/// One entry of a list: a line of text and the style of the entry.
#[derive(Debug, PartialEq, Eq)]
pub struct ListItem {
    pub spans: Vec<Span>,
    pub style: Style,
}

/// What a [`ListItem`] holds, as mathematical values.
pub struct ListItemView {
    pub spans: Seq<SpanView>,
    pub style: Style,
}

impl View for ListItem {
    type V = ListItemView;

    open spec fn view(&self) -> ListItemView {
        ListItemView { spans: self.spans.deep_view(), style: self.style }
    }
}

impl DeepView for ListItem {
    type V = ListItemView;

    open spec fn deep_view(&self) -> ListItemView {
        self@
    }
}

/// A list of entries in a block.
#[derive(Debug, PartialEq, Eq)]
pub struct List {
    pub block: Block,
    pub items: Vec<ListItem>,
    pub style: Style,
}

/// What a [`List`] holds, as mathematical values.
pub struct ListView {
    pub block: BlockView,
    pub items: Seq<ListItemView>,
    pub style: Style,
}

impl View for List {
    type V = ListView;

    open spec fn view(&self) -> ListView {
        ListView { block: self.block@, items: self.items.deep_view(), style: self.style }
    }
}

impl DeepView for List {
    type V = ListView;

    open spec fn deep_view(&self) -> ListView {
        self@
    }
}

/// One row of a table: its cells and the style of the row.
#[derive(Debug, PartialEq, Eq)]
pub struct Row {
    pub cells: Vec<String>,
    pub style: Style,
}

/// What a [`Row`] holds, as mathematical values.
pub struct RowView {
    pub cells: Seq<Seq<char>>,
    pub style: Style,
}

impl View for Row {
    type V = RowView;

    open spec fn view(&self) -> RowView {
        RowView { cells: self.cells.deep_view(), style: self.style }
    }
}

impl DeepView for Row {
    type V = RowView;

    open spec fn deep_view(&self) -> RowView {
        self@
    }
}

/// A table of rows in a block, with the width of each column in percent.
#[derive(Debug, PartialEq, Eq)]
pub struct Table {
    pub block: Block,
    pub rows: Vec<Row>,
    pub widths: Vec<u16>,
    pub style: Style,
}

/// What a [`Table`] holds, as mathematical values.
pub struct TableView {
    pub block: BlockView,
    pub rows: Seq<RowView>,
    pub widths: Seq<u16>,
    pub style: Style,
}

impl View for Table {
    type V = TableView;

    open spec fn view(&self) -> TableView {
        TableView {
            block: self.block@,
            rows: self.rows.deep_view(),
            widths: self.widths@,
            style: self.style,
        }
    }
}

impl DeepView for Table {
    type V = TableView;

    open spec fn deep_view(&self) -> TableView {
        self@
    }
}

} // verus!
