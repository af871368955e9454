//! Data table with typed cells. `C` is the host's markup type, carried by
//! custom cells and never read here.
use vstd::prelude::*;
use crate::classes::{class_join, class_list, fragment_views};

verus! {

/// Direction colour of a change cell.
#[derive(Clone, Copy, Debug, PartialEq, Eq, Structural)]
pub enum TableChangeType {
    Bullish,
    Bearish,
    Neutral,
}

/// How a cell is rendered.
#[derive(Clone, Debug, PartialEq)]
pub enum TableCellType<C> {
    /// Plain text.
    Text,
    /// Emphasised text.
    Primary,
    /// Muted text.
    Secondary,
    /// A change coloured by its direction.
    Change(TableChangeType),
    /// Markup supplied by the host, rendered as it is.
    Custom(C),
}

#[derive(Clone, Debug, PartialEq)]
pub struct TableCell<C> {
    pub content: String,
    pub cell_type: TableCellType<C>,
}

impl<C> TableCell<C> {
    pub fn text(content: &str) -> (r: TableCell<C>)
        ensures
            r.content@ == content@,
            r.cell_type is Text,
    {
        TableCell { content: content.to_owned(), cell_type: TableCellType::Text }
    }

    pub fn primary(content: &str) -> (r: TableCell<C>)
        ensures
            r.content@ == content@,
            r.cell_type is Primary,
    {
        TableCell { content: content.to_owned(), cell_type: TableCellType::Primary }
    }

    pub fn secondary(content: &str) -> (r: TableCell<C>)
        ensures
            r.content@ == content@,
            r.cell_type is Secondary,
    {
        TableCell { content: content.to_owned(), cell_type: TableCellType::Secondary }
    }

    pub fn change(content: &str, change_type: TableChangeType) -> (r: TableCell<C>)
        ensures
            r.content@ == content@,
            r.cell_type == TableCellType::<C>::Change(change_type),
    {
        TableCell { content: content.to_owned(), cell_type: TableCellType::Change(change_type) }
    }

    /// A cell that shows host markup; its text content is empty.
    pub fn custom(markup: C) -> (r: TableCell<C>)
        ensures
            r.content@ == Seq::<char>::empty(),
            r.cell_type == TableCellType::Custom(markup),
    {
        TableCell { content: String::new(), cell_type: TableCellType::Custom(markup) }
    }
}

#[derive(Clone, Debug, PartialEq)]
pub struct TableRow<C> {
    pub cells: Vec<TableCell<C>>,
}

impl<C> TableRow<C> {
    pub fn new(cells: Vec<TableCell<C>>) -> (r: TableRow<C>)
        ensures
            r.cells == cells,
    {
        TableRow { cells }
    }
}

/// The class of the text span of a cell; custom cells have none.
pub open spec fn spec_cell_class<C>(cell_type: TableCellType<C>) -> Option<Seq<char>> {
    match cell_type {
        TableCellType::Text => Some("text-text-secondary"@),
        TableCellType::Primary => Some("text-text-primary font-medium"@),
        TableCellType::Secondary => Some("text-text-tertiary"@),
        TableCellType::Change(TableChangeType::Bullish) => Some("text-bullish"@),
        TableCellType::Change(TableChangeType::Bearish) => Some("text-bearish"@),
        TableCellType::Change(TableChangeType::Neutral) => Some("text-neutral"@),
        TableCellType::Custom(_) => None,
    }
}

/// The class of the span that shows the cell's content, or `None` for a
/// custom cell, whose markup the host renders as it is.
pub fn render_cell<C>(cell: &TableCell<C>) -> (r: Option<&'static str>)
    ensures
        r is None <==> spec_cell_class(cell.cell_type) is None,
        r matches Some(c) ==> c@ == spec_cell_class(cell.cell_type)->0,
{
    match &cell.cell_type {
        TableCellType::Text => Some("text-text-secondary"),
        TableCellType::Primary => Some("text-text-primary font-medium"),
        TableCellType::Secondary => Some("text-text-tertiary"),
        TableCellType::Change(t) => match t {
            TableChangeType::Bullish => Some("text-bullish"),
            TableChangeType::Bearish => Some("text-bearish"),
            TableChangeType::Neutral => Some("text-neutral"),
        },
        TableCellType::Custom(_) => None,
    }
}

#[derive(Clone, Debug)]
pub struct TableProps<C> {
    pub headers: Vec<String>,
    pub rows: Vec<TableRow<C>>,
    /// Whether rows highlight under the pointer.
    pub hoverable: bool,
}

/// The class of row `i` of `n`: every row but the last has a bottom rule.
pub open spec fn spec_row_class(i: int, n: int, hoverable: bool) -> Seq<char> {
    class_join(seq![
        if i + 1 < n { "border-b border-border-subtle"@ } else { ""@ },
        if hoverable { "hover:bg-bg-tertiary transition-colors"@ } else { ""@ },
    ])
}

/// The render decisions of a table.
#[derive(Clone, Debug)]
pub struct TableView {
    /// One class per row, in order.
    pub row_classes: Vec<String>,
}

/// Describes the table's rows.
pub fn table<C>(props: &TableProps<C>) -> (r: TableView)
    ensures
        r.row_classes@.len() == props.rows@.len(),
        forall|i: int|
            0 <= i < r.row_classes@.len() ==> #[trigger] r.row_classes@[i]@ == spec_row_class(
                i,
                props.rows@.len() as int,
                props.hoverable,
            ),
{
    let hover = if props.hoverable { "hover:bg-bg-tertiary transition-colors" } else { "" };
    let n = props.rows.len();
    let mut row_classes: Vec<String> = Vec::new();
    let mut i: usize = 0;
    while i < n
        invariant
            0 <= i <= n,
            n == props.rows@.len(),
            hover@ == (if props.hoverable { "hover:bg-bg-tertiary transition-colors"@ } else { ""@ }),
            row_classes@.len() == i,
            forall|j: int|
                0 <= j < i ==> #[trigger] row_classes@[j]@ == spec_row_class(
                    j,
                    n as int,
                    props.hoverable,
                ),
        decreases n - i,
    {
        let rule = if i + 1 < n { "border-b border-border-subtle" } else { "" };
        let parts = vec![rule, hover];
        let class = class_list(&parts);
        assert(fragment_views(parts@) =~= seq![rule@, hover@]);
        row_classes.push(class);
        i = i + 1;
    }
    TableView { row_classes }
}

} // verus!
