//! Tables of text cells, laid out by `prettytable`.

use vstd::prelude::*;
use std::fmt::Write;

verus! {

/// A table: a title line and rows of cells.
#[derive(Debug, Clone, PartialEq, Eq)]
pub struct Table {
    pub titles: Vec<String>,
    pub rows: Vec<Vec<String>>,
}

pub ghost struct TableView {
    pub titles: Seq<Seq<char>>,
    pub rows: Seq<Seq<Seq<char>>>,
}

/// The texts of a run of cells, in order.
pub open spec fn cells_view(cells: Seq<String>) -> Seq<Seq<char>> {
    Seq::new(cells.len(), |i: int| cells[i]@)
}

/// The texts of a run of rows, in order.
pub open spec fn rows_view(rows: Seq<Vec<String>>) -> Seq<Seq<Seq<char>>> {
    Seq::new(rows.len(), |i: int| cells_view(rows[i]@))
}

impl View for Table {
    type V = TableView;

    open spec fn view(&self) -> TableView {
        TableView { titles: cells_view(self.titles@), rows: rows_view(self.rows@) }
    }
}

/// The text that a table is laid out as: borders, padding and line breaks
/// as `prettytable` sets them in its default format.
pub uninterp spec fn table_text(titles: Seq<Seq<char>>, rows: Seq<Seq<Seq<char>>>) -> Seq<char>;

/// Builds a `prettytable::Table` with the same titles and rows, cell by
/// cell, and writes it out through its `Display`. The text is named, not
/// described: it depends on the cells alone.
#[verifier::external_body]
fn lay_out(table: &Table) -> (text: String)
    ensures
        text@ == table_text(table@.titles, table@.rows),
{
    let mut laid = prettytable::Table::new();
    let titles = table.titles.iter().map(|c| prettytable::Cell::new(c)).collect();
    laid.set_titles(prettytable::Row::new(titles));
    for row in table.rows.iter() {
        let cells = row.iter().map(|c| prettytable::Cell::new(c)).collect();
        laid.add_row(prettytable::Row::new(cells));
    }
    let mut text = String::new();
    let _ = write!(text, "{}", laid);
    text
}

impl Table {
    /// The table as aligned text.
    pub fn to_text(&self) -> (text: String)
        ensures
            text@ == table_text(self@.titles, self@.rows),
    {
        lay_out(self)
    }
}

/// A cell that holds a copy of the given text.
pub(crate) fn cell(text: &str) -> (c: String)
    ensures
        c@ == text@,
{
    text.to_owned()
}

/// A row of two cells.
pub(crate) fn row2(a: String, b: String) -> (row: Vec<String>)
    ensures
        cells_view(row@) == seq![a@, b@],
{
    let mut row: Vec<String> = Vec::new();
    row.push(a);
    row.push(b);
    proof {
        assert(cells_view(row@) =~= seq![a@, b@]);
    }
    row
}

/// A row of three cells.
pub(crate) fn row3(a: String, b: String, c: String) -> (row: Vec<String>)
    ensures
        cells_view(row@) == seq![a@, b@, c@],
{
    let mut row: Vec<String> = Vec::new();
    row.push(a);
    row.push(b);
    row.push(c);
    proof {
        assert(cells_view(row@) =~= seq![a@, b@, c@]);
    }
    row
}

/// A row of four cells.
pub(crate) fn row4(a: String, b: String, c: String, d: String) -> (row: Vec<String>)
    ensures
        cells_view(row@) == seq![a@, b@, c@, d@],
{
    let mut row: Vec<String> = Vec::new();
    row.push(a);
    row.push(b);
    row.push(c);
    row.push(d);
    proof {
        assert(cells_view(row@) =~= seq![a@, b@, c@, d@]);
    }
    row
}

} // verus!
