//! The layout of the report: a header with the gas limit and the price of
//! ether, and a table with one row for each chain.
//!
//! The cells come in as text. Here they get their widths, their padding and
//! the lines around them; colour and the terminal are the caller's.
//!
//! A column is as wide as its longest cell has bytes, and a cell is padded
//! until it has as many characters: where every character is one byte, as
//! in a chain's name and in a figure, the two are the same.

use vstd::prelude::*;
use vstd::string::StringExecFns;
use vstd::utf8::encode_utf8;
use crate::text::{capitalize_first, group_thousands, grouped, pad_end, pad_start, padded_end, padded_start, repeat, repeated, uppercase_of, with_head};

verus! {

/// The four columns of the table.
#[derive(Clone, Copy, Debug, PartialEq, Eq)]
pub enum Column {
    Chain,
    EthCost,
    UsdCost,
    GasPrice,
}

/// One chain's row: its name and its three figures as they are to be shown.
#[derive(Clone, Debug)]
pub struct TableRow {
    pub name: String,
    pub eth_cost: String,
    pub usd_cost: String,
    pub gas_price: String,
}

/// The width of each column, borders and the blank on either side apart.
#[derive(Clone, Copy, Debug, PartialEq, Eq)]
pub struct ColumnWidths {
    pub chain: usize,
    pub eth_cost: usize,
    pub usd_cost: usize,
    pub gas_price: usize,
}

/// The table as text: the lines in the order in which they are shown, the
/// row of labels as cells for the caller to set in bold type.
#[derive(Clone, Debug)]
pub struct TableText {
    pub widths: ColumnWidths,
    pub top_border: String,
    pub labels: Vec<String>,
    pub separator: String,
    pub rows: Vec<String>,
    pub bottom_border: String,
}

/// The header as text: the gas limit with its digits in groups, and the
/// two lines around the header's row.
#[derive(Clone, Debug)]
pub struct HeaderText {
    pub gas_limit: String,
    pub top_border: String,
    pub bottom_border: String,
}

/// The label over a column.
pub open spec fn label(column: Column) -> Seq<char> {
    match column {
        Column::Chain => "Chain"@,
        Column::EthCost => "ETH Cost"@,
        Column::UsdCost => "USD Cost"@,
        Column::GasPrice => "Gas Price"@,
    }
}

/// The width that a column's cells are taken to have in a table without
/// rows.
pub open spec fn default_width(column: Column) -> nat {
    match column {
        Column::Chain => 8,
        Column::EthCost => 10,
        Column::UsdCost => 8,
        Column::GasPrice => 8,
    }
}

/// The text of a row in a column.
pub open spec fn cell(row: TableRow, column: Column) -> Seq<char> {
    match column {
        Column::Chain => row.name@,
        Column::EthCost => row.eth_cost@,
        Column::UsdCost => row.usd_cost@,
        Column::GasPrice => row.gas_price@,
    }
}

/// The bytes that a text takes in UTF-8.
pub open spec fn byte_len(text: Seq<char>) -> nat {
    encode_utf8(text).len()
}

/// The bytes of the longest cell of a column; zero without rows.
pub open spec fn widest_cell(rows: Seq<TableRow>, column: Column) -> nat
    decreases rows.len(),
{
    if rows.len() == 0 {
        0
    } else {
        let before = widest_cell(rows.drop_last(), column);
        let here = byte_len(cell(rows.last(), column));
        if here > before {
            here
        } else {
            before
        }
    }
}

/// The width of a column: the bytes of its longest cell, or of its label
/// where that has more.
pub open spec fn column_width(rows: Seq<TableRow>, column: Column) -> nat {
    let cells = if rows.len() == 0 {
        default_width(column)
    } else {
        widest_cell(rows, column)
    };
    if cells >= byte_len(label(column)) {
        cells
    } else {
        byte_len(label(column))
    }
}

/// Whether `widths` are the widths of the columns of `rows`.
pub open spec fn widths_of(widths: ColumnWidths, rows: Seq<TableRow>) -> bool {
    &&& widths.chain == column_width(rows, Column::Chain)
    &&& widths.eth_cost == column_width(rows, Column::EthCost)
    &&& widths.usd_cost == column_width(rows, Column::UsdCost)
    &&& widths.gas_price == column_width(rows, Column::GasPrice)
}

/// The part of a horizontal line over one column: as wide as the cells
/// and a blank on either side.
pub open spec fn segment(width: nat) -> Seq<char> {
    repeated("─"@, width + 2)
}

/// The segments over columns of these widths with `junction` between them.
pub open spec fn joined_segments(junction: Seq<char>, widths: Seq<nat>) -> Seq<char>
    decreases widths.len(),
{
    if widths.len() == 0 {
        Seq::empty()
    } else if widths.len() == 1 {
        segment(widths[0])
    } else {
        joined_segments(junction, widths.drop_last()) + junction + segment(widths.last())
    }
}

/// A horizontal line over columns of these widths, from corner to corner.
pub open spec fn border_text(
    left: Seq<char>,
    junction: Seq<char>,
    right: Seq<char>,
    widths: Seq<nat>,
) -> Seq<char> {
    left + joined_segments(junction, widths) + right
}

/// The widths of a table as a sequence, left to right.
pub open spec fn width_seq(widths: ColumnWidths) -> Seq<nat> {
    seq![
        widths.chain as nat,
        widths.eth_cost as nat,
        widths.usd_cost as nat,
        widths.gas_price as nat,
    ]
}

/// A row of the table: the name with a capital and blanks behind it, each
/// figure with blanks in front of it, bars between them.
pub open spec fn row_text(row: TableRow, widths: ColumnWidths) -> Seq<char> {
    "│ "@ + padded_end(
        if row.name@.len() == 0 {
            row.name@
        } else {
            with_head(row.name@, uppercase_of(row.name@[0]))
        },
        widths.chain as nat,
    ) + " │ "@ + padded_start(row.eth_cost@, widths.eth_cost as nat) + " │ "@ + padded_start(
        row.usd_cost@,
        widths.usd_cost as nat,
    ) + " │ "@ + padded_start(row.gas_price@, widths.gas_price as nat) + " │"@
}

/// The text of a row in a column.
fn cell_text(row: &TableRow, column: Column) -> (text: &str)
    ensures
        text@ == cell(*row, column),
{
    match column {
        Column::Chain => row.name.as_str(),
        Column::EthCost => row.eth_cost.as_str(),
        Column::UsdCost => row.usd_cost.as_str(),
        Column::GasPrice => row.gas_price.as_str(),
    }
}

/// The label over a column.
pub fn label_text(column: Column) -> (text: &'static str)
    ensures
        text@ == label(column),
{
    match column {
        Column::Chain => "Chain",
        Column::EthCost => "ETH Cost",
        Column::UsdCost => "USD Cost",
        Column::GasPrice => "Gas Price",
    }
}

/// The width of a column of `rows`.
pub fn measure_column(rows: &Vec<TableRow>, column: Column) -> (width: usize)
    ensures
        width == column_width(rows@, column),
{
    let mut widest: usize = 0;
    let mut i: usize = 0;
    assert(rows@.take(0) =~= Seq::<TableRow>::empty());
    while i < rows.len()
        invariant
            i <= rows.len(),
            widest == widest_cell(rows@.take(i as int), column),
        decreases rows.len() - i,
    {
        let here: usize = cell_text(&rows[i], column).as_bytes().len();
        proof {
            let upto = rows@.take(i + 1);
            assert(upto.drop_last() =~= rows@.take(i as int));
            assert(upto.last() == rows@[i as int]);
        }
        if here > widest {
            widest = here;
        }
        i += 1;
    }
    assert(rows@.take(rows.len() as int) =~= rows@);
    if rows.len() == 0 {
        widest =
        match column {
            Column::Chain => 8,
            Column::EthCost => 10,
            Column::UsdCost => 8,
            Column::GasPrice => 8,
        };
    }
    let label_len: usize = label_text(column).as_bytes().len();
    if widest >= label_len {
        widest
    } else {
        label_len
    }
}

/// The widths of the columns of `rows`.
pub fn measure(rows: &Vec<TableRow>) -> (widths: ColumnWidths)
    ensures
        widths_of(widths, rows@),
{
    ColumnWidths {
        chain: measure_column(rows, Column::Chain),
        eth_cost: measure_column(rows, Column::EthCost),
        usd_cost: measure_column(rows, Column::UsdCost),
        gas_price: measure_column(rows, Column::GasPrice),
    }
}

/// A horizontal line over columns of these widths, from corner to corner.
pub fn border(left: &str, junction: &str, right: &str, widths: &Vec<usize>) -> (line: String)
    ensures
        line@ == border_text(left@, junction@, right@, widths@.map_values(|w: usize| w as nat)),
{
    let ghost all = widths@.map_values(|w: usize| w as nat);
    let mut line: String = String::from_str(left);
    let mut i: usize = 0;
    assert(all.take(0) =~= Seq::<nat>::empty());
    while i < widths.len()
        invariant
            i <= widths.len(),
            all == widths@.map_values(|w: usize| w as nat),
            line@ == left@ + joined_segments(junction@, all.take(i as int)),
        decreases widths.len() - i,
    {
        if i > 0 {
            line.append(junction);
        }
        let fill: String = repeat("─", widths[i]);
        line.append(fill.as_str());
        line.append("─");
        line.append("─");
        proof {
            let upto = all.take(i + 1);
            let width = widths@[i as int] as nat;
            assert(upto.last() == width);
            assert(upto.drop_last() =~= all.take(i as int));
            assert(segment(width) =~= repeated("─"@, width) + "─"@ + "─"@) by {
                assert(repeated("─"@, width + 2) == repeated("─"@, (width + 1) as nat) + "─"@);
                assert(repeated("─"@, width + 1) == repeated("─"@, width) + "─"@);
            }
            assert(line@ =~= left@ + joined_segments(junction@, upto));
        }
        i += 1;
    }
    assert(all.take(widths.len() as int) =~= all);
    line.append(right);
    line
}

/// The widths of a table, left to right.
fn width_list(widths: &ColumnWidths) -> (list: Vec<usize>)
    ensures
        list@.map_values(|w: usize| w as nat) == width_seq(*widths),
{
    let mut list: Vec<usize> = Vec::new();
    list.push(widths.chain);
    list.push(widths.eth_cost);
    list.push(widths.usd_cost);
    list.push(widths.gas_price);
    assert(list@.map_values(|w: usize| w as nat) =~= width_seq(*widths));
    list
}

/// A row of the table between its bars.
pub fn render_row(row: &TableRow, widths: &ColumnWidths) -> (line: String)
    ensures
        line@ == row_text(*row, *widths),
{
    let name: String = capitalize_first(row.name.as_str());
    let mut line: String = String::from_str("│ ");
    line.append(pad_end(name.as_str(), widths.chain).as_str());
    line.append(" │ ");
    line.append(pad_start(row.eth_cost.as_str(), widths.eth_cost).as_str());
    line.append(" │ ");
    line.append(pad_start(row.usd_cost.as_str(), widths.usd_cost).as_str());
    line.append(" │ ");
    line.append(pad_start(row.gas_price.as_str(), widths.gas_price).as_str());
    line.append(" │");
    line
}

/// Whether `table` is the table of `rows`.
pub open spec fn table_of(table: TableText, rows: Seq<TableRow>) -> bool {
    &&& widths_of(table.widths, rows)
    &&& table.top_border@ == border_text("┌"@, "┬"@, "┐"@, width_seq(table.widths))
    &&& table.labels.len() == 4
    &&& table.labels[0]@ == padded_end(label(Column::Chain), table.widths.chain as nat)
    &&& table.labels[1]@ == padded_end(label(Column::EthCost), table.widths.eth_cost as nat)
    &&& table.labels[2]@ == padded_end(label(Column::UsdCost), table.widths.usd_cost as nat)
    &&& table.labels[3]@ == padded_end(label(Column::GasPrice), table.widths.gas_price as nat)
    &&& table.separator@ == border_text("├"@, "┼"@, "┤"@, width_seq(table.widths))
    &&& table.rows.len() == rows.len()
    &&& forall|i: int|
        0 <= i < rows.len() ==> (#[trigger] table.rows[i])@ == row_text(rows[i], table.widths)
    &&& table.bottom_border@ == border_text("└"@, "┴"@, "┘"@, width_seq(table.widths))
}

/// Lays out the table of `rows`: every column as wide as its longest cell
/// or its label, names to the left, figures to the right.
pub fn lay_out_table(rows: &Vec<TableRow>) -> (table: TableText)
    ensures
        table_of(table, rows@),
{
    let widths: ColumnWidths = measure(rows);
    let list: Vec<usize> = width_list(&widths);
    let mut labels: Vec<String> = Vec::new();
    labels.push(pad_end(label_text(Column::Chain), widths.chain));
    labels.push(pad_end(label_text(Column::EthCost), widths.eth_cost));
    labels.push(pad_end(label_text(Column::UsdCost), widths.usd_cost));
    labels.push(pad_end(label_text(Column::GasPrice), widths.gas_price));
    let mut lines: Vec<String> = Vec::new();
    let mut i: usize = 0;
    while i < rows.len()
        invariant
            i <= rows.len(),
            lines.len() == i,
            forall|k: int| 0 <= k < i ==> (#[trigger] lines[k])@ == row_text(rows[k], widths),
        decreases rows.len() - i,
    {
        lines.push(render_row(&rows[i], &widths));
        i += 1;
    }
    TableText {
        widths,
        top_border: border("┌", "┬", "┐", &list),
        labels,
        separator: border("├", "┼", "┤", &list),
        rows: lines,
        bottom_border: border("└", "┴", "┘", &list),
    }
}

/// The two cells of the header as they are measured: a label, a colon and
/// the figure, a blank on either side.
pub open spec fn header_cell(label: Seq<char>, figure: Seq<char>) -> Seq<char> {
    " "@ + label + ": "@ + figure + " "@
}

/// Whether `header` is the header for `gas_limit` and the price of ether
/// written as `eth_price`.
pub open spec fn header_of(header: HeaderText, gas_limit: u64, eth_price: Seq<char>) -> bool {
    let cells = seq![
        byte_len(header_cell("Gas Limit"@, grouped(gas_limit as nat))),
        byte_len(header_cell("ETH Price"@, eth_price)),
    ];
    &&& header.gas_limit@ == grouped(gas_limit as nat)
    &&& header.top_border@ == border_text("┌"@, "┬"@, "┐"@, cells)
    &&& header.bottom_border@ == border_text("└"@, "┴"@, "┘"@, cells)
}

/// A cell of the header as it is measured.
fn header_cell_text(label: &str, figure: &str) -> (text: String)
    ensures
        text@ == header_cell(label@, figure@),
{
    let mut text: String = String::from_str(" ");
    text.append(label);
    text.append(": ");
    text.append(figure);
    text.append(" ");
    text
}

/// Lays out the header for `gas_limit` and the price of ether written as
/// `eth_price`: the gas limit with its digits in groups of three, and the
/// lines over and under two cells, each as wide as its text has bytes and
/// a blank on either side.
pub fn lay_out_header(gas_limit: u64, eth_price: &str) -> (header: HeaderText)
    ensures
        header_of(header, gas_limit, eth_price@),
{
    let figure: String = group_thousands(gas_limit);
    let mut list: Vec<usize> = Vec::new();
    list.push(header_cell_text("Gas Limit", figure.as_str()).as_str().as_bytes().len());
    list.push(header_cell_text("ETH Price", eth_price).as_str().as_bytes().len());
    assert(list@.map_values(|w: usize| w as nat) =~= seq![
        byte_len(header_cell("Gas Limit"@, grouped(gas_limit as nat))),
        byte_len(header_cell("ETH Price"@, eth_price@)),
    ]);
    HeaderText {
        gas_limit: figure,
        top_border: border("┌", "┬", "┐", &list),
        bottom_border: border("└", "┴", "┘", &list),
    }
}

} // verus!
