//! Tables for the listing commands, laid out by `tabout`.
use vstd::prelude::*;

verus! {

/// How a column of a table is aligned.
#[derive(Clone, Copy, Debug, PartialEq, Eq, Structural)]
pub enum ColumnAlign {
    Left,
    Center,
    Right,
}

/// A column of a table: its header and how its cells are aligned.
pub struct TableColumn {
    pub name: String,
    pub align: ColumnAlign,
}

/// The columns as (header, alignment) pairs.
pub open spec fn columns_view(c: Seq<TableColumn>) -> Seq<(Seq<char>, ColumnAlign)> {
    c.map_values(|x: TableColumn| (x.name@, x.align))
}

/// The rows as sequences of cell texts.
pub open spec fn rows_view(rows: Seq<Vec<String>>) -> Seq<Seq<Seq<char>>> {
    rows.map_values(|r: Vec<String>| r.deep_view())
}

/// The text that `tabout::tabulate_output_as_string` lays out for these
/// columns and rows.
pub uninterp spec fn tabulated(columns: Seq<(Seq<char>, ColumnAlign)>, rows: Seq<Seq<Seq<char>>>) -> Seq<char>;

/// std's `io::Error`, which laying out a table may report.
#[verifier::external_type_specification]
#[verifier::external_body]
pub struct ExIoError(std::io::Error);

/// Calls `tabout::tabulate_output_as_string`. That function pads every cell
/// to the width of its column's widest cell (header included), as the column
/// is aligned, puts one space between cells and ends each line with a
/// newline. The contract claims that it succeeds, and that its text is a
/// function of the columns and rows (`tabulated`). It succeeds because it
/// writes only into a `Vec<u8>`, whose `io::Write` never fails, and writes
/// only the text of `str`s, so the final `String::from_utf8` cannot fail;
/// every padding width is a maximum over the cells it pads, so no
/// subtraction in it underflows.
#[verifier::external_body]
fn tabulate(columns: &Vec<TableColumn>, rows: &Vec<Vec<String>>) -> (r: Result<String, std::io::Error>)
    ensures
        r is Ok,
        r matches Ok(s) ==> s@ == tabulated(columns_view(columns@), rows_view(rows@)),
{
    let cols: Vec<tabout::Column> = columns.iter().map(|c| tabout::Column {
        name: c.name.clone(),
        alignment: match c.align {
            ColumnAlign::Left => tabout::Alignment::Left,
            ColumnAlign::Center => tabout::Alignment::Center,
            ColumnAlign::Right => tabout::Alignment::Right,
        },
    }).collect();
    tabout::tabulate_output_as_string(&cols, rows)
}

/// A table could not be laid out.
#[derive(Clone, Copy, Debug, PartialEq, Eq, Structural)]
pub struct TableError {}

/// Lays out a table; this always succeeds.
pub fn render_table(columns: &Vec<TableColumn>, rows: &Vec<Vec<String>>) -> (r: Result<String, TableError>)
    ensures
        r is Ok,
        r matches Ok(s) ==> s@ == tabulated(columns_view(columns@), rows_view(rows@)),
{
    match tabulate(columns, rows) {
        Ok(s) => Ok(s),
        Err(_) => Err(TableError {}),
    }
}

/// A column with the given header and alignment.
pub fn table_column(name: &str, align: ColumnAlign) -> (r: TableColumn)
    ensures
        r.name@ == name@,
        r.align == align,
{
    TableColumn { name: String::from_str(name), align }
}

} // verus!
