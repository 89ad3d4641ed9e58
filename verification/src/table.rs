use vstd::prelude::*;
use crate::custom_table::Table;
use crate::value::Value;

verus! {

/// One chunk of a query's result: column names and rows of typed values.
pub struct Batch {
    pub headers: Vec<String>,
    pub rows: Vec<Vec<Value>>,
}

/// Whether `texts` holds the display text of each value of `row`, in order.
pub open spec fn row_shows(texts: Seq<String>, row: Seq<Value>) -> bool {
    &&& texts.len() == row.len()
    &&& forall|c: int| 0 <= c < row.len() ==> (#[trigger] texts[c])@ == row[c].text()
}

/// Whether `table` is the grid of `batch`: its headers, the display text of
/// each of its values in place, and the measured width of each column.
pub open spec fn shows(table: Table, batch: Batch) -> bool {
    &&& table.headers@ == batch.headers@
    &&& table.rows@.len() == batch.rows@.len()
    &&& forall|r: int|
        0 <= r < batch.rows@.len() ==> row_shows((#[trigger] table.rows@[r])@, batch.rows@[r]@)
    &&& table.wf()
}

/// Formats the values of one row.
fn format_row(row: &Vec<Value>) -> (texts: Vec<String>)
    ensures
        row_shows(texts@, row@),
{
    let mut texts: Vec<String> = Vec::new();
    let mut c: usize = 0;
    while c < row.len()
        invariant
            c <= row@.len(),
            texts@.len() == c,
            forall|k: int| 0 <= k < c ==> (#[trigger] texts@[k])@ == row@[k].text(),
        decreases row@.len() - c,
    {
        texts.push(row[c].format());
        c = c + 1;
    }
    texts
}

/// Builds the grid of a batch: every value formatted once, every column measured once.
pub fn create_table(batch: Batch) -> (table: Table)
    ensures
        shows(table, batch),
{
    let mut rows: Vec<Vec<String>> = Vec::new();
    let mut r: usize = 0;
    while r < batch.rows.len()
        invariant
            r <= batch.rows@.len(),
            rows@.len() == r,
            forall|k: int| 0 <= k < r ==> row_shows((#[trigger] rows@[k])@, batch.rows@[k]@),
        decreases batch.rows@.len() - r,
    {
        rows.push(format_row(&batch.rows[r]));
        r = r + 1;
    }
    Table::new(batch.headers, rows)
}

} // verus!
