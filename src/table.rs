use vstd::prelude::*;

use comfy_table::Table;

verus! {

#[verifier::external_type_specification]
#[verifier::external_body]
pub struct ExTable(Table);

/// The header cells of a table, empty while no header is set.
pub uninterp spec fn table_header(t: Table) -> Seq<Seq<char>>;

/// The body rows of a table, in the order they were added.
pub uninterp spec fn table_rows(t: Table) -> Seq<Seq<Seq<char>>>;

/// The text that comfy-table draws for a header and rows.
pub uninterp spec fn drawn_table(header: Seq<Seq<char>>, rows: Seq<Seq<Seq<char>>>) -> Seq<char>;

/// The text of each cell.
pub open spec fn cell_texts(cells: Seq<String>) -> Seq<Seq<char>> {
    cells.map_values(|c: String| c@)
}

/// Relies on comfy_table::Table::new: a table with no header and no rows.
#[verifier::external_body]
pub(crate) fn new_table() -> (t: Table)
    ensures
        table_header(t) == Seq::<Seq<char>>::empty(),
        table_rows(t) == Seq::<Seq<Seq<char>>>::empty(),
{
    Table::new()
}

/// Relies on comfy_table::Table::set_header: it stores the given cells as the
/// header and leaves the rows alone.
#[verifier::external_body]
pub(crate) fn set_table_header(t: &mut Table, cells: Vec<String>)
    requires
        cells@.len() > 0,
    ensures
        table_header(*final(t)) == cell_texts(cells@),
        table_rows(*final(t)) == table_rows(*old(t)),
{
    t.set_header(cells);
}

/// Relies on comfy_table::Table::add_row: it appends the given cells as the
/// last row and leaves the header alone.
#[verifier::external_body]
pub(crate) fn add_table_row(t: &mut Table, cells: Vec<String>)
    ensures
        table_header(*final(t)) == table_header(*old(t)),
        table_rows(*final(t)) == table_rows(*old(t)).push(cell_texts(cells@)),
{
    t.add_row(cells);
}

/// Relies on comfy_table's `Display` for `Table`: with the default layout and
/// unstyled cells the text depends on the header and the rows alone.
#[verifier::external_body]
pub(crate) fn table_text(t: &Table) -> (r: String)
    ensures
        r@ == drawn_table(table_header(*t), table_rows(*t)),
{
    t.to_string()
}

} // verus!
