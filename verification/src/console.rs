use vstd::prelude::*;

verus! {

#[verifier::external_type_specification]
#[verifier::external_body]
pub struct ExTable(prettytable::Table);

#[verifier::external_type_specification]
#[verifier::external_body]
pub struct ExRow(prettytable::Row);

/// What prettytable::Cell::new keeps of the text it is given: the cell's
/// content, a function of that text alone.
pub uninterp spec fn cell_of(s: Seq<char>) -> Seq<char>;

/// The cells a console row holds, in order.
pub uninterp spec fn row_cells(r: prettytable::Row) -> Seq<Seq<char>>;

/// The data rows a console table holds, in order.
pub uninterp spec fn table_rows(t: prettytable::Table) -> Seq<Seq<Seq<char>>>;

/// The title cells a console table holds (empty while no titles are set).
pub uninterp spec fn table_titles(t: prettytable::Table) -> Seq<Seq<char>>;

/// Relies on prettytable::Row::empty: a new row holds no cell.
#[verifier::external_body]
fn row_new() -> (r: prettytable::Row)
    ensures
        row_cells(r) == Seq::<Seq<char>>::empty(),
{
    prettytable::Row::empty()
}

/// Relies on prettytable::Row::add_cell and Cell::new: appends one cell
/// holding the given text to the row.
#[verifier::external_body]
fn row_push(r: &mut prettytable::Row, s: &str)
    ensures
        row_cells(*final(r)) == row_cells(*old(r)).push(cell_of(s@)),
{
    r.add_cell(prettytable::Cell::new(s));
}

/// Relies on prettytable::Table::new: a new table holds no row and no
/// titles.
#[verifier::external_body]
fn table_new() -> (t: prettytable::Table)
    ensures
        table_rows(t) == Seq::<Seq<Seq<char>>>::empty(),
        table_titles(t) == Seq::<Seq<char>>::empty(),
{
    prettytable::Table::new()
}

/// Relies on prettytable::Table::set_format: the format chooses the border
/// glyphs and touches neither rows nor titles.
#[verifier::external_body]
fn table_set_box_format(t: &mut prettytable::Table)
    ensures
        table_rows(*final(t)) == table_rows(*old(t)),
        table_titles(*final(t)) == table_titles(*old(t)),
{
    t.set_format(*prettytable::format::consts::FORMAT_BOX_CHARS);
}

/// Relies on prettytable::Table::set_titles: replaces the title row and
/// leaves the data rows as they are.
#[verifier::external_body]
fn table_set_titles(t: &mut prettytable::Table, row: prettytable::Row)
    ensures
        table_titles(*final(t)) == row_cells(row),
        table_rows(*final(t)) == table_rows(*old(t)),
{
    t.set_titles(row);
}

/// Relies on prettytable::Table::add_row: appends one data row and leaves
/// the titles as they are.
#[verifier::external_body]
fn table_add_row(t: &mut prettytable::Table, row: prettytable::Row)
    ensures
        table_rows(*final(t)) == table_rows(*old(t)).push(row_cells(row)),
        table_titles(*final(t)) == table_titles(*old(t)),
{
    t.add_row(row);
}

/// What a console table draws as: its display text, a function of the
/// table value alone (its cells and its format; no terminal is consulted).
pub uninterp spec fn display_of(t: prettytable::Table) -> Seq<char>;

/// Relies on prettytable::Table's display form: draws the table as text,
/// deterministically. Which cells the drawing shows is pinned by
/// `table_rows` and `table_titles` of the table it is given.
#[verifier::external_body]
fn table_to_display_text(t: &prettytable::Table) -> (r: String)
    ensures
        r@ == display_of(*t),
{
    t.to_string()
}

/// A console table holds exactly one shaped header and row set: the shaped
/// cells stand in it one to one, so this sink cannot diverge from the
/// Markdown sink fed from the same shape.
pub open spec fn table_holds(t: prettytable::Table, header: Seq<String>, rows: Seq<Vec<String>>) -> bool {
    &&& table_titles(t).len() == header.len()
    &&& forall|j: int|
        0 <= j < header.len() ==> table_titles(t)[j] == cell_of((#[trigger] header[j])@)
    &&& table_rows(t).len() == rows.len()
    &&& forall|i: int| 0 <= i < rows.len() ==> (#[trigger] table_rows(t)[i]).len() == rows[i]@.len()
    &&& forall|i: int, j: int|
        0 <= i < rows.len() && 0 <= j < rows[i]@.len() ==> table_rows(t)[i][j] == cell_of(
            (#[trigger] rows[i]@[j])@,
        )
}

fn fill_row(cells: &Vec<String>) -> (r: prettytable::Row)
    ensures
        row_cells(r).len() == cells@.len(),
        forall|i: int|
            0 <= i < cells@.len() ==> row_cells(r)[i] == cell_of((#[trigger] cells@[i])@),
{
    let mut r = row_new();
    let mut i: usize = 0;
    while i < cells.len()
        invariant
            i <= cells@.len(),
            row_cells(r).len() == i,
            forall|t: int|
                0 <= t < i ==> row_cells(r)[t] == cell_of((#[trigger] cells@[t])@),
        decreases cells@.len() - i,
    {
        row_push(&mut r, cells[i].as_str());
        i += 1;
    }
    r
}

/// Builds the console table of one shaped header and row set.
pub fn console_table(header: &Vec<String>, rows: &Vec<Vec<String>>) -> (t: prettytable::Table)
    ensures
        table_holds(t, header@, rows@),
{
    let mut t = table_new();
    let title_row = fill_row(header);
    table_set_titles(&mut t, title_row);
    table_set_box_format(&mut t);
    let mut i: usize = 0;
    while i < rows.len()
        invariant
            i <= rows@.len(),
            table_titles(t).len() == header@.len(),
            forall|j: int|
                0 <= j < header@.len() ==> table_titles(t)[j] == cell_of(
                    (#[trigger] header@[j])@,
                ),
            table_rows(t).len() == i,
            forall|u: int|
                0 <= u < i ==> (#[trigger] table_rows(t)[u]).len() == rows@[u]@.len(),
            forall|u: int, j: int|
                0 <= u < i && 0 <= j < rows@[u]@.len() ==> table_rows(t)[u][j] == cell_of(
                    (#[trigger] rows@[u]@[j])@,
                ),
        decreases rows@.len() - i,
    {
        let row = fill_row(&rows[i]);
        table_add_row(&mut t, row);
        i += 1;
    }
    t
}

/// Draws one shaped header and row set as console text: the result is the
/// display text of a table holding exactly the shaped cells.
pub fn render_console_table(header: &Vec<String>, rows: &Vec<Vec<String>>) -> (r: String)
    ensures
        exists|t: prettytable::Table|
            #[trigger] table_holds(t, header@, rows@) && r@ == display_of(t),
{
    let t = console_table(header, rows);
    let text = table_to_display_text(&t);
    proof {
        assert(table_holds(t, header@, rows@) && text@ == display_of(t));
    }
    text
}

} // verus!
