use vstd::prelude::*;
use vstd::string::StringExecFns;

verus! {

/// The character sequences of a row of cells.
pub open spec fn cells_view(v: Seq<String>) -> Seq<Seq<char>> {
    Seq::new(v.len(), |i: int| v[i]@)
}

/// The character sequences of a sequence of rows.
pub open spec fn rows_view(rs: Seq<Vec<String>>) -> Seq<Seq<Seq<char>>> {
    Seq::new(rs.len(), |i: int| cells_view(rs[i]@))
}

/// The inner text of one table line: every cell padded with one space on
/// each side and closed by a column separator.
pub open spec fn spec_md_cells(cells: Seq<Seq<char>>) -> Seq<char>
    decreases cells.len(),
{
    if cells.len() == 0 {
        Seq::empty()
    } else {
        spec_md_cells(cells.drop_last()) + seq![' '] + cells.last() + seq![' ', '|']
    }
}

/// One table line: a border, the padded cells, and a line break.
pub open spec fn spec_md_row(cells: Seq<Seq<char>>) -> Seq<char> {
    seq!['|'] + spec_md_cells(cells) + seq!['\n']
}

/// The inner text of the title separator line for `n` columns.
pub open spec fn spec_md_sep(n: int) -> Seq<char>
    decreases n,
{
    if n <= 0 {
        Seq::empty()
    } else {
        spec_md_sep(n - 1) + seq![' ', '-', '-', '-', ' ', '|']
    }
}

/// The title separator line for `n` columns.
pub open spec fn spec_md_sep_row(n: int) -> Seq<char> {
    seq!['|'] + spec_md_sep(n) + seq!['\n']
}

/// The body lines of a table, one per row.
pub open spec fn spec_md_rows(rows: Seq<Seq<Seq<char>>>) -> Seq<char>
    decreases rows.len(),
{
    if rows.len() == 0 {
        Seq::empty()
    } else {
        spec_md_rows(rows.drop_last()) + spec_md_row(rows.last())
    }
}

/// A whole table: the header line, the separator line sized to the header,
/// and the body lines.
pub open spec fn spec_md_table(header: Seq<Seq<char>>, rows: Seq<Seq<Seq<char>>>) -> Seq<char> {
    spec_md_row(header) + spec_md_sep_row(header.len() as int) + spec_md_rows(rows)
}

fn md_row(cells: &Vec<String>) -> (s: String)
    ensures
        s@ == spec_md_row(cells_view(cells@)),
{
    let mut s = String::new();
    s.append("|");
    proof {
        reveal_strlit("|");
        assert("|"@ =~= seq!['|']);
        assert(cells_view(cells@).take(0) =~= Seq::<Seq<char>>::empty());
        assert(s@ =~= seq!['|'] + spec_md_cells(cells_view(cells@).take(0)));
    }
    let mut i: usize = 0;
    while i < cells.len()
        invariant
            i <= cells@.len(),
            s@ == seq!['|'] + spec_md_cells(cells_view(cells@).take(i as int)),
        decreases cells@.len() - i,
    {
        s.append(" ");
        s.append(cells[i].as_str());
        s.append(" |");
        proof {
            reveal_strlit(" ");
            reveal_strlit(" |");
            assert(" "@ =~= seq![' ']);
            assert(" |"@ =~= seq![' ', '|']);
            let cv = cells_view(cells@);
            assert(cv.take(i as int + 1).drop_last() =~= cv.take(i as int));
            assert(cv.take(i as int + 1).last() == cells@[i as int]@);
            assert(s@ =~= seq!['|'] + spec_md_cells(cv.take(i as int + 1)));
        }
        i += 1;
    }
    s.append("\n");
    proof {
        reveal_strlit("\n");
        assert("\n"@ =~= seq!['\n']);
        assert(cells_view(cells@).take(cells@.len() as int) =~= cells_view(cells@));
        assert(s@ =~= spec_md_row(cells_view(cells@)));
    }
    s
}

fn md_sep_row(n: usize) -> (s: String)
    ensures
        s@ == spec_md_sep_row(n as int),
{
    let mut s = String::new();
    s.append("|");
    proof {
        reveal_strlit("|");
        assert("|"@ =~= seq!['|']);
        assert(s@ =~= seq!['|'] + spec_md_sep(0));
    }
    let mut i: usize = 0;
    while i < n
        invariant
            i <= n,
            s@ == seq!['|'] + spec_md_sep(i as int),
        decreases n - i,
    {
        s.append(" --- |");
        proof {
            reveal_strlit(" --- |");
            assert(" --- |"@ =~= seq![' ', '-', '-', '-', ' ', '|']);
            assert(s@ =~= seq!['|'] + spec_md_sep(i as int + 1));
        }
        i += 1;
    }
    s.append("\n");
    proof {
        reveal_strlit("\n");
        assert("\n"@ =~= seq!['\n']);
        assert(s@ =~= spec_md_sep_row(n as int));
    }
    s
}

/// Renders one table as Markdown from the shaped header and rows that the
/// other sinks consume too.
pub fn render_markdown_table(header: &Vec<String>, rows: &Vec<Vec<String>>) -> (s: String)
    ensures
        s@ == spec_md_table(cells_view(header@), rows_view(rows@)),
{
    let mut s = md_row(header);
    let sep = md_sep_row(header.len());
    s.append(sep.as_str());
    proof {
        assert(rows_view(rows@).take(0) =~= Seq::<Seq<Seq<char>>>::empty());
    }
    let mut i: usize = 0;
    while i < rows.len()
        invariant
            i <= rows@.len(),
            s@ == spec_md_row(cells_view(header@)) + spec_md_sep_row(header@.len() as int)
                + spec_md_rows(rows_view(rows@).take(i as int)),
        decreases rows@.len() - i,
    {
        let line = md_row(&rows[i]);
        s.append(line.as_str());
        proof {
            let rv = rows_view(rows@);
            assert(rv.take(i as int + 1).drop_last() =~= rv.take(i as int));
            assert(rv.take(i as int + 1).last() == cells_view(rows@[i as int]@));
            assert(s@ =~= spec_md_row(cells_view(header@)) + spec_md_sep_row(
                header@.len() as int,
            ) + spec_md_rows(rv.take(i as int + 1)));
        }
        i += 1;
    }
    proof {
        assert(rows_view(rows@).take(rows@.len() as int) =~= rows_view(rows@));
    }
    s
}

/// Appends a rendered table after the document's existing content without
/// altering one byte of it; an absent document starts empty.
pub fn append_markdown_document(doc: &mut String, table: &str)
    ensures
        final(doc)@ == old(doc)@ + table@,
{
    doc.append(table);
}

/// Appending after existing content keeps every character of the existing
/// content at its place, and places the new table exactly after it.
pub proof fn lemma_append_keeps_existing(existing: Seq<char>, table: Seq<char>)
    ensures
        (existing + table).take(existing.len() as int) == existing,
        (existing + table).skip(existing.len() as int) == table,
{
    assert((existing + table).take(existing.len() as int) =~= existing);
    assert((existing + table).skip(existing.len() as int) =~= table);
}

} // verus!
