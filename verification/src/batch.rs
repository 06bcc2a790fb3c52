//! The column batch: every row of one output file, held column by column.

use crate::column::Cell;
use crate::column::CellView;
use crate::column::Column;
use crate::column::ColumnKind;
use crate::column::ColumnView;
use vstd::prelude::*;

verus! {

/// The kinds of a sequence of columns, in order.
pub open spec fn kinds_of(columns: Seq<ColumnView>) -> Seq<ColumnKind> {
    Seq::new(columns.len(), |j: int| columns[j].kind())
}

/// The kinds of a sequence of cells, in order.
pub open spec fn cell_kinds(cells: Seq<CellView>) -> Seq<ColumnKind> {
    Seq::new(cells.len(), |j: int| cells[j].kind())
}

/// The values of a sequence of cells.
pub open spec fn cell_views(cells: Seq<Cell>) -> Seq<CellView> {
    Seq::new(cells.len(), |j: int| cells[j]@)
}

/// The values of a sequence of columns.
pub open spec fn column_views(columns: Seq<Column>) -> Seq<ColumnView> {
    Seq::new(columns.len(), |j: int| columns[j]@)
}

/// The empty columns of the given kinds.
pub open spec fn empty_columns(kinds: Seq<ColumnKind>) -> Seq<ColumnView> {
    Seq::new(kinds.len(), |j: int| ColumnView::empty(kinds[j]))
}

/// Whether every column holds exactly `rows` values.
pub open spec fn uniform(columns: Seq<ColumnView>, rows: nat) -> bool {
    forall|j: int| 0 <= j < columns.len() ==> (#[trigger] columns[j]).len() == rows
}

/// The number of rows of a sequence of equally long columns.
pub open spec fn row_count(columns: Seq<ColumnView>) -> nat {
    if columns.len() == 0 {
        0
    } else {
        columns[0].len()
    }
}

/// Row `i` of the columns: its cells in column order.
pub open spec fn row_at(columns: Seq<ColumnView>, i: int) -> Seq<CellView> {
    Seq::new(columns.len(), |j: int| columns[j].cell(i))
}

/// All rows of the columns, first row first.
pub open spec fn rows_of(columns: Seq<ColumnView>) -> Seq<Seq<CellView>> {
    Seq::new(row_count(columns), |i: int| row_at(columns, i))
}

/// The columns after one more row: column `j` gets cell `j`.
pub open spec fn with_row(columns: Seq<ColumnView>, cells: Seq<CellView>) -> Seq<ColumnView> {
    Seq::new(columns.len(), |j: int| columns[j].push(cells[j]))
}

/// An accumulator of rows for one output schema. Column `j` holds the
/// `j`-th declared field of every row appended so far, in the order the
/// rows were appended.
#[derive(Debug, PartialEq, Eq)]
pub struct ColumnBatch {
    columns: Vec<Column>,
}

impl View for ColumnBatch {
    type V = Seq<ColumnView>;

    closed spec fn view(&self) -> Seq<ColumnView> {
        column_views(self.columns@)
    }
}

impl ColumnBatch {
    /// A batch is well formed when all its columns have the same length.
    pub open spec fn wf(&self) -> bool {
        uniform(self@, row_count(self@))
    }

    /// An empty batch with one column for each of `kinds`, in that order.
    pub fn new(kinds: &Vec<ColumnKind>) -> (batch: ColumnBatch)
        ensures
            batch.wf(),
            batch@ == empty_columns(kinds@),
    {
        let mut columns: Vec<Column> = Vec::new();
        let mut j: usize = 0;
        while j < kinds.len()
            invariant
                j <= kinds.len(),
                columns.len() == j,
                forall|k: int| 0 <= k < j ==> (#[trigger] columns[k])@ == ColumnView::empty(kinds[k]),
            decreases kinds.len() - j,
        {
            columns.push(Column::new(kinds[j]));
            j = j + 1;
        }
        let batch = ColumnBatch { columns };
        assert(batch@ =~= empty_columns(kinds@));
        batch
    }

    /// The number of columns.
    pub fn width(&self) -> (n: usize)
        ensures
            n == self@.len(),
    {
        self.columns.len()
    }

    /// The number of rows appended so far.
    pub fn rows(&self) -> (n: usize)
        ensures
            n == row_count(self@),
    {
        if self.columns.len() == 0 {
            0
        } else {
            self.columns[0].len()
        }
    }

    /// Column `j`, in declared order, if there is one.
    pub fn column(&self, j: usize) -> (c: Option<&Column>)
        ensures
            c is Some == (j < self@.len()),
            c matches Some(column) ==> column@ == self@[j as int],
    {
        if j < self.columns.len() {
            Some(&self.columns[j])
        } else {
            None
        }
    }

    /// Whether `cells` has one cell for each column, each of its column's
    /// kind.
    pub fn fits(&self, cells: &Vec<Cell>) -> (ok: bool)
        ensures
            ok == (cell_kinds(cell_views(cells@)) == kinds_of(self@)),
    {
        if cells.len() != self.columns.len() {
            assert(cell_kinds(cell_views(cells@)).len() != kinds_of(self@).len());
            return false;
        }
        let mut j: usize = 0;
        while j < cells.len()
            invariant
                j <= cells.len(),
                cells.len() == self.columns.len(),
                forall|k: int| 0 <= k < j ==> (#[trigger] cells[k])@.kind() == self.columns[k]@.kind(),
            decreases cells.len() - j,
        {
            if cells[j].kind() != self.columns[j].kind() {
                assert(cell_kinds(cell_views(cells@))[j as int] != kinds_of(self@)[j as int]);
                return false;
            }
            j = j + 1;
        }
        assert(cell_kinds(cell_views(cells@)) =~= kinds_of(self@));
        true
    }

    /// Appends one row, given as its cells in column order. A row that does
    /// not fit the columns is refused and the batch stays as it is.
    pub fn append(&mut self, cells: Vec<Cell>) -> (appended: bool)
        requires
            old(self).wf(),
        ensures
            final(self).wf(),
            appended == (cell_kinds(cell_views(cells@)) == kinds_of(old(self)@)),
            appended ==> final(self)@ == with_row(old(self)@, cell_views(cells@)),
            appended ==> kinds_of(final(self)@) == kinds_of(old(self)@),
            appended && old(self)@.len() > 0 ==> rows_of(final(self)@) == rows_of(old(self)@).push(
                cell_views(cells@),
            ),
            !appended ==> final(self)@ == old(self)@,
    {
        if !self.fits(&cells) {
            return false;
        }
        let ghost before = self@;
        let ghost row = cell_views(cells@);
        assert(cell_kinds(row).len() == kinds_of(before).len());
        let mut cells = cells;
        let mut j: usize = cells.len();
        while j > 0
            invariant
                j == cells.len(),
                j <= self.columns.len(),
                self.columns.len() == before.len(),
                row.len() == before.len(),
                cell_kinds(row) == kinds_of(before),
                forall|k: int| 0 <= k < j ==> (#[trigger] cells[k])@ == row[k],
                forall|k: int| 0 <= k < j ==> (#[trigger] self.columns[k])@ == before[k],
                forall|k: int|
                    j <= k < before.len() ==> (#[trigger] self.columns[k])@ == before[k].push(
                        row[k],
                    ),
            decreases j,
        {
            let cell = cells.pop().unwrap();
            j = j - 1;
            assert(cell@ == row[j as int]);
            assert(row[j as int].kind() == cell_kinds(row)[j as int]);
            assert(before[j as int].kind() == kinds_of(before)[j as int]);
            self.columns[j].push(cell);
        }
        assert(self@ =~= with_row(before, row));
        proof {
            lemma_with_row_uniform(before, row);
            if before.len() > 0 {
                lemma_with_row_rows(before, row);
            }
        }
        true
    }
}

/// Appending a fitting row to equally long columns leaves them equally
/// long, one row longer, and keeps their kinds.
pub proof fn lemma_with_row_uniform(columns: Seq<ColumnView>, cells: Seq<CellView>)
    requires
        uniform(columns, row_count(columns)),
        cell_kinds(cells) == kinds_of(columns),
    ensures
        uniform(with_row(columns, cells), row_count(with_row(columns, cells))),
        kinds_of(with_row(columns, cells)) == kinds_of(columns),
        columns.len() > 0 ==> row_count(with_row(columns, cells)) == row_count(columns) + 1,
{
    let after = with_row(columns, cells);
    assert(cell_kinds(cells).len() == cells.len());
    assert(kinds_of(columns).len() == columns.len());
    assert forall|j: int| 0 <= j < after.len() implies (#[trigger] after[j]).len() == row_count(
        columns,
    ) + 1 && after[j].kind() == columns[j].kind() by {
        assert(cells[j].kind() == cell_kinds(cells)[j]);
        assert(columns[j].kind() == kinds_of(columns)[j]);
        assert(columns[j].len() == row_count(columns));
    }
    assert(kinds_of(after) =~= kinds_of(columns));
}

/// Appending a fitting row to equally long columns adds that row after
/// the rows already there, and changes none of them.
pub proof fn lemma_with_row_rows(columns: Seq<ColumnView>, cells: Seq<CellView>)
    requires
        columns.len() > 0,
        uniform(columns, row_count(columns)),
        cell_kinds(cells) == kinds_of(columns),
    ensures
        rows_of(with_row(columns, cells)) == rows_of(columns).push(cells),
{
    let after = with_row(columns, cells);
    let n = row_count(columns);
    lemma_with_row_uniform(columns, cells);
    assert(cell_kinds(cells).len() == cells.len());
    assert(kinds_of(columns).len() == columns.len());
    assert forall|i: int| 0 <= i < n + 1 implies #[trigger] rows_of(after)[i] == rows_of(
        columns,
    ).push(cells)[i] by {
        let expected = rows_of(columns).push(cells)[i];
        assert forall|j: int| 0 <= j < columns.len() implies row_at(after, i)[j] == expected[j] by {
            assert(cells[j].kind() == cell_kinds(cells)[j]);
            assert(columns[j].kind() == kinds_of(columns)[j]);
            assert(columns[j].len() == n);
        }
        assert(row_at(after, i) =~= expected);
    }
    assert(rows_of(after) =~= rows_of(columns).push(cells));
}

/// Columns are what their rows make them: two sets of equally long
/// columns of the same kinds that hold the same rows are the same.
pub proof fn lemma_rows_determine_columns(a: Seq<ColumnView>, b: Seq<ColumnView>)
    requires
        uniform(a, row_count(a)),
        uniform(b, row_count(b)),
        kinds_of(a) == kinds_of(b),
        rows_of(a) == rows_of(b),
    ensures
        a == b,
{
    assert(kinds_of(a).len() == a.len());
    assert(kinds_of(b).len() == b.len());
    assert(rows_of(a).len() == row_count(a));
    assert(rows_of(b).len() == row_count(b));
    let n = row_count(a);
    assert forall|j: int| 0 <= j < a.len() implies a[j] == b[j] by {
        assert(a[j].kind() == kinds_of(a)[j]);
        assert(b[j].kind() == kinds_of(b)[j]);
        assert(a[j].len() == n);
        assert(b[j].len() == n);
        assert forall|i: int| 0 <= i < n implies a[j].cell(i) == b[j].cell(i) by {
            assert(rows_of(a)[i] == row_at(a, i));
            assert(rows_of(b)[i] == row_at(b, i));
            assert(row_at(a, i)[j] == a[j].cell(i));
            assert(row_at(b, i)[j] == b[j].cell(i));
        }
        lemma_cells_determine_column(a[j], b[j]);
    }
    assert(a =~= b);
}

/// Two columns of one kind and length that agree in every row are the
/// same column.
pub proof fn lemma_cells_determine_column(a: ColumnView, b: ColumnView)
    requires
        a.kind() == b.kind(),
        a.len() == b.len(),
        forall|i: int| 0 <= i < a.len() ==> a.cell(i) == b.cell(i),
    ensures
        a == b,
{
    match (a, b) {
        (ColumnView::Bytes(x), ColumnView::Bytes(y)) => {
            assert forall|i: int| 0 <= i < x.len() implies x[i] == y[i] by {
                assert(a.cell(i) == b.cell(i));
            }
            assert(x =~= y);
        },
        (ColumnView::Int64(x), ColumnView::Int64(y)) => {
            assert forall|i: int| 0 <= i < x.len() implies x[i] == y[i] by {
                assert(a.cell(i) == b.cell(i));
            }
            assert(x =~= y);
        },
        (ColumnView::Int32(x), ColumnView::Int32(y)) => {
            assert forall|i: int| 0 <= i < x.len() implies x[i] == y[i] by {
                assert(a.cell(i) == b.cell(i));
            }
            assert(x =~= y);
        },
        (ColumnView::Bool(x), ColumnView::Bool(y)) => {
            assert forall|i: int| 0 <= i < x.len() implies x[i] == y[i] by {
                assert(a.cell(i) == b.cell(i));
            }
            assert(x =~= y);
        },
        _ => {},
    }
}

} // verus!
