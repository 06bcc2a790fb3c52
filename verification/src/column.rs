//! Typed cells and columns, the building blocks of a column batch.

use vstd::prelude::*;

verus! {

/// The physical type of a column.
#[derive(Clone, Copy, Debug, PartialEq, Eq, Structural)]
pub enum ColumnKind {
    /// Variable-length byte strings.
    Bytes,
    /// 64-bit signed integers.
    Int64,
    /// 32-bit signed integers.
    Int32,
    /// Booleans.
    Bool,
}

/// One value of a row, in the type of the column it goes to.
#[derive(Debug, PartialEq, Eq)]
pub enum Cell {
    Bytes(Vec<u8>),
    Int64(i64),
    Int32(i32),
    Bool(bool),
}

/// The mathematical value of a [`Cell`].
pub enum CellView {
    Bytes(Seq<u8>),
    Int64(i64),
    Int32(i32),
    Bool(bool),
}

impl CellView {
    /// The kind of column this cell belongs in.
    pub open spec fn kind(self) -> ColumnKind {
        match self {
            CellView::Bytes(_) => ColumnKind::Bytes,
            CellView::Int64(_) => ColumnKind::Int64,
            CellView::Int32(_) => ColumnKind::Int32,
            CellView::Bool(_) => ColumnKind::Bool,
        }
    }
}

impl View for Cell {
    type V = CellView;

    open spec fn view(&self) -> CellView {
        match self {
            Cell::Bytes(b) => CellView::Bytes(b@),
            Cell::Int64(x) => CellView::Int64(*x),
            Cell::Int32(x) => CellView::Int32(*x),
            Cell::Bool(x) => CellView::Bool(*x),
        }
    }
}

impl Cell {
    /// The kind of column this cell belongs in.
    pub fn kind(&self) -> (k: ColumnKind)
        ensures
            k == self@.kind(),
    {
        match self {
            Cell::Bytes(_) => ColumnKind::Bytes,
            Cell::Int64(_) => ColumnKind::Int64,
            Cell::Int32(_) => ColumnKind::Int32,
            Cell::Bool(_) => ColumnKind::Bool,
        }
    }
}

/// All the values of one column, one per row, in row order.
#[derive(Debug, PartialEq, Eq)]
pub enum Column {
    Bytes(Vec<Vec<u8>>),
    Int64(Vec<i64>),
    Int32(Vec<i32>),
    Bool(Vec<bool>),
}

/// The mathematical value of a [`Column`].
pub enum ColumnView {
    Bytes(Seq<Seq<u8>>),
    Int64(Seq<i64>),
    Int32(Seq<i32>),
    Bool(Seq<bool>),
}

impl ColumnView {
    /// The physical type of the column.
    pub open spec fn kind(self) -> ColumnKind {
        match self {
            ColumnView::Bytes(_) => ColumnKind::Bytes,
            ColumnView::Int64(_) => ColumnKind::Int64,
            ColumnView::Int32(_) => ColumnKind::Int32,
            ColumnView::Bool(_) => ColumnKind::Bool,
        }
    }

    /// The number of values in the column.
    pub open spec fn len(self) -> nat {
        match self {
            ColumnView::Bytes(v) => v.len(),
            ColumnView::Int64(v) => v.len(),
            ColumnView::Int32(v) => v.len(),
            ColumnView::Bool(v) => v.len(),
        }
    }

    /// The value in row `i`.
    pub open spec fn cell(self, i: int) -> CellView {
        match self {
            ColumnView::Bytes(v) => CellView::Bytes(v[i]),
            ColumnView::Int64(v) => CellView::Int64(v[i]),
            ColumnView::Int32(v) => CellView::Int32(v[i]),
            ColumnView::Bool(v) => CellView::Bool(v[i]),
        }
    }

    /// The empty column of a kind.
    pub open spec fn empty(kind: ColumnKind) -> ColumnView {
        match kind {
            ColumnKind::Bytes => ColumnView::Bytes(Seq::empty()),
            ColumnKind::Int64 => ColumnView::Int64(Seq::empty()),
            ColumnKind::Int32 => ColumnView::Int32(Seq::empty()),
            ColumnKind::Bool => ColumnView::Bool(Seq::empty()),
        }
    }

    /// The column with `cell` added as its last row. A cell of another
    /// kind leaves the column as it is.
    pub open spec fn push(self, cell: CellView) -> ColumnView {
        match (self, cell) {
            (ColumnView::Bytes(v), CellView::Bytes(x)) => ColumnView::Bytes(v.push(x)),
            (ColumnView::Int64(v), CellView::Int64(x)) => ColumnView::Int64(v.push(x)),
            (ColumnView::Int32(v), CellView::Int32(x)) => ColumnView::Int32(v.push(x)),
            (ColumnView::Bool(v), CellView::Bool(x)) => ColumnView::Bool(v.push(x)),
            _ => self,
        }
    }
}

/// The byte strings of a sequence of byte vectors.
pub open spec fn bytes_views(v: Seq<Vec<u8>>) -> Seq<Seq<u8>> {
    Seq::new(v.len(), |i: int| v[i]@)
}

impl View for Column {
    type V = ColumnView;

    open spec fn view(&self) -> ColumnView {
        match self {
            Column::Bytes(v) => ColumnView::Bytes(bytes_views(v@)),
            Column::Int64(v) => ColumnView::Int64(v@),
            Column::Int32(v) => ColumnView::Int32(v@),
            Column::Bool(v) => ColumnView::Bool(v@),
        }
    }
}

impl Column {
    /// An empty column of the given kind.
    pub fn new(kind: ColumnKind) -> (c: Column)
        ensures
            c@ == ColumnView::empty(kind),
    {
        match kind {
            ColumnKind::Bytes => {
                let v: Vec<Vec<u8>> = Vec::new();
                assert(bytes_views(v@) =~= Seq::<Seq<u8>>::empty());
                Column::Bytes(v)
            },
            ColumnKind::Int64 => Column::Int64(Vec::new()),
            ColumnKind::Int32 => Column::Int32(Vec::new()),
            ColumnKind::Bool => Column::Bool(Vec::new()),
        }
    }

    /// The physical type of the column.
    pub fn kind(&self) -> (k: ColumnKind)
        ensures
            k == self@.kind(),
    {
        match self {
            Column::Bytes(_) => ColumnKind::Bytes,
            Column::Int64(_) => ColumnKind::Int64,
            Column::Int32(_) => ColumnKind::Int32,
            Column::Bool(_) => ColumnKind::Bool,
        }
    }

    /// The number of values in the column.
    pub fn len(&self) -> (n: usize)
        ensures
            n == self@.len(),
    {
        match self {
            Column::Bytes(v) => v.len(),
            Column::Int64(v) => v.len(),
            Column::Int32(v) => v.len(),
            Column::Bool(v) => v.len(),
        }
    }

    /// Adds `cell` as the last row of the column, and says whether it did:
    /// a cell of another kind is refused and the column stays as it is.
    pub fn push(&mut self, cell: Cell) -> (pushed: bool)
        ensures
            pushed == (cell@.kind() == old(self)@.kind()),
            final(self)@ == old(self)@.push(cell@),
    {
        match (self, cell) {
            (Column::Bytes(v), Cell::Bytes(x)) => {
                let ghost before = v@;
                v.push(x);
                assert(bytes_views(v@) =~= bytes_views(before).push(x@));
                true
            },
            (Column::Int64(v), Cell::Int64(x)) => {
                v.push(x);
                true
            },
            (Column::Int32(v), Cell::Int32(x)) => {
                v.push(x);
                true
            },
            (Column::Bool(v), Cell::Bool(x)) => {
                v.push(x);
                true
            },
            _ => false,
        }
    }
}

/// A copy of a byte string.
pub fn copy_bytes(bytes: &Vec<u8>) -> (copy: Vec<u8>)
    ensures
        copy@ == bytes@,
{
    let copy = bytes.clone();
    assert(copy@ =~= bytes@);
    copy
}

} // verus!
