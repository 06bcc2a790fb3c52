//! Converting the records of one source file into its two batches.

use crate::batch::cell_kinds;
use crate::batch::cell_views;
use crate::batch::empty_columns;
use crate::batch::kinds_of;
use crate::batch::lemma_rows_determine_columns;
use crate::batch::rows_of;
use crate::batch::uniform;
use crate::batch::ColumnBatch;
use crate::column::CellView;
use crate::column::ColumnView;
use crate::error::ErrorKind;
use crate::fanout::fan_out;
use crate::fanout::transform;
use crate::record::PocRecord;
use crate::row::beacon_cells;
use crate::row::witness_cells;
use crate::row::witness_row_views;
use crate::row::BeaconRowView;
use crate::row::WitnessRow;
use crate::row::WitnessRowView;
use crate::schema::Output;
use crate::writer::file_of;
use vstd::prelude::*;

verus! {

/// The beacon rows a record contributes, as cells in schema order: one
/// row, or none.
pub open spec fn beacon_part(beacon: Option<BeaconRowView>) -> Seq<Seq<CellView>> {
    match beacon {
        Some(row) => seq![beacon_cells(row)],
        None => Seq::empty(),
    }
}

/// The witness rows a record contributes, as cells in schema order.
pub open spec fn witness_part(witnesses: Seq<WitnessRowView>) -> Seq<Seq<CellView>> {
    Seq::new(witnesses.len(), |i: int| witness_cells(witnesses[i]))
}

/// Whether every record of a file can be converted.
pub open spec fn all_convert(records: Seq<PocRecord>) -> bool {
    forall|i: int| 0 <= i < records.len() ==> fan_out(#[trigger] records[i]) is Ok
}

/// The rows of the beacon output of a file whose records all convert: the
/// contributions of its records, in record order.
pub open spec fn beacon_rows_of(records: Seq<PocRecord>) -> Seq<Seq<CellView>>
    decreases records.len(),
{
    if records.len() == 0 {
        Seq::empty()
    } else {
        beacon_rows_of(records.drop_last()) + beacon_part(fan_out(records.last())->Ok_0.0)
    }
}

/// The rows of the witness output of a file whose records all convert: the
/// contributions of its records, in record order.
pub open spec fn witness_rows_of(records: Seq<PocRecord>) -> Seq<Seq<CellView>>
    decreases records.len(),
{
    if records.len() == 0 {
        Seq::empty()
    } else {
        witness_rows_of(records.drop_last()) + witness_part(fan_out(records.last())->Ok_0.1)
    }
}

/// The two batches of one source file, filled record by record.
#[derive(Debug, PartialEq, Eq)]
pub struct FileConverter {
    beacons: ColumnBatch,
    witnesses: ColumnBatch,
}

impl FileConverter {
    /// The columns of the beacon batch.
    pub closed spec fn beacon_columns(&self) -> Seq<ColumnView> {
        self.beacons@
    }

    /// The columns of the witness batch.
    pub closed spec fn witness_columns(&self) -> Seq<ColumnView> {
        self.witnesses@
    }

    /// The rows of the beacon batch.
    pub open spec fn beacon_rows(&self) -> Seq<Seq<CellView>> {
        rows_of(self.beacon_columns())
    }

    /// The rows of the witness batch.
    pub open spec fn witness_rows(&self) -> Seq<Seq<CellView>> {
        rows_of(self.witness_columns())
    }

    /// Both batches are well formed and have the columns of their schema.
    pub closed spec fn wf(&self) -> bool {
        &&& self.beacons.wf()
        &&& self.witnesses.wf()
        &&& kinds_of(self.beacons@) == Output::Beacon.column_kinds()
        &&& kinds_of(self.witnesses@) == Output::Witness.column_kinds()
    }

    /// A converter that has seen no record.
    pub fn new() -> (c: FileConverter)
        ensures
            c.wf(),
            c.beacon_rows() == Seq::<Seq<CellView>>::empty(),
            c.witness_rows() == Seq::<Seq<CellView>>::empty(),
    {
        let beacons = ColumnBatch::new(&Output::Beacon.kinds());
        let witnesses = ColumnBatch::new(&Output::Witness.kinds());
        assert(kinds_of(beacons@) =~= Output::Beacon.column_kinds());
        assert(kinds_of(witnesses@) =~= Output::Witness.column_kinds());
        assert(rows_of(beacons@) =~= Seq::<Seq<CellView>>::empty());
        assert(rows_of(witnesses@) =~= Seq::<Seq<CellView>>::empty());
        FileConverter { beacons, witnesses }
    }

    /// Adds the rows that `record` contributes to both batches. A record
    /// that cannot be converted is an error and leaves both batches as
    /// they were.
    pub fn push(&mut self, record: &PocRecord) -> (r: Result<(), ErrorKind>)
        requires
            old(self).wf(),
        ensures
            final(self).wf(),
            r is Ok ==> fan_out(*record) is Ok,
            r is Ok ==> final(self).beacon_rows() == old(self).beacon_rows() + beacon_part(
                fan_out(*record)->Ok_0.0,
            ),
            r is Ok ==> final(self).witness_rows() == old(self).witness_rows() + witness_part(
                fan_out(*record)->Ok_0.1,
            ),
            r is Err ==> fan_out(*record) is Err && fan_out(*record)->Err_0 == r->Err_0,
            r is Err ==> final(self).beacon_columns() == old(self).beacon_columns(),
            r is Err ==> final(self).witness_columns() == old(self).witness_columns(),
    {
        let (beacon, witnesses) = match transform(record) {
            Ok(rows) => rows,
            Err(e) => {
                return Err(e);
            },
        };
        let ghost before = rows_of(self.beacons@);
        match beacon {
            Some(row) => {
                let cells = row.cells();
                assert(cell_kinds(cell_views(cells@)) =~= Output::Beacon.column_kinds());
                let appended = self.beacons.append(cells);
                assert(appended);
                assert(rows_of(self.beacons@) =~= before + beacon_part(Some(row@)));
            },
            None => {
                assert(rows_of(self.beacons@) =~= before + beacon_part(None));
            },
        }
        self.push_witnesses(&witnesses);
        Ok(())
    }

    /// Adds witness rows to the witness batch, in order.
    fn push_witnesses(&mut self, rows: &Vec<WitnessRow>)
        requires
            old(self).wf(),
        ensures
            final(self).wf(),
            final(self).beacons == old(self).beacons,
            final(self).witness_rows() == old(self).witness_rows() + witness_part(
                witness_row_views(rows@),
            ),
    {
        let ghost before = rows_of(self.witnesses@);
        let ghost part = witness_part(witness_row_views(rows@));
        let mut i: usize = 0;
        while i < rows.len()
            invariant
                i <= rows.len(),
                self.wf(),
                self.beacons == old(self).beacons,
                part == witness_part(witness_row_views(rows@)),
                rows_of(self.witnesses@) == before + part.subrange(0, i as int),
            decreases rows.len() - i,
        {
            let cells = rows[i].cells();
            assert(cell_kinds(cell_views(cells@)) =~= Output::Witness.column_kinds());
            let appended = self.witnesses.append(cells);
            assert(appended);
            assert(part[i as int] == witness_cells(rows[i as int]@));
            assert(rows_of(self.witnesses@) =~= before + part.subrange(0, i + 1));
            i = i + 1;
        }
        assert(part.subrange(0, rows.len() as int) =~= part);
    }

    /// The beacon batch.
    pub fn beacons(&self) -> (batch: &ColumnBatch)
        ensures
            batch@ == self.beacon_columns(),
            self.wf() ==> batch.wf() && kinds_of(batch@) == Output::Beacon.column_kinds(),
    {
        &self.beacons
    }

    /// The witness batch.
    pub fn witnesses(&self) -> (batch: &ColumnBatch)
        ensures
            batch@ == self.witness_columns(),
            self.wf() ==> batch.wf() && kinds_of(batch@) == Output::Witness.column_kinds(),
    {
        &self.witnesses
    }
}

/// Converts the records of one source file, in order. The file converts
/// only as a whole: the first record that cannot be converted is the
/// file's error, and nothing is kept of the records before it.
pub fn convert(records: &Vec<PocRecord>) -> (r: Result<FileConverter, ErrorKind>)
    ensures
        match r {
            Ok(c) => all_convert(records@) && c.wf() && c.beacon_rows() == beacon_rows_of(
                records@,
            ) && c.witness_rows() == witness_rows_of(records@),
            Err(e) => exists|i: int|
                0 <= i < records.len() && all_convert(records@.subrange(0, i)) && fan_out(
                    #[trigger] records[i],
                ) == Err::<(Option<BeaconRowView>, Seq<WitnessRowView>), ErrorKind>(e),
        },
{
    let mut converter = FileConverter::new();
    let mut i: usize = 0;
    while i < records.len()
        invariant
            i <= records.len(),
            converter.wf(),
            all_convert(records@.subrange(0, i as int)),
            converter.beacon_rows() == beacon_rows_of(records@.subrange(0, i as int)),
            converter.witness_rows() == witness_rows_of(records@.subrange(0, i as int)),
        decreases records.len() - i,
    {
        let ghost taken = records@.subrange(0, i as int);
        let ghost next = records@.subrange(0, i + 1);
        assert(next.drop_last() =~= taken);
        assert(next.last() == records[i as int]);
        match converter.push(&records[i]) {
            Ok(()) => {},
            Err(e) => {
                return Err(e);
            },
        }
        assert(all_convert(next)) by {
            assert forall|k: int| 0 <= k < next.len() implies fan_out(#[trigger] next[k]) is Ok by {
                if k < i {
                    assert(taken[k] == next[k]);
                }
            }
        }
        i = i + 1;
    }
    assert(records@.subrange(0, i as int) =~= records@);
    Ok(converter)
}

/// The records of decoded messages, where every message was decoded.
pub open spec fn decoded(messages: Seq<Option<PocRecord>>) -> Seq<PocRecord> {
    Seq::new(messages.len(), |i: int| messages[i]->0)
}

/// What stands in the way of a message of a source file: it could not be
/// decoded, or its record cannot be converted.
pub open spec fn message_fault(message: Option<PocRecord>) -> Option<ErrorKind> {
    match message {
        None => Some(ErrorKind::Decode),
        Some(record) => match fan_out(record) {
            Ok(_) => None,
            Err(e) => Some(e),
        },
    }
}

/// Converts the messages of one source file, in order, each given as the
/// record it was decoded to or as `None` where decoding failed. The file
/// converts only as a whole: the first message that could not be decoded
/// or converted is the file's error, and no row is kept.
pub fn convert_decoded(messages: &Vec<Option<PocRecord>>) -> (r: Result<FileConverter, ErrorKind>)
    ensures
        match r {
            Ok(c) => (forall|i: int|
                0 <= i < messages@.len() ==> message_fault(#[trigger] messages@[i]) is None)
                && c.wf() && c.beacon_rows() == beacon_rows_of(decoded(messages@))
                && c.witness_rows() == witness_rows_of(decoded(messages@)),
            Err(e) => exists|i: int|
                0 <= i < messages@.len() && message_fault(#[trigger] messages@[i]) == Some(e)
                    && forall|k: int| 0 <= k < i ==> message_fault(#[trigger] messages@[k]) is None,
        },
{
    let mut converter = FileConverter::new();
    let mut i: usize = 0;
    while i < messages.len()
        invariant
            i <= messages.len(),
            converter.wf(),
            forall|k: int| 0 <= k < i ==> message_fault(#[trigger] messages@[k]) is None,
            converter.beacon_rows() == beacon_rows_of(decoded(messages@.subrange(0, i as int))),
            converter.witness_rows() == witness_rows_of(decoded(messages@.subrange(0, i as int))),
        decreases messages.len() - i,
    {
        let ghost taken = decoded(messages@.subrange(0, i as int));
        let ghost next = decoded(messages@.subrange(0, i + 1));
        assert(next.drop_last() =~= taken);
        assert(next.last() == messages@[i as int]->0);
        match &messages[i] {
            None => {
                return Err(ErrorKind::Decode);
            },
            Some(record) => match converter.push(record) {
                Ok(()) => {},
                Err(e) => {
                    return Err(e);
                },
            },
        }
        i = i + 1;
    }
    assert(messages@.subrange(0, i as int) =~= messages@);
    Ok(converter)
}

/// Converting the same records again gives the same batches: the same
/// number of rows and the same contents in every column of both outputs,
/// and so the same two files.
pub proof fn lemma_conversion_repeatable(
    records: Seq<PocRecord>,
    first: FileConverter,
    second: FileConverter,
)
    requires
        first.wf(),
        second.wf(),
        first.beacon_rows() == beacon_rows_of(records),
        first.witness_rows() == witness_rows_of(records),
        second.beacon_rows() == beacon_rows_of(records),
        second.witness_rows() == witness_rows_of(records),
    ensures
        first.beacon_rows().len() == second.beacon_rows().len(),
        first.witness_rows().len() == second.witness_rows().len(),
        first.beacon_columns() == second.beacon_columns(),
        first.witness_columns() == second.witness_columns(),
        file_of(Output::Beacon.message_text(), first.beacon_columns()) == file_of(
            Output::Beacon.message_text(),
            second.beacon_columns(),
        ),
        file_of(Output::Witness.message_text(), first.witness_columns()) == file_of(
            Output::Witness.message_text(),
            second.witness_columns(),
        ),
{
    lemma_rows_determine_columns(first.beacons@, second.beacons@);
    lemma_rows_determine_columns(first.witnesses@, second.witnesses@);
}

/// Whatever has been converted, the columns of both batches stand in the
/// order their schemas declare, each of its declared kind and all of one
/// length.
pub proof fn lemma_columns_in_declared_order(converter: FileConverter)
    requires
        converter.wf(),
    ensures
        kinds_of(converter.beacon_columns()) == Output::Beacon.column_kinds(),
        kinds_of(converter.witness_columns()) == Output::Witness.column_kinds(),
        uniform(converter.beacon_columns(), converter.beacon_rows().len()),
        uniform(converter.witness_columns(), converter.witness_rows().len()),
{
}

} // verus!
