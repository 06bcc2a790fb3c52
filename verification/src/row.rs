//! The rows of the two output files.

use crate::batch::cell_views;
use crate::column::copy_bytes;
use crate::column::Cell;
use crate::column::CellView;
use crate::numeric::narrow_u32;
use crate::numeric::narrow_u64;
use crate::numeric::wrapped_i32;
use crate::numeric::wrapped_i64;
use vstd::prelude::*;

verus! {

/// One row of the beacon output, with its fields in schema order.
#[derive(Debug, PartialEq, Eq)]
pub struct BeaconRow {
    pub poc_id: Vec<u8>,
    pub ingest_time: u64,
    pub beacon_location: i64,
    pub pub_key: Vec<u8>,
    pub frequency: u64,
    pub channel: i32,
    pub tx_power: i32,
    pub timestamp: u64,
    pub tmst: u32,
}

/// The mathematical value of a [`BeaconRow`].
pub struct BeaconRowView {
    pub poc_id: Seq<u8>,
    pub ingest_time: u64,
    pub beacon_location: i64,
    pub pub_key: Seq<u8>,
    pub frequency: u64,
    pub channel: i32,
    pub tx_power: i32,
    pub timestamp: u64,
    pub tmst: u32,
}

impl View for BeaconRow {
    type V = BeaconRowView;

    open spec fn view(&self) -> BeaconRowView {
        BeaconRowView {
            poc_id: self.poc_id@,
            ingest_time: self.ingest_time,
            beacon_location: self.beacon_location,
            pub_key: self.pub_key@,
            frequency: self.frequency,
            channel: self.channel,
            tx_power: self.tx_power,
            timestamp: self.timestamp,
            tmst: self.tmst,
        }
    }
}

/// One row of the witness output, with its fields in schema order.
#[derive(Debug, PartialEq, Eq)]
pub struct WitnessRow {
    pub poc_id: Vec<u8>,
    pub pub_key: Vec<u8>,
    pub ingest_time: u64,
    pub witness_location: i64,
    pub timestamp: u64,
    pub tmst: u32,
    pub signal: i32,
    pub snr: i32,
    pub frequency: u64,
    /// Whether the witness came from the selected list of its record.
    pub selected: bool,
}

/// The mathematical value of a [`WitnessRow`].
pub struct WitnessRowView {
    pub poc_id: Seq<u8>,
    pub pub_key: Seq<u8>,
    pub ingest_time: u64,
    pub witness_location: i64,
    pub timestamp: u64,
    pub tmst: u32,
    pub signal: i32,
    pub snr: i32,
    pub frequency: u64,
    pub selected: bool,
}

impl View for WitnessRow {
    type V = WitnessRowView;

    open spec fn view(&self) -> WitnessRowView {
        WitnessRowView {
            poc_id: self.poc_id@,
            pub_key: self.pub_key@,
            ingest_time: self.ingest_time,
            witness_location: self.witness_location,
            timestamp: self.timestamp,
            tmst: self.tmst,
            signal: self.signal,
            snr: self.snr,
            frequency: self.frequency,
            selected: self.selected,
        }
    }
}

/// The values of a sequence of witness rows.
pub open spec fn witness_row_views(rows: Seq<WitnessRow>) -> Seq<WitnessRowView> {
    Seq::new(rows.len(), |i: int| rows[i]@)
}

/// The value of an optional beacon row.
pub open spec fn beacon_row_view(row: Option<BeaconRow>) -> Option<BeaconRowView> {
    match row {
        Some(r) => Some(r@),
        None => None,
    }
}

/// The cells of a beacon row, in the order of the beacon schema. Unsigned
/// source values are narrowed here to the signed width of their column.
pub open spec fn beacon_cells(row: BeaconRowView) -> Seq<CellView> {
    seq![
        CellView::Bytes(row.poc_id),
        CellView::Int64(wrapped_i64(row.ingest_time) as i64),
        CellView::Int64(row.beacon_location),
        CellView::Bytes(row.pub_key),
        CellView::Int64(wrapped_i64(row.frequency) as i64),
        CellView::Int32(row.channel),
        CellView::Int32(row.tx_power),
        CellView::Int64(wrapped_i64(row.timestamp) as i64),
        CellView::Int32(wrapped_i32(row.tmst) as i32),
    ]
}

/// The cells of a witness row, in the order of the witness schema.
/// Unsigned source values are narrowed here to the signed width of their
/// column.
pub open spec fn witness_cells(row: WitnessRowView) -> Seq<CellView> {
    seq![
        CellView::Bytes(row.poc_id),
        CellView::Bytes(row.pub_key),
        CellView::Int64(wrapped_i64(row.ingest_time) as i64),
        CellView::Int64(row.witness_location),
        CellView::Int64(wrapped_i64(row.timestamp) as i64),
        CellView::Int32(wrapped_i32(row.tmst) as i32),
        CellView::Int32(row.signal),
        CellView::Int32(row.snr),
        CellView::Int64(wrapped_i64(row.frequency) as i64),
        CellView::Bool(row.selected),
    ]
}

impl BeaconRow {
    /// The cells of the row, in schema order.
    pub fn cells(&self) -> (cells: Vec<Cell>)
        ensures
            cell_views(cells@) == beacon_cells(self@),
    {
        let cells = vec![
            Cell::Bytes(copy_bytes(&self.poc_id)),
            Cell::Int64(narrow_u64(self.ingest_time)),
            Cell::Int64(self.beacon_location),
            Cell::Bytes(copy_bytes(&self.pub_key)),
            Cell::Int64(narrow_u64(self.frequency)),
            Cell::Int32(self.channel),
            Cell::Int32(self.tx_power),
            Cell::Int64(narrow_u64(self.timestamp)),
            Cell::Int32(narrow_u32(self.tmst)),
        ];
        assert(cell_views(cells@) =~= beacon_cells(self@));
        cells
    }
}

impl WitnessRow {
    /// The cells of the row, in schema order.
    pub fn cells(&self) -> (cells: Vec<Cell>)
        ensures
            cell_views(cells@) == witness_cells(self@),
    {
        let cells = vec![
            Cell::Bytes(copy_bytes(&self.poc_id)),
            Cell::Bytes(copy_bytes(&self.pub_key)),
            Cell::Int64(narrow_u64(self.ingest_time)),
            Cell::Int64(self.witness_location),
            Cell::Int64(narrow_u64(self.timestamp)),
            Cell::Int32(narrow_u32(self.tmst)),
            Cell::Int32(self.signal),
            Cell::Int32(self.snr),
            Cell::Int64(narrow_u64(self.frequency)),
            Cell::Bool(self.selected),
        ];
        assert(cell_views(cells@) =~= witness_cells(self@));
        cells
    }
}

} // verus!
