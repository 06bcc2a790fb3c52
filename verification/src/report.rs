//! Reports: one kind of source record laid out in columns, one row per
//! record.

use crate::batch::cell_kinds;
use crate::batch::cell_views;
use crate::batch::kinds_of;
use crate::batch::rows_of;
use crate::batch::ColumnBatch;
use crate::column::copy_bytes;
use crate::column::Cell;
use crate::column::CellView;
use crate::error::ErrorKind;
use crate::error::RequiredField;
use crate::numeric::decimal_text;
use crate::numeric::narrow_u32;
use crate::numeric::push_decimal;
use crate::numeric::narrow_u64;
use crate::numeric::wrapped_i32;
use crate::numeric::wrapped_i64;
use crate::record::BeaconIngest;
use crate::record::PocRecord;
use crate::record::RewardShare;
use crate::record::WitnessIngest;
use crate::schema::Report;
use chrono::offset::LocalResult;
use chrono::TimeZone;
use chrono::Utc;
use vstd::prelude::*;
use vstd::utf8::encode_utf8;

verus! {

/// The first second that the calendar of the `chrono` crate holds, counted
/// from the epoch: the start of its first year.
pub const FIRST_UTC_SECOND: i64 = -8_334_601_228_800;

/// The last second that the calendar of the `chrono` crate holds, counted
/// from the epoch: the end of its last year.
pub const LAST_UTC_SECOND: i64 = 8_210_266_876_799;

/// Whether a number of seconds since the epoch is a second of the
/// calendar.
pub open spec fn is_calendar_second(secs: i64) -> bool {
    FIRST_UTC_SECOND <= secs <= LAST_UTC_SECOND
}

/// Calls `Utc.timestamp_opt` of the `chrono` crate with no nanoseconds and
/// tells its one result apart from none. The crate gives a result exactly
/// for the seconds from the start of its first year to the end of its
/// last.
#[verifier::external_body]
fn is_utc_second(secs: i64) -> (known: bool)
    ensures
        known == is_calendar_second(secs),
{
    match Utc.timestamp_opt(secs, 0) {
        LocalResult::Single(_) => true,
        _ => false,
    }
}

/// The row of a reward share, in the order of its schema.
pub open spec fn reward_share_row(share: RewardShare) -> Seq<CellView> {
    seq![
        CellView::Bytes(share.hotspot_key@),
        CellView::Int64(wrapped_i64(share.beacon_amount) as i64),
        CellView::Int64(wrapped_i64(share.witness_amount) as i64),
        CellView::Int64(wrapped_i64(share.start_period) as i64),
        CellView::Int64(wrapped_i64(share.end_period) as i64),
    ]
}

/// The row of a beacon ingest report that carries its radio report, in
/// the order of its schema.
pub open spec fn beacon_ingest_row(report: BeaconIngest) -> Seq<CellView> {
    let radio = report.report->0;
    seq![
        CellView::Int64(wrapped_i64(report.received_timestamp) as i64),
        CellView::Bytes(radio.pub_key@),
        CellView::Bytes(radio.local_entropy@),
        CellView::Bytes(radio.remote_entropy@),
        CellView::Bytes(radio.data@),
        CellView::Int64(wrapped_i64(radio.frequency) as i64),
        CellView::Int32(radio.channel),
        CellView::Int32(radio.datarate),
        CellView::Int32(radio.tx_power),
        CellView::Int64(wrapped_i64(radio.timestamp) as i64),
        CellView::Bytes(radio.signature@),
        CellView::Int32(wrapped_i32(radio.tmst) as i32),
    ]
}

/// The row of a witness ingest report that carries its radio report, in
/// the order of its schema.
pub open spec fn witness_ingest_row(report: WitnessIngest) -> Seq<CellView> {
    let radio = report.report->0;
    seq![
        CellView::Int64(wrapped_i64(report.received_timestamp) as i64),
        CellView::Bytes(radio.pub_key@),
        CellView::Bytes(radio.data@),
        CellView::Int64(wrapped_i64(radio.timestamp) as i64),
        CellView::Int32(wrapped_i32(radio.tmst) as i32),
        CellView::Int32(radio.signal),
        CellView::Int32(radio.snr),
        CellView::Int64(wrapped_i64(radio.frequency) as i64),
        CellView::Int32(radio.datarate),
        CellView::Bytes(radio.signature@),
    ]
}

/// The row of the beacon report of a record that carries it whole, in the
/// order of its schema. The location is kept as text, in UTF-8.
pub open spec fn valid_beacon_row(record: PocRecord) -> Seq<CellView> {
    let beacon = record.beacon_report->0;
    let radio = beacon.report->0;
    seq![
        CellView::Int64(wrapped_i64(beacon.received_timestamp) as i64),
        CellView::Bytes(encode_utf8(beacon.location@)),
        CellView::Int32(wrapped_i32(beacon.hex_scale) as i32),
        CellView::Bytes(radio.pub_key@),
        CellView::Bytes(radio.local_entropy@),
        CellView::Bytes(radio.remote_entropy@),
        CellView::Bytes(radio.data@),
        CellView::Int64(wrapped_i64(radio.frequency) as i64),
        CellView::Int32(radio.channel),
        CellView::Int32(radio.datarate),
        CellView::Int32(radio.tx_power),
        CellView::Int64(wrapped_i64(radio.timestamp) as i64),
        CellView::Bytes(radio.signature@),
        CellView::Int32(wrapped_i32(radio.tmst) as i32),
        CellView::Int32(wrapped_i32(beacon.reward_unit) as i32),
    ]
}

/// What stands in the way of a reward share's row: a period that ends at
/// no second of the calendar.
pub open spec fn reward_share_fault(share: RewardShare) -> Option<ErrorKind> {
    if is_calendar_second(wrapped_i64(share.end_period) as i64) {
        None
    } else {
        Some(ErrorKind::EndPeriod)
    }
}

/// What stands in the way of a beacon ingest report's row: a missing
/// radio report.
pub open spec fn beacon_ingest_fault(report: BeaconIngest) -> Option<ErrorKind> {
    if report.report is Some {
        None
    } else {
        Some(ErrorKind::MissingRequiredField(RequiredField::BeaconRadio))
    }
}

/// What stands in the way of a witness ingest report's row: a missing
/// radio report.
pub open spec fn witness_ingest_fault(report: WitnessIngest) -> Option<ErrorKind> {
    if report.report is Some {
        None
    } else {
        Some(ErrorKind::MissingRequiredField(RequiredField::WitnessRadio))
    }
}

/// What stands in the way of a record's beacon row: a missing beacon
/// report, or else a missing radio report in it.
pub open spec fn valid_beacon_fault(record: PocRecord) -> Option<ErrorKind> {
    if record.beacon_report is None {
        Some(ErrorKind::MissingRequiredField(RequiredField::BeaconReport))
    } else if record.beacon_report->0.report is None {
        Some(ErrorKind::MissingRequiredField(RequiredField::BeaconRadio))
    } else {
        None
    }
}

/// The cells of a reward share, or what stands in their way.
pub fn reward_share_cells(share: &RewardShare) -> (r: Result<Vec<Cell>, ErrorKind>)
    ensures
        match r {
            Ok(cells) => reward_share_fault(*share) is None && cell_views(cells@)
                == reward_share_row(*share),
            Err(e) => reward_share_fault(*share) == Some(e),
        },
{
    let end = narrow_u64(share.end_period);
    if !is_utc_second(end) {
        return Err(ErrorKind::EndPeriod);
    }
    let cells = vec![
        Cell::Bytes(copy_bytes(&share.hotspot_key)),
        Cell::Int64(narrow_u64(share.beacon_amount)),
        Cell::Int64(narrow_u64(share.witness_amount)),
        Cell::Int64(narrow_u64(share.start_period)),
        Cell::Int64(end),
    ];
    assert(cell_views(cells@) =~= reward_share_row(*share));
    Ok(cells)
}

/// The cells of a beacon ingest report, or what stands in their way.
pub fn beacon_ingest_cells(report: &BeaconIngest) -> (r: Result<Vec<Cell>, ErrorKind>)
    ensures
        match r {
            Ok(cells) => beacon_ingest_fault(*report) is None && cell_views(cells@)
                == beacon_ingest_row(*report),
            Err(e) => beacon_ingest_fault(*report) == Some(e),
        },
{
    let radio = match &report.report {
        Some(radio) => radio,
        None => {
            return Err(ErrorKind::MissingRequiredField(RequiredField::BeaconRadio));
        },
    };
    let cells = vec![
        Cell::Int64(narrow_u64(report.received_timestamp)),
        Cell::Bytes(copy_bytes(&radio.pub_key)),
        Cell::Bytes(copy_bytes(&radio.local_entropy)),
        Cell::Bytes(copy_bytes(&radio.remote_entropy)),
        Cell::Bytes(copy_bytes(&radio.data)),
        Cell::Int64(narrow_u64(radio.frequency)),
        Cell::Int32(radio.channel),
        Cell::Int32(radio.datarate),
        Cell::Int32(radio.tx_power),
        Cell::Int64(narrow_u64(radio.timestamp)),
        Cell::Bytes(copy_bytes(&radio.signature)),
        Cell::Int32(narrow_u32(radio.tmst)),
    ];
    assert(cell_views(cells@) =~= beacon_ingest_row(*report));
    Ok(cells)
}

/// The cells of a witness ingest report, or what stands in their way.
pub fn witness_ingest_cells(report: &WitnessIngest) -> (r: Result<Vec<Cell>, ErrorKind>)
    ensures
        match r {
            Ok(cells) => witness_ingest_fault(*report) is None && cell_views(cells@)
                == witness_ingest_row(*report),
            Err(e) => witness_ingest_fault(*report) == Some(e),
        },
{
    let radio = match &report.report {
        Some(radio) => radio,
        None => {
            return Err(ErrorKind::MissingRequiredField(RequiredField::WitnessRadio));
        },
    };
    let cells = vec![
        Cell::Int64(narrow_u64(report.received_timestamp)),
        Cell::Bytes(copy_bytes(&radio.pub_key)),
        Cell::Bytes(copy_bytes(&radio.data)),
        Cell::Int64(narrow_u64(radio.timestamp)),
        Cell::Int32(narrow_u32(radio.tmst)),
        Cell::Int32(radio.signal),
        Cell::Int32(radio.snr),
        Cell::Int64(narrow_u64(radio.frequency)),
        Cell::Int32(radio.datarate),
        Cell::Bytes(copy_bytes(&radio.signature)),
    ];
    assert(cell_views(cells@) =~= witness_ingest_row(*report));
    Ok(cells)
}

/// The cells of the beacon report of a record, or what stands in their
/// way.
pub fn valid_beacon_cells(record: &PocRecord) -> (r: Result<Vec<Cell>, ErrorKind>)
    ensures
        match r {
            Ok(cells) => valid_beacon_fault(*record) is None && cell_views(cells@)
                == valid_beacon_row(*record),
            Err(e) => valid_beacon_fault(*record) == Some(e),
        },
{
    let beacon = match &record.beacon_report {
        Some(beacon) => beacon,
        None => {
            return Err(ErrorKind::MissingRequiredField(RequiredField::BeaconReport));
        },
    };
    let radio = match &beacon.report {
        Some(radio) => radio,
        None => {
            return Err(ErrorKind::MissingRequiredField(RequiredField::BeaconRadio));
        },
    };
    let cells = vec![
        Cell::Int64(narrow_u64(beacon.received_timestamp)),
        Cell::Bytes(beacon.location.as_str().as_bytes_vec()),
        Cell::Int32(narrow_u32(beacon.hex_scale)),
        Cell::Bytes(copy_bytes(&radio.pub_key)),
        Cell::Bytes(copy_bytes(&radio.local_entropy)),
        Cell::Bytes(copy_bytes(&radio.remote_entropy)),
        Cell::Bytes(copy_bytes(&radio.data)),
        Cell::Int64(narrow_u64(radio.frequency)),
        Cell::Int32(radio.channel),
        Cell::Int32(radio.datarate),
        Cell::Int32(radio.tx_power),
        Cell::Int64(narrow_u64(radio.timestamp)),
        Cell::Bytes(copy_bytes(&radio.signature)),
        Cell::Int32(narrow_u32(radio.tmst)),
        Cell::Int32(narrow_u32(beacon.reward_unit)),
    ];
    assert(cell_views(cells@) =~= valid_beacon_row(*record));
    Ok(cells)
}

/// A batch is the report of what stands in `rows`: it has the report's
/// columns and exactly those rows, in order.
pub open spec fn is_report(batch: ColumnBatch, report: Report, rows: Seq<Seq<CellView>>) -> bool {
    &&& batch.wf()
    &&& kinds_of(batch@) == report.column_kinds()
    &&& rows_of(batch@) == rows
}

/// An empty batch with the columns of a report.
pub fn new_report(report: Report) -> (batch: ColumnBatch)
    ensures
        is_report(batch, report, Seq::empty()),
{
    let batch = ColumnBatch::new(&report.kinds());
    assert(kinds_of(batch@) =~= report.column_kinds());
    assert(rows_of(batch@) =~= Seq::<Seq<CellView>>::empty());
    batch
}

/// The report of reward shares, one row each in the order given. The first
/// share whose row cannot be made is the error of the whole report.
pub fn reward_share_report(shares: &Vec<RewardShare>) -> (r: Result<ColumnBatch, ErrorKind>)
    ensures
        match r {
            Ok(batch) => is_report(
                batch,
                Report::RewardShare,
                Seq::new(shares@.len(), |i: int| reward_share_row(shares@[i])),
            ) && forall|i: int|
                0 <= i < shares@.len() ==> reward_share_fault(#[trigger] shares@[i]) is None,
            Err(e) => exists|i: int|
                0 <= i < shares@.len() && reward_share_fault(#[trigger] shares@[i]) == Some(e)
                    && forall|k: int| 0 <= k < i ==> reward_share_fault(#[trigger] shares@[k]) is None,
        },
{
    let mut batch = new_report(Report::RewardShare);
    let mut i: usize = 0;
    while i < shares.len()
        invariant
            i <= shares.len(),
            batch.wf(),
            kinds_of(batch@) == Report::RewardShare.column_kinds(),
            rows_of(batch@) == Seq::new(i as nat, |k: int| reward_share_row(shares@[k])),
            forall|k: int| 0 <= k < i ==> reward_share_fault(#[trigger] shares@[k]) is None,
        decreases shares.len() - i,
    {
        let cells = match reward_share_cells(&shares[i]) {
            Ok(cells) => cells,
            Err(e) => {
                return Err(e);
            },
        };
        assert(cell_kinds(cell_views(cells@)) =~= Report::RewardShare.column_kinds());
        let appended = batch.append(cells);
        assert(appended);
        assert(rows_of(batch@) =~= Seq::new((i + 1) as nat, |k: int| reward_share_row(shares@[k])));
        i = i + 1;
    }
    Ok(batch)
}

/// The report of beacon ingest reports, one row each in the order given.
/// The first whose row cannot be made is the error of the whole report.
pub fn beacon_ingest_report(reports: &Vec<BeaconIngest>) -> (r: Result<ColumnBatch, ErrorKind>)
    ensures
        match r {
            Ok(batch) => is_report(
                batch,
                Report::BeaconIngest,
                Seq::new(reports@.len(), |i: int| beacon_ingest_row(reports@[i])),
            ) && forall|i: int|
                0 <= i < reports@.len() ==> beacon_ingest_fault(#[trigger] reports@[i]) is None,
            Err(e) => exists|i: int|
                0 <= i < reports@.len() && beacon_ingest_fault(#[trigger] reports@[i]) == Some(e)
                    && forall|k: int|
                    0 <= k < i ==> beacon_ingest_fault(#[trigger] reports@[k]) is None,
        },
{
    let mut batch = new_report(Report::BeaconIngest);
    let mut i: usize = 0;
    while i < reports.len()
        invariant
            i <= reports.len(),
            batch.wf(),
            kinds_of(batch@) == Report::BeaconIngest.column_kinds(),
            rows_of(batch@) == Seq::new(i as nat, |k: int| beacon_ingest_row(reports@[k])),
            forall|k: int| 0 <= k < i ==> beacon_ingest_fault(#[trigger] reports@[k]) is None,
        decreases reports.len() - i,
    {
        let cells = match beacon_ingest_cells(&reports[i]) {
            Ok(cells) => cells,
            Err(e) => {
                return Err(e);
            },
        };
        assert(cell_kinds(cell_views(cells@)) =~= Report::BeaconIngest.column_kinds());
        let appended = batch.append(cells);
        assert(appended);
        assert(rows_of(batch@) =~= Seq::new(
            (i + 1) as nat,
            |k: int| beacon_ingest_row(reports@[k]),
        ));
        i = i + 1;
    }
    Ok(batch)
}

/// The report of witness ingest reports, one row each in the order given.
/// The first whose row cannot be made is the error of the whole report.
pub fn witness_ingest_report(reports: &Vec<WitnessIngest>) -> (r: Result<ColumnBatch, ErrorKind>)
    ensures
        match r {
            Ok(batch) => is_report(
                batch,
                Report::WitnessIngest,
                Seq::new(reports@.len(), |i: int| witness_ingest_row(reports@[i])),
            ) && forall|i: int|
                0 <= i < reports@.len() ==> witness_ingest_fault(#[trigger] reports@[i]) is None,
            Err(e) => exists|i: int|
                0 <= i < reports@.len() && witness_ingest_fault(#[trigger] reports@[i]) == Some(e)
                    && forall|k: int|
                    0 <= k < i ==> witness_ingest_fault(#[trigger] reports@[k]) is None,
        },
{
    let mut batch = new_report(Report::WitnessIngest);
    let mut i: usize = 0;
    while i < reports.len()
        invariant
            i <= reports.len(),
            batch.wf(),
            kinds_of(batch@) == Report::WitnessIngest.column_kinds(),
            rows_of(batch@) == Seq::new(i as nat, |k: int| witness_ingest_row(reports@[k])),
            forall|k: int| 0 <= k < i ==> witness_ingest_fault(#[trigger] reports@[k]) is None,
        decreases reports.len() - i,
    {
        let cells = match witness_ingest_cells(&reports[i]) {
            Ok(cells) => cells,
            Err(e) => {
                return Err(e);
            },
        };
        assert(cell_kinds(cell_views(cells@)) =~= Report::WitnessIngest.column_kinds());
        let appended = batch.append(cells);
        assert(appended);
        assert(rows_of(batch@) =~= Seq::new(
            (i + 1) as nat,
            |k: int| witness_ingest_row(reports@[k]),
        ));
        i = i + 1;
    }
    Ok(batch)
}

/// The report of the beacon reports of records, one row each in the order
/// given, whether or not a record has selected witnesses. The first record
/// whose row cannot be made is the error of the whole report.
pub fn valid_beacon_report(records: &Vec<PocRecord>) -> (r: Result<ColumnBatch, ErrorKind>)
    ensures
        match r {
            Ok(batch) => is_report(
                batch,
                Report::ValidBeacon,
                Seq::new(records@.len(), |i: int| valid_beacon_row(records@[i])),
            ) && forall|i: int|
                0 <= i < records@.len() ==> valid_beacon_fault(#[trigger] records@[i]) is None,
            Err(e) => exists|i: int|
                0 <= i < records@.len() && valid_beacon_fault(#[trigger] records@[i]) == Some(e)
                    && forall|k: int|
                    0 <= k < i ==> valid_beacon_fault(#[trigger] records@[k]) is None,
        },
{
    let mut batch = new_report(Report::ValidBeacon);
    let mut i: usize = 0;
    while i < records.len()
        invariant
            i <= records.len(),
            batch.wf(),
            kinds_of(batch@) == Report::ValidBeacon.column_kinds(),
            rows_of(batch@) == Seq::new(i as nat, |k: int| valid_beacon_row(records@[k])),
            forall|k: int| 0 <= k < i ==> valid_beacon_fault(#[trigger] records@[k]) is None,
        decreases records.len() - i,
    {
        let cells = match valid_beacon_cells(&records[i]) {
            Ok(cells) => cells,
            Err(e) => {
                return Err(e);
            },
        };
        assert(cell_kinds(cell_views(cells@)) =~= Report::ValidBeacon.column_kinds());
        let appended = batch.append(cells);
        assert(appended);
        assert(rows_of(batch@) =~= Seq::new(
            (i + 1) as nat,
            |k: int| valid_beacon_row(records@[k]),
        ));
        i = i + 1;
    }
    Ok(batch)
}

/// The sentence that closes a report: how many source records of which
/// type were read.
pub open spec fn processed_text(count: nat, prefix: Seq<char>) -> Seq<char> {
    decimal_text(count) + " rows of "@ + prefix + " processed."@
}

/// The sentence that closes a report.
pub fn processed_message(count: u64, prefix: &str) -> (message: String)
    ensures
        message@ == processed_text(count as nat, prefix@),
{
    let mut message = String::new();
    push_decimal(&mut message, count);
    message.append(" rows of ");
    message.append(prefix);
    message.append(" processed.");
    assert(message@ =~= processed_text(count as nat, prefix@));
    message
}

} // verus!
