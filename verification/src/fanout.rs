//! Fanning one record out into a beacon row and its witness rows.

use crate::column::copy_bytes;
use crate::error::ErrorKind;
use crate::error::RequiredField;
use crate::numeric::decimal_i64;
use crate::numeric::parse_i64;
use crate::record::PocRecord;
use crate::record::WitnessReport;
use crate::row::beacon_row_view;
use crate::row::witness_row_views;
use crate::row::BeaconRow;
use crate::row::BeaconRowView;
use crate::row::WitnessRow;
use crate::row::WitnessRowView;
use vstd::prelude::*;

verus! {

/// The location stored for a witness: the number its text writes, or zero
/// where the text is no number.
pub open spec fn witness_location(text: Seq<char>) -> i64 {
    match decimal_i64(text) {
        Some(v) => v,
        None => 0,
    }
}

/// The row of a witness that carries its radio report.
pub open spec fn witness_row(poc_id: Seq<u8>, witness: WitnessReport, selected: bool)
    -> WitnessRowView {
    let radio = witness.report->0;
    WitnessRowView {
        poc_id: poc_id,
        pub_key: radio.pub_key@,
        ingest_time: witness.received_timestamp,
        witness_location: witness_location(witness.location@),
        timestamp: radio.timestamp,
        tmst: radio.tmst,
        signal: radio.signal,
        snr: radio.snr,
        frequency: radio.frequency,
        selected: selected,
    }
}

/// The rows of a list of witnesses, in list order, all with the same flag.
pub open spec fn witness_rows(poc_id: Seq<u8>, witnesses: Seq<WitnessReport>, selected: bool)
    -> Seq<WitnessRowView> {
    Seq::new(witnesses.len(), |i: int| witness_row(poc_id, witnesses[i], selected))
}

/// Whether every witness of a list carries its radio report.
pub open spec fn all_reported(witnesses: Seq<WitnessReport>) -> bool {
    forall|i: int| 0 <= i < witnesses.len() ==> (#[trigger] witnesses[i]).report is Some
}

/// The beacon row of a record whose beacon report is complete and whose
/// beacon location is a number.
pub open spec fn beacon_row(record: PocRecord) -> BeaconRowView {
    let beacon = record.beacon_report->0;
    let radio = beacon.report->0;
    BeaconRowView {
        poc_id: record.poc_id@,
        ingest_time: beacon.received_timestamp,
        beacon_location: decimal_i64(beacon.location@)->0,
        pub_key: radio.pub_key@,
        frequency: radio.frequency,
        channel: radio.channel,
        tx_power: radio.tx_power,
        timestamp: radio.timestamp,
        tmst: radio.tmst,
    }
}

/// What a record contributes to the two outputs.
///
/// A record without selected witnesses contributes nothing, whatever else
/// it holds. Any other record contributes its beacon row and one row per
/// witness, the selected ones first, each list in its own order; it is an
/// error for it to lack its beacon report, to have a beacon location that
/// is no number, or to hold a beacon or witness without its radio report,
/// and the first of these that applies, in that order, is the error.
pub open spec fn fan_out(record: PocRecord) -> Result<
    (Option<BeaconRowView>, Seq<WitnessRowView>),
    ErrorKind,
> {
    if record.selected_witnesses@.len() == 0 {
        Ok((None, Seq::empty()))
    } else if record.beacon_report is None {
        Err(ErrorKind::MissingRequiredField(RequiredField::BeaconReport))
    } else if decimal_i64(record.beacon_report->0.location@) is None {
        Err(ErrorKind::LocationParse)
    } else if record.beacon_report->0.report is None {
        Err(ErrorKind::MissingRequiredField(RequiredField::BeaconRadio))
    } else if !all_reported(record.selected_witnesses@) || !all_reported(
        record.unselected_witnesses@,
    ) {
        Err(ErrorKind::MissingRequiredField(RequiredField::WitnessRadio))
    } else {
        Ok(
            (
                Some(beacon_row(record)),
                witness_rows(record.poc_id@, record.selected_witnesses@, true) + witness_rows(
                    record.poc_id@,
                    record.unselected_witnesses@,
                    false,
                ),
            ),
        )
    }
}

/// Appends the rows of `witnesses` to `rows` and says whether every witness
/// carried its radio report. Where one did not, `rows` is left in no
/// particular state.
fn push_witness_rows(
    rows: &mut Vec<WitnessRow>,
    poc_id: &Vec<u8>,
    witnesses: &Vec<WitnessReport>,
    selected: bool,
) -> (complete: bool)
    ensures
        complete == all_reported(witnesses@),
        complete ==> witness_row_views(final(rows)@) == witness_row_views(old(rows)@)
            + witness_rows(poc_id@, witnesses@, selected),
{
    let ghost before = witness_row_views(rows@);
    let mut i: usize = 0;
    while i < witnesses.len()
        invariant
            i <= witnesses.len(),
            forall|k: int| 0 <= k < i ==> (#[trigger] witnesses[k]).report is Some,
            witness_row_views(rows@) == before + witness_rows(
                poc_id@,
                witnesses@.subrange(0, i as int),
                selected,
            ),
        decreases witnesses.len() - i,
    {
        let witness = &witnesses[i];
        match &witness.report {
            None => {
                return false;
            },
            Some(radio) => {
                let location = match parse_i64(witness.location.as_str()) {
                    Some(v) => v,
                    None => 0,
                };
                let row = WitnessRow {
                    poc_id: copy_bytes(poc_id),
                    pub_key: copy_bytes(&radio.pub_key),
                    ingest_time: witness.received_timestamp,
                    witness_location: location,
                    timestamp: radio.timestamp,
                    tmst: radio.tmst,
                    signal: radio.signal,
                    snr: radio.snr,
                    frequency: radio.frequency,
                    selected,
                };
                assert(row@ == witness_row(poc_id@, witnesses[i as int], selected));
                let ghost earlier = rows@;
                let ghost taken = witnesses@.subrange(0, i as int);
                rows.push(row);
                assert(witness_row_views(rows@) =~= witness_row_views(earlier).push(
                    witness_row(poc_id@, witnesses[i as int], selected),
                ));
                assert(witness_rows(poc_id@, witnesses@.subrange(0, i + 1), selected)
                    =~= witness_rows(poc_id@, taken, selected).push(
                    witness_row(poc_id@, witnesses[i as int], selected),
                ));
            },
        }
        i = i + 1;
    }
    assert(witnesses@.subrange(0, i as int) =~= witnesses@);
    true
}

/// Turns one record into the rows it contributes: at most one beacon row,
/// and the witness rows with their selection flag.
pub fn transform(record: &PocRecord) -> (r: Result<(Option<BeaconRow>, Vec<WitnessRow>), ErrorKind>)
    ensures
        match r {
            Ok((beacon, witnesses)) => fan_out(*record) == Ok::<
                (Option<BeaconRowView>, Seq<WitnessRowView>),
                ErrorKind,
            >((beacon_row_view(beacon), witness_row_views(witnesses@))),
            Err(e) => fan_out(*record) == Err::<
                (Option<BeaconRowView>, Seq<WitnessRowView>),
                ErrorKind,
            >(e),
        },
{
    let mut rows: Vec<WitnessRow> = Vec::new();
    assert(witness_row_views(rows@) =~= Seq::<WitnessRowView>::empty());
    if record.selected_witnesses.len() == 0 {
        return Ok((None, rows));
    }
    let beacon = match &record.beacon_report {
        Some(b) => b,
        None => {
            return Err(ErrorKind::MissingRequiredField(RequiredField::BeaconReport));
        },
    };
    let location = match parse_i64(beacon.location.as_str()) {
        Some(v) => v,
        None => {
            return Err(ErrorKind::LocationParse);
        },
    };
    let radio = match &beacon.report {
        Some(r) => r,
        None => {
            return Err(ErrorKind::MissingRequiredField(RequiredField::BeaconRadio));
        },
    };
    let row = BeaconRow {
        poc_id: copy_bytes(&record.poc_id),
        ingest_time: beacon.received_timestamp,
        beacon_location: location,
        pub_key: copy_bytes(&radio.pub_key),
        frequency: radio.frequency,
        channel: radio.channel,
        tx_power: radio.tx_power,
        timestamp: radio.timestamp,
        tmst: radio.tmst,
    };
    if !push_witness_rows(&mut rows, &record.poc_id, &record.selected_witnesses, true) {
        return Err(ErrorKind::MissingRequiredField(RequiredField::WitnessRadio));
    }
    if !push_witness_rows(&mut rows, &record.poc_id, &record.unselected_witnesses, false) {
        return Err(ErrorKind::MissingRequiredField(RequiredField::WitnessRadio));
    }
    assert(witness_row_views(rows@) =~= witness_rows(
        record.poc_id@,
        record.selected_witnesses@,
        true,
    ) + witness_rows(record.poc_id@, record.unselected_witnesses@, false));
    Ok((Some(row), rows))
}

/// A record with selected witnesses that converts contributes exactly one
/// beacon row and one witness row per witness, selected or not.
pub proof fn lemma_contribution_counts(record: PocRecord)
    requires
        record.selected_witnesses@.len() > 0,
        fan_out(record) is Ok,
    ensures
        fan_out(record)->Ok_0.0 is Some,
        fan_out(record)->Ok_0.1.len() == record.selected_witnesses@.len()
            + record.unselected_witnesses@.len(),
{
}

/// A record without selected witnesses converts and contributes no row to
/// either output, whatever its beacon and its unselected witnesses hold.
pub proof fn lemma_unselected_only_contributes_nothing(record: PocRecord)
    requires
        record.selected_witnesses@.len() == 0,
    ensures
        fan_out(record) == Ok::<(Option<BeaconRowView>, Seq<WitnessRowView>), ErrorKind>(
            (None, Seq::empty()),
        ),
{
}

/// In what a record contributes, witness row `i` is flagged as selected
/// exactly when it stands among the first rows, one per selected witness;
/// it is the row of the selected witness `i`, or of the unselected witness
/// that many places after the selected ones.
pub proof fn lemma_selection_flags(record: PocRecord, i: int)
    requires
        record.selected_witnesses@.len() > 0,
        fan_out(record) is Ok,
        0 <= i < record.selected_witnesses@.len() + record.unselected_witnesses@.len(),
    ensures
        fan_out(record)->Ok_0.1[i].selected == (i < record.selected_witnesses@.len()),
        i < record.selected_witnesses@.len() ==> fan_out(record)->Ok_0.1[i] == witness_row(
            record.poc_id@,
            record.selected_witnesses@[i],
            true,
        ),
        i >= record.selected_witnesses@.len() ==> fan_out(record)->Ok_0.1[i] == witness_row(
            record.poc_id@,
            record.unselected_witnesses@[i - record.selected_witnesses@.len()],
            false,
        ),
{
}

/// A witness location that is no number is stored as zero, and has no say
/// in whether its record converts: a record with selected witnesses
/// converts whenever its beacon report is there with a numeric location
/// and every report carries its radio report.
pub proof fn lemma_witness_location_defaults(record: PocRecord, i: int)
    requires
        record.selected_witnesses@.len() > 0,
        record.beacon_report is Some,
        decimal_i64(record.beacon_report->0.location@) is Some,
        record.beacon_report->0.report is Some,
        all_reported(record.selected_witnesses@),
        all_reported(record.unselected_witnesses@),
        0 <= i < record.selected_witnesses@.len(),
        decimal_i64(record.selected_witnesses@[i].location@) is None,
    ensures
        fan_out(record) is Ok,
        fan_out(record)->Ok_0.1[i].witness_location == 0,
{
}

/// A beacon location that is no number fails the record, and with it the
/// file, so long as the record has selected witnesses and a beacon report.
pub proof fn lemma_beacon_location_fails(record: PocRecord)
    requires
        record.selected_witnesses@.len() > 0,
        record.beacon_report is Some,
        decimal_i64(record.beacon_report->0.location@) is None,
    ensures
        fan_out(record) == Err::<(Option<BeaconRowView>, Seq<WitnessRowView>), ErrorKind>(
            ErrorKind::LocationParse,
        ),
{
}

} // verus!
