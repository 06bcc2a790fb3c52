use bytes::Bytes;
use oracle_parquet::column::Cell;
use oracle_parquet::column::Column;
use oracle_parquet::error::ErrorKind;
use oracle_parquet::error::RequiredField;
use oracle_parquet::numeric::push_decimal;
use oracle_parquet::record::BeaconIngest;
use oracle_parquet::record::BeaconRadio;
use oracle_parquet::record::BeaconReport;
use oracle_parquet::record::PocRecord;
use oracle_parquet::record::RewardShare;
use oracle_parquet::record::WitnessIngest;
use oracle_parquet::record::WitnessRadio;
use oracle_parquet::report::beacon_ingest_cells;
use oracle_parquet::report::FIRST_UTC_SECOND;
use oracle_parquet::report::LAST_UTC_SECOND;
use oracle_parquet::report::beacon_ingest_report;
use oracle_parquet::report::new_report;
use oracle_parquet::report::processed_message;
use oracle_parquet::report::reward_share_cells;
use oracle_parquet::report::reward_share_report;
use oracle_parquet::report::valid_beacon_cells;
use oracle_parquet::report::valid_beacon_report;
use oracle_parquet::report::witness_ingest_cells;
use oracle_parquet::report::witness_ingest_report;
use oracle_parquet::schema::Output;
use oracle_parquet::schema::Report;
use oracle_parquet::writer::serialize;
use oracle_parquet::writer::serialize_report;
use parquet::file::reader::FileReader;
use parquet::file::reader::SerializedFileReader;
use parquet::record::RowAccessor;

fn beacon_radio() -> BeaconRadio {
    BeaconRadio {
        pub_key: vec![1],
        local_entropy: vec![2],
        remote_entropy: vec![3],
        data: vec![4],
        frequency: 5,
        channel: 6,
        datarate: 7,
        tx_power: 8,
        timestamp: 9,
        signature: vec![10],
        tmst: 11,
    }
}

fn witness_radio() -> WitnessRadio {
    WitnessRadio {
        pub_key: vec![1],
        data: vec![2],
        timestamp: 3,
        tmst: 4,
        signal: -5,
        snr: 6,
        frequency: 7,
        datarate: 8,
        signature: vec![9],
    }
}

fn share(key: u8, end_period: u64) -> RewardShare {
    RewardShare {
        hotspot_key: vec![key],
        beacon_amount: 10,
        witness_amount: 20,
        start_period: 1_671_557_442,
        end_period,
    }
}

fn names(bytes: Vec<u8>) -> Vec<String> {
    let reader = SerializedFileReader::new(Bytes::from(bytes)).unwrap();
    let schema = reader.metadata().file_metadata().schema_descr();
    (0..schema.num_columns()).map(|i| schema.column(i).name().to_string()).collect()
}

#[test]
fn reward_share_cells_follow_the_schema() {
    assert_eq!(
        reward_share_cells(&share(7, 1_671_643_842)),
        Ok(vec![
            Cell::Bytes(vec![7]),
            Cell::Int64(10),
            Cell::Int64(20),
            Cell::Int64(1_671_557_442),
            Cell::Int64(1_671_643_842),
        ])
    );
}

#[test]
fn reward_share_needs_an_end_on_the_calendar() {
    assert!(reward_share_cells(&share(1, 0)).is_ok());
    assert!(reward_share_cells(&share(1, 8_210_266_876_799)).is_ok());
    assert_eq!(reward_share_cells(&share(1, 8_210_266_876_800)), Err(ErrorKind::EndPeriod));
    assert_eq!(reward_share_cells(&share(1, i64::MAX as u64)), Err(ErrorKind::EndPeriod));
    assert_eq!(reward_share_cells(&share(1, u64::MAX)).unwrap()[4], Cell::Int64(-1));
    assert_eq!(reward_share_cells(&share(1, 1u64 << 63)), Err(ErrorKind::EndPeriod));
    assert_eq!(LAST_UTC_SECOND, 8_210_266_876_799);
    assert!(reward_share_cells(&share(1, FIRST_UTC_SECOND as u64)).is_ok());
    assert_eq!(
        reward_share_cells(&share(1, (FIRST_UTC_SECOND - 1) as u64)),
        Err(ErrorKind::EndPeriod)
    );
    assert_eq!(
        reward_share_cells(&share(1, FIRST_UTC_SECOND as u64)).unwrap()[4],
        Cell::Int64(-8_334_601_228_800)
    );
}

#[test]
fn reward_share_report_fails_as_a_whole() {
    let batch = reward_share_report(&vec![share(1, 100), share(2, 200)]).unwrap();
    assert_eq!(batch.rows(), 2);
    assert_eq!(batch.column(0), Some(&Column::Bytes(vec![vec![1], vec![2]])));
    assert_eq!(batch.column(4), Some(&Column::Int64(vec![100, 200])));
    assert_eq!(
        reward_share_report(&vec![share(1, 100), share(2, i64::MAX as u64), share(3, 5)]),
        Err(ErrorKind::EndPeriod)
    );
    assert_eq!(reward_share_report(&vec![]).unwrap().rows(), 0);
}

#[test]
fn beacon_ingest_cells_follow_the_schema() {
    let report = BeaconIngest { received_timestamp: 1_674_760_102_047, report: Some(beacon_radio()) };
    assert_eq!(
        beacon_ingest_cells(&report),
        Ok(vec![
            Cell::Int64(1_674_760_102_047),
            Cell::Bytes(vec![1]),
            Cell::Bytes(vec![2]),
            Cell::Bytes(vec![3]),
            Cell::Bytes(vec![4]),
            Cell::Int64(5),
            Cell::Int32(6),
            Cell::Int32(7),
            Cell::Int32(8),
            Cell::Int64(9),
            Cell::Bytes(vec![10]),
            Cell::Int32(11),
        ])
    );
    let bare = BeaconIngest { received_timestamp: 1, report: None };
    assert_eq!(
        beacon_ingest_cells(&bare),
        Err(ErrorKind::MissingRequiredField(RequiredField::BeaconRadio))
    );
    assert_eq!(
        beacon_ingest_report(&vec![report, bare]),
        Err(ErrorKind::MissingRequiredField(RequiredField::BeaconRadio))
    );
}

#[test]
fn witness_ingest_cells_follow_the_schema() {
    let report = WitnessIngest { received_timestamp: 1_674_760_087_890, report: Some(witness_radio()) };
    assert_eq!(
        witness_ingest_cells(&report),
        Ok(vec![
            Cell::Int64(1_674_760_087_890),
            Cell::Bytes(vec![1]),
            Cell::Bytes(vec![2]),
            Cell::Int64(3),
            Cell::Int32(4),
            Cell::Int32(-5),
            Cell::Int32(6),
            Cell::Int64(7),
            Cell::Int32(8),
            Cell::Bytes(vec![9]),
        ])
    );
    let mut radio = witness_radio();
    radio.tmst = 5;
    radio.snr = -120;
    let cells =
        witness_ingest_cells(&WitnessIngest { received_timestamp: 0, report: Some(radio) }).unwrap();
    assert_eq!(cells[4], Cell::Int32(5));
    assert_eq!(cells[6], Cell::Int32(-120));
    let bare = WitnessIngest { received_timestamp: 1, report: None };
    assert_eq!(
        witness_ingest_cells(&bare),
        Err(ErrorKind::MissingRequiredField(RequiredField::WitnessRadio))
    );
    let batch = witness_ingest_report(&vec![report]).unwrap();
    assert_eq!(batch.rows(), 1);
    assert_eq!(batch.width(), 10);
}

#[test]
fn valid_beacon_cells_follow_the_schema() {
    let record = PocRecord {
        poc_id: vec![0],
        beacon_report: Some(BeaconReport {
            received_timestamp: 1_674_753_963_119,
            location: "8c2681a3064d9ff".to_string(),
            hex_scale: 12,
            report: Some(beacon_radio()),
            reward_unit: u32::MAX,
        }),
        selected_witnesses: vec![],
        unselected_witnesses: vec![],
    };
    assert_eq!(
        valid_beacon_cells(&record),
        Ok(vec![
            Cell::Int64(1_674_753_963_119),
            Cell::Bytes(b"8c2681a3064d9ff".to_vec()),
            Cell::Int32(12),
            Cell::Bytes(vec![1]),
            Cell::Bytes(vec![2]),
            Cell::Bytes(vec![3]),
            Cell::Bytes(vec![4]),
            Cell::Int64(5),
            Cell::Int32(6),
            Cell::Int32(7),
            Cell::Int32(8),
            Cell::Int64(9),
            Cell::Bytes(vec![10]),
            Cell::Int32(11),
            Cell::Int32(-1),
        ])
    );
    let batch = valid_beacon_report(&vec![record]).unwrap();
    assert_eq!(batch.rows(), 1);
    let bare = PocRecord {
        poc_id: vec![],
        beacon_report: None,
        selected_witnesses: vec![],
        unselected_witnesses: vec![],
    };
    assert_eq!(
        valid_beacon_cells(&bare),
        Err(ErrorKind::MissingRequiredField(RequiredField::BeaconReport))
    );
    let half = PocRecord {
        poc_id: vec![],
        beacon_report: Some(BeaconReport {
            received_timestamp: 0,
            location: "é".to_string(),
            hex_scale: 0,
            report: None,
            reward_unit: 0,
        }),
        selected_witnesses: vec![],
        unselected_witnesses: vec![],
    };
    assert_eq!(
        valid_beacon_report(&vec![half]),
        Err(ErrorKind::MissingRequiredField(RequiredField::BeaconRadio))
    );
}

#[test]
fn reports_serialize_with_their_columns_in_order() {
    let shares = reward_share_report(&vec![share(1, 100), share(2, 200)]).unwrap();
    let bytes = serialize_report(&shares, Report::RewardShare).unwrap();
    let reader = SerializedFileReader::new(Bytes::from(bytes.clone())).unwrap();
    assert_eq!(reader.metadata().file_metadata().num_rows(), 2);
    let rows: Vec<_> = reader.get_row_iter(None).unwrap().map(|r| r.unwrap()).collect();
    assert_eq!(rows[1].get_string(0).unwrap().as_bytes(), &[2]);
    assert_eq!(rows[1].get_long(1).unwrap(), 10);
    assert_eq!(rows[1].get_long(2).unwrap(), 20);
    assert_eq!(rows[1].get_long(3).unwrap(), 1_671_557_442);
    assert_eq!(rows[1].get_long(4).unwrap(), 200);
    assert_eq!(
        names(bytes),
        vec!["hotspot_key", "beacon_amount", "witness_amount", "start_period", "end_period"]
    );
    assert_eq!(
        names(serialize_report(&new_report(Report::BeaconIngest), Report::BeaconIngest).unwrap()),
        vec![
            "ingest_timestamp", "pub_key", "local_entropy", "remote_entropy", "data",
            "frequency", "channel", "datarate", "tx_power", "hotspot_timestamp", "signature",
            "tmst"
        ]
    );
    assert_eq!(
        names(serialize_report(&new_report(Report::WitnessIngest), Report::WitnessIngest).unwrap()),
        vec![
            "ingest_timestamp", "pub_key", "data", "hotspot_timestamp", "tmst", "signal", "snr",
            "frequency", "datarate", "signature"
        ]
    );
    assert_eq!(
        names(serialize_report(&new_report(Report::ValidBeacon), Report::ValidBeacon).unwrap()),
        vec![
            "received_timestamp", "location", "hex_scale", "pub_key", "local_entropy",
            "remote_entropy", "data", "frequency", "channel", "datarate", "tx_power",
            "hotspot_timestamp", "signature", "tmst", "reward_unit"
        ]
    );
}

#[test]
fn text_columns_take_bytes_that_are_no_text() {
    let mut odd = share(0, 100);
    odd.hotspot_key = vec![0xff, 0xfe, 0x00, 0xc3];
    let mut long = share(1, 200);
    long.hotspot_key = (0..=255u8).cycle().take(1000).collect();
    let batch = reward_share_report(&vec![odd, long]).unwrap();
    let bytes = serialize_report(&batch, Report::RewardShare).unwrap();
    let reader = SerializedFileReader::new(Bytes::from(bytes)).unwrap();
    assert_eq!(reader.metadata().file_metadata().num_rows(), 2);
    assert_eq!(reader.metadata().row_group(0).num_columns(), 5);
    assert_eq!(reader.metadata().row_group(0).column(4).num_values(), 2);
}

#[test]
fn reports_are_refused_under_another_schema() {
    let shares = reward_share_report(&vec![share(1, 100)]).unwrap();
    assert_eq!(serialize_report(&shares, Report::ValidBeacon), Err(ErrorKind::SchemaWrite));
    assert_eq!(serialize(&shares, Output::Beacon), Err(ErrorKind::SchemaWrite));
    assert_eq!(Report::RewardShare.kinds().len(), 5);
    assert_eq!(Report::BeaconIngest.kinds().len(), 12);
    assert_eq!(Report::WitnessIngest.kinds().len(), 10);
    assert_eq!(Report::ValidBeacon.kinds().len(), 15);
    assert!(Report::ValidBeacon.message_type().contains("REQUIRED BYTE_ARRAY location (UTF8);"));
}

#[test]
fn the_closing_sentence_counts_the_rows() {
    assert_eq!(processed_message(0, "iot_poc"), "0 rows of iot_poc processed.");
    assert_eq!(
        processed_message(1234, "gateway_reward_share"),
        "1234 rows of gateway_reward_share processed."
    );
    assert_eq!(
        processed_message(u64::MAX, ""),
        "18446744073709551615 rows of  processed."
    );
    for n in [0u64, 9, 10, 11, 99, 100, 101, 1_674_753_963_119] {
        let mut text = "n=".to_string();
        push_decimal(&mut text, n);
        assert_eq!(text, format!("n={}", n));
    }
}
