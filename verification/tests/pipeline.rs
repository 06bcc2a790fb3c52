use bytes::Bytes;
use oracle_parquet::batch::ColumnBatch;
use oracle_parquet::column::Cell;
use oracle_parquet::column::Column;
use oracle_parquet::column::ColumnKind;
use oracle_parquet::convert::convert;
use oracle_parquet::convert::convert_decoded;
use oracle_parquet::convert::FileConverter;
use oracle_parquet::error::ErrorKind;
use oracle_parquet::error::RequiredField;
use oracle_parquet::fanout::transform;
use oracle_parquet::record::BeaconRadio;
use oracle_parquet::record::BeaconReport;
use oracle_parquet::record::PocRecord;
use oracle_parquet::record::WitnessRadio;
use oracle_parquet::record::WitnessReport;
use oracle_parquet::row::BeaconRow;
use oracle_parquet::schema::Output;
use oracle_parquet::writer::agrees;
use oracle_parquet::writer::serialize;
use parquet::file::reader::FileReader;
use parquet::file::reader::SerializedFileReader;
use parquet::record::RowAccessor;

fn witness(n: u8, location: &str) -> WitnessReport {
    WitnessReport {
        received_timestamp: 1_674_753_000_000 + n as u64,
        location: location.to_string(),
        report: Some(WitnessRadio {
            pub_key: vec![0xa0, n],
            data: vec![0xd0, n],
            timestamp: 1_674_752_999_000_000_000 + n as u64,
            tmst: 1000 + n as u32,
            signal: -1000 - n as i32,
            snr: 55 + n as i32,
            frequency: 904_700_000 + n as u64,
            datarate: 3,
            signature: vec![0x51, n],
        }),
    }
}

fn radio() -> BeaconRadio {
    BeaconRadio {
        pub_key: vec![1, 2, 3],
        local_entropy: vec![4],
        remote_entropy: vec![5, 6],
        data: vec![7, 8, 9],
        frequency: 904_500_000,
        channel: 7,
        datarate: 2,
        tx_power: 27,
        timestamp: 1_674_753_962_000_000_000,
        signature: vec![10, 11],
        tmst: 123_456,
    }
}

fn beacon(location: &str) -> BeaconReport {
    BeaconReport {
        received_timestamp: 1_674_753_963_119,
        location: location.to_string(),
        hex_scale: 12,
        report: Some(radio()),
        reward_unit: 100,
    }
}

fn record(id: u8, selected: Vec<WitnessReport>, unselected: Vec<WitnessReport>) -> PocRecord {
    PocRecord {
        poc_id: vec![0xee, id],
        beacon_report: Some(beacon("631252734740306943")),
        selected_witnesses: selected,
        unselected_witnesses: unselected,
    }
}

fn read_back(bytes: Vec<u8>) -> SerializedFileReader<Bytes> {
    SerializedFileReader::new(Bytes::from(bytes)).unwrap()
}

fn column_names(reader: &SerializedFileReader<Bytes>) -> Vec<String> {
    let schema = reader.metadata().file_metadata().schema_descr();
    (0..schema.num_columns()).map(|i| schema.column(i).name().to_string()).collect()
}

#[test]
fn transform_makes_one_beacon_row_and_a_row_per_witness() {
    let r = record(
        1,
        vec![witness(1, "631252734740306001"), witness(2, "631252734740306002")],
        vec![witness(3, "631252734740306003")],
    );
    let (beacon_row, witness_rows) = transform(&r).unwrap();
    assert_eq!(
        beacon_row,
        Some(BeaconRow {
            poc_id: vec![0xee, 1],
            ingest_time: 1_674_753_963_119,
            beacon_location: 631252734740306943,
            pub_key: vec![1, 2, 3],
            frequency: 904_500_000,
            channel: 7,
            tx_power: 27,
            timestamp: 1_674_753_962_000_000_000,
            tmst: 123_456,
        })
    );
    assert_eq!(witness_rows.len(), 3);
    let flags: Vec<bool> = witness_rows.iter().map(|w| w.selected).collect();
    assert_eq!(flags, vec![true, true, false]);
    let keys: Vec<Vec<u8>> = witness_rows.iter().map(|w| w.pub_key.clone()).collect();
    assert_eq!(keys, vec![vec![0xa0, 1], vec![0xa0, 2], vec![0xa0, 3]]);
    for w in &witness_rows {
        assert_eq!(w.poc_id, vec![0xee, 1]);
    }
    assert_eq!(witness_rows[0].witness_location, 631252734740306001);
    assert_eq!(witness_rows[0].ingest_time, 1_674_753_000_001);
    assert_eq!(witness_rows[0].timestamp, 1_674_752_999_000_000_001);
    assert_eq!(witness_rows[0].tmst, 1001);
    assert_eq!(witness_rows[0].signal, -1001);
    assert_eq!(witness_rows[0].snr, 56);
    assert_eq!(witness_rows[0].frequency, 904_700_001);
    assert_eq!(witness_rows[2].witness_location, 631252734740306003);
}

#[test]
fn transform_drops_a_record_without_selected_witnesses() {
    let r = record(2, vec![], vec![witness(1, "1"), witness(2, "2")]);
    assert_eq!(transform(&r), Ok((None, vec![])));
    let bare = PocRecord {
        poc_id: vec![],
        beacon_report: None,
        selected_witnesses: vec![],
        unselected_witnesses: vec![WitnessReport {
            received_timestamp: 0,
            location: "x".to_string(),
            report: None,
        }],
    };
    assert_eq!(transform(&bare), Ok((None, vec![])));
}

#[test]
fn transform_defaults_a_witness_location_that_is_no_number() {
    let r = record(3, vec![witness(1, "not-a-number")], vec![witness(2, "")]);
    let (beacon_row, witness_rows) = transform(&r).unwrap();
    assert!(beacon_row.is_some());
    assert_eq!(witness_rows[0].witness_location, 0);
    assert_eq!(witness_rows[1].witness_location, 0);
}

#[test]
fn transform_fails_on_a_beacon_location_that_is_no_number() {
    let mut r = record(4, vec![witness(1, "1")], vec![]);
    r.beacon_report = Some(beacon("8c2681a3064d9ff"));
    assert_eq!(transform(&r), Err(ErrorKind::LocationParse));
}

#[test]
fn transform_fails_on_each_missing_field() {
    let mut r = record(5, vec![witness(1, "1")], vec![]);
    r.beacon_report = None;
    assert_eq!(
        transform(&r),
        Err(ErrorKind::MissingRequiredField(RequiredField::BeaconReport))
    );
    let mut r = record(5, vec![witness(1, "1")], vec![]);
    r.beacon_report.as_mut().unwrap().report = None;
    assert_eq!(
        transform(&r),
        Err(ErrorKind::MissingRequiredField(RequiredField::BeaconRadio))
    );
    let mut r = record(5, vec![witness(1, "1")], vec![witness(2, "2")]);
    r.unselected_witnesses[0].report = None;
    assert_eq!(
        transform(&r),
        Err(ErrorKind::MissingRequiredField(RequiredField::WitnessRadio))
    );
    let mut r = record(5, vec![witness(1, "1")], vec![]);
    r.selected_witnesses[0].report = None;
    assert_eq!(
        transform(&r),
        Err(ErrorKind::MissingRequiredField(RequiredField::WitnessRadio))
    );
}

#[test]
fn transform_reports_the_first_fault_in_order() {
    let mut r = record(6, vec![witness(1, "1")], vec![]);
    r.beacon_report = Some(beacon("nope"));
    r.beacon_report.as_mut().unwrap().report = None;
    r.selected_witnesses[0].report = None;
    assert_eq!(transform(&r), Err(ErrorKind::LocationParse));
}

#[test]
fn beacon_cells_follow_the_schema_and_narrow() {
    let row = BeaconRow {
        poc_id: vec![9],
        ingest_time: u64::MAX,
        beacon_location: -5,
        pub_key: vec![8, 7],
        frequency: 1u64 << 63,
        channel: -1,
        tx_power: 2,
        timestamp: 3,
        tmst: u32::MAX,
    };
    assert_eq!(
        row.cells(),
        vec![
            Cell::Bytes(vec![9]),
            Cell::Int64(-1),
            Cell::Int64(-5),
            Cell::Bytes(vec![8, 7]),
            Cell::Int64(i64::MIN),
            Cell::Int32(-1),
            Cell::Int32(2),
            Cell::Int64(3),
            Cell::Int32(-1),
        ]
    );
}

#[test]
fn batch_appends_rows_column_by_column() {
    let mut batch = ColumnBatch::new(&vec![ColumnKind::Int64, ColumnKind::Bool, ColumnKind::Bytes]);
    assert_eq!(batch.width(), 3);
    assert_eq!(batch.rows(), 0);
    assert!(batch.append(vec![Cell::Int64(1), Cell::Bool(true), Cell::Bytes(vec![1])]));
    assert!(batch.append(vec![Cell::Int64(2), Cell::Bool(false), Cell::Bytes(vec![])]));
    assert_eq!(batch.rows(), 2);
    assert_eq!(batch.column(0), Some(&Column::Int64(vec![1, 2])));
    assert_eq!(batch.column(1), Some(&Column::Bool(vec![true, false])));
    assert_eq!(batch.column(2), Some(&Column::Bytes(vec![vec![1], vec![]])));
}

#[test]
fn batch_refuses_a_row_that_does_not_fit() {
    let mut batch = ColumnBatch::new(&vec![ColumnKind::Int64, ColumnKind::Int32]);
    assert!(!batch.append(vec![Cell::Int64(1)]));
    assert!(!batch.append(vec![Cell::Int32(1), Cell::Int64(1)]));
    assert!(!batch.append(vec![Cell::Int64(1), Cell::Int32(1), Cell::Bool(true)]));
    assert_eq!(batch.rows(), 0);
    assert_eq!(batch.column(0), Some(&Column::Int64(vec![])));
    assert_eq!(batch.column(2), None);
    assert!(batch.append(vec![Cell::Int64(1), Cell::Int32(1)]));
    assert_eq!(batch.rows(), 1);
}

#[test]
fn column_push_refuses_another_kind() {
    let mut c = Column::new(ColumnKind::Int32);
    assert_eq!(c.kind(), ColumnKind::Int32);
    assert!(c.push(Cell::Int32(4)));
    assert!(!c.push(Cell::Int64(4)));
    assert!(!c.push(Cell::Bool(true)));
    assert_eq!(c, Column::Int32(vec![4]));
    assert_eq!(c.len(), 1);
}

#[test]
fn converter_keeps_nothing_of_a_record_that_fails() {
    let mut converter = FileConverter::new();
    converter.push(&record(1, vec![witness(1, "1")], vec![])).unwrap();
    let mut bad = record(2, vec![witness(2, "2")], vec![witness(3, "3")]);
    bad.beacon_report = Some(beacon("x"));
    assert_eq!(converter.push(&bad), Err(ErrorKind::LocationParse));
    assert_eq!(converter.beacons().rows(), 1);
    assert_eq!(converter.witnesses().rows(), 1);
    let mut bad = record(3, vec![witness(2, "2")], vec![witness(3, "3")]);
    bad.unselected_witnesses[0].report = None;
    assert!(converter.push(&bad).is_err());
    assert_eq!(converter.beacons().rows(), 1);
    assert_eq!(converter.witnesses().rows(), 1);
}

#[test]
fn convert_fails_the_whole_file_on_its_first_bad_record() {
    let mut second = record(2, vec![witness(1, "1")], vec![]);
    second.beacon_report = None;
    let mut third = record(3, vec![witness(1, "1")], vec![]);
    third.beacon_report = Some(beacon("?"));
    let records = vec![record(1, vec![witness(1, "1")], vec![]), second, third];
    assert_eq!(
        convert(&records).err(),
        Some(ErrorKind::MissingRequiredField(RequiredField::BeaconReport))
    );
}

#[test]
fn one_record_with_two_selected_and_one_unselected_witness() {
    let records = vec![record(
        1,
        vec![witness(1, "11"), witness(2, "bad")],
        vec![witness(3, "33")],
    )];
    let converter = convert(&records).unwrap();
    assert_eq!(converter.beacons().rows(), 1);
    assert_eq!(converter.witnesses().rows(), 3);

    let beacons = read_back(serialize(converter.beacons(), Output::Beacon).unwrap());
    assert_eq!(beacons.metadata().file_metadata().num_rows(), 1);
    assert_eq!(beacons.num_row_groups(), 1);
    assert_eq!(
        column_names(&beacons),
        vec![
            "poc_id", "ingest_time", "beacon_location", "pub_key", "frequency", "channel",
            "tx_power", "timestamp", "tmst"
        ]
    );
    let rows: Vec<_> = beacons.get_row_iter(None).unwrap().map(|r| r.unwrap()).collect();
    assert_eq!(rows.len(), 1);
    assert_eq!(rows[0].get_bytes(0).unwrap().data(), &[0xee, 1]);
    assert_eq!(rows[0].get_long(1).unwrap(), 1_674_753_963_119);
    assert_eq!(rows[0].get_long(2).unwrap(), 631252734740306943);
    assert_eq!(rows[0].get_bytes(3).unwrap().data(), &[1, 2, 3]);
    assert_eq!(rows[0].get_long(4).unwrap(), 904_500_000);
    assert_eq!(rows[0].get_int(5).unwrap(), 7);
    assert_eq!(rows[0].get_int(6).unwrap(), 27);
    assert_eq!(rows[0].get_long(7).unwrap(), 1_674_753_962_000_000_000);
    assert_eq!(rows[0].get_int(8).unwrap(), 123_456);

    let witnesses = read_back(serialize(converter.witnesses(), Output::Witness).unwrap());
    assert_eq!(witnesses.metadata().file_metadata().num_rows(), 3);
    assert_eq!(witnesses.num_row_groups(), 1);
    assert_eq!(
        column_names(&witnesses),
        vec![
            "poc_id", "pub_key", "ingest_time", "witness_location", "timestamp", "tmst",
            "signal", "snr", "frequency", "selected"
        ]
    );
    let rows: Vec<_> = witnesses.get_row_iter(None).unwrap().map(|r| r.unwrap()).collect();
    assert_eq!(rows.len(), 3);
    let flags: Vec<bool> = rows.iter().map(|r| r.get_bool(9).unwrap()).collect();
    assert_eq!(flags, vec![true, true, false]);
    assert_eq!(flags.iter().filter(|f| **f).count(), 2);
    let locations: Vec<i64> = rows.iter().map(|r| r.get_long(3).unwrap()).collect();
    assert_eq!(locations, vec![11, 0, 33]);
    for (i, row) in rows.iter().enumerate() {
        let n = i as u8 + 1;
        assert_eq!(row.get_bytes(0).unwrap().data(), &[0xee, 1]);
        assert_eq!(row.get_bytes(1).unwrap().data(), &[0xa0, n]);
        assert_eq!(row.get_long(2).unwrap(), 1_674_753_000_000 + n as i64);
        assert_eq!(row.get_long(4).unwrap(), 1_674_752_999_000_000_000 + n as i64);
        assert_eq!(row.get_int(5).unwrap(), 1000 + n as i32);
        assert_eq!(row.get_int(6).unwrap(), -1000 - n as i32);
        assert_eq!(row.get_int(7).unwrap(), 55 + n as i32);
        assert_eq!(row.get_long(8).unwrap(), 904_700_000 + n as i64);
    }
}

#[test]
fn one_record_with_no_selected_and_five_unselected_witnesses() {
    let unselected = (1..=5).map(|n| witness(n, "7")).collect();
    let records = vec![record(1, vec![], unselected)];
    let converter = convert(&records).unwrap();
    assert_eq!(converter.beacons().rows(), 0);
    assert_eq!(converter.witnesses().rows(), 0);
    let beacons = read_back(serialize(converter.beacons(), Output::Beacon).unwrap());
    assert_eq!(beacons.metadata().file_metadata().num_rows(), 0);
    assert_eq!(beacons.get_row_iter(None).unwrap().count(), 0);
    let witnesses = read_back(serialize(converter.witnesses(), Output::Witness).unwrap());
    assert_eq!(witnesses.metadata().file_metadata().num_rows(), 0);
    assert_eq!(witnesses.get_row_iter(None).unwrap().count(), 0);
}

#[test]
fn records_keep_their_order_in_both_outputs() {
    let records = vec![
        record(1, vec![witness(1, "1")], vec![witness(2, "2")]),
        record(2, vec![], vec![witness(3, "3")]),
        record(3, vec![witness(4, "4"), witness(5, "5")], vec![]),
    ];
    let converter = convert(&records).unwrap();
    assert_eq!(converter.beacons().rows(), 2);
    assert_eq!(converter.witnesses().rows(), 4);
    assert_eq!(
        converter.beacons().column(0),
        Some(&Column::Bytes(vec![vec![0xee, 1], vec![0xee, 3]]))
    );
    assert_eq!(
        converter.witnesses().column(1),
        Some(&Column::Bytes(vec![vec![0xa0, 1], vec![0xa0, 2], vec![0xa0, 4], vec![0xa0, 5]]))
    );
    assert_eq!(
        converter.witnesses().column(9),
        Some(&Column::Bool(vec![true, false, true, true]))
    );
}

#[test]
fn converting_twice_gives_the_same_files() {
    let make = || {
        vec![
            record(1, vec![witness(1, "1")], vec![witness(2, "x")]),
            record(2, vec![witness(3, "3")], vec![]),
        ]
    };
    let first = convert(&make()).unwrap();
    let second = convert(&make()).unwrap();
    assert_eq!(first, second);
    assert_eq!(first.beacons().rows(), second.beacons().rows());
    assert_eq!(
        serialize(first.beacons(), Output::Beacon).unwrap(),
        serialize(second.beacons(), Output::Beacon).unwrap()
    );
    assert_eq!(
        serialize(first.witnesses(), Output::Witness).unwrap(),
        serialize(second.witnesses(), Output::Witness).unwrap()
    );
}

#[test]
fn serialize_refuses_a_batch_of_another_schema() {
    let converter = convert(&vec![record(1, vec![witness(1, "1")], vec![])]).unwrap();
    assert_eq!(
        serialize(converter.beacons(), Output::Witness),
        Err(ErrorKind::SchemaWrite)
    );
    assert_eq!(
        serialize(converter.witnesses(), Output::Beacon),
        Err(ErrorKind::SchemaWrite)
    );
    let other = ColumnBatch::new(&vec![ColumnKind::Bool]);
    assert_eq!(serialize(&other, Output::Beacon), Err(ErrorKind::SchemaWrite));
}

#[test]
fn serialize_writes_each_column_in_its_own_type() {
    let converter = convert(&vec![record(1, vec![witness(1, "1")], vec![])]).unwrap();
    let bytes = serialize(converter.witnesses(), Output::Witness).unwrap();
    assert_eq!(&bytes[0..4], b"PAR1");
    assert_eq!(&bytes[bytes.len() - 4..], b"PAR1");
    let reader = read_back(bytes);
    let schema = reader.metadata().file_metadata().schema_descr();
    let kinds: Vec<String> =
        (0..schema.num_columns()).map(|i| schema.column(i).physical_type().to_string()).collect();
    assert_eq!(
        kinds,
        vec![
            "BYTE_ARRAY", "BYTE_ARRAY", "INT64", "INT64", "INT64", "INT32", "INT32", "INT32",
            "INT64", "BOOLEAN"
        ]
    );
}

#[test]
fn schema_kinds_follow_the_declared_order() {
    assert_eq!(
        Output::Beacon.kinds(),
        vec![
            ColumnKind::Bytes,
            ColumnKind::Int64,
            ColumnKind::Int64,
            ColumnKind::Bytes,
            ColumnKind::Int64,
            ColumnKind::Int32,
            ColumnKind::Int32,
            ColumnKind::Int64,
            ColumnKind::Int32,
        ]
    );
    assert_eq!(Output::Witness.kinds().len(), 10);
    assert_eq!(Output::Witness.kinds()[9], ColumnKind::Bool);
    assert_eq!(Output::Beacon.folder(), "valid_beacon");
    assert_eq!(Output::Witness.folder(), "valid_witness");
    assert_eq!(Output::Beacon.stem(), "valid_beacons");
    assert_eq!(Output::Witness.stem(), "valid_witnesses");
    assert!(Output::Beacon.message_type().contains("REQUIRED INT64 beacon_location;"));
    assert!(Output::Witness.message_type().contains("required boolean selected;"));
}

#[test]
fn agrees_compares_kinds_in_order() {
    let batch = ColumnBatch::new(&vec![ColumnKind::Int64, ColumnKind::Bytes]);
    assert!(agrees(&vec![Some(ColumnKind::Int64), Some(ColumnKind::Bytes)], &batch));
    assert!(!agrees(&vec![Some(ColumnKind::Bytes), Some(ColumnKind::Int64)], &batch));
    assert!(!agrees(&vec![Some(ColumnKind::Int64)], &batch));
    assert!(!agrees(&vec![Some(ColumnKind::Int64), None], &batch));
    assert!(!agrees(
        &vec![Some(ColumnKind::Int64), Some(ColumnKind::Bytes), Some(ColumnKind::Bool)],
        &batch
    ));
}

#[test]
fn a_message_that_was_not_decoded_fails_the_whole_file() {
    let messages = vec![
        Some(record(1, vec![witness(1, "1")], vec![])),
        None,
        Some(record(3, vec![witness(3, "3")], vec![])),
    ];
    assert_eq!(convert_decoded(&messages).err(), Some(ErrorKind::Decode));
    assert_eq!(convert_decoded(&vec![None]).err(), Some(ErrorKind::Decode));
}

#[test]
fn the_first_fault_of_a_file_is_its_error() {
    let mut bad = record(1, vec![witness(1, "1")], vec![]);
    bad.beacon_report = Some(beacon("x"));
    assert_eq!(
        convert_decoded(&vec![Some(bad), None]).err(),
        Some(ErrorKind::LocationParse)
    );
    let mut bad = record(1, vec![witness(1, "1")], vec![]);
    bad.beacon_report = Some(beacon("x"));
    assert_eq!(convert_decoded(&vec![None, Some(bad)]).err(), Some(ErrorKind::Decode));
}

#[test]
fn decoded_messages_convert_as_their_records_do() {
    let make = || {
        vec![
            record(1, vec![witness(1, "1")], vec![witness(2, "x")]),
            record(2, vec![], vec![witness(3, "3")]),
        ]
    };
    let messages: Vec<Option<PocRecord>> = make().into_iter().map(Some).collect();
    assert_eq!(convert_decoded(&messages).unwrap(), convert(&make()).unwrap());
    assert_eq!(convert_decoded(&vec![]).unwrap(), FileConverter::new());
}
