use komodo_snapshot::snapshot::amount_string;
use komodo_snapshot::snapshot::apply_export_outcome;
use komodo_snapshot::snapshot::csv_rows;
use komodo_snapshot::Address;
use komodo_snapshot::ErrorKind;
use komodo_snapshot::Snapshot;
use komodo_snapshot::SnapshotError;

fn sample_snapshot() -> Snapshot {
    Snapshot::builder()
        .using_threshold(2)
        .take(
            vec![
                Address {
                    addr: "RFirst".to_owned(),
                    amount: 30,
                },
                Address {
                    addr: "RSecond".to_owned(),
                    amount: 1,
                },
                Address {
                    addr: "RThird".to_owned(),
                    amount: 2,
                },
            ],
            33,
        )
        .unwrap()
}

#[test]
fn amount_strings_are_exact_decimal_digits() {
    assert_eq!(amount_string(0), "0");
    assert_eq!(amount_string(7), "7");
    assert_eq!(amount_string(10), "10");
    assert_eq!(amount_string(1234567890), "1234567890");
    assert_eq!(amount_string(u64::MAX), "18446744073709551615");
}

#[test]
fn rows_start_with_the_header_then_follow_snapshot_order() {
    let s = sample_snapshot();
    let rows = csv_rows(&s);
    assert_eq!(rows.len(), s.addresses.len() + 1);
    assert_eq!(rows[0], ("address".to_owned(), "amount".to_owned()));
    for (i, a) in s.addresses.iter().enumerate() {
        assert_eq!(rows[i + 1].0, a.addr);
        assert_eq!(rows[i + 1].1, amount_string(a.amount));
    }
}

#[test]
fn exported_rows_read_back_in_snapshot_order() {
    let s = sample_snapshot();
    let path = "/tmp/komodo_snapshot_roundtrip.csv";
    let mut writer = csv::Writer::from_path(path).unwrap();
    for row in csv_rows(&s) {
        writer.write_record([row.0.as_str(), row.1.as_str()]).unwrap();
    }
    writer.flush().unwrap();

    let mut reader = csv::ReaderBuilder::new()
        .has_headers(false)
        .from_path(path)
        .unwrap();
    let mut rows: Vec<(String, String)> = Vec::new();
    for record in reader.records() {
        let record = record.unwrap();
        rows.push((record[0].to_owned(), record[1].to_owned()));
    }
    assert_eq!(rows[0], ("address".to_owned(), "amount".to_owned()));
    assert_eq!(rows.len(), s.addresses.len() + 1);
    for (i, a) in s.addresses.iter().enumerate() {
        assert_eq!(rows[i + 1].0, a.addr);
        assert_eq!(rows[i + 1].1, amount_string(a.amount));
    }
}

#[test]
fn unwritable_export_path_fails_the_whole_finalization() {
    // Filtering itself succeeds; only the sink fails.
    let s = sample_snapshot();
    let sink = csv::Writer::from_path("/this_directory_does_not_exist_here/out.csv");
    let outcome: Result<(), String> = match sink {
        Ok(_) => panic!("the path must not be writable"),
        Err(e) => Err(format!("{}", e)),
    };
    let r = apply_export_outcome(s, outcome);
    match r {
        Ok(_) => panic!("a failed export must not return a snapshot"),
        Err(e) => assert!(matches!(e.kind, ErrorKind::CsvError(_))),
    }
}

#[test]
fn successful_export_outcome_returns_the_snapshot() {
    let s = sample_snapshot();
    let total = s.amount_in_snapshot;
    let r = apply_export_outcome(s, Ok(()));
    let s = r.unwrap();
    assert_eq!(s.amount_in_snapshot, total);
    assert_eq!(s.chain, "KMD");
}

#[test]
fn error_kinds_have_their_fixed_messages() {
    assert_eq!(
        ErrorKind::EmptySnapshot.message(),
        "The snapshot returned no addresses."
    );
    assert_eq!(
        ErrorKind::ApiError("connection refused".to_owned()).message(),
        "Something went wrong during the Komodod RPC."
    );
    assert_eq!(
        ErrorKind::CsvError("permission denied".to_owned()).message(),
        "Something went wrong writing to CSV."
    );
    let e = SnapshotError::from(ErrorKind::EmptySnapshot);
    assert!(matches!(e.kind, ErrorKind::EmptySnapshot));
    assert_eq!(e.message(), "The snapshot returned no addresses.");
}
