use fragarach::record::{Field, FieldValue, Record};
use fragarach::sink::{
    bind, insert_on_conflict, insert_or_replace, primary_key, save_records, save_to_postgres,
    batch_failed, every_backend_lost, save_to_sqlite, update_where, BatchWrite, FanOut, SinkError,
    Statement, WriteOutcome, WriteReport,
};

fn account() -> Record {
    Record {
        fields: vec![
            Field { name: "address".to_string(), value: FieldValue::Text("0xAB\"c".to_string()) },
            Field { name: "created_timestamp".to_string(), value: FieldValue::Number("1438269988".to_string()) },
            Field { name: "creator_address".to_string(), value: FieldValue::Absent },
            Field { name: "is_contract".to_string(), value: FieldValue::Bool(true) },
            Field { name: "labels".to_string(), value: FieldValue::Nested("[\"a\"]".to_string()) },
        ],
    }
}

fn statement(i: usize) -> Statement {
    Statement { sql: format!("S{}", i), params: vec![Some(format!("p{}", i))] }
}

fn some(values: &[&str]) -> Vec<Option<String>> {
    values.iter().map(|v| Some(v.to_string())).collect()
}

#[test]
fn every_kind_of_value_is_bound_with_its_value() {
    assert_eq!(bind(&FieldValue::Text("a\"b\n".to_string())), Some("a\"b\n".to_string()));
    assert_eq!(bind(&FieldValue::Text(String::new())), Some(String::new()));
    assert_eq!(bind(&FieldValue::Number("12.5".to_string())), Some("12.5".to_string()));
    assert_eq!(bind(&FieldValue::Number("17".to_string())), Some("17".to_string()));
    assert_eq!(bind(&FieldValue::Bool(true)), Some("true".to_string()));
    assert_eq!(bind(&FieldValue::Bool(false)), Some("false".to_string()));
    assert_eq!(bind(&FieldValue::Nested("[1]".to_string())), Some("[1]".to_string()));
}

#[test]
fn absent_value_is_bound_as_null() {
    assert_eq!(bind(&FieldValue::Absent), None);
}

#[test]
fn insert_or_replace_names_columns_and_markers_in_field_order() {
    let s = insert_or_replace("ethereum_accounts", &account());
    assert_eq!(
        s.sql,
        "INSERT OR REPLACE INTO ethereum_accounts (address, created_timestamp, creator_address, is_contract, labels) VALUES ($1, $2, $3, $4, $5)"
    );
    assert_eq!(
        s.params,
        vec![
            Some("0xAB\"c".to_string()),
            Some("1438269988".to_string()),
            None,
            Some("true".to_string()),
            Some("[\"a\"]".to_string()),
        ]
    );
}

#[test]
fn insert_or_replace_of_an_empty_record_has_no_columns() {
    let s = insert_or_replace("t", &Record { fields: vec![] });
    assert_eq!(s.sql, "INSERT OR REPLACE INTO t () VALUES ()");
    assert_eq!(s.params, Vec::<Option<String>>::new());
}

#[test]
fn markers_count_past_nine() {
    let fields = (0..12)
        .map(|i| Field { name: format!("c{}", i), value: FieldValue::Text(format!("v{}", i)) })
        .collect();
    let s = insert_or_replace("t", &Record { fields });
    assert!(s.sql.ends_with("VALUES ($1, $2, $3, $4, $5, $6, $7, $8, $9, $10, $11, $12)"));
    assert_eq!(s.params.len(), 12);
    assert_eq!(s.params[11], Some("v11".to_string()));
}

#[test]
fn insert_on_conflict_overwrites_every_column() {
    let record = Record {
        fields: vec![
            Field::text("transaction_hash", "0xh".to_string()),
            Field { name: "value".to_string(), value: FieldValue::Number("5".to_string()) },
        ],
    };
    let s = insert_on_conflict("ethereum_transactions", "transaction_hash", &record);
    assert_eq!(
        s.sql,
        "INSERT INTO ethereum_transactions (transaction_hash, value) VALUES ($1, $2) ON CONFLICT (transaction_hash) DO UPDATE SET transaction_hash = $1, value = $2"
    );
    assert_eq!(s.params, some(&["0xh", "5"]));
}

#[test]
fn update_where_binds_the_key_last() {
    let record = Record {
        fields: vec![
            Field::text("asn", "AS1".to_string()),
            Field { name: "ip".to_string(), value: FieldValue::Absent },
        ],
    };
    let s = update_where("urlscan_domain_data", "uuid", "u-1", &record);
    assert_eq!(s.sql, "UPDATE urlscan_domain_data SET asn = $1, ip = $2 WHERE uuid = $3");
    assert_eq!(s.params, vec![Some("AS1".to_string()), None, Some("u-1".to_string())]);
}

#[test]
fn primary_key_is_the_address_for_accounts_only() {
    assert_eq!(primary_key("ethereum_accounts"), "address");
    assert_eq!(primary_key("ethereum_transactions"), "transaction_hash");
    assert_eq!(primary_key("anything"), "transaction_hash");
}

#[test]
fn primary_key_of_the_scan_tables_is_the_scan_identifier() {
    assert_eq!(primary_key("urlscan_domain_data"), "uuid");
    assert_eq!(primary_key("urlscan_dom_snapshot"), "uuid");
}

#[test]
fn save_records_gives_one_statement_for_each_record() {
    let data = vec![account(), Record { fields: vec![Field::text("address", "0x2".to_string())] }];
    let statements = save_records(&data, "ethereum_accounts");
    assert_eq!(statements.len(), 2);
    assert_eq!(statements[0], insert_or_replace("ethereum_accounts", &data[0]));
    assert_eq!(statements[1].sql, "INSERT OR REPLACE INTO ethereum_accounts (address) VALUES ($1)");
    assert_eq!(statements[1].params, some(&["0x2"]));
    assert_eq!(save_records(&Vec::new(), "t"), Vec::new());
}

#[test]
fn save_to_sqlite_binds_every_field_with_its_value() {
    let data = vec![account()];
    let statements = save_to_sqlite(&data, "ethereum_accounts");
    assert_eq!(statements.len(), 1);
    assert!(statements[0].sql.starts_with("INSERT OR REPLACE INTO ethereum_accounts (address, "));
    assert_eq!(
        statements[0].params,
        vec![
            Some("0xAB\"c".to_string()),
            Some("1438269988".to_string()),
            None,
            Some("true".to_string()),
            Some("[\"a\"]".to_string()),
        ]
    );
}

#[test]
fn save_to_postgres_keys_by_the_table() {
    let accounts = save_to_postgres(&vec![account()], "ethereum_accounts");
    assert!(accounts[0].sql.contains(") ON CONFLICT (address) DO UPDATE SET address = $1, "));
    let transactions = save_to_postgres(
        &vec![Record { fields: vec![Field::text("transaction_hash", "0xh".to_string())] }],
        "ethereum_transactions",
    );
    assert_eq!(
        transactions[0].sql,
        "INSERT INTO ethereum_transactions (transaction_hash) VALUES ($1) ON CONFLICT (transaction_hash) DO UPDATE SET transaction_hash = $1"
    );
    assert_eq!(transactions[0].params, some(&["0xh"]));
}

#[test]
fn save_to_postgres_keys_the_scan_tables_by_uuid() {
    let row = Record {
        fields: vec![Field::text("uuid", "u-1".to_string()), Field::text("domain", "a.b".to_string())],
    };
    let scans = save_to_postgres(&vec![row], "urlscan_domain_data");
    assert_eq!(
        scans[0].sql,
        "INSERT INTO urlscan_domain_data (uuid, domain) VALUES ($1, $2) ON CONFLICT (uuid) DO UPDATE SET uuid = $1, domain = $2"
    );
    let snapshot = Record {
        fields: vec![Field::text("uuid", "u-1".to_string()), Field::text("dom", "<p>".to_string())],
    };
    let snapshots = save_to_postgres(&vec![snapshot], "urlscan_dom_snapshot");
    assert!(snapshots[0].sql.contains(") ON CONFLICT (uuid) DO UPDATE SET uuid = $1, dom = $2"));
}

#[test]
fn save_to_postgres_binds_numbers_and_booleans_with_their_values() {
    let record = Record {
        fields: vec![
            Field::text("transaction_hash", "0x1".to_string()),
            Field { name: "block_number".to_string(), value: FieldValue::Number("17".to_string()) },
            Field::text("from_address", "0xa".to_string()),
            Field { name: "failed".to_string(), value: FieldValue::Bool(false) },
            Field { name: "contract_address".to_string(), value: FieldValue::Absent },
        ],
    };
    let statements = save_to_postgres(&vec![record], "ethereum_transactions");
    assert_eq!(
        statements[0].params,
        vec![
            Some("0x1".to_string()),
            Some("17".to_string()),
            Some("0xa".to_string()),
            Some("false".to_string()),
            None,
        ]
    );
}

#[test]
fn batch_write_goes_through_its_statements_in_order() {
    let mut w = BatchWrite::new(vec![statement(0), statement(1)]);
    assert_eq!(w.pending(), Some(&statement(0)));
    w.record_outcome(WriteOutcome::Written);
    assert_eq!(w.pending(), Some(&statement(1)));
    w.record_outcome(WriteOutcome::Written);
    assert_eq!(w.pending(), None);
    w.record_outcome(WriteOutcome::Failed(SinkError::ConnectionLost));
    assert_eq!(w.report(), Ok(WriteReport { written: 2, skipped: vec![] }));
}

#[test]
fn schema_mismatch_skips_the_record_and_goes_on() {
    let mut w = BatchWrite::new(vec![statement(0), statement(1), statement(2)]);
    w.record_outcome(WriteOutcome::Written);
    w.record_outcome(WriteOutcome::Failed(SinkError::SchemaMismatch));
    assert_eq!(w.pending(), Some(&statement(2)));
    w.record_outcome(WriteOutcome::Written);
    assert_eq!(w.report(), Ok(WriteReport { written: 2, skipped: vec![1] }));
}

#[test]
fn lost_connection_stops_the_batch() {
    let mut w = BatchWrite::new(vec![statement(0), statement(1), statement(2)]);
    w.record_outcome(WriteOutcome::Written);
    w.record_outcome(WriteOutcome::Failed(SinkError::ConnectionLost));
    assert_eq!(w.pending(), None);
    w.record_outcome(WriteOutcome::Written);
    assert_eq!(w.pending(), None);
    assert_eq!(w.report(), Err(SinkError::ConnectionLost));
}

#[test]
fn empty_batch_is_written_at_once() {
    let w = BatchWrite::new(Vec::new());
    assert_eq!(w.pending(), None);
    assert_eq!(w.report(), Ok(WriteReport { written: 0, skipped: vec![] }));
}

#[test]
fn offline_backend_does_not_stop_the_live_one() {
    let plan = vec![statement(0), statement(1)];
    let mut fan = FanOut::new(vec![BatchWrite::new(plan.clone()), BatchWrite::new(plan.clone())]);
    assert_eq!(fan.backends(), 2);
    assert_eq!(fan.next_backend(), Some(0));
    fan.record_outcome(0, WriteOutcome::Failed(SinkError::ConnectionLost));
    assert_eq!(fan.pending(0), None);
    assert_eq!(fan.pending(1), Some(&statement(0)));
    let mut executed = Vec::new();
    while let Some(backend) = fan.next_backend() {
        executed.push((backend, fan.pending(backend).unwrap().sql.clone()));
        fan.record_outcome(backend, WriteOutcome::Written);
    }
    assert_eq!(executed, vec![(1, "S0".to_string()), (1, "S1".to_string())]);
    assert_eq!(
        fan.reports(),
        vec![Err(SinkError::ConnectionLost), Ok(WriteReport { written: 2, skipped: vec![] })]
    );
}

#[test]
fn outcome_for_an_unknown_backend_changes_nothing() {
    let mut fan = FanOut::new(vec![BatchWrite::new(vec![statement(0)])]);
    fan.record_outcome(3, WriteOutcome::Failed(SinkError::ConnectionLost));
    assert_eq!(fan.pending(3), None);
    assert_eq!(fan.pending(0), Some(&statement(0)));
    assert_eq!(fan.next_backend(), Some(0));
    fan.record_outcome(0, WriteOutcome::Failed(SinkError::SchemaMismatch));
    assert_eq!(fan.next_backend(), None);
    assert_eq!(fan.reports(), vec![Ok(WriteReport { written: 0, skipped: vec![0] })]);
}

#[test]
fn fan_out_without_backends_has_nothing_to_do() {
    let fan = FanOut::new(Vec::new());
    assert_eq!(fan.backends(), 0);
    assert_eq!(fan.next_backend(), None);
    assert_eq!(fan.reports(), Vec::new());
}

#[test]
fn batch_is_failed_when_any_store_was_lost() {
    let ok = Ok(WriteReport { written: 1, skipped: vec![0] });
    assert!(!batch_failed(&vec![]));
    assert!(!batch_failed(&vec![ok.clone(), ok.clone()]));
    assert!(batch_failed(&vec![ok.clone(), Err(SinkError::ConnectionLost)]));
    assert!(batch_failed(&vec![Err(SinkError::ConnectionLost)]));
}

#[test]
fn write_reached_no_store_only_when_every_store_was_lost() {
    let ok = Ok(WriteReport { written: 0, skipped: vec![] });
    let lost = Err(SinkError::ConnectionLost);
    assert!(!every_backend_lost(&vec![]));
    assert!(!every_backend_lost(&vec![ok.clone()]));
    assert!(!every_backend_lost(&vec![lost.clone(), ok.clone()]));
    assert!(every_backend_lost(&vec![lost.clone()]));
    assert!(every_backend_lost(&vec![lost.clone(), lost.clone()]));
}
