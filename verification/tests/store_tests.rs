use fragarach::http::Download;
use fragarach::record::{Field, FieldValue, Record};
use fragarach::scan::session::ScanSession;
use fragarach::scan::PollPolicy;
use fragarach::sink::SinkError;
use fragarach::staged::{dom_statement, enrichment_statement, screenshot_statement, submission_statement};
use fragarach::store::MemoryTable;

fn record(pairs: &[(&str, &str)]) -> Record {
    Record { fields: pairs.iter().map(|(n, v)| Field::text(n, v.to_string())).collect() }
}

fn some(values: &[&str]) -> Vec<Option<String>> {
    values.iter().map(|v| Some(v.to_string())).collect()
}

fn key(s: &str) -> FieldValue {
    FieldValue::Text(s.to_string())
}

#[test]
fn staged_upserts_compose_into_one_record() {
    let mut t = MemoryTable::new("uuid");
    assert_eq!(t.upsert(record(&[("uuid", "u1"), ("domain", "example.com")])), Ok(()));
    assert_eq!(t.upsert_stage(&record(&[("uuid", "u1"), ("asn", "AS1"), ("ip", "1.2.3.4")])), Ok(()));
    assert_eq!(t.len(), 1);
    assert_eq!(
        t.get(&key("u1")),
        Some(&record(&[("uuid", "u1"), ("domain", "example.com"), ("asn", "AS1"), ("ip", "1.2.3.4")]))
    );
}

#[test]
fn plain_upsert_replaces_the_whole_row() {
    let mut t = MemoryTable::new("address");
    t.upsert(record(&[("address", "0x1"), ("type", "wallet"), ("creator", "0x0")])).unwrap();
    t.upsert(record(&[("address", "0x2"), ("type", "contract")])).unwrap();
    t.upsert(record(&[("address", "0x1"), ("type", "contract")])).unwrap();
    assert_eq!(t.len(), 2);
    assert_eq!(t.get(&key("0x1")), Some(&record(&[("address", "0x1"), ("type", "contract")])));
    assert_eq!(t.get(&key("0x2")), Some(&record(&[("address", "0x2"), ("type", "contract")])));
    assert_eq!(t.get(&key("0x3")), None);
}

#[test]
fn upsert_is_idempotent() {
    let mut t = MemoryTable::new("address");
    let r = record(&[("address", "0x1"), ("type", "wallet")]);
    t.upsert(r.clone()).unwrap();
    t.upsert(r.clone()).unwrap();
    assert_eq!(t.len(), 1);
    assert_eq!(t.get(&key("0x1")), Some(&r));
}

#[test]
fn record_without_the_key_field_does_not_fit() {
    let mut t = MemoryTable::new("uuid");
    assert_eq!(t.upsert(record(&[("domain", "example.com")])), Err(SinkError::SchemaMismatch));
    assert_eq!(t.upsert_stage(&record(&[("asn", "AS1")])), Err(SinkError::SchemaMismatch));
    assert_eq!(t.len(), 0);
}

#[test]
fn stage_overwrites_the_columns_it_names() {
    let mut t = MemoryTable::new("uuid");
    t.upsert(record(&[("uuid", "u1"), ("title", "old"), ("ip", "1.1.1.1")])).unwrap();
    t.upsert_stage(&record(&[("uuid", "u1"), ("title", "new")])).unwrap();
    assert_eq!(t.get(&key("u1")), Some(&record(&[("uuid", "u1"), ("title", "new"), ("ip", "1.1.1.1")])));
}

#[test]
fn stage_for_a_new_key_becomes_a_row() {
    let mut t = MemoryTable::new("uuid");
    t.upsert(record(&[("uuid", "u1"), ("domain", "a")])).unwrap();
    t.upsert_stage(&record(&[("uuid", "u2"), ("dom", "<p>")])).unwrap();
    assert_eq!(t.len(), 2);
    assert_eq!(t.get(&key("u2")), Some(&record(&[("uuid", "u2"), ("dom", "<p>")])));
    assert_eq!(t.get(&key("u1")), Some(&record(&[("uuid", "u1"), ("domain", "a")])));
}

#[test]
fn keys_of_different_kind_are_different_keys() {
    let mut t = MemoryTable::new("id");
    t.upsert(Record { fields: vec![Field { name: "id".to_string(), value: FieldValue::Number("1".to_string()) }] })
        .unwrap();
    t.upsert(record(&[("id", "1")])).unwrap();
    assert_eq!(t.len(), 2);
}

#[test]
fn stages_of_a_scan_fill_one_row() {
    let accepted = r#"{"uuid":"u-9","result":"r","api":"a","visibility":"private"}"#;
    let mut s = ScanSession::submit(
        "example.com",
        200,
        accepted,
        0,
        PollPolicy { backoff_ms: 5_000, ceiling_ms: 120_000 },
    )
    .unwrap();
    let first = submission_statement(&s);
    assert_eq!(
        first.sql,
        "INSERT OR REPLACE INTO urlscan_domain_data (domain, uuid, result_url, api_url, visibility, useragent, country) VALUES ($1, $2, $3, $4, $5, $6, $7)"
    );
    assert_eq!(first.params, some(&["example.com", "u-9", "r", "a", "private", "N/A", "N/A"]));
    assert_eq!(enrichment_statement(&s), None);
    assert_eq!(screenshot_statement(&s), None);
    assert_eq!(dom_statement(&s), None);

    s.on_poll(Download::Received {
        status: 200,
        body: r#"{"page":{"asn":"AS1","ip":"1.2.3.4","title":"T"},"verdicts":{"urlscan":{"score":10,"brands":[]}}}"#
            .to_string(),
    });
    let second = enrichment_statement(&s).unwrap();
    assert_eq!(
        second.sql,
        "UPDATE urlscan_domain_data SET asn = $1, ip = $2, title = $3, verdict_score = $4, verdict_brands = $5 WHERE uuid = $6"
    );
    assert_eq!(second.params, some(&["AS1", "1.2.3.4", "T", "10", "[]", "u-9"]));

    s.record_screenshot(Download::Received { status: 200, body: vec![1, 2] });
    let third = screenshot_statement(&s).unwrap();
    assert_eq!(third.sql, "UPDATE urlscan_domain_data SET screenshot_path = $1 WHERE uuid = $2");
    assert_eq!(third.params, some(&["screenshots/u-9.png", "u-9"]));

    s.record_dom(Download::Received { status: 200, body: "<html>".to_string() });
    let fourth = dom_statement(&s).unwrap();
    assert_eq!(
        fourth.sql,
        "INSERT INTO urlscan_dom_snapshot (uuid, dom) VALUES ($1, $2) ON CONFLICT (uuid) DO UPDATE SET uuid = $1, dom = $2"
    );
    assert_eq!(fourth.params, some(&["u-9", "<html>"]));

    let mut table = MemoryTable::new("uuid");
    table.upsert(s.submission_record()).unwrap();
    let mut stage = Record { fields: vec![Field::text("uuid", "u-9".to_string())] };
    stage.extend_from(&s.enrichment_record().unwrap());
    table.upsert_stage(&stage).unwrap();
    let mut path = Record { fields: vec![Field::text("uuid", "u-9".to_string())] };
    path.extend_from(&s.screenshot_record().unwrap());
    table.upsert_stage(&path).unwrap();
    assert_eq!(table.len(), 1);
    let row = table.get(&FieldValue::Text("u-9".to_string())).unwrap();
    let names: Vec<&str> = row.fields.iter().map(|f| f.name.as_str()).collect();
    assert_eq!(
        names,
        vec![
            "domain", "uuid", "result_url", "api_url", "visibility", "useragent", "country", "asn",
            "ip", "title", "verdict_score", "verdict_brands", "screenshot_path"
        ]
    );
    assert_eq!(row.get("domain"), Some(&FieldValue::Text("example.com".to_string())));
    assert_eq!(row.get("verdict_score"), Some(&FieldValue::Text("10".to_string())));
}

#[test]
fn upserts_never_leave_two_rows_with_one_key() {
    let mut t = MemoryTable::new("uuid");
    for (id, domain) in [("u1", "a"), ("u2", "b"), ("u1", "c"), ("u3", "d"), ("u2", "e")] {
        t.upsert(record(&[("uuid", id), ("domain", domain)])).unwrap();
        t.upsert_stage(&record(&[("uuid", id), ("asn", "AS1")])).unwrap();
    }
    assert_eq!(t.len(), 3);
    assert_eq!(t.get(&key("u1")), Some(&record(&[("uuid", "u1"), ("domain", "c"), ("asn", "AS1")])));
    assert_eq!(t.get(&key("u2")), Some(&record(&[("uuid", "u2"), ("domain", "e"), ("asn", "AS1")])));
    assert_eq!(t.get(&key("u3")), Some(&record(&[("uuid", "u3"), ("domain", "d"), ("asn", "AS1")])));
}
