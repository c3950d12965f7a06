use fragarach::config::Config;
use fragarach::http::Download;
use fragarach::record::{Field, FieldValue, Record};
use fragarach::scan::reading::{page_metadata_from, verdict_from};
use fragarach::scan::session::ScanSession;
use fragarach::scan::{
    scan_domain, PollPolicy, ScanAction, ScanError, ScanPhase, ScanStatus, Submission,
    DEFAULT_BACKOFF_MS, DEFAULT_CEILING_MS, SCAN_KEY_HEADER, SUBMIT_URL,
};

const ACCEPTED: &str = r#"{"message":"Submission successful","uuid":"0e37e828-a9d9-45c0-ac50-1ca579b86c72","result":"https://urlscan.io/result/0e37e828/","api":"https://urlscan.io/api/v1/result/0e37e828/","visibility":"private","options":{"useragent":"Mozilla/5.0"},"url":"https://example.com","country":"de"}"#;

const RESULT: &str = r#"{"page":{"asn":"AS15133","ip":"93.184.216.34","title":"Example Domain","country":"US"},"verdicts":{"urlscan":{"score":0,"brands":[{"key":"acme","name":"Acme"}]},"overall":{"score":5}}}"#;

fn policy() -> PollPolicy {
    PollPolicy { backoff_ms: DEFAULT_BACKOFF_MS, ceiling_ms: DEFAULT_CEILING_MS }
}

fn session() -> ScanSession {
    ScanSession::submit("example.com", 200, ACCEPTED, 1_700_000_000, policy()).unwrap()
}

fn answer(status: u16, body: &str) -> Download<String> {
    Download::Received { status, body: body.to_string() }
}

fn text_field(name: &str, value: &str) -> Field {
    Field { name: name.to_string(), value: FieldValue::Text(value.to_string()) }
}

#[test]
fn scan_request_carries_the_target_with_private_visibility() {
    let config = Config::new(None, Some("scan-key".to_string()));
    let r = scan_domain(&config, "exa\"mple.com").unwrap();
    assert_eq!(r.url, SUBMIT_URL);
    assert_eq!(r.url, "https://urlscan.io/api/v1/scan/");
    assert_eq!(r.key_header, SCAN_KEY_HEADER);
    assert_eq!(r.key_header, "API-Key");
    assert_eq!(r.api_key, "scan-key");
    assert_eq!(r.body, r#"{"url":"exa\"mple.com","visibility":"private"}"#);
}

#[test]
fn scan_without_a_usable_key_is_unauthenticated() {
    assert_eq!(
        scan_domain(&Config::new(Some("query".to_string()), None), "example.com"),
        Err(ScanError::Unauthenticated)
    );
    assert_eq!(
        scan_domain(&Config::new(None, Some("bad\r\nkey".to_string())), "example.com"),
        Err(ScanError::Unauthenticated)
    );
}

#[test]
fn accepted_submission_opens_a_pending_session() {
    let s = session();
    assert_eq!(s.phase(), ScanPhase::Submitted);
    assert_eq!(s.elapsed_ms(), 0);
    assert_eq!(s.failure(), None);
    assert_eq!(s.next_action(), ScanAction::Poll { after_ms: 0 });
    assert_eq!(s.handle().id, "0e37e828-a9d9-45c0-ac50-1ca579b86c72");
    assert_eq!(s.handle().submitted_at, 1_700_000_000);
    assert_eq!(s.submission().useragent, Some("Mozilla/5.0".to_string()));
    assert_eq!(s.submission().country, Some("de".to_string()));
    let r = s.result();
    assert_eq!(r.status, ScanStatus::Pending);
    assert_eq!(r.page_metadata, None);
    assert_eq!(r.verdict, None);
    assert_eq!(r.screenshot_bytes, None);
    assert_eq!(r.dom_text, None);
}

#[test]
fn refused_submission_fails_with_the_status() {
    assert_eq!(
        ScanSession::submit("example.com", 429, ACCEPTED, 0, policy()).err(),
        Some(ScanError::Rejected { status: 429 })
    );
    assert_eq!(
        ScanSession::submit("example.com", 400, "", 0, policy()).err(),
        Some(ScanError::Rejected { status: 400 })
    );
}

#[test]
fn unreadable_submission_answer_is_malformed() {
    for body in [
        "",
        "<html>",
        "[]",
        r#"{"uuid":"u","result":"r","api":"a"}"#,
        r#"{"uuid":1,"result":"r","api":"a","visibility":"private"}"#,
        r#"{"uuid":"u","result":"r","api":"a","visibility":"private","country":7}"#,
        r#"{"uuid":"u","result":"r","api":"a","visibility":"private","options":"none"}"#,
        r#"{"uuid":"u","result":"r","api":"a","visibility":"private","options":{"useragent":1}}"#,
    ] {
        assert_eq!(
            ScanSession::submit("example.com", 200, body, 0, policy()).err(),
            Some(ScanError::Malformed)
        );
    }
}

#[test]
fn submission_without_optional_members_is_read() {
    let d: serde_json::Value = serde_json::from_str(
        r#"{"uuid":"u","result":"r","api":"a","visibility":"private","options":null,"extra":[1]}"#,
    )
    .unwrap();
    assert_eq!(
        Submission::from_document(&d),
        Some(Submission {
            uuid: "u".to_string(),
            result_url: "r".to_string(),
            api_url: "a".to_string(),
            visibility: "private".to_string(),
            useragent: None,
            country: None,
        })
    );
    let e: serde_json::Value = serde_json::from_str(
        r#"{"uuid":"u","result":"r","api":"a","visibility":"public","options":{},"country":null}"#,
    )
    .unwrap();
    assert_eq!(Submission::from_document(&e).unwrap().useragent, None);
    let s = ScanSession::submit_document("t", 201, Some(e), 5, policy()).unwrap();
    assert_eq!(s.submission().visibility, "public");
    assert_eq!(ScanSession::submit_document("t", 200, None, 5, policy()).err(), Some(ScanError::Malformed));
}

#[test]
fn two_polls_without_result_then_one_with_it_collect_the_scan() {
    let mut s = session();
    assert_eq!(s.phase(), ScanPhase::Submitted);
    assert_eq!(s.on_poll(answer(404, "")), ScanAction::Poll { after_ms: 5_000 });
    assert_eq!(s.phase(), ScanPhase::Polling);
    assert_eq!(s.elapsed_ms(), 5_000);
    assert_eq!(s.on_poll(answer(404, r#"{"message":"Scan is not finished yet"}"#)), ScanAction::Poll { after_ms: 5_000 });
    assert_eq!(s.phase(), ScanPhase::Polling);
    assert_eq!(s.on_poll(answer(200, RESULT)), ScanAction::Enrich);
    assert_eq!(s.phase(), ScanPhase::Collected);
    assert_eq!(s.elapsed_ms(), 2 * 5_000);
    assert_eq!(s.result().status, ScanStatus::Ready);
    assert_eq!(s.failure(), None);
}

#[test]
fn collected_result_holds_page_metadata_and_verdict() {
    let mut s = session();
    s.on_poll(answer(200, RESULT));
    let r = s.result();
    assert_eq!(
        r.page_metadata,
        Some(Record {
            fields: vec![
                text_field("asn", "AS15133"),
                text_field("ip", "93.184.216.34"),
                text_field("title", "Example Domain"),
            ]
        })
    );
    assert_eq!(
        r.verdict,
        Some(Record {
            fields: vec![
                text_field("verdict_score", "0"),
                text_field("verdict_brands", r#"[{"key":"acme","name":"Acme"}]"#),
            ]
        })
    );
}

#[test]
fn result_without_page_or_verdicts_falls_back() {
    let d: serde_json::Value = serde_json::from_str(r#"{"page":"none","verdicts":{"urlscan":[]}}"#).unwrap();
    assert_eq!(
        page_metadata_from(&d).fields,
        vec![text_field("asn", "N/A"), text_field("ip", "N/A"), text_field("title", "N/A")]
    );
    assert_eq!(
        verdict_from(&d).fields,
        vec![text_field("verdict_score", "N/A"), text_field("verdict_brands", "[]")]
    );
    let e: serde_json::Value =
        serde_json::from_str(r#"{"page":{"asn":15133,"title":"T"},"verdicts":{"urlscan":{"score":"high"}}}"#)
            .unwrap();
    assert_eq!(
        page_metadata_from(&e).fields,
        vec![text_field("asn", "N/A"), text_field("ip", "N/A"), text_field("title", "T")]
    );
    assert_eq!(
        verdict_from(&e).fields,
        vec![text_field("verdict_score", "\"high\""), text_field("verdict_brands", "[]")]
    );
}

#[test]
fn only_not_found_times_out_and_never_fails() {
    let mut s = session();
    let mut polls = 0;
    while s.next_action() != ScanAction::Stop {
        assert!(s.phase() == ScanPhase::Submitted || s.phase() == ScanPhase::Polling);
        s.on_poll(answer(404, ""));
        assert_ne!(s.phase(), ScanPhase::Failed);
        polls += 1;
        assert!(polls <= 100);
    }
    assert_eq!(s.phase(), ScanPhase::TimedOut);
    assert_eq!(s.result().status, ScanStatus::TimedOut);
    assert_eq!(s.failure(), None);
    assert_eq!(polls, 25);
    assert_eq!(s.elapsed_ms(), 125_000);
}

#[test]
fn elapsed_time_at_the_ceiling_has_not_exceeded_it() {
    let mut s = ScanSession::submit("t", 200, ACCEPTED, 0, PollPolicy { backoff_ms: 10, ceiling_ms: 20 })
        .unwrap();
    s.on_poll(answer(404, ""));
    s.on_poll(answer(404, ""));
    assert_eq!(s.elapsed_ms(), 20);
    assert_eq!(s.phase(), ScanPhase::Polling);
    s.on_poll(answer(404, ""));
    assert_eq!(s.elapsed_ms(), 30);
    assert_eq!(s.phase(), ScanPhase::TimedOut);
}

#[test]
fn elapsed_time_that_overflows_is_held_at_the_maximum() {
    let mut s = ScanSession::submit(
        "t",
        200,
        ACCEPTED,
        0,
        PollPolicy { backoff_ms: u64::MAX - 1, ceiling_ms: u64::MAX },
    )
    .unwrap();
    s.on_poll(answer(404, ""));
    assert_eq!(s.phase(), ScanPhase::Polling);
    s.on_poll(answer(404, ""));
    assert_eq!(s.phase(), ScanPhase::TimedOut);
    assert_eq!(s.elapsed_ms(), u64::MAX);
}

#[test]
fn unexpected_status_fails_the_session_with_that_status() {
    let mut s = session();
    s.on_poll(answer(404, ""));
    assert_eq!(s.on_poll(answer(500, "oops")), ScanAction::Stop);
    assert_eq!(s.phase(), ScanPhase::Failed);
    assert_eq!(s.failure(), Some(ScanError::Rejected { status: 500 }));
    assert_eq!(s.result().status, ScanStatus::Failed);
    assert_eq!(s.elapsed_ms(), 5_000);
}

#[test]
fn unreadable_result_and_unreachable_service_fail_the_session() {
    let mut s = session();
    s.on_poll(answer(200, "not json"));
    assert_eq!(s.failure(), Some(ScanError::Malformed));
    let mut t = session();
    assert_eq!(t.on_poll(Download::Unreachable), ScanAction::Stop);
    assert_eq!(t.failure(), Some(ScanError::Transport));
    assert_eq!(t.phase(), ScanPhase::Failed);
}

#[test]
fn no_poll_leaves_a_terminal_state() {
    let mut failed = session();
    failed.on_poll(answer(503, ""));
    let mut collected = session();
    collected.on_poll(answer(200, RESULT));
    let mut timed_out =
        ScanSession::submit("t", 200, ACCEPTED, 0, PollPolicy { backoff_ms: 1, ceiling_ms: 0 }).unwrap();
    timed_out.on_poll(answer(404, ""));
    assert_eq!(timed_out.phase(), ScanPhase::TimedOut);
    for s in [&mut failed, &mut collected, &mut timed_out] {
        let phase = s.phase();
        let elapsed = s.elapsed_ms();
        let result = s.result().clone();
        for event in [answer(200, RESULT), answer(404, ""), answer(500, ""), Download::Unreachable] {
            s.on_poll(event);
            assert_eq!(s.phase(), phase);
            assert_eq!(s.elapsed_ms(), elapsed);
            assert_eq!(s.result(), &result);
        }
    }
}

#[test]
fn failing_screenshot_leaves_the_scan_collected_without_screenshot() {
    let mut s = session();
    s.on_poll(answer(200, RESULT));
    s.record_screenshot(Download::Received { status: 404, body: vec![1, 2, 3] });
    assert_eq!(s.phase(), ScanPhase::Collected);
    assert_eq!(s.result().status, ScanStatus::Ready);
    assert_eq!(s.result().screenshot_bytes, None);
    s.record_screenshot(Download::Unreachable);
    assert_eq!(s.phase(), ScanPhase::Collected);
    assert_eq!(s.result().screenshot_bytes, None);
    assert_eq!(s.screenshot_record(), None);
    assert!(s.result().page_metadata.is_some());
}

#[test]
fn screenshot_and_snapshot_are_kept_when_they_arrive() {
    let mut s = session();
    s.on_poll(answer(200, RESULT));
    s.record_screenshot(Download::Received { status: 200, body: vec![0x89, 0x50, 0x4e, 0x47] });
    s.record_dom(answer(200, "<html></html>"));
    assert_eq!(s.phase(), ScanPhase::Collected);
    let r = s.into_result();
    assert_eq!(r.screenshot_bytes, Some(vec![0x89, 0x50, 0x4e, 0x47]));
    assert_eq!(r.dom_text, Some("<html></html>".to_string()));
    assert_eq!(r.status, ScanStatus::Ready);
    assert_eq!(r.handle.id, "0e37e828-a9d9-45c0-ac50-1ca579b86c72");
}

#[test]
fn empty_or_failed_snapshot_stays_absent() {
    let mut s = session();
    s.on_poll(answer(200, RESULT));
    s.record_dom(answer(200, ""));
    assert_eq!(s.result().dom_text, None);
    s.record_dom(answer(500, "error page"));
    assert_eq!(s.result().dom_text, None);
    s.record_dom(Download::Unreachable);
    assert_eq!(s.result().dom_text, None);
    assert_eq!(s.dom_record(), None);
    assert_eq!(s.phase(), ScanPhase::Collected);
}

#[test]
fn downloads_before_collection_are_ignored() {
    let mut s = session();
    s.record_screenshot(Download::Received { status: 200, body: vec![1] });
    s.record_dom(answer(200, "<html>"));
    assert_eq!(s.phase(), ScanPhase::Submitted);
    assert_eq!(s.result().screenshot_bytes, None);
    assert_eq!(s.result().dom_text, None);
    assert_eq!(s.enrichment_record(), None);
}

#[test]
fn handle_gives_the_addresses_of_the_scan() {
    let s = session();
    let h = s.handle();
    assert_eq!(h.result_url(), "https://urlscan.io/api/v1/result/0e37e828-a9d9-45c0-ac50-1ca579b86c72/");
    assert_eq!(h.screenshot_url(), "https://urlscan.io/screenshots/0e37e828-a9d9-45c0-ac50-1ca579b86c72.png");
    assert_eq!(h.dom_url(), "https://urlscan.io/dom/0e37e828-a9d9-45c0-ac50-1ca579b86c72/");
    assert_eq!(h.screenshot_path(), "screenshots/0e37e828-a9d9-45c0-ac50-1ca579b86c72.png");
}

#[test]
fn submission_record_holds_the_seven_columns() {
    let s = session();
    assert_eq!(
        s.submission_record().fields,
        vec![
            text_field("domain", "example.com"),
            text_field("uuid", "0e37e828-a9d9-45c0-ac50-1ca579b86c72"),
            text_field("result_url", "https://urlscan.io/result/0e37e828/"),
            text_field("api_url", "https://urlscan.io/api/v1/result/0e37e828/"),
            text_field("visibility", "private"),
            text_field("useragent", "Mozilla/5.0"),
            text_field("country", "de"),
        ]
    );
    let bare = ScanSession::submit(
        "t",
        200,
        r#"{"uuid":"u","result":"r","api":"a","visibility":"private"}"#,
        0,
        policy(),
    )
    .unwrap();
    let fields = bare.submission_record().fields;
    assert_eq!(fields[5], text_field("useragent", "N/A"));
    assert_eq!(fields[6], text_field("country", "N/A"));
}

#[test]
fn stage_records_follow_the_result() {
    let mut s = session();
    s.on_poll(answer(200, RESULT));
    let names: Vec<String> =
        s.enrichment_record().unwrap().fields.iter().map(|f| f.name.clone()).collect();
    assert_eq!(names, vec!["asn", "ip", "title", "verdict_score", "verdict_brands"]);
    s.record_screenshot(Download::Received { status: 200, body: vec![1] });
    assert_eq!(
        s.screenshot_record().unwrap().fields,
        vec![text_field("screenshot_path", "screenshots/0e37e828-a9d9-45c0-ac50-1ca579b86c72.png")]
    );
    s.record_dom(answer(200, "<p>"));
    assert_eq!(
        s.dom_record().unwrap().fields,
        vec![text_field("uuid", "0e37e828-a9d9-45c0-ac50-1ca579b86c72"), text_field("dom", "<p>")]
    );
}

#[test]
fn session_can_be_started_from_a_submission_that_was_read_elsewhere() {
    let submission = Submission {
        uuid: "u".to_string(),
        result_url: "r".to_string(),
        api_url: "a".to_string(),
        visibility: "private".to_string(),
        useragent: None,
        country: Some("fr".to_string()),
    };
    let s = ScanSession::start("example.org", submission.clone(), 9, policy());
    assert_eq!(s.phase(), ScanPhase::Submitted);
    assert_eq!(s.handle().id, "u");
    assert_eq!(s.handle().submitted_at, 9);
    assert_eq!(s.submission(), &submission);
    assert_eq!(DEFAULT_BACKOFF_MS, 5_000);
    assert_eq!(DEFAULT_CEILING_MS, 120_000);
}

#[test]
fn unreachable_service_fails_the_submission_as_transport() {
    assert_eq!(
        ScanSession::submit_download("example.com", Download::Unreachable, 0, policy()).err(),
        Some(ScanError::Transport)
    );
    let s = ScanSession::submit_download("example.com", answer(200, ACCEPTED), 3, policy()).unwrap();
    assert_eq!(s.phase(), ScanPhase::Submitted);
    assert_eq!(s.handle().submitted_at, 3);
    assert_eq!(
        ScanSession::submit_download("example.com", answer(401, ACCEPTED), 3, policy()).err(),
        Some(ScanError::Rejected { status: 401 })
    );
}
