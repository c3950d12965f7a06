use fragarach::paginator::{
    PaginationCursor, Paginator, PullStatus, DEFAULT_PAGE_SIZE, PER_RECORD_WEIGHT, SIZE_CAP,
};
use fragarach::query::QueryError;
use fragarach::record::{Field, Record};

fn page(first: usize, count: usize) -> Vec<Record> {
    (first..first + count)
        .map(|i| Record { fields: vec![Field::text("transaction_hash", format!("0x{}", i))] })
        .collect()
}

fn standard() -> Paginator {
    Paginator::new(DEFAULT_PAGE_SIZE, PER_RECORD_WEIGHT, SIZE_CAP).unwrap()
}

#[test]
fn new_pull_starts_at_offset_zero() {
    let p = standard();
    assert_eq!(
        p.next_request(),
        Some(PaginationCursor { offset: 0, limit: 100, accumulated_size_estimate: 0 })
    );
    assert_eq!(p.status(), PullStatus::Active);
    assert_eq!(p.record_count(), 0);
}

#[test]
fn settings_that_do_not_fit_give_no_paginator() {
    assert!(Paginator::new(0, 1_000, 1_000_000).is_none());
    assert!(Paginator::new(100, 0, 1_000_000).is_none());
    assert!(Paginator::new(2, 1, u64::MAX).is_none());
    assert!(Paginator::new(2, 1, u64::MAX / 2).is_none());
    assert!(Paginator::new(2, 1, u64::MAX / 2 - 1).is_some());
    assert!(Paginator::new(1, 1, u64::MAX - 1).is_some());
    assert!(Paginator::new(1, 1, 0).is_some());
}

#[test]
fn pull_stops_at_the_first_empty_page() {
    let mut p = standard();
    assert_eq!(p.accept_page(Ok(page(0, 100))), PullStatus::Active);
    assert_eq!(p.accept_page(Ok(page(100, 100))), PullStatus::Active);
    assert_eq!(p.accept_page(Ok(Vec::new())), PullStatus::Exhausted);
    assert_eq!(p.next_request(), None);
    assert_eq!(p.cursor().offset, 200);
    assert_eq!(p.accept_page(Ok(page(200, 100))), PullStatus::Exhausted);
    assert_eq!(p.record_count(), 200);
    let outcome = p.finish().unwrap();
    assert!(!outcome.truncated);
    assert_eq!(outcome.records, page(0, 200));
}

#[test]
fn first_page_empty_gives_an_empty_complete_pull() {
    let mut p = standard();
    assert_eq!(p.accept_page(Ok(Vec::new())), PullStatus::Exhausted);
    assert_eq!(p.cursor().offset, 0);
    let outcome = p.finish().unwrap();
    assert_eq!(outcome.records, Vec::new());
    assert!(!outcome.truncated);
}

#[test]
fn short_page_does_not_end_the_pull() {
    let mut p = standard();
    assert_eq!(p.accept_page(Ok(page(0, 3))), PullStatus::Active);
    assert_eq!(
        p.next_request(),
        Some(PaginationCursor { offset: 100, limit: 100, accumulated_size_estimate: 3_000 })
    );
}

#[test]
fn offset_grows_by_the_limit_on_each_page_with_records() {
    let mut p = Paginator::new(25, 1, 1_000_000).unwrap();
    let mut expected = 0;
    for (i, count) in [25usize, 1, 25, 7].iter().enumerate() {
        assert_eq!(p.cursor().offset, expected);
        p.accept_page(Ok(page(i * 25, *count)));
        expected += 25;
        assert_eq!(p.cursor().offset, expected);
        assert_eq!(p.cursor().limit, 25);
    }
    p.accept_page(Ok(Vec::new()));
    assert_eq!(p.cursor().offset, 100);
    assert_eq!(p.cursor().accumulated_size_estimate, 58);
}

#[test]
fn pull_is_cut_short_when_the_estimate_goes_over_the_cap() {
    let mut p = standard();
    for i in 0..10 {
        assert_eq!(p.accept_page(Ok(page(i * 100, 100))), PullStatus::Active);
    }
    assert_eq!(p.cursor().accumulated_size_estimate, 1_000_000);
    assert_eq!(p.accept_page(Ok(page(1_000, 100))), PullStatus::Truncated);
    assert_eq!(p.cursor().accumulated_size_estimate, 1_100_000);
    assert_eq!(p.cursor().offset, 1_100);
    assert_eq!(p.next_request(), None);
    assert_eq!(p.accept_page(Ok(page(1_100, 100))), PullStatus::Truncated);
    let outcome = p.finish().unwrap();
    assert!(outcome.truncated);
    assert_eq!(outcome.records.len(), 1_100);
    assert_eq!(outcome.records, page(0, 1_100));
}

#[test]
fn estimate_at_the_cap_is_not_over_it() {
    let mut p = Paginator::new(10, 5, 50).unwrap();
    assert_eq!(p.accept_page(Ok(page(0, 10))), PullStatus::Active);
    assert_eq!(p.accept_page(Ok(page(10, 1))), PullStatus::Truncated);
}

#[test]
fn failed_page_fails_the_pull_with_its_error() {
    let mut p = standard();
    p.accept_page(Ok(page(0, 100)));
    assert_eq!(p.accept_page(Err(QueryError::Transport)), PullStatus::Failed);
    assert_eq!(p.next_request(), None);
    assert_eq!(p.cursor().offset, 100);
    assert_eq!(p.accept_page(Ok(page(100, 100))), PullStatus::Failed);
    assert_eq!(p.finish(), Err(QueryError::Transport));
}

#[test]
fn rejected_page_is_surfaced_as_it_came() {
    let mut p = standard();
    let e = QueryError::RemoteRejected { status: 503, body: "down".to_string() };
    assert_eq!(p.accept_page(Err(e.clone())), PullStatus::Failed);
    assert_eq!(p.finish(), Err(e));
}

#[test]
fn estimate_that_overflows_is_held_at_the_maximum() {
    let mut p = Paginator::new(1, u64::MAX, u64::MAX - 1).unwrap();
    assert_eq!(p.accept_page(Ok(page(0, 2))), PullStatus::Truncated);
    assert_eq!(p.cursor().accumulated_size_estimate, u64::MAX);
}
