//! The paginator: pulls a query page by page, by offset and limit, until a
//! page comes back empty or the accumulated size estimate goes over its cap.
//!
//! Only an empty page ends a pull. A page with fewer records than the limit
//! does not: the next page is still asked for.

use crate::query::{answer_view, QueryError, QueryErrorView};
use crate::record::{batch_view, Record, RecordBatch, RecordView};
use crate::text::within_u64;
use vstd::prelude::*;

verus! {

/// The page size of a transaction pull.
pub const DEFAULT_PAGE_SIZE: u64 = 100;

/// The size that one record is counted as.
pub const PER_RECORD_WEIGHT: u64 = 1_000;

/// The estimate above which a pull is cut short.
pub const SIZE_CAP: u64 = 1_000_000;

/// Where a pull stands: the offset of the next page, the page size, and the
/// estimated size of what has been pulled so far.
#[derive(Debug, Clone, Copy, PartialEq, Eq)]
pub struct PaginationCursor {
    pub offset: u64,
    pub limit: u64,
    pub accumulated_size_estimate: u64,
}

/// How a pull is going.
#[derive(Debug, Clone, Copy, PartialEq, Eq)]
pub enum PullStatus {
    /// The next page is to be asked for.
    Active,
    /// A page came back empty: the pull is complete.
    Exhausted,
    /// The size estimate went over the cap: the pull was cut short, and what
    /// was pulled is partial. This is a signal, not an error.
    Truncated,
    /// A page could not be had.
    Failed,
}

/// A paginator as mathematics.
pub struct PaginatorView {
    pub cursor: PaginationCursor,
    pub per_record_weight: u64,
    pub size_cap: u64,
    pub status: PullStatus,
    /// How many pages have been taken in.
    pub pages: nat,
    /// The records taken in so far, in the order in which they came.
    pub records: Seq<RecordView>,
    pub failure: Option<QueryErrorView>,
}

/// Whether a pull with these settings can be run: the page size and the
/// weight are positive, and no offset that the cap lets the pull reach
/// overflows.
pub open spec fn settings_fit(limit: u64, per_record_weight: u64, size_cap: u64) -> bool {
    limit >= 1 && per_record_weight >= 1 && (size_cap + 1) * limit <= u64::MAX
}

/// The paginator at the start of a pull.
pub open spec fn fresh(limit: u64, per_record_weight: u64, size_cap: u64) -> PaginatorView {
    PaginatorView {
        cursor: PaginationCursor { offset: 0, limit, accumulated_size_estimate: 0 },
        per_record_weight,
        size_cap,
        status: PullStatus::Active,
        pages: 0,
        records: Seq::empty(),
        failure: None,
    }
}

impl PaginatorView {
    /// The invariant of a paginator.
    pub open spec fn wf(self) -> bool {
        &&& settings_fit(self.cursor.limit, self.per_record_weight, self.size_cap)
        &&& self.cursor.offset == self.pages * self.cursor.limit
        &&& self.cursor.accumulated_size_estimate == within_u64(
            self.records.len() * self.per_record_weight,
        )
        &&& self.pages <= self.records.len()
        &&& self.pages <= self.size_cap + 1
        &&& self.status is Active ==> self.records.len() * self.per_record_weight <= self.size_cap
        &&& self.failure is Some <==> self.status is Failed
    }

    /// The estimate after `count` more records.
    pub open spec fn estimate_with(self, count: nat) -> int {
        self.cursor.accumulated_size_estimate + count * self.per_record_weight
    }

    /// The paginator after one page. A pull that has ended stays as it is.
    /// An error fails the pull. An empty page completes it and leaves the
    /// cursor. Any other page is appended, the offset advances by the limit,
    /// the estimate grows by the weight of the page, and the pull is cut
    /// short if the estimate then exceeds the cap.
    pub open spec fn after_page(self, page: Result<Seq<RecordView>, QueryErrorView>) -> PaginatorView {
        if !(self.status is Active) {
            self
        } else {
            match page {
                Err(e) => PaginatorView { status: PullStatus::Failed, failure: Some(e), ..self },
                Ok(batch) => if batch.len() == 0 {
                    PaginatorView { status: PullStatus::Exhausted, ..self }
                } else {
                    PaginatorView {
                        cursor: PaginationCursor {
                            offset: within_u64(self.cursor.offset + self.cursor.limit),
                            limit: self.cursor.limit,
                            accumulated_size_estimate: within_u64(self.estimate_with(batch.len())),
                        },
                        status: if self.estimate_with(batch.len()) > self.size_cap {
                            PullStatus::Truncated
                        } else {
                            PullStatus::Active
                        },
                        pages: self.pages + 1,
                        records: self.records + batch,
                        ..self
                    }
                },
            }
        }
    }

    /// Whether `page` is taken in: the pull is active and the page arrived
    /// with at least one record.
    pub open spec fn takes_in(self, page: Result<Seq<RecordView>, QueryErrorView>) -> bool {
        self.status is Active && match page {
            Ok(batch) => batch.len() > 0,
            Err(_) => false,
        }
    }

    /// The paginator after the pages of `pages`, in order.
    pub open spec fn after_pages(self, pages: Seq<Result<Seq<RecordView>, QueryErrorView>>) -> PaginatorView
        decreases pages.len(),
    {
        if pages.len() == 0 {
            self
        } else {
            self.after_page(pages[0]).after_pages(pages.drop_first())
        }
    }

    /// The page to ask for next; `None` once the pull has ended.
    pub open spec fn next_request(self) -> Option<PaginationCursor> {
        if self.status is Active {
            Some(self.cursor)
        } else {
            None
        }
    }
}

/// What a pull brought: the records, and whether it was cut short.
#[derive(Debug, Clone, PartialEq, Eq)]
pub struct PullOutcome {
    pub records: RecordBatch,
    pub truncated: bool,
}

/// One pull of one query.
pub struct Paginator {
    cursor: PaginationCursor,
    per_record_weight: u64,
    size_cap: u64,
    status: PullStatus,
    pages: u64,
    records: Vec<Record>,
    failure: Option<QueryError>,
}

/// The view of an optional error.
pub open spec fn optional_error(e: Option<QueryError>) -> Option<QueryErrorView> {
    match e {
        Some(x) => Some(x@),
        None => None,
    }
}

impl View for Paginator {
    type V = PaginatorView;

    closed spec fn view(&self) -> PaginatorView {
        PaginatorView {
            cursor: self.cursor,
            per_record_weight: self.per_record_weight,
            size_cap: self.size_cap,
            status: self.status,
            pages: self.pages as nat,
            records: batch_view(self.records@),
            failure: optional_error(self.failure),
        }
    }
}

/// The view of an optional paginator.
pub open spec fn optional_paginator(p: Option<Paginator>) -> Option<PaginatorView> {
    match p {
        Some(x) => Some(x@),
        None => None,
    }
}

/// What a finished pull hands out, as mathematics.
pub open spec fn finished(p: PaginatorView) -> Result<(Seq<RecordView>, bool), QueryErrorView> {
    match p.failure {
        Some(e) => Err(e),
        None => Ok((p.records, p.status is Truncated)),
    }
}

/// The view of what a finished pull hands out.
pub open spec fn outcome_view(r: Result<PullOutcome, QueryError>) -> Result<
    (Seq<RecordView>, bool),
    QueryErrorView,
> {
    match r {
        Ok(o) => Ok((batch_view(o.records@), o.truncated)),
        Err(e) => Err(e@),
    }
}

impl Paginator {
    /// Starts a pull at offset 0; `None` where the settings do not fit.
    pub fn new(limit: u64, per_record_weight: u64, size_cap: u64) -> (p: Option<Paginator>)
        ensures
            optional_paginator(p) == if settings_fit(limit, per_record_weight, size_cap) {
                Some(fresh(limit, per_record_weight, size_cap))
            } else {
                None
            },
            p matches Some(x) ==> x@.wf(),
    {
        if limit == 0 || per_record_weight == 0 {
            return None;
        }
        let fits = match size_cap.checked_add(1) {
            Some(c) => c.checked_mul(limit).is_some(),
            None => false,
        };
        if !fits {
            assert(!settings_fit(limit, per_record_weight, size_cap)) by (nonlinear_arith)
                requires
                    limit >= 1,
                    size_cap + 1 > u64::MAX || (size_cap + 1) * limit > u64::MAX,
            ;
            return None;
        }
        let p = Paginator {
            cursor: PaginationCursor { offset: 0, limit, accumulated_size_estimate: 0 },
            per_record_weight,
            size_cap,
            status: PullStatus::Active,
            pages: 0,
            records: Vec::new(),
            failure: None,
        };
        assert(batch_view(p.records@) =~= Seq::<RecordView>::empty());
        assert(p@ == fresh(limit, per_record_weight, size_cap));
        assert(0 * limit == 0 && 0 * per_record_weight == 0) by (nonlinear_arith);
        assert(p@.pages == 0 && p@.records.len() == 0);
        Some(p)
    }

    /// The page to ask for next; `None` once the pull has ended.
    pub fn next_request(&self) -> (r: Option<PaginationCursor>)
        ensures
            r == self@.next_request(),
    {
        match self.status {
            PullStatus::Active => Some(self.cursor),
            _ => None,
        }
    }

    /// Where the pull stands.
    pub fn cursor(&self) -> (c: PaginationCursor)
        ensures
            c == self@.cursor,
    {
        self.cursor
    }

    /// How the pull is going.
    pub fn status(&self) -> (s: PullStatus)
        ensures
            s == self@.status,
    {
        self.status
    }

    /// How many records have been taken in.
    pub fn record_count(&self) -> (n: usize)
        ensures
            n == self@.records.len(),
    {
        self.records.len()
    }

    /// Takes in what the request for the next page brought, and says how
    /// the pull goes on.
    pub fn accept_page(&mut self, page: Result<RecordBatch, QueryError>) -> (status: PullStatus)
        requires
            old(self)@.wf(),
        ensures
            final(self)@ == old(self)@.after_page(answer_view(page)),
            final(self)@.wf(),
            status == final(self)@.status,
    {
        match self.status {
            PullStatus::Active => {},
            _ => {
                return self.status;
            },
        }
        match page {
            Err(e) => {
                self.status = PullStatus::Failed;
                self.failure = Some(e);
            },
            Ok(mut batch) => {
                let count = batch.len();
                if count == 0 {
                    self.status = PullStatus::Exhausted;
                } else {
                    let ghost before = self@;
                    let ghost came = batch_view(batch@);
                    proof {
                        lemma_page_fits(before, came.len());
                    }
                    let grown = match (count as u64).checked_mul(self.per_record_weight) {
                        Some(added) => self.cursor.accumulated_size_estimate.checked_add(added),
                        None => None,
                    };
                    self.records.append(&mut batch);
                    self.cursor.offset = self.cursor.offset + self.cursor.limit;
                    self.pages = self.pages + 1;
                    match grown {
                        Some(estimate) => {
                            self.cursor.accumulated_size_estimate = estimate;
                            if estimate > self.size_cap {
                                self.status = PullStatus::Truncated;
                            }
                        },
                        None => {
                            self.cursor.accumulated_size_estimate = u64::MAX;
                            self.status = PullStatus::Truncated;
                        },
                    }
                    assert(batch_view(self.records@) =~= before.records + came);
                    proof {
                        lemma_page_keeps_invariant(before, Ok(came));
                    }
                }
            },
        }
        self.status
    }

    /// Ends the pull: the error where a page could not be had, else the
    /// records with the truncation signal.
    pub fn finish(self) -> (r: Result<PullOutcome, QueryError>)
        ensures
            outcome_view(r) == finished(self@),
    {
        match self.failure {
            Some(e) => Err(e),
            None => {
                let truncated = match self.status {
                    PullStatus::Truncated => true,
                    _ => false,
                };
                Ok(PullOutcome { records: self.records, truncated })
            },
        }
    }
}

/// While a pull is active, the next offset and page count fit.
pub proof fn lemma_page_fits(p: PaginatorView, count: nat)
    requires
        p.wf(),
        p.status is Active,
    ensures
        p.cursor.offset + p.cursor.limit <= u64::MAX,
        p.cursor.offset + p.cursor.limit == (p.pages + 1) * p.cursor.limit,
        p.pages + 1 <= u64::MAX,
        p.pages <= p.size_cap,
        p.cursor.accumulated_size_estimate == p.records.len() * p.per_record_weight,
        (p.records.len() + count) * p.per_record_weight == p.estimate_with(count),
{
    let n = p.records.len() as int;
    let w = p.per_record_weight as int;
    let l = p.cursor.limit as int;
    let c = p.size_cap as int;
    let g = p.pages as int;
    assert(n <= n * w) by (nonlinear_arith)
        requires
            w >= 1,
            n >= 0,
    ;
    assert((g + 1) * l <= (c + 1) * l) by (nonlinear_arith)
        requires
            g <= c,
            l >= 1,
    ;
    assert((g + 1) * l == g * l + l) by (nonlinear_arith);
    assert((c + 1) * l >= c + 1) by (nonlinear_arith)
        requires
            l >= 1,
            c >= 0,
    ;
    assert((n + count) * w == n * w + count * w) by (nonlinear_arith);
}

/// Every page keeps the invariant of a paginator.
pub proof fn lemma_page_keeps_invariant(
    p: PaginatorView,
    page: Result<Seq<RecordView>, QueryErrorView>,
)
    requires
        p.wf(),
    ensures
        p.after_page(page).wf(),
{
    if p.status is Active {
        match page {
            Ok(batch) => {
                if batch.len() > 0 {
                    lemma_page_fits(p, batch.len());
                    let q = p.after_page(page);
                    assert(q.records.len() == p.records.len() + batch.len());
                }
            },
            Err(_) => {},
        }
    }
}

/// A run of pages that all arrived.
pub open spec fn ok_pages(batches: Seq<Seq<RecordView>>) -> Seq<
    Result<Seq<RecordView>, QueryErrorView>,
> {
    Seq::new(batches.len(), |i: int| Ok(batches[i]))
}

/// The records of a run of pages, in order.
pub open spec fn all_records(batches: Seq<Seq<RecordView>>) -> Seq<RecordView>
    decreases batches.len(),
{
    if batches.len() == 0 {
        Seq::empty()
    } else {
        batches[0] + all_records(batches.drop_first())
    }
}

/// Whether every page of a run holds at least one record.
pub open spec fn all_non_empty(batches: Seq<Seq<RecordView>>) -> bool {
    forall|i: int| 0 <= i < batches.len() ==> (#[trigger] batches[i]).len() > 0
}

/// Taking in two runs of pages one after the other is taking in their
/// concatenation.
pub proof fn lemma_after_pages_concat(
    p: PaginatorView,
    first: Seq<Result<Seq<RecordView>, QueryErrorView>>,
    second: Seq<Result<Seq<RecordView>, QueryErrorView>>,
)
    ensures
        p.after_pages(first + second) == p.after_pages(first).after_pages(second),
    decreases first.len(),
{
    if first.len() == 0 {
        assert(first + second =~= second);
    } else {
        assert((first + second)[0] == first[0]);
        assert((first + second).drop_first() =~= first.drop_first() + second);
        lemma_after_pages_concat(p.after_page(first[0]), first.drop_first(), second);
    }
}

/// Taking in a run of one page is taking in that page.
pub proof fn lemma_single_page(p: PaginatorView, page: Result<Seq<RecordView>, QueryErrorView>)
    ensures
        p.after_pages(seq![page]) == p.after_page(page),
{
    reveal_with_fuel(PaginatorView::after_pages, 2);
    assert(seq![page].drop_first() =~= Seq::<Result<Seq<RecordView>, QueryErrorView>>::empty());
}

/// A pull that has ended takes nothing in: whatever pages follow, it stays
/// exactly as it is.
pub proof fn lemma_ended_pull_is_absorbing(
    p: PaginatorView,
    pages: Seq<Result<Seq<RecordView>, QueryErrorView>>,
)
    requires
        !(p.status is Active),
    ensures
        p.after_pages(pages) == p,
    decreases pages.len(),
{
    if pages.len() > 0 {
        lemma_ended_pull_is_absorbing(p, pages.drop_first());
    }
}

/// The offset advances by exactly the limit on a page that holds records
/// and is taken in, and stays where it is on anything else.
pub proof fn lemma_offset_advances_by_limit(
    p: PaginatorView,
    page: Result<Seq<RecordView>, QueryErrorView>,
)
    requires
        p.wf(),
    ensures
        p.after_page(page).cursor.limit == p.cursor.limit,
        p.takes_in(page) ==> p.after_page(page).cursor.offset == p.cursor.offset
            + p.cursor.limit,
        !p.takes_in(page) ==> p.after_page(page).cursor.offset == p.cursor.offset,
{
    if p.status is Active {
        lemma_page_fits(p, 0);
    }
}

/// Across a whole pull the offset never decreases and never resets,
/// whatever the pages bring.
pub proof fn lemma_offset_never_decreases(
    p: PaginatorView,
    pages: Seq<Result<Seq<RecordView>, QueryErrorView>>,
)
    requires
        p.wf(),
    ensures
        p.after_pages(pages).wf(),
        p.after_pages(pages).cursor.offset >= p.cursor.offset,
        p.after_pages(pages).cursor.limit == p.cursor.limit,
        p.after_pages(pages).pages >= p.pages,
    decreases pages.len(),
{
    if pages.len() > 0 {
        lemma_offset_advances_by_limit(p, pages[0]);
        lemma_page_keeps_invariant(p, pages[0]);
        lemma_offset_never_decreases(p.after_page(pages[0]), pages.drop_first());
    }
}

/// A run of pages that hold records and stay within the cap is taken in
/// whole: the pull stays active, holds every record of the run in order,
/// and its offset has advanced by the limit once for each page.
pub proof fn lemma_within_cap_collects_all(p: PaginatorView, batches: Seq<Seq<RecordView>>)
    requires
        p.wf(),
        p.status is Active,
        all_non_empty(batches),
        p.estimate_with(all_records(batches).len()) <= p.size_cap,
    ensures
        ({
            let q = p.after_pages(ok_pages(batches));
            &&& q.wf()
            &&& q.status is Active
            &&& q.failure is None
            &&& q.records == p.records + all_records(batches)
            &&& q.pages == p.pages + batches.len()
            &&& q.cursor.offset == p.cursor.offset + batches.len() * p.cursor.limit
            &&& q.cursor.limit == p.cursor.limit
            &&& q.per_record_weight == p.per_record_weight
            &&& q.size_cap == p.size_cap
        }),
    decreases batches.len(),
{
    let pages = ok_pages(batches);
    if batches.len() == 0 {
        assert(p.records + all_records(batches) =~= p.records);
        assert(batches.len() * p.cursor.limit == 0) by (nonlinear_arith)
            requires
                batches.len() == 0,
        ;
    } else {
        let head = batches[0];
        let tail = batches.drop_first();
        let w = p.per_record_weight as int;
        let h = head.len() as int;
        let t = all_records(tail).len() as int;
        assert(all_records(batches).len() == h + t);
        assert((h + t) * w == h * w + t * w) by (nonlinear_arith);
        assert(t * w >= 0) by (nonlinear_arith)
            requires
                t >= 0,
                w >= 0,
        ;
        lemma_page_fits(p, head.len());
        lemma_page_keeps_invariant(p, Ok(head));
        assert(pages[0] == Ok::<Seq<RecordView>, QueryErrorView>(head));
        let q = p.after_page(pages[0]);
        assert(q.status is Active);
        assert(pages.drop_first() =~= ok_pages(tail));
        assert(all_non_empty(tail)) by {
            assert forall|i: int| 0 <= i < tail.len() implies (#[trigger] tail[i]).len() > 0 by {
                assert(tail[i] == batches[i + 1]);
            }
        }
        assert(q.estimate_with(all_records(tail).len()) == p.estimate_with(
            all_records(batches).len(),
        ));
        lemma_within_cap_collects_all(q, tail);
        let n = tail.len() as int;
        let l = p.cursor.limit as int;
        assert((n + 1) * l == l + n * l) by (nonlinear_arith);
        assert(p.records + head + all_records(tail) =~= p.records + all_records(batches));
    }
}

/// Where the first empty page follows a run of pages that hold records and
/// stay within the cap, the pull is complete at that page: it holds exactly
/// the records of the run, has taken in no page after it, and asks for no
/// further page, whatever else is offered.
pub proof fn lemma_stops_at_first_empty_page(
    p: PaginatorView,
    batches: Seq<Seq<RecordView>>,
    later: Seq<Result<Seq<RecordView>, QueryErrorView>>,
)
    requires
        p.wf(),
        p.status is Active,
        all_non_empty(batches),
        p.estimate_with(all_records(batches).len()) <= p.size_cap,
    ensures
        ({
            let empty = Ok::<Seq<RecordView>, QueryErrorView>(Seq::empty());
            let q = p.after_pages(ok_pages(batches).push(empty) + later);
            &&& q.status is Exhausted
            &&& q.failure is None
            &&& q.records == p.records + all_records(batches)
            &&& q.pages == p.pages + batches.len()
            &&& q.cursor.offset == p.cursor.offset + batches.len() * p.cursor.limit
            &&& q.next_request() is None
            &&& finished(q) == Ok::<(Seq<RecordView>, bool), QueryErrorView>((q.records, false))
        }),
{
    let empty = Ok::<Seq<RecordView>, QueryErrorView>(Seq::empty());
    let run = ok_pages(batches);
    lemma_within_cap_collects_all(p, batches);
    let active = p.after_pages(run);
    let done = active.after_page(empty);
    assert(run.push(empty) =~= run + seq![empty]);
    lemma_after_pages_concat(p, run, seq![empty]);
    lemma_single_page(active, empty);
    lemma_after_pages_concat(p, run.push(empty), later);
    lemma_ended_pull_is_absorbing(done, later);
}

/// Where a page that holds records takes the estimate over the cap, after a
/// run of pages that stayed within it, the pull is cut short at that page:
/// it holds the records up to and including that page, signals truncation
/// and no error, and asks for no further page, whatever else is offered.
pub proof fn lemma_truncates_on_cap_breach(
    p: PaginatorView,
    batches: Seq<Seq<RecordView>>,
    last: Seq<RecordView>,
    later: Seq<Result<Seq<RecordView>, QueryErrorView>>,
)
    requires
        p.wf(),
        p.status is Active,
        all_non_empty(batches),
        last.len() > 0,
        p.estimate_with(all_records(batches).len()) <= p.size_cap,
        p.estimate_with(all_records(batches).len() + last.len()) > p.size_cap,
    ensures
        ({
            let breach = Ok::<Seq<RecordView>, QueryErrorView>(last);
            let q = p.after_pages(ok_pages(batches).push(breach) + later);
            &&& q.status is Truncated
            &&& q.failure is None
            &&& q.records == p.records + all_records(batches) + last
            &&& q.pages == p.pages + batches.len() + 1
            &&& q.next_request() is None
            &&& finished(q) == Ok::<(Seq<RecordView>, bool), QueryErrorView>((q.records, true))
        }),
{
    let breach = Ok::<Seq<RecordView>, QueryErrorView>(last);
    let run = ok_pages(batches);
    lemma_within_cap_collects_all(p, batches);
    let active = p.after_pages(run);
    let w = p.per_record_weight as int;
    let a = all_records(batches).len() as int;
    let b = last.len() as int;
    assert((a + b) * w == a * w + b * w) by (nonlinear_arith);
    lemma_page_fits(active, last.len());
    lemma_page_fits(p, 0);
    assert(active.records.len() == p.records.len() + a);
    assert((p.records.len() + a) * w == p.records.len() * w + a * w) by (nonlinear_arith);
    assert(active.estimate_with(last.len()) == p.estimate_with(
        all_records(batches).len() + last.len(),
    ));
    let cut = active.after_page(breach);
    assert(run.push(breach) =~= run + seq![breach]);
    lemma_after_pages_concat(p, run, seq![breach]);
    lemma_single_page(active, breach);
    lemma_after_pages_concat(p, run.push(breach), later);
    lemma_ended_pull_is_absorbing(cut, later);
}

} // verus!
