//! What holds of every run of a scan session.

use super::reading::{page_metadata_of, verdict_of};
use super::session::{is_pending, is_terminal, PollEvent, ScanSessionView};
use crate::json::JsonModel;
use vstd::prelude::*;

verus! {

/// Whether every event of `events` is an answer with status 404.
pub open spec fn all_not_found(events: Seq<PollEvent>) -> bool {
    forall|i: int|
        0 <= i < events.len() ==> (#[trigger] events[i] matches PollEvent::Answer { status, .. }
            && status == 404)
}

/// Every poll keeps the invariant of a session.
pub proof fn lemma_poll_keeps_invariant(s: ScanSessionView, event: PollEvent)
    requires
        s.wf(),
    ensures
        s.after_poll(event).wf(),
{
}

/// No poll leaves a terminal state: a session that is collected, failed or
/// timed out stays exactly as it is, whatever the polls bring.
pub proof fn lemma_terminal_is_absorbing(s: ScanSessionView, events: Seq<PollEvent>)
    requires
        is_terminal(s.phase),
    ensures
        s.after_polls(events) == s,
    decreases events.len(),
{
    if events.len() > 0 {
        lemma_terminal_is_absorbing(s, events.drop_first());
    }
}

/// No download leaves the phase of a session: whatever the screenshot and
/// snapshot downloads bring, a failing one included, the session stays in
/// the phase in which it was, and a failing screenshot download leaves the
/// screenshot absent.
pub proof fn lemma_enrichment_keeps_phase(
    s: ScanSessionView,
    bytes: Option<Seq<u8>>,
    text: Option<Seq<char>>,
)
    requires
        s.wf(),
    ensures
        s.after_screenshot(bytes).phase == s.phase,
        s.after_screenshot(bytes).result.status == s.result.status,
        s.after_dom(text).phase == s.phase,
        s.after_dom(text).result.status == s.result.status,
        s.after_screenshot(None).result.screenshot_bytes is None,
        s.after_dom(None).result.dom_text is None,
        s.after_screenshot(bytes).wf(),
        s.after_dom(text).wf(),
{
}

/// While the accumulated backoff stays within the ceiling, polls that find
/// nothing keep the session polling, and the elapsed time grows by one
/// backoff for each of them.
pub proof fn lemma_not_found_accumulates(s: ScanSessionView, events: Seq<PollEvent>)
    requires
        s.wf(),
        is_pending(s.phase),
        all_not_found(events),
        s.elapsed_ms + events.len() * s.policy.backoff_ms <= s.policy.ceiling_ms,
    ensures
        s.after_polls(events).wf(),
        s.after_polls(events).elapsed_ms == s.elapsed_ms + events.len() * s.policy.backoff_ms,
        events.len() > 0 ==> s.after_polls(events).phase is Polling,
        events.len() == 0 ==> s.after_polls(events) == s,
        s.after_polls(events).policy == s.policy,
        s.after_polls(events).result.handle == s.result.handle,
    decreases events.len(),
{
    if events.len() > 0 {
        let rest = events.drop_first();
        let n = events.len() as int;
        let b = s.policy.backoff_ms as int;
        assert(n * b == b + (n - 1) * b) by (nonlinear_arith);
        assert((n - 1) * b >= 0) by (nonlinear_arith)
            requires
                n >= 1,
                b >= 0,
        ;
        assert(events[0] matches PollEvent::Answer { status, .. } && status == 404);
        let t = s.after_poll(events[0]);
        assert(t == s.waited());
        assert(t.phase is Polling);
        assert(all_not_found(rest)) by {
            assert forall|i: int| 0 <= i < rest.len() implies (#[trigger] rest[i] matches PollEvent::Answer {
                status,
                ..
            } && status == 404) by {
                assert(rest[i] == events[i + 1]);
            }
        }
        lemma_not_found_accumulates(t, rest);
    }
}

/// A result that is found after `events.len()` polls that found nothing is
/// collected, and the elapsed time recorded is that many backoffs.
pub proof fn lemma_found_after_waiting(
    s: ScanSessionView,
    events: Seq<PollEvent>,
    document: JsonModel,
)
    requires
        s.wf(),
        s.phase is Submitted,
        all_not_found(events),
        events.len() * s.policy.backoff_ms <= s.policy.ceiling_ms,
    ensures
        ({
            let found = PollEvent::Answer { status: 200, document: Some(document) };
            let end = s.after_polls(events).after_poll(found);
            &&& end.phase is Collected
            &&& end.result.status is Ready
            &&& end.elapsed_ms == events.len() * s.policy.backoff_ms
            &&& end.result.page_metadata == Some(page_metadata_of(document))
            &&& end.result.verdict == Some(verdict_of(document))
            &&& end.result.handle == s.result.handle
        }),
{
    lemma_not_found_accumulates(s, events);
}

/// Polls that find nothing never fail a session: it keeps polling or it
/// times out, and it has timed out as soon as the accumulated backoff
/// exceeds the ceiling.
pub proof fn lemma_not_found_ends_in_timeout(s: ScanSessionView, events: Seq<PollEvent>)
    requires
        s.wf(),
        is_pending(s.phase),
        all_not_found(events),
    ensures
        s.after_polls(events).wf(),
        !(s.after_polls(events).phase is Failed),
        !(s.after_polls(events).phase is Collected),
        s.elapsed_ms + events.len() * s.policy.backoff_ms > s.policy.ceiling_ms ==> s.after_polls(
            events,
        ).phase is TimedOut,
    decreases events.len(),
{
    if events.len() > 0 {
        let rest = events.drop_first();
        let n = events.len() as int;
        let b = s.policy.backoff_ms as int;
        assert(n * b == b + (n - 1) * b) by (nonlinear_arith);
        assert(events[0] matches PollEvent::Answer { status, .. } && status == 404);
        let t = s.after_poll(events[0]);
        assert(t == s.waited());
        if is_pending(t.phase) {
            assert(all_not_found(rest)) by {
                assert forall|i: int| 0 <= i < rest.len() implies (#[trigger] rest[i] matches PollEvent::Answer {
                    status,
                    ..
                } && status == 404) by {
                    assert(rest[i] == events[i + 1]);
                }
            }
            lemma_not_found_ends_in_timeout(t, rest);
        } else {
            lemma_terminal_is_absorbing(t, rest);
        }
    }
}

/// A handle, once assigned, stays with its session: no poll and no download
/// changes it, nor what the service said of the submission.
pub proof fn lemma_handle_never_changes(
    s: ScanSessionView,
    events: Seq<PollEvent>,
    bytes: Option<Seq<u8>>,
    text: Option<Seq<char>>,
)
    ensures
        s.after_polls(events).result.handle == s.result.handle,
        s.after_polls(events).submission == s.submission,
        s.after_polls(events).target == s.target,
        s.after_screenshot(bytes).result.handle == s.result.handle,
        s.after_dom(text).result.handle == s.result.handle,
    decreases events.len(),
{
    if events.len() > 0 {
        lemma_handle_never_changes(s.after_poll(events[0]), events.drop_first(), bytes, text);
    }
}

} // verus!
