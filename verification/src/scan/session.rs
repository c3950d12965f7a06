//! The session of one scan: a state machine from the accepted submission
//! to a terminal state, and the records that each stage of it persists.

use super::reading::{
    page_metadata_from, page_metadata_of, submission_of, text_or, verdict_from, verdict_of,
};
use super::{
    optional_bytes, screenshot_file, PollPolicy, ScanAction, ScanError, ScanHandle,
    ScanHandleView, ScanPhase, ScanResult, ScanResultView, ScanStatus, Submission,
    SubmissionView,
};
use crate::http::{is_success, status_is_success, Download};
use crate::json::{document_model, json_parse, parse_document, JsonModel};
use crate::record::{optional_record_view, Field, FieldValueView, Record, RecordView};
use crate::text::{optional_text, within_u64};
use vstd::prelude::*;

verus! {

/// A session as mathematics.
pub struct ScanSessionView {
    pub target: Seq<char>,
    pub submission: SubmissionView,
    pub policy: PollPolicy,
    pub phase: ScanPhase,
    /// The sum of the backoffs that the session has asked for.
    pub elapsed_ms: u64,
    pub failure: Option<ScanError>,
    pub result: ScanResultView,
}

/// What a poll brought back, as mathematics.
pub enum PollEvent {
    /// An answer with its status and the document that its body parses to.
    Answer { status: u16, document: Option<JsonModel> },
    /// No answer: the service could not be reached.
    Unreachable,
}

/// Whether a session in `phase` still waits for its result.
pub open spec fn is_pending(phase: ScanPhase) -> bool {
    phase is Submitted || phase is Polling
}

/// Whether `phase` is one that no event leaves.
pub open spec fn is_terminal(phase: ScanPhase) -> bool {
    !is_pending(phase)
}

/// The status that a result carries while its session is in `phase`.
pub open spec fn status_of(phase: ScanPhase) -> ScanStatus {
    match phase {
        ScanPhase::Submitted => ScanStatus::Pending,
        ScanPhase::Polling => ScanStatus::Pending,
        ScanPhase::Collected => ScanStatus::Ready,
        ScanPhase::Failed => ScanStatus::Failed,
        ScanPhase::TimedOut => ScanStatus::TimedOut,
    }
}

impl ScanSessionView {
    /// The invariant of a session.
    pub open spec fn wf(self) -> bool {
        &&& is_pending(self.phase) ==> self.elapsed_ms <= self.policy.ceiling_ms
        &&& self.phase is Submitted ==> self.elapsed_ms == 0
        &&& self.result.status == status_of(self.phase)
        &&& self.result.handle.id == self.submission.uuid
        &&& self.failure is Some <==> self.phase is Failed
        &&& self.result.page_metadata is Some <==> self.phase is Collected
        &&& self.result.verdict is Some <==> self.phase is Collected
        &&& !(self.phase is Collected) ==> self.result.screenshot_bytes is None
            && self.result.dom_text is None
    }

    /// The session with another phase, and with the status that goes with
    /// it.
    pub open spec fn moved_to(self, phase: ScanPhase) -> ScanSessionView {
        ScanSessionView {
            phase,
            result: ScanResultView { status: status_of(phase), ..self.result },
            ..self
        }
    }

    /// The session after a failure.
    pub open spec fn failed(self, error: ScanError) -> ScanSessionView {
        ScanSessionView { failure: Some(error), ..self.moved_to(ScanPhase::Failed) }
    }

    /// The session after its result has come in.
    pub open spec fn collected(self, document: JsonModel) -> ScanSessionView {
        ScanSessionView {
            phase: ScanPhase::Collected,
            result: ScanResultView {
                status: ScanStatus::Ready,
                page_metadata: Some(page_metadata_of(document)),
                verdict: Some(verdict_of(document)),
                ..self.result
            },
            ..self
        }
    }

    /// The session after a poll that found the result not ready: the backoff
    /// is added to the elapsed time, and the session times out once that sum
    /// exceeds the ceiling.
    pub open spec fn waited(self) -> ScanSessionView {
        let elapsed = self.elapsed_ms + self.policy.backoff_ms;
        let phase = if elapsed > self.policy.ceiling_ms {
            ScanPhase::TimedOut
        } else {
            ScanPhase::Polling
        };
        ScanSessionView { elapsed_ms: within_u64(elapsed), ..self.moved_to(phase) }
    }

    /// The session after a poll. A terminal session stays as it is. A
    /// pending one is collected on status 200 with a readable body, waits on
    /// 404, and fails on anything else.
    pub open spec fn after_poll(self, event: PollEvent) -> ScanSessionView {
        if is_terminal(self.phase) {
            self
        } else {
            match event {
                PollEvent::Unreachable => self.failed(ScanError::Transport),
                PollEvent::Answer { status, document } => if status == 200 {
                    match document {
                        Some(d) => self.collected(d),
                        None => self.failed(ScanError::Malformed),
                    }
                } else if status == 404 {
                    self.waited()
                } else {
                    self.failed(ScanError::Rejected { status })
                },
            }
        }
    }

    /// The session after the polls of `events`, in order.
    pub open spec fn after_polls(self, events: Seq<PollEvent>) -> ScanSessionView
        decreases events.len(),
    {
        if events.len() == 0 {
            self
        } else {
            self.after_poll(events[0]).after_polls(events.drop_first())
        }
    }

    /// What the caller does next.
    pub open spec fn next_action(self) -> ScanAction {
        match self.phase {
            ScanPhase::Submitted => ScanAction::Poll { after_ms: 0 },
            ScanPhase::Polling => ScanAction::Poll { after_ms: self.policy.backoff_ms },
            ScanPhase::Collected => ScanAction::Enrich,
            ScanPhase::Failed => ScanAction::Stop,
            ScanPhase::TimedOut => ScanAction::Stop,
        }
    }

    /// The session after the screenshot download: a collected session holds
    /// the bytes that came, or none; any other session stays as it is.
    pub open spec fn after_screenshot(self, bytes: Option<Seq<u8>>) -> ScanSessionView {
        if self.phase is Collected {
            ScanSessionView {
                result: ScanResultView { screenshot_bytes: bytes, ..self.result },
                ..self
            }
        } else {
            self
        }
    }

    /// The session after the snapshot download: a collected session holds
    /// the text that came unless it is empty; any other session stays as it
    /// is.
    pub open spec fn after_dom(self, text: Option<Seq<char>>) -> ScanSessionView {
        if self.phase is Collected {
            ScanSessionView {
                result: ScanResultView {
                    dom_text: match text {
                        Some(t) => if t.len() > 0 {
                            Some(t)
                        } else {
                            None
                        },
                        None => None,
                    },
                    ..self.result
                },
                ..self
            }
        } else {
            self
        }
    }
}

/// The session that an accepted submission opens.
pub open spec fn opened(
    target: Seq<char>,
    submission: SubmissionView,
    submitted_at: u64,
    policy: PollPolicy,
) -> ScanSessionView {
    ScanSessionView {
        target,
        submission,
        policy,
        phase: ScanPhase::Submitted,
        elapsed_ms: 0,
        failure: None,
        result: ScanResultView {
            handle: ScanHandleView { id: submission.uuid, submitted_at },
            status: ScanStatus::Pending,
            page_metadata: None,
            verdict: None,
            screenshot_bytes: None,
            dom_text: None,
        },
    }
}

/// What a submission leads to: a session where the service accepted it with
/// a readable answer, the status where it refused, `Malformed` where the
/// answer cannot be read.
pub open spec fn submit_outcome(
    target: Seq<char>,
    status: u16,
    document: Option<JsonModel>,
    submitted_at: u64,
    policy: PollPolicy,
) -> Result<ScanSessionView, ScanError> {
    if !status_is_success(status) {
        Err(ScanError::Rejected { status })
    } else {
        match document {
            Some(d) => match submission_of(d) {
                Some(submission) => Ok(opened(target, submission, submitted_at, policy)),
                None => Err(ScanError::Malformed),
            },
            None => Err(ScanError::Malformed),
        }
    }
}

/// What came back from a submission leads to: an answer as `submit_outcome`
/// says, and no answer at all to a transport failure.
pub open spec fn submit_download_outcome(
    target: Seq<char>,
    response: Download<String>,
    submitted_at: u64,
    policy: PollPolicy,
) -> Result<ScanSessionView, ScanError> {
    match response {
        Download::Received { status, body } => submit_outcome(
            target,
            status,
            json_parse(body@),
            submitted_at,
            policy,
        ),
        Download::Unreachable => Err(ScanError::Transport),
    }
}

/// The body of a download that succeeded.
pub open spec fn usable<T>(download: Download<T>) -> Option<T> {
    match download {
        Download::Received { status, body } => if status_is_success(status) {
            Some(body)
        } else {
            None
        },
        Download::Unreachable => None,
    }
}

/// The event that a poll response stands for.
pub open spec fn poll_event(response: Download<String>) -> PollEvent {
    match response {
        Download::Received { status, body } => PollEvent::Answer {
            status,
            document: json_parse(body@),
        },
        Download::Unreachable => PollEvent::Unreachable,
    }
}

/// One scan, from the accepted submission to its terminal state.
pub struct ScanSession {
    target: String,
    submission: Submission,
    policy: PollPolicy,
    phase: ScanPhase,
    elapsed_ms: u64,
    failure: Option<ScanError>,
    result: ScanResult,
}

impl View for ScanSession {
    type V = ScanSessionView;

    closed spec fn view(&self) -> ScanSessionView {
        ScanSessionView {
            target: self.target@,
            submission: self.submission@,
            policy: self.policy,
            phase: self.phase,
            elapsed_ms: self.elapsed_ms,
            failure: self.failure,
            result: self.result@,
        }
    }
}

/// The view of what a submission led to.
pub open spec fn outcome_view(r: Result<ScanSession, ScanError>) -> Result<
    ScanSessionView,
    ScanError,
> {
    match r {
        Ok(s) => Ok(s@),
        Err(e) => Err(e),
    }
}

impl ScanSession {
    /// Starts the session of an accepted submission: it waits for its first
    /// poll, with no time elapsed and an empty, pending result.
    pub fn start(target: &str, submission: Submission, submitted_at: u64, policy: PollPolicy) -> (s:
        ScanSession)
        ensures
            s@ == opened(target@, submission@, submitted_at, policy),
            s@.wf(),
    {
        let handle = ScanHandle { id: submission.uuid.clone(), submitted_at };
        ScanSession {
            target: target.to_owned(),
            submission,
            policy,
            phase: ScanPhase::Submitted,
            elapsed_ms: 0,
            failure: None,
            result: ScanResult {
                handle,
                status: ScanStatus::Pending,
                page_metadata: None,
                verdict: None,
                screenshot_bytes: None,
                dom_text: None,
            },
        }
    }

    /// Decides on the answer to a submission, given the document that its
    /// body parsed to.
    pub fn submit_document(
        target: &str,
        status: u16,
        document: Option<serde_json::Value>,
        submitted_at: u64,
        policy: PollPolicy,
    ) -> (r: Result<ScanSession, ScanError>)
        ensures
            outcome_view(r) == submit_outcome(
                target@,
                status,
                document_model(document),
                submitted_at,
                policy,
            ),
            r matches Ok(s) ==> s@.wf(),
    {
        if !is_success(status) {
            return Err(ScanError::Rejected { status });
        }
        match document {
            Some(d) => match Submission::from_document(&d) {
                Some(submission) => Ok(ScanSession::start(target, submission, submitted_at, policy)),
                None => Err(ScanError::Malformed),
            },
            None => Err(ScanError::Malformed),
        }
    }

    /// Decides on the answer to a submission. A status outside 200..=299 is
    /// a rejection with that status; a body that does not hold a submission
    /// is malformed; anything else opens the session.
    pub fn submit(target: &str, status: u16, body: &str, submitted_at: u64, policy: PollPolicy) -> (r:
        Result<ScanSession, ScanError>)
        ensures
            outcome_view(r) == submit_outcome(
                target@,
                status,
                json_parse(body@),
                submitted_at,
                policy,
            ),
            r matches Ok(s) ==> s@.wf(),
    {
        ScanSession::submit_document(target, status, parse_document(body), submitted_at, policy)
    }

    /// Decides on what came back from a submission: an answer as `submit`
    /// does, and a service that could not be reached as a transport
    /// failure. The submission is not sent again.
    pub fn submit_download(
        target: &str,
        response: Download<String>,
        submitted_at: u64,
        policy: PollPolicy,
    ) -> (r: Result<ScanSession, ScanError>)
        ensures
            outcome_view(r) == submit_download_outcome(target@, response, submitted_at, policy),
            r matches Ok(s) ==> s@.wf(),
    {
        match response {
            Download::Received { status, body } => ScanSession::submit(
                target,
                status,
                body.as_str(),
                submitted_at,
                policy,
            ),
            Download::Unreachable => Err(ScanError::Transport),
        }
    }

    /// Ends the session in failure.
    fn fail(&mut self, error: ScanError)
        ensures
            final(self)@ == old(self)@.failed(error),
    {
        self.phase = ScanPhase::Failed;
        self.result.status = ScanStatus::Failed;
        self.failure = Some(error);
    }

    /// Adds one backoff to the elapsed time, and times out once the sum
    /// exceeds the ceiling.
    fn wait(&mut self)
        ensures
            final(self)@ == old(self)@.waited(),
    {
        match self.elapsed_ms.checked_add(self.policy.backoff_ms) {
            Some(elapsed) => {
                self.elapsed_ms = elapsed;
                if elapsed > self.policy.ceiling_ms {
                    self.phase = ScanPhase::TimedOut;
                    self.result.status = ScanStatus::TimedOut;
                } else {
                    self.phase = ScanPhase::Polling;
                    self.result.status = ScanStatus::Pending;
                }
            },
            None => {
                self.elapsed_ms = u64::MAX;
                self.phase = ScanPhase::TimedOut;
                self.result.status = ScanStatus::TimedOut;
            },
        }
    }

    /// Takes the answer to a poll, given its status and the document that
    /// its body parsed to, and says what to do next.
    pub fn on_poll_document(&mut self, status: u16, document: Option<serde_json::Value>) -> (action:
        ScanAction)
        requires
            old(self)@.wf(),
        ensures
            final(self)@ == old(self)@.after_poll(
                PollEvent::Answer { status, document: document_model(document) },
            ),
            final(self)@.wf(),
            action == final(self)@.next_action(),
    {
        match self.phase {
            ScanPhase::Submitted | ScanPhase::Polling => {
                if status == 200 {
                    match document {
                        Some(d) => {
                            self.result.page_metadata = Some(page_metadata_from(&d));
                            self.result.verdict = Some(verdict_from(&d));
                            self.result.status = ScanStatus::Ready;
                            self.phase = ScanPhase::Collected;
                        },
                        None => {
                            self.fail(ScanError::Malformed);
                        },
                    }
                } else if status == 404 {
                    self.wait();
                } else {
                    self.fail(ScanError::Rejected { status });
                }
            },
            _ => {},
        }
        self.next_action()
    }

    /// Takes what a poll brought back and says what to do next.
    pub fn on_poll(&mut self, response: Download<String>) -> (action: ScanAction)
        requires
            old(self)@.wf(),
        ensures
            final(self)@ == old(self)@.after_poll(poll_event(response)),
            final(self)@.wf(),
            action == final(self)@.next_action(),
    {
        match response {
            Download::Received { status, body } => {
                let document = parse_document(body.as_str());
                self.on_poll_document(status, document)
            },
            Download::Unreachable => {
                match self.phase {
                    ScanPhase::Submitted | ScanPhase::Polling => {
                        self.fail(ScanError::Transport);
                    },
                    _ => {},
                }
                self.next_action()
            },
        }
    }

    /// Takes what the screenshot download brought back. A failed download
    /// leaves the screenshot absent; the phase stays as it is either way.
    pub fn record_screenshot(&mut self, download: Download<Vec<u8>>)
        requires
            old(self)@.wf(),
        ensures
            final(self)@ == old(self)@.after_screenshot(optional_bytes(usable(download))),
            final(self)@.phase == old(self)@.phase,
            final(self)@.wf(),
    {
        match self.phase {
            ScanPhase::Collected => {
                self.result.screenshot_bytes = match download {
                    Download::Received { status, body } => if is_success(status) {
                        Some(body)
                    } else {
                        None
                    },
                    Download::Unreachable => None,
                };
            },
            _ => {},
        }
    }

    /// Takes what the snapshot download brought back. A failed download and
    /// an empty text leave the snapshot absent; the phase stays as it is
    /// either way.
    pub fn record_dom(&mut self, download: Download<String>)
        requires
            old(self)@.wf(),
        ensures
            final(self)@ == old(self)@.after_dom(optional_text(usable(download))),
            final(self)@.phase == old(self)@.phase,
            final(self)@.wf(),
    {
        match self.phase {
            ScanPhase::Collected => {
                self.result.dom_text = match download {
                    Download::Received { status, body } => if is_success(status)
                        && body.as_str().unicode_len() > 0 {
                        Some(body)
                    } else {
                        None
                    },
                    Download::Unreachable => None,
                };
            },
            _ => {},
        }
    }

    /// What the caller does next.
    pub fn next_action(&self) -> (action: ScanAction)
        ensures
            action == self@.next_action(),
    {
        match self.phase {
            ScanPhase::Submitted => ScanAction::Poll { after_ms: 0 },
            ScanPhase::Polling => ScanAction::Poll { after_ms: self.policy.backoff_ms },
            ScanPhase::Collected => ScanAction::Enrich,
            ScanPhase::Failed => ScanAction::Stop,
            ScanPhase::TimedOut => ScanAction::Stop,
        }
    }

    /// The state of the session.
    pub fn phase(&self) -> (phase: ScanPhase)
        ensures
            phase == self@.phase,
    {
        self.phase
    }

    /// The sum of the backoffs that the session has asked for.
    pub fn elapsed_ms(&self) -> (elapsed: u64)
        ensures
            elapsed == self@.elapsed_ms,
    {
        self.elapsed_ms
    }

    /// Why the session failed, if it did.
    pub fn failure(&self) -> (failure: Option<ScanError>)
        ensures
            failure == self@.failure,
    {
        self.failure
    }

    /// The handle of the scan.
    pub fn handle(&self) -> (handle: &ScanHandle)
        ensures
            handle@ == self@.result.handle,
    {
        &self.result.handle
    }

    /// What the service said when it accepted the submission.
    pub fn submission(&self) -> (submission: &Submission)
        ensures
            submission@ == self@.submission,
    {
        &self.submission
    }

    /// The result as far as it has been filled.
    pub fn result(&self) -> (result: &ScanResult)
        ensures
            result@ == self@.result,
    {
        &self.result
    }

    /// Ends the session and hands out its result.
    pub fn into_result(self) -> (result: ScanResult)
        ensures
            result@ == self@.result,
    {
        self.result
    }
}

impl ScanSessionView {
    /// The row written as soon as the submission is accepted: the target and
    /// what the service said of the scan, "N/A" for what it left out.
    pub open spec fn submission_record(self) -> RecordView {
        seq![
            ("domain"@, FieldValueView::Text(self.target)),
            ("uuid"@, FieldValueView::Text(self.submission.uuid)),
            ("result_url"@, FieldValueView::Text(self.submission.result_url)),
            ("api_url"@, FieldValueView::Text(self.submission.api_url)),
            ("visibility"@, FieldValueView::Text(self.submission.visibility)),
            ("useragent"@, FieldValueView::Text(text_or(self.submission.useragent, "N/A"@))),
            ("country"@, FieldValueView::Text(text_or(self.submission.country, "N/A"@))),
        ]
    }

    /// The columns filled once the result is collected: the page metadata,
    /// then the verdict.
    pub open spec fn enrichment_record(self) -> Option<RecordView> {
        if self.result.page_metadata is Some && self.result.verdict is Some {
            Some(self.result.page_metadata.unwrap() + self.result.verdict.unwrap())
        } else {
            None
        }
    }

    /// The column filled once the screenshot is there: where it is kept.
    pub open spec fn screenshot_record(self) -> Option<RecordView> {
        if self.result.screenshot_bytes is Some {
            Some(
                seq![
                    (
                        "screenshot_path"@,
                        FieldValueView::Text(screenshot_file(self.result.handle.id)),
                    ),
                ],
            )
        } else {
            None
        }
    }

    /// The snapshot row written once the document text is there.
    pub open spec fn dom_record(self) -> Option<RecordView> {
        match self.result.dom_text {
            Some(text) => Some(
                seq![
                    ("uuid"@, FieldValueView::Text(self.result.handle.id)),
                    ("dom"@, FieldValueView::Text(text)),
                ],
            ),
            None => None,
        }
    }
}

fn text_or_default(text: &Option<String>, fallback: &str) -> (r: String)
    ensures
        r@ == text_or(optional_text(*text), fallback@),
{
    match text {
        Some(t) => t.clone(),
        None => fallback.to_owned(),
    }
}

impl ScanSession {
    /// The row to write as soon as the submission is accepted.
    pub fn submission_record(&self) -> (r: Record)
        ensures
            r@ == self@.submission_record(),
    {
        let mut fields: Vec<Field> = Vec::new();
        fields.push(Field::text("domain", self.target.clone()));
        fields.push(Field::text("uuid", self.submission.uuid.clone()));
        fields.push(Field::text("result_url", self.submission.result_url.clone()));
        fields.push(Field::text("api_url", self.submission.api_url.clone()));
        fields.push(Field::text("visibility", self.submission.visibility.clone()));
        fields.push(Field::text("useragent", text_or_default(&self.submission.useragent, "N/A")));
        fields.push(Field::text("country", text_or_default(&self.submission.country, "N/A")));
        let r = Record { fields };
        assert(r@ =~= self@.submission_record());
        r
    }

    /// The columns to fill once the result is collected; `None` before.
    pub fn enrichment_record(&self) -> (r: Option<Record>)
        ensures
            optional_record_view(r) == self@.enrichment_record(),
    {
        match (&self.result.page_metadata, &self.result.verdict) {
            (Some(page), Some(verdict)) => {
                let mut r = page.duplicate();
                r.extend_from(verdict);
                Some(r)
            },
            _ => None,
        }
    }

    /// The column to fill once the screenshot is there; `None` without one.
    pub fn screenshot_record(&self) -> (r: Option<Record>)
        ensures
            optional_record_view(r) == self@.screenshot_record(),
    {
        match &self.result.screenshot_bytes {
            Some(_) => {
                let mut fields: Vec<Field> = Vec::new();
                fields.push(Field::text("screenshot_path", self.result.handle.screenshot_path()));
                let r = Record { fields };
                assert(r@ =~= self@.screenshot_record().unwrap());
                Some(r)
            },
            None => None,
        }
    }

    /// The snapshot row to write once the document text is there; `None`
    /// without one.
    pub fn dom_record(&self) -> (r: Option<Record>)
        ensures
            optional_record_view(r) == self@.dom_record(),
    {
        match &self.result.dom_text {
            Some(text) => {
                let mut fields: Vec<Field> = Vec::new();
                fields.push(Field::text("uuid", self.result.handle.id.clone()));
                fields.push(Field::text("dom", text.clone()));
                let r = Record { fields };
                assert(r@ =~= self@.dom_record().unwrap());
                Some(r)
            },
            None => None,
        }
    }
}

} // verus!
