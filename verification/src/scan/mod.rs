//! The scan workflow: submit a target once, poll for the result with a
//! fixed backoff under a hard ceiling, then enrich the collected result with
//! a screenshot and a document snapshot, each on a best-effort basis.
//!
//! This module holds the data of a scan and the requests that it sends;
//! `reading` reads the service's answers, `session` is the state machine, and
//! `laws` states what holds of every run of it. The crate makes the
//! decisions only: the caller sends the requests, sleeps, and hands every
//! response back.

pub mod laws;
pub mod reading;
pub mod session;

use crate::config::Config;
use crate::http::{credential_is_sendable, sendable, PreparedRequest};
use crate::json::{json_text, quote, JsonModel};
use crate::query::{prepared_view, PreparedView};
use crate::record::{optional_record_view, Record, RecordView};
use crate::text::optional_text;
use vstd::prelude::*;
use vstd::string::StringExecFns;

verus! {

/// Where a scan is submitted.
pub const SUBMIT_URL: &'static str = "https://urlscan.io/api/v1/scan/";

/// The header that carries the scan service's credential.
pub const SCAN_KEY_HEADER: &'static str = "API-Key";

/// The backoff between two polls that the scan service is polled with.
pub const DEFAULT_BACKOFF_MS: u64 = 5_000;

/// The accumulated backoff that a scan is given before it times out.
pub const DEFAULT_CEILING_MS: u64 = 120_000;

/// How long to wait between two polls, and how much accumulated waiting
/// ends the session. With a backoff of zero no time accumulates, and a
/// session is never timed out.
#[derive(Debug, Clone, Copy, PartialEq, Eq)]
pub struct PollPolicy {
    pub backoff_ms: u64,
    pub ceiling_ms: u64,
}

/// Identifies one submitted scan in every later poll and download.
#[derive(Debug, Clone, PartialEq, Eq)]
pub struct ScanHandle {
    pub id: String,
    pub submitted_at: u64,
}

/// A handle as mathematics.
pub struct ScanHandleView {
    pub id: Seq<char>,
    pub submitted_at: u64,
}

impl View for ScanHandle {
    type V = ScanHandleView;

    open spec fn view(&self) -> ScanHandleView {
        ScanHandleView { id: self.id@, submitted_at: self.submitted_at }
    }
}

/// How far the result of a scan has come.
#[derive(Debug, Clone, Copy, PartialEq, Eq)]
pub enum ScanStatus {
    Pending,
    Ready,
    Failed,
    TimedOut,
}

/// The state of a session.
#[derive(Debug, Clone, Copy, PartialEq, Eq)]
pub enum ScanPhase {
    /// The submission was accepted; no poll has been answered yet.
    Submitted,
    /// At least one poll found the result not ready.
    Polling,
    /// The result is in. Terminal.
    Collected,
    /// The service refused, or answered with something unreadable. Terminal.
    Failed,
    /// The accumulated backoff went over the ceiling. Terminal.
    TimedOut,
}

/// Why a scan did not go through.
#[derive(Debug, Clone, Copy, PartialEq, Eq)]
pub enum ScanError {
    /// The credential is missing or cannot be sent.
    Unauthenticated,
    /// The service answered with this status.
    Rejected { status: u16 },
    /// The service answered with a body that is not the expected document.
    Malformed,
    /// The service could not be reached.
    Transport,
}

/// What the caller does next.
#[derive(Debug, Clone, Copy, PartialEq, Eq)]
pub enum ScanAction {
    /// Wait this long, then ask for the result.
    Poll { after_ms: u64 },
    /// Download the screenshot and the document snapshot.
    Enrich,
    /// Nothing is left to do.
    Stop,
}

/// What the service said when it accepted a submission.
#[derive(Debug, Clone, PartialEq, Eq)]
pub struct Submission {
    pub uuid: String,
    pub result_url: String,
    pub api_url: String,
    pub visibility: String,
    pub useragent: Option<String>,
    pub country: Option<String>,
}

/// A submission as mathematics.
pub struct SubmissionView {
    pub uuid: Seq<char>,
    pub result_url: Seq<char>,
    pub api_url: Seq<char>,
    pub visibility: Seq<char>,
    pub useragent: Option<Seq<char>>,
    pub country: Option<Seq<char>>,
}

impl View for Submission {
    type V = SubmissionView;

    open spec fn view(&self) -> SubmissionView {
        SubmissionView {
            uuid: self.uuid@,
            result_url: self.result_url@,
            api_url: self.api_url@,
            visibility: self.visibility@,
            useragent: optional_text(self.useragent),
            country: optional_text(self.country),
        }
    }
}

/// The outcome of a scan. Every part but the handle and the status is filled
/// on its own and may stay absent.
#[derive(Debug, Clone, PartialEq, Eq)]
pub struct ScanResult {
    pub handle: ScanHandle,
    pub status: ScanStatus,
    pub page_metadata: Option<Record>,
    pub verdict: Option<Record>,
    pub screenshot_bytes: Option<Vec<u8>>,
    pub dom_text: Option<String>,
}

/// A scan result as mathematics.
pub struct ScanResultView {
    pub handle: ScanHandleView,
    pub status: ScanStatus,
    pub page_metadata: Option<RecordView>,
    pub verdict: Option<RecordView>,
    pub screenshot_bytes: Option<Seq<u8>>,
    pub dom_text: Option<Seq<char>>,
}

/// The bytes of an optional byte vector.
pub open spec fn optional_bytes(b: Option<Vec<u8>>) -> Option<Seq<u8>> {
    match b {
        Some(x) => Some(x@),
        None => None,
    }
}

impl View for ScanResult {
    type V = ScanResultView;

    open spec fn view(&self) -> ScanResultView {
        ScanResultView {
            handle: self.handle@,
            status: self.status,
            page_metadata: optional_record_view(self.page_metadata),
            verdict: optional_record_view(self.verdict),
            screenshot_bytes: optional_bytes(self.screenshot_bytes),
            dom_text: optional_text(self.dom_text),
        }
    }
}

/// The table that holds one row for each scan.
pub const DOMAIN_TABLE: &'static str = "urlscan_domain_data";

/// The table that holds one document snapshot for each scan.
pub const SNAPSHOT_TABLE: &'static str = "urlscan_dom_snapshot";

/// The field by which the rows of both tables are keyed.
pub const SCAN_KEY_FIELD: &'static str = "uuid";

/// The body of a submission: the target, and private visibility.
pub open spec fn submit_body(target: Seq<char>) -> Seq<char> {
    "{\"url\":"@ + json_text(JsonModel::Text(target)) + ",\"visibility\":\"private\"}"@
}

/// What preparing a submission leads to: the request where the credential
/// is there and can be sent, `Unauthenticated` where it is not.
pub open spec fn prepared_scan(key: Option<Seq<char>>, target: Seq<char>) -> Result<
    PreparedView,
    ScanError,
> {
    match key {
        Some(k) => if sendable(k) {
            Ok(
                PreparedView {
                    url: SUBMIT_URL@,
                    key_header: SCAN_KEY_HEADER@,
                    api_key: k,
                    body: submit_body(target),
                },
            )
        } else {
            Err(ScanError::Unauthenticated)
        },
        None => Err(ScanError::Unauthenticated),
    }
}

/// Prepares the submission of `domain` to the scan service, with private
/// visibility, under the credential of `config`.
pub fn scan_domain(config: &Config, domain: &str) -> (r: Result<PreparedRequest, ScanError>)
    ensures
        prepared_view(r) == prepared_scan(config@.urlscan_api_key, domain@),
{
    match config.urlscan_api_key() {
        Some(key) => {
            if !credential_is_sendable(key.as_str()) {
                return Err(ScanError::Unauthenticated);
            }
            let mut body = String::from_str("{\"url\":");
            body.append(quote(domain).as_str());
            body.append(",\"visibility\":\"private\"}");
            Ok(
                PreparedRequest {
                    url: String::from_str(SUBMIT_URL),
                    key_header: String::from_str(SCAN_KEY_HEADER),
                    api_key: key,
                    body,
                },
            )
        },
        None => Err(ScanError::Unauthenticated),
    }
}

/// Where the result of the scan `id` is polled.
pub open spec fn result_address(id: Seq<char>) -> Seq<char> {
    "https://urlscan.io/api/v1/result/"@ + id + "/"@
}

/// Where the screenshot of the scan `id` is downloaded.
pub open spec fn screenshot_address(id: Seq<char>) -> Seq<char> {
    "https://urlscan.io/screenshots/"@ + id + ".png"@
}

/// Where the document snapshot of the scan `id` is downloaded.
pub open spec fn dom_address(id: Seq<char>) -> Seq<char> {
    "https://urlscan.io/dom/"@ + id + "/"@
}

/// Where the screenshot of the scan `id` is kept on disk.
pub open spec fn screenshot_file(id: Seq<char>) -> Seq<char> {
    "screenshots/"@ + id + ".png"@
}

/// The three texts written one after another.
fn wrap(before: &str, middle: &str, after: &str) -> (r: String)
    ensures
        r@ == before@ + middle@ + after@,
{
    let mut r = String::from_str(before);
    r.append(middle);
    r.append(after);
    r
}

impl ScanHandle {
    /// Where the result of this scan is polled.
    pub fn result_url(&self) -> (url: String)
        ensures
            url@ == result_address(self@.id),
    {
        wrap("https://urlscan.io/api/v1/result/", self.id.as_str(), "/")
    }

    /// Where the screenshot of this scan is downloaded.
    pub fn screenshot_url(&self) -> (url: String)
        ensures
            url@ == screenshot_address(self@.id),
    {
        wrap("https://urlscan.io/screenshots/", self.id.as_str(), ".png")
    }

    /// Where the document snapshot of this scan is downloaded.
    pub fn dom_url(&self) -> (url: String)
        ensures
            url@ == dom_address(self@.id),
    {
        wrap("https://urlscan.io/dom/", self.id.as_str(), "/")
    }

    /// Where the screenshot of this scan is kept on disk.
    pub fn screenshot_path(&self) -> (path: String)
        ensures
            path@ == screenshot_file(self@.id),
    {
        wrap("screenshots/", self.id.as_str(), ".png")
    }
}

} // verus!
