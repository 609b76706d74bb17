//! One upload: the time window that a report falls in, and the request that
//! carries the report to the server.
//!
//! Nothing here touches the network. `pyroscope_ingest` says what is to be
//! sent, if anything; sending it is the caller's part.

use crate::error::PyroscopeError;
use crate::text::{decimal, decimal_text, pair_texts, signed_decimal, signed_decimal_text};
use vstd::prelude::*;

verus! {

/// Seconds between two uploads, and the width of the window of each. The server
/// buckets profiles by this width, so the two are one number.
pub const UPLOAD_INTERVAL_SECS: u64 = 10;

/// What the profiler hands out for one upload.
#[derive(Debug, PartialEq, Eq)]
pub struct Report {
    /// When sampling for this report began, in seconds since the Unix epoch.
    pub start_time: u64,
    /// Samples taken per second.
    pub sample_rate: i32,
    /// The samples, encoded in the folded format.
    pub payload: Vec<u8>,
}

/// The span of time, in seconds since the Unix epoch, that an upload stands for.
#[derive(Clone, Copy, Debug, PartialEq, Eq, Structural)]
pub struct UploadWindow {
    /// The first second of the window.
    pub from: u64,
    /// The first second after the window.
    pub until: u64,
}

/// A request to the server's ingestion endpoint, ready to be sent as a POST.
#[derive(Debug, PartialEq, Eq)]
pub struct IngestRequest {
    /// Where to send it.
    pub url: String,
    /// The value of the `Content-Type` header.
    pub content_type: String,
    /// The query parameters, in order.
    pub query: Vec<(String, String)>,
    /// The body.
    pub body: Vec<u8>,
}

/// An `IngestRequest` as the contracts see it.
pub struct IngestRequestView {
    pub url: Seq<char>,
    pub content_type: Seq<char>,
    pub query: Seq<(Seq<char>, Seq<char>)>,
    pub body: Seq<u8>,
}

impl View for IngestRequest {
    type V = IngestRequestView;

    open spec fn view(&self) -> IngestRequestView {
        IngestRequestView {
            url: self.url@,
            content_type: self.content_type@,
            query: pair_texts(self.query@),
            body: self.body@,
        }
    }
}

/// What is to be done with a report that was asked for.
#[derive(Debug, PartialEq, Eq)]
pub enum Cycle {
    /// Send this request, then say how it went.
    Send(IngestRequest),
    /// There is nothing to send: the upload has ended with this result.
    Done(Result<(), PyroscopeError>),
}

/// A `Cycle` as the contracts see it.
pub enum CycleView {
    Send(IngestRequestView),
    Done(Result<(), PyroscopeError>),
}

impl View for Cycle {
    type V = CycleView;

    open spec fn view(&self) -> CycleView {
        match self {
            Cycle::Send(request) => CycleView::Send(request@),
            Cycle::Done(result) => CycleView::Done(*result),
        }
    }
}

/// The start of the window that `start_time` falls in: `start_time` rounded
/// down to a multiple of the upload interval.
pub open spec fn window_from(start_time: nat) -> nat {
    (start_time - start_time % (UPLOAD_INTERVAL_SECS as nat)) as nat
}

/// The end of the window that `start_time` falls in.
pub open spec fn window_until(start_time: nat) -> nat {
    window_from(start_time) + UPLOAD_INTERVAL_SECS as nat
}

/// The request that uploads a report: a POST to `{url}/ingest`, the series
/// name, the window, the format and the profiler as query parameters, and the
/// payload as the body.
pub open spec fn ingest_request(
    url: Seq<char>,
    application_name: Seq<char>,
    start_time: nat,
    sample_rate: int,
    payload: Seq<u8>,
) -> IngestRequestView {
    IngestRequestView {
        url: url + "/ingest"@,
        content_type: "binary/octet-stream"@,
        query: seq![
            ("name"@, application_name),
            ("from"@, decimal(window_from(start_time))),
            ("until"@, decimal(window_until(start_time))),
            ("format"@, "folded"@),
            ("sampleRate"@, signed_decimal(sample_rate)),
            ("spyName"@, "pprof-rs"@),
        ],
        body: payload,
    }
}

/// The window that a report that began at `start_time` is uploaded under.
pub fn upload_window(start_time: u64) -> (window: UploadWindow)
    requires
        window_until(start_time as nat) <= u64::MAX,
    ensures
        window.from == window_from(start_time as nat),
        window.until == window_until(start_time as nat),
        window.from % UPLOAD_INTERVAL_SECS == 0,
        window.from <= start_time < window.until,
        window.until == window.from + UPLOAD_INTERVAL_SECS,
{
    let from = start_time - start_time % UPLOAD_INTERVAL_SECS;
    UploadWindow { from, until: from + UPLOAD_INTERVAL_SECS }
}

/// Prepares the upload of one report.
///
/// A report with an empty payload is not uploaded: there is no request then.
/// Any other report gives the one request that uploads it.
pub fn pyroscope_ingest(report: Report, url: &str, application_name: &str) -> (request: Option<
    IngestRequest,
>)
    requires
        report.payload@.len() > 0 ==> window_until(report.start_time as nat) <= u64::MAX,
    ensures
        match request {
            None => report.payload@.len() == 0,
            Some(r) => report.payload@.len() > 0 && r@ == ingest_request(
                url@,
                application_name@,
                report.start_time as nat,
                report.sample_rate as int,
                report.payload@,
            ),
        },
{
    if report.payload.len() == 0 {
        return None;
    }
    let window = upload_window(report.start_time);
    let mut target = String::from_str(url);
    target.append("/ingest");
    let mut query: Vec<(String, String)> = Vec::new();
    query.push((String::from_str("name"), String::from_str(application_name)));
    query.push((String::from_str("from"), decimal_text(window.from)));
    query.push((String::from_str("until"), decimal_text(window.until)));
    query.push((String::from_str("format"), String::from_str("folded")));
    query.push((String::from_str("sampleRate"), signed_decimal_text(report.sample_rate)));
    query.push((String::from_str("spyName"), String::from_str("pprof-rs")));
    let request = IngestRequest {
        url: target,
        content_type: String::from_str("binary/octet-stream"),
        query,
        body: report.payload,
    };
    assert(request@.query =~= ingest_request(
        url@,
        application_name@,
        report.start_time as nat,
        report.sample_rate as int,
        report.payload@,
    ).query);
    Some(request)
}

/// What an upload has ended with, given the status code of the server's
/// answer, or none if no answer came: success if the code is a success code,
/// from 200 to 299, else `Ingest`.
pub fn delivery(status: Option<u16>) -> (result: Result<(), PyroscopeError>)
    ensures
        result == match status {
            Some(code) => if 200 <= code < 300 {
                Ok::<(), PyroscopeError>(())
            } else {
                Err::<(), PyroscopeError>(PyroscopeError::Ingest)
            },
            None => Err::<(), PyroscopeError>(PyroscopeError::Ingest),
        },
{
    match status {
        Some(code) => if 200 <= code && code < 300 {
            Ok(())
        } else {
            Err(PyroscopeError::Ingest)
        },
        None => Err(PyroscopeError::Ingest),
    }
}

} // verus!
