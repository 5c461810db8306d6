//! Transfer client: what is pushed, and what the answer to a push means.

use crate::status::{Status, StatusView};
use vstd::prelude::*;

verus! {

/// The media type of the pushed body.
pub const CONTENT_TYPE: &'static str = "application/json";

/// The message for a clock reading that has no calendar date.
pub const INVALID_CLOCK: &'static str = "clock out of range";

/// How a push ended.
#[derive(Clone, Copy, PartialEq, Eq, Debug, Structural)]
pub enum Outcome {
    /// The service answered with a 2xx status.
    Success,
    /// The service answered with a 5xx status.
    ServerFailure,
    /// Any other answer, or no answer at all.
    OtherFailure,
}

/// The body of a push.
#[derive(Clone, PartialEq, Eq, Debug)]
pub struct PostData {
    pub filename: String,
    pub data: String,
    pub last_modified: String,
}

/// A [`PostData`] with its fields as sequences of characters.
pub struct PostDataView {
    pub filename: Seq<char>,
    pub data: Seq<char>,
    pub last_modified: Seq<char>,
}

/// One push: the body and the URL that it goes to.
#[derive(Clone, PartialEq, Eq, Debug)]
pub struct Request {
    pub url: String,
    pub body: PostData,
}

/// A [`Request`] with its texts as sequences of characters.
pub struct RequestView {
    pub url: Seq<char>,
    pub body: PostDataView,
}

impl View for PostData {
    type V = PostDataView;

    open spec fn view(&self) -> PostDataView {
        PostDataView {
            filename: self.filename@,
            data: self.data@,
            last_modified: self.last_modified@,
        }
    }
}

impl View for Request {
    type V = RequestView;

    open spec fn view(&self) -> RequestView {
        RequestView { url: self.url@, body: self.body@ }
    }
}

/// The text of the UTC date and time that lies `secs` seconds and `nanos`
/// nanoseconds after the start of 1970; `None` where there is no such date.
pub uninterp spec fn utc_timestamp(secs: i64, nanos: u32) -> Option<Seq<char>>;

/// Calls `chrono::DateTime::<Utc>::from_timestamp`, which gives the date and
/// time for a Unix timestamp or `None` where it is out of range, and formats
/// what it gives with the `Debug` of `DateTime<Utc>`.
#[verifier::external_body]
fn utc_text(secs: i64, nanos: u32) -> (text: Option<String>)
    ensures
        match utc_timestamp(secs, nanos) {
            Some(t) => text matches Some(s) && s@ == t,
            None => text is None,
        },
{
    match chrono::DateTime::<chrono::Utc>::from_timestamp(secs, nanos) {
        Some(at) => Some(format!("{:?}", at)),
        None => None,
    }
}

/// The whole seconds in `now`, a count of milliseconds.
pub open spec fn clock_secs(now: u64) -> i64 {
    (now / 1000) as i64
}

/// What is left of `now` beyond its whole seconds, in nanoseconds.
pub open spec fn clock_nanos(now: u64) -> u32 {
    ((now % 1000) * 1_000_000) as u32
}

/// The text for a clock reading in milliseconds since the start of 1970.
pub open spec fn timestamp_text(now: u64) -> Option<Seq<char>> {
    utc_timestamp(clock_secs(now), clock_nanos(now))
}

/// The outcome for a response: its status code, or `None` where the request
/// got no response.
pub open spec fn outcome_of(response: Option<u16>) -> Outcome {
    match response {
        Some(code) => if 200 <= code < 300 {
            Outcome::Success
        } else if 500 <= code < 600 {
            Outcome::ServerFailure
        } else {
            Outcome::OtherFailure
        },
        None => Outcome::OtherFailure,
    }
}

impl Outcome {
    /// The status that this outcome puts on show: `Failed` for both failures,
    /// none for a success.
    pub open spec fn surfaced(self) -> Option<StatusView> {
        match self {
            Outcome::Success => None,
            _ => Some(StatusView::Failed),
        }
    }

    /// The status to report for this outcome, if any.
    pub fn status(self) -> (shown: Option<Status>)
        ensures
            match self.surfaced() {
                Some(v) => shown matches Some(s) && s@ == v,
                None => shown is None,
            },
    {
        match self {
            Outcome::Success => None,
            Outcome::ServerFailure => Some(Status::Failed),
            Outcome::OtherFailure => Some(Status::Failed),
        }
    }
}

/// Classifies the answer to a push by its status code. A request that got no
/// response counts as a failure of the other kind.
pub fn classify(response: Option<u16>) -> (outcome: Outcome)
    ensures
        outcome == outcome_of(response),
{
    match response {
        Some(code) => {
            if 200 <= code && code < 300 {
                Outcome::Success
            } else if 500 <= code && code < 600 {
                Outcome::ServerFailure
            } else {
                Outcome::OtherFailure
            }
        },
        None => Outcome::OtherFailure,
    }
}

/// Formats a clock reading, in milliseconds since the start of 1970, as the
/// time stamp of a push.
pub fn timestamp(now: u64) -> (text: Option<String>)
    ensures
        match timestamp_text(now) {
            Some(t) => text matches Some(s) && s@ == t,
            None => text is None,
        },
{
    let secs: i64 = (now / 1000) as i64;
    let nanos: u32 = ((now % 1000) * 1_000_000) as u32;
    utc_text(secs, nanos)
}

} // verus!
