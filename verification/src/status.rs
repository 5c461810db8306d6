//! The statuses that the engine reports, and the text each is shown as.

use vstd::prelude::*;

verus! {

/// What the engine tells its observer about the watched file.
#[derive(Clone, PartialEq, Eq, Debug)]
pub enum Status {
    /// No file is watched, or no destination is configured.
    Unavailable,
    /// An upload attempt is in flight, cooldown included.
    Uploading,
    /// The remote basket holds the file's latest contents.
    Synced,
    /// The last push was not accepted.
    Failed,
    /// The watched file is not on disk.
    Missing,
    /// The file could not be read or encoded; the text says why.
    IoFailure(String),
}

/// A [`Status`] with its text as a sequence of characters.
pub enum StatusView {
    Unavailable,
    Uploading,
    Synced,
    Failed,
    Missing,
    IoFailure(Seq<char>),
}

pub const TEXT_UNAVAILABLE: &'static str = "na";

pub const TEXT_UPLOADING: &'static str = "uploading";

pub const TEXT_SYNCED: &'static str = "ok";

pub const TEXT_FAILED: &'static str = "failed";

pub const TEXT_MISSING: &'static str = "file does not exist";

impl View for Status {
    type V = StatusView;

    open spec fn view(&self) -> StatusView {
        match self {
            Status::Unavailable => StatusView::Unavailable,
            Status::Uploading => StatusView::Uploading,
            Status::Synced => StatusView::Synced,
            Status::Failed => StatusView::Failed,
            Status::Missing => StatusView::Missing,
            Status::IoFailure(text) => StatusView::IoFailure(text@),
        }
    }
}

impl StatusView {
    /// The text that an observer receives for this status.
    pub open spec fn message(self) -> Seq<char> {
        match self {
            StatusView::Unavailable => TEXT_UNAVAILABLE@,
            StatusView::Uploading => TEXT_UPLOADING@,
            StatusView::Synced => TEXT_SYNCED@,
            StatusView::Failed => TEXT_FAILED@,
            StatusView::Missing => TEXT_MISSING@,
            StatusView::IoFailure(text) => text,
        }
    }
}

impl Status {
    /// The text that an observer receives for this status. An I/O failure is
    /// shown by its own text, so an observer tells it from the fixed statuses
    /// only by comparing with the texts it knows.
    pub fn message(&self) -> (text: String)
        ensures
            text@ == self@.message(),
    {
        match self {
            Status::Unavailable => TEXT_UNAVAILABLE.to_owned(),
            Status::Uploading => TEXT_UPLOADING.to_owned(),
            Status::Synced => TEXT_SYNCED.to_owned(),
            Status::Failed => TEXT_FAILED.to_owned(),
            Status::Missing => TEXT_MISSING.to_owned(),
            Status::IoFailure(text) => text.clone(),
        }
    }
}

} // verus!
