//! The sync target as a mathematical value, and the transitions that the
//! engine makes on it. The executable engine is specified against this model,
//! and the laws of the engine are proved of it.

use crate::encoder::{payload_of, EncodingMode, INVALID_TEXT};
use crate::resolver::resolved_url;
use crate::status::{Status, StatusView};
use crate::transfer::{outcome_of, timestamp_text, Outcome, PostDataView, RequestView, INVALID_CLOCK};
use vstd::prelude::*;

verus! {

/// The refractory period after an upload attempt, in seconds.
pub const REFRACTORY_PERIOD: u64 = 3;

/// The refractory period in milliseconds, the unit of every clock reading.
pub const REFRACTORY_MILLIS: u64 = REFRACTORY_PERIOD * 1000;

/// The window within which change notifications count as one, in milliseconds.
pub const DEBOUNCE_MILLIS: u64 = 250;

/// The time between two periodic evaluations, in milliseconds.
pub const TICK_MILLIS: u64 = 1000;

/// Where the upload attempt of a target stands.
#[derive(Clone, Copy, PartialEq, Eq, Debug, Structural)]
pub enum Phase {
    /// No attempt is in flight.
    Idle,
    /// The attempt waits for the file's bytes.
    Encoding,
    /// The attempt waits for the answer to its push.
    Sending,
    /// The attempt's work is over and its refractory period runs.
    Cooldown,
}

/// What one evaluation of the target decides.
#[derive(Clone, Copy, PartialEq, Eq, Debug, Structural)]
pub enum Decision {
    /// No file is watched, or a changed file has no destination to go to.
    Unavailable,
    /// An upload attempt begins now: the file is to be read.
    Begin,
    /// An attempt is in flight already; no other begins.
    InFlight,
    /// Nothing is to be sent and the file is on disk.
    Synced,
    /// Nothing is to be sent and the file is not on disk.
    Missing,
}

impl Decision {
    /// The status that goes with this decision.
    pub open spec fn shown(self) -> StatusView {
        match self {
            Decision::Unavailable => StatusView::Unavailable,
            Decision::Begin => StatusView::Uploading,
            Decision::InFlight => StatusView::Uploading,
            Decision::Synced => StatusView::Synced,
            Decision::Missing => StatusView::Missing,
        }
    }

    /// The status to report for this decision.
    pub fn status(self) -> (shown: Status)
        ensures
            shown@ == self.shown(),
    {
        match self {
            Decision::Unavailable => Status::Unavailable,
            Decision::Begin => Status::Uploading,
            Decision::InFlight => Status::Uploading,
            Decision::Synced => Status::Synced,
            Decision::Missing => Status::Missing,
        }
    }
}

/// What the engine answers once the file has been read.
pub enum PreparedView {
    /// The push to make; the attempt now waits for its answer.
    Send(RequestView),
    /// The attempt failed before any push, with the status to report; its
    /// refractory period has begun.
    Failed(StatusView),
    /// No attempt was waiting for the file; nothing changed.
    Ignored,
}

/// The sync target: the watched file, where it goes, and how far the upload
/// attempt has come.
pub struct Target {
    /// The watched file; empty while none is set.
    pub path: Seq<char>,
    /// Who receives the uploads; empty while uploads are off.
    pub destination_id: Seq<char>,
    pub encoding_mode: EncodingMode,
    /// True from a local change until a push of the file is accepted.
    pub modified: bool,
    pub phase: Phase,
    /// The clock reading at which the work of the last attempt ended. It is
    /// read only during the cooldown.
    pub ended_at: u64,
}

/// Something that happens to a target, with the clock reading at which it
/// happens and, where an evaluation follows, whether the file is on disk.
pub enum Event {
    /// The periodic evaluation.
    Tick { now: u64, on_disk: bool },
    /// The watcher reports a change of the file.
    Changed { now: u64, on_disk: bool },
    /// The session sets the watched file.
    SetFile { path: Seq<char>, now: u64, on_disk: bool },
    /// The session sets the destination.
    SetDestination { id: Seq<char>, now: u64, on_disk: bool },
    /// The session sets the encoding mode.
    SetEncoding { mode: EncodingMode, now: u64, on_disk: bool },
    /// The bytes of the file have been read.
    FileRead { file_name: Seq<char>, bytes: Seq<u8>, now: u64 },
    /// The file could not be read.
    ReadFailed { now: u64 },
    /// The push has been answered, or has failed without an answer.
    PushDone { response: Option<u16>, now: u64 },
}

impl Event {
    /// The clock reading of the event.
    pub open spec fn now(self) -> u64 {
        match self {
            Event::Tick { now, .. } => now,
            Event::Changed { now, .. } => now,
            Event::SetFile { now, .. } => now,
            Event::SetDestination { now, .. } => now,
            Event::SetEncoding { now, .. } => now,
            Event::FileRead { now, .. } => now,
            Event::ReadFailed { now } => now,
            Event::PushDone { now, .. } => now,
        }
    }

    /// True of the answer that clears `modified`: a push that was accepted.
    pub open spec fn is_accepted_push(self) -> bool {
        self matches Event::PushDone { response, .. } && outcome_of(response) == Outcome::Success
    }

    /// What an event that ends in an evaluation does to the target before the
    /// evaluation; `None` for the events of an attempt, which evaluate nothing.
    pub open spec fn applied(self, target: Target) -> Option<Target> {
        match self {
            Event::Tick { .. } => Some(target),
            Event::Changed { .. } => Some(target.touched()),
            Event::SetFile { path, .. } => Some(target.with_path(path)),
            Event::SetDestination { id, .. } => Some(target.with_destination(id)),
            Event::SetEncoding { mode, .. } => Some(target.with_mode(mode)),
            _ => None,
        }
    }

    /// Whether the file is on disk, for the events that end in an evaluation.
    pub open spec fn on_disk(self) -> bool {
        match self {
            Event::Tick { on_disk, .. } => on_disk,
            Event::Changed { on_disk, .. } => on_disk,
            Event::SetFile { on_disk, .. } => on_disk,
            Event::SetDestination { on_disk, .. } => on_disk,
            Event::SetEncoding { on_disk, .. } => on_disk,
            _ => false,
        }
    }
}

impl Target {
    /// The target of a new session: nothing watched, no destination, base64.
    pub open spec fn initial() -> Target {
        Target {
            path: Seq::empty(),
            destination_id: Seq::empty(),
            encoding_mode: EncodingMode::Base64,
            modified: false,
            phase: Phase::Idle,
            ended_at: 0,
        }
    }

    /// True while an upload attempt is in flight, its cooldown included.
    pub open spec fn busy(self) -> bool {
        self.phase != Phase::Idle
    }

    /// True where the cooldown of the last attempt is over at `now`.
    pub open spec fn cooldown_over(self, now: u64) -> bool {
        now - self.ended_at >= REFRACTORY_MILLIS
    }

    /// The target with its cooldown ended, where it is over at `now`.
    pub open spec fn cooled(self, now: u64) -> Target {
        if self.phase == Phase::Cooldown && self.cooldown_over(now) {
            Target { phase: Phase::Idle, ..self }
        } else {
            self
        }
    }

    /// The target after a change of the watched file.
    pub open spec fn touched(self) -> Target {
        Target { modified: true, ..self }
    }

    /// The target with another file to watch, which is yet to be uploaded.
    pub open spec fn with_path(self, path: Seq<char>) -> Target {
        Target { path, modified: true, ..self }
    }

    /// The target with another destination, which is yet to receive the file.
    pub open spec fn with_destination(self, id: Seq<char>) -> Target {
        Target { destination_id: id, modified: true, ..self }
    }

    /// The target with another encoding mode.
    pub open spec fn with_mode(self, mode: EncodingMode) -> Target {
        Target { encoding_mode: mode, ..self }
    }

    /// The decision table of the scheduler.
    pub open spec fn decision(self, on_disk: bool) -> Decision {
        if self.path.len() == 0 {
            Decision::Unavailable
        } else if self.modified && !self.busy() {
            if self.destination_id.len() == 0 {
                Decision::Unavailable
            } else {
                Decision::Begin
            }
        } else if self.busy() {
            Decision::InFlight
        } else if on_disk {
            Decision::Synced
        } else {
            Decision::Missing
        }
    }

    /// The target after the decision: an attempt that begins is in flight.
    pub open spec fn decided(self, on_disk: bool) -> Target {
        if self.decision(on_disk) == Decision::Begin {
            Target { phase: Phase::Encoding, ..self }
        } else {
            self
        }
    }

    /// What an evaluation at `now` decides: the cooldown ends first where it
    /// is over, then the table is read.
    pub open spec fn evaluation(self, now: u64, on_disk: bool) -> Decision {
        self.cooled(now).decision(on_disk)
    }

    /// The target after an evaluation at `now`.
    pub open spec fn evaluated(self, now: u64, on_disk: bool) -> Target {
        self.cooled(now).decided(on_disk)
    }

    /// What the engine answers to the bytes of the file. The push goes to the
    /// URL of the destination and the file's name, and carries the name, the
    /// payload in the target's mode, and the time stamp for `now`.
    pub open spec fn prepared(self, file_name: Seq<char>, bytes: Seq<u8>, now: u64) -> PreparedView {
        if self.phase != Phase::Encoding {
            PreparedView::Ignored
        } else if resolved_url(self.destination_id, file_name).len() == 0 {
            PreparedView::Failed(StatusView::Unavailable)
        } else {
            match (payload_of(self.encoding_mode, bytes), timestamp_text(now)) {
                (None, _) => PreparedView::Failed(StatusView::IoFailure(INVALID_TEXT@)),
                (Some(_), None) => PreparedView::Failed(StatusView::IoFailure(INVALID_CLOCK@)),
                (Some(data), Some(last_modified)) => PreparedView::Send(
                    RequestView {
                        url: resolved_url(self.destination_id, file_name),
                        body: PostDataView { filename: file_name, data, last_modified },
                    },
                ),
            }
        }
    }

    /// The target once the work of its attempt has ended at `now`.
    pub open spec fn cooling(self, now: u64) -> Target {
        Target { phase: Phase::Cooldown, ended_at: now, ..self }
    }

    /// The target after the bytes of the file have been read.
    pub open spec fn after_read(self, file_name: Seq<char>, bytes: Seq<u8>, now: u64) -> Target {
        match self.prepared(file_name, bytes, now) {
            PreparedView::Ignored => self,
            PreparedView::Send(_) => Target { phase: Phase::Sending, ..self },
            PreparedView::Failed(_) => self.cooling(now),
        }
    }

    /// The target after the file could not be read.
    pub open spec fn after_read_failure(self, now: u64) -> Target {
        if self.phase == Phase::Encoding {
            self.cooling(now)
        } else {
            self
        }
    }

    /// The target after its push has ended: `modified` is cleared by a
    /// success and by nothing else.
    pub open spec fn after_push(self, response: Option<u16>, now: u64) -> Target {
        if self.phase == Phase::Sending {
            Target {
                modified: self.modified && outcome_of(response) != Outcome::Success,
                ..self.cooling(now)
            }
        } else {
            self
        }
    }

    /// The target after one event.
    pub open spec fn next(self, event: Event) -> Target {
        match event {
            Event::FileRead { file_name, bytes, now } => self.after_read(file_name, bytes, now),
            Event::ReadFailed { now } => self.after_read_failure(now),
            Event::PushDone { response, now } => self.after_push(response, now),
            _ => event.applied(self)->0.evaluated(event.now(), event.on_disk()),
        }
    }

    /// True where the event makes an upload attempt begin.
    pub open spec fn begins(self, event: Event) -> bool {
        event.applied(self) matches Some(target) && target.evaluation(event.now(), event.on_disk())
            == Decision::Begin
    }

    /// True where the event ends the attempt in flight: its cooldown is over.
    pub open spec fn releases(self, event: Event) -> bool {
        event.applied(self) matches Some(target) && target.phase == Phase::Cooldown
            && target.cooldown_over(event.now())
    }

    /// The target after the events, in order.
    pub open spec fn run(self, events: Seq<Event>) -> Target
        decreases events.len(),
    {
        if events.len() == 0 {
            self
        } else {
            self.run(events.drop_last()).next(events.last())
        }
    }

    /// How many upload attempts begin in the course of the events.
    pub open spec fn begun(self, events: Seq<Event>) -> nat
        decreases events.len(),
    {
        if events.len() == 0 {
            0
        } else {
            let earlier = self.begun(events.drop_last());
            if self.run(events.drop_last()).begins(events.last()) {
                earlier + 1
            } else {
                earlier
            }
        }
    }

    /// How many upload attempts end in the course of the events.
    pub open spec fn released(self, events: Seq<Event>) -> nat
        decreases events.len(),
    {
        if events.len() == 0 {
            0
        } else {
            let earlier = self.released(events.drop_last());
            if self.run(events.drop_last()).releases(events.last()) {
                earlier + 1
            } else {
                earlier
            }
        }
    }

    /// How many upload attempts are in flight: one while busy, else none.
    pub open spec fn in_flight(self) -> nat {
        if self.busy() {
            1
        } else {
            0
        }
    }
}

} // verus!
