//! The sync engine: the state of one sync target and the steps that the host
//! drives it through.
//!
//! A step takes what the host has seen (a clock reading in milliseconds,
//! whether the file is on disk, the bytes that were read, the answer to a
//! push) and answers with what the host is to do. No step blocks, and every
//! step may be taken at any time: one that comes out of turn changes nothing.

use crate::encoder::{encode_payload, nice_err, stripped, EncodingMode};
use crate::model::{Decision, Event, Phase, PreparedView, Target, REFRACTORY_MILLIS};
use crate::resolver::{basket_name, get_basket_name, live_data_url, make_live_data_url, resolve};
use crate::status::{Status, StatusView};
use crate::transfer::{classify, outcome_of, timestamp, Outcome, PostData, Request, INVALID_CLOCK};
use vstd::prelude::*;

verus! {

/// What the engine answers once the file has been read.
#[derive(Clone, PartialEq, Eq, Debug)]
pub enum Prepared {
    /// The push to make; the attempt now waits for its answer.
    Send(Request),
    /// The attempt failed before any push, with the status to report; its
    /// refractory period has begun.
    Failed(Status),
    /// No attempt was waiting for the file; nothing changed.
    Ignored,
}

impl View for Prepared {
    type V = PreparedView;

    open spec fn view(&self) -> PreparedView {
        match self {
            Prepared::Send(request) => PreparedView::Send(request@),
            Prepared::Failed(status) => PreparedView::Failed(status@),
            Prepared::Ignored => PreparedView::Ignored,
        }
    }
}

/// The sync state of one watched file.
pub struct ScoutFile {
    path: String,
    pantry_id: String,
    encoding_mode: EncodingMode,
    modified: bool,
    phase: Phase,
    ended_at: u64,
}

impl View for ScoutFile {
    type V = Target;

    closed spec fn view(&self) -> Target {
        Target {
            path: self.path@,
            destination_id: self.pantry_id@,
            encoding_mode: self.encoding_mode,
            modified: self.modified,
            phase: self.phase,
            ended_at: self.ended_at,
        }
    }
}

impl ScoutFile {
    /// The state of a new session: no file, no destination, base64 mode,
    /// nothing to upload and no attempt in flight.
    pub fn new() -> (scout: ScoutFile)
        ensures
            scout@ == Target::initial(),
    {
        ScoutFile {
            path: String::new(),
            pantry_id: String::new(),
            encoding_mode: EncodingMode::Base64,
            modified: false,
            phase: Phase::Idle,
            ended_at: 0,
        }
    }

    /// Ends the cooldown where it is over at `now`.
    fn cool(&mut self, now: u64)
        ensures
            final(self)@ == old(self)@.cooled(now),
    {
        if self.phase == Phase::Cooldown && now >= self.ended_at && now - self.ended_at
            >= REFRACTORY_MILLIS {
            self.phase = Phase::Idle;
        }
    }

    /// Starts the cooldown of the attempt whose work ended at `now`.
    fn begin_cooldown(&mut self, now: u64)
        ensures
            final(self)@ == old(self)@.cooling(now),
    {
        self.phase = Phase::Cooldown;
        self.ended_at = now;
    }

    /// Evaluates the target at clock reading `now`, with `on_disk` saying
    /// whether the watched file exists. A cooldown that is over ends first.
    /// Then, in this order: with no file set the target is unavailable; a
    /// modified target with no attempt in flight begins one, or is unavailable
    /// where it has no destination; a target with an attempt in flight stays
    /// as it is; any other target is synced or missing, as the file is on
    /// disk or not. Only a decision to begin changes the target further: the
    /// attempt is then in flight.
    pub fn evaluate(&mut self, now: u64, on_disk: bool) -> (decision: Decision)
        ensures
            decision == old(self)@.evaluation(now, on_disk),
            final(self)@ == old(self)@.evaluated(now, on_disk),
            final(self)@ == old(self)@.next((Event::Tick { now, on_disk })),
    {
        self.cool(now);
        if self.path.as_str().is_empty() {
            Decision::Unavailable
        } else if self.modified && self.phase == Phase::Idle {
            if self.pantry_id.as_str().is_empty() {
                Decision::Unavailable
            } else {
                self.phase = Phase::Encoding;
                Decision::Begin
            }
        } else if self.phase != Phase::Idle {
            Decision::InFlight
        } else if on_disk {
            Decision::Synced
        } else {
            Decision::Missing
        }
    }

    /// Records a change of the watched file, then evaluates.
    pub fn file_changed(&mut self, now: u64, on_disk: bool) -> (decision: Decision)
        ensures
            decision == old(self)@.touched().evaluation(now, on_disk),
            final(self)@ == old(self)@.touched().evaluated(now, on_disk),
            final(self)@ == old(self)@.next((Event::Changed { now, on_disk })),
    {
        self.modified = true;
        self.evaluate(now, on_disk)
    }

    /// Sets the file to watch, which is then yet to be uploaded, and
    /// evaluates. An attempt in flight goes on.
    pub fn set_file(&mut self, path: String, now: u64, on_disk: bool) -> (decision: Decision)
        ensures
            decision == old(self)@.with_path(path@).evaluation(now, on_disk),
            final(self)@ == old(self)@.with_path(path@).evaluated(now, on_disk),
            final(self)@ == old(self)@.next((Event::SetFile { path: path@, now, on_disk })),
    {
        self.path = path;
        self.modified = true;
        self.evaluate(now, on_disk)
    }

    /// Sets the destination, which is then yet to receive the file, and
    /// evaluates. An attempt in flight goes on.
    pub fn set_pantry_id(&mut self, pantry_id: &str, now: u64, on_disk: bool) -> (decision:
        Decision)
        ensures
            decision == old(self)@.with_destination(pantry_id@).evaluation(now, on_disk),
            final(self)@ == old(self)@.with_destination(pantry_id@).evaluated(now, on_disk),
            final(self)@ == old(self)@.next(
                (Event::SetDestination { id: pantry_id@, now, on_disk }),
            ),
    {
        self.pantry_id = pantry_id.to_owned();
        self.modified = true;
        self.evaluate(now, on_disk)
    }

    /// Sets the encoding mode, base64 for `true` and text for `false`, and
    /// evaluates.
    pub fn set_b64(&mut self, b64: bool, now: u64, on_disk: bool) -> (decision: Decision)
        ensures
            decision == old(self)@.with_mode(mode_of(b64)).evaluation(now, on_disk),
            final(self)@ == old(self)@.with_mode(mode_of(b64)).evaluated(now, on_disk),
            final(self)@ == old(self)@.next(
                (Event::SetEncoding { mode: mode_of(b64), now, on_disk }),
            ),
    {
        self.encoding_mode = if b64 {
            EncodingMode::Base64
        } else {
            EncodingMode::Text
        };
        self.evaluate(now, on_disk)
    }

    /// Takes the bytes of the file, read for the attempt in flight, and the
    /// file's name. Answers with the push to make: to the URL of the
    /// destination and the name, with the name, the payload in the current
    /// mode and the time stamp of `now`. Where there is no URL, no payload or
    /// no time stamp, the attempt fails with the status to report and its
    /// cooldown begins at `now`. Where no attempt waits for the file, nothing
    /// changes.
    pub fn file_read(&mut self, file_name: &str, bytes: Vec<u8>, now: u64) -> (prepared: Prepared)
        ensures
            prepared@ == old(self)@.prepared(file_name@, bytes@, now),
            final(self)@ == old(self)@.after_read(file_name@, bytes@, now),
            final(self)@ == old(self)@.next(
                (Event::FileRead { file_name: file_name@, bytes: bytes@, now }),
            ),
    {
        if self.phase != Phase::Encoding {
            return Prepared::Ignored;
        }
        let url = resolve(self.pantry_id.as_str(), file_name);
        if url.as_str().is_empty() {
            self.begin_cooldown(now);
            return Prepared::Failed(Status::Unavailable);
        }
        let data = match encode_payload(self.encoding_mode, bytes) {
            Ok(data) => data,
            Err(message) => {
                self.begin_cooldown(now);
                return Prepared::Failed(Status::IoFailure(message));
            },
        };
        let last_modified = match timestamp(now) {
            Some(text) => text,
            None => {
                self.begin_cooldown(now);
                return Prepared::Failed(Status::IoFailure(INVALID_CLOCK.to_owned()));
            },
        };
        self.phase = Phase::Sending;
        Prepared::Send(
            Request { url, body: PostData { filename: file_name.to_owned(), data, last_modified } },
        )
    }

    /// Takes the raw text of the error with which reading the file failed.
    /// The attempt in flight fails with that text, less its platform suffix,
    /// as the status to report, and its cooldown begins at `now`. Where no
    /// attempt waits for the file, nothing changes and nothing is reported.
    pub fn read_failed(&mut self, error_text: &str, now: u64) -> (shown: Option<Status>)
        ensures
            final(self)@ == old(self)@.after_read_failure(now),
            final(self)@ == old(self)@.next((Event::ReadFailed { now })),
            match shown {
                Some(status) => old(self)@.phase == Phase::Encoding && status@
                    == StatusView::IoFailure(stripped(error_text@)),
                None => old(self)@.phase != Phase::Encoding,
            },
    {
        if self.phase != Phase::Encoding {
            return None;
        }
        self.begin_cooldown(now);
        Some(Status::IoFailure(nice_err(error_text)))
    }

    /// Takes the answer to the push of the attempt in flight: the status code
    /// of the response, or `None` where the request got none. A success
    /// clears `modified`; a failure leaves it. Either way the cooldown begins
    /// at `now`. Where no attempt waits for an answer, nothing changes.
    pub fn push_done(&mut self, response: Option<u16>, now: u64) -> (outcome: Option<Outcome>)
        ensures
            final(self)@ == old(self)@.after_push(response, now),
            final(self)@ == old(self)@.next((Event::PushDone { response, now })),
            match outcome {
                Some(o) => old(self)@.phase == Phase::Sending && o == outcome_of(response),
                None => old(self)@.phase != Phase::Sending,
            },
    {
        if self.phase != Phase::Sending {
            return None;
        }
        let outcome = classify(response);
        if outcome == Outcome::Success {
            self.modified = false;
        }
        self.begin_cooldown(now);
        Some(outcome)
    }

    /// The URL that the watched file is pushed to, given the file's name and
    /// whether the file is on disk. It is empty where there is no destination
    /// or no such file.
    pub fn get_live_data_url(&mut self, file_name: &str, on_disk: bool) -> (url: String)
        ensures
            *final(self) == *old(self),
            url@ == live_data_url(old(self)@.destination_id, basket_name(file_name@, on_disk)),
    {
        make_live_data_url(self.pantry_id.clone(), get_basket_name(file_name, on_disk))
    }

    /// True in base64 mode, false in text mode.
    pub fn get_b64(&mut self) -> (b64: bool)
        ensures
            *final(self) == *old(self),
            b64 == (old(self)@.encoding_mode == EncodingMode::Base64),
    {
        self.encoding_mode == EncodingMode::Base64
    }

    /// The destination identifier.
    pub fn get_pantry_id(&mut self) -> (pantry_id: String)
        ensures
            *final(self) == *old(self),
            pantry_id@ == old(self)@.destination_id,
    {
        self.pantry_id.clone()
    }

    /// The watched file; empty while none is set.
    pub fn path(&self) -> (path: String)
        ensures
            path@ == self@.path,
    {
        self.path.clone()
    }

    /// The encoding mode.
    pub fn encoding_mode(&self) -> (mode: EncodingMode)
        ensures
            mode == self@.encoding_mode,
    {
        self.encoding_mode
    }

    /// True from a local change until a push of the file is accepted.
    pub fn is_modified(&self) -> (modified: bool)
        ensures
            modified == self@.modified,
    {
        self.modified
    }

    /// True while an upload attempt is in flight, its cooldown included.
    pub fn is_busy(&self) -> (busy: bool)
        ensures
            busy == self@.busy(),
    {
        self.phase != Phase::Idle
    }

    /// Where the upload attempt stands.
    pub fn phase(&self) -> (phase: Phase)
        ensures
            phase == self@.phase,
    {
        self.phase
    }
}

/// The encoding mode that a base64 flag stands for.
pub open spec fn mode_of(b64: bool) -> EncodingMode {
    if b64 {
        EncodingMode::Base64
    } else {
        EncodingMode::Text
    }
}

} // verus!
