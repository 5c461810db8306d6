//! What holds of every run of the engine.

use crate::encoder::{base64_standard, payload_of, EncodingMode};
use crate::model::{Decision, Event, Phase, PreparedView, Target, REFRACTORY_MILLIS};
use crate::resolver::{law_resolution_empty, resolved_url};
use crate::transfer::timestamp_text;
use vstd::prelude::*;

verus! {

/// One step keeps the books: the attempts in flight after an event are those
/// before it, plus the one that the event begins, less the one that it ends.
pub proof fn lemma_step_in_flight(target: Target, event: Event)
    ensures
        target.next(event).in_flight() == target.in_flight() + (if target.begins(event) {
            1int
        } else {
            0int
        }) - (if target.releases(event) {
            1int
        } else {
            0int
        }),
        target.in_flight() == 0 ==> !target.releases(event),
{
}

/// Mutual exclusion. Whatever events come, in whatever order, at most one
/// upload attempt is in flight: the attempts begun so far exceed the attempts
/// ended so far by one while the target is busy, and by none otherwise.
pub proof fn law_mutual_exclusion(target: Target, events: Seq<Event>)
    ensures
        target.in_flight() + target.begun(events) - target.released(events) == target.run(
            events,
        ).in_flight(),
        target.run(events).in_flight() <= 1,
    decreases events.len(),
{
    if events.len() > 0 {
        law_mutual_exclusion(target, events.drop_last());
        lemma_step_in_flight(target.run(events.drop_last()), events.last());
    }
}

/// An attempt begins only on a target with none in flight, and is then the
/// one in flight.
pub proof fn law_begin_needs_idle(target: Target, event: Event)
    requires
        target.begins(event),
    ensures
        target.phase == Phase::Idle || target.releases(event),
        target.next(event).phase == Phase::Encoding,
{
}

/// `busy` goes from false to true only where an attempt begins, and from true
/// to false only where the attempt's work has ended and the refractory period
/// has passed since.
pub proof fn law_busy_transitions(target: Target, event: Event)
    ensures
        !target.busy() && target.next(event).busy() ==> target.begins(event),
        target.busy() && !target.next(event).busy() ==> target.phase == Phase::Cooldown
            && event.now() - target.ended_at >= REFRACTORY_MILLIS,
{
}

/// The phases follow one another in one order: idle, encoding, sending,
/// cooldown, idle. Encoding may fail straight into cooldown, and an
/// evaluation that ends a cooldown may begin the next attempt at once.
pub proof fn law_phase_order(target: Target, event: Event)
    ensures
        ({
            let before = target.phase;
            let after = target.next(event).phase;
            ||| after == before
            ||| before == Phase::Idle && after == Phase::Encoding
            ||| before == Phase::Encoding && after == Phase::Sending
            ||| before == Phase::Encoding && after == Phase::Cooldown
            ||| before == Phase::Sending && after == Phase::Cooldown
            ||| before == Phase::Cooldown && after == Phase::Idle
            ||| before == Phase::Cooldown && after == Phase::Encoding
        }),
{
}

/// `modified` is cleared by the accepted push of the attempt in flight, and
/// by nothing else.
pub proof fn law_modified_cleared_only_by_success(target: Target, event: Event)
    requires
        target.modified,
        !target.next(event).modified,
    ensures
        event.is_accepted_push(),
        target.phase == Phase::Sending,
        target.next(event).phase == Phase::Cooldown,
{
}

/// Setting the file or the destination leaves the target modified, and ends
/// no attempt that the clock has not ended.
pub proof fn law_reconfiguring_forces_modified(target: Target, event: Event)
    requires
        event is SetFile || event is SetDestination,
    ensures
        target.next(event).modified,
        target.busy() && !target.releases(event) ==> target.next(event).phase == target.phase,
{
}

/// Failure retains `modified`. Through any events among which no push is
/// accepted, a modified target stays modified, however many attempts fail.
pub proof fn law_failure_retains_modified(target: Target, events: Seq<Event>)
    requires
        target.modified,
        forall|i: int| 0 <= i < events.len() ==> !(#[trigger] events[i]).is_accepted_push(),
    ensures
        target.run(events).modified,
    decreases events.len(),
{
    if events.len() > 0 {
        let earlier = events.drop_last();
        assert forall|i: int| 0 <= i < earlier.len() implies !(#[trigger] earlier[i]).is_accepted_push() by {
            assert(earlier[i] == events[i]);
        }
        law_failure_retains_modified(target, earlier);
        assert(!events[events.len() - 1].is_accepted_push());
    }
}

/// Cooldown spacing. From the moment the work of an attempt has ended, no
/// event whose clock reads less than that moment plus the refractory period
/// begins another attempt or ends this one.
pub proof fn law_cooldown_spacing(target: Target, events: Seq<Event>)
    requires
        target.phase == Phase::Cooldown,
        forall|i: int|
            0 <= i < events.len() ==> (#[trigger] events[i]).now() < target.ended_at
                + REFRACTORY_MILLIS,
    ensures
        target.run(events).phase == Phase::Cooldown,
        target.run(events).ended_at == target.ended_at,
        target.begun(events) == 0,
        target.released(events) == 0,
    decreases events.len(),
{
    if events.len() > 0 {
        let earlier = events.drop_last();
        assert forall|i: int| 0 <= i < earlier.len() implies (#[trigger] earlier[i]).now()
            < target.ended_at + REFRACTORY_MILLIS by {
            assert(earlier[i] == events[i]);
        }
        law_cooldown_spacing(target, earlier);
        assert(events[events.len() - 1].now() < target.ended_at + REFRACTORY_MILLIS);
    }
}

/// True where the clock readings of the events never go back.
pub open spec fn clock_runs_forward(events: Seq<Event>) -> bool {
    forall|i: int, j: int|
        0 <= i <= j < events.len() ==> (#[trigger] events[i]).now() <= (#[trigger] events[j]).now()
}

/// Running two sequences of events one after the other is running them joined.
pub proof fn lemma_run_append(target: Target, first: Seq<Event>, second: Seq<Event>)
    ensures
        target.run(first + second) == target.run(first).run(second),
    decreases second.len(),
{
    if second.len() == 0 {
        assert(first + second =~= first);
    } else {
        assert((first + second).drop_last() =~= first + second.drop_last());
        lemma_run_append(target, first, second.drop_last());
    }
}

/// Cooldown spacing along a whole run. Where the clock never goes back, an
/// attempt that begins at event `later` begins no sooner than the refractory
/// period after the work of an attempt ended at event `sooner`.
pub proof fn law_attempts_are_spaced(target: Target, events: Seq<Event>, sooner: int, later: int)
    requires
        clock_runs_forward(events),
        0 <= sooner < later < events.len(),
        target.run(events.take(sooner)).phase != Phase::Cooldown,
        target.run(events.take(sooner)).next(events[sooner]).phase == Phase::Cooldown,
        target.run(events.take(later)).begins(events[later]),
    ensures
        events[later].now() - events[sooner].now() >= REFRACTORY_MILLIS,
{
    let head = events.take(sooner + 1);
    let cooling = target.run(head);
    assert(head.drop_last() =~= events.take(sooner));
    assert(head.last() == events[sooner]);
    assert(cooling == target.run(events.take(sooner)).next(events[sooner]));
    assert(cooling.ended_at == events[sooner].now());
    let between = events.subrange(sooner + 1, later + 1);
    if events[later].now() < cooling.ended_at + REFRACTORY_MILLIS {
        assert forall|i: int| 0 <= i < between.len() implies (#[trigger] between[i]).now()
            < cooling.ended_at + REFRACTORY_MILLIS by {
            assert(between[i] == events[sooner + 1 + i]);
            assert(events[sooner + 1 + i].now() <= events[later].now());
        }
        law_cooldown_spacing(cooling, between);
        assert(head + between.drop_last() =~= events.take(later));
        lemma_run_append(target, head, between.drop_last());
        assert(between.last() == events[later]);
        assert(cooling.run(between.drop_last()).begins(between.last()));
        assert(cooling.begun(between) >= 1);
    }
}

/// What is pushed in base64 mode is the base64 of the file, byte for byte,
/// under the file's name; and no file is refused for what its bytes are.
pub proof fn law_base64_push_carries_the_file(
    target: Target,
    file_name: Seq<char>,
    bytes: Seq<u8>,
    now: u64,
)
    requires
        target.encoding_mode == EncodingMode::Base64,
        target.phase == Phase::Encoding,
    ensures
        match target.prepared(file_name, bytes, now) {
            PreparedView::Send(request) => request.body.data == base64_standard(bytes)
                && request.body.filename == file_name,
            PreparedView::Failed(_) => resolved_url(target.destination_id, file_name).len() == 0
                || timestamp_text(now) is None,
            PreparedView::Ignored => false,
        },
{
}

/// No starvation. A modified target with a file and a destination, and with
/// no attempt in flight once any cooldown that is over has ended, begins an
/// attempt at its very next evaluation.
pub proof fn law_modified_target_begins(target: Target, now: u64, on_disk: bool)
    requires
        target.modified,
        target.path.len() > 0,
        target.destination_id.len() > 0,
        target.phase == Phase::Idle || (target.phase == Phase::Cooldown && target.cooldown_over(
            now,
        )),
    ensures
        target.evaluation(now, on_disk) == Decision::Begin,
        target.evaluated(now, on_disk).phase == Phase::Encoding,
{
}

/// An evaluation while the attempt reads or sends changes nothing, however
/// often it comes.
pub proof fn law_evaluation_in_flight_changes_nothing(target: Target, now: u64, on_disk: bool)
    requires
        target.phase == Phase::Encoding || target.phase == Phase::Sending,
    ensures
        target.evaluated(now, on_disk) == target,
        target.evaluation(now, on_disk) != Decision::Begin,
{
}

/// The events of one upload attempt that meets no obstacle: an evaluation at
/// `now`, the file's bytes, an accepted push, and the evaluation that follows
/// the refractory period.
pub open spec fn smooth_attempt(
    file_name: Seq<char>,
    bytes: Seq<u8>,
    now: u64,
    on_disk: bool,
) -> Seq<Event> {
    seq![
        Event::Tick { now, on_disk },
        Event::FileRead { file_name, bytes, now },
        Event::PushDone { response: Some(200u16), now },
        Event::Tick { now: (now + REFRACTORY_MILLIS) as u64, on_disk },
    ]
}

/// Eventual convergence. A target with a file and a destination is not
/// starved: wherever its attempt stands, once any cooldown is over, one more
/// round of evaluation, read, accepted push and evaluation leaves it idle and
/// not modified. The file must have a name, a payload in the target's mode and
/// a time stamp.
pub proof fn law_eventual_convergence(
    target: Target,
    file_name: Seq<char>,
    bytes: Seq<u8>,
    now: u64,
    on_disk: bool,
)
    requires
        target.path.len() > 0,
        target.destination_id.len() > 0,
        file_name.len() > 0,
        payload_of(target.encoding_mode, bytes) is Some,
        timestamp_text(now) is Some,
        now + REFRACTORY_MILLIS <= u64::MAX,
        target.phase == Phase::Cooldown ==> target.cooldown_over(now),
    ensures
        !target.run(smooth_attempt(file_name, bytes, now, on_disk)).modified,
        target.run(smooth_attempt(file_name, bytes, now, on_disk)).phase == Phase::Idle,
{
    let events = smooth_attempt(file_name, bytes, now, on_disk);
    let e0 = events.take(0);
    let e1 = events.take(1);
    let e2 = events.take(2);
    let e3 = events.take(3);
    law_resolution_empty(target.destination_id, file_name);
    assert(e1.drop_last() =~= e0);
    assert(e2.drop_last() =~= e1);
    assert(e3.drop_last() =~= e2);
    assert(events.drop_last() =~= e3);
    let t0 = target.run(e0);
    assert(t0 == target);
    let t1 = target.run(e1);
    assert(t1 == t0.next(events[0]));
    let t2 = target.run(e2);
    assert(t2 == t1.next(events[1]));
    let t3 = target.run(e3);
    assert(t3 == t2.next(events[2]));
    assert(target.run(events) == t3.next(events[3]));
}

} // verus!
