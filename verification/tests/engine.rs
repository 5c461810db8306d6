use scoutfile::encoder::EncodingMode;
use scoutfile::engine::{Prepared, ScoutFile};
use scoutfile::model::{
    Decision, Phase, DEBOUNCE_MILLIS, REFRACTORY_MILLIS, REFRACTORY_PERIOD, TICK_MILLIS,
};
use scoutfile::status::Status;
use scoutfile::transfer::{Outcome, PostData, Request};

const T0: u64 = 1_700_000_000_000;

fn configured(b64: bool) -> ScoutFile {
    let mut scout = ScoutFile::new();
    scout.set_b64(b64, T0, false);
    scout.set_pantry_id("abc123", T0, false);
    scout
}

fn sending(b64: bool) -> ScoutFile {
    let mut scout = configured(b64);
    assert_eq!(scout.set_file("/tmp/match.dvw".to_string(), T0, true), Decision::Begin);
    match scout.file_read("match.dvw", b"point".to_vec(), T0) {
        Prepared::Send(_) => {}
        other => panic!("no push was prepared: {:?}", other),
    }
    scout
}

#[test]
fn constants_of_the_schedule() {
    assert_eq!(REFRACTORY_PERIOD, 3);
    assert_eq!(REFRACTORY_MILLIS, 3000);
    assert_eq!(DEBOUNCE_MILLIS, 250);
    assert_eq!(TICK_MILLIS, 1000);
}

#[test]
fn new_session_is_empty() {
    let mut scout = ScoutFile::new();
    assert_eq!(scout.path(), "");
    assert_eq!(scout.get_pantry_id(), "");
    assert!(scout.get_b64());
    assert_eq!(scout.encoding_mode(), EncodingMode::Base64);
    assert!(!scout.is_modified());
    assert!(!scout.is_busy());
    assert_eq!(scout.phase(), Phase::Idle);
}

#[test]
fn without_a_file_the_target_is_unavailable() {
    let mut scout = ScoutFile::new();
    assert_eq!(scout.evaluate(T0, false), Decision::Unavailable);
    assert_eq!(scout.evaluate(T0, true), Decision::Unavailable);
    assert_eq!(scout.set_pantry_id("abc123", T0, true), Decision::Unavailable);
    assert_eq!(scout.file_changed(T0, true), Decision::Unavailable);
    assert!(!scout.is_busy());
    assert_eq!(Decision::Unavailable.status().message(), "na");
}

#[test]
fn setters_store_what_they_are_given() {
    let mut scout = ScoutFile::new();
    scout.set_pantry_id("abc123", T0, false);
    assert_eq!(scout.get_pantry_id(), "abc123");
    scout.set_b64(false, T0, false);
    assert!(!scout.get_b64());
    assert_eq!(scout.encoding_mode(), EncodingMode::Text);
    scout.set_b64(true, T0, false);
    assert!(scout.get_b64());
    scout.set_file("/tmp/match.dvw".to_string(), T0, true);
    assert_eq!(scout.path(), "/tmp/match.dvw");
}

#[test]
fn setting_the_file_marks_it_modified_and_begins() {
    let mut scout = configured(true);
    assert!(scout.is_modified());
    assert_eq!(scout.set_file("/tmp/match.dvw".to_string(), T0, true), Decision::Begin);
    assert!(scout.is_modified());
    assert!(scout.is_busy());
    assert_eq!(scout.phase(), Phase::Encoding);
}

#[test]
fn setting_the_destination_marks_modified() {
    let mut scout = ScoutFile::new();
    scout.set_file("/tmp/match.dvw".to_string(), T0, true);
    assert_eq!(scout.set_pantry_id("abc123", T0, true), Decision::Begin);
    assert_eq!(scout.file_read("match.dvw", b"x".to_vec(), T0), sent("eA==", "abc123"));
    assert_eq!(scout.push_done(Some(200), T0), Some(Outcome::Success));
    assert!(!scout.is_modified());
    assert_eq!(scout.set_pantry_id("other", T0 + 1, true), Decision::InFlight);
    assert!(scout.is_modified());
    assert!(scout.is_busy());
}

fn sent(data: &str, destination: &str) -> Prepared {
    Prepared::Send(Request {
        url: format!("https://getpantry.cloud/apiv1/pantry/{}/match.dvw", destination),
        body: PostData {
            filename: "match.dvw".to_string(),
            data: data.to_string(),
            last_modified: "2023-11-14T22:13:20Z".to_string(),
        },
    })
}

#[test]
fn toggling_the_mode_does_not_mark_modified() {
    let mut scout = ScoutFile::new();
    scout.set_b64(false, T0, true);
    assert!(!scout.is_modified());
}

#[test]
fn write_is_pushed_as_text_and_status_goes_ok_uploading_ok() {
    let mut scout = configured(false);
    assert_eq!(scout.set_file("/tmp/match.dvw".to_string(), T0, true), Decision::Begin);
    assert!(matches!(scout.file_read("match.dvw", b"first".to_vec(), T0), Prepared::Send(_)));
    assert_eq!(scout.push_done(Some(200), T0), Some(Outcome::Success));
    let idle_at = T0 + REFRACTORY_MILLIS;
    let before = scout.evaluate(idle_at, true);
    assert_eq!(before.status().message(), "ok");

    let changed_at = idle_at + DEBOUNCE_MILLIS;
    let decision = scout.file_changed(changed_at, true);
    assert_eq!(decision, Decision::Begin);
    assert_eq!(decision.status().message(), "uploading");
    assert!(changed_at - idle_at <= 1250);

    let prepared = scout.file_read("match.dvw", b"set 1: 25-23\n".to_vec(), changed_at);
    let request = match prepared {
        Prepared::Send(request) => request,
        other => panic!("no push was prepared: {:?}", other),
    };
    assert_eq!(request.url, "https://getpantry.cloud/apiv1/pantry/abc123/match.dvw");
    assert_eq!(request.body.filename, "match.dvw");
    assert_eq!(request.body.data, "set 1: 25-23\n");
    assert_eq!(request.body.last_modified, "2023-11-14T22:13:23.250Z");
    assert_eq!(scout.phase(), Phase::Sending);

    assert_eq!(scout.evaluate(changed_at + 100, true).status().message(), "uploading");
    assert_eq!(scout.push_done(Some(200), changed_at + 200), Some(Outcome::Success));
    assert!(!scout.is_modified());
    assert_eq!(scout.evaluate(changed_at + 1000, true).status().message(), "uploading");
    let after = scout.evaluate(changed_at + 200 + REFRACTORY_MILLIS, true);
    assert_eq!(after, Decision::Synced);
    assert_eq!(after.status().message(), "ok");
    assert!(!scout.is_busy());
}

#[test]
fn without_a_destination_the_status_stays_na_and_nothing_is_sent() {
    let mut scout = ScoutFile::new();
    assert_eq!(scout.evaluate(T0, true).status().message(), "na");
    let decision = scout.set_file("/tmp/match.dvw".to_string(), T0, true);
    assert_eq!(decision, Decision::Unavailable);
    assert_eq!(decision.status().message(), "na");
    for tick in 1..10u64 {
        let decision = scout.file_changed(T0 + tick * TICK_MILLIS, true);
        assert_eq!(decision.status().message(), "na");
        assert_eq!(scout.evaluate(T0 + tick * TICK_MILLIS + 1, true), Decision::Unavailable);
        assert!(!scout.is_busy());
    }
    assert!(scout.is_modified());
    assert_eq!(scout.file_read("match.dvw", b"x".to_vec(), T0), Prepared::Ignored);
    assert_eq!(scout.push_done(Some(200), T0), None);
    assert!(scout.is_modified());
}

#[test]
fn deleted_file_becomes_missing_once_synced() {
    let mut scout = sending(true);
    assert_eq!(scout.push_done(Some(201), T0), Some(Outcome::Success));
    let later = T0 + REFRACTORY_MILLIS;
    assert_eq!(scout.evaluate(later, true), Decision::Synced);
    let decision = scout.evaluate(later + TICK_MILLIS, false);
    assert_eq!(decision, Decision::Missing);
    assert_eq!(decision.status(), Status::Missing);
    assert_ne!(decision.status().message(), "ok");
    assert!(!scout.is_busy());
    assert_eq!(scout.evaluate(later + 2 * TICK_MILLIS, true), Decision::Synced);
}

#[test]
fn deleted_file_fails_the_attempt_that_tries_to_read_it() {
    let mut scout = sending(true);
    scout.push_done(Some(200), T0);
    let later = T0 + REFRACTORY_MILLIS;
    assert_eq!(scout.file_changed(later, false), Decision::Begin);
    let shown = scout.read_failed("No such file or directory (os error 2)", later);
    assert_eq!(shown, Some(Status::IoFailure("No such file or directory ".to_string())));
    assert!(scout.is_modified());
    assert_eq!(scout.phase(), Phase::Cooldown);
}

#[test]
fn only_one_attempt_is_in_flight() {
    let mut scout = configured(true);
    let mut begun = 0;
    if scout.set_file("/tmp/match.dvw".to_string(), T0, true) == Decision::Begin {
        begun += 1;
    }
    for step in 0..50u64 {
        let decision = if step % 2 == 0 {
            scout.evaluate(T0 + step, true)
        } else {
            scout.file_changed(T0 + step, true)
        };
        if decision == Decision::Begin {
            begun += 1;
        }
        assert_eq!(decision, Decision::InFlight);
    }
    assert_eq!(begun, 1);
    assert_eq!(scout.phase(), Phase::Encoding);
}

#[test]
fn base64_push_carries_the_encoded_bytes() {
    let mut scout = configured(true);
    scout.set_file("/tmp/match.dvw".to_string(), T0, true);
    let prepared = scout.file_read("match.dvw", vec![0xff, 0xfe], T0);
    assert_eq!(prepared, sent("//4=", "abc123"));
}

#[test]
fn text_mode_refuses_bytes_that_are_no_text() {
    let mut scout = configured(false);
    scout.set_file("/tmp/match.dvw".to_string(), T0, true);
    let prepared = scout.file_read("match.dvw", vec![0xff, 0xfe], T0);
    assert_eq!(
        prepared,
        Prepared::Failed(Status::IoFailure("stream did not contain valid UTF-8".to_string()))
    );
    assert_eq!(scout.phase(), Phase::Cooldown);
    assert!(scout.is_modified());
    assert!(scout.is_busy());
}

#[test]
fn mode_at_the_time_of_reading_counts() {
    let mut scout = configured(true);
    scout.set_file("/tmp/match.dvw".to_string(), T0, true);
    assert_eq!(scout.set_b64(false, T0, true), Decision::InFlight);
    assert_eq!(scout.file_read("match.dvw", b"x".to_vec(), T0), sent("x", "abc123"));
}

#[test]
fn attempt_without_a_file_name_is_unavailable() {
    let mut scout = configured(true);
    scout.set_file("/tmp/match.dvw".to_string(), T0, true);
    let prepared = scout.file_read("", b"x".to_vec(), T0);
    assert_eq!(prepared, Prepared::Failed(Status::Unavailable));
    assert_eq!(scout.phase(), Phase::Cooldown);
}

#[test]
fn attempt_whose_destination_was_cleared_is_unavailable() {
    let mut scout = configured(true);
    scout.set_file("/tmp/match.dvw".to_string(), T0, true);
    assert_eq!(scout.set_pantry_id("", T0, true), Decision::InFlight);
    let prepared = scout.file_read("match.dvw", b"x".to_vec(), T0);
    assert_eq!(prepared, Prepared::Failed(Status::Unavailable));
}

#[test]
fn attempt_with_a_clock_beyond_the_calendar_fails() {
    let mut scout = configured(true);
    scout.set_file("/tmp/match.dvw".to_string(), u64::MAX, true);
    let prepared = scout.file_read("match.dvw", b"x".to_vec(), u64::MAX);
    assert_eq!(prepared, Prepared::Failed(Status::IoFailure("clock out of range".to_string())));
    assert_eq!(scout.phase(), Phase::Cooldown);
}

#[test]
fn steps_out_of_turn_change_nothing() {
    let mut scout = configured(true);
    scout.set_file("/tmp/match.dvw".to_string(), T0, true);
    assert_eq!(scout.push_done(Some(200), T0), None);
    assert_eq!(scout.phase(), Phase::Encoding);
    assert!(scout.is_modified());
    scout.file_read("match.dvw", b"x".to_vec(), T0);
    assert_eq!(scout.file_read("match.dvw", b"y".to_vec(), T0), Prepared::Ignored);
    assert_eq!(scout.read_failed("gone (os error 2)", T0), None);
    assert_eq!(scout.phase(), Phase::Sending);
    scout.push_done(Some(500), T0);
    assert_eq!(scout.push_done(Some(200), T0), None);
    assert_eq!(scout.file_read("match.dvw", b"y".to_vec(), T0), Prepared::Ignored);
    assert_eq!(scout.read_failed("gone", T0), None);
    assert_eq!(scout.phase(), Phase::Cooldown);
    assert!(scout.is_modified());
}

#[test]
fn server_failures_never_clear_modified() {
    let mut scout = configured(true);
    scout.set_file("/tmp/match.dvw".to_string(), T0, true);
    let mut now = T0;
    for _ in 0..25 {
        assert_eq!(scout.phase(), Phase::Encoding);
        assert!(matches!(scout.file_read("match.dvw", b"x".to_vec(), now), Prepared::Send(_)));
        let outcome = scout.push_done(Some(503), now);
        assert_eq!(outcome, Some(Outcome::ServerFailure));
        assert_eq!(outcome.unwrap().status(), Some(Status::Failed));
        assert!(scout.is_modified());
        now += REFRACTORY_MILLIS;
        assert_eq!(scout.evaluate(now, true), Decision::Begin);
        assert!(scout.is_modified());
    }
}

#[test]
fn other_failures_and_lost_requests_keep_modified() {
    let mut scout = sending(true);
    assert_eq!(scout.push_done(Some(404), T0), Some(Outcome::OtherFailure));
    assert!(scout.is_modified());
    assert_eq!(scout.evaluate(T0 + REFRACTORY_MILLIS, true), Decision::Begin);
    scout.file_read("match.dvw", b"x".to_vec(), T0 + REFRACTORY_MILLIS);
    assert_eq!(scout.push_done(None, T0 + REFRACTORY_MILLIS), Some(Outcome::OtherFailure));
    assert!(scout.is_modified());
}

#[test]
fn no_attempt_begins_before_the_cooldown_is_over() {
    let mut scout = sending(true);
    let ended = T0 + 40;
    scout.push_done(Some(500), ended);
    assert_eq!(scout.phase(), Phase::Cooldown);
    for now in [ended, ended + 1, ended + 1000, ended + 2999] {
        assert_eq!(scout.evaluate(now, true), Decision::InFlight);
        assert_eq!(scout.file_changed(now, true), Decision::InFlight);
        assert!(scout.is_busy());
    }
    assert_eq!(scout.evaluate(ended + 3000, true), Decision::Begin);
    assert_eq!(scout.phase(), Phase::Encoding);
}

#[test]
fn cooldown_holds_while_the_clock_reads_earlier_than_its_start() {
    let mut scout = sending(true);
    scout.push_done(Some(500), T0 + 5000);
    assert_eq!(scout.evaluate(T0, true), Decision::InFlight);
    assert_eq!(scout.evaluate(0, true), Decision::InFlight);
    assert_eq!(scout.phase(), Phase::Cooldown);
}

#[test]
fn cooldown_follows_a_failed_read_too() {
    let mut scout = configured(true);
    scout.set_file("/tmp/match.dvw".to_string(), T0, false);
    scout.read_failed("Permission denied (os error 13)", T0 + 7);
    assert_eq!(scout.evaluate(T0 + 3006, false), Decision::InFlight);
    assert_eq!(scout.evaluate(T0 + 3007, false), Decision::Begin);
}

#[test]
fn cooldown_after_success_ends_in_synced() {
    let mut scout = sending(true);
    scout.push_done(Some(200), T0);
    assert_eq!(scout.evaluate(T0 + 2999, true), Decision::InFlight);
    assert!(scout.is_busy());
    assert_eq!(scout.evaluate(T0 + 3000, true), Decision::Synced);
    assert!(!scout.is_busy());
}

#[test]
fn modified_target_converges_once_the_push_is_accepted() {
    let mut scout = sending(false);
    scout.push_done(Some(500), T0);
    assert!(scout.is_modified());
    let now = T0 + REFRACTORY_MILLIS;
    assert_eq!(scout.evaluate(now, true), Decision::Begin);
    assert!(matches!(scout.file_read("match.dvw", b"x".to_vec(), now), Prepared::Send(_)));
    assert_eq!(scout.push_done(Some(200), now), Some(Outcome::Success));
    assert_eq!(scout.evaluate(now + REFRACTORY_MILLIS, true), Decision::Synced);
    assert!(!scout.is_modified());
    assert_eq!(scout.phase(), Phase::Idle);
}

#[test]
fn change_during_cooldown_is_picked_up_after_it() {
    let mut scout = sending(true);
    scout.push_done(Some(200), T0);
    assert!(!scout.is_modified());
    assert_eq!(scout.file_changed(T0 + 10, true), Decision::InFlight);
    assert!(scout.is_modified());
    assert_eq!(scout.evaluate(T0 + REFRACTORY_MILLIS, true), Decision::Begin);
}

#[test]
fn changing_the_path_while_busy_does_not_stop_the_attempt() {
    let mut scout = sending(true);
    assert_eq!(scout.set_file("/tmp/other.vsm".to_string(), T0 + 1, true), Decision::InFlight);
    assert_eq!(scout.phase(), Phase::Sending);
    assert_eq!(scout.path(), "/tmp/other.vsm");
    assert!(scout.is_modified());
}

#[test]
fn unsetting_the_path_reports_unavailable_even_while_busy() {
    let mut scout = sending(true);
    assert_eq!(scout.set_file(String::new(), T0 + 1, false), Decision::Unavailable);
    assert!(scout.is_busy());
}

#[test]
fn live_data_url_of_the_watched_file() {
    let mut scout = configured(true);
    assert_eq!(
        scout.get_live_data_url("my match.dvw", true),
        "https://getpantry.cloud/apiv1/pantry/abc123/my%20match.dvw"
    );
    assert_eq!(scout.get_live_data_url("my match.dvw", false), "");
    assert_eq!(scout.get_live_data_url("", true), "");
    assert_eq!(ScoutFile::new().get_live_data_url("match.dvw", true), "");
    assert_eq!(scout.get_pantry_id(), "abc123");
}
