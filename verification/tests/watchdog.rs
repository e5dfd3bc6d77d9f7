//! Busy is not wedged.

use uds_policy::watchdog::{
    heartbeat_from, heartbeat_turn, notify_ready, notify_to, pet, InFlight, Liveness, Notification,
    NotifyTarget, ServeActivity,
};
use uds_policy::{Duration, Instant};

fn idle_ceiling() -> Duration {
    Duration::from_secs(90)
}

/// The shape a daemon under a watchdog with an armed accept timeout uses.
fn watched() -> Liveness {
    Liveness::new().with_idle_tick_ceiling(idle_ceiling())
}

fn start() -> Instant {
    Instant::at(Duration::from_secs(1_000))
}

fn after(span: Duration) -> Instant {
    start().later_by(span)
}

#[test]
fn idle_loop_with_fresh_tick_is_alive() {
    let mut activity = ServeActivity::new(start());
    activity.tick(start());
    let now = after(Duration::from_secs(10));
    assert!(activity.is_alive(now, &watched()));
}

#[test]
fn idle_loop_with_stale_tick_is_wedged() {
    let mut activity = ServeActivity::new(start());
    activity.tick(start());
    let now = after(idle_ceiling()).later_by(Duration::from_secs(10));
    assert!(!activity.is_alive(now, &watched()));
}

#[test]
fn idle_loop_without_accept_timeout_is_trusted() {
    // No idle ceiling: the loop blocks in accept() while idle, so a stale tick
    // is expected and must not stop the pets.
    let mut activity = ServeActivity::new(start());
    activity.tick(start());
    let now = after(idle_ceiling()).later_by(Duration::from_secs(3600));
    assert!(activity.is_alive(now, &Liveness::new()));
}

#[test]
fn long_running_bounded_call_within_ceiling_is_busy_not_wedged() {
    // A handler blocked in a slow privileged tool far past the watchdog window
    // is busy: the pets must continue even though the loop has not ticked for
    // minutes.
    let mut activity = ServeActivity::new(start());
    activity.call_started(InFlight::Bounded, start());
    let now = after(Duration::from_secs(300));
    assert!(activity.is_alive(now, &watched()));
}

#[test]
fn bounded_call_overstaying_the_ceiling_is_wedged() {
    let mut activity = ServeActivity::new(start());
    activity.call_started(InFlight::Bounded, start());
    let now = after(Liveness::new().longest_bounded_call).later_by(Duration::from_secs(10));
    assert!(!activity.is_alive(now, &watched()));
}

/// A subscription holds the connection open by design.
#[test]
fn an_open_stream_is_not_a_wedge() {
    let mut activity = ServeActivity::new(start());
    activity.call_started(InFlight::Streaming, start());
    let a_whole_day = after(Duration::from_secs(86_400));
    assert!(activity.is_alive(a_whole_day, &watched()));
}

/// A daemon whose streams do have a keepalive of their own can opt into a
/// progress ceiling, and then a silent stream is a wedge.
#[test]
fn a_stream_that_stops_progressing_is_wedged_once_a_ceiling_is_set() {
    let liveness = watched().with_silent_stream_ceiling(Duration::from_secs(60));
    let mut activity = ServeActivity::new(start());
    activity.call_started(InFlight::Streaming, start());

    let within = after(Duration::from_secs(30));
    assert!(activity.is_alive(within, &liveness));

    let past = after(Duration::from_secs(90));
    assert!(!activity.is_alive(past, &liveness));
}

#[test]
fn stamping_progress_keeps_a_watched_stream_alive() {
    let liveness = watched().with_silent_stream_ceiling(Duration::from_secs(60));
    let mut activity = ServeActivity::new(start());
    activity.call_started(InFlight::Streaming, start());
    activity.progressed(start());
    let now = after(Duration::from_secs(30));
    assert!(activity.is_alive(now, &liveness));
}

/// Progress on a bounded call must not extend its ceiling: a call that could
/// reset its own deadline could never be wedged.
#[test]
fn progress_does_not_extend_a_bounded_call() {
    let mut activity = ServeActivity::new(start());
    activity.call_started(InFlight::Bounded, start());
    activity.progressed(start());
    let now = after(Liveness::new().longest_bounded_call).later_by(Duration::from_secs(10));
    assert!(!activity.is_alive(now, &watched()));
}

#[test]
fn finished_call_returns_to_idle_liveness() {
    let mut activity = ServeActivity::new(start());
    activity.call_started(InFlight::Bounded, start());
    activity.call_finished(start());
    let now = after(Duration::from_secs(10));
    assert!(activity.is_alive(now, &watched()));
    let stale = after(idle_ceiling()).later_by(Duration::from_secs(10));
    assert!(!activity.is_alive(stale, &watched()));
}

#[test]
fn no_watchdog_env_means_no_heartbeat() {
    assert_eq!(heartbeat_from(None, None, 42), None);
}

#[test]
fn heartbeat_is_half_the_configured_timeout() {
    // WatchdogSec=60 -> WATCHDOG_USEC=60_000_000 -> pet every 30s.
    assert_eq!(
        heartbeat_from(Some("60000000"), None, 42),
        Some(Duration::from_secs(30))
    );
}

#[test]
fn honors_watchdog_pid_when_it_matches() {
    assert_eq!(
        heartbeat_from(Some("2000000"), Some("42"), 42),
        Some(Duration::from_secs(1))
    );
}

#[test]
fn ignores_watchdog_aimed_at_another_pid() {
    assert_eq!(heartbeat_from(Some("2000000"), Some("99"), 42), None);
}

#[test]
fn rejects_zero_and_malformed_timeouts() {
    assert_eq!(heartbeat_from(Some("0"), None, 42), None);
    assert_eq!(heartbeat_from(Some("not-a-number"), None, 42), None);
}

#[test]
fn odd_spellings_of_watchdog_settings() {
    assert_eq!(
        heartbeat_from(Some("+5"), Some("+42"), 42),
        Some(Duration::from_micros(2))
    );
    assert_eq!(heartbeat_from(Some("1"), None, 42), Some(Duration::from_secs(0)));
    assert_eq!(heartbeat_from(Some("-2"), None, 42), None);
    assert_eq!(heartbeat_from(Some(""), None, 42), None);
    assert_eq!(heartbeat_from(Some("2"), Some(""), 42), None);
    assert_eq!(heartbeat_from(Some("2"), Some("4294967338"), 42), None);
    assert_eq!(
        heartbeat_from(Some("18446744073709551615"), None, 42),
        Some(Duration::from_micros(9_223_372_036_854_775_807))
    );
    assert_eq!(heartbeat_from(Some("18446744073709551616"), None, 42), None);
}

#[test]
fn the_ceilings_themselves_are_still_alive() {
    let mut activity = ServeActivity::new(start());
    assert!(activity.is_alive(after(idle_ceiling()), &watched()));
    let just_past = after(idle_ceiling()).later_by(Duration::new(0, 1));
    assert!(!activity.is_alive(just_past, &watched()));
    activity.call_started(InFlight::Bounded, start());
    assert!(activity.is_alive(after(Duration::from_secs(600)), &watched()));
    assert!(!activity.is_alive(after(Duration::new(600, 1)), &watched()));
}

#[test]
fn a_late_stamp_keeps_a_long_stream_alive() {
    let liveness = watched().with_silent_stream_ceiling(Duration::from_secs(60));
    let mut activity = ServeActivity::new(start());
    activity.call_started(InFlight::Streaming, start());
    activity.progressed(after(Duration::from_secs(5_000)));
    assert!(activity.is_alive(after(Duration::from_secs(5_060)), &liveness));
    assert!(!activity.is_alive(after(Duration::from_secs(5_061)), &liveness));
}

#[test]
fn progress_without_a_call_changes_nothing() {
    let mut activity = ServeActivity::new(start());
    activity.progressed(after(Duration::from_secs(80)));
    assert!(!activity.is_alive(after(Duration::from_secs(91)), &watched()));
}

#[test]
fn the_defaults_trust_streams_and_idle_loops() {
    let liveness = Liveness::default().with_longest_bounded_call(Duration::from_secs(1));
    assert_eq!(liveness.idle_tick_ceiling, None);
    assert_eq!(liveness.longest_silent_stream, None);
    assert_eq!(liveness.longest_bounded_call, Duration::from_millis(1_000));
    assert_eq!(Liveness::new().longest_bounded_call, Duration::from_secs(600));
}

#[test]
fn notifications_go_where_the_service_manager_listens() {
    assert_eq!(
        notify_ready(Some("/run/systemd/notify")),
        Some(Notification {
            target: NotifyTarget::Path("/run/systemd/notify".to_owned()),
            message: "READY=1",
        })
    );
    assert_eq!(
        pet(Some("@abstract")),
        Some(Notification {
            target: NotifyTarget::Abstract("abstract".to_owned()),
            message: "WATCHDOG=1",
        })
    );
    assert_eq!(pet(None), None);
}

#[test]
fn empty_and_missing_socket_paths_are_silent_noops() {
    assert_eq!(notify_to("", "WATCHDOG=1"), None);
    assert_eq!(
        notify_to("/nonexistent/uds-policy/notify.sock", "WATCHDOG=1"),
        Some(Notification {
            target: NotifyTarget::Path("/nonexistent/uds-policy/notify.sock".to_owned()),
            message: "WATCHDOG=1",
        })
    );
}

#[test]
fn the_heartbeat_pets_a_living_loop_only() {
    let activity = ServeActivity::new(start());
    let soon = after(Duration::from_secs(1));
    assert_eq!(
        heartbeat_turn(Some(&activity), soon, &watched(), Some("/n")),
        pet(Some("/n"))
    );
    let late = after(Duration::from_secs(1_000));
    assert_eq!(heartbeat_turn(Some(&activity), late, &watched(), Some("/n")), None);
    // A record that its keeper panicked over is no sign of life.
    assert_eq!(heartbeat_turn(None, soon, &watched(), Some("/n")), None);
}

#[test]
fn a_wedged_loop_stays_wedged() {
    let activity = ServeActivity::new(start());
    for secs in [91, 92, 1_000, 1_000_000] {
        assert!(!activity.is_alive(after(Duration::from_secs(secs)), &watched()));
    }
}
