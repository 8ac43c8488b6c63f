use door_watch::{Consts, DoorPosition, Duration, Secret, State};

fn test_consts() -> Consts {
    Consts {
        discord_token: Secret(String::from("SECRET-REDACTED")),
        discord_ping_loop_interval: Duration(1),
        discord_presence_loop_interval: Duration(1),
        discord_log_loop_interval: Duration(1),
        discord_ping_channel: String::from("pings"),
        discord_log_channel: String::from("log"),
        missing_loop_interval: Duration(1),
        missing_timeout: Duration(60),
        starting_ping_interval: Duration(10),
    }
}

#[test]
fn fresh_state_is_missing_with_no_clocks() {
    let s = State::new(test_consts());
    assert_eq!(*s.status(), DoorPosition::Missing);
    assert_eq!(s.last_update, None);
    assert_eq!(s.open_time, None);
    assert_eq!(s.pings_sent, 0);
    assert_eq!(s.current_ping_interval, Duration(10));
    assert!(!s.discord_init);
}

#[test]
fn status_follows_last_report() {
    let mut s = State::new(test_consts());
    s.open(1);
    assert_eq!(*s.status(), DoorPosition::Open);
    s.open(2);
    assert_eq!(*s.status(), DoorPosition::Open);
    s.close(3);
    assert_eq!(*s.status(), DoorPosition::Closed);
    s.missing();
    assert_eq!(*s.status(), DoorPosition::Missing);
    s.open(4);
    assert_eq!(*s.status(), DoorPosition::Open);
    s.missing();
    assert_eq!(*s.status(), DoorPosition::Missing);
    s.close(5);
    assert_eq!(*s.status(), DoorPosition::Closed);
}

#[test]
fn close_resets_backoff_and_count() {
    let mut s = State::new(test_consts());
    s.open(0);
    s.ping_sent();
    s.ping_sent();
    assert_eq!(s.pings_sent, 2);
    assert_eq!(s.current_ping_interval, Duration(40));
    s.close(100);
    assert_eq!(s.pings_sent, 0);
    assert_eq!(s.current_ping_interval, Duration(10));
    assert_eq!(s.open_time, None);
    assert_eq!(s.last_update, Some(100));
}

#[test]
fn repeated_open_keeps_open_time() {
    let mut s = State::new(test_consts());
    s.open(3);
    assert_eq!(s.open_time, Some(3));
    s.open(9);
    assert_eq!(s.open_time, Some(3));
    assert_eq!(s.last_update, Some(9));
}

#[test]
fn open_after_close_restarts_open_time() {
    let mut s = State::new(test_consts());
    s.open(3);
    s.close(5);
    s.open(8);
    assert_eq!(s.open_time, Some(8));
}

#[test]
fn timeout_boundaries() {
    let mut s = State::new(test_consts());
    s.open(0);
    s.check_timeout(59);
    assert_eq!(*s.status(), DoorPosition::Open);
    s.check_timeout(60);
    assert_eq!(*s.status(), DoorPosition::Open);
    s.check_timeout(61);
    assert_eq!(*s.status(), DoorPosition::Missing);
    // the demotion touches nothing but the status
    assert_eq!(s.last_update, Some(0));
    assert_eq!(s.open_time, Some(0));
}

#[test]
fn timeout_is_noop_when_missing() {
    let mut s = State::new(test_consts());
    s.open(0);
    s.missing();
    s.check_timeout(1_000_000);
    assert_eq!(*s.status(), DoorPosition::Missing);
    assert_eq!(s.last_update, Some(0));
}

#[test]
fn timeout_is_noop_without_last_update() {
    let mut s = State::new(test_consts());
    // a door that has never reported is not auto-demoted; force the odd
    // combination directly
    s.status = DoorPosition::Open;
    s.check_timeout(1_000_000);
    assert_eq!(s.status, DoorPosition::Open);
}

#[test]
fn closed_never_pings() {
    let mut s = State::new(test_consts());
    s.open(0);
    s.close(1);
    assert_eq!(s.check_send_ping(0), None);
    assert_eq!(s.check_send_ping(i64::MAX), None);
    assert_eq!(s.check_send_ping(i64::MIN), None);
    s.open_time = Some(i64::MIN);
    s.last_update = Some(i64::MIN);
    assert_eq!(s.check_send_ping(i64::MAX), None);
}

#[test]
fn open_ping_fires_after_interval() {
    let mut s = State::new(test_consts());
    s.open(0);
    assert_eq!(s.check_send_ping(5), None);
    assert_eq!(s.check_send_ping(10), None);
    let msg = s.check_send_ping(11);
    assert_eq!(msg, Some(String::from("@everyone Door is open for PT10S")));
}

#[test]
fn missing_ping_fires_after_interval() {
    let mut s = State::new(test_consts());
    // a fresh missing state has no last update, so no alert is ever due
    assert_eq!(s.check_send_ping(i64::MAX), None);
    s.open(0);
    s.missing();
    assert_eq!(s.check_send_ping(10), None);
    let msg = s.check_send_ping(11);
    assert_eq!(msg, Some(String::from("@everyone Door is missing for PT10S")));
}

#[test]
fn backoff_doubles_per_ping() {
    let mut s = State::new(test_consts());
    s.open(0);
    for n in 0..5u32 {
        assert_eq!(s.current_ping_interval, Duration(10 * (1u32 << n)));
        assert_eq!(s.pings_sent, n);
        s.ping_sent();
    }
    assert_eq!(s.current_ping_interval, Duration(320));
    assert_eq!(s.pings_sent, 5);
}

#[test]
fn end_to_end_open_ping_close() {
    let mut s = State::new(test_consts());
    assert_eq!(*s.status(), DoorPosition::Missing);
    assert_eq!(s.last_update, None);
    assert_eq!(s.open_time, None);
    s.open(0);
    assert_eq!(*s.status(), DoorPosition::Open);
    assert_eq!(s.open_time, Some(0));
    assert_eq!(s.check_send_ping(5), None);
    let msg = s.check_send_ping(11);
    assert_eq!(msg, Some(String::from("@everyone Door is open for PT10S")));
    s.ping_sent();
    assert_eq!(s.current_ping_interval, Duration(20));
    // due again once the elapsed open time exceeds the doubled backoff
    assert!(s.check_send_ping(25).is_some());
    assert_eq!(s.check_send_ping(20), None);
    s.close(40);
    assert_eq!(*s.status(), DoorPosition::Closed);
    assert_eq!(s.pings_sent, 0);
    assert_eq!(s.current_ping_interval, Duration(10));
}

#[test]
fn unrecognized_keeps_clocks() {
    let mut s = State::new(test_consts());
    s.open(7);
    s.ping_sent();
    let last_update = s.last_update;
    let open_time = s.open_time;
    let pings = s.pings_sent;
    let interval = s.current_ping_interval;
    s.missing();
    assert_eq!(*s.status(), DoorPosition::Missing);
    assert_eq!(s.last_update, last_update);
    assert_eq!(s.open_time, open_time);
    assert_eq!(s.pings_sent, pings);
    assert_eq!(s.current_ping_interval, interval);
}

#[test]
fn report_code_maps_bytes() {
    let mut s = State::new(test_consts());
    assert!(s.report_code(b'0', 2));
    assert_eq!(*s.status(), DoorPosition::Open);
    assert_eq!(s.open_time, Some(2));
    assert!(s.report_code(b'1', 3));
    assert_eq!(*s.status(), DoorPosition::Closed);
    assert!(!s.report_code(b'9', 4));
    assert_eq!(*s.status(), DoorPosition::Missing);
    // an unrecognized byte leaves the clocks alone
    assert_eq!(s.last_update, Some(3));
}

#[test]
fn display_and_presence_names() {
    assert_eq!(DoorPosition::Open.display_name(), "open");
    assert_eq!(DoorPosition::Closed.display_name(), "closed");
    assert_eq!(DoorPosition::Missing.display_name(), "missing");
    assert_eq!(DoorPosition::Open.presence_name(), "Open");
    assert_eq!(DoorPosition::Closed.presence_name(), "Closed");
    assert_eq!(DoorPosition::Missing.presence_name(), "Missing");
    assert_eq!(
        DoorPosition::Closed.transition_message(),
        String::from("Status updated to closed.")
    );
}

#[test]
fn leak_keeps_the_value() {
    let r: &'static mut u64 = door_watch::leak(41u64);
    *r += 1;
    assert_eq!(*r, 42);
}
