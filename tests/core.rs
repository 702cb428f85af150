use leafcast::connection_details::{ConnectionDetails, MAX_DELAY_MS, MIN_DELAY_MS};
use leafcast::incoming::ScreenStatus;
use leafcast::json::JsonValue;
use leafcast::message_handler::{
    frame_ends_reading, frame_event, Action, Frame, LinkState, MessageHandler, Msg, SETTLE_DELAY_MS,
};
use leafcast::outgoing::{PiStatus, Response};
use leafcast::watchdog::{Watchdog, WATCHDOG_WINDOW_MS};

#[test]
fn backoff_grows_then_caps() {
    let mut details = ConnectionDetails::new();
    assert_eq!(details.get_delay_ms(), MIN_DELAY_MS);
    let mut seen = vec![details.get_delay_ms()];
    for _ in 0..10 {
        details.fail_connect();
        seen.push(details.get_delay_ms());
    }
    assert_eq!(
        seen,
        vec![1000, 2000, 4000, 8000, 16000, 32000, 60000, 60000, 60000, 60000, 60000]
    );
    assert!(seen.windows(2).all(|w| w[0] <= w[1]));
    assert_eq!(*seen.last().unwrap(), MAX_DELAY_MS);
    assert!(!details.is_alive());
}

#[test]
fn backoff_resets_after_success() {
    let mut details = ConnectionDetails::new();
    details.fail_connect();
    details.fail_connect();
    details.fail_connect();
    assert_eq!(details.get_delay_ms(), 8000);
    details.valid_connect();
    assert!(details.is_alive());
    assert_eq!(details.get_delay_ms(), MIN_DELAY_MS);
    details.fail_connect();
    assert_eq!(details.get_delay_ms(), 2000);
}

#[test]
fn watchdog_quiet_with_pings() {
    let mut w = Watchdog::new(0);
    let mut now = 0u64;
    for _ in 0..10 {
        now += 39_999;
        assert!(!w.check(now));
        w.reset(now);
    }
    assert_eq!(w.deadline_ms(), now + WATCHDOG_WINDOW_MS);
}

#[test]
fn watchdog_fires_exactly_once() {
    let mut w = Watchdog::new(1_000);
    assert!(!w.check(40_999));
    assert!(w.check(41_000));
    assert!(!w.check(41_001));
    assert!(!w.check(500_000));
    w.reset(500_000);
    assert!(!w.check(539_999));
    assert!(w.check(540_000));
}

fn connected(now: u64) -> MessageHandler {
    let mut h = MessageHandler::new();
    let acts = h.start();
    assert!(matches!(acts.as_slice(), [Action::Connect { delay_ms: 1000 }]));
    let acts = h.step(Msg::WsConnected, now);
    assert_eq!(h.link(), LinkState::Connected);
    assert!(matches!(
        acts.as_slice(),
        [
            Action::ArmWatchdog { after_ms: 40000 },
            Action::PushStatus { delay_ms: 0, unique: None }
        ]
    ));
    h
}

#[test]
fn router_switch_then_status() {
    let mut h = connected(0);
    let acts = h.step(Msg::ScreenOn, 10);
    assert!(matches!(
        acts.as_slice(),
        [
            Action::Toggle { status: ScreenStatus::On, unique: None },
            Action::PushStatus { delay_ms: SETTLE_DELAY_MS, unique: None }
        ]
    ));
    assert_eq!(SETTLE_DELAY_MS, 250);
    let acts = h.step(Msg::Status, 11);
    assert!(matches!(acts.as_slice(), [Action::PushStatus { delay_ms: 0, unique: None }]));
}

#[test]
fn router_command_carries_token() {
    let mut h = connected(0);
    let doc = JsonValue::Object(vec![
        (
            String::from("data"),
            JsonValue::Object(vec![(String::from("name"), JsonValue::Str(String::from("screen_on")))]),
        ),
        (String::from("unique"), JsonValue::Str(String::from("abc"))),
    ]);
    let acts = h.step(Msg::Received(Some(doc)), 5);
    match acts.as_slice() {
        [Action::Toggle { status: ScreenStatus::On, unique: Some(a) }, Action::PushStatus { delay_ms: 250, unique: Some(b) }] => {
            assert_eq!(a, "abc");
            assert_eq!(b, "abc");
        }
        other => panic!("unexpected {other:?}"),
    }
    assert!(h.step(Msg::Received(None), 6).is_empty());
    assert!(h.step(Msg::DeviceError(String::from("busctl failed"), None), 7).is_empty());
    let acts = h.step(Msg::DeviceError(String::from("busctl failed"), Some(String::from("abc"))), 7);
    match acts.as_slice() {
        [Action::Send(JsonValue::Object(fields))] => {
            assert_eq!(fields.len(), 2);
            assert_eq!(fields[1].0, "unique");
        }
        other => panic!("unexpected {other:?}"),
    }
}

#[test]
fn router_close_schedules_one_attempt() {
    for close in [Msg::WsClose, Msg::WatchdogExpired] {
        let mut h = connected(0);
        let acts = h.step(close, 40_000);
        assert!(matches!(
            acts.as_slice(),
            [Action::CloseSocket, Action::Connect { delay_ms: 1000 }]
        ));
        assert_eq!(h.link(), LinkState::Connecting);
        // a second close while the attempt is pending schedules nothing
        assert!(h.step(Msg::WsClose, 40_001).is_empty());
        assert!(h.step(Msg::WatchdogExpired, 90_000).is_empty());
        // the attempt fails: exactly one more, after a longer wait
        let acts = h.step(Msg::ConnectFailed, 41_000);
        assert!(matches!(acts.as_slice(), [Action::Connect { delay_ms: 2000 }]));
    }
}

#[test]
fn router_watchdog_reset_by_ping() {
    let mut h = connected(0);
    assert!(h.step(Msg::WatchdogExpired, 39_999).is_empty());
    let acts = h.step(Msg::Ping, 39_999);
    assert!(matches!(acts.as_slice(), [Action::ArmWatchdog { after_ms: 40000 }]));
    assert!(h.step(Msg::WatchdogExpired, 40_000).is_empty());
    assert_eq!(h.link(), LinkState::Connected);
    let acts = h.step(Msg::WatchdogExpired, 79_999);
    assert_eq!(acts.len(), 2);
}

#[test]
fn router_defers_switch_while_disconnected() {
    let mut h = MessageHandler::new();
    h.start();
    assert!(h.step(Msg::ScreenOff, 0).is_empty());
    assert!(h.step(Msg::Status, 0).is_empty());
    let acts = h.step(Msg::WsConnected, 100);
    assert!(matches!(
        acts.as_slice(),
        [
            Action::ArmWatchdog { .. },
            Action::Toggle { status: ScreenStatus::Off, unique: None },
            Action::PushStatus { delay_ms: 250, unique: None },
            Action::PushStatus { delay_ms: 0, unique: None }
        ]
    ));
}

#[test]
fn router_sends_only_when_connected() {
    let status = || PiStatus {
        ip_address: String::from("UNKNOWN"),
        screen_status: None,
        time_off: (0, 0),
        time_on: (0, 0),
        timezone: String::from("Etc/UTC"),
        uptime_app: 0,
        uptime_ws: 0,
        uptime: 0,
        version: String::from("0.1.0"),
    };
    let mut h = MessageHandler::new();
    h.start();
    assert!(h.step(Msg::ToSend(Response::Status(status()), None), 0).is_empty());
    let mut h = connected(0);
    let acts = h.step(Msg::ToSend(Response::Status(status()), None), 1);
    assert!(matches!(acts.as_slice(), [Action::Send(JsonValue::Object(_))]));
}

#[test]
fn router_exit_stops_everything() {
    let mut h = connected(0);
    let acts = h.step(Msg::Exit, 1);
    assert!(matches!(acts.as_slice(), [Action::CloseSocket, Action::Stop]));
    assert_eq!(h.link(), LinkState::Stopped);
    assert!(h.step(Msg::WsConnected, 2).is_empty());
    assert!(h.step(Msg::ScreenOn, 2).is_empty());

    let mut idle = MessageHandler::new();
    let acts = idle.step(Msg::Exit, 0);
    assert!(matches!(acts.as_slice(), [Action::Stop]));
}

#[test]
fn frames_become_events() {
    assert!(matches!(frame_event(Frame::Ping), Some(Msg::Ping)));
    assert!(matches!(frame_event(Frame::Close), Some(Msg::WsClose)));
    assert!(matches!(frame_event(Frame::Failed), Some(Msg::WsClose)));
    assert!(frame_event(Frame::Other).is_none());
    assert!(matches!(
        frame_event(Frame::Text(Some(JsonValue::Null))),
        Some(Msg::Received(Some(JsonValue::Null)))
    ));
    assert!(frame_ends_reading(&Frame::Failed));
    assert!(frame_ends_reading(&Frame::Close));
    assert!(!frame_ends_reading(&Frame::Ping));
}
