use leafcast::app_env::{AppEnv, EnvMap};
use leafcast::connect::{check_upgrade_status, ws_url};
use leafcast::cron::{ClockReading, Croner, Schedule, TimeOfDay};
use leafcast::incoming::ScreenStatus;
use leafcast::message_handler::Msg;
use leafcast::outgoing::PiStatus;
use leafcast::sysinfo::SysInfo;
use leafcast::systemd::{
    configure_systemd, create_service_file, get_dot_service, get_service_name, get_user_name,
    parse_arg, sudo_result, systemd_steps, CliArg, SystemdStep,
};
use leafcast::text::parse_usize;

#[test]
fn uptime_from_proc_text() {
    assert_eq!(SysInfo::get_uptime("12345.67 890.12\n"), 12345);
    assert_eq!(SysInfo::get_uptime("60.00 1.00"), 60);
    assert_eq!(SysInfo::get_uptime(""), 0);
    assert_eq!(SysInfo::get_uptime("12345"), 0);
    assert_eq!(SysInfo::get_uptime("abc.5"), 0);
}

#[test]
fn decimal_parsing_matches_std() {
    for text in ["0", "42", "+7", "", "+", "-1", "1a", "18446744073709551615", "18446744073709551616"] {
        assert_eq!(parse_usize(text), text.parse::<usize>().ok(), "{text}");
    }
}

#[test]
fn screen_status_from_connectors() {
    assert_eq!(SysInfo::screen_status("enabled\n", ""), Some(ScreenStatus::On));
    assert_eq!(SysInfo::screen_status("disabled\n", "enabled"), Some(ScreenStatus::On));
    assert_eq!(SysInfo::screen_status(" disabled ", ""), Some(ScreenStatus::Off));
    assert_eq!(SysInfo::screen_status("", ""), None);
    assert_eq!(SysInfo::screen_status_trimmed("enabled\n", ""), None);
}

fn app_env() -> AppEnv {
    let mut map = EnvMap::new();
    for (k, v) in [
        ("WS_ADDRESS", "ws://host"),
        ("WS_APIKEY", "k"),
        ("WS_PASSWORD", "p"),
        ("WS_TOKEN_ADDRESS", "http://host/token"),
        ("TIME_ON", "08:00"),
        ("TIME_OFF", "09:00"),
    ] {
        map.insert(String::from(k), String::from(v));
    }
    AppEnv::generate(&map, 1000).unwrap()
}

#[test]
fn sysinfo_snapshot() {
    let env = app_env();
    let info = SysInfo::new(&env, "61.5 2.0", "enabled", "", 1001);
    assert_eq!(info.uptime, 61);
    assert_eq!(info.uptime_app, 1);
    assert_eq!(info.screen_status, Some(ScreenStatus::On));
    assert_eq!(info.time_on, (8, 0));
    assert_eq!(info.time_off, (9, 0));
    assert_eq!(info.version, "0.1.0");
    assert!(!info.ip_address.is_empty());
    let earlier = SysInfo::new(&env, "", "", "", 10);
    assert_eq!(earlier.uptime_app, 0);

    let status = PiStatus::new(info, 5);
    assert_eq!(status.uptime_ws, 5);
    assert_eq!(status.uptime, 61);
    assert!(!status.timezone.is_empty());
    assert_eq!(SysInfo::ip_or_unknown(None), "UNKNOWN");
    assert_eq!(PiStatus::timezone_or_default(None), "Etc/UTC");
}

#[test]
fn schedule_fires_once_per_minute() {
    let on = TimeOfDay { hour: 8, minute: 0 };
    let off = TimeOfDay { hour: 9, minute: 0 };
    let mut s = Schedule::new(on, off);
    let at = |hour, minute, second| ClockReading { hour, minute, second };
    assert!(s.tick(at(7, 59, 59)).is_empty());
    assert_eq!(s.tick(at(8, 0, 0)), vec![ScreenStatus::On]);
    assert!(s.tick(at(8, 0, 0)).is_empty());
    assert!(s.tick(at(8, 0, 30)).is_empty());
    assert!(s.tick(at(8, 1, 0)).is_empty());
    assert_eq!(s.tick(at(9, 0, 1)), vec![ScreenStatus::Off]);

    let mut same = Schedule::new(on, on);
    assert_eq!(same.tick(at(8, 0, 0)), vec![ScreenStatus::On, ScreenStatus::Off]);
    assert!(same.tick(at(8, 0, 1)).is_empty());
    assert!(same.tick(at(12, 0, 0)).is_empty());
    // the next day, the same minute fires again
    assert_eq!(same.tick(at(8, 0, 0)), vec![ScreenStatus::On, ScreenStatus::Off]);

    // a switch that was never polled in its minute does not hold back the next day's
    let mut daily = Schedule::new(on, off);
    assert_eq!(daily.tick(at(8, 0, 0)), vec![ScreenStatus::On]);
    assert!(daily.tick(at(9, 30, 0)).is_empty());
    assert_eq!(daily.tick(at(8, 0, 5)), vec![ScreenStatus::On]);

    let mut croner = Croner::new(&app_env());
    let events = croner.tick(at(9, 0, 0));
    assert!(matches!(events.as_slice(), [Msg::ScreenOff]));
    assert!(croner.poll().len() <= 2);
}

#[test]
fn cli_arguments() {
    assert_eq!(parse_arg("-i"), Some(CliArg::Install));
    assert_eq!(parse_arg("-u"), Some(CliArg::Uninstall));
    assert_eq!(parse_arg(" --on "), Some(CliArg::On));
    assert_eq!(parse_arg("--off\n"), Some(CliArg::Off));
    assert_eq!(parse_arg("-h"), Some(CliArg::Help));
    assert_eq!(parse_arg(""), None);
    assert_eq!(parse_arg("--onn"), None);
}

#[test]
fn service_names_and_unit_file() {
    assert_eq!(get_service_name(), "leafcast.service");
    assert_eq!(get_dot_service(), "/etc/systemd/system/leafcast.service");
    let unit = create_service_file("pi", "/opt/leafcast");
    let expected = format!(
        r#"[Unit]
    Description={0}
    After=network-online.target
    Wants=network-online.target
    StartLimitIntervalSec=0
    
    [Service]
    Environment="XDG_RUNTIME_DIR=/run/user/1000"
    Environment="WAYLAND_DISPLAY=wayland-1"
    ExecStart={1}/{0}
    WorkingDirectory={1}
    SyslogIdentifier={0}
    User={2}
    Group={2}
    Restart=always
    RestartSec=5

    [Install]
    WantedBy=multi-user.target
"#,
        "leafcast", "/opt/leafcast", "pi"
    );
    assert_eq!(unit, expected);
}

#[test]
fn sudo_user_names() {
    assert_eq!(get_user_name(None), None);
    assert_eq!(get_user_name(Some(String::from("root"))), None);
    assert_eq!(get_user_name(Some(String::new())), None);
    assert_eq!(get_user_name(Some(String::from("pi"))), Some(String::from("pi")));
    assert!(sudo_result(true).is_ok());
    assert_eq!(sudo_result(false).unwrap_err().to_string(), "Internal error: 'not running as sudo'");
}

#[test]
fn systemd_plans() {
    let steps = systemd_steps(CliArg::Install, true, Some(String::from("pi")), "/opt/x");
    assert_eq!(steps.len(), 8);
    assert!(matches!(steps[0], SystemdStep::Stop(_)));
    assert!(matches!(steps[3], SystemdStep::DaemonReload));
    assert!(matches!(&steps[4], SystemdStep::WriteUnit(p, _) if p == "/etc/systemd/system/leafcast.service"));
    assert!(matches!(steps[7], SystemdStep::Start(_)));

    let steps = systemd_steps(CliArg::Install, false, None, "/opt/x");
    assert!(matches!(steps.as_slice(), [SystemdStep::InvalidUser]));
    assert!(systemd_steps(CliArg::Uninstall, false, None, "/").is_empty());
    assert_eq!(systemd_steps(CliArg::Uninstall, true, None, "/").len(), 4);
    assert!(systemd_steps(CliArg::Help, true, None, "/").is_empty());

    match configure_systemd(CliArg::Uninstall, true, None, "/") {
        Ok(steps) => assert_eq!(steps.len(), 4),
        Err(e) => assert_eq!(e.to_string(), "Internal error: 'not running as sudo'"),
    }
}

#[test]
fn handshake_helpers() {
    assert_eq!(ws_url("wss://host/ws", "tok"), "wss://host/ws/tok");
    assert!(check_upgrade_status(101).is_ok());
    assert_eq!(check_upgrade_status(200).unwrap_err().to_string(), "Invalid WS Status Code");
}

#[test]
fn power_save_mode_values() {
    assert_eq!(ScreenStatus::On.get_arg_value(), "0");
    assert_eq!(ScreenStatus::Off.get_arg_value(), "3");
}
