use leafcast::app_env::{AppEnv, EnvMap, LogLevel};
use leafcast::app_error::AppError;

fn level(l: LogLevel) -> tracing::Level {
    match l {
        LogLevel::Trace => tracing::Level::TRACE,
        LogLevel::Debug => tracing::Level::DEBUG,
        LogLevel::Info => tracing::Level::INFO,
    }
}

fn map_of(pairs: &[(&str, &str)]) -> EnvMap {
    EnvMap::from_pairs(
        pairs
            .iter()
            .map(|(k, v)| (String::from(*k), String::from(*v)))
            .collect(),
    )
}

#[test]
fn env_missing_env() {
    let mut map = EnvMap::new();
    map.insert(String::from("not_fish"), String::from("not_fish"));

    let result = AppEnv::parse_string("fish", &map);

    assert!(result.is_err());
    assert_eq!(result.unwrap_err().to_string(), "missing env: 'fish'");
}

#[test]
fn env_parse_string_valid() {
    let mut map = EnvMap::new();
    map.insert(String::from("LOCATION_SQLITE"), String::from("/alarms.db"));

    let result = AppEnv::parse_string("LOCATION_SQLITE", &map).unwrap();

    assert_eq!(result, "/alarms.db");
}

#[test]
fn env_parse_boolean_ok() {
    let mut map = EnvMap::new();
    map.insert(String::from("valid_true"), String::from("true"));
    map.insert(String::from("valid_false"), String::from("false"));
    map.insert(String::from("invalid_but_false"), String::from("as"));

    let result01 = AppEnv::parse_boolean("valid_true", &map);
    let result02 = AppEnv::parse_boolean("valid_false", &map);
    let result03 = AppEnv::parse_boolean("invalid_but_false", &map);
    let result04 = AppEnv::parse_boolean("missing", &map);

    assert!(result01);
    assert!(!result02);
    assert!(!result03);
    assert!(!result04);
}

#[test]
fn env_parse_log_valid() {
    let map = map_of(&[("RANDOM_STRING", "123")]);
    let result = AppEnv::parse_log(&map);
    assert_eq!(level(result), tracing::Level::INFO);

    let map = map_of(&[("LOG_DEBUG", "false")]);
    let result = AppEnv::parse_log(&map);
    assert_eq!(level(result), tracing::Level::INFO);

    let map = map_of(&[("LOG_TRACE", "false")]);
    let result = AppEnv::parse_log(&map);
    assert_eq!(level(result), tracing::Level::INFO);

    let map = map_of(&[("LOG_DEBUG", "false"), ("LOG_TRACE", "false")]);
    let result = AppEnv::parse_log(&map);
    assert_eq!(level(result), tracing::Level::INFO);

    let map = map_of(&[("LOG_DEBUG", "true"), ("LOG_TRACE", "false")]);
    let result = AppEnv::parse_log(&map);
    assert_eq!(level(result), tracing::Level::DEBUG);

    let map = map_of(&[("LOG_DEBUG", "true"), ("LOG_TRACE", "true")]);
    let result = AppEnv::parse_log(&map);
    assert_eq!(level(result), tracing::Level::TRACE);

    let map = map_of(&[("LOG_DEBUG", "false"), ("LOG_TRACE", "true")]);
    let result = AppEnv::parse_log(&map);
    assert_eq!(level(result), tracing::Level::TRACE);
}

#[test]
fn env_later_value_shadows_earlier() {
    let mut map = EnvMap::new();
    map.insert(String::from("LOG_DEBUG"), String::from("true"));
    map.insert(String::from("LOG_DEBUG"), String::from("false"));
    assert!(!AppEnv::parse_boolean("LOG_DEBUG", &map));
    assert_eq!(map.get("LOG_DEBUG").map(|s| s.as_str()), Some("false"));
}

fn full_env() -> Vec<(&'static str, &'static str)> {
    vec![
        ("WS_ADDRESS", "wss://example.org/ws"),
        ("WS_APIKEY", "key"),
        ("WS_PASSWORD", "pass"),
        ("WS_TOKEN_ADDRESS", "https://example.org/token"),
        ("TIME_ON", "08:30"),
        ("TIME_OFF", "22:05"),
        ("LOG_DEBUG", "true"),
    ]
}

#[test]
fn env_generate_ok() {
    let map = map_of(&full_env());
    let env = AppEnv::generate(&map, 1_700_000_000).unwrap();
    assert_eq!(env.ws_address, "wss://example.org/ws");
    assert_eq!(env.ws_apikey, "key");
    assert_eq!(env.ws_password, "pass");
    assert_eq!(env.ws_token_address, "https://example.org/token");
    assert_eq!((env.time_on.hour, env.time_on.minute), (8, 30));
    assert_eq!((env.time_off.hour, env.time_off.minute), (22, 5));
    assert_eq!(env.log_level, LogLevel::Debug);
    assert_eq!(env.start_time, 1_700_000_000);
}

#[test]
fn env_generate_first_missing_named() {
    let pairs: Vec<_> = full_env()
        .into_iter()
        .filter(|(k, _)| *k != "WS_APIKEY" && *k != "WS_TOKEN_ADDRESS")
        .collect();
    let err = AppEnv::generate(&map_of(&pairs), 0).unwrap_err();
    assert_eq!(err.to_string(), "missing env: 'WS_APIKEY'");
}

#[test]
fn env_generate_bad_time() {
    let pairs: Vec<_> = full_env()
        .into_iter()
        .map(|(k, v)| if k == "TIME_OFF" { (k, "25:99") } else { (k, v) })
        .collect();
    let err = AppEnv::generate(&map_of(&pairs), 0).unwrap_err();
    assert!(matches!(err, AppError::Internal(_)));
    assert_eq!(err.to_string(), "Internal error: 'invalid time of day: TIME_OFF'");
}

#[test]
fn error_messages() {
    assert_eq!(AppError::WsStatus.to_string(), "Invalid WS Status Code");
    assert_eq!(
        AppError::TungsteniteConnect(String::from("refused")).to_string(),
        "WS Connect: refused"
    );
    assert_eq!(AppError::Io(String::from("gone")).to_string(), "IO Error: 'gone'");
}
