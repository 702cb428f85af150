use vstd::prelude::*;
use crate::app_error::AppError;
use crate::cron::{clock_time_of, parse_clock_time, TimeOfDay};

verus! {

/// Environment variables, as name and value pairs. A later pair shadows an
/// earlier one with the same name.
#[derive(Debug)]
pub struct EnvMap {
    entries: Vec<(String, String)>,
}

pub open spec fn pairs_view(s: Seq<(String, String)>) -> Seq<(Seq<char>, Seq<char>)> {
    Seq::new(s.len(), |i: int| (s[i].0@, s[i].1@))
}

/// Value of the last pair named `key`.
pub open spec fn env_lookup(s: Seq<(Seq<char>, Seq<char>)>, key: Seq<char>) -> Option<Seq<char>>
    decreases s.len(),
{
    if s.len() == 0 {
        None
    } else if s.last().0 == key {
        Some(s.last().1)
    } else {
        env_lookup(s.drop_last(), key)
    }
}

impl EnvMap {
    pub closed spec fn view(&self) -> Seq<(Seq<char>, Seq<char>)> {
        pairs_view(self.entries@)
    }

    /// The value of `key`, if set.
    pub open spec fn lookup(&self, key: Seq<char>) -> Option<Seq<char>> {
        env_lookup(self.view(), key)
    }

    pub fn new() -> (r: Self)
        ensures
            r.view().len() == 0,
            forall|k: Seq<char>| #[trigger] r.lookup(k) is None,
    {
        let r = EnvMap { entries: Vec::new() };
        assert(r.view().len() == 0);
        r
    }

    /// A map holding `pairs`; where two share a name, the later one counts.
    pub fn from_pairs(pairs: Vec<(String, String)>) -> (r: Self)
        ensures
            r.view() == pairs_view(pairs@),
    {
        EnvMap { entries: pairs }
    }

    /// Set `key` to `value`.
    pub fn insert(&mut self, key: String, value: String)
        ensures
            final(self).view() == old(self).view().push((key@, value@)),
            final(self).lookup(key@) == Some(value@),
            forall|k: Seq<char>| k != key@ ==> #[trigger] final(self).lookup(k) == old(self).lookup(k),
    {
        let ghost before = self.view();
        self.entries.push((key, value));
        assert(self.view() =~= before.push((key@, value@)));
        assert(self.view().drop_last() =~= before);
    }

    /// The value of `key`, if set.
    pub fn get(&self, key: &str) -> (r: Option<&String>)
        ensures
            match r {
                Some(v) => self.lookup(key@) == Some(v@),
                None => self.lookup(key@) is None,
            },
    {
        let wanted = key.to_owned();
        let ghost all = self.view();
        let mut i: usize = self.entries.len();
        assert(all.take(i as int) =~= all);
        while i > 0
            invariant
                i <= self.entries.len(),
                all == self.view(),
                wanted@ == key@,
                env_lookup(all, key@) == env_lookup(all.take(i as int), key@),
            decreases i,
        {
            let ghost prefix = all.take(i as int);
            assert(prefix.drop_last() =~= all.take(i - 1));
            i = i - 1;
            if self.entries[i].0 == wanted {
                return Some(&self.entries[i].1);
            }
        }
        None
    }
}

/// Verbosity of the log.
#[derive(Debug, Clone, Copy, PartialEq, Eq, Structural)]
pub enum LogLevel {
    Trace,
    Debug,
    Info,
}

/// Settings of the agent.
#[derive(Debug)]
pub struct AppEnv {
    pub log_level: LogLevel,
    /// Process start, in seconds since the UNIX epoch.
    pub start_time: u64,
    pub time_off: TimeOfDay,
    pub time_on: TimeOfDay,
    pub ws_address: String,
    pub ws_apikey: String,
    pub ws_password: String,
    pub ws_token_address: String,
}

/// A flag is set when its value is exactly `true`.
pub open spec fn flag_set(map: EnvMap, key: Seq<char>) -> bool {
    map.lookup(key) == Some("true"@)
}

pub open spec fn log_level_of(map: EnvMap) -> LogLevel {
    if flag_set(map, "LOG_TRACE"@) {
        LogLevel::Trace
    } else if flag_set(map, "LOG_DEBUG"@) {
        LogLevel::Debug
    } else {
        LogLevel::Info
    }
}

/// The error for a missing variable.
pub open spec fn is_missing(e: AppError, key: Seq<char>) -> bool {
    e matches AppError::MissingEnv(k) && k@ == key
}

/// The error for a time of day that does not parse.
pub open spec fn is_bad_time(e: AppError, key: Seq<char>) -> bool {
    e matches AppError::Internal(t) && t@ == "invalid time of day: "@ + key
}

/// Names of the required text settings, in the order they are read.
pub open spec fn required_keys() -> Seq<Seq<char>> {
    seq!["WS_ADDRESS"@, "WS_APIKEY"@, "WS_PASSWORD"@, "WS_TOKEN_ADDRESS"@]
}

/// Names of the two times of day, switch-on first.
pub open spec fn time_keys() -> Seq<Seq<char>> {
    seq!["TIME_ON"@, "TIME_OFF"@]
}

/// A time setting is usable when it is set and parses.
pub open spec fn time_usable(map: EnvMap, key: Seq<char>) -> bool {
    map.lookup(key) is Some && clock_time_of(map.lookup(key)->0) is Some
}

impl AppEnv {
    /// Whether `key` is set to `true`; any other value, or none, is `false`.
    pub fn parse_boolean(key: &str, map: &EnvMap) -> (r: bool)
        ensures
            r == flag_set(*map, key@),
    {
        match map.get(key) {
            Some(v) => {
                let wanted = String::from_str("true");
                *v == wanted
            },
            None => false,
        }
    }

    /// The value of `key`, or the error naming it when unset.
    pub fn parse_string(key: &str, map: &EnvMap) -> (r: Result<String, AppError>)
        ensures
            match r {
                Ok(v) => map.lookup(key@) == Some(v@),
                Err(e) => map.lookup(key@) is None && is_missing(e, key@),
            },
    {
        match map.get(key) {
            Some(v) => Ok(v.clone()),
            None => Err(AppError::MissingEnv(key.to_owned())),
        }
    }

    /// Log level: `LOG_TRACE=true` gives trace, else `LOG_DEBUG=true` gives
    /// debug, else info.
    pub fn parse_log(map: &EnvMap) -> (r: LogLevel)
        ensures
            r == log_level_of(*map),
    {
        if Self::parse_boolean("LOG_TRACE", map) {
            LogLevel::Trace
        } else if Self::parse_boolean("LOG_DEBUG", map) {
            LogLevel::Debug
        } else {
            LogLevel::Info
        }
    }

    /// A time of day written as `HH:MM` (seconds allowed) under `key`.
    pub fn parse_time(key: &str, map: &EnvMap) -> (r: Result<TimeOfDay, AppError>)
        ensures
            match r {
                Ok(t) => map.lookup(key@) is Some && clock_time_of(map.lookup(key@)->0) == Some(
                    (t.hour, t.minute),
                ) && t.wf(),
                Err(e) => if map.lookup(key@) is None {
                    is_missing(e, key@)
                } else {
                    clock_time_of(map.lookup(key@)->0) is None && is_bad_time(e, key@)
                },
            },
    {
        let text = Self::parse_string(key, map)?;
        match parse_clock_time(text.as_str()) {
            Some((hour, minute)) => Ok(TimeOfDay { hour, minute }),
            None => {
                let mut t = String::from_str("invalid time of day: ");
                t.append(key);
                Err(AppError::Internal(t))
            },
        }
    }

    /// Settings from the environment, with the process start time. Fails on
    /// the first required setting that is missing, in the order
    /// `WS_ADDRESS`, `WS_APIKEY`, `WS_PASSWORD`, `WS_TOKEN_ADDRESS`, then on
    /// `TIME_ON` and `TIME_OFF`, which must be set and parse.
    pub fn generate(map: &EnvMap, start_time: u64) -> (r: Result<Self, AppError>)
        ensures
            match r {
                Ok(env) => {
                    &&& env.log_level == log_level_of(*map)
                    &&& env.start_time == start_time
                    &&& map.lookup("WS_ADDRESS"@) == Some(env.ws_address@)
                    &&& map.lookup("WS_APIKEY"@) == Some(env.ws_apikey@)
                    &&& map.lookup("WS_PASSWORD"@) == Some(env.ws_password@)
                    &&& map.lookup("WS_TOKEN_ADDRESS"@) == Some(env.ws_token_address@)
                    &&& clock_time_of(map.lookup("TIME_ON"@)->0) == Some(
                        (env.time_on.hour, env.time_on.minute),
                    )
                    &&& clock_time_of(map.lookup("TIME_OFF"@)->0) == Some(
                        (env.time_off.hour, env.time_off.minute),
                    )
                    &&& env.time_on.wf() && env.time_off.wf()
                    &&& forall|i: int|
                        0 <= i < 2 ==> time_usable(*map, #[trigger] time_keys()[i])
                },
                Err(e) => {
                    ||| exists|i: int|
                        0 <= i < 4 && map.lookup(#[trigger] required_keys()[i]) is None
                            && is_missing(e, required_keys()[i]) && forall|j: int|
                            0 <= j < i ==> map.lookup(#[trigger] required_keys()[j]) is Some
                    ||| (forall|j: int| 0 <= j < 4 ==> map.lookup(#[trigger] required_keys()[j]) is Some)
                        && exists|i: int|
                        0 <= i < 2 && !time_usable(*map, #[trigger] time_keys()[i])
                            && (is_missing(e, time_keys()[i]) || is_bad_time(e, time_keys()[i]))
                            && forall|j: int| 0 <= j < i ==> time_usable(*map, #[trigger] time_keys()[j])
                },
            },
            r is Ok <==> (forall|j: int| 0 <= j < 4 ==> map.lookup(#[trigger] required_keys()[j]) is Some)
                && (forall|j: int| 0 <= j < 2 ==> time_usable(*map, #[trigger] time_keys()[j])),
    {
        let log_level = Self::parse_log(map);
        let ws_address = Self::parse_string("WS_ADDRESS", map);
        let ws_address = match ws_address {
            Ok(v) => v,
            Err(e) => {
                assert(map.lookup(required_keys()[0]) is None);
                return Err(e);
            },
        };
        let ws_apikey = match Self::parse_string("WS_APIKEY", map) {
            Ok(v) => v,
            Err(e) => {
                assert(map.lookup(required_keys()[1]) is None);
                assert(map.lookup(required_keys()[0]) is Some);
                return Err(e);
            },
        };
        let ws_password = match Self::parse_string("WS_PASSWORD", map) {
            Ok(v) => v,
            Err(e) => {
                assert(map.lookup(required_keys()[2]) is None);
                assert(map.lookup(required_keys()[1]) is Some);
                assert(map.lookup(required_keys()[0]) is Some);
                return Err(e);
            },
        };
        let ws_token_address = match Self::parse_string("WS_TOKEN_ADDRESS", map) {
            Ok(v) => v,
            Err(e) => {
                assert(map.lookup(required_keys()[3]) is None);
                assert(map.lookup(required_keys()[2]) is Some);
                assert(map.lookup(required_keys()[1]) is Some);
                assert(map.lookup(required_keys()[0]) is Some);
                return Err(e);
            },
        };
        assert(forall|j: int| 0 <= j < 4 ==> map.lookup(#[trigger] required_keys()[j]) is Some) by {
            assert(map.lookup(required_keys()[0]) is Some);
            assert(map.lookup(required_keys()[1]) is Some);
            assert(map.lookup(required_keys()[2]) is Some);
            assert(map.lookup(required_keys()[3]) is Some);
        }
        let time_on = match Self::parse_time("TIME_ON", map) {
            Ok(t) => t,
            Err(e) => {
                assert(!time_usable(*map, time_keys()[0]));
                return Err(e);
            },
        };
        let time_off = match Self::parse_time("TIME_OFF", map) {
            Ok(t) => t,
            Err(e) => {
                assert(!time_usable(*map, time_keys()[1]));
                assert(time_usable(*map, time_keys()[0]));
                return Err(e);
            },
        };
        assert(time_usable(*map, time_keys()[0]));
        assert(time_usable(*map, time_keys()[1]));
        Ok(
            AppEnv {
                log_level,
                start_time,
                time_off,
                time_on,
                ws_address,
                ws_apikey,
                ws_password,
                ws_token_address,
            },
        )
    }
}

} // verus!
