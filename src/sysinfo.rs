use vstd::prelude::*;
use crate::app_env::AppEnv;
use crate::incoming::ScreenStatus;
use crate::text::{parse_usize, trim_text, trimmed, usize_of};

verus! {

/// Version reported in every status snapshot.
pub const VERSION: &'static str = "0.1.0";

/// Placeholder address when the local address cannot be found.
pub const UNKNOWN_IP: &'static str = "UNKNOWN";

/// Facts about the device, gathered afresh for each status report.
#[derive(Debug)]
pub struct SysInfo {
    pub ip_address: String,
    pub screen_status: Option<ScreenStatus>,
    pub time_off: (i8, i8),
    pub time_on: (i8, i8),
    pub uptime_app: u64,
    pub uptime: usize,
    pub version: String,
}

/// Power state from the two display connectors' `enabled` files: on if either
/// reads `enabled`, else off if either reads `disabled`, else unknown.
pub open spec fn screen_status_of(a: Seq<char>, b: Seq<char>) -> Option<ScreenStatus> {
    if a == "enabled"@ || b == "enabled"@ {
        Some(ScreenStatus::On)
    } else if a == "disabled"@ || b == "disabled"@ {
        Some(ScreenStatus::Off)
    } else {
        None
    }
}

/// `i` is the position of the first `.` in `t`.
pub open spec fn first_dot(t: Seq<char>, i: int) -> bool {
    0 <= i < t.len() && t[i] == '.' && forall|k: int| 0 <= k < i ==> t[k] != '.'
}

/// Whole seconds of system uptime from the text of `/proc/uptime`: the
/// number before the first `.`, or zero when there is none or it does not
/// read as a number.
pub open spec fn uptime_of(t: Seq<char>) -> usize {
    if exists|i: int| first_dot(t, i) {
        let i = choose|i: int| first_dot(t, i);
        match usize_of(t.take(i)) {
            Some(n) => n,
            None => 0,
        }
    } else {
        0
    }
}

/// Seconds since `start`, or zero when the clock reads earlier.
pub open spec fn seconds_since(start: u64, now: u64) -> u64 {
    if now >= start {
        (now - start) as u64
    } else {
        0
    }
}

proof fn lemma_first_dot_unique(t: Seq<char>, i: int, j: int)
    requires
        first_dot(t, i),
        first_dot(t, j),
    ensures
        i == j,
{
    if i < j {
        assert(t[i] != '.');
    } else if j < i {
        assert(t[j] != '.');
    }
}

/// Relies on `local_ip_address::local_ip`: the machine's local address, as
/// text, when it can be found.
#[verifier::external_body]
fn local_ip_text() -> (r: Option<String>) {
    local_ip_address::local_ip().ok().map(|ip| ip.to_string())
}

impl SysInfo {
    /// Power state from the connectors' `enabled` files, already trimmed.
    pub fn screen_status_trimmed(hdmi_1: &str, hdmi_2: &str) -> (r: Option<ScreenStatus>)
        ensures
            r == screen_status_of(hdmi_1@, hdmi_2@),
    {
        let a = hdmi_1.to_owned();
        let b = hdmi_2.to_owned();
        let enabled = String::from_str("enabled");
        let disabled = String::from_str("disabled");
        if a == enabled || b == enabled {
            Some(ScreenStatus::On)
        } else if a == disabled || b == disabled {
            Some(ScreenStatus::Off)
        } else {
            None
        }
    }

    /// Power state from the contents of the two connectors' `enabled` files
    /// (empty when a file cannot be read).
    pub fn screen_status(hdmi_1: &str, hdmi_2: &str) -> (r: Option<ScreenStatus>)
        ensures
            r == screen_status_of(trimmed(hdmi_1@), trimmed(hdmi_2@)),
    {
        let a = trim_text(hdmi_1);
        let b = trim_text(hdmi_2);
        Self::screen_status_trimmed(a.as_str(), b.as_str())
    }

    /// Whole seconds of uptime from the text of `/proc/uptime`.
    pub fn get_uptime(proc_uptime: &str) -> (r: usize)
        ensures
            r == uptime_of(proc_uptime@),
    {
        let n = proc_uptime.unicode_len();
        let mut i: usize = 0;
        while i < n
            invariant
                i <= n,
                n == proc_uptime@.len(),
                forall|k: int| 0 <= k < i ==> proc_uptime@[k] != '.',
            decreases n - i,
        {
            if proc_uptime.get_char(i) == '.' {
                assert(first_dot(proc_uptime@, i as int));
                proof {
                    let j = choose|j: int| first_dot(proc_uptime@, j);
                    lemma_first_dot_unique(proc_uptime@, i as int, j);
                }
                let whole = proc_uptime.substring_char(0, i);
                assert(whole@ =~= proc_uptime@.take(i as int));
                return match parse_usize(whole) {
                    Some(v) => v,
                    None => 0,
                };
            }
            i = i + 1;
        }
        assert(!exists|j: int| first_dot(proc_uptime@, j)) by {
            if exists|j: int| first_dot(proc_uptime@, j) {
                let j = choose|j: int| first_dot(proc_uptime@, j);
                assert(proc_uptime@[j] != '.');
            }
        }
        0
    }

    /// The address text, or `UNKNOWN` when none was found.
    pub fn ip_or_unknown(ip: Option<String>) -> (r: String)
        ensures
            r@ == match ip {
                Some(s) => s@,
                None => UNKNOWN_IP@,
            },
    {
        match ip {
            Some(s) => s,
            None => String::from_str(UNKNOWN_IP),
        }
    }

    /// A snapshot from what was read on the device: the text of
    /// `/proc/uptime`, the two connectors' `enabled` files and the clock in
    /// seconds since the UNIX epoch. The local address is looked up here.
    pub fn new(
        app_envs: &AppEnv,
        proc_uptime: &str,
        hdmi_1: &str,
        hdmi_2: &str,
        now_secs: u64,
    ) -> (r: Self)
        ensures
            r.screen_status == screen_status_of(trimmed(hdmi_1@), trimmed(hdmi_2@)),
            r.uptime == uptime_of(proc_uptime@),
            r.uptime_app == seconds_since(app_envs.start_time, now_secs),
            r.time_on == (app_envs.time_on.hour, app_envs.time_on.minute),
            r.time_off == (app_envs.time_off.hour, app_envs.time_off.minute),
            r.version@ == VERSION@,
    {
        let uptime_app = if now_secs >= app_envs.start_time {
            now_secs - app_envs.start_time
        } else {
            0
        };
        SysInfo {
            ip_address: Self::ip_or_unknown(local_ip_text()),
            screen_status: Self::screen_status(hdmi_1, hdmi_2),
            time_off: (app_envs.time_off.hour, app_envs.time_off.minute),
            time_on: (app_envs.time_on.hour, app_envs.time_on.minute),
            uptime_app,
            uptime: Self::get_uptime(proc_uptime),
            version: String::from_str(VERSION),
        }
    }
}

} // verus!
