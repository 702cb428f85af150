use vstd::prelude::*;
use crate::incoming::ScreenStatus;
use crate::sysinfo::SysInfo;
use crate::json::{
    absent_or_null, field_of, fields_model, is_absent_or_null, is_str, items_model,
    lemma_array_model, lemma_field_at, lemma_object_model, lookup, names_distinct, Json, JsonValue,
};

verus! {

/// Status of the device, as reported to the coordinator.
#[derive(Debug)]
pub struct PiStatus {
    pub ip_address: String,
    pub screen_status: Option<ScreenStatus>,
    pub time_off: (i8, i8),
    pub time_on: (i8, i8),
    pub timezone: String,
    pub uptime_app: u64,
    pub uptime_ws: u64,
    pub uptime: usize,
    pub version: String,
}

pub struct PiStatusView {
    pub ip_address: Seq<char>,
    pub screen_status: Option<ScreenStatus>,
    pub time_off: (i8, i8),
    pub time_on: (i8, i8),
    pub timezone: Seq<char>,
    pub uptime_app: u64,
    pub uptime_ws: u64,
    pub uptime: usize,
    pub version: Seq<char>,
}

/// An outbound response.
#[derive(Debug)]
pub enum Response {
    Status(PiStatus),
    Error(String),
}

pub enum ResponseView {
    Status(PiStatusView),
    Error(Seq<char>),
}

/// An outbound envelope: a response and the correlation token it answers.
#[derive(Debug)]
pub struct StructuredResponse {
    pub data: Response,
    pub unique: Option<String>,
}

impl PiStatus {
    pub open spec fn view(&self) -> PiStatusView {
        PiStatusView {
            ip_address: self.ip_address@,
            screen_status: self.screen_status,
            time_off: self.time_off,
            time_on: self.time_on,
            timezone: self.timezone@,
            uptime_app: self.uptime_app,
            uptime_ws: self.uptime_ws,
            uptime: self.uptime,
            version: self.version@,
        }
    }
}

impl Response {
    pub open spec fn view(&self) -> ResponseView {
        match self {
            Response::Status(s) => ResponseView::Status(s.view()),
            Response::Error(m) => ResponseView::Error(m@),
        }
    }
}

pub open spec fn token_view(u: Option<String>) -> Option<Seq<char>> {
    match u {
        Some(s) => Some(s@),
        None => None,
    }
}

pub open spec fn i8_json(x: i8) -> Json {
    if x >= 0 {
        Json::UInt(x as u64)
    } else {
        Json::NegInt(x as i64)
    }
}

pub open spec fn i8_of(j: Json) -> Option<i8> {
    match j {
        Json::UInt(n) => if n <= 127 {
            Some(n as i8)
        } else {
            None
        },
        Json::NegInt(n) => if -128 <= n && n < 0 {
            Some(n as i8)
        } else {
            None
        },
        _ => None,
    }
}

/// An hour and minute pair is a two-item array.
pub open spec fn pair_json(p: (i8, i8)) -> Json {
    Json::Array(seq![i8_json(p.0), i8_json(p.1)])
}

pub open spec fn pair_of(j: Json) -> Option<(i8, i8)> {
    match j {
        Json::Array(items) => if items.len() == 2 && i8_of(items[0]) is Some && i8_of(
            items[1],
        ) is Some {
            Some((i8_of(items[0])->0, i8_of(items[1])->0))
        } else {
            None
        },
        _ => None,
    }
}

/// The power state is `"on"`, `"off"`, or null when unknown.
pub open spec fn screen_json(s: Option<ScreenStatus>) -> Json {
    match s {
        Some(ScreenStatus::On) => Json::Str("on"@),
        Some(ScreenStatus::Off) => Json::Str("off"@),
        None => Json::Null,
    }
}

pub open spec fn screen_of(f: Option<Json>) -> Option<Option<ScreenStatus>> {
    if absent_or_null(f) {
        Some(None)
    } else if f == Some(Json::Str("on"@)) {
        Some(Some(ScreenStatus::On))
    } else if f == Some(Json::Str("off"@)) {
        Some(Some(ScreenStatus::Off))
    } else {
        None
    }
}

pub open spec fn str_of(f: Option<Json>) -> Option<Seq<char>> {
    match f {
        Some(Json::Str(s)) => Some(s),
        _ => None,
    }
}

pub open spec fn u64_of(f: Option<Json>) -> Option<u64> {
    match f {
        Some(Json::UInt(n)) => Some(n),
        _ => None,
    }
}

pub open spec fn status_json(s: PiStatusView) -> Json {
    Json::Object(
        seq![
            ("ip_address"@, Json::Str(s.ip_address)),
            ("screen_status"@, screen_json(s.screen_status)),
            ("time_off"@, pair_json(s.time_off)),
            ("time_on"@, pair_json(s.time_on)),
            ("timezone"@, Json::Str(s.timezone)),
            ("uptime_app"@, Json::UInt(s.uptime_app)),
            ("uptime_ws"@, Json::UInt(s.uptime_ws)),
            ("uptime"@, Json::UInt(s.uptime as u64)),
            ("version"@, Json::Str(s.version)),
        ],
    )
}

pub open spec fn status_of(j: Json) -> Option<PiStatusView> {
    match j {
        Json::Object(fs) => {
            let ip = str_of(field_of(fs, "ip_address"@));
            let screen = screen_of(field_of(fs, "screen_status"@));
            let off = match field_of(fs, "time_off"@) {
                Some(p) => pair_of(p),
                None => None,
            };
            let on = match field_of(fs, "time_on"@) {
                Some(p) => pair_of(p),
                None => None,
            };
            let tz = str_of(field_of(fs, "timezone"@));
            let app = u64_of(field_of(fs, "uptime_app"@));
            let ws = u64_of(field_of(fs, "uptime_ws"@));
            let up = u64_of(field_of(fs, "uptime"@));
            let version = str_of(field_of(fs, "version"@));
            if ip is Some && screen is Some && off is Some && on is Some && tz is Some
                && app is Some && ws is Some && up is Some && up->0 <= usize::MAX
                && version is Some {
                Some(
                    PiStatusView {
                        ip_address: ip->0,
                        screen_status: screen->0,
                        time_off: off->0,
                        time_on: on->0,
                        timezone: tz->0,
                        uptime_app: app->0,
                        uptime_ws: ws->0,
                        uptime: up->0 as usize,
                        version: version->0,
                    },
                )
            } else {
                None
            }
        },
        _ => None,
    }
}

/// `{"name": "status", "data": <status>}` or `{"name": "error", "data": <text>}`.
pub open spec fn response_json(r: ResponseView) -> Json {
    match r {
        ResponseView::Status(s) => Json::Object(
            seq![("name"@, Json::Str("status"@)), ("data"@, status_json(s))],
        ),
        ResponseView::Error(m) => Json::Object(
            seq![("name"@, Json::Str("error"@)), ("data"@, Json::Str(m))],
        ),
    }
}

pub open spec fn response_of(j: Json) -> Option<ResponseView> {
    match j {
        Json::Object(fs) => if field_of(fs, "name"@) == Some(Json::Str("status"@)) {
            match field_of(fs, "data"@) {
                Some(d) => match status_of(d) {
                    Some(s) => Some(ResponseView::Status(s)),
                    None => None,
                },
                None => None,
            }
        } else if field_of(fs, "name"@) == Some(Json::Str("error"@)) {
            match str_of(field_of(fs, "data"@)) {
                Some(m) => Some(ResponseView::Error(m)),
                None => None,
            }
        } else {
            None
        },
        _ => None,
    }
}

/// `{"data": <response>, "unique": <token>}`, the token left out when the
/// response answers no request.
pub open spec fn envelope_json(r: ResponseView, unique: Option<Seq<char>>) -> Json {
    Json::Object(
        seq![("data"@, response_json(r))] + match unique {
            Some(u) => seq![("unique"@, Json::Str(u))],
            None => Seq::empty(),
        },
    )
}

/// How the coordinator reads an outbound envelope.
pub open spec fn envelope_of(j: Json) -> Option<(ResponseView, Option<Seq<char>>)> {
    match j {
        Json::Object(fs) => {
            let response = match field_of(fs, "data"@) {
                Some(d) => response_of(d),
                None => None,
            };
            let unique = field_of(fs, "unique"@);
            if response is None {
                None
            } else if absent_or_null(unique) {
                Some((response->0, None))
            } else {
                match unique {
                    Some(Json::Str(u)) => Some((response->0, Some(u))),
                    _ => None,
                }
            }
        },
        _ => None,
    }
}

proof fn lemma_i8_round_trip(x: i8)
    ensures
        i8_of(i8_json(x)) == Some(x),
{
}

proof fn lemma_pair_round_trip(p: (i8, i8))
    ensures
        pair_of(pair_json(p)) == Some(p),
{
    lemma_i8_round_trip(p.0);
    lemma_i8_round_trip(p.1);
}

proof fn lemma_status_round_trip(s: PiStatusView)
    ensures
        status_of(status_json(s)) == Some(s),
{
    reveal_strlit("ip_address");
    reveal_strlit("screen_status");
    reveal_strlit("time_off");
    reveal_strlit("time_on");
    reveal_strlit("timezone");
    reveal_strlit("uptime_app");
    reveal_strlit("uptime_ws");
    reveal_strlit("uptime");
    reveal_strlit("version");
    reveal_strlit("on");
    reveal_strlit("off");
    lemma_pair_round_trip(s.time_off);
    lemma_pair_round_trip(s.time_on);
    let fs = status_json(s)->Object_0;
    assert("ip_address"@.len() == 10 && "ip_address"@[0] == 'i');
    assert("screen_status"@.len() == 13);
    assert("time_off"@.len() == 8 && "time_off"@[4] == '_');
    assert("time_on"@.len() == 7 && "time_on"@[0] == 't');
    assert("timezone"@.len() == 8 && "timezone"@[4] == 'z');
    assert("uptime_app"@.len() == 10 && "uptime_app"@[0] == 'u');
    assert("uptime_ws"@.len() == 9);
    assert("uptime"@.len() == 6);
    assert("version"@.len() == 7 && "version"@[0] == 'v');
    assert(names_distinct(fs));
    lemma_field_at(fs, 0);
    lemma_field_at(fs, 1);
    lemma_field_at(fs, 2);
    lemma_field_at(fs, 3);
    lemma_field_at(fs, 4);
    lemma_field_at(fs, 5);
    lemma_field_at(fs, 6);
    lemma_field_at(fs, 7);
    lemma_field_at(fs, 8);
    assert("on"@.len() == 2 && "off"@.len() == 3);
    assert(screen_of(Some(screen_json(s.screen_status))) == Some(s.screen_status));
    assert((s.uptime as u64) <= usize::MAX);
    assert((s.uptime as u64) as usize == s.uptime);
}

proof fn lemma_response_round_trip(r: ResponseView)
    ensures
        response_of(response_json(r)) == Some(r),
{
    reveal_strlit("name");
    reveal_strlit("data");
    reveal_strlit("status");
    reveal_strlit("error");
    let fs = response_json(r)->Object_0;
    assert("name"@.len() == 4 && "data"@.len() == 4 && "name"@[0] == 'n' && "data"@[0] == 'd');
    assert("status"@.len() == 6 && "error"@.len() == 5);
    assert(names_distinct(fs));
    lemma_field_at(fs, 0);
    lemma_field_at(fs, 1);
    if let ResponseView::Status(s) = r {
        lemma_status_round_trip(s);
    }
}

/// Decoding an encoded envelope gives back the response, every status field
/// unchanged, and the correlation token.
pub proof fn law_envelope_round_trip(r: ResponseView, unique: Option<Seq<char>>)
    ensures
        envelope_of(envelope_json(r, unique)) == Some((r, unique)),
{
    reveal_strlit("data");
    reveal_strlit("unique");
    lemma_response_round_trip(r);
    let fs = envelope_json(r, unique)->Object_0;
    assert("data"@.len() == 4 && "unique"@.len() == 6);
    assert(names_distinct(fs));
    lemma_field_at(fs, 0);
    if unique is Some {
        lemma_field_at(fs, 1);
    } else {
        reveal_with_fuel(field_of, 2);
        assert(fs.drop_first().len() == 0);
    }
}


fn i8_to_json(x: i8) -> (r: JsonValue)
    ensures
        r.model() == i8_json(x),
{
    if x >= 0 {
        JsonValue::UInt(x as u64)
    } else {
        JsonValue::NegInt(x as i64)
    }
}

fn i8_from_json(v: &JsonValue) -> (r: Option<i8>)
    ensures
        r == i8_of(v.model()),
{
    match v {
        JsonValue::UInt(n) => if *n <= 127 {
            Some(*n as i8)
        } else {
            None
        },
        JsonValue::NegInt(n) => if -128 <= *n && *n < 0 {
            Some(*n as i8)
        } else {
            None
        },
        _ => None,
    }
}

fn pair_to_json(p: (i8, i8)) -> (r: JsonValue)
    ensures
        r.model() == pair_json(p),
{
    let mut items: Vec<JsonValue> = Vec::new();
    items.push(i8_to_json(p.0));
    items.push(i8_to_json(p.1));
    proof {
        lemma_array_model(items);
        assert(items_model(items@) =~= seq![i8_json(p.0), i8_json(p.1)]);
    }
    JsonValue::Array(items)
}

fn pair_from_json(v: &JsonValue) -> (r: Option<(i8, i8)>)
    ensures
        r == pair_of(v.model()),
{
    match v {
        JsonValue::Array(items) => {
            proof {
                lemma_array_model(*items);
            }
            if items.len() != 2 {
                return None;
            }
            match (i8_from_json(&items[0]), i8_from_json(&items[1])) {
                (Some(h), Some(m)) => Some((h, m)),
                _ => None,
            }
        },
        _ => None,
    }
}

fn screen_to_json(s: Option<ScreenStatus>) -> (r: JsonValue)
    ensures
        r.model() == screen_json(s),
{
    match s {
        Some(ScreenStatus::On) => JsonValue::Str(String::from_str("on")),
        Some(ScreenStatus::Off) => JsonValue::Str(String::from_str("off")),
        None => JsonValue::Null,
    }
}

fn screen_from_json(f: Option<&JsonValue>) -> (r: Option<Option<ScreenStatus>>)
    ensures
        r == screen_of(
            match f {
                Some(v) => Some(v.model()),
                None => None,
            },
        ),
{
    if is_absent_or_null(f) {
        Some(None)
    } else {
        match f {
            Some(v) => if is_str(v, "on") {
                Some(Some(ScreenStatus::On))
            } else if is_str(v, "off") {
                Some(Some(ScreenStatus::Off))
            } else {
                None
            },
            None => None,
        }
    }
}

fn str_from_json(f: Option<&JsonValue>) -> (r: Option<String>)
    ensures
        token_view(r) == str_of(
            match f {
                Some(v) => Some(v.model()),
                None => None,
            },
        ),
{
    match f {
        Some(JsonValue::Str(s)) => Some(s.clone()),
        _ => None,
    }
}

fn u64_from_json(f: Option<&JsonValue>) -> (r: Option<u64>)
    ensures
        r == u64_of(
            match f {
                Some(v) => Some(v.model()),
                None => None,
            },
        ),
{
    match f {
        Some(JsonValue::UInt(n)) => Some(*n),
        _ => None,
    }
}

impl PiStatus {
    /// The status as a JSON object.
    pub fn to_json(&self) -> (r: JsonValue)
        ensures
            r.model() == status_json(self.view()),
    {
        let mut fields: Vec<(String, JsonValue)> = Vec::new();
        fields.push((String::from_str("ip_address"), JsonValue::Str(self.ip_address.clone())));
        fields.push((String::from_str("screen_status"), screen_to_json(self.screen_status)));
        fields.push((String::from_str("time_off"), pair_to_json(self.time_off)));
        fields.push((String::from_str("time_on"), pair_to_json(self.time_on)));
        fields.push((String::from_str("timezone"), JsonValue::Str(self.timezone.clone())));
        fields.push((String::from_str("uptime_app"), JsonValue::UInt(self.uptime_app)));
        fields.push((String::from_str("uptime_ws"), JsonValue::UInt(self.uptime_ws)));
        fields.push((String::from_str("uptime"), JsonValue::UInt(self.uptime as u64)));
        fields.push((String::from_str("version"), JsonValue::Str(self.version.clone())));
        proof {
            lemma_object_model(fields);
            assert(fields_model(fields@) =~= status_json(self.view())->Object_0);
        }
        JsonValue::Object(fields)
    }

    /// Read a status object; `None` when a field is missing or ill-typed.
    pub fn from_json(v: &JsonValue) -> (r: Option<PiStatus>)
        ensures
            match r {
                Some(p) => status_of(v.model()) == Some(p.view()),
                None => status_of(v.model()) is None,
            },
    {
        let fs = match v {
            JsonValue::Object(fs) => fs,
            _ => {
                return None;
            },
        };
        proof {
            lemma_object_model(*fs);
        }
        let ip = str_from_json(lookup(fs, "ip_address"));
        let screen = screen_from_json(lookup(fs, "screen_status"));
        let off = match lookup(fs, "time_off") {
            Some(p) => pair_from_json(p),
            None => None,
        };
        let on = match lookup(fs, "time_on") {
            Some(p) => pair_from_json(p),
            None => None,
        };
        let tz = str_from_json(lookup(fs, "timezone"));
        let app = u64_from_json(lookup(fs, "uptime_app"));
        let ws = u64_from_json(lookup(fs, "uptime_ws"));
        let up = u64_from_json(lookup(fs, "uptime"));
        let version = str_from_json(lookup(fs, "version"));
        match (ip, screen, off, on, tz, app, ws, up, version) {
            (
                Some(ip),
                Some(screen),
                Some(off),
                Some(on),
                Some(tz),
                Some(app),
                Some(ws),
                Some(up),
                Some(version),
            ) => {
                if up > usize::MAX as u64 {
                    return None;
                }
                Some(
                    PiStatus {
                        ip_address: ip,
                        screen_status: screen,
                        time_off: off,
                        time_on: on,
                        timezone: tz,
                        uptime_app: app,
                        uptime_ws: ws,
                        uptime: up as usize,
                        version,
                    },
                )
            },
            _ => None,
        }
    }
}

impl Response {
    /// The response as `{"name": ..., "data": ...}`.
    pub fn to_json(&self) -> (r: JsonValue)
        ensures
            r.model() == response_json(self.view()),
    {
        let mut fields: Vec<(String, JsonValue)> = Vec::new();
        match self {
            Response::Status(s) => {
                fields.push((String::from_str("name"), JsonValue::Str(String::from_str("status"))));
                fields.push((String::from_str("data"), s.to_json()));
            },
            Response::Error(m) => {
                fields.push((String::from_str("name"), JsonValue::Str(String::from_str("error"))));
                fields.push((String::from_str("data"), JsonValue::Str(m.clone())));
            },
        }
        proof {
            lemma_object_model(fields);
            assert(fields_model(fields@) =~= response_json(self.view())->Object_0);
        }
        JsonValue::Object(fields)
    }

    /// Read a response object.
    pub fn from_json(v: &JsonValue) -> (r: Option<Response>)
        ensures
            match r {
                Some(x) => response_of(v.model()) == Some(x.view()),
                None => response_of(v.model()) is None,
            },
    {
        let fs = match v {
            JsonValue::Object(fs) => fs,
            _ => {
                return None;
            },
        };
        proof {
            lemma_object_model(*fs);
        }
        let name = match lookup(fs, "name") {
            Some(n) => n,
            None => {
                return None;
            },
        };
        if is_str(name, "status") {
            match lookup(fs, "data") {
                Some(d) => match PiStatus::from_json(d) {
                    Some(s) => Some(Response::Status(s)),
                    None => None,
                },
                None => None,
            }
        } else if is_str(name, "error") {
            match str_from_json(lookup(fs, "data")) {
                Some(m) => Some(Response::Error(m)),
                None => None,
            }
        } else {
            None
        }
    }
}

impl StructuredResponse {
    /// Wrap a response in the outbound envelope, tagged with the correlation
    /// token of the request it answers, if any.
    pub fn data(data: Response, unique: Option<String>) -> (r: JsonValue)
        ensures
            r.model() == envelope_json(data.view(), token_view(unique)),
    {
        let mut fields: Vec<(String, JsonValue)> = Vec::new();
        fields.push((String::from_str("data"), data.to_json()));
        match unique {
            Some(u) => {
                fields.push((String::from_str("unique"), JsonValue::Str(u)));
            },
            None => {},
        }
        proof {
            lemma_object_model(fields);
            assert(fields_model(fields@) =~= envelope_json(data.view(), token_view(unique))->Object_0);
        }
        JsonValue::Object(fields)
    }

    /// Read an outbound envelope, as the coordinator does.
    pub fn from_json(doc: &JsonValue) -> (r: Option<StructuredResponse>)
        ensures
            match r {
                Some(x) => envelope_of(doc.model()) == Some((x.data.view(), token_view(x.unique))),
                None => envelope_of(doc.model()) is None,
            },
    {
        let fs = match doc {
            JsonValue::Object(fs) => fs,
            _ => {
                return None;
            },
        };
        proof {
            lemma_object_model(*fs);
        }
        let response = match lookup(fs, "data") {
            Some(d) => Response::from_json(d),
            None => None,
        };
        let data = match response {
            Some(x) => x,
            None => {
                return None;
            },
        };
        let unique = lookup(fs, "unique");
        if is_absent_or_null(unique) {
            Some(StructuredResponse { data, unique: None })
        } else {
            match unique {
                Some(JsonValue::Str(u)) => Some(StructuredResponse { data, unique: Some(u.clone()) }),
                _ => None,
            }
        }
    }
}

/// Zone name reported when the local zone has none.
pub const DEFAULT_TIMEZONE: &'static str = "Etc/UTC";

/// Relies on `jiff::tz::TimeZone::system` and `TimeZone::iana_name`: the
/// IANA name of the local time zone, when it has one.
#[verifier::external_body]
fn local_time_zone_name() -> (r: Option<String>) {
    jiff::tz::TimeZone::system().iana_name().map(|n| n.to_owned())
}

impl PiStatus {
    /// The zone name, or `Etc/UTC` when there is none.
    pub fn timezone_or_default(name: Option<String>) -> (r: String)
        ensures
            r@ == match name {
                Some(n) => n@,
                None => DEFAULT_TIMEZONE@,
            },
    {
        match name {
            Some(n) => n,
            None => String::from_str(DEFAULT_TIMEZONE),
        }
    }

    /// A status report from a snapshot and the seconds the session has been up.
    pub fn new(sysinfo: SysInfo, uptime_ws: u64) -> (r: Self)
        ensures
            r.ip_address == sysinfo.ip_address,
            r.screen_status == sysinfo.screen_status,
            r.time_off == sysinfo.time_off,
            r.time_on == sysinfo.time_on,
            r.uptime_app == sysinfo.uptime_app,
            r.uptime == sysinfo.uptime,
            r.uptime_ws == uptime_ws,
            r.version == sysinfo.version,
    {
        PiStatus {
            ip_address: sysinfo.ip_address,
            screen_status: sysinfo.screen_status,
            time_off: sysinfo.time_off,
            time_on: sysinfo.time_on,
            timezone: Self::timezone_or_default(local_time_zone_name()),
            uptime_app: sysinfo.uptime_app,
            uptime_ws,
            uptime: sysinfo.uptime,
            version: sysinfo.version,
        }
    }
}

} // verus!
