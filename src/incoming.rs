use vstd::prelude::*;
use crate::json::{absent_or_null, field_of, is_absent_or_null, is_str, lookup, lemma_object_model, Json, JsonValue};

verus! {

/// Power state of the display.
#[derive(Debug, Clone, Copy, PartialEq, Eq, Structural, PartialOrd, Ord, Hash)]
pub enum ScreenStatus {
    On,
    Off,
}

impl ScreenStatus {
    /// Value of the display configuration's power-save mode for this state:
    /// `0` keeps the display on, `3` turns it off.
    pub fn get_arg_value(&self) -> (r: &'static str)
        ensures
            r@ == match self {
                ScreenStatus::On => "0"@,
                ScreenStatus::Off => "3"@,
            },
    {
        match self {
            ScreenStatus::On => "0",
            ScreenStatus::Off => "3",
        }
    }
}

/// A command that the coordinator can send.
#[derive(Debug, Clone, Copy, PartialEq, Eq, Structural)]
pub enum ParsedMessage {
    Status,
    ScreenOn,
    ScreenOff,
}

/// An error envelope sent by the coordinator.
#[derive(Debug)]
pub enum ErrorData {
    Something(String),
}

/// A decoded inbound frame: a command with its correlation token, or an error.
#[derive(Debug)]
pub enum MessageValues {
    Valid(ParsedMessage, String),
    Invalid(ErrorData),
}

/// What an inbound frame means.
pub enum Incoming {
    Command(ParsedMessage, Seq<char>),
    Error(Seq<char>),
}

impl MessageValues {
    pub open spec fn view(&self) -> Incoming {
        match self {
            MessageValues::Valid(m, u) => Incoming::Command(*m, u@),
            MessageValues::Invalid(ErrorData::Something(t)) => Incoming::Error(t@),
        }
    }
}

pub open spec fn incoming_view(r: Option<MessageValues>) -> Option<Incoming> {
    match r {
        Some(m) => Some(m.view()),
        None => None,
    }
}

/// The command that an object `{"name": ..., "body"?: null}` names.
pub open spec fn command_of(j: Json) -> Option<ParsedMessage> {
    match j {
        Json::Object(fs) => if !absent_or_null(field_of(fs, "body"@)) {
            None
        } else if field_of(fs, "name"@) == Some(Json::Str("status"@)) {
            Some(ParsedMessage::Status)
        } else if field_of(fs, "name"@) == Some(Json::Str("screen_on"@)) {
            Some(ParsedMessage::ScreenOn)
        } else if field_of(fs, "name"@) == Some(Json::Str("screen_off"@)) {
            Some(ParsedMessage::ScreenOff)
        } else {
            None
        },
        _ => None,
    }
}

/// The message text of an error object `{"error": "something", "message": ...}`.
pub open spec fn error_data_of(j: Json) -> Option<Seq<char>> {
    match j {
        Json::Object(fs) => if field_of(fs, "error"@) == Some(Json::Str("something"@)) {
            match field_of(fs, "message"@) {
                Some(Json::Str(m)) => Some(m),
                _ => None,
            }
        } else {
            None
        },
        _ => None,
    }
}

/// Reading of a structured envelope `{"data"?, "error"?, "unique"}`: `None`
/// when the document is not one, else what the envelope carries (an error
/// takes precedence over a command).
pub open spec fn structured_of(j: Json) -> Option<Option<Incoming>> {
    match j {
        Json::Object(fs) => {
            let unique = field_of(fs, "unique"@);
            let data = field_of(fs, "data"@);
            let error = field_of(fs, "error"@);
            if !(unique matches Some(Json::Str(_))) {
                None
            } else if !absent_or_null(data) && command_of(data->0) is None {
                None
            } else if !absent_or_null(error) && error_data_of(error->0) is None {
                None
            } else if !absent_or_null(error) {
                Some(Some(Incoming::Error(error_data_of(error->0)->0)))
            } else if !absent_or_null(data) {
                Some(Some(Incoming::Command(command_of(data->0)->0, unique->0->Str_0)))
            } else {
                Some(None)
            }
        },
        _ => None,
    }
}

/// What an inbound document means: a structured envelope, else a bare error
/// object, else nothing actionable.
pub open spec fn incoming_of(j: Json) -> Option<Incoming> {
    match structured_of(j) {
        Some(r) => r,
        None => match error_data_of(j) {
            Some(m) => Some(Incoming::Error(m)),
            None => None,
        },
    }
}

/// Decode the command object of an envelope.
pub fn command_from(v: &JsonValue) -> (r: Option<ParsedMessage>)
    ensures
        r == command_of(v.model()),
{
    match v {
        JsonValue::Object(fs) => {
            proof {
                lemma_object_model(*fs);
            }
            if !is_absent_or_null(lookup(fs, "body")) {
                return None;
            }
            match lookup(fs, "name") {
                Some(name) => {
                    if is_str(name, "status") {
                        Some(ParsedMessage::Status)
                    } else if is_str(name, "screen_on") {
                        Some(ParsedMessage::ScreenOn)
                    } else if is_str(name, "screen_off") {
                        Some(ParsedMessage::ScreenOff)
                    } else {
                        None
                    }
                },
                None => None,
            }
        },
        _ => None,
    }
}

/// Decode an error object.
pub fn error_data_from(v: &JsonValue) -> (r: Option<ErrorData>)
    ensures
        match r {
            Some(ErrorData::Something(t)) => error_data_of(v.model()) == Some(t@),
            None => error_data_of(v.model()) is None,
        },
{
    match v {
        JsonValue::Object(fs) => {
            proof {
                lemma_object_model(*fs);
            }
            match lookup(fs, "error") {
                Some(tag) => {
                    if !is_str(tag, "something") {
                        return None;
                    }
                },
                None => {
                    return None;
                },
            }
            match lookup(fs, "message") {
                Some(JsonValue::Str(m)) => Some(ErrorData::Something(m.clone())),
                _ => None,
            }
        },
        _ => None,
    }
}

/// Decode an inbound document into a command or an error; `None` when the
/// document carries nothing actionable.
pub fn to_struct(doc: &JsonValue) -> (r: Option<MessageValues>)
    ensures
        incoming_view(r) == incoming_of(doc.model()),
{
    if let JsonValue::Object(fs) = doc {
        proof {
            lemma_object_model(*fs);
        }
        let unique = lookup(fs, "unique");
        let data = lookup(fs, "data");
        let error = lookup(fs, "error");
        if let Some(JsonValue::Str(token)) = unique {
            let command = match data {
                Some(d) => command_from(d),
                None => None,
            };
            let error_data = match error {
                Some(e) => error_data_from(e),
                None => None,
            };
            let data_given = !is_absent_or_null(data);
            let error_given = !is_absent_or_null(error);
            if !(data_given && command.is_none()) && !(error_given && error_data.is_none()) {
                if error_given {
                    return match error_data {
                        Some(e) => Some(MessageValues::Invalid(e)),
                        None => None,
                    };
                } else if data_given {
                    return match command {
                        Some(c) => Some(MessageValues::Valid(c, token.clone())),
                        None => None,
                    };
                } else {
                    return None;
                }
            }
        }
    }
    match error_data_from(doc) {
        Some(e) => Some(MessageValues::Invalid(e)),
        None => None,
    }
}

} // verus!
