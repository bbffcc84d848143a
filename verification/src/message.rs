use crate::errors::ApiError;
use crate::strings::str_eq;
use vstd::prelude::*;
use vstd::string::{StrSliceExecFns, StringExecFns};

verus! {

/// A message sent to or from the service over an event channel.
///
/// Every known variant carries the full text of its frame: a JSON object
/// whose `msg` field names the variant. `Unknown` stands for a frame whose
/// `msg` tag this crate has not mapped; such messages are dropped by the
/// delivery loop and never surfaced to a handler.
#[derive(Debug, Clone, PartialEq, Eq)]
pub enum Message {
    SubscriptionTopicsInfo(String),
    DeviceInfoSet(String),
    SessionInfo(String),
    DataUpdate(String),
    /// A message whose kind is yet to be mapped by the crate.
    Unknown,
}

/// A real-time event that occurred in a location.
#[derive(Debug, Clone, PartialEq, Eq)]
pub struct Event {
    /// The content of the event.
    pub message: Message,
}

impl Event {
    /// Create a new event with the given message.
    pub fn new(message: Message) -> (r: Event)
        ensures
            r.message == message,
    {
        Event { message }
    }
}

impl Message {
    /// The tag under which frames of this variant travel.
    pub open spec fn spec_tag(self) -> Seq<char> {
        match self {
            Message::SubscriptionTopicsInfo(_) => "SubscriptionTopicsInfo"@,
            Message::DeviceInfoSet(_) => "DeviceInfoSet"@,
            Message::SessionInfo(_) => "SessionInfo"@,
            Message::DataUpdate(_) => "DataUpdate"@,
            Message::Unknown => "Unknown"@,
        }
    }

    /// The frame text a known message carries; an `Unknown` message keeps
    /// none.
    pub open spec fn spec_frame(self) -> Option<Seq<char>> {
        match self {
            Message::SubscriptionTopicsInfo(s) => Some(s@),
            Message::DeviceInfoSet(s) => Some(s@),
            Message::SessionInfo(s) => Some(s@),
            Message::DataUpdate(s) => Some(s@),
            Message::Unknown => None,
        }
    }

    /// Whether this message's kind is one the crate has not mapped.
    pub fn is_unknown(&self) -> (r: bool)
        ensures
            r == (*self is Unknown),
    {
        matches!(self, Message::Unknown)
    }

    /// The frame text of a known message.
    pub fn frame_text(&self) -> (r: Option<String>)
        ensures
            match r {
                Some(s) => self.spec_frame() == Some(s@),
                None => self is Unknown,
            },
    {
        match self {
            Message::SubscriptionTopicsInfo(s) => Some(s.clone()),
            Message::DeviceInfoSet(s) => Some(s.clone()),
            Message::SessionInfo(s) => Some(s.clone()),
            Message::DataUpdate(s) => Some(s.clone()),
            Message::Unknown => None,
        }
    }
}

/// Whether this crate maps frames under the given `msg` tag to a message
/// variant of their own.
pub open spec fn spec_known_tag(tag: Seq<char>) -> bool {
    ||| tag == "SubscriptionTopicsInfo"@
    ||| tag == "DeviceInfoSet"@
    ||| tag == "SessionInfo"@
    ||| tag == "DataUpdate"@
}

/// The string value under `key` in the top-level JSON object of `text`:
/// `Some` exactly when `text` is valid JSON whose top level is an object
/// holding a string there. What serde_json returns for a given text.
pub uninterp spec fn spec_json_string_field(text: Seq<char>, key: Seq<char>) -> Option<Seq<char>>;

/// Relies on serde_json's from_str, Value::get and Value::as_str: parsing a
/// text is a function of the text alone, and the returned field is the
/// string value under `key` in the parsed top-level object, when the text
/// parses, the top level is an object, the key is present and its value is
/// a string.
#[verifier::external_body]
fn json_string_field(text: &str, key: &str) -> (r: Option<String>)
    ensures
        match r {
            Some(s) => spec_json_string_field(text@, key@) == Some(s@),
            None => spec_json_string_field(text@, key@) is None,
        },
{
    match serde_json::from_str::<serde_json::Value>(text) {
        Ok(value) => match value.get(key) {
            Some(field) => field.as_str().map(|s| s.to_string()),
            None => None,
        },
        Err(_) => None,
    }
}

/// The message a well-tagged frame decodes to, stated over the frame's text
/// and its `msg` tag.
pub open spec fn spec_decoded_message(m: Message, text: Seq<char>, tag: Seq<char>) -> bool {
    if spec_known_tag(tag) {
        m.spec_tag() == tag && m.spec_frame() == Some(text)
    } else {
        m is Unknown
    }
}

/// Decode one inbound frame.
///
/// A frame decodes to an event exactly when it is a JSON object with a
/// string `msg` tag; a recognised tag yields the matching variant carrying
/// the frame's text, any other tag yields `Unknown`. A frame without such a
/// tag is refused as an invalid response carrying the offending text.
pub fn parse_event(text: &str) -> (r: Result<Event, ApiError>)
    ensures
        match spec_json_string_field(text@, "msg"@) {
            Some(tag) => r matches Ok(e) && spec_decoded_message(e.message, text@, tag),
            None => r matches Err(e) && (e matches ApiError::InvalidResponse(d) && d@ == text@),
        },
{
    match json_string_field(text, "msg") {
        None => Err(ApiError::InvalidResponse(String::from_str(text))),
        Some(tag) => {
            let t = tag.as_str();
            let message = if str_eq(t, "SubscriptionTopicsInfo") {
                Message::SubscriptionTopicsInfo(String::from_str(text))
            } else if str_eq(t, "DeviceInfoSet") {
                Message::DeviceInfoSet(String::from_str(text))
            } else if str_eq(t, "SessionInfo") {
                Message::SessionInfo(String::from_str(text))
            } else if str_eq(t, "DataUpdate") {
                Message::DataUpdate(String::from_str(text))
            } else {
                Message::Unknown
            };
            Ok(Event { message })
        },
    }
}

/// The frame text for a tag and a payload object: the payload's fields stand
/// after the `msg` tag in one JSON object.
pub open spec fn spec_framed(tag: Seq<char>, payload: Seq<char>) -> Seq<char> {
    if payload.len() == 2 {
        "{\"msg\":\""@ + tag + "\"}"@
    } else {
        "{\"msg\":\""@ + tag + "\","@ + payload.subrange(1, payload.len() as int)
    }
}

/// Whether a text can stand as the payload object of a frame: a JSON object
/// literal, at least `{}`.
pub open spec fn spec_payload_object(payload: Seq<char>) -> bool {
    payload.len() >= 2 && payload[0] == '{' && payload[payload.len() - 1] == '}'
}

/// Build the frame text that carries `payload`'s fields under the given
/// `msg` tag, or nothing when `payload` is not shaped as an object literal.
pub fn frame_message(tag: &str, payload: &str) -> (r: Option<String>)
    ensures
        match r {
            Some(s) => spec_payload_object(payload@) && s@ == spec_framed(tag@, payload@),
            None => !spec_payload_object(payload@),
        },
{
    let len = payload.unicode_len();
    if len < 2 || payload.get_char(0) != '{' || payload.get_char(len - 1) != '}' {
        return None;
    }
    let mut out = String::from_str("{\"msg\":\"");
    out.append(tag);
    if len == 2 {
        out.append("\"}");
    } else {
        out.append("\",");
        out.append(payload.substring_char(1, len));
    }
    Some(out)
}

} // verus!
