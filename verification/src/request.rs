//! What the tracker asks the transport to send, and what comes back.

use crate::props::PropertyMap;
use crate::user::IdentifyUser;
use vstd::prelude::*;

verus! {

/// Type of event to track.
#[derive(Debug, Clone, Copy, PartialEq, Eq, Structural)]
pub enum TrackType {
    /// Decrement property value on OpenPanel
    Decrement,
    /// Identify property value on OpenPanel
    Identify,
    /// Increment property value on OpenPanel
    Increment,
    /// Track event on OpenPanel
    Track,
}

/// The variant's name, as its `Debug` text writes it.
pub open spec fn track_type_name(t: TrackType) -> Seq<char> {
    match t {
        TrackType::Decrement => "Decrement"@,
        TrackType::Identify => "Identify"@,
        TrackType::Increment => "Increment"@,
        TrackType::Track => "Track"@,
    }
}

/// The variant's name in lower case, as the `type` field of a payload holds
/// it.
pub open spec fn track_type_wire(t: TrackType) -> Seq<char> {
    match t {
        TrackType::Decrement => "decrement"@,
        TrackType::Identify => "identify"@,
        TrackType::Increment => "increment"@,
        TrackType::Track => "track"@,
    }
}

/// A character in lower case: an ASCII capital becomes its small letter,
/// any other character stays.
pub open spec fn ascii_lower_char(c: char) -> char {
    if 'A' <= c && c <= 'Z' {
        ((c as int) + 32) as char
    } else {
        c
    }
}

/// A text in lower case, character by character.
pub open spec fn ascii_lower(s: Seq<char>) -> Seq<char> {
    s.map_values(|c: char| ascii_lower_char(c))
}

/// The wire name of each event type is its variant name in lower case.
pub proof fn lemma_wire_lower_name(t: TrackType)
    ensures
        track_type_wire(t) == ascii_lower(track_type_name(t)),
{
    match t {
        TrackType::Decrement => {
            reveal_strlit("Decrement");
            reveal_strlit("decrement");
            assert(ascii_lower("Decrement"@) =~= "decrement"@);
        },
        TrackType::Identify => {
            reveal_strlit("Identify");
            reveal_strlit("identify");
            assert(ascii_lower("Identify"@) =~= "identify"@);
        },
        TrackType::Increment => {
            reveal_strlit("Increment");
            reveal_strlit("increment");
            assert(ascii_lower("Increment"@) =~= "increment"@);
        },
        TrackType::Track => {
            reveal_strlit("Track");
            reveal_strlit("track");
            assert(ascii_lower("Track"@) =~= "track"@);
        },
    }
}

impl TrackType {
    /// The variant's name, such as `Track`.
    pub fn name(&self) -> (s: String)
        ensures
            s@ == track_type_name(*self),
    {
        match self {
            TrackType::Decrement => "Decrement".to_owned(),
            TrackType::Identify => "Identify".to_owned(),
            TrackType::Increment => "Increment".to_owned(),
            TrackType::Track => "Track".to_owned(),
        }
    }

    /// The variant's name in lower case, such as `track`.
    pub fn wire_name(&self) -> (s: String)
        ensures
            s@ == track_type_wire(*self),
            s@ == ascii_lower(track_type_name(*self)),
    {
        proof {
            lemma_wire_lower_name(*self);
        }
        match self {
            TrackType::Decrement => "decrement".to_owned(),
            TrackType::Identify => "identify".to_owned(),
            TrackType::Increment => "increment".to_owned(),
            TrackType::Track => "track".to_owned(),
        }
    }
}

impl Default for TrackType {
    fn default() -> (t: Self)
        ensures
            t == TrackType::Track,
    {
        TrackType::Track
    }
}

/// The body of a request to the OpenPanel API: the event type and what goes
/// under `payload`.
#[allow(inconsistent_fields)]
pub enum Payload {
    /// A tracked event; `profileId` is left out when `profile_id` is `None`.
    Track { profile_id: Option<String>, name: String, properties: PropertyMap },
    /// A user to identify.
    Identify { user: IdentifyUser },
    /// A property of a profile to decrement by `value`.
    Decrement { profile_id: String, property: String, value: i64 },
    /// A property of a profile to increment by `value`.
    Increment { profile_id: String, property: String, value: i64 },
}

/// The event type that a payload is sent with.
pub open spec fn payload_type(p: Payload) -> TrackType {
    match p {
        Payload::Track { .. } => TrackType::Track,
        Payload::Identify { .. } => TrackType::Identify,
        Payload::Decrement { .. } => TrackType::Decrement,
        Payload::Increment { .. } => TrackType::Increment,
    }
}

impl Payload {
    /// The event type of the payload: the `type` field it is sent with.
    pub fn track_type(&self) -> (t: TrackType)
        ensures
            t == payload_type(*self),
            (t == TrackType::Track) == (*self is Track),
            (t == TrackType::Identify) == (*self is Identify),
            (t == TrackType::Decrement) == (*self is Decrement),
            (t == TrackType::Increment) == (*self is Increment),
    {
        match self {
            Payload::Track { .. } => TrackType::Track,
            Payload::Identify { .. } => TrackType::Identify,
            Payload::Decrement { .. } => TrackType::Decrement,
            Payload::Increment { .. } => TrackType::Increment,
        }
    }
}

/// HTTP method of a request.
#[derive(Debug, Clone, Copy, PartialEq, Eq, Structural)]
pub enum HttpMethod {
    Get,
    Post,
}

/// A request for the transport to send: where, how, with which header lines
/// (each `name: value`), and with which JSON body, if any.
pub struct OutgoingRequest {
    pub url: String,
    pub method: HttpMethod,
    pub headers: Vec<String>,
    pub payload: Option<Payload>,
}

/// The code of the engine's HTTP request result that means success.
pub const HTTP_RESULT_SUCCESS: i64 = 0;

/// What a completed HTTP request gave: the engine's result code, the HTTP
/// status, the response headers and the body.
pub struct HttpRequestResult {
    pub result: i64,
    pub response_code: i64,
    pub headers: Vec<String>,
    pub body: Vec<u8>,
}

/// What became of a request that the tracker asked to send.
pub enum SendEvent {
    /// The request could not be started.
    StartFailed,
    /// The request completed. `device_id` is the text of the `deviceId`
    /// field of the JSON body, where it has one.
    Completed { response: HttpRequestResult, device_id: Option<String> },
}

/// What became of a device id request.
pub enum FetchEvent {
    /// The request could not be started.
    StartFailed,
    /// The request completed with the engine's result code `result`; `body`
    /// is the response body as text.
    Completed { result: i64, body: String },
}

} // verus!
