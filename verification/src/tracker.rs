//! The OpenPanel tracker: its settings and state, the requests it builds for
//! each kind of event, and what it makes of the answers.
//!
//! Sending is the caller's part. Each request goes in two steps: a method such
//! as `track` checks that sending is allowed and builds the request; the caller
//! sends it and hands what came back to `complete_request` (or
//! `complete_fetch_device_id`), which gives the call's result and updates the
//! tracker.

use crate::decimal::{i64_to_decimal, int_decimal};
use crate::json::{json_string_map, parse_string_map};
use crate::props::{entries_map, has_key, insert_entry, pairs_view, PropertyMap};
pub use crate::agent::user_agent;
pub use crate::request::HttpRequestResult;
use crate::request::{
    FetchEvent, HttpMethod, OutgoingRequest, Payload, SendEvent, HTTP_RESULT_SUCCESS,
};
use crate::user::IdentifyUser;
use crate::{TrackerError, TrackerResult};
use vstd::prelude::*;

verus! {

/// An optional string, taken by its text.
pub open spec fn opt_view(o: Option<String>) -> Option<Seq<char>> {
    match o {
        Some(s) => Some(s@),
        None => None,
    }
}

/// An optional property map, taken by its map.
pub open spec fn opt_map_view(o: Option<PropertyMap>) -> Option<Map<Seq<char>, Seq<char>>> {
    match o {
        Some(m) => Some(m@),
        None => None,
    }
}

/// A list of strings, each taken by its text.
pub open spec fn strings_view(v: Seq<String>) -> Seq<Seq<char>> {
    v.map_values(|s: String| s@)
}

/// The global property under which the device id travels with each event.
pub open spec fn device_id_key() -> Seq<char> {
    "__deviceId"@
}

/// The property under which `revenue` sends the amount.
pub open spec fn revenue_key() -> Seq<char> {
    "__revenue"@
}

/// The headers of a newly configured tracker, in this order.
pub open spec fn default_headers(
    client_id: Seq<char>,
    client_secret: Seq<char>,
    user_agent: Seq<char>,
) -> Seq<(Seq<char>, Seq<char>)> {
    seq![
        ("Content-Type"@, "application/json"@),
        ("User-Agent"@, user_agent),
        ("openpanel-client-id"@, client_id),
        ("openpanel-client-secret"@, client_secret),
    ]
}

/// A header as the request carries it: `name: value`.
pub open spec fn header_line(e: (Seq<char>, Seq<char>)) -> Seq<char> {
    e.0 + ": "@ + e.1
}

/// The header lines of a list of headers, in order.
pub open spec fn header_lines(s: Seq<(Seq<char>, Seq<char>)>) -> Seq<Seq<char>> {
    s.map_values(|e: (Seq<char>, Seq<char>)| header_line(e))
}

/// The tracker's state, by the text of its parts.
#[verifier::ext_equal]
pub struct TrackerView {
    pub api_url: Seq<char>,
    pub device_id: Option<Seq<char>>,
    pub headers: Seq<(Seq<char>, Seq<char>)>,
    pub global_props: Map<Seq<char>, Seq<char>>,
    pub store_session_device: bool,
    pub force_in_editor: bool,
    pub disabled: bool,
    pub in_editor: bool,
    pub user_agent: Seq<char>,
}

impl TrackerView {
    /// Sending is off: disabled, or running in the editor without being
    /// forced on there.
    pub open spec fn is_disabled(self) -> bool {
        self.disabled || (self.in_editor && !self.force_in_editor)
    }

    /// The given properties extended by the global ones; a global property
    /// wins over an event property of the same key.
    pub open spec fn with_globals(
        self,
        properties: Option<Map<Seq<char>, Seq<char>>>,
    ) -> Map<Seq<char>, Seq<char>> {
        match properties {
            Some(p) => p.union_prefer_right(self.global_props),
            None => self.global_props,
        }
    }

    /// The header lines that requests carry.
    pub open spec fn header_lines(self) -> Seq<Seq<char>> {
        header_lines(self.headers)
    }

    /// The state after being handed the device id `id`: kept, and sent as a
    /// global property, when session devices are stored; else unchanged.
    pub open spec fn with_device_id(self, id: Seq<char>) -> TrackerView {
        if self.store_session_device {
            TrackerView {
                device_id: Some(id),
                global_props: self.global_props.insert(device_id_key(), id),
                ..self
            }
        } else {
            self
        }
    }

    /// The device id that an answer is compared with: the known one, or
    /// `NO_ID`.
    pub open spec fn known_device_id(self) -> Seq<char> {
        match self.device_id {
            Some(d) => d,
            None => "NO_ID"@,
        }
    }

    /// The state after an answer that named device id `answered`, if any: a
    /// named id other than the known one is taken up by `with_device_id`.
    pub open spec fn after_answer(self, answered: Option<Seq<char>>) -> TrackerView {
        match answered {
            Some(d) => if d != self.known_device_id() {
                self.with_device_id(d)
            } else {
                self
            },
            None => self,
        }
    }

    /// The state after `set`: new URL, the default headers for the new
    /// credentials, and new switches; device id and global properties stay.
    pub open spec fn configured(
        self,
        api_url: Seq<char>,
        client_id: Seq<char>,
        client_secret: Seq<char>,
        store_session_device: bool,
        force_in_editor: bool,
        disabled: bool,
    ) -> TrackerView {
        TrackerView {
            api_url,
            headers: default_headers(client_id, client_secret, self.user_agent),
            store_session_device,
            force_in_editor,
            disabled,
            ..self
        }
    }

    /// Whether `r` is what a tracker in this state answers to a request for
    /// `url` with `method`: `Disabled` when sending is off, else a request for
    /// that URL and method with the tracker's header lines.
    pub open spec fn prepared(
        self,
        r: TrackerResult<OutgoingRequest>,
        url: Seq<char>,
        method: HttpMethod,
    ) -> bool {
        if self.is_disabled() {
            r matches Err(TrackerError::Disabled)
        } else {
            r matches Ok(req) && req.url@ == url && req.method == method && strings_view(
                req.headers@,
            ) == self.header_lines()
        }
    }

    /// The properties that `revenue` sends: the event properties with the
    /// globals, then the amount, and the globals once more.
    pub open spec fn revenue_properties(
        self,
        properties: Option<Map<Seq<char>, Seq<char>>>,
        amount: int,
    ) -> Map<Seq<char>, Seq<char>> {
        self.with_globals(
            Some(self.with_globals(properties).insert(revenue_key(), int_decimal(amount))),
        )
    }
}

/// Whether `p` is a tracked event with this profile id, name and properties.
pub open spec fn is_track_payload(
    p: Option<Payload>,
    profile_id: Option<Seq<char>>,
    name: Seq<char>,
    properties: Map<Seq<char>, Seq<char>>,
) -> bool {
    match p {
        Some(Payload::Track { profile_id: pid, name: n, properties: props }) => {
            &&& opt_view(pid) == profile_id
            &&& n@ == name
            &&& props@ == properties
        },
        _ => false,
    }
}

/// What a device id answer gives: the `deviceId` field, or the empty text
/// where the object has none.
pub open spec fn answered_device_id(m: Map<Seq<char>, Seq<char>>) -> Seq<char> {
    if m.contains_key("deviceId"@) {
        m["deviceId"@]
    } else {
        Seq::empty()
    }
}

/// OpenPanel SDK for tracking events.
pub struct OpenPanelTracker {
    pub api_url: String,
    pub device_id: Option<String>,
    /// Request headers, in the order they were first set.
    pub headers: PropertyMap,
    /// Properties added to every `track` and `identify` event.
    pub global_props: PropertyMap,
    pub store_session_device: bool,
    pub force_in_editor: bool,
    pub disabled: bool,
    /// The game runs inside the editor.
    pub in_editor: bool,
    /// The user agent text sent with each request.
    pub user_agent: String,
}

impl View for OpenPanelTracker {
    type V = TrackerView;

    open spec fn view(&self) -> TrackerView {
        TrackerView {
            api_url: self.api_url@,
            device_id: opt_view(self.device_id),
            headers: self.headers.entries_view(),
            global_props: self.global_props@,
            store_session_device: self.store_session_device,
            force_in_editor: self.force_in_editor,
            disabled: self.disabled,
            in_editor: self.in_editor,
            user_agent: self.user_agent@,
        }
    }
}

fn clone_opt(o: &Option<String>) -> (r: Option<String>)
    ensures
        opt_view(r) == opt_view(*o),
{
    match o {
        Some(s) => Some(s.clone()),
        None => None,
    }
}

/// The headers of a newly configured tracker.
fn default_header_map(client_id: &String, client_secret: &String, user_agent: &String) -> (m:
    PropertyMap)
    ensures
        m.entries_view() == default_headers(client_id@, client_secret@, user_agent@),
{
    proof {
        reveal_strlit("Content-Type");
        reveal_strlit("User-Agent");
        reveal_strlit("openpanel-client-id");
        reveal_strlit("openpanel-client-secret");
    }
    let ghost k1 = "Content-Type"@;
    let ghost k2 = "User-Agent"@;
    let ghost k3 = "openpanel-client-id"@;
    let ghost k4 = "openpanel-client-secret"@;
    let mut m = PropertyMap::new();
    m.insert("Content-Type".to_owned(), "application/json".to_owned());
    assert(m.entries_view() =~= seq![(k1, "application/json"@)]);
    let ghost s1 = m.entries_view();
    assert(!has_key(s1, k2)) by {
        assert(k1[0] != k2[0]);
    }
    m.insert("User-Agent".to_owned(), user_agent.clone());
    assert(m.entries_view() =~= s1.push((k2, user_agent@)));
    let ghost s2 = m.entries_view();
    assert(!has_key(s2, k3)) by {
        assert(k1[0] != k3[0]);
        assert(k2[0] != k3[0]);
    }
    m.insert("openpanel-client-id".to_owned(), client_id.clone());
    assert(m.entries_view() =~= s2.push((k3, client_id@)));
    let ghost s3 = m.entries_view();
    assert(!has_key(s3, k4)) by {
        assert(k1[0] != k4[0]);
        assert(k2[0] != k4[0]);
        assert(k3.len() != k4.len());
    }
    m.insert("openpanel-client-secret".to_owned(), client_secret.clone());
    assert(m.entries_view() =~= default_headers(client_id@, client_secret@, user_agent@));
    m
}

impl OpenPanelTracker {
    /// A tracker as the engine creates it: the API URL and credentials from
    /// the environment where set (else the public service and empty
    /// credentials), session devices stored, not forced on in the editor,
    /// disabled.
    pub fn init(
        api_url: Option<String>,
        client_id: Option<String>,
        client_secret: Option<String>,
        user_agent: String,
        stored_device_id: Option<String>,
        in_editor: bool,
    ) -> (t: Self)
        ensures
            t@.api_url == (match api_url {
                Some(u) => u@,
                None => "https://api.openpanel.dev"@,
            }),
            t@.headers == default_headers(
                match client_id {
                    Some(c) => c@,
                    None => Seq::empty(),
                },
                match client_secret {
                    Some(c) => c@,
                    None => Seq::empty(),
                },
                user_agent@,
            ),
            t@.device_id == opt_view(stored_device_id),
            t@.global_props == (match stored_device_id {
                Some(id) => Map::empty().insert(device_id_key(), id@),
                None => Map::empty(),
            }),
            t@.store_session_device,
            !t@.force_in_editor,
            t@.disabled,
            t@.in_editor == in_editor,
            t@.user_agent == user_agent@,
    {
        let url = match api_url {
            Some(u) => u,
            None => "https://api.openpanel.dev".to_owned(),
        };
        let id = match client_id {
            Some(c) => c,
            None => String::new(),
        };
        let secret = match client_secret {
            Some(c) => c,
            None => String::new(),
        };
        Self::init_node(url, id, secret, true, false, true, user_agent, stored_device_id, in_editor)
    }

    /// A tracker with the given settings. `stored_device_id` is the device id
    /// kept from an earlier session, if any; it is also the first global
    /// property.
    pub fn init_node(
        api_url: String,
        client_id: String,
        client_secret: String,
        store_session_device: bool,
        force_in_editor: bool,
        disabled: bool,
        user_agent: String,
        stored_device_id: Option<String>,
        in_editor: bool,
    ) -> (t: Self)
        ensures
            t@.api_url == api_url@,
            t@.headers == default_headers(client_id@, client_secret@, user_agent@),
            t@.device_id == opt_view(stored_device_id),
            t@.global_props == (match stored_device_id {
                Some(id) => Map::empty().insert(device_id_key(), id@),
                None => Map::empty(),
            }),
            t@.store_session_device == store_session_device,
            t@.force_in_editor == force_in_editor,
            t@.disabled == disabled,
            t@.in_editor == in_editor,
            t@.user_agent == user_agent@,
    {
        let headers = default_header_map(&client_id, &client_secret, &user_agent);
        let mut global_props = PropertyMap::new();
        match &stored_device_id {
            Some(id) => {
                global_props.insert("__deviceId".to_owned(), id.clone());
            },
            None => {},
        }
        OpenPanelTracker {
            api_url,
            device_id: stored_device_id,
            headers,
            global_props,
            store_session_device,
            force_in_editor,
            disabled,
            in_editor,
            user_agent,
        }
    }

    /// Sets credentials and options for the tracker. The headers are reset
    /// to the defaults for the new credentials.
    pub fn set(
        &mut self,
        api_url: String,
        client_id: String,
        client_secret: String,
        store_session_device: bool,
        force_in_editor: bool,
        disabled: bool,
    )
        ensures
            final(self)@ == old(self)@.configured(
                api_url@,
                client_id@,
                client_secret@,
                store_session_device,
                force_in_editor,
                disabled,
            ),
    {
        self.api_url = api_url;
        self.headers = default_header_map(&client_id, &client_secret, &self.user_agent);
        self.store_session_device = store_session_device;
        self.force_in_editor = force_in_editor;
        self.disabled = disabled;
    }

    /// Takes `device_id` as the device id when session devices are stored,
    /// and then sends it with every event. Returns whether it was taken; the
    /// caller then keeps it for later sessions.
    pub fn set_device_id(&mut self, device_id: String) -> (stored: bool)
        ensures
            stored == old(self)@.store_session_device,
            final(self)@ == old(self)@.with_device_id(device_id@),
            stored ==> final(self)@.device_id == Some(device_id@),
            stored ==> final(self)@.global_props == old(self)@.global_props.insert(
                "__deviceId"@,
                device_id@,
            ),
            !stored ==> final(self)@ == old(self)@,
    {
        if self.store_session_device {
            self.device_id = Some(device_id.clone());
            self.global_props.insert("__deviceId".to_owned(), device_id);
            true
        } else {
            false
        }
    }

    /// The known device id.
    pub fn get_device_id(&self) -> (r: Option<String>)
        ensures
            opt_view(r) == self@.device_id,
    {
        clone_opt(&self.device_id)
    }

    /// Set a custom header, such as one used for geo location. A header of
    /// the same name is replaced where it stands; a new one goes last.
    pub fn set_header(&mut self, key: String, value: String)
        ensures
            final(self)@ == (TrackerView {
                headers: insert_entry(old(self)@.headers, key@, value@),
                ..old(self)@
            }),
    {
        self.headers.insert(key, value);
    }

    /// Set global properties: they are added to every `track` and `identify`
    /// event sent.
    pub fn set_global_properties(&mut self, properties: PropertyMap)
        ensures
            final(self)@ == (TrackerView { global_props: properties@, ..old(self)@ }),
    {
        self.global_props = properties;
    }

    pub fn force_in_editor(&mut self, force: bool)
        ensures
            final(self)@ == (TrackerView { force_in_editor: force, ..old(self)@ }),
    {
        self.force_in_editor = force;
    }

    /// Disable sending events to OpenPanel.
    pub fn disable(&mut self, disable: bool)
        ensures
            final(self)@ == (TrackerView { disabled: disable, ..old(self)@ }),
    {
        self.disabled = disable;
    }

    /// Whether sending is off.
    pub fn is_disabled(&self) -> (b: bool)
        ensures
            b == self@.is_disabled(),
    {
        self.disabled || (self.in_editor && !self.force_in_editor)
    }

    /// Whether an event with these properties may be sent: false exactly when
    /// a filter is given and it answers true for the properties extended by
    /// the global ones.
    pub fn filter<F: Fn(PropertyMap) -> bool>(
        &self,
        properties: Option<PropertyMap>,
        filter: Option<&F>,
    ) -> (pass: bool)
        requires
            match filter {
                Some(f) => forall|m: PropertyMap| call_requires(*f, (m,)),
                None => true,
            },
        ensures
            match filter {
                Some(f) => exists|m: PropertyMap|
                    m@ == self@.with_globals(opt_map_view(properties)) && call_ensures(
                        *f,
                        (m,),
                        !pass,
                    ),
                None => pass,
            },
    {
        match filter {
            Some(f) => {
                let m = self.create_properties_with_globals(properties);
                let answer = f(m);
                !answer
            },
            None => true,
        }
    }

    /// The given properties extended by the global ones; a global property
    /// wins over a given one of the same key.
    pub fn create_properties_with_globals(&self, properties: Option<PropertyMap>) -> (r:
        PropertyMap)
        ensures
            r@ == self@.with_globals(opt_map_view(properties)),
    {
        match properties {
            Some(p) => {
                let mut p = p;
                p.extend(&self.global_props);
                p
            },
            None => self.global_props.duplicate(),
        }
    }

    /// The header lines that requests carry, each `name: value`, in order.
    pub fn header_lines(&self) -> (lines: Vec<String>)
        ensures
            strings_view(lines@) == self@.header_lines(),
    {
        let entries = self.headers.to_entries();
        let ghost e = pairs_view(entries@);
        let mut lines: Vec<String> = Vec::new();
        let n = entries.len();
        let mut i: usize = 0;
        while i < n
            invariant
                n == entries@.len(),
                e == pairs_view(entries@),
                e == self.headers.entries_view(),
                i <= n,
                strings_view(lines@) =~= header_lines(e.take(i as int)),
            decreases n - i,
        {
            let line = entries[i].0.clone().concat(": ").concat(entries[i].1.as_str());
            let ghost before = lines@;
            lines.push(line);
            proof {
                assert(strings_view(lines@) =~= strings_view(before).push(line@));
                assert(e.take(i + 1) =~= e.take(i as int).push(e[i as int]));
                assert(header_lines(e.take(i + 1)) =~= header_lines(e.take(i as int)).push(
                    header_line(e[i as int]),
                ));
            }
            i = i + 1;
        }
        assert(e.take(n as int) =~= e);
        lines
    }

    /// A POST of `payload` to the API, unless sending is off.
    pub fn send_request(&self, payload: Payload) -> (r: TrackerResult<OutgoingRequest>)
        ensures
            self@.prepared(r, self@.api_url, HttpMethod::Post),
            r matches Ok(req) ==> req.payload == Some(payload),
    {
        if self.is_disabled() {
            return Err(TrackerError::Disabled);
        }
        Ok(
            OutgoingRequest {
                url: self.api_url.clone(),
                method: HttpMethod::Post,
                headers: self.header_lines(),
                payload: Some(payload),
            },
        )
    }

    /// Track event on OpenPanel: the event `event`, for `profile_id` where
    /// given, with the given properties extended by the global ones.
    pub fn track(&self, event: &str, profile_id: Option<String>, properties: Option<PropertyMap>) -> (r:
        TrackerResult<OutgoingRequest>)
        ensures
            self@.prepared(r, self@.api_url, HttpMethod::Post),
            r matches Ok(req) ==> is_track_payload(
                req.payload,
                opt_view(profile_id),
                event@,
                self@.with_globals(opt_map_view(properties)),
            ),
    {
        let props = self.create_properties_with_globals(properties);
        let payload = Payload::Track { profile_id, name: event.to_owned(), properties: props };
        self.send_request(payload)
    }

    /// Identify user on OpenPanel; the user's properties are extended by the
    /// global ones.
    pub fn identify(&self, user: IdentifyUser) -> (r: TrackerResult<OutgoingRequest>)
        ensures
            self@.prepared(r, self@.api_url, HttpMethod::Post),
            r matches Ok(req) ==> (req.payload matches Some(Payload::Identify { user: u }) && {
                &&& u.profile_id == user.profile_id
                &&& u.email == user.email
                &&& u.first_name == user.first_name
                &&& u.last_name == user.last_name
                &&& u.properties@ == self@.with_globals(Some(user.properties@))
            }),
    {
        let IdentifyUser { profile_id, email, first_name, last_name, properties } = user;
        let properties = self.create_properties_with_globals(Some(properties));
        let user = IdentifyUser { profile_id, email, first_name, last_name, properties };
        self.send_request(Payload::Identify { user })
    }

    /// Decrement property value on OpenPanel.
    pub fn decrement(&self, profile_id: String, property: String, value: i64) -> (r: TrackerResult<
        OutgoingRequest,
    >)
        ensures
            self@.prepared(r, self@.api_url, HttpMethod::Post),
            r matches Ok(req) ==> req.payload == Some(
                Payload::Decrement { profile_id, property, value },
            ),
    {
        self.send_request(Payload::Decrement { profile_id, property, value })
    }

    /// Increment property value on OpenPanel.
    pub fn increment(&self, profile_id: String, property: String, value: i64) -> (r: TrackerResult<
        OutgoingRequest,
    >)
        ensures
            self@.prepared(r, self@.api_url, HttpMethod::Post),
            r matches Ok(req) ==> req.payload == Some(
                Payload::Increment { profile_id, property, value },
            ),
    {
        self.send_request(Payload::Increment { profile_id, property, value })
    }

    /// Track revenue: a `revenue` event whose properties hold the amount
    /// under `__revenue`.
    pub fn revenue(&self, profile_id: Option<String>, amount: i64, properties: Option<PropertyMap>) -> (r:
        TrackerResult<OutgoingRequest>)
        ensures
            self@.prepared(r, self@.api_url, HttpMethod::Post),
            r matches Ok(req) ==> is_track_payload(
                req.payload,
                opt_view(profile_id),
                "revenue"@,
                self@.revenue_properties(opt_map_view(properties), amount as int),
            ),
    {
        let mut props = self.create_properties_with_globals(properties);
        props.insert("__revenue".to_owned(), i64_to_decimal(amount));
        self.track("revenue", profile_id, Some(props))
    }

    /// The result of a sent request, from what became of it. An answer that
    /// names a device id other than the known one hands it to
    /// `set_device_id`; the flag tells whether it was taken.
    pub fn complete_request(&mut self, event: SendEvent) -> (r: (
        TrackerResult<HttpRequestResult>,
        bool,
    ))
        ensures
            match event {
                SendEvent::StartFailed => {
                    &&& r.0 matches Err(TrackerError::Request)
                    &&& !r.1
                    &&& final(self)@ == old(self)@
                },
                SendEvent::Completed { response, device_id } => {
                    &&& r.0 == Ok::<HttpRequestResult, TrackerError>(response)
                    &&& final(self)@ == old(self)@.after_answer(opt_view(device_id))
                    &&& r.1 == (old(self)@.store_session_device && match device_id {
                        Some(d) => d@ != old(self)@.known_device_id(),
                        None => false,
                    })
                },
            },
    {
        match event {
            SendEvent::StartFailed => (Err(TrackerError::Request), false),
            SendEvent::Completed { response, device_id } => {
                let stored = match device_id {
                    Some(d) => {
                        let known = match &self.device_id {
                            Some(k) => k.clone(),
                            None => "NO_ID".to_owned(),
                        };
                        if d != known {
                            self.set_device_id(d)
                        } else {
                            false
                        }
                    },
                    None => false,
                };
                (Ok(response), stored)
            },
        }
    }

    /// A request for a new device id, unless sending is off.
    pub fn fetch_device_id(&self) -> (r: TrackerResult<OutgoingRequest>)
        ensures
            self@.prepared(r, self@.api_url + "/device-id"@, HttpMethod::Get),
            r matches Ok(req) ==> req.payload is None,
    {
        if self.disabled {
            return Err(TrackerError::Disabled);
        }
        let url = self.api_url.clone().concat("/device-id");
        if self.in_editor && !self.force_in_editor {
            return Err(TrackerError::Disabled);
        }
        Ok(OutgoingRequest { url, method: HttpMethod::Get, headers: self.header_lines(), payload: None })
    }

    /// The device id that a device id request gave, from what became of it:
    /// `Request` where it failed, `Serializing` where the body is no JSON
    /// object of strings, else its `deviceId` (empty where it has none).
    pub fn complete_fetch_device_id(event: FetchEvent) -> (r: TrackerResult<String>)
        ensures
            match event {
                FetchEvent::StartFailed => r matches Err(TrackerError::Request),
                FetchEvent::Completed { result, body } => if result != HTTP_RESULT_SUCCESS {
                    r matches Err(TrackerError::Request)
                } else {
                    match json_string_map(body@) {
                        None => r matches Err(TrackerError::Serializing(_)),
                        Some(m) => r matches Ok(id) && id@ == answered_device_id(m),
                    }
                },
            },
    {
        match event {
            FetchEvent::StartFailed => Err(TrackerError::Request),
            FetchEvent::Completed { result, body } => {
                if result != HTTP_RESULT_SUCCESS {
                    return Err(TrackerError::Request);
                }
                let parsed = parse_string_map(body.as_str());
                device_id_from_response(parsed)
            },
        }
    }
}

/// The device id that a parsed device id answer gives: its `deviceId`, or
/// the empty text where it has none; a parse error becomes `Serializing`.
pub fn device_id_from_response(parsed: Result<Vec<(String, String)>, serde_json::Error>) -> (r:
    TrackerResult<String>)
    ensures
        match parsed {
            Err(e) => r == Err::<String, TrackerError>(TrackerError::Serializing(e)),
            Ok(v) => r matches Ok(id) && id@ == answered_device_id(entries_map(pairs_view(v@))),
        },
{
    match parsed {
        Err(e) => Err(TrackerError::Serializing(e)),
        Ok(v) => {
            let m = PropertyMap::from_entries(v);
            let key = "deviceId".to_owned();
            match m.get(&key) {
                Some(id) => Ok(id.clone()),
                None => Ok(String::new()),
            }
        },
    }
}

} // verus!
