//! The game-facing `Analytics` singleton: the switches it keeps and passes on
//! to the tracker, the properties it connects with, and whether an event is to
//! be sent.

use crate::props::PropertyMap;
use crate::request::{HttpMethod, HttpRequestResult, OutgoingRequest, HTTP_RESULT_SUCCESS};
use crate::tracker::{is_track_payload, opt_map_view, OpenPanelTracker, TrackerView};
use crate::TrackerResult;
use vstd::prelude::*;

verus! {

/// What to do with an event the game tracks.
pub enum EventDispatch {
    /// Send it: `track` it with these arguments.
    Send { event: String, profile_id: Option<String>, properties: Option<PropertyMap> },
    /// A filter held it back.
    Filtered,
    /// Sending is off.
    TrackerDisabled,
}

/// The global properties that connecting sets: the system's name and
/// version, the game's version, and the version of the SDK package.
pub open spec fn connect_properties_map(
    os_name: Seq<char>,
    os_version: Seq<char>,
    app_version: Seq<char>,
    sdk_version: Seq<char>,
) -> Map<Seq<char>, Seq<char>> {
    Map::empty().insert("os"@, os_name).insert("os-version"@, os_version).insert(
        "version"@,
        app_version,
    ).insert("rust_lib_version"@, sdk_version)
}

/// Whether `r` sends `event` for `profile_id` with properties `properties`,
/// as given.
pub open spec fn sends(
    r: EventDispatch,
    event: Seq<char>,
    profile_id: Option<String>,
    properties: Option<Map<Seq<char>, Seq<char>>>,
) -> bool {
    r matches EventDispatch::Send { event: e, profile_id: p, properties: q } && e@ == event && p
        == profile_id && opt_map_view(q) == properties
}

fn duplicate_opt(o: &Option<PropertyMap>) -> (r: Option<PropertyMap>)
    ensures
        opt_map_view(r) == opt_map_view(*o),
{
    match o {
        Some(m) => Some(m.duplicate()),
        None => None,
    }
}

/// The analytics singleton's switches, which it passes on to the tracker.
pub struct Analytics {
    pub store_session_device: bool,
    pub force_in_editor: bool,
    pub disabled: bool,
}

impl Analytics {
    /// The singleton as the engine creates it: session devices stored, not
    /// forced on in the editor, not disabled.
    pub fn init() -> (a: Self)
        ensures
            a.store_session_device,
            !a.force_in_editor,
            !a.disabled,
    {
        Analytics { store_session_device: true, force_in_editor: false, disabled: false }
    }

    /// The global properties that connecting sets.
    pub fn connect_properties(
        os_name: String,
        os_version: String,
        app_version: String,
        sdk_version: String,
    ) -> (m: PropertyMap)
        ensures
            m@ == connect_properties_map(os_name@, os_version@, app_version@, sdk_version@),
    {
        let mut m = PropertyMap::new();
        m.insert("os".to_owned(), os_name);
        m.insert("os-version".to_owned(), os_version);
        m.insert("version".to_owned(), app_version);
        m.insert("rust_lib_version".to_owned(), sdk_version);
        m
    }

    /// Connects the tracker: sets its URL, credentials and this singleton's
    /// switches, and the connect properties as its global properties. Returns
    /// whether sending is on, in which case the caller sends `app_started`.
    pub fn connect_internal(
        &self,
        tracker: &mut OpenPanelTracker,
        url: String,
        client_id: String,
        client_secret: String,
        os_name: String,
        os_version: String,
        app_version: String,
        sdk_version: String,
    ) -> (send_app_started: bool)
        ensures
            final(tracker)@ == (TrackerView {
                global_props: connect_properties_map(
                    os_name@,
                    os_version@,
                    app_version@,
                    sdk_version@,
                ),
                ..old(tracker)@.configured(
                    url@,
                    client_id@,
                    client_secret@,
                    self.store_session_device,
                    self.force_in_editor,
                    self.disabled,
                )
            }),
            send_app_started == !final(tracker)@.is_disabled(),
    {
        let props = Self::connect_properties(os_name, os_version, app_version, sdk_version);
        tracker.set(
            url,
            client_id,
            client_secret,
            self.store_session_device,
            self.force_in_editor,
            self.disabled,
        );
        tracker.set_global_properties(props);
        !tracker.is_disabled()
    }

    /// The event sent once connected: `app_started`, without a profile id,
    /// carrying the global properties only.
    pub fn app_started_request(tracker: &OpenPanelTracker) -> (r: TrackerResult<OutgoingRequest>)
        ensures
            tracker@.prepared(r, tracker@.api_url, HttpMethod::Post),
            r matches Ok(req) ==> is_track_payload(
                req.payload,
                None,
                "app_started"@,
                tracker@.with_globals(None),
            ),
    {
        tracker.track("app_started", None, None)
    }

    /// Whether the `app_started` event went through: the request succeeded
    /// with an HTTP status of the 2xx range.
    pub fn app_start_succeeded(result: &TrackerResult<HttpRequestResult>) -> (ok: bool)
        ensures
            ok == (result matches Ok(r) && r.result == HTTP_RESULT_SUCCESS && 200 <= r.response_code
                < 300),
    {
        match result {
            Ok(r) => r.result == HTTP_RESULT_SUCCESS && r.response_code >= 200 && r.response_code
                < 300,
            Err(_) => false,
        }
    }

    /// Sets whether events are sent from the editor, here and in the tracker.
    pub fn force_in_editor(&mut self, tracker: &mut OpenPanelTracker, force: bool)
        ensures
            final(self).force_in_editor == force,
            final(self).store_session_device == old(self).store_session_device,
            final(self).disabled == old(self).disabled,
            final(tracker)@ == (TrackerView { force_in_editor: force, ..old(tracker)@ }),
    {
        self.force_in_editor = force;
        tracker.force_in_editor(force);
    }

    /// Disable sending events to OpenPanel, here and in the tracker.
    pub fn disable(&mut self, tracker: &mut OpenPanelTracker, disable: bool)
        ensures
            final(self).disabled == disable,
            final(self).store_session_device == old(self).store_session_device,
            final(self).force_in_editor == old(self).force_in_editor,
            final(tracker)@ == (TrackerView { disabled: disable, ..old(tracker)@ }),
    {
        self.disabled = disable;
        tracker.disable(disable);
    }

    /// Whether sending is off: as the tracker says, where there is one yet;
    /// false where there is none.
    pub fn is_disabled(&self, tracker: Option<&OpenPanelTracker>) -> (b: bool)
        ensures
            b == (match tracker {
                Some(t) => t@.is_disabled(),
                None => false,
            }),
    {
        match tracker {
            Some(t) => t.is_disabled(),
            None => false,
        }
    }

    fn dispatch_unfiltered(
        tracker: &OpenPanelTracker,
        event: String,
        profile_id: Option<String>,
        properties: Option<PropertyMap>,
    ) -> (r: EventDispatch)
        ensures
            tracker@.is_disabled() ==> r is TrackerDisabled,
            !tracker@.is_disabled() ==> sends(r, event@, profile_id, opt_map_view(properties)),
    {
        if tracker.is_disabled() {
            EventDispatch::TrackerDisabled
        } else {
            EventDispatch::Send { event, profile_id, properties }
        }
    }

    /// What to do with an event: nothing while sending is off; held back
    /// where the filter answers true for its properties extended by the
    /// global ones; else send it as given.
    pub fn track_event_internal<F: Fn(PropertyMap) -> bool>(
        &self,
        tracker: &OpenPanelTracker,
        event: String,
        profile_id: Option<String>,
        properties: Option<PropertyMap>,
        filter: Option<&F>,
    ) -> (r: EventDispatch)
        requires
            match filter {
                Some(f) => forall|m: PropertyMap| call_requires(*f, (m,)),
                None => true,
            },
        ensures
            tracker@.is_disabled() ==> r is TrackerDisabled,
            !tracker@.is_disabled() ==> match filter {
                None => sends(r, event@, profile_id, opt_map_view(properties)),
                Some(f) => exists|m: PropertyMap|
                    m@ == tracker@.with_globals(opt_map_view(properties)) && call_ensures(
                        *f,
                        (m,),
                        r is Filtered,
                    ) && (r is Filtered || sends(
                        r,
                        event@,
                        profile_id,
                        opt_map_view(properties),
                    )),
            },
    {
        if tracker.is_disabled() {
            return EventDispatch::TrackerDisabled;
        }
        match filter {
            None => EventDispatch::Send { event, profile_id, properties },
            Some(f) => {
                let copy = duplicate_opt(&properties);
                let pass = tracker.filter(copy, Some(f));
                if pass {
                    EventDispatch::Send { event, profile_id, properties }
                } else {
                    EventDispatch::Filtered
                }
            },
        }
    }

    /// Track `event` with the given properties, if any.
    pub fn track_event(
        &self,
        tracker: &OpenPanelTracker,
        event: String,
        properties: Option<PropertyMap>,
    ) -> (r: EventDispatch)
        ensures
            tracker@.is_disabled() ==> r is TrackerDisabled,
            !tracker@.is_disabled() ==> sends(r, event@, None, opt_map_view(properties)),
    {
        Self::dispatch_unfiltered(tracker, event, None, properties)
    }

    /// Track `event` with the given properties.
    pub fn track_event_with_properties(
        &self,
        tracker: &OpenPanelTracker,
        event: String,
        properties: PropertyMap,
    ) -> (r: EventDispatch)
        ensures
            tracker@.is_disabled() ==> r is TrackerDisabled,
            !tracker@.is_disabled() ==> sends(r, event@, None, Some(properties@)),
    {
        Self::dispatch_unfiltered(tracker, event, None, Some(properties))
    }

    /// Track `event` without properties.
    pub fn track_event_bare(&self, tracker: &OpenPanelTracker, event: String) -> (r: EventDispatch)
        ensures
            tracker@.is_disabled() ==> r is TrackerDisabled,
            !tracker@.is_disabled() ==> sends(r, event@, None, None),
    {
        Self::dispatch_unfiltered(tracker, event, None, None)
    }

    /// Track `event` for `profile_id` with the given properties.
    pub fn track_event_with_profile_id_and_properties(
        &self,
        tracker: &OpenPanelTracker,
        event: String,
        profile_id: String,
        properties: PropertyMap,
    ) -> (r: EventDispatch)
        ensures
            tracker@.is_disabled() ==> r is TrackerDisabled,
            !tracker@.is_disabled() ==> sends(r, event@, Some(profile_id), Some(properties@)),
    {
        Self::dispatch_unfiltered(tracker, event, Some(profile_id), Some(properties))
    }

    /// Track `event` for `profile_id` with the given properties, if any.
    pub fn track_event_with_profile_id(
        &self,
        tracker: &OpenPanelTracker,
        event: String,
        profile_id: String,
        properties: Option<PropertyMap>,
    ) -> (r: EventDispatch)
        ensures
            tracker@.is_disabled() ==> r is TrackerDisabled,
            !tracker@.is_disabled() ==> sends(
                r,
                event@,
                Some(profile_id),
                opt_map_view(properties),
            ),
    {
        Self::dispatch_unfiltered(tracker, event, Some(profile_id), properties)
    }

    /// Track `event` with the given properties, if any, unless the filter
    /// holds it back.
    pub fn track_event_with_filter<F: Fn(PropertyMap) -> bool>(
        &self,
        tracker: &OpenPanelTracker,
        event: String,
        properties: Option<PropertyMap>,
        filter: Option<&F>,
    ) -> (r: EventDispatch)
        requires
            match filter {
                Some(f) => forall|m: PropertyMap| call_requires(*f, (m,)),
                None => true,
            },
        ensures
            tracker@.is_disabled() ==> r is TrackerDisabled,
            !tracker@.is_disabled() ==> match filter {
                None => sends(r, event@, None, opt_map_view(properties)),
                Some(f) => exists|m: PropertyMap|
                    m@ == tracker@.with_globals(opt_map_view(properties)) && call_ensures(
                        *f,
                        (m,),
                        r is Filtered,
                    ) && (r is Filtered || sends(r, event@, None, opt_map_view(properties))),
            },
    {
        self.track_event_internal(tracker, event, None, properties, filter)
    }

    /// Track `event` for `profile_id`, if any, with the given properties, if
    /// any, unless the filter holds it back.
    pub fn track_event_with_profile_id_and_filter<F: Fn(PropertyMap) -> bool>(
        &self,
        tracker: &OpenPanelTracker,
        event: String,
        profile_id: Option<String>,
        properties: Option<PropertyMap>,
        filter: Option<&F>,
    ) -> (r: EventDispatch)
        requires
            match filter {
                Some(f) => forall|m: PropertyMap| call_requires(*f, (m,)),
                None => true,
            },
        ensures
            tracker@.is_disabled() ==> r is TrackerDisabled,
            !tracker@.is_disabled() ==> match filter {
                None => sends(r, event@, profile_id, opt_map_view(properties)),
                Some(f) => exists|m: PropertyMap|
                    m@ == tracker@.with_globals(opt_map_view(properties)) && call_ensures(
                        *f,
                        (m,),
                        r is Filtered,
                    ) && (r is Filtered || sends(
                        r,
                        event@,
                        profile_id,
                        opt_map_view(properties),
                    )),
            },
    {
        self.track_event_internal(tracker, event, profile_id, properties, filter)
    }
}

} // verus!
