use openpanel_sdk::agent::{user_agent, DeviceInfo};
use openpanel_sdk::request::{
    FetchEvent, HttpMethod, HttpRequestResult, OutgoingRequest, Payload, SendEvent, TrackType,
};
use openpanel_sdk::tracker::device_id_from_response;
use openpanel_sdk::{IdentifyUser, OpenPanelTracker, PropertyMap, TrackerError, TrackerResult};

fn s(x: &str) -> String {
    x.to_string()
}

fn map_of(pairs: &[(&str, &str)]) -> PropertyMap {
    PropertyMap::from_entries(pairs.iter().map(|(k, v)| (s(k), s(v))).collect())
}

fn sorted(m: &PropertyMap) -> Vec<(String, String)> {
    let mut v = m.to_entries();
    v.sort();
    v
}

fn enabled_tracker() -> OpenPanelTracker {
    OpenPanelTracker::init_node(
        s("https://example.test"),
        s("cid"),
        s("secret"),
        true,
        false,
        false,
        s("agent/1"),
        None,
        false,
    )
}

fn request(r: TrackerResult<OutgoingRequest>) -> OutgoingRequest {
    match r {
        Ok(req) => req,
        Err(e) => panic!("expected a request, got {:?}", e),
    }
}

fn ok_response(code: i64) -> HttpRequestResult {
    HttpRequestResult { result: 0, response_code: code, headers: vec![], body: vec![] }
}

#[test]
fn init_uses_defaults() {
    let t = OpenPanelTracker::init(None, None, None, s("ua"), None, false);
    assert_eq!(t.api_url, "https://api.openpanel.dev");
    assert!(t.disabled);
    assert!(t.store_session_device);
    assert!(!t.force_in_editor);
    assert!(t.is_disabled());
    assert_eq!(
        t.header_lines(),
        vec![
            s("Content-Type: application/json"),
            s("User-Agent: ua"),
            s("openpanel-client-id: "),
            s("openpanel-client-secret: "),
        ]
    );
    assert_eq!(t.get_device_id(), None);
    assert_eq!(t.global_props.len(), 0);
}

#[test]
fn init_takes_environment_values() {
    let t = OpenPanelTracker::init(Some(s("http://u")), Some(s("i")), Some(s("x")), s("ua"), None, false);
    assert_eq!(t.api_url, "http://u");
    assert_eq!(t.header_lines()[2], "openpanel-client-id: i");
    assert_eq!(t.header_lines()[3], "openpanel-client-secret: x");
}

#[test]
fn init_node_with_stored_device_id() {
    let t = OpenPanelTracker::init_node(s("u"), s("c"), s("k"), true, false, false, s("ua"), Some(s("dev1")), false);
    assert_eq!(t.get_device_id(), Some(s("dev1")));
    assert_eq!(sorted(&t.global_props), vec![(s("__deviceId"), s("dev1"))]);
}

#[test]
fn set_resets_headers_and_switches() {
    let mut t = enabled_tracker();
    t.set_header(s("x-geo"), s("de"));
    t.set(s("http://other"), s("c2"), s("s2"), false, true, true);
    assert_eq!(t.api_url, "http://other");
    assert_eq!(
        t.header_lines(),
        vec![
            s("Content-Type: application/json"),
            s("User-Agent: agent/1"),
            s("openpanel-client-id: c2"),
            s("openpanel-client-secret: s2"),
        ]
    );
    assert!(!t.store_session_device);
    assert!(t.force_in_editor);
    assert!(t.disabled);
}

#[test]
fn set_header_replaces_or_appends() {
    let mut t = enabled_tracker();
    t.set_header(s("User-Agent"), s("custom"));
    t.set_header(s("x-client-ip"), s("1.2.3.4"));
    assert_eq!(
        t.header_lines(),
        vec![
            s("Content-Type: application/json"),
            s("User-Agent: custom"),
            s("openpanel-client-id: cid"),
            s("openpanel-client-secret: secret"),
            s("x-client-ip: 1.2.3.4"),
        ]
    );
}

#[test]
fn disabled_states() {
    let mut t = enabled_tracker();
    assert!(!t.is_disabled());
    t.disable(true);
    assert!(t.is_disabled());
    t.disable(false);
    t.in_editor = true;
    assert!(t.is_disabled());
    t.force_in_editor(true);
    assert!(!t.is_disabled());
}

#[test]
fn globals_override_event_properties() {
    let mut t = enabled_tracker();
    t.set_global_properties(map_of(&[("os", "linux"), ("name", "global")]));
    let merged = t.create_properties_with_globals(Some(map_of(&[("name", "rust"), ("level", "3")])));
    assert_eq!(
        sorted(&merged),
        vec![(s("level"), s("3")), (s("name"), s("global")), (s("os"), s("linux"))]
    );
    let only = t.create_properties_with_globals(None);
    assert_eq!(sorted(&only), vec![(s("name"), s("global")), (s("os"), s("linux"))]);
}

#[test]
fn filter_answers_on_merged_properties() {
    let mut t = enabled_tracker();
    t.set_global_properties(map_of(&[("g", "1")]));
    let has_name = |p: PropertyMap| p.contains_key(&s("name"));
    assert!(!t.filter(Some(map_of(&[("name", "rust")])), Some(&has_name)));
    assert!(t.filter(Some(map_of(&[("other", "x")])), Some(&has_name)));
    let has_global = |p: PropertyMap| p.contains_key(&s("g"));
    assert!(!t.filter(None, Some(&has_global)));
    assert!(t.filter(Some(map_of(&[("name", "rust")])), None::<&fn(PropertyMap) -> bool>));
}

#[test]
fn track_builds_post_with_merged_properties() {
    let mut t = enabled_tracker();
    t.set_global_properties(map_of(&[("g", "1")]));
    let req = request(t.track("test_event", Some(s("p1")), Some(map_of(&[("name", "rust")]))));
    assert_eq!(req.url, "https://example.test");
    assert_eq!(req.method, HttpMethod::Post);
    assert_eq!(req.headers, t.header_lines());
    match req.payload {
        Some(Payload::Track { profile_id, name, properties }) => {
            assert_eq!(profile_id, Some(s("p1")));
            assert_eq!(name, "test_event");
            assert_eq!(sorted(&properties), vec![(s("g"), s("1")), (s("name"), s("rust"))]);
        }
        _ => panic!("expected a track payload"),
    }
}

#[test]
fn track_without_profile_id() {
    let t = enabled_tracker();
    let req = request(t.track("app_started", None, None));
    let payload = req.payload.unwrap();
    assert_eq!(payload.track_type(), TrackType::Track);
    match payload {
        Payload::Track { profile_id, properties, .. } => {
            assert_eq!(profile_id, None);
            assert_eq!(properties.len(), 0);
        }
        _ => panic!("expected a track payload"),
    }
}

#[test]
fn disabled_tracker_refuses_every_request() {
    let mut t = enabled_tracker();
    t.disable(true);
    assert!(matches!(t.track("e", None, None), Err(TrackerError::Disabled)));
    assert!(matches!(t.decrement(s("p"), s("x"), 1), Err(TrackerError::Disabled)));
    assert!(matches!(t.increment(s("p"), s("x"), 1), Err(TrackerError::Disabled)));
    assert!(matches!(t.revenue(None, 100, None), Err(TrackerError::Disabled)));
    assert!(matches!(t.fetch_device_id(), Err(TrackerError::Disabled)));
    let user = IdentifyUser {
        profile_id: s("p"),
        email: s("e"),
        first_name: s("f"),
        last_name: s("l"),
        properties: PropertyMap::new(),
    };
    assert!(matches!(t.identify(user), Err(TrackerError::Disabled)));
}

#[test]
fn editor_without_force_refuses_requests() {
    let mut t = enabled_tracker();
    t.in_editor = true;
    assert!(matches!(t.track("e", None, None), Err(TrackerError::Disabled)));
    assert!(matches!(t.fetch_device_id(), Err(TrackerError::Disabled)));
    t.force_in_editor(true);
    assert!(t.track("e", None, None).is_ok());
}

#[test]
fn identify_merges_globals_into_user_properties() {
    let mut t = enabled_tracker();
    t.set_global_properties(map_of(&[("g", "1")]));
    let user = IdentifyUser {
        profile_id: s("test_profile_id"),
        email: s("rust@test.com"),
        first_name: s("Rust"),
        last_name: s("Rust"),
        properties: map_of(&[("name", "rust")]),
    };
    let req = request(t.identify(user));
    match req.payload {
        Some(Payload::Identify { user }) => {
            assert_eq!(user.profile_id, "test_profile_id");
            assert_eq!(user.email, "rust@test.com");
            assert_eq!(user.first_name, "Rust");
            assert_eq!(user.last_name, "Rust");
            assert_eq!(sorted(&user.properties), vec![(s("g"), s("1")), (s("name"), s("rust"))]);
        }
        _ => panic!("expected an identify payload"),
    }
}

#[test]
fn increment_and_decrement_payloads() {
    let t = enabled_tracker();
    let req = request(t.increment(s("test_profile_id"), s("test_property"), 1));
    match req.payload {
        Some(Payload::Increment { profile_id, property, value }) => {
            assert_eq!(profile_id, "test_profile_id");
            assert_eq!(property, "test_property");
            assert_eq!(value, 1);
        }
        _ => panic!("expected an increment payload"),
    }
    let req = request(t.decrement(s("test_profile_id"), s("test_property"), -5));
    let payload = req.payload.unwrap();
    assert_eq!(payload.track_type(), TrackType::Decrement);
    match payload {
        Payload::Decrement { value, .. } => assert_eq!(value, -5),
        _ => panic!("expected a decrement payload"),
    }
}

#[test]
fn revenue_carries_amount() {
    let mut t = enabled_tracker();
    t.set_global_properties(map_of(&[("g", "1")]));
    let req = request(t.revenue(Some(s("rust_1")), 100, Some(map_of(&[("item", "sword")]))));
    match req.payload {
        Some(Payload::Track { profile_id, name, properties }) => {
            assert_eq!(profile_id, Some(s("rust_1")));
            assert_eq!(name, "revenue");
            assert_eq!(
                sorted(&properties),
                vec![(s("__revenue"), s("100")), (s("g"), s("1")), (s("item"), s("sword"))]
            );
        }
        _ => panic!("expected a track payload"),
    }
}

#[test]
fn revenue_amount_overridden_by_global() {
    let mut t = enabled_tracker();
    t.set_global_properties(map_of(&[("__revenue", "global")]));
    let req = request(t.revenue(None, -3, None));
    match req.payload {
        Some(Payload::Track { properties, .. }) => {
            assert_eq!(properties.get(&s("__revenue")), Some(&s("global")));
        }
        _ => panic!("expected a track payload"),
    }
}

#[test]
fn start_failure_is_request_error() {
    let mut t = enabled_tracker();
    let (r, stored) = t.complete_request(SendEvent::StartFailed);
    assert!(matches!(r, Err(TrackerError::Request)));
    assert!(!stored);
}

#[test]
fn answer_with_new_device_id_is_taken() {
    let mut t = enabled_tracker();
    let (r, stored) = t.complete_request(SendEvent::Completed {
        response: ok_response(200),
        device_id: Some(s("dev-7")),
    });
    assert_eq!(r.unwrap().response_code, 200);
    assert!(stored);
    assert_eq!(t.get_device_id(), Some(s("dev-7")));
    assert_eq!(t.global_props.get(&s("__deviceId")), Some(&s("dev-7")));
    let req = request(t.track("e", None, None));
    match req.payload {
        Some(Payload::Track { properties, .. }) => {
            assert_eq!(properties.get(&s("__deviceId")), Some(&s("dev-7")))
        }
        _ => panic!("expected a track payload"),
    }
    // The same answer again changes nothing.
    let (_, stored_again) = t.complete_request(SendEvent::Completed {
        response: ok_response(200),
        device_id: Some(s("dev-7")),
    });
    assert!(!stored_again);
    assert_eq!(t.get_device_id(), Some(s("dev-7")));
}

#[test]
fn answer_without_device_id_changes_nothing() {
    let mut t = enabled_tracker();
    let (r, stored) = t.complete_request(SendEvent::Completed { response: ok_response(500), device_id: None });
    assert_eq!(r.unwrap().response_code, 500);
    assert!(!stored);
    assert_eq!(t.get_device_id(), None);
}

#[test]
fn answer_no_id_text_is_ignored_without_known_id() {
    let mut t = enabled_tracker();
    let (_, stored) = t.complete_request(SendEvent::Completed {
        response: ok_response(200),
        device_id: Some(s("NO_ID")),
    });
    assert!(!stored);
    assert_eq!(t.get_device_id(), None);
}

#[test]
fn device_id_not_kept_without_storing() {
    let mut t = OpenPanelTracker::init_node(s("u"), s("c"), s("k"), false, false, false, s("ua"), None, false);
    assert!(!t.set_device_id(s("d")));
    assert_eq!(t.get_device_id(), None);
    let (_, stored) = t.complete_request(SendEvent::Completed {
        response: ok_response(200),
        device_id: Some(s("d")),
    });
    assert!(!stored);
    assert_eq!(t.global_props.len(), 0);
}

#[test]
fn fetch_device_id_request() {
    let t = enabled_tracker();
    let req = request(t.fetch_device_id());
    assert_eq!(req.url, "https://example.test/device-id");
    assert_eq!(req.method, HttpMethod::Get);
    assert!(req.payload.is_none());
    assert_eq!(req.headers.len(), 4);
}

#[test]
fn fetch_device_id_results() {
    let r = OpenPanelTracker::complete_fetch_device_id(FetchEvent::Completed {
        result: 0,
        body: s("{\"deviceId\":\"abc\",\"other\":\"x\"}"),
    });
    assert_eq!(r.unwrap(), "abc");
    let r = OpenPanelTracker::complete_fetch_device_id(FetchEvent::Completed { result: 0, body: s("{}") });
    assert_eq!(r.unwrap(), "");
    let r = OpenPanelTracker::complete_fetch_device_id(FetchEvent::Completed { result: 0, body: s("[1, 2]") });
    assert!(matches!(r, Err(TrackerError::Serializing(_))));
    let r = OpenPanelTracker::complete_fetch_device_id(FetchEvent::Completed {
        result: 0,
        body: s("{\"deviceId\":5}"),
    });
    assert!(matches!(r, Err(TrackerError::Serializing(_))));
    let r = OpenPanelTracker::complete_fetch_device_id(FetchEvent::Completed {
        result: 2,
        body: s("{\"deviceId\":\"abc\"}"),
    });
    assert!(matches!(r, Err(TrackerError::Request)));
    let r = OpenPanelTracker::complete_fetch_device_id(FetchEvent::StartFailed);
    assert!(matches!(r, Err(TrackerError::Request)));
}

#[test]
fn device_id_from_parsed_entries() {
    let r = device_id_from_response(Ok(vec![(s("deviceId"), s("one")), (s("deviceId"), s("two"))]));
    assert_eq!(r.unwrap(), "two");
    let r = device_id_from_response(Ok(vec![(s("x"), s("y"))]));
    assert_eq!(r.unwrap(), "");
    let err = serde_json::from_str::<u8>("nope").unwrap_err();
    assert!(matches!(device_id_from_response(Err(err)), Err(TrackerError::Serializing(_))));
}

#[test]
fn track_type_names() {
    assert_eq!(TrackType::Track.name(), "Track");
    assert_eq!(TrackType::Identify.wire_name(), "identify");
    assert_eq!(TrackType::Increment.wire_name(), "increment");
    assert_eq!(TrackType::Decrement.name(), "Decrement");
    assert_eq!(TrackType::default(), TrackType::Track);
}

fn device(os: &str, model: &str) -> DeviceInfo {
    DeviceInfo {
        engine_version: s("4.3.stable"),
        sdk_version: s("0.2.0"),
        os_name: s(os),
        os_name_lower: os.to_lowercase(),
        os_version: s("10.1"),
        model_name: s(model),
        model_name_lower: model.to_lowercase(),
    }
}

#[test]
fn user_agent_per_system() {
    assert_eq!(
        user_agent(&device("Windows", "GenericDevice")),
        "OpenPanelRustSDK/0.2.0 (Windows NT 10.1; Windows 10.1) Godot Engine/4.3.stable"
    );
    assert_eq!(
        user_agent(&device("macOS", "MacBookPro18,1")),
        "OpenPanelRustSDK/0.2.0 (Macintosh; macOS 10.1) Godot Engine/4.3.stable"
    );
    assert_eq!(
        user_agent(&device("Linux", "GenericDevice")),
        "OpenPanelRustSDK/0.2.0 (X11; GenericDevice; Linux 10.1) Godot Engine/4.3.stable"
    );
    assert_eq!(
        user_agent(&device("iOS", "iPhone14,2")),
        "OpenPanelRustSDK/0.2.0 (iPhone14,2; CPU iPhone OS 10.1) Godot Engine/4.3.stable"
    );
    assert_eq!(
        user_agent(&device("iOS", "iPad13,1")),
        "OpenPanelRustSDK/0.2.0 (iPad13,1; CPU iPad OS 10.1) Godot Engine/4.3.stable"
    );
    assert_eq!(
        user_agent(&device("Android", "Pixel 7")),
        "OpenPanelRustSDK/0.2.0 (Pixel 7; Android 10.1) Godot Engine/4.3.stable"
    );
}

#[test]
fn user_agent_names_build_version() {
    let info = |os: &str, version: &str, model: &str| DeviceInfo {
        engine_version: s("4.4.stable"),
        sdk_version: s("0.2.0"),
        os_name: s(os),
        os_name_lower: os.to_lowercase(),
        os_version: s(version),
        model_name: s(model),
        model_name_lower: model.to_lowercase(),
    };
    assert_eq!(
        user_agent(&info("Windows", "10.0.22631", "Desktop")),
        "OpenPanelRustSDK/0.2.0 (Windows NT 10.0.22631; Windows 10.0.22631) Godot Engine/4.4.stable"
    );
    assert_eq!(
        user_agent(&info("iOS", "17.5", "iPhone15,2")),
        "OpenPanelRustSDK/0.2.0 (iPhone15,2; CPU iPhone OS 17.5) Godot Engine/4.4.stable"
    );
    assert_eq!(
        user_agent(&info("MACOS", "14.5", "iPad13,4")),
        "OpenPanelRustSDK/0.2.0 (Macintosh; MACOS 14.5) Godot Engine/4.4.stable"
    );
}
