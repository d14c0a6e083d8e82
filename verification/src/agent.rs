//! The `User-Agent` text that the tracker sends, built from what the engine
//! reports about itself and the device.

use vstd::prelude::*;

verus! {

/// What the engine reports about itself and the device it runs on. The
/// lower-case fields are the engine's own lower-casing of the fields they
/// follow.
pub struct DeviceInfo {
    /// The engine's version text.
    pub engine_version: String,
    /// The version of the SDK package this build was made from.
    pub sdk_version: String,
    pub os_name: String,
    pub os_name_lower: String,
    pub os_version: String,
    pub model_name: String,
    pub model_name_lower: String,
}

/// The device part and the system part of the user agent.
pub open spec fn agent_device_and_os(info: DeviceInfo) -> (Seq<char>, Seq<char>) {
    if info.os_name_lower@ == "windows"@ {
        ("Windows NT "@ + info.os_version@, info.os_name@)
    } else if info.os_name_lower@ == "macos"@ {
        ("Macintosh"@, info.os_name@)
    } else if info.os_name_lower@ == "linux"@ {
        ("X11; "@ + info.model_name@, info.os_name@)
    } else if "iphone"@.is_prefix_of(info.model_name_lower@) {
        (info.model_name@, "CPU iPhone OS"@)
    } else if "ipad"@.is_prefix_of(info.model_name_lower@) {
        (info.model_name@, "CPU iPad OS"@)
    } else {
        (info.model_name@, info.os_name@)
    }
}

/// `OpenPanelRustSDK/<sdk> (<device>; <system> <system version>) Godot Engine/<engine>`.
pub open spec fn user_agent_text(info: DeviceInfo) -> Seq<char> {
    let (device, os) = agent_device_and_os(info);
    "OpenPanelRustSDK/"@ + info.sdk_version@ + " ("@ + device + "; "@ + os + " "@ + info.os_version@
        + ") Godot Engine/"@ + info.engine_version@
}

/// Whether `s` begins with `prefix`.
pub fn starts_with(s: &str, prefix: &str) -> (b: bool)
    ensures
        b == prefix@.is_prefix_of(s@),
{
    let n = prefix.unicode_len();
    let m = s.unicode_len();
    if n > m {
        return false;
    }
    let mut i: usize = 0;
    while i < n
        invariant
            n == prefix@.len(),
            m == s@.len(),
            n <= m,
            i <= n,
            forall|j: int| 0 <= j < i ==> s@[j] == prefix@[j],
        decreases n - i,
    {
        if s.get_char(i) != prefix.get_char(i) {
            return false;
        }
        i = i + 1;
    }
    assert(prefix@ =~= s@.subrange(0, n as int));
    true
}

/// The user agent text for the given device.
pub fn user_agent(info: &DeviceInfo) -> (s: String)
    ensures
        s@ == user_agent_text(*info),
{
    let (device, os): (String, String) = if info.os_name_lower == "windows".to_owned() {
        ("Windows NT ".to_owned().concat(info.os_version.as_str()), info.os_name.clone())
    } else if info.os_name_lower == "macos".to_owned() {
        ("Macintosh".to_owned(), info.os_name.clone())
    } else if info.os_name_lower == "linux".to_owned() {
        ("X11; ".to_owned().concat(info.model_name.as_str()), info.os_name.clone())
    } else if starts_with(info.model_name_lower.as_str(), "iphone") {
        (info.model_name.clone(), "CPU iPhone OS".to_owned())
    } else if starts_with(info.model_name_lower.as_str(), "ipad") {
        (info.model_name.clone(), "CPU iPad OS".to_owned())
    } else {
        (info.model_name.clone(), info.os_name.clone())
    };
    let s = "OpenPanelRustSDK/".to_owned().concat(info.sdk_version.as_str()).concat(" (").concat(
        device.as_str(),
    ).concat("; ").concat(os.as_str()).concat(" ").concat(info.os_version.as_str()).concat(
        ") Godot Engine/",
    ).concat(info.engine_version.as_str());
    s
}

} // verus!
