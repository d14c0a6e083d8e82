//! Event tracking for the OpenPanel analytics service, as used from a Godot
//! game: the tracker's state, the requests it builds, and how it reacts to
//! what the service answers. Sending the requests, reading the engine and the
//! disk, and the Godot classes themselves are left to the caller.

pub mod agent;
pub mod analytics;
pub mod decimal;
pub mod json;
pub mod laws;
pub mod props;
pub mod request;
pub mod tracker;
pub mod user;

pub use crate::analytics::Analytics;
pub use crate::props::PropertyMap;
pub use crate::tracker::OpenPanelTracker;
pub use crate::user::IdentifyUser;

use vstd::prelude::*;

verus! {

/// Errors that can occur when using the SDK.
#[derive(Debug)]
pub enum TrackerError {
    NotAuthorized,
    TooManyRequests,
    Internal,
    Request,
    /// Error serializing or reading a JSON document.
    Serializing(serde_json::Error),
    HeaderName,
    HeaderValue,
    Disabled,
    Filtered,
}

/// Result type for SDK functions.
pub type TrackerResult<T> = Result<T, TrackerError>;

} // verus!
