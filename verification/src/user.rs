//! The user record sent by identify calls.

use crate::props::PropertyMap;
use vstd::prelude::*;

verus! {

/// User object used for identify user calls.
pub struct IdentifyUser {
    pub profile_id: String,
    pub email: String,
    pub first_name: String,
    pub last_name: String,
    pub properties: PropertyMap,
}

} // verus!
