//! The teleport callback's engine boundary.

use vstd::prelude::*;

verus! {

/// Gives the teleport service its base URL, which the inert engine keeps nowhere.
pub fn rbx_teleport_service_set_base_url(url: &str) {
}

} // verus!
