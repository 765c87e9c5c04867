//! The messages that the broker puts into a failed call's status.

use vstd::prelude::*;

verus! {

/// Holder of the message constants.
pub struct ErrorMessage();

impl ErrorMessage {
    pub const UNDER_CONSTRUCTION: &'static str = "UNDER_CONSTRUCTION";

    pub const INVALID_APP_ID: &'static str = "INVALID_APP_ID";

    pub const INVALID_SESSION_ID: &'static str = "INVALID_SESSION_ID";

    pub const INVALID_ORD: &'static str = "INVALID_ORD";

    pub const ALREADY_AUTHENTICATED: &'static str = "ALREADY_AUTHENTICATED";

    pub const INVALID_LINK_ID: &'static str = "INVALID_LINK_ID";

    pub const ALREADY_REGISTERED: &'static str = "ALREADY_REGISTERED";

    pub const INVALID_SINK_ID: &'static str = "INVALID_SINK_ID";

    pub const NO_SINK_CONNECTED: &'static str = "NO_SINK_CONNECTED";

    pub const NO_APP_FOUND_BY_ADDRESS: &'static str = "NO_APP_FOUND_BY_ADDRESS";
}

} // verus!
