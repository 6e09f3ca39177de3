//! The resolved configuration one cycle works from: the three endpoint
//! URLs, the credentials and form tokens, and whether the reboot request
//! carries a timestamp query parameter.

use vstd::prelude::*;
use crate::urls::UrlParts;

verus! {

/// Immutable per-run configuration, resolved once at startup and passed by
/// reference into every cycle.
pub struct RouterConfig {
    pub login_url: UrlParts,
    pub reboot_url: UrlParts,
    pub reboot_referer: UrlParts,
    pub username: String,
    pub password: String,
    pub login_token: String,
    pub frashnum: String,
    pub add_timestamp: bool,
}

impl RouterConfig {
    /// A configuration is well formed when its three URLs are.
    pub open spec fn well_formed(self) -> bool {
        &&& self.login_url.well_formed()
        &&& self.reboot_url.well_formed()
        &&& self.reboot_referer.well_formed()
    }
}

} // verus!
