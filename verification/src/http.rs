//! Configuration carried into the HTTP serving pipeline.  Middleware
//! composition itself (CORS, tracing, the session layer) is glue around
//! an external collaborator and stays outside the library; only the data
//! it is configured from, and the defaults the pipeline owes, live here.

use vstd::prelude::*;

verus! {

/// Default inactivity expiry, in days, for sessions attached to the HTTP
/// serving pipeline.
pub const SESSION_EXPIRY_DAYS: u64 = 7;

/// Settings for the standard middleware applied around a service: the
/// CORS origins to allow and an optional session secret.
#[derive(Debug, Clone)]
pub struct ServerConfig {
    pub cors_origins: Vec<String>,
    pub session_secret: Option<String>,
}

} // verus!
