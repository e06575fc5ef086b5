//! Backend-agnostic infrastructure shim: a unified handle type per
//! capability (database pool, session store, message broker) that selects
//! its concrete backend from a connection descriptor at construction time
//! and dispatches every operation to the active variant.

pub mod broker;
pub mod db;
pub mod error;
pub mod http;
pub mod session;
pub mod text;
