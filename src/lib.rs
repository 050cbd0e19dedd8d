//! Verified core of a URL reachability watcher: users register watches on
//! URLs, a monitor probes them periodically and decides when to notify.
pub mod url;
pub mod watch;
pub mod store;
pub mod monitor;
pub mod text;
pub mod registry;
