//! The gateway's configuration and the address that is notified once the
//! gateway has stopped.

use vstd::prelude::*;
use vstd::string::StringExecFns;

verus! {

/// Settings read once at startup and never changed afterwards.
pub struct Config {
    /// Where the gateway accepts connections, e.g. `127.0.0.1:8008`.
    pub listen_address: String,
    /// The path prefix used when forwarding to the upstream.
    pub base_path: String,
    /// The address of the proxied backend.
    pub upstream_url: String,
    /// The secret that authorizes a shutdown, appended to `shutdown_url`.
    pub shutdown_key: String,
    /// The address to call once the gateway has drained; empty for none.
    pub shutdown_url: String,
}

/// The address to call after the drain: the shutdown URL with the key
/// appended as it is, or nothing when no shutdown URL is configured.
pub open spec fn notification_target(url: Seq<char>, key: Seq<char>) -> Option<Seq<char>> {
    if url.len() == 0 {
        None
    } else {
        Some(url + key)
    }
}

/// The view of an optional owned string.
pub open spec fn opt_string_view(o: Option<String>) -> Option<Seq<char>> {
    match o {
        Some(s) => Some(s@),
        None => None,
    }
}

/// Builds the address that is notified after the drain.
pub fn notification_url(shutdown_url: &str, shutdown_key: &str) -> (r: Option<String>)
    ensures
        opt_string_view(r) == notification_target(shutdown_url@, shutdown_key@),
{
    if shutdown_url.is_empty() {
        None
    } else {
        let mut url = shutdown_url.to_owned();
        url.append(shutdown_key);
        Some(url)
    }
}

impl Config {
    /// The address that is notified after the drain, under this
    /// configuration.
    pub fn notification_url(&self) -> (r: Option<String>)
        ensures
            opt_string_view(r) == notification_target(self.shutdown_url@, self.shutdown_key@),
    {
        notification_url(self.shutdown_url.as_str(), self.shutdown_key.as_str())
    }
}

} // verus!
