//! Session-addressed event-stream hub with up/down message correlation.
//!
//! A browser client and a server exchange messages over two unrelated
//! channels: discrete "up" requests from client to server, and a long-lived
//! one-way event stream pushing "down" messages from server to client.
//! This crate holds the verified core that reconstructs a duplex
//! conversation out of the two channels: the event-stream hub and its
//! registry, the per-session delivery handle, bounded up-message ingestion,
//! and the client-side correlation bookkeeping.

use vstd::prelude::*;

pub mod actor;
pub mod correlation;
pub mod height;
pub mod ids;
pub mod sse;
pub mod streams;
pub mod text;
pub mod timeline;
pub mod up_msg;

verus! {

/// Where the public assets of an application are served from.
pub const PUBLIC_URL: &'static str = "/_api/public/";

/// The URL under which the public asset `path` is served.
pub fn public_url(path: &str) -> (r: String)
    ensures
        r@ == "/_api/public/"@ + path@,
{
    let mut r = String::from_str(PUBLIC_URL);
    r.append(path);
    r
}

} // verus!
