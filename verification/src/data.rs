//! The response value types and the server metadata that every response
//! embeds.

use vstd::prelude::*;

use crate::platform;
use crate::strfmt::format_uptime;
use crate::strfmt::uptime_str;

verus! {

/// Metadata identifying which backend instance served a response, stamped
/// fresh on every response.
#[derive(Debug)]
pub struct ServerInfo {
    pub language: String,
    pub server: String,
    pub port: String,
    pub timestamp: String,
    pub uptime: String,
}

/// A seeded blog post.
#[derive(Debug)]
pub struct Post {
    pub id: u32,
    pub title: String,
    pub body: String,
    pub user_id: u32,
    pub server_info: ServerInfo,
}

/// A seeded user record.
#[derive(Debug)]
pub struct User {
    pub id: u32,
    pub name: String,
    pub email: String,
    pub server_info: ServerInfo,
}

/// Memory section of the health response: resident-set size is not
/// measured, threads carries the logical CPU count.
#[derive(Debug)]
pub struct MemoryInfo {
    pub rss: String,
    pub threads: u32,
}

/// Body of `GET /health`.
#[derive(Debug)]
pub struct HealthResponse {
    pub status: String,
    pub language: String,
    pub server: String,
    pub port: String,
    pub timestamp: String,
    pub uptime: String,
    pub memory: MemoryInfo,
    pub threads: String,
}

/// Body of `GET /performance`.
#[derive(Debug)]
pub struct PerformanceResponse {
    pub language: String,
    pub server: String,
    pub timestamp: String,
    pub result: u64,
    pub processing_time: u128,
    pub concurrency: String,
    pub threads: String,
}

/// Body of a 404 response.
#[derive(Debug)]
pub struct ErrorResponse {
    pub error: String,
    pub server_info: ServerInfo,
}

/// The two posts agree on everything but the embedded server metadata.
pub open spec fn post_core_matches(a: Post, b: Post) -> bool {
    &&& a.id == b.id
    &&& a.title@ == b.title@
    &&& a.body@ == b.body@
    &&& a.user_id == b.user_id
}

/// The two users agree on everything but the embedded server metadata.
pub open spec fn user_core_matches(a: User, b: User) -> bool {
    &&& a.id == b.id
    &&& a.name@ == b.name@
    &&& a.email@ == b.email@
}

impl ServerInfo {
    /// Freshly computed metadata for the named instance: the language tag
    /// is fixed, server and port identify the instance, and the uptime
    /// field is the rendering of some whole number of milliseconds.
    pub open spec fn fresh_for(self, server: Seq<char>, port: Seq<char>) -> bool {
        &&& self.language@ == "Rust"@
        &&& self.server@ == server
        &&& self.port@ == port
        &&& exists|ms: nat| self.uptime@ == uptime_str(ms)
    }

    /// Metadata built from already-sampled clock values.
    pub fn from_parts(server_name: &str, port: &str, timestamp: String, uptime_ms: u64) -> (r:
        ServerInfo)
        ensures
            r.language@ == "Rust"@,
            r.server@ == server_name@,
            r.port@ == port@,
            r.timestamp@ == timestamp@,
            r.uptime@ == uptime_str(uptime_ms as nat),
    {
        ServerInfo {
            language: "Rust".to_owned(),
            server: server_name.to_owned(),
            port: port.to_owned(),
            timestamp: timestamp,
            uptime: format_uptime(uptime_ms),
        }
    }

    /// Metadata stamped at the current moment: samples the wall clock and
    /// the elapsed time since `start_time`, then renders them.
    pub fn new(server_name: &str, port: &str, start_time: &std::time::Instant) -> (r: ServerInfo)
        ensures
            r.fresh_for(server_name@, port@),
    {
        let uptime_ms = platform::elapsed_millis(start_time);
        let timestamp = platform::now_rfc3339();
        let r = ServerInfo::from_parts(server_name, port, timestamp, uptime_ms);
        proof {
            assert(r.uptime@ == uptime_str(uptime_ms as nat));
        }
        r
    }
}

} // verus!
