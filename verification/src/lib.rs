//! Wildcard-detection and connectivity-preflight core of a content-discovery
//! scanner. Before brute-forcing paths on a web server, the scanner must
//! learn whether the server answers *every* path (a "wildcard" catch-all) and
//! which of its candidate targets are reachable at all. This crate holds the
//! decision logic of that preflight: collision-resistant token generation,
//! the two-probe differential classification that yields a reusable response
//! filter, the reachable-target selection that raises a fatal error when
//! nothing is reachable, and the fire-and-forget advisory channel.

pub mod channel;
pub mod filters;
pub mod heuristics;
