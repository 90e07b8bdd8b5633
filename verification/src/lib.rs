//! Verified core of a website-subtree mirroring tool.
//!
//! The library holds the logic of the mirror: URL scope resolution, the
//! skip list, the ETag cache and its merge lifecycle, the statistics
//! counters, the redirect policy, and the decision functions of the crawl
//! coordinator and the download writer. Network and file I/O live outside
//! the library and feed it plain values.

pub mod args;
pub mod dir;
pub mod download;
pub mod etags;
pub mod html;
pub mod mime;
pub mod skip;
pub mod skipreason;
pub mod state;
pub mod stats;
pub mod strutil;
pub mod url;
pub mod walk;
