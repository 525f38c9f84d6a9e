//! Plain data handed in by the remote source.
//!
//! The transport layer (one HTTP GET plus a JSON decode per call) lives
//! outside the library; it delivers its results as these plain values. Every
//! field of a story record may be absent upstream, and absence is data, not
//! an error.

use vstd::prelude::*;

verus! {

/// A raw story record as the remote item endpoint returns it.
#[derive(Debug)]
pub struct Story {
    pub id: u64,
    pub by: Option<String>,
    pub title: Option<String>,
    pub url: Option<String>,
    pub score: Option<u32>,
    pub time: Option<u64>,
    pub descendants: Option<u32>,
}

/// Why a remote fetch produced no record.
#[derive(Debug, Clone, Copy, PartialEq, Eq, Structural)]
pub enum FetchError {
    /// The request itself failed: connection, name resolution or timeout.
    Transport,
    /// The response body was not the expected JSON shape.
    Decode,
}

} // verus!
