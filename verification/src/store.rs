//! The two requests that are made of the bucket.
//!
//! The crate does not send them: it says what to send, and is told what came
//! back.

use vstd::prelude::*;

verus! {

/// A request to fetch an object.
#[derive(Debug, PartialEq, Eq)]
pub struct GetObject {
    /// The bucket that holds the object.
    pub bucket_name: String,
    /// The key of the object.
    pub key: String,
    /// Whether the bucket is asked to report the checksum of the object.
    pub checksum_requested: bool,
}

/// A request to store an object. Its body is what was written.
#[derive(Debug, PartialEq, Eq)]
pub struct PutObject {
    /// The bucket that is to hold the object.
    pub bucket_name: String,
    /// The key of the object.
    pub key: String,
    /// The SHA-256 checksum of the body, which the bucket checks the upload
    /// against and keeps with the object.
    pub checksum_sha256: String,
}

} // verus!
