//! Content-addressed objects on Amazon S3.
//!
//! Bytes written through this crate are named by the SHA-256 digest of their
//! own content, and bytes read back are checked against the checksum that the
//! bucket reports for them.
//!
//! The crate holds the rules of that scheme: how a digest is accumulated, how
//! it is turned into an object key and a checksum, how a reader advances and
//! what makes its verification pass. Talking to the bucket is left to the
//! caller, which hands the outcome of each request back as plain values.

pub mod digest;
pub mod encoding;
pub mod error;
pub mod address;
pub mod store;
pub mod buffer;
pub mod syncfs;
pub mod asyncfs;
pub mod integrity;
