//! Blob storage for a documentation-hosting service: blobs identified by
//! path, carrying a MIME type, an optional compression encoding and a
//! last-modified timestamp, kept in a remote object store.
//!
//! The verified core is the storage-transaction protocol (the batched,
//! retried write path) and the bounded-memory read path. Network I/O itself
//! lives outside this crate; every decision the system makes on the data is
//! stated and proved here.

pub mod blob;
pub mod compression;
pub mod error;
pub mod read;
pub mod sized_buffer;
pub mod timestamp;
pub mod transaction;

pub use blob::Blob;
pub use compression::CompressionAlgorithm;
pub use error::Error;
pub use sized_buffer::SizedBuffer;
pub use timestamp::DateTime;
pub use transaction::{RoundStatus, StorageTransaction, TransactionState};
