//! The data record moving through the system.

use vstd::prelude::*;
use crate::compression::CompressionAlgorithm;
use crate::timestamp::DateTime;

verus! {

/// A stored content unit: opaque bytes identified by path, with a declared
/// MIME type, a last-modified instant set by the store, and an optional
/// compression tag. A blob is immutable once constructed; within one batch
/// paths are expected non-empty and unique.
#[derive(Clone, Debug)]
pub struct Blob {
    /// The storage key and logical identity within a bucket namespace.
    pub path: String,
    /// The declared content type.
    pub mime: String,
    /// Set by the backend on read, or by the remote store at write time;
    /// never client-supplied on write.
    pub date_updated: DateTime,
    /// The payload.
    pub content: Vec<u8>,
    /// How the content is compressed; `None` means no compression known.
    pub compression: Option<CompressionAlgorithm>,
}

/// The mathematical value of a blob.
pub ghost struct BlobModel {
    pub path: Seq<char>,
    pub mime: Seq<char>,
    pub date_updated: DateTime,
    pub content: Seq<u8>,
    pub compression: Option<CompressionAlgorithm>,
}

impl View for Blob {
    type V = BlobModel;

    open spec fn view(&self) -> BlobModel {
        BlobModel {
            path: self.path@,
            mime: self.mime@,
            date_updated: self.date_updated,
            content: self.content@,
            compression: self.compression,
        }
    }
}

} // verus!
