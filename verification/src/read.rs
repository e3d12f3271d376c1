//! The bounded-memory read path.
//!
//! `get` turns the remote store's answer for one path — or its absence —
//! into a blob or a typed failure. The response body arrives as chunks of
//! arbitrary size; they are streamed through a `SizedBuffer`, so a body
//! whose true length exceeds `max_size` fails partway through streaming and
//! peak memory stays bounded by `max_size` whatever the object's actual
//! size. The declared content length is only a preallocation hint, never a
//! trust boundary.

use vstd::prelude::*;
use vstd::utf8::encode_utf8;
use crate::blob::{Blob, BlobModel};
use crate::compression::{compression_model, parse_content_encoding, CompressionAlgorithm};
use crate::error::Error;
use crate::sized_buffer::SizedBuffer;
use crate::timestamp::timespec_model;

verus! {

/// What the remote store reports for an object that exists: the metadata of
/// the response and its body as the chunks in which it arrived.
pub struct ObjectResponse {
    /// The declared size of the object, as reported; not to be trusted.
    pub content_length: Option<i64>,
    /// The body chunks, in arrival order; `None` when the response carried
    /// no body at all.
    pub body: Option<Vec<Vec<u8>>>,
    /// The last-modified header.
    pub last_modified: Option<String>,
    /// The content-type header.
    pub content_type: Option<String>,
    /// The content-encoding header.
    pub content_encoding: Option<String>,
}

/// The mathematical value of an `ObjectResponse`.
pub ghost struct ResponseModel {
    pub content_length: Option<i64>,
    pub body: Option<Seq<Seq<u8>>>,
    pub last_modified: Option<Seq<char>>,
    pub content_type: Option<Seq<char>>,
    pub content_encoding: Option<Seq<char>>,
}

impl View for ObjectResponse {
    type V = ResponseModel;

    open spec fn view(&self) -> ResponseModel {
        ResponseModel {
            content_length: self.content_length,
            body: match self.body {
                Some(chunks) => Some(chunks.deep_view()),
                None => None,
            },
            last_modified: match self.last_modified {
                Some(s) => Some(s@),
                None => None,
            },
            content_type: match self.content_type {
                Some(s) => Some(s@),
                None => None,
            },
            content_encoding: match self.content_encoding {
                Some(s) => Some(s@),
                None => None,
            },
        }
    }
}

/// The store's answer for a path, as the model sees it: `None` when the
/// store reports no such object.
pub open spec fn response_model(response: Option<ObjectResponse>) -> Option<ResponseModel> {
    match response {
        Some(r) => Some(r@),
        None => None,
    }
}

/// All body chunks concatenated in order.
pub open spec fn body_bytes(chunks: Seq<Seq<u8>>) -> Seq<u8>
    decreases chunks.len(),
{
    if chunks.len() == 0 {
        Seq::empty()
    } else {
        body_bytes(chunks.drop_last()) + chunks.last()
    }
}

/// The compression an optional content-encoding header denotes.
pub open spec fn encoding_model(enc: Option<Seq<char>>) -> Option<CompressionAlgorithm> {
    match enc {
        Some(s) => compression_model(encode_utf8(s)),
        None => None,
    }
}

/// What a read yields, for every store answer.
///
/// - no object at the path: `NotFound`;
/// - a response without a body: `TransportError`;
/// - a body longer than `max_size`: `SizeLimitExceeded`, never a partial
///   or truncated content;
/// - a missing last-modified or content-type header: `TransportError`;
/// - a last-modified header out of the timestamp layout:
///   `MalformedTimestamp`;
/// - otherwise the blob, with the store's timestamp and a best-effort
///   compression tag (an unknown encoding degrades to `None`).
pub open spec fn read_outcome(
    path: Seq<char>,
    max_size: nat,
    response: Option<ResponseModel>,
) -> Result<BlobModel, Error> {
    match response {
        None => Err(Error::NotFound),
        Some(resp) => match resp.body {
            None => Err(Error::TransportError),
            Some(chunks) => {
                let content = body_bytes(chunks);
                if content.len() > max_size {
                    Err(Error::SizeLimitExceeded)
                } else {
                    match (resp.last_modified, resp.content_type) {
                        (Some(lm), Some(ct)) => match timespec_model(encode_utf8(lm)) {
                            Some(dt) => Ok(BlobModel {
                                path: path,
                                mime: ct,
                                date_updated: dt,
                                content: content,
                                compression: encoding_model(resp.content_encoding),
                            }),
                            None => Err(Error::MalformedTimestamp),
                        },
                        _ => Err(Error::TransportError),
                    }
                }
            }
        },
    }
}

/// The model of what an executable read returned.
pub open spec fn result_model(r: Result<Blob, Error>) -> Result<BlobModel, Error> {
    match r {
        Ok(b) => Ok(b@),
        Err(e) => Err(e),
    }
}

/// A prefix of the chunk sequence never concatenates to more bytes than the
/// whole: what streaming has accepted so far, plus the chunk that overflows,
/// is a lower bound on the object's true length.
proof fn lemma_body_bytes_prefix(chunks: Seq<Seq<u8>>, i: int)
    requires
        0 <= i < chunks.len(),
    ensures
        body_bytes(chunks).len() >= body_bytes(chunks.take(i)).len() + chunks[i].len(),
    decreases chunks.len(),
{
    if i == chunks.len() - 1 {
        assert(chunks.drop_last() =~= chunks.take(i));
    } else {
        lemma_body_bytes_prefix(chunks.drop_last(), i);
        assert(chunks.drop_last().take(i) =~= chunks.take(i));
    }
}

/// Fetches one blob: the whole decision pipeline of the read path, on the
/// store's answer for `path`.
pub fn get(path: &str, max_size: usize, response: Option<ObjectResponse>) -> (r: Result<
    Blob,
    Error,
>)
    ensures
        result_model(r) == read_outcome(path@, max_size as nat, response_model(response)),
{
    let resp = match response {
        Some(r) => r,
        None => {
            return Err(Error::NotFound);
        }
    };
    let ghost rm = resp@;
    let chunks = match resp.body {
        Some(b) => b,
        None => {
            return Err(Error::TransportError);
        }
    };
    proof {
        assert(rm.body == Some(chunks.deep_view()));
    }
    let mut content = SizedBuffer::new(max_size);
    let hint: usize = match resp.content_length {
        Some(l) => {
            if 0 <= l && (l as u64) <= (usize::MAX as u64) {
                l as usize
            } else {
                0
            }
        }
        None => 0,
    };
    content.reserve(hint);
    let n = chunks.len();
    let mut i: usize = 0;
    proof {
        assert(chunks.deep_view().take(0) =~= Seq::<Seq<u8>>::empty());
    }
    while i < n
        invariant
            response_model(response) == Some(rm),
            rm.body == Some(chunks.deep_view()),
            i <= n,
            n == chunks@.len(),
            chunks.deep_view().len() == chunks@.len(),
            forall|j: int| 0 <= j < n ==> chunks.deep_view()[j] == chunks@[j]@,
            content.inv(),
            content.max() == max_size as nat,
            content.bytes() == body_bytes(chunks.deep_view().take(i as int)),
        decreases n - i,
    {
        let chunk: &Vec<u8> = &chunks[i];
        match content.write_all(chunk.as_slice()) {
            Ok(()) => {}
            Err(_) => {
                proof {
                    let cd = chunks.deep_view();
                    assert(chunk@ == chunks@[i as int]@);
                    assert(chunk@ == cd[i as int]);
                    lemma_body_bytes_prefix(cd, i as int);
                    assert(body_bytes(cd).len() > max_size);
                }
                return Err(Error::SizeLimitExceeded);
            }
        }
        proof {
            let cd = chunks.deep_view();
            assert(cd.take(i + 1).drop_last() =~= cd.take(i as int));
            assert(cd.take(i + 1).last() == cd[i as int]);
        }
        i = i + 1;
    }
    proof {
        assert(chunks.deep_view().take(n as int) =~= chunks.deep_view());
    }
    let lm = match resp.last_modified {
        Some(s) => s,
        None => {
            return Err(Error::TransportError);
        }
    };
    let ct = match resp.content_type {
        Some(s) => s,
        None => {
            return Err(Error::TransportError);
        }
    };
    let date_updated = match crate::timestamp::parse_timespec(lm.as_str()) {
        Ok(d) => d,
        Err(_) => {
            return Err(Error::MalformedTimestamp);
        }
    };
    let compression = match resp.content_encoding {
        Some(s) => parse_content_encoding(s.as_str()),
        None => None,
    };
    Ok(Blob {
        path: path.to_owned(),
        mime: ct,
        date_updated,
        content: content.into_inner(),
        compression,
    })
}

/// Fetching a path whose true stored length
/// exceeds `max_size` fails with `SizeLimitExceeded` — whatever the
/// metadata says — and returns no truncated content.
pub proof fn lemma_size_bound(path: Seq<char>, max_size: nat, resp: ResponseModel)
    requires
        resp.body matches Some(chunks) && body_bytes(chunks).len() > max_size,
    ensures
        read_outcome(path, max_size, Some(resp)) == Err::<BlobModel, Error>(
            Error::SizeLimitExceeded,
        ),
{
}

/// An object whose length is exactly `max_size` is never
/// rejected for size: with full metadata it is returned whole; one byte
/// more fails with `SizeLimitExceeded`.
pub proof fn lemma_exact_fit(
    path: Seq<char>,
    max_size: nat,
    resp: ResponseModel,
    bigger: ResponseModel,
)
    requires
        resp.body matches Some(chunks) && body_bytes(chunks).len() == max_size,
        resp.last_modified is Some,
        resp.content_type is Some,
        timespec_model(encode_utf8(resp.last_modified.unwrap())) is Some,
        bigger.body matches Some(chunks) && body_bytes(chunks).len() == max_size + 1,
    ensures
        read_outcome(path, max_size, Some(resp)) matches Ok(b) && b.content
            == body_bytes(resp.body.unwrap()),
        read_outcome(path, max_size, Some(bigger)) == Err::<BlobModel, Error>(
            Error::SizeLimitExceeded,
        ),
{
}

/// A path never written — one the store has no object for —
/// fails with `NotFound` and with no other error kind.
pub proof fn lemma_unknown_path(path: Seq<char>, max_size: nat)
    ensures
        read_outcome(path, max_size, None) == Err::<BlobModel, Error>(Error::NotFound),
{
}

/// Reading back a blob the store holds — a response whose body
/// carries the blob's bytes, whose content type is its MIME type and whose
/// content encoding is the label of its compression — yields identical
/// `content`, `mime` and `compression`; `date_updated` is whatever instant
/// the store's last-modified header names, not the writer's.
pub proof fn lemma_round_trip(
    b: BlobModel,
    max_size: nat,
    resp: ResponseModel,
    chunks: Seq<Seq<u8>>,
    label: Seq<char>,
)
    requires
        resp.body == Some(chunks),
        body_bytes(chunks) == b.content,
        b.content.len() <= max_size,
        resp.content_type == Some(b.mime),
        resp.last_modified is Some,
        timespec_model(encode_utf8(resp.last_modified.unwrap())) is Some,
        (match b.compression {
            Some(alg) => resp.content_encoding == Some(label) && encode_utf8(label)
                == crate::compression::label_model(alg),
            None => resp.content_encoding is None,
        }),
    ensures
        read_outcome(b.path, max_size, Some(resp)) matches Ok(r) && r.path == b.path && r.mime
            == b.mime && r.content == b.content && r.compression == b.compression
            && r.date_updated == timespec_model(
            encode_utf8(resp.last_modified.unwrap()),
        ).unwrap(),
{
    match b.compression {
        Some(alg) => {
            crate::compression::lemma_compression_round_trip(alg);
        }
        None => {}
    }
}

} // verus!
