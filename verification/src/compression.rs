//! Compression algorithms and their content-encoding labels.
//!
//! A blob may carry one algorithm out of a small enumerated set; it is
//! serialized as a content-encoding label. An unknown label on read degrades
//! to "no compression known" rather than erroring.

use vstd::prelude::*;
use vstd::string::StringSliceAdditionalSpecFns;

verus! {

/// The compression algorithms a blob can be stored with.
#[derive(Clone, Copy, Debug, PartialEq, Eq, Structural)]
pub enum CompressionAlgorithm {
    Zstd,
    Gzip,
    Bzip2,
}

/// The content-encoding label of an algorithm, as UTF-8 bytes.
pub open spec fn label_model(alg: CompressionAlgorithm) -> Seq<u8> {
    match alg {
        CompressionAlgorithm::Zstd => seq![0x7a, 0x73, 0x74, 0x64],
        CompressionAlgorithm::Gzip => seq![0x67, 0x7a, 0x69, 0x70],
        CompressionAlgorithm::Bzip2 => seq![0x62, 0x7a, 0x69, 0x70, 0x32],
    }
}

/// Which algorithm a content-encoding label denotes, if any.
pub open spec fn compression_model(s: Seq<u8>) -> Option<CompressionAlgorithm> {
    if s == label_model(CompressionAlgorithm::Zstd) {
        Some(CompressionAlgorithm::Zstd)
    } else if s == label_model(CompressionAlgorithm::Gzip) {
        Some(CompressionAlgorithm::Gzip)
    } else if s == label_model(CompressionAlgorithm::Bzip2) {
        Some(CompressionAlgorithm::Bzip2)
    } else {
        None
    }
}

/// Every algorithm round-trips losslessly through its string encoding:
/// parsing the label an algorithm serializes to yields that algorithm back.
pub proof fn lemma_compression_round_trip(alg: CompressionAlgorithm)
    ensures
        compression_model(label_model(alg)) == Some(alg),
{
    match alg {
        CompressionAlgorithm::Zstd => {}
        CompressionAlgorithm::Gzip => {
            assert(label_model(CompressionAlgorithm::Gzip)
                != label_model(CompressionAlgorithm::Zstd)) by {
                assert(label_model(CompressionAlgorithm::Gzip)[0] == 0x67);
                assert(label_model(CompressionAlgorithm::Zstd)[0] == 0x7a);
            }
        }
        CompressionAlgorithm::Bzip2 => {
            assert(label_model(CompressionAlgorithm::Bzip2).len() == 5);
            assert(label_model(CompressionAlgorithm::Zstd).len() == 4);
            assert(label_model(CompressionAlgorithm::Gzip).len() == 4);
        }
    }
}

impl CompressionAlgorithm {
    /// The content-encoding label this algorithm is serialized as.
    pub fn label(&self) -> (r: &'static str)
        ensures
            r.spec_bytes() == label_model(*self),
    {
        match self {
            CompressionAlgorithm::Zstd => {
                let s = "zstd";
                proof {
                    reveal_strlit("zstd");
                    lemma_ascii_bytes(s);
                    assert(s.spec_bytes() =~= label_model(CompressionAlgorithm::Zstd));
                }
                s
            }
            CompressionAlgorithm::Gzip => {
                let s = "gzip";
                proof {
                    reveal_strlit("gzip");
                    lemma_ascii_bytes(s);
                    assert(s.spec_bytes() =~= label_model(CompressionAlgorithm::Gzip));
                }
                s
            }
            CompressionAlgorithm::Bzip2 => {
                let s = "bzip2";
                proof {
                    reveal_strlit("bzip2");
                    lemma_ascii_bytes(s);
                    assert(s.spec_bytes() =~= label_model(CompressionAlgorithm::Bzip2));
                }
                s
            }
        }
    }
}

/// For an all-ASCII string, its UTF-8 bytes are its characters, one byte each.
proof fn lemma_ascii_bytes(s: &str)
    requires
        vstd::string::is_ascii(s),
    ensures
        s.spec_bytes() =~= Seq::new(s@.len(), |i: int| s@.index(i) as u8),
{
    broadcast use vstd::string::is_ascii_spec_bytes;

}

/// Best-effort decoding of a content-encoding label; an unrecognized label
/// yields `None` ("no compression known") rather than an error.
pub fn parse_content_encoding(s: &str) -> (r: Option<CompressionAlgorithm>)
    ensures
        r == compression_model(s.spec_bytes()),
{
    let b: &[u8] = s.as_bytes();
    let n = b.len();
    if n == 4 && b[0] == 0x7a && b[1] == 0x73 && b[2] == 0x74 && b[3] == 0x64 {
        proof {
            assert(s.spec_bytes() =~= label_model(CompressionAlgorithm::Zstd));
        }
        Some(CompressionAlgorithm::Zstd)
    } else if n == 4 && b[0] == 0x67 && b[1] == 0x7a && b[2] == 0x69 && b[3] == 0x70 {
        proof {
            assert(s.spec_bytes() =~= label_model(CompressionAlgorithm::Gzip));
            assert(s.spec_bytes() != label_model(CompressionAlgorithm::Zstd));
        }
        Some(CompressionAlgorithm::Gzip)
    } else if n == 5 && b[0] == 0x62 && b[1] == 0x7a && b[2] == 0x69 && b[3] == 0x70
        && b[4] == 0x32 {
        proof {
            assert(s.spec_bytes() =~= label_model(CompressionAlgorithm::Bzip2));
            assert(s.spec_bytes().len() == 5);
        }
        Some(CompressionAlgorithm::Bzip2)
    } else {
        proof {
            lemma_no_label_matches(s.spec_bytes(), b@);
        }
        None
    }
}

/// If a byte sequence differs from every label at some position or in
/// length, it denotes no algorithm.
proof fn lemma_no_label_matches(s: Seq<u8>, b: Seq<u8>)
    requires
        s == b,
        !(b.len() == 4 && b[0] == 0x7a && b[1] == 0x73 && b[2] == 0x74 && b[3] == 0x64),
        !(b.len() == 4 && b[0] == 0x67 && b[1] == 0x7a && b[2] == 0x69 && b[3] == 0x70),
        !(b.len() == 5 && b[0] == 0x62 && b[1] == 0x7a && b[2] == 0x69 && b[3] == 0x70
            && b[4] == 0x32),
    ensures
        compression_model(s) is None,
{
    if s == label_model(CompressionAlgorithm::Zstd) {
        assert(b[0] == 0x7a && b[1] == 0x73 && b[2] == 0x74 && b[3] == 0x64);
    }
    if s == label_model(CompressionAlgorithm::Gzip) {
        assert(b[0] == 0x67 && b[1] == 0x7a && b[2] == 0x69 && b[3] == 0x70);
    }
    if s == label_model(CompressionAlgorithm::Bzip2) {
        assert(b[0] == 0x62 && b[1] == 0x7a && b[2] == 0x69 && b[3] == 0x70 && b[4] == 0x32);
    }
}

} // verus!
