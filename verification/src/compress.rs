//! gzip and zstd streams, through the `flate2` and `zstd` crates.

use vstd::prelude::*;
use std::io::{Read, Write};

verus! {

/// What `flate2`'s `GzEncoder` gives for `data` at the default compression
/// level: the gzip stream, or `None` when writing or finishing fails.
pub uninterp spec fn gzip_result(data: Seq<u8>) -> Option<Seq<u8>>;

/// The gzip stream of `data`, where gzipping it succeeds.
pub open spec fn gzip_stream(data: Seq<u8>) -> Seq<u8> {
    gzip_result(data)->0
}

/// What reading at most `limit` bytes from `flate2`'s `GzDecoder` over
/// `data` gives, or `None` when the read fails.
pub uninterp spec fn gunzip_read(data: Seq<u8>, limit: u64) -> Option<Seq<u8>>;

/// What reading at most `limit` bytes from a `zstd` stream decoder over
/// `data` gives, or `None` when making the decoder or the read fails.
pub uninterp spec fn unzstd_read(data: Seq<u8>, limit: u64) -> Option<Seq<u8>>;

/// `flate2::write::GzEncoder` over a `Vec` at `Compression::default()`:
/// `write_all` then `finish`: `Ok` exactly when [`gzip_result`] is
/// defined, with its bytes, and a `GzDecoder` reading them gives the input
/// back (read through a limit no smaller than the input).  The error's text
/// is handed on.
#[verifier::external_body]
pub(crate) fn gzip(data: &[u8]) -> (r: Result<Vec<u8>, String>)
    ensures
        r is Ok <==> gzip_result(data@) is Some,
        r matches Ok(v) ==> gzip_result(data@) == Some(v@),
        r matches Ok(v) ==> forall|limit: u64|
            limit >= data@.len() ==> #[trigger] gunzip_read(v@, limit) == Some(data@),
{
    let mut encoder = flate2::write::GzEncoder::new(Vec::new(), flate2::Compression::default());
    match encoder.write_all(data) {
        Ok(()) => {},
        Err(e) => return Err(e.to_string()),
    }
    encoder.finish().map_err(|e| e.to_string())
}

/// `flate2::read::GzDecoder` over `data`, read to the end through
/// `Read::take(limit)`: `Ok` exactly when [`gunzip_read`] is defined, with
/// its bytes, of which there are at most `limit` (`take` reads no more).
#[verifier::external_body]
pub(crate) fn gunzip(data: &[u8], limit: u64) -> (r: Result<Vec<u8>, String>)
    ensures
        r is Ok <==> gunzip_read(data@, limit) is Some,
        r matches Ok(v) ==> gunzip_read(data@, limit) == Some(v@) && v@.len() <= limit,
{
    let mut out = Vec::new();
    match flate2::read::GzDecoder::new(data).take(limit).read_to_end(&mut out) {
        Ok(_) => Ok(out),
        Err(e) => Err(e.to_string()),
    }
}

/// `zstd::stream::read::Decoder::new` over `data`, read to the end through
/// `Read::take(limit)`: `Ok` exactly when [`unzstd_read`] is defined, with
/// its bytes, of which there are at most `limit`.
#[verifier::external_body]
pub(crate) fn unzstd(data: &[u8], limit: u64) -> (r: Result<Vec<u8>, String>)
    ensures
        r is Ok <==> unzstd_read(data@, limit) is Some,
        r matches Ok(v) ==> unzstd_read(data@, limit) == Some(v@) && v@.len() <= limit,
{
    let decoder = match zstd::stream::read::Decoder::new(std::io::Cursor::new(data)) {
        Ok(decoder) => decoder,
        Err(e) => return Err(e.to_string()),
    };
    let mut out = Vec::new();
    match decoder.take(limit).read_to_end(&mut out) {
        Ok(_) => Ok(out),
        Err(e) => Err(e.to_string()),
    }
}

} // verus!
