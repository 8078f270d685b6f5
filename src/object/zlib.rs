//! Compression at rest, through flate2's zlib streams.
use vstd::prelude::*;

verus! {

/// The zlib stream that flate2's `ZlibEncoder` makes of `data` at the default level.
pub uninterp spec fn zlib_of(data: Seq<u8>) -> Seq<u8>;

/// What flate2's `ZlibDecoder` reads out of `data`, or `None` where it reports an error.
pub uninterp spec fn inflated(data: Seq<u8>) -> Option<Seq<u8>>;

/// Relies on `flate2::write::ZlibEncoder` (default `Compression`) writing into a `Vec`:
/// the zlib stream of `data`. Writing into a `Vec` cannot fail, and a fresh encoder at
/// the default level never makes the backend report an error, so there is always a
/// stream. The stream is lossless: `ZlibDecoder` reads `data` back out of it.
#[verifier::external_body]
pub(crate) fn deflate(data: &[u8]) -> (r: Option<Vec<u8>>)
    ensures
        r is Some,
        r matches Some(c) ==> c@ == zlib_of(data@),
        r matches Some(c) ==> inflated(c@) == Some(data@),
{
    let mut encoder = flate2::write::ZlibEncoder::new(Vec::new(), flate2::Compression::default());
    std::io::Write::write_all(&mut encoder, data).ok()?;
    encoder.finish().ok()
}

/// Relies on `flate2::read::ZlibDecoder` read to the end: the bytes that the zlib
/// stream `data` holds, or `None` where it is not a valid stream.
#[verifier::external_body]
pub(crate) fn inflate(data: &[u8]) -> (r: Option<Vec<u8>>)
    ensures
        r matches Some(v) ==> inflated(data@) == Some(v@),
        r is None ==> inflated(data@) is None,
{
    let mut out = Vec::new();
    std::io::Read::read_to_end(&mut flate2::read::ZlibDecoder::new(data), &mut out).ok()?;
    Some(out)
}

} // verus!
