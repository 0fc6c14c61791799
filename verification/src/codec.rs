use vstd::prelude::*;

verus! {

/// The zlib stream that deflate-compressing `data` at the default level
/// produces. The stream is a function of the payload alone; contracts speak
/// of it only through this name.
pub uninterp spec fn zlib_deflate(data: Seq<u8>) -> Seq<u8>;

/// The payload that zlib inflation recovers from a deflate stream.
pub uninterp spec fn zlib_inflate(stream: Seq<u8>) -> Seq<u8>;

/// Relies on flate2::write::ZlibEncoder over an in-memory buffer: it emits
/// the zlib stream for `data`, and the matching decoder recovers `data` from
/// that stream byte for byte.
#[verifier::external_body]
pub(crate) fn zlib_compress(data: &Vec<u8>) -> (r: Vec<u8>)
    ensures
        r@ == zlib_deflate(data@),
        zlib_inflate(r@) == data@,
{
    let mut encoder = flate2::write::ZlibEncoder::new(Vec::new(), flate2::Compression::default());
    std::io::Write::write_all(&mut encoder, data.as_slice()).expect("compression failed");
    encoder.finish().expect("compression failed")
}

} // verus!
