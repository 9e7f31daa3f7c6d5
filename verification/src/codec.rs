//! Compression dispatch over the supported kinds.
//!
//! The encoders and decoders of the outside compression crates stand behind
//! trusted wrappers on plain byte vectors. No name is given to the exact
//! bytes an encoder produces; instead each *decoder's* result is named —
//! decoding is bit-exact per its format — and each encoder promises that
//! its output decodes back to exactly its input: the round trip that is
//! these libraries' documented purpose, and a claim that stays true even
//! where encoder output varies between library versions. Encoding into an
//! in-memory vector cannot fail — writes to a `Vec` never error and the
//! algorithms report no error at a fixed valid level — so the encoders owe
//! their output unconditionally.

use vstd::prelude::*;

use crate::compression::Compression;

verus! {

/// What decoding `s` as a gzip stream yields; `None` when `s` is not a
/// well-formed gzip stream.
pub uninterp spec fn gzip_decoded(s: Seq<u8>) -> Option<Seq<u8>>;

/// What decoding `s` as a raw deflate stream yields.
pub uninterp spec fn deflate_decoded(s: Seq<u8>) -> Option<Seq<u8>>;

/// What decoding `s` as a brotli stream yields.
pub uninterp spec fn brotli_decoded(s: Seq<u8>) -> Option<Seq<u8>>;

/// What decoding `s` as a zstandard stream yields.
pub uninterp spec fn zstd_decoded(s: Seq<u8>) -> Option<Seq<u8>>;

/// What decoding `s` with `k`'s algorithm yields.
pub open spec fn decoded_of(k: Compression, s: Seq<u8>) -> Option<Seq<u8>> {
    match k {
        Compression::Gzip => gzip_decoded(s),
        Compression::Deflate => deflate_decoded(s),
        Compression::Brotli => brotli_decoded(s),
        Compression::Zstd => zstd_decoded(s),
    }
}

/// Relies on flate2::write::GzEncoder at flate2's default level, together
/// with flate2::read::GzDecoder: the stream the encoder produces from
/// `data` decodes back to exactly `data`. Writing into a `Vec` sink cannot
/// fail, and deflate at a valid level reports no compressor error, so the
/// encoder owes its output.
#[verifier::external_body]
fn gzip_encode(data: &Vec<u8>) -> (r: Vec<u8>)
    ensures
        gzip_decoded(r@) == Some(data@),
{
    let mut enc = flate2::write::GzEncoder::new(Vec::new(), flate2::Compression::default());
    std::io::Write::write_all(&mut enc, data.as_slice()).unwrap();
    enc.finish().unwrap()
}

/// Relies on flate2::read::GzDecoder: its result is a function of the input
/// bytes alone, bit-exact per the gzip format.
#[verifier::external_body]
fn gzip_decode(data: &Vec<u8>) -> (r: Option<Vec<u8>>)
    ensures
        r is Some <==> gzip_decoded(data@) is Some,
        r matches Some(v) ==> gzip_decoded(data@) == Some(v@),
{
    let mut dec = flate2::read::GzDecoder::new(data.as_slice());
    let mut out = Vec::new();
    match std::io::Read::read_to_end(&mut dec, &mut out) {
        Ok(_) => Some(out),
        Err(_) => None,
    }
}

/// Relies on flate2::write::DeflateEncoder at flate2's default level,
/// together with flate2::read::DeflateDecoder: the stream the encoder
/// produces from `data` decodes back to exactly `data`. As with the gzip
/// encoder, encoding into a `Vec` sink cannot fail.
#[verifier::external_body]
fn deflate_encode(data: &Vec<u8>) -> (r: Vec<u8>)
    ensures
        deflate_decoded(r@) == Some(data@),
{
    let mut enc = flate2::write::DeflateEncoder::new(Vec::new(), flate2::Compression::default());
    std::io::Write::write_all(&mut enc, data.as_slice()).unwrap();
    enc.finish().unwrap()
}

/// Relies on flate2::read::DeflateDecoder: its result is a function of the
/// input bytes alone, bit-exact per the deflate format.
#[verifier::external_body]
fn deflate_decode(data: &Vec<u8>) -> (r: Option<Vec<u8>>)
    ensures
        r is Some <==> deflate_decoded(data@) is Some,
        r matches Some(v) ==> deflate_decoded(data@) == Some(v@),
{
    let mut dec = flate2::read::DeflateDecoder::new(data.as_slice());
    let mut out = Vec::new();
    match std::io::Read::read_to_end(&mut dec, &mut out) {
        Ok(_) => Some(out),
        Err(_) => None,
    }
}

/// Relies on brotli2::write::BrotliEncoder at flate2's default level,
/// together with brotli2::read::BrotliDecoder: the stream the encoder
/// produces from `data` decodes back to exactly `data`. The brotli stream
/// call reports no error when its sink is an in-memory `Vec`, so the
/// encoder owes its output.
#[verifier::external_body]
fn brotli_encode(data: &Vec<u8>) -> (r: Vec<u8>)
    ensures
        brotli_decoded(r@) == Some(data@),
{
    let mut enc = brotli2::write::BrotliEncoder::new(
        Vec::new(),
        flate2::Compression::default().level(),
    );
    std::io::Write::write_all(&mut enc, data.as_slice()).unwrap();
    enc.finish().unwrap()
}

/// Relies on brotli2::read::BrotliDecoder: its result is a function of the
/// input bytes alone, bit-exact per the brotli format.
#[verifier::external_body]
fn brotli_decode(data: &Vec<u8>) -> (r: Option<Vec<u8>>)
    ensures
        r is Some <==> brotli_decoded(data@) is Some,
        r matches Some(v) ==> brotli_decoded(data@) == Some(v@),
{
    let mut dec = brotli2::read::BrotliDecoder::new(data.as_slice());
    let mut out = Vec::new();
    match std::io::Read::read_to_end(&mut dec, &mut out) {
        Ok(_) => Some(out),
        Err(_) => None,
    }
}

/// Relies on zstd::stream::encode_all at flate2's default level, together
/// with zstd::stream::decode_all: the stream the encoder produces from
/// `data` decodes back to exactly `data`. Encoding a byte slice into
/// memory at a valid level reports no error, so the encoder owes its
/// output.
#[verifier::external_body]
fn zstd_encode(data: &Vec<u8>) -> (r: Vec<u8>)
    ensures
        zstd_decoded(r@) == Some(data@),
{
    zstd::stream::encode_all(data.as_slice(), flate2::Compression::default().level() as i32)
        .unwrap()
}

/// Relies on zstd::stream::decode_all: its result is a function of the
/// input bytes alone, bit-exact per the zstandard format.
#[verifier::external_body]
fn zstd_decode(data: &Vec<u8>) -> (r: Option<Vec<u8>>)
    ensures
        r is Some <==> zstd_decoded(data@) is Some,
        r matches Some(v) ==> zstd_decoded(data@) == Some(v@),
{
    zstd::stream::decode_all(data.as_slice()).ok()
}

impl Compression {
    /// Compress `data` with this kind's algorithm at a fixed moderate
    /// level. The produced bytes decode — under this same kind's algorithm
    /// — back to exactly `data`.
    pub fn compress(self, data: &Vec<u8>) -> (r: Vec<u8>)
        ensures
            decoded_of(self, r@) == Some(data@),
    {
        match self {
            Compression::Gzip => gzip_encode(data),
            Compression::Deflate => deflate_encode(data),
            Compression::Brotli => brotli_encode(data),
            Compression::Zstd => zstd_encode(data),
        }
    }

    /// Decode `data` with this kind's algorithm, the inverse of `compress`.
    /// Returns `None` exactly when `data` is not a well-formed stream of
    /// this kind.
    pub fn decompress(self, data: &Vec<u8>) -> (r: Option<Vec<u8>>)
        ensures
            r is Some <==> decoded_of(self, data@) is Some,
            r matches Some(v) ==> decoded_of(self, data@) == Some(v@),
    {
        match self {
            Compression::Gzip => gzip_decode(data),
            Compression::Deflate => deflate_decode(data),
            Compression::Brotli => brotli_decode(data),
            Compression::Zstd => zstd_decode(data),
        }
    }
}

/// Round trip: compressing and then decompressing with one kind gives back
/// exactly the original bytes.
pub fn compress_round_trip(kind: Compression, data: &Vec<u8>) -> (r: Vec<u8>)
    ensures
        r@ == data@,
{
    let compressed = kind.compress(data);
    kind.decompress(&compressed).unwrap()
}

} // verus!
