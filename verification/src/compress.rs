//! Payload compression strategies behind trusted wrappers.
//!
//! Three interchangeable framings from the `flate2` crate — gzip, zlib
//! and raw deflate — each a deterministic function of the payload bytes
//! and a compression-effort level, and each undone exactly by its own
//! decompressor.

use vstd::prelude::*;
use std::io::{Read, Write};

verus! {

/// The closed set of compressed framings a payload adapter may apply.
#[derive(Debug, Clone, Copy, PartialEq, Eq, Structural)]
pub enum CompressMethod {
    /// gzip framing (header and trailing checksum around deflate).
    Gzip,
    /// zlib framing (lighter header and checksum around deflate).
    Zlib,
    /// raw deflate, no framing.
    Deflate,
}

/// The gzip form of a byte sequence at a given effort level.
pub uninterp spec fn gz_of(data: Seq<u8>, level: u32) -> Seq<u8>;

/// What gzip decompression returns: the original bytes, or nothing when
/// the input is not a well-formed gzip stream.
pub uninterp spec fn gunzip_of(data: Seq<u8>) -> Option<Seq<u8>>;

/// The zlib form of a byte sequence at a given effort level.
pub uninterp spec fn zlib_of(data: Seq<u8>, level: u32) -> Seq<u8>;

/// What zlib decompression returns.
pub uninterp spec fn unzlib_of(data: Seq<u8>) -> Option<Seq<u8>>;

/// The raw-deflate form of a byte sequence at a given effort level.
pub uninterp spec fn deflate_of(data: Seq<u8>, level: u32) -> Seq<u8>;

/// What raw-deflate decompression returns.
pub uninterp spec fn inflate_of(data: Seq<u8>) -> Option<Seq<u8>>;

/// The compressed form a strategy produces at a given level.
pub open spec fn compress_model(m: CompressMethod, data: Seq<u8>, level: u32) -> Seq<u8> {
    match m {
        CompressMethod::Gzip => gz_of(data, level),
        CompressMethod::Zlib => zlib_of(data, level),
        CompressMethod::Deflate => deflate_of(data, level),
    }
}

/// What a strategy's decompressor recovers from a byte sequence.
pub open spec fn decompress_model(m: CompressMethod, data: Seq<u8>) -> Option<Seq<u8>> {
    match m {
        CompressMethod::Gzip => gunzip_of(data),
        CompressMethod::Zlib => unzlib_of(data),
        CompressMethod::Deflate => inflate_of(data),
    }
}

/// Relies on flate2::write::GzEncoder: deterministic in the input and
/// level (the header it writes is fixed), and undone by GzDecoder.
#[verifier::external_body]
fn gz_compress(data: &[u8], level: u32) -> (r: Vec<u8>)
    requires
        level <= 9,
    ensures
        r@ == gz_of(data@, level),
        gunzip_of(r@) == Some(data@),
{
    let mut e = flate2::write::GzEncoder::new(Vec::new(), flate2::Compression::new(level));
    e.write_all(data).unwrap();
    e.finish().unwrap()
}

/// Relies on flate2::read::GzDecoder: deterministic in the input, and
/// failing exactly when the input is not a well-formed gzip stream.
#[verifier::external_body]
fn gz_decompress(data: &[u8]) -> (r: Option<Vec<u8>>)
    ensures
        r matches Some(v) ==> gunzip_of(data@) == Some(v@),
        r is None ==> gunzip_of(data@) is None,
{
    let mut d = flate2::read::GzDecoder::new(data);
    let mut out = Vec::new();
    match d.read_to_end(&mut out) {
        Ok(_) => Some(out),
        Err(_) => None,
    }
}

/// Relies on flate2::write::ZlibEncoder: deterministic in the input and
/// level, and undone by ZlibDecoder.
#[verifier::external_body]
fn zlib_compress(data: &[u8], level: u32) -> (r: Vec<u8>)
    requires
        level <= 9,
    ensures
        r@ == zlib_of(data@, level),
        unzlib_of(r@) == Some(data@),
{
    let mut e = flate2::write::ZlibEncoder::new(Vec::new(), flate2::Compression::new(level));
    e.write_all(data).unwrap();
    e.finish().unwrap()
}

/// Relies on flate2::read::ZlibDecoder: deterministic in the input, and
/// failing exactly when the input is not a well-formed zlib stream.
#[verifier::external_body]
fn zlib_decompress(data: &[u8]) -> (r: Option<Vec<u8>>)
    ensures
        r matches Some(v) ==> unzlib_of(data@) == Some(v@),
        r is None ==> unzlib_of(data@) is None,
{
    let mut d = flate2::read::ZlibDecoder::new(data);
    let mut out = Vec::new();
    match d.read_to_end(&mut out) {
        Ok(_) => Some(out),
        Err(_) => None,
    }
}

/// Relies on flate2::write::DeflateEncoder: deterministic in the input
/// and level, and undone by DeflateDecoder.
#[verifier::external_body]
fn deflate_compress(data: &[u8], level: u32) -> (r: Vec<u8>)
    requires
        level <= 9,
    ensures
        r@ == deflate_of(data@, level),
        inflate_of(r@) == Some(data@),
{
    let mut e = flate2::write::DeflateEncoder::new(Vec::new(), flate2::Compression::new(level));
    e.write_all(data).unwrap();
    e.finish().unwrap()
}

/// Relies on flate2::read::DeflateDecoder: deterministic in the input,
/// and failing exactly when the input is not a well-formed deflate
/// stream.
#[verifier::external_body]
fn deflate_decompress(data: &[u8]) -> (r: Option<Vec<u8>>)
    ensures
        r matches Some(v) ==> inflate_of(data@) == Some(v@),
        r is None ==> inflate_of(data@) is None,
{
    let mut d = flate2::read::DeflateDecoder::new(data);
    let mut out = Vec::new();
    match d.read_to_end(&mut out) {
        Ok(_) => Some(out),
        Err(_) => None,
    }
}

/// Compress a payload with the chosen strategy and effort level.
pub fn compress(m: CompressMethod, data: &[u8], level: u32) -> (r: Vec<u8>)
    requires
        level <= 9,
    ensures
        r@ == compress_model(m, data@, level),
        decompress_model(m, r@) == Some(data@),
{
    match m {
        CompressMethod::Gzip => gz_compress(data, level),
        CompressMethod::Zlib => zlib_compress(data, level),
        CompressMethod::Deflate => deflate_compress(data, level),
    }
}

/// Undo the chosen strategy; fails on input its framing rejects.
pub fn decompress(m: CompressMethod, data: &[u8]) -> (r: Option<Vec<u8>>)
    ensures
        r matches Some(v) ==> decompress_model(m, data@) == Some(v@),
        r is None ==> decompress_model(m, data@) is None,
{
    match m {
        CompressMethod::Gzip => gz_decompress(data),
        CompressMethod::Zlib => zlib_decompress(data),
        CompressMethod::Deflate => deflate_decompress(data),
    }
}

} // verus!
