//! The gzip-compressed TAR format: a compression transform layered on the
//! base TAR codec. The gzip coding itself is done by `flate2` behind trusted
//! wrappers; the layering, the error classification and the duplicate check
//! are verified.

use vstd::prelude::*;
use std::io::Read;
use crate::error::{message_of, ArchiveError, ArchiveErrorV};
use crate::tar::{tar_decode_spec, tar_encode_spec, Tar};
use crate::types::{file_views, File, FileV};

verus! {

/// The bytes the gzip stream `data` decompresses to, or nothing when the
/// stream is invalid: a fixed function of the bytes alone.
pub uninterp spec fn gzip_inflated(data: Seq<u8>) -> Option<Seq<u8>>;

/// The gzip stream `flate2` produces for `data` at compression level
/// `level`. `flate2` writes a fixed header (zero timestamp, operating-system
/// byte 255), so the stream is a function of the bytes and the level alone.
pub uninterp spec fn gzip_deflated(data: Seq<u8>, level: u32) -> Seq<u8>;

/// Relies on `flate2::read::GzDecoder`: reading it to the end yields the
/// decompressed bytes, or fails exactly when the stream is invalid.
#[verifier::external_body]
fn gzip_decompress(data: &Vec<u8>) -> (r: Result<Vec<u8>, String>)
    ensures
        match r {
            Ok(v) => gzip_inflated(data@) == Some(v@),
            Err(_) => gzip_inflated(data@) is None,
        },
{
    let mut decoder = flate2::read::GzDecoder::new(data.as_slice());
    let mut out = Vec::new();
    if let Err(e) = decoder.read_to_end(&mut out) {
        return Err(e.to_string());
    }
    Ok(out)
}

/// Relies on `flate2::bufread::GzEncoder`: reading it to the end yields the
/// gzip stream for the input at the given level. Compressing an in-memory
/// slice into memory cannot fail, and the stream starts with the ten-byte
/// gzip header, so it is never empty.
#[verifier::external_body]
fn gzip_compress(data: &Vec<u8>, level: u32) -> (r: Result<Vec<u8>, String>)
    ensures
        r is Ok,
        r matches Ok(v) ==> v@ == gzip_deflated(data@, level) && v@.len() > 0,
{
    let mut encoder = flate2::bufread::GzEncoder::new(
        data.as_slice(),
        flate2::Compression::new(level),
    );
    let mut out = Vec::new();
    if let Err(e) = encoder.read_to_end(&mut out) {
        return Err(e.to_string());
    }
    Ok(out)
}

/// What decoding a valid gzip stream that holds `tarb` yields: the base TAR
/// decode, with a failure re-tagged as a `tar.gz` decode failure.
pub open spec fn targz_after_inflate(tarb: Seq<u8>) -> Result<Seq<FileV>, ArchiveErrorV> {
    match tar_decode_spec(tarb) {
        Ok(fv) => Ok(fv),
        Err(ev) => Err(
            ArchiveErrorV::DecodeFailed { format: "tar.gz"@, reason: message_of(ev) },
        ),
    }
}

/// Everything [`TarGz::decode`] promises of its result `r` on input
/// `data`.
pub open spec fn targz_decode_post(data: Seq<u8>, r: Result<Vec<File>, ArchiveError>) -> bool {
    &&& gzip_inflated(data) matches Some(tarb) ==> match targz_after_inflate(tarb) {
        Ok(fv) => r matches Ok(files) && file_views(files@) == fv,
        Err(ev) => r matches Err(e) && e@ == ev,
    }
    &&& gzip_inflated(data) is None ==> (r matches Err(e) && e@ matches
        ArchiveErrorV::DecompressionError(_))
}

/// Everything [`TarGz::encode`] promises of its result `r` for the
/// entries `files`.
pub open spec fn targz_encode_post(files: Seq<FileV>, r: Result<Vec<u8>, ArchiveError>) -> bool {
    match tar_encode_spec(files) {
        Err(ev) => r matches Err(e) && e@ == ev,
        Ok(tarb) => r matches Ok(b) && b@ == gzip_deflated(tarb, 6) && b@.len() > 0,
    }
}

/// The gzip-compressed TAR container format (`.tar.gz`, `.tgz`).
pub struct TarGz;

impl TarGz {
    /// Decodes a gzip-compressed TAR stream: decompresses the whole input,
    /// then delegates to the base TAR codec. An invalid gzip stream is a
    /// `DecompressionError`; a TAR-level failure is re-tagged `tar.gz`.
    pub fn decode(buffer: Vec<u8>) -> (r: Result<Vec<File>, ArchiveError>)
        ensures
            targz_decode_post(buffer@, r),
    {
        match gzip_decompress(&buffer) {
            Err(m) => Err(ArchiveError::DecompressionError(m)),
            Ok(tarb) => match Tar::decode(tarb) {
                Ok(files) => Ok(files),
                Err(e) => {
                    let reason = e.message();
                    Err(
                        ArchiveError::DecodeFailed {
                            format: String::from_str("tar.gz"),
                            reason,
                        },
                    )
                },
            },
        }
    }

    /// Encodes entries as a gzip-compressed TAR stream: the base TAR encode
    /// (with its duplicate check) followed by gzip at the balanced default
    /// level 6.
    pub fn encode(files: Vec<File>) -> (r: Result<Vec<u8>, ArchiveError>)
        ensures
            targz_encode_post(file_views(files@), r),
    {
        match Tar::encode(files) {
            Err(e) => Err(e),
            Ok(tarb) => match gzip_compress(&tarb, 6) {
                Ok(out) => Ok(out),
                Err(m) => Err(ArchiveError::CompressionError(m)),
            },
        }
    }
}

} // verus!
