//! The zstd-compressed TAR format: a compression transform layered on the
//! base TAR codec. Decompression is done by `ruzstd` and compression by the
//! `zstd` crate, both behind trusted wrappers; the layering and error
//! classification are verified.

use vstd::prelude::*;
use std::io::Read;
use crate::error::{message_of, ArchiveError, ArchiveErrorV};
use crate::tar::{tar_decode_spec, tar_encode_spec, Tar};
use crate::types::{file_views, File, FileV};

verus! {

/// The bytes the zstd frame `data` decompresses to, or nothing when the
/// frame is invalid: a fixed function of the bytes alone.
pub uninterp spec fn zstd_decoded(data: Seq<u8>) -> Option<Seq<u8>>;

/// The zstd frame the `zstd` crate produces for `data` at the given level: a
/// zstd frame carries no timestamps, so it is a function of the bytes and
/// the level alone.
pub uninterp spec fn zstd_encoded(data: Seq<u8>, level: i32) -> Seq<u8>;

/// Relies on `ruzstd::decoding::StreamingDecoder`: reading it to the end
/// yields the decompressed bytes, or fails exactly when the frame is
/// invalid.
#[verifier::external_body]
fn zstd_decompress(data: &Vec<u8>) -> (r: Result<Vec<u8>, String>)
    ensures
        match r {
            Ok(v) => zstd_decoded(data@) == Some(v@),
            Err(_) => zstd_decoded(data@) is None,
        },
{
    let mut decoder = match ruzstd::decoding::StreamingDecoder::new(data.as_slice()) {
        Ok(d) => d,
        Err(e) => return Err(e.to_string()),
    };
    let mut out = Vec::new();
    if let Err(e) = decoder.read_to_end(&mut out) {
        return Err(e.to_string());
    }
    Ok(out)
}

/// Relies on `zstd::stream::encode_all`: it yields the zstd frame for the
/// input at the given level. Compressing into memory cannot fail (allocation
/// aside), and the frame starts with its four-byte magic, so it is never
/// empty.
#[verifier::external_body]
fn zstd_compress(data: &Vec<u8>, level: i32) -> (r: Result<Vec<u8>, String>)
    ensures
        r is Ok,
        r matches Ok(v) ==> v@ == zstd_encoded(data@, level) && v@.len() > 0,
{
    match zstd::stream::encode_all(data.as_slice(), level) {
        Ok(out) => Ok(out),
        Err(e) => Err(e.to_string()),
    }
}

/// What decoding a valid zstd frame that holds `tarb` yields: the base TAR
/// decode, with a failure re-tagged as a `tar.zst` decode failure.
pub open spec fn tarzstd_after_decode(tarb: Seq<u8>) -> Result<Seq<FileV>, ArchiveErrorV> {
    match tar_decode_spec(tarb) {
        Ok(fv) => Ok(fv),
        Err(ev) => Err(
            ArchiveErrorV::DecodeFailed { format: "tar.zst"@, reason: message_of(ev) },
        ),
    }
}

/// Everything [`TarZstd::decode`] promises of its result `r` on input
/// `data`.
pub open spec fn tarzstd_decode_post(data: Seq<u8>, r: Result<Vec<File>, ArchiveError>) -> bool {
    &&& zstd_decoded(data) matches Some(tarb) ==> match tarzstd_after_decode(tarb) {
        Ok(fv) => r matches Ok(files) && file_views(files@) == fv,
        Err(ev) => r matches Err(e) && e@ == ev,
    }
    &&& zstd_decoded(data) is None ==> (r matches Err(e) && e@ matches
        ArchiveErrorV::DecompressionError(_))
}

/// Everything [`TarZstd::encode`] promises of its result `r` for the
/// entries `files`.
pub open spec fn tarzstd_encode_post(files: Seq<FileV>, r: Result<Vec<u8>, ArchiveError>) -> bool {
    match tar_encode_spec(files) {
        Err(ev) => r matches Err(e) && e@ == ev,
        Ok(tarb) => r matches Ok(b) && b@ == zstd_encoded(tarb, 6) && b@.len() > 0,
    }
}

/// The zstd-compressed TAR container format (`.tar.zst`, `.tzst`, `.tzstd`).
pub struct TarZstd;

impl TarZstd {
    /// Decodes a zstd-compressed TAR stream: decompresses the whole input,
    /// then delegates to the base TAR codec. An invalid zstd frame is a
    /// `DecompressionError`; a TAR-level failure is re-tagged `tar.zst`.
    pub fn decode(buffer: Vec<u8>) -> (r: Result<Vec<File>, ArchiveError>)
        ensures
            tarzstd_decode_post(buffer@, r),
    {
        match zstd_decompress(&buffer) {
            Err(m) => Err(ArchiveError::DecompressionError(m)),
            Ok(tarb) => match Tar::decode(tarb) {
                Ok(files) => Ok(files),
                Err(e) => {
                    let reason = e.message();
                    Err(
                        ArchiveError::DecodeFailed {
                            format: String::from_str("tar.zst"),
                            reason,
                        },
                    )
                },
            },
        }
    }

    /// Encodes entries as a zstd-compressed TAR stream: the base TAR encode
    /// (with its duplicate check) followed by zstd at the balanced default
    /// level 6.
    pub fn encode(files: Vec<File>) -> (r: Result<Vec<u8>, ArchiveError>)
        ensures
            tarzstd_encode_post(file_views(files@), r),
    {
        match Tar::encode(files) {
            Err(e) => Err(e),
            Ok(tarb) => match zstd_compress(&tarb, 6) {
                Ok(out) => Ok(out),
                Err(m) => Err(ArchiveError::CompressionError(m)),
            },
        }
    }
}

} // verus!
