//! The XZ-compressed TAR format: a compression transform layered on the base
//! TAR codec. The XZ coding itself is done by `liblzma` behind trusted
//! wrappers; the layering and error classification are verified.

use vstd::prelude::*;
use std::io::Read;
use std::io::Write;
use crate::error::{message_of, ArchiveError, ArchiveErrorV};
use crate::tar::{tar_decode_spec, tar_encode_spec, Tar};
use crate::types::{file_views, File, FileV};

verus! {

/// The bytes the XZ stream `data` decompresses to, or nothing when the
/// stream is invalid: a fixed function of the bytes alone.
pub uninterp spec fn xz_decoded(data: Seq<u8>) -> Option<Seq<u8>>;

/// The XZ stream `liblzma` produces for `data` at the given preset: an XZ
/// stream carries no timestamps, so it is a function of the bytes and the
/// preset alone.
pub uninterp spec fn xz_encoded(data: Seq<u8>, level: u32) -> Seq<u8>;

/// Relies on `liblzma::bufread::XzDecoder`: reading it to the end yields the
/// decompressed bytes, or fails exactly when the stream is invalid.
#[verifier::external_body]
fn xz_decompress(data: &Vec<u8>) -> (r: Result<Vec<u8>, String>)
    ensures
        match r {
            Ok(v) => xz_decoded(data@) == Some(v@),
            Err(_) => xz_decoded(data@) is None,
        },
{
    let mut decoder = liblzma::bufread::XzDecoder::new(data.as_slice());
    let mut out = Vec::new();
    if let Err(e) = decoder.read_to_end(&mut out) {
        return Err(e.to_string());
    }
    Ok(out)
}

/// Relies on `liblzma::write::XzEncoder`: writing the input and finishing
/// yields the XZ stream for the input at the given preset. Compressing into
/// memory cannot fail (allocation aside), and the stream starts with the
/// twelve-byte stream header, so it is never empty.
#[verifier::external_body]
fn xz_compress(data: &Vec<u8>, level: u32) -> (r: Result<Vec<u8>, String>)
    ensures
        r is Ok,
        r matches Ok(v) ==> v@ == xz_encoded(data@, level) && v@.len() > 0,
{
    let mut encoder = liblzma::write::XzEncoder::new(Vec::new(), level);
    if let Err(e) = encoder.write_all(data.as_slice()) {
        return Err(e.to_string());
    }
    match encoder.finish() {
        Ok(out) => Ok(out),
        Err(e) => Err(e.to_string()),
    }
}

/// What decoding a valid XZ stream that holds `tarb` yields: the base TAR
/// decode, with a failure re-tagged as a `tar.xz` decode failure.
pub open spec fn tarxz_after_decode(tarb: Seq<u8>) -> Result<Seq<FileV>, ArchiveErrorV> {
    match tar_decode_spec(tarb) {
        Ok(fv) => Ok(fv),
        Err(ev) => Err(
            ArchiveErrorV::DecodeFailed { format: "tar.xz"@, reason: message_of(ev) },
        ),
    }
}

/// Everything [`TarXz::decode`] promises of its result `r` on input
/// `data`.
pub open spec fn tarxz_decode_post(data: Seq<u8>, r: Result<Vec<File>, ArchiveError>) -> bool {
    &&& xz_decoded(data) matches Some(tarb) ==> match tarxz_after_decode(tarb) {
        Ok(fv) => r matches Ok(files) && file_views(files@) == fv,
        Err(ev) => r matches Err(e) && e@ == ev,
    }
    &&& xz_decoded(data) is None ==> (r matches Err(e) && e@ matches
        ArchiveErrorV::DecompressionError(_))
}

/// Everything [`TarXz::encode`] promises of its result `r` for the
/// entries `files`.
pub open spec fn tarxz_encode_post(files: Seq<FileV>, r: Result<Vec<u8>, ArchiveError>) -> bool {
    match tar_encode_spec(files) {
        Err(ev) => r matches Err(e) && e@ == ev,
        Ok(tarb) => r matches Ok(b) && b@ == xz_encoded(tarb, 6) && b@.len() > 0,
    }
}

/// The XZ-compressed TAR container format (`.tar.xz`, `.txz`).
pub struct TarXz;

impl TarXz {
    /// Decodes an XZ-compressed TAR stream: decompresses the whole input,
    /// then delegates to the base TAR codec. An invalid XZ stream is a
    /// `DecompressionError`; a TAR-level failure is re-tagged `tar.xz`.
    pub fn decode(buffer: Vec<u8>) -> (r: Result<Vec<File>, ArchiveError>)
        ensures
            tarxz_decode_post(buffer@, r),
    {
        match xz_decompress(&buffer) {
            Err(m) => Err(ArchiveError::DecompressionError(m)),
            Ok(tarb) => match Tar::decode(tarb) {
                Ok(files) => Ok(files),
                Err(e) => {
                    let reason = e.message();
                    Err(
                        ArchiveError::DecodeFailed {
                            format: String::from_str("tar.xz"),
                            reason,
                        },
                    )
                },
            },
        }
    }

    /// Encodes entries as an XZ-compressed TAR stream: the base TAR encode
    /// (with its duplicate check) followed by XZ at the balanced default
    /// preset 6.
    pub fn encode(files: Vec<File>) -> (r: Result<Vec<u8>, ArchiveError>)
        ensures
            tarxz_encode_post(file_views(files@), r),
    {
        match Tar::encode(files) {
            Err(e) => Err(e),
            Ok(tarb) => match xz_compress(&tarb, 6) {
                Ok(out) => Ok(out),
                Err(m) => Err(ArchiveError::CompressionError(m)),
            },
        }
    }
}

} // verus!
