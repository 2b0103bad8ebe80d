//! The bzip2-compressed TAR format. This compression family is decode-only:
//! the `bzip2_rs` crate offers no encoder, so the encode direction always
//! fails with an `UnsupportedFormat` classification rather than silently
//! degrading.

use vstd::prelude::*;
use std::io::Read;
use crate::error::{message_of, ArchiveError, ArchiveErrorV};
use crate::tar::{tar_decode_spec, Tar};
use crate::types::{file_views, File, FileV};

verus! {

/// The bytes the bzip2 stream `data` decompresses to, or nothing when the
/// stream is invalid: a fixed function of the bytes alone.
pub uninterp spec fn bzip2_decoded(data: Seq<u8>) -> Option<Seq<u8>>;

/// Relies on `bzip2_rs::DecoderReader`: reading it to the end yields the
/// decompressed bytes, or fails exactly when the stream is invalid.
#[verifier::external_body]
fn bzip2_decompress(data: &Vec<u8>) -> (r: Result<Vec<u8>, String>)
    ensures
        match r {
            Ok(v) => bzip2_decoded(data@) == Some(v@),
            Err(_) => bzip2_decoded(data@) is None,
        },
{
    let mut decoder = bzip2_rs::DecoderReader::new(data.as_slice());
    let mut out = Vec::new();
    if let Err(e) = decoder.read_to_end(&mut out) {
        return Err(e.to_string());
    }
    Ok(out)
}

/// What decoding a valid bzip2 stream that holds `tarb` yields: the base TAR
/// decode, with a failure re-tagged as a `tar.bz2` decode failure.
pub open spec fn tarbz_after_decode(tarb: Seq<u8>) -> Result<Seq<FileV>, ArchiveErrorV> {
    match tar_decode_spec(tarb) {
        Ok(fv) => Ok(fv),
        Err(ev) => Err(
            ArchiveErrorV::DecodeFailed { format: "tar.bz2"@, reason: message_of(ev) },
        ),
    }
}

/// Everything [`TarBz::decode`] promises of its result `r` on input `data`.
pub open spec fn tarbz_decode_post(data: Seq<u8>, r: Result<Vec<File>, ArchiveError>) -> bool {
    &&& bzip2_decoded(data) matches Some(tarb) ==> match tarbz_after_decode(tarb) {
        Ok(fv) => r matches Ok(files) && file_views(files@) == fv,
        Err(ev) => r matches Err(e) && e@ == ev,
    }
    &&& bzip2_decoded(data) is None ==> (r matches Err(e) && e@ matches
        ArchiveErrorV::DecompressionError(_))
}

/// Everything [`TarBz::encode`] promises of its result `r`: encoding always
/// fails as unsupported.
pub open spec fn tarbz_encode_post(r: Result<Vec<u8>, ArchiveError>) -> bool {
    r matches Err(e) && e@ == ArchiveErrorV::UnsupportedFormat(
        "tar.bz2 encoding is not supported"@,
    )
}

/// The bzip2-compressed TAR container format (`.tar.bz2`, `.tbz2`, `.tbz`);
/// decode-only.
pub struct TarBz;

impl TarBz {
    /// Decodes a bzip2-compressed TAR stream: decompresses the whole input,
    /// then delegates to the base TAR codec. An invalid bzip2 stream is a
    /// `DecompressionError`; a TAR-level failure is re-tagged `tar.bz2`.
    pub fn decode(buffer: Vec<u8>) -> (r: Result<Vec<File>, ArchiveError>)
        ensures
            tarbz_decode_post(buffer@, r),
    {
        match bzip2_decompress(&buffer) {
            Err(m) => Err(ArchiveError::DecompressionError(m)),
            Ok(tarb) => match Tar::decode(tarb) {
                Ok(files) => Ok(files),
                Err(e) => {
                    let reason = e.message();
                    Err(
                        ArchiveError::DecodeFailed {
                            format: String::from_str("tar.bz2"),
                            reason,
                        },
                    )
                },
            },
        }
    }

    /// Encoding to bzip2 is not implemented: this always fails with
    /// `UnsupportedFormat`, and never produces a partial archive.
    pub fn encode(files: Vec<File>) -> (r: Result<Vec<u8>, ArchiveError>)
        ensures
            tarbz_encode_post(r),
    {
        let _ = files;
        Err(
            ArchiveError::UnsupportedFormat(
                String::from_str("tar.bz2 encoding is not supported"),
            ),
        )
    }
}

} // verus!
