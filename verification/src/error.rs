//! The failure taxonomy shared by every codec. Each operation either returns
//! its value or one of these classified errors; there is no partial success.

use vstd::prelude::*;

verus! {

/// Mathematical model of an [`ArchiveError`].
pub enum ArchiveErrorV {
    DecodeFailed { format: Seq<char>, reason: Seq<char> },
    EncodeFailed { format: Seq<char>, reason: Seq<char> },
    DuplicateFiles { paths: Seq<Seq<char>> },
    UnsupportedFormat(Seq<char>),
    InvalidArchive(Seq<char>),
    CompressionError(Seq<char>),
    DecompressionError(Seq<char>),
}

/// A classified failure of a decode or encode operation.
#[derive(Debug)]
pub enum ArchiveError {
    /// A malformed or truncated container, or an underlying parser rejection,
    /// tagged with the format that was being decoded.
    DecodeFailed { format: String, reason: String },
    /// An underlying container-writer rejection; the whole encode is aborted.
    EncodeFailed { format: String, reason: String },
    /// Two or more entries share a path at encode time; all offending paths
    /// are reported.
    DuplicateFiles { paths: Vec<String> },
    /// The format/operation combination is not implemented.
    UnsupportedFormat(String),
    /// Structurally valid container bytes with semantically invalid content.
    InvalidArchive(String),
    /// A failure in the compression step of an adapter.
    CompressionError(String),
    /// A failure in the decompression step of an adapter.
    DecompressionError(String),
}

impl View for ArchiveError {
    type V = ArchiveErrorV;

    open spec fn view(&self) -> ArchiveErrorV {
        match self {
            ArchiveError::DecodeFailed { format, reason } => ArchiveErrorV::DecodeFailed {
                format: format@,
                reason: reason@,
            },
            ArchiveError::EncodeFailed { format, reason } => ArchiveErrorV::EncodeFailed {
                format: format@,
                reason: reason@,
            },
            ArchiveError::DuplicateFiles { paths } => ArchiveErrorV::DuplicateFiles {
                paths: paths@.map_values(|p: String| p@),
            },
            ArchiveError::UnsupportedFormat(s) => ArchiveErrorV::UnsupportedFormat(s@),
            ArchiveError::InvalidArchive(s) => ArchiveErrorV::InvalidArchive(s@),
            ArchiveError::CompressionError(s) => ArchiveErrorV::CompressionError(s@),
            ArchiveError::DecompressionError(s) => ArchiveErrorV::DecompressionError(s@),
        }
    }
}

/// The paths `ps` joined by `", "`.
pub open spec fn joined_paths(ps: Seq<Seq<char>>) -> Seq<char>
    decreases ps.len(),
{
    if ps.len() == 0 {
        Seq::empty()
    } else if ps.len() == 1 {
        ps[0]
    } else {
        joined_paths(ps.drop_last()) + ", "@ + ps.last()
    }
}

/// The text that [`ArchiveError::message`] renders for the model `e`.
pub open spec fn message_of(e: ArchiveErrorV) -> Seq<char> {
    match e {
        ArchiveErrorV::DecodeFailed { format, reason } => "failed to decode "@ + format
            + " archive: "@ + reason,
        ArchiveErrorV::EncodeFailed { format, reason } => "failed to encode "@ + format
            + " archive: "@ + reason,
        ArchiveErrorV::DuplicateFiles { paths } => "duplicate file paths detected: "@
            + joined_paths(paths),
        ArchiveErrorV::UnsupportedFormat(s) => "unsupported format: "@ + s,
        ArchiveErrorV::InvalidArchive(s) => "invalid archive structure: "@ + s,
        ArchiveErrorV::CompressionError(s) => "compression error: "@ + s,
        ArchiveErrorV::DecompressionError(s) => "decompression error: "@ + s,
    }
}

impl ArchiveError {
    /// A human-readable description of the failure.
    pub fn message(&self) -> (r: String)
        ensures
            r@ == message_of(self@),
    {
        match self {
            ArchiveError::DecodeFailed { format, reason } => String::from_str(
                "failed to decode ",
            ).concat(format.as_str()).concat(" archive: ").concat(reason.as_str()),
            ArchiveError::EncodeFailed { format, reason } => String::from_str(
                "failed to encode ",
            ).concat(format.as_str()).concat(" archive: ").concat(reason.as_str()),
            ArchiveError::DuplicateFiles { paths } => {
                let mut r = String::from_str("duplicate file paths detected: ");
                let n = paths.len();
                for i in 0..n
                    invariant
                        n == paths@.len(),
                        r@ == "duplicate file paths detected: "@ + joined_paths(
                            paths@.map_values(|p: String| p@).take(i as int),
                        ),
                {
                    if i > 0 {
                        r.append(", ");
                    }
                    r.append(paths[i].as_str());
                    proof {
                        let views = paths@.map_values(|p: String| p@);
                        assert(views.take(i + 1).drop_last() =~= views.take(i as int));
                        assert(views.take(i + 1).last() == views[i as int]);
                    }
                }
                proof {
                    let views = paths@.map_values(|p: String| p@);
                    assert(views.take(n as int) =~= views);
                }
                r
            },
            ArchiveError::UnsupportedFormat(s) => String::from_str("unsupported format: ").concat(
                s.as_str(),
            ),
            ArchiveError::InvalidArchive(s) => String::from_str(
                "invalid archive structure: ",
            ).concat(s.as_str()),
            ArchiveError::CompressionError(s) => String::from_str("compression error: ").concat(
                s.as_str(),
            ),
            ArchiveError::DecompressionError(s) => String::from_str(
                "decompression error: ",
            ).concat(s.as_str()),
        }
    }
}

} // verus!
