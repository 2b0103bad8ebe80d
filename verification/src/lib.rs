//! A uniform model of archive members (path, content, permissions, timestamp)
//! with encoders and decoders for TAR (plain and compressed), ZIP and 7z
//! containers, a filename-based format guesser, lexical path normalization,
//! and duplicate-path validation.

pub mod error;
pub mod paths;
pub mod seven_zip;
pub mod strutil;
pub mod tar;
pub mod tar_bz;
pub mod tar_gz;
pub mod tar_xz;
pub mod tar_zstd;
pub mod traits;
pub mod types;
pub mod utils;
pub mod zip;

pub use error::ArchiveError;
pub use paths::clean;
pub use traits::{Archive, Decode, Encode};
pub use types::{File, Fmt};
pub use utils::{check_duplicate_files, human_size, mode_to_string};
