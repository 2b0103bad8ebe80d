//! The codec interface: every container format type implements `Decode`,
//! `Encode`, or both. The contracts live on each type's inherent methods;
//! these traits only name the capability.

use vstd::prelude::*;
use crate::error::ArchiveError;
use crate::seven_zip::SevenZip;
use crate::tar::Tar;
use crate::tar_bz::TarBz;
use crate::tar_gz::TarGz;
use crate::tar_xz::TarXz;
use crate::tar_zstd::TarZstd;
use crate::types::File;
use crate::zip::Zip;

verus! {

/// A codec that can decode archive bytes into entries.
pub trait Decode {
    /// Decodes an archive from a byte buffer.
    fn decode(buffer: Vec<u8>) -> Result<Vec<File>, ArchiveError>;
}

/// A codec that can encode entries into archive bytes.
pub trait Encode {
    /// Encodes entries into an archive.
    fn encode(files: Vec<File>) -> Result<Vec<u8>, ArchiveError>;
}

/// A codec that supports both directions.
pub trait Archive: Encode + Decode {
}

impl Decode for Tar {
    fn decode(buffer: Vec<u8>) -> Result<Vec<File>, ArchiveError> {
        Tar::decode(buffer)
    }
}

impl Encode for Tar {
    fn encode(files: Vec<File>) -> Result<Vec<u8>, ArchiveError> {
        Tar::encode(files)
    }
}

impl Archive for Tar {
}

impl Decode for TarGz {
    fn decode(buffer: Vec<u8>) -> Result<Vec<File>, ArchiveError> {
        TarGz::decode(buffer)
    }
}

impl Encode for TarGz {
    fn encode(files: Vec<File>) -> Result<Vec<u8>, ArchiveError> {
        TarGz::encode(files)
    }
}

impl Archive for TarGz {
}

impl Decode for TarXz {
    fn decode(buffer: Vec<u8>) -> Result<Vec<File>, ArchiveError> {
        TarXz::decode(buffer)
    }
}

impl Encode for TarXz {
    fn encode(files: Vec<File>) -> Result<Vec<u8>, ArchiveError> {
        TarXz::encode(files)
    }
}

impl Archive for TarXz {
}

impl Decode for TarBz {
    fn decode(buffer: Vec<u8>) -> Result<Vec<File>, ArchiveError> {
        TarBz::decode(buffer)
    }
}

impl Encode for TarBz {
    fn encode(files: Vec<File>) -> Result<Vec<u8>, ArchiveError> {
        TarBz::encode(files)
    }
}

impl Archive for TarBz {
}

impl Decode for TarZstd {
    fn decode(buffer: Vec<u8>) -> Result<Vec<File>, ArchiveError> {
        TarZstd::decode(buffer)
    }
}

impl Encode for TarZstd {
    fn encode(files: Vec<File>) -> Result<Vec<u8>, ArchiveError> {
        TarZstd::encode(files)
    }
}

impl Archive for TarZstd {
}

impl Decode for Zip {
    fn decode(buffer: Vec<u8>) -> Result<Vec<File>, ArchiveError> {
        Zip::decode(buffer)
    }
}

impl Encode for Zip {
    fn encode(files: Vec<File>) -> Result<Vec<u8>, ArchiveError> {
        Zip::encode(files)
    }
}

impl Archive for Zip {
}

impl Decode for SevenZip {
    fn decode(buffer: Vec<u8>) -> Result<Vec<File>, ArchiveError> {
        SevenZip::decode(buffer)
    }
}

impl Encode for SevenZip {
    fn encode(files: Vec<File>) -> Result<Vec<u8>, ArchiveError> {
        SevenZip::encode(files)
    }
}

impl Archive for SevenZip {
}

} // verus!
