//! The entry model: a `File` is one member of an archive, and `Fmt` names a
//! container format and dispatches to its codec.

use vstd::prelude::*;
use crate::error::ArchiveError;
use crate::seven_zip::{sevenz_decode_post, sevenz_encode_post, SevenZip};
use crate::paths::views_of_strs;
use crate::strutil::{str_ends_with, suffix_of};
use crate::tar::{tar_decode_post, tar_encode_post, Tar};
use crate::tar_bz::{tarbz_decode_post, tarbz_encode_post, TarBz};
use crate::tar_gz::{targz_decode_post, targz_encode_post, TarGz};
use crate::tar_xz::{tarxz_decode_post, tarxz_encode_post, TarXz};
use crate::tar_zstd::{tarzstd_decode_post, tarzstd_encode_post, TarZstd};
use crate::zip::{zip_decode_post, zip_encode_post, Zip};

verus! {

/// Mathematical model of a [`File`]: every contract about entries speaks of
/// this view rather than of the heap values themselves.
pub struct FileV {
    pub path: Seq<char>,
    pub buffer: Seq<u8>,
    pub mode: Option<u32>,
    pub is_dir: bool,
    pub last_modified: Option<u64>,
}

/// One member of an archive: a relative path, raw content bytes (empty for
/// directories), optional Unix permission bits, a directory flag, and an
/// optional modification time in Unix seconds.
#[derive(Debug)]
pub struct File {
    /// The file content as raw bytes.
    pub buffer: Vec<u8>,
    /// The relative path of the entry within the archive.
    pub path: String,
    /// Unix permission bits, e.g. `0o644`; `None` means "format default".
    pub mode: Option<u32>,
    /// Whether this entry is a directory.
    pub is_dir: bool,
    /// Modification time in seconds since the Unix epoch, if known.
    pub last_modified: Option<u64>,
}

impl View for File {
    type V = FileV;

    open spec fn view(&self) -> FileV {
        FileV {
            path: self.path@,
            buffer: self.buffer@,
            mode: self.mode,
            is_dir: self.is_dir,
            last_modified: self.last_modified,
        }
    }
}

/// The views of a sequence of entries, in order.
pub open spec fn file_views(files: Seq<File>) -> Seq<FileV> {
    files.map_values(|f: File| f@)
}

/// The paths of a sequence of entry views, in order.
pub open spec fn paths_of(files: Seq<FileV>) -> Seq<Seq<char>> {
    files.map_values(|f: FileV| f.path)
}

impl File {
    /// Builds an entry from its parts.
    pub fn new(
        path: String,
        buffer: Vec<u8>,
        mode: Option<u32>,
        is_dir: bool,
        last_modified: Option<u64>,
    ) -> (r: Self)
        ensures
            r@ == (FileV { path: path@, buffer: buffer@, mode, is_dir, last_modified }),
    {
        File { path, buffer, mode, is_dir, last_modified }
    }
}

impl File {
    /// Consumes the entry and hands out its content bytes.
    pub fn get_buffer(self) -> (r: Vec<u8>)
        ensures
            r@ == self@.buffer,
    {
        self.buffer
    }

    /// Replaces the content bytes.
    pub fn set_buffer(&mut self, buffer: Vec<u8>)
        ensures
            final(self)@ == (FileV { buffer: buffer@, ..old(self)@ }),
    {
        self.buffer = buffer;
    }

    /// The entry's path.
    pub fn get_path(&self) -> (r: String)
        ensures
            r@ == self@.path,
    {
        self.path.clone()
    }

    /// Replaces the entry's path.
    pub fn set_path(&mut self, path: String)
        ensures
            final(self)@ == (FileV { path: path@, ..old(self)@ }),
    {
        self.path = path;
    }

    /// The content size in bytes.
    pub fn buffer_size(&self) -> (r: usize)
        ensures
            r == self@.buffer.len(),
    {
        self.buffer.len()
    }
}

impl Default for File {
    /// The empty entry: no path, no content, no metadata, not a directory.
    fn default() -> (r: Self)
        ensures
            r@ == (FileV {
                path: Seq::<char>::empty(),
                buffer: Seq::<u8>::empty(),
                mode: None,
                is_dir: false,
                last_modified: None,
            }),
    {
        File {
            buffer: Vec::new(),
            path: String::new(),
            mode: None,
            is_dir: false,
            last_modified: None,
        }
    }
}

impl Clone for File {
    /// A clone carries the same view.
    fn clone(&self) -> (r: Self)
        ensures
            r@ == self@,
    {
        let buffer = clone_bytes(&self.buffer);
        File {
            buffer,
            path: self.path.clone(),
            mode: self.mode,
            is_dir: self.is_dir,
            last_modified: self.last_modified,
        }
    }
}

/// An archive container format. The declaration order is the tie-break rule
/// of [`Fmt::guess`]: the first format whose extension matches wins.
#[derive(Debug, Clone, Copy, PartialEq, Eq, Structural)]
pub enum Fmt {
    /// Plain TAR (`.tar`).
    Tar,
    /// Gzip-compressed TAR (`.tar.gz`, `.tgz`).
    TarGz,
    /// XZ-compressed TAR (`.tar.xz`, `.txz`).
    TarXz,
    /// Bzip2-compressed TAR (`.tar.bz2`, `.tbz2`, `.tbz`); decode-only.
    TarBz,
    /// Zstd-compressed TAR (`.tzstd`, `.tzst`, `.tar.zst`).
    TarZstd,
    /// ZIP (`.zip`).
    Zip,
    /// 7z (`.7z`).
    SevenZip,
}

/// The recognized filename suffixes of `fmt`, in their fixed order.
pub open spec fn extensions_of(fmt: Fmt) -> Seq<Seq<char>> {
    match fmt {
        Fmt::Tar => seq![".tar"@],
        Fmt::TarGz => seq![".tar.gz"@, ".tgz"@],
        Fmt::TarXz => seq![".tar.xz"@, ".txz"@],
        Fmt::TarBz => seq![".tar.bz2"@, ".tbz2"@, ".tbz"@],
        Fmt::TarZstd => seq![".tzstd"@, ".tzst"@, ".tar.zst"@],
        Fmt::Zip => seq![".zip"@],
        Fmt::SevenZip => seq![".7z"@],
    }
}

/// All formats, in their fixed declaration order.
pub open spec fn fmt_order() -> Seq<Fmt> {
    seq![
        Fmt::Tar,
        Fmt::TarGz,
        Fmt::TarXz,
        Fmt::TarBz,
        Fmt::TarZstd,
        Fmt::Zip,
        Fmt::SevenZip,
    ]
}

/// Does some recognized suffix of `fmt` end the filename `name`?
pub open spec fn fmt_matches(fmt: Fmt, name: Seq<char>) -> bool {
    exists|i: int|
        0 <= i < extensions_of(fmt).len() && suffix_of(#[trigger] extensions_of(fmt)[i], name)
}

/// The first format in `fmts` that matches `name`, if any.
pub open spec fn guess_from(fmts: Seq<Fmt>, name: Seq<char>) -> Option<Fmt>
    decreases fmts.len(),
{
    if fmts.len() == 0 {
        None
    } else if fmt_matches(fmts.first(), name) {
        Some(fmts.first())
    } else {
        guess_from(fmts.drop_first(), name)
    }
}

/// What [`Fmt::guess`] returns for the filename `name`: the first format, in
/// declaration order, one of whose suffixes ends `name`.
pub open spec fn guess_spec(name: Seq<char>) -> Option<Fmt> {
    guess_from(fmt_order(), name)
}

impl Fmt {
    /// All formats, in the declaration order that [`Fmt::guess`] searches.
    pub fn all() -> (r: Vec<Fmt>)
        ensures
            r@ == fmt_order(),
    {
        let mut v: Vec<Fmt> = Vec::new();
        v.push(Fmt::Tar);
        v.push(Fmt::TarGz);
        v.push(Fmt::TarXz);
        v.push(Fmt::TarBz);
        v.push(Fmt::TarZstd);
        v.push(Fmt::Zip);
        v.push(Fmt::SevenZip);
        proof {
            assert(v@ =~= fmt_order());
        }
        v
    }

    /// The filename suffixes this format recognizes, in their fixed order.
    pub fn extensions(&self) -> (r: Vec<&'static str>)
        ensures
            views_of_strs(r@) == extensions_of(*self),
    {
        let mut v: Vec<&'static str> = Vec::new();
        match self {
            Fmt::Tar => {
                v.push(".tar");
            },
            Fmt::TarGz => {
                v.push(".tar.gz");
                v.push(".tgz");
            },
            Fmt::TarXz => {
                v.push(".tar.xz");
                v.push(".txz");
            },
            Fmt::TarBz => {
                v.push(".tar.bz2");
                v.push(".tbz2");
                v.push(".tbz");
            },
            Fmt::TarZstd => {
                v.push(".tzstd");
                v.push(".tzst");
                v.push(".tar.zst");
            },
            Fmt::Zip => {
                v.push(".zip");
            },
            Fmt::SevenZip => {
                v.push(".7z");
            },
        }
        proof {
            assert(views_of_strs(v@) =~= extensions_of(*self));
        }
        v
    }

    /// Guesses the format of a filename by its suffix.
    ///
    /// Formats are tried in declaration order and, within one format, its
    /// suffixes in their fixed order; the first match wins — no longest-match
    /// rule. `None` when no suffix matches.
    pub fn guess(name: &str) -> (r: Option<Fmt>)
        ensures
            r == guess_spec(name@),
    {
        let fmts = Fmt::all();
        let nf = fmts.len();
        let mut i: usize = 0;
        proof {
            assert(fmt_order().skip(0) =~= fmt_order());
        }
        while i < nf
            invariant
                nf == fmt_order().len(),
                fmts@ == fmt_order(),
                i <= nf,
                guess_spec(name@) == guess_from(fmt_order().skip(i as int), name@),
            decreases nf - i,
        {
            let fmt = fmts[i];
            let exts = fmt.extensions();
            let ne = exts.len();
            let mut k: usize = 0;
            while k < ne
                invariant
                    nf == fmt_order().len(),
                    i < nf,
                    fmt == fmt_order()[i as int],
                    guess_spec(name@) == guess_from(fmt_order().skip(i as int), name@),
                    ne == extensions_of(fmt).len(),
                    views_of_strs(exts@) == extensions_of(fmt),
                    k <= ne,
                    forall|j: int| 0 <= j < k ==> !suffix_of(extensions_of(fmt)[j], name@),
                decreases ne - k,
            {
                if str_ends_with(name, exts[k]) {
                    proof {
                        assert(extensions_of(fmt)[k as int] == exts@[k as int]@);
                        assert(fmt_matches(fmt, name@));
                        let rest = fmt_order().skip(i as int);
                        assert(rest.len() == nf - i);
                        assert(rest.first() == fmt_order()[i as int]);
                        assert(guess_from(rest, name@) == Some(fmt));
                    }
                    return Some(fmt);
                }
                proof {
                    assert(extensions_of(fmt)[k as int] == exts@[k as int]@);
                }
                k += 1;
            }
            proof {
                assert(!fmt_matches(fmt, name@));
                let rest = fmt_order().skip(i as int);
                assert(rest.first() == fmt);
                assert(rest.drop_first() =~= fmt_order().skip(i + 1));
            }
            i += 1;
        }
        proof {
            assert(fmt_order().skip(nf as int).len() == 0);
        }
        None
    }

    /// Decodes archive bytes with this format's codec; pure dispatch.
    pub fn decode(&self, buffer: Vec<u8>) -> (r: Result<Vec<File>, ArchiveError>)
        ensures
            match *self {
                Fmt::Tar => tar_decode_post(buffer@, r),
                Fmt::TarGz => targz_decode_post(buffer@, r),
                Fmt::TarXz => tarxz_decode_post(buffer@, r),
                Fmt::TarBz => tarbz_decode_post(buffer@, r),
                Fmt::TarZstd => tarzstd_decode_post(buffer@, r),
                Fmt::Zip => zip_decode_post(buffer@, r),
                Fmt::SevenZip => sevenz_decode_post(buffer@, r),
            },
    {
        match self {
            Fmt::Tar => Tar::decode(buffer),
            Fmt::TarGz => TarGz::decode(buffer),
            Fmt::TarXz => TarXz::decode(buffer),
            Fmt::TarBz => TarBz::decode(buffer),
            Fmt::TarZstd => TarZstd::decode(buffer),
            Fmt::Zip => Zip::decode(buffer),
            Fmt::SevenZip => SevenZip::decode(buffer),
        }
    }

    /// Encodes entries with this format's codec; pure dispatch.
    pub fn encode(&self, files: Vec<File>) -> (r: Result<Vec<u8>, ArchiveError>)
        ensures
            match *self {
                Fmt::Tar => tar_encode_post(file_views(files@), r),
                Fmt::TarGz => targz_encode_post(file_views(files@), r),
                Fmt::TarXz => tarxz_encode_post(file_views(files@), r),
                Fmt::TarBz => tarbz_encode_post(r),
                Fmt::TarZstd => tarzstd_encode_post(file_views(files@), r),
                Fmt::Zip => zip_encode_post(file_views(files@), r),
                Fmt::SevenZip => sevenz_encode_post(file_views(files@), r),
            },
    {
        match self {
            Fmt::Tar => Tar::encode(files),
            Fmt::TarGz => TarGz::encode(files),
            Fmt::TarXz => TarXz::encode(files),
            Fmt::TarBz => TarBz::encode(files),
            Fmt::TarZstd => TarZstd::encode(files),
            Fmt::Zip => Zip::encode(files),
            Fmt::SevenZip => SevenZip::encode(files),
        }
    }
}

/// Copies a byte vector; unlike a generic `Vec::clone`, the contract keeps
/// the view.
pub fn clone_bytes(v: &Vec<u8>) -> (r: Vec<u8>)
    ensures
        r@ == v@,
{
    let mut out: Vec<u8> = Vec::new();
    let n = v.len();
    for i in 0..n
        invariant
            n == v@.len(),
            out@ == v@.take(i as int),
    {
        out.push(v[i]);
        assert(out@ =~= v@.take(i + 1));
    }
    assert(out@ =~= v@);
    out
}

} // verus!

