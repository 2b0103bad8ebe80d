//! The base TAR codec. Reading and writing of the raw container records is
//! done by the `tar` crate behind trusted wrappers; everything the layer adds
//! — skipping `pax_global_header` pseudo-entries, deriving the directory
//! flag, normalizing paths, applying defaults, and rejecting duplicates — is
//! verified.

use vstd::prelude::*;
use std::io::Cursor;
use std::io::Read;
use crate::error::{ArchiveError, ArchiveErrorV};
use crate::paths::{clean, clean_spec};
use crate::strutil::{ends_with_slash, str_eq};
use crate::types::{clone_bytes, file_views, paths_of, File, FileV};
use crate::utils::{check_duplicate_files, dup_list, lemma_paths_of_views};

verus! {

/// Model of one raw record read from a TAR stream, before this layer's own
/// processing.
pub struct RawTarV {
    pub path: Seq<char>,
    pub buffer: Seq<u8>,
    pub mode: Option<u32>,
    pub mtime: Option<u64>,
}

/// One raw record read from a TAR stream: the header path as stored, the
/// content bytes, and the header's mode and modification time where they
/// could be parsed.
pub struct RawTarEntry {
    pub path: String,
    pub buffer: Vec<u8>,
    pub mode: Option<u32>,
    pub mtime: Option<u64>,
}

impl View for RawTarEntry {
    type V = RawTarV;

    open spec fn view(&self) -> RawTarV {
        RawTarV { path: self.path@, buffer: self.buffer@, mode: self.mode, mtime: self.mtime }
    }
}

/// The views of a sequence of raw records.
pub open spec fn raw_tar_views(s: Seq<RawTarEntry>) -> Seq<RawTarV> {
    s.map_values(|e: RawTarEntry| e@)
}

/// What parsing a TAR stream yields: its records in order, or the failure
/// that stopped it — a read fault, or a header path that could not be read.
pub enum TarParsed {
    Entries(Seq<RawTarV>),
    ReadFault(Seq<char>),
    PathFault(Seq<char>),
}

/// The records of the TAR stream `data`, as the `tar` crate parses it: a
/// fixed function of the bytes alone.
pub uninterp spec fn tar_parse(data: Seq<u8>) -> TarParsed;

/// Relies on the `tar` crate: `Archive::entries` iterates the stream's
/// records, `header().path()`, `mode()` and `mtime()` read header fields, and
/// `read_to_end` yields a record's content. A failure is the fault message
/// paired with a flag that is true only for an unreadable header path.
#[verifier::external_body]
fn tar_read_all(data: &Vec<u8>) -> (r: Result<Vec<RawTarEntry>, (bool, String)>)
    ensures
        match r {
            Ok(v) => tar_parse(data@) == TarParsed::Entries(raw_tar_views(v@)),
            Err((true, m)) => tar_parse(data@) == TarParsed::PathFault(m@),
            Err((false, m)) => tar_parse(data@) == TarParsed::ReadFault(m@),
        },
{
    let mut archive = tar::Archive::new(Cursor::new(data.as_slice()));
    let rd = |x: std::io::Error| (false, x.to_string());
    let mut out = Vec::new();
    for entry in archive.entries().map_err(rd)? {
        let mut f = entry.map_err(rd)?;
        let path = f.header().path().map_err(|x| (true, x.to_string()))?.to_string_lossy().to_string();
        let mut buffer = Vec::new();
        f.read_to_end(&mut buffer).map_err(rd)?;
        out.push(RawTarEntry { mode: f.header().mode().ok(), mtime: f.header().mtime().ok(), path, buffer });
    }
    Ok(out)
}

/// Is `p` the PAX global-header pseudo-entry name?
pub open spec fn is_pax_global(p: Seq<char>) -> bool {
    p == "pax_global_header"@
}

/// The entry this layer derives from one raw TAR record: the directory flag
/// comes from a trailing `/` on the raw path, and the path is then cleaned.
pub open spec fn tar_file_of(r: RawTarV) -> FileV {
    FileV {
        path: clean_spec(r.path),
        buffer: r.buffer,
        mode: r.mode,
        is_dir: r.path.len() > 0 && r.path.last() == '/',
        last_modified: r.mtime,
    }
}

/// The decoded entry list for a sequence of raw TAR records: every record in
/// order, except `pax_global_header` pseudo-entries, which are dropped.
pub open spec fn tar_files_of(raws: Seq<RawTarV>) -> Seq<FileV>
    decreases raws.len(),
{
    if raws.len() == 0 {
        Seq::empty()
    } else {
        let rest = tar_files_of(raws.drop_last());
        if is_pax_global(raws.last().path) {
            rest
        } else {
            rest.push(tar_file_of(raws.last()))
        }
    }
}

/// A `pax_global_header` pseudo-entry leaves no trace: decoding a record
/// sequence that holds one yields exactly the entries of the sequence with
/// that record removed.
pub proof fn lemma_pax_skip(raws: Seq<RawTarV>, i: int)
    requires
        0 <= i < raws.len(),
        is_pax_global(raws[i].path),
    ensures
        tar_files_of(raws) == tar_files_of(raws.remove(i)),
    decreases raws.len(),
{
    if i == raws.len() - 1 {
        assert(raws.remove(i) =~= raws.drop_last());
    } else {
        assert(raws.remove(i).drop_last() =~= raws.drop_last().remove(i));
        assert(raws.remove(i).last() == raws.last());
        assert(raws.drop_last()[i] == raws[i]);
        lemma_pax_skip(raws.drop_last(), i);
    }
}

/// Model of one record as handed to the TAR writer, with every field
/// resolved.
pub struct TarWriteV {
    pub path: Seq<char>,
    pub data: Seq<u8>,
    pub mode: u32,
    pub uid: u64,
    pub gid: u64,
    pub mtime: u64,
}

/// One record as handed to the TAR writer.
pub struct TarWriteEntry {
    pub path: String,
    pub data: Vec<u8>,
    pub mode: u32,
    pub uid: u64,
    pub gid: u64,
    pub mtime: u64,
}

impl View for TarWriteEntry {
    type V = TarWriteV;

    open spec fn view(&self) -> TarWriteV {
        TarWriteV {
            path: self.path@,
            data: self.data@,
            mode: self.mode,
            uid: self.uid,
            gid: self.gid,
            mtime: self.mtime,
        }
    }
}

/// The views of a sequence of writer records.
pub open spec fn tar_write_views(s: Seq<TarWriteEntry>) -> Seq<TarWriteV> {
    s.map_values(|e: TarWriteEntry| e@)
}

/// The bytes the `tar` crate writes for the resolved records `entries`, or
/// the message of the write fault that stopped it: a fixed function of the
/// records alone.
pub uninterp spec fn tar_build(entries: Seq<TarWriteV>) -> Result<Seq<u8>, Seq<char>>;

/// Relies on the `tar` crate: `Builder::append_data` writes one record's
/// header (size, mode, uid, gid, mtime, checksum) and content, and `finish`
/// writes the end-of-archive padding — two 512-byte blocks, so a successful
/// stream is never empty.
#[verifier::external_body]
fn tar_write_all(entries: &Vec<TarWriteEntry>) -> (r: Result<Vec<u8>, String>)
    ensures
        match r {
            Ok(v) => tar_build(tar_write_views(entries@)) == Ok::<Seq<u8>, Seq<char>>(v@)
                && v@.len() > 0,
            Err(m) => tar_build(tar_write_views(entries@)) == Err::<Seq<u8>, Seq<char>>(m@),
        },
{
    let mut buffer: Vec<u8> = Vec::new();
    let mut builder = tar::Builder::new(&mut buffer);
    for e in entries.iter() {
        let mut h = tar::Header::new_gnu();
        h.set_size(e.data.len() as u64);
        h.set_mode(e.mode);
        h.set_uid(e.uid);
        h.set_gid(e.gid);
        h.set_mtime(e.mtime);
        h.set_cksum();
        builder.append_data(&mut h, &e.path, &e.data[..]).map_err(|x| x.to_string())?;
    }
    builder.finish().map_err(|x| x.to_string())?;
    drop(builder);
    Ok(buffer)
}

/// The writer record for the entry `f`: mode defaults to `0o644`, the
/// modification time to `0`, and the owning ids are fixed at `0`/`0`.
pub open spec fn tar_write_of(f: FileV) -> TarWriteV {
    TarWriteV {
        path: f.path,
        data: f.buffer,
        mode: match f.mode {
            Some(m) => m,
            None => 0o644,
        },
        uid: 0,
        gid: 0,
        mtime: match f.last_modified {
            Some(t) => t,
            None => 0,
        },
    }
}

/// The resolved writer records for the entries `files`, in order.
pub open spec fn tar_writes_of(files: Seq<FileV>) -> Seq<TarWriteV> {
    files.map_values(|f: FileV| tar_write_of(f))
}

/// What decoding the TAR stream `data` yields: the derived entries, or the
/// classified failure.
pub open spec fn tar_decode_spec(data: Seq<u8>) -> Result<Seq<FileV>, ArchiveErrorV> {
    match tar_parse(data) {
        TarParsed::Entries(raws) => Ok(tar_files_of(raws)),
        TarParsed::ReadFault(m) => Err(ArchiveErrorV::DecodeFailed { format: "tar"@, reason: m }),
        TarParsed::PathFault(m) => Err(ArchiveErrorV::InvalidArchive(m)),
    }
}

/// What encoding the entries `files` as TAR yields: duplicate paths are
/// rejected first, then the TAR writer runs on the resolved records.
pub open spec fn tar_encode_spec(files: Seq<FileV>) -> Result<Seq<u8>, ArchiveErrorV> {
    let dups = dup_list(paths_of(files));
    if dups.len() > 0 {
        Err(ArchiveErrorV::DuplicateFiles { paths: dups })
    } else {
        match tar_build(tar_writes_of(files)) {
            Ok(bytes) => Ok(bytes),
            Err(m) => Err(ArchiveErrorV::EncodeFailed { format: "tar"@, reason: m }),
        }
    }
}

/// Everything [`Tar::decode`] promises of its result `r` on input `data`.
pub open spec fn tar_decode_post(data: Seq<u8>, r: Result<Vec<File>, ArchiveError>) -> bool {
    match tar_decode_spec(data) {
        Ok(fv) => r matches Ok(files) && file_views(files@) == fv,
        Err(ev) => r matches Err(e) && e@ == ev,
    }
}

/// Everything [`Tar::encode`] promises of its result `r` for the entries
/// `files`.
pub open spec fn tar_encode_post(files: Seq<FileV>, r: Result<Vec<u8>, ArchiveError>) -> bool {
    match tar_encode_spec(files) {
        Ok(bytes) => r matches Ok(b) && b@ == bytes && b@.len() > 0,
        Err(ev) => r matches Err(e) && e@ == ev,
    }
}

/// The plain TAR container format.
pub struct Tar;

impl Tar {
    /// Decodes a TAR stream into its entries.
    ///
    /// Each record becomes one entry: the directory flag is taken from a
    /// trailing `/` of the raw header path, the path is then cleaned, and
    /// `pax_global_header` pseudo-entries are skipped. A read fault is a
    /// `DecodeFailed`, an unreadable header path an `InvalidArchive`.
    pub fn decode(buffer: Vec<u8>) -> (r: Result<Vec<File>, ArchiveError>)
        ensures
            tar_decode_post(buffer@, r),
    {
        match tar_read_all(&buffer) {
            Err((false, m)) => Err(
                ArchiveError::DecodeFailed { format: String::from_str("tar"), reason: m },
            ),
            Err((true, m)) => Err(ArchiveError::InvalidArchive(m)),
            Ok(raws) => {
                let n = raws.len();
                let mut files: Vec<File> = Vec::new();
                for idx in 0..n
                    invariant
                        n == raws@.len(),
                        file_views(files@) == tar_files_of(raw_tar_views(raws@).take(idx as int)),
                {
                    let e = &raws[idx];
                    let ghost before = files@;
                    if !str_eq(e.path.as_str(), "pax_global_header") {
                        let is_dir = ends_with_slash(e.path.as_str());
                        let path = clean(e.path.as_str());
                        files.push(
                            File {
                                path,
                                buffer: clone_bytes(&e.buffer),
                                mode: e.mode,
                                is_dir,
                                last_modified: e.mtime,
                            },
                        );
                    }
                    proof {
                        let rv = raw_tar_views(raws@);
                        assert(rv.take(idx + 1).drop_last() =~= rv.take(idx as int));
                        assert(rv.take(idx + 1).last() == rv[idx as int]);
                        assert(rv[idx as int] == raws@[idx as int]@);
                        if !is_pax_global(rv[idx as int].path) {
                            assert(files@.last()@ == tar_file_of(rv[idx as int]));
                            assert(file_views(files@) =~= file_views(before).push(
                                files@.last()@,
                            ));
                        } else {
                            assert(file_views(files@) == file_views(before));
                        }
                    }
                }
                proof {
                    assert(raw_tar_views(raws@).take(n as int) =~= raw_tar_views(raws@));
                }
                Ok(files)
            },
        }
    }

    /// Encodes entries into a TAR stream.
    ///
    /// Duplicate paths are rejected before anything is written. Each entry is
    /// then resolved — mode defaulting to `0o644`, modification time to `0`,
    /// owner ids fixed at `0`/`0` — and handed to the TAR writer; a write
    /// fault aborts the whole encode.
    pub fn encode(files: Vec<File>) -> (r: Result<Vec<u8>, ArchiveError>)
        ensures
            tar_encode_post(file_views(files@), r),
    {
        proof {
            lemma_paths_of_views(files@);
        }
        match check_duplicate_files(&files) {
            Err(e) => Err(e),
            Ok(_) => {
                let n = files.len();
                let mut entries: Vec<TarWriteEntry> = Vec::new();
                for i in 0..n
                    invariant
                        n == files@.len(),
                        entries@.len() == i,
                        forall|j: int|
                            0 <= j < i ==> entries@[j]@ == tar_write_of(files@[j]@),
                {
                    let f = &files[i];
                    let mode = match f.mode {
                        Some(m) => m,
                        None => 0o644,
                    };
                    let mtime = match f.last_modified {
                        Some(t) => t,
                        None => 0,
                    };
                    entries.push(
                        TarWriteEntry {
                            path: f.path.clone(),
                            data: clone_bytes(&f.buffer),
                            mode,
                            uid: 0,
                            gid: 0,
                            mtime,
                        },
                    );
                    proof {
                        assert(entries@[i as int]@ == tar_write_of(files@[i as int]@));
                    }
                }
                proof {
                    let fv = file_views(files@);
                    assert forall|j: int| 0 <= j < n implies tar_write_views(entries@)[j]
                        == tar_writes_of(fv)[j] by {
                        assert(fv[j] == files@[j]@);
                        assert(tar_writes_of(fv)[j] == tar_write_of(fv[j]));
                        assert(tar_write_views(entries@)[j] == entries@[j]@);
                    }
                    assert(tar_write_views(entries@) =~= tar_writes_of(fv));
                }
                match tar_write_all(&entries) {
                    Ok(bytes) => Ok(bytes),
                    Err(m) => Err(
                        ArchiveError::EncodeFailed { format: String::from_str("tar"), reason: m },
                    ),
                }
            },
        }
    }
}

} // verus!
