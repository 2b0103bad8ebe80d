//! The 7z codec: a thin adapter with the same contract shape as the other
//! containers. Reading and writing of the container is done by
//! `sevenz_rust2` behind trusted wrappers; the entry mapping — path cleaning
//! on decode, backslash normalization of names and NT-time conversion of
//! timestamps on both sides — and the duplicate check are verified.

use vstd::prelude::*;
use sevenz_rust2::{ArchiveEntry, ArchiveReader, ArchiveWriter, NtTime, Password, SourceReader};
use std::io::Cursor;
use crate::error::{ArchiveError, ArchiveErrorV};
use crate::paths::{clean, clean_spec, slashify, slashify_str};
use crate::types::{clone_bytes, file_views, paths_of, File, FileV};
use crate::utils::{check_duplicate_files, dup_list, lemma_paths_of_views};

verus! {

/// Model of one raw record read from a 7z container.
pub struct RawSevenZipV {
    pub name: Seq<char>,
    pub is_dir: bool,
    pub buffer: Seq<u8>,
    pub has_mtime: bool,
    pub nt_mtime: u64,
}

/// One raw record read from a 7z container: the stored name, the directory
/// flag, the content bytes, and the stored last-modified NT time with its
/// presence flag.
pub struct RawSevenZipEntry {
    pub name: String,
    pub is_dir: bool,
    pub buffer: Vec<u8>,
    pub has_mtime: bool,
    pub nt_mtime: u64,
}

impl View for RawSevenZipEntry {
    type V = RawSevenZipV;

    open spec fn view(&self) -> RawSevenZipV {
        RawSevenZipV {
            name: self.name@,
            is_dir: self.is_dir,
            buffer: self.buffer@,
            has_mtime: self.has_mtime,
            nt_mtime: self.nt_mtime,
        }
    }
}

/// The NT time — 100-nanosecond intervals since 1601-01-01 — for the Unix
/// time `t`, where it fits in 64 bits; the bound is
/// `(u64::MAX - 116444736000000000) / 10000000`.
pub open spec fn nt_of_unix(t: u64) -> Option<u64> {
    if t <= 1833029933770 {
        Some((t * 10000000 + 116444736000000000) as u64)
    } else {
        None
    }
}

/// The Unix time for the NT time `nt`, where `nt` does not lie before the
/// Unix epoch.
pub open spec fn unix_of_nt(nt: u64) -> Option<u64> {
    if nt >= 116444736000000000 {
        Some(((nt - 116444736000000000) / 10000000) as u64)
    } else {
        None
    }
}

/// Converts Unix seconds to the container's NT time, where it fits.
fn nt_from_unix(t: u64) -> (r: Option<u64>)
    ensures
        r == nt_of_unix(t),
{
    if t <= 1833029933770 {
        Some(t * 10000000 + 116444736000000000)
    } else {
        None
    }
}

/// Converts the container's NT time to Unix seconds, for times at or after
/// the Unix epoch.
fn unix_from_nt(nt: u64) -> (r: Option<u64>)
    ensures
        r == unix_of_nt(nt),
{
    if nt >= 116444736000000000 {
        Some((nt - 116444736000000000) / 10000000)
    } else {
        None
    }
}

/// The views of a sequence of raw 7z records.
pub open spec fn raw_sevenz_views(s: Seq<RawSevenZipEntry>) -> Seq<RawSevenZipV> {
    s.map_values(|e: RawSevenZipEntry| e@)
}

/// The records of the 7z container `data`, as `sevenz_rust2` reads it, or
/// the message of the failure that stopped it: a fixed function of the bytes
/// alone.
pub uninterp spec fn sevenz_parse(data: Seq<u8>) -> Result<Seq<RawSevenZipV>, Seq<char>>;

/// Relies on `sevenz_rust2::ArchiveReader`: `new` opens the container
/// (without a password) and `for_each_entries` yields each record's metadata
/// — name, directory flag, last-modified NT time with its presence flag —
/// and a reader for its content.
#[verifier::external_body]
fn sevenz_read_all(data: &Vec<u8>) -> (r: Result<Vec<RawSevenZipEntry>, String>)
    ensures
        match r {
            Ok(v) => sevenz_parse(data@) == Ok::<Seq<RawSevenZipV>, Seq<char>>(
                raw_sevenz_views(v@),
            ),
            Err(m) => sevenz_parse(data@) == Err::<Seq<RawSevenZipV>, Seq<char>>(m@),
        },
{
    let cur = std::io::Cursor::new(data.as_slice());
    let mut reader = ArchiveReader::new(cur, Password::empty()).map_err(|x| x.to_string())?;
    let mut out = Vec::new();
    reader.for_each_entries(&mut |entry: &ArchiveEntry, rd: &mut dyn std::io::Read| {
        let mut buffer = Vec::new();
        rd.read_to_end(&mut buffer)?;
        out.push(RawSevenZipEntry { name: entry.name.clone(), is_dir: entry.is_directory, buffer, has_mtime: entry.has_last_modified_date, nt_mtime: u64::from(entry.last_modified_date) });
        Ok(true)
    }).map_err(|x| x.to_string())?;
    Ok(out)
}

/// The entry this layer derives from one raw 7z record: the stored name is
/// cleaned, the stored NT time converts to Unix seconds best-effort, and 7z
/// records carry no permission bits here.
pub open spec fn sevenz_file_of(r: RawSevenZipV) -> FileV {
    FileV {
        path: clean_spec(r.name),
        buffer: r.buffer,
        mode: None,
        is_dir: r.is_dir,
        last_modified: if r.has_mtime {
            unix_of_nt(r.nt_mtime)
        } else {
            None
        },
    }
}

/// The decoded entry list for a sequence of raw 7z records, in order.
pub open spec fn sevenz_files_of(raws: Seq<RawSevenZipV>) -> Seq<FileV> {
    raws.map_values(|r: RawSevenZipV| sevenz_file_of(r))
}

/// What decoding the 7z container `data` yields: the derived entries, or the
/// classified failure.
pub open spec fn sevenz_decode_spec(data: Seq<u8>) -> Result<Seq<FileV>, ArchiveErrorV> {
    match sevenz_parse(data) {
        Ok(raws) => Ok(sevenz_files_of(raws)),
        Err(m) => Err(ArchiveErrorV::DecodeFailed { format: "7z"@, reason: m }),
    }
}

/// Model of one record as handed to the 7z writer.
pub struct SevenZipWriteV {
    pub name: Seq<char>,
    pub is_dir: bool,
    pub has_mtime: bool,
    pub mtime: u64,
    pub data: Seq<u8>,
}

/// One record as handed to the 7z writer.
pub struct SevenZipWriteEntry {
    pub name: String,
    pub is_dir: bool,
    pub has_mtime: bool,
    pub mtime: u64,
    pub data: Vec<u8>,
}

impl View for SevenZipWriteEntry {
    type V = SevenZipWriteV;

    open spec fn view(&self) -> SevenZipWriteV {
        SevenZipWriteV {
            name: self.name@,
            is_dir: self.is_dir,
            has_mtime: self.has_mtime,
            mtime: self.mtime,
            data: self.data@,
        }
    }
}

/// The views of a sequence of 7z writer records.
pub open spec fn sevenz_write_views(s: Seq<SevenZipWriteEntry>) -> Seq<SevenZipWriteV> {
    s.map_values(|e: SevenZipWriteEntry| e@)
}

/// The container type of `sevenz_rust2`'s failures.
#[verifier::external_type_specification]
#[verifier::external_body]
pub struct ExSevenZipError(sevenz_rust2::Error);

/// Relies on the `Display` implementation of `sevenz_rust2::Error` for the
/// failure text handed to callers.
#[verifier::external_body]
fn sevenz_error_string(e: sevenz_rust2::Error) -> String {
    e.to_string()
}

/// The bytes `sevenz_rust2` writes for the records `entries` with its
/// default encoder configuration, so the output is a function of the records
/// alone; nothing when a write fault stops it.
pub uninterp spec fn sevenz_build(entries: Seq<SevenZipWriteV>) -> Option<Seq<u8>>;

/// Relies on `sevenz_rust2::ArchiveWriter`: `push_archive_entries` queues
/// every record with its content reader, and `finish` writes the container,
/// which always starts with the 32-byte signature header, so a successful
/// container is never empty; a record's stored time is `NtTime::new` of the
/// resolved NT time field.
#[verifier::external_body]
fn sevenz_write_all(entries: &Vec<SevenZipWriteEntry>) -> (r: Result<Vec<u8>, sevenz_rust2::Error>)
    ensures
        match r {
            Ok(v) => sevenz_build(sevenz_write_views(entries@)) == Some(v@) && v@.len() > 0,
            Err(_) => sevenz_build(sevenz_write_views(entries@)) is None,
        },
{
    let mut writer = ArchiveWriter::new(Cursor::new(Vec::new()))?;
    let mut items = Vec::new();
    let mut readers = Vec::new();
    for e in entries.iter() {
        items.push(ArchiveEntry { name: e.name.clone(), has_stream: true, is_directory: e.is_dir, has_last_modified_date: e.has_mtime, last_modified_date: NtTime::new(e.mtime), ..Default::default() });
        readers.push(SourceReader::new(Cursor::new(e.data.clone())));
    }
    writer.push_archive_entries(items, readers)?;
    Ok(writer.finish()?.into_inner())
}

/// The writer record for the entry `f`: backslashes in the name become
/// forward slashes, and the modification time converts to the container's NT
/// encoding — a time that is absent, or too large for that encoding, is
/// stored as zero and marked absent.
pub open spec fn sevenz_write_of(f: FileV) -> SevenZipWriteV {
    SevenZipWriteV {
        name: slashify(f.path),
        is_dir: f.is_dir,
        has_mtime: f.last_modified matches Some(t) && nt_of_unix(t) is Some,
        mtime: match f.last_modified {
            Some(t) => match nt_of_unix(t) {
                Some(nt) => nt,
                None => 0,
            },
            None => 0,
        },
        data: f.buffer,
    }
}

/// The resolved writer records for the entries `files`, in order.
pub open spec fn sevenz_writes_of(files: Seq<FileV>) -> Seq<SevenZipWriteV> {
    files.map_values(|f: FileV| sevenz_write_of(f))
}

/// Everything [`SevenZip::decode`] promises of its result `r` on input
/// `data`.
pub open spec fn sevenz_decode_post(data: Seq<u8>, r: Result<Vec<File>, ArchiveError>) -> bool {
    match sevenz_decode_spec(data) {
        Ok(fv) => r matches Ok(files) && file_views(files@) == fv,
        Err(ev) => r matches Err(e) && e@ == ev,
    }
}

/// Everything [`SevenZip::encode`] promises of its result `r` for the
/// entries `files`: duplicate paths are rejected first, then the 7z writer
/// runs on the resolved records; a write fault surfaces as a `7z` encode
/// failure.
pub open spec fn sevenz_encode_post(files: Seq<FileV>, r: Result<Vec<u8>, ArchiveError>) -> bool {
    let dups = dup_list(paths_of(files));
    if dups.len() > 0 {
        r matches Err(e) && e@ == (ArchiveErrorV::DuplicateFiles { paths: dups })
    } else {
        match sevenz_build(sevenz_writes_of(files)) {
            Some(bytes) => r matches Ok(b) && b@ == bytes && b@.len() > 0,
            None => r matches Err(e) && (e@ matches ArchiveErrorV::EncodeFailed {
                format: f,
                reason: _,
            } && f == "7z"@),
        }
    }
}

/// The 7z container format.
pub struct SevenZip;

impl SevenZip {
    /// Decodes a 7z container into its entries: each record becomes one
    /// entry with its cleaned name, content, directory flag, and the stored
    /// NT time converted to Unix seconds best-effort; 7z records surface no
    /// permission bits here. A malformed container is a `DecodeFailed`.
    pub fn decode(buffer: Vec<u8>) -> (r: Result<Vec<File>, ArchiveError>)
        ensures
            sevenz_decode_post(buffer@, r),
    {
        match sevenz_read_all(&buffer) {
            Err(m) => Err(
                ArchiveError::DecodeFailed { format: String::from_str("7z"), reason: m },
            ),
            Ok(raws) => {
                let n = raws.len();
                let mut files: Vec<File> = Vec::new();
                for idx in 0..n
                    invariant
                        n == raws@.len(),
                        files@.len() == idx,
                        forall|j: int|
                            0 <= j < idx ==> files@[j]@ == sevenz_file_of(raws@[j]@),
                {
                    let e = &raws[idx];
                    let last_modified = if e.has_mtime {
                        unix_from_nt(e.nt_mtime)
                    } else {
                        None
                    };
                    files.push(
                        File {
                            path: clean(e.name.as_str()),
                            buffer: clone_bytes(&e.buffer),
                            mode: None,
                            is_dir: e.is_dir,
                            last_modified,
                        },
                    );
                    proof {
                        assert(files@[idx as int]@ == sevenz_file_of(raws@[idx as int]@));
                    }
                }
                proof {
                    let rv = raw_sevenz_views(raws@);
                    assert forall|j: int| 0 <= j < n implies file_views(files@)[j]
                        == sevenz_files_of(rv)[j] by {
                        assert(rv[j] == raws@[j]@);
                        assert(sevenz_files_of(rv)[j] == sevenz_file_of(rv[j]));
                        assert(file_views(files@)[j] == files@[j]@);
                    }
                    assert(file_views(files@) =~= sevenz_files_of(rv));
                }
                Ok(files)
            },
        }
    }

    /// Encodes entries into a 7z container.
    ///
    /// Duplicate paths are rejected before anything is written. Each entry's
    /// name has backslashes turned into forward slashes, and its time is
    /// stored in the container's NT encoding (marked absent when missing or
    /// unrepresentable). A write fault aborts the whole encode.
    pub fn encode(files: Vec<File>) -> (r: Result<Vec<u8>, ArchiveError>)
        ensures
            sevenz_encode_post(file_views(files@), r),
    {
        proof {
            lemma_paths_of_views(files@);
        }
        match check_duplicate_files(&files) {
            Err(e) => Err(e),
            Ok(_) => {
                let n = files.len();
                let mut entries: Vec<SevenZipWriteEntry> = Vec::new();
                for i in 0..n
                    invariant
                        n == files@.len(),
                        entries@.len() == i,
                        forall|j: int|
                            0 <= j < i ==> entries@[j]@ == sevenz_write_of(files@[j]@),
                {
                    let f = &files[i];
                    let nt = match f.last_modified {
                        Some(t) => nt_from_unix(t),
                        None => None,
                    };
                    let has_mtime = nt.is_some();
                    let mtime = match nt {
                        Some(v) => v,
                        None => 0,
                    };
                    entries.push(
                        SevenZipWriteEntry {
                            name: slashify_str(f.path.as_str()),
                            is_dir: f.is_dir,
                            has_mtime,
                            mtime,
                            data: clone_bytes(&f.buffer),
                        },
                    );
                    proof {
                        assert(entries@[i as int]@ == sevenz_write_of(files@[i as int]@));
                    }
                }
                proof {
                    let fv = file_views(files@);
                    assert forall|j: int| 0 <= j < n implies sevenz_write_views(entries@)[j]
                        == sevenz_writes_of(fv)[j] by {
                        assert(fv[j] == files@[j]@);
                        assert(sevenz_writes_of(fv)[j] == sevenz_write_of(fv[j]));
                        assert(sevenz_write_views(entries@)[j] == entries@[j]@);
                    }
                    assert(sevenz_write_views(entries@) =~= sevenz_writes_of(fv));
                }
                match sevenz_write_all(&entries) {
                    Ok(bytes) => Ok(bytes),
                    Err(se) => {
                        let reason = sevenz_error_string(se);
                        Err(
                            ArchiveError::EncodeFailed {
                                format: String::from_str("7z"),
                                reason,
                            },
                        )
                    },
                }
            },
        }
    }
}

} // verus!
