//! The ZIP codec. Reading and writing of the container records is done by
//! the `zip` crate behind trusted wrappers; this layer's own work — deriving
//! entries on decode, and on encode the duplicate check plus the three-pass
//! directory-synthesis plan that materializes the lexical parent directory
//! of every file entry — is verified.

use vstd::prelude::*;
use ::zip::write::FullFileOptions;
use ::zip::{CompressionMethod, DateTime, ZipArchive, ZipWriter};
use time::PrimitiveDateTime;
use std::io::Cursor;
use std::io::Read;
use std::io::Write;
use crate::error::{ArchiveError, ArchiveErrorV};
use crate::paths::{clean, clean_spec};
use crate::strutil::{
    ends_with_slash, last_slash_end, rfind_slash, str_contains_char, str_list_contains,
    string_views,
};
use crate::types::{clone_bytes, file_views, paths_of, File, FileV};
use crate::utils::{check_duplicate_files, dup_list, lemma_paths_of_views};

verus! {

/// Model of one raw record read from a ZIP container.
pub struct RawZipV {
    pub name: Seq<char>,
    pub is_dir_record: bool,
    pub buffer: Seq<u8>,
    pub mode: Option<u32>,
    pub mtime: Option<u64>,
}

/// One raw record read from a ZIP container: the stored name, the reader's
/// directory flag, the content bytes (empty for directory records), the
/// stored Unix mode where the record carries one, and the stored
/// modification time converted to Unix seconds where the conversion
/// succeeds.
pub struct RawZipEntry {
    pub name: String,
    pub is_dir_record: bool,
    pub buffer: Vec<u8>,
    pub mode: Option<u32>,
    pub mtime: Option<u64>,
}

impl View for RawZipEntry {
    type V = RawZipV;

    open spec fn view(&self) -> RawZipV {
        RawZipV {
            name: self.name@,
            is_dir_record: self.is_dir_record,
            buffer: self.buffer@,
            mode: self.mode,
            mtime: self.mtime,
        }
    }
}

/// Does every record that is a directory — by the reader's flag or by a
/// trailing `/` in its stored name — carry empty content?
pub open spec fn dir_records_empty(raws: Seq<RawZipV>) -> bool {
    forall|i: int|
        0 <= i < raws.len() ==> (((#[trigger] raws[i]).is_dir_record || (raws[i].name.len() > 0
            && raws[i].name.last() == '/')) ==> raws[i].buffer.len() == 0)
}

/// The views of a sequence of raw ZIP records.
pub open spec fn raw_zip_views(s: Seq<RawZipEntry>) -> Seq<RawZipV> {
    s.map_values(|e: RawZipEntry| e@)
}

/// The records of the ZIP container `data`, as the `zip` crate reads it, or
/// nothing when the container cannot be read: a fixed function of the bytes
/// alone.
pub uninterp spec fn zip_parse(data: Seq<u8>) -> Option<Seq<RawZipV>>;

/// Relies on the `zip` crate: `ZipArchive::new` opens the container,
/// `by_index` yields each record, `name`, `is_dir`, `is_file`, `unix_mode`
/// and `last_modified` read its metadata, and `read_to_end` its content; the
/// stored datetime is converted to Unix seconds through
/// `time::PrimitiveDateTime`, with a failed conversion yielding no
/// timestamp. Content is read only for plain files — `is_dir` is exactly the
/// trailing-separator test — so directory records always come back empty.
#[verifier::external_body]
fn zip_read_all(data: &Vec<u8>) -> (r: Result<Vec<RawZipEntry>, zip::result::ZipError>)
    ensures
        match r {
            Ok(v) => zip_parse(data@) == Some(raw_zip_views(v@)) && dir_records_empty(
                raw_zip_views(v@),
            ),
            Err(_) => zip_parse(data@) is None,
        },
{
    let mut archive = ZipArchive::new(Cursor::new(data.as_slice()))?;
    let mut out = Vec::new();
    for i in 0..archive.len() {
        let mut f = archive.by_index(i)?;
        let name = f.name().to_string();
        let is_dir_record = f.is_dir();
        let mode = f.unix_mode();
        let mtime = f.last_modified().and_then(|d| PrimitiveDateTime::try_from(d).ok()).map(|d| d.assume_utc().unix_timestamp() as u64);
        let mut buffer = Vec::new();
        if f.is_file() { f.read_to_end(&mut buffer)?; }
        out.push(RawZipEntry { name, is_dir_record, buffer, mode, mtime });
    }
    Ok(out)
}

/// The permission bits of a stored Unix mode: its low nine bits, shorn of
/// the file-type bits the container stores alongside them.
pub open spec fn permission_bits_of(m: Option<u32>) -> Option<u32> {
    match m {
        Some(x) => Some(x & 0o777),
        None => None,
    }
}

/// The entry this layer derives from one raw ZIP record: the directory flag
/// is the reader's flag or a trailing `/` on the stored name, the name is
/// then cleaned, and the stored Unix mode surfaces as its permission bits.
pub open spec fn zip_file_of(r: RawZipV) -> FileV {
    FileV {
        path: clean_spec(r.name),
        buffer: r.buffer,
        mode: permission_bits_of(r.mode),
        is_dir: r.is_dir_record || (r.name.len() > 0 && r.name.last() == '/'),
        last_modified: r.mtime,
    }
}

/// Does every directory entry carry empty content?
pub open spec fn dir_entries_empty(files: Seq<FileV>) -> bool {
    forall|i: int|
        0 <= i < files.len() ==> ((#[trigger] files[i]).is_dir ==> files[i].buffer.len() == 0)
}

/// The decoded entry list for a sequence of raw ZIP records, in order.
pub open spec fn zip_files_of(raws: Seq<RawZipV>) -> Seq<FileV> {
    raws.map_values(|r: RawZipV| zip_file_of(r))
}

/// The DOS date/time pair `zip` stores for the Unix time `t`, when `t` is
/// representable in that encoding: a fixed function of `t` alone.
pub uninterp spec fn dos_datetime_of(t: u64) -> Option<(u16, u16)>;

/// Relies on `time::OffsetDateTime`/`PrimitiveDateTime` and `zip::DateTime`:
/// converts Unix seconds to the container's DOS date/time pair, or nothing
/// when the moment lies outside the representable range.
#[verifier::external_body]
fn dos_datetime(t: u64) -> (r: Option<(u16, u16)>)
    ensures
        r == dos_datetime_of(t),
{
    let o = time::OffsetDateTime::from_unix_timestamp(t as i64).ok()?;
    let dt = zip::DateTime::try_from(time::PrimitiveDateTime::new(o.date(), o.time())).ok()?;
    Some((dt.datepart(), dt.timepart()))
}

/// The stored DOS pair for an entry's modification time: the converted time,
/// or the format's fixed epoch 1980-01-01 00:00:00 (date part 33, time part
/// 0) when the time is absent or inconvertible.
pub open spec fn dos_of(mtime: Option<u64>) -> (u16, u16) {
    match mtime {
        Some(t) => match dos_datetime_of(t) {
            Some(p) => p,
            None => (33, 0),
        },
        None => (33, 0),
    }
}

/// Resolves an entry's modification time to the stored DOS pair.
fn dos_resolve(mtime: Option<u64>) -> (r: (u16, u16))
    ensures
        r == dos_of(mtime),
{
    match mtime {
        Some(t) => match dos_datetime(t) {
            Some(p) => p,
            None => (33, 0),
        },
        None => (33, 0),
    }
}

/// Model of one write operation of the encode plan.
pub enum ZipOpV {
    Dir { path: Seq<char>, dos: (u16, u16) },
    File { path: Seq<char>, mode: u32, dos: (u16, u16), data: Seq<u8> },
}

/// One write operation of the encode plan: a directory record, or a file
/// record with its resolved permission bits and content; both carry the
/// resolved DOS date/time pair.
pub enum ZipOp {
    Dir { path: String, dos: (u16, u16) },
    File { path: String, mode: u32, dos: (u16, u16), data: Vec<u8> },
}

impl ZipOp {
    /// The resolved DOS date/time pair this operation carries.
    fn dos_pair(&self) -> (r: (u16, u16))
        ensures
            r == (match self@ {
                ZipOpV::Dir { dos, .. } => dos,
                ZipOpV::File { dos, .. } => dos,
            }),
    {
        match self {
            ZipOp::Dir { dos, .. } => *dos,
            ZipOp::File { dos, .. } => *dos,
        }
    }
}

impl View for ZipOp {
    type V = ZipOpV;

    open spec fn view(&self) -> ZipOpV {
        match self {
            ZipOp::Dir { path, dos } => ZipOpV::Dir { path: path@, dos: *dos },
            ZipOp::File { path, mode, dos, data } => ZipOpV::File {
                path: path@,
                mode: *mode,
                dos: *dos,
                data: data@,
            },
        }
    }
}

/// The views of a sequence of plan operations.
pub open spec fn zip_op_views(s: Seq<ZipOp>) -> Seq<ZipOpV> {
    s.map_values(|e: ZipOp| e@)
}

/// The container type of the `zip` crate's failures.
#[verifier::external_type_specification]
#[verifier::external_body]
pub struct ExZipError(zip::result::ZipError);

/// Relies on the `Display` implementation of `zip::result::ZipError` for the
/// failure text handed to callers.
#[verifier::external_body]
fn zip_error_string(e: zip::result::ZipError) -> String {
    e.to_string()
}

/// The bytes the `zip` crate writes for the plan `ops` — each record
/// compressed with the zstd method and stamped with its resolved DOS
/// date/time pair, so the output is a function of the plan alone — or
/// nothing when a write fault stops it.
pub uninterp spec fn zip_build(ops: Seq<ZipOpV>) -> Option<Seq<u8>>;

/// Relies on the `zip` crate: `add_directory` writes a directory record,
/// `start_file` plus `write_all` a file record, and `finish` the central
/// directory. Every record is compressed with `CompressionMethod::Zstd` and
/// stamped with its operation's resolved DOS date/time pair, so nothing here
/// depends on the clock; `finish` always writes the end-of-central-directory
/// record, so a successful container is never empty.
#[verifier::external_body]
fn zip_write_all(ops: &Vec<ZipOp>) -> (r: Result<Vec<u8>, zip::result::ZipError>)
    ensures
        match r {
            Ok(v) => zip_build(zip_op_views(ops@)) == Some(v@) && v@.len() > 0,
            Err(_) => zip_build(zip_op_views(ops@)) is None,
        },
{
    let mut w = ZipWriter::new(Cursor::new(Vec::new()));
    for op in ops.iter() {
        let dt = DateTime::try_from(op.dos_pair()).ok().unwrap_or_default();
        let o = FullFileOptions::default().compression_method(CompressionMethod::Zstd).last_modified_time(dt);
        match op {
            ZipOp::Dir { path, .. } => w.add_directory(path.clone(), o)?,
            ZipOp::File { path, mode, data, .. } => {
                w.start_file(path, o.unix_permissions(*mode))?;
                w.write_all(data)?;
            },
        }
    }
    Ok(w.finish()?.into_inner())
}

/// `p` with its trailing slashes removed.
pub open spec fn trim_trailing_slashes(p: Seq<char>) -> Seq<char>
    decreases p.len(),
{
    if p.len() > 0 && p.last() == '/' {
        trim_trailing_slashes(p.drop_last())
    } else {
        p
    }
}

/// The lexical parent of `p`: the prefix before the last separator, with
/// surplus trailing slashes dropped on both sides; empty when `p` has no
/// parent.
pub open spec fn lexical_parent(p: Seq<char>) -> Seq<char> {
    let q = trim_trailing_slashes(p);
    let e = last_slash_end(q);
    if e == 0 {
        Seq::empty()
    } else {
        trim_trailing_slashes(q.take(e - 1))
    }
}

fn trim_trailing(s: &str) -> (r: &str)
    ensures
        r@ == trim_trailing_slashes(s@),
{
    let n = s.unicode_len();
    let mut k: usize = n;
    proof {
        assert(s@.take(n as int) =~= s@);
    }
    while k > 0 && s.get_char(k - 1) == '/'
        invariant
            n == s@.len(),
            k <= n,
            trim_trailing_slashes(s@) == trim_trailing_slashes(s@.take(k as int)),
        decreases k,
    {
        proof {
            assert(s@.take(k as int).last() == s@[k - 1]);
            assert(s@.take(k as int).drop_last() =~= s@.take(k - 1));
        }
        k -= 1;
    }
    proof {
        if k > 0 {
            assert(s@.take(k as int).last() == s@[k - 1]);
        }
        assert(trim_trailing_slashes(s@.take(k as int)) == s@.take(k as int));
    }
    let r = s.substring_char(0, k);
    proof {
        assert(r@ =~= s@.take(k as int));
    }
    r
}

/// Computes the lexical parent of a path, or the empty string when it has
/// none.
fn parent_of(s: &str) -> (r: String)
    ensures
        r@ == lexical_parent(s@),
{
    let q = trim_trailing(s);
    match rfind_slash(q) {
        None => String::new(),
        Some(idx) => {
            let cut = q.substring_char(0, idx);
            proof {
                assert(cut@ =~= q@.take(idx as int));
            }
            let p = trim_trailing(cut);
            String::from_str(p)
        },
    }
}

/// The running state of the directory-synthesis plan: the operations emitted
/// so far, and the set (as an ordered list) of paths already written as
/// directory records.
pub struct ZipPlanState {
    pub ops: Seq<ZipOpV>,
    pub seen: Seq<Seq<char>>,
}

/// Pass 1, one entry: an explicit directory entry not yet written becomes a
/// directory record and is marked seen.
pub open spec fn pass1_step(st: ZipPlanState, f: FileV) -> ZipPlanState {
    if f.is_dir && !st.seen.contains(f.path) {
        ZipPlanState {
            ops: st.ops.push(ZipOpV::Dir { path: f.path, dos: dos_of(f.last_modified) }),
            seen: st.seen.push(f.path),
        }
    } else {
        st
    }
}

/// Pass 1 over all entries, in order.
pub open spec fn pass1(files: Seq<FileV>) -> ZipPlanState
    decreases files.len(),
{
    if files.len() == 0 {
        ZipPlanState { ops: Seq::empty(), seen: Seq::empty() }
    } else {
        pass1_step(pass1(files.drop_last()), files.last())
    }
}

/// Pass 2, one entry: the lexical parent of a file entry that lies in a
/// subdirectory is synthesized as a directory record unless already written.
pub open spec fn pass2_step(st: ZipPlanState, f: FileV) -> ZipPlanState {
    if !f.is_dir && f.path.contains('/') {
        let par = lexical_parent(f.path);
        if par.len() > 0 && !st.seen.contains(par) {
            ZipPlanState {
                ops: st.ops.push(ZipOpV::Dir { path: par, dos: dos_of(f.last_modified) }),
                seen: st.seen.push(par),
            }
        } else {
            st
        }
    } else {
        st
    }
}

/// Pass 2 over all entries, in order, continuing from `st`.
pub open spec fn pass2(files: Seq<FileV>, st: ZipPlanState) -> ZipPlanState
    decreases files.len(),
{
    if files.len() == 0 {
        st
    } else {
        pass2_step(pass2(files.drop_last(), st), files.last())
    }
}

/// Pass 3: every file entry becomes a file record with its content and
/// resolved permission bits (default `0o755` when absent).
pub open spec fn pass3(files: Seq<FileV>) -> Seq<ZipOpV>
    decreases files.len(),
{
    if files.len() == 0 {
        Seq::empty()
    } else {
        let rest = pass3(files.drop_last());
        let f = files.last();
        if f.is_dir {
            rest
        } else {
            rest.push(
                ZipOpV::File {
                    path: f.path,
                    mode: match f.mode {
                        Some(m) => m,
                        None => 0o755,
                    },
                    dos: dos_of(f.last_modified),
                    data: f.buffer,
                },
            )
        }
    }
}

/// The full encode plan for `files`: explicit directories, then synthesized
/// parents, then file contents.
pub open spec fn zip_plan(files: Seq<FileV>) -> Seq<ZipOpV> {
    pass2(files, pass1(files)).ops + pass3(files)
}

/// Is `op` a directory record for `path`?
pub open spec fn is_dir_op(op: ZipOpV, path: Seq<char>) -> bool {
    op matches ZipOpV::Dir { path: q, .. } && q == path
}

/// Does the plan `ops` hold a directory record for `path`?
pub open spec fn plan_has_dir(ops: Seq<ZipOpV>, path: Seq<char>) -> bool {
    exists|k: int| 0 <= k < ops.len() && is_dir_op(#[trigger] ops[k], path)
}

proof fn lemma_pass1_seen_dirs(files: Seq<FileV>)
    ensures
        forall|p: Seq<char>|
            pass1(files).seen.contains(p) ==> #[trigger] plan_has_dir(pass1(files).ops, p),
    decreases files.len(),
{
    if files.len() > 0 {
        lemma_pass1_seen_dirs(files.drop_last());
        let st = pass1(files.drop_last());
        let f = files.last();
        assert forall|p: Seq<char>| pass1(files).seen.contains(p) implies #[trigger] plan_has_dir(
            pass1(files).ops,
            p,
        ) by {
            if f.is_dir && !st.seen.contains(f.path) {
                let w = choose|w: int| 0 <= w < pass1(files).seen.len() && pass1(
                    files,
                ).seen[w] == p;
                if w < st.seen.len() {
                    assert(st.seen.contains(p));
                    assert(plan_has_dir(st.ops, p));
                    let k = choose|k: int| 0 <= k < st.ops.len() && is_dir_op(#[trigger] st.ops[k], p);
                    assert(pass1(files).ops[k] == st.ops[k]);
                } else {
                    assert(p == f.path);
                    assert(pass1(files).ops.last() == (ZipOpV::Dir {
                        path: f.path,
                        dos: dos_of(f.last_modified),
                    }));
                }
            } else {
                assert(st.seen.contains(p));
                assert(plan_has_dir(st.ops, p));
                let k = choose|k: int| 0 <= k < st.ops.len() && is_dir_op(#[trigger] st.ops[k], p);
                assert(pass1(files).ops[k] == st.ops[k]);
            }
        }
    }
}

proof fn lemma_pass2_seen_dirs(files: Seq<FileV>, st: ZipPlanState)
    requires
        forall|p: Seq<char>| st.seen.contains(p) ==> #[trigger] plan_has_dir(st.ops, p),
    ensures
        forall|p: Seq<char>|
            pass2(files, st).seen.contains(p) ==> #[trigger] plan_has_dir(pass2(files, st).ops, p),
    decreases files.len(),
{
    if files.len() > 0 {
        lemma_pass2_seen_dirs(files.drop_last(), st);
        let pre = pass2(files.drop_last(), st);
        let f = files.last();
        assert forall|p: Seq<char>| pass2(files, st).seen.contains(p) implies #[trigger] plan_has_dir(
            pass2(files, st).ops,
            p,
        ) by {
            let par = lexical_parent(f.path);
            if !f.is_dir && f.path.contains('/') && par.len() > 0 && !pre.seen.contains(par) {
                let w = choose|w: int| 0 <= w < pass2(files, st).seen.len() && pass2(
                    files,
                    st,
                ).seen[w] == p;
                if w < pre.seen.len() {
                    assert(pre.seen.contains(p));
                    assert(plan_has_dir(pre.ops, p));
                    let k = choose|k: int| 0 <= k < pre.ops.len() && is_dir_op(#[trigger] pre.ops[k], p);
                    assert(pass2(files, st).ops[k] == pre.ops[k]);
                } else {
                    assert(p == par);
                    assert(pass2(files, st).ops.last() == (ZipOpV::Dir {
                        path: par,
                        dos: dos_of(f.last_modified),
                    }));
                }
            } else {
                assert(pre.seen.contains(p));
                assert(plan_has_dir(pre.ops, p));
                let k = choose|k: int| 0 <= k < pre.ops.len() && is_dir_op(#[trigger] pre.ops[k], p);
                assert(pass2(files, st).ops[k] == pre.ops[k]);
            }
        }
    }
}

proof fn lemma_pass2_parent_seen(files: Seq<FileV>, st: ZipPlanState, i: int)
    requires
        0 <= i < files.len(),
        !files[i].is_dir,
        files[i].path.contains('/'),
        lexical_parent(files[i].path).len() > 0,
    ensures
        pass2(files, st).seen.contains(lexical_parent(files[i].path)),
    decreases files.len(),
{
    let pre = pass2(files.drop_last(), st);
    let f = files.last();
    let par = lexical_parent(files[i].path);
    if i == files.len() - 1 {
        if !pre.seen.contains(par) {
            assert(pass2(files, st).seen.last() == par);
        } else {
            let w = choose|w: int| 0 <= w < pre.seen.len() && pre.seen[w] == par;
            assert(pass2(files, st).seen[w] == par);
        }
    } else {
        assert(files.drop_last()[i] == files[i]);
        lemma_pass2_parent_seen(files.drop_last(), st, i);
        let w = choose|w: int| 0 <= w < pre.seen.len() && pre.seen[w] == par;
        assert(pass2(files, st).seen[w] == par);
    }
}

/// Directory synthesis is complete: for every file entry that lies in a
/// subdirectory, the encode plan holds a directory record for its lexical
/// parent — whether or not the caller supplied any directory entries.
pub proof fn lemma_zip_parent_synthesized(files: Seq<FileV>, i: int)
    requires
        0 <= i < files.len(),
        !files[i].is_dir,
        files[i].path.contains('/'),
        lexical_parent(files[i].path).len() > 0,
    ensures
        plan_has_dir(zip_plan(files), lexical_parent(files[i].path)),
{
    let st1 = pass1(files);
    let st2 = pass2(files, st1);
    let par = lexical_parent(files[i].path);
    lemma_pass1_seen_dirs(files);
    lemma_pass2_seen_dirs(files, st1);
    lemma_pass2_parent_seen(files, st1, i);
    assert(plan_has_dir(st2.ops, par));
    let k = choose|k: int| 0 <= k < st2.ops.len() && is_dir_op(#[trigger] st2.ops[k], par);
    assert(zip_plan(files)[k] == st2.ops[k]);
}

/// Everything [`Zip::decode`] promises of its result `r` on input `data`: an
/// unreadable container surfaces as a `zip` decode failure.
pub open spec fn zip_decode_post(data: Seq<u8>, r: Result<Vec<File>, ArchiveError>) -> bool {
    match zip_parse(data) {
        Some(raws) => r matches Ok(files) && file_views(files@) == zip_files_of(raws)
            && dir_entries_empty(file_views(files@)),
        None => r matches Err(e) && (e@ matches ArchiveErrorV::DecodeFailed {
            format: f,
            reason: _,
        } && f == "zip"@),
    }
}

/// Everything [`Zip::encode`] promises of its result `r` for the entries
/// `files`: duplicate paths are rejected first, then the ZIP writer runs on
/// the synthesis plan; a write fault surfaces as a `zip` encode failure.
pub open spec fn zip_encode_post(files: Seq<FileV>, r: Result<Vec<u8>, ArchiveError>) -> bool {
    let dups = dup_list(paths_of(files));
    if dups.len() > 0 {
        r matches Err(e) && e@ == (ArchiveErrorV::DuplicateFiles { paths: dups })
    } else {
        match zip_build(zip_plan(files)) {
            Some(bytes) => r matches Ok(b) && b@ == bytes && b@.len() > 0,
            None => r matches Err(e) && (e@ matches ArchiveErrorV::EncodeFailed {
                format: f,
                reason: _,
            } && f == "zip"@),
        }
    }
}

/// The ZIP container format.
pub struct Zip;

impl Zip {
    /// Decodes a ZIP container into its entries.
    ///
    /// Each record becomes one entry: the directory flag comes from the
    /// reader's flag or a trailing `/` on the stored name, the name is then
    /// cleaned, permission bits are absent, and the stored time is converted
    /// to Unix seconds best-effort.
    pub fn decode(buffer: Vec<u8>) -> (r: Result<Vec<File>, ArchiveError>)
        ensures
            zip_decode_post(buffer@, r),
    {
        match zip_read_all(&buffer) {
            Err(ze) => {
                let reason = zip_error_string(ze);
                Err(ArchiveError::DecodeFailed { format: String::from_str("zip"), reason })
            },
            Ok(raws) => {
                let n = raws.len();
                let mut files: Vec<File> = Vec::new();
                for idx in 0..n
                    invariant
                        n == raws@.len(),
                        files@.len() == idx,
                        forall|j: int|
                            0 <= j < idx ==> files@[j]@ == zip_file_of(raws@[j]@),
                {
                    let e = &raws[idx];
                    let is_dir = e.is_dir_record || ends_with_slash(e.name.as_str());
                    let path = clean(e.name.as_str());
                    let mode = match e.mode {
                        Some(x) => Some(x & 0o777),
                        None => None,
                    };
                    files.push(
                        File {
                            path,
                            buffer: clone_bytes(&e.buffer),
                            mode,
                            is_dir,
                            last_modified: e.mtime,
                        },
                    );
                    proof {
                        assert(files@[idx as int]@ == zip_file_of(raws@[idx as int]@));
                    }
                }
                proof {
                    let rv = raw_zip_views(raws@);
                    assert forall|j: int| 0 <= j < n implies file_views(files@)[j]
                        == zip_files_of(rv)[j] by {
                        assert(rv[j] == raws@[j]@);
                        assert(zip_files_of(rv)[j] == zip_file_of(rv[j]));
                        assert(file_views(files@)[j] == files@[j]@);
                    }
                    assert(file_views(files@) =~= zip_files_of(rv));
                    assert forall|j: int|
                        0 <= j < file_views(files@).len() implies ((#[trigger] file_views(
                        files@,
                    )[j]).is_dir ==> file_views(files@)[j].buffer.len() == 0) by {
                        assert(rv[j] == raws@[j]@);
                        assert(file_views(files@)[j] == zip_file_of(rv[j]));
                    }
                }
                Ok(files)
            },
        }
    }

    /// Encodes entries into a ZIP container.
    ///
    /// Duplicate paths are rejected before anything is written. The plan
    /// then writes every explicit directory once, synthesizes the lexical
    /// parent directory of every file that lies in a subdirectory, and
    /// finally writes every file's content with its permission bits (default
    /// `0o755` when absent); a write fault aborts the whole encode.
    pub fn encode(files: Vec<File>) -> (r: Result<Vec<u8>, ArchiveError>)
        ensures
            zip_encode_post(file_views(files@), r),
    {
        proof {
            lemma_paths_of_views(files@);
        }
        match check_duplicate_files(&files) {
            Err(e) => Err(e),
            Ok(_) => {
                let n = files.len();
                let ghost fv = file_views(files@);
                let mut ops: Vec<ZipOp> = Vec::new();
                let mut seen: Vec<String> = Vec::new();
                for i in 0..n
                    invariant
                        n == files@.len(),
                        fv == file_views(files@),
                        zip_op_views(ops@) == pass1(fv.take(i as int)).ops,
                        string_views(seen@) == pass1(fv.take(i as int)).seen,
                {
                    let f = &files[i];
                    let ghost ops_before = ops@;
                    let ghost seen_before = seen@;
                    if f.is_dir && !str_list_contains(&seen, f.path.as_str()) {
                        let dos = dos_resolve(f.last_modified);
                        ops.push(ZipOp::Dir { path: f.path.clone(), dos });
                        seen.push(f.path.clone());
                    }
                    proof {
                        assert(fv.take(i + 1).drop_last() =~= fv.take(i as int));
                        assert(fv.take(i + 1).last() == fv[i as int]);
                        assert(fv[i as int] == files@[i as int]@);
                        if f.is_dir && !pass1(fv.take(i as int)).seen.contains(
                            files@[i as int].path@,
                        ) {
                            assert(zip_op_views(ops@) =~= zip_op_views(ops_before).push(
                                ops@.last()@,
                            ));
                            assert(string_views(seen@) =~= string_views(seen_before).push(
                                seen@.last()@,
                            ));
                        }
                    }
                }
                let ghost st1 = pass1(fv);
                proof {
                    assert(fv.take(n as int) =~= fv);
                    assert(pass2(fv.take(0), st1) == st1);
                }
                let mut i2: usize = 0;
                while i2 < n
                    invariant
                        n == files@.len(),
                        i2 <= n,
                        fv == file_views(files@),
                        st1 == pass1(fv),
                        zip_op_views(ops@) == pass2(fv.take(i2 as int), st1).ops,
                        string_views(seen@) == pass2(fv.take(i2 as int), st1).seen,
                    decreases n - i2,
                {
                    let f = &files[i2];
                    let ghost ops_before = ops@;
                    let ghost seen_before = seen@;
                    if !f.is_dir && str_contains_char(f.path.as_str(), '/') {
                        let par = parent_of(f.path.as_str());
                        let par_len = par.as_str().unicode_len();
                        if par_len > 0 && !str_list_contains(&seen, par.as_str()) {
                            let dos = dos_resolve(f.last_modified);
                            seen.push(par.clone());
                            ops.push(ZipOp::Dir { path: par, dos });
                        }
                    }
                    proof {
                        assert(fv.take(i2 + 1).drop_last() =~= fv.take(i2 as int));
                        assert(fv.take(i2 + 1).last() == fv[i2 as int]);
                        assert(fv[i2 as int] == files@[i2 as int]@);
                        let st = pass2(fv.take(i2 as int), st1);
                        let g = fv[i2 as int];
                        if !g.is_dir && g.path.contains('/') && lexical_parent(g.path).len() > 0
                            && !st.seen.contains(lexical_parent(g.path)) {
                            assert(zip_op_views(ops@) =~= zip_op_views(ops_before).push(
                                ops@.last()@,
                            ));
                            assert(string_views(seen@) =~= string_views(seen_before).push(
                                seen@.last()@,
                            ));
                        }
                    }
                    i2 += 1;
                }
                let ghost st2 = pass2(fv, st1);
                proof {
                    assert(fv.take(n as int) =~= fv);
                    assert(pass3(fv.take(0)) =~= Seq::<ZipOpV>::empty());
                    assert(zip_op_views(ops@) =~= st2.ops + pass3(fv.take(0)));
                }
                let mut i3: usize = 0;
                while i3 < n
                    invariant
                        n == files@.len(),
                        i3 <= n,
                        fv == file_views(files@),
                        st2 == pass2(fv, pass1(fv)),
                        zip_op_views(ops@) == st2.ops + pass3(fv.take(i3 as int)),
                    decreases n - i3,
                {
                    let f = &files[i3];
                    let ghost ops_before = ops@;
                    if !f.is_dir {
                        let mode = match f.mode {
                            Some(m) => m,
                            None => 0o755,
                        };
                        let dos = dos_resolve(f.last_modified);
                        ops.push(
                            ZipOp::File {
                                path: f.path.clone(),
                                mode,
                                dos,
                                data: clone_bytes(&f.buffer),
                            },
                        );
                    }
                    proof {
                        assert(fv.take(i3 + 1).drop_last() =~= fv.take(i3 as int));
                        assert(fv.take(i3 + 1).last() == fv[i3 as int]);
                        assert(fv[i3 as int] == files@[i3 as int]@);
                        if !fv[i3 as int].is_dir {
                            assert(zip_op_views(ops@) =~= zip_op_views(ops_before).push(
                                ops@.last()@,
                            ));
                        }
                    }
                    i3 += 1;
                }
                proof {
                    assert(fv.take(n as int) =~= fv);
                    assert(zip_op_views(ops@) == zip_plan(fv));
                }
                match zip_write_all(&ops) {
                    Ok(bytes) => Ok(bytes),
                    Err(ze) => {
                        let reason = zip_error_string(ze);
                        Err(
                            ArchiveError::EncodeFailed {
                                format: String::from_str("zip"),
                                reason,
                            },
                        )
                    },
                }
            },
        }
    }
}

} // verus!
