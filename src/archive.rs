//! Archive encoding: gzip-compressed tar archives of a file or a directory
//! tree, and single-entry zip archives. The trees are read by the caller; the
//! encoding is done in memory.
use std::io::Error as IoError;
use vstd::prelude::*;
use zip::result::ZipError;

use crate::error::Error;

verus! {

/// A tar builder writing to an in-memory buffer; what it holds is named by
/// `tar_entries`.
#[verifier::external_body]
pub struct TarBuilder {
    inner: tar::Builder<Vec<u8>>,
}

/// The tar type flag of a regular file.
pub const TAR_REGULAR: u8 = 48;

/// The tar type flag of a directory.
pub const TAR_DIRECTORY: u8 = 53;

/// The tar type flag of a symbolic link.
pub const TAR_SYMLINK: u8 = 50;

/// The entries appended to a tar builder, in order: path, type flag, mode,
/// modification time, contents and link target of each.
pub uninterp spec fn tar_entries(b: TarBuilder) -> Seq<
    (Seq<char>, u8, u32, u64, Seq<u8>, Seq<char>),
>;

/// The bytes of the tar archive holding the given entries, in order.
pub uninterp spec fn tar_bytes(entries: Seq<(Seq<char>, u8, u32, u64, Seq<u8>, Seq<char>)>) -> Seq<
    u8,
>;

/// The gzip stream of some bytes at the default compression level.
pub uninterp spec fn gzip_of(data: Seq<u8>) -> Seq<u8>;

/// The zip archive holding one uncompressed entry with the given name,
/// unix permission bits and contents.
pub uninterp spec fn zip_stored(name: Seq<char>, mode: u32, data: Seq<u8>) -> Seq<u8>;

/// Whether tar accepts `p` as an entry path on every platform: not empty,
/// relative, no `..` component, and no NUL, '\\' or ':' character.
pub open spec fn archive_path_ok(p: Seq<char>) -> bool {
    &&& p.len() > 0
    &&& p[0] != '/'
    &&& forall|i: int| 0 <= i < p.len() ==> #[trigger] p[i] != '\0' && p[i] != '\\' && p[i] != ':'
    &&& forall|i: int|
        0 <= i && i + 2 <= p.len() && #[trigger] p.subrange(i, i + 2) == ".."@ ==> (i > 0 && p[i
            - 1] != '/') || (i + 2 < p.len() && p[i + 2] != '/')
}

/// Whether tar accepts `t` as the target of a link: not empty, no NUL.
pub open spec fn link_target_ok(t: Seq<char>) -> bool {
    t.len() > 0 && forall|i: int| 0 <= i < t.len() ==> #[trigger] t[i] != '\0'
}

/// Relies on tar::Builder::new: a builder over an empty buffer has no entry.
#[verifier::external_body]
fn tar_builder() -> (r: TarBuilder)
    ensures
        tar_entries(r) == Seq::<(Seq<char>, u8, u32, u64, Seq<u8>, Seq<char>)>::empty(),
{
    TarBuilder { inner: tar::Builder::new(Vec::new()) }
}

/// Relies on tar::Builder::append_data, given a GNU header (tar::Header::new_gnu)
/// with the type flag, size, mode and modification time set: on success the
/// entry follows those already in the archive. Writing to a `Vec` cannot
/// fail, and the header's path is refused only when empty, absolute, holding
/// a `..` component or a NUL byte (longer paths take a GNU long-name entry);
/// the numeric fields never fail.
#[verifier::external_body]
fn tar_append_data(
    b: &mut TarBuilder,
    path: &str,
    flag: u8,
    mode: u32,
    mtime: u64,
    data: &[u8],
) -> (r: Result<(), IoError>)
    ensures
        r is Ok ==> tar_entries(*final(b)) == tar_entries(*old(b)).push(
            (path@, flag, mode, mtime, data@, Seq::empty()),
        ),
        archive_path_ok(path@) ==> r is Ok,
{
    let mut header = tar::Header::new_gnu();
    header.set_entry_type(tar::EntryType::new(flag));
    header.set_size(data.len() as u64);
    header.set_mode(mode);
    header.set_mtime(mtime);
    b.inner.append_data(&mut header, path, data)
}

/// Relies on tar::Builder::append_link, given a GNU symbolic-link header
/// with size 0 and the mode and modification time set: on success the link
/// entry follows those already in the archive. The path is checked as for
/// `append_data`; the link target is refused only when empty or holding a
/// NUL byte (longer targets take a GNU long-link entry).
#[verifier::external_body]
fn tar_append_symlink(
    b: &mut TarBuilder,
    path: &str,
    mode: u32,
    mtime: u64,
    target: &str,
) -> (r: Result<(), IoError>)
    ensures
        r is Ok ==> tar_entries(*final(b)) == tar_entries(*old(b)).push(
            (path@, TAR_SYMLINK, mode, mtime, Seq::empty(), target@),
        ),
        archive_path_ok(path@) && link_target_ok(target@) ==> r is Ok,
{
    let mut header = tar::Header::new_gnu();
    header.set_entry_type(tar::EntryType::Symlink);
    header.set_size(0);
    header.set_mode(mode);
    header.set_mtime(mtime);
    b.inner.append_link(&mut header, path, target)
}

/// Relies on tar::Builder::into_inner: it writes the archive's end to the
/// buffer, which cannot fail, and hands the buffer back.
#[verifier::external_body]
fn tar_finish(b: TarBuilder) -> (r: Result<Vec<u8>, IoError>)
    ensures
        r matches Ok(v) ==> v@ == tar_bytes(tar_entries(b)),
        r is Ok,
{
    b.inner.into_inner()
}

/// Relies on flate2::write::GzEncoder at flate2::Compression::default():
/// writing the data and finishing gives its gzip stream; writing to a `Vec`
/// cannot fail.
#[verifier::external_body]
fn gzip(data: &[u8]) -> (r: Result<Vec<u8>, IoError>)
    ensures
        r matches Ok(v) ==> v@ == gzip_of(data@),
        r is Ok,
{
    let mut encoder = flate2::write::GzEncoder::new(Vec::new(), flate2::Compression::default());
    std::io::Write::write_all(&mut encoder, data)?;
    encoder.finish()
}

/// Relies on zip::ZipWriter (new, start_file, finish) with
/// zip::write::FileOptions set to zip::CompressionMethod::Stored and the given
/// unix permissions: an archive holding the one entry. Writing to an
/// in-memory cursor cannot fail; the writer refuses only an entry of more
/// than 0xFFFF_FFFF bytes, as large files are not enabled.
#[verifier::external_body]
fn zip_one(name: &str, mode: u32, data: &[u8]) -> (r: Result<Vec<u8>, ZipError>)
    ensures
        r matches Ok(v) ==> v@ == zip_stored(name@, mode, data@),
        data@.len() <= 0xFFFF_FFFF ==> r is Ok,
{
    let mut writer = zip::ZipWriter::new(std::io::Cursor::new(Vec::new()));
    let options = zip::write::FileOptions::default().compression_method(
        zip::CompressionMethod::Stored,
    ).unix_permissions(mode);
    writer.start_file(name, options)?;
    std::io::Write::write_all(&mut writer, data)?;
    Ok(writer.finish()?.into_inner())
}

/// The kind of an entry of a source tree.
#[derive(Clone, Copy, Debug, PartialEq, Eq, Structural)]
pub enum EntryKind {
    /// A directory.
    Directory,
    /// A regular file.
    File,
    /// A symbolic link, stored as a link and never followed.
    Symlink,
}

/// An entry of the tree to archive, as read from the file system.
#[derive(Clone, Debug)]
pub struct TreeEntry {
    /// The '/'-separated path relative to the tree's root; empty for the root.
    pub rel_path: String,
    /// What the entry is.
    pub kind: EntryKind,
    /// The unix permission bits.
    pub mode: u32,
    /// The modification time, in seconds since the epoch.
    pub mtime: u64,
    /// The contents of a regular file (empty for other kinds).
    pub data: Vec<u8>,
    /// The target of a symbolic link, as stored in the link (empty for other kinds).
    pub link_target: String,
}

/// The archive path of an entry: the root's name, then the relative path.
pub open spec fn entry_path(root_name: Seq<char>, rel: Seq<char>) -> Seq<char> {
    if rel.len() == 0 {
        root_name
    } else {
        root_name + "/"@ + rel
    }
}

/// The tar entry recorded for a tree entry.
pub open spec fn record_of(root_name: Seq<char>, e: TreeEntry) -> (
    Seq<char>,
    u8,
    u32,
    u64,
    Seq<u8>,
    Seq<char>,
) {
    let path = entry_path(root_name, e.rel_path@);
    match e.kind {
        EntryKind::File => (path, TAR_REGULAR, e.mode, e.mtime, e.data@, Seq::empty()),
        EntryKind::Directory => (path, TAR_DIRECTORY, e.mode, e.mtime, Seq::empty(), Seq::empty()),
        EntryKind::Symlink => (path, TAR_SYMLINK, e.mode, e.mtime, Seq::empty(), e.link_target@),
    }
}

/// Whether tar accepts the entry `e` of a tree whose root is named `root_name`.
pub open spec fn entry_ok(root_name: Seq<char>, e: TreeEntry) -> bool {
    archive_path_ok(entry_path(root_name, e.rel_path@)) && (e.kind == EntryKind::Symlink
        ==> link_target_ok(e.link_target@))
}

/// Whether tar accepts every entry of a tree.
pub open spec fn tree_ok(root_name: Seq<char>, entries: Seq<TreeEntry>) -> bool {
    forall|i: int| 0 <= i < entries.len() ==> entry_ok(root_name, #[trigger] entries[i])
}

/// The tar entries recorded for a tree, in the tree's order.
pub open spec fn records_of(root_name: Seq<char>, entries: Seq<TreeEntry>) -> Seq<
    (Seq<char>, u8, u32, u64, Seq<u8>, Seq<char>),
> {
    entries.map_values(|e: TreeEntry| record_of(root_name, e))
}

fn entry_path_exec(root_name: &str, rel: &str) -> (r: String)
    ensures
        r@ == entry_path(root_name@, rel@),
{
    let mut p = root_name.to_string();
    if rel.unicode_len() > 0 {
        p.append("/");
        p.append(rel);
        proof {
            reveal_strlit("/");
        }
    }
    p
}

/// The tar archive of a tree whose root is named `root_name`: one entry per
/// tree entry, in order, each under the root's name; symbolic links are
/// stored as links. The entries are the root itself (relative path empty)
/// and, for a directory, everything beneath it.
pub fn tar_archive(root_name: &str, entries: &Vec<TreeEntry>) -> (r: Result<Vec<u8>, Error>)
    ensures
        r matches Ok(v) ==> v@ == tar_bytes(records_of(root_name@, entries@)),
        r matches Err(e) ==> e is Io,
        tree_ok(root_name@, entries@) ==> r is Ok,
{
    let mut builder = tar_builder();
    let mut i: usize = 0;
    while i < entries.len()
        invariant
            i <= entries@.len(),
            tar_entries(builder) == records_of(root_name@, entries@.subrange(0, i as int)),
        decreases entries@.len() - i,
    {
        let e = &entries[i];
        let path = entry_path_exec(root_name, e.rel_path.as_str());
        let no_data: Vec<u8> = Vec::new();
        let appended = match e.kind {
            EntryKind::File => tar_append_data(
                &mut builder,
                path.as_str(),
                TAR_REGULAR,
                e.mode,
                e.mtime,
                e.data.as_slice(),
            ),
            EntryKind::Directory => tar_append_data(
                &mut builder,
                path.as_str(),
                TAR_DIRECTORY,
                e.mode,
                e.mtime,
                no_data.as_slice(),
            ),
            EntryKind::Symlink => tar_append_symlink(
                &mut builder,
                path.as_str(),
                e.mode,
                e.mtime,
                e.link_target.as_str(),
            ),
        };
        assert(no_data@ =~= Seq::<u8>::empty());
        match appended {
            Ok(()) => {},
            Err(err) => {
                return Err(Error::Io(err));
            },
        }
        assert(records_of(root_name@, entries@.subrange(0, i + 1)) =~= records_of(
            root_name@,
            entries@.subrange(0, i as int),
        ).push(record_of(root_name@, entries@[i as int])));
        i = i + 1;
    }
    assert(entries@.subrange(0, entries@.len() as int) =~= entries@);
    match tar_finish(builder) {
        Ok(v) => Ok(v),
        Err(err) => Err(Error::Io(err)),
    }
}

/// The gzip-compressed tar archive of a tree (see `tar_archive`).
pub fn tar_gz_archive(root_name: &str, entries: &Vec<TreeEntry>) -> (r: Result<Vec<u8>, Error>)
    ensures
        r matches Ok(v) ==> v@ == gzip_of(tar_bytes(records_of(root_name@, entries@))),
        r matches Err(e) ==> e is Io,
        tree_ok(root_name@, entries@) ==> r is Ok,
{
    let tar = tar_archive(root_name, entries)?;
    match gzip(tar.as_slice()) {
        Ok(v) => Ok(v),
        Err(err) => Err(Error::Io(err)),
    }
}

/// The unix permission bits given to the entry of a zip archive.
pub const ZIP_ENTRY_MODE: u32 = 0o755;

/// A zip archive holding one file at its root, named `file_name`, stored
/// without compression, with unix permission bits 0o755 whatever the host.
pub fn zip_archive(file_name: &str, data: &Vec<u8>) -> (r: Result<Vec<u8>, Error>)
    ensures
        r matches Ok(v) ==> v@ == zip_stored(file_name@, ZIP_ENTRY_MODE, data@),
        r matches Err(e) ==> e is Zip,
        data@.len() <= 0xFFFF_FFFF ==> r is Ok,
{
    match zip_one(file_name, ZIP_ENTRY_MODE, data.as_slice()) {
        Ok(v) => Ok(v),
        Err(err) => Err(Error::Zip(err)),
    }
}

/// Archiving a source that is a single regular file records exactly one
/// entry: a regular file named after the source, holding its bytes; and tar
/// accepts it whenever it accepts the source's name.
pub proof fn lemma_single_file_archive(root_name: Seq<char>, file: TreeEntry)
    requires
        file.rel_path@.len() == 0,
        file.kind == EntryKind::File,
    ensures
        archive_path_ok(root_name) ==> tree_ok(root_name, seq![file]),
        records_of(root_name, seq![file]) == seq![
            (root_name, TAR_REGULAR, file.mode, file.mtime, file.data@, Seq::<char>::empty()),
        ],
{
    assert(records_of(root_name, seq![file]) =~= seq![
        (root_name, TAR_REGULAR, file.mode, file.mtime, file.data@, Seq::<char>::empty()),
    ]);
}

} // verus!
