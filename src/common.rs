//! The decisions of the file-system helpers: when a copy is refused, and
//! which operations copy a directory tree; and the outcome of a spawned
//! command.
use vstd::prelude::*;

use crate::archive::EntryKind;
use crate::error::Error;
use crate::text::{join_path, str_join_path};

verus! {

/// What a path refers to on disk, following symbolic links.
#[derive(Clone, Copy, Debug, PartialEq, Eq, Structural)]
pub enum PathState {
    /// Nothing is there.
    Missing,
    /// A regular file.
    File,
    /// A directory.
    Directory,
    /// Something else.
    Other,
}

/// A path between double quotes, as error messages show it.
pub open spec fn quoted(p: Seq<char>) -> Seq<char> {
    "\""@ + p + "\""@
}

fn quote(p: &str) -> (r: String)
    ensures
        r@ == quoted(p@),
{
    let mut s = String::from_str("\"");
    s.append(p);
    s.append("\"");
    s
}

fn message(p: &str, text: &str) -> (r: String)
    ensures
        r@ == quoted(p@) + text@,
{
    let mut s = quote(p);
    s.append(text);
    s
}

/// Whether `r` is the error `Generic` with message `m`.
pub open spec fn is_generic(r: Result<(), Error>, m: Seq<char>) -> bool {
    match r {
        Err(Error::Generic(g)) => g@ == m,
        _ => false,
    }
}

/// Whether a regular file may be copied from `from`: it must exist and be a
/// regular file.
pub fn check_copy_file(from: &str, from_state: PathState) -> (r: Result<(), Error>)
    ensures
        from_state == PathState::Missing ==> is_generic(r, quoted(from@) + " does not exist"@),
        from_state == PathState::File ==> r is Ok,
        from_state != PathState::Missing && from_state != PathState::File ==> is_generic(
            r,
            quoted(from@) + " is not a file"@,
        ),
{
    match from_state {
        PathState::Missing => Err(Error::Generic(message(from, " does not exist"))),
        PathState::File => Ok(()),
        _ => Err(Error::Generic(message(from, " is not a file"))),
    }
}

/// Whether a directory may be copied from `from` to `to`: `from` must be a
/// directory and `to` must not exist.
pub fn check_copy_dir(from: &str, from_state: PathState, to: &str, to_exists: bool) -> (r: Result<
    (),
    Error,
>)
    ensures
        from_state == PathState::Missing ==> is_generic(r, quoted(from@) + " does not exist"@),
        from_state != PathState::Missing && from_state != PathState::Directory ==> is_generic(
            r,
            quoted(from@) + " is not a Directory"@,
        ),
        from_state == PathState::Directory && to_exists ==> is_generic(
            r,
            quoted(to@) + " already exists"@,
        ),
        from_state == PathState::Directory && !to_exists ==> r is Ok,
{
    match from_state {
        PathState::Missing => Err(Error::Generic(message(from, " does not exist"))),
        PathState::Directory => {
            if to_exists {
                Err(Error::Generic(message(to, " already exists")))
            } else {
                Ok(())
            }
        },
        _ => Err(Error::Generic(message(from, " is not a Directory"))),
    }
}

/// An entry met while walking the source directory, root first.
#[derive(Clone, Debug)]
pub struct WalkEntry {
    /// The '/'-separated path relative to the source directory; empty for
    /// the directory itself.
    pub rel_path: String,
    /// What the entry is (a symbolic link is not followed).
    pub kind: EntryKind,
    /// For a symbolic link, its target as stored in the link.
    pub link_target: String,
    /// For a symbolic link, whether it resolves to a directory.
    pub link_to_dir: bool,
}

/// A file-system operation of a directory copy.
#[derive(Clone, Debug)]
pub enum CopyOp {
    /// Create an empty directory.
    CreateDir {
        /// The directory to create.
        path: String,
    },
    /// Create a symbolic link holding `target`.
    Symlink {
        /// The target stored in the link, unresolved.
        target: String,
        /// The link to create.
        link: String,
        /// Whether the target is a directory.
        dir: bool,
    },
    /// Copy the bytes of a regular file.
    CopyFile {
        /// The file to read.
        from: String,
        /// The file to write.
        to: String,
    },
}

/// Whether `op` is the operation that copies the walked entry `e` of `from` into `to`.
pub open spec fn copies_entry(op: CopyOp, from: Seq<char>, to: Seq<char>, e: WalkEntry) -> bool {
    let dest = join_path(to, e.rel_path@);
    match e.kind {
        EntryKind::Directory => match op {
            CopyOp::CreateDir { path } => path@ == dest,
            _ => false,
        },
        EntryKind::Symlink => match op {
            CopyOp::Symlink { target, link, dir } => target@ == e.link_target@ && link@ == dest
                && dir == e.link_to_dir,
            _ => false,
        },
        EntryKind::File => match op {
            CopyOp::CopyFile { from: src, to: dst } => src@ == join_path(from, e.rel_path@) && dst@
                == dest,
            _ => false,
        },
    }
}

/// The operation that copies one walked entry of `from` into `to`: a
/// directory becomes an empty directory, a symbolic link a link with the same
/// unresolved target, a file a byte copy, each at the same relative path.
pub fn copy_op(from: &str, to: &str, e: &WalkEntry) -> (r: CopyOp)
    ensures
        copies_entry(r, from@, to@, *e),
{
    let dest = str_join_path(to, e.rel_path.as_str());
    match e.kind {
        EntryKind::Directory => CopyOp::CreateDir { path: dest },
        EntryKind::Symlink => CopyOp::Symlink {
            target: e.link_target.clone(),
            link: dest,
            dir: e.link_to_dir,
        },
        EntryKind::File => CopyOp::CopyFile {
            from: str_join_path(from, e.rel_path.as_str()),
            to: dest,
        },
    }
}

/// Whether `ops` copies each walked entry of `from` into `to`, in order.
pub open spec fn copies_tree(ops: Seq<CopyOp>, from: Seq<char>, to: Seq<char>, entries: Seq<WalkEntry>) -> bool {
    ops.len() == entries.len() && forall|i: int|
        0 <= i < entries.len() ==> copies_entry(#[trigger] ops[i], from, to, entries[i])
}

/// The operations of a recursive directory copy from `from` to `to`, one per
/// walked entry in the walk's order, after the checks of `check_copy_dir`.
pub fn copy_dir_plan(
    from: &str,
    from_state: PathState,
    to: &str,
    to_exists: bool,
    entries: &Vec<WalkEntry>,
) -> (r: Result<Vec<CopyOp>, Error>)
    ensures
        from_state == PathState::Directory && !to_exists <==> r is Ok,
        r matches Ok(ops) ==> copies_tree(ops@, from@, to@, entries@),
        r matches Err(e) ==> is_generic(Err(e), match from_state {
            PathState::Missing => quoted(from@) + " does not exist"@,
            PathState::Directory => quoted(to@) + " already exists"@,
            _ => quoted(from@) + " is not a Directory"@,
        }),
{
    match check_copy_dir(from, from_state, to, to_exists) {
        Ok(()) => {},
        Err(e) => {
            return Err(e);
        },
    }
    let mut ops: Vec<CopyOp> = Vec::new();
    let mut i: usize = 0;
    while i < entries.len()
        invariant
            i <= entries@.len(),
            ops@.len() == i,
            forall|j: int| 0 <= j < i ==> copies_entry(#[trigger] ops@[j], from@, to@, entries@[j]),
        decreases entries@.len() - i,
    {
        let op = copy_op(from, to, &entries[i]);
        ops.push(op);
        i = i + 1;
    }
    Ok(ops)
}

/// A directory copy keeps the tree: every file is copied byte for byte from
/// the same relative path, every directory is recreated at its relative
/// path, and every symbolic link is recreated with its stored target, not
/// the resolved one.
pub proof fn lemma_copy_dir_keeps_tree(
    ops: Seq<CopyOp>,
    from: Seq<char>,
    to: Seq<char>,
    entries: Seq<WalkEntry>,
    i: int,
)
    requires
        copies_tree(ops, from, to, entries),
        0 <= i < entries.len(),
    ensures
        entries[i].kind == EntryKind::Symlink ==> (ops[i] matches CopyOp::Symlink {
            target,
            link,
            dir,
        } && target@ == entries[i].link_target@ && link@ == join_path(to, entries[i].rel_path@)),
        entries[i].kind == EntryKind::File ==> (ops[i] matches CopyOp::CopyFile { from: src, to: dst }
            && src@ == join_path(from, entries[i].rel_path@) && dst@ == join_path(
            to,
            entries[i].rel_path@,
        )),
        entries[i].kind == EntryKind::Directory ==> (ops[i] matches CopyOp::CreateDir { path }
            && path@ == join_path(to, entries[i].rel_path@)),
{
    assert(copies_entry(ops[i], from, to, entries[i]));
}

/// The output of a spawned command that ran to its end.
#[derive(Clone, Debug)]
pub struct CommandOutput {
    /// Whether it exited successfully.
    pub success: bool,
    /// Everything it wrote to its standard output.
    pub stdout: Vec<u8>,
    /// Everything it wrote to its standard error.
    pub stderr: Vec<u8>,
}

/// The outcome of running `program`: its output when it succeeded, an error
/// naming it otherwise.
pub fn output_result(program: &str, output: CommandOutput) -> (r: Result<CommandOutput, Error>)
    ensures
        output.success ==> (r matches Ok(o) && o.stdout@ == output.stdout@ && o.stderr@
            == output.stderr@ && o.success),
        !output.success ==> (r matches Err(Error::Generic(m)) && m@ == "failed to run "@
            + program@),
{
    if output.success {
        Ok(output)
    } else {
        let mut m = String::from_str("failed to run ");
        m.append(program);
        Err(Error::Generic(m))
    }
}

} // verus!
