//! The updater archiver: locates the platform's primary bundle among those
//! already built and names the compressed archive to make of it.
use vstd::prelude::*;

use crate::archive::{gzip_of, records_of, tar_bytes, tar_gz_archive, tree_ok, TreeEntry};
use crate::dispatch::HostOs;
use crate::error::Error;
use crate::package::PackageType;
use crate::paths::{extension, file_name, file_name_of, path_extension};
use crate::text::str_eq;

verus! {

/// The output of a completed platform bundler.
#[derive(Debug)]
pub struct Bundle {
    /// The package type of the bundle.
    pub package_type: PackageType,
    /// The paths of the artifacts it produced.
    pub bundle_paths: Vec<String>,
}

/// The update archive to produce: an artifact and the archive made of it.
#[derive(Debug)]
pub struct UpdateArchive {
    /// The located artifact.
    pub source: String,
    /// The path of the archive: the artifact's path with ".tar.gz" appended.
    pub archive: String,
}

/// The bundle type and file extension that the updater archives on a host,
/// if it archives anything there.
pub open spec fn update_source_kind(host: HostOs) -> Option<(PackageType, Seq<char>)> {
    match host {
        HostOs::MacOs => Some((PackageType::MacOsBundle, "app"@)),
        HostOs::Linux => Some((PackageType::AppImage, "AppImage"@)),
        _ => None,
    }
}

/// The first path of `paths` whose extension is `ext`.
pub open spec fn first_with_extension(paths: Seq<String>, ext: Seq<char>) -> Option<Seq<char>>
    decreases paths.len(),
{
    if paths.len() == 0 {
        None
    } else if path_extension(paths[0]@) == Some(ext) {
        Some(paths[0]@)
    } else {
        first_with_extension(paths.drop_first(), ext)
    }
}

/// The first path with extension `ext` of the first bundle of type `ty` that
/// has one.
pub open spec fn locate_in(bundles: Seq<Bundle>, ty: PackageType, ext: Seq<char>) -> Option<
    Seq<char>,
>
    decreases bundles.len(),
{
    if bundles.len() == 0 {
        None
    } else if bundles[0].package_type == ty && first_with_extension(
        bundles[0].bundle_paths@,
        ext,
    ) is Some {
        first_with_extension(bundles[0].bundle_paths@, ext)
    } else {
        locate_in(bundles.drop_first(), ty, ext)
    }
}

/// Whether `r` is the updater's outcome on `host`: nothing to do where the
/// host has no update archive; otherwise the archive of the located artifact,
/// or `UnableToFindProject` where no earlier bundle provides one.
pub open spec fn update_outcome(
    r: Result<Option<UpdateArchive>, Error>,
    host: HostOs,
    bundles: Seq<Bundle>,
) -> bool {
    match update_source_kind(host) {
        None => r matches Ok(None),
        Some((ty, ext)) => match locate_in(bundles, ty, ext) {
            None => r matches Err(Error::UnableToFindProject),
            Some(p) => match r {
                Ok(Some(a)) => a.source@ == p && a.archive@ == p + ".tar.gz"@,
                _ => false,
            },
        },
    }
}

fn has_extension(p: &str, ext: &str) -> (r: bool)
    ensures
        r == (path_extension(p@) == Some(ext@)),
{
    match file_name(p) {
        Some(n) => match extension(n) {
            Some(e) => str_eq(e, ext),
            None => false,
        },
        None => false,
    }
}

fn find_with_extension<'a>(paths: &'a Vec<String>, ext: &str) -> (r: Option<&'a String>)
    ensures
        match r {
            Some(p) => first_with_extension(paths@, ext@) == Some(p@),
            None => first_with_extension(paths@, ext@) is None,
        },
{
    let mut i: usize = 0;
    assert(paths@.subrange(0, paths@.len() as int) =~= paths@);
    while i < paths.len()
        invariant
            i <= paths@.len(),
            first_with_extension(paths@, ext@) == first_with_extension(
                paths@.subrange(i as int, paths@.len() as int),
                ext@,
            ),
        decreases paths@.len() - i,
    {
        assert(paths@.subrange(i as int, paths@.len() as int).drop_first() =~= paths@.subrange(
            i + 1,
            paths@.len() as int,
        ));
        if has_extension(paths[i].as_str(), ext) {
            return Some(&paths[i]);
        }
        i = i + 1;
    }
    None
}

fn locate<'a>(bundles: &'a Vec<Bundle>, ty: PackageType, ext: &str) -> (r: Option<&'a String>)
    ensures
        match r {
            Some(p) => locate_in(bundles@, ty, ext@) == Some(p@),
            None => locate_in(bundles@, ty, ext@) is None,
        },
{
    let mut i: usize = 0;
    assert(bundles@.subrange(0, bundles@.len() as int) =~= bundles@);
    while i < bundles.len()
        invariant
            i <= bundles@.len(),
            locate_in(bundles@, ty, ext@) == locate_in(
                bundles@.subrange(i as int, bundles@.len() as int),
                ty,
                ext@,
            ),
        decreases bundles@.len() - i,
    {
        assert(bundles@.subrange(i as int, bundles@.len() as int).drop_first()
            =~= bundles@.subrange(i + 1, bundles@.len() as int));
        let b = &bundles[i];
        if b.package_type == ty {
            match find_with_extension(&b.bundle_paths, ext) {
                Some(p) => {
                    return Some(p);
                },
                None => {},
            }
        }
        i = i + 1;
    }
    None
}

proof fn lemma_first_has_name(paths: Seq<String>, ext: Seq<char>)
    ensures
        first_with_extension(paths, ext) matches Some(p) ==> file_name_of(p) is Some,
    decreases paths.len(),
{
    if paths.len() > 0 {
        lemma_first_has_name(paths.drop_first(), ext);
    }
}

proof fn lemma_located_has_name(bundles: Seq<Bundle>, ty: PackageType, ext: Seq<char>)
    ensures
        locate_in(bundles, ty, ext) matches Some(p) ==> file_name_of(p) is Some,
    decreases bundles.len(),
{
    if bundles.len() > 0 {
        lemma_first_has_name(bundles[0].bundle_paths@, ext);
        lemma_located_has_name(bundles.drop_first(), ty, ext);
    }
}

/// The updater's plan on `host`: on macOS the `.app` path of a MacOsBundle,
/// on Linux the `.AppImage` path of an AppImage bundle, with the archive path
/// beside it; nothing to do on other hosts; `UnableToFindProject` where no
/// such bundle was built.
pub fn update_plan(host: HostOs, bundles: &Vec<Bundle>) -> (r: Result<Option<UpdateArchive>, Error>)
    ensures
        update_outcome(r, host, bundles@),
        r matches Ok(Some(a)) ==> file_name_of(a.source@) is Some,
{
    proof {
        reveal_strlit("app");
        reveal_strlit("AppImage");
    }
    let (ty, ext) = match host {
        HostOs::MacOs => (PackageType::MacOsBundle, "app"),
        HostOs::Linux => (PackageType::AppImage, "AppImage"),
        _ => {
            return Ok(None);
        },
    };
    proof {
        lemma_located_has_name(bundles@, ty, ext@);
    }
    match locate(bundles, ty, ext) {
        Some(p) => {
            let mut archive = p.clone();
            archive.append(".tar.gz");
            Ok(Some(UpdateArchive { source: p.clone(), archive }))
        },
        None => Err(Error::UnableToFindProject),
    }
}

/// The update archive's bytes: the gzip-compressed tar of the located
/// artifact's tree (see `tar_gz_archive`), rooted at the artifact's own name.
/// It is made whenever tar accepts the tree's entries.
pub fn update_archive(plan: &UpdateArchive, entries: &Vec<TreeEntry>) -> (r: Result<Vec<u8>, Error>)
    requires
        file_name_of(plan.source@) is Some,
    ensures
        r matches Ok(v) ==> v@ == gzip_of(
            tar_bytes(records_of(file_name_of(plan.source@)->Some_0, entries@)),
        ),
        tree_ok(file_name_of(plan.source@)->Some_0, entries@) ==> r is Ok,
        r matches Err(e) ==> e is Io,
{
    match file_name(plan.source.as_str()) {
        Some(root) => tar_gz_archive(root, entries),
        None => unreached(),
    }
}

/// With no bundle built before it, the updater fails with
/// `UnableToFindProject` on every host that needs a prerequisite bundle; it
/// never succeeds with nothing.
pub proof fn lemma_updater_needs_prerequisite(
    r: Result<Option<UpdateArchive>, Error>,
    host: HostOs,
)
    requires
        update_source_kind(host) is Some,
        update_outcome(r, host, Seq::empty()),
    ensures
        r matches Err(Error::UnableToFindProject),
{
}

} // verus!
