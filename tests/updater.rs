use std::io::{Cursor, Read};

use bundler::archive::{EntryKind, TreeEntry};
use bundler::dispatch::HostOs;
use bundler::error::Error;
use bundler::package::PackageType;
use bundler::updater::{update_archive, update_plan, Bundle};

fn bundle(t: PackageType, paths: &[&str]) -> Bundle {
    Bundle {
        package_type: t,
        bundle_paths: paths.iter().map(|p| p.to_string()).collect(),
    }
}

#[test]
fn updater_without_prior_bundle_fails() {
    assert!(matches!(
        update_plan(HostOs::Linux, &vec![]),
        Err(Error::UnableToFindProject)
    ));
    assert!(matches!(
        update_plan(HostOs::MacOs, &vec![]),
        Err(Error::UnableToFindProject)
    ));
    assert!(matches!(
        update_plan(HostOs::MacOs, &vec![bundle(PackageType::Dmg, &["out/App.dmg"])]),
        Err(Error::UnableToFindProject)
    ));
}

#[test]
fn updater_locates_the_app_bundle() {
    let bundles = vec![
        bundle(PackageType::Dmg, &["out/dmg/App.app"]),
        bundle(PackageType::MacOsBundle, &["out/macos/readme.txt", "out/macos/App.app"]),
    ];
    let plan = update_plan(HostOs::MacOs, &bundles).unwrap().unwrap();
    assert_eq!(plan.source, "out/macos/App.app");
    assert_eq!(plan.archive, "out/macos/App.app.tar.gz");
}

#[test]
fn updater_locates_the_appimage() {
    let bundles = vec![bundle(
        PackageType::AppImage,
        &["out/appimage/crab_1.0.0_amd64.AppImage"],
    )];
    let plan = update_plan(HostOs::Linux, &bundles).unwrap().unwrap();
    assert_eq!(plan.source, "out/appimage/crab_1.0.0_amd64.AppImage");
    assert_eq!(plan.archive, "out/appimage/crab_1.0.0_amd64.AppImage.tar.gz");
}

#[test]
fn updater_does_nothing_elsewhere() {
    assert!(matches!(update_plan(HostOs::Windows, &vec![]), Ok(None)));
    assert!(matches!(update_plan(HostOs::Other, &vec![]), Ok(None)));
}

#[test]
fn updater_archives_the_appimage_alone() {
    let bundles = vec![bundle(PackageType::AppImage, &["out/crab.AppImage"])];
    let plan = update_plan(HostOs::Linux, &bundles).unwrap().unwrap();
    let bytes = b"\x7fELF image".to_vec();
    let entries = vec![TreeEntry {
        rel_path: String::new(),
        kind: EntryKind::File,
        mode: 0o755,
        mtime: 0,
        data: bytes.clone(),
        link_target: String::new(),
    }];
    let archive = update_archive(&plan, &entries).expect("archive");
    let mut tar = tar::Archive::new(flate2::read::GzDecoder::new(Cursor::new(archive)));
    let mut seen = Vec::new();
    for e in tar.entries().unwrap() {
        let mut e = e.unwrap();
        let mut data = Vec::new();
        e.read_to_end(&mut data).unwrap();
        seen.push((e.path().unwrap().to_string_lossy().into_owned(), data));
    }
    assert_eq!(seen, vec![("crab.AppImage".to_string(), bytes)]);
}
