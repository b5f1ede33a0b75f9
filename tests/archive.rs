use std::io::{Cursor, Read};

use bundler::archive::{tar_archive, tar_gz_archive, zip_archive, EntryKind, TreeEntry};

fn entry(rel: &str, kind: EntryKind, data: &[u8], link: &str) -> TreeEntry {
    TreeEntry {
        rel_path: rel.to_string(),
        kind,
        mode: 0o755,
        mtime: 1_700_000_000,
        data: data.to_vec(),
        link_target: link.to_string(),
    }
}

#[test]
fn single_file_tar_gz_round_trip() {
    let bytes = b"#!/bin/sh\necho crab\n";
    let archive = tar_gz_archive(
        "crab_1.0.0_amd64.AppImage",
        &vec![entry("", EntryKind::File, bytes, "")],
    )
    .expect("archive");
    assert_eq!(&archive[..2], &[0x1f, 0x8b]);
    let mut tar = tar::Archive::new(flate2::read::GzDecoder::new(Cursor::new(archive)));
    let mut names = Vec::new();
    for e in tar.entries().unwrap() {
        let mut e = e.unwrap();
        let mut data = Vec::new();
        e.read_to_end(&mut data).unwrap();
        names.push(e.path().unwrap().to_string_lossy().into_owned());
        assert_eq!(data, bytes);
        assert_eq!(e.header().mode().unwrap(), 0o755);
    }
    assert_eq!(names, vec!["crab_1.0.0_amd64.AppImage".to_string()]);
}

#[test]
fn directory_tar_keeps_the_root_name_and_links() {
    let archive = tar_archive(
        "App.app",
        &vec![
            entry("", EntryKind::Directory, b"", ""),
            entry("Contents", EntryKind::Directory, b"", ""),
            entry("Contents/Info.plist", EntryKind::File, b"<plist/>", ""),
            entry("Contents/link", EntryKind::Symlink, b"", "Info.plist"),
        ],
    )
    .expect("archive");
    let mut tar = tar::Archive::new(Cursor::new(archive));
    let mut seen = Vec::new();
    for e in tar.entries().unwrap() {
        let e = e.unwrap();
        let path = e.path().unwrap().to_string_lossy().into_owned();
        let link = e
            .link_name()
            .unwrap()
            .map(|l| l.to_string_lossy().into_owned());
        seen.push((path, e.header().entry_type(), link));
    }
    assert_eq!(seen.len(), 4);
    assert_eq!(seen[0].0.trim_end_matches('/'), "App.app");
    assert!(seen[0].1.is_dir());
    assert_eq!(seen[1].0.trim_end_matches('/'), "App.app/Contents");
    assert_eq!(seen[2].0, "App.app/Contents/Info.plist");
    assert!(seen[2].1.is_file());
    assert_eq!(seen[3].0, "App.app/Contents/link");
    assert!(seen[3].1.is_symlink());
    assert_eq!(seen[3].2, Some("Info.plist".to_string()));
}

#[test]
fn zip_stores_one_executable_entry() {
    let data = b"MZ binary".to_vec();
    let bytes = zip_archive("app.exe", &data).expect("zip");
    let mut zip = zip::ZipArchive::new(Cursor::new(bytes)).unwrap();
    assert_eq!(zip.len(), 1);
    let mut f = zip.by_index(0).unwrap();
    assert_eq!(f.name(), "app.exe");
    assert_eq!(f.compression(), zip::CompressionMethod::Stored);
    assert_eq!(f.unix_mode().unwrap() & 0o777, 0o755);
    let mut read = Vec::new();
    f.read_to_end(&mut read).unwrap();
    assert_eq!(read, data);
}

#[test]
fn tar_refuses_parent_components() {
    let r = tar_archive(
        "App.app",
        &vec![entry("../escape.txt", EntryKind::File, b"x", "")],
    );
    assert!(matches!(r, Err(bundler::error::Error::Io(_))));
}

#[test]
fn long_paths_and_links_are_accepted() {
    let deep = "d/".repeat(80) + "file.txt";
    let target = "../".repeat(60) + "target";
    let archive = tar_archive(
        "Root",
        &vec![
            entry(&deep, EntryKind::File, b"deep", ""),
            entry("link", EntryKind::Symlink, b"", &target),
        ],
    )
    .expect("archive");
    let mut tar = tar::Archive::new(Cursor::new(archive));
    let paths: Vec<String> = tar
        .entries()
        .unwrap()
        .map(|e| e.unwrap().path().unwrap().to_string_lossy().into_owned())
        .collect();
    assert_eq!(paths, vec![format!("Root/{deep}"), "Root/link".to_string()]);
}
