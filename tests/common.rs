use std::path::PathBuf;

use bundler::archive::EntryKind;
use bundler::common::{
    check_copy_dir, check_copy_file, copy_dir_plan, output_result, CommandOutput, CopyOp,
    PathState, WalkEntry,
};
use bundler::error::Error;
use bundler::msix;
use bundler::paths::{extension, file_name, is_retina, stem};
use tauri_utils::resources::resource_relpath;

use bundler::text::{str_field, str_join, str_join_path, str_replace_all};

fn walk(rel: &str, kind: EntryKind, link: &str) -> WalkEntry {
    WalkEntry {
        rel_path: rel.to_string(),
        kind,
        link_target: link.to_string(),
        link_to_dir: false,
    }
}

fn generic(r: Result<(), Error>) -> String {
    match r {
        Err(Error::Generic(m)) => m,
        other => panic!("unexpected {other:?}"),
    }
}

#[test]
fn retina_icon_paths() {
    assert!(!is_retina("data/icons/512x512.png"));
    assert!(is_retina("data/icons/512x512@2x.png"));
}

#[test]
fn retina_edge_cases() {
    assert!(!is_retina("icons/512x512.png"));
    assert!(is_retina("icons/512x512@2x.png"));
    assert!(is_retina("icon@2x"));
    assert!(!is_retina("icons/@2x.d/plain.png"));
    assert!(!is_retina(""));
    assert!(is_retina("x@2x/."));
    assert!(is_retina("icons/x@2x.png/./"));
    assert!(!is_retina("icons/x@2x.png.bak"));
}

#[test]
fn resource_relative_paths() {
    assert_eq!(
        resource_relpath(&PathBuf::from("./data/images/button.png")),
        PathBuf::from("data/images/button.png")
    );
    assert_eq!(
        resource_relpath(&PathBuf::from("../../images/wheel.png")),
        PathBuf::from("_up_/_up_/images/wheel.png")
    );
    assert_eq!(
        resource_relpath(&PathBuf::from("/home/ferris/crab.png")),
        PathBuf::from("_root_/home/ferris/crab.png")
    );
}

#[test]
fn path_names() {
    assert_eq!(file_name("out/App.app/"), Some("App.app"));
    assert_eq!(file_name("App.AppImage"), Some("App.AppImage"));
    assert_eq!(file_name("out/.."), None);
    assert_eq!(file_name("/"), None);
    assert_eq!(file_name("out/App.app/."), Some("App.app"));
    assert_eq!(file_name("."), None);
    assert_eq!(file_name("/."), None);
    assert_eq!(extension("App.app"), Some("app"));
    assert_eq!(extension("archive.tar.gz"), Some("gz"));
    assert_eq!(extension(".hidden"), None);
    assert_eq!(extension("plain"), None);
    assert_eq!(stem("archive.tar.gz"), "archive.tar");
    assert_eq!(stem(".hidden"), ".hidden");
}

#[test]
fn text_operations() {
    assert_eq!(str_field("x86_64-unknown-linux-gnu", '-', 2), Some("linux"));
    assert_eq!(str_field("x86_64-apple-darwin", '-', 2), Some("darwin"));
    assert_eq!(str_field("wasm32", '-', 2), None);
    assert_eq!(str_field("a--b", '-', 1), Some(""));
    assert_eq!(str_replace_all("darwin20-darwin", "darwin", "macos"), "macos20-macos");
    assert_eq!(str_replace_all("aaa", "aa", "b"), "ba");
    assert_eq!(
        str_join(&vec!["a".to_string(), "b".to_string(), "c".to_string()], ", "),
        "a, b, c"
    );
    assert_eq!(str_join(&vec![], ", "), "");
    assert_eq!(str_join_path("a", "b"), "a/b");
    assert_eq!(str_join_path("a/", "b"), "a/b");
    assert_eq!(str_join_path("a", "/b"), "/b");
    assert_eq!(str_join_path("", "b"), "b");
}

#[test]
fn copy_file_checks() {
    assert!(check_copy_file("a.txt", PathState::File).is_ok());
    assert_eq!(
        generic(check_copy_file("a.txt", PathState::Missing)),
        "\"a.txt\" does not exist"
    );
    assert_eq!(
        generic(check_copy_file("dir", PathState::Directory)),
        "\"dir\" is not a file"
    );
}

#[test]
fn copy_dir_checks() {
    assert!(check_copy_dir("orig", PathState::Directory, "copy", false).is_ok());
    assert_eq!(
        generic(check_copy_dir("orig", PathState::Missing, "copy", false)),
        "\"orig\" does not exist"
    );
    assert_eq!(
        generic(check_copy_dir("orig", PathState::File, "copy", false)),
        "\"orig\" is not a Directory"
    );
    assert_eq!(
        generic(check_copy_dir("orig", PathState::Directory, "copy", true)),
        "\"copy\" already exists"
    );
}

#[test]
fn copy_dir_with_symlinks() {
    // The walk of a tree that looks like this:
    //   orig/
    //       sub/
    //           file.txt
    //       link -> sub/file.txt
    let entries = vec![
        walk("", EntryKind::Directory, ""),
        walk("sub", EntryKind::Directory, ""),
        walk("sub/file.txt", EntryKind::File, ""),
        walk("link", EntryKind::Symlink, "sub/file.txt"),
    ];
    let ops = copy_dir_plan("tmp/orig", PathState::Directory, "tmp/parent/copy", false, &entries)
        .expect("Failed to copy dir");
    assert_eq!(ops.len(), 4);
    assert!(matches!(&ops[0], CopyOp::CreateDir { path } if path == "tmp/parent/copy/"));
    assert!(matches!(&ops[1], CopyOp::CreateDir { path } if path == "tmp/parent/copy/sub"));
    assert!(matches!(&ops[2], CopyOp::CopyFile { from, to }
        if from == "tmp/orig/sub/file.txt" && to == "tmp/parent/copy/sub/file.txt"));
    assert!(matches!(&ops[3], CopyOp::Symlink { target, link, dir }
        if target == "sub/file.txt" && link == "tmp/parent/copy/link" && !*dir));
    assert!(copy_dir_plan("tmp/orig", PathState::Directory, "tmp/orig2", true, &entries).is_err());
}

#[test]
fn command_output_outcome() {
    let ok = output_result(
        "ls",
        CommandOutput {
            success: true,
            stdout: b"a\n".to_vec(),
            stderr: vec![],
        },
    )
    .expect("ok");
    assert_eq!(ok.stdout, b"a\n");
    let err = output_result(
        "hdiutil",
        CommandOutput {
            success: false,
            stdout: vec![],
            stderr: b"boom\n".to_vec(),
        },
    );
    match err {
        Err(Error::Generic(m)) => assert_eq!(m, "failed to run hdiutil"),
        other => panic!("unexpected {other:?}"),
    }
}

#[test]
fn msix_bundle_is_empty() {
    assert_eq!(msix::bundle().unwrap(), "");
}
