use std::collections::HashMap;

use bundler::error::Error;
use bundler::package::PackageType;
use bundler::settings::{
    BundleBinary, BundleSettings, LogLevel, PackageSettings, Settings, SettingsBuilder,
    UpdaterSettings, WindowsSettings,
};

fn package() -> PackageSettings {
    PackageSettings {
        product_name: "Crab".to_string(),
        version: "1.2.3".to_string(),
        description: "A crab app".to_string(),
        homepage: None,
        authors: Some(vec!["Ferris".to_string(), "Corro".to_string()]),
        default_run: None,
    }
}

fn settings_for(target: &str, bundle: BundleSettings, types: Option<Vec<PackageType>>) -> Settings {
    let mut builder = SettingsBuilder::new()
        .package_settings(package())
        .project_out_directory("target/release")
        .bundle_settings(bundle)
        .binaries(vec![
            BundleBinary::new("helper".to_string(), false),
            BundleBinary::new("crab".to_string(), true),
        ])
        .target(target.to_string());
    if let Some(types) = types {
        builder = builder.package_types(types);
    }
    builder.build().expect("settings")
}

fn with_updater(key: &str) -> BundleSettings {
    BundleSettings {
        updater: Some(UpdaterSettings {
            pubkey: key.to_string(),
            msiexec_args: None,
        }),
        ..Default::default()
    }
}

#[test]
fn resources_list_and_map_together_are_rejected() {
    let mut map = HashMap::new();
    map.insert("a.txt".to_string(), "data/a.txt".to_string());
    let bundle = BundleSettings {
        resources: Some(vec!["b.txt".to_string()]),
        resources_map: Some(map),
        ..Default::default()
    };
    let r = SettingsBuilder::new()
        .package_settings(package())
        .project_out_directory("out")
        .bundle_settings(bundle)
        .target("x86_64-unknown-linux-gnu".to_string())
        .build();
    assert!(matches!(r, Err(Error::ConflictingResources)));
}

#[test]
fn resources_list_alone_is_accepted() {
    let bundle = BundleSettings {
        resources: Some(vec!["b.txt".to_string()]),
        ..Default::default()
    };
    let s = settings_for("x86_64-unknown-linux-gnu", bundle, None);
    assert_eq!(
        s.bundle_settings().resources,
        Some(vec!["b.txt".to_string()])
    );
}

#[test]
fn builder_defaults() {
    let s = settings_for("x86_64-unknown-linux-gnu", BundleSettings::default(), None);
    assert_eq!(s.log_level(), LogLevel::Error);
    assert_eq!(s.target(), "x86_64-unknown-linux-gnu");
    assert_eq!(s.project_out_directory(), "target/release");
    assert_eq!(s.product_name(), "Crab");
    assert_eq!(s.version_string(), "1.2.3");
    assert_eq!(s.bundle_identifier(), "");
    assert_eq!(s.homepage_url(), "");
    assert_eq!(s.short_description(), "A crab app");
    assert_eq!(s.publisher(), None);
    assert!(!s.is_update_enabled());
    let w = WindowsSettings::default();
    assert_eq!(w.icon_path, "icons/icon.ico");
    assert!(w.allow_downgrades);
    assert!(!w.tsp);
}

#[test]
fn builder_log_level_and_set_log_level() {
    let mut s = SettingsBuilder::new()
        .package_settings(package())
        .project_out_directory("out")
        .log_level(LogLevel::Debug)
        .target("aarch64-apple-darwin".to_string())
        .build()
        .expect("settings");
    assert_eq!(s.log_level(), LogLevel::Debug);
    s.set_log_level(LogLevel::Trace);
    assert_eq!(s.log_level(), LogLevel::Trace);
}

#[test]
fn external_binaries_get_the_target_appended() {
    let bundle = BundleSettings {
        external_bin: Some(vec!["bin/sqlite3".to_string(), "tool".to_string()]),
        ..Default::default()
    };
    let s = settings_for("x86_64-unknown-linux-gnu", bundle, None);
    assert_eq!(
        s.bundle_settings().external_bin,
        Some(vec![
            "bin/sqlite3-x86_64-unknown-linux-gnu".to_string(),
            "tool-x86_64-unknown-linux-gnu".to_string()
        ])
    );
    let bundle = BundleSettings {
        external_bin: Some(vec!["sqlite3".to_string()]),
        ..Default::default()
    };
    let s = settings_for("x86_64-pc-windows-msvc", bundle, None);
    assert_eq!(
        s.bundle_settings().external_bin,
        Some(vec!["sqlite3-x86_64-pc-windows-msvc.exe".to_string()])
    );
}

#[test]
fn external_binary_destination_drops_the_target() {
    let s = settings_for("x86_64-unknown-linux-gnu", BundleSettings::default(), None);
    assert_eq!(
        s.external_binary_destination("out/bin", "sqlite3-x86_64-unknown-linux-gnu"),
        "out/bin/sqlite3"
    );
    assert_eq!(s.external_binary_destination("out/bin/", "plain"), "out/bin/plain");
}

#[test]
fn binary_arch_by_prefix() {
    let arch = |t: &str| {
        settings_for(t, BundleSettings::default(), None)
            .binary_arch()
            .to_string()
    };
    assert_eq!(arch("x86_64-unknown-linux-gnu"), "x86_64");
    assert_eq!(arch("i686-pc-windows-msvc"), "x86");
    assert_eq!(arch("armv7-unknown-linux-gnueabihf"), "arm");
    assert_eq!(arch("aarch64-apple-darwin"), "aarch64");
    assert_eq!(arch("universal-apple-darwin"), "universal");
}

#[test]
fn main_binary_and_binary_path() {
    let s = settings_for("x86_64-unknown-linux-gnu", BundleSettings::default(), None);
    assert_eq!(s.main_binary_name(), "crab");
    assert_eq!(s.binaries().len(), 2);
    assert_eq!(s.binary_path(&s.binaries()[0]), "target/release/helper");
}

#[test]
fn authors() {
    let s = settings_for("x86_64-unknown-linux-gnu", BundleSettings::default(), None);
    assert_eq!(s.author_names(), &["Ferris".to_string(), "Corro".to_string()]);
    assert_eq!(s.authors_comma_separated(), Some("Ferris, Corro".to_string()));
    let mut p = package();
    p.authors = Some(vec![]);
    let s = SettingsBuilder::new()
        .package_settings(p)
        .project_out_directory("out")
        .target("x86_64-unknown-linux-gnu".to_string())
        .build()
        .expect("settings");
    assert_eq!(s.authors_comma_separated(), None);
}

#[test]
fn package_types_per_target_os() {
    let types = |t: &str| {
        settings_for(t, BundleSettings::default(), None)
            .package_types()
            .ok()
    };
    assert_eq!(
        types("aarch64-apple-darwin"),
        Some(vec![PackageType::MacOsBundle, PackageType::Dmg])
    );
    assert_eq!(
        types("x86_64-unknown-linux-gnu"),
        Some(vec![PackageType::AppImage])
    );
    assert_eq!(types("aarch64-apple-ios"), Some(vec![PackageType::IosBundle]));
    assert_eq!(types("x86_64-pc-windows-msvc"), Some(vec![]));
}

#[test]
fn package_types_unsupported_os() {
    let s = settings_for("x86_64-unknown-freebsd", BundleSettings::default(), None);
    match s.package_types() {
        Err(Error::Generic(m)) => assert_eq!(m, "Native freebsd bundles not yet supported."),
        other => panic!("unexpected {other:?}"),
    }
}

#[test]
fn package_types_with_updater_and_request() {
    let s = settings_for("x86_64-apple-darwin", with_updater("KEY"), None);
    assert!(s.is_update_enabled());
    assert_eq!(
        s.package_types().ok(),
        Some(vec![
            PackageType::MacOsBundle,
            PackageType::Dmg,
            PackageType::Updater
        ])
    );
    let s = settings_for("x86_64-apple-darwin", with_updater(""), None);
    assert!(!s.is_update_enabled());
    let s = settings_for(
        "x86_64-unknown-linux-gnu",
        with_updater("KEY"),
        Some(vec![
            PackageType::Updater,
            PackageType::Dmg,
            PackageType::AppImage,
        ]),
    );
    assert_eq!(
        s.package_types().ok(),
        Some(vec![PackageType::Updater, PackageType::AppImage])
    );
}

#[test]
fn bundle_binary_accessors() {
    let mut b = BundleBinary::new("app".to_string(), false).set_src_path(Some("src/main.rs".to_string()));
    assert_eq!(b.name(), "app");
    assert!(!b.main());
    assert_eq!(b.src_path(), Some(&"src/main.rs".to_string()));
    b.set_main(true);
    b.set_name("other".to_string());
    assert!(b.main());
    assert_eq!(b.name(), "other");
    assert_eq!(b.src_path(), Some(&"src/main.rs".to_string()));
}
