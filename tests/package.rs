use bundler::dispatch::HostOs;
use bundler::package::{build_order, PackageType};

#[test]
fn short_names_round_trip() {
    for t in [
        PackageType::MacOsBundle,
        PackageType::IosBundle,
        PackageType::AppImage,
        PackageType::Dmg,
        PackageType::Updater,
    ] {
        assert_eq!(PackageType::from_short_name(t.short_name()), Some(t));
    }
    assert_eq!(PackageType::MacOsBundle.short_name(), "app");
    assert_eq!(PackageType::IosBundle.short_name(), "ios");
    assert_eq!(PackageType::AppImage.short_name(), "appimage");
    assert_eq!(PackageType::Dmg.short_name(), "dmg");
    assert_eq!(PackageType::Updater.short_name(), "updater");
}

#[test]
fn unknown_short_names_are_rejected() {
    assert_eq!(PackageType::from_short_name("deb"), None);
    assert_eq!(PackageType::from_short_name(""), None);
    assert_eq!(PackageType::from_short_name("App"), None);
    assert_eq!(PackageType::from_short_name("dmg "), None);
}

#[test]
fn priorities() {
    assert_eq!(PackageType::MacOsBundle.priority(), 0);
    assert_eq!(PackageType::IosBundle.priority(), 0);
    assert_eq!(PackageType::AppImage.priority(), 0);
    assert_eq!(PackageType::Dmg.priority(), 1);
    assert_eq!(PackageType::Updater.priority(), 2);
}

#[test]
fn all_lists_the_host_types() {
    assert_eq!(
        PackageType::all(HostOs::MacOs),
        vec![
            PackageType::IosBundle,
            PackageType::MacOsBundle,
            PackageType::Dmg,
            PackageType::Updater,
        ]
    );
    assert_eq!(
        PackageType::all(HostOs::Linux),
        vec![PackageType::AppImage, PackageType::Updater]
    );
    assert_eq!(PackageType::all(HostOs::Windows), vec![PackageType::Updater]);
    assert_eq!(PackageType::all(HostOs::Other), vec![PackageType::Updater]);
}

#[test]
fn build_order_puts_prerequisites_first() {
    let order = build_order(&vec![
        PackageType::Updater,
        PackageType::Dmg,
        PackageType::AppImage,
        PackageType::MacOsBundle,
    ]);
    assert_eq!(
        order,
        vec![
            PackageType::AppImage,
            PackageType::MacOsBundle,
            PackageType::Dmg,
            PackageType::Updater,
        ]
    );
}

#[test]
fn build_order_keeps_request_order_and_duplicates() {
    let order = build_order(&vec![
        PackageType::Dmg,
        PackageType::IosBundle,
        PackageType::Dmg,
        PackageType::MacOsBundle,
    ]);
    assert_eq!(
        order,
        vec![
            PackageType::IosBundle,
            PackageType::MacOsBundle,
            PackageType::Dmg,
            PackageType::Dmg,
        ]
    );
    assert!(build_order(&vec![]).is_empty());
}
