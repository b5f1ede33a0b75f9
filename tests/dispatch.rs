use bundler::dispatch::{bundle_steps, BundleFormat, BundleStep, HostOs};

fn strings(v: &[&str]) -> Vec<String> {
    v.iter().map(|s| s.to_string()).collect()
}

#[test]
fn linux_host_without_arguments_builds_linux_formats() {
    let steps = bundle_steps(&vec![], &vec![], HostOs::Linux);
    assert_eq!(
        steps,
        vec![
            BundleStep::Build(BundleFormat::AppImage),
            BundleStep::Build(BundleFormat::Flatpak),
        ]
    );
}

#[test]
fn macos_host_with_selected_type() {
    let steps = bundle_steps(&vec![], &strings(&["dmg"]), HostOs::MacOs);
    assert_eq!(steps, vec![BundleStep::Build(BundleFormat::Dmg)]);
}

#[test]
fn cross_targets_warn_about_native_only_formats() {
    let steps = bundle_steps(
        &strings(&["aarch64-apple-darwin", "x86_64-pc-windows-msvc"]),
        &vec![],
        HostOs::Linux,
    );
    assert_eq!(
        steps,
        vec![
            BundleStep::Build(BundleFormat::AppBundle),
            BundleStep::Unsupported(HostOs::MacOs, BundleFormat::Dmg),
            BundleStep::Unsupported(HostOs::MacOs, BundleFormat::Pkg),
            BundleStep::Build(BundleFormat::Msi),
            BundleStep::Build(BundleFormat::Msix),
            BundleStep::Build(BundleFormat::Wix),
            BundleStep::Unsupported(HostOs::Windows, BundleFormat::Wix),
            BundleStep::Build(BundleFormat::Zip),
        ]
    );
}

#[test]
fn windows_host_builds_windows_formats() {
    let steps = bundle_steps(&vec![], &strings(&["msix", "zip"]), HostOs::Windows);
    assert_eq!(
        steps,
        vec![
            BundleStep::Build(BundleFormat::Msix),
            BundleStep::Build(BundleFormat::Zip),
        ]
    );
    assert!(bundle_steps(&vec![], &vec![], HostOs::Other).is_empty());
}
