//! Which platform bundlers a bundle command runs, for the requested targets
//! and bundle types on a given host.
use vstd::prelude::*;

use crate::settings::contains_seq;
use crate::text::{str_eq, views};

verus! {

/// The OS that the bundling command runs on.
#[derive(Clone, Copy, Debug, PartialEq, Eq, Structural)]
pub enum HostOs {
    /// Linux.
    Linux,
    /// macOS.
    MacOs,
    /// Windows.
    Windows,
    /// Any other OS.
    Other,
}

/// A distributable format made by one platform bundler.
#[derive(Clone, Copy, Debug, PartialEq, Eq, Structural)]
pub enum BundleFormat {
    /// Linux AppImage.
    AppImage,
    /// Linux Flatpak.
    Flatpak,
    /// macOS application bundle.
    AppBundle,
    /// macOS disk image.
    Dmg,
    /// macOS installer package.
    Pkg,
    /// Windows Installer package.
    Msi,
    /// Windows MSIX package.
    Msix,
    /// Windows WiX installer.
    Wix,
    /// Zip archive for Windows.
    Zip,
}

/// One step of a bundle command.
#[derive(Clone, Copy, Debug, PartialEq, Eq, Structural)]
pub enum BundleStep {
    /// Run the bundler of a format.
    Build(BundleFormat),
    /// Warn that a format of a platform cannot be made on this host.
    Unsupported(HostOs, BundleFormat),
}

/// The bundle type name that selects a format.
pub open spec fn format_name(f: BundleFormat) -> Seq<char> {
    match f {
        BundleFormat::AppImage => "appimage"@,
        BundleFormat::Flatpak => "flatpak"@,
        BundleFormat::AppBundle => "appbundle"@,
        BundleFormat::Dmg => "dmg"@,
        BundleFormat::Pkg => "pkg"@,
        BundleFormat::Msi => "msi"@,
        BundleFormat::Msix => "msix"@,
        BundleFormat::Wix => "wix"@,
        BundleFormat::Zip => "zip"@,
    }
}

/// Whether a format was asked for: every format when no type is named.
pub open spec fn wanted(types: Seq<Seq<char>>, f: BundleFormat) -> bool {
    types.len() == 0 || types.contains(format_name(f))
}

/// Whether some target triple holds `word`.
pub open spec fn any_target_holds(targets: Seq<Seq<char>>, word: Seq<char>) -> bool {
    exists|i: int| 0 <= i < targets.len() && contains_seq(#[trigger] targets[i], word)
}

/// Whether the command bundles for a platform: a target names it, or no
/// target is given and the host is that platform.
pub open spec fn for_platform(targets: Seq<Seq<char>>, word: Seq<char>, host: HostOs, platform: HostOs) -> bool {
    any_target_holds(targets, word) || (targets.len() == 0 && host == platform)
}

/// `Build(f)` when `f` is wanted, nothing otherwise.
pub open spec fn build_if_wanted(types: Seq<Seq<char>>, f: BundleFormat) -> Seq<BundleStep> {
    if wanted(types, f) {
        seq![BundleStep::Build(f)]
    } else {
        Seq::empty()
    }
}

/// A format that only `native` hosts make: built when wanted there, warned
/// about elsewhere.
pub open spec fn native_only(types: Seq<Seq<char>>, f: BundleFormat, host: HostOs, native: HostOs) -> Seq<BundleStep> {
    if host == native {
        build_if_wanted(types, f)
    } else {
        seq![BundleStep::Unsupported(native, f)]
    }
}

/// The Linux steps of a bundle command.
pub open spec fn linux_steps(targets: Seq<Seq<char>>, types: Seq<Seq<char>>, host: HostOs) -> Seq<BundleStep> {
    if for_platform(targets, "linux"@, host, HostOs::Linux) {
        native_only(types, BundleFormat::AppImage, host, HostOs::Linux) + native_only(
            types,
            BundleFormat::Flatpak,
            host,
            HostOs::Linux,
        )
    } else {
        Seq::empty()
    }
}

/// The macOS steps of a bundle command.
pub open spec fn macos_steps(targets: Seq<Seq<char>>, types: Seq<Seq<char>>, host: HostOs) -> Seq<BundleStep> {
    if for_platform(targets, "darwin"@, host, HostOs::MacOs) {
        build_if_wanted(types, BundleFormat::AppBundle) + native_only(
            types,
            BundleFormat::Dmg,
            host,
            HostOs::MacOs,
        ) + native_only(types, BundleFormat::Pkg, host, HostOs::MacOs)
    } else {
        Seq::empty()
    }
}

/// The Windows steps of a bundle command: the WiX installer is made on
/// Linux hosts, and warned about on every host but Windows.
pub open spec fn windows_steps(targets: Seq<Seq<char>>, types: Seq<Seq<char>>, host: HostOs) -> Seq<BundleStep> {
    if for_platform(targets, "windows"@, host, HostOs::Windows) {
        build_if_wanted(types, BundleFormat::Msi) + build_if_wanted(types, BundleFormat::Msix) + (
        if host == HostOs::Linux {
            build_if_wanted(types, BundleFormat::Wix)
        } else {
            Seq::empty()
        }) + (if host != HostOs::Windows {
            seq![BundleStep::Unsupported(HostOs::Windows, BundleFormat::Wix)]
        } else {
            Seq::empty()
        }) + build_if_wanted(types, BundleFormat::Zip)
    } else {
        Seq::empty()
    }
}

/// The steps of a bundle command, in order: Linux formats, then macOS, then
/// Windows, each group when the command bundles for that platform.
pub open spec fn bundle_steps_of(targets: Seq<Seq<char>>, types: Seq<Seq<char>>, host: HostOs) -> Seq<BundleStep> {
    linux_steps(targets, types, host) + macos_steps(targets, types, host) + windows_steps(
        targets,
        types,
        host,
    )
}

/// Whether `s` holds `p` somewhere.
fn str_contains(s: &str, p: &str) -> (r: bool)
    ensures
        r == contains_seq(s@, p@),
{
    let n = s.unicode_len();
    let m = p.unicode_len();
    if m > n {
        return false;
    }
    let last = n - m;
    let mut i: usize = 0;
    loop
        invariant
            n == s@.len(),
            m == p@.len(),
            last == n - m,
            i <= last,
            forall|k: int| 0 <= k < i ==> #[trigger] s@.subrange(k, k + m) != p@,
        decreases last - i,
    {
        let piece = s.substring_char(i, i + m);
        if str_eq(piece, p) {
            return true;
        }
        if i == last {
            return false;
        }
        i = i + 1;
    }
}

fn any_contains(targets: &Vec<String>, word: &str) -> (r: bool)
    ensures
        r == any_target_holds(views(targets@), word@),
{
    let mut i: usize = 0;
    while i < targets.len()
        invariant
            i <= targets@.len(),
            forall|k: int| 0 <= k < i ==> !contains_seq(#[trigger] views(targets@)[k], word@),
        decreases targets@.len() - i,
    {
        if str_contains(targets[i].as_str(), word) {
            assert(contains_seq(views(targets@)[i as int], word@));
            return true;
        }
        i = i + 1;
    }
    false
}

fn format_wanted(types: &Vec<String>, f: BundleFormat) -> (r: bool)
    ensures
        r == wanted(views(types@), f),
{
    let name = match f {
        BundleFormat::AppImage => "appimage",
        BundleFormat::Flatpak => "flatpak",
        BundleFormat::AppBundle => "appbundle",
        BundleFormat::Dmg => "dmg",
        BundleFormat::Pkg => "pkg",
        BundleFormat::Msi => "msi",
        BundleFormat::Msix => "msix",
        BundleFormat::Wix => "wix",
        BundleFormat::Zip => "zip",
    };
    if types.len() == 0 {
        return true;
    }
    let mut i: usize = 0;
    while i < types.len()
        invariant
            i <= types@.len(),
            name@ == format_name(f),
            forall|k: int| 0 <= k < i ==> #[trigger] views(types@)[k] != name@,
        decreases types@.len() - i,
    {
        if str_eq(types[i].as_str(), name) {
            assert(views(types@)[i as int] == name@);
            return true;
        }
        i = i + 1;
    }
    false
}

fn push_if_wanted(steps: &mut Vec<BundleStep>, types: &Vec<String>, f: BundleFormat)
    ensures
        final(steps)@ == old(steps)@ + build_if_wanted(views(types@), f),
{
    if format_wanted(types, f) {
        steps.push(BundleStep::Build(f));
    }
    assert(final(steps)@ =~= old(steps)@ + build_if_wanted(views(types@), f));
}

fn push_native_only(steps: &mut Vec<BundleStep>, types: &Vec<String>, f: BundleFormat, host: HostOs, native: HostOs)
    ensures
        final(steps)@ == old(steps)@ + native_only(views(types@), f, host, native),
{
    if host == native {
        push_if_wanted(steps, types, f);
    } else {
        steps.push(BundleStep::Unsupported(native, f));
        assert(final(steps)@ =~= old(steps)@ + native_only(views(types@), f, host, native));
    }
}

fn push_linux_steps(steps: &mut Vec<BundleStep>, targets: &Vec<String>, types: &Vec<String>, host: HostOs)
    ensures
        final(steps)@ == old(steps)@ + linux_steps(views(targets@), views(types@), host),
{
    if any_contains(targets, "linux") || (targets.len() == 0 && host == HostOs::Linux) {
        push_native_only(steps, types, BundleFormat::AppImage, host, HostOs::Linux);
        push_native_only(steps, types, BundleFormat::Flatpak, host, HostOs::Linux);
    }
    assert(final(steps)@ =~= old(steps)@ + linux_steps(views(targets@), views(types@), host));
}

fn push_macos_steps(steps: &mut Vec<BundleStep>, targets: &Vec<String>, types: &Vec<String>, host: HostOs)
    ensures
        final(steps)@ == old(steps)@ + macos_steps(views(targets@), views(types@), host),
{
    if any_contains(targets, "darwin") || (targets.len() == 0 && host == HostOs::MacOs) {
        push_if_wanted(steps, types, BundleFormat::AppBundle);
        push_native_only(steps, types, BundleFormat::Dmg, host, HostOs::MacOs);
        push_native_only(steps, types, BundleFormat::Pkg, host, HostOs::MacOs);
    }
    assert(final(steps)@ =~= old(steps)@ + macos_steps(views(targets@), views(types@), host));
}

fn push_windows_steps(steps: &mut Vec<BundleStep>, targets: &Vec<String>, types: &Vec<String>, host: HostOs)
    ensures
        final(steps)@ == old(steps)@ + windows_steps(views(targets@), views(types@), host),
{
    if any_contains(targets, "windows") || (targets.len() == 0 && host == HostOs::Windows) {
        push_if_wanted(steps, types, BundleFormat::Msi);
        push_if_wanted(steps, types, BundleFormat::Msix);
        let ghost before_wix = steps@;
        if host == HostOs::Linux {
            push_if_wanted(steps, types, BundleFormat::Wix);
        }
        assert(steps@ =~= before_wix + (if host == HostOs::Linux {
            build_if_wanted(views(types@), BundleFormat::Wix)
        } else {
            Seq::empty()
        }));
        let ghost before_warning = steps@;
        if host != HostOs::Windows {
            steps.push(BundleStep::Unsupported(HostOs::Windows, BundleFormat::Wix));
        }
        assert(steps@ =~= before_warning + (if host != HostOs::Windows {
            seq![BundleStep::Unsupported(HostOs::Windows, BundleFormat::Wix)]
        } else {
            Seq::empty()
        }));
        push_if_wanted(steps, types, BundleFormat::Zip);
    }
    assert(final(steps)@ =~= old(steps)@ + windows_steps(views(targets@), views(types@), host));
}

/// The steps of a bundle command for the requested target triples and
/// bundle types on `host` (see `bundle_steps_of`).
pub fn bundle_steps(targets: &Vec<String>, types: &Vec<String>, host: HostOs) -> (r: Vec<BundleStep>)
    ensures
        r@ == bundle_steps_of(views(targets@), views(types@), host),
{
    let mut steps: Vec<BundleStep> = Vec::new();
    push_linux_steps(&mut steps, targets, types, host);
    push_macos_steps(&mut steps, targets, types, host);
    push_windows_steps(&mut steps, targets, types, host);
    assert(steps@ =~= bundle_steps_of(views(targets@), views(types@), host));
    steps
}

} // verus!
