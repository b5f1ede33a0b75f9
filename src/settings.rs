//! The resolved, read-only settings of one bundling run, and their builder.
use std::collections::HashMap;
use vstd::prelude::*;

use crate::error::Error;
use tauri_utils::config::{DeepLinkProtocol, FileAssociation};
use tauri_utils::Error as UtilsError;
use crate::package::PackageType;
use crate::text::{
    field, join, join_path, replace_all, starts_with, str_field, str_join, str_join_path,
    str_replace_all, str_starts_with, views,
};

verus! {

/// The severity threshold for the output of spawned commands.
#[derive(Clone, Copy, Debug, PartialEq, Eq, Structural)]
pub enum LogLevel {
    /// Errors only.
    Error,
    /// Warnings and errors.
    Warn,
    /// Informational messages and above.
    Info,
    /// Debugging messages and above.
    Debug,
    /// Everything.
    Trace,
}

/// The package settings.
#[derive(Debug, Clone)]
pub struct PackageSettings {
    /// the package's product name.
    pub product_name: String,
    /// the package's version.
    pub version: String,
    /// the package's description.
    pub description: String,
    /// the package's homepage.
    pub homepage: Option<String>,
    /// the package's authors.
    pub authors: Option<Vec<String>>,
    /// the default binary to run.
    pub default_run: Option<String>,
}

/// The updater settings.
#[derive(Debug, Default, Clone)]
pub struct UpdaterSettings {
    /// Signature public key.
    pub pubkey: String,
    /// Args to pass to `msiexec.exe` to run the updater on Windows.
    pub msiexec_args: Option<Vec<String>>,
}

/// A file association of the app, as tauri-utils configures it.
#[verifier::external_type_specification]
#[verifier::external_body]
pub struct ExFileAssociation(FileAssociation);

/// A deep-link protocol of the app, as tauri-utils configures it.
#[verifier::external_type_specification]
#[verifier::external_body]
pub struct ExDeepLinkProtocol(DeepLinkProtocol);

/// The Linux AppImage bundle settings.
#[derive(Clone, Debug, Default)]
pub struct AppImageSettings {
    /// The files to include in the Appimage Binary, by their path in the image.
    pub files: HashMap<String, String>,
}

/// Position coordinates struct.
#[derive(Clone, Copy, Debug, Default)]
pub struct Position {
    /// X coordinate.
    pub x: u32,
    /// Y coordinate.
    pub y: u32,
}

/// Size of the window.
#[derive(Clone, Copy, Debug, Default)]
pub struct Size {
    /// Width of the window.
    pub width: u32,
    /// Height of the window.
    pub height: u32,
}

/// The DMG bundle settings.
#[derive(Clone, Debug, Default)]
pub struct DmgSettings {
    /// Image to use as the background in dmg file. Accepted formats: `png`/`jpg`/`gif`.
    pub background: Option<String>,
    /// Position of volume window on screen.
    pub window_position: Option<Position>,
    /// Size of volume window.
    pub window_size: Size,
    /// Position of app file on window.
    pub app_position: Position,
    /// Position of application folder on window.
    pub application_folder_position: Position,
}

/// The macOS bundle settings.
#[derive(Clone, Debug, Default)]
pub struct MacOsSettings {
    /// MacOS frameworks that need to be bundled with the app: framework names
    /// or paths to framework bundles.
    pub frameworks: Option<Vec<String>>,
    /// Custom files to add to the application bundle: maps the path in the
    /// Contents directory to the path of the file to include.
    pub files: HashMap<String, String>,
    /// The minimum MacOS version that the bundled app supports (e.g. `"10.11"`).
    pub minimum_system_version: Option<String>,
    /// The exception domain to use on the macOS .app bundle.
    pub exception_domain: Option<String>,
    /// Code signing identity.
    pub signing_identity: Option<String>,
    /// Provider short name for notarization.
    pub provider_short_name: Option<String>,
    /// Path to the entitlements.plist file.
    pub entitlements: Option<String>,
    /// Path to the Info.plist file for the bundle.
    pub info_plist_path: Option<String>,
}

/// The Windows bundle settings.
#[derive(Clone, Debug)]
pub struct WindowsSettings {
    /// The file digest algorithm to use for creating file signatures.
    pub digest_algorithm: Option<String>,
    /// The SHA1 hash of the signing certificate.
    pub certificate_thumbprint: Option<String>,
    /// Server to use during timestamping.
    pub timestamp_url: Option<String>,
    /// Whether to use Time-Stamp Protocol (RFC 3161) for the timestamp server.
    pub tsp: bool,
    /// The path to the application icon. Defaults to `icons/icon.ico`.
    pub icon_path: String,
    /// Validates a second app installation, blocking the user from installing
    /// an older version if set to `false`. Defaults to `true`.
    pub allow_downgrades: bool,
}

impl Default for WindowsSettings {
    fn default() -> (r: Self)
        ensures
            r.digest_algorithm is None,
            r.certificate_thumbprint is None,
            r.timestamp_url is None,
            !r.tsp,
            r.icon_path@ == "icons/icon.ico"@,
            r.allow_downgrades,
    {
        Self {
            digest_algorithm: None,
            certificate_thumbprint: None,
            timestamp_url: None,
            tsp: false,
            icon_path: String::from_str("icons/icon.ico"),
            allow_downgrades: true,
        }
    }
}

/// The bundle settings of the build artifact we're bundling.
#[derive(Debug)]
pub struct BundleSettings {
    /// the app's identifier.
    pub identifier: Option<String>,
    /// The app's publisher.
    pub publisher: Option<String>,
    /// the app's icon list.
    pub icon: Option<Vec<String>>,
    /// the app's resources to bundle: paths to files or folders, or glob patterns.
    pub resources: Option<Vec<String>>,
    /// The app's resources to bundle, each mapped to its target directory in
    /// the bundle resources directory. Cannot be used together with `resources`.
    pub resources_map: Option<HashMap<String, String>>,
    /// the app's copyright.
    pub copyright: Option<String>,
    /// The package's license identifier.
    pub license: Option<String>,
    /// The path to the license file.
    pub license_file: Option<String>,
    /// the file associations
    pub file_associations: Option<Vec<FileAssociation>>,
    /// the app's short description.
    pub short_description: Option<String>,
    /// the app's long description.
    pub long_description: Option<String>,
    /// Configuration map for the apps to bundle.
    pub bin: Option<HashMap<String, BundleSettings>>,
    /// External binaries to add to the bundle, by base name; the builder
    /// appends the target triple (and `.exe` on Windows) to each.
    pub external_bin: Option<Vec<String>>,
    /// Deep-link protocols.
    pub deep_link_protocols: Option<Vec<DeepLinkProtocol>>,
    /// AppImage-specific settings.
    pub appimage: AppImageSettings,
    /// DMG-specific settings.
    pub dmg: DmgSettings,
    /// MacOS-specific settings.
    pub macos: MacOsSettings,
    /// Updater configuration.
    pub updater: Option<UpdaterSettings>,
    /// Windows-specific settings.
    pub windows: WindowsSettings,
}

impl Default for BundleSettings {
    fn default() -> (r: Self)
        ensures
            r.identifier is None,
            r.publisher is None,
            r.icon is None,
            r.resources is None,
            r.resources_map is None,
            r.external_bin is None,
            r.updater is None,
    {
        let origin = Position { x: 0, y: 0 };
        BundleSettings {
            identifier: None,
            publisher: None,
            icon: None,
            resources: None,
            resources_map: None,
            copyright: None,
            license: None,
            license_file: None,
            file_associations: None,
            short_description: None,
            long_description: None,
            bin: None,
            external_bin: None,
            deep_link_protocols: None,
            appimage: AppImageSettings { files: HashMap::new() },
            dmg: DmgSettings {
                background: None,
                window_position: None,
                window_size: Size { width: 0, height: 0 },
                app_position: origin,
                application_folder_position: origin,
            },
            macos: MacOsSettings {
                frameworks: None,
                files: HashMap::new(),
                minimum_system_version: None,
                exception_domain: None,
                signing_identity: None,
                provider_short_name: None,
                entitlements: None,
                info_plist_path: None,
            },
            updater: None,
            windows: WindowsSettings::default(),
        }
    }
}


/// A binary to bundle.
#[derive(Clone, Debug)]
pub struct BundleBinary {
    name: String,
    src_path: Option<String>,
    main: bool,
}

/// What a `BundleBinary` holds.
pub struct BundleBinaryView {
    /// The binary name.
    pub name: Seq<char>,
    /// The source path override.
    pub src_path: Option<Seq<char>>,
    /// Whether this is the main executable.
    pub main: bool,
}

impl View for BundleBinary {
    type V = BundleBinaryView;

    closed spec fn view(&self) -> BundleBinaryView {
        BundleBinaryView {
            name: self.name@,
            src_path: match self.src_path {
                Some(p) => Some(p@),
                None => None,
            },
            main: self.main,
        }
    }
}

impl BundleBinary {
    /// Creates a new bundle binary.
    pub fn new(name: String, main: bool) -> (r: Self)
        ensures
            r@.name == name@,
            r@.src_path is None,
            r@.main == main,
    {
        Self { name, src_path: None, main }
    }

    /// Sets the src path of the binary.
    #[must_use]
    pub fn set_src_path(self, src_path: Option<String>) -> (r: Self)
        ensures
            r@.name == self@.name,
            r@.main == self@.main,
            r@.src_path == match src_path {
                Some(p) => Some(p@),
                None => None::<Seq<char>>,
            },
    {
        BundleBinary { src_path, ..self }
    }

    /// Mark the binary as the main executable.
    pub fn set_main(&mut self, main: bool)
        ensures
            final(self)@.name == old(self)@.name,
            final(self)@.src_path == old(self)@.src_path,
            final(self)@.main == main,
    {
        self.main = main;
    }

    /// Sets the binary name.
    pub fn set_name(&mut self, name: String)
        ensures
            final(self)@.name == name@,
            final(self)@.src_path == old(self)@.src_path,
            final(self)@.main == old(self)@.main,
    {
        self.name = name;
    }

    /// Returns the binary name.
    pub fn name(&self) -> (r: &str)
        ensures
            r@ == self@.name,
    {
        self.name.as_str()
    }

    /// Returns the binary `main` flag.
    pub fn main(&self) -> (r: bool)
        ensures
            r == self@.main,
    {
        self.main
    }

    /// Returns the binary source path.
    pub fn src_path(&self) -> (r: Option<&String>)
        ensures
            match r {
                Some(p) => self@.src_path == Some(p@),
                None => self@.src_path is None,
            },
    {
        self.src_path.as_ref()
    }
}


/// Whether `s` holds `p` somewhere.
pub open spec fn contains_seq(s: Seq<char>, p: Seq<char>) -> bool {
    exists|i: int| 0 <= i && i + p.len() <= s.len() && #[trigger] s.subrange(i, i + p.len()) == p
}

/// Whether a target triple names a Windows target (a Darwin triple never does).
pub open spec fn windows_target(target: Seq<char>) -> bool {
    !contains_seq(target, "darwin"@) && contains_seq(target, "windows"@)
}

/// The file name of an external binary for a target: `<name>-<target>`,
/// with `.exe` for a Windows target.
pub open spec fn sidecar_name(name: Seq<char>, target: Seq<char>) -> Seq<char> {
    name + "-"@ + target + if windows_target(target) {
        ".exe"@
    } else {
        Seq::empty()
    }
}

/// `sidecar_name` of each name.
pub open spec fn sidecar_names(names: Seq<Seq<char>>, target: Seq<char>) -> Seq<Seq<char>> {
    names.map_values(|n: Seq<char>| sidecar_name(n, target))
}

/// Relies on tauri_utils::resources::external_binaries, which formats each
/// name as `{name}-{target}{ext}` with ext ".exe" when the platform is
/// Windows, and on tauri_utils::platform::Target::from_triple, which gives
/// MacOS for a triple holding "darwin" and otherwise Windows for one holding
/// "windows".
#[verifier::external_body]
fn expand_external_binaries(names: &Vec<String>, target: &str) -> (r: Vec<String>)
    ensures
        views(r@) == sidecar_names(views(names@), target@),
{
    let platform = tauri_utils::platform::Target::from_triple(target);
    tauri_utils::resources::external_binaries(names, target, &platform)
}

/// Relies on tauri_utils::platform::target_triple: the target triple of the
/// host this program was built for, or an error for an architecture, OS or
/// environment that it does not know. The triple is formatted as
/// `{arch}-{os}` with an `os` part of the form `vendor-os[-env]` and an
/// `arch` without '-', so it always has a third '-'-separated field.
#[verifier::external_body]
fn host_target_triple() -> (r: Result<String, UtilsError>)
    ensures
        r matches Ok(t) ==> field(t@, '-', 2) is Some,
{
    tauri_utils::platform::target_triple()
}

/// Whether a resource list and a resource map are not both configured.
pub open spec fn resources_exclusive(b: BundleSettings) -> bool {
    !(b.resources is Some && b.resources_map is Some)
}

/// Whether updates are enabled: an updater with a non-empty public key.
pub open spec fn update_enabled(b: BundleSettings) -> bool {
    match b.updater {
        Some(u) => u.pubkey@.len() > 0,
        None => false,
    }
}

/// The architecture named by the start of a target triple.
pub open spec fn arch_of(target: Seq<char>) -> Option<Seq<char>> {
    if starts_with(target, "x86_64"@) {
        Some("x86_64"@)
    } else if starts_with(target, "i"@) {
        Some("x86"@)
    } else if starts_with(target, "arm"@) {
        Some("arm"@)
    } else if starts_with(target, "aarch64"@) {
        Some("aarch64"@)
    } else if starts_with(target, "universal"@) {
        Some("universal"@)
    } else {
        None
    }
}

/// The OS name of a target triple's OS field, with "darwin" read as "macos".
pub open spec fn normalized_os(os: Seq<char>) -> Seq<char> {
    replace_all(os, "darwin"@, "macos"@)
}

/// The native package types of an OS, if bundles for it are supported.
pub open spec fn native_types(os: Seq<char>) -> Option<Seq<PackageType>> {
    if os == "macos"@ {
        Some(seq![PackageType::MacOsBundle, PackageType::Dmg])
    } else if os == "ios"@ {
        Some(seq![PackageType::IosBundle])
    } else if os == "linux"@ {
        Some(seq![PackageType::AppImage])
    } else if os == "windows"@ {
        Some(Seq::empty())
    } else {
        None
    }
}

/// The types of `req` that `platform` holds, in the order of `req`.
pub open spec fn retain_in(req: Seq<PackageType>, platform: Seq<PackageType>) -> Seq<PackageType> {
    req.filter(|t: PackageType| platform.contains(t))
}

/// The package types to build for a normalized OS name: the native types,
/// with Updater when updates are enabled, narrowed to the requested ones in
/// the request's order when there is a request.
pub open spec fn package_types_for(
    os: Seq<char>,
    update: bool,
    requested: Option<Seq<PackageType>>,
) -> Option<Seq<PackageType>> {
    match native_types(os) {
        Some(native) => {
            let platform = if update {
                native.push(PackageType::Updater)
            } else {
                native
            };
            match requested {
                Some(req) => Some(retain_in(req, platform)),
                None => Some(platform),
            }
        },
        None => None,
    }
}

/// The message of the error for an OS without native bundles.
pub open spec fn unsupported_os_message(os: Seq<char>) -> Seq<char> {
    "Native "@ + os + " bundles not yet supported."@
}

/// Whether `r` is the outcome of choosing package types for the OS field `os`.
pub open spec fn package_types_outcome(
    r: Result<Vec<PackageType>, Error>,
    os: Seq<char>,
    update: bool,
    requested: Option<Seq<PackageType>>,
) -> bool {
    match package_types_for(normalized_os(os), update, requested) {
        Some(types) => match r {
            Ok(v) => v@ == types,
            Err(_) => false,
        },
        None => match r {
            Err(Error::Generic(m)) => m@ == unsupported_os_message(normalized_os(os)),
            _ => false,
        },
    }
}

/// Whether `i` is the position of the first main binary of `bins`.
pub open spec fn is_first_main(bins: Seq<BundleBinary>, i: int) -> bool {
    0 <= i < bins.len() && bins[i]@.main && forall|j: int| 0 <= j < i ==> !(#[trigger] bins[j]@.main)
}

/// The views of an optional string.
pub open spec fn opt_view(s: Option<String>) -> Option<Seq<char>> {
    match s {
        Some(x) => Some(x@),
        None => None,
    }
}

/// What a `Settings` holds.
pub struct SettingsModel {
    /// The log level for spawned commands.
    pub log_level: LogLevel,
    /// The package settings.
    pub package: PackageSettings,
    /// The package types that were asked for, if any.
    pub package_types: Option<Seq<PackageType>>,
    /// The output directory.
    pub out_dir: Seq<char>,
    /// The bundle settings.
    pub bundle: BundleSettings,
    /// The binaries to bundle.
    pub binaries: Seq<BundleBinary>,
    /// The target triple.
    pub target: Seq<char>,
}

/// The Settings exposed by the module.
#[derive(Debug)]
pub struct Settings {
    /// The log level.
    log_level: LogLevel,
    /// the package settings.
    package: PackageSettings,
    /// the package types we're bundling; if not present, the native package
    /// types of the target OS.
    package_types: Option<Vec<PackageType>>,
    /// the directory where the bundles will be placed.
    project_out_directory: String,
    /// the bundle settings.
    bundle_settings: BundleSettings,
    /// the binaries to bundle.
    binaries: Vec<BundleBinary>,
    /// The target triple.
    target: String,
}

impl View for Settings {
    type V = SettingsModel;

    closed spec fn view(&self) -> SettingsModel {
        SettingsModel {
            log_level: self.log_level,
            package: self.package,
            package_types: match self.package_types {
                Some(v) => Some(v@),
                None => None,
            },
            out_dir: self.project_out_directory@,
            bundle: self.bundle_settings,
            binaries: self.binaries@,
            target: self.target@,
        }
    }
}

/// What a `SettingsBuilder` holds.
pub struct SettingsBuilderModel {
    /// The log level, if set.
    pub log_level: Option<LogLevel>,
    /// The output directory, if set.
    pub out_dir: Option<Seq<char>>,
    /// The requested package types, if set.
    pub package_types: Option<Seq<PackageType>>,
    /// The package settings, if set.
    pub package: Option<PackageSettings>,
    /// The bundle settings.
    pub bundle: BundleSettings,
    /// The binaries to bundle.
    pub binaries: Seq<BundleBinary>,
    /// The target triple, if set.
    pub target: Option<Seq<char>>,
}

/// Whether `s` is what a builder holding `b` builds for the target triple `target`.
pub open spec fn built_from(b: SettingsBuilderModel, s: SettingsModel, target: Seq<char>) -> bool {
    &&& s.log_level == match b.log_level {
        Some(l) => l,
        None => LogLevel::Error,
    }
    &&& b.package == Some(s.package)
    &&& s.package_types == b.package_types
    &&& b.out_dir == Some(s.out_dir)
    &&& s.binaries == b.binaries
    &&& s.target == target
    &&& s.bundle == (BundleSettings { external_bin: s.bundle.external_bin, ..b.bundle })
    &&& match b.bundle.external_bin {
        Some(bins) => match s.bundle.external_bin {
            Some(full) => views(full@) == sidecar_names(views(bins@), target),
            None => false,
        },
        None => s.bundle.external_bin is None,
    }
}

/// A builder for [`Settings`].
pub struct SettingsBuilder {
    log_level: Option<LogLevel>,
    project_out_directory: Option<String>,
    package_types: Option<Vec<PackageType>>,
    package_settings: Option<PackageSettings>,
    bundle_settings: BundleSettings,
    binaries: Vec<BundleBinary>,
    target: Option<String>,
}

impl View for SettingsBuilder {
    type V = SettingsBuilderModel;

    closed spec fn view(&self) -> SettingsBuilderModel {
        SettingsBuilderModel {
            log_level: self.log_level,
            out_dir: opt_view(self.project_out_directory),
            package_types: match self.package_types {
                Some(v) => Some(v@),
                None => None,
            },
            package: self.package_settings,
            bundle: self.bundle_settings,
            binaries: self.binaries@,
            target: opt_view(self.target),
        }
    }
}

impl SettingsBuilder {
    /// Creates the default settings builder.
    pub fn new() -> (r: Self)
        ensures
            r@.log_level is None,
            r@.out_dir is None,
            r@.package_types is None,
            r@.package is None,
            r@.binaries.len() == 0,
            r@.target is None,
            r@.bundle.resources is None,
            r@.bundle.resources_map is None,
            r@.bundle.external_bin is None,
            r@.bundle.updater is None,
    {
        SettingsBuilder {
            log_level: None,
            project_out_directory: None,
            package_types: None,
            package_settings: None,
            bundle_settings: BundleSettings::default(),
            binaries: Vec::new(),
            target: None,
        }
    }

    /// Sets the project output directory.
    #[must_use]
    pub fn project_out_directory(self, path: &str) -> (r: Self)
        ensures
            r@ == (SettingsBuilderModel { out_dir: Some(path@), ..self@ }),
    {
        SettingsBuilder { project_out_directory: Some(path.to_string()), ..self }
    }

    /// Sets the package types to create.
    #[must_use]
    pub fn package_types(self, package_types: Vec<PackageType>) -> (r: Self)
        ensures
            r@ == (SettingsBuilderModel { package_types: Some(package_types@), ..self@ }),
    {
        SettingsBuilder { package_types: Some(package_types), ..self }
    }

    /// Sets the package settings.
    #[must_use]
    pub fn package_settings(self, settings: PackageSettings) -> (r: Self)
        ensures
            r@ == (SettingsBuilderModel { package: Some(settings), ..self@ }),
    {
        SettingsBuilder { package_settings: Some(settings), ..self }
    }

    /// Sets the bundle settings.
    #[must_use]
    pub fn bundle_settings(self, settings: BundleSettings) -> (r: Self)
        ensures
            r@ == (SettingsBuilderModel { bundle: settings, ..self@ }),
    {
        SettingsBuilder { bundle_settings: settings, ..self }
    }

    /// Sets the binaries to bundle.
    #[must_use]
    pub fn binaries(self, binaries: Vec<BundleBinary>) -> (r: Self)
        ensures
            r@ == (SettingsBuilderModel { binaries: binaries@, ..self@ }),
    {
        SettingsBuilder { binaries, ..self }
    }

    /// Sets the target triple.
    #[must_use]
    pub fn target(self, target: String) -> (r: Self)
        ensures
            r@ == (SettingsBuilderModel { target: Some(target@), ..self@ }),
    {
        SettingsBuilder { target: Some(target), ..self }
    }

    /// Sets the log level for spawned commands. Defaults to [`LogLevel::Error`].
    #[must_use]
    pub fn log_level(self, level: LogLevel) -> (r: Self)
        ensures
            r@ == (SettingsBuilderModel { log_level: Some(level), ..self@ }),
    {
        SettingsBuilder { log_level: Some(level), ..self }
    }

    /// Builds the Settings. The package settings and the output directory
    /// must have been set. A resource list and a resource map together are
    /// rejected. Without a target triple, the host's is used; external binary
    /// names get the target triple appended.
    pub fn build(self) -> (r: Result<Settings, Error>)
        requires
            self@.package is Some,
            self@.out_dir is Some,
        ensures
            !resources_exclusive(self@.bundle) ==> (r matches Err(Error::ConflictingResources)),
            resources_exclusive(self@.bundle) && self@.target is Some ==> (r matches Ok(s)
                && built_from(self@, s@, self@.target->Some_0)),
            resources_exclusive(self@.bundle) && self@.target is None ==> match r {
                Ok(s) => built_from(self@, s@, s@.target) && field(s@.target, '-', 2) is Some,
                Err(e) => e is Resource,
            },
            r matches Ok(s) ==> resources_exclusive(s@.bundle),
    {
        let SettingsBuilder {
            log_level,
            project_out_directory,
            package_types,
            package_settings,
            bundle_settings,
            binaries,
            target,
        } = self;
        if bundle_settings.resources.is_some() && bundle_settings.resources_map.is_some() {
            return Err(Error::ConflictingResources);
        }
        let target = match target {
            Some(t) => t,
            None => match host_target_triple() {
                Ok(t) => t,
                Err(e) => return Err(Error::Resource(e)),
            },
        };
        let log_level = match log_level {
            Some(l) => l,
            None => LogLevel::Error,
        };
        let package = match package_settings {
            Some(p) => p,
            None => unreached(),
        };
        let project_out_directory = match project_out_directory {
            Some(p) => p,
            None => unreached(),
        };
        let external_bin = match &bundle_settings.external_bin {
            Some(bins) => Some(expand_external_binaries(bins, target.as_str())),
            None => None,
        };
        Ok(Settings {
            log_level,
            package,
            package_types,
            project_out_directory,
            bundle_settings: BundleSettings { external_bin, ..bundle_settings },
            binaries,
            target,
        })
    }
}


/// The views of an optional string reference.
pub open spec fn opt_str_view(s: Option<&str>) -> Option<Seq<char>> {
    match s {
        Some(x) => Some(x@),
        None => None,
    }
}

fn as_opt_str(s: &Option<String>) -> (r: Option<&str>)
    ensures
        opt_str_view(r) == opt_view(*s),
{
    match s {
        Some(x) => Some(x.as_str()),
        None => None,
    }
}

fn clone_opt(s: &Option<String>) -> (r: Option<String>)
    ensures
        opt_view(r) == opt_view(*s),
{
    match s {
        Some(x) => Some(x.clone()),
        None => None,
    }
}

/// Whether `v` holds `t`.
fn contains_type(v: &Vec<PackageType>, t: PackageType) -> (r: bool)
    ensures
        r == v@.contains(t),
{
    let mut i: usize = 0;
    while i < v.len()
        invariant
            i <= v@.len(),
            forall|j: int| 0 <= j < i ==> v@[j] != t,
        decreases v@.len() - i,
    {
        if v[i] == t {
            return true;
        }
        i = i + 1;
    }
    false
}

/// The types of `req` that `platform` holds, in the order of `req`.
fn retain_supported(req: &Vec<PackageType>, platform: &Vec<PackageType>) -> (r: Vec<PackageType>)
    ensures
        r@ == retain_in(req@, platform@),
{
    let mut out: Vec<PackageType> = Vec::new();
    let mut i: usize = 0;
    while i < req.len()
        invariant
            i <= req@.len(),
            out@ == req@.subrange(0, i as int).filter(|t: PackageType| platform@.contains(t)),
        decreases req@.len() - i,
    {
        let t = req[i];
        proof {
            req@.subrange(0, i as int).lemma_filter_push(t, |t: PackageType| platform@.contains(t));
            assert(req@.subrange(0, i as int).push(t) =~= req@.subrange(0, i + 1));
        }
        if contains_type(platform, t) {
            out.push(t);
        }
        i = i + 1;
    }
    assert(req@.subrange(0, req@.len() as int) =~= req@);
    out
}

impl Settings {
    /// Sets the log level for spawned commands.
    pub fn set_log_level(&mut self, level: LogLevel)
        ensures
            final(self)@ == (SettingsModel { log_level: level, ..old(self)@ }),
    {
        self.log_level = level;
    }

    /// Returns the log level for spawned commands.
    pub fn log_level(&self) -> (r: LogLevel)
        ensures
            r == self@.log_level,
    {
        self.log_level
    }

    /// Returns the directory where the bundle should be placed.
    pub fn project_out_directory(&self) -> (r: &str)
        ensures
            r@ == self@.out_dir,
    {
        self.project_out_directory.as_str()
    }

    /// Returns the target triple.
    pub fn target(&self) -> (r: &str)
        ensures
            r@ == self@.target,
    {
        self.target.as_str()
    }

    /// Returns the architecture for the binary being bundled (e.g. "arm",
    /// "x86" or "x86_64"). The target triple must start with a known one.
    pub fn binary_arch(&self) -> (r: &'static str)
        requires
            arch_of(self@.target) is Some,
        ensures
            arch_of(self@.target) == Some(r@),
    {
        let t = self.target.as_str();
        if str_starts_with(t, "x86_64") {
            "x86_64"
        } else if str_starts_with(t, "i") {
            "x86"
        } else if str_starts_with(t, "arm") {
            "arm"
        } else if str_starts_with(t, "aarch64") {
            "aarch64"
        } else {
            "universal"
        }
    }

    /// Returns the file name of the main binary being bundled: the first
    /// binary marked main, of which there must be one.
    pub fn main_binary_name(&self) -> (r: &str)
        requires
            exists|i: int| 0 <= i < self@.binaries.len() && (#[trigger] self@.binaries[i])@.main,
        ensures
            exists|i: int| is_first_main(self@.binaries, i) && r@ == self@.binaries[i]@.name,
    {
        let mut i: usize = 0;
        while i < self.binaries.len()
            invariant
                i <= self.binaries@.len(),
                forall|j: int| 0 <= j < i ==> !(#[trigger] self.binaries@[j])@.main,
                exists|k: int| i <= k < self.binaries@.len() && (#[trigger] self.binaries@[k])@.main,
            decreases self.binaries@.len() - i,
        {
            if self.binaries[i].main() {
                assert(is_first_main(self@.binaries, i as int));
                return self.binaries[i].name();
            }
            i = i + 1;
        }
        unreached()
    }

    /// Returns the path to the specified binary in the output directory.
    pub fn binary_path(&self, binary: &BundleBinary) -> (r: String)
        ensures
            r@ == join_path(self@.out_dir, binary@.name),
    {
        str_join_path(self.project_out_directory.as_str(), binary.name())
    }

    /// Returns the list of binaries to bundle.
    pub fn binaries(&self) -> (r: &Vec<BundleBinary>)
        ensures
            r@ == self@.binaries,
    {
        &self.binaries
    }

    /// Returns the bundle settings.
    pub fn bundle_settings(&self) -> (r: &BundleSettings)
        ensures
            *r == self@.bundle,
    {
        &self.bundle_settings
    }

    /// The package types to build for the target OS field `os`: the native
    /// types of that OS ("darwin" read as "macos"), with Updater when updates
    /// are enabled, narrowed to the requested types when some were requested.
    /// An OS without native bundles is an error.
    pub fn package_types_for_os(&self, os: &str) -> (r: Result<Vec<PackageType>, Error>)
        ensures
            package_types_outcome(
                r,
                os@,
                update_enabled(self@.bundle),
                self@.package_types,
            ),
    {
        proof {
            reveal_strlit("darwin");
            reveal_strlit("macos");
            reveal_strlit("ios");
            reveal_strlit("linux");
            reveal_strlit("windows");
        }
        let os = str_replace_all(os, "darwin", "macos");
        let o = os.as_str();
        let mut platform: Vec<PackageType> = if crate::text::str_eq(o, "macos") {
            vec![PackageType::MacOsBundle, PackageType::Dmg]
        } else if crate::text::str_eq(o, "ios") {
            vec![PackageType::IosBundle]
        } else if crate::text::str_eq(o, "linux") {
            vec![PackageType::AppImage]
        } else if crate::text::str_eq(o, "windows") {
            Vec::new()
        } else {
            let mut msg = String::from_str("Native ");
            msg.append(o);
            msg.append(" bundles not yet supported.");
            return Err(Error::Generic(msg));
        };
        assert(native_types(o@) == Some(platform@));
        if self.is_update_enabled() {
            platform.push(PackageType::Updater);
        }
        assert(package_types_for(o@, update_enabled(self@.bundle), None) == Some(platform@));
        match &self.package_types {
            Some(req) => Ok(retain_supported(req, &platform)),
            None => Ok(platform),
        }
    }

    /// The OS field of the target triple, or of the host's target triple
    /// when the target has none (which then always has one).
    pub fn target_os(&self) -> (r: Result<String, Error>)
        ensures
            field(self@.target, '-', 2) matches Some(os) ==> (r matches Ok(s) && s@ == os),
            r matches Err(e) ==> e is Resource,
    {
        match str_field(self.target.as_str(), '-', 2) {
            Some(os) => Ok(os.to_string()),
            None => match host_target_triple() {
                Ok(host) => match str_field(host.as_str(), '-', 2) {
                    Some(os) => Ok(os.to_string()),
                    None => unreached(),
                },
                Err(e) => Err(Error::Resource(e)),
            },
        }
    }

    /// The package types to build: those of the target triple's OS field
    /// (see `package_types_for_os`), or of the host's when the triple has no
    /// OS field.
    pub fn package_types(&self) -> (r: Result<Vec<PackageType>, Error>)
        ensures
            match field(self@.target, '-', 2) {
                Some(os) => package_types_outcome(
                    r,
                    os,
                    update_enabled(self@.bundle),
                    self@.package_types,
                ),
                None => match r {
                    Err(e) => e is Resource || e is Generic,
                    Ok(_) => true,
                },
            },
    {
        match self.target_os() {
            Ok(os) => self.package_types_for_os(os.as_str()),
            Err(e) => Err(e),
        }
    }

    /// Returns the product name.
    pub fn product_name(&self) -> (r: &str)
        ensures
            r@ == self@.package.product_name@,
    {
        self.package.product_name.as_str()
    }

    /// Returns the bundle's identifier, or "" when none is set.
    pub fn bundle_identifier(&self) -> (r: &str)
        ensures
            r@ == match self@.bundle.identifier {
                Some(id) => id@,
                None => ""@,
            },
    {
        match &self.bundle_settings.identifier {
            Some(id) => id.as_str(),
            None => "",
        }
    }

    /// Returns the bundle's publisher.
    pub fn publisher(&self) -> (r: Option<&str>)
        ensures
            opt_str_view(r) == opt_view(self@.bundle.publisher),
    {
        as_opt_str(&self.bundle_settings.publisher)
    }

    /// The path in `dir` to which an external binary with file name
    /// `file_name` is copied: the name without its `-<target triple>` part.
    pub fn external_binary_destination(&self, dir: &str, file_name: &str) -> (r: String)
        ensures
            r@ == join_path(dir@, replace_all(file_name@, "-"@ + self@.target, ""@)),
    {
        let mut pat = String::from_str("-");
        pat.append(self.target.as_str());
        proof {
            reveal_strlit("-");
        }
        let name = str_replace_all(file_name, pat.as_str(), "");
        str_join_path(dir, name.as_str())
    }

    /// Returns the version string of the bundle.
    pub fn version_string(&self) -> (r: &str)
        ensures
            r@ == self@.package.version@,
    {
        self.package.version.as_str()
    }

    /// Returns the copyright text.
    pub fn copyright_string(&self) -> (r: Option<&str>)
        ensures
            opt_str_view(r) == opt_view(self@.bundle.copyright),
    {
        as_opt_str(&self.bundle_settings.copyright)
    }

    /// Returns the list of authors name.
    pub fn author_names(&self) -> (r: &[String])
        ensures
            r@ == match self@.package.authors {
                Some(names) => names@,
                None => Seq::empty(),
            },
    {
        match &self.package.authors {
            Some(names) => names.as_slice(),
            None => &[],
        }
    }

    /// Returns the authors as a comma-separated string, or None when there
    /// are none.
    pub fn authors_comma_separated(&self) -> (r: Option<String>)
        ensures
            match self@.package.authors {
                Some(names) if names@.len() > 0 => r matches Some(s) && s@ == join(
                    views(names@),
                    ", "@,
                ),
                _ => r is None,
            },
    {
        match &self.package.authors {
            Some(names) => {
                if names.len() == 0 {
                    None
                } else {
                    Some(str_join(names, ", "))
                }
            },
            None => None,
        }
    }

    /// Returns the bundle license.
    pub fn license(&self) -> (r: Option<String>)
        ensures
            opt_view(r) == opt_view(self@.bundle.license),
    {
        clone_opt(&self.bundle_settings.license)
    }

    /// Returns the bundle license file.
    pub fn license_file(&self) -> (r: Option<String>)
        ensures
            opt_view(r) == opt_view(self@.bundle.license_file),
    {
        clone_opt(&self.bundle_settings.license_file)
    }

    /// Returns the package's homepage URL, or "" when none is set.
    pub fn homepage_url(&self) -> (r: &str)
        ensures
            r@ == match self@.package.homepage {
                Some(h) => h@,
                None => ""@,
            },
    {
        match &self.package.homepage {
            Some(h) => h.as_str(),
            None => "",
        }
    }

    /// Return file associations.
    pub fn file_associations(&self) -> (r: Option<&Vec<FileAssociation>>)
        ensures
            match r {
                Some(v) => self@.bundle.file_associations == Some(*v),
                None => self@.bundle.file_associations is None,
            },
    {
        self.bundle_settings.file_associations.as_ref()
    }

    /// Return the list of deep link protocols to be registered for this bundle.
    pub fn deep_link_protocols(&self) -> (r: Option<&Vec<DeepLinkProtocol>>)
        ensures
            match r {
                Some(v) => self@.bundle.deep_link_protocols == Some(*v),
                None => self@.bundle.deep_link_protocols is None,
            },
    {
        self.bundle_settings.deep_link_protocols.as_ref()
    }

    /// Returns the app's short description, or the package description when
    /// none is set.
    pub fn short_description(&self) -> (r: &str)
        ensures
            r@ == match self@.bundle.short_description {
                Some(d) => d@,
                None => self@.package.description@,
            },
    {
        match &self.bundle_settings.short_description {
            Some(d) => d.as_str(),
            None => self.package.description.as_str(),
        }
    }

    /// Returns the app's long description.
    pub fn long_description(&self) -> (r: Option<&str>)
        ensures
            opt_str_view(r) == opt_view(self@.bundle.long_description),
    {
        as_opt_str(&self.bundle_settings.long_description)
    }

    /// Returns the appimage settings.
    pub fn appimage(&self) -> (r: &AppImageSettings)
        ensures
            *r == self@.bundle.appimage,
    {
        &self.bundle_settings.appimage
    }

    /// Returns the DMG settings.
    pub fn dmg(&self) -> (r: &DmgSettings)
        ensures
            *r == self@.bundle.dmg,
    {
        &self.bundle_settings.dmg
    }

    /// Returns the MacOS settings.
    pub fn macos(&self) -> (r: &MacOsSettings)
        ensures
            *r == self@.bundle.macos,
    {
        &self.bundle_settings.macos
    }

    /// Returns the Windows settings.
    pub fn windows(&self) -> (r: &WindowsSettings)
        ensures
            *r == self@.bundle.windows,
    {
        &self.bundle_settings.windows
    }

    /// Returns the Updater settings.
    pub fn updater(&self) -> (r: Option<&UpdaterSettings>)
        ensures
            match r {
                Some(u) => self@.bundle.updater == Some(*u),
                None => self@.bundle.updater is None,
            },
    {
        self.bundle_settings.updater.as_ref()
    }

    /// Whether update support is enabled: an updater with a non-empty public key.
    pub fn is_update_enabled(&self) -> (r: bool)
        ensures
            r == update_enabled(self@.bundle),
    {
        match &self.bundle_settings.updater {
            Some(u) => u.pubkey.unicode_len() > 0,
            None => false,
        }
    }
}

} // verus!
