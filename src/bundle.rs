use vstd::prelude::*;
use std::collections::HashMap;
use crate::config::{BundleTarget, minimum_system_version};

verus! {

/// Configuration for AppImage bundles.
#[derive(Debug, Clone, Copy, PartialEq, Eq, Default)]
pub struct AppImageConfig {
    /// Include additional gstreamer dependencies needed for audio and video playback.
    pub bundle_media_framework: bool,
}

/// Configuration for the macOS bundles.
#[derive(Debug, Clone, PartialEq, Eq)]
pub struct MacConfig {
    /// A list of strings indicating any macOS X frameworks that need to be bundled with the application.
    pub frameworks: Option<Vec<String>>,
    /// The minimum version of macOS required for the app to run; `10.13` by default.
    pub minimum_system_version: Option<String>,
    /// Allows your application to communicate with the outside world.
    pub exception_domain: Option<String>,
    /// The path to the license file to add to the DMG bundle.
    pub license: Option<String>,
    /// Identity to use for code signing.
    pub signing_identity: Option<String>,
    /// Provider short name for notarization.
    pub provider_short_name: Option<String>,
    /// Path to the entitlements file.
    pub entitlements: Option<String>,
}

impl Default for MacConfig {
    fn default() -> (r: Self)
        ensures
            r.frameworks is None,
            r.minimum_system_version matches Some(v) && v@ == "10.13"@,
            r.exception_domain is None,
            r.license is None,
            r.signing_identity is None,
            r.provider_short_name is None,
            r.entitlements is None,
    {
        MacConfig {
            frameworks: None,
            minimum_system_version: minimum_system_version(),
            exception_domain: None,
            license: None,
            signing_identity: None,
            provider_short_name: None,
            entitlements: None,
        }
    }
}

/// Compression algorithms used in the NSIS installer.
#[derive(Debug, Clone, Copy, PartialEq, Eq, Structural)]
pub enum NsisCompression {
    /// The deflate algorithm: quick and simple.
    Zlib,
    /// Usually better ratios than ZLIB, somewhat slower.
    Bzip2,
    /// Very good ratios, fast decompression, slower compression.
    Lzma,
}

/// Install modes for the NSIS installer.
#[derive(Debug, Clone, Copy, PartialEq, Eq, Structural)]
pub enum NSISInstallerMode {
    /// Install in a directory that does not require Administrator access.
    CurrentUser,
    /// Install in the `Program Files` folder; requires Administrator access.
    PerMachine,
    /// Let the user choose at install time.
    Both,
}

impl Default for NSISInstallerMode {
    fn default() -> (r: Self)
        ensures
            r == NSISInstallerMode::CurrentUser,
    {
        NSISInstallerMode::CurrentUser
    }
}

/// Install modes for the Webview2 runtime.
#[derive(Debug, Clone, PartialEq, Eq)]
pub enum WebviewInstallMode {
    /// Do not install the Webview2 as part of the Windows Installer.
    Skip,
    /// Download the bootstrapper and run it.
    DownloadBootstrapper {
        /// Run the bootstrapper in silent mode.
        silent: bool,
    },
    /// Embed the bootstrapper and run it.
    EmbedBootstrapper {
        /// Run the bootstrapper in silent mode.
        silent: bool,
    },
    /// Embed the offline installer and run it.
    OfflineInstaller {
        /// Run the installer in silent mode.
        silent: bool,
    },
    /// Embed a fixed webview2 version and use it at runtime.
    FixedRuntime {
        /// The path to the fixed runtime to use.
        path: String,
    },
}

impl Default for WebviewInstallMode {
    fn default() -> (r: Self)
        ensures
            r == (WebviewInstallMode::DownloadBootstrapper { silent: true }),
    {
        WebviewInstallMode::DownloadBootstrapper { silent: true }
    }
}

/// The application pattern.
#[derive(Debug, Clone, PartialEq, Eq)]
pub enum PatternKind {
    /// Brownfield pattern.
    Brownfield,
    /// Isolation pattern. Recommended for security purposes.
    Isolation {
        /// The dir containing the index.html file of the isolation application.
        dir: String,
    },
}

impl Default for PatternKind {
    fn default() -> (r: Self)
        ensures
            r == PatternKind::Brownfield,
    {
        PatternKind::Brownfield
    }
}

/// Configuration for application system tray icon.
#[derive(Debug, Clone, PartialEq, Eq)]
pub struct SystemTrayConfig {
    /// Path to the default icon to use on the system tray.
    pub icon_path: String,
    /// Whether the image represents a template image on macOS.
    pub icon_as_template: bool,
    /// Whether the menu should appear when the tray icon receives a left click on macOS.
    pub menu_on_left_click: bool,
    /// Title for the macOS tray.
    pub title: Option<String>,
}

/// Describes the shell command to run before `tauri dev`.
#[derive(Debug, Clone, PartialEq, Eq)]
pub enum BeforeDevCommand {
    /// Run the given script with the default options.
    Script(String),
    /// Run the given script with custom options.
    ScriptWithOptions {
        /// The script to execute.
        script: String,
        /// The current working directory.
        cwd: Option<String>,
        /// Whether `tauri dev` should wait for the command to finish.
        wait: bool,
    },
}

/// Describes a shell command to be executed when a CLI hook is triggered.
#[derive(Debug, Clone, PartialEq, Eq)]
pub enum HookCommand {
    /// Run the given script with the default options.
    Script(String),
    /// Run the given script with custom options.
    ScriptWithOptions {
        /// The script to execute.
        script: String,
        /// The current working directory.
        cwd: Option<String>,
    },
}

impl HookCommand {
    /// The script to run and its working directory: no script for an
    /// empty plain script, and no directory unless one is configured.
    pub fn script_and_cwd(self) -> (r: (Option<String>, Option<String>))
        ensures
            match self {
                HookCommand::Script(s) => if s@.len() == 0 {
                    r.0 is None && r.1 is None
                } else {
                    r.0 == Some(s) && r.1 is None
                },
                HookCommand::ScriptWithOptions { script, cwd } => r.0 == Some(script) && r.1 == cwd,
            },
    {
        match self {
            HookCommand::Script(s) => {
                if s.as_str().is_empty() {
                    (None, None)
                } else {
                    (Some(s), None)
                }
            },
            HookCommand::ScriptWithOptions { script, cwd } => (Some(script), cwd),
        }
    }
}

/// External command access definition.
#[derive(Debug, Clone, PartialEq, Eq)]
pub struct RemoteDomainAccessScope {
    /// The URL scheme to allow. By default, all schemas are allowed.
    pub scheme: Option<String>,
    /// The domain to allow.
    pub domain: String,
    /// The list of window labels this scope applies to.
    pub windows: Vec<String>,
    /// The list of plugins that are allowed in this scope.
    pub plugins: Vec<String>,
    /// Enables access to the API.
    pub enable_tauri_api: bool,
}

/// The package configuration.
#[derive(Debug, Clone, PartialEq, Eq, Default)]
pub struct PackageConfig {
    /// App name.
    pub product_name: Option<String>,
    /// App version: a semver version number or a path to a `package.json` file.
    pub version: Option<String>,
}

/// Configuration for Debian (.deb) bundles.
#[derive(Debug, Clone, PartialEq, Eq, Default)]
pub struct DebConfig {
    /// The list of deb dependencies your application relies on.
    pub depends: Option<Vec<String>>,
    /// The files to include on the package: destination path to source path.
    pub files: HashMap<String, String>,
    /// Path to a custom desktop file Handlebars template.
    pub desktop_template: Option<String>,
    /// Define the section in Debian Control file.
    pub section: Option<String>,
    /// Change the priority of the Debian Package.
    pub priority: Option<String>,
    /// Path of the uncompressed Changelog file, to be stored at /usr/share/doc/package-name/changelog.gz.
    pub changelog: Option<String>,
}

/// Configuration for a target language for the WiX build.
#[derive(Debug, Clone, PartialEq, Eq, Default)]
pub struct WixLanguageConfig {
    /// The path to a locale (`.wxl`) file.
    pub locale_path: Option<String>,
}

/// The languages to build using WiX.
#[derive(Debug, Clone, PartialEq, Eq)]
pub enum WixLanguage {
    /// A single language to build, without configuration.
    One(String),
    /// A list of languages to build, without configuration.
    List(Vec<String>),
    /// A map of languages and its configuration.
    Localized(HashMap<String, WixLanguageConfig>),
}

impl Default for WixLanguage {
    fn default() -> (r: Self)
        ensures
            r matches WixLanguage::One(l) && l@ == "en-US"@,
    {
        WixLanguage::One(String::from_str("en-US"))
    }
}

/// Configuration for the MSI bundle using WiX.
#[derive(Debug, Clone, PartialEq, Eq)]
pub struct WixConfig {
    /// The installer languages to build.
    pub language: WixLanguage,
    /// A custom .wxs template to use.
    pub template: Option<String>,
    /// A list of paths to .wxs files with WiX fragments to use.
    pub fragment_paths: Vec<String>,
    /// The ComponentGroup element ids you want to reference from the fragments.
    pub component_group_refs: Vec<String>,
    /// The Component element ids you want to reference from the fragments.
    pub component_refs: Vec<String>,
    /// The FeatureGroup element ids you want to reference from the fragments.
    pub feature_group_refs: Vec<String>,
    /// The Feature element ids you want to reference from the fragments.
    pub feature_refs: Vec<String>,
    /// The Merge element ids you want to reference from the fragments.
    pub merge_refs: Vec<String>,
    /// Disables the Webview2 runtime installation after app install.
    pub skip_webview_install: bool,
    /// The path to the license file to render on the installer.
    pub license: Option<String>,
    /// Create an elevated update task within Windows Task Scheduler.
    pub enable_elevated_update_task: bool,
    /// Path to a bitmap file to use as the installation user interface banner.
    pub banner_path: Option<String>,
    /// Path to a bitmap file to use on the installation user interface dialogs.
    pub dialog_image_path: Option<String>,
}

/// Configuration for the Installer bundle using NSIS.
#[derive(Debug, Clone, PartialEq, Eq)]
pub struct NsisConfig {
    /// A custom .nsi template to use.
    pub template: Option<String>,
    /// The path to the license file to render on the installer.
    pub license: Option<String>,
    /// The path to a bitmap file to display on the header of installers pages.
    pub header_image: Option<String>,
    /// The path to a bitmap file for the Welcome page and the Finish page.
    pub sidebar_image: Option<String>,
    /// The path to an icon file used as the installer icon.
    pub installer_icon: Option<String>,
    /// Whether the installation will be for all users or just the current user.
    pub install_mode: NSISInstallerMode,
    /// A list of installer languages.
    pub languages: Option<Vec<String>>,
    /// A key-value pair where the key is the language and the value is the path to a custom `.nsh` file.
    pub custom_language_files: Option<HashMap<String, String>>,
    /// Whether to display a language selector dialog before the installer and uninstaller windows are rendered.
    pub display_language_selector: bool,
    /// Set the compression algorithm used to compress files in the installer.
    pub compression: Option<NsisCompression>,
}

/// Windows bundler configuration.
#[derive(Debug, Clone, PartialEq, Eq)]
pub struct WindowsConfig {
    /// Specifies the file digest algorithm to use for creating file signatures.
    pub digest_algorithm: Option<String>,
    /// Specifies the SHA1 hash of the signing certificate.
    pub certificate_thumbprint: Option<String>,
    /// Server to use during timestamping.
    pub timestamp_url: Option<String>,
    /// Whether to use Time-Stamp Protocol (TSP, a.k.a. RFC 3161) for the timestamp server.
    pub tsp: bool,
    /// The installation mode for the Webview2 runtime.
    pub webview_install_mode: WebviewInstallMode,
    /// Path to the webview fixed runtime to use.
    pub webview_fixed_runtime_path: Option<String>,
    /// Validates a second app installation, blocking the user from installing an older version if set to `false`.
    pub allow_downgrades: bool,
    /// Configuration for the MSI generated with WiX.
    pub wix: Option<WixConfig>,
    /// Configuration for the installer generated with NSIS.
    pub nsis: Option<NsisConfig>,
}

impl Default for WindowsConfig {
    fn default() -> (r: Self)
        ensures
            r.digest_algorithm is None,
            r.certificate_thumbprint is None,
            r.timestamp_url is None,
            !r.tsp,
            r.webview_install_mode == (WebviewInstallMode::DownloadBootstrapper { silent: true }),
            r.webview_fixed_runtime_path is None,
            r.allow_downgrades,
            r.wix is None,
            r.nsis is None,
    {
        WindowsConfig {
            digest_algorithm: None,
            certificate_thumbprint: None,
            timestamp_url: None,
            tsp: false,
            webview_install_mode: WebviewInstallMode::default(),
            webview_fixed_runtime_path: None,
            allow_downgrades: true,
            wix: None,
            nsis: None,
        }
    }
}

/// Definition for bundle resources: a list of paths to include, or a map
/// of source to target paths.
#[derive(Debug, Clone, PartialEq, Eq)]
pub enum BundleResources {
    /// A list of paths to include.
    List(Vec<String>),
    /// A map of source to target paths.
    PathMap(HashMap<String, String>),
}

/// Configuration for the bundler.
#[derive(Debug, Clone, PartialEq, Eq)]
pub struct BundleConfig {
    /// Whether the application should be bundled.
    pub active: bool,
    /// The bundle targets, currently supports ["deb", "appimage", "nsis", "msi", "app", "dmg", "updater"] or "all".
    pub targets: BundleTarget,
    /// The application identifier in reverse domain name notation.
    pub identifier: String,
    /// The application's publisher.
    pub publisher: Option<String>,
    /// The app's icons.
    pub icon: Vec<String>,
    /// App resources to bundle.
    pub resources: Option<BundleResources>,
    /// A copyright string associated with your application.
    pub copyright: Option<String>,
    /// The application kind.
    pub category: Option<String>,
    /// A short description of your application.
    pub short_description: Option<String>,
    /// A longer, multi-line description of the application.
    pub long_description: Option<String>,
    /// Configuration for the AppImage bundle.
    pub appimage: AppImageConfig,
    /// Configuration for the Debian bundle.
    pub deb: DebConfig,
    /// Configuration for the macOS bundles.
    pub macos: MacConfig,
    /// A list of binaries to embed with your application.
    pub external_bin: Option<Vec<String>>,
    /// Configuration for the Windows bundle.
    pub windows: WindowsConfig,
}

} // verus!
