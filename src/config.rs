use vstd::prelude::*;
use std::collections::HashMap;
use crate::names::{lower_of, lowercase, same_str};

verus! {

/// The default of every flag that is on unless configured otherwise.
pub fn default_true() -> (r: bool)
    ensures
        r,
{
    true
}

/// The default minimum macOS version: `10.13`.
pub fn minimum_system_version() -> (r: Option<String>)
    ensures
        r matches Some(v) && v@ == "10.13"@,
{
    Some(String::from_str("10.13"))
}

/// A configured minimum macOS version, where an empty one stands for the default.
pub fn minimum_system_version_or_default(version: Option<String>) -> (r: Option<String>)
    ensures
        match version {
            Some(v) => if v@.len() == 0 {
                r matches Some(d) && d@ == "10.13"@
            } else {
                r == Some(v)
            },
            None => r is None,
        },
{
    match version {
        Some(v) => {
            if v.as_str().is_empty() {
                minimum_system_version()
            } else {
                Some(v)
            }
        },
        None => None,
    }
}

/// The default window label: `main`.
pub fn default_window_label() -> (r: String)
    ensures
        r@ == "main"@,
{
    String::from_str("main")
}

/// The default window title: `Tauri App`.
pub fn default_title() -> (r: String)
    ensures
        r@ == "Tauri App"@,
{
    String::from_str("Tauri App")
}

/// A bundle referenced by the bundler.
#[derive(Debug, Clone, Copy, PartialEq, Eq, Structural)]
pub enum BundleType {
    /// The debian bundle (.deb).
    Deb,
    /// The AppImage bundle (.appimage).
    AppImage,
    /// The Microsoft Installer bundle (.msi).
    Msi,
    /// The NSIS bundle (.exe).
    Nsis,
    /// The macOS application bundle (.app).
    App,
    /// The Apple Disk Image bundle (.dmg).
    Dmg,
    /// The updater bundle.
    Updater,
}

impl BundleType {
    /// The lowercase name of the bundle type.
    pub open spec fn spec_name(self) -> &'static str {
        match self {
            BundleType::Deb => "deb",
            BundleType::AppImage => "appimage",
            BundleType::Msi => "msi",
            BundleType::Nsis => "nsis",
            BundleType::App => "app",
            BundleType::Dmg => "dmg",
            BundleType::Updater => "updater",
        }
    }

    /// The bundle type whose lowercase name is `name`, if any.
    pub open spec fn named(name: Seq<char>) -> Option<BundleType> {
        if name == "deb"@ {
            Some(BundleType::Deb)
        } else if name == "appimage"@ {
            Some(BundleType::AppImage)
        } else if name == "msi"@ {
            Some(BundleType::Msi)
        } else if name == "nsis"@ {
            Some(BundleType::Nsis)
        } else if name == "app"@ {
            Some(BundleType::App)
        } else if name == "dmg"@ {
            Some(BundleType::Dmg)
        } else if name == "updater"@ {
            Some(BundleType::Updater)
        } else {
            None
        }
    }

    /// The name of the bundle type, as written in the configuration.
    pub fn to_string(&self) -> (r: String)
        ensures
            r@ == self.spec_name()@,
    {
        let name = match self {
            BundleType::Deb => "deb",
            BundleType::AppImage => "appimage",
            BundleType::Msi => "msi",
            BundleType::Nsis => "nsis",
            BundleType::App => "app",
            BundleType::Dmg => "dmg",
            BundleType::Updater => "updater",
        };
        String::from_str(name)
    }

    /// The bundle type named exactly `name` (already in lowercase).
    pub fn from_lowercase_name(name: &str) -> (r: Option<BundleType>)
        ensures
            r == BundleType::named(name@),
    {
        if same_str(name, "deb") {
            Some(BundleType::Deb)
        } else if same_str(name, "appimage") {
            Some(BundleType::AppImage)
        } else if same_str(name, "msi") {
            Some(BundleType::Msi)
        } else if same_str(name, "nsis") {
            Some(BundleType::Nsis)
        } else if same_str(name, "app") {
            Some(BundleType::App)
        } else if same_str(name, "dmg") {
            Some(BundleType::Dmg)
        } else if same_str(name, "updater") {
            Some(BundleType::Updater)
        } else {
            None
        }
    }

    /// The bundle type named `name`, compared case-insensitively.
    pub fn from_name(name: &str) -> (r: Option<BundleType>)
        ensures
            r == BundleType::named(lower_of(name@)),
    {
        let lower = lowercase(name);
        BundleType::from_lowercase_name(lower.as_str())
    }
}

/// Targets to bundle. Each value is case insensitive.
#[derive(Debug, Clone, PartialEq, Eq)]
pub enum BundleTarget {
    /// Bundle all targets.
    All,
    /// A list of bundle targets.
    List(Vec<BundleType>),
    /// A single bundle target.
    One(BundleType),
}

impl Default for BundleTarget {
    fn default() -> (r: Self)
        ensures
            r is All,
    {
        BundleTarget::All
    }
}

impl BundleTarget {
    /// The target a single configured name selects, compared
    /// case-insensitively: one bundle type, or every type for `all`.
    pub open spec fn named(name: Seq<char>) -> Option<BundleTarget> {
        match BundleType::named(lower_of(name)) {
            Some(t) => Some(BundleTarget::One(t)),
            None => if lower_of(name) == "all"@ {
                Some(BundleTarget::All)
            } else {
                None
            },
        }
    }

    /// The target that the single name `name` selects, if any.
    pub fn from_name(name: &str) -> (r: Option<BundleTarget>)
        ensures
            r == BundleTarget::named(name@),
    {
        let lower = lowercase(name);
        match BundleType::from_lowercase_name(lower.as_str()) {
            Some(t) => Some(BundleTarget::One(t)),
            None => {
                if same_str(lower.as_str(), "all") {
                    Some(BundleTarget::All)
                } else {
                    None
                }
            },
        }
    }
}

/// Install modes for the Windows update.
#[derive(Debug, Clone, Copy, PartialEq, Eq, Structural)]
pub enum WindowsUpdateInstallMode {
    /// A basic UI during the installation process, including a final dialog box at the end.
    BasicUi,
    /// No user interaction required; needs admin privileges if the installer does.
    Quiet,
    /// Unattended mode: the installation only shows a progress bar.
    Passive,
}

impl WindowsUpdateInstallMode {
    /// The name of the mode, as written in the configuration.
    pub open spec fn spec_name(self) -> &'static str {
        match self {
            WindowsUpdateInstallMode::BasicUi => "basicUI",
            WindowsUpdateInstallMode::Quiet => "quiet",
            WindowsUpdateInstallMode::Passive => "passive",
        }
    }

    /// The mode whose lowercase name is `name`, if any.
    pub open spec fn named(name: Seq<char>) -> Option<WindowsUpdateInstallMode> {
        if name == "basicui"@ {
            Some(WindowsUpdateInstallMode::BasicUi)
        } else if name == "quiet"@ {
            Some(WindowsUpdateInstallMode::Quiet)
        } else if name == "passive"@ {
            Some(WindowsUpdateInstallMode::Passive)
        } else {
            None
        }
    }

    /// The name of the mode, as written in the configuration.
    pub fn to_string(&self) -> (r: String)
        ensures
            r@ == self.spec_name()@,
    {
        let name = match self {
            WindowsUpdateInstallMode::BasicUi => "basicUI",
            WindowsUpdateInstallMode::Quiet => "quiet",
            WindowsUpdateInstallMode::Passive => "passive",
        };
        String::from_str(name)
    }

    /// The mode named exactly `name` (already in lowercase).
    pub fn from_lowercase_name(name: &str) -> (r: Option<WindowsUpdateInstallMode>)
        ensures
            r == WindowsUpdateInstallMode::named(name@),
    {
        if same_str(name, "basicui") {
            Some(WindowsUpdateInstallMode::BasicUi)
        } else if same_str(name, "quiet") {
            Some(WindowsUpdateInstallMode::Quiet)
        } else if same_str(name, "passive") {
            Some(WindowsUpdateInstallMode::Passive)
        } else {
            None
        }
    }

    /// The mode named `name`, compared case-insensitively.
    pub fn from_name(name: &str) -> (r: Option<WindowsUpdateInstallMode>)
        ensures
            r == WindowsUpdateInstallMode::named(lower_of(name@)),
    {
        let lower = lowercase(name);
        WindowsUpdateInstallMode::from_lowercase_name(lower.as_str())
    }
}

impl Default for WindowsUpdateInstallMode {
    fn default() -> (r: Self)
        ensures
            r == WindowsUpdateInstallMode::Passive,
    {
        WindowsUpdateInstallMode::Passive
    }
}

/// The updater configuration for Windows.
#[derive(Debug, Clone, PartialEq, Eq)]
pub struct UpdaterWindowsConfig {
    /// Additional arguments given to the NSIS or WiX installer.
    pub installer_args: Vec<String>,
    /// The installation mode for the update on Windows. Defaults to `passive`.
    pub install_mode: WindowsUpdateInstallMode,
}

/// How the window title bar should be displayed on macOS.
#[derive(Debug, Clone, Copy, PartialEq, Eq, Structural)]
pub enum TitleBarStyle {
    /// A normal title bar.
    Visible,
    /// A transparent title bar, showing the window background color.
    Transparent,
    /// A transparent title bar laid over the window's content.
    Overlay,
}

impl TitleBarStyle {
    /// The name of the style, as written in the configuration.
    pub open spec fn spec_name(self) -> &'static str {
        match self {
            TitleBarStyle::Visible => "Visible",
            TitleBarStyle::Transparent => "Transparent",
            TitleBarStyle::Overlay => "Overlay",
        }
    }

    /// The style a lowercase name selects; an unknown name selects `Visible`.
    pub open spec fn named(name: Seq<char>) -> TitleBarStyle {
        if name == "transparent"@ {
            TitleBarStyle::Transparent
        } else if name == "overlay"@ {
            TitleBarStyle::Overlay
        } else {
            TitleBarStyle::Visible
        }
    }

    /// The name of the style, as written in the configuration.
    pub fn to_string(&self) -> (r: String)
        ensures
            r@ == self.spec_name()@,
    {
        let name = match self {
            TitleBarStyle::Visible => "Visible",
            TitleBarStyle::Transparent => "Transparent",
            TitleBarStyle::Overlay => "Overlay",
        };
        String::from_str(name)
    }

    /// The style that the name `name` (already in lowercase) selects.
    pub fn from_lowercase_name(name: &str) -> (r: TitleBarStyle)
        ensures
            r == TitleBarStyle::named(name@),
    {
        if same_str(name, "transparent") {
            TitleBarStyle::Transparent
        } else if same_str(name, "overlay") {
            TitleBarStyle::Overlay
        } else {
            TitleBarStyle::Visible
        }
    }

    /// The style that `name` selects, compared case-insensitively.
    pub fn from_name(name: &str) -> (r: TitleBarStyle)
        ensures
            r == TitleBarStyle::named(lower_of(name@)),
    {
        let lower = lowercase(name);
        TitleBarStyle::from_lowercase_name(lower.as_str())
    }
}

impl Default for TitleBarStyle {
    fn default() -> (r: Self)
        ensures
            r == TitleBarStyle::Visible,
    {
        TitleBarStyle::Visible
    }
}

/// System theme.
#[derive(Debug, Clone, Copy, PartialEq, Eq, Structural)]
pub enum Theme {
    /// Light theme.
    Light,
    /// Dark theme.
    Dark,
}

impl Theme {
    /// The name of the theme, as written in the configuration.
    pub open spec fn spec_name(self) -> &'static str {
        match self {
            Theme::Light => "light",
            Theme::Dark => "dark",
        }
    }

    /// The theme a lowercase name selects; any name but `dark` selects `Light`.
    pub open spec fn named(name: Seq<char>) -> Theme {
        if name == "dark"@ {
            Theme::Dark
        } else {
            Theme::Light
        }
    }

    /// The name of the theme, as written in the configuration.
    pub fn to_string(&self) -> (r: String)
        ensures
            r@ == self.spec_name()@,
    {
        let name = match self {
            Theme::Light => "light",
            Theme::Dark => "dark",
        };
        String::from_str(name)
    }

    /// The theme that the name `name` (already in lowercase) selects.
    pub fn from_lowercase_name(name: &str) -> (r: Theme)
        ensures
            r == Theme::named(name@),
    {
        if same_str(name, "dark") {
            Theme::Dark
        } else {
            Theme::Light
        }
    }

    /// The theme that `name` selects, compared case-insensitively.
    pub fn from_name(name: &str) -> (r: Theme)
        ensures
            r == Theme::named(lower_of(name@)),
    {
        let lower = lowercase(name);
        Theme::from_lowercase_name(lower.as_str())
    }
}

/// A CLI argument definition.
#[derive(Debug, Clone, PartialEq, Eq, Default)]
pub struct CliArg {
    /// The short version of the argument, without the preceding `-`.
    pub short: Option<char>,
    /// The unique argument name.
    pub name: String,
    /// The argument description, shown on the help information.
    pub description: Option<String>,
    /// The argument long description, shown when `--help` is used.
    pub long_description: Option<String>,
    /// Whether the argument takes a value at run time.
    pub takes_value: bool,
    /// Whether the argument may appear more than once.
    pub multiple: bool,
    /// Whether multiple occurrences of the argument are accepted.
    pub multiple_occurrences: bool,
    /// How many values are required for the argument.
    pub number_of_values: Option<usize>,
    /// The list of possible values for the argument.
    pub possible_values: Option<Vec<String>>,
    /// The minimum number of values for the argument.
    pub min_values: Option<usize>,
    /// The maximum number of values for the argument.
    pub max_values: Option<usize>,
    /// Whether the argument is required.
    pub required: bool,
    /// The argument is required unless the named argument is present.
    pub required_unless_present: Option<String>,
    /// The argument is required unless all the named arguments are present.
    pub required_unless_present_all: Option<Vec<String>>,
    /// The argument is required unless any of the named arguments is present.
    pub required_unless_present_any: Option<Vec<String>>,
    /// The argument conflicts with the named argument.
    pub conflicts_with: Option<String>,
    /// The argument conflicts with all the named arguments.
    pub conflicts_with_all: Option<Vec<String>>,
    /// The argument requires the named argument.
    pub requires: Option<String>,
    /// The argument requires all the named arguments.
    pub requires_all: Option<Vec<String>>,
    /// The argument requires a named argument when that one has a given value.
    pub requires_if: Option<Vec<String>>,
    /// The argument is required when a named argument has a given value.
    pub required_if_eq: Option<Vec<String>>,
    /// Requires that options use the `--option=val` syntax.
    pub require_equals: Option<bool>,
    /// The positional argument index, starting at 1.
    pub index: Option<usize>,
}

/// Describes a CLI configuration.
#[derive(Debug, PartialEq, Eq)]
pub struct CliConfig {
    /// Command description which will be shown on the help information.
    pub description: Option<String>,
    /// Command long description which will be shown on the help information.
    pub long_description: Option<String>,
    /// Adds additional help information to be displayed before the auto-generated help.
    pub before_help: Option<String>,
    /// Adds additional help information to be displayed after the auto-generated help.
    pub after_help: Option<String>,
    /// List of arguments for the command.
    pub args: Option<Vec<CliArg>>,
    /// List of subcommands of this command.
    pub subcommands: Option<HashMap<String, CliConfig>>,
}

/// The configuration file formats.
#[derive(Debug, Clone, Copy, PartialEq, Eq, Structural)]
pub enum ConfigFormat {
    /// The default JSON (tauri.conf.json) format.
    Json,
    /// The JSON5 (tauri.conf.json5) format.
    Json5,
    /// The TOML (Tauri.toml file) format.
    Toml,
}

impl ConfigFormat {
    pub open spec fn spec_file_name(self) -> &'static str {
        match self {
            ConfigFormat::Json => "tauri.conf.json",
            ConfigFormat::Json5 => "tauri.conf.json5",
            ConfigFormat::Toml => "Tauri.toml",
        }
    }

    /// Maps the config format to its file name.
    pub fn into_file_name(self) -> (r: &'static str)
        ensures
            r == self.spec_file_name(),
    {
        match self {
            ConfigFormat::Json => "tauri.conf.json",
            ConfigFormat::Json5 => "tauri.conf.json5",
            ConfigFormat::Toml => "Tauri.toml",
        }
    }
}

/// The platform a configuration is read for.
#[derive(Debug, Clone, Copy, PartialEq, Eq, Structural)]
pub enum TargetPlatform {
    MacOs,
    Windows,
    Linux,
}

impl ConfigFormat {
    pub open spec fn spec_platform_file_name(self, platform: TargetPlatform) -> &'static str {
        match (self, platform) {
            (ConfigFormat::Json, TargetPlatform::MacOs) => "tauri.macos.conf.json",
            (ConfigFormat::Json, TargetPlatform::Windows) => "tauri.windows.conf.json",
            (ConfigFormat::Json, TargetPlatform::Linux) => "tauri.linux.conf.json",
            (ConfigFormat::Json5, TargetPlatform::MacOs) => "tauri.macos.conf.json5",
            (ConfigFormat::Json5, TargetPlatform::Windows) => "tauri.windows.conf.json5",
            (ConfigFormat::Json5, TargetPlatform::Linux) => "tauri.linux.conf.json5",
            (ConfigFormat::Toml, TargetPlatform::MacOs) => "Tauri.macos.toml",
            (ConfigFormat::Toml, TargetPlatform::Windows) => "Tauri.windows.toml",
            (ConfigFormat::Toml, TargetPlatform::Linux) => "Tauri.linux.toml",
        }
    }

    /// Maps the config format to the file name of its platform-specific
    /// configuration on `platform`.
    pub fn into_platform_file_name(self, platform: TargetPlatform) -> (r: &'static str)
        ensures
            r == self.spec_platform_file_name(platform),
    {
        match (self, platform) {
            (ConfigFormat::Json, TargetPlatform::MacOs) => "tauri.macos.conf.json",
            (ConfigFormat::Json, TargetPlatform::Windows) => "tauri.windows.conf.json",
            (ConfigFormat::Json, TargetPlatform::Linux) => "tauri.linux.conf.json",
            (ConfigFormat::Json5, TargetPlatform::MacOs) => "tauri.macos.conf.json5",
            (ConfigFormat::Json5, TargetPlatform::Windows) => "tauri.windows.conf.json5",
            (ConfigFormat::Json5, TargetPlatform::Linux) => "tauri.linux.conf.json5",
            (ConfigFormat::Toml, TargetPlatform::MacOs) => "Tauri.macos.toml",
            (ConfigFormat::Toml, TargetPlatform::Windows) => "Tauri.windows.toml",
            (ConfigFormat::Toml, TargetPlatform::Linux) => "Tauri.linux.toml",
        }
    }
}

} // verus!
