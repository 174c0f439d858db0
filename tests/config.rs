use tauri_marker::allowlist::{
    Allowlist, AllowlistConfig, AppAllowlistConfig, ClipboardAllowlistConfig, DialogAllowlistConfig,
    FsAllowlistConfig, FsAllowlistScope, GlobalShortcutAllowlistConfig, HttpAllowlistConfig, HttpAllowlistScope,
    NotificationAllowlistConfig, OsAllowlistConfig, PathAllowlistConfig, ProcessAllowlistConfig,
    ProtocolAllowlistConfig, ShellAllowedArgs, ShellAllowedCommand, ShellAllowlistConfig, ShellAllowlistOpen,
    ShellAllowlistScope, WindowAllowlistConfig,
};
use tauri_marker::bundle::{
    HookCommand, MacConfig, NSISInstallerMode, PatternKind, WebviewInstallMode, WindowsConfig, WixLanguage,
};
use tauri_marker::config::{
    default_title, default_true, default_window_label, minimum_system_version, minimum_system_version_or_default,
    BundleTarget, BundleType, ConfigFormat, TargetPlatform, Theme, TitleBarStyle, WindowsUpdateInstallMode,
};
use tauri_marker::csp::{CspDirectiveSources, DisabledCspModificationKind};

fn fs(all: bool, read_file: bool, exists: bool) -> FsAllowlistConfig {
    FsAllowlistConfig {
        scope: FsAllowlistScope::default(),
        all,
        read_file,
        write_file: false,
        read_dir: false,
        copy_file: false,
        create_dir: false,
        remove_dir: false,
        remove_file: false,
        rename_file: false,
        exists,
    }
}

#[test]
fn fs_features_follow_flags() {
    assert_eq!(fs(false, true, true).to_features(), vec!["fs-read-file", "fs-exists"]);
    assert_eq!(fs(true, true, true).to_features(), vec!["fs-all"]);
    assert!(fs(false, false, false).to_features().is_empty());
}

#[test]
fn fs_all_features_lists_every_feature() {
    assert_eq!(
        FsAllowlistConfig::all_features(),
        vec![
            "fs-read-file", "fs-write-file", "fs-read-dir", "fs-copy-file", "fs-create-dir", "fs-remove-dir",
            "fs-remove-file", "fs-rename-file", "fs-exists", "fs-all",
        ]
    );
}

#[test]
fn window_all_features_skips_content_protection() {
    let all = WindowAllowlistConfig::all_features();
    assert_eq!(all.len(), 33);
    assert_eq!(all[0], "window-create");
    assert_eq!(all[31], "window-print");
    assert_eq!(all[32], "window-all");
    assert!(!all.contains(&"window-set-content-protected"));
}

#[test]
fn shell_open_feature_unless_disabled_flag() {
    let mut shell = ShellAllowlistConfig {
        scope: ShellAllowlistScope::default(),
        all: false,
        execute: false,
        sidecar: true,
        open: ShellAllowlistOpen::Flag(false),
    };
    assert_eq!(shell.to_features(), vec!["shell-sidecar"]);
    shell.open = ShellAllowlistOpen::Validate("^https://".to_string());
    assert_eq!(shell.to_features(), vec!["shell-sidecar", "shell-open"]);
    assert_eq!(
        ShellAllowlistConfig::all_features(),
        vec!["shell-execute", "shell-sidecar", "shell-open", "shell-all"]
    );
}

#[test]
fn small_allowlists() {
    assert_eq!(NotificationAllowlistConfig { all: true }.to_features(), vec!["notification-all"]);
    assert!(NotificationAllowlistConfig { all: false }.to_features().is_empty());
    assert_eq!(NotificationAllowlistConfig::all_features(), vec!["notification-all"]);
    assert_eq!(
        ProcessAllowlistConfig::all_features(),
        vec!["process-relaunch", "process-exit", "process-all"]
    );
    assert_eq!(
        DialogAllowlistConfig { all: false, open: true, save: false, message: false, ask: true, confirm: false }
            .to_features(),
        vec!["dialog-open", "dialog-ask"]
    );
    assert_eq!(
        ClipboardAllowlistConfig { all: false, write_text: false, read_text: true }.to_features(),
        vec!["clipboard-read-text"]
    );
    assert_eq!(AppAllowlistConfig::all_features(), vec!["app-show", "app-hide", "app-all"]);
}

#[test]
fn inline_sources_contain() {
    let sources = CspDirectiveSources::Inline("'self' https://a.com".to_string());
    assert!(sources.contains("'self'"));
    assert!(sources.contains("https://a.com"));
    assert!(!sources.contains("https://b.com"));
}

#[test]
fn list_sources_contain() {
    let sources = CspDirectiveSources::List(vec!["'self'".to_string(), "data:".to_string()]);
    assert!(sources.contains("data:"));
    assert!(!sources.contains("data"));
    assert!(!CspDirectiveSources::default().contains("'self'"));
}

#[test]
fn push_sources() {
    let mut inline = CspDirectiveSources::Inline("'self'".to_string());
    inline.push("blob:");
    assert_eq!(inline, CspDirectiveSources::Inline("'self' blob:".to_string()));
    assert!(inline.contains("blob:"));
    let mut list = CspDirectiveSources::default();
    list.push("blob:");
    assert_eq!(list, CspDirectiveSources::List(vec!["blob:".to_string()]));
}

#[test]
fn bundle_type_names() {
    assert_eq!(BundleType::AppImage.to_string(), "appimage");
    assert_eq!(BundleType::from_lowercase_name("msi"), Some(BundleType::Msi));
    assert_eq!(BundleType::from_lowercase_name("MSI"), None);
    assert_eq!(BundleType::from_name("AppImage"), Some(BundleType::AppImage));
    assert_eq!(BundleType::from_name("DEB"), Some(BundleType::Deb));
    assert_eq!(BundleType::from_name("rpm"), None);
}

#[test]
fn update_install_mode_names() {
    assert_eq!(WindowsUpdateInstallMode::BasicUi.to_string(), "basicUI");
    assert_eq!(WindowsUpdateInstallMode::from_name("basicUI"), Some(WindowsUpdateInstallMode::BasicUi));
    assert_eq!(WindowsUpdateInstallMode::from_name("Quiet"), Some(WindowsUpdateInstallMode::Quiet));
    assert_eq!(WindowsUpdateInstallMode::from_name("loud"), None);
    assert_eq!(WindowsUpdateInstallMode::default(), WindowsUpdateInstallMode::Passive);
}

#[test]
fn title_bar_and_theme_names() {
    assert_eq!(TitleBarStyle::from_name("OVERLAY"), TitleBarStyle::Overlay);
    assert_eq!(TitleBarStyle::from_name("anything"), TitleBarStyle::Visible);
    assert_eq!(TitleBarStyle::Transparent.to_string(), "Transparent");
    assert_eq!(Theme::from_name("Dark"), Theme::Dark);
    assert_eq!(Theme::from_name("blue"), Theme::Light);
    assert_eq!(Theme::Dark.to_string(), "dark");
}

#[test]
fn configuration_defaults() {
    assert!(default_true());
    assert_eq!(minimum_system_version(), Some("10.13".to_string()));
    assert_eq!(default_window_label(), "main");
    assert_eq!(default_title(), "Tauri App");
    assert_eq!(MacConfig::default().minimum_system_version, Some("10.13".to_string()));
    assert_eq!(BundleTarget::default(), BundleTarget::All);
    assert_eq!(NSISInstallerMode::default(), NSISInstallerMode::CurrentUser);
    assert_eq!(WebviewInstallMode::default(), WebviewInstallMode::DownloadBootstrapper { silent: true });
    assert_eq!(PatternKind::default(), PatternKind::Brownfield);
    assert_eq!(DisabledCspModificationKind::default(), DisabledCspModificationKind::Flag(false));
    assert_eq!(TitleBarStyle::default(), TitleBarStyle::Visible);
}

#[test]
fn api_features_concatenate_groups() {
    let all = AllowlistConfig::all_features();
    assert_eq!(all[0], "api-all");
    assert_eq!(all[1], "fs-read-file");
    assert_eq!(all.last(), Some(&"app-all"));
    assert!(all.contains(&"http-request"));
    let config = AllowlistConfig {
        all: false,
        fs: fs(false, false, true),
        window: WindowAllowlistConfig::default(),
        shell: ShellAllowlistConfig {
            scope: ShellAllowlistScope::default(),
            all: true,
            execute: false,
            sidecar: false,
            open: ShellAllowlistOpen::Flag(false),
        },
        dialog: DialogAllowlistConfig { all: false, open: false, save: true, message: false, ask: false, confirm: false },
        http: HttpAllowlistConfig { scope: HttpAllowlistScope::default(), all: false, request: true },
        notification: NotificationAllowlistConfig { all: false },
        global_shortcut: GlobalShortcutAllowlistConfig { all: true },
        os: OsAllowlistConfig { all: false },
        path: PathAllowlistConfig { all: false },
        protocol: ProtocolAllowlistConfig { asset_scope: FsAllowlistScope::default(), all: false, asset: false },
        process: ProcessAllowlistConfig { all: false, relaunch: false, relaunch_dangerous_allow_symlink_macos: false, exit: true },
        clipboard: ClipboardAllowlistConfig { all: false, write_text: false, read_text: false },
        app: AppAllowlistConfig { all: false, show: false, hide: false },
    };
    assert_eq!(
        config.to_features(),
        vec!["fs-exists", "shell-all", "dialog-save", "http-request", "global-shortcut-all", "process-exit"]
    );
    assert_eq!(AllowlistConfig { all: true, ..config }.to_features(), vec!["api-all"]);
}

#[test]
fn shell_command_needs_command_unless_sidecar() {
    let r = ShellAllowedCommand::from_fields("run".to_string(), None, ShellAllowedArgs::default(), false);
    assert_eq!(r, Err("The shell scope `command` value is required.".to_string()));
    let sidecar = ShellAllowedCommand::from_fields("side".to_string(), None, ShellAllowedArgs::Flag(true), true).unwrap();
    assert_eq!(sidecar.command, "");
    assert!(sidecar.sidecar);
    let program =
        ShellAllowedCommand::from_fields("ls".to_string(), Some("ls".to_string()), ShellAllowedArgs::Flag(false), false)
            .unwrap();
    assert_eq!(program.command, "ls");
    assert_eq!(program.name, "ls");
}

#[test]
fn hook_script_and_cwd() {
    assert_eq!(HookCommand::Script(String::new()).script_and_cwd(), (None, None));
    assert_eq!(HookCommand::Script("npm run build".to_string()).script_and_cwd(), (Some("npm run build".to_string()), None));
    let hook = HookCommand::ScriptWithOptions { script: "make".to_string(), cwd: Some("ui".to_string()) };
    assert_eq!(hook.script_and_cwd(), (Some("make".to_string()), Some("ui".to_string())));
}

#[test]
fn config_file_names() {
    assert_eq!(ConfigFormat::Json.into_file_name(), "tauri.conf.json");
    assert_eq!(ConfigFormat::Json5.into_file_name(), "tauri.conf.json5");
    assert_eq!(ConfigFormat::Toml.into_file_name(), "Tauri.toml");
}

#[test]
fn windows_config_defaults() {
    let windows = WindowsConfig::default();
    assert!(windows.allow_downgrades);
    assert!(!windows.tsp);
    assert_eq!(windows.webview_install_mode, WebviewInstallMode::DownloadBootstrapper { silent: true });
    assert_eq!(WixLanguage::default(), WixLanguage::One("en-US".to_string()));
}

#[test]
fn bundle_target_names() {
    assert_eq!(BundleTarget::from_name("ALL"), Some(BundleTarget::All));
    assert_eq!(BundleTarget::from_name("Dmg"), Some(BundleTarget::One(BundleType::Dmg)));
    assert_eq!(BundleTarget::from_name("every"), None);
}

#[test]
fn platform_config_file_names() {
    assert_eq!(ConfigFormat::Json.into_platform_file_name(TargetPlatform::Linux), "tauri.linux.conf.json");
    assert_eq!(ConfigFormat::Json5.into_platform_file_name(TargetPlatform::MacOs), "tauri.macos.conf.json5");
    assert_eq!(ConfigFormat::Toml.into_platform_file_name(TargetPlatform::Windows), "Tauri.windows.toml");
}

#[test]
fn empty_minimum_system_version_means_default() {
    assert_eq!(minimum_system_version_or_default(Some(String::new())), Some("10.13".to_string()));
    assert_eq!(minimum_system_version_or_default(Some("11.0".to_string())), Some("11.0".to_string()));
    assert_eq!(minimum_system_version_or_default(None), None);
}
