use vstd::prelude::*;

verus! {

/// A group of APIs that can be switched on feature by feature.
pub trait Allowlist: Sized {
    /// Every feature of the group, the group's own "all" feature last.
    spec fn spec_all_features() -> Seq<&'static str>;

    /// The features this configuration turns on, in declaration order.
    spec fn spec_features(&self) -> Seq<&'static str>;

    /// Returns all features associated with the allowlist struct.
    fn all_features() -> (r: Vec<&'static str>)
        ensures
            r@ == Self::spec_all_features(),
    ;

    /// Returns the features enabled on this allowlist.
    fn to_features(&self) -> (r: Vec<&'static str>)
        ensures
            r@ == self.spec_features(),
    ;
}

/// `feature` alone where `flag` is set, nothing otherwise.
pub open spec fn feature_if(flag: bool, feature: &'static str) -> Seq<&'static str> {
    if flag {
        seq![feature]
    } else {
        Seq::empty()
    }
}

/// Appends `feature` where `flag` is set.
fn push_feature(features: &mut Vec<&'static str>, flag: bool, feature: &'static str)
    ensures
        final(features)@ == old(features)@ + feature_if(flag, feature),
{
    if flag {
        features.push(feature);
    }
    assert(final(features)@ =~= old(features)@ + feature_if(flag, feature));
}

/// Filesystem scope: a list of glob patterns that restrict the API access
/// from the webview. A pattern may start with a variable that resolves to a
/// system base directory (`$APPDATA`, `$HOME`, ...).
#[derive(Debug, Clone, PartialEq, Eq)]
pub enum FsAllowlistScope {
    /// A list of paths that are allowed by this scope.
    AllowedPaths(Vec<String>),
    /// A complete scope configuration.
    Scope {
        /// A list of paths that are allowed by this scope.
        allow: Vec<String>,
        /// A list of paths that are not allowed by this scope; it takes
        /// precedence over `allow`.
        deny: Vec<String>,
        /// Whether components that start with a `.` must be matched by a
        /// literal `.` in the pattern.
        require_literal_leading_dot: Option<bool>,
    },
}

impl Default for FsAllowlistScope {
    fn default() -> (r: Self)
        ensures
            r matches FsAllowlistScope::AllowedPaths(paths) && paths@.len() == 0,
    {
        FsAllowlistScope::AllowedPaths(Vec::new())
    }
}

/// A command allowed to be executed by the webview API.
#[derive(Debug, Clone, PartialEq, Eq)]
pub struct ShellAllowedCommand {
    /// The name for this allowed shell command configuration.
    pub name: String,
    /// The command name, or the sidecar's binary path where `sidecar` is set.
    pub command: String,
    /// The allowed arguments for the command execution.
    pub args: ShellAllowedArgs,
    /// Whether the command is a sidecar or a system program.
    pub sidecar: bool,
}

impl ShellAllowedCommand {
    /// Builds a command from its configured fields. A system program needs a
    /// `command`; a sidecar without one gets an empty command path.
    pub fn from_fields(
        name: String,
        command: Option<String>,
        args: ShellAllowedArgs,
        sidecar: bool,
    ) -> (r: Result<ShellAllowedCommand, String>)
        ensures
            (!sidecar && command is None) <==> r is Err,
            r matches Err(m) ==> m@ == "The shell scope `command` value is required."@,
            r matches Ok(c) ==> c.name == name && c.args == args && c.sidecar == sidecar
                && c.command@ == match command {
                    Some(p) => p@,
                    None => Seq::<char>::empty(),
                },
    {
        match command {
            None => {
                if !sidecar {
                    return Err(String::from_str("The shell scope `command` value is required."));
                }
                Ok(ShellAllowedCommand { name, command: String::new(), args, sidecar })
            },
            Some(command) => Ok(ShellAllowedCommand { name, command, args, sidecar }),
        }
    }
}

/// A set of command arguments allowed to be executed by the webview API.
#[derive(Debug, Clone, PartialEq, Eq)]
pub enum ShellAllowedArgs {
    /// Use a simple boolean to allow all or disable all arguments to this command configuration.
    Flag(bool),
    /// A specific set of [`ShellAllowedArg`] that are valid to call for the command configuration.
    List(Vec<ShellAllowedArg>),
}

impl Default for ShellAllowedArgs {
    fn default() -> (r: Self)
        ensures
            r == ShellAllowedArgs::Flag(false),
    {
        ShellAllowedArgs::Flag(false)
    }
}

/// A command argument allowed to be executed by the webview API.
#[derive(Debug, Clone, PartialEq, Eq)]
pub enum ShellAllowedArg {
    /// A non-configurable argument that is passed to the command in the order it was specified.
    Fixed(String),
    /// A variable that is set while calling the command from the webview API.
    Var {
        /// The regular expression the argument value must match.
        validator: String,
    },
}

/// Shell scope definition: the commands the webview may run.
#[derive(Debug, Clone, PartialEq, Eq)]
pub struct ShellAllowlistScope(pub Vec<ShellAllowedCommand>);

impl Default for ShellAllowlistScope {
    fn default() -> (r: Self)
        ensures
            r.0@.len() == 0,
    {
        ShellAllowlistScope(Vec::new())
    }
}

/// Defines the `shell > open` api scope.
#[derive(Debug, Clone, PartialEq, Eq)]
pub enum ShellAllowlistOpen {
    /// If the shell open API should be enabled; where enabled, the default
    /// validation regex `^((mailto:\w+)|(tel:\w+)|(https?://\w+)).+` is used.
    Flag(bool),
    /// Enable the shell open API, with a custom regex that the opened path must match against.
    Validate(String),
}

impl Default for ShellAllowlistOpen {
    fn default() -> (r: Self)
        ensures
            r == ShellAllowlistOpen::Flag(false),
    {
        ShellAllowlistOpen::Flag(false)
    }
}

/// Allowlist for the shell APIs.
#[derive(Debug, Clone, PartialEq, Eq, Default)]
pub struct ShellAllowlistConfig {
    /// Access scope for the binary execution APIs.
    pub scope: ShellAllowlistScope,
    /// Enables every API of this group.
    pub all: bool,
    /// Enable binary execution.
    pub execute: bool,
    /// Enable sidecar execution.
    pub sidecar: bool,
    /// Open URL with the user's default application.
    pub open: ShellAllowlistOpen,
}

impl Allowlist for ShellAllowlistConfig {
    open spec fn spec_all_features() -> Seq<&'static str> {
        seq!["shell-execute", "shell-sidecar", "shell-open", "shell-all"]
    }

    open spec fn spec_features(&self) -> Seq<&'static str> {
        if self.all {
            seq!["shell-all"]
        } else {
            Seq::empty()
                + feature_if(self.execute, "shell-execute")
                + feature_if(self.sidecar, "shell-sidecar")
                + feature_if(self.open != ShellAllowlistOpen::Flag(false), "shell-open")
        }
    }

    fn all_features() -> (r: Vec<&'static str>) {
        let allowlist = ShellAllowlistConfig {
            scope: ShellAllowlistScope::default(),
            all: false,
            execute: true,
            sidecar: true,
            open: ShellAllowlistOpen::Flag(true),
        };
        let mut features = allowlist.to_features();
        features.push("shell-all");
        assert(features@ =~= Self::spec_all_features());
        features
    }

    fn to_features(&self) -> (r: Vec<&'static str>) {
        let mut features = Vec::new();
        if self.all {
            features.push("shell-all");
            assert(features@ =~= self.spec_features());
        } else {
            push_feature(&mut features, self.execute, "shell-execute");
            push_feature(&mut features, self.sidecar, "shell-sidecar");
            let open = match &self.open {
                ShellAllowlistOpen::Flag(enabled) => *enabled,
                ShellAllowlistOpen::Validate(_) => true,
            };
            push_feature(&mut features, open, "shell-open");
        }
        features
    }
}

/// Allowlist for the file system APIs.
#[derive(Debug, Clone, PartialEq, Eq, Default)]
pub struct FsAllowlistConfig {
    /// The access scope for the filesystem APIs.
    pub scope: FsAllowlistScope,
    /// Enables every API of this group.
    pub all: bool,
    /// Read file from local filesystem.
    pub read_file: bool,
    /// Write file to local filesystem.
    pub write_file: bool,
    /// Read directory from local filesystem.
    pub read_dir: bool,
    /// Copy file from local filesystem.
    pub copy_file: bool,
    /// Create directory from local filesystem.
    pub create_dir: bool,
    /// Remove directory from local filesystem.
    pub remove_dir: bool,
    /// Remove file from local filesystem.
    pub remove_file: bool,
    /// Rename file from local filesystem.
    pub rename_file: bool,
    /// Check if path exists on the local filesystem.
    pub exists: bool,
}

impl Allowlist for FsAllowlistConfig {
    open spec fn spec_all_features() -> Seq<&'static str> {
        seq!["fs-read-file", "fs-write-file", "fs-read-dir", "fs-copy-file", "fs-create-dir", "fs-remove-dir", "fs-remove-file", "fs-rename-file", "fs-exists", "fs-all"]
    }

    open spec fn spec_features(&self) -> Seq<&'static str> {
        if self.all {
            seq!["fs-all"]
        } else {
            Seq::empty()
                + feature_if(self.read_file, "fs-read-file")
                + feature_if(self.write_file, "fs-write-file")
                + feature_if(self.read_dir, "fs-read-dir")
                + feature_if(self.copy_file, "fs-copy-file")
                + feature_if(self.create_dir, "fs-create-dir")
                + feature_if(self.remove_dir, "fs-remove-dir")
                + feature_if(self.remove_file, "fs-remove-file")
                + feature_if(self.rename_file, "fs-rename-file")
                + feature_if(self.exists, "fs-exists")
        }
    }

    fn all_features() -> (r: Vec<&'static str>) {
        let allowlist = FsAllowlistConfig {
            scope: FsAllowlistScope::default(),
            all: false,
            read_file: true,
            write_file: true,
            read_dir: true,
            copy_file: true,
            create_dir: true,
            remove_dir: true,
            remove_file: true,
            rename_file: true,
            exists: true,
        };
        let mut features = allowlist.to_features();
        features.push("fs-all");
        assert(features@ =~= Self::spec_all_features());
        features
    }

    fn to_features(&self) -> (r: Vec<&'static str>) {
        let mut features = Vec::new();
        if self.all {
            features.push("fs-all");
            assert(features@ =~= self.spec_features());
        } else {
            push_feature(&mut features, self.read_file, "fs-read-file");
            push_feature(&mut features, self.write_file, "fs-write-file");
            push_feature(&mut features, self.read_dir, "fs-read-dir");
            push_feature(&mut features, self.copy_file, "fs-copy-file");
            push_feature(&mut features, self.create_dir, "fs-create-dir");
            push_feature(&mut features, self.remove_dir, "fs-remove-dir");
            push_feature(&mut features, self.remove_file, "fs-remove-file");
            push_feature(&mut features, self.rename_file, "fs-rename-file");
            push_feature(&mut features, self.exists, "fs-exists");
        }
        features
    }
}

/// Allowlist for the window APIs.
#[derive(Debug, Clone, PartialEq, Eq, Default)]
pub struct WindowAllowlistConfig {
    /// Enables every API of this group.
    pub all: bool,
    /// Allows dynamic window creation.
    pub create: bool,
    /// Allows centering the window.
    pub center: bool,
    /// Allows requesting user attention on the window.
    pub request_user_attention: bool,
    /// Allows setting the resizable flag of the window.
    pub set_resizable: bool,
    /// Allows setting whether the window's native maximize button is enabled or not.
    pub set_maximizable: bool,
    /// Allows setting whether the window's native minimize button is enabled or not.
    pub set_minimizable: bool,
    /// Allows setting whether the window's native close button is enabled or not.
    pub set_closable: bool,
    /// Allows changing the window title.
    pub set_title: bool,
    /// Allows maximizing the window.
    pub maximize: bool,
    /// Allows unmaximizing the window.
    pub unmaximize: bool,
    /// Allows minimizing the window.
    pub minimize: bool,
    /// Allows unminimizing the window.
    pub unminimize: bool,
    /// Allows showing the window.
    pub show: bool,
    /// Allows hiding the window.
    pub hide: bool,
    /// Allows closing the window.
    pub close: bool,
    /// Allows setting the decorations flag of the window.
    pub set_decorations: bool,
    /// Allows setting the always_on_top flag of the window.
    pub set_always_on_top: bool,
    /// Allows preventing the window contents from being captured by other apps.
    pub set_content_protected: bool,
    /// Allows setting the window size.
    pub set_size: bool,
    /// Allows setting the window minimum size.
    pub set_min_size: bool,
    /// Allows setting the window maximum size.
    pub set_max_size: bool,
    /// Allows changing the position of the window.
    pub set_position: bool,
    /// Allows setting the fullscreen flag of the window.
    pub set_fullscreen: bool,
    /// Allows focusing the window.
    pub set_focus: bool,
    /// Allows changing the window icon.
    pub set_icon: bool,
    /// Allows setting the skip_taskbar flag of the window.
    pub set_skip_taskbar: bool,
    /// Allows grabbing the cursor.
    pub set_cursor_grab: bool,
    /// Allows setting the cursor visibility.
    pub set_cursor_visible: bool,
    /// Allows changing the cursor icon.
    pub set_cursor_icon: bool,
    /// Allows setting the cursor position.
    pub set_cursor_position: bool,
    /// Allows ignoring cursor events.
    pub set_ignore_cursor_events: bool,
    /// Allows start dragging on the window.
    pub start_dragging: bool,
    /// Allows opening the system dialog to print the window content.
    pub print: bool,
}

impl WindowAllowlistConfig {
    /// `before` followed by the features of one run of this configuration's flags.
    pub open spec fn window_features_a(&self, before: Seq<&'static str>) -> Seq<&'static str> {
        before
            + feature_if(self.create, "window-create")
            + feature_if(self.center, "window-center")
            + feature_if(self.request_user_attention, "window-request-user-attention")
            + feature_if(self.set_resizable, "window-set-resizable")
            + feature_if(self.set_maximizable, "window-set-maximizable")
            + feature_if(self.set_minimizable, "window-set-minimizable")
            + feature_if(self.set_closable, "window-set-closable")
            + feature_if(self.set_title, "window-set-title")
            + feature_if(self.maximize, "window-maximize")
    }

    fn push_window_features_a(&self, features: &mut Vec<&'static str>)
        ensures
            final(features)@ == self.window_features_a(old(features)@),
    {
        push_feature(features, self.create, "window-create");
        push_feature(features, self.center, "window-center");
        push_feature(features, self.request_user_attention, "window-request-user-attention");
        push_feature(features, self.set_resizable, "window-set-resizable");
        push_feature(features, self.set_maximizable, "window-set-maximizable");
        push_feature(features, self.set_minimizable, "window-set-minimizable");
        push_feature(features, self.set_closable, "window-set-closable");
        push_feature(features, self.set_title, "window-set-title");
        push_feature(features, self.maximize, "window-maximize");
    }

    /// `before` followed by the features of one run of this configuration's flags.
    pub open spec fn window_features_b(&self, before: Seq<&'static str>) -> Seq<&'static str> {
        before
            + feature_if(self.unmaximize, "window-unmaximize")
            + feature_if(self.minimize, "window-minimize")
            + feature_if(self.unminimize, "window-unminimize")
            + feature_if(self.show, "window-show")
            + feature_if(self.hide, "window-hide")
            + feature_if(self.close, "window-close")
            + feature_if(self.set_decorations, "window-set-decorations")
            + feature_if(self.set_always_on_top, "window-set-always-on-top")
            + feature_if(self.set_content_protected, "window-set-content-protected")
    }

    fn push_window_features_b(&self, features: &mut Vec<&'static str>)
        ensures
            final(features)@ == self.window_features_b(old(features)@),
    {
        push_feature(features, self.unmaximize, "window-unmaximize");
        push_feature(features, self.minimize, "window-minimize");
        push_feature(features, self.unminimize, "window-unminimize");
        push_feature(features, self.show, "window-show");
        push_feature(features, self.hide, "window-hide");
        push_feature(features, self.close, "window-close");
        push_feature(features, self.set_decorations, "window-set-decorations");
        push_feature(features, self.set_always_on_top, "window-set-always-on-top");
        push_feature(features, self.set_content_protected, "window-set-content-protected");
    }

    /// `before` followed by the features of one run of this configuration's flags.
    pub open spec fn window_features_c(&self, before: Seq<&'static str>) -> Seq<&'static str> {
        before
            + feature_if(self.set_size, "window-set-size")
            + feature_if(self.set_min_size, "window-set-min-size")
            + feature_if(self.set_max_size, "window-set-max-size")
            + feature_if(self.set_position, "window-set-position")
            + feature_if(self.set_fullscreen, "window-set-fullscreen")
            + feature_if(self.set_focus, "window-set-focus")
            + feature_if(self.set_icon, "window-set-icon")
            + feature_if(self.set_skip_taskbar, "window-set-skip-taskbar")
            + feature_if(self.set_cursor_grab, "window-set-cursor-grab")
    }

    fn push_window_features_c(&self, features: &mut Vec<&'static str>)
        ensures
            final(features)@ == self.window_features_c(old(features)@),
    {
        push_feature(features, self.set_size, "window-set-size");
        push_feature(features, self.set_min_size, "window-set-min-size");
        push_feature(features, self.set_max_size, "window-set-max-size");
        push_feature(features, self.set_position, "window-set-position");
        push_feature(features, self.set_fullscreen, "window-set-fullscreen");
        push_feature(features, self.set_focus, "window-set-focus");
        push_feature(features, self.set_icon, "window-set-icon");
        push_feature(features, self.set_skip_taskbar, "window-set-skip-taskbar");
        push_feature(features, self.set_cursor_grab, "window-set-cursor-grab");
    }

    /// `before` followed by the features of one run of this configuration's flags.
    pub open spec fn window_features_d(&self, before: Seq<&'static str>) -> Seq<&'static str> {
        before
            + feature_if(self.set_cursor_visible, "window-set-cursor-visible")
            + feature_if(self.set_cursor_icon, "window-set-cursor-icon")
            + feature_if(self.set_cursor_position, "window-set-cursor-position")
            + feature_if(self.set_ignore_cursor_events, "window-set-ignore-cursor-events")
            + feature_if(self.start_dragging, "window-start-dragging")
            + feature_if(self.print, "window-print")
    }

    fn push_window_features_d(&self, features: &mut Vec<&'static str>)
        ensures
            final(features)@ == self.window_features_d(old(features)@),
    {
        push_feature(features, self.set_cursor_visible, "window-set-cursor-visible");
        push_feature(features, self.set_cursor_icon, "window-set-cursor-icon");
        push_feature(features, self.set_cursor_position, "window-set-cursor-position");
        push_feature(features, self.set_ignore_cursor_events, "window-set-ignore-cursor-events");
        push_feature(features, self.start_dragging, "window-start-dragging");
        push_feature(features, self.print, "window-print");
    }
}

impl Allowlist for WindowAllowlistConfig {
    open spec fn spec_all_features() -> Seq<&'static str> {
        seq!["window-create", "window-center", "window-request-user-attention", "window-set-resizable", "window-set-maximizable", "window-set-minimizable", "window-set-closable", "window-set-title", "window-maximize", "window-unmaximize", "window-minimize", "window-unminimize", "window-show", "window-hide", "window-close", "window-set-decorations", "window-set-always-on-top", "window-set-size", "window-set-min-size", "window-set-max-size", "window-set-position", "window-set-fullscreen", "window-set-focus", "window-set-icon", "window-set-skip-taskbar", "window-set-cursor-grab", "window-set-cursor-visible", "window-set-cursor-icon", "window-set-cursor-position", "window-set-ignore-cursor-events", "window-start-dragging", "window-print", "window-all"]
    }

    open spec fn spec_features(&self) -> Seq<&'static str> {
        if self.all {
            seq!["window-all"]
        } else {
            self.window_features_d(
                self.window_features_c(self.window_features_b(self.window_features_a(Seq::empty()))),
            )
        }
    }

    fn all_features() -> (r: Vec<&'static str>) {
        let allowlist = WindowAllowlistConfig {
            all: false,
            create: true,
            center: true,
            request_user_attention: true,
            set_resizable: true,
            set_maximizable: true,
            set_minimizable: true,
            set_closable: true,
            set_title: true,
            maximize: true,
            unmaximize: true,
            minimize: true,
            unminimize: true,
            show: true,
            hide: true,
            close: true,
            set_decorations: true,
            set_always_on_top: true,
            set_content_protected: false,
            set_size: true,
            set_min_size: true,
            set_max_size: true,
            set_position: true,
            set_fullscreen: true,
            set_focus: true,
            set_icon: true,
            set_skip_taskbar: true,
            set_cursor_grab: true,
            set_cursor_visible: true,
            set_cursor_icon: true,
            set_cursor_position: true,
            set_ignore_cursor_events: true,
            start_dragging: true,
            print: true,
        };
        let mut features = allowlist.to_features();
        features.push("window-all");
        assert(features@ =~= Self::spec_all_features());
        features
    }

    fn to_features(&self) -> (r: Vec<&'static str>) {
        let mut features = Vec::new();
        if self.all {
            features.push("window-all");
            assert(features@ =~= self.spec_features());
        } else {
            self.push_window_features_a(&mut features);
            self.push_window_features_b(&mut features);
            self.push_window_features_c(&mut features);
            self.push_window_features_d(&mut features);
        }
        features
    }
}

/// Allowlist for the dialog APIs.
#[derive(Debug, Clone, PartialEq, Eq, Default)]
pub struct DialogAllowlistConfig {
    /// Enables every API of this group.
    pub all: bool,
    /// Allows the API to open a dialog window to pick files.
    pub open: bool,
    /// Allows the API to open a dialog window to pick where to save files.
    pub save: bool,
    /// Allows the API to show a message dialog window.
    pub message: bool,
    /// Allows the API to show a dialog window with Yes/No buttons.
    pub ask: bool,
    /// Allows the API to show a dialog window with Ok/Cancel buttons.
    pub confirm: bool,
}

impl Allowlist for DialogAllowlistConfig {
    open spec fn spec_all_features() -> Seq<&'static str> {
        seq!["dialog-open", "dialog-save", "dialog-message", "dialog-ask", "dialog-confirm", "dialog-all"]
    }

    open spec fn spec_features(&self) -> Seq<&'static str> {
        if self.all {
            seq!["dialog-all"]
        } else {
            Seq::empty()
                + feature_if(self.open, "dialog-open")
                + feature_if(self.save, "dialog-save")
                + feature_if(self.message, "dialog-message")
                + feature_if(self.ask, "dialog-ask")
                + feature_if(self.confirm, "dialog-confirm")
        }
    }

    fn all_features() -> (r: Vec<&'static str>) {
        let allowlist = DialogAllowlistConfig {
            all: false,
            open: true,
            save: true,
            message: true,
            ask: true,
            confirm: true,
        };
        let mut features = allowlist.to_features();
        features.push("dialog-all");
        assert(features@ =~= Self::spec_all_features());
        features
    }

    fn to_features(&self) -> (r: Vec<&'static str>) {
        let mut features = Vec::new();
        if self.all {
            features.push("dialog-all");
            assert(features@ =~= self.spec_features());
        } else {
            push_feature(&mut features, self.open, "dialog-open");
            push_feature(&mut features, self.save, "dialog-save");
            push_feature(&mut features, self.message, "dialog-message");
            push_feature(&mut features, self.ask, "dialog-ask");
            push_feature(&mut features, self.confirm, "dialog-confirm");
        }
        features
    }
}

/// Allowlist for the notification APIs.
#[derive(Debug, Clone, PartialEq, Eq, Default)]
pub struct NotificationAllowlistConfig {
    /// Enables every API of this group.
    pub all: bool,
}

impl Allowlist for NotificationAllowlistConfig {
    open spec fn spec_all_features() -> Seq<&'static str> {
        seq!["notification-all"]
    }

    open spec fn spec_features(&self) -> Seq<&'static str> {
        if self.all {
            seq!["notification-all"]
        } else {
            Seq::empty()
        }
    }

    fn all_features() -> (r: Vec<&'static str>) {
        let allowlist = NotificationAllowlistConfig {
            all: false,
        };
        let mut features = allowlist.to_features();
        features.push("notification-all");
        assert(features@ =~= Self::spec_all_features());
        features
    }

    fn to_features(&self) -> (r: Vec<&'static str>) {
        let mut features = Vec::new();
        if self.all {
            features.push("notification-all");
            assert(features@ =~= self.spec_features());
        } else {
        }
        features
    }
}

/// Allowlist for the global shortcut APIs.
#[derive(Debug, Clone, PartialEq, Eq, Default)]
pub struct GlobalShortcutAllowlistConfig {
    /// Enables every API of this group.
    pub all: bool,
}

impl Allowlist for GlobalShortcutAllowlistConfig {
    open spec fn spec_all_features() -> Seq<&'static str> {
        seq!["global-shortcut-all"]
    }

    open spec fn spec_features(&self) -> Seq<&'static str> {
        if self.all {
            seq!["global-shortcut-all"]
        } else {
            Seq::empty()
        }
    }

    fn all_features() -> (r: Vec<&'static str>) {
        let allowlist = GlobalShortcutAllowlistConfig {
            all: false,
        };
        let mut features = allowlist.to_features();
        features.push("global-shortcut-all");
        assert(features@ =~= Self::spec_all_features());
        features
    }

    fn to_features(&self) -> (r: Vec<&'static str>) {
        let mut features = Vec::new();
        if self.all {
            features.push("global-shortcut-all");
            assert(features@ =~= self.spec_features());
        } else {
        }
        features
    }
}

/// Allowlist for the OS APIs.
#[derive(Debug, Clone, PartialEq, Eq, Default)]
pub struct OsAllowlistConfig {
    /// Enables every API of this group.
    pub all: bool,
}

impl Allowlist for OsAllowlistConfig {
    open spec fn spec_all_features() -> Seq<&'static str> {
        seq!["os-all"]
    }

    open spec fn spec_features(&self) -> Seq<&'static str> {
        if self.all {
            seq!["os-all"]
        } else {
            Seq::empty()
        }
    }

    fn all_features() -> (r: Vec<&'static str>) {
        let allowlist = OsAllowlistConfig {
            all: false,
        };
        let mut features = allowlist.to_features();
        features.push("os-all");
        assert(features@ =~= Self::spec_all_features());
        features
    }

    fn to_features(&self) -> (r: Vec<&'static str>) {
        let mut features = Vec::new();
        if self.all {
            features.push("os-all");
            assert(features@ =~= self.spec_features());
        } else {
        }
        features
    }
}

/// Allowlist for the path APIs.
#[derive(Debug, Clone, PartialEq, Eq, Default)]
pub struct PathAllowlistConfig {
    /// Enables every API of this group.
    pub all: bool,
}

impl Allowlist for PathAllowlistConfig {
    open spec fn spec_all_features() -> Seq<&'static str> {
        seq!["path-all"]
    }

    open spec fn spec_features(&self) -> Seq<&'static str> {
        if self.all {
            seq!["path-all"]
        } else {
            Seq::empty()
        }
    }

    fn all_features() -> (r: Vec<&'static str>) {
        let allowlist = PathAllowlistConfig {
            all: false,
        };
        let mut features = allowlist.to_features();
        features.push("path-all");
        assert(features@ =~= Self::spec_all_features());
        features
    }

    fn to_features(&self) -> (r: Vec<&'static str>) {
        let mut features = Vec::new();
        if self.all {
            features.push("path-all");
            assert(features@ =~= self.spec_features());
        } else {
        }
        features
    }
}

/// Allowlist for the custom protocols.
#[derive(Debug, Clone, PartialEq, Eq, Default)]
pub struct ProtocolAllowlistConfig {
    /// The access scope for the asset protocol.
    pub asset_scope: FsAllowlistScope,
    /// Enables every API of this group.
    pub all: bool,
    /// Enables the asset protocol.
    pub asset: bool,
}

impl Allowlist for ProtocolAllowlistConfig {
    open spec fn spec_all_features() -> Seq<&'static str> {
        seq!["protocol-asset", "protocol-all"]
    }

    open spec fn spec_features(&self) -> Seq<&'static str> {
        if self.all {
            seq!["protocol-all"]
        } else {
            Seq::empty()
                + feature_if(self.asset, "protocol-asset")
        }
    }

    fn all_features() -> (r: Vec<&'static str>) {
        let allowlist = ProtocolAllowlistConfig {
            asset_scope: FsAllowlistScope::default(),
            all: false,
            asset: true,
        };
        let mut features = allowlist.to_features();
        features.push("protocol-all");
        assert(features@ =~= Self::spec_all_features());
        features
    }

    fn to_features(&self) -> (r: Vec<&'static str>) {
        let mut features = Vec::new();
        if self.all {
            features.push("protocol-all");
            assert(features@ =~= self.spec_features());
        } else {
            push_feature(&mut features, self.asset, "protocol-asset");
        }
        features
    }
}

/// Allowlist for the process APIs.
#[derive(Debug, Clone, PartialEq, Eq, Default)]
pub struct ProcessAllowlistConfig {
    /// Enables every API of this group.
    pub all: bool,
    /// Enables the relaunch API.
    pub relaunch: bool,
    /// Dangerous option that allows macOS to relaunch even if the binary contains a symlink.
    pub relaunch_dangerous_allow_symlink_macos: bool,
    /// Enables the exit API.
    pub exit: bool,
}

impl Allowlist for ProcessAllowlistConfig {
    open spec fn spec_all_features() -> Seq<&'static str> {
        seq!["process-relaunch", "process-exit", "process-all"]
    }

    open spec fn spec_features(&self) -> Seq<&'static str> {
        if self.all {
            seq!["process-all"]
        } else {
            Seq::empty()
                + feature_if(self.relaunch, "process-relaunch")
                + feature_if(self.relaunch_dangerous_allow_symlink_macos, "process-relaunch-dangerous-allow-symlink-macos")
                + feature_if(self.exit, "process-exit")
        }
    }

    fn all_features() -> (r: Vec<&'static str>) {
        let allowlist = ProcessAllowlistConfig {
            all: false,
            relaunch: true,
            relaunch_dangerous_allow_symlink_macos: false,
            exit: true,
        };
        let mut features = allowlist.to_features();
        features.push("process-all");
        assert(features@ =~= Self::spec_all_features());
        features
    }

    fn to_features(&self) -> (r: Vec<&'static str>) {
        let mut features = Vec::new();
        if self.all {
            features.push("process-all");
            assert(features@ =~= self.spec_features());
        } else {
            push_feature(&mut features, self.relaunch, "process-relaunch");
            push_feature(&mut features, self.relaunch_dangerous_allow_symlink_macos, "process-relaunch-dangerous-allow-symlink-macos");
            push_feature(&mut features, self.exit, "process-exit");
        }
        features
    }
}

/// Allowlist for the clipboard APIs.
#[derive(Debug, Clone, PartialEq, Eq, Default)]
pub struct ClipboardAllowlistConfig {
    /// Enables every API of this group.
    pub all: bool,
    /// Enables the clipboard's `writeText` API.
    pub write_text: bool,
    /// Enables the clipboard's `readText` API.
    pub read_text: bool,
}

impl Allowlist for ClipboardAllowlistConfig {
    open spec fn spec_all_features() -> Seq<&'static str> {
        seq!["clipboard-write-text", "clipboard-read-text", "clipboard-all"]
    }

    open spec fn spec_features(&self) -> Seq<&'static str> {
        if self.all {
            seq!["clipboard-all"]
        } else {
            Seq::empty()
                + feature_if(self.write_text, "clipboard-write-text")
                + feature_if(self.read_text, "clipboard-read-text")
        }
    }

    fn all_features() -> (r: Vec<&'static str>) {
        let allowlist = ClipboardAllowlistConfig {
            all: false,
            write_text: true,
            read_text: true,
        };
        let mut features = allowlist.to_features();
        features.push("clipboard-all");
        assert(features@ =~= Self::spec_all_features());
        features
    }

    fn to_features(&self) -> (r: Vec<&'static str>) {
        let mut features = Vec::new();
        if self.all {
            features.push("clipboard-all");
            assert(features@ =~= self.spec_features());
        } else {
            push_feature(&mut features, self.write_text, "clipboard-write-text");
            push_feature(&mut features, self.read_text, "clipboard-read-text");
        }
        features
    }
}

/// Allowlist for the app APIs.
#[derive(Debug, Clone, PartialEq, Eq, Default)]
pub struct AppAllowlistConfig {
    /// Enables every API of this group.
    pub all: bool,
    /// Enables the app's `show` API.
    pub show: bool,
    /// Enables the app's `hide` API.
    pub hide: bool,
}

impl Allowlist for AppAllowlistConfig {
    open spec fn spec_all_features() -> Seq<&'static str> {
        seq!["app-show", "app-hide", "app-all"]
    }

    open spec fn spec_features(&self) -> Seq<&'static str> {
        if self.all {
            seq!["app-all"]
        } else {
            Seq::empty()
                + feature_if(self.show, "app-show")
                + feature_if(self.hide, "app-hide")
        }
    }

    fn all_features() -> (r: Vec<&'static str>) {
        let allowlist = AppAllowlistConfig {
            all: false,
            show: true,
            hide: true,
        };
        let mut features = allowlist.to_features();
        features.push("app-all");
        assert(features@ =~= Self::spec_all_features());
        features
    }

    fn to_features(&self) -> (r: Vec<&'static str>) {
        let mut features = Vec::new();
        if self.all {
            features.push("app-all");
            assert(features@ =~= self.spec_features());
        } else {
            push_feature(&mut features, self.show, "app-show");
            push_feature(&mut features, self.hide, "app-hide");
        }
        features
    }
}

/// HTTP API scope definition: the URLs (as written in the configuration)
/// the webview may reach, where a trailing `*` matches any suffix.
#[derive(Debug, Clone, PartialEq, Eq)]
pub struct HttpAllowlistScope(pub Vec<String>);

impl Default for HttpAllowlistScope {
    fn default() -> (r: Self)
        ensures
            r.0@.len() == 0,
    {
        HttpAllowlistScope(Vec::new())
    }
}

/// Allowlist for the HTTP APIs.
#[derive(Debug, Clone, PartialEq, Eq, Default)]
pub struct HttpAllowlistConfig {
    /// The access scope for the HTTP APIs.
    pub scope: HttpAllowlistScope,
    /// Enables every API of this group.
    pub all: bool,
    /// Allows making HTTP requests.
    pub request: bool,
}

impl Allowlist for HttpAllowlistConfig {
    open spec fn spec_all_features() -> Seq<&'static str> {
        seq!["http-request", "http-all"]
    }

    open spec fn spec_features(&self) -> Seq<&'static str> {
        if self.all {
            seq!["http-all"]
        } else {
            Seq::empty() + feature_if(self.request, "http-request")
        }
    }

    fn all_features() -> (r: Vec<&'static str>) {
        let allowlist = HttpAllowlistConfig { scope: HttpAllowlistScope::default(), all: false, request: true };
        let mut features = allowlist.to_features();
        features.push("http-all");
        assert(features@ =~= Self::spec_all_features());
        features
    }

    fn to_features(&self) -> (r: Vec<&'static str>) {
        let mut features = Vec::new();
        if self.all {
            features.push("http-all");
            assert(features@ =~= self.spec_features());
        } else {
            push_feature(&mut features, self.request, "http-request");
        }
        features
    }
}

/// The allowlist of every API group.
#[derive(Debug, Clone, PartialEq, Eq)]
pub struct AllowlistConfig {
    /// Enables every API.
    pub all: bool,
    /// API for accessing the file system.
    pub fs: FsAllowlistConfig,
    /// Window API allowlist.
    pub window: WindowAllowlistConfig,
    /// Shell API allowlist.
    pub shell: ShellAllowlistConfig,
    /// Dialog API allowlist.
    pub dialog: DialogAllowlistConfig,
    /// HTTP API allowlist.
    pub http: HttpAllowlistConfig,
    /// Notifications API allowlist.
    pub notification: NotificationAllowlistConfig,
    /// Global shortcut API allowlist.
    pub global_shortcut: GlobalShortcutAllowlistConfig,
    /// OS allowlist.
    pub os: OsAllowlistConfig,
    /// Path API allowlist.
    pub path: PathAllowlistConfig,
    /// Custom protocol allowlist.
    pub protocol: ProtocolAllowlistConfig,
    /// Process API allowlist.
    pub process: ProcessAllowlistConfig,
    /// Clipboard APIs allowlist.
    pub clipboard: ClipboardAllowlistConfig,
    /// App APIs allowlist.
    pub app: AppAllowlistConfig,
}

impl Allowlist for AllowlistConfig {
    open spec fn spec_all_features() -> Seq<&'static str> {
        seq!["api-all"]
            + FsAllowlistConfig::spec_all_features()
            + WindowAllowlistConfig::spec_all_features()
            + ShellAllowlistConfig::spec_all_features()
            + DialogAllowlistConfig::spec_all_features()
            + HttpAllowlistConfig::spec_all_features()
            + NotificationAllowlistConfig::spec_all_features()
            + GlobalShortcutAllowlistConfig::spec_all_features()
            + OsAllowlistConfig::spec_all_features()
            + PathAllowlistConfig::spec_all_features()
            + ProtocolAllowlistConfig::spec_all_features()
            + ProcessAllowlistConfig::spec_all_features()
            + ClipboardAllowlistConfig::spec_all_features()
            + AppAllowlistConfig::spec_all_features()
    }

    open spec fn spec_features(&self) -> Seq<&'static str> {
        if self.all {
            seq!["api-all"]
        } else {
            Seq::empty()
                + self.fs.spec_features()
                + self.window.spec_features()
                + self.shell.spec_features()
                + self.dialog.spec_features()
                + self.http.spec_features()
                + self.notification.spec_features()
                + self.global_shortcut.spec_features()
                + self.os.spec_features()
                + self.path.spec_features()
                + self.protocol.spec_features()
                + self.process.spec_features()
                + self.clipboard.spec_features()
                + self.app.spec_features()
        }
    }

    fn all_features() -> (r: Vec<&'static str>) {
        let mut features = Vec::new();
        features.push("api-all");
        assert(features@ == seq!["api-all"]);
        features.append(&mut FsAllowlistConfig::all_features());
        features.append(&mut WindowAllowlistConfig::all_features());
        features.append(&mut ShellAllowlistConfig::all_features());
        features.append(&mut DialogAllowlistConfig::all_features());
        features.append(&mut HttpAllowlistConfig::all_features());
        features.append(&mut NotificationAllowlistConfig::all_features());
        features.append(&mut GlobalShortcutAllowlistConfig::all_features());
        features.append(&mut OsAllowlistConfig::all_features());
        features.append(&mut PathAllowlistConfig::all_features());
        features.append(&mut ProtocolAllowlistConfig::all_features());
        features.append(&mut ProcessAllowlistConfig::all_features());
        features.append(&mut ClipboardAllowlistConfig::all_features());
        features.append(&mut AppAllowlistConfig::all_features());
        features
    }

    fn to_features(&self) -> (r: Vec<&'static str>) {
        let mut features = Vec::new();
        if self.all {
            features.push("api-all");
            assert(features@ =~= self.spec_features());
        } else {
            features.append(&mut self.fs.to_features());
            features.append(&mut self.window.to_features());
            features.append(&mut self.shell.to_features());
            features.append(&mut self.dialog.to_features());
            features.append(&mut self.http.to_features());
            features.append(&mut self.notification.to_features());
            features.append(&mut self.global_shortcut.to_features());
            features.append(&mut self.os.to_features());
            features.append(&mut self.path.to_features());
            features.append(&mut self.protocol.to_features());
            features.append(&mut self.process.to_features());
            features.append(&mut self.clipboard.to_features());
            features.append(&mut self.app.to_features());
        }
        features
    }
}

} // verus!
