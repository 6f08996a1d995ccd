//! The install dialog, shown when the app runs from outside its install
//! directory: its texts, its checkboxes and what each button leaves behind.

use vstd::prelude::*;
use vstd::string::*;

verus! {

/// Result of the install dialog.
#[derive(Clone, Copy, Debug, PartialEq, Eq, Structural)]
pub enum InstallResult {
    /// User clicked Install/Update: the exe was copied, shortcuts created.
    Installed,
    /// User clicked Run Portable or closed the window.
    Portable,
}

impl InstallResult {
    /// The exit code of an install-dialog subprocess: 0 after installing,
    /// 1 for portable mode.
    pub fn exit_code(&self) -> (code: i32)
        ensures
            code == (if *self == InstallResult::Installed { 0i32 } else { 1i32 }),
    {
        match self {
            InstallResult::Installed => 0,
            InstallResult::Portable => 1,
        }
    }
}

/// The settings that a button of the dialog writes to the saved
/// configuration.
#[derive(Clone, Copy, Debug, PartialEq, Eq, Structural)]
pub struct UiSettingsUpdate {
    /// The new "start with Windows" setting, when it changes.
    pub start_with_windows: Option<bool>,
    /// The new portable-mode setting.
    pub portable_mode: bool,
}

/// The state of the install dialog.
#[derive(Debug)]
pub struct InstallDialog {
    pub install_dir: String,
    pub is_update: bool,
    pub old_version: Option<String>,
    pub new_version: String,
    pub autostart: bool,
    pub desktop_shortcut: bool,
    pub start_menu_shortcut: bool,
    pub status: String,
    pub result: InstallResult,
}

/// The title (and heading) of the dialog.
pub open spec fn dialog_title(is_update: bool) -> Seq<char> {
    if is_update {
        "Update ImmichSync"@
    } else {
        "Install ImmichSync"@
    }
}

/// The label of the button that installs.
pub open spec fn action_label_text(is_update: bool) -> Seq<char> {
    if is_update {
        "Update"@
    } else {
        "Install"@
    }
}

/// The line that tells which version an update goes from and to; an old
/// version recorded as `unknown` is not shown.
pub open spec fn version_line_text(old_version: Option<Seq<char>>, new_version: Seq<char>) -> Seq<
    char,
> {
    match old_version {
        Some(old) => if old != "unknown"@ {
            "Updating from v"@ + old + " to v"@ + new_version
        } else {
            "Updating to v"@ + new_version
        },
        None => "Updating to v"@ + new_version,
    }
}

/// The title of the dialog.
pub fn install_dialog_title(is_update: bool) -> (r: &'static str)
    ensures
        r@ == dialog_title(is_update),
{
    if is_update {
        "Update ImmichSync"
    } else {
        "Install ImmichSync"
    }
}

impl InstallDialog {
    /// The dialog as it opens: every checkbox ticked, no status, and the
    /// result Portable until the user installs. Without a known install
    /// directory, `(unknown)` is shown.
    pub fn new(install_dir: Option<String>, is_update: bool, old_version: Option<String>, new_version: String) -> (d: InstallDialog)
        ensures
            d.install_dir@ == (match install_dir {
                Some(p) => p@,
                None => "(unknown)"@,
            }),
            d.is_update == is_update,
            d.old_version == old_version,
            d.new_version == new_version,
            d.autostart && d.desktop_shortcut && d.start_menu_shortcut,
            d.status@.len() == 0,
            d.result == InstallResult::Portable,
    {
        let install_dir = match install_dir {
            Some(p) => p,
            None => String::from_str("(unknown)"),
        };
        InstallDialog {
            install_dir,
            is_update,
            old_version,
            new_version,
            autostart: true,
            desktop_shortcut: true,
            start_menu_shortcut: true,
            status: String::new(),
            result: InstallResult::Portable,
        }
    }

    /// The title and heading of the dialog.
    pub fn title(&self) -> (r: &'static str)
        ensures
            r@ == dialog_title(self.is_update),
    {
        install_dialog_title(self.is_update)
    }

    /// The label of the install button.
    pub fn action_label(&self) -> (r: &'static str)
        ensures
            r@ == action_label_text(self.is_update),
    {
        if self.is_update {
            "Update"
        } else {
            "Install"
        }
    }

    /// The version line shown in update mode, and none otherwise.
    pub fn version_line(&self) -> (r: Option<String>)
        ensures
            !self.is_update ==> r is None,
            self.is_update ==> (r matches Some(line) && line@ == version_line_text(
                match self.old_version {
                    Some(o) => Some(o@),
                    None => None,
                },
                self.new_version@,
            )),
    {
        if !self.is_update {
            return None;
        }
        let mut line = String::new();
        match &self.old_version {
            Some(old) => {
                if *old != String::from_str("unknown") {
                    line.append("Updating from v");
                    line.append(old.as_str());
                    line.append(" to v");
                } else {
                    line.append("Updating to v");
                }
            },
            None => {
                line.append("Updating to v");
            },
        }
        line.append(self.new_version.as_str());
        Some(line)
    }

    /// Whether the status line (an error) is shown.
    pub fn shows_status(&self) -> (r: bool)
        ensures
            r == (self.status@.len() > 0),
    {
        !self.status.as_str().is_empty()
    }

    /// Copying the executable failed with the message `error`: the dialog
    /// stays open and shows it.
    pub fn install_failed(&mut self, error: &str)
        ensures
            final(self).status@ == "Install failed: "@ + error@,
            *final(self) == (InstallDialog { status: final(self).status, ..*old(self) }),
    {
        let mut s = String::from_str("Install failed: ");
        s.append(error);
        self.status = s;
    }

    /// The installed executable's path could not be determined (message
    /// `error`): the dialog stays open and shows it.
    pub fn install_path_failed(&mut self, error: &str)
        ensures
            final(self).status@ == "Could not determine install path: "@ + error@,
            *final(self) == (InstallDialog { status: final(self).status, ..*old(self) }),
    {
        let mut s = String::from_str("Could not determine install path: ");
        s.append(error);
        self.status = s;
    }

    /// The install went through: the result becomes Installed, and the saved
    /// configuration records the autostart choice and leaves portable mode.
    pub fn finish_install(&mut self) -> (u: UiSettingsUpdate)
        ensures
            *final(self) == (InstallDialog { result: InstallResult::Installed, ..*old(self) }),
            u == (UiSettingsUpdate { start_with_windows: Some(old(self).autostart), portable_mode: false }),
    {
        self.result = InstallResult::Installed;
        UiSettingsUpdate { start_with_windows: Some(self.autostart), portable_mode: false }
    }

    /// Run Portable was chosen: the result becomes Portable, and the saved
    /// configuration enters portable mode so the dialog is not shown again.
    pub fn finish_portable(&mut self) -> (u: UiSettingsUpdate)
        ensures
            *final(self) == (InstallDialog { result: InstallResult::Portable, ..*old(self) }),
            u == (UiSettingsUpdate { start_with_windows: None, portable_mode: true }),
    {
        self.result = InstallResult::Portable;
        UiSettingsUpdate { start_with_windows: None, portable_mode: true }
    }
}

} // verus!
