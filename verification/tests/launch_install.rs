use immichsync::install::{install_dialog_title, InstallDialog, InstallResult, UiSettingsUpdate};
use immichsync::launch::{
    needs_first_run_wizard, run_window_subprocess, shutdown_message_response, window_mode_argument,
    SubprocessWindow, WndResponse, WM_CLOSE, WM_ENDSESSION, WM_QUERYENDSESSION,
};

fn args(v: &[&str]) -> Vec<String> {
    v.iter().map(|s| s.to_string()).collect()
}

#[test]
fn window_mode_needs_flag_and_type() {
    assert_eq!(window_mode_argument(&args(&["exe", "--window", "about"])), Some("about".to_string()));
    assert_eq!(window_mode_argument(&args(&["exe", "--window", "log", "x"])), Some("log".to_string()));
    assert_eq!(window_mode_argument(&args(&["exe", "--window"])), None);
    assert_eq!(window_mode_argument(&args(&["exe", "--other", "about"])), None);
    assert_eq!(window_mode_argument(&args(&[])), None);
}

#[test]
fn subprocess_window_types() {
    assert_eq!(run_window_subprocess("wizard"), SubprocessWindow::Wizard);
    assert_eq!(run_window_subprocess("settings"), SubprocessWindow::Settings);
    assert_eq!(run_window_subprocess("about"), SubprocessWindow::About);
    assert_eq!(run_window_subprocess("log"), SubprocessWindow::UploadLog);
    assert_eq!(run_window_subprocess("install"), SubprocessWindow::Install { is_update: false });
    assert_eq!(run_window_subprocess("install-update"), SubprocessWindow::Install { is_update: true });
    assert_eq!(run_window_subprocess("install-"), SubprocessWindow::Unknown);
    assert_eq!(run_window_subprocess("About"), SubprocessWindow::Unknown);
    assert_eq!(run_window_subprocess(""), SubprocessWindow::Unknown);
}

#[test]
fn first_run_wizard_only_without_server() {
    assert!(needs_first_run_wizard(""));
    assert!(!needs_first_run_wizard("https://x"));
}

#[test]
fn shutdown_window_answers() {
    assert_eq!((WM_CLOSE, WM_QUERYENDSESSION, WM_ENDSESSION), (0x10, 0x11, 0x16));
    assert_eq!(shutdown_message_response(0x10, 0), WndResponse::Handled { post_quit: true, result: 0 });
    assert_eq!(shutdown_message_response(0x11, 0), WndResponse::Handled { post_quit: false, result: 1 });
    assert_eq!(shutdown_message_response(0x16, 1), WndResponse::Handled { post_quit: true, result: 0 });
    assert_eq!(shutdown_message_response(0x16, 0), WndResponse::Handled { post_quit: false, result: 0 });
    assert_eq!(shutdown_message_response(0x12, 0), WndResponse::Default);
}

#[test]
fn install_result_exit_codes() {
    assert_eq!(InstallResult::Installed.exit_code(), 0);
    assert_eq!(InstallResult::Portable.exit_code(), 1);
}

#[test]
fn dialog_starts_with_all_boxes_ticked_and_portable_result() {
    let d = InstallDialog::new(None, false, None, "0.2.0".to_string());
    assert_eq!(d.install_dir, "(unknown)");
    assert!(d.autostart && d.desktop_shortcut && d.start_menu_shortcut);
    assert_eq!(d.result, InstallResult::Portable);
    assert!(!d.shows_status());
    assert_eq!(d.title(), "Install ImmichSync");
    assert_eq!(d.action_label(), "Install");
    assert_eq!(d.version_line(), None);
    assert_eq!(install_dialog_title(true), "Update ImmichSync");
}

#[test]
fn update_dialog_version_lines() {
    let d = InstallDialog::new(Some("C:\\data".to_string()), true, Some("0.1.0".to_string()), "0.2.0".to_string());
    assert_eq!(d.install_dir, "C:\\data");
    assert_eq!(d.title(), "Update ImmichSync");
    assert_eq!(d.action_label(), "Update");
    assert_eq!(d.version_line(), Some("Updating from v0.1.0 to v0.2.0".to_string()));
    let d = InstallDialog::new(None, true, Some("unknown".to_string()), "0.2.0".to_string());
    assert_eq!(d.version_line(), Some("Updating to v0.2.0".to_string()));
    let d = InstallDialog::new(None, true, None, "0.2.0".to_string());
    assert_eq!(d.version_line(), Some("Updating to v0.2.0".to_string()));
}

#[test]
fn install_failures_show_status() {
    let mut d = InstallDialog::new(None, false, None, "1".to_string());
    d.autostart = false;
    d.install_failed("access denied");
    assert!(!d.autostart && d.desktop_shortcut && d.start_menu_shortcut);
    assert_eq!(d.status, "Install failed: access denied");
    assert!(d.shows_status());
    d.install_path_failed("no dir");
    assert_eq!(d.status, "Could not determine install path: no dir");
    assert_eq!(d.result, InstallResult::Portable);
}

#[test]
fn finishing_records_result_and_settings() {
    let mut d = InstallDialog::new(None, false, None, "1".to_string());
    d.autostart = false;
    d.install_failed("first try");
    assert_eq!(d.finish_install(), UiSettingsUpdate { start_with_windows: Some(false), portable_mode: false });
    assert_eq!(d.status, "Install failed: first try");
    assert_eq!(d.result, InstallResult::Installed);
    assert_eq!(d.finish_portable(), UiSettingsUpdate { start_with_windows: None, portable_mode: true });
    assert_eq!(d.result, InstallResult::Portable);
}
