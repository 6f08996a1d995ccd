use immichsync::lifecycle::{
    client_settings_complete, server_changed, server_display_name, should_recreate_client,
    AppState, Effect, QueueStats, StatsPoll, TrayAction, TrayState, WindowKind, WindowOpenTracker,
};

fn running() -> AppState {
    let mut s = AppState::new(true);
    s.tray_created();
    let e = s.pipeline_started("https://photos.example.com");
    assert_eq!(e.len(), 1);
    s
}

#[test]
fn window_tracker_starts_closed_and_claims_once() {
    let mut t = WindowOpenTracker::new();
    assert!(!t.settings && !t.about && !t.upload_log);
    assert!(!t.claim(WindowKind::About));
    assert!(t.claim(WindowKind::About));
    assert!(t.is_open(WindowKind::About));
    assert!(!t.is_open(WindowKind::Settings));
    t.release(WindowKind::About);
    assert!(!t.is_open(WindowKind::About));
}

#[test]
fn window_kinds_have_their_subprocess_arguments() {
    assert_eq!(WindowKind::Settings.subprocess_arg(), "settings");
    assert_eq!(WindowKind::About.subprocess_arg(), "about");
    assert_eq!(WindowKind::UploadLog.subprocess_arg(), "log");
    assert!(WindowKind::Settings.reloads_config());
    assert!(!WindowKind::About.reloads_config());
    assert!(!WindowKind::UploadLog.reloads_config());
}

#[test]
fn opening_a_window_twice_spawns_it_once() {
    let mut s = running();
    let e = s.handle_tray_action(TrayAction::OpenSettings);
    assert!(matches!(e.as_slice(), [Effect::SpawnWindow(WindowKind::Settings)]));
    let e = s.handle_tray_action(TrayAction::OpenSettings);
    assert!(e.is_empty());
    s.window_closed(WindowKind::Settings);
    let e = s.handle_tray_action(TrayAction::OpenSettings);
    assert!(matches!(e.as_slice(), [Effect::SpawnWindow(WindowKind::Settings)]));
}

#[test]
fn windows_are_tracked_separately() {
    let mut s = running();
    assert!(matches!(s.handle_tray_action(TrayAction::About).as_slice(), [Effect::SpawnWindow(WindowKind::About)]));
    assert!(matches!(s.handle_tray_action(TrayAction::ViewLog).as_slice(), [Effect::SpawnWindow(WindowKind::UploadLog)]));
    assert!(s.handle_tray_action(TrayAction::About).is_empty());
    assert!(s.window_open.about && s.window_open.upload_log && !s.window_open.settings);
}

#[test]
fn pause_then_resume() {
    let mut s = running();
    let e = s.handle_tray_action(TrayAction::Pause);
    assert!(matches!(e.as_slice(), [Effect::PausePipeline, Effect::SetTrayState(TrayState::Paused)]));
    assert!(s.paused);
    let e = s.handle_tray_action(TrayAction::Resume);
    assert!(matches!(e.as_slice(), [Effect::ResumePipeline, Effect::SetTrayState(TrayState::Idle)]));
    assert!(!s.paused);
}

#[test]
fn pause_without_pipeline_does_nothing() {
    let mut s = AppState::new(false);
    s.tray_created();
    assert!(s.handle_tray_action(TrayAction::Pause).is_empty());
    assert!(!s.paused);
    assert!(s.handle_tray_action(TrayAction::UploadNow).is_empty());
    assert!(s.handle_tray_action(TrayAction::Resume).is_empty());
}

#[test]
fn quit_in_a_batch_still_handles_the_other_actions() {
    let mut s = running();
    let (e, quit) = s.process_tray_actions(&vec![TrayAction::Quit, TrayAction::About, TrayAction::Pause]);
    assert!(quit);
    assert!(matches!(
        e.as_slice(),
        [Effect::SpawnWindow(WindowKind::About), Effect::PausePipeline, Effect::SetTrayState(TrayState::Paused)]
    ));
    let (e, quit) = s.process_tray_actions(&vec![TrayAction::UploadNow]);
    assert!(!quit);
    assert!(matches!(e.as_slice(), [Effect::FlushQueue]));
}

#[test]
fn stats_are_polled_every_two_seconds_unless_paused() {
    let mut s = running();
    assert_eq!(s.poll_stats(1999), StatsPoll::NotDue);
    assert_eq!(s.poll_stats(2000), StatsPoll::Query);
    s.handle_tray_action(TrayAction::Pause);
    assert_eq!(s.poll_stats(5000), StatsPoll::Skip);
    let idle = AppState::new(false);
    assert_eq!(idle.poll_stats(5000), StatsPoll::Skip);
}

#[test]
fn sync_then_idle_notifies_completion() {
    let mut s = running();
    let e = s.apply_queue_stats(QueueStats { pending: 3, uploading: 2, completed: 0 });
    assert!(matches!(e.as_slice(), [Effect::SetTrayState(TrayState::Syncing { current: 2, total: 5 })]));
    assert!(s.was_syncing);
    let e = s.apply_queue_stats(QueueStats { pending: 0, uploading: 0, completed: 7 });
    assert!(matches!(
        e.as_slice(),
        [Effect::SetTrayState(TrayState::Idle), Effect::NotifyUploadComplete(7)]
    ));
    assert!(!s.was_syncing);
    let e = s.apply_queue_stats(QueueStats { pending: 0, uploading: 0, completed: 7 });
    assert!(matches!(e.as_slice(), [Effect::SetTrayState(TrayState::Idle)]));
}

#[test]
fn idle_without_completed_uploads_does_not_notify() {
    let mut s = running();
    s.apply_queue_stats(QueueStats { pending: 1, uploading: 0, completed: 0 });
    let e = s.apply_queue_stats(QueueStats { pending: 0, uploading: 0, completed: 0 });
    assert!(matches!(e.as_slice(), [Effect::SetTrayState(TrayState::Idle)]));
}

#[test]
fn syncing_counts_are_truncated_to_u32() {
    let mut s = running();
    let e = s.apply_queue_stats(QueueStats { pending: 1, uploading: (1u64 << 32) + 4, completed: 0 });
    assert!(matches!(e.as_slice(), [Effect::SetTrayState(TrayState::Syncing { current: 4, total: 5 })]));
}

#[test]
fn stats_without_tray_change_nothing() {
    let mut s = AppState::new(true);
    let e = s.apply_queue_stats(QueueStats { pending: 5, uploading: 1, completed: 0 });
    assert!(e.is_empty());
    assert!(!s.was_syncing);
}

#[test]
fn server_status_and_not_configured_effects() {
    let mut s = AppState::new(true);
    s.tray_created();
    assert!(s.should_start_pipeline());
    let e = s.pipeline_started("https://photos.example.com");
    assert!(matches!(e.as_slice(), [Effect::SetServerStatus { display, connected: true }] if display == "photos.example.com"));
    let mut n = AppState::new(false);
    assert!(!n.should_start_pipeline());
    assert!(n.not_configured_effects().is_empty());
    n.tray_created();
    assert!(matches!(n.not_configured_effects().as_slice(), [Effect::SetTrayState(TrayState::Error(m))] if m == "Server not configured"));
}

#[test]
fn recreated_client_updates_server_status() {
    let mut s = running();
    let e = s.client_recreated("http://nas.local:2283", true);
    assert!(matches!(e.as_slice(), [Effect::SetServerStatus { display, connected: true }] if display == "nas.local:2283"));
    assert!(s.has_client);
    let e = s.client_recreated("http://nas.local:2283", false);
    assert!(e.is_empty());
    assert!(!s.has_client);
}

#[test]
fn server_display_strips_schemes_repeatedly() {
    assert_eq!(server_display_name("https://photos.example.com"), "photos.example.com");
    assert_eq!(server_display_name("http://photos"), "photos");
    assert_eq!(server_display_name("https://https://x"), "x");
    assert_eq!(server_display_name("http://https://x"), "https://x");
    assert_eq!(server_display_name("https://http://http://x"), "x");
    assert_eq!(server_display_name("photos"), "photos");
    assert_eq!(server_display_name(""), "");
}

#[test]
fn config_change_decisions() {
    assert!(client_settings_complete("https://a", "k"));
    assert!(!client_settings_complete("", "k"));
    assert!(!client_settings_complete("https://a", ""));
    assert!(!server_changed("https://a", "k", "https://a", "k"));
    assert!(server_changed("https://a", "k", "https://b", "k"));
    assert!(server_changed("https://a", "k", "https://a", "k2"));
    assert!(should_recreate_client("https://a", "k", "https://b", "k"));
    assert!(!should_recreate_client("https://a", "k", "", "k"));
    assert!(!should_recreate_client("https://a", "k", "https://a", "k"));
}

#[test]
fn upload_now_flushes_the_queue_even_when_paused() {
    let mut s = running();
    let e = s.handle_tray_action(TrayAction::UploadNow);
    assert!(matches!(e.as_slice(), [Effect::FlushQueue]));
    s.handle_tray_action(TrayAction::Pause);
    let before = s;
    let e = s.handle_tray_action(TrayAction::UploadNow);
    assert!(matches!(e.as_slice(), [Effect::FlushQueue]));
    assert_eq!(s, before);
}

#[test]
fn a_run_of_actions_and_closes_keeps_one_subprocess_per_window() {
    let mut s = running();
    let mut running_about = 0i32;
    for _ in 0..3 {
        for a in [TrayAction::About, TrayAction::About, TrayAction::OpenSettings, TrayAction::About] {
            for e in s.handle_tray_action(a) {
                if matches!(e, Effect::SpawnWindow(WindowKind::About)) {
                    running_about += 1;
                }
            }
            assert!(running_about <= 1);
            assert_eq!(running_about == 1, s.window_open.about);
        }
        s.window_closed(WindowKind::About);
        running_about -= 1;
        assert_eq!(running_about, 0);
    }
}
