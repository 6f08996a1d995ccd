//! The tray application's decisions, as a state machine.
//!
//! The driver (the Win32 message pump, the tray, the upload pipeline, the
//! window subprocesses) feeds events into `AppState` and performs the
//! `Effect`s it returns.

use vstd::prelude::*;
use vstd::string::*;

use crate::text::{strip_leading, strip_leading_repeated};

verus! {

/// A choice from the tray icon's context menu.
#[derive(Clone, Copy, Debug, PartialEq, Eq, Structural)]
pub enum TrayAction {
    Pause,
    Resume,
    OpenSettings,
    UploadNow,
    About,
    ViewLog,
    Quit,
}

/// A UI window that runs in a subprocess of its own.
#[derive(Clone, Copy, Debug, PartialEq, Eq, Structural)]
pub enum WindowKind {
    Settings,
    About,
    UploadLog,
}

/// The argument after `--window` that starts the subprocess of window `k`.
pub open spec fn window_arg(k: WindowKind) -> Seq<char> {
    match k {
        WindowKind::Settings => "settings"@,
        WindowKind::About => "about"@,
        WindowKind::UploadLog => "log"@,
    }
}

impl WindowKind {
    /// The argument after `--window` that starts this window's subprocess.
    pub fn subprocess_arg(&self) -> (r: &'static str)
        ensures
            r@ == window_arg(*self),
    {
        match self {
            WindowKind::Settings => "settings",
            WindowKind::About => "about",
            WindowKind::UploadLog => "log",
        }
    }

    /// Whether the configuration is reloaded from disk and handed back to
    /// the tray once this window's subprocess exits (only for Settings).
    pub fn reloads_config(&self) -> (r: bool)
        ensures
            r == (*self == WindowKind::Settings),
    {
        match self {
            WindowKind::Settings => true,
            _ => false,
        }
    }
}

/// Tracks whether each type of UI window is currently open, preventing
/// multiple instances of the same window from being spawned.
#[derive(Clone, Copy, Debug, PartialEq, Eq, Structural)]
pub struct WindowOpenTracker {
    pub settings: bool,
    pub about: bool,
    pub upload_log: bool,
}

impl WindowOpenTracker {
    /// Whether window `k` is marked open.
    pub open spec fn is_open_spec(self, k: WindowKind) -> bool {
        match k {
            WindowKind::Settings => self.settings,
            WindowKind::About => self.about,
            WindowKind::UploadLog => self.upload_log,
        }
    }

    /// The tracker with window `k` marked `open` and the others unchanged.
    pub open spec fn with(self, k: WindowKind, open: bool) -> WindowOpenTracker {
        match k {
            WindowKind::Settings => WindowOpenTracker { settings: open, ..self },
            WindowKind::About => WindowOpenTracker { about: open, ..self },
            WindowKind::UploadLog => WindowOpenTracker { upload_log: open, ..self },
        }
    }

    /// A tracker with no window open.
    pub fn new() -> (r: WindowOpenTracker)
        ensures
            !r.settings && !r.about && !r.upload_log,
    {
        WindowOpenTracker { settings: false, about: false, upload_log: false }
    }

    /// Whether window `k` is marked open.
    pub fn is_open(&self, k: WindowKind) -> (r: bool)
        ensures
            r == self.is_open_spec(k),
    {
        match k {
            WindowKind::Settings => self.settings,
            WindowKind::About => self.about,
            WindowKind::UploadLog => self.upload_log,
        }
    }

    /// Marks window `k` open and returns whether it was open already.
    pub fn claim(&mut self, k: WindowKind) -> (was_open: bool)
        ensures
            was_open == old(self).is_open_spec(k),
            *final(self) == old(self).with(k, true),
    {
        let was_open = self.is_open(k);
        match k {
            WindowKind::Settings => self.settings = true,
            WindowKind::About => self.about = true,
            WindowKind::UploadLog => self.upload_log = true,
        }
        was_open
    }

    /// Marks window `k` closed, once its subprocess has exited.
    pub fn release(&mut self, k: WindowKind)
        ensures
            *final(self) == old(self).with(k, false),
    {
        match k {
            WindowKind::Settings => self.settings = false,
            WindowKind::About => self.about = false,
            WindowKind::UploadLog => self.upload_log = false,
        }
    }
}

/// What the tray icon shows.
#[derive(Clone, Debug)]
pub enum TrayState {
    Idle,
    Paused,
    Syncing { current: u32, total: u32 },
    Error(String),
}

/// Queue counters reported by the upload pipeline.
#[derive(Clone, Copy, Debug, PartialEq, Eq, Structural)]
pub struct QueueStats {
    pub pending: u64,
    pub uploading: u64,
    pub completed: u64,
}

/// Work that the driver performs on behalf of the state machine.
#[derive(Clone, Debug)]
pub enum Effect {
    /// Pause the upload pipeline.
    PausePipeline,
    /// Resume the upload pipeline.
    ResumePipeline,
    /// Have the upload pipeline start on its pending queue now ("Upload Now").
    FlushQueue,
    /// Show this state on the tray icon.
    SetTrayState(TrayState),
    /// Show the server line of the tray menu.
    SetServerStatus { display: String, connected: bool },
    /// Start the subprocess of this window.
    SpawnWindow(WindowKind),
    /// Show the "uploads complete" notification for this many files.
    NotifyUploadComplete(u32),
}

/// What to do about the queue statistics on a pass of the main loop.
#[derive(Clone, Copy, Debug, PartialEq, Eq, Structural)]
pub enum StatsPoll {
    /// Less than the refresh interval has passed: do nothing.
    NotDue,
    /// Restart the refresh timer, but do not read the statistics.
    Skip,
    /// Restart the refresh timer and read the statistics.
    Query,
}

/// Milliseconds between two refreshes of the tray from the queue statistics.
pub const STATS_INTERVAL_MS: u64 = 2000;

/// The decisions' state of the running application.
#[derive(Clone, Copy, Debug, PartialEq, Eq, Structural)]
pub struct AppState {
    /// An Immich client exists.
    pub has_client: bool,
    /// The upload pipeline was started.
    pub has_pipeline: bool,
    /// The tray icon was created.
    pub has_tray: bool,
    /// The user paused uploads from the tray.
    pub paused: bool,
    /// The tray showed syncing at the last statistics refresh.
    pub was_syncing: bool,
    /// Which UI windows are open.
    pub window_open: WindowOpenTracker,
}

/// The state and effects after handling tray action `a` in state `s`.
pub open spec fn tray_step(s: AppState, a: TrayAction) -> (AppState, Seq<Effect>) {
    match a {
        TrayAction::Pause => if s.has_pipeline {
            (
                AppState { paused: true, ..s },
                seq![Effect::PausePipeline] + if s.has_tray {
                    seq![Effect::SetTrayState(TrayState::Paused)]
                } else {
                    seq![]
                },
            )
        } else {
            (s, seq![])
        },
        TrayAction::Resume => if s.has_pipeline {
            (
                AppState { paused: false, ..s },
                seq![Effect::ResumePipeline] + if s.has_tray {
                    seq![Effect::SetTrayState(TrayState::Idle)]
                } else {
                    seq![]
                },
            )
        } else {
            (s, seq![])
        },
        TrayAction::OpenSettings => window_step(s, WindowKind::Settings),
        TrayAction::About => window_step(s, WindowKind::About),
        TrayAction::ViewLog => window_step(s, WindowKind::UploadLog),
        TrayAction::UploadNow => if s.has_pipeline {
            (s, seq![Effect::FlushQueue])
        } else {
            (s, seq![])
        },
        TrayAction::Quit => (s, seq![]),
    }
}

/// Opening window `k`: ignored while it is open, else marks it open and spawns it.
pub open spec fn window_step(s: AppState, k: WindowKind) -> (AppState, Seq<Effect>) {
    if s.window_open.is_open_spec(k) {
        (s, seq![])
    } else {
        (AppState { window_open: s.window_open.with(k, true), ..s }, seq![Effect::SpawnWindow(k)])
    }
}

/// The state and effects after handling the actions `acts` in order.
pub open spec fn run_actions(s: AppState, acts: Seq<TrayAction>) -> (AppState, Seq<Effect>)
    decreases acts.len(),
{
    if acts.len() == 0 {
        (s, seq![])
    } else {
        let (s1, e1) = run_actions(s, acts.drop_last());
        let (s2, e2) = tray_step(s1, acts.last());
        (s2, e1 + e2)
    }
}

/// The state and effects after a refresh from the queue statistics `st`.
pub open spec fn stats_step(s: AppState, st: QueueStats) -> (AppState, Seq<Effect>) {
    if !s.has_tray {
        (s, seq![])
    } else {
        let active = st.uploading + st.pending;
        let syncing = active > 0;
        let shown = if syncing {
            TrayState::Syncing { current: st.uploading as u32, total: active as u32 }
        } else {
            TrayState::Idle
        };
        let note = if s.was_syncing && !syncing && st.completed > 0 {
            seq![Effect::NotifyUploadComplete(st.completed as u32)]
        } else {
            seq![]
        };
        (AppState { was_syncing: syncing, ..s }, seq![Effect::SetTrayState(shown)] + note)
    }
}

/// The decision on the statistics after `elapsed_ms` since the last refresh.
pub open spec fn stats_poll(s: AppState, elapsed_ms: u64) -> StatsPoll {
    if elapsed_ms < STATS_INTERVAL_MS {
        StatsPoll::NotDue
    } else if s.paused || !s.has_pipeline {
        StatsPoll::Skip
    } else {
        StatsPoll::Query
    }
}

/// How a server URL is shown in the tray: without its leading `https://`
/// and then `http://` prefixes.
pub open spec fn server_display(url: Seq<char>) -> Seq<char> {
    strip_leading(strip_leading(url, "https://"@), "http://"@)
}

/// `effects` is the single server-status line for `url`, connected, when the
/// tray exists, and nothing otherwise.
pub open spec fn server_status_effects(has_tray: bool, url: Seq<char>, effects: Seq<Effect>) -> bool {
    if has_tray {
        &&& effects.len() == 1
        &&& match effects[0] {
            Effect::SetServerStatus { display, connected } => display@ == server_display(url)
                && connected,
            _ => false,
        }
    } else {
        effects.len() == 0
    }
}

/// How a server URL is shown in the tray.
pub fn server_display_name(url: &str) -> (r: String)
    ensures
        r@ == server_display(url@),
{
    let once = strip_leading_repeated(url, "https://");
    strip_leading_repeated(once.as_str(), "http://")
}

/// Whether both the server URL and the API key are filled in, so that a
/// client can be created.
pub fn client_settings_complete(url: &str, api_key: &str) -> (r: bool)
    ensures
        r == (url@.len() > 0 && api_key@.len() > 0),
{
    !url.is_empty() && !api_key.is_empty()
}

/// Whether the server URL or the API key differs between two configurations.
pub fn server_changed(old_url: &str, old_key: &str, new_url: &str, new_key: &str) -> (r: bool)
    ensures
        r == (old_url@ != new_url@ || old_key@ != new_key@),
{
    let url_differs = String::from_str(new_url) != String::from_str(old_url);
    let key_differs = String::from_str(new_key) != String::from_str(old_key);
    url_differs || key_differs
}

/// Whether a configuration update recreates the Immich client: only when
/// the server settings changed and both are filled in. (When they changed
/// to an empty value the current client stays.)
pub fn should_recreate_client(old_url: &str, old_key: &str, new_url: &str, new_key: &str) -> (r:
    bool)
    ensures
        r == ((old_url@ != new_url@ || old_key@ != new_key@) && new_url@.len() > 0
            && new_key@.len() > 0),
{
    server_changed(old_url, old_key, new_url, new_key) && client_settings_complete(
        new_url,
        new_key,
    )
}

/// The window that tray action `a` opens, if it opens one.
pub open spec fn opened_window(a: TrayAction) -> Option<WindowKind> {
    match a {
        TrayAction::OpenSettings => Some(WindowKind::Settings),
        TrayAction::About => Some(WindowKind::About),
        TrayAction::ViewLog => Some(WindowKind::UploadLog),
        _ => None,
    }
}

/// A window is never spawned twice: asking again for a window while it is
/// open changes nothing and spawns nothing.
pub proof fn law_window_opens_once(s: AppState, a: TrayAction)
    requires
        opened_window(a) is Some,
    ensures
        tray_step(tray_step(s, a).0, a) == (tray_step(s, a).0, Seq::<Effect>::empty()),
{
    let k = opened_window(a)->0;
    assert(tray_step(s, a).0.window_open.is_open_spec(k));
}

/// Once a window's subprocess has exited, asking for the window spawns it again.
pub proof fn law_window_reopens_after_close(s: AppState, a: TrayAction)
    requires
        opened_window(a) is Some,
    ensures
        ({
            let k = opened_window(a)->0;
            let opened = tray_step(s, a).0;
            let closed = AppState { window_open: opened.window_open.with(k, false), ..opened };
            tray_step(closed, a).1 == seq![Effect::SpawnWindow(k)]
        }),
{
}

/// Opening a window leaves the other windows' marks, the pause state and the
/// pipeline untouched.
pub proof fn law_window_open_is_local(s: AppState, a: TrayAction, other: WindowKind)
    requires
        opened_window(a) is Some,
        other != opened_window(a)->0,
    ensures
        tray_step(s, a).0.window_open.is_open_spec(other) == s.window_open.is_open_spec(other),
        tray_step(s, a).0.paused == s.paused,
        tray_step(s, a).0.has_pipeline == s.has_pipeline,
{
}

/// With a running pipeline, Pause then Resume leaves the state as it was but
/// unpaused, pausing and resuming the pipeline in that order.
pub proof fn law_pause_then_resume(s: AppState)
    requires
        s.has_pipeline,
    ensures
        run_actions(s, seq![TrayAction::Pause, TrayAction::Resume]).0 == (AppState {
            paused: false,
            ..s
        }),
        run_actions(s, seq![TrayAction::Pause, TrayAction::Resume]).1[0] == Effect::PausePipeline,
        run_actions(s, seq![TrayAction::Pause, TrayAction::Resume]).1.contains(
            Effect::ResumePipeline,
        ),
{
    let acts = seq![TrayAction::Pause, TrayAction::Resume];
    let one = seq![TrayAction::Pause];
    assert(acts.drop_last() =~= one);
    assert(one.drop_last() =~= Seq::<TrayAction>::empty());
    assert(run_actions(s, Seq::<TrayAction>::empty()) == (s, Seq::<Effect>::empty()));
    let (s1, e1) = tray_step(s, TrayAction::Pause);
    assert(run_actions(s, one) == (s1, Seq::<Effect>::empty() + e1));
    let (s2, e2) = tray_step(s1, TrayAction::Resume);
    assert(run_actions(s, acts) == (s2, (Seq::<Effect>::empty() + e1) + e2));
    assert(s2 == (AppState { paused: false, ..s }));
    let e = run_actions(s, acts).1;
    let k: int = if s.has_tray { 2 } else { 1 };
    assert(e[0] == Effect::PausePipeline);
    assert(e[k] == Effect::ResumePipeline);
}

/// Without a pipeline, Pause, Resume and Upload Now change nothing.
pub proof fn law_pipeline_actions_need_pipeline(s: AppState, a: TrayAction)
    requires
        !s.has_pipeline,
        a == TrayAction::Pause || a == TrayAction::Resume || a == TrayAction::UploadNow,
    ensures
        tray_step(s, a) == (s, Seq::<Effect>::empty()),
{
}

/// With a pipeline, Upload Now asks it to start on its queue and changes no
/// state (a paused pipeline stays paused).
pub proof fn law_upload_now_flushes(s: AppState)
    requires
        s.has_pipeline,
    ensures
        tray_step(s, TrayAction::UploadNow) == (s, seq![Effect::FlushQueue]),
{
}

/// An event of a run of the application that concerns its windows: a tray
/// action, or the exit of a window's subprocess.
#[derive(Clone, Copy, Debug, PartialEq, Eq, Structural)]
pub enum RunEvent {
    Tray(TrayAction),
    WindowClosed(WindowKind),
}

/// How many times `effects` spawns window `k`.
pub open spec fn count_spawns(effects: Seq<Effect>, k: WindowKind) -> int
    decreases effects.len(),
{
    if effects.len() == 0 {
        0
    } else {
        count_spawns(effects.drop_last(), k) + if effects.last() == Effect::SpawnWindow(k) {
            1int
        } else {
            0int
        }
    }
}

/// Following the events `evs` from state `s`: the final state, how many
/// subprocesses of window `k` are running (spawned minus exited), and whether
/// every exit of `k` came while one of its subprocesses was running.
pub open spec fn window_run(s: AppState, evs: Seq<RunEvent>, k: WindowKind) -> (AppState, int, bool)
    decreases evs.len(),
{
    if evs.len() == 0 {
        (s, 0, true)
    } else {
        let (s1, n1, ok1) = window_run(s, evs.drop_last(), k);
        match evs.last() {
            RunEvent::Tray(a) => {
                let (s2, e) = tray_step(s1, a);
                (s2, n1 + count_spawns(e, k), ok1)
            },
            RunEvent::WindowClosed(j) => (
                AppState { window_open: s1.window_open.with(j, false), ..s1 },
                if j == k {
                    n1 - 1
                } else {
                    n1
                },
                ok1 && (j != k || n1 > 0),
            ),
        }
    }
}

proof fn lemma_count_spawns_small(k: WindowKind)
    ensures
        count_spawns(Seq::<Effect>::empty(), k) == 0,
        forall|x: Effect| #[trigger]
            count_spawns(seq![x], k) == (if x == Effect::SpawnWindow(k) {
                1int
            } else {
                0int
            }),
        forall|x: Effect, y: Effect| #[trigger]
            count_spawns(seq![x] + seq![y], k) == (if x == Effect::SpawnWindow(k) {
                1int
            } else {
                0int
            }) + (if y == Effect::SpawnWindow(k) {
                1int
            } else {
                0int
            }),
{
    assert forall|x: Effect| #[trigger]
        count_spawns(seq![x], k) == (if x == Effect::SpawnWindow(k) {
            1int
        } else {
            0int
        }) by {
        assert(seq![x].drop_last() =~= Seq::<Effect>::empty());
        assert(seq![x].last() == x);
        assert(count_spawns(Seq::<Effect>::empty(), k) == 0);
    }
    assert forall|x: Effect, y: Effect| #[trigger]
        count_spawns(seq![x] + seq![y], k) == (if x == Effect::SpawnWindow(k) {
            1int
        } else {
            0int
        }) + (if y == Effect::SpawnWindow(k) {
            1int
        } else {
            0int
        }) by {
        assert((seq![x] + seq![y]).drop_last() =~= seq![x]);
        assert((seq![x] + seq![y]).last() == y);
        assert(seq![x].drop_last() =~= Seq::<Effect>::empty());
        assert(seq![x].last() == x);
        assert(count_spawns(Seq::<Effect>::empty(), k) == 0);
        assert(count_spawns(seq![x], k) == (if x == Effect::SpawnWindow(k) {
            1int
        } else {
            0int
        }));
        assert(count_spawns(seq![x] + seq![y], k) == count_spawns(seq![x], k) + (if y
            == Effect::SpawnWindow(k) {
            1int
        } else {
            0int
        }));
    }
}

/// A tray action spawns window `k` exactly when it turns `k`'s mark from
/// closed to open, and never clears a mark.
proof fn lemma_tray_step_spawns(s: AppState, a: TrayAction, k: WindowKind)
    ensures
        s.window_open.is_open_spec(k) ==> tray_step(s, a).0.window_open.is_open_spec(k),
        count_spawns(tray_step(s, a).1, k) == (if !s.window_open.is_open_spec(k)
            && tray_step(s, a).0.window_open.is_open_spec(k) {
            1int
        } else {
            0int
        }),
{
    lemma_count_spawns_small(k);
    let e = tray_step(s, a).1;
    match a {
        TrayAction::Pause => {
            if s.has_pipeline && s.has_tray {
                assert(count_spawns(seq![Effect::PausePipeline] + seq![Effect::SetTrayState(TrayState::Paused)], k) == 0);
                assert(e =~= seq![Effect::PausePipeline] + seq![Effect::SetTrayState(TrayState::Paused)]);
            } else if s.has_pipeline {
                assert(e =~= seq![Effect::PausePipeline]);
            }
        },
        TrayAction::Resume => {
            if s.has_pipeline && s.has_tray {
                assert(count_spawns(seq![Effect::ResumePipeline] + seq![Effect::SetTrayState(TrayState::Idle)], k) == 0);
                assert(e =~= seq![Effect::ResumePipeline] + seq![Effect::SetTrayState(TrayState::Idle)]);
            } else if s.has_pipeline {
                assert(e =~= seq![Effect::ResumePipeline]);
            }
        },
        TrayAction::UploadNow => {
            if s.has_pipeline {
                assert(count_spawns(seq![Effect::FlushQueue], k) == 0);
            }
        },
        TrayAction::Quit => {},
        _ => {
            let j = opened_window(a)->0;
            if !s.window_open.is_open_spec(j) {
                assert(count_spawns(seq![Effect::SpawnWindow(j)], k) == (if j == k {
                    1int
                } else {
                    0int
                }));
            }
        },
    }
}

/// Over any run of tray actions and subprocess exits that starts with window
/// `k` closed, and in which `k`'s subprocess exits only while one is running,
/// at most one subprocess of `k` runs at any moment, and one runs exactly
/// while `k` is marked open.
pub proof fn law_one_subprocess_per_window(s: AppState, evs: Seq<RunEvent>, k: WindowKind)
    requires
        !s.window_open.is_open_spec(k),
    ensures
        ({
            let (fin, running, ok) = window_run(s, evs, k);
            ok ==> running == (if fin.window_open.is_open_spec(k) {
                1int
            } else {
                0int
            }) && 0 <= running <= 1
        }),
    decreases evs.len(),
{
    if evs.len() > 0 {
        law_one_subprocess_per_window(s, evs.drop_last(), k);
        let (s1, n1, ok1) = window_run(s, evs.drop_last(), k);
        match evs.last() {
            RunEvent::Tray(a) => {
                lemma_tray_step_spawns(s1, a, k);
            },
            RunEvent::WindowClosed(j) => {},
        }
    }
}

/// A Quit in a batch of tray actions does not stop the other actions of the
/// batch from being handled: the batch acts as if the Quits were not there.
pub proof fn law_quit_keeps_other_actions(s: AppState, acts: Seq<TrayAction>)
    ensures
        run_actions(s, acts) == run_actions(s, acts.filter(|a: TrayAction| a != TrayAction::Quit)),
    decreases acts.len(),
{
    reveal_with_fuel(Seq::filter, 1);
    let pred = |a: TrayAction| a != TrayAction::Quit;
    if acts.len() > 0 {
        law_quit_keeps_other_actions(s, acts.drop_last());
        let f = acts.drop_last().filter(pred);
        if pred(acts.last()) {
            let g = f.push(acts.last());
            assert(g.drop_last() =~= f);
        }
    }
}

/// While uploads are paused the queue statistics are never read.
pub proof fn law_paused_never_reads_stats(s: AppState, elapsed_ms: u64)
    requires
        s.paused,
    ensures
        stats_poll(s, elapsed_ms) != StatsPoll::Query,
{
}

/// The "uploads complete" notification comes only when the tray last showed
/// syncing, nothing is pending or uploading any more, and files completed;
/// it carries the completed count.
pub proof fn law_completion_notified_after_sync(s: AppState, st: QueueStats, i: int)
    requires
        0 <= i < stats_step(s, st).1.len(),
        stats_step(s, st).1[i] is NotifyUploadComplete,
    ensures
        s.was_syncing,
        st.uploading + st.pending == 0,
        st.completed > 0,
        stats_step(s, st).1[i] == Effect::NotifyUploadComplete(st.completed as u32),
{
}

/// After a statistics refresh with a tray, the tray shows syncing exactly
/// when some upload is pending or running: as many running as are uploading,
/// out of all pending and uploading files (each count cut to 32 bits); and
/// idle when none is. The shown state agrees with `was_syncing`.
pub proof fn law_tray_shows_queue_activity(s: AppState, st: QueueStats)
    requires
        s.has_tray,
    ensures
        stats_step(s, st).1.len() >= 1,
        st.uploading + st.pending > 0 ==> stats_step(s, st).1[0] == Effect::SetTrayState(
            TrayState::Syncing {
                current: st.uploading as u32,
                total: (st.uploading + st.pending) as u32,
            },
        ),
        st.uploading + st.pending == 0 ==> stats_step(s, st).1[0] == Effect::SetTrayState(
            TrayState::Idle,
        ),
        (stats_step(s, st).1[0] matches Effect::SetTrayState(TrayState::Syncing { .. }))
            <==> stats_step(s, st).0.was_syncing,
{
}

/// After a statistics refresh with a tray, `was_syncing` tells whether any
/// upload is pending or running.
pub proof fn law_syncing_tracks_activity(s: AppState, st: QueueStats)
    requires
        s.has_tray,
    ensures
        stats_step(s, st).0.was_syncing == (st.uploading + st.pending > 0),
{
}

/// Stripping a non-empty prefix repeatedly leaves text that does not start
/// with it.
pub proof fn law_strip_leading_removes_prefix(s: Seq<char>, p: Seq<char>)
    requires
        p.len() > 0,
    ensures
        !crate::text::occurs_at(strip_leading(s, p), p, 0),
    decreases s.len(),
{
    if crate::text::occurs_at(s, p, 0) {
        law_strip_leading_removes_prefix(s.skip(p.len() as int), p);
    }
}

/// The server name shown in the tray never starts with `http://`.
pub proof fn law_server_display_has_no_http_scheme(url: Seq<char>)
    ensures
        !crate::text::occurs_at(server_display(url), "http://"@, 0),
{
    reveal_strlit("http://");
    law_strip_leading_removes_prefix(strip_leading(url, "https://"@), "http://"@);
}

impl AppState {
    /// The state of a freshly created application: nothing started, nothing
    /// paused, no window open.
    pub fn new(has_client: bool) -> (s: AppState)
        ensures
            s.has_client == has_client,
            !s.has_pipeline && !s.has_tray && !s.paused && !s.was_syncing,
            s.window_open == (WindowOpenTracker { settings: false, about: false, upload_log: false }),
    {
        AppState {
            has_client,
            has_pipeline: false,
            has_tray: false,
            paused: false,
            was_syncing: false,
            window_open: WindowOpenTracker::new(),
        }
    }

    /// Records that the tray icon was created.
    pub fn tray_created(&mut self)
        ensures
            *final(self) == (AppState { has_tray: true, ..*old(self) }),
    {
        self.has_tray = true;
    }

    /// Whether initialization starts the upload pipeline: only with a client.
    pub fn should_start_pipeline(&self) -> (r: bool)
        ensures
            r == self.has_client,
    {
        self.has_client
    }

    /// Records that the upload pipeline started for the server at
    /// `server_url`, and shows that server as connected in the tray.
    pub fn pipeline_started(&mut self, server_url: &str) -> (effects: Vec<Effect>)
        ensures
            *final(self) == (AppState { has_pipeline: true, ..*old(self) }),
            server_status_effects(old(self).has_tray, server_url@, effects@),
    {
        self.has_pipeline = true;
        let mut effects: Vec<Effect> = Vec::new();
        if self.has_tray {
            effects.push(
                Effect::SetServerStatus { display: server_display_name(server_url), connected: true },
            );
        }
        effects
    }

    /// The tray state shown when no pipeline could be started because the
    /// server is not configured.
    pub fn not_configured_effects(&self) -> (effects: Vec<Effect>)
        ensures
            if self.has_tray {
                &&& effects@.len() == 1
                &&& match effects@[0] {
                    Effect::SetTrayState(TrayState::Error(m)) => m@ == "Server not configured"@,
                    _ => false,
                }
            } else {
                effects@.len() == 0
            },
    {
        let mut effects: Vec<Effect> = Vec::new();
        if self.has_tray {
            effects.push(
                Effect::SetTrayState(TrayState::Error(String::from_str("Server not configured"))),
            );
        }
        effects
    }

    /// Records the outcome of recreating the client for `server_url` after a
    /// configuration change; on success the tray shows the new server.
    pub fn client_recreated(&mut self, server_url: &str, ok: bool) -> (effects: Vec<Effect>)
        ensures
            *final(self) == (AppState { has_client: ok, ..*old(self) }),
            server_status_effects(old(self).has_tray && ok, server_url@, effects@),
    {
        self.has_client = ok;
        let mut effects: Vec<Effect> = Vec::new();
        if ok && self.has_tray {
            effects.push(
                Effect::SetServerStatus { display: server_display_name(server_url), connected: true },
            );
        }
        effects
    }

    /// Handles a tray action other than Quit (Quit ends the main loop and is
    /// left unchanged here).
    pub fn handle_tray_action(&mut self, action: TrayAction) -> (effects: Vec<Effect>)
        ensures
            (*final(self), effects@) == tray_step(*old(self), action),
    {
        let mut effects: Vec<Effect> = Vec::new();
        match action {
            TrayAction::Pause => {
                if self.has_pipeline {
                    effects.push(Effect::PausePipeline);
                    self.paused = true;
                    if self.has_tray {
                        effects.push(Effect::SetTrayState(TrayState::Paused));
                    }
                }
            },
            TrayAction::Resume => {
                if self.has_pipeline {
                    effects.push(Effect::ResumePipeline);
                    self.paused = false;
                    if self.has_tray {
                        effects.push(Effect::SetTrayState(TrayState::Idle));
                    }
                }
            },
            TrayAction::OpenSettings => {
                self.open_window(WindowKind::Settings, &mut effects);
            },
            TrayAction::About => {
                self.open_window(WindowKind::About, &mut effects);
            },
            TrayAction::ViewLog => {
                self.open_window(WindowKind::UploadLog, &mut effects);
            },
            TrayAction::UploadNow => {
                if self.has_pipeline {
                    effects.push(Effect::FlushQueue);
                }
            },
            TrayAction::Quit => {},
        }
        proof {
            let (s2, e2) = tray_step(*old(self), action);
            assert(effects@ =~= e2);
        }
        effects
    }

    /// Opens window `k` unless it is open already.
    fn open_window(&mut self, k: WindowKind, effects: &mut Vec<Effect>)
        requires
            old(effects)@.len() == 0,
        ensures
            (*final(self), final(effects)@) == window_step(*old(self), k),
    {
        let was_open = self.window_open.claim(k);
        if !was_open {
            effects.push(Effect::SpawnWindow(k));
        }
        proof {
            if was_open {
                assert(old(self).window_open.with(k, true) == old(self).window_open);
            }
            assert(final(effects)@ =~= window_step(*old(self), k).1);
        }
    }

    /// Handles a batch of tray actions in order; Quit is reported in the
    /// second component and every other action is handled even when a Quit
    /// comes before it.
    pub fn process_tray_actions(&mut self, actions: &Vec<TrayAction>) -> (r: (Vec<Effect>, bool))
        ensures
            (*final(self), r.0@) == run_actions(*old(self), actions@),
            r.1 == actions@.contains(TrayAction::Quit),
    {
        let mut effects: Vec<Effect> = Vec::new();
        let mut quit = false;
        let n = actions.len();
        let mut i: usize = 0;
        while i < n
            invariant
                n == actions@.len(),
                i <= n,
                (*self, effects@) == run_actions(*old(self), actions@.take(i as int)),
                quit == actions@.take(i as int).contains(TrayAction::Quit),
            decreases n - i,
        {
            let action = actions[i];
            proof {
                assert(actions@.take(i + 1).drop_last() =~= actions@.take(i as int));
                assert(actions@.take(i + 1).last() == action);
            }
            if action == TrayAction::Quit {
                quit = true;
            }
            let mut more = self.handle_tray_action(action);
            effects.append(&mut more);
            proof {
                let t = actions@.take(i + 1);
                if quit {
                    if action != TrayAction::Quit {
                        let j = choose|j: int| 0 <= j < i && actions@.take(i as int)[j] == TrayAction::Quit;
                        assert(t[j] == TrayAction::Quit);
                    } else {
                        assert(t[i as int] == TrayAction::Quit);
                    }
                } else {
                    assert forall|j: int| 0 <= j < t.len() implies t[j] != TrayAction::Quit by {
                        if j < i {
                            assert(t[j] == actions@.take(i as int)[j]);
                        }
                    }
                }
            }
            i = i + 1;
        }
        proof {
            assert(actions@.take(n as int) =~= actions@);
        }
        (effects, quit)
    }

    /// Marks window `k` closed once its subprocess has exited.
    pub fn window_closed(&mut self, k: WindowKind)
        ensures
            *final(self) == (AppState { window_open: old(self).window_open.with(k, false), ..*old(self) }),
    {
        self.window_open.release(k);
    }

    /// Whether this pass of the main loop refreshes the tray from the queue
    /// statistics, given the milliseconds since the last refresh. The
    /// statistics are not read while paused or without a pipeline.
    pub fn poll_stats(&self, elapsed_ms: u64) -> (p: StatsPoll)
        ensures
            p == stats_poll(*self, elapsed_ms),
    {
        if elapsed_ms < STATS_INTERVAL_MS {
            StatsPoll::NotDue
        } else if self.paused || !self.has_pipeline {
            StatsPoll::Skip
        } else {
            StatsPoll::Query
        }
    }

    /// Refreshes the tray from the queue statistics and notifies when a sync
    /// that showed on the tray has finished with completed uploads.
    pub fn apply_queue_stats(&mut self, stats: QueueStats) -> (effects: Vec<Effect>)
        requires
            old(self).has_tray ==> stats.uploading + stats.pending <= u64::MAX,
        ensures
            (*final(self), effects@) == stats_step(*old(self), stats),
    {
        let mut effects: Vec<Effect> = Vec::new();
        if self.has_tray {
            let active: u64 = stats.uploading + stats.pending;
            let is_syncing = active > 0;
            if is_syncing {
                effects.push(
                    Effect::SetTrayState(
                        TrayState::Syncing { current: stats.uploading as u32, total: active as u32 },
                    ),
                );
            } else {
                effects.push(Effect::SetTrayState(TrayState::Idle));
            }
            if self.was_syncing && !is_syncing && stats.completed > 0 {
                effects.push(Effect::NotifyUploadComplete(stats.completed as u32));
            }
            self.was_syncing = is_syncing;
        }
        proof {
            assert(effects@ =~= stats_step(*old(self), stats).1);
        }
        effects
    }
}

} // verus!
