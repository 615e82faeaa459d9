//! The dashboard's state machine: how keys become actions, and what each
//! action changes and asks the caller to do (connect, poll, build, recover,
//! scroll a panel, raise an alert).
//!
//! Drawing, the panels' own state and running the tasks are the caller's.
use vstd::prelude::*;
use crate::action::{Action, EventResult, Screen};
use crate::config::{counts_view, total_count, Thresholds};
use crate::monitor::Severity;
use crate::pipeline::{build_deploy_pipeline, Pipeline};
use crate::recover::RecoveryEvent;
use crate::status::HostStatus;
use crate::text::{decimal, push_str, push_u64, string_from};

verus! {

/// A key as the dashboard reads it.
#[derive(Debug, Clone, Copy, PartialEq, Eq, Structural)]
pub enum Key {
    Char(char),
    Esc,
    Tab,
    BackTab,
    Up,
    Down,
    Other,
}

/// Which monitor panel has the focus.
#[derive(Debug, Clone, Copy, PartialEq, Eq, Structural)]
pub enum FocusedPanel {
    Status,
    Disk,
}

/// What the monitor screen shows.
#[derive(Debug, Clone, Copy, PartialEq, Eq, Structural)]
pub enum MonitorMode {
    Dashboard,
    Recovery,
}

/// The keys that move down and up.
pub open spec fn is_down(k: Key) -> bool {
    k == Key::Char('j') || k == Key::Down
}

/// The keys that move up.
pub open spec fn is_up(k: Key) -> bool {
    k == Key::Char('k') || k == Key::Up
}

/// The global shortcuts, reached when the screen did not take the key:
/// `q` quits, `1` to `3` pick the build, configuration and monitor
/// screens, `d` the debug screen (from another screen).
pub open spec fn spec_global_key(screen: Screen, k: Key) -> Option<Action> {
    match k {
        Key::Char('q') => Some(Action::Quit),
        Key::Char('1') => Some(Action::SwitchScreen(Screen::Build)),
        Key::Char('2') => Some(Action::SwitchScreen(Screen::Config)),
        Key::Char('3') => Some(Action::SwitchScreen(Screen::Monitor)),
        Key::Char('d') => if screen != Screen::Debug {
            Some(Action::SwitchScreen(Screen::Debug))
        } else {
            None
        },
        _ => None,
    }
}

/// The global shortcut of a key.
pub fn global_key(screen: Screen, k: Key) -> (r: Option<Action>)
    ensures
        r == spec_global_key(screen, k),
{
    match k {
        Key::Char('q') => Some(Action::Quit),
        Key::Char('1') => Some(Action::SwitchScreen(Screen::Build)),
        Key::Char('2') => Some(Action::SwitchScreen(Screen::Config)),
        Key::Char('3') => Some(Action::SwitchScreen(Screen::Monitor)),
        Key::Char('d') => if screen != Screen::Debug {
            Some(Action::SwitchScreen(Screen::Debug))
        } else {
            None
        },
        _ => None,
    }
}

/// The monitor screen's keys: on the dashboard, tab moves the focus, `j`
/// and `k` scroll, `s` refreshes, `r` starts a recovery; in the recovery
/// view, escape goes back to the dashboard and `j`, `k` scroll. Escape on
/// the dashboard is left to the global keys.
pub open spec fn spec_monitor_key(mode: MonitorMode, k: Key) -> (Option<Option<Action>>, MonitorMode) {
    match mode {
        MonitorMode::Dashboard => (if k == Key::Tab {
            Some(Some(Action::FocusNext))
        } else if k == Key::BackTab {
            Some(Some(Action::FocusPrev))
        } else if is_down(k) {
            Some(Some(Action::ScrollDown))
        } else if is_up(k) {
            Some(Some(Action::ScrollUp))
        } else if k == Key::Char('s') {
            Some(Some(Action::RefreshStatus))
        } else if k == Key::Char('r') {
            Some(Some(Action::StartRecovery))
        } else {
            None
        }, mode),
        MonitorMode::Recovery => if k == Key::Esc {
            (Some(None), MonitorMode::Dashboard)
        } else if is_down(k) {
            (Some(Some(Action::ScrollDown)), mode)
        } else if is_up(k) {
            (Some(Some(Action::ScrollUp)), mode)
        } else {
            (None, mode)
        },
    }
}

/// What an event result says: not taken, or taken with an action perhaps.
pub open spec fn taken(r: EventResult) -> Option<Option<Action>> {
    match r {
        EventResult::Ignored => None,
        EventResult::Consumed(a) => Some(a),
    }
}

/// Route a key on the monitor screen; the mode may change.
pub fn monitor_key(mode: &mut MonitorMode, k: Key) -> (r: EventResult)
    ensures
        taken(r) == spec_monitor_key(*old(mode), k).0,
        *final(mode) == spec_monitor_key(*old(mode), k).1,
{
    match *mode {
        MonitorMode::Dashboard => {
            if k == Key::Tab {
                EventResult::Consumed(Some(Action::FocusNext))
            } else if k == Key::BackTab {
                EventResult::Consumed(Some(Action::FocusPrev))
            } else if k == Key::Char('j') || k == Key::Down {
                EventResult::Consumed(Some(Action::ScrollDown))
            } else if k == Key::Char('k') || k == Key::Up {
                EventResult::Consumed(Some(Action::ScrollUp))
            } else if k == Key::Char('s') {
                EventResult::Consumed(Some(Action::RefreshStatus))
            } else if k == Key::Char('r') {
                EventResult::Consumed(Some(Action::StartRecovery))
            } else {
                EventResult::Ignored
            }
        },
        MonitorMode::Recovery => {
            if k == Key::Esc {
                *mode = MonitorMode::Dashboard;
                EventResult::Consumed(None)
            } else if k == Key::Char('j') || k == Key::Down {
                EventResult::Consumed(Some(Action::ScrollDown))
            } else if k == Key::Char('k') || k == Key::Up {
                EventResult::Consumed(Some(Action::ScrollUp))
            } else {
                EventResult::Ignored
            }
        },
    }
}

/// The build screen's keys: `b` starts a build; tab, `j` and `k` are the
/// build view's own (taken without an action); escape is left to the
/// global keys.
pub open spec fn spec_build_key(k: Key) -> Option<Option<Action>> {
    if k == Key::Char('b') {
        Some(Some(Action::StartBuild))
    } else if k == Key::Tab || is_down(k) || is_up(k) {
        Some(None)
    } else {
        None
    }
}

/// Route a key on the build screen.
pub fn build_key(k: Key) -> (r: EventResult)
    ensures
        taken(r) == spec_build_key(k),
{
    if k == Key::Char('b') {
        EventResult::Consumed(Some(Action::StartBuild))
    } else if k == Key::Tab || k == Key::Char('j') || k == Key::Down || k == Key::Char('k') || k
        == Key::Up {
        EventResult::Consumed(None)
    } else {
        EventResult::Ignored
    }
}

/// The debug screen's keys: escape goes to the monitor, `r` refreshes the
/// view, `j` and `k` scroll.
pub open spec fn spec_debug_key(k: Key) -> Option<Option<Action>> {
    if k == Key::Esc {
        Some(Some(Action::SwitchScreen(Screen::Monitor)))
    } else if k == Key::Char('r') {
        Some(None)
    } else if is_down(k) {
        Some(Some(Action::ScrollDown))
    } else if is_up(k) {
        Some(Some(Action::ScrollUp))
    } else {
        None
    }
}

/// Route a key on the debug screen.
pub fn debug_key(k: Key) -> (r: EventResult)
    ensures
        taken(r) == spec_debug_key(k),
{
    if k == Key::Esc {
        EventResult::Consumed(Some(Action::SwitchScreen(Screen::Monitor)))
    } else if k == Key::Char('r') {
        EventResult::Consumed(None)
    } else if k == Key::Char('j') || k == Key::Down {
        EventResult::Consumed(Some(Action::ScrollDown))
    } else if k == Key::Char('k') || k == Key::Up {
        EventResult::Consumed(Some(Action::ScrollUp))
    } else {
        EventResult::Ignored
    }
}

/// The configuration screen's answer to a key its editor did not take:
/// escape goes to the monitor; anything else is left to the global keys.
pub fn config_key_fallback(k: Key) -> (r: EventResult)
    ensures
        taken(r) == (if k == Key::Esc {
            Some(Some(Action::SwitchScreen(Screen::Monitor)))
        } else {
            None
        }),
{
    if k == Key::Esc {
        EventResult::Consumed(Some(Action::SwitchScreen(Screen::Monitor)))
    } else {
        EventResult::Ignored
    }
}

/// The action of a key: control-C always quits; otherwise the screen's
/// answer when it took the key, else the global shortcut.
pub open spec fn spec_route(ctrl: bool, k: Key, screen: Screen, screen_result: Option<Option<Action>>) -> Option<Action> {
    if ctrl && k == Key::Char('c') {
        Some(Action::Quit)
    } else {
        match screen_result {
            Some(a) => a,
            None => spec_global_key(screen, k),
        }
    }
}

/// Control-C quits from every screen, whatever the screen makes of it.
pub proof fn law_ctrl_c_quits(screen: Screen, screen_result: Option<Option<Action>>)
    ensures
        spec_route(true, Key::Char('c'), screen, screen_result) == Some(Action::Quit),
{
}

/// A key the screen takes never reaches the global shortcuts: what the
/// screen answers is what happens.
pub proof fn law_screen_first(ctrl: bool, k: Key, screen: Screen, answer: Option<Action>)
    requires
        !(ctrl && k == Key::Char('c')),
    ensures
        spec_route(ctrl, k, screen, Some(answer)) == answer,
{
}

/// Combine the screen's answer with the global keys.
pub fn route_key(ctrl: bool, k: Key, screen: Screen, screen_result: EventResult) -> (r: Option<Action>)
    ensures
        r == spec_route(ctrl, k, screen, taken(screen_result)),
{
    if ctrl && k == Key::Char('c') {
        return Some(Action::Quit);
    }
    match screen_result {
        EventResult::Consumed(a) => a,
        EventResult::Ignored => global_key(screen, k),
    }
}

/// The component a scroll goes to.
#[derive(Debug, Clone, Copy, PartialEq, Eq, Structural)]
pub enum ScrollTarget {
    RecoveryView,
    StatusPanel,
    DiskPanel,
    BuildView,
    DebugView,
}

/// A change of the alert bar.
pub enum AlertChange {
    Keep,
    Clear,
    Show(Severity, String),
}

/// What the caller is asked to do after an action.
pub struct Effects {
    /// Drop the connection and connect again.
    pub reconnect: bool,
    /// Poll the host's status.
    pub poll_status: bool,
    /// Start the build tasks.
    pub spawn_build: bool,
    /// Start the recovery tasks.
    pub start_recovery: bool,
    /// Scroll a component, down when true.
    pub scroll: Option<(ScrollTarget, bool)>,
    /// Pass recovery progress to the recovery view.
    pub recovery_update: bool,
    /// Pass a status to the panels.
    pub status_update: bool,
    pub alert: AlertChange,
    /// A line to log.
    pub log: Option<String>,
}

/// No effect.
pub open spec fn no_effects(e: Effects) -> bool {
    &&& !e.reconnect
    &&& !e.poll_status
    &&& !e.spawn_build
    &&& !e.start_recovery
    &&& e.scroll is None
    &&& !e.recovery_update
    &&& !e.status_update
    &&& e.alert is Keep
    &&& e.log is None
}

fn nothing() -> (r: Effects)
    ensures
        no_effects(r),
{
    Effects {
        reconnect: false,
        poll_status: false,
        spawn_build: false,
        start_recovery: false,
        scroll: None,
        recovery_update: false,
        status_update: false,
        alert: AlertChange::Keep,
        log: None,
    }
}

/// The dashboard's own state.
pub struct Dashboard {
    pub screen: Screen,
    pub monitor_mode: MonitorMode,
    pub focused: FocusedPanel,
    pub should_quit: bool,
    pub needs_reconnect: bool,
    pub pipeline: Pipeline,
    pub thresholds: Thresholds,
    pub last_status_log: Option<String>,
}

/// A build runs: it has started, is not complete and has not failed.
pub open spec fn build_in_progress(p: Pipeline) -> bool {
    &&& p.started is Some
    &&& !(forall|pi: int, si: int|
        0 <= pi < p.phases@.len() && 0 <= si < p.phases@[pi].steps@.len()
            ==> (#[trigger] p.phases@[pi].steps@[si]).status.spec_is_terminal())
    &&& !(exists|pi: int, si: int|
        0 <= pi < p.phases@.len() && 0 <= si < p.phases@[pi].steps@.len()
            && (#[trigger] p.phases@[pi].steps@[si]).status is Failed)
}

/// The alert for a status: a reboot is critical; else the root pool's use
/// against the thresholds, or nothing to change without a root pool.
pub open spec fn spec_alert(s: HostStatus, t: Thresholds) -> Option<(Severity, Seq<char>)> {
    if s.reboot_detected {
        Some((Severity::Critical, "Reboot detected. Press [r] to start recovery."@))
    } else {
        match s.disk.rpool {
            Some(p) => if p.capacity_pct >= t.rpool_critical_percent {
                Some((Severity::Critical, "rpool at "@ + decimal(p.capacity_pct as nat) + "% \u{2014} critical!"@))
            } else if p.capacity_pct >= t.rpool_warning_percent {
                Some((Severity::Warning, "rpool at "@ + decimal(p.capacity_pct as nat) + "% \u{2014} approaching limit"@))
            } else {
                None
            },
            None => None,
        }
    }
}

/// The alert change a status calls for.
pub fn alert_for_status(s: &HostStatus, t: &Thresholds) -> (r: AlertChange)
    ensures
        match spec_alert(*s, *t) {
            Some((sev, m)) => r matches AlertChange::Show(sv, msg) && sv == sev && msg@ == m,
            None => if !s.reboot_detected && s.disk.rpool is Some {
                r is Clear
            } else {
                r is Keep
            },
        },
{
    if s.reboot_detected {
        return AlertChange::Show(Severity::Critical, string_from("Reboot detected. Press [r] to start recovery."));
    }
    match &s.disk.rpool {
        Some(p) => {
            if p.capacity_pct >= t.rpool_critical_percent {
                let mut m = string_from("rpool at ");
                push_u64(&mut m, p.capacity_pct as u64);
                push_str(&mut m, "% \u{2014} critical!");
                AlertChange::Show(Severity::Critical, m)
            } else if p.capacity_pct >= t.rpool_warning_percent {
                let mut m = string_from("rpool at ");
                push_u64(&mut m, p.capacity_pct as u64);
                push_str(&mut m, "% \u{2014} approaching limit");
                AlertChange::Show(Severity::Warning, m)
            } else {
                AlertChange::Clear
            }
        },
        None => AlertChange::Keep,
    }
}

/// `Status: <zones> zones, rpool <pct>%`.
pub open spec fn spec_status_summary(s: HostStatus) -> Seq<char> {
    "Status: "@ + decimal(total_count(counts_view(s.zones.service_counts@))) + " zones, rpool "@
        + decimal(match s.disk.rpool {
        Some(p) => p.capacity_pct as nat,
        None => 0,
    }) + "%"@
}

/// The status line logged after a poll.
pub fn status_summary(s: &HostStatus) -> (r: String)
    requires
        total_count(counts_view(s.zones.service_counts@)) <= u32::MAX,
    ensures
        r@ == spec_status_summary(*s),
{
    let total = crate::recover::sum_counts(&s.zones.service_counts);
    let mut m = string_from("Status: ");
    push_u64(&mut m, total as u64);
    push_str(&mut m, " zones, rpool ");
    let pct: u64 = match &s.disk.rpool {
        Some(p) => p.capacity_pct as u64,
        None => 0,
    };
    push_u64(&mut m, pct);
    push_str(&mut m, "%");
    m
}

impl Dashboard {
    /// Apply an action.
    pub fn handle_action(&mut self, action: Action) -> (e: Effects)
        requires
            action matches Action::UpdateStatus(s) ==> total_count(counts_view(s.zones.service_counts@)) <= u32::MAX,
        ensures
            final(self).thresholds == old(self).thresholds,
            match action {
                Action::Quit => final(self).should_quit && no_effects(e) && final(self).screen == old(self).screen,
                Action::SwitchScreen(sc) => {
                    let rc = old(self).needs_reconnect && (sc == Screen::Monitor || sc == Screen::Build);
                    &&& final(self).screen == sc
                    &&& e.reconnect == rc
                    &&& final(self).needs_reconnect == (old(self).needs_reconnect && !rc)
                    &&& !e.poll_status && !e.spawn_build && !e.start_recovery && e.scroll is None
                },
                Action::FocusNext | Action::FocusPrev => {
                    &&& final(self).focused == match old(self).focused {
                        FocusedPanel::Status => FocusedPanel::Disk,
                        FocusedPanel::Disk => FocusedPanel::Status,
                    }
                    &&& no_effects(e)
                },
                Action::ScrollUp | Action::ScrollDown => {
                    let down = action is ScrollDown;
                    &&& final(self).screen == old(self).screen
                    &&& e.scroll == match old(self).screen {
                        Screen::Monitor => match old(self).monitor_mode {
                            MonitorMode::Recovery => Some((ScrollTarget::RecoveryView, down)),
                            MonitorMode::Dashboard => match old(self).focused {
                                FocusedPanel::Status => Some((ScrollTarget::StatusPanel, down)),
                                FocusedPanel::Disk => Some((ScrollTarget::DiskPanel, down)),
                            },
                        },
                        Screen::Build => Some((ScrollTarget::BuildView, down)),
                        Screen::Config => None,
                        Screen::Debug => Some((ScrollTarget::DebugView, down)),
                    }
                    &&& !e.poll_status && !e.spawn_build && !e.reconnect
                },
                Action::RefreshStatus => e.poll_status && !e.spawn_build && !e.reconnect,
                Action::StartBuild => if build_in_progress(old(self).pipeline) {
                    no_effects(e) && final(self).pipeline == old(self).pipeline
                } else {
                    &&& e.spawn_build
                    &&& final(self).screen == Screen::Build
                    &&& crate::pipeline::follows_plan(final(self).pipeline)
                    &&& final(self).pipeline.started is None
                },
                Action::StartRecovery => {
                    &&& e.start_recovery
                    &&& final(self).screen == Screen::Monitor
                    &&& final(self).monitor_mode == MonitorMode::Recovery
                },
                Action::RecoveryProgress(ev) => {
                    &&& e.recovery_update
                    &&& e.poll_status == (ev is RecoveryComplete)
                },
                Action::UpdateStatus(s) => {
                    &&& e.status_update
                    &&& match spec_alert(*s, old(self).thresholds) {
                        Some((sev, m)) => e.alert matches AlertChange::Show(sv, msg) && sv == sev && msg@ == m,
                        None => if !s.reboot_detected && s.disk.rpool is Some {
                            e.alert is Clear
                        } else {
                            e.alert is Keep
                        },
                    }
                    &&& crate::text::opt_view(final(self).last_status_log) == Some(spec_status_summary(*s))
                    &&& (crate::text::opt_view(old(self).last_status_log) == Some(spec_status_summary(*s))
                        ==> e.log is None)
                    &&& (crate::text::opt_view(old(self).last_status_log) != Some(spec_status_summary(*s))
                        ==> (e.log matches Some(l) && l@ == spec_status_summary(*s)))
                },
            },
    {
        let mut e = nothing();
        match action {
            Action::Quit => {
                self.should_quit = true;
            },
            Action::SwitchScreen(screen) => {
                self.screen = screen;
                if self.needs_reconnect && (screen == Screen::Monitor || screen == Screen::Build) {
                    self.needs_reconnect = false;
                    e.reconnect = true;
                }
            },
            Action::FocusNext | Action::FocusPrev => {
                self.focused = match self.focused {
                    FocusedPanel::Status => FocusedPanel::Disk,
                    FocusedPanel::Disk => FocusedPanel::Status,
                };
            },
            Action::ScrollUp => {
                e.scroll = self.scroll_target(false);
            },
            Action::ScrollDown => {
                e.scroll = self.scroll_target(true);
            },
            Action::RefreshStatus => {
                e.poll_status = true;
            },
            Action::StartBuild => {
                let in_progress = self.pipeline.started.is_some() && !self.pipeline.is_complete()
                    && !self.pipeline.has_failure();
                if !in_progress {
                    self.pipeline = build_deploy_pipeline();
                    self.screen = Screen::Build;
                    e.spawn_build = true;
                }
            },
            Action::StartRecovery => {
                self.screen = Screen::Monitor;
                self.monitor_mode = MonitorMode::Recovery;
                e.start_recovery = true;
            },
            Action::RecoveryProgress(ev) => {
                e.recovery_update = true;
                if let RecoveryEvent::RecoveryComplete(_) = ev {
                    e.poll_status = true;
                }
            },
            Action::UpdateStatus(status) => {
                e.status_update = true;
                e.alert = alert_for_status(&status, &self.thresholds);
                let summary = status_summary(&status);
                let same = match &self.last_status_log {
                    Some(l) => crate::text::str_eq(l.as_str(), summary.as_str()),
                    None => false,
                };
                if !same {
                    e.log = Some(summary.clone());
                }
                self.last_status_log = Some(summary);
            },
        }
        e
    }

    fn scroll_target(&self, down: bool) -> (r: Option<(ScrollTarget, bool)>)
        ensures
            r == match self.screen {
                Screen::Monitor => match self.monitor_mode {
                    MonitorMode::Recovery => Some((ScrollTarget::RecoveryView, down)),
                    MonitorMode::Dashboard => match self.focused {
                        FocusedPanel::Status => Some((ScrollTarget::StatusPanel, down)),
                        FocusedPanel::Disk => Some((ScrollTarget::DiskPanel, down)),
                    },
                },
                Screen::Build => Some((ScrollTarget::BuildView, down)),
                Screen::Config => None,
                Screen::Debug => Some((ScrollTarget::DebugView, down)),
            },
    {
        match self.screen {
            Screen::Monitor => match self.monitor_mode {
                MonitorMode::Recovery => Some((ScrollTarget::RecoveryView, down)),
                MonitorMode::Dashboard => match self.focused {
                    FocusedPanel::Status => Some((ScrollTarget::StatusPanel, down)),
                    FocusedPanel::Disk => Some((ScrollTarget::DiskPanel, down)),
                },
            },
            Screen::Build => Some((ScrollTarget::BuildView, down)),
            Screen::Config => None,
            Screen::Debug => Some((ScrollTarget::DebugView, down)),
        }
    }
}

impl Dashboard {
    /// The dashboard at start: the configuration screen, the monitor on
    /// its dashboard with the status panel focused, a fresh pipeline.
    pub fn new(thresholds: Thresholds) -> (r: Dashboard)
        ensures
            r.screen == Screen::Config,
            r.monitor_mode == MonitorMode::Dashboard,
            r.focused == FocusedPanel::Status,
            !r.should_quit,
            !r.needs_reconnect,
            crate::pipeline::follows_plan(r.pipeline),
            r.pipeline.started is None,
            r.thresholds == thresholds,
            r.last_status_log is None,
    {
        Dashboard {
            screen: Screen::Config,
            monitor_mode: MonitorMode::Dashboard,
            focused: FocusedPanel::Status,
            should_quit: false,
            needs_reconnect: false,
            pipeline: build_deploy_pipeline(),
            thresholds,
            last_status_log: None,
        }
    }
}

/// Poll again on a tick: a poll was made before and the interval has
/// passed since (times in milliseconds, the interval in seconds). The first
/// poll is started on its own.
pub fn should_poll(last_poll_ms: Option<u64>, now_ms: u64, interval_secs: u64) -> (r: bool)
    ensures
        r == match last_poll_ms {
            Some(last) => now_ms >= last && now_ms - last >= interval_secs * 1000,
            None => false,
        },
{
    match last_poll_ms {
        Some(last) => {
            if now_ms < last {
                false
            } else {
                let elapsed = (now_ms - last) as u128;
                elapsed >= (interval_secs as u128) * 1000
            }
        },
        None => false,
    }
}

/// The address shown as connected in demo mode: the first host's, or a
/// placeholder without hosts.
pub fn demo_address(d: &crate::config::DeploymentToml) -> (r: &str)
    ensures
        d.hosts@.len() > 0 ==> r@ == d.hosts@[0].1.address@,
        d.hosts@.len() == 0 ==> r@ == "192.168.2.100"@,
{
    if d.hosts.len() > 0 {
        d.hosts[0].1.address.as_str()
    } else {
        "192.168.2.100"
    }
}

/// The alert when connecting fails.
pub fn connection_failed(error: &str) -> (r: String)
    ensures
        r@ == "SSH connection failed: "@ + error@,
{
    let mut s = string_from("SSH connection failed: ");
    push_str(&mut s, error);
    s
}

} // verus!
