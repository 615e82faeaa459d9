//! The build monitor: how the interface's state follows the events of a
//! running build.
//!
//! Each event changes the pipeline and the progress trackers, and may ask
//! the caller to do something (save the host's new address, reconnect).
//! Reading the clock and doing what is asked are the caller's.
use vstd::prelude::*;
use crate::config::HostConfig;
use crate::parse::cargo_progress::{parse_cargo_line, spec_cargo_summary, spec_cargo_update, spec_parse_cargo_line, CargoTracker, SpecCargoTracker};
use crate::parse::omicron_pkg_log::{parse_omicron_pkg_line, pkg_tracker_view, spec_parse_omicron_pkg_line, spec_pkg_summary, spec_pkg_update, OmicronPkgTracker};
use crate::parse::xtask_download::{parse_xtask_line, spec_parse_xtask_line, spec_xtask_summary, spec_xtask_update, xtask_tracker_view, XtaskTracker};
use crate::pipeline::{completed_step, detail_applied, failed_step, first_match, grid, grid_elapsed, phase_names, started_step, update_first, Pipeline, Step, StepStatus};
use crate::text::{opt_view, push_str, str_eq, string_from};

verus! {

broadcast use vstd::slice::group_slice_axioms;

/// What a running build reports.
#[derive(Debug)]
pub enum BuildEvent {
    StepStarted(String),
    StepDetail(String, String),
    StepCompleted(String),
    StepFailed(String, String),
    /// The build found the VM's address (it may differ from the configured one).
    HostDiscovered { address: String, ssh_user: String },
    /// The build ended, well or not.
    PipelineFinished { success: bool },
}

/// How serious an alert is.
#[derive(Debug, Clone, Copy, PartialEq, Eq, Structural)]
pub enum Severity {
    Info,
    Warning,
    Critical,
}

/// What the caller is asked to do after an event.
pub enum BuildAction {
    Nothing,
    /// Save the host's address in the deployment file, under `field_path`.
    PersistHostAddress { field_path: String, address: String },
    /// Drop the connection and connect to the host again.
    Reconnect,
}

/// The state of the build screen.
pub struct BuildMonitor {
    pub pipeline: Pipeline,
    pub cargo_tracker: CargoTracker,
    pub omicron_pkg_tracker: OmicronPkgTracker,
    pub xtask_tracker: XtaskTracker,
    /// In demo mode durations are the realistic ones.
    pub demo: bool,
    pub needs_reconnect: bool,
}

/// The view of the three trackers.
pub type TrackersView = (SpecCargoTracker, (nat, nat, Option<Seq<char>>), (nat, nat, nat, Option<Seq<char>>));

/// The trackers of a monitor.
pub open spec fn trackers(m: BuildMonitor) -> TrackersView {
    (m.cargo_tracker@, pkg_tracker_view(m.omicron_pkg_tracker), xtask_tracker_view(m.xtask_tracker))
}

/// A fresh cargo tracker.
pub open spec fn cargo_zero() -> SpecCargoTracker {
    SpecCargoTracker {
        compiled_count: 0,
        downloaded_count: 0,
        last_crate: None,
        finished: false,
        finish_duration: None,
        estimated_total: None,
    }
}

/// The trackers when a step starts: the compile step resets cargo's, the
/// packaging step cargo's and the packager's, the prerequisite steps the
/// download tool's.
pub open spec fn trackers_on_start(t: TrackersView, id: Seq<char>) -> TrackersView {
    if id == "build-compile"@ {
        (cargo_zero(), t.1, t.2)
    } else if id == "build-package"@ {
        (cargo_zero(), (0, 0, None), t.2)
    } else if id == "build-prereqs-builder"@ || id == "build-prereqs-runner"@ {
        (t.0, t.1, (0, 0, 0, None))
    } else {
        t
    }
}

/// The trackers after a line of output of a step, and the summary shown
/// for it, if the step's parser reads the line; `pkg` is the summary of
/// the line as image-packaging output, if it reads as such.
pub open spec fn trackers_on_detail(t: TrackersView, id: Seq<char>, line: Seq<char>, pkg: Option<Seq<char>>) -> (TrackersView, Option<Seq<char>>) {
    if id == "build-compile"@ {
        match spec_parse_cargo_line(line) {
            Some(e) => {
                let c = spec_cargo_update(t.0, e);
                ((c, t.1, t.2), Some(spec_cargo_summary(c)))
            },
            None => (t, None),
        }
    } else if id == "build-package"@ {
        match spec_parse_cargo_line(line) {
            Some(e) => {
                let c = spec_cargo_update(t.0, e);
                ((c, t.1, t.2), Some(spec_cargo_summary(c)))
            },
            None => match spec_parse_omicron_pkg_line(line) {
                Some(e) => {
                    let p = spec_pkg_update(t.1, e);
                    ((t.0, p, t.2), Some(spec_pkg_summary(p.0, p.1, p.2)))
                },
                None => (t, None),
            },
        }
    } else if id == "os-update"@ || id == "os-packages"@ {
        (t, pkg)
    } else if id == "build-prereqs-builder"@ || id == "build-prereqs-runner"@ {
        match spec_parse_xtask_line(line) {
            Some(e) => {
                let x = spec_xtask_update(t.2, e);
                ((t.0, t.1, x), Some(spec_xtask_summary(x.0, x.1, x.2, x.3)))
            },
            None => (t, pkg),
        }
    } else {
        (t, None)
    }
}

/// The counters of the trackers have room for one more event.
pub open spec fn trackers_have_room(m: BuildMonitor) -> bool {
    &&& m.cargo_tracker.compiled_count < u32::MAX
    &&& m.cargo_tracker.downloaded_count < u32::MAX
    &&& m.omicron_pkg_tracker.packages_seen < u32::MAX
    &&& m.omicron_pkg_tracker.downloading < u32::MAX
    &&& m.xtask_tracker.total_targets < u32::MAX
    &&& m.xtask_tracker.completed < u32::MAX
    &&& m.xtask_tracker.cached < u32::MAX
}

/// Whether the trackers can count one more of everything.
pub fn trackers_room(m: &BuildMonitor) -> (r: bool)
    ensures
        r == trackers_have_room(*m),
{
    m.cargo_tracker.compiled_count < u32::MAX && m.cargo_tracker.downloaded_count < u32::MAX
        && m.omicron_pkg_tracker.packages_seen < u32::MAX && m.omicron_pkg_tracker.downloading
        < u32::MAX && m.xtask_tracker.total_targets < u32::MAX && m.xtask_tracker.completed
        < u32::MAX && m.xtask_tracker.cached < u32::MAX
}

/// Realistic durations in milliseconds, for demo mode.
pub open spec fn realistic_ms(id: Seq<char>) -> nat {
    crate::demo::table_value(crate::demo::duration_table(), id, 5) * 1000
}

/// When a demo pipeline started, so that the total elapsed time equals the
/// time spent in its steps: that much before `now` (the start of the clock
/// when it is longer).
pub open spec fn backdated(now: u64, spent: nat) -> u64 {
    if spent <= now {
        (now - spent) as u64
    } else {
        0
    }
}

/// The first host's name and the path of its address in the deployment
/// file.
pub open spec fn address_path(name: Seq<char>) -> Seq<char> {
    "hosts."@ + name + ".address"@
}

impl BuildMonitor {
    /// A monitor of a pipeline, with fresh trackers.
    pub fn new(pipeline: Pipeline, demo: bool) -> (r: BuildMonitor)
        ensures
            r.pipeline == pipeline,
            r.demo == demo,
            !r.needs_reconnect,
            trackers(r) == (cargo_zero(), (0nat, 0nat, None::<Seq<char>>), (0nat, 0nat, 0nat, None::<Seq<char>>)),
    {
        BuildMonitor {
            pipeline,
            cargo_tracker: CargoTracker::default(),
            omicron_pkg_tracker: OmicronPkgTracker::default(),
            xtask_tracker: XtaskTracker::default(),
            demo,
            needs_reconnect: false,
        }
    }

    fn reset_trackers(&mut self, id: &str)
        ensures
            trackers(*final(self)) == trackers_on_start(trackers(*old(self)), id@),
            final(self).pipeline == old(self).pipeline,
            final(self).demo == old(self).demo,
            final(self).needs_reconnect == old(self).needs_reconnect,
            trackers_have_room(*old(self)) ==> trackers_have_room(*final(self)),
    {
        if str_eq(id, "build-compile") {
            self.cargo_tracker = CargoTracker::default();
        } else if str_eq(id, "build-package") {
            self.cargo_tracker = CargoTracker::default();
            self.omicron_pkg_tracker = OmicronPkgTracker::default();
        } else if str_eq(id, "build-prereqs-builder") || str_eq(id, "build-prereqs-runner") {
            self.xtask_tracker = XtaskTracker::default();
        }
    }

    fn summarize(&mut self, id: &str, line: &str, pkg_summary: Option<String>) -> (r: Option<String>)
        requires
            trackers_have_room(*old(self)),
        ensures
            trackers(*final(self)) == trackers_on_detail(trackers(*old(self)), id@, line@, opt_view(pkg_summary)).0,
            opt_view(r) == trackers_on_detail(trackers(*old(self)), id@, line@, opt_view(pkg_summary)).1,
            final(self).pipeline == old(self).pipeline,
            final(self).demo == old(self).demo,
            final(self).needs_reconnect == old(self).needs_reconnect,
    {
        if str_eq(id, "build-compile") {
            match parse_cargo_line(line) {
                Some(e) => {
                    self.cargo_tracker.update(&e);
                    Some(self.cargo_tracker.summary())
                },
                None => None,
            }
        } else if str_eq(id, "build-package") {
            match parse_cargo_line(line) {
                Some(e) => {
                    self.cargo_tracker.update(&e);
                    Some(self.cargo_tracker.summary())
                },
                None => match parse_omicron_pkg_line(line) {
                    Some(e) => {
                        self.omicron_pkg_tracker.update(&e);
                        Some(self.omicron_pkg_tracker.summary())
                    },
                    None => None,
                },
            }
        } else if str_eq(id, "os-update") || str_eq(id, "os-packages") {
            pkg_summary
        } else if str_eq(id, "build-prereqs-builder") || str_eq(id, "build-prereqs-runner") {
            match parse_xtask_line(line) {
                Some(e) => {
                    self.xtask_tracker.update(&e);
                    Some(self.xtask_tracker.summary())
                },
                None => pkg_summary,
            }
        } else {
            None
        }
    }

    /// Follow one event of the build at time `now` (milliseconds). For a
    /// line of output, `pkg_summary` is its summary as image-packaging
    /// output, when it reads as such.
    pub fn handle_build_event(
        &mut self,
        hosts: &mut Vec<(String, HostConfig)>,
        event: BuildEvent,
        now: u64,
        pkg_summary: Option<String>,
    ) -> (r: BuildAction)
        requires
            trackers_have_room(*old(self)),
        ensures
            final(self).demo == old(self).demo,
            phase_names(final(self).pipeline.phases@) == phase_names(old(self).pipeline.phases@),
            match event {
                BuildEvent::StepStarted(id) => {
                    &&& grid(final(self).pipeline.phases@) == update_first(
                        grid(old(self).pipeline.phases@),
                        id@,
                        |s: Step| started_step(s, now),
                    )
                    &&& final(self).pipeline.started == match old(self).pipeline.started {
                        Some(s) => Some(s),
                        None => Some(now),
                    }
                    &&& trackers(*final(self)) == trackers_on_start(trackers(*old(self)), id@)
                    &&& final(self).needs_reconnect == old(self).needs_reconnect
                    &&& *final(hosts) == *old(hosts)
                    &&& r is Nothing
                },
                BuildEvent::StepDetail(id, line) => {
                    let (t, summary) = trackers_on_detail(trackers(*old(self)), id@, line@, opt_view(pkg_summary));
                    &&& trackers(*final(self)) == t
                    &&& final(self).pipeline.started == old(self).pipeline.started
                    &&& exists|d: String| {
                        &&& d@ == match summary {
                            Some(s) => s,
                            None => line@,
                        }
                        &&& match first_match(grid(old(self).pipeline.phases@), id@) {
                            Some((pi, si)) => grid(final(self).pipeline.phases@) == grid(old(self).pipeline.phases@).update(
                                pi,
                                grid(old(self).pipeline.phases@)[pi].update(si, grid(final(self).pipeline.phases@)[pi][si]),
                            ) && detail_applied(
                                grid(old(self).pipeline.phases@)[pi][si],
                                grid(final(self).pipeline.phases@)[pi][si],
                                line,
                                d,
                            ),
                            None => grid(final(self).pipeline.phases@) == grid(old(self).pipeline.phases@),
                        }
                    }
                    &&& final(self).needs_reconnect == old(self).needs_reconnect
                    &&& *final(hosts) == *old(hosts)
                    &&& r is Nothing
                },
                BuildEvent::StepCompleted(id) => {
                    let g1 = update_first(grid(old(self).pipeline.phases@), id@, |s: Step| completed_step(s, now));
                    &&& !old(self).demo ==> grid(final(self).pipeline.phases@) == g1
                        && final(self).pipeline.started == old(self).pipeline.started
                    &&& old(self).demo ==> {
                        let g2 = update_first(
                            g1,
                            id@,
                            |s: Step| Step { status: StepStatus::Completed { duration: realistic_ms(id@) as u64 }, ..s },
                        );
                        &&& grid(final(self).pipeline.phases@) == g2
                        &&& final(self).pipeline.started == Some(backdated(now, grid_elapsed(g2, now)))
                    }
                    &&& trackers(*final(self)) == trackers(*old(self))
                    &&& final(self).needs_reconnect == old(self).needs_reconnect
                    &&& *final(hosts) == *old(hosts)
                    &&& r is Nothing
                },
                BuildEvent::StepFailed(id, error) => {
                    &&& grid(final(self).pipeline.phases@) == update_first(
                        grid(old(self).pipeline.phases@),
                        id@,
                        |s: Step| failed_step(s, error, now),
                    )
                    &&& final(self).pipeline.started == old(self).pipeline.started
                    &&& trackers(*final(self)) == trackers(*old(self))
                    &&& final(self).needs_reconnect == old(self).needs_reconnect
                    &&& *final(hosts) == *old(hosts)
                    &&& r is Nothing
                },
                BuildEvent::HostDiscovered { address, ssh_user } => {
                    &&& final(self).pipeline == old(self).pipeline
                    &&& trackers(*final(self)) == trackers(*old(self))
                    &&& final(self).needs_reconnect
                    &&& final(hosts)@.len() == old(hosts)@.len()
                    &&& old(hosts)@.len() == 0 ==> r is Nothing
                    &&& old(hosts)@.len() > 0 ==> {
                        &&& final(hosts)@[0].0@ == old(hosts)@[0].0@
                        &&& final(hosts)@[0].1.address@ == address@
                        &&& final(hosts)@[0].1.ssh_user@ == ssh_user@
                        &&& final(hosts)@[0].1.role == old(hosts)@[0].1.role
                        &&& final(hosts)@[0].1.host_type == old(hosts)@[0].1.host_type
                        &&& final(hosts)@[0].1.ssh_port == old(hosts)@[0].1.ssh_port
                        &&& forall|i: int| 1 <= i < old(hosts)@.len() ==> final(hosts)@[i] == old(hosts)@[i]
                        &&& r matches BuildAction::PersistHostAddress { field_path, address: a } && field_path@
                            == address_path(old(hosts)@[0].0@) && a@ == address@
                    }
                },
                BuildEvent::PipelineFinished { success } => {
                    &&& final(self).pipeline == old(self).pipeline
                    &&& trackers(*final(self)) == trackers(*old(self))
                    &&& *final(hosts) == *old(hosts)
                    &&& (success && !old(self).demo) ==> r is Reconnect && !final(self).needs_reconnect
                    &&& !(success && !old(self).demo) ==> r is Nothing && final(self).needs_reconnect
                        == old(self).needs_reconnect
                },
            },
    {
        match event {
            BuildEvent::StepStarted(id) => {
                self.pipeline.start_step_at(id.as_str(), now);
                self.reset_trackers(id.as_str());
                BuildAction::Nothing
            },
            BuildEvent::StepDetail(id, line) => {
                let summary = self.summarize(id.as_str(), line.as_str(), pkg_summary);
                let display = match summary {
                    Some(s) => s,
                    None => line.clone(),
                };
                self.pipeline.record_detail(id.as_str(), line, display);
                BuildAction::Nothing
            },
            BuildEvent::StepCompleted(id) => {
                self.pipeline.complete_step_at(id.as_str(), now);
                if self.demo {
                    proof {
                        crate::demo::lemma_durations_bounded(id@);
                    }
                    let ms = crate::demo::realistic_duration(id.as_str()) * 1000;
                    self.pipeline.set_completed(id.as_str(), ms);
                    let spent = self.pipeline.elapsed_sum_at(now);
                    let start = if spent <= now {
                        now - spent
                    } else {
                        0
                    };
                    self.pipeline.started = Some(start);
                }
                BuildAction::Nothing
            },
            BuildEvent::StepFailed(id, error) => {
                self.pipeline.fail_step_at(id.as_str(), error, now);
                BuildAction::Nothing
            },
            BuildEvent::HostDiscovered { address, ssh_user } => {
                self.needs_reconnect = true;
                if hosts.len() == 0 {
                    return BuildAction::Nothing;
                }
                let (name, mut h) = hosts.remove(0);
                h.address = address.clone();
                h.ssh_user = ssh_user;
                let mut path = string_from("hosts.");
                push_str(&mut path, name.as_str());
                push_str(&mut path, ".address");
                hosts.insert(0, (name, h));
                BuildAction::PersistHostAddress { field_path: path, address }
            },
            BuildEvent::PipelineFinished { success } => {
                if success && !self.demo {
                    self.needs_reconnect = false;
                    BuildAction::Reconnect
                } else {
                    BuildAction::Nothing
                }
            },
        }
    }
}

} // verus!
