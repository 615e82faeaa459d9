//! Build & deploy pipeline data model.
//!
//! The phased pipeline for provisioning a Proxmox VM, setting up Helios,
//! building Omicron and applying patches. Each step tracks status and
//! timing. No execution logic lives here: this is the state that the TUI
//! renders and that executors update.
//!
//! Times are milliseconds on the wall clock; each operation that reads the
//! clock has a variant ending in `_at` that takes the time as an argument.
use vstd::prelude::*;
use crate::text::{str_eq, string_from};

verus! {

broadcast use vstd::slice::group_slice_axioms;

// ── Clock ───────────────────────────────────────────────────────

/// Milliseconds since the Unix epoch (`SystemTime::now`); zero if the clock
/// stands before the epoch. Nothing is promised of the value.
#[verifier::external_body]
fn now_millis() -> u64 {
    std::time::SystemTime::now().duration_since(std::time::UNIX_EPOCH).map(
        |d| d.as_millis() as u64,
    ).unwrap_or(0)
}

/// A time the clock may have read; used to name the reading in contracts.
pub open spec fn clock_reading(now: u64) -> bool {
    true
}

// ── Status ──────────────────────────────────────────────────────

/// Where a step stands. Durations and start times are in milliseconds.
pub enum StepStatus {
    Pending,
    Running { started: u64, detail: Option<String> },
    Completed { duration: u64 },
    Failed { duration: u64, error: String },
}

impl StepStatus {
    /// Completed or failed.
    pub open spec fn spec_is_terminal(&self) -> bool {
        self is Completed || self is Failed
    }

    /// Completed or failed.
    pub fn is_terminal(&self) -> (r: bool)
        ensures
            r == self.spec_is_terminal(),
    {
        match self {
            StepStatus::Completed { .. } => true,
            StepStatus::Failed { .. } => true,
            _ => false,
        }
    }
}

// ── Step ────────────────────────────────────────────────────────

/// Maximum number of output lines to retain per step for the log panel.
pub const STEP_OUTPUT_CAPACITY: usize = 200;

/// One step of the pipeline.
pub struct Step {
    pub id: String,
    pub name: String,
    pub status: StepStatus,
    /// Recent output lines for the log panel. Capped at STEP_OUTPUT_CAPACITY.
    pub output: Vec<String>,
}

/// Time from `started` to `now`, zero if `now` is earlier.
pub open spec fn since(started: u64, now: u64) -> u64 {
    if now >= started {
        (now - started) as u64
    } else {
        0
    }
}

/// How long a step has run, if it has started.
pub open spec fn spec_step_elapsed(s: StepStatus, now: u64) -> Option<u64> {
    match s {
        StepStatus::Running { started, .. } => Some(since(started, now)),
        StepStatus::Completed { duration } => Some(duration),
        StepStatus::Failed { duration, .. } => Some(duration),
        StepStatus::Pending => None,
    }
}

/// The text a step shows beside it: the detail while running, the error
/// once failed.
pub open spec fn spec_step_detail(s: StepStatus) -> Option<Seq<char>> {
    match s {
        StepStatus::Running { detail: Some(d), .. } => Some(d@),
        StepStatus::Failed { error, .. } => Some(error@),
        _ => None,
    }
}

/// The output lines after one more is pushed.
pub open spec fn spec_push_output(out: Seq<String>, line: String) -> Seq<String> {
    if out.len() >= STEP_OUTPUT_CAPACITY {
        out.drop_first().push(line)
    } else {
        out.push(line)
    }
}

impl Step {
    /// A pending step with no output.
    pub fn new(id: &str, name: &str) -> (s: Self)
        ensures
            s.id@ == id@,
            s.name@ == name@,
            s.status is Pending,
            s.output@.len() == 0,
    {
        Step { id: string_from(id), name: string_from(name), status: StepStatus::Pending, output: Vec::new() }
    }

    /// Push a line to the output buffer, dropping the oldest one when full.
    pub fn push_output(&mut self, line: String)
        ensures
            final(self).id == old(self).id,
            final(self).name == old(self).name,
            final(self).status == old(self).status,
            final(self).output@ == spec_push_output(old(self).output@, line),
    {
        if self.output.len() >= STEP_OUTPUT_CAPACITY {
            self.output.remove(0);
        }
        self.output.push(line);
        assert(self.output@ =~= spec_push_output(old(self).output@, line));
    }

    /// How long the step has run by `now`.
    pub fn elapsed_at(&self, now: u64) -> (r: Option<u64>)
        ensures
            r == spec_step_elapsed(self.status, now),
    {
        match &self.status {
            StepStatus::Running { started, .. } => Some(if now >= *started {
                now - *started
            } else {
                0
            }),
            StepStatus::Completed { duration } => Some(*duration),
            StepStatus::Failed { duration, .. } => Some(*duration),
            StepStatus::Pending => None,
        }
    }

    /// How long the step has run until now.
    pub fn elapsed(&self) -> (r: Option<u64>)
        ensures
            exists|now: u64| #[trigger] clock_reading(now) && r == spec_step_elapsed(self.status, now),
    {
        let now = now_millis();
        assert(clock_reading(now));
        self.elapsed_at(now)
    }

    /// The detail of a running step or the error of a failed one.
    pub fn detail(&self) -> (r: Option<&str>)
        ensures
            match r {
                Some(d) => spec_step_detail(self.status) == Some(d@),
                None => spec_step_detail(self.status) is None,
            },
    {
        match &self.status {
            StepStatus::Running { detail: Some(d), .. } => Some(d.as_str()),
            StepStatus::Failed { error, .. } => Some(error.as_str()),
            _ => None,
        }
    }
}

// ── Phase ───────────────────────────────────────────────────────

/// A named group of steps.
pub struct Phase {
    pub name: String,
    pub steps: Vec<Step>,
}

/// Steps that are completed or failed.
pub open spec fn count_terminal(steps: Seq<Step>) -> nat
    decreases steps.len(),
{
    if steps.len() == 0 {
        0
    } else {
        count_terminal(steps.drop_last()) + if steps.last().status.spec_is_terminal() {
            1nat
        } else {
            0nat
        }
    }
}

/// Sum of the elapsed times of the steps that have started.
pub open spec fn sum_elapsed(steps: Seq<Step>, now: u64) -> nat
    decreases steps.len(),
{
    if steps.len() == 0 {
        0
    } else {
        sum_elapsed(steps.drop_last(), now) + match spec_step_elapsed(steps.last().status, now) {
            Some(d) => d as nat,
            None => 0nat,
        }
    }
}

impl Phase {
    /// A phase with its steps.
    pub fn new(name: &str, steps: Vec<Step>) -> (p: Self)
        ensures
            p.name@ == name@,
            p.steps == steps,
    {
        Phase { name: string_from(name), steps }
    }

    /// Total time spent in the phase's steps by `now`.
    pub fn elapsed_at(&self, now: u64) -> (r: u64)
        requires
            sum_elapsed(self.steps@, now) <= u64::MAX,
        ensures
            r == sum_elapsed(self.steps@, now),
    {
        let mut total: u64 = 0;
        let mut i: usize = 0;
        while i < self.steps.len()
            invariant
                i <= self.steps@.len(),
                total == sum_elapsed(self.steps@.take(i as int), now),
                sum_elapsed(self.steps@, now) <= u64::MAX,
            decreases self.steps@.len() - i,
        {
            proof {
                lemma_sum_elapsed_prefix(self.steps@, now, i as int + 1);
                assert(self.steps@.take(i + 1).drop_last() =~= self.steps@.take(i as int));
            }
            let d = match self.steps[i].elapsed_at(now) {
                Some(d) => d,
                None => 0,
            };
            total = total + d;
            i = i + 1;
        }
        assert(self.steps@.take(i as int) =~= self.steps@);
        total
    }

    /// Total time spent in the phase's steps until now.
    pub fn elapsed(&self) -> (r: u64)
        requires
            forall|now: u64| sum_elapsed(self.steps@, now) <= u64::MAX,
        ensures
            exists|now: u64| #[trigger] clock_reading(now) && r == sum_elapsed(self.steps@, now),
    {
        let now = now_millis();
        assert(clock_reading(now));
        self.elapsed_at(now)
    }

    /// Every step is completed or failed.
    pub fn is_complete(&self) -> (r: bool)
        ensures
            r == (forall|i: int|
                0 <= i < self.steps@.len() ==> (#[trigger] self.steps@[i]).status.spec_is_terminal()),
    {
        let mut i: usize = 0;
        while i < self.steps.len()
            invariant
                i <= self.steps@.len(),
                forall|j: int| 0 <= j < i ==> (#[trigger] self.steps@[j]).status.spec_is_terminal(),
            decreases self.steps@.len() - i,
        {
            if !self.steps[i].status.is_terminal() {
                return false;
            }
            i = i + 1;
        }
        true
    }

    /// No step has started.
    pub fn is_pending(&self) -> (r: bool)
        ensures
            r == (forall|i: int| 0 <= i < self.steps@.len() ==> (#[trigger] self.steps@[i]).status is Pending),
    {
        let mut i: usize = 0;
        while i < self.steps.len()
            invariant
                i <= self.steps@.len(),
                forall|j: int| 0 <= j < i ==> (#[trigger] self.steps@[j]).status is Pending,
            decreases self.steps@.len() - i,
        {
            match &self.steps[i].status {
                StepStatus::Pending => {},
                _ => {
                    return false;
                },
            }
            i = i + 1;
        }
        true
    }

    /// Some step has failed.
    pub fn has_failure(&self) -> (r: bool)
        ensures
            r == (exists|i: int| 0 <= i < self.steps@.len() && (#[trigger] self.steps@[i]).status is Failed),
    {
        let mut i: usize = 0;
        while i < self.steps.len()
            invariant
                i <= self.steps@.len(),
                forall|j: int| 0 <= j < i ==> !((#[trigger] self.steps@[j]).status is Failed),
            decreases self.steps@.len() - i,
        {
            match &self.steps[i].status {
                StepStatus::Failed { .. } => {
                    return true;
                },
                _ => {},
            }
            i = i + 1;
        }
        false
    }
}

/// Prefix sums of elapsed times are bounded by the whole sum.
pub proof fn lemma_sum_elapsed_prefix(steps: Seq<Step>, now: u64, k: int)
    requires
        0 <= k <= steps.len(),
    ensures
        sum_elapsed(steps.take(k), now) <= sum_elapsed(steps, now),
    decreases steps.len() - k,
{
    if k < steps.len() {
        lemma_sum_elapsed_prefix(steps, now, k + 1);
        assert(steps.take(k + 1).drop_last() =~= steps.take(k));
    } else {
        assert(steps.take(k) =~= steps);
    }
}

// ── Pipeline ────────────────────────────────────────────────────

/// The phases of a build, and when it started.
pub struct Pipeline {
    pub phases: Vec<Phase>,
    pub started: Option<u64>,
}

/// The steps of each phase.
pub open spec fn grid(phases: Seq<Phase>) -> Seq<Seq<Step>> {
    phases.map_values(|p: Phase| p.steps@)
}

/// The names of the phases.
pub open spec fn phase_names(phases: Seq<Phase>) -> Seq<Seq<char>> {
    phases.map_values(|p: Phase| p.name@)
}

/// Step `si` of phase `pi` has the given id.
pub open spec fn matches_at(g: Seq<Seq<Step>>, id: Seq<char>, pi: int, si: int) -> bool {
    0 <= pi < g.len() && 0 <= si < g[pi].len() && g[pi][si].id@ == id
}

/// Position `(pi, si)` holds the first step, in phase order, with the id.
pub open spec fn is_first_match(g: Seq<Seq<Step>>, id: Seq<char>, pi: int, si: int) -> bool {
    &&& matches_at(g, id, pi, si)
    &&& forall|pj: int, sj: int|
        #![trigger matches_at(g, id, pj, sj)]
        matches_at(g, id, pj, sj) ==> (pi < pj || (pi == pj && si <= sj))
}

/// Position of the first step with the id.
pub open spec fn first_match(g: Seq<Seq<Step>>, id: Seq<char>) -> Option<(int, int)> {
    if exists|pi: int, si: int| is_first_match(g, id, pi, si) {
        Some(choose|pi: int, si: int| is_first_match(g, id, pi, si))
    } else {
        None
    }
}

/// The first step with the id, with the given change applied.
pub open spec fn update_first(
    g: Seq<Seq<Step>>,
    id: Seq<char>,
    f: spec_fn(Step) -> Step,
) -> Seq<Seq<Step>> {
    match first_match(g, id) {
        Some((pi, si)) => g.update(pi, g[pi].update(si, f(g[pi][si]))),
        None => g,
    }
}

/// A step marked running from `now`.
pub open spec fn started_step(s: Step, now: u64) -> Step {
    Step { status: StepStatus::Running { started: now, detail: None }, ..s }
}

/// A step marked completed at `now`.
pub open spec fn completed_step(s: Step, now: u64) -> Step {
    Step {
        status: StepStatus::Completed {
            duration: match s.status {
                StepStatus::Running { started, .. } => since(started, now),
                _ => 0,
            },
        },
        ..s
    }
}

/// A step marked failed at `now`.
pub open spec fn failed_step(s: Step, error: String, now: u64) -> Step {
    Step {
        status: StepStatus::Failed {
            duration: match s.status {
                StepStatus::Running { started, .. } => since(started, now),
                _ => 0,
            },
            error,
        },
        ..s
    }
}

/// Steps, over all phases, that are completed or failed.
pub open spec fn grid_terminal(g: Seq<Seq<Step>>) -> nat
    decreases g.len(),
{
    if g.len() == 0 {
        0
    } else {
        grid_terminal(g.drop_last()) + count_terminal(g.last())
    }
}

/// Steps over all phases.
pub open spec fn grid_total(g: Seq<Seq<Step>>) -> nat
    decreases g.len(),
{
    if g.len() == 0 {
        0
    } else {
        grid_total(g.drop_last()) + g.last().len()
    }
}

/// Two positions that are both first matches are the same.
pub proof fn lemma_first_match_unique(g: Seq<Seq<Step>>, id: Seq<char>, pi: int, si: int)
    requires
        is_first_match(g, id, pi, si),
    ensures
        first_match(g, id) == Some((pi, si)),
{
    let (a, b) = choose|a: int, b: int| is_first_match(g, id, a, b);
    assert(matches_at(g, id, pi, si));
    assert(matches_at(g, id, a, b));
}

/// Without a match there is no first match.
pub proof fn lemma_first_match_none(g: Seq<Seq<Step>>, id: Seq<char>)
    requires
        forall|pi: int, si: int| !matches_at(g, id, pi, si),
    ensures
        first_match(g, id) is None,
{
}

/// A step after a line of output: the line is kept (the oldest dropped
/// when full) and a running step shows `display`.
pub open spec fn detail_applied(old: Step, new: Step, line: String, display: String) -> bool {
    &&& new.id == old.id
    &&& new.name == old.name
    &&& new.output@ == spec_push_output(old.output@, line)
    &&& new.status == match old.status {
        StepStatus::Running { started, .. } => StepStatus::Running { started, detail: Some(display) },
        other => other,
    }
}

/// Time spent in all steps of all phases by `now`.
pub open spec fn grid_elapsed(g: Seq<Seq<Step>>, now: u64) -> nat
    decreases g.len(),
{
    if g.len() == 0 {
        0
    } else {
        grid_elapsed(g.drop_last(), now) + sum_elapsed(g.last(), now)
    }
}

impl Pipeline {
    /// Time since the pipeline started, by `now`; zero if it has not.
    pub fn total_elapsed_at(&self, now: u64) -> (r: u64)
        ensures
            r == match self.started {
                Some(s) => since(s, now),
                None => 0,
            },
    {
        match self.started {
            Some(s) => if now >= s {
                now - s
            } else {
                0
            },
            None => 0,
        }
    }

    /// Time since the pipeline started; zero if it has not.
    pub fn total_elapsed(&self) -> (r: u64)
        ensures
            exists|now: u64| #[trigger] clock_reading(now) && r == match self.started {
                Some(s) => since(s, now),
                None => 0,
            },
    {
        let now = now_millis();
        assert(clock_reading(now));
        self.total_elapsed_at(now)
    }

    /// Find a step by id across all phases. Returns (phase_index, step_index).
    pub fn find_step(&self, id: &str) -> (r: Option<(usize, usize)>)
        ensures
            match r {
                Some((pi, si)) => first_match(grid(self.phases@), id@) == Some(
                    (pi as int, si as int),
                ),
                None => first_match(grid(self.phases@), id@) is None,
            },
    {
        let ghost g = grid(self.phases@);
        let mut pi: usize = 0;
        while pi < self.phases.len()
            invariant
                g == grid(self.phases@),
                pi <= self.phases@.len(),
                forall|a: int, b: int| #![trigger matches_at(g, id@, a, b)] a < pi ==> !matches_at(g, id@, a, b),
            decreases self.phases@.len() - pi,
        {
            let steps = &self.phases[pi].steps;
            assert(g[pi as int] == steps@);
            let mut si: usize = 0;
            while si < steps.len()
                invariant
                    g == grid(self.phases@),
                    pi < self.phases@.len(),
                    g[pi as int] == steps@,
                    si <= steps@.len(),
                    forall|a: int, b: int| #![trigger matches_at(g, id@, a, b)] a < pi ==> !matches_at(g, id@, a, b),
                    forall|b: int| 0 <= b < si ==> !matches_at(g, id@, pi as int, b),
                decreases steps@.len() - si,
            {
                if str_eq(steps[si].id.as_str(), id) {
                    proof {
                        assert(matches_at(g, id@, pi as int, si as int));
                        assert(is_first_match(g, id@, pi as int, si as int));
                        lemma_first_match_unique(g, id@, pi as int, si as int);
                    }
                    return Some((pi, si));
                }
                si = si + 1;
            }
            pi = pi + 1;
        }
        proof {
            lemma_first_match_none(g, id@);
        }
        None
    }

    /// Get a mutable reference to the first step with the id.
    pub fn step_mut(&mut self, id: &str) -> (r: Option<&mut Step>)
        ensures
            match first_match(grid(old(self).phases@), id@) {
                Some((pi, si)) => r is Some && *r->0 == grid(old(self).phases@)[pi][si]
                    && grid(final(self).phases@) == grid(old(self).phases@).update(
                    pi,
                    grid(old(self).phases@)[pi].update(si, *final(r->0)),
                ) && phase_names(final(self).phases@) == phase_names(old(self).phases@)
                    && final(self).started == old(self).started,
                None => r is None && *final(self) == *old(self),
            },
    {
        match self.find_step(id) {
            Some((pi, si)) => {
                let phase = &mut self.phases[pi];
                let step = &mut phase.steps[si];
                Some(step)
            },
            None => None,
        }
    }

    /// Replace the status of the step at a position.
    fn set_status(&mut self, pi: usize, si: usize, status: StepStatus)
        requires
            pi < old(self).phases@.len(),
            si < old(self).phases@[pi as int].steps@.len(),
        ensures
            grid(final(self).phases@) == grid(old(self).phases@).update(
                pi as int,
                grid(old(self).phases@)[pi as int].update(
                    si as int,
                    Step { status, ..grid(old(self).phases@)[pi as int][si as int] },
                ),
            ),
            phase_names(final(self).phases@) == phase_names(old(self).phases@),
            final(self).started == old(self).started,
    {
        let ghost g = grid(old(self).phases@);
        self.phases[pi].steps[si].status = status;
        assert(grid(self.phases@) =~= g.update(
            pi as int,
            g[pi as int].update(si as int, Step { status, ..g[pi as int][si as int] }),
        ));
        assert(phase_names(self.phases@) =~= phase_names(old(self).phases@));
    }

    /// Mark a step as running from `now`; the pipeline starts then if it
    /// has not yet.
    pub fn start_step_at(&mut self, id: &str, now: u64)
        ensures
            grid(final(self).phases@) == update_first(
                grid(old(self).phases@),
                id@,
                |s: Step| started_step(s, now),
            ),
            phase_names(final(self).phases@) == phase_names(old(self).phases@),
            final(self).started == match old(self).started {
                Some(s) => Some(s),
                None => Some(now),
            },
    {
        if self.started.is_none() {
            self.started = Some(now);
        }
        if let Some((pi, si)) = self.find_step(id) {
            self.set_status(pi, si, StepStatus::Running { started: now, detail: None });
        }
    }

    /// Mark a step as running.
    pub fn start_step(&mut self, id: &str)
        ensures
            exists|now: u64|
                #[trigger] clock_reading(now) && grid(final(self).phases@) == update_first(
                    grid(old(self).phases@),
                    id@,
                    |s: Step| started_step(s, now),
                ) && final(self).started == match old(self).started {
                    Some(s) => Some(s),
                    None => Some(now),
                },
            phase_names(final(self).phases@) == phase_names(old(self).phases@),
    {
        let now = now_millis();
        assert(clock_reading(now));
        self.start_step_at(id, now);
    }

    /// Mark a step as completed at `now`.
    pub fn complete_step_at(&mut self, id: &str, now: u64)
        ensures
            grid(final(self).phases@) == update_first(
                grid(old(self).phases@),
                id@,
                |s: Step| completed_step(s, now),
            ),
            phase_names(final(self).phases@) == phase_names(old(self).phases@),
            final(self).started == old(self).started,
    {
        if let Some((pi, si)) = self.find_step(id) {
            let duration = match &self.phases[pi].steps[si].status {
                StepStatus::Running { started, .. } => if now >= *started {
                    now - *started
                } else {
                    0
                },
                _ => 0,
            };
            self.set_status(pi, si, StepStatus::Completed { duration });
        }
    }

    /// Mark a step as completed.
    pub fn complete_step(&mut self, id: &str)
        ensures
            exists|now: u64|
                #[trigger] clock_reading(now) && grid(final(self).phases@) == update_first(
                    grid(old(self).phases@),
                    id@,
                    |s: Step| completed_step(s, now),
                ),
            phase_names(final(self).phases@) == phase_names(old(self).phases@),
            final(self).started == old(self).started,
    {
        let now = now_millis();
        assert(clock_reading(now));
        self.complete_step_at(id, now);
    }

    /// Mark a step as failed at `now`.
    pub fn fail_step_at(&mut self, id: &str, error: String, now: u64)
        ensures
            grid(final(self).phases@) == update_first(
                grid(old(self).phases@),
                id@,
                |s: Step| failed_step(s, error, now),
            ),
            phase_names(final(self).phases@) == phase_names(old(self).phases@),
            final(self).started == old(self).started,
    {
        if let Some((pi, si)) = self.find_step(id) {
            let duration = match &self.phases[pi].steps[si].status {
                StepStatus::Running { started, .. } => if now >= *started {
                    now - *started
                } else {
                    0
                },
                _ => 0,
            };
            self.set_status(pi, si, StepStatus::Failed { duration, error });
        }
    }

    /// Mark a step as failed.
    pub fn fail_step(&mut self, id: &str, error: String)
        ensures
            exists|now: u64|
                #[trigger] clock_reading(now) && grid(final(self).phases@) == update_first(
                    grid(old(self).phases@),
                    id@,
                    |s: Step| failed_step(s, error, now),
                ),
            phase_names(final(self).phases@) == phase_names(old(self).phases@),
            final(self).started == old(self).started,
    {
        let now = now_millis();
        assert(clock_reading(now));
        self.fail_step_at(id, error, now);
    }

    /// Record a line of output of a step, and what the step shows beside
    /// it while running.
    pub fn record_detail(&mut self, id: &str, line: String, display: String)
        ensures
            phase_names(final(self).phases@) == phase_names(old(self).phases@),
            final(self).started == old(self).started,
            match first_match(grid(old(self).phases@), id@) {
                Some((pi, si)) => grid(final(self).phases@) == grid(old(self).phases@).update(
                    pi,
                    grid(old(self).phases@)[pi].update(si, grid(final(self).phases@)[pi][si]),
                ) && detail_applied(
                    grid(old(self).phases@)[pi][si],
                    grid(final(self).phases@)[pi][si],
                    line,
                    display,
                ),
                None => grid(final(self).phases@) == grid(old(self).phases@),
            },
    {
        match self.step_mut(id) {
            Some(step) => {
                step.push_output(line);
                let new_status = match &step.status {
                    StepStatus::Running { started, .. } => Some(*started),
                    _ => None,
                };
                if let Some(started) = new_status {
                    step.status = StepStatus::Running { started, detail: Some(display) };
                }
            },
            None => {},
        }
    }

    /// Set the duration of a step as completed, whatever it was.
    pub fn set_completed(&mut self, id: &str, duration: u64)
        ensures
            phase_names(final(self).phases@) == phase_names(old(self).phases@),
            final(self).started == old(self).started,
            grid(final(self).phases@) == update_first(
                grid(old(self).phases@),
                id@,
                |s: Step| Step { status: StepStatus::Completed { duration }, ..s },
            ),
    {
        if let Some((pi, si)) = self.find_step(id) {
            self.set_status(pi, si, StepStatus::Completed { duration });
        }
    }

    /// The time spent in all steps by `now`, saturating at the largest
    /// number.
    pub fn elapsed_sum_at(&self, now: u64) -> (r: u64)
        ensures
            r == (if grid_elapsed(grid(self.phases@), now) <= u64::MAX {
                grid_elapsed(grid(self.phases@), now)
            } else {
                u64::MAX as nat
            }),
    {
        let ghost g = grid(self.phases@);
        let mut total: u64 = 0;
        let mut saturated = false;
        let mut i: usize = 0;
        while i < self.phases.len()
            invariant
                g == grid(self.phases@),
                i <= self.phases@.len(),
                !saturated ==> total == grid_elapsed(g.take(i as int), now),
                saturated ==> grid_elapsed(g.take(i as int), now) > u64::MAX && total == u64::MAX,
            decreases self.phases@.len() - i,
        {
            proof {
                assert(g.take(i + 1).drop_last() =~= g.take(i as int));
                assert(g.take(i + 1).last() == self.phases@[i as int].steps@);
            }
            let steps = &self.phases[i].steps;
            let mut j: usize = 0;
            let ghost base = grid_elapsed(g.take(i as int), now);
            while j < steps.len()
                invariant
                    j <= steps@.len(),
                    !saturated ==> total == base + sum_elapsed(steps@.take(j as int), now),
                    saturated ==> base + sum_elapsed(steps@.take(j as int), now) > u64::MAX && total == u64::MAX,
                decreases steps@.len() - j,
            {
                proof {
                    assert(steps@.take(j + 1).drop_last() =~= steps@.take(j as int));
                }
                let d: u64 = match steps[j].elapsed_at(now) {
                    Some(d) => d,
                    None => 0,
                };
                if !saturated {
                    if total > u64::MAX - d {
                        saturated = true;
                        total = u64::MAX;
                    } else {
                        total = total + d;
                    }
                }
                j = j + 1;
            }
            assert(steps@.take(j as int) =~= steps@);
            i = i + 1;
        }
        assert(g.take(i as int) =~= g);
        total
    }

    /// Every phase is complete.
    pub fn is_complete(&self) -> (r: bool)
        ensures
            r == (forall|pi: int, si: int|
                0 <= pi < self.phases@.len() && 0 <= si < self.phases@[pi].steps@.len()
                    ==> (#[trigger] self.phases@[pi].steps@[si]).status.spec_is_terminal()),
    {
        let mut i: usize = 0;
        while i < self.phases.len()
            invariant
                i <= self.phases@.len(),
                forall|pi: int, si: int|
                    0 <= pi < i && 0 <= si < self.phases@[pi].steps@.len()
                        ==> (#[trigger] self.phases@[pi].steps@[si]).status.spec_is_terminal(),
            decreases self.phases@.len() - i,
        {
            if !self.phases[i].is_complete() {
                return false;
            }
            i = i + 1;
        }
        true
    }

    /// Some phase has a failed step.
    pub fn has_failure(&self) -> (r: bool)
        ensures
            r == (exists|pi: int, si: int|
                0 <= pi < self.phases@.len() && 0 <= si < self.phases@[pi].steps@.len()
                    && (#[trigger] self.phases@[pi].steps@[si]).status is Failed),
    {
        let mut i: usize = 0;
        while i < self.phases.len()
            invariant
                i <= self.phases@.len(),
                forall|pi: int, si: int|
                    0 <= pi < i && 0 <= si < self.phases@[pi].steps@.len()
                        ==> !((#[trigger] self.phases@[pi].steps@[si]).status is Failed),
            decreases self.phases@.len() - i,
        {
            if self.phases[i].has_failure() {
                return true;
            }
            i = i + 1;
        }
        false
    }

    /// Return (completed_steps, total_steps).
    pub fn progress(&self) -> (r: (usize, usize))
        requires
            grid_total(grid(self.phases@)) <= usize::MAX,
        ensures
            r.0 == grid_terminal(grid(self.phases@)),
            r.1 == grid_total(grid(self.phases@)),
    {
        let ghost g = grid(self.phases@);
        let mut done: usize = 0;
        let mut total: usize = 0;
        let mut i: usize = 0;
        while i < self.phases.len()
            invariant
                g == grid(self.phases@),
                i <= self.phases@.len(),
                done == grid_terminal(g.take(i as int)),
                total == grid_total(g.take(i as int)),
                grid_total(g) <= usize::MAX,
            decreases self.phases@.len() - i,
        {
            proof {
                lemma_grid_prefix(g, i as int + 1);
                assert(g.take(i + 1).drop_last() =~= g.take(i as int));
                lemma_count_terminal_le(g[i as int]);
            }
            let steps = &self.phases[i].steps;
            let mut j: usize = 0;
            let mut d: usize = 0;
            while j < steps.len()
                invariant
                    j <= steps@.len(),
                    d == count_terminal(steps@.take(j as int)),
                    d <= j,
                decreases steps@.len() - j,
            {
                assert(steps@.take(j + 1).drop_last() =~= steps@.take(j as int));
                if steps[j].status.is_terminal() {
                    d = d + 1;
                }
                j = j + 1;
            }
            assert(steps@.take(j as int) =~= steps@);
            done = done + d;
            total = total + steps.len();
            i = i + 1;
        }
        assert(g.take(i as int) =~= g);
        (done, total)
    }
}

/// Prefix totals of the grid are bounded by the whole, and terminal counts
/// by totals.
pub proof fn lemma_grid_prefix(g: Seq<Seq<Step>>, k: int)
    requires
        0 <= k <= g.len(),
    ensures
        grid_total(g.take(k)) <= grid_total(g),
        grid_terminal(g.take(k)) <= grid_total(g.take(k)),
    decreases g.len() - k,
{
    if k < g.len() {
        lemma_grid_prefix(g, k + 1);
        assert(g.take(k + 1).drop_last() =~= g.take(k));
        lemma_count_terminal_le(g[k]);
    } else {
        assert(g.take(k) =~= g);
    }
    lemma_grid_terminal_le(g.take(k));
}

/// The terminal steps of a grid are at most its steps.
pub proof fn lemma_grid_terminal_le(g: Seq<Seq<Step>>)
    ensures
        grid_terminal(g) <= grid_total(g),
    decreases g.len(),
{
    if g.len() > 0 {
        lemma_grid_terminal_le(g.drop_last());
        lemma_count_terminal_le(g.last());
    }
}

/// The terminal steps of a phase are at most its steps.
pub proof fn lemma_count_terminal_le(s: Seq<Step>)
    ensures
        count_terminal(s) <= s.len(),
    decreases s.len(),
{
    if s.len() > 0 {
        lemma_count_terminal_le(s.drop_last());
    }
}

// ── Factory ─────────────────────────────────────────────────────

/// A fresh step with the given id and name.
pub open spec fn is_fresh_step(s: Step, id: Seq<char>, name: Seq<char>) -> bool {
    s.id@ == id && s.name@ == name && s.status is Pending && s.output@.len() == 0
}

/// A phase holding fresh steps with the given ids and names, in order.
pub open spec fn is_fresh_phase(p: Phase, name: Seq<char>, steps: Seq<(&str, &str)>) -> bool {
    &&& p.name@ == name
    &&& p.steps@.len() == steps.len()
    &&& forall|i: int|
        0 <= i < steps.len() ==> is_fresh_step(#[trigger] p.steps@[i], steps[i].0@, steps[i].1@)
}

/// A phase of fresh steps.
fn make_phase(name: &str, plan: &[(&str, &str)]) -> (p: Phase)
    ensures
        is_fresh_phase(p, name@, plan@),
{
    let mut steps: Vec<Step> = Vec::new();
    let mut i: usize = 0;
    while i < plan.len()
        invariant
            i <= plan@.len(),
            steps@.len() == i,
            forall|j: int|
                0 <= j < i ==> is_fresh_step(#[trigger] steps@[j], plan@[j].0@, plan@[j].1@),
        decreases plan@.len() - i,
    {
        let (id, nm) = plan[i];
        steps.push(Step::new(id, nm));
        i = i + 1;
    }
    Phase::new(name, steps)
}

/// The phases of the build & deploy pipeline: name, then `(id, name)` of
/// each step.
pub open spec fn deploy_plan() -> Seq<(Seq<char>, Seq<(Seq<char>, Seq<char>)>)> {
    seq![
        ("Provision VM"@, seq![("prov-create"@, "Create VM"@), ("prov-boot"@, "Boot ISO"@), ("prov-install"@, "Install Helios"@)]),
        ("Configure VM"@, seq![("vm-network"@, "Configure networking"@), ("vm-netcat"@, "Start netcat listener"@)]),
        ("Configure Access"@, seq![("access-keys"@, "Send SSH keys"@), ("access-verify"@, "Verify SSH"@)]),
        ("Cache Setup"@, seq![("cache-start"@, "Start caching proxies"@)]),
        ("OS Setup"@, seq![
            ("cache-configure"@, "Configure caches on Helios"@),
            ("os-update"@, "Package update"@),
            ("os-reboot"@, "Reboot + reconnect"@),
            ("os-cleanup"@, "Delete old boot environments"@),
            ("os-packages"@, "Install packages"@),
            ("os-rust"@, "Install Rust toolchain"@),
            ("os-swap"@, "Configure swap"@),
        ]),
        ("Build"@, seq![
            ("repo-clone"@, "Clone omicron"@),
            ("repo-configure"@, "Configure build"@),
            ("build-prereqs-builder"@, "Builder prerequisites"@),
            ("build-prereqs-runner"@, "Runner prerequisites"@),
            ("build-fix-perms"@, "Fix file ownership"@),
            ("build-compile"@, "Compile omicron-package"@),
            ("build-package"@, "Package components"@),
            ("build-patch"@, "Patch propolis"@),
        ]),
        ("Deploy"@, seq![
            ("deploy-vhw"@, "Create virtual hardware"@),
            ("deploy-install"@, "Install omicron"@),
            ("deploy-verify"@, "Verify deployment"@),
        ]),
        ("Configure"@, seq![("config-quotas"@, "Set silo quotas"@), ("config-ippool"@, "Create IP pool"@)]),
    ]
}

/// A pipeline that has not started, laid out as the plan says.
pub open spec fn follows_plan(p: Pipeline) -> bool {
    &&& p.started is None
    &&& p.phases@.len() == deploy_plan().len()
    &&& forall|pi: int|
        #![trigger p.phases@[pi]]
        0 <= pi < deploy_plan().len() ==> {
            &&& p.phases@[pi].name@ == deploy_plan()[pi].0
            &&& p.phases@[pi].steps@.len() == deploy_plan()[pi].1.len()
            &&& forall|si: int|
                0 <= si < deploy_plan()[pi].1.len() ==> is_fresh_step(
                    #[trigger] p.phases@[pi].steps@[si],
                    deploy_plan()[pi].1[si].0,
                    deploy_plan()[pi].1[si].1,
                )
        }
}

/// Create the full build & deploy pipeline with all phases and steps.
pub fn build_deploy_pipeline() -> (p: Pipeline)
    ensures
        follows_plan(p),
{
    let p0 = make_phase("Provision VM", &[("prov-create", "Create VM"), ("prov-boot", "Boot ISO"), ("prov-install", "Install Helios")]);
    let p1 = make_phase("Configure VM", &[("vm-network", "Configure networking"), ("vm-netcat", "Start netcat listener")]);
    let p2 = make_phase("Configure Access", &[("access-keys", "Send SSH keys"), ("access-verify", "Verify SSH")]);
    let p3 = make_phase("Cache Setup", &[("cache-start", "Start caching proxies")]);
    let p4 = make_phase(
        "OS Setup",
        &[
            ("cache-configure", "Configure caches on Helios"),
            ("os-update", "Package update"),
            ("os-reboot", "Reboot + reconnect"),
            ("os-cleanup", "Delete old boot environments"),
            ("os-packages", "Install packages"),
            ("os-rust", "Install Rust toolchain"),
            ("os-swap", "Configure swap"),
        ],
    );
    let p5 = make_phase(
        "Build",
        &[
            ("repo-clone", "Clone omicron"),
            ("repo-configure", "Configure build"),
            ("build-prereqs-builder", "Builder prerequisites"),
            ("build-prereqs-runner", "Runner prerequisites"),
            ("build-fix-perms", "Fix file ownership"),
            ("build-compile", "Compile omicron-package"),
            ("build-package", "Package components"),
            ("build-patch", "Patch propolis"),
        ],
    );
    let p6 = make_phase(
        "Deploy",
        &[
            ("deploy-vhw", "Create virtual hardware"),
            ("deploy-install", "Install omicron"),
            ("deploy-verify", "Verify deployment"),
        ],
    );
    let p7 = make_phase("Configure", &[("config-quotas", "Set silo quotas"), ("config-ippool", "Create IP pool")]);
    let mut phases: Vec<Phase> = Vec::new();
    phases.push(p0);
    phases.push(p1);
    phases.push(p2);
    phases.push(p3);
    phases.push(p4);
    phases.push(p5);
    phases.push(p6);
    phases.push(p7);
    let p = Pipeline { phases, started: None };
    assert(follows_plan(p));
    p
}

// ── Laws ────────────────────────────────────────────────────────

/// 1 for a completed or failed step, 0 otherwise.
pub open spec fn term(s: Step) -> nat {
    if s.status.spec_is_terminal() {
        1
    } else {
        0
    }
}

/// Changing one step changes the count of terminal steps by the
/// difference that step makes.
pub proof fn lemma_count_terminal_update(s: Seq<Step>, i: int, x: Step)
    requires
        0 <= i < s.len(),
    ensures
        count_terminal(s.update(i, x)) + term(s[i]) == count_terminal(s) + term(x),
    decreases s.len(),
{
    if i == s.len() - 1 {
        assert(s.update(i, x).drop_last() =~= s.drop_last());
    } else {
        lemma_count_terminal_update(s.drop_last(), i, x);
        assert(s.update(i, x).drop_last() =~= s.drop_last().update(i, x));
    }
}

/// Changing one phase's steps changes the grid counts by the difference.
pub proof fn lemma_grid_update(g: Seq<Seq<Step>>, pi: int, row: Seq<Step>)
    requires
        0 <= pi < g.len(),
    ensures
        grid_terminal(g.update(pi, row)) + count_terminal(g[pi]) == grid_terminal(g)
            + count_terminal(row),
        grid_total(g.update(pi, row)) + g[pi].len() == grid_total(g) + row.len(),
    decreases g.len(),
{
    if pi == g.len() - 1 {
        assert(g.update(pi, row).drop_last() =~= g.drop_last());
    } else {
        lemma_grid_update(g.drop_last(), pi, row);
        assert(g.update(pi, row).drop_last() =~= g.drop_last().update(pi, row));
    }
}

/// Updates that keep every step's id keep the first match.
pub proof fn lemma_first_match_same_ids(g: Seq<Seq<Step>>, h: Seq<Seq<Step>>, id: Seq<char>)
    requires
        g.len() == h.len(),
        forall|pi: int| 0 <= pi < g.len() ==> (#[trigger] g[pi]).len() == h[pi].len(),
        forall|pi: int, si: int|
            0 <= pi < g.len() && 0 <= si < g[pi].len() ==> (#[trigger] g[pi][si]).id == h[pi][si].id,
    ensures
        first_match(g, id) == first_match(h, id),
{
    assert forall|pi: int, si: int| matches_at(g, id, pi, si) == matches_at(h, id, pi, si) by {
        if 0 <= pi < g.len() && 0 <= si < g[pi].len() {
            assert(g[pi][si].id == h[pi][si].id);
        }
    }
    assert forall|pi: int, si: int| is_first_match(g, id, pi, si) == is_first_match(h, id, pi, si) by {
        if is_first_match(g, id, pi, si) {
            assert forall|pj: int, sj: int| #![trigger matches_at(h, id, pj, sj)] matches_at(h, id, pj, sj) implies (pi < pj || (pi == pj && si <= sj)) by {
                assert(matches_at(g, id, pj, sj));
            }
        }
        if is_first_match(h, id, pi, si) {
            assert forall|pj: int, sj: int| #![trigger matches_at(g, id, pj, sj)] matches_at(g, id, pj, sj) implies (pi < pj || (pi == pj && si <= sj)) by {
                assert(matches_at(h, id, pj, sj));
            }
        }
    }
    if exists|pi: int, si: int| is_first_match(g, id, pi, si) {
        let (a, b) = choose|pi: int, si: int| is_first_match(g, id, pi, si);
        lemma_first_match_unique(g, id, a, b);
        lemma_first_match_unique(h, id, a, b);
    }
}

/// Starting a step that exists and has not ended, then completing it,
/// adds exactly one to the steps done and leaves the total unchanged;
/// the step is then completed.
pub proof fn law_start_then_complete_adds_one(g: Seq<Seq<Step>>, id: Seq<char>, t0: u64, t1: u64)
    requires
        first_match(g, id) is Some,
        !({
            let (pi, si) = first_match(g, id)->0;
            g[pi][si].status.spec_is_terminal()
        }),
    ensures
        ({
            let g1 = update_first(g, id, |s: Step| started_step(s, t0));
            let g2 = update_first(g1, id, |s: Step| completed_step(s, t1));
            let (pi, si) = first_match(g, id)->0;
            &&& grid_terminal(g2) == grid_terminal(g) + 1
            &&& grid_total(g2) == grid_total(g)
            &&& g2[pi][si].status == (StepStatus::Completed { duration: since(t0, t1) })
            &&& first_match(g2, id) == first_match(g, id)
        }),
{
    let (pi, si) = first_match(g, id)->0;
    let (a, b) = choose|a: int, b: int| is_first_match(g, id, a, b);
    assert(matches_at(g, id, a, b));
    let g1 = update_first(g, id, |s: Step| started_step(s, t0));
    let row1 = g[pi].update(si, started_step(g[pi][si], t0));
    assert(g1 == g.update(pi, row1));
    lemma_first_match_same_ids(g, g1, id);
    let g2 = update_first(g1, id, |s: Step| completed_step(s, t1));
    let row2 = g1[pi].update(si, completed_step(g1[pi][si], t1));
    assert(g2 == g1.update(pi, row2));
    lemma_first_match_same_ids(g1, g2, id);
    lemma_count_terminal_update(g[pi], si, started_step(g[pi][si], t0));
    lemma_grid_update(g, pi, row1);
    lemma_count_terminal_update(g1[pi], si, completed_step(g1[pi][si], t1));
    lemma_grid_update(g1, pi, row2);
}

/// Failing a step that exists leaves the pipeline with a failure.
pub proof fn law_fail_marks_failure(g: Seq<Seq<Step>>, id: Seq<char>, error: String, t: u64)
    requires
        first_match(g, id) is Some,
    ensures
        ({
            let h = update_first(g, id, |s: Step| failed_step(s, error, t));
            exists|pi: int, si: int|
                0 <= pi < h.len() && 0 <= si < h[pi].len() && (#[trigger] h[pi][si]).status is Failed
        }),
{
    let (a, b) = choose|a: int, b: int| is_first_match(g, id, a, b);
    assert(matches_at(g, id, a, b));
    let h = update_first(g, id, |s: Step| failed_step(s, error, t));
    assert(h[a][b].status is Failed);
}

/// A new pipeline has 28 steps, none of them done.
pub proof fn law_fresh_pipeline_progress(p: Pipeline)
    requires
        follows_plan(p),
    ensures
        grid_terminal(grid(p.phases@)) == 0,
        grid_total(grid(p.phases@)) == 28,
{
    let g = grid(p.phases@);
    assert forall|pi: int| 0 <= pi < g.len() implies count_terminal(#[trigger] g[pi]) == 0 && g[pi].len() == deploy_plan()[pi].1.len() by {
        assert(p.phases@[pi].steps@ == g[pi]);
        lemma_pending_count(g[pi]);
    }
    lemma_grid_sums(g);
    reveal_with_fuel(grid_total, 9);
    reveal_with_fuel(grid_terminal, 9);
}

/// A phase of pending steps has none done.
pub proof fn lemma_pending_count(s: Seq<Step>)
    requires
        forall|i: int| 0 <= i < s.len() ==> (#[trigger] s[i]).status is Pending,
    ensures
        count_terminal(s) == 0,
    decreases s.len(),
{
    if s.len() > 0 {
        lemma_pending_count(s.drop_last());
    }
}

/// Totals of a grid whose phases all have no step done.
pub proof fn lemma_grid_sums(g: Seq<Seq<Step>>)
    requires
        forall|pi: int| 0 <= pi < g.len() ==> count_terminal(#[trigger] g[pi]) == 0,
    ensures
        grid_terminal(g) == 0,
    decreases g.len(),
{
    if g.len() > 0 {
        lemma_grid_sums(g.drop_last());
    }
}

/// Every step of a sequence is completed or failed.
pub open spec fn all_terminal(steps: Seq<Step>) -> bool {
    forall|i: int| 0 <= i < steps.len() ==> (#[trigger] steps[i]).status.spec_is_terminal()
}

proof fn lemma_count_terminal(steps: Seq<Step>)
    ensures
        count_terminal(steps) <= steps.len(),
        (count_terminal(steps) == steps.len()) == all_terminal(steps),
    decreases steps.len(),
{
    if steps.len() > 0 {
        let d = steps.drop_last();
        lemma_count_terminal(d);
        if all_terminal(steps) {
            assert forall|i: int| 0 <= i < d.len() implies (#[trigger] d[i]).status.spec_is_terminal() by {
                assert(d[i] == steps[i]);
            }
            assert(steps[steps.len() - 1].status.spec_is_terminal());
        }
        if count_terminal(steps) == steps.len() {
            assert forall|i: int| 0 <= i < steps.len() implies (#[trigger] steps[i]).status.spec_is_terminal() by {
                if i < steps.len() - 1 {
                    assert(steps[i] == d[i]);
                }
            }
        }
    }
}

proof fn lemma_grid_terminal(g: Seq<Seq<Step>>)
    ensures
        grid_terminal(g) <= grid_total(g),
        (grid_terminal(g) == grid_total(g)) == (forall|pi: int| 0 <= pi < g.len() ==> all_terminal(#[trigger] g[pi])),
    decreases g.len(),
{
    if g.len() > 0 {
        let d = g.drop_last();
        lemma_grid_terminal(d);
        lemma_count_terminal(g.last());
        if forall|pi: int| 0 <= pi < g.len() ==> all_terminal(#[trigger] g[pi]) {
            assert forall|pi: int| 0 <= pi < d.len() implies all_terminal(#[trigger] d[pi]) by {
                assert(d[pi] == g[pi]);
            }
            assert(all_terminal(g[g.len() - 1]));
        }
        if grid_terminal(g) == grid_total(g) {
            assert forall|pi: int| 0 <= pi < g.len() implies all_terminal(#[trigger] g[pi]) by {
                if pi < g.len() - 1 {
                    assert(g[pi] == d[pi]);
                }
            }
        }
    }
}

/// A pipeline is complete exactly when its progress counts every step as
/// done: `is_complete` holds iff the two numbers of `progress` are equal,
/// and the first never exceeds the second. An empty pipeline is complete.
pub proof fn law_complete_iff_progress_full(p: Pipeline)
    ensures
        grid_terminal(grid(p.phases@)) <= grid_total(grid(p.phases@)),
        (forall|pi: int, si: int|
            0 <= pi < p.phases@.len() && 0 <= si < p.phases@[pi].steps@.len()
                ==> (#[trigger] p.phases@[pi].steps@[si]).status.spec_is_terminal())
            == (grid_terminal(grid(p.phases@)) == grid_total(grid(p.phases@))),
{
    let g = grid(p.phases@);
    lemma_grid_terminal(g);
    assert forall|pi: int| 0 <= pi < p.phases@.len() implies #[trigger] g[pi] == p.phases@[pi].steps@ by {}
    if forall|pi: int, si: int|
        0 <= pi < p.phases@.len() && 0 <= si < p.phases@[pi].steps@.len()
            ==> (#[trigger] p.phases@[pi].steps@[si]).status.spec_is_terminal() {
        assert forall|pi: int| 0 <= pi < g.len() implies all_terminal(#[trigger] g[pi]) by {
            assert(g[pi] == p.phases@[pi].steps@);
            assert forall|si: int| 0 <= si < g[pi].len() implies (#[trigger] g[pi][si]).status.spec_is_terminal() by {
                assert(g[pi][si] == p.phases@[pi].steps@[si]);
            }
        }
    }
    if grid_terminal(g) == grid_total(g) {
        assert forall|pi: int, si: int|
            0 <= pi < p.phases@.len() && 0 <= si < p.phases@[pi].steps@.len()
                implies (#[trigger] p.phases@[pi].steps@[si]).status.spec_is_terminal() by {
            assert(g[pi] == p.phases@[pi].steps@);
            assert(all_terminal(g[pi]));
            assert(g[pi][si] == p.phases@[pi].steps@[si]);
        }
    }
}

/// Writing back through `step_mut` the step it handed out leaves the steps
/// as they were: a caller that does not change the step changes nothing.
pub proof fn law_step_mut_untouched(g: Seq<Seq<Step>>, pi: int, si: int)
    requires
        0 <= pi < g.len(),
        0 <= si < g[pi].len(),
    ensures
        g.update(pi, g[pi].update(si, g[pi][si])) == g,
{
    assert(g[pi].update(si, g[pi][si]) =~= g[pi]);
    assert(g.update(pi, g[pi]) =~= g);
}

proof fn lemma_first_phase(g: Seq<Seq<Step>>, id: Seq<char>, pi: int, si: int) -> (p0: int)
    requires
        matches_at(g, id, pi, si),
    ensures
        0 <= p0 <= pi,
        exists|s0: int| matches_at(g, id, p0, s0),
        forall|p: int, s: int| p < p0 ==> !#[trigger] matches_at(g, id, p, s),
    decreases pi,
{
    if exists|p: int, s: int| p < pi && #[trigger] matches_at(g, id, p, s) {
        let (p, s) = choose|p: int, s: int| p < pi && #[trigger] matches_at(g, id, p, s);
        lemma_first_phase(g, id, p, s)
    } else {
        pi
    }
}

proof fn lemma_first_step(g: Seq<Seq<Step>>, id: Seq<char>, pi: int, si: int) -> (s0: int)
    requires
        matches_at(g, id, pi, si),
    ensures
        0 <= s0 <= si,
        matches_at(g, id, pi, s0),
        forall|s: int| s < s0 ==> !#[trigger] matches_at(g, id, pi, s),
    decreases si,
{
    if exists|s: int| s < si && #[trigger] matches_at(g, id, pi, s) {
        let s = choose|s: int| s < si && #[trigger] matches_at(g, id, pi, s);
        lemma_first_step(g, id, pi, s)
    } else {
        si
    }
}

/// `find_step` finds nothing exactly when no step of the pipeline has the
/// id; where some step has it, the first such step is found.
pub proof fn law_find_step_none(g: Seq<Seq<Step>>, id: Seq<char>)
    ensures
        first_match(g, id) is None <==> forall|pi: int, si: int| !#[trigger] matches_at(g, id, pi, si),
{
    if exists|pi: int, si: int| #[trigger] matches_at(g, id, pi, si) {
        let (pi, si) = choose|pi: int, si: int| #[trigger] matches_at(g, id, pi, si);
        let p0 = lemma_first_phase(g, id, pi, si);
        let s1 = choose|s0: int| matches_at(g, id, p0, s0);
        let s0 = lemma_first_step(g, id, p0, s1);
        assert(is_first_match(g, id, p0, s0));
    }
}

} // verus!
