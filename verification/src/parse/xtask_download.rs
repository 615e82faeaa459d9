//! Progress of `cargo xtask download`, from its structured log:
//!
//! ```text
//! Mar 18 06:17:14.090 INFO Starting download, target: Cockroach
//! Mar 18 06:17:14.093 INFO Downloading out/downloads/cockroach.tgz (attempt 1/3), target: Cockroach
//! Mar 18 06:24:01.849 INFO Unpacking out/downloads/mgd.tar.gz to out/downloads, target: MaghemiteMgd
//! Mar 18 06:24:04.483 INFO Download complete, target: MaghemiteMgd
//! Mar 18 09:35:57.852 INFO Already downloaded (out/downloads/cockroach.tgz), target: Cockroach
//! ```
use vstd::prelude::*;
use crate::text::{
    contains, contains_str, decimal, opt_view, push_str, push_u64, split_str_second,
    split_str_second_exec, split_whitespace, split_whitespace_exec, string_from, string_of,
    to_chars, trim, trim_chars, views,
};

verus! {

broadcast use vstd::slice::group_slice_axioms;

/// Parsed event from xtask download.
#[derive(Debug, Clone, PartialEq)]
pub enum XtaskEvent {
    Starting { target: String },
    Downloading { target: String, file: Option<String> },
    Unpacking { target: String },
    Complete { target: String },
    Cached { target: String },
}

/// The mathematical value of an [`XtaskEvent`].
pub enum SpecXtaskEvent {
    Starting { target: Seq<char> },
    Downloading { target: Seq<char>, file: Option<Seq<char>> },
    Unpacking { target: Seq<char> },
    Complete { target: Seq<char> },
    Cached { target: Seq<char> },
}

impl View for XtaskEvent {
    type V = SpecXtaskEvent;

    open spec fn view(&self) -> SpecXtaskEvent {
        match self {
            XtaskEvent::Starting { target } => SpecXtaskEvent::Starting { target: target@ },
            XtaskEvent::Downloading { target, file } => SpecXtaskEvent::Downloading {
                target: target@,
                file: opt_view(*file),
            },
            XtaskEvent::Unpacking { target } => SpecXtaskEvent::Unpacking { target: target@ },
            XtaskEvent::Complete { target } => SpecXtaskEvent::Complete { target: target@ },
            XtaskEvent::Cached { target } => SpecXtaskEvent::Cached { target: target@ },
        }
    }
}

/// The target named at the end of a line (`..., target: Cockroach`).
pub open spec fn spec_extract_target(line: Seq<char>) -> Option<Seq<char>> {
    match split_str_second(line, "target: "@) {
        Some(s) => Some(trim(s)),
        None => None,
    }
}

/// The file named after `Downloading `.
pub open spec fn spec_download_file(line: Seq<char>) -> Option<Seq<char>> {
    match split_str_second(line, "Downloading "@) {
        Some(s) => if split_whitespace(s).len() > 0 {
            Some(split_whitespace(s)[0])
        } else {
            None
        },
        None => None,
    }
}

/// What a line of xtask download output says, if anything.
pub open spec fn spec_parse_xtask_line(line: Seq<char>) -> Option<SpecXtaskEvent> {
    if !contains(line, "INFO"@) {
        None
    } else {
        match spec_extract_target(line) {
            None => None,
            Some(target) => if contains(line, "Starting download"@) {
                Some(SpecXtaskEvent::Starting { target })
            } else if contains(line, "Already downloaded"@) {
                Some(SpecXtaskEvent::Cached { target })
            } else if contains(line, "Download complete"@) {
                Some(SpecXtaskEvent::Complete { target })
            } else if contains(line, "Unpacking"@) {
                Some(SpecXtaskEvent::Unpacking { target })
            } else if contains(line, "Downloading"@) {
                Some(SpecXtaskEvent::Downloading { target, file: spec_download_file(line) })
            } else {
                None
            },
        }
    }
}

/// The view of an optional event.
pub open spec fn opt_xtask_view(o: Option<XtaskEvent>) -> Option<SpecXtaskEvent> {
    match o {
        Some(e) => Some(e@),
        None => None,
    }
}

/// The target named at the end of a line.
pub fn extract_target(line: &str) -> (r: Option<String>)
    ensures
        opt_view(r) == spec_extract_target(line@),
{
    let all = to_chars(line);
    match split_str_second_exec(all.as_slice(), "target: ") {
        Some(s) => Some(string_of(trim_chars(s))),
        None => None,
    }
}

/// Try to parse a line of xtask download output.
pub fn parse_xtask_line(line: &str) -> (r: Option<XtaskEvent>)
    ensures
        opt_xtask_view(r) == spec_parse_xtask_line(line@),
{
    let all = to_chars(line);
    let l = all.as_slice();
    if !contains_str(l, "INFO") {
        return None;
    }
    let target = match extract_target(line) {
        Some(t) => t,
        None => {
            return None;
        },
    };
    if contains_str(l, "Starting download") {
        return Some(XtaskEvent::Starting { target });
    }
    if contains_str(l, "Already downloaded") {
        return Some(XtaskEvent::Cached { target });
    }
    if contains_str(l, "Download complete") {
        return Some(XtaskEvent::Complete { target });
    }
    if contains_str(l, "Unpacking") {
        return Some(XtaskEvent::Unpacking { target });
    }
    if contains_str(l, "Downloading") {
        let file = match split_str_second_exec(l, "Downloading ") {
            Some(s) => {
                let toks = split_whitespace_exec(s);
                if toks.len() > 0 {
                    assert(toks@[0]@ == views(toks@)[0]);
                    Some(string_of(toks[0]))
                } else {
                    None
                }
            },
            None => None,
        };
        return Some(XtaskEvent::Downloading { target, file });
    }
    None
}

/// Tracks xtask download progress.
#[derive(Debug)]
pub struct XtaskTracker {
    pub total_targets: u32,
    pub completed: u32,
    pub cached: u32,
    pub current_target: Option<String>,
}

impl Default for XtaskTracker {
    /// A tracker that has seen nothing.
    fn default() -> (r: Self)
        ensures
            r.total_targets == 0,
            r.completed == 0,
            r.cached == 0,
            r.current_target is None,
    {
        XtaskTracker { total_targets: 0, completed: 0, cached: 0, current_target: None }
    }
}

/// One-line summary of a tracker's counts and current target.
pub open spec fn spec_xtask_summary(total: nat, completed: nat, cached: nat, current: Option<Seq<char>>) -> Seq<char> {
    if total == 0 {
        "Starting downloads..."@
    } else if completed >= total {
        if cached == total {
            "All "@ + decimal(total) + " tools cached"@
        } else {
            "All "@ + decimal(total) + " tools downloaded"@
        }
    } else {
        match current {
            Some(target) => "Downloading "@ + target + " ("@ + decimal(completed) + "/"@
                + decimal(total) + ")"@,
            None => decimal(completed) + "/"@ + decimal(total) + " tools"@,
        }
    }
}

/// The value of a tracker: targets, completed, cached, current target.
pub open spec fn xtask_tracker_view(t: XtaskTracker) -> (nat, nat, nat, Option<Seq<char>>) {
    (t.total_targets as nat, t.completed as nat, t.cached as nat, opt_view(t.current_target))
}

/// A tracker after one event.
pub open spec fn spec_xtask_update(t: (nat, nat, nat, Option<Seq<char>>), e: SpecXtaskEvent) -> (nat, nat, nat, Option<Seq<char>>) {
    match e {
        SpecXtaskEvent::Starting { target } => (t.0 + 1, t.1, t.2, Some(target)),
        SpecXtaskEvent::Complete { .. } => (t.0, t.1 + 1, t.2, t.3),
        SpecXtaskEvent::Cached { .. } => (t.0, t.1 + 1, t.2 + 1, t.3),
        SpecXtaskEvent::Downloading { target, .. } => (t.0, t.1, t.2, Some(target)),
        SpecXtaskEvent::Unpacking { target } => (t.0, t.1, t.2, Some(target)),
    }
}

impl XtaskTracker {
    /// Account for one parsed event: a start counts a target and makes it
    /// current, a completion or cache hit counts as completed (a cache hit
    /// also as cached), downloading or unpacking makes the target current.
    pub fn update(&mut self, event: &XtaskEvent)
        requires
            old(self).total_targets < u32::MAX,
            old(self).completed < u32::MAX,
            old(self).cached < u32::MAX,
        ensures
            xtask_tracker_view(*final(self)) == spec_xtask_update(xtask_tracker_view(*old(self)), event@),
            match event@ {
                SpecXtaskEvent::Starting { target } => final(self).total_targets == old(self).total_targets + 1
                    && final(self).completed == old(self).completed
                    && final(self).cached == old(self).cached
                    && opt_view(final(self).current_target) == Some(target),
                SpecXtaskEvent::Complete { .. } => final(self).total_targets == old(self).total_targets
                    && final(self).completed == old(self).completed + 1
                    && final(self).cached == old(self).cached
                    && final(self).current_target == old(self).current_target,
                SpecXtaskEvent::Cached { .. } => final(self).total_targets == old(self).total_targets
                    && final(self).completed == old(self).completed + 1
                    && final(self).cached == old(self).cached + 1
                    && final(self).current_target == old(self).current_target,
                SpecXtaskEvent::Downloading { target, .. } => final(self).total_targets == old(self).total_targets
                    && final(self).completed == old(self).completed
                    && final(self).cached == old(self).cached
                    && opt_view(final(self).current_target) == Some(target),
                SpecXtaskEvent::Unpacking { target } => final(self).total_targets == old(self).total_targets
                    && final(self).completed == old(self).completed
                    && final(self).cached == old(self).cached
                    && opt_view(final(self).current_target) == Some(target),
            },
    {
        match event {
            XtaskEvent::Starting { target } => {
                self.total_targets = self.total_targets + 1;
                self.current_target = Some(target.clone());
            },
            XtaskEvent::Complete { .. } => {
                self.completed = self.completed + 1;
            },
            XtaskEvent::Cached { .. } => {
                self.completed = self.completed + 1;
                self.cached = self.cached + 1;
            },
            XtaskEvent::Downloading { target, .. } => {
                self.current_target = Some(target.clone());
            },
            XtaskEvent::Unpacking { target } => {
                self.current_target = Some(target.clone());
            },
        }
    }

    /// Format a summary of the current state.
    pub fn summary(&self) -> (s: String)
        ensures
            s@ == spec_xtask_summary(
                self.total_targets as nat,
                self.completed as nat,
                self.cached as nat,
                opt_view(self.current_target),
            ),
    {
        if self.total_targets == 0 {
            return string_from("Starting downloads...");
        }
        if self.completed >= self.total_targets {
            let mut s = string_from("All ");
            push_u64(&mut s, self.total_targets as u64);
            if self.cached == self.total_targets {
                push_str(&mut s, " tools cached");
            } else {
                push_str(&mut s, " tools downloaded");
            }
            return s;
        }
        match &self.current_target {
            Some(target) => {
                let mut s = string_from("Downloading ");
                push_str(&mut s, target.as_str());
                push_str(&mut s, " (");
                push_u64(&mut s, self.completed as u64);
                push_str(&mut s, "/");
                push_u64(&mut s, self.total_targets as u64);
                push_str(&mut s, ")");
                assert(s@ =~= spec_xtask_summary(
                    self.total_targets as nat,
                    self.completed as nat,
                    self.cached as nat,
                    opt_view(self.current_target),
                ));
                s
            },
            None => {
                let mut s = String::new();
                push_u64(&mut s, self.completed as u64);
                push_str(&mut s, "/");
                push_u64(&mut s, self.total_targets as u64);
                push_str(&mut s, " tools");
                assert(s@ =~= spec_xtask_summary(
                    self.total_targets as nat,
                    self.completed as nat,
                    self.cached as nat,
                    opt_view(self.current_target),
                ));
                s
            },
        }
    }
}

} // verus!
