//! Progress of a `cargo build`, read from its output line by line.
//!
//! ```text
//!    Compiling serde v1.0.228
//!    Downloading crates ...
//!    Downloaded serde v1.0.228
//!     Finished `release` profile [optimized] target(s) in 5m 38s
//! ```
use vstd::prelude::*;
use crate::text::{
    chars_eq_str, decimal, opt_view, find_str, find_str_exec, lemma_find_str_from, lemma_splitn_len,
    push_str, push_u64, split_char, split_char_exec, split_whitespace, split_whitespace_exec,
    splitn_char, splitn_char_exec, starts_with, starts_with_str, string_from, string_of,
    strip_prefix, strip_prefix_str, to_chars, trim, trim_chars, views,
};

verus! {

broadcast use vstd::slice::group_slice_axioms;

/// Result of parsing a line of cargo output.
#[derive(Debug, Clone, PartialEq)]
pub enum CargoEvent {
    Compiling { crate_name: String, version: Option<String> },
    Downloading,
    Downloaded { crate_name: String },
    Finished { duration: String },
}

/// The mathematical value of a [`CargoEvent`].
pub enum SpecCargoEvent {
    Compiling { crate_name: Seq<char>, version: Option<Seq<char>> },
    Downloading,
    Downloaded { crate_name: Seq<char> },
    Finished { duration: Seq<char> },
}

impl View for CargoEvent {
    type V = SpecCargoEvent;

    open spec fn view(&self) -> SpecCargoEvent {
        match self {
            CargoEvent::Compiling { crate_name, version } => SpecCargoEvent::Compiling {
                crate_name: crate_name@,
                version: opt_view(*version),
            },
            CargoEvent::Downloading => SpecCargoEvent::Downloading,
            CargoEvent::Downloaded { crate_name } => SpecCargoEvent::Downloaded {
                crate_name: crate_name@,
            },
            CargoEvent::Finished { duration } => SpecCargoEvent::Finished { duration: duration@ },
        }
    }
}

/// The view of an optional event.
pub open spec fn opt_event_view(o: Option<CargoEvent>) -> Option<SpecCargoEvent> {
    match o {
        Some(e) => Some(e@),
        None => None,
    }
}

/// Index of the first character at or after `i` that is not `c`.
pub open spec fn skip_char_from(s: Seq<char>, c: char, i: int) -> int
    decreases s.len() - i,
{
    if 0 <= i < s.len() && s[i] == c {
        skip_char_from(s, c, i + 1)
    } else {
        i
    }
}

/// The version in `v1.0.228 (/path)`: leading `v`s dropped, then up to the
/// first space.
pub open spec fn version_of(v: Seq<char>) -> Seq<char> {
    let w = v.subrange(skip_char_from(v, 'v', 0), v.len() as int);
    split_char(w, ' ')[0]
}

/// What a line of cargo output says, if anything.
pub open spec fn spec_parse_cargo_line(line: Seq<char>) -> Option<SpecCargoEvent> {
    let t = trim(line);
    match strip_prefix(t, "Compiling "@) {
        Some(rest) => {
            let parts = splitn_char(rest, ' ', 2);
            Some(
                SpecCargoEvent::Compiling {
                    crate_name: parts[0],
                    version: if parts.len() > 1 {
                        Some(version_of(parts[1]))
                    } else {
                        None
                    },
                },
            )
        },
        None => if starts_with(t, "Downloading crates"@) || t == "Downloading"@ {
            Some(SpecCargoEvent::Downloading)
        } else {
            match strip_prefix(t, "Downloaded "@) {
                Some(rest) => {
                    let toks = split_whitespace(rest);
                    if toks.len() == 0 {
                        None
                    } else {
                        Some(SpecCargoEvent::Downloaded { crate_name: toks[0] })
                    }
                },
                None => match strip_prefix(t, "Finished "@) {
                    Some(rest) => match find_str(rest, " in "@) {
                        Some(i) => Some(
                            SpecCargoEvent::Finished { duration: rest.skip(i + " in "@.len()) },
                        ),
                        None => None,
                    },
                    None => None,
                },
            }
        },
    }
}

/// Try to parse a line of cargo build output.
pub fn parse_cargo_line(line: &str) -> (r: Option<CargoEvent>)
    ensures
        opt_event_view(r) == spec_parse_cargo_line(line@),
{
    let all = to_chars(line);
    let t = trim_chars(all.as_slice());
    if let Some(rest) = strip_prefix_str(t, "Compiling ") {
        let parts = splitn_char_exec(rest, ' ', 2);
        proof {
            lemma_splitn_len(rest@, ' ', 2);
        }
        assert(parts@[0]@ == views(parts@)[0]);
        let crate_name = string_of(parts[0]);
        let version = if parts.len() > 1 {
            assert(parts@[1]@ == views(parts@)[1]);
            let v = parts[1];
            let mut i: usize = 0;
            while i < v.len() && v[i] == 'v'
                invariant
                    i <= v@.len(),
                    skip_char_from(v@, 'v', 0) == skip_char_from(v@, 'v', i as int),
                decreases v@.len() - i,
            {
                i = i + 1;
            }
            let w = vstd::slice::slice_subrange(v, i, v.len());
            let pieces = split_char_exec(w, ' ');
            assert(pieces@[0]@ == views(pieces@)[0]);
            Some(string_of(pieces[0]))
        } else {
            None
        };
        return Some(CargoEvent::Compiling { crate_name, version });
    }
    if starts_with_str(t, "Downloading crates") || chars_eq_str(t, "Downloading") {
        return Some(CargoEvent::Downloading);
    }
    if let Some(rest) = strip_prefix_str(t, "Downloaded ") {
        let toks = split_whitespace_exec(rest);
        if toks.len() == 0 {
            return None;
        }
        assert(toks@[0]@ == views(toks@)[0]);
        return Some(CargoEvent::Downloaded { crate_name: string_of(toks[0]) });
    }
    if let Some(rest) = strip_prefix_str(t, "Finished ") {
        let pat = to_chars(" in ");
        if let Some(i) = find_str_exec(rest, pat.as_slice(), 0) {
            proof {
                lemma_find_str_from(rest@, pat@, 0);
                assert(rest@.len() == rest.len());
            }
            let d = vstd::slice::slice_subrange(rest, i + pat.len(), rest.len());
            assert(d@ =~= rest@.skip(i + pat@.len()));
            return Some(CargoEvent::Finished { duration: string_of(d) });
        }
    }
    None
}

/// Tracks cargo build progress across multiple lines.
#[derive(Debug)]
pub struct CargoTracker {
    pub compiled_count: u32,
    pub downloaded_count: u32,
    pub last_crate: Option<String>,
    pub finished: bool,
    pub finish_duration: Option<String>,
    /// Total crate count from `cargo tree` (for percentage display).
    pub estimated_total: Option<u32>,
}

impl Default for CargoTracker {
    /// A tracker that has seen nothing.
    fn default() -> (r: Self)
        ensures
            r@ == (SpecCargoTracker {
                compiled_count: 0,
                downloaded_count: 0,
                last_crate: None,
                finished: false,
                finish_duration: None,
                estimated_total: None,
            }),
    {
        CargoTracker {
            compiled_count: 0,
            downloaded_count: 0,
            last_crate: None,
            finished: false,
            finish_duration: None,
            estimated_total: None,
        }
    }
}

/// The mathematical value of a [`CargoTracker`].
pub struct SpecCargoTracker {
    pub compiled_count: nat,
    pub downloaded_count: nat,
    pub last_crate: Option<Seq<char>>,
    pub finished: bool,
    pub finish_duration: Option<Seq<char>>,
    pub estimated_total: Option<nat>,
}

impl View for CargoTracker {
    type V = SpecCargoTracker;

    open spec fn view(&self) -> SpecCargoTracker {
        SpecCargoTracker {
            compiled_count: self.compiled_count as nat,
            downloaded_count: self.downloaded_count as nat,
            last_crate: opt_view(self.last_crate),
            finished: self.finished,
            finish_duration: opt_view(self.finish_duration),
            estimated_total: match self.estimated_total {
                Some(t) => Some(t as nat),
                None => None,
            },
        }
    }
}

/// The tracker after one event.
pub open spec fn spec_cargo_update(t: SpecCargoTracker, e: SpecCargoEvent) -> SpecCargoTracker {
    match e {
        SpecCargoEvent::Compiling { crate_name, .. } => SpecCargoTracker {
            compiled_count: t.compiled_count + 1,
            last_crate: Some(crate_name),
            ..t
        },
        SpecCargoEvent::Downloaded { .. } => SpecCargoTracker {
            downloaded_count: t.downloaded_count + 1,
            ..t
        },
        SpecCargoEvent::Finished { duration } => SpecCargoTracker {
            finished: true,
            finish_duration: Some(duration),
            ..t
        },
        SpecCargoEvent::Downloading => t,
    }
}

/// Percentage of crates compiled out of the estimated total, at most 100,
/// in exact integer arithmetic (rounded down). Computed in single-precision
/// floating point, a ratio such as 53 of 100 would show one less (52%), as
/// 0.53 has no exact binary form; this count is the exact one.
pub open spec fn percent_of(done: nat, total: nat) -> nat {
    if total == 0 || done * 100 / total > 100 {
        100
    } else {
        done * 100 / total
    }
}

/// The one-line summary of a tracker.
pub open spec fn spec_cargo_summary(t: SpecCargoTracker) -> Seq<char> {
    if t.finished {
        match t.finish_duration {
            Some(d) => "Finished in "@ + d,
            None => "Finished"@,
        }
    } else {
        match t.last_crate {
            Some(name) => match t.estimated_total {
                Some(total) => "Compiling "@ + name + " ("@ + decimal(t.compiled_count) + "/"@
                    + decimal(total) + " \u{2014} "@ + decimal(
                    percent_of(t.compiled_count, total),
                ) + "%)"@,
                None => "Compiling "@ + name + " ("@ + decimal(t.compiled_count) + " crates)"@,
            },
            None => if t.downloaded_count > 0 {
                "Downloaded "@ + decimal(t.downloaded_count) + " crates"@
            } else {
                "Starting..."@
            },
        }
    }
}

impl CargoTracker {
    /// Account for one parsed event.
    pub fn update(&mut self, event: &CargoEvent)
        requires
            old(self).compiled_count < u32::MAX,
            old(self).downloaded_count < u32::MAX,
        ensures
            final(self)@ == spec_cargo_update(old(self)@, event@),
    {
        match event {
            CargoEvent::Compiling { crate_name, .. } => {
                self.compiled_count = self.compiled_count + 1;
                self.last_crate = Some(crate_name.clone());
            },
            CargoEvent::Downloaded { .. } => {
                self.downloaded_count = self.downloaded_count + 1;
            },
            CargoEvent::Finished { duration } => {
                self.finished = true;
                self.finish_duration = Some(duration.clone());
            },
            CargoEvent::Downloading => {},
        }
    }

    /// Record the total crate count used for the percentage.
    pub fn set_estimated_total(&mut self, total: u32)
        ensures
            final(self)@ == (SpecCargoTracker { estimated_total: Some(total as nat), ..old(self)@ }),
    {
        self.estimated_total = Some(total);
    }

    /// Format a summary of the current state.
    pub fn summary(&self) -> (s: String)
        ensures
            s@ == spec_cargo_summary(self@),
    {
        if self.finished {
            if let Some(dur) = &self.finish_duration {
                let mut s = string_from("Finished in ");
                push_str(&mut s, dur.as_str());
                return s;
            }
            return string_from("Finished");
        }
        if let Some(name) = &self.last_crate {
            let mut s = string_from("Compiling ");
            push_str(&mut s, name.as_str());
            push_str(&mut s, " (");
            push_u64(&mut s, self.compiled_count as u64);
            if let Some(total) = self.estimated_total {
                let pct: u64 = if total == 0 {
                    100
                } else {
                    let p = (self.compiled_count as u64) * 100 / (total as u64);
                    if p > 100 { 100 } else { p }
                };
                push_str(&mut s, "/");
                push_u64(&mut s, total as u64);
                push_str(&mut s, " \u{2014} ");
                push_u64(&mut s, pct);
                push_str(&mut s, "%)");
                assert(s@ =~= spec_cargo_summary(self@));
            } else {
                push_str(&mut s, " crates)");
                assert(s@ =~= spec_cargo_summary(self@));
            }
            s
        } else if self.downloaded_count > 0 {
            let mut s = string_from("Downloaded ");
            push_u64(&mut s, self.downloaded_count as u64);
            push_str(&mut s, " crates");
            assert(s@ =~= spec_cargo_summary(self@));
            s
        } else {
            string_from("Starting...")
        }
    }
}

} // verus!
