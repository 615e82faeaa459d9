//! Progress of `omicron-package package`, from its JSON log (`out/LOG`):
//!
//! ```json
//! {"msg":"propolis-server: verifying hash","package":"propolis-server"}
//! {"msg":"propolis-server: downloading prebuilt","package":"propolis-server"}
//! ```
use vstd::prelude::*;
use crate::text::{
    contains, contains_str, decimal, find_char, find_char_exec, find_str, find_str_exec,
    lemma_find_char_from, lemma_find_str_from, opt_view, push_str, push_u64, starts_with,
    starts_with_str, string_from, string_of, to_chars, trim, trim_chars,
};

verus! {

broadcast use vstd::slice::group_slice_axioms;

/// Parsed event from the omicron-package log.
#[derive(Debug, Clone, PartialEq)]
pub enum OmicronPkgEvent {
    Verifying { package: String },
    Downloading { package: String },
    Other { package: String, msg: String },
}

/// The mathematical value of an [`OmicronPkgEvent`].
pub enum SpecOmicronPkgEvent {
    Verifying { package: Seq<char> },
    Downloading { package: Seq<char> },
    Other { package: Seq<char>, msg: Seq<char> },
}

impl View for OmicronPkgEvent {
    type V = SpecOmicronPkgEvent;

    open spec fn view(&self) -> SpecOmicronPkgEvent {
        match self {
            OmicronPkgEvent::Verifying { package } => SpecOmicronPkgEvent::Verifying { package: package@ },
            OmicronPkgEvent::Downloading { package } => SpecOmicronPkgEvent::Downloading {
                package: package@,
            },
            OmicronPkgEvent::Other { package, msg } => SpecOmicronPkgEvent::Other {
                package: package@,
                msg: msg@,
            },
        }
    }
}

/// The view of an optional event.
pub open spec fn opt_pkg_view(o: Option<OmicronPkgEvent>) -> Option<SpecOmicronPkgEvent> {
    match o {
        Some(e) => Some(e@),
        None => None,
    }
}

/// The string value of `"key":"value"` in a JSON line: what follows the
/// first `"key":"` up to the next `"`.
pub open spec fn spec_extract_json_string(json: Seq<char>, key: Seq<char>) -> Option<Seq<char>> {
    let pattern = "\""@ + key + "\":\""@;
    match find_str(json, pattern) {
        None => None,
        Some(i) => {
            let rest = json.skip(i + pattern.len());
            match find_char(rest, '"') {
                None => None,
                Some(end) => Some(rest.take(end)),
            }
        },
    }
}

/// What a log line says, if it is JSON with a message and a package.
pub open spec fn spec_parse_omicron_pkg_line(line: Seq<char>) -> Option<SpecOmicronPkgEvent> {
    let t = trim(line);
    if !starts_with(t, "{"@) {
        None
    } else {
        match spec_extract_json_string(t, "msg"@) {
            None => None,
            Some(msg) => match spec_extract_json_string(t, "package"@) {
                None => None,
                Some(package) => if contains(msg, "verifying hash"@) {
                    Some(SpecOmicronPkgEvent::Verifying { package })
                } else if contains(msg, "downloading prebuilt"@) {
                    Some(SpecOmicronPkgEvent::Downloading { package })
                } else {
                    Some(SpecOmicronPkgEvent::Other { package, msg })
                },
            },
        }
    }
}

/// `"key":"`, which opens a string member.
pub open spec fn member_opening(key: Seq<char>) -> Seq<char> {
    "\""@ + key + "\":\""@
}

/// The string read for a key is the one written right after the first
/// `"key":"` of the line, up to the next quote, which it does not hold;
/// where the line has no `"key":"`, nothing is read.
pub proof fn law_json_string_in_place(json: Seq<char>, key: Seq<char>)
    ensures
        spec_extract_json_string(json, key) matches Some(v) ==> exists|i: int|
            #[trigger] crate::text::occurs_at(json, member_opening(key), i) && (forall|j: int| 0 <= j < i ==> !crate::text::occurs_at(json, member_opening(key), j))
                && i + member_opening(key).len() + v.len() < json.len()
                && json.subrange(i + member_opening(key).len(), i + member_opening(key).len() + v.len()) == v
                && json[i + member_opening(key).len() + v.len()] == '"'
                && (forall|m: int| 0 <= m < v.len() ==> v[m] != '"'),
        (forall|j: int| !crate::text::occurs_at(json, member_opening(key), j)) ==> spec_extract_json_string(json, key) is None,
{
    let pat = member_opening(key);
    assert(pat =~= "\""@ + key + "\":\""@);
    lemma_find_str_from(json, pat, 0);
    match find_str(json, pat) {
        None => {},
        Some(i) => {
            let rest = json.skip(i + pat.len());
            lemma_find_char_from(rest, '"', 0);
            match find_char(rest, '"') {
                None => {},
                Some(end) => {
                    let v = rest.take(end);
                    assert(json.subrange(i + pat.len(), i + pat.len() + v.len()) =~= v);
                    assert(json[i + pat.len() + v.len()] == rest[end]);
                    assert(crate::text::occurs_at(json, pat, i));
                },
            }
        },
    }
}

/// A log line is a JSON object.
pub open spec fn is_json_line(line: Seq<char>) -> bool {
    starts_with(trim(line), "{"@)
}

/// The `msg` string of a log line.
pub open spec fn log_msg(line: Seq<char>) -> Option<Seq<char>> {
    spec_extract_json_string(trim(line), "msg"@)
}

/// The `package` string of a log line.
pub open spec fn log_package(line: Seq<char>) -> Option<Seq<char>> {
    spec_extract_json_string(trim(line), "package"@)
}

/// What a JSON log line says, by its `msg`: a line whose message speaks
/// of `verifying hash` is a hash check of its package, one that speaks of
/// `downloading prebuilt` (and not of a hash check) a download, and any
/// other message is passed on with its package; a line without `msg` or
/// `package` says nothing.
pub proof fn law_pkg_line_by_message(line: Seq<char>)
    ensures
        !(is_json_line(line) && log_msg(line) is Some && log_package(line) is Some) ==> spec_parse_omicron_pkg_line(line) is None,
        (is_json_line(line) && log_msg(line) is Some && log_package(line) is Some) ==> spec_parse_omicron_pkg_line(line) is Some,
        spec_parse_omicron_pkg_line(line) matches Some(SpecOmicronPkgEvent::Verifying { package }) ==> (log_msg(line)
            matches Some(m) && contains(m, "verifying hash"@)) && log_package(line) == Some(package),
        spec_parse_omicron_pkg_line(line) matches Some(SpecOmicronPkgEvent::Downloading { package }) ==> (log_msg(line)
            matches Some(m) && !contains(m, "verifying hash"@) && contains(m, "downloading prebuilt"@)) && log_package(line)
            == Some(package),
        spec_parse_omicron_pkg_line(line) matches Some(SpecOmicronPkgEvent::Other { package, msg }) ==> log_msg(line)
            == Some(msg) && !contains(msg, "verifying hash"@) && !contains(msg, "downloading prebuilt"@) && log_package(line)
            == Some(package),
        (is_json_line(line) && log_package(line) is Some && (log_msg(line) matches Some(m) && !contains(m, "verifying hash"@)
            && !contains(m, "downloading prebuilt"@))) ==> spec_parse_omicron_pkg_line(line) == Some(
            SpecOmicronPkgEvent::Other { package: log_package(line)->0, msg: log_msg(line)->0 },
        ),
        (is_json_line(line) && log_package(line) is Some && (log_msg(line) matches Some(m) && contains(m, "verifying hash"@)))
            ==> spec_parse_omicron_pkg_line(line) == Some(SpecOmicronPkgEvent::Verifying { package: log_package(line)->0 }),
{
}

/// The string value of a key in a JSON line.
pub fn extract_json_string(json: &[char], key: &str) -> (r: Option<String>)
    ensures
        opt_view(r) == spec_extract_json_string(json@, key@),
{
    let mut pattern: Vec<char> = Vec::new();
    pattern.push('"');
    let kv = to_chars(key);
    let mut i: usize = 0;
    while i < kv.len()
        invariant
            i <= kv@.len(),
            pattern@ == seq!['"'] + kv@.take(i as int),
        decreases kv@.len() - i,
    {
        pattern.push(kv[i]);
        i = i + 1;
        assert(kv@.take(i as int) =~= kv@.take(i - 1).push(kv@[i - 1]));
    }
    pattern.push('"');
    pattern.push(':');
    pattern.push('"');
    assert(pattern@ =~= "\""@ + key@ + "\":\""@) by {
        reveal_strlit("\"");
        reveal_strlit("\":\"");
        assert(kv@.take(kv@.len() as int) =~= kv@);
    }
    match find_str_exec(json, pattern.as_slice(), 0) {
        None => None,
        Some(start) => {
            proof {
                lemma_find_str_from(json@, pattern@, 0);
                assert(json@.len() == json.len());
            }
            let rest = vstd::slice::slice_subrange(json, start + pattern.len(), json.len());
            assert(rest@ =~= json@.skip(start + pattern@.len()));
            match find_char_exec(rest, '"', 0) {
                None => None,
                Some(end) => {
                    proof {
                        lemma_find_char_from(rest@, '"', 0);
                    }
                    let v = vstd::slice::slice_subrange(rest, 0, end);
                    assert(v@ =~= rest@.take(end as int));
                    Some(string_of(v))
                },
            }
        },
    }
}

/// Try to parse a JSON log line from omicron-package.
pub fn parse_omicron_pkg_line(line: &str) -> (r: Option<OmicronPkgEvent>)
    ensures
        opt_pkg_view(r) == spec_parse_omicron_pkg_line(line@),
{
    let all = to_chars(line);
    let t = trim_chars(all.as_slice());
    if !starts_with_str(t, "{") {
        return None;
    }
    let msg = match extract_json_string(t, "msg") {
        Some(m) => m,
        None => {
            return None;
        },
    };
    let package = match extract_json_string(t, "package") {
        Some(p) => p,
        None => {
            return None;
        },
    };
    let mv = to_chars(msg.as_str());
    if contains_str(mv.as_slice(), "verifying hash") {
        Some(OmicronPkgEvent::Verifying { package })
    } else if contains_str(mv.as_slice(), "downloading prebuilt") {
        Some(OmicronPkgEvent::Downloading { package })
    } else {
        Some(OmicronPkgEvent::Other { package, msg })
    }
}

/// Tracks omicron-package packaging progress.
#[derive(Debug)]
pub struct OmicronPkgTracker {
    pub packages_seen: u32,
    pub downloading: u32,
    pub current_package: Option<String>,
}

impl Default for OmicronPkgTracker {
    /// A tracker that has seen nothing.
    fn default() -> (r: Self)
        ensures
            r.packages_seen == 0,
            r.downloading == 0,
            r.current_package is None,
    {
        OmicronPkgTracker { packages_seen: 0, downloading: 0, current_package: None }
    }
}

/// One-line summary of a tracker.
pub open spec fn spec_pkg_summary(seen: nat, downloading: nat, current: Option<Seq<char>>) -> Seq<char> {
    match current {
        Some(pkg) => if downloading > 0 {
            "Packaging: "@ + pkg + " ("@ + decimal(downloading) + " downloaded)"@
        } else {
            "Packaging: "@ + pkg + " ("@ + decimal(seen) + " verified)"@
        },
        None => "Packaging components..."@,
    }
}

/// The value of a tracker: packages seen, downloads, current package.
pub open spec fn pkg_tracker_view(t: OmicronPkgTracker) -> (nat, nat, Option<Seq<char>>) {
    (t.packages_seen as nat, t.downloading as nat, opt_view(t.current_package))
}

/// A tracker after one event: the event's package becomes current; a hash
/// check counts as seen, a download as downloading.
pub open spec fn spec_pkg_update(t: (nat, nat, Option<Seq<char>>), e: SpecOmicronPkgEvent) -> (nat, nat, Option<Seq<char>>) {
    match e {
        SpecOmicronPkgEvent::Verifying { package } => (t.0 + 1, t.1, Some(package)),
        SpecOmicronPkgEvent::Downloading { package } => (t.0, t.1 + 1, Some(package)),
        SpecOmicronPkgEvent::Other { package, .. } => (t.0, t.1, Some(package)),
    }
}

impl OmicronPkgTracker {
    /// Account for one event: every event makes its package current; a hash
    /// check counts as seen, a download as downloading.
    pub fn update(&mut self, event: &OmicronPkgEvent)
        requires
            old(self).packages_seen < u32::MAX,
            old(self).downloading < u32::MAX,
        ensures
            pkg_tracker_view(*final(self)) == spec_pkg_update(pkg_tracker_view(*old(self)), event@),
            match event@ {
                SpecOmicronPkgEvent::Verifying { package } => final(self).packages_seen
                    == old(self).packages_seen + 1 && final(self).downloading == old(self).downloading
                    && opt_view(final(self).current_package) == Some(package),
                SpecOmicronPkgEvent::Downloading { package } => final(self).packages_seen
                    == old(self).packages_seen && final(self).downloading == old(self).downloading + 1
                    && opt_view(final(self).current_package) == Some(package),
                SpecOmicronPkgEvent::Other { package, .. } => final(self).packages_seen
                    == old(self).packages_seen && final(self).downloading == old(self).downloading
                    && opt_view(final(self).current_package) == Some(package),
            },
    {
        match event {
            OmicronPkgEvent::Verifying { package } => {
                self.packages_seen = self.packages_seen + 1;
                self.current_package = Some(package.clone());
            },
            OmicronPkgEvent::Downloading { package } => {
                self.downloading = self.downloading + 1;
                self.current_package = Some(package.clone());
            },
            OmicronPkgEvent::Other { package, .. } => {
                self.current_package = Some(package.clone());
            },
        }
    }

    /// Format a summary of the current state.
    pub fn summary(&self) -> (s: String)
        ensures
            s@ == spec_pkg_summary(
                self.packages_seen as nat,
                self.downloading as nat,
                opt_view(self.current_package),
            ),
    {
        match &self.current_package {
            Some(pkg) => {
                let mut s = string_from("Packaging: ");
                push_str(&mut s, pkg.as_str());
                push_str(&mut s, " (");
                if self.downloading > 0 {
                    push_u64(&mut s, self.downloading as u64);
                    push_str(&mut s, " downloaded)");
                } else {
                    push_u64(&mut s, self.packages_seen as u64);
                    push_str(&mut s, " verified)");
                }
                assert(s@ =~= spec_pkg_summary(
                    self.packages_seen as nat,
                    self.downloading as nat,
                    opt_view(self.current_package),
                ));
                s
            },
            None => string_from("Packaging components..."),
        }
    }
}

} // verus!
