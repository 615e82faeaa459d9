//! What the remote-host layer computes: command results, a host of canned
//! answers for tests, and the registry of open sessions.
//!
//! Connecting, running commands and reading files are the caller's; the
//! registry is a value here, which the caller keeps behind a lock, and the
//! times it records are handed in.
use vstd::prelude::*;
use crate::parse::network::strings_view;
use crate::text::{contains, lines, lines_exec, string_from, string_of, to_chars, views};

verus! {

broadcast use vstd::slice::group_slice_axioms;

/// What a command printed and how it exited.
pub struct CommandOutput {
    pub stdout: String,
    pub stderr: String,
    pub exit_code: i32,
}

impl Clone for CommandOutput {
    fn clone(&self) -> (r: Self)
        ensures
            r.stdout@ == self.stdout@,
            r.stderr@ == self.stderr@,
            r.exit_code == self.exit_code,
    {
        CommandOutput {
            stdout: self.stdout.clone(),
            stderr: self.stderr.clone(),
            exit_code: self.exit_code,
        }
    }
}

/// The result of a command that could not be run: nothing printed, exit 1.
pub fn failed_output() -> (r: CommandOutput)
    ensures
        r.stdout@ == Seq::<char>::empty(),
        r.stderr@ == Seq::<char>::empty(),
        r.exit_code == 1,
{
    CommandOutput { stdout: String::new(), stderr: String::new(), exit_code: 1 }
}

/// The view of a command output: (stdout, stderr, exit code).
pub open spec fn output_view(o: CommandOutput) -> (Seq<char>, Seq<char>, int) {
    (o.stdout@, o.stderr@, o.exit_code as int)
}

/// A host that answers commands from canned responses, for tests.
pub struct MockHost {
    pub hostname: String,
    /// Patterns with their answers; a pattern occurs once.
    pub responses: Vec<(String, CommandOutput)>,
}

/// The patterns of a list of responses.
pub open spec fn patterns(rs: Seq<(String, CommandOutput)>) -> Seq<Seq<char>> {
    rs.map_values(|p: (String, CommandOutput)| p.0@)
}

/// The index of a pattern among the responses.
pub open spec fn pattern_index(rs: Seq<(String, CommandOutput)>, p: Seq<char>, i: int) -> Option<int>
    decreases rs.len() - i,
{
    if i < 0 || i >= rs.len() {
        None
    } else if rs[i].0@ == p {
        Some(i)
    } else {
        pattern_index(rs, p, i + 1)
    }
}

/// The first response, in the order added, whose pattern occurs in `cmd`.
pub open spec fn substring_index(rs: Seq<(String, CommandOutput)>, cmd: Seq<char>, i: int) -> Option<int>
    decreases rs.len() - i,
{
    if i < 0 || i >= rs.len() {
        None
    } else if contains(cmd, rs[i].0@) {
        Some(i)
    } else {
        substring_index(rs, cmd, i + 1)
    }
}

/// The response for a command: the one registered for exactly the
/// command, else the first whose pattern the command contains.
pub open spec fn response_index(rs: Seq<(String, CommandOutput)>, cmd: Seq<char>) -> Option<int> {
    match pattern_index(rs, cmd, 0) {
        Some(k) => Some(k),
        None => substring_index(rs, cmd, 0),
    }
}

/// What the responses of a mock host are, as patterns and outputs.
pub open spec fn responses_view(rs: Seq<(String, CommandOutput)>) -> Seq<(Seq<char>, (Seq<char>, Seq<char>, int))> {
    rs.map_values(|p: (String, CommandOutput)| (p.0@, output_view(p.1)))
}

/// The responses after one for `p` is set: it replaces an earlier one for
/// the same pattern, or is added at the end.
pub open spec fn set_response(
    rs: Seq<(Seq<char>, (Seq<char>, Seq<char>, int))>,
    p: Seq<char>,
    o: (Seq<char>, Seq<char>, int),
) -> Seq<(Seq<char>, (Seq<char>, Seq<char>, int))> {
    match first_key(rs, p, 0) {
        Some(k) => rs.update(k, (p, o)),
        None => rs.push((p, o)),
    }
}

/// The index of the first entry with key `p`.
pub open spec fn first_key(rs: Seq<(Seq<char>, (Seq<char>, Seq<char>, int))>, p: Seq<char>, i: int) -> Option<int>
    decreases rs.len() - i,
{
    if i < 0 || i >= rs.len() {
        None
    } else if rs[i].0 == p {
        Some(i)
    } else {
        first_key(rs, p, i + 1)
    }
}

/// Why a mock host could not answer.
#[derive(Debug, Clone, Copy, PartialEq, Eq, Structural)]
pub enum MockError {
    /// No response was configured for the command.
    NoResponse,
}

proof fn lemma_pattern_index_views(rs: Seq<(String, CommandOutput)>, p: Seq<char>, i: int)
    requires
        0 <= i,
    ensures
        pattern_index(rs, p, i) == first_key(responses_view(rs), p, i),
    decreases rs.len() - i,
{
    if i < rs.len() {
        lemma_pattern_index_views(rs, p, i + 1);
    }
}

impl MockHost {
    /// A host with no responses.
    pub fn new(hostname: &str) -> (r: MockHost)
        ensures
            r.hostname@ == hostname@,
            r.responses@.len() == 0,
    {
        MockHost { hostname: string_from(hostname), responses: Vec::new() }
    }

    fn find_pattern(&self, p: &str) -> (r: Option<usize>)
        ensures
            match r {
                Some(k) => pattern_index(self.responses@, p@, 0) == Some(k as int),
                None => pattern_index(self.responses@, p@, 0) is None,
            },
    {
        let pv = to_chars(p);
        let mut i: usize = 0;
        while i < self.responses.len()
            invariant
                i <= self.responses@.len(),
                pv@ == p@,
                pattern_index(self.responses@, p@, i as int) == pattern_index(
                    self.responses@,
                    p@,
                    0,
                ),
            decreases self.responses@.len() - i,
        {
            let k = to_chars(self.responses[i].0.as_str());
            if crate::text::chars_eq(k.as_slice(), pv.as_slice()) {
                return Some(i);
            }
            i = i + 1;
        }
        None
    }

    /// Add a canned response; the pattern is matched as a substring of the
    /// command. A response for the same pattern is replaced.
    pub fn add_response(&mut self, cmd_pattern: &str, output: CommandOutput)
        ensures
            final(self).hostname@ == old(self).hostname@,
            responses_view(final(self).responses@) == set_response(
                responses_view(old(self).responses@),
                cmd_pattern@,
                output_view(output),
            ),
    {
        proof {
            lemma_pattern_index_views(self.responses@, cmd_pattern@, 0);
            lemma_index_bounds(self.responses@, cmd_pattern@, 0);
        }
        let ghost before = self.responses@;
        match self.find_pattern(cmd_pattern) {
            Some(k) => {
                self.responses.set(k, (string_from(cmd_pattern), output));
                assert(responses_view(self.responses@) =~= responses_view(before).update(
                    k as int,
                    (cmd_pattern@, output_view(output)),
                ));
            },
            None => {
                self.responses.push((string_from(cmd_pattern), output));
                assert(responses_view(self.responses@) =~= responses_view(before).push(
                    (cmd_pattern@, output_view(output)),
                ));
            },
        }
    }

    /// Add a successful response with the given standard output.
    pub fn add_success(&mut self, cmd_pattern: &str, stdout: &str)
        ensures
            final(self).hostname@ == old(self).hostname@,
            responses_view(final(self).responses@) == set_response(
                responses_view(old(self).responses@),
                cmd_pattern@,
                (stdout@, Seq::<char>::empty(), 0),
            ),
    {
        let out = CommandOutput { stdout: string_from(stdout), stderr: String::new(), exit_code: 0 };
        self.add_response(cmd_pattern, out);
    }

    /// Add a failed response with the given error output and exit code.
    pub fn add_failure(&mut self, cmd_pattern: &str, stderr: &str, exit_code: i32)
        ensures
            final(self).hostname@ == old(self).hostname@,
            responses_view(final(self).responses@) == set_response(
                responses_view(old(self).responses@),
                cmd_pattern@,
                (Seq::<char>::empty(), stderr@, exit_code as int),
            ),
    {
        let out = CommandOutput { stdout: String::new(), stderr: string_from(stderr), exit_code };
        self.add_response(cmd_pattern, out);
    }

    /// The index of the response for a command.
    pub fn find_response(&self, cmd: &str) -> (r: Option<usize>)
        ensures
            match r {
                Some(k) => response_index(self.responses@, cmd@) == Some(k as int),
                None => response_index(self.responses@, cmd@) is None,
            },
    {
        if let Some(k) = self.find_pattern(cmd) {
            return Some(k);
        }
        let cv = to_chars(cmd);
        let mut i: usize = 0;
        while i < self.responses.len()
            invariant
                i <= self.responses@.len(),
                cv@ == cmd@,
                substring_index(self.responses@, cmd@, i as int) == substring_index(
                    self.responses@,
                    cmd@,
                    0,
                ),
                pattern_index(self.responses@, cmd@, 0) is None,
            decreases self.responses@.len() - i,
        {
            let p = to_chars(self.responses[i].0.as_str());
            if crate::text::contains_exec(cv.as_slice(), p.as_slice()) {
                return Some(i);
            }
            i = i + 1;
        }
        None
    }

    /// Run a command: the configured response, or an error when none
    /// matches.
    pub fn execute(&self, cmd: &str) -> (r: Result<CommandOutput, MockError>)
        ensures
            match response_index(self.responses@, cmd@) {
                Some(k) => r matches Ok(o) && output_view(o) == output_view(self.responses@[k].1),
                None => r == Err::<CommandOutput, MockError>(MockError::NoResponse),
            },
    {
        proof {
            if let Some(k) = pattern_index(self.responses@, cmd@, 0) {
                lemma_index_bounds(self.responses@, cmd@, 0);
            }
            if let Some(k) = substring_index(self.responses@, cmd@, 0) {
                lemma_substring_bounds(self.responses@, cmd@, 0);
            }
        }
        match self.find_response(cmd) {
            Some(k) => Ok(self.responses[k].1.clone()),
            None => Err(MockError::NoResponse),
        }
    }

    /// Run a command with its output streamed: the lines of the configured
    /// standard output and the exit code.
    pub fn execute_streaming(&self, cmd: &str) -> (r: Result<(Vec<String>, i32), MockError>)
        ensures
            match response_index(self.responses@, cmd@) {
                Some(k) => r matches Ok((ls, code)) && strings_view(ls@) == lines(
                    self.responses@[k].1.stdout@,
                ) && code == self.responses@[k].1.exit_code,
                None => r == Err::<(Vec<String>, i32), MockError>(MockError::NoResponse),
            },
    {
        proof {
            lemma_index_bounds(self.responses@, cmd@, 0);
            lemma_substring_bounds(self.responses@, cmd@, 0);
        }
        match self.execute(cmd) {
            Ok(o) => {
                let all = to_chars(o.stdout.as_str());
                let ls = lines_exec(all.as_slice());
                let mut out: Vec<String> = Vec::new();
                let mut i: usize = 0;
                while i < ls.len()
                    invariant
                        i <= ls@.len(),
                        strings_view(out@) == views(ls@).take(i as int),
                    decreases ls@.len() - i,
                {
                    let ghost before = out@;
                    let line = string_of(ls[i]);
                    out.push(line);
                    assert(strings_view(out@) =~= strings_view(before).push(ls@[i as int]@));
                    i = i + 1;
                    assert(strings_view(out@) =~= views(ls@).take(i as int));
                }
                assert(views(ls@).take(i as int) =~= views(ls@));
                Ok((out, o.exit_code))
            },
            Err(e) => Err(e),
        }
    }
}

proof fn lemma_index_bounds(rs: Seq<(String, CommandOutput)>, p: Seq<char>, i: int)
    requires
        0 <= i,
    ensures
        pattern_index(rs, p, i) matches Some(k) ==> i <= k < rs.len(),
    decreases rs.len() - i,
{
    if i < rs.len() && rs[i].0@ != p {
        lemma_index_bounds(rs, p, i + 1);
    }
}

proof fn lemma_substring_bounds(rs: Seq<(String, CommandOutput)>, cmd: Seq<char>, i: int)
    requires
        0 <= i,
    ensures
        substring_index(rs, cmd, i) matches Some(k) ==> i <= k < rs.len(),
    decreases rs.len() - i,
{
    if i < rs.len() && !contains(cmd, rs[i].0@) {
        lemma_substring_bounds(rs, cmd, i + 1);
    }
}


// --- Session registry ---

/// What the registry keeps of a session; times are in milliseconds.
pub struct SessionEntry {
    pub destination: String,
    pub label: String,
    pub ctl_path: String,
    pub log_path: String,
    pub connected_at: u64,
    pub command_count: u64,
    pub last_command: Option<String>,
    pub last_command_at: Option<u64>,
}

/// The mathematical value of a session entry.
pub struct SpecEntry {
    pub destination: Seq<char>,
    pub label: Seq<char>,
    pub ctl_path: Seq<char>,
    pub log_path: Seq<char>,
    pub connected_at: nat,
    pub command_count: nat,
    pub last_command: Option<Seq<char>>,
    pub last_command_at: Option<nat>,
}

/// The view of an entry.
pub open spec fn entry_view(e: SessionEntry) -> SpecEntry {
    SpecEntry {
        destination: e.destination@,
        label: e.label@,
        ctl_path: e.ctl_path@,
        log_path: e.log_path@,
        connected_at: e.connected_at as nat,
        command_count: e.command_count as nat,
        last_command: match e.last_command {
            Some(c) => Some(c@),
            None => None,
        },
        last_command_at: match e.last_command_at {
            Some(t) => Some(t as nat),
            None => None,
        },
    }
}

/// The open sessions, each id once.
pub struct SessionRegistry {
    pub sessions: Vec<(String, SessionEntry)>,
}

/// The registry as a list of (id, entry).
pub open spec fn registry_view(v: Seq<(String, SessionEntry)>) -> Seq<(Seq<char>, SpecEntry)> {
    v.map_values(|p: (String, SessionEntry)| (p.0@, entry_view(p.1)))
}

/// The index of a session id.
pub open spec fn id_index(v: Seq<(Seq<char>, SpecEntry)>, id: Seq<char>, i: int) -> Option<int>
    decreases v.len() - i,
{
    if i < 0 || i >= v.len() {
        None
    } else if v[i].0 == id {
        Some(i)
    } else {
        id_index(v, id, i + 1)
    }
}

/// Ids occur once.
pub open spec fn ids_unique(v: Seq<(Seq<char>, SpecEntry)>) -> bool {
    forall|a: int, b: int| 0 <= a < b < v.len() ==> (#[trigger] v[a]).0 != (#[trigger] v[b]).0
}

/// What the search for an id finds.
pub proof fn lemma_id_index(v: Seq<(Seq<char>, SpecEntry)>, id: Seq<char>, i: int)
    requires
        0 <= i,
    ensures
        match id_index(v, id, i) {
            Some(k) => i <= k < v.len() && v[k].0 == id,
            None => forall|j: int| i <= j < v.len() ==> (#[trigger] v[j]).0 != id,
        },
    decreases v.len() - i,
{
    if i < v.len() && v[i].0 != id {
        lemma_id_index(v, id, i + 1);
    }
}

/// Registering a session: it replaces the one with its id, or is added.
pub open spec fn spec_register(v: Seq<(Seq<char>, SpecEntry)>, id: Seq<char>, e: SpecEntry) -> Seq<(Seq<char>, SpecEntry)> {
    match id_index(v, id, 0) {
        Some(k) => v.update(k, (id, e)),
        None => v.push((id, e)),
    }
}

/// Unregistering a session: it is removed, if it was there.
pub open spec fn spec_unregister(v: Seq<(Seq<char>, SpecEntry)>, id: Seq<char>) -> Seq<(Seq<char>, SpecEntry)> {
    match id_index(v, id, 0) {
        Some(k) => v.remove(k),
        None => v,
    }
}

/// A fresh entry for a session connected at `now`.
pub open spec fn fresh_entry(destination: Seq<char>, ctl_path: Seq<char>, log_path: Seq<char>, now: nat) -> SpecEntry {
    SpecEntry {
        destination,
        label: Seq::<char>::empty(),
        ctl_path,
        log_path,
        connected_at: now,
        command_count: 0,
        last_command: None,
        last_command_at: None,
    }
}

/// A command as it is recorded: its first 80 characters.
pub open spec fn recorded_command(cmd: Seq<char>) -> Seq<char> {
    if cmd.len() <= 80 {
        cmd
    } else {
        cmd.take(80)
    }
}

/// A registered session, once unregistered, is gone, and the registry
/// keeps each id once throughout.
pub proof fn law_register_unregister(v: Seq<(Seq<char>, SpecEntry)>, id: Seq<char>, e: SpecEntry)
    requires
        ids_unique(v),
    ensures
        ids_unique(spec_register(v, id, e)),
        id_index(spec_register(v, id, e), id, 0) is Some,
        ids_unique(spec_unregister(spec_register(v, id, e), id)),
        id_index(spec_unregister(spec_register(v, id, e), id), id, 0) is None,
{
    lemma_id_index(v, id, 0);
    let v1 = spec_register(v, id, e);
    lemma_id_index(v1, id, 0);
    match id_index(v, id, 0) {
        Some(k) => {
            assert(v1[k].0 == id);
        },
        None => {
            assert(v1[v.len() as int].0 == id);
        },
    }
    let k1 = id_index(v1, id, 0)->0;
    let v2 = spec_unregister(v1, id);
    assert(v2 == v1.remove(k1));
    assert forall|j: int| 0 <= j < v2.len() implies (#[trigger] v2[j]).0 != id by {
        if j < k1 {
            assert(v2[j] == v1[j]);
        } else {
            assert(v2[j] == v1[j + 1]);
        }
    }
    lemma_id_index(v2, id, 0);
}

impl SessionRegistry {
    /// Ids occur once.
    pub open spec fn wf(&self) -> bool {
        ids_unique(registry_view(self.sessions@))
    }

    /// An empty registry.
    pub fn new() -> (r: SessionRegistry)
        ensures
            r.wf(),
            registry_view(r.sessions@) == Seq::<(Seq<char>, SpecEntry)>::empty(),
    {
        let r = SessionRegistry { sessions: Vec::new() };
        assert(registry_view(r.sessions@) =~= Seq::<(Seq<char>, SpecEntry)>::empty());
        r
    }

    fn position(&self, id: &str) -> (r: Option<usize>)
        ensures
            match r {
                Some(k) => id_index(registry_view(self.sessions@), id@, 0) == Some(k as int),
                None => id_index(registry_view(self.sessions@), id@, 0) is None,
            },
    {
        let iv = to_chars(id);
        let ghost rv = registry_view(self.sessions@);
        let mut i: usize = 0;
        while i < self.sessions.len()
            invariant
                i <= self.sessions@.len(),
                iv@ == id@,
                rv == registry_view(self.sessions@),
                id_index(rv, id@, i as int) == id_index(rv, id@, 0),
            decreases self.sessions@.len() - i,
        {
            let k = to_chars(self.sessions[i].0.as_str());
            if crate::text::chars_eq(k.as_slice(), iv.as_slice()) {
                return Some(i);
            }
            i = i + 1;
        }
        None
    }

    /// Register a session connected at `now`; it replaces one with the
    /// same id.
    pub fn register(&mut self, id: &str, destination: &str, ctl_path: String, log_path: String, now: u64)
        requires
            old(self).wf(),
        ensures
            final(self).wf(),
            registry_view(final(self).sessions@) == spec_register(
                registry_view(old(self).sessions@),
                id@,
                fresh_entry(destination@, ctl_path@, log_path@, now as nat),
            ),
    {
        let entry = SessionEntry {
            destination: string_from(destination),
            label: String::new(),
            ctl_path,
            log_path,
            connected_at: now,
            command_count: 0,
            last_command: None,
            last_command_at: None,
        };
        let ghost e = entry_view(entry);
        let ghost v0 = registry_view(self.sessions@);
        proof {
            lemma_id_index(v0, id@, 0);
        }
        match self.position(id) {
            Some(k) => {
                self.sessions.set(k, (string_from(id), entry));
                assert(registry_view(self.sessions@) =~= v0.update(k as int, (id@, e)));
            },
            None => {
                self.sessions.push((string_from(id), entry));
                assert(registry_view(self.sessions@) =~= v0.push((id@, e)));
            },
        }
        proof {
            let v1 = registry_view(self.sessions@);
            assert forall|a: int, b: int| 0 <= a < b < v1.len() implies (#[trigger] v1[a]).0 != (
            #[trigger] v1[b]).0 by {
                if b < v0.len() {
                    if a != id_index(v0, id@, 0)->0 && b != id_index(v0, id@, 0)->0 {
                        assert(v1[a] == v0[a] && v1[b] == v0[b]);
                    }
                }
            }
        }
    }

    /// Remove a session.
    pub fn unregister(&mut self, id: &str)
        requires
            old(self).wf(),
        ensures
            final(self).wf(),
            registry_view(final(self).sessions@) == spec_unregister(registry_view(old(self).sessions@), id@),
    {
        let ghost v0 = registry_view(self.sessions@);
        proof {
            lemma_id_index(v0, id@, 0);
        }
        if let Some(k) = self.position(id) {
            self.sessions.remove(k);
            let ghost v1 = registry_view(self.sessions@);
            assert(v1 =~= v0.remove(k as int));
            assert forall|a: int, b: int| 0 <= a < b < v1.len() implies (#[trigger] v1[a]).0 != (
            #[trigger] v1[b]).0 by {
                let a0 = if a < k {
                    a
                } else {
                    a + 1
                };
                let b0 = if b < k {
                    b
                } else {
                    b + 1
                };
                assert(v1[a] == v0[a0] && v1[b] == v0[b0]);
            }
        }
    }

    /// Set the label of a session, if it is registered.
    pub fn set_label(&mut self, id: &str, label: &str)
        requires
            old(self).wf(),
        ensures
            final(self).wf(),
            registry_view(final(self).sessions@) == match id_index(registry_view(old(self).sessions@), id@, 0) {
                Some(k) => registry_view(old(self).sessions@).update(
                    k,
                    (id@, SpecEntry { label: label@, ..registry_view(old(self).sessions@)[k].1 }),
                ),
                None => registry_view(old(self).sessions@),
            },
    {
        let ghost v0 = registry_view(self.sessions@);
        proof {
            lemma_id_index(v0, id@, 0);
        }
        if let Some(k) = self.position(id) {
            let (sid, mut entry) = self.sessions.remove(k);
            entry.label = string_from(label);
            self.sessions.insert(k, (sid, entry));
            let ghost v1 = registry_view(self.sessions@);
            assert(v1 =~= v0.update(k as int, (id@, SpecEntry { label: label@, ..v0[k as int].1 })));
            assert forall|a: int, b: int| 0 <= a < b < v1.len() implies (#[trigger] v1[a]).0 != (
            #[trigger] v1[b]).0 by {
                assert(v1[a].0 == v0[a].0 && v1[b].0 == v0[b].0);
            }
        }
    }

    /// Record that a command ran on a session at `now`: one more command,
    /// and the first 80 characters of this one.
    pub fn record_command(&mut self, id: &str, cmd: &str, now: u64)
        requires
            old(self).wf(),
            forall|j: int| 0 <= j < old(self).sessions@.len() ==> (#[trigger] old(self).sessions@[j]).1.command_count < u64::MAX,
        ensures
            final(self).wf(),
            registry_view(final(self).sessions@) == match id_index(registry_view(old(self).sessions@), id@, 0) {
                Some(k) => registry_view(old(self).sessions@).update(
                    k,
                    (
                        id@,
                        SpecEntry {
                            command_count: registry_view(old(self).sessions@)[k].1.command_count + 1,
                            last_command: Some(recorded_command(cmd@)),
                            last_command_at: Some(now as nat),
                            ..registry_view(old(self).sessions@)[k].1
                        },
                    ),
                ),
                None => registry_view(old(self).sessions@),
            },
    {
        let ghost v0 = registry_view(self.sessions@);
        proof {
            lemma_id_index(v0, id@, 0);
        }
        if let Some(k) = self.position(id) {
            let (sid, mut entry) = self.sessions.remove(k);
            assert(entry.command_count == old(self).sessions@[k as int].1.command_count);
            entry.command_count = entry.command_count + 1;
            let cv = to_chars(cmd);
            let n: usize = if cv.len() <= 80 {
                cv.len()
            } else {
                80
            };
            let short = string_of(vstd::slice::slice_subrange(cv.as_slice(), 0, n));
            assert(short@ =~= recorded_command(cmd@));
            entry.last_command = Some(short);
            entry.last_command_at = Some(now);
            self.sessions.insert(k, (sid, entry));
            let ghost v1 = registry_view(self.sessions@);
            assert(v1 =~= v0.update(
                k as int,
                (
                    id@,
                    SpecEntry {
                        command_count: v0[k as int].1.command_count + 1,
                        last_command: Some(recorded_command(cmd@)),
                        last_command_at: Some(now as nat),
                        ..v0[k as int].1
                    },
                ),
            ));
            assert forall|a: int, b: int| 0 <= a < b < v1.len() implies (#[trigger] v1[a]).0 != (
            #[trigger] v1[b]).0 by {
                assert(v1[a].0 == v0[a].0 && v1[b].0 == v0[b].0);
            }
        }
    }

    /// The ids and paths (control socket, log) of the sessions, in order,
    /// for the caller to probe.
    pub fn paths(&self) -> (r: Vec<(String, String, String)>)
        ensures
            r@.len() == self.sessions@.len(),
            forall|i: int|
                0 <= i < r@.len() ==> (#[trigger] r@[i]).0@ == self.sessions@[i].0@ && r@[i].1@
                    == self.sessions@[i].1.ctl_path@ && r@[i].2@ == self.sessions@[i].1.log_path@,
    {
        let mut out: Vec<(String, String, String)> = Vec::new();
        let mut i: usize = 0;
        while i < self.sessions.len()
            invariant
                i <= self.sessions@.len(),
                out@.len() == i,
                forall|j: int|
                    0 <= j < i ==> (#[trigger] out@[j]).0@ == self.sessions@[j].0@ && out@[j].1@
                        == self.sessions@[j].1.ctl_path@ && out@[j].2@
                        == self.sessions@[j].1.log_path@,
            decreases self.sessions@.len() - i,
        {
            let e = &self.sessions[i];
            let t = (e.0.clone(), e.1.ctl_path.clone(), e.1.log_path.clone());
            out.push(t);
            i = i + 1;
        }
        out
    }

    /// Snapshots of the sessions at `now`, in order; for the `i`-th session
    /// the caller says whether its control socket exists and, when it does
    /// not, hands the tail of its log.
    pub fn all(&self, now: u64, socket_exists: &Vec<bool>, log_tails: &Vec<Option<String>>) -> (r: Vec<SessionSnapshot>)
        requires
            socket_exists@.len() == self.sessions@.len(),
            log_tails@.len() == self.sessions@.len(),
        ensures
            r@.len() == self.sessions@.len(),
            forall|i: int| 0 <= i < r@.len() ==> snapshot_of(#[trigger] r@[i], self.sessions@[i], now as nat, socket_exists@[i], log_tails@[i]),
    {
        let mut out: Vec<SessionSnapshot> = Vec::new();
        let mut i: usize = 0;
        while i < self.sessions.len()
            invariant
                i <= self.sessions@.len(),
                socket_exists@.len() == self.sessions@.len(),
                log_tails@.len() == self.sessions@.len(),
                out@.len() == i,
                forall|j: int| 0 <= j < i ==> snapshot_of(#[trigger] out@[j], self.sessions@[j], now as nat, socket_exists@[j], log_tails@[j]),
            decreases self.sessions@.len() - i,
        {
            let e = &self.sessions[i].1;
            let exists = socket_exists[i];
            let tail = if exists {
                None
            } else {
                match &log_tails[i] {
                    Some(t) => Some(t.clone()),
                    None => None,
                }
            };
            let last_command = match &e.last_command {
                Some(c) => Some(c.clone()),
                None => None,
            };
            let snap = SessionSnapshot {
                id: self.sessions[i].0.clone(),
                destination: e.destination.clone(),
                label: e.label.clone(),
                ctl_path: e.ctl_path.clone(),
                log_path: e.log_path.clone(),
                socket_exists: exists,
                connected_at: e.connected_at,
                uptime: if now >= e.connected_at {
                    now - e.connected_at
                } else {
                    0
                },
                command_count: e.command_count,
                last_command,
                last_command_ago: match e.last_command_at {
                    Some(t) => Some(if now >= t {
                        now - t
                    } else {
                        0
                    }),
                    None => None,
                },
                master_log_tail: tail,
            };
            out.push(snap);
            i = i + 1;
        }
        out
    }
}

/// A point-in-time snapshot of a session; times in milliseconds.
pub struct SessionSnapshot {
    pub id: String,
    pub destination: String,
    pub label: String,
    pub ctl_path: String,
    pub log_path: String,
    pub socket_exists: bool,
    pub connected_at: u64,
    pub uptime: u64,
    pub command_count: u64,
    pub last_command: Option<String>,
    pub last_command_ago: Option<u64>,
    pub master_log_tail: Option<String>,
}

/// Time from `t` to `now`, zero if `now` is earlier (`Instant` saturates).
pub open spec fn since(now: nat, t: nat) -> nat {
    if now >= t {
        (now - t) as nat
    } else {
        0
    }
}

/// The snapshot of an entry at `now`: the log tail is kept only when the
/// control socket is gone.
pub open spec fn snapshot_of(
    s: SessionSnapshot,
    p: (String, SessionEntry),
    now: nat,
    socket_exists: bool,
    log_tail: Option<String>,
) -> bool {
    &&& s.id@ == p.0@
    &&& s.destination@ == p.1.destination@
    &&& s.label@ == p.1.label@
    &&& s.ctl_path@ == p.1.ctl_path@
    &&& s.log_path@ == p.1.log_path@
    &&& s.socket_exists == socket_exists
    &&& s.connected_at == p.1.connected_at
    &&& s.uptime == since(now, p.1.connected_at as nat)
    &&& s.command_count == p.1.command_count
    &&& crate::text::opt_view(s.last_command) == crate::text::opt_view(p.1.last_command)
    &&& s.last_command_ago == (match p.1.last_command_at {
        Some(t) => Some(since(now, t as nat) as u64),
        None => None,
    })
    &&& crate::text::opt_view(s.master_log_tail) == (if socket_exists {
        None
    } else {
        crate::text::opt_view(log_tail)
    })
}

/// The last `n` lines of a log, joined by newlines; nothing for a log with
/// no lines.
pub open spec fn spec_log_tail(content: Seq<char>, n: nat) -> Option<Seq<char>> {
    let t = crate::recover::last_lines(content, n);
    if t.len() == 0 {
        None
    } else {
        Some(crate::text::join(t, "\n"@))
    }
}

/// The tail of a session's master log, as shown when its socket is gone.
pub fn log_tail(content: &str, n: usize) -> (r: Option<String>)
    ensures
        crate::text::opt_view(r) == spec_log_tail(content@, n as nat),
{
    let t = crate::recover::tail_lines(content, n);
    if t.len() == 0 {
        None
    } else {
        let j = crate::text::join_exec(&t, "\n");
        assert(t@.map_values(|p: String| p@) =~= strings_view(t@));
        Some(j)
    }
}

} // verus!
