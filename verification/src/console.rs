//! Cleaning of text read from a serial console or a streamed command:
//! removal of terminal control sequences and carriage returns, and the
//! recognition of lines that are noise to an operator, and what a logged
//! command session writes to its build log and shows as step detail.
use vstd::prelude::*;
use crate::text::{decimal, opt_view, push_i64, push_str, signed_decimal, starts_with, starts_with_str, string_from, string_of, to_chars, push_char, trim, trim_chars};

verus! {

broadcast use vstd::slice::group_slice_axioms;

/// The escape character that starts a terminal control sequence.
pub open spec fn esc() -> char {
    '\x1b'
}

/// A final byte of a control sequence (`@` to `~`).
pub open spec fn is_final_byte(c: char) -> bool {
    0x40 <= (c as u32) && (c as u32) <= 0x7e
}

/// The index just past a control sequence whose parameters start at `j`:
/// one past the first final byte at or after `j`, or the end of the text.
pub open spec fn csi_end(s: Seq<char>, j: int) -> int
    decreases s.len() - j,
{
    if j < 0 || j >= s.len() {
        s.len() as int
    } else if is_final_byte(s[j]) {
        j + 1
    } else {
        csi_end(s, j + 1)
    }
}

/// The text from index `i` on, with each `ESC [ ... final` sequence and
/// each carriage return removed; an escape not followed by `[` is dropped
/// alone.
pub open spec fn strip_from(s: Seq<char>, i: int) -> Seq<char>
    decreases s.len() - i,
{
    if i < 0 || i >= s.len() {
        seq![]
    } else if s[i] == esc() {
        if i + 1 < s.len() && s[i + 1] == '[' {
            proof {
                lemma_csi_end_bounds(s, i + 2);
            }
            strip_from(s, csi_end(s, i + 2))
        } else {
            strip_from(s, i + 1)
        }
    } else if s[i] == '\r' {
        strip_from(s, i + 1)
    } else {
        seq![s[i]] + strip_from(s, i + 1)
    }
}

/// A control sequence ends after its start and no later than the text.
pub proof fn lemma_csi_end_bounds(s: Seq<char>, j: int)
    requires
        0 <= j <= s.len(),
    ensures
        j <= csi_end(s, j) <= s.len(),
        j < s.len() ==> j < csi_end(s, j),
    decreases s.len() - j,
{
    if j < s.len() && !is_final_byte(s[j]) {
        lemma_csi_end_bounds(s, j + 1);
    }
}

/// The whole text with control sequences and carriage returns removed.
pub open spec fn strip_ansi(s: Seq<char>) -> Seq<char> {
    strip_from(s, 0)
}

/// What is left from any index holds neither an escape nor a carriage
/// return.
pub proof fn lemma_strip_from_clean(s: Seq<char>, i: int)
    ensures
        forall|k: int|
            0 <= k < strip_from(s, i).len() ==> strip_from(s, i)[k] != esc() && strip_from(
                s,
                i,
            )[k] != '\r',
    decreases s.len() - i,
{
    if i < 0 || i >= s.len() {
    } else if s[i] == esc() {
        if i + 1 < s.len() && s[i + 1] == '[' {
            lemma_csi_end_bounds(s, i + 2);
            assert(strip_from(s, i) == strip_from(s, csi_end(s, i + 2)));
            lemma_strip_from_clean(s, csi_end(s, i + 2));
        } else {
            lemma_strip_from_clean(s, i + 1);
            assert(strip_from(s, i) == strip_from(s, i + 1));
        }
    } else if s[i] == '\r' {
        lemma_strip_from_clean(s, i + 1);
        assert(strip_from(s, i) == strip_from(s, i + 1));
    } else {
        lemma_strip_from_clean(s, i + 1);
        let r = strip_from(s, i + 1);
        let t = strip_from(s, i);
        assert(t == seq![s[i]] + r);
        assert forall|k: int| 0 <= k < t.len() implies t[k] != esc() && t[k] != '\r' by {
            if k > 0 {
                assert(t[k] == r[k - 1]);
            }
        }
    }
}

/// Text without escapes or carriage returns is left as it is, from any
/// index.
pub proof fn lemma_strip_from_identity(s: Seq<char>, i: int)
    requires
        0 <= i <= s.len(),
        forall|k: int| 0 <= k < s.len() ==> s[k] != esc() && s[k] != '\r',
    ensures
        strip_from(s, i) == s.skip(i),
    decreases s.len() - i,
{
    if i < s.len() {
        lemma_strip_from_identity(s, i + 1);
        assert(s.skip(i) =~= seq![s[i]] + s.skip(i + 1));
    } else {
        assert(s.skip(i) =~= seq![]);
    }
}

/// Stripping removes every escape and every carriage return, and
/// stripping twice is stripping once.
pub proof fn law_strip_ansi_clean_and_idempotent(s: Seq<char>)
    ensures
        forall|k: int|
            0 <= k < strip_ansi(s).len() ==> strip_ansi(s)[k] != esc() && strip_ansi(s)[k]
                != '\r',
        strip_ansi(strip_ansi(s)) == strip_ansi(s),
{
    lemma_strip_from_clean(s, 0);
    let t = strip_ansi(s);
    lemma_strip_from_identity(t, 0);
    assert(t.skip(0) =~= t);
}

/// Strip ANSI escape sequences and carriage returns from a line.
pub fn strip_ansi_and_cr(s: &str) -> (r: String)
    ensures
        r@ == strip_ansi(s@),
{
    let v = to_chars(s);
    let n = v.len();
    let mut out = String::new();
    let mut i: usize = 0;
    while i < n
        invariant
            n == v@.len(),
            v@ == s@,
            i <= n,
            out@ + strip_from(v@, i as int) == strip_ansi(v@),
        decreases n - i,
    {
        let c = v[i];
        if c == '\x1b' {
            if i + 1 < n && v[i + 1] == '[' {
                let mut j: usize = i + 2;
                proof {
                    lemma_csi_end_bounds(v@, j as int);
                }
                while j < n && !(0x40 <= (v[j] as u32) && (v[j] as u32) <= 0x7e)
                    invariant
                        n == v@.len(),
                        i + 2 <= j <= n,
                        csi_end(v@, j as int) == csi_end(v@, i + 2),
                    decreases n - j,
                {
                    j = j + 1;
                }
                if j < n {
                    j = j + 1;
                }
                proof {
                    lemma_csi_end_bounds(v@, i + 2);
                }
                assert(j as int == csi_end(v@, i + 2));
                assert(strip_from(v@, i as int) == strip_from(v@, j as int));
                i = j;
            } else {
                i = i + 1;
            }
        } else if c == '\r' {
            i = i + 1;
        } else {
            proof {
                assert(strip_from(v@, i as int) == seq![c] + strip_from(v@, i + 1));
            }
            push_char(&mut out, c);
            i = i + 1;
            assert(out@ + strip_from(v@, i as int) =~= strip_ansi(v@));
        }
    }
    out
}

/// Line beginnings that mark a streamed line as noise: SSH host-key
/// warnings and the shell's trace of environment setup.
pub open spec fn noise_prefixes() -> Seq<Seq<char>> {
    seq![
        "Warning: Permanently added"@,
        "++ export PATH="@,
        "++ PATH="@,
        "++ set +o xtrace"@,
        "++ unset "@,
        "++ case "@,
        "++++ dirname "@,
        "+++ readlink "@,
        "++ OMICRON_WS="@,
    ]
}

/// A line is noise when it starts with one of the noise prefixes.
pub open spec fn spec_is_noise(line: Seq<char>) -> bool {
    exists|k: int| 0 <= k < noise_prefixes().len() && starts_with(line, #[trigger] noise_prefixes()[k])
}

/// Whether a streamed output line is noise that is logged but not shown.
pub fn is_noise_line(line: &str) -> (r: bool)
    ensures
        r == spec_is_noise(line@),
{
    let l = to_chars(line);
    let s = l.as_slice();
    let ghost np = noise_prefixes();
    if starts_with_str(s, "Warning: Permanently added") {
        assert(starts_with(line@, np[0]));
        return true;
    }
    if starts_with_str(s, "++ export PATH=") {
        assert(starts_with(line@, np[1]));
        return true;
    }
    if starts_with_str(s, "++ PATH=") {
        assert(starts_with(line@, np[2]));
        return true;
    }
    if starts_with_str(s, "++ set +o xtrace") {
        assert(starts_with(line@, np[3]));
        return true;
    }
    if starts_with_str(s, "++ unset ") {
        assert(starts_with(line@, np[4]));
        return true;
    }
    if starts_with_str(s, "++ case ") {
        assert(starts_with(line@, np[5]));
        return true;
    }
    if starts_with_str(s, "++++ dirname ") {
        assert(starts_with(line@, np[6]));
        return true;
    }
    if starts_with_str(s, "+++ readlink ") {
        assert(starts_with(line@, np[7]));
        return true;
    }
    if starts_with_str(s, "++ OMICRON_WS=") {
        assert(starts_with(line@, np[8]));
        return true;
    }
    assert forall|k: int| 0 <= k < np.len() implies !starts_with(line@, #[trigger] np[k]) by {
        if k == 0 {} else if k == 1 {} else if k == 2 {} else if k == 3 {} else if k == 4 {} else if k == 5 {} else if k == 6 {} else if k == 7 {} else if k == 8 {}
    }
    false
}

/// What a streamed output line shows in the step's detail: the trimmed
/// line, unless it is empty or noise.
pub fn shown_detail(line: &str) -> (r: Option<String>)
    ensures
        (trim(line@).len() == 0 || spec_is_noise(trim(line@))) ==> r is None,
        !(trim(line@).len() == 0 || spec_is_noise(trim(line@))) ==> opt_view(r) == Some(trim(line@)),
{
    let v = to_chars(line);
    let t = string_of(trim_chars(v.as_slice()));
    if t.as_str().is_empty() || is_noise_line(t.as_str()) {
        None
    } else {
        Some(t)
    }
}

/// The environment that sends downloads through the caching proxy and
/// trusts its certificate; local addresses go direct.
pub open spec fn spec_proxy_env(proxy: Seq<char>, ca: Seq<char>) -> Seq<char> {
    "https_proxy="@ + proxy + " HTTPS_PROXY="@ + proxy + " SSL_CERT_FILE="@ + ca
        + " REQUESTS_CA_BUNDLE="@ + ca + " no_proxy=localhost,127.0.0.1 NO_PROXY=localhost,127.0.0.1"@
}

/// The proxy environment of a session.
pub fn proxy_env(proxy_url: &str, ca_cert_path: &str) -> (r: String)
    ensures
        r@ == spec_proxy_env(proxy_url@, ca_cert_path@),
{
    let mut s = string_from("https_proxy=");
    push_str(&mut s, proxy_url);
    push_str(&mut s, " HTTPS_PROXY=");
    push_str(&mut s, proxy_url);
    push_str(&mut s, " SSL_CERT_FILE=");
    push_str(&mut s, ca_cert_path);
    push_str(&mut s, " REQUESTS_CA_BUNDLE=");
    push_str(&mut s, ca_cert_path);
    push_str(&mut s, " no_proxy=localhost,127.0.0.1 NO_PROXY=localhost,127.0.0.1");
    s
}

/// A command run with the session's proxy environment, if it has one.
pub fn with_proxy(env: &Option<String>, cmd: &str) -> (r: String)
    ensures
        r@ == match opt_view(*env) {
            Some(e) => e + " "@ + cmd@,
            None => cmd@,
        },
{
    match env {
        Some(e) => {
            let mut s = string_from(e.as_str());
            push_str(&mut s, " ");
            push_str(&mut s, cmd);
            s
        },
        None => string_from(cmd),
    }
}

/// The failure of a checked command: `Command failed (exit <code>):
/// <trimmed stderr>`.
pub fn check_failure(code: i32, stderr: &str) -> (r: String)
    ensures
        r@ == "Command failed (exit "@ + signed_decimal(code as int) + "): "@ + trim(stderr@),
{
    let mut s = string_from("Command failed (exit ");
    push_i64(&mut s, code as i64);
    push_str(&mut s, "): ");
    let v = to_chars(stderr);
    let t = string_of(trim_chars(v.as_slice()));
    push_str(&mut s, t.as_str());
    s
}

/// The failure of a checked streaming command.
pub fn streaming_failure(code: i32) -> (r: String)
    ensures
        r@ == "Command failed with exit code "@ + signed_decimal(code as int),
{
    let mut s = string_from("Command failed with exit code ");
    push_i64(&mut s, code as i64);
    s
}

/// A line of the build log, with what it records: the command (`>>> `),
/// an output line (indented), an error line (`ERR `), the exit code, or a
/// failure (`!!! FAILED: `).
pub enum LogEntry {
    Command(String),
    StreamingCommand(String),
    Output(String),
    ErrorOutput(String),
    ExitCode(i32),
    Failed(String),
}

/// How a build log entry reads, before its timestamp is added.
pub open spec fn spec_log_text(e: LogEntry) -> Seq<char> {
    match e {
        LogEntry::Command(c) => ">>> "@ + c@,
        LogEntry::StreamingCommand(c) => ">>> "@ + c@ + " (streaming)"@,
        LogEntry::Output(l) => "    "@ + l@,
        LogEntry::ErrorOutput(l) => "ERR "@ + l@,
        LogEntry::ExitCode(c) => "--- exit_code="@ + signed_decimal(c as int),
        LogEntry::Failed(m) => "!!! FAILED: "@ + m@,
    }
}

/// Write a build log entry.
pub fn log_text(e: &LogEntry) -> (r: String)
    ensures
        r@ == spec_log_text(*e),
{
    match e {
        LogEntry::Command(c) => {
            let mut s = string_from(">>> ");
            push_str(&mut s, c.as_str());
            s
        },
        LogEntry::StreamingCommand(c) => {
            let mut s = string_from(">>> ");
            push_str(&mut s, c.as_str());
            push_str(&mut s, " (streaming)");
            s
        },
        LogEntry::Output(l) => {
            let mut s = string_from("    ");
            push_str(&mut s, l.as_str());
            s
        },
        LogEntry::ErrorOutput(l) => {
            let mut s = string_from("ERR ");
            push_str(&mut s, l.as_str());
            s
        },
        LogEntry::ExitCode(c) => {
            let mut s = string_from("--- exit_code=");
            push_i64(&mut s, *c as i64);
            s
        },
        LogEntry::Failed(m) => {
            let mut s = string_from("!!! FAILED: ");
            push_str(&mut s, m.as_str());
            s
        },
    }
}

/// The cleaned lines worth passing on: each cleaned, the empty ones dropped.
pub open spec fn clean_lines(ls: Seq<Seq<char>>) -> Seq<Seq<char>>
    decreases ls.len(),
{
    if ls.len() == 0 {
        seq![]
    } else {
        let rest = clean_lines(ls.drop_last());
        if strip_ansi(ls.last()).len() == 0 {
            rest
        } else {
            rest.push(strip_ansi(ls.last()))
        }
    }
}

/// Splits what a serial console sends into lines: complete lines go on
/// cleaned (empty ones dropped); the text after the last newline waits for
/// more, or for a flush after a quiet spell (prompts end without one).
pub struct LineSplitter {
    pub partial: String,
}

impl LineSplitter {
    /// Nothing waiting.
    pub fn new() -> (r: LineSplitter)
        ensures
            r.partial@ == Seq::<char>::empty(),
    {
        LineSplitter { partial: String::new() }
    }

    /// Take a chunk; the complete lines come out.
    pub fn feed(&mut self, chunk: &str) -> (r: Vec<String>)
        ensures
            crate::parse::network::strings_view(r@) == clean_lines(
                crate::text::split_char(old(self).partial@ + chunk@, '\n').drop_last(),
            ),
            final(self).partial@ == crate::text::split_char(old(self).partial@ + chunk@, '\n').last(),
    {
        let mut all = string_from(self.partial.as_str());
        push_str(&mut all, chunk);
        let v = to_chars(all.as_str());
        let pieces = crate::text::split_char_exec(v.as_slice(), '\n');
        let ghost pv = crate::text::views(pieces@);
        let n = pieces.len();
        let mut out: Vec<String> = Vec::new();
        let mut i: usize = 0;
        while i + 1 < n
            invariant
                n == pieces@.len(),
                n >= 1,
                i + 1 <= n,
                pv == crate::text::views(pieces@),
                crate::parse::network::strings_view(out@) == clean_lines(pv.take(i as int)),
            decreases n - i,
        {
            assert(pv.take(i + 1).drop_last() =~= pv.take(i as int));
            assert(pv.take(i + 1).last() == pieces@[i as int]@);
            let line = string_of(pieces[i]);
            let clean = strip_ansi_and_cr(line.as_str());
            if !clean.as_str().is_empty() {
                let ghost cv = clean@;
                out.push(clean);
                assert(crate::parse::network::strings_view(out@) =~= clean_lines(pv.take(i as int)).push(cv));
            }
            i = i + 1;
        }
        assert(pv.take(i as int) =~= pv.drop_last());
        assert(pv.last() == pieces@[n - 1]@);
        self.partial = string_of(pieces[n - 1]);
        out
    }

    /// After a quiet spell, or at the end: the waiting text, cleaned, if
    /// anything is left of it.
    pub fn flush(&mut self) -> (r: Option<String>)
        ensures
            final(self).partial@ == Seq::<char>::empty(),
            strip_ansi(old(self).partial@).len() == 0 ==> r is None,
            strip_ansi(old(self).partial@).len() > 0 ==> opt_view(r) == Some(strip_ansi(old(self).partial@)),
    {
        let clean = strip_ansi_and_cr(self.partial.as_str());
        self.partial = String::new();
        if clean.as_str().is_empty() {
            None
        } else {
            Some(clean)
        }
    }
}

/// Cleaning the lines of two stretches one after the other cleans the
/// lines of both.
pub proof fn lemma_clean_lines_concat(a: Seq<Seq<char>>, b: Seq<Seq<char>>)
    ensures
        clean_lines(a + b) == clean_lines(a) + clean_lines(b),
    decreases b.len(),
{
    if b.len() == 0 {
        assert(a + b =~= a);
        assert(clean_lines(a) + clean_lines(b) =~= clean_lines(a));
    } else {
        lemma_clean_lines_concat(a, b.drop_last());
        assert((a + b).drop_last() =~= a + b.drop_last());
        assert((a + b).last() == b.last());
        if strip_ansi(b.last()).len() != 0 {
            assert(clean_lines(a) + clean_lines(b.drop_last()).push(strip_ansi(b.last())) =~= (
            clean_lines(a) + clean_lines(b.drop_last())).push(strip_ansi(b.last())));
        }
    }
}

/// A serial console's text may arrive in any chunks: feeding two chunks
/// one after the other passes on the same lines, and leaves the same text
/// waiting, as feeding them at once.
pub proof fn law_feed_in_chunks(partial: Seq<char>, a: Seq<char>, b: Seq<char>)
    ensures
        ({
            let first = crate::text::split_char(partial + a, '\n');
            let second = crate::text::split_char(first.last() + b, '\n');
            let whole = crate::text::split_char(partial + a + b, '\n');
            &&& clean_lines(first.drop_last()) + clean_lines(second.drop_last()) == clean_lines(
                whole.drop_last(),
            )
            &&& second.last() == whole.last()
        }),
{
    let first = crate::text::split_char(partial + a, '\n');
    let second = crate::text::split_char(first.last() + b, '\n');
    let whole = crate::text::split_char(partial + a + b, '\n');
    crate::text::lemma_split_concat(partial + a, b, '\n', 0);
    crate::text::lemma_split_from_pieces(first.last() + b, '\n', 0);
    assert(whole == first.drop_last() + second);
    assert(whole.drop_last() =~= first.drop_last() + second.drop_last());
    lemma_clean_lines_concat(first.drop_last(), second.drop_last());
}

/// The console socket of a VM on the Proxmox host, read with `socat`.
pub fn socat_command(vmid: u32) -> (r: String)
    ensures
        r@ == "socat - UNIX-CONNECT:/var/run/qemu-server/"@ + decimal(vmid as nat) + ".serial0"@,
{
    let mut s = string_from("socat - UNIX-CONNECT:/var/run/qemu-server/");
    crate::text::push_u64(&mut s, vmid as u64);
    push_str(&mut s, ".serial0");
    s
}

/// What is written for a command: the command and a carriage return and
/// line feed.
pub fn console_input(cmd: &str) -> (r: String)
    ensures
        r@ == cmd@ + "\r\n"@,
{
    let mut s = string_from(cmd);
    push_str(&mut s, "\r\n");
    s
}

/// Raw input as the log shows it: carriage returns and line feeds written
/// as `\\r` and `\\n`.
pub open spec fn spec_visible(s: Seq<char>) -> Seq<char>
    decreases s.len(),
{
    if s.len() == 0 {
        seq![]
    } else {
        spec_visible(s.drop_last()) + (if s.last() == '\r' {
            seq!['\\', 'r']
        } else if s.last() == '\n' {
            seq!['\\', 'n']
        } else {
            seq![s.last()]
        })
    }
}

/// Show raw input for the log.
pub fn visible(data: &str) -> (r: String)
    ensures
        r@ == spec_visible(data@),
{
    let v = to_chars(data);
    let mut out = String::new();
    let mut i: usize = 0;
    while i < v.len()
        invariant
            i <= v@.len(),
            v@ == data@,
            out@ == spec_visible(v@.take(i as int)),
        decreases v@.len() - i,
    {
        assert(v@.take(i + 1).drop_last() =~= v@.take(i as int));
        if v[i] == '\r' {
            push_char(&mut out, '\\');
            push_char(&mut out, 'r');
        } else if v[i] == '\n' {
            push_char(&mut out, '\\');
            push_char(&mut out, 'n');
        } else {
            push_char(&mut out, v[i]);
        }
        assert(out@ =~= spec_visible(v@.take(i + 1)));
        i = i + 1;
    }
    assert(v@.take(i as int) =~= v@);
    out
}

} // verus!
