//! The command line: its commands and options, what they select, and the
//! text the headless commands print.
use vstd::prelude::*;
use crate::config::{counts_view, spec_expected_zones, total_count, DeploymentToml, HostConfig, OmicronOverrides};
use crate::recover::{expected_total_fits, spec_index, spec_label, spec_steps, spec_workaround_text, RecoveryEvent, RecoveryStep};
use crate::text::{decimal, push_char, push_str, push_u64, string_from};

verus! {

/// The command line of the tool.
pub struct Cli {
    pub command: Option<Command>,
    /// Deployment chosen by name.
    pub deployment: Option<String>,
    /// How many times `-v` was given.
    pub verbose: u8,
}

/// The commands.
pub enum Command {
    /// Quick status snapshot (headless).
    Status,
    /// Reboot recovery (headless, progress on stdout).
    Recover,
    /// Initialize a new deployment.
    Init(InitArgs),
    /// Configuration management.
    Config(ConfigArgs),
}

/// Options of `init`.
pub struct InitArgs {
    /// Import configuration from a running host (`user@address`).
    pub import: Option<String>,
}

/// Options of `config`.
pub struct ConfigArgs {
    pub command: ConfigCommand,
}

/// The `config` subcommands.
pub enum ConfigCommand {
    /// Display the current deployment's configuration.
    Show,
}

/// The log filter for a verbosity: info, debug, then trace.
pub open spec fn spec_log_filter(verbose: u8) -> Seq<char> {
    if verbose == 0 {
        "whoah_cli=info"@
    } else if verbose == 1 {
        "whoah_cli=debug"@
    } else {
        "whoah_cli=trace"@
    }
}

/// The log filter used when `WHOAH_LOG` does not set one.
pub fn log_filter(verbose: u8) -> (r: &'static str)
    ensures
        r@ == spec_log_filter(verbose),
{
    if verbose == 0 {
        "whoah_cli=info"
    } else if verbose == 1 {
        "whoah_cli=debug"
    } else {
        "whoah_cli=trace"
    }
}

/// What the tool runs for a command line.
#[derive(Debug, Clone, Copy, PartialEq, Eq, Structural)]
pub enum Mode {
    Status,
    Recover,
    Init,
    ConfigShow,
    /// No command: the interactive dashboard.
    Dashboard,
}

/// The mode a command line selects.
pub fn mode_of(cli: &Cli) -> (r: Mode)
    ensures
        r == match cli.command {
            Some(Command::Status) => Mode::Status,
            Some(Command::Recover) => Mode::Recover,
            Some(Command::Init(_)) => Mode::Init,
            Some(Command::Config(_)) => Mode::ConfigShow,
            None => Mode::Dashboard,
        },
{
    match &cli.command {
        Some(Command::Status) => Mode::Status,
        Some(Command::Recover) => Mode::Recover,
        Some(Command::Init(_)) => Mode::Init,
        Some(Command::Config(args)) => match args.command {
            ConfigCommand::Show => Mode::ConfigShow,
        },
        None => Mode::Dashboard,
    }
}


/// The host the headless commands talk to: the first by name.
pub fn first_host<'a>(d: &'a DeploymentToml, deployment_name: &str) -> (r: Result<&'a HostConfig, String>)
    ensures
        d.hosts@.len() > 0 ==> (r matches Ok(h) && *h == d.hosts@[0].1),
        d.hosts@.len() == 0 ==> (r matches Err(e) && e@ == "No hosts configured in deployment '"@
            + deployment_name@ + "'"@),
{
    if d.hosts.len() > 0 {
        Ok(&d.hosts[0].1)
    } else {
        let mut e = string_from("No hosts configured in deployment '");
        push_str(&mut e, deployment_name);
        push_str(&mut e, "'");
        Err(e)
    }
}

/// `Connecting to <user>@<address>...`.
pub fn connecting_message(h: &HostConfig) -> (r: String)
    ensures
        r@ == "Connecting to "@ + h.ssh_user@ + "@"@ + h.address@ + "..."@,
{
    let mut s = string_from("Connecting to ");
    push_str(&mut s, h.ssh_user.as_str());
    push_str(&mut s, "@");
    push_str(&mut s, h.address.as_str());
    push_str(&mut s, "...");
    s
}

/// What `recover` prints when no reboot is detected.
pub fn healthy_message(zones_running: u32) -> (r: String)
    ensures
        r@ == "System appears healthy ("@ + decimal(zones_running as nat)
            + " zones running, simnets present). Recovery not needed."@,
{
    let mut s = string_from("System appears healthy (");
    push_u64(&mut s, zones_running as u64);
    push_str(&mut s, " zones running, simnets present). Recovery not needed.");
    s
}

/// A piece of `recover`'s progress output.
pub enum EventOutput {
    /// A line.
    Line(String),
    /// The zone count, rewritten in place; the line ends when all run.
    Progress { text: String, finished: bool },
    /// A line with a duration in seconds: `before`, the seconds with
    /// `decimals` decimals, then `after`.
    Timed { before: String, millis: u64, decimals: u8, after: String },
}

/// The progress output of a recovery event.
pub open spec fn spec_event_output(e: RecoveryEvent) -> Seq<char> {
    match e {
        RecoveryEvent::StepStarted(step) => "["@ + decimal(spec_index(step) + 1) + "/"@ + decimal(
            spec_steps().len(),
        ) + "] "@ + spec_label(step) + " ..."@,
        RecoveryEvent::StepOutput(line) => "      "@ + line@,
        RecoveryEvent::ZoneProgress { running, expected } => "\r      Zones: "@ + decimal(
            running as nat,
        ) + "/"@ + decimal(expected as nat) + " running"@,
        RecoveryEvent::StepCompleted(step, _) => "  OK  "@ + spec_label(step) + " ("@,
        RecoveryEvent::StepFailed { step, error, .. } => "  FAIL "@ + spec_label(step) + " : "@
            + error@,
        RecoveryEvent::RecoveryComplete(_) => "\nRecovery complete in "@,
    }
}

/// Print a recovery event: one output, or two for a failure with a hint.
pub fn event_output(e: &RecoveryEvent) -> (r: Vec<EventOutput>)
    ensures
        match *e {
            RecoveryEvent::StepStarted(_) | RecoveryEvent::StepOutput(_) => r@.len() == 1 && (
            r@[0] matches EventOutput::Line(l) && l@ == spec_event_output(*e)),
            RecoveryEvent::ZoneProgress { running, expected } => r@.len() == 1 && (
            r@[0] matches EventOutput::Progress { text, finished } && text@ == spec_event_output(*e)
                && finished == (running >= expected)),
            RecoveryEvent::StepCompleted(_, ms) => r@.len() == 1 && (
            r@[0] matches EventOutput::Timed { before, millis, decimals, after } && before@
                == spec_event_output(*e) && millis == ms && decimals == 1 && after@ == "s)"@),
            RecoveryEvent::StepFailed { workaround, .. } => (
            r@[0] matches EventOutput::Line(l) && l@ == spec_event_output(*e)) && match workaround {
                None => r@.len() == 1,
                Some(w) => r@.len() == 2 && (r@[1] matches EventOutput::Line(h) && h@ == "  HINT: "@
                    + spec_workaround_text(w)),
            },
            RecoveryEvent::RecoveryComplete(ms) => r@.len() == 1 && (
            r@[0] matches EventOutput::Timed { before, millis, decimals, after } && before@
                == spec_event_output(*e) && millis == ms && decimals == 0 && after@ == "s"@),
        },
{
    let mut out: Vec<EventOutput> = Vec::new();
    match e {
        RecoveryEvent::StepStarted(step) => {
            let mut s = string_from("[");
            push_u64(&mut s, step.index() as u64 + 1);
            push_str(&mut s, "/");
            push_u64(&mut s, RecoveryStep::total_count() as u64);
            push_str(&mut s, "] ");
            push_str(&mut s, step.label());
            push_str(&mut s, " ...");
            out.push(EventOutput::Line(s));
        },
        RecoveryEvent::StepOutput(line) => {
            let mut s = string_from("      ");
            push_str(&mut s, line.as_str());
            out.push(EventOutput::Line(s));
        },
        RecoveryEvent::ZoneProgress { running, expected } => {
            let mut s = string_from("\r      Zones: ");
            push_u64(&mut s, *running as u64);
            push_str(&mut s, "/");
            push_u64(&mut s, *expected as u64);
            push_str(&mut s, " running");
            out.push(EventOutput::Progress { text: s, finished: *running >= *expected });
        },
        RecoveryEvent::StepCompleted(step, ms) => {
            let mut s = string_from("  OK  ");
            push_str(&mut s, step.label());
            push_str(&mut s, " (");
            out.push(EventOutput::Timed { before: s, millis: *ms, decimals: 1, after: string_from("s)") });
        },
        RecoveryEvent::StepFailed { step, error, workaround } => {
            let mut s = string_from("  FAIL ");
            push_str(&mut s, step.label());
            push_str(&mut s, " : ");
            push_str(&mut s, error.as_str());
            out.push(EventOutput::Line(s));
            match workaround {
                Some(w) => {
                    let mut h = string_from("  HINT: ");
                    push_str(&mut h, w.description());
                    out.push(EventOutput::Line(h));
                },
                None => {},
            }
        },
        RecoveryEvent::RecoveryComplete(ms) => {
            out.push(
                EventOutput::Timed {
                    before: string_from("\nRecovery complete in "),
                    millis: *ms,
                    decimals: 0,
                    after: string_from("s"),
                },
            );
        },
    }
    out
}

/// A service name padded with spaces to 18 characters.
pub open spec fn padded(name: Seq<char>) -> Seq<char> {
    if name.len() < 18 {
        name + Seq::new((18 - name.len()) as nat, |_i: int| ' ')
    } else {
        name
    }
}

/// The derived section of `config show`: the expected zones, their total,
/// then each service with its count, by name.
pub open spec fn spec_derived_lines(o: OmicronOverrides) -> Seq<Seq<char>> {
    seq!["--- derived ---"@, "Expected zones ("@ + decimal(total_count(spec_expected_zones(o))) + " total):"@]
        + spec_expected_zones(o).map_values(|p: (Seq<char>, nat)| "  "@ + padded(p.0) + " "@ + decimal(p.1))
}

/// The lines of the derived section.
pub fn derived_lines(o: &OmicronOverrides) -> (r: Vec<String>)
    requires
        expected_total_fits(*o),
    ensures
        r@.map_values(|s: String| s@) == spec_derived_lines(*o),
{
    let zones = crate::config::derive_expected_zones(o);
    let total = crate::recover::sum_counts(&zones);
    let ghost zv = counts_view(zones@);
    let ghost want = spec_derived_lines(*o);
    let mut out: Vec<String> = Vec::new();
    out.push(string_from("--- derived ---"));
    let mut h = string_from("Expected zones (");
    push_u64(&mut h, total as u64);
    push_str(&mut h, " total):");
    out.push(h);
    let mut i: usize = 0;
    while i < zones.len()
        invariant
            i <= zones@.len(),
            zv == counts_view(zones@),
            zv == spec_expected_zones(*o),
            want == spec_derived_lines(*o),
            out@.len() == i + 2,
            forall|k: int| 0 <= k < i + 2 ==> #[trigger] out@[k]@ == want[k],
        decreases zones@.len() - i,
    {
        let mut line = string_from("  ");
        let name = zones[i].0.as_str();
        push_str(&mut line, name);
        let n = crate::text::to_chars(name).len();
        let mut pad: usize = n;
        while pad < 18
            invariant
                n <= pad <= 18 || (n > 18 && pad == n),
                line@ == "  "@ + zones@[i as int].0@ + Seq::new((pad - n) as nat, |_i: int| ' '),
                n == zones@[i as int].0@.len(),
            decreases 18 - pad,
        {
            push_char(&mut line, ' ');
            pad = pad + 1;
            assert(Seq::new((pad - 1 - n) as nat, |_i: int| ' ').push(' ') =~= Seq::new(
                (pad - n) as nat,
                |_i: int| ' ',
            ));
        }
        if n >= 18 {
            assert(Seq::new(0, |_i: int| ' ') =~= Seq::<char>::empty());
            assert(line@ =~= "  "@ + zones@[i as int].0@);
        }
        push_str(&mut line, " ");
        push_u64(&mut line, zones[i].1 as u64);
        assert(line@ =~= "  "@ + padded(zv[i as int].0) + " "@ + decimal(zv[i as int].1));
        out.push(line);
        i = i + 1;
    }
    assert(out@.map_values(|s: String| s@) =~= want);
    out
}

} // verus!
