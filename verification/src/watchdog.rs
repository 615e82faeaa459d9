//! Decisions of the zone-recovery watchdog.
//!
//! While a deployment is verified, a watchdog polls the zones of the host
//! and applies recovery actions to known SMF problems when a zone first
//! appears running. The polling and the remote commands are the caller's;
//! this module holds the rules, the reading of the zone list, the quoting
//! of the commands run inside a zone, the reading of a service state and
//! the memory that makes each action happen once.
use vstd::prelude::*;
use crate::text::{contains, contains_str, lines, lines_exec, push_str, push_chars, split_char, split_char_exec, string_from, string_of, to_chars, trim, trim_chars, chars_eq_str, chars_eq, views};
use crate::parse::network::strings_view;

verus! {

broadcast use vstd::slice::group_slice_axioms;

/// A recovery rule for the zones whose name holds `zone_substring`.
pub struct WatchdogRule {
    /// Identifier shown in progress lines.
    pub name: String,
    /// Substring matched against zone names.
    pub zone_substring: String,
    /// Commands run once inside the zone when it first appears running.
    pub on_appear: Vec<String>,
    /// Services cleared inside the zone when they are in maintenance.
    pub clear_if_maintenance: Vec<String>,
    /// Services whose arrival at `online` is reported once.
    pub wait_online: Vec<String>,
}

/// The mathematical value of a rule.
pub struct SpecRule {
    pub name: Seq<char>,
    pub zone_substring: Seq<char>,
    pub on_appear: Seq<Seq<char>>,
    pub clear_if_maintenance: Seq<Seq<char>>,
    pub wait_online: Seq<Seq<char>>,
}

impl View for WatchdogRule {
    type V = SpecRule;

    open spec fn view(&self) -> SpecRule {
        SpecRule {
            name: self.name@,
            zone_substring: self.zone_substring@,
            on_appear: strings_view(self.on_appear@),
            clear_if_maintenance: strings_view(self.clear_if_maintenance@),
            wait_online: strings_view(self.wait_online@),
        }
    }
}

/// The built-in rules. In the NTP zone, `ndp` is always enabled (the NTP
/// service depends on it and the zone profile disables it), the IP
/// interface manager is cleared when it lands in maintenance, and the
/// NTP service is awaited.
pub open spec fn spec_builtin_rules() -> Seq<SpecRule> {
    seq![
        SpecRule {
            name: "ntp_zone"@,
            zone_substring: "oxz_ntp"@,
            on_appear: seq!["svcadm enable network/routing/ndp"@],
            clear_if_maintenance: seq!["network/ip-interface-management"@],
            wait_online: seq!["oxide/ntp"@],
        },
    ]
}

/// Number of occurrences of a character.
pub open spec fn count_char(s: Seq<char>, c: char) -> nat
    decreases s.len(),
{
    if s.len() == 0 {
        0
    } else {
        count_char(s.drop_last(), c) + (if s.last() == c {
            1nat
        } else {
            0nat
        })
    }
}

/// The single quote that delimits a command run inside a zone.
pub open spec fn quote() -> char {
    '\''
}

/// Text in which a character does not occur counts it zero times.
pub proof fn lemma_count_char_absent(s: Seq<char>, c: char)
    requires
        forall|k: int| 0 <= k < s.len() ==> s[k] != c,
    ensures
        count_char(s, c) == 0,
    decreases s.len(),
{
    if s.len() > 0 {
        lemma_count_char_absent(s.drop_last(), c);
    }
}

/// Counting is additive over concatenation.
pub proof fn lemma_count_char_add(a: Seq<char>, b: Seq<char>, c: char)
    ensures
        count_char(a + b, c) == count_char(a, c) + count_char(b, c),
    decreases b.len(),
{
    if b.len() == 0 {
        assert(a + b =~= a);
    } else {
        lemma_count_char_add(a, b.drop_last(), c);
        assert((a + b).drop_last() =~= a + b.drop_last());
    }
}

/// Illumos zone names use letters, digits, `_`, `-` and `.`.
pub open spec fn is_safe_zone_char(c: char) -> bool {
    ('a' <= c && c <= 'z') || ('A' <= c && c <= 'Z') || ('0' <= c && c <= '9') || c == '_' || c
        == '-' || c == '.'
}

/// A zone name that can be embedded in a single-quoted `zlogin` command.
pub open spec fn spec_zone_name_is_safe(name: Seq<char>) -> bool {
    forall|k: int| 0 <= k < name.len() ==> is_safe_zone_char(#[trigger] name[k])
}

/// Whether a zone name holds only characters that zone names may hold.
pub fn zone_name_is_safe(name: &str) -> (r: bool)
    ensures
        r == spec_zone_name_is_safe(name@),
{
    let v = to_chars(name);
    let mut i: usize = 0;
    while i < v.len()
        invariant
            v@ == name@,
            i <= v@.len(),
            forall|k: int| 0 <= k < i ==> is_safe_zone_char(#[trigger] v@[k]),
        decreases v@.len() - i,
    {
        let c = v[i];
        let ok = ('a' <= c && c <= 'z') || ('A' <= c && c <= 'Z') || ('0' <= c && c <= '9') || c
            == '_' || c == '-' || c == '.';
        if !ok {
            return false;
        }
        i = i + 1;
    }
    true
}

/// The built-in recovery rules.
pub fn builtin_rules() -> (r: Vec<WatchdogRule>)
    ensures
        r@.len() == spec_builtin_rules().len(),
        forall|i: int| 0 <= i < r@.len() ==> #[trigger] r@[i]@ == spec_builtin_rules()[i],
{
    let rule = WatchdogRule {
        name: string_from("ntp_zone"),
        zone_substring: string_from("oxz_ntp"),
        on_appear: vec![string_from("svcadm enable network/routing/ndp")],
        clear_if_maintenance: vec![string_from("network/ip-interface-management")],
        wait_online: vec![string_from("oxide/ntp")],
    };
    assert(rule@.on_appear =~= seq!["svcadm enable network/routing/ndp"@]);
    assert(rule@.clear_if_maintenance =~= seq!["network/ip-interface-management"@]);
    assert(rule@.wait_online =~= seq!["oxide/ntp"@]);
    let r = vec![rule];
    r
}

/// None of the commands and services of the built-in rules holds a single
/// quote, so each can be embedded in a single-quoted `zlogin` command.
pub proof fn law_builtin_rules_unquoted()
    ensures
        forall|i: int, j: int|
            0 <= i < spec_builtin_rules().len() && 0 <= j
                < spec_builtin_rules()[i].on_appear.len() ==> count_char(
                #[trigger] spec_builtin_rules()[i].on_appear[j],
                quote(),
            ) == 0,
        forall|i: int, j: int|
            0 <= i < spec_builtin_rules().len() && 0 <= j
                < spec_builtin_rules()[i].clear_if_maintenance.len() ==> count_char(
                #[trigger] spec_builtin_rules()[i].clear_if_maintenance[j],
                quote(),
            ) == 0,
        forall|i: int, j: int|
            0 <= i < spec_builtin_rules().len() && 0 <= j
                < spec_builtin_rules()[i].wait_online.len() ==> count_char(
                #[trigger] spec_builtin_rules()[i].wait_online[j],
                quote(),
            ) == 0,
{
    reveal_strlit("svcadm enable network/routing/ndp");
    reveal_strlit("network/ip-interface-management");
    reveal_strlit("oxide/ntp");
    lemma_count_char_absent("svcadm enable network/routing/ndp"@, quote());
    lemma_count_char_absent("network/ip-interface-management"@, quote());
    lemma_count_char_absent("oxide/ntp"@, quote());
}

/// The names of the running zones in `zoneadm list -cp` output: for each
/// line holding `:running:`, its second `:`-separated field.
pub open spec fn running_names(ls: Seq<Seq<char>>) -> Seq<Seq<char>>
    decreases ls.len(),
{
    if ls.len() == 0 {
        seq![]
    } else {
        let rest = running_names(ls.drop_last());
        let l = ls.last();
        if contains(l, ":running:"@) && split_char(l, ':').len() > 1 {
            rest.push(split_char(l, ':')[1])
        } else {
            rest
        }
    }
}

/// The names of the zones that `zoneadm list -cp` reports running.
pub fn running_zone_names(stdout: &str) -> (r: Vec<String>)
    ensures
        strings_view(r@) == running_names(lines(stdout@)),
{
    let all = to_chars(stdout);
    let ls = lines_exec(all.as_slice());
    let ghost lv = views(ls@);
    let mut out: Vec<String> = Vec::new();
    let mut i: usize = 0;
    while i < ls.len()
        invariant
            i <= ls@.len(),
            lv == views(ls@),
            lv == lines(stdout@),
            strings_view(out@) == running_names(lv.take(i as int)),
        decreases ls@.len() - i,
    {
        let l = ls[i];
        assert(lv.take(i + 1).drop_last() =~= lv.take(i as int));
        assert(lv.take(i + 1).last() == l@);
        if contains_str(l, ":running:") {
            let f = split_char_exec(l, ':');
            if f.len() > 1 {
                let ghost before = out@;
                out.push(string_of(f[1]));
                assert(strings_view(out@) =~= strings_view(before).push(split_char(l@, ':')[1]));
            }
        }
        i = i + 1;
    }
    assert(lv.take(i as int) =~= lv);
    out
}

/// Whether a rule applies to a zone: its name holds the rule's substring.
pub fn rule_applies(rule: &WatchdogRule, zone: &str) -> (r: bool)
    ensures
        r == contains(zone@, rule.zone_substring@),
{
    let z = to_chars(zone);
    let p = to_chars(rule.zone_substring.as_str());
    crate::text::contains_exec(z.as_slice(), p.as_slice())
}

/// `pfexec zlogin <zone> '<cmd>'`.
pub open spec fn spec_zlogin(zone: Seq<char>, cmd: Seq<char>) -> Seq<char> {
    "pfexec zlogin "@ + zone + seq![' ', quote()] + cmd + seq![quote()]
}

/// The command that runs `cmd` inside a zone.
pub fn zlogin_command(zone: &str, cmd: &str) -> (r: String)
    ensures
        r@ == spec_zlogin(zone@, cmd@),
{
    let mut s = string_from("pfexec zlogin ");
    push_str(&mut s, zone);
    push_str(&mut s, " '");
    push_str(&mut s, cmd);
    push_str(&mut s, "'");
    proof {
        reveal_strlit(" '");
        reveal_strlit("'");
    }
    assert(s@ =~= spec_zlogin(zone@, cmd@));
    s
}

/// A command built for a safe zone name and a command without a single
/// quote holds exactly the two quotes that delimit the command: the zone
/// name cannot end the quoting early.
pub proof fn law_zlogin_quoting(zone: Seq<char>, cmd: Seq<char>)
    requires
        spec_zone_name_is_safe(zone),
        count_char(cmd, quote()) == 0,
    ensures
        count_char(spec_zlogin(zone, cmd), quote()) == 2,
{
    reveal_strlit("pfexec zlogin ");
    let pre = "pfexec zlogin "@;
    lemma_count_char_absent(pre, quote());
    assert forall|k: int| 0 <= k < zone.len() implies zone[k] != quote() by {
        assert(is_safe_zone_char(zone[k]));
    }
    lemma_count_char_absent(zone, quote());
    let open_q = seq![' ', quote()];
    let close_q = seq![quote()];
    let sp = seq![' '];
    assert(count_char(Seq::<char>::empty(), quote()) == 0);
    assert(sp.drop_last() =~= Seq::<char>::empty());
    assert(count_char(sp, quote()) == 0);
    assert(open_q.drop_last() =~= sp);
    assert(count_char(open_q, quote()) == 1);
    assert(close_q.drop_last() =~= Seq::<char>::empty());
    assert(count_char(close_q, quote()) == 1);
    lemma_count_char_add(pre, zone, quote());
    lemma_count_char_add(pre + zone, open_q, quote());
    lemma_count_char_add(pre + zone + open_q, cmd, quote());
    lemma_count_char_add(pre + zone + open_q + cmd, close_q, quote());
}

/// The state query run inside a zone for a service.
pub open spec fn spec_state_query(zone: Seq<char>, fmri: Seq<char>) -> Seq<char> {
    spec_zlogin(zone, "svcs -H -o state "@ + fmri + " 2>/dev/null || true"@)
}

/// `pfexec zlogin <zone> 'svcs -H -o state <fmri> 2>/dev/null || true'`.
pub fn state_query_command(zone: &str, fmri: &str) -> (r: String)
    ensures
        r@ == spec_state_query(zone@, fmri@),
{
    let mut inner = string_from("svcs -H -o state ");
    push_str(&mut inner, fmri);
    push_str(&mut inner, " 2>/dev/null || true");
    zlogin_command(zone, inner.as_str())
}

/// `pfexec zlogin <zone> 'svcs -xv <fmri>'`, run before a clear.
pub fn explain_command(zone: &str, fmri: &str) -> (r: String)
    ensures
        r@ == spec_zlogin(zone@, "svcs -xv "@ + fmri@),
{
    let mut inner = string_from("svcs -xv ");
    push_str(&mut inner, fmri);
    zlogin_command(zone, inner.as_str())
}

/// `pfexec zlogin <zone> 'svcadm clear <fmri>'`.
pub fn clear_command(zone: &str, fmri: &str) -> (r: String)
    ensures
        r@ == spec_zlogin(zone@, "svcadm clear "@ + fmri@),
{
    let mut inner = string_from("svcadm clear ");
    push_str(&mut inner, fmri);
    zlogin_command(zone, inner.as_str())
}

/// What a service state asks of the watchdog.
#[derive(Debug, Clone, Copy, PartialEq, Eq, Structural)]
pub enum ClearDecision {
    /// The service is in maintenance (or offline behind one): clear it.
    Clear,
    /// The service is online: nothing more to do for it.
    Healthy,
    /// Anything else: look again on the next round.
    Wait,
}

/// The decision for the trimmed output of a state query.
pub open spec fn spec_clear_decision(state: Seq<char>) -> ClearDecision {
    let t = trim(state);
    if t == "maintenance"@ || t == "offline*"@ {
        ClearDecision::Clear
    } else if t == "online"@ {
        ClearDecision::Healthy
    } else {
        ClearDecision::Wait
    }
}

/// Read the output of a state query for a service that may need clearing.
pub fn clear_decision(state_output: &str) -> (r: ClearDecision)
    ensures
        r == spec_clear_decision(state_output@),
{
    let v = to_chars(state_output);
    let t = trim_chars(v.as_slice());
    if chars_eq_str(t, "maintenance") || chars_eq_str(t, "offline*") {
        ClearDecision::Clear
    } else if chars_eq_str(t, "online") {
        ClearDecision::Healthy
    } else {
        ClearDecision::Wait
    }
}

/// Whether the output of a state query says the service is online.
pub fn reports_online(state_output: &str) -> (r: bool)
    ensures
        r == (trim(state_output@) == "online"@),
{
    let v = to_chars(state_output);
    chars_eq_str(trim_chars(v.as_slice()), "online")
}

/// The keys for which an action was taken, each once.
pub struct OnceSet {
    pub keys: Vec<(String, String)>,
}

/// The view of a pair of strings.
pub open spec fn pair_view(p: (String, String)) -> (Seq<char>, Seq<char>) {
    (p.0@, p.1@)
}

impl View for OnceSet {
    type V = Set<(Seq<char>, Seq<char>)>;

    open spec fn view(&self) -> Set<(Seq<char>, Seq<char>)> {
        self.keys@.map_values(|p: (String, String)| pair_view(p)).to_set()
    }
}

impl OnceSet {
    /// An empty memory.
    pub fn new() -> (r: OnceSet)
        ensures
            r@ == Set::<(Seq<char>, Seq<char>)>::empty(),
    {
        let r = OnceSet { keys: Vec::new() };
        assert(r@ =~= Set::<(Seq<char>, Seq<char>)>::empty());
        r
    }

    /// Whether the key was recorded.
    pub fn contains(&self, a: &str, b: &str) -> (r: bool)
        ensures
            r == self@.contains((a@, b@)),
    {
        let av = to_chars(a);
        let bv = to_chars(b);
        let ghost kv = self.keys@.map_values(|p: (String, String)| pair_view(p));
        let mut i: usize = 0;
        while i < self.keys.len()
            invariant
                i <= self.keys@.len(),
                av@ == a@,
                bv@ == b@,
                kv == self.keys@.map_values(|p: (String, String)| pair_view(p)),
                forall|j: int| 0 <= j < i ==> #[trigger] kv[j] != (a@, b@),
            decreases self.keys@.len() - i,
        {
            let k0 = to_chars(self.keys[i].0.as_str());
            let k1 = to_chars(self.keys[i].1.as_str());
            if chars_eq(k0.as_slice(), av.as_slice()) && chars_eq(k1.as_slice(), bv.as_slice()) {
                assert(kv[i as int] == (a@, b@));
                assert(kv.contains((a@, b@)));
                return true;
            }
            i = i + 1;
        }
        assert(!kv.contains((a@, b@)));
        false
    }

    /// Record the key; true when it was not recorded before, so that the
    /// caller acts the first time only.
    pub fn first_time(&mut self, a: &str, b: &str) -> (r: bool)
        ensures
            r == !old(self)@.contains((a@, b@)),
            final(self)@ == old(self)@.insert((a@, b@)),
    {
        if self.contains(a, b) {
            assert(self@.insert((a@, b@)) =~= self@);
            false
        } else {
            let ghost before = self.keys@.map_values(|p: (String, String)| pair_view(p));
            self.keys.push((string_from(a), string_from(b)));
            assert(self.keys@.map_values(|p: (String, String)| pair_view(p)) =~= before.push(
                (a@, b@),
            ));
            proof {
                before.lemma_push_to_set_commute((a@, b@));
            }
            true
        }
    }
}

/// `watchdog [<rule>]: ` and the rest of a report line.
pub open spec fn spec_report(rule: Seq<char>, rest: Seq<char>) -> Seq<char> {
    "watchdog ["@ + rule + "]: "@ + rest
}

fn report(rule: &str) -> (r: String)
    ensures
        r@ == spec_report(rule@, seq![]),
{
    let mut s = crate::text::string_from("watchdog [");
    crate::text::push_str(&mut s, rule);
    crate::text::push_str(&mut s, "]: ");
    s
}

/// How a first-appearance command went.
pub enum AppearOutcome {
    /// It ran and exited 0.
    Succeeded,
    /// It ran and exited otherwise, with its error output.
    Exited { code: i32, stderr: String },
    /// It could not be run.
    Failed { error: String },
}

/// The report of a first-appearance command.
pub fn appear_report(rule: &str, cmd: &str, zone: &str, outcome: &AppearOutcome) -> (r: String)
    ensures
        r@ == spec_report(
            rule@,
            cmd@ + " in "@ + zone@ + match *outcome {
                AppearOutcome::Succeeded => Seq::<char>::empty(),
                AppearOutcome::Exited { code, stderr } => " exited "@ + crate::text::signed_decimal(
                    code as int,
                ) + " \u{2014} "@ + crate::text::trim(stderr@),
                AppearOutcome::Failed { error } => " failed: "@ + error@,
            },
        ),
{
    let mut s = report(rule);
    crate::text::push_str(&mut s, cmd);
    crate::text::push_str(&mut s, " in ");
    crate::text::push_str(&mut s, zone);
    match outcome {
        AppearOutcome::Succeeded => {
            assert(s@ + Seq::<char>::empty() =~= s@);
        },
        AppearOutcome::Exited { code, stderr } => {
            crate::text::push_str(&mut s, " exited ");
            crate::text::push_i64(&mut s, *code as i64);
            crate::text::push_str(&mut s, " \u{2014} ");
            let v = crate::text::to_chars(stderr.as_str());
            crate::text::push_chars(&mut s, crate::text::trim_chars(v.as_slice()));
        },
        AppearOutcome::Failed { error } => {
            crate::text::push_str(&mut s, " failed: ");
            crate::text::push_str(&mut s, error.as_str());
        },
    }
    s
}

/// The `Debug` form of a text: quoted, with quotes, backslashes and
/// characters that do not print escaped.
pub uninterp spec fn debug_text(s: Seq<char>) -> Seq<char>;

/// `format!("{:?}", s)` for a string slice. The contract names the result;
/// the escaping rules are not restated.
#[verifier::external_body]
fn debug_quoted(s: &str) -> (r: String)
    ensures
        r@ == debug_text(s@),
{
    format!("{:?}", s)
}

/// The report for a zone whose name is not safe to put in a command; the
/// name is shown in its `Debug` form.
pub fn skipped_zone_report(rule: &str, zone: &str) -> (r: String)
    ensures
        r@ == spec_report(rule@, "skipping zone with unexpected name: "@ + debug_text(zone@)),
{
    let mut s = report(rule);
    crate::text::push_str(&mut s, "skipping zone with unexpected name: ");
    let q = debug_quoted(zone);
    crate::text::push_str(&mut s, q.as_str());
    s
}

/// The report of a cleared service, with the state it was in.
pub fn cleared_report(rule: &str, fmri: &str, zone: &str, state: &str) -> (r: String)
    ensures
        r@ == spec_report(rule@, "cleared "@ + fmri@ + " in "@ + zone@ + " (was "@ + state@ + ")"@),
{
    let mut s = report(rule);
    crate::text::push_str(&mut s, "cleared ");
    crate::text::push_str(&mut s, fmri);
    crate::text::push_str(&mut s, " in ");
    crate::text::push_str(&mut s, zone);
    crate::text::push_str(&mut s, " (was ");
    crate::text::push_str(&mut s, state);
    crate::text::push_str(&mut s, ")");
    s
}

/// The report of a service seen online.
pub fn online_report(rule: &str, fmri: &str, zone: &str) -> (r: String)
    ensures
        r@ == spec_report(rule@, fmri@ + " online in "@ + zone@),
{
    let mut s = report(rule);
    crate::text::push_str(&mut s, fmri);
    crate::text::push_str(&mut s, " online in ");
    crate::text::push_str(&mut s, zone);
    s
}

// --- The watch loop ---

/// The report when the watchdog cannot connect to the host.
pub fn connect_failed_report(error: &str) -> (r: String)
    ensures
        r@ == "watchdog: failed to connect: "@ + error@ + "; NTP zone recovery disabled"@,
{
    let mut s = string_from("watchdog: failed to connect: ");
    push_str(&mut s, error);
    push_str(&mut s, "; NTP zone recovery disabled");
    s
}

/// The report when the watchdog cannot open its command log.
pub fn log_failed_report(error: &str) -> (r: String)
    ensures
        r@ == "watchdog: failed to open log: "@ + error@ + "; NTP zone recovery disabled"@,
{
    let mut s = string_from("watchdog: failed to open log: ");
    push_str(&mut s, error);
    push_str(&mut s, "; NTP zone recovery disabled");
    s
}

/// One thing to look at in a round, for a rule and a running zone it
/// applies to.
pub enum Visit {
    /// The zone's name is not safe to put in a command.
    Skip { rule: String, zone: String },
    /// A first-appearance command.
    Appear { rule: String, zone: String, cmd: String },
    /// The first-appearance commands of the zone are done.
    AppearDone { rule: String, zone: String },
    /// A service to clear when in maintenance.
    Clear { rule: String, zone: String, fmri: String },
    /// A service whose arrival online is reported.
    Online { rule: String, zone: String, fmri: String },
}

pub enum VisitV {
    Skip(Seq<char>, Seq<char>),
    Appear(Seq<char>, Seq<char>, Seq<char>),
    AppearDone(Seq<char>, Seq<char>),
    Clear(Seq<char>, Seq<char>, Seq<char>),
    Online(Seq<char>, Seq<char>, Seq<char>),
}

pub open spec fn visit_view(v: Visit) -> VisitV {
    match v {
        Visit::Skip { rule, zone } => VisitV::Skip(rule@, zone@),
        Visit::Appear { rule, zone, cmd } => VisitV::Appear(rule@, zone@, cmd@),
        Visit::AppearDone { rule, zone } => VisitV::AppearDone(rule@, zone@),
        Visit::Clear { rule, zone, fmri } => VisitV::Clear(rule@, zone@, fmri@),
        Visit::Online { rule, zone, fmri } => VisitV::Online(rule@, zone@, fmri@),
    }
}

pub open spec fn visits_view(v: Seq<Visit>) -> Seq<VisitV> {
    v.map_values(|x: Visit| visit_view(x))
}

/// The rules as values.
pub open spec fn rules_view(v: Seq<WatchdogRule>) -> Seq<SpecRule> {
    v.map_values(|r: WatchdogRule| r@)
}

/// The visits of a rule for a zone it applies to: a zone with an unsafe
/// name is skipped; otherwise its first-appearance commands, then the mark
/// that they are done, then the services to clear, then those awaited.
pub open spec fn zone_visits(rule: SpecRule, zone: Seq<char>) -> Seq<VisitV> {
    if !spec_zone_name_is_safe(zone) {
        seq![VisitV::Skip(rule.name, zone)]
    } else {
        rule.on_appear.map_values(|c: Seq<char>| VisitV::Appear(rule.name, zone, c)).push(
            VisitV::AppearDone(rule.name, zone),
        ) + rule.clear_if_maintenance.map_values(
            |f: Seq<char>| VisitV::Clear(rule.name, zone, f),
        ) + rule.wait_online.map_values(|f: Seq<char>| VisitV::Online(rule.name, zone, f))
    }
}

/// The visits of a rule over the running zones, in their order.
pub open spec fn rule_visits(rule: SpecRule, zones: Seq<Seq<char>>) -> Seq<VisitV>
    decreases zones.len(),
{
    if zones.len() == 0 {
        seq![]
    } else {
        rule_visits(rule, zones.drop_last()) + if contains(zones.last(), rule.zone_substring) {
            zone_visits(rule, zones.last())
        } else {
            seq![]
        }
    }
}

/// The visits of a round: rule by rule, zone by zone.
pub open spec fn round_visits(rules: Seq<SpecRule>, zones: Seq<Seq<char>>) -> Seq<VisitV>
    decreases rules.len(),
{
    if rules.len() == 0 {
        seq![]
    } else {
        round_visits(rules.drop_last(), zones) + rule_visits(rules.last(), zones)
    }
}

fn append_visits(out: &mut Vec<Visit>, more: Vec<Visit>)
    ensures
        visits_view(final(out)@) == visits_view(old(out)@) + visits_view(more@),
{
    let ghost pre = out@;
    let ghost added = more@;
    let mut more = more;
    out.append(&mut more);
    assert(visits_view(out@) =~= visits_view(pre) + visits_view(added));
}

/// The visit of an item: a first-appearance command (kind 0), a service to
/// clear (kind 1) or one awaited (kind 2).
pub open spec fn item_visit(kind: u8, rule: Seq<char>, zone: Seq<char>, c: Seq<char>) -> VisitV {
    if kind == 0 {
        VisitV::Appear(rule, zone, c)
    } else if kind == 1 {
        VisitV::Clear(rule, zone, c)
    } else {
        VisitV::Online(rule, zone, c)
    }
}

/// Visits of one kind for the items of a rule.
fn item_visits(rule: &str, zone: &str, items: &Vec<String>, kind: u8) -> (r: Vec<Visit>)
    ensures
        visits_view(r@) == strings_view(items@).map_values(
            |c: Seq<char>| item_visit(kind, rule@, zone@, c),
        ),
{
    let ghost iv = strings_view(items@);
    let mut out: Vec<Visit> = Vec::new();
    let mut i: usize = 0;
    while i < items.len()
        invariant
            i <= items@.len(),
            iv == strings_view(items@),
            visits_view(out@) == iv.take(i as int).map_values(
                |c: Seq<char>| item_visit(kind, rule@, zone@, c),
            ),
        decreases items@.len() - i,
    {
        let ghost pre = out@;
        let r = string_from(rule);
        let z = string_from(zone);
        let c = items[i].clone();
        assert(iv[i as int] == c@);
        let v = if kind == 0 {
            Visit::Appear { rule: r, zone: z, cmd: c }
        } else if kind == 1 {
            Visit::Clear { rule: r, zone: z, fmri: c }
        } else {
            Visit::Online { rule: r, zone: z, fmri: c }
        };
        assert(visit_view(v) == item_visit(kind, rule@, zone@, iv[i as int]));
        out.push(v);
        assert(visits_view(out@) =~= visits_view(pre).push(
            item_visit(kind, rule@, zone@, iv[i as int]),
        ));
        assert(iv.take(i + 1).map_values(|c: Seq<char>| item_visit(kind, rule@, zone@, c))
            =~= iv.take(i as int).map_values(|c: Seq<char>| item_visit(kind, rule@, zone@, c)).push(
            item_visit(kind, rule@, zone@, iv[i as int]),
        ));
        i = i + 1;
    }
    assert(iv.take(i as int) =~= iv);
    out
}

/// The visits of a rule for a zone it applies to.
fn zone_visits_exec(rule: &WatchdogRule, zone: &str) -> (r: Vec<Visit>)
    ensures
        visits_view(r@) == zone_visits(rule@, zone@),
{
    let name = rule.name.as_str();
    if !zone_name_is_safe(zone) {
        let r = vec![Visit::Skip { rule: string_from(name), zone: string_from(zone) }];
        assert(visits_view(r@) =~= seq![VisitV::Skip(rule@.name, zone@)]);
        return r;
    }
    let mut out = item_visits(name, zone, &rule.on_appear, 0);
    let ghost a = visits_view(out@);
    out.push(Visit::AppearDone { rule: string_from(name), zone: string_from(zone) });
    assert(visits_view(out@) =~= a.push(VisitV::AppearDone(rule@.name, zone@)));
    append_visits(&mut out, item_visits(name, zone, &rule.clear_if_maintenance, 1));
    append_visits(&mut out, item_visits(name, zone, &rule.wait_online, 2));
    proof {
        let n = rule@.name;
        let z = zone@;
        assert(rule@.on_appear.map_values(|c: Seq<char>| VisitV::Appear(n, z, c)) =~= strings_view(
            rule.on_appear@,
        ).map_values(|c: Seq<char>| item_visit(0u8, n, z, c)));
        assert(rule@.clear_if_maintenance.map_values(|f: Seq<char>| VisitV::Clear(n, z, f))
            =~= strings_view(rule.clear_if_maintenance@).map_values(
            |c: Seq<char>| item_visit(1u8, n, z, c),
        ));
        assert(rule@.wait_online.map_values(|f: Seq<char>| VisitV::Online(n, z, f))
            =~= strings_view(rule.wait_online@).map_values(|c: Seq<char>| item_visit(2u8, n, z, c)));
    }
    out
}

/// The visits of a round over the running zones.
pub fn round_visits_exec(rules: &Vec<WatchdogRule>, zones: &Vec<String>) -> (r: Vec<Visit>)
    ensures
        visits_view(r@) == round_visits(rules_view(rules@), strings_view(zones@)),
{
    let ghost rv = rules_view(rules@);
    let ghost zv = strings_view(zones@);
    let mut out: Vec<Visit> = Vec::new();
    let mut i: usize = 0;
    assert(rv.take(0) =~= Seq::<SpecRule>::empty());
    while i < rules.len()
        invariant
            i <= rules@.len(),
            rv == rules_view(rules@),
            zv == strings_view(zones@),
            visits_view(out@) == round_visits(rv.take(i as int), zv),
        decreases rules@.len() - i,
    {
        let rule = &rules[i];
        let ghost before = visits_view(out@);
        let mut j: usize = 0;
        assert(zv.take(0) =~= Seq::<Seq<char>>::empty());
        assert(before + rule_visits(rule@, zv.take(0)) =~= before);
        while j < zones.len()
            invariant
                j <= zones@.len(),
                i < rules@.len(),
                rule == &rules@[i as int],
                zv == strings_view(zones@),
                visits_view(out@) == before + rule_visits(rule@, zv.take(j as int)),
            decreases zones@.len() - j,
        {
            let zone = zones[j].as_str();
            assert(zv.take(j + 1).drop_last() =~= zv.take(j as int));
            assert(zv.take(j + 1).last() == zone@);
            if rule_applies(rule, zone) {
                let ghost pre = visits_view(out@);
                append_visits(&mut out, zone_visits_exec(rule, zone));
                assert(pre + zone_visits(rule@, zone@) =~= before + rule_visits(
                    rule@,
                    zv.take(j + 1),
                ));
            } else {
                assert(before + rule_visits(rule@, zv.take(j as int)) =~= before + rule_visits(
                    rule@,
                    zv.take(j + 1),
                ));
            }
            j = j + 1;
        }
        assert(zv.take(j as int) =~= zv);
        assert(rv.take(i + 1).drop_last() =~= rv.take(i as int));
        assert(rv.take(i + 1).last() == rule@);
        i = i + 1;
    }
    assert(rv.take(i as int) =~= rv);
    out
}

/// What the watchdog waits for.
pub enum Pending {
    /// The zone list.
    Poll,
    /// The pause between rounds.
    Sleep,
    /// A first-appearance command.
    Appear { rule: String, zone: String, cmd: String },
    /// The state of a service that may need clearing.
    StateQuery { rule: String, zone: String, fmri: String },
    /// The explanation taken before a clear, of a service in `state`.
    Explain { rule: String, zone: String, fmri: String, state: String },
    /// The clear of a service that was in `state`.
    Clearing { rule: String, zone: String, fmri: String, state: String },
    /// The state of an awaited service.
    OnlineQuery { rule: String, zone: String, fmri: String },
}

pub enum PendingV {
    Poll,
    Sleep,
    Appear(Seq<char>, Seq<char>, Seq<char>),
    StateQuery(Seq<char>, Seq<char>, Seq<char>),
    Explain(Seq<char>, Seq<char>, Seq<char>, Seq<char>),
    Clearing(Seq<char>, Seq<char>, Seq<char>, Seq<char>),
    OnlineQuery(Seq<char>, Seq<char>, Seq<char>),
}

pub open spec fn pending_view(p: Pending) -> PendingV {
    match p {
        Pending::Poll => PendingV::Poll,
        Pending::Sleep => PendingV::Sleep,
        Pending::Appear { rule, zone, cmd } => PendingV::Appear(rule@, zone@, cmd@),
        Pending::StateQuery { rule, zone, fmri } => PendingV::StateQuery(rule@, zone@, fmri@),
        Pending::Explain { rule, zone, fmri, state } => PendingV::Explain(
            rule@,
            zone@,
            fmri@,
            state@,
        ),
        Pending::Clearing { rule, zone, fmri, state } => PendingV::Clearing(
            rule@,
            zone@,
            fmri@,
            state@,
        ),
        Pending::OnlineQuery { rule, zone, fmri } => PendingV::OnlineQuery(rule@, zone@, fmri@),
    }
}

/// What the caller does next.
#[derive(Debug)]
pub enum WatchAct {
    /// Run a command on the host; a quiet one goes to the log only.
    Run { cmd: String, quiet: bool },
    /// Sleep for the seconds given.
    Sleep(u64),
}

pub enum WatchActV {
    Run(Seq<char>, bool),
    Sleep(u64),
}

pub open spec fn watch_act_view(a: WatchAct) -> WatchActV {
    match a {
        WatchAct::Run { cmd, quiet } => WatchActV::Run(cmd@, quiet),
        WatchAct::Sleep(n) => WatchActV::Sleep(n),
    }
}

/// What the last action gave.
pub enum WatchInput {
    /// The command ran.
    Output { exit_code: i32, stdout: String, stderr: String },
    /// The command could not be run.
    Error(String),
    /// The sleep ended.
    Slept,
}

pub enum WatchInputV {
    Output(i32, Seq<char>, Seq<char>),
    Error(Seq<char>),
    Slept,
}

pub open spec fn watch_input_view(i: WatchInput) -> WatchInputV {
    match i {
        WatchInput::Output { exit_code, stdout, stderr } => WatchInputV::Output(
            exit_code,
            stdout@,
            stderr@,
        ),
        WatchInput::Error(e) => WatchInputV::Error(e@),
        WatchInput::Slept => WatchInputV::Slept,
    }
}

/// The input answers the action: a sleep ends, a command runs or fails.
pub open spec fn answers(p: PendingV, i: WatchInputV) -> bool {
    (p is Sleep) == (i is Slept)
}

/// The watchdog: its rules, the memory of what was done, the visits of the
/// current round and what it waits for.
pub struct Watchdog {
    pub rules: Vec<WatchdogRule>,
    /// (rule, zone) whose first-appearance commands ran.
    pub appear_done: OnceSet,
    /// (zone, service) cleared or seen healthy.
    pub clear_done: OnceSet,
    /// (zone, service) seen online.
    pub online_seen: OnceSet,
    pub visits: Vec<Visit>,
    /// The next visit of the round.
    pub next: usize,
    pub pending: Pending,
}

/// The watchdog as values.
#[verifier::ext_equal]
pub struct WatchState {
    pub rules: Seq<SpecRule>,
    pub appear: Set<(Seq<char>, Seq<char>)>,
    pub clear: Set<(Seq<char>, Seq<char>)>,
    pub online: Set<(Seq<char>, Seq<char>)>,
    pub visits: Seq<VisitV>,
    pub next: int,
    pub pending: PendingV,
}

impl View for Watchdog {
    type V = WatchState;

    open spec fn view(&self) -> WatchState {
        WatchState {
            rules: rules_view(self.rules@),
            appear: self.appear_done@,
            clear: self.clear_done@,
            online: self.online_seen@,
            visits: visits_view(self.visits@),
            next: self.next as int,
            pending: pending_view(self.pending),
        }
    }
}

/// Go through the visits of the round from the next one: report skipped
/// zones, mark first appearances done, pass over what is done already,
/// and stop at the first command to run; at the end of the round, sleep.
pub open spec fn spec_advance(s: WatchState) -> (WatchState, Seq<Seq<char>>, WatchActV)
    decreases s.visits.len() - s.next,
{
    if s.next < 0 || s.next >= s.visits.len() {
        (WatchState { pending: PendingV::Sleep, ..s }, seq![], WatchActV::Sleep(5))
    } else {
        let t = WatchState { next: s.next + 1, ..s };
        match s.visits[s.next] {
            VisitV::Skip(r, z) => {
                let a = spec_advance(t);
                (
                    a.0,
                    seq![spec_report(r, "skipping zone with unexpected name: "@ + debug_text(z))]
                        + a.1,
                    a.2,
                )
            },
            VisitV::Appear(r, z, c) => if s.appear.contains((r, z)) {
                spec_advance(t)
            } else {
                (
                    WatchState { pending: PendingV::Appear(r, z, c), ..t },
                    seq![],
                    WatchActV::Run(spec_zlogin(z, c), true),
                )
            },
            VisitV::AppearDone(r, z) => spec_advance(
                WatchState { appear: s.appear.insert((r, z)), ..t },
            ),
            VisitV::Clear(r, z, f) => if s.clear.contains((z, f)) {
                spec_advance(t)
            } else {
                (
                    WatchState { pending: PendingV::StateQuery(r, z, f), ..t },
                    seq![],
                    WatchActV::Run(spec_state_query(z, f), true),
                )
            },
            VisitV::Online(r, z, f) => if s.online.contains((z, f)) {
                spec_advance(t)
            } else {
                (
                    WatchState { pending: PendingV::OnlineQuery(r, z, f), ..t },
                    seq![],
                    WatchActV::Run(spec_state_query(z, f), true),
                )
            },
        }
    }
}

/// The report of a first-appearance command by how it went.
pub open spec fn appear_line(r: Seq<char>, c: Seq<char>, z: Seq<char>, i: WatchInputV) -> Seq<char> {
    match i {
        WatchInputV::Output(code, _, err) => spec_report(
            r,
            c + " in "@ + z + if code == 0 {
                Seq::<char>::empty()
            } else {
                " exited "@ + crate::text::signed_decimal(code as int) + " \u{2014} "@ + trim(err)
            },
        ),
        WatchInputV::Error(e) => spec_report(r, c + " in "@ + z + " failed: "@ + e),
        WatchInputV::Slept => seq![],
    }
}

/// The zone list command.
pub open spec fn zone_list() -> Seq<char> {
    "zoneadm list -cp"@
}

/// The next state, the lines to report and the next action, from a state
/// and what the last action gave.
pub open spec fn spec_watch_step(s: WatchState, i: WatchInputV) -> (
    WatchState,
    Seq<Seq<char>>,
    WatchActV,
) {
    match s.pending {
        PendingV::Poll => match i {
            WatchInputV::Output(_, out, _) => spec_advance(
                WatchState {
                    visits: round_visits(s.rules, running_names(lines(out))),
                    next: 0,
                    ..s
                },
            ),
            _ => (WatchState { pending: PendingV::Sleep, ..s }, seq![], WatchActV::Sleep(5)),
        },
        PendingV::Sleep => (
            WatchState { pending: PendingV::Poll, ..s },
            seq![],
            WatchActV::Run(zone_list(), true),
        ),
        PendingV::Appear(r, z, c) => {
            let a = spec_advance(s);
            (a.0, seq![appear_line(r, c, z, i)] + a.1, a.2)
        },
        PendingV::StateQuery(r, z, f) => match i {
            WatchInputV::Output(_, out, _) => match spec_clear_decision(out) {
                ClearDecision::Clear => (
                    WatchState { pending: PendingV::Explain(r, z, f, trim(out)), ..s },
                    seq![],
                    WatchActV::Run(spec_zlogin(z, "svcs -xv "@ + f), false),
                ),
                ClearDecision::Healthy => spec_advance(
                    WatchState { clear: s.clear.insert((z, f)), ..s },
                ),
                ClearDecision::Wait => spec_advance(s),
            },
            _ => spec_advance(s),
        },
        PendingV::Explain(r, z, f, st) => (
            WatchState { pending: PendingV::Clearing(r, z, f, st), ..s },
            seq![],
            WatchActV::Run(spec_zlogin(z, "svcadm clear "@ + f), true),
        ),
        PendingV::Clearing(r, z, f, st) => {
            let a = spec_advance(WatchState { clear: s.clear.insert((z, f)), ..s });
            (
                a.0,
                seq![spec_report(r, "cleared "@ + f + " in "@ + z + " (was "@ + st + ")"@)] + a.1,
                a.2,
            )
        },
        PendingV::OnlineQuery(r, z, f) => match i {
            WatchInputV::Output(_, out, _) => if trim(out) == "online"@ {
                let a = spec_advance(WatchState { online: s.online.insert((z, f)), ..s });
                (a.0, seq![spec_report(r, f + " online in "@ + z)] + a.1, a.2)
            } else {
                spec_advance(s)
            },
            _ => spec_advance(s),
        },
    }
}

fn clone_visit(v: &Visit) -> (r: Visit)
    ensures
        visit_view(r) == visit_view(*v),
{
    match v {
        Visit::Skip { rule, zone } => Visit::Skip { rule: rule.clone(), zone: zone.clone() },
        Visit::Appear { rule, zone, cmd } => Visit::Appear {
            rule: rule.clone(),
            zone: zone.clone(),
            cmd: cmd.clone(),
        },
        Visit::AppearDone { rule, zone } => Visit::AppearDone {
            rule: rule.clone(),
            zone: zone.clone(),
        },
        Visit::Clear { rule, zone, fmri } => Visit::Clear {
            rule: rule.clone(),
            zone: zone.clone(),
            fmri: fmri.clone(),
        },
        Visit::Online { rule, zone, fmri } => Visit::Online {
            rule: rule.clone(),
            zone: zone.clone(),
            fmri: fmri.clone(),
        },
    }
}

fn clone_pending(p: &Pending) -> (r: Pending)
    ensures
        pending_view(r) == pending_view(*p),
{
    match p {
        Pending::Poll => Pending::Poll,
        Pending::Sleep => Pending::Sleep,
        Pending::Appear { rule, zone, cmd } => Pending::Appear {
            rule: rule.clone(),
            zone: zone.clone(),
            cmd: cmd.clone(),
        },
        Pending::StateQuery { rule, zone, fmri } => Pending::StateQuery {
            rule: rule.clone(),
            zone: zone.clone(),
            fmri: fmri.clone(),
        },
        Pending::Explain { rule, zone, fmri, state } => Pending::Explain {
            rule: rule.clone(),
            zone: zone.clone(),
            fmri: fmri.clone(),
            state: state.clone(),
        },
        Pending::Clearing { rule, zone, fmri, state } => Pending::Clearing {
            rule: rule.clone(),
            zone: zone.clone(),
            fmri: fmri.clone(),
            state: state.clone(),
        },
        Pending::OnlineQuery { rule, zone, fmri } => Pending::OnlineQuery {
            rule: rule.clone(),
            zone: zone.clone(),
            fmri: fmri.clone(),
        },
    }
}

/// A line, then the lines that follow.
fn prepend(line: String, rest: Vec<String>) -> (r: Vec<String>)
    ensures
        strings_view(r@) == seq![line@] + strings_view(rest@),
{
    let mut out = vec![line];
    let ghost first = out@;
    let ghost added = rest@;
    let mut rest = rest;
    out.append(&mut rest);
    assert(strings_view(out@) =~= seq![line@] + strings_view(added));
    out
}

impl Watchdog {
    /// A watchdog over `rules` that has done nothing yet: it reports that it
    /// is active and asks for the zone list.
    pub fn new(rules: Vec<WatchdogRule>) -> (r: (Watchdog, Vec<String>, WatchAct))
        ensures
            r.0@ == (WatchState {
                rules: rules_view(rules@),
                appear: Set::empty(),
                clear: Set::empty(),
                online: Set::empty(),
                visits: seq![],
                next: 0,
                pending: PendingV::Poll,
            }),
            strings_view(r.1@) == seq!["watchdog: active"@],
            watch_act_view(r.2) == WatchActV::Run(zone_list(), true),
    {
        let w = Watchdog {
            rules,
            appear_done: OnceSet::new(),
            clear_done: OnceSet::new(),
            online_seen: OnceSet::new(),
            visits: Vec::new(),
            next: 0,
            pending: Pending::Poll,
        };
        assert(visits_view(w.visits@) =~= Seq::<VisitV>::empty());
        let reports = vec![string_from("watchdog: active")];
        assert(strings_view(reports@) =~= seq!["watchdog: active"@]);
        (w, reports, WatchAct::Run { cmd: string_from("zoneadm list -cp"), quiet: true })
    }

    fn advance(&mut self) -> (r: (Vec<String>, WatchAct))
        ensures
            final(self)@ == spec_advance(old(self)@).0,
            strings_view(r.0@) == spec_advance(old(self)@).1,
            watch_act_view(r.1) == spec_advance(old(self)@).2,
    {
        let mut reports: Vec<String> = Vec::new();
        assert(strings_view(reports@) + spec_advance(self@).1 =~= spec_advance(self@).1);
        loop
            invariant
                spec_advance(old(self)@).0 == spec_advance(self@).0,
                spec_advance(old(self)@).1 == strings_view(reports@) + spec_advance(self@).1,
                spec_advance(old(self)@).2 == spec_advance(self@).2,
            decreases self.visits@.len() - self.next,
        {
            let ghost prev = self@;
            if self.next >= self.visits.len() {
                self.pending = Pending::Sleep;
                assert(self@ =~= WatchState { pending: PendingV::Sleep, ..prev });
                assert(strings_view(reports@) + Seq::<Seq<char>>::empty() =~= strings_view(
                    reports@,
                ));
                return (reports, WatchAct::Sleep(5));
            }
            let i = self.next;
            let v = clone_visit(&self.visits[i]);
            assert(prev.visits[prev.next] == visit_view(v));
            let ghost t = WatchState { next: prev.next + 1, ..prev };
            match v {
                Visit::Skip { rule, zone } => {
                    let ghost before = strings_view(reports@);
                    reports.push(skipped_zone_report(rule.as_str(), zone.as_str()));
                    self.next = i + 1;
                    assert(self@ =~= t);
                    assert(strings_view(reports@) =~= before.push(
                        spec_report(rule@, "skipping zone with unexpected name: "@ + debug_text(zone@)),
                    ));
                    assert(before + (seq![
                        spec_report(rule@, "skipping zone with unexpected name: "@ + debug_text(zone@)),
                    ] + spec_advance(t).1) =~= strings_view(reports@) + spec_advance(t).1);
                },
                Visit::Appear { rule, zone, cmd } => {
                    if self.appear_done.contains(rule.as_str(), zone.as_str()) {
                        self.next = i + 1;
                        assert(self@ =~= t);
                    } else {
                        let c = zlogin_command(zone.as_str(), cmd.as_str());
                        self.next = i + 1;
                        self.pending = Pending::Appear { rule, zone, cmd };
                        assert(self@ =~= WatchState {
                            pending: PendingV::Appear(rule@, zone@, cmd@),
                            ..t
                        });
                        assert(strings_view(reports@) + Seq::<Seq<char>>::empty()
                            =~= strings_view(reports@));
                        return (reports, WatchAct::Run { cmd: c, quiet: true });
                    }
                },
                Visit::AppearDone { rule, zone } => {
                    self.appear_done.first_time(rule.as_str(), zone.as_str());
                    self.next = i + 1;
                    assert(self@ =~= WatchState {
                        appear: prev.appear.insert((rule@, zone@)),
                        ..t
                    });
                },
                Visit::Clear { rule, zone, fmri } => {
                    if self.clear_done.contains(zone.as_str(), fmri.as_str()) {
                        self.next = i + 1;
                        assert(self@ =~= t);
                    } else {
                        let c = state_query_command(zone.as_str(), fmri.as_str());
                        self.next = i + 1;
                        self.pending = Pending::StateQuery { rule, zone, fmri };
                        assert(self@ =~= WatchState {
                            pending: PendingV::StateQuery(rule@, zone@, fmri@),
                            ..t
                        });
                        assert(strings_view(reports@) + Seq::<Seq<char>>::empty()
                            =~= strings_view(reports@));
                        return (reports, WatchAct::Run { cmd: c, quiet: true });
                    }
                },
                Visit::Online { rule, zone, fmri } => {
                    if self.online_seen.contains(zone.as_str(), fmri.as_str()) {
                        self.next = i + 1;
                        assert(self@ =~= t);
                    } else {
                        let c = state_query_command(zone.as_str(), fmri.as_str());
                        self.next = i + 1;
                        self.pending = Pending::OnlineQuery { rule, zone, fmri };
                        assert(self@ =~= WatchState {
                            pending: PendingV::OnlineQuery(rule@, zone@, fmri@),
                            ..t
                        });
                        assert(strings_view(reports@) + Seq::<Seq<char>>::empty()
                            =~= strings_view(reports@));
                        return (reports, WatchAct::Run { cmd: c, quiet: true });
                    }
                },
            }
        }
    }

    /// Take what the last action gave: the lines to report under the
    /// verify step and the next action.
    pub fn step(&mut self, input: WatchInput) -> (r: (Vec<String>, WatchAct))
        requires
            answers(old(self)@.pending, watch_input_view(input)),
        ensures
            final(self)@ == spec_watch_step(old(self)@, watch_input_view(input)).0,
            strings_view(r.0@) == spec_watch_step(old(self)@, watch_input_view(input)).1,
            watch_act_view(r.1) == spec_watch_step(old(self)@, watch_input_view(input)).2,
    {
        let ghost s0 = self@;
        let pending = clone_pending(&self.pending);
        match pending {
            Pending::Poll => match input {
                WatchInput::Output { stdout, .. } => {
                    let zones = running_zone_names(stdout.as_str());
                    self.visits = round_visits_exec(&self.rules, &zones);
                    self.next = 0;
                    assert(self@ =~= WatchState {
                        visits: round_visits(s0.rules, running_names(lines(stdout@))),
                        next: 0,
                        ..s0
                    });
                    self.advance()
                },
                _ => {
                    self.pending = Pending::Sleep;
                    assert(self@ =~= WatchState { pending: PendingV::Sleep, ..s0 });
                    let none: Vec<String> = Vec::new();
                    assert(strings_view(none@) =~= Seq::<Seq<char>>::empty());
                    (none, WatchAct::Sleep(5))
                },
            },
            Pending::Sleep => {
                self.pending = Pending::Poll;
                assert(self@ =~= WatchState { pending: PendingV::Poll, ..s0 });
                let none: Vec<String> = Vec::new();
                assert(strings_view(none@) =~= Seq::<Seq<char>>::empty());
                (none, WatchAct::Run { cmd: string_from("zoneadm list -cp"), quiet: true })
            },
            Pending::Appear { rule, zone, cmd } => {
                let outcome = match input {
                    WatchInput::Output { exit_code, stderr, .. } => {
                        if exit_code == 0 {
                            AppearOutcome::Succeeded
                        } else {
                            AppearOutcome::Exited { code: exit_code, stderr }
                        }
                    },
                    WatchInput::Error(e) => AppearOutcome::Failed { error: e },
                    WatchInput::Slept => AppearOutcome::Failed { error: String::new() },
                };
                let line = appear_report(rule.as_str(), cmd.as_str(), zone.as_str(), &outcome);
                assert(line@ == appear_line(rule@, cmd@, zone@, watch_input_view(input)));
                let (rest, act) = self.advance();
                (prepend(line, rest), act)
            },
            Pending::StateQuery { rule, zone, fmri } => match input {
                WatchInput::Output { stdout, .. } => match clear_decision(stdout.as_str()) {
                    ClearDecision::Clear => {
                        let v = to_chars(stdout.as_str());
                        let state = string_of(trim_chars(v.as_slice()));
                        let c = explain_command(zone.as_str(), fmri.as_str());
                        self.pending = Pending::Explain { rule, zone, fmri, state };
                        assert(self@ =~= WatchState {
                            pending: PendingV::Explain(rule@, zone@, fmri@, trim(stdout@)),
                            ..s0
                        });
                        let none: Vec<String> = Vec::new();
                        assert(strings_view(none@) =~= Seq::<Seq<char>>::empty());
                        (none, WatchAct::Run { cmd: c, quiet: false })
                    },
                    ClearDecision::Healthy => {
                        self.clear_done.first_time(zone.as_str(), fmri.as_str());
                        assert(self@ =~= WatchState {
                            clear: s0.clear.insert((zone@, fmri@)),
                            ..s0
                        });
                        self.advance()
                    },
                    ClearDecision::Wait => self.advance(),
                },
                _ => self.advance(),
            },
            Pending::Explain { rule, zone, fmri, state } => {
                let c = clear_command(zone.as_str(), fmri.as_str());
                self.pending = Pending::Clearing { rule, zone, fmri, state };
                assert(self@ =~= WatchState {
                    pending: PendingV::Clearing(
                        pending_view(pending)->Explain_0,
                        pending_view(pending)->Explain_1,
                        pending_view(pending)->Explain_2,
                        pending_view(pending)->Explain_3,
                    ),
                    ..s0
                });
                let none: Vec<String> = Vec::new();
                assert(strings_view(none@) =~= Seq::<Seq<char>>::empty());
                (none, WatchAct::Run { cmd: c, quiet: true })
            },
            Pending::Clearing { rule, zone, fmri, state } => {
                let line = cleared_report(rule.as_str(), fmri.as_str(), zone.as_str(), state.as_str());
                self.clear_done.first_time(zone.as_str(), fmri.as_str());
                assert(self@ =~= WatchState { clear: s0.clear.insert((zone@, fmri@)), ..s0 });
                let (rest, act) = self.advance();
                (prepend(line, rest), act)
            },
            Pending::OnlineQuery { rule, zone, fmri } => match input {
                WatchInput::Output { stdout, .. } => {
                    if reports_online(stdout.as_str()) {
                        let line = online_report(rule.as_str(), fmri.as_str(), zone.as_str());
                        self.online_seen.first_time(zone.as_str(), fmri.as_str());
                        assert(self@ =~= WatchState {
                            online: s0.online.insert((zone@, fmri@)),
                            ..s0
                        });
                        let (rest, act) = self.advance();
                        (prepend(line, rest), act)
                    } else {
                        self.advance()
                    }
                },
                _ => self.advance(),
            },
        }
    }
}

/// A visit that runs a command names a zone that is safe to put in one.
pub open spec fn visit_zone_safe(v: VisitV) -> bool {
    match v {
        VisitV::Skip(_, _) => true,
        VisitV::Appear(_, z, _) => spec_zone_name_is_safe(z),
        VisitV::AppearDone(_, z) => spec_zone_name_is_safe(z),
        VisitV::Clear(_, z, _) => spec_zone_name_is_safe(z),
        VisitV::Online(_, z, _) => spec_zone_name_is_safe(z),
    }
}

proof fn lemma_zone_visits_safe(rule: SpecRule, zone: Seq<char>)
    ensures
        forall|k: int|
            0 <= k < zone_visits(rule, zone).len() ==> visit_zone_safe(
                #[trigger] zone_visits(rule, zone)[k],
            ),
{
}

proof fn lemma_rule_visits_safe(rule: SpecRule, zones: Seq<Seq<char>>)
    ensures
        forall|k: int|
            0 <= k < rule_visits(rule, zones).len() ==> visit_zone_safe(
                #[trigger] rule_visits(rule, zones)[k],
            ),
    decreases zones.len(),
{
    if zones.len() > 0 {
        lemma_rule_visits_safe(rule, zones.drop_last());
        lemma_zone_visits_safe(rule, zones.last());
        let a = rule_visits(rule, zones.drop_last());
        let b = if contains(zones.last(), rule.zone_substring) {
            zone_visits(rule, zones.last())
        } else {
            seq![]
        };
        assert forall|k: int| 0 <= k < (a + b).len() implies visit_zone_safe(#[trigger] (a + b)[k]) by {
            if k >= a.len() {
                assert((a + b)[k] == b[k - a.len()]);
            }
        }
    }
}

/// Every command that a round runs inside a zone names a zone whose name
/// is safe to embed in a single-quoted `zlogin` command: zones with other
/// names are only reported as skipped.
pub proof fn law_round_commands_safe(rules: Seq<SpecRule>, zones: Seq<Seq<char>>)
    ensures
        forall|k: int|
            0 <= k < round_visits(rules, zones).len() ==> visit_zone_safe(
                #[trigger] round_visits(rules, zones)[k],
            ),
    decreases rules.len(),
{
    if rules.len() > 0 {
        law_round_commands_safe(rules.drop_last(), zones);
        lemma_rule_visits_safe(rules.last(), zones);
        let a = round_visits(rules.drop_last(), zones);
        let b = rule_visits(rules.last(), zones);
        assert forall|k: int| 0 <= k < (a + b).len() implies visit_zone_safe(#[trigger] (a + b)[k]) by {
            if k >= a.len() {
                assert((a + b)[k] == b[k - a.len()]);
            }
        }
    }
}

/// The memory of a state holds all that of another.
pub open spec fn remembers(later: WatchState, earlier: WatchState) -> bool {
    &&& earlier.appear.subset_of(later.appear)
    &&& earlier.clear.subset_of(later.clear)
    &&& earlier.online.subset_of(later.online)
    &&& later.rules == earlier.rules
}

/// A first-appearance command about to run is one whose (rule, zone) is
/// not yet done.
pub open spec fn appear_pending_is_new(s: WatchState) -> bool {
    s.pending matches PendingV::Appear(r, z, _) ==> !s.appear.contains((r, z))
}

proof fn lemma_advance(s: WatchState)
    ensures
        remembers(spec_advance(s).0, s),
        appear_pending_is_new(spec_advance(s).0),
    decreases s.visits.len() - s.next,
{
    if s.next < 0 || s.next >= s.visits.len() {
    } else {
        let t = WatchState { next: s.next + 1, ..s };
        match s.visits[s.next] {
            VisitV::Skip(r, z) => {
                lemma_advance(t);
            },
            VisitV::Appear(r, z, c) => {
                if s.appear.contains((r, z)) {
                    lemma_advance(t);
                }
            },
            VisitV::AppearDone(r, z) => {
                lemma_advance(WatchState { appear: s.appear.insert((r, z)), ..t });
            },
            VisitV::Clear(r, z, f) => {
                if s.clear.contains((z, f)) {
                    lemma_advance(t);
                }
            },
            VisitV::Online(r, z, f) => {
                if s.online.contains((z, f)) {
                    lemma_advance(t);
                }
            },
        }
    }
}

/// The watchdog never forgets: what it has done (first-appearance
/// commands, services cleared or seen healthy, services seen online) stays
/// done after every step, so each one-shot action happens once per key
/// over the whole run; and a first-appearance command is only ever run for
/// a (rule, zone) not done yet.
pub proof fn law_watch_memory(s: WatchState, i: WatchInputV)
    ensures
        remembers(spec_watch_step(s, i).0, s),
        appear_pending_is_new(spec_watch_step(s, i).0),
{
    match s.pending {
        PendingV::Poll => match i {
            WatchInputV::Output(_, out, _) => {
                lemma_advance(
                    WatchState {
                        visits: round_visits(s.rules, running_names(lines(out))),
                        next: 0,
                        ..s
                    },
                );
            },
            _ => {},
        },
        PendingV::Sleep => {},
        PendingV::Appear(r, z, c) => {
            lemma_advance(s);
        },
        PendingV::StateQuery(r, z, f) => match i {
            WatchInputV::Output(_, out, _) => match spec_clear_decision(out) {
                ClearDecision::Clear => {},
                ClearDecision::Healthy => {
                    lemma_advance(WatchState { clear: s.clear.insert((z, f)), ..s });
                },
                ClearDecision::Wait => {
                    lemma_advance(s);
                },
            },
            _ => {
                lemma_advance(s);
            },
        },
        PendingV::Explain(r, z, f, st) => {},
        PendingV::Clearing(r, z, f, st) => {
            lemma_advance(WatchState { clear: s.clear.insert((z, f)), ..s });
        },
        PendingV::OnlineQuery(r, z, f) => match i {
            WatchInputV::Output(_, out, _) => if trim(out) == "online"@ {
                lemma_advance(WatchState { online: s.online.insert((z, f)), ..s });
            } else {
                lemma_advance(s);
            },
            _ => {
                lemma_advance(s);
            },
        },
    }
}

/// The state after a run of steps on the inputs, in order.
pub open spec fn spec_run(s: WatchState, inputs: Seq<WatchInputV>) -> WatchState
    decreases inputs.len(),
{
    if inputs.len() == 0 {
        s
    } else {
        spec_watch_step(spec_run(s, inputs.drop_last()), inputs.last()).0
    }
}

/// Over a whole run, whatever the host answers: every later state
/// remembers all that an earlier one did; a first-appearance command is
/// only pending for a (rule, zone) not done yet; so once the commands of a
/// (rule, zone) are done, none of them is pending again, and once a
/// service is marked cleared or online it stays so. A watchdog from `new`
/// starts with the zone list pending, so it meets the requirement.
pub proof fn law_run_memory(s: WatchState, inputs: Seq<WatchInputV>, k: int)
    requires
        0 <= k <= inputs.len(),
        appear_pending_is_new(s),
    ensures
        remembers(spec_run(s, inputs), spec_run(s, inputs.take(k))),
        appear_pending_is_new(spec_run(s, inputs)),
        forall|r: Seq<char>, z: Seq<char>|
            #![trigger spec_run(s, inputs.take(k)).appear.contains((r, z))]
            spec_run(s, inputs.take(k)).appear.contains((r, z)) ==> !(spec_run(s, inputs).pending matches PendingV::Appear(r2, z2, _) && r2 == r && z2 == z),
    decreases inputs.len(),
{
    if k == inputs.len() {
        assert(inputs.take(k) =~= inputs);
        if inputs.len() > 0 {
            law_watch_memory(spec_run(s, inputs.drop_last()), inputs.last());
        }
    } else {
        let prev = inputs.drop_last();
        law_run_memory(s, prev, k);
        assert(prev.take(k) =~= inputs.take(k));
        law_watch_memory(spec_run(s, prev), inputs.last());
        let early = spec_run(s, inputs.take(k));
        let mid = spec_run(s, prev);
        let late = spec_run(s, inputs);
        assert(early.appear.subset_of(late.appear));
        assert(early.clear.subset_of(late.clear));
        assert(early.online.subset_of(late.online));
    }
    let early = spec_run(s, inputs.take(k));
    let late = spec_run(s, inputs);
    assert forall|r: Seq<char>, z: Seq<char>|
        #![trigger early.appear.contains((r, z))]
        early.appear.contains((r, z)) implies !(late.pending matches PendingV::Appear(r2, z2, _) && r2 == r && z2 == z) by {
        assert(late.appear.contains((r, z)));
        if inputs.len() == 0 {
            assert(inputs.take(k) =~= inputs);
        }
    }
}

/// An action runs either the zone list or a `zlogin` into a zone whose
/// name is safe to embed.
pub open spec fn act_zone_safe(a: WatchActV) -> bool {
    a matches WatchActV::Run(cmd, _) ==> (cmd == zone_list() || exists|z: Seq<char>, p: Seq<char>|
        spec_zone_name_is_safe(z) && cmd == #[trigger] spec_zlogin(z, p))
}

/// The zone a pending command runs in, if any.
pub open spec fn pending_zone(p: PendingV) -> Option<Seq<char>> {
    match p {
        PendingV::Poll => None,
        PendingV::Sleep => None,
        PendingV::Appear(_, z, _) => Some(z),
        PendingV::StateQuery(_, z, _) => Some(z),
        PendingV::Explain(_, z, _, _) => Some(z),
        PendingV::Clearing(_, z, _, _) => Some(z),
        PendingV::OnlineQuery(_, z, _) => Some(z),
    }
}

/// Every visit of the round, and the pending command, name only safe zones.
pub open spec fn state_zone_safe(s: WatchState) -> bool {
    &&& forall|k: int| 0 <= k < s.visits.len() ==> visit_zone_safe(#[trigger] s.visits[k])
    &&& (pending_zone(s.pending) matches Some(z) ==> spec_zone_name_is_safe(z))
}

proof fn lemma_advance_safe(s: WatchState)
    requires
        state_zone_safe(s),
    ensures
        state_zone_safe(spec_advance(s).0),
        act_zone_safe(spec_advance(s).2),
    decreases s.visits.len() - s.next,
{
    if s.next < 0 || s.next >= s.visits.len() {
    } else {
        let t = WatchState { next: s.next + 1, ..s };
        assert(visit_zone_safe(s.visits[s.next]));
        match s.visits[s.next] {
            VisitV::Skip(r, z) => {
                lemma_advance_safe(t);
            },
            VisitV::Appear(r, z, c) => {
                if s.appear.contains((r, z)) {
                    lemma_advance_safe(t);
                } else {
                    assert(spec_zone_name_is_safe(z) && spec_zlogin(z, c) == spec_zlogin(z, c));
                }
            },
            VisitV::AppearDone(r, z) => {
                lemma_advance_safe(WatchState { appear: s.appear.insert((r, z)), ..t });
            },
            VisitV::Clear(r, z, f) => {
                if s.clear.contains((z, f)) {
                    lemma_advance_safe(t);
                } else {
                    let p = "svcs -H -o state "@ + f + " 2>/dev/null || true"@;
                    assert(spec_state_query(z, f) == spec_zlogin(z, p));
                }
            },
            VisitV::Online(r, z, f) => {
                if s.online.contains((z, f)) {
                    lemma_advance_safe(t);
                } else {
                    let p = "svcs -H -o state "@ + f + " 2>/dev/null || true"@;
                    assert(spec_state_query(z, f) == spec_zlogin(z, p));
                }
            },
        }
    }
}

/// Whatever the host answers, every command the watchdog sends is the zone
/// list or a `zlogin` into a zone with a safe name: a running zone whose
/// name is not safe gets no command, only the report that it was skipped.
/// The watchdog from `new` (nothing visited, the zone list pending) meets
/// the requirement, and every step keeps it.
pub proof fn law_watch_commands_safe(s: WatchState, i: WatchInputV)
    requires
        state_zone_safe(s),
    ensures
        state_zone_safe(spec_watch_step(s, i).0),
        act_zone_safe(spec_watch_step(s, i).2),
{
    match s.pending {
        PendingV::Poll => match i {
            WatchInputV::Output(_, out, _) => {
                let zs = running_names(lines(out));
                law_round_commands_safe(s.rules, zs);
                lemma_advance_safe(WatchState { visits: round_visits(s.rules, zs), next: 0, ..s });
            },
            _ => {},
        },
        PendingV::Sleep => {},
        PendingV::Appear(r, z, c) => {
            lemma_advance_safe(s);
        },
        PendingV::StateQuery(r, z, f) => match i {
            WatchInputV::Output(_, out, _) => match spec_clear_decision(out) {
                ClearDecision::Clear => {
                    assert(spec_zlogin(z, "svcs -xv "@ + f) == spec_zlogin(z, "svcs -xv "@ + f));
                },
                ClearDecision::Healthy => {
                    lemma_advance_safe(WatchState { clear: s.clear.insert((z, f)), ..s });
                },
                ClearDecision::Wait => {
                    lemma_advance_safe(s);
                },
            },
            _ => {
                lemma_advance_safe(s);
            },
        },
        PendingV::Explain(r, z, f, st) => {
            assert(spec_zlogin(z, "svcadm clear "@ + f) == spec_zlogin(z, "svcadm clear "@ + f));
        },
        PendingV::Clearing(r, z, f, st) => {
            lemma_advance_safe(WatchState { clear: s.clear.insert((z, f)), ..s });
        },
        PendingV::OnlineQuery(r, z, f) => match i {
            WatchInputV::Output(_, out, _) => if trim(out) == "online"@ {
                lemma_advance_safe(WatchState { online: s.online.insert((z, f)), ..s });
            } else {
                lemma_advance_safe(s);
            },
            _ => {
                lemma_advance_safe(s);
            },
        },
    }
}

/// No rule lists the same first-appearance command twice.
pub open spec fn distinct_appear_commands(rules: Seq<SpecRule>) -> bool {
    forall|i: int, a: int, b: int|
        0 <= i < rules.len() && 0 <= a < b < rules[i].on_appear.len() ==> #[trigger] rules[i].on_appear[a]
            != #[trigger] rules[i].on_appear[b]
}

/// From visit `m` on, the visits up to the mark that the commands of
/// (`r`, `z`) are done are commands of (`r`, `z`) other than `c`.
pub open spec fn runs_to_done(v: Seq<VisitV>, m: int, r: Seq<char>, z: Seq<char>, c: Seq<char>) -> bool {
    exists|k: int|
        m <= k < v.len() && #[trigger] v[k] == VisitV::AppearDone(r, z) && forall|j: int|
            m <= j < k ==> (#[trigger] v[j] matches VisitV::Appear(r2, z2, x) && r2 == r && z2 == z && x != c)
}

/// Every first-appearance visit is followed, through other commands of the
/// same (rule, zone) only, by the mark that they are done.
pub open spec fn appear_blocks(v: Seq<VisitV>) -> bool {
    forall|m: int|
        0 <= m < v.len() ==> (#[trigger] v[m] matches VisitV::Appear(r, z, c) ==> runs_to_done(v, m + 1, r, z, c))
}

proof fn lemma_blocks_concat(a: Seq<VisitV>, b: Seq<VisitV>)
    requires
        appear_blocks(a),
        appear_blocks(b),
    ensures
        appear_blocks(a + b),
{
    let v = a + b;
    assert forall|m: int| 0 <= m < v.len() implies (#[trigger] v[m] matches VisitV::Appear(r, z, c) ==> runs_to_done(v, m + 1, r, z, c)) by {
        if let VisitV::Appear(r, z, c) = v[m] {
            if m < a.len() {
                assert(a[m] == v[m]);
                let k = choose|k: int|
                    m + 1 <= k < a.len() && #[trigger] a[k] == VisitV::AppearDone(r, z) && forall|j: int|
                        m + 1 <= j < k ==> (#[trigger] a[j] matches VisitV::Appear(r2, z2, x) && r2 == r && z2 == z && x != c);
                assert(v[k] == a[k]);
                assert forall|j: int| m + 1 <= j < k implies (#[trigger] v[j] matches VisitV::Appear(r2, z2, x) && r2 == r && z2 == z && x != c) by {
                    assert(v[j] == a[j]);
                }
            } else {
                let mb = m - a.len();
                assert(b[mb] == v[m]);
                let k = choose|k: int|
                    mb + 1 <= k < b.len() && #[trigger] b[k] == VisitV::AppearDone(r, z) && forall|j: int|
                        mb + 1 <= j < k ==> (#[trigger] b[j] matches VisitV::Appear(r2, z2, x) && r2 == r && z2 == z && x != c);
                assert(v[k + a.len()] == b[k]);
                assert forall|j: int| m + 1 <= j < k + a.len() implies (#[trigger] v[j] matches VisitV::Appear(r2, z2, x) && r2 == r && z2 == z && x != c) by {
                    assert(v[j] == b[j - a.len()]);
                }
            }
        }
    }
}

proof fn lemma_zone_blocks(rule: SpecRule, zone: Seq<char>)
    requires
        forall|a: int, b: int| 0 <= a < b < rule.on_appear.len() ==> #[trigger] rule.on_appear[a] != #[trigger] rule.on_appear[b],
    ensures
        appear_blocks(zone_visits(rule, zone)),
{
    if spec_zone_name_is_safe(zone) {
        let r = rule.name;
        let n = rule.on_appear.len();
        let head = rule.on_appear.map_values(|c: Seq<char>| VisitV::Appear(r, zone, c)).push(VisitV::AppearDone(r, zone));
        let rest = rule.clear_if_maintenance.map_values(|f: Seq<char>| VisitV::Clear(r, zone, f))
            + rule.wait_online.map_values(|f: Seq<char>| VisitV::Online(r, zone, f));
        let v = zone_visits(rule, zone);
        assert(v =~= head + rest);
        assert forall|m: int| 0 <= m < v.len() implies (#[trigger] v[m] matches VisitV::Appear(r2, z2, c) ==> runs_to_done(v, m + 1, r2, z2, c)) by {
            if m < n {
                assert(v[m] == VisitV::Appear(r, zone, rule.on_appear[m]));
                assert(v[n as int] == VisitV::AppearDone(r, zone));
                assert forall|j: int| m + 1 <= j < n implies (#[trigger] v[j] matches VisitV::Appear(r3, z3, x) && r3 == r && z3 == zone && x != rule.on_appear[m]) by {
                    assert(v[j] == VisitV::Appear(r, zone, rule.on_appear[j]));
                    assert(rule.on_appear[m] != rule.on_appear[j]);
                }
            } else if m == n {
                assert(v[m] == VisitV::AppearDone(r, zone));
            } else {
                let mr = m - n - 1;
                assert(v[m] == rest[mr]);
                if mr < rule.clear_if_maintenance.len() {
                    assert(rest[mr] == VisitV::Clear(r, zone, rule.clear_if_maintenance[mr]));
                } else {
                    assert(rest[mr] == VisitV::Online(r, zone, rule.wait_online[mr - rule.clear_if_maintenance.len()]));
                }
            }
        }
    } else {
        let v = zone_visits(rule, zone);
        assert forall|m: int| 0 <= m < v.len() implies (#[trigger] v[m] matches VisitV::Appear(r2, z2, c) ==> runs_to_done(v, m + 1, r2, z2, c)) by {
            assert(v[m] == VisitV::Skip(rule.name, zone));
        }
    }
}

proof fn lemma_rule_blocks(rule: SpecRule, zones: Seq<Seq<char>>)
    requires
        forall|a: int, b: int| 0 <= a < b < rule.on_appear.len() ==> #[trigger] rule.on_appear[a] != #[trigger] rule.on_appear[b],
    ensures
        appear_blocks(rule_visits(rule, zones)),
    decreases zones.len(),
{
    if zones.len() == 0 {
        assert(appear_blocks(rule_visits(rule, zones)));
    } else {
        lemma_rule_blocks(rule, zones.drop_last());
        let b = if contains(zones.last(), rule.zone_substring) {
            lemma_zone_blocks(rule, zones.last());
            zone_visits(rule, zones.last())
        } else {
            assert(appear_blocks(Seq::<VisitV>::empty()));
            Seq::<VisitV>::empty()
        };
        lemma_blocks_concat(rule_visits(rule, zones.drop_last()), b);
    }
}

/// The visits of a round form first-appearance blocks, when no rule repeats
/// a command.
proof fn lemma_round_blocks(rules: Seq<SpecRule>, zones: Seq<Seq<char>>)
    requires
        distinct_appear_commands(rules),
    ensures
        appear_blocks(round_visits(rules, zones)),
    decreases rules.len(),
{
    if rules.len() == 0 {
        assert(appear_blocks(round_visits(rules, zones)));
    } else {
        let d = rules.drop_last();
        assert forall|i: int, a: int, b: int|
            0 <= i < d.len() && 0 <= a < b < d[i].on_appear.len() implies #[trigger] d[i].on_appear[a]
                != #[trigger] d[i].on_appear[b] by {
            assert(d[i] == rules[i]);
        }
        lemma_round_blocks(d, zones);
        let last = rules.last();
        assert forall|a: int, b: int| 0 <= a < b < last.on_appear.len() implies #[trigger] last.on_appear[a]
            != #[trigger] last.on_appear[b] by {
            assert(rules[rules.len() - 1].on_appear[a] != rules[rules.len() - 1].on_appear[b]);
        }
        lemma_rule_blocks(last, zones);
        lemma_blocks_concat(round_visits(d, zones), rule_visits(last, zones));
    }
}

/// The watchdog's round is well formed for first appearances: its visits
/// come in blocks, no rule repeats a command, a pending command is for a
/// (rule, zone) not done yet, and its block runs on to its mark.
pub open spec fn appear_runs_ok(s: WatchState) -> bool {
    &&& appear_blocks(s.visits)
    &&& distinct_appear_commands(s.rules)
    &&& appear_pending_is_new(s)
    &&& (s.pending matches PendingV::Appear(r, z, c) ==> 0 <= s.next && runs_to_done(s.visits, s.next, r, z, c))
}

/// After command `c` of (`r`, `z`) was sent: the pair is done, or another
/// of its commands is pending and the rest of its block lacks `c`.
pub open spec fn appear_sent(s: WatchState, r: Seq<char>, z: Seq<char>, c: Seq<char>) -> bool {
    ||| s.appear.contains((r, z))
    ||| (s.pending matches PendingV::Appear(r2, z2, x) && r2 == r && z2 == z && x != c && 0 <= s.next
        && runs_to_done(s.visits, s.next, r, z, c))
}

proof fn lemma_advance_ok(s: WatchState)
    requires
        appear_blocks(s.visits),
        distinct_appear_commands(s.rules),
    ensures
        appear_runs_ok(spec_advance(s).0),
        spec_advance(s).0.visits == s.visits,
        spec_advance(s).0.rules == s.rules,
    decreases s.visits.len() - s.next,
{
    lemma_advance(s);
    if s.next < 0 || s.next >= s.visits.len() {
    } else {
        let t = WatchState { next: s.next + 1, ..s };
        match s.visits[s.next] {
            VisitV::Skip(r, z) => {
                lemma_advance_ok(t);
            },
            VisitV::Appear(r, z, c) => {
                if s.appear.contains((r, z)) {
                    lemma_advance_ok(t);
                }
            },
            VisitV::AppearDone(r, z) => {
                lemma_advance_ok(WatchState { appear: s.appear.insert((r, z)), ..t });
            },
            VisitV::Clear(r, z, f) => {
                if s.clear.contains((z, f)) {
                    lemma_advance_ok(t);
                }
            },
            VisitV::Online(r, z, f) => {
                if s.online.contains((z, f)) {
                    lemma_advance_ok(t);
                }
            },
        }
    }
}

proof fn lemma_step_ok(s: WatchState, i: WatchInputV)
    requires
        appear_runs_ok(s),
    ensures
        appear_runs_ok(spec_watch_step(s, i).0),
{
    law_watch_memory(s, i);
    match s.pending {
        PendingV::Poll => match i {
            WatchInputV::Output(_, out, _) => {
                let zs = running_names(lines(out));
                lemma_round_blocks(s.rules, zs);
                lemma_advance_ok(WatchState { visits: round_visits(s.rules, zs), next: 0, ..s });
            },
            _ => {},
        },
        PendingV::Sleep => {},
        PendingV::Appear(r, z, c) => {
            lemma_advance_ok(s);
        },
        PendingV::StateQuery(r, z, f) => match i {
            WatchInputV::Output(_, out, _) => match spec_clear_decision(out) {
                ClearDecision::Clear => {},
                ClearDecision::Healthy => {
                    lemma_advance_ok(WatchState { clear: s.clear.insert((z, f)), ..s });
                },
                ClearDecision::Wait => {
                    lemma_advance_ok(s);
                },
            },
            _ => {
                lemma_advance_ok(s);
            },
        },
        PendingV::Explain(r, z, f, st) => {},
        PendingV::Clearing(r, z, f, st) => {
            lemma_advance_ok(WatchState { clear: s.clear.insert((z, f)), ..s });
        },
        PendingV::OnlineQuery(r, z, f) => match i {
            WatchInputV::Output(_, out, _) => if trim(out) == "online"@ {
                lemma_advance_ok(WatchState { online: s.online.insert((z, f)), ..s });
            } else {
                lemma_advance_ok(s);
            },
            _ => {
                lemma_advance_ok(s);
            },
        },
    }
}

/// Advancing inside the block of (`r`, `z`), past its command `c`.
proof fn lemma_advance_in_block(s: WatchState, r: Seq<char>, z: Seq<char>, c: Seq<char>)
    requires
        !s.appear.contains((r, z)),
        0 <= s.next,
        runs_to_done(s.visits, s.next, r, z, c),
    ensures
        appear_sent(spec_advance(s).0, r, z, c),
{
    let n = s.next;
    let k = choose|k: int|
        n <= k < s.visits.len() && #[trigger] s.visits[k] == VisitV::AppearDone(r, z) && forall|j: int|
            n <= j < k ==> (#[trigger] s.visits[j] matches VisitV::Appear(r2, z2, x) && r2 == r && z2 == z && x != c);
    let t = WatchState { next: n + 1, ..s };
    if n < k {
        assert(s.visits[n] matches VisitV::Appear(r2, z2, x) && r2 == r && z2 == z && x != c);
        assert forall|j: int| n + 1 <= j < k implies (#[trigger] s.visits[j] matches VisitV::Appear(r2, z2, x) && r2 == r && z2 == z && x != c) by {}
        assert(runs_to_done(s.visits, n + 1, r, z, c));
    } else {
        lemma_advance(WatchState { appear: s.appear.insert((r, z)), ..t });
    }
}

proof fn lemma_sent_step(s: WatchState, i: WatchInputV, r: Seq<char>, z: Seq<char>, c: Seq<char>)
    requires
        appear_runs_ok(s),
        appear_sent(s, r, z, c) || s.pending == PendingV::Appear(r, z, c),
    ensures
        appear_sent(spec_watch_step(s, i).0, r, z, c),
{
    law_watch_memory(s, i);
    if s.appear.contains((r, z)) {
    } else {
        lemma_advance_in_block(s, r, z, c);
    }
}

proof fn lemma_run_ok(s: WatchState, inputs: Seq<WatchInputV>)
    requires
        appear_runs_ok(s),
    ensures
        appear_runs_ok(spec_run(s, inputs)),
    decreases inputs.len(),
{
    if inputs.len() > 0 {
        lemma_run_ok(s, inputs.drop_last());
        lemma_step_ok(spec_run(s, inputs.drop_last()), inputs.last());
    }
}

proof fn lemma_sent_run(s: WatchState, inputs: Seq<WatchInputV>, i: int, j: int, r: Seq<char>, z: Seq<char>, c: Seq<char>)
    requires
        appear_runs_ok(s),
        0 <= i < j <= inputs.len(),
        spec_run(s, inputs.take(i)).pending == PendingV::Appear(r, z, c),
    ensures
        appear_sent(spec_run(s, inputs.take(j)), r, z, c),
    decreases j - i,
{
    let prev = inputs.take(j - 1);
    assert(inputs.take(j).drop_last() =~= prev);
    assert(inputs.take(j).last() == inputs[j - 1]);
    lemma_run_ok(s, prev);
    if j - 1 > i {
        lemma_sent_run(s, inputs, i, j - 1, r, z, c);
    }
    lemma_sent_step(spec_run(s, prev), inputs[j - 1], r, z, c);
}

/// The built-in rules repeat no first-appearance command.
pub proof fn law_builtin_rules_distinct()
    ensures
        distinct_appear_commands(spec_builtin_rules()),
{
}

/// Over a whole run, whatever the host answers, each first-appearance
/// command of a (rule, zone) is sent at most once: once it has been
/// pending, it is never pending again. The watchdog from `new`, over rules
/// that do not repeat a command (the built-in ones do not), meets the
/// requirement.
pub proof fn law_first_appearance_once(
    s: WatchState,
    inputs: Seq<WatchInputV>,
    i: int,
    j: int,
    r: Seq<char>,
    z: Seq<char>,
    c: Seq<char>,
)
    requires
        appear_runs_ok(s),
        0 <= i < j <= inputs.len(),
        spec_run(s, inputs.take(i)).pending == PendingV::Appear(r, z, c),
    ensures
        spec_run(s, inputs.take(j)).pending != PendingV::Appear(r, z, c),
{
    lemma_sent_run(s, inputs, i, j, r, z, c);
    lemma_run_ok(s, inputs.take(j));
}

} // verus!
