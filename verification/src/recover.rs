//! Recovery of a deployment whose control plane is broken: the seven
//! steps, their order, the commands they run, how their output is read
//! and which known workaround a failure points to.
//!
//! Running the commands and waiting between polls is the caller's work;
//! each step's decisions are functions here from what the host answered
//! to what happens next.
use vstd::prelude::*;
use crate::config::{counts_view, spec_expected_zones, total_count, DeploymentConfig, OmicronOverrides};
use crate::parse::network::{strings_view, DnsResult};
use crate::parse::zones::{SpecZoneStatus, ZoneInfo, ZoneKind, ZoneStatus};
use crate::text::{
    contains, contains_str, decimal, lines, lines_exec, push_i64, push_str, push_u64, signed_decimal,
    string_from, string_of, to_chars, trim, trim_chars, chars_eq_str, views,
};

verus! {

broadcast use vstd::slice::group_slice_axioms;

/// A step of the recovery sequence.
#[derive(Debug, Clone, Copy, PartialEq, Eq, Structural)]
pub enum RecoveryStep {
    WaitForBaseline,
    Uninstall,
    DestroyVirtualHw,
    CreateVirtualHw,
    Install,
    MonitorZones,
    Verify,
}

/// The recovery steps in the order they run.
pub open spec fn spec_steps() -> Seq<RecoveryStep> {
    seq![
        RecoveryStep::WaitForBaseline,
        RecoveryStep::Uninstall,
        RecoveryStep::DestroyVirtualHw,
        RecoveryStep::CreateVirtualHw,
        RecoveryStep::Install,
        RecoveryStep::MonitorZones,
        RecoveryStep::Verify,
    ]
}

/// Position of a step in the sequence.
pub open spec fn spec_index(step: RecoveryStep) -> nat {
    match step {
        RecoveryStep::WaitForBaseline => 0,
        RecoveryStep::Uninstall => 1,
        RecoveryStep::DestroyVirtualHw => 2,
        RecoveryStep::CreateVirtualHw => 3,
        RecoveryStep::Install => 4,
        RecoveryStep::MonitorZones => 5,
        RecoveryStep::Verify => 6,
    }
}

/// What the operator is shown for a step.
pub open spec fn spec_label(step: RecoveryStep) -> Seq<char> {
    match step {
        RecoveryStep::WaitForBaseline => "Wait for baseline service"@,
        RecoveryStep::Uninstall => "Uninstall broken state"@,
        RecoveryStep::DestroyVirtualHw => "Destroy virtual hardware"@,
        RecoveryStep::CreateVirtualHw => "Recreate virtual hardware"@,
        RecoveryStep::Install => "Install packages"@,
        RecoveryStep::MonitorZones => "Monitor zone startup"@,
        RecoveryStep::Verify => "Verify services"@,
    }
}

/// Expected duration of a step, in seconds.
pub open spec fn spec_estimated_secs(step: RecoveryStep) -> nat {
    match step {
        RecoveryStep::WaitForBaseline => 45,
        RecoveryStep::Uninstall => 30,
        RecoveryStep::DestroyVirtualHw => 10,
        RecoveryStep::CreateVirtualHw => 30,
        RecoveryStep::Install => 60,
        RecoveryStep::MonitorZones => 360,
        RecoveryStep::Verify => 10,
    }
}

impl RecoveryStep {
    /// Position of the step in the sequence.
    pub fn index(&self) -> (r: usize)
        ensures
            r == spec_index(*self),
    {
        match self {
            RecoveryStep::WaitForBaseline => 0,
            RecoveryStep::Uninstall => 1,
            RecoveryStep::DestroyVirtualHw => 2,
            RecoveryStep::CreateVirtualHw => 3,
            RecoveryStep::Install => 4,
            RecoveryStep::MonitorZones => 5,
            RecoveryStep::Verify => 6,
        }
    }

    /// What the operator is shown for the step.
    pub fn label(&self) -> (r: &'static str)
        ensures
            r@ == spec_label(*self),
    {
        match self {
            RecoveryStep::WaitForBaseline => "Wait for baseline service",
            RecoveryStep::Uninstall => "Uninstall broken state",
            RecoveryStep::DestroyVirtualHw => "Destroy virtual hardware",
            RecoveryStep::CreateVirtualHw => "Recreate virtual hardware",
            RecoveryStep::Install => "Install packages",
            RecoveryStep::MonitorZones => "Monitor zone startup",
            RecoveryStep::Verify => "Verify services",
        }
    }

    /// Expected duration of the step, in whole seconds.
    pub fn estimated_duration(&self) -> (r: u64)
        ensures
            r == spec_estimated_secs(*self),
    {
        match self {
            RecoveryStep::WaitForBaseline => 45,
            RecoveryStep::Uninstall => 30,
            RecoveryStep::DestroyVirtualHw => 10,
            RecoveryStep::CreateVirtualHw => 30,
            RecoveryStep::Install => 60,
            RecoveryStep::MonitorZones => 360,
            RecoveryStep::Verify => 10,
        }
    }

    /// All steps, in the order they run.
    pub fn all() -> (r: Vec<RecoveryStep>)
        ensures
            r@ == spec_steps(),
    {
        let r = vec![
            RecoveryStep::WaitForBaseline,
            RecoveryStep::Uninstall,
            RecoveryStep::DestroyVirtualHw,
            RecoveryStep::CreateVirtualHw,
            RecoveryStep::Install,
            RecoveryStep::MonitorZones,
            RecoveryStep::Verify,
        ];
        assert(r@ =~= spec_steps());
        r
    }

    /// Number of steps.
    pub fn total_count() -> (r: usize)
        ensures
            r == spec_steps().len(),
    {
        7
    }

    /// The step that runs after this one, if any.
    pub fn next(&self) -> (r: Option<RecoveryStep>)
        ensures
            spec_index(*self) + 1 < spec_steps().len() ==> r == Some(
                spec_steps()[spec_index(*self) + 1int],
            ),
            spec_index(*self) + 1 == spec_steps().len() ==> r is None,
    {
        match self {
            RecoveryStep::WaitForBaseline => Some(RecoveryStep::Uninstall),
            RecoveryStep::Uninstall => Some(RecoveryStep::DestroyVirtualHw),
            RecoveryStep::DestroyVirtualHw => Some(RecoveryStep::CreateVirtualHw),
            RecoveryStep::CreateVirtualHw => Some(RecoveryStep::Install),
            RecoveryStep::Install => Some(RecoveryStep::MonitorZones),
            RecoveryStep::MonitorZones => Some(RecoveryStep::Verify),
            RecoveryStep::Verify => None,
        }
    }
}

/// The sequence holds each step exactly once, at its index.
pub proof fn law_step_order()
    ensures
        spec_steps().len() == 7,
        forall|i: int| 0 <= i < spec_steps().len() ==> spec_index(#[trigger] spec_steps()[i]) == i,
        forall|s: RecoveryStep| #[trigger] spec_steps()[spec_index(s) as int] == s,
        spec_steps()[0] == RecoveryStep::WaitForBaseline,
        spec_steps()[6] == RecoveryStep::Verify,
{
    assert forall|i: int| 0 <= i < spec_steps().len() implies spec_index(
        #[trigger] spec_steps()[i],
    ) == i by {
        if i == 0 {
        } else if i == 1 {
        } else if i == 2 {
        } else if i == 3 {
        } else if i == 4 {
        } else if i == 5 {
        } else {
        }
    }
}

/// Which known fix a failed step is offered, by the words of its error:
/// the hardware teardown is offered the SoftNPU force-uninstall when the
/// error names `softnpu`, `SoftNPU` or a `zone`; the hardware setup the
/// zpool cleanup when it names `UnexpectedUuid`, a `zpool` or an `oxp_`
/// pool; the install the ownership fix when it speaks of `permission`,
/// `Permission` or something `owned by`. Nothing else is offered a fix.
pub proof fn law_workaround_words(step: RecoveryStep, error: Seq<char>)
    ensures
        step == RecoveryStep::DestroyVirtualHw && (contains(error, "softnpu"@) || contains(error, "SoftNPU"@)
            || contains(error, "zone"@)) ==> spec_detect_workaround(step, error) == Some(
            Workaround::ForceUninstallSoftNpu,
        ),
        step == RecoveryStep::CreateVirtualHw && (contains(error, "UnexpectedUuid"@) || contains(error, "zpool"@)
            || contains(error, "oxp_"@)) ==> spec_detect_workaround(step, error) == Some(
            Workaround::DestroyStaleZpools,
        ),
        step == RecoveryStep::Install && (contains(error, "permission"@) || contains(error, "Permission"@)
            || contains(error, "owned by"@)) ==> spec_detect_workaround(step, error) == Some(
            Workaround::FixOwnership,
        ),
        spec_detect_workaround(step, error) == Some(Workaround::ForceUninstallSoftNpu) ==> step
            == RecoveryStep::DestroyVirtualHw && (contains(error, "softnpu"@) || contains(error, "SoftNPU"@)
            || contains(error, "zone"@)),
        spec_detect_workaround(step, error) == Some(Workaround::DestroyStaleZpools) ==> step
            == RecoveryStep::CreateVirtualHw && (contains(error, "UnexpectedUuid"@) || contains(error, "zpool"@)
            || contains(error, "oxp_"@)),
        spec_detect_workaround(step, error) == Some(Workaround::FixOwnership) ==> step == RecoveryStep::Install
            && (contains(error, "permission"@) || contains(error, "Permission"@) || contains(error, "owned by"@)),
{
}

/// A known fix for a failed step.
#[derive(Debug, Clone, Copy, PartialEq, Eq, Structural)]
pub enum Workaround {
    ForceUninstallSoftNpu,
    DestroyStaleZpools,
    FixOwnership,
}

/// What the operator is told a workaround does.
pub open spec fn spec_workaround_text(w: Workaround) -> Seq<char> {
    match w {
        Workaround::ForceUninstallSoftNpu => "Force-uninstall stuck SoftNPU zone, then retry"@,
        Workaround::DestroyStaleZpools => "Destroy stale oxp_ zpools, then retry"@,
        Workaround::FixOwnership => "Fix ownership of build dirs (pfexec chown), then retry"@,
    }
}

impl Workaround {
    /// What the workaround does.
    pub fn description(&self) -> (r: &'static str)
        ensures
            r@ == spec_workaround_text(*self),
    {
        match self {
            Workaround::ForceUninstallSoftNpu => "Force-uninstall stuck SoftNPU zone, then retry",
            Workaround::DestroyStaleZpools => "Destroy stale oxp_ zpools, then retry",
            Workaround::FixOwnership => "Fix ownership of build dirs (pfexec chown), then retry",
        }
    }
}

/// The workaround that an error of a step points to: a SoftNPU or zone
/// problem when destroying the virtual hardware, stale pools when
/// creating it, ownership when installing.
pub open spec fn spec_detect_workaround(step: RecoveryStep, error: Seq<char>) -> Option<Workaround> {
    match step {
        RecoveryStep::DestroyVirtualHw => if contains(error, "softnpu"@) || contains(error, "zone"@)
            || contains(error, "SoftNPU"@) {
            Some(Workaround::ForceUninstallSoftNpu)
        } else {
            None
        },
        RecoveryStep::CreateVirtualHw => if contains(error, "UnexpectedUuid"@) || contains(
            error,
            "zpool"@,
        ) || contains(error, "oxp_"@) {
            Some(Workaround::DestroyStaleZpools)
        } else {
            None
        },
        RecoveryStep::Install => if contains(error, "permission"@) || contains(error, "Permission"@)
            || contains(error, "owned by"@) {
            Some(Workaround::FixOwnership)
        } else {
            None
        },
        _ => None,
    }
}

/// The workaround for a failed step, if its error names a known problem.
pub fn detect_workaround(step: RecoveryStep, error: &str) -> (r: Option<Workaround>)
    ensures
        r == spec_detect_workaround(step, error@),
{
    let e = to_chars(error);
    let s = e.as_slice();
    match step {
        RecoveryStep::DestroyVirtualHw => {
            if contains_str(s, "softnpu") || contains_str(s, "zone") || contains_str(s, "SoftNPU") {
                Some(Workaround::ForceUninstallSoftNpu)
            } else {
                None
            }
        },
        RecoveryStep::CreateVirtualHw => {
            if contains_str(s, "UnexpectedUuid") || contains_str(s, "zpool") || contains_str(
                s,
                "oxp_",
            ) {
                Some(Workaround::DestroyStaleZpools)
            } else {
                None
            }
        },
        RecoveryStep::Install => {
            if contains_str(s, "permission") || contains_str(s, "Permission") || contains_str(
                s,
                "owned by",
            ) {
                Some(Workaround::FixOwnership)
            } else {
                None
            }
        },
        _ => None,
    }
}

/// What the recovery reports as it goes; durations are in milliseconds.
pub enum RecoveryEvent {
    StepStarted(RecoveryStep),
    StepOutput(String),
    ZoneProgress { running: u32, expected: u32 },
    StepCompleted(RecoveryStep, u64),
    StepFailed { step: RecoveryStep, error: String, workaround: Option<Workaround> },
    RecoveryComplete(u64),
}

/// What happens after a step: the event that reports its end, and the step
/// to run next, if any.
pub fn step_finished(step: RecoveryStep, elapsed_ms: u64, error: Option<&str>) -> (r: (
    RecoveryEvent,
    Option<RecoveryStep>,
))
    ensures
        error is None ==> (r.0 matches RecoveryEvent::StepCompleted(s, ms) && s == step && ms
            == elapsed_ms),
        error is None ==> (spec_index(step) + 1 < spec_steps().len() ==> r.1 == Some(
            spec_steps()[spec_index(step) + 1int],
        )) && (spec_index(step) + 1 == spec_steps().len() ==> r.1 is None),
        error matches Some(e) ==> (r.0 matches RecoveryEvent::StepFailed { step: s, error: msg, workaround: w }
            && s == step && msg@ == e@ && w == spec_detect_workaround(step, e@)),
        error is Some ==> r.1 is None,
{
    match error {
        None => (RecoveryEvent::StepCompleted(step, elapsed_ms), step.next()),
        Some(e) => {
            let w = detect_workaround(step, e);
            (RecoveryEvent::StepFailed { step, error: string_from(e), workaround: w }, None)
        },
    }
}

/// What happens before a step: a run that was cancelled stops with
/// "Recovery cancelled" and starts nothing; otherwise the step is announced.
pub fn step_gate(cancelled: bool, step: RecoveryStep) -> (r: Result<RecoveryEvent, String>)
    ensures
        cancelled ==> (r matches Err(e) && e@ == "Recovery cancelled"@),
        !cancelled ==> (r matches Ok(RecoveryEvent::StepStarted(s)) && s == step),
{
    if cancelled {
        Err(string_from("Recovery cancelled"))
    } else {
        Ok(RecoveryEvent::StepStarted(step))
    }
}

/// Errors in deriving the recovery parameters from a configuration.
#[derive(Debug, Clone, Copy, PartialEq, Eq, Structural)]
pub enum RecoveryConfigError {
    /// The network section lists no external DNS address.
    NoExternalDns,
}

/// What the recovery needs to know of a deployment.
pub struct RecoveryParams {
    pub gateway: String,
    pub pxa_start: String,
    pub pxa_end: String,
    pub vdev_size_bytes: u64,
    pub omicron_path: String,
    pub expected_service_total: u32,
    pub dns_ip: String,
    pub nexus_ip: String,
}

/// Default size of a virtual disk: 40 GiB.
pub const DEFAULT_VDEV_SIZE_BYTES: u64 = 42949672960;

/// Whether the expected zone counts of the overrides sum within `u32`.
pub open spec fn expected_total_fits(o: OmicronOverrides) -> bool {
    total_count(spec_expected_zones(o)) <= u32::MAX
}

/// The sum of the counts of a list of `(name, count)` pairs.
pub fn sum_counts(v: &Vec<(String, u32)>) -> (r: u32)
    requires
        total_count(counts_view(v@)) <= u32::MAX,
    ensures
        r == total_count(counts_view(v@)),
{
    let ghost cv = counts_view(v@);
    let mut sum: u32 = 0;
    let mut i: usize = 0;
    while i < v.len()
        invariant
            i <= v@.len(),
            cv == counts_view(v@),
            total_count(cv) <= u32::MAX,
            sum == total_count(cv.take(i as int)),
        decreases v@.len() - i,
    {
        proof {
            lemma_total_count_prefix(cv, i as int);
        }
        sum = sum + v[i].1;
        i = i + 1;
    }
    assert(cv.take(i as int) =~= cv);
    sum
}

/// The number of service zones the overrides call for.
pub fn expected_service_total(o: &OmicronOverrides) -> (r: u32)
    requires
        expected_total_fits(*o),
    ensures
        r == total_count(spec_expected_zones(*o)),
{
    let v = crate::config::derive_expected_zones(o);
    sum_counts(&v)
}

/// The sum of a prefix grows by the next count and stays below the
/// whole sum.
pub proof fn lemma_total_count_prefix(v: Seq<(Seq<char>, nat)>, i: int)
    requires
        0 <= i < v.len(),
    ensures
        total_count(v.take(i + 1)) == total_count(v.take(i)) + v[i].1,
        total_count(v.take(i + 1)) <= total_count(v),
    decreases v.len() - i,
{
    assert(v.take(i + 1).drop_last() =~= v.take(i));
    if i + 1 < v.len() {
        lemma_total_count_prefix(v, i + 1);
    } else {
        assert(v.take(i + 1) =~= v);
    }
}

/// The parameters of a configuration with at least one external DNS
/// address.
pub open spec fn params_match(p: RecoveryParams, c: DeploymentConfig) -> bool {
    let n = c.deployment.network;
    let o = c.build.omicron.overrides;
    &&& p.gateway@ == n.gateway@
    &&& p.pxa_start@ == n.internal_services_range.first@
    &&& p.pxa_end@ == n.instance_pool_range.last@
    &&& p.vdev_size_bytes == (match o.vdev_size_bytes {
        Some(b) => b,
        None => DEFAULT_VDEV_SIZE_BYTES,
    })
    &&& p.omicron_path@ == c.build.omicron.repo_path@
    &&& p.expected_service_total == total_count(spec_expected_zones(o))
    &&& p.dns_ip@ == n.external_dns_ips@[0]@
    &&& p.nexus_ip@ == n.internal_services_range.first@
}

impl RecoveryParams {
    /// The recovery parameters of a deployment; an error when it lists no
    /// external DNS address.
    pub fn from_config(config: &DeploymentConfig) -> (r: Result<RecoveryParams, RecoveryConfigError>)
        requires
            expected_total_fits(config.build.omicron.overrides),
        ensures
            config.deployment.network.external_dns_ips@.len() == 0 <==> r is Err,
            r matches Ok(p) ==> params_match(p, *config),
            r matches Err(e) ==> e == RecoveryConfigError::NoExternalDns,
    {
        let network = &config.deployment.network;
        let overrides = &config.build.omicron.overrides;
        let vdev_size = match overrides.vdev_size_bytes {
            Some(b) => b,
            None => DEFAULT_VDEV_SIZE_BYTES,
        };
        if network.external_dns_ips.len() == 0 {
            return Err(RecoveryConfigError::NoExternalDns);
        }
        let dns_ip = network.external_dns_ips[0].clone();
        let total = expected_service_total(overrides);
        Ok(
            RecoveryParams {
                gateway: network.gateway.clone(),
                pxa_start: network.internal_services_range.first.clone(),
                pxa_end: network.instance_pool_range.last.clone(),
                vdev_size_bytes: vdev_size,
                omicron_path: config.build.omicron.repo_path.clone(),
                expected_service_total: total,
                dns_ip,
                nexus_ip: network.internal_services_range.first.clone(),
            },
        )
    }
}

// --- Commands ---

/// The state query for the baseline service.
pub open spec fn spec_baseline_query() -> Seq<char> {
    "svcs -H -o state omicron/baseline 2>/dev/null"@
}

/// The baseline state query.
pub fn baseline_query() -> (r: &'static str)
    ensures
        r@ == spec_baseline_query(),
{
    "svcs -H -o state omicron/baseline 2>/dev/null"
}

/// Whether a baseline state query answered that the service is online.
pub fn baseline_online(stdout: &str) -> (r: bool)
    ensures
        r == (trim(stdout@) == "online"@),
{
    let v = to_chars(stdout);
    chars_eq_str(trim_chars(v.as_slice()), "online")
}

/// The line shown for a baseline poll: `baseline: <state>`.
pub fn baseline_report(stdout: &str) -> (r: String)
    ensures
        r@ == "baseline: "@ + trim(stdout@),
{
    let v = to_chars(stdout);
    let mut s = string_from("baseline: ");
    let t = trim_chars(v.as_slice());
    crate::text::push_chars(&mut s, t);
    s
}

/// `cd <omicron> && source env.sh && <rest>`.
pub open spec fn in_omicron(path: Seq<char>, rest: Seq<char>) -> Seq<char> {
    "cd "@ + path + " && source env.sh && "@ + rest
}

fn omicron_command(path: &str, rest: &str) -> (r: String)
    ensures
        r@ == in_omicron(path@, rest@),
{
    let mut s = string_from("cd ");
    push_str(&mut s, path);
    push_str(&mut s, " && source env.sh && ");
    push_str(&mut s, rest);
    s
}

/// The uninstall command, which answers its confirmation prompt.
pub open spec fn spec_uninstall_command(path: Seq<char>) -> Seq<char> {
    in_omicron(path, "echo 'y' | pfexec ./target/release/omicron-package uninstall 2>&1"@)
}

/// The command that uninstalls the control plane.
pub fn uninstall_command(params: &RecoveryParams) -> (r: String)
    ensures
        r@ == spec_uninstall_command(params.omicron_path@),
{
    omicron_command(
        params.omicron_path.as_str(),
        "echo 'y' | pfexec ./target/release/omicron-package uninstall 2>&1",
    )
}

/// The command that destroys the virtual hardware.
pub fn destroy_vhw_command(params: &RecoveryParams) -> (r: String)
    ensures
        r@ == in_omicron(
            params.omicron_path@,
            "pfexec cargo xtask virtual-hardware destroy 2>&1"@,
        ),
{
    omicron_command(params.omicron_path.as_str(), "pfexec cargo xtask virtual-hardware destroy 2>&1")
}

/// The arguments of the command that creates the virtual hardware.
pub open spec fn spec_create_vhw_rest(p: RecoveryParams) -> Seq<char> {
    "pfexec cargo xtask virtual-hardware create --gateway-ip "@ + p.gateway@ + " --pxa-start "@
        + p.pxa_start@ + " --pxa-end "@ + p.pxa_end@ + " --vdev-size "@ + decimal(
        p.vdev_size_bytes as nat,
    ) + " 2>&1"@
}

/// The command that creates the virtual hardware.
pub fn create_vhw_command(params: &RecoveryParams) -> (r: String)
    ensures
        r@ == in_omicron(params.omicron_path@, spec_create_vhw_rest(*params)),
{
    let mut rest = string_from("pfexec cargo xtask virtual-hardware create --gateway-ip ");
    push_str(&mut rest, params.gateway.as_str());
    push_str(&mut rest, " --pxa-start ");
    push_str(&mut rest, params.pxa_start.as_str());
    push_str(&mut rest, " --pxa-end ");
    push_str(&mut rest, params.pxa_end.as_str());
    push_str(&mut rest, " --vdev-size ");
    push_u64(&mut rest, params.vdev_size_bytes);
    push_str(&mut rest, " 2>&1");
    omicron_command(params.omicron_path.as_str(), rest.as_str())
}

/// The command that installs the control plane.
pub fn install_command(params: &RecoveryParams) -> (r: String)
    ensures
        r@ == in_omicron(
            params.omicron_path@,
            "pfexec ./target/release/omicron-package install 2>&1"@,
        ),
{
    omicron_command(params.omicron_path.as_str(), "pfexec ./target/release/omicron-package install 2>&1")
}

/// The DNS query made to check that the rack's names resolve.
pub fn dns_check_command(params: &RecoveryParams) -> (r: String)
    ensures
        r@ == "dig recovery.sys.oxide.test @"@ + params.dns_ip@
            + " +short +time=3 +tries=1 2>/dev/null"@,
{
    let mut s = string_from("dig recovery.sys.oxide.test @");
    push_str(&mut s, params.dns_ip.as_str());
    push_str(&mut s, " +short +time=3 +tries=1 2>/dev/null");
    s
}

/// The ping of the Nexus API at an address.
pub fn nexus_ping_command(address: &str) -> (r: String)
    ensures
        r@ == "curl -sf --connect-timeout 3 --max-time 5 http://"@ + address@
            + "/v1/ping 2>/dev/null"@,
{
    let mut s = string_from("curl -sf --connect-timeout 3 --max-time 5 http://");
    push_str(&mut s, address);
    push_str(&mut s, "/v1/ping 2>/dev/null");
    s
}

/// The address Nexus is pinged at: the first resolved address, else the
/// configured one.
pub fn nexus_address(dns: &DnsResult, params: &RecoveryParams) -> (r: String)
    ensures
        dns.addresses@.len() > 0 ==> r@ == dns.addresses@[0]@,
        dns.addresses@.len() == 0 ==> r@ == params.nexus_ip@,
{
    if dns.addresses.len() > 0 {
        dns.addresses[0].clone()
    } else {
        params.nexus_ip.clone()
    }
}

// --- Reading step output ---

/// The last `n` lines of a text, in order.
pub open spec fn last_lines(text: Seq<char>, n: nat) -> Seq<Seq<char>> {
    let ls = lines(text);
    if ls.len() <= n {
        ls
    } else {
        ls.skip(ls.len() - n)
    }
}

/// The last `n` lines of a command's output, shown after a step.
pub fn tail_lines(text: &str, n: usize) -> (r: Vec<String>)
    ensures
        strings_view(r@) == last_lines(text@, n as nat),
{
    let all = to_chars(text);
    let ls = lines_exec(all.as_slice());
    let ghost lv = views(ls@);
    let start: usize = if ls.len() <= n {
        0
    } else {
        ls.len() - n
    };
    let mut out: Vec<String> = Vec::new();
    let mut i: usize = start;
    while i < ls.len()
        invariant
            start <= i <= ls@.len(),
            lv == views(ls@),
            lv == lines(text@),
            strings_view(out@) == lv.subrange(start as int, i as int),
        decreases ls@.len() - i,
    {
        let ghost before = out@;
        let line = string_of(ls[i]);
        assert(line@ == lv[i as int]);
        out.push(line);
        assert(strings_view(out@) =~= strings_view(before).push(lv[i as int]));
        i = i + 1;
        assert(strings_view(out@) =~= lv.subrange(start as int, i as int));
    }
    assert(lv.subrange(start as int, i as int) =~= last_lines(text@, n as nat));
    out
}

/// The last line of a text, or `fallback` when it has none.
pub open spec fn last_line_or(text: Seq<char>, fallback: Seq<char>) -> Seq<char> {
    let ls = lines(text);
    if ls.len() == 0 {
        fallback
    } else {
        ls.last()
    }
}

/// `<what> failed (exit <code>): <last line of stderr or fallback>`.
pub open spec fn spec_failure_message(
    what: Seq<char>,
    exit_code: int,
    stderr: Seq<char>,
    fallback: Seq<char>,
) -> Seq<char> {
    what + " failed (exit "@ + signed_decimal(exit_code) + "): "@ + last_line_or(stderr, fallback)
}

/// The error of a step whose command exited non-zero.
pub fn failure_message(what: &str, exit_code: i32, stderr: &str, fallback: &str) -> (r: String)
    ensures
        r@ == spec_failure_message(what@, exit_code as int, stderr@, fallback@),
{
    let mut s = string_from(what);
    push_str(&mut s, " failed (exit ");
    push_i64(&mut s, exit_code as i64);
    push_str(&mut s, "): ");
    let all = to_chars(stderr);
    let ls = lines_exec(all.as_slice());
    if ls.len() == 0 {
        push_str(&mut s, fallback);
    } else {
        crate::text::push_chars(&mut s, ls[ls.len() - 1]);
    }
    s
}

/// The failure of a step's command, if it exited non-zero. The uninstall
/// names no fallback; the other steps say `unknown error`.
pub fn step_command_error(step: RecoveryStep, exit_code: i32, stderr: &str) -> (r: Option<String>)
    ensures
        exit_code == 0 ==> r is None,
        exit_code != 0 ==> (r matches Some(m) && m@ == spec_failure_message(
            step_command_name(step),
            exit_code as int,
            stderr@,
            if step == RecoveryStep::Uninstall {
                seq![]
            } else {
                "unknown error"@
            },
        )),
{
    if exit_code == 0 {
        return None;
    }
    let what = match step {
        RecoveryStep::Uninstall => "omicron-package uninstall",
        RecoveryStep::DestroyVirtualHw => "virtual-hardware destroy",
        RecoveryStep::CreateVirtualHw => "virtual-hardware create",
        RecoveryStep::Install => "omicron-package install",
        RecoveryStep::WaitForBaseline => "baseline wait",
        RecoveryStep::MonitorZones => "zone monitor",
        RecoveryStep::Verify => "verify",
    };
    let fallback = match step {
        RecoveryStep::Uninstall => "",
        _ => "unknown error",
    };
    proof {
        reveal_strlit("");
    }
    Some(failure_message(what, exit_code, stderr, fallback))
}

/// The name a step's command is reported under.
pub open spec fn step_command_name(step: RecoveryStep) -> Seq<char> {
    match step {
        RecoveryStep::Uninstall => "omicron-package uninstall"@,
        RecoveryStep::DestroyVirtualHw => "virtual-hardware destroy"@,
        RecoveryStep::CreateVirtualHw => "virtual-hardware create"@,
        RecoveryStep::Install => "omicron-package install"@,
        RecoveryStep::WaitForBaseline => "baseline wait"@,
        RecoveryStep::MonitorZones => "zone monitor"@,
        RecoveryStep::Verify => "verify"@,
    }
}

/// Number of zones of a list that are running services.
pub open spec fn running_service_count(zs: Seq<ZoneInfo>) -> nat
    decreases zs.len(),
{
    if zs.len() == 0 {
        0
    } else {
        running_service_count(zs.drop_last()) + (if zs.last().status@ == SpecZoneStatus::Running
            && zs.last().kind == ZoneKind::Service {
            1nat
        } else {
            0nat
        })
    }
}

/// Count the running service zones.
pub fn count_running_services(zones: &[ZoneInfo]) -> (r: u32)
    requires
        zones@.len() <= u32::MAX,
    ensures
        r == running_service_count(zones@),
{
    let mut n: u32 = 0;
    let mut i: usize = 0;
    while i < zones.len()
        invariant
            i <= zones@.len(),
            zones@.len() <= u32::MAX,
            n == running_service_count(zones@.take(i as int)),
            n <= i,
        decreases zones@.len() - i,
    {
        assert(zones@.take(i + 1).drop_last() =~= zones@.take(i as int));
        let z = &zones[i];
        let running = match z.status {
            ZoneStatus::Running => true,
            _ => false,
        };
        if running && z.kind == ZoneKind::Service {
            n = n + 1;
        }
        i = i + 1;
    }
    assert(zones@.take(i as int) =~= zones@);
    n
}

/// The zone monitor is done once the running services reach the expected
/// count.
pub fn zones_ready(running: u32, expected: u32) -> (r: bool)
    ensures
        r == (running >= expected),
{
    running >= expected
}

/// What a command step says as it starts, and how many of its last output
/// lines it shows; steps without a command of their own have neither.
pub fn step_intro(step: RecoveryStep) -> (r: Option<(&'static str, usize)>)
    ensures
        step == RecoveryStep::Uninstall ==> (r matches Some((m, n)) && m@
            == "Running omicron-package uninstall..."@ && n == 5),
        step == RecoveryStep::DestroyVirtualHw ==> (r matches Some((m, n)) && m@
            == "Destroying virtual hardware..."@ && n == 3),
        step == RecoveryStep::CreateVirtualHw ==> (r matches Some((m, n)) && m@
            == "Creating virtual hardware..."@ && n == 5),
        step == RecoveryStep::Install ==> (r matches Some((m, n)) && m@
            == "Running omicron-package install..."@ && n == 5),
        (step == RecoveryStep::WaitForBaseline || step == RecoveryStep::MonitorZones || step
            == RecoveryStep::Verify) ==> r is None,
{
    match step {
        RecoveryStep::Uninstall => Some(("Running omicron-package uninstall...", 5)),
        RecoveryStep::DestroyVirtualHw => Some(("Destroying virtual hardware...", 3)),
        RecoveryStep::CreateVirtualHw => Some(("Creating virtual hardware...", 5)),
        RecoveryStep::Install => Some(("Running omicron-package install...", 5)),
        _ => None,
    }
}

/// The timeout of the baseline wait.
pub fn baseline_timeout(secs: u64) -> (r: String)
    ensures
        r@ == "Timed out waiting for omicron/baseline service ("@ + decimal(secs as nat) + "s)"@,
{
    let mut s = string_from("Timed out waiting for omicron/baseline service (");
    crate::text::push_u64(&mut s, secs);
    push_str(&mut s, "s)");
    s
}

/// The timeout of the zone wait.
pub fn zones_timeout(secs: u64, expected: u32) -> (r: String)
    ensures
        r@ == "Timed out waiting for zones ("@ + decimal(secs as nat) + "s). Expected "@ + decimal(
            expected as nat,
        ) + " zones."@,
{
    let mut s = string_from("Timed out waiting for zones (");
    crate::text::push_u64(&mut s, secs);
    push_str(&mut s, "s). Expected ");
    crate::text::push_u64(&mut s, expected as u64);
    push_str(&mut s, " zones.");
    s
}

/// The verification's report: whether DNS resolves (and to what), whether
/// Nexus answered at the address tried, and the sled agent's state.
pub fn verify_report(dns: &DnsResult, nexus_ip: &str, reachable: bool, sled_state: &str) -> (r: Vec<String>)
    ensures
        r@.len() == 3,
        r@[0]@ == (if dns.resolved {
            "DNS: resolving ("@ + crate::text::join(strings_view(dns.addresses@), ", "@) + ")"@
        } else {
            "DNS: not resolving (may need more time)"@
        }),
        r@[1]@ == (if reachable {
            "Nexus: reachable at "@ + nexus_ip@
        } else {
            "Nexus: unreachable at "@ + nexus_ip@ + " (may need more time to start)"@
        }),
        r@[2]@ == "sled-agent: "@ + trim(sled_state@),
{
    let d = if dns.resolved {
        let mut s = string_from("DNS: resolving (");
        let j = crate::text::join_exec(&dns.addresses, ", ");
        push_str(&mut s, j.as_str());
        push_str(&mut s, ")");
        s
    } else {
        string_from("DNS: not resolving (may need more time)")
    };
    let n = if reachable {
        let mut s = string_from("Nexus: reachable at ");
        push_str(&mut s, nexus_ip);
        s
    } else {
        let mut s = string_from("Nexus: unreachable at ");
        push_str(&mut s, nexus_ip);
        push_str(&mut s, " (may need more time to start)");
        s
    };
    let v = to_chars(sled_state);
    let mut l = string_from("sled-agent: ");
    crate::text::push_chars(&mut l, trim_chars(v.as_slice()));
    let mut out: Vec<String> = Vec::new();
    out.push(d);
    out.push(n);
    out.push(l);
    out
}

} // verus!
