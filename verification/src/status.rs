//! Status of a deployed host: what the status commands report, read into
//! one value, whether the host looks freshly rebooted, and the report
//! printed for it.
//!
//! Running the commands is the caller's; their outputs are read here.
use vstd::prelude::*;
use crate::config::{counts_view, derive_expected_zones, spec_expected_zones, total_count, OmicronOverrides};
use crate::order::{ascending, insert_ascending, lemma_ascending_unique_order};
use crate::parse::disk::{parse_vdev_files, vdev_entries, vdev_sizes_fit, vdev_sizes_fit_exec, vdevs_view, with_bytes, VdevFileInfo};
use crate::parse::network::{parse_dns_check, parse_nexus_ping, parse_simnet_check, nonempty_trimmed, strings_view, DnsResult};
use crate::parse::services::{parse_svcs, services_view, spec_service_state_text, svcs_entries, ServiceState, SpecServiceState};
use crate::parse::zones::{derive_zone_placement, parse_zoneadm_list, placement_view, spec_placement, zone_entries, zones_view, SpecZone, SpecZoneStatus, ZoneInfo, ZoneKind};
use crate::parse::zpool::{oxp_only, parse_oxp_pools, parse_rpool, rpool_index_from, spec_parse_zpool_list, zpool_view, zpools_view, ZpoolInfo};
use crate::ssh::CommandOutput;
use crate::text::{contains, contains_str, decimal, lines, string_from, string_of, to_chars, trim};

verus! {

broadcast use vstd::slice::group_slice_axioms;

/// Whether the host answered.
pub enum ConnectionState {
    Connected,
    Disconnected { error: String },
}

/// States of the two services the status looks at.
pub struct ServiceStatus {
    pub sled_agent: Option<ServiceState>,
    pub baseline: Option<ServiceState>,
}

/// Zones of the host.
pub struct ZoneStatus {
    /// Running zones per service name (services and infrastructure), each
    /// name once, in order of first appearance.
    pub service_counts: Vec<(String, u32)>,
    /// Expected zones per service name, from the configuration.
    pub expected_services: Vec<(String, u32)>,
    /// Running instance zones.
    pub instance_count: u32,
    pub zones: Vec<ZoneInfo>,
    /// Service names per pool, each pool once.
    pub placement: Vec<(String, Vec<String>)>,
}

/// Pools and virtual disks.
pub struct DiskStatus {
    pub rpool: Option<ZpoolInfo>,
    pub oxp_pools: Vec<ZpoolInfo>,
    pub vdev_files: Vec<VdevFileInfo>,
}

/// Reachability of the rack's services.
pub struct NetworkStatus {
    pub nexus_reachable: bool,
    pub dns_resolving: bool,
    pub dns_addresses: Vec<String>,
    pub simnets_exist: bool,
}

/// Everything the status reports of a host.
pub struct HostStatus {
    pub hostname: String,
    pub connection: ConnectionState,
    pub services: ServiceStatus,
    pub zones: ZoneStatus,
    pub disk: DiskStatus,
    pub network: NetworkStatus,
    pub reboot_detected: bool,
}

// --- Zone counts ---

/// The index of a name among counted names.
pub open spec fn count_index(cs: Seq<(Seq<char>, nat)>, name: Seq<char>, i: int) -> Option<int>
    decreases cs.len() - i,
{
    if i < 0 || i >= cs.len() {
        None
    } else if cs[i].0 == name {
        Some(i)
    } else {
        count_index(cs, name, i + 1)
    }
}

/// What the search for a counted name finds.
pub proof fn lemma_count_index(cs: Seq<(Seq<char>, nat)>, name: Seq<char>, i: int)
    requires
        0 <= i,
    ensures
        match count_index(cs, name, i) {
            Some(k) => i <= k < cs.len() && cs[k].0 == name && forall|j: int| i <= j < k ==> (#[trigger] cs[j]).0
                != name,
            None => forall|j: int| i <= j < cs.len() ==> (#[trigger] cs[j]).0 != name,
        },
    decreases cs.len() - i,
{
    if i < cs.len() && cs[i].0 != name {
        lemma_count_index(cs, name, i + 1);
    }
}

/// The count of a name, if it is counted.
pub open spec fn count_of(cs: Seq<(Seq<char>, nat)>, name: Seq<char>) -> Option<nat> {
    match count_index(cs, name, 0) {
        Some(k) => Some(cs[k].1),
        None => None,
    }
}

/// One more zone of a service.
pub open spec fn bump(cs: Seq<(Seq<char>, nat)>, name: Seq<char>) -> Seq<(Seq<char>, nat)> {
    match count_index(cs, name, 0) {
        Some(k) => cs.update(k, (name, cs[k].1 + 1)),
        None => cs.push((name, 1nat)),
    }
}

/// Counts of the running zones: per service name for services and
/// infrastructure, and the number of instances.
pub open spec fn running_counts(zs: Seq<SpecZone>) -> (Seq<(Seq<char>, nat)>, nat)
    decreases zs.len(),
{
    if zs.len() == 0 {
        (seq![], 0)
    } else {
        let (cs, n) = running_counts(zs.drop_last());
        let z = zs.last();
        if z.status == SpecZoneStatus::Running {
            match z.kind {
                ZoneKind::Instance => (cs, n + 1),
                _ => (bump(cs, z.service_name), n),
            }
        } else {
            (cs, n)
        }
    }
}

/// A bump adds one to the total.
pub proof fn lemma_total_count_bump(cs: Seq<(Seq<char>, nat)>, name: Seq<char>)
    ensures
        total_count(bump(cs, name)) == total_count(cs) + 1,
{
    lemma_count_index(cs, name, 0);
    match count_index(cs, name, 0) {
        Some(k) => lemma_total_count_update(cs, k, (name, cs[k].1 + 1)),
        None => {
            assert(cs.push((name, 1nat)).drop_last() =~= cs);
        },
    }
}

/// Replacing an entry changes the total by the difference of counts.
pub proof fn lemma_total_count_update(cs: Seq<(Seq<char>, nat)>, k: int, e: (Seq<char>, nat))
    requires
        0 <= k < cs.len(),
    ensures
        total_count(cs.update(k, e)) == total_count(cs) - cs[k].1 + e.1,
    decreases cs.len(),
{
    if k == cs.len() - 1 {
        assert(cs.update(k, e).drop_last() =~= cs.drop_last());
    } else {
        lemma_total_count_update(cs.drop_last(), k, e);
        assert(cs.update(k, e).drop_last() =~= cs.drop_last().update(k, e));
    }
}

/// Running counts total at most the number of zones.
pub proof fn lemma_running_counts_bounded(zs: Seq<SpecZone>)
    ensures
        total_count(running_counts(zs).0) + running_counts(zs).1 <= zs.len(),
        forall|j: int| 0 <= j < running_counts(zs).0.len() ==> (#[trigger] running_counts(zs).0[j]).1 <= zs.len(),
    decreases zs.len(),
{
    if zs.len() > 0 {
        lemma_running_counts_bounded(zs.drop_last());
        let (cs, n) = running_counts(zs.drop_last());
        let z = zs.last();
        if z.status == SpecZoneStatus::Running && z.kind != ZoneKind::Instance {
            lemma_total_count_bump(cs, z.service_name);
            lemma_count_index(cs, z.service_name, 0);
        }
    }
}

/// How many zones of a list run as services or infrastructure under a name.
pub open spec fn running_named(zs: Seq<SpecZone>, name: Seq<char>) -> nat
    decreases zs.len(),
{
    if zs.len() == 0 {
        0
    } else {
        running_named(zs.drop_last(), name) + if zs.last().status == SpecZoneStatus::Running && (zs.last().kind
            == ZoneKind::Service || zs.last().kind == ZoneKind::Infrastructure) && zs.last().service_name == name {
            1nat
        } else {
            0nat
        }
    }
}

/// How many zones of a list run as instances.
pub open spec fn running_instances(zs: Seq<SpecZone>) -> nat
    decreases zs.len(),
{
    if zs.len() == 0 {
        0
    } else {
        running_instances(zs.drop_last()) + if zs.last().status == SpecZoneStatus::Running && zs.last().kind
            == ZoneKind::Instance {
            1nat
        } else {
            0nat
        }
    }
}

proof fn lemma_count_index_same(cs: Seq<(Seq<char>, nat)>, cs2: Seq<(Seq<char>, nat)>, m: Seq<char>, i: int)
    requires
        0 <= i,
        cs.len() <= cs2.len(),
        forall|j: int| 0 <= j < cs.len() ==> (#[trigger] cs2[j]).0 == cs[j].0,
        forall|j: int| cs.len() <= j < cs2.len() ==> (#[trigger] cs2[j]).0 != m,
    ensures
        count_index(cs2, m, i) == count_index(cs, m, i),
    decreases cs2.len() - i,
{
    if i < cs2.len() {
        if i < cs.len() {
            assert(cs2[i].0 == cs[i].0);
        }
        lemma_count_index_same(cs, cs2, m, i + 1);
    }
}

proof fn lemma_count_index_at(cs: Seq<(Seq<char>, nat)>, m: Seq<char>, i: int, k: int)
    requires
        0 <= i <= k < cs.len(),
        cs[k].0 == m,
        forall|j: int| i <= j < k ==> (#[trigger] cs[j]).0 != m,
    ensures
        count_index(cs, m, i) == Some(k),
    decreases k - i,
{
    if i < k {
        lemma_count_index_at(cs, m, i + 1, k);
    }
}

/// What one more zone of a service does to the count of each name.
proof fn lemma_count_of_bump(cs: Seq<(Seq<char>, nat)>, n: Seq<char>, m: Seq<char>)
    ensures
        count_of(bump(cs, n), m) == if m == n {
            Some(
                match count_of(cs, n) {
                    Some(c) => c + 1,
                    None => 1nat,
                },
            )
        } else {
            count_of(cs, m)
        },
{
    lemma_count_index(cs, n, 0);
    lemma_count_index(cs, m, 0);
    match count_index(cs, n, 0) {
        Some(k) => {
            let cs2 = cs.update(k, (n, cs[k].1 + 1));
            if m == n {
                assert forall|j: int| 0 <= j < k implies (#[trigger] cs2[j]).0 != n by {
                    assert(cs2[j] == cs[j]);
                }
                lemma_count_index_at(cs2, n, 0, k);
            } else {
                assert forall|j: int| 0 <= j < cs.len() implies (#[trigger] cs2[j]).0 == cs[j].0 by {}
                lemma_count_index_same(cs, cs2, m, 0);
                lemma_count_index(cs2, m, 0);
                match count_index(cs, m, 0) {
                    Some(km) => {
                        assert(km != k);
                    },
                    None => {},
                }
            }
        },
        None => {
            let cs2 = cs.push((n, 1nat));
            if m == n {
                lemma_count_index_at(cs2, n, 0, cs.len() as int);
            } else {
                assert forall|j: int| 0 <= j < cs.len() implies (#[trigger] cs2[j]).0 == cs[j].0 by {}
                lemma_count_index_same(cs, cs2, m, 0);
                match count_index(cs, m, 0) {
                    Some(km) => {
                        assert(cs2[km] == cs[km]);
                    },
                    None => {},
                }
            }
        },
    }
}

/// The status counts only running zones: for every name, its count is the
/// number of zones of the list that run as services or infrastructure
/// under that name (a name with none is not listed), and the instance
/// count is the number of running instance zones. Installed, configured
/// or other zones that do not run are not counted.
pub proof fn law_counts_are_running_zones(zs: Seq<SpecZone>, name: Seq<char>)
    ensures
        count_of(running_counts(zs).0, name) == if running_named(zs, name) == 0 {
            None::<nat>
        } else {
            Some(running_named(zs, name))
        },
        running_counts(zs).1 == running_instances(zs),
    decreases zs.len(),
{
    if zs.len() > 0 {
        let d = zs.drop_last();
        law_counts_are_running_zones(d, name);
        let z = zs.last();
        let (cs, n) = running_counts(d);
        if z.status == SpecZoneStatus::Running && z.kind != ZoneKind::Instance {
            lemma_count_of_bump(cs, z.service_name, name);
        }
    }
}

/// Count the running zones of a list: per service name, instances apart,
/// and the total of the per-name counts.
pub fn count_running_zones(zones: &[ZoneInfo]) -> (r: (Vec<(String, u32)>, u32, u32))
    requires
        zones@.len() <= u32::MAX,
    ensures
        counts_view(r.0@) == running_counts(zones_view(zones@)).0,
        r.1 == running_counts(zones_view(zones@)).1,
        r.2 == total_count(running_counts(zones_view(zones@)).0),
{
    let ghost zv = zones_view(zones@);
    let mut cs: Vec<(String, u32)> = Vec::new();
    let mut instances: u32 = 0;
    let mut total: u32 = 0;
    let mut i: usize = 0;
    while i < zones.len()
        invariant
            i <= zones@.len(),
            zones@.len() <= u32::MAX,
            zv == zones_view(zones@),
            counts_view(cs@) == running_counts(zv.take(i as int)).0,
            instances == running_counts(zv.take(i as int)).1,
            total == total_count(running_counts(zv.take(i as int)).0),
        decreases zones@.len() - i,
    {
        proof {
            lemma_running_counts_bounded(zv.take(i as int));
            assert(zv.take(i + 1).drop_last() =~= zv.take(i as int));
            assert(zv.take(i + 1).last() == zv[i as int]);
        }
        let z = &zones[i];
        let running = match z.status {
            crate::parse::zones::ZoneStatus::Running => true,
            _ => false,
        };
        if running {
            match z.kind {
                ZoneKind::Instance => {
                    instances = instances + 1;
                },
                _ => {
                    let ghost c0 = counts_view(cs@);
                    proof {
                        lemma_count_index(c0, z.service_name@, 0);
                        lemma_total_count_bump(c0, z.service_name@);
                    }
                    let name = z.service_name.as_str();
                    let nv = to_chars(name);
                    let mut k: usize = 0;
                    let mut found = false;
                    while k < cs.len()
                        invariant_except_break
                            !found,
                        invariant
                            k <= cs@.len(),
                            nv@ == name@,
                            c0 == counts_view(cs@),
                            count_index(c0, name@, k as int) == count_index(c0, name@, 0),
                        ensures
                            found ==> k < cs@.len() && count_index(c0, name@, 0) == Some(k as int),
                            !found ==> count_index(c0, name@, 0) is None,
                        decreases cs@.len() - k,
                    {
                        let kv = to_chars(cs[k].0.as_str());
                        if crate::text::chars_eq(kv.as_slice(), nv.as_slice()) {
                            found = true;
                            break;
                        }
                        k = k + 1;
                    }
                    if found {
                        let old_n = cs[k].1;
                        proof {
                            lemma_running_counts_bounded(zv.take(i as int));
                            assert(c0[k as int].1 <= i);
                        }
                        let entry = (cs[k].0.clone(), old_n + 1);
                        cs.set(k, entry);
                        assert(counts_view(cs@) =~= c0.update(k as int, (name@, c0[k as int].1 + 1)));
                    } else {
                        cs.push((string_from(name), 1));
                        assert(counts_view(cs@) =~= c0.push((name@, 1nat)));
                    }
                    total = total + 1;
                },
            }
        }
        i = i + 1;
    }
    assert(zv.take(i as int) =~= zv);
    (cs, instances, total)
}

// --- Reboot detection ---

/// A host looks freshly rebooted when its simulated networks are gone
/// (they do not survive a reboot) or no service zone runs.
pub open spec fn spec_post_reboot(simnets_exist: bool, running_zones: nat) -> bool {
    !simnets_exist || running_zones == 0
}

/// Whether the host looks freshly rebooted. The baseline service state
/// does not change the answer: an offline or failed baseline flags a
/// reboot only together with no running zone, which flags it anyway.
pub fn is_post_reboot_from_parts(simnets_exist: bool, running_zones: u32, baseline: &Option<ServiceState>) -> (r: bool)
    ensures
        r == spec_post_reboot(simnets_exist, running_zones as nat),
{
    if !simnets_exist {
        return true;
    }
    if running_zones == 0 {
        return true;
    }
    if let Some(state) = baseline {
        let offline_or_failed = match state {
            ServiceState::Offline => true,
            ServiceState::Maintenance => true,
            _ => false,
        };
        if offline_or_failed {
            return running_zones == 0;
        }
    }
    false
}

/// Detect whether the host of a status is in post-reboot state.
pub fn is_post_reboot(status: &HostStatus) -> (r: bool)
    requires
        total_count(counts_view(status.zones.service_counts@)) <= u32::MAX,
    ensures
        r == spec_post_reboot(
            status.network.simnets_exist,
            total_count(counts_view(status.zones.service_counts@)),
        ),
{
    let cs = &status.zones.service_counts;
    let ghost cv = counts_view(cs@);
    let mut total: u32 = 0;
    let mut i: usize = 0;
    while i < cs.len()
        invariant
            i <= cs@.len(),
            cv == counts_view(cs@),
            total_count(cv) <= u32::MAX,
            total == total_count(cv.take(i as int)),
        decreases cs@.len() - i,
    {
        proof {
            crate::recover::lemma_total_count_prefix(cv, i as int);
        }
        total = total + cs[i].1;
        i = i + 1;
    }
    assert(cv.take(i as int) =~= cv);
    is_post_reboot_from_parts(status.network.simnets_exist, total, &status.services.baseline)
}

// --- Reading the status commands ---

/// The state of the first listed service whose FMRI holds `needle`.
pub open spec fn state_of(svcs: Seq<(SpecServiceState, Seq<char>)>, needle: Seq<char>, i: int) -> Option<SpecServiceState>
    decreases svcs.len() - i,
{
    if i < 0 || i >= svcs.len() {
        None
    } else if contains(svcs[i].1, needle) {
        Some(svcs[i].0)
    } else {
        state_of(svcs, needle, i + 1)
    }
}

/// The view of an optional service state.
pub open spec fn opt_state_view(o: Option<ServiceState>) -> Option<SpecServiceState> {
    match o {
        Some(s) => Some(s@),
        None => None,
    }
}

fn find_state(svcs: &Vec<crate::parse::services::ServiceInfo>, needle: &str) -> (r: Option<ServiceState>)
    ensures
        opt_state_view(r) == state_of(services_view(svcs@), needle@, 0),
{
    let ghost sv = services_view(svcs@);
    let mut i: usize = 0;
    while i < svcs.len()
        invariant
            i <= svcs@.len(),
            sv == services_view(svcs@),
            state_of(sv, needle@, i as int) == state_of(sv, needle@, 0),
        decreases svcs@.len() - i,
    {
        let f = to_chars(svcs[i].fmri.as_str());
        if contains_str(f.as_slice(), needle) {
            return Some(clone_state(&svcs[i].state));
        }
        i = i + 1;
    }
    None
}

/// A copy of a service state.
pub fn clone_state(s: &ServiceState) -> (r: ServiceState)
    ensures
        r@ == s@,
{
    match s {
        ServiceState::Online => ServiceState::Online,
        ServiceState::Offline => ServiceState::Offline,
        ServiceState::Disabled => ServiceState::Disabled,
        ServiceState::Maintenance => ServiceState::Maintenance,
        ServiceState::Degraded => ServiceState::Degraded,
        ServiceState::Uninitialized => ServiceState::Uninitialized,
        ServiceState::Unknown(t) => ServiceState::Unknown(t.clone()),
    }
}

/// The command that checks DNS through the first external DNS address
/// (none configured: an empty address).
pub fn status_dns_command(external_dns_ips: &Vec<String>) -> (r: String)
    ensures
        r@ == "dig recovery.sys.oxide.test @"@ + (if external_dns_ips@.len() > 0 {
            external_dns_ips@[0]@
        } else {
            Seq::<char>::empty()
        }) + " +short +time=3 +tries=1 2>/dev/null"@,
{
    let mut s = string_from("dig recovery.sys.oxide.test @");
    if external_dns_ips.len() > 0 {
        crate::text::push_str(&mut s, external_dns_ips[0].as_str());
    }
    crate::text::push_str(&mut s, " +short +time=3 +tries=1 2>/dev/null");
    s
}

/// The Nexus ping to run after the DNS check: at the first resolved
/// address; none when nothing resolved (Nexus then counts as unreachable).
pub fn status_ping_command(dns: &DnsResult) -> (r: Option<String>)
    ensures
        dns.addresses@.len() == 0 ==> r is None,
        dns.addresses@.len() > 0 ==> (r matches Some(c) && c@
            == "curl -sf --connect-timeout 3 --max-time 5 http://"@ + dns.addresses@[0]@
            + "/v1/ping 2>/dev/null"@),
{
    if dns.addresses.len() > 0 {
        Some(crate::recover::nexus_ping_command(dns.addresses[0].as_str()))
    } else {
        None
    }
}

/// What the status commands answered; a command that could not run
/// counts as one that printed nothing and exited 1.
pub struct StatusOutputs {
    pub zpool: CommandOutput,
    pub zones: CommandOutput,
    pub svcs: CommandOutput,
    pub vdevs: CommandOutput,
    pub dns: CommandOutput,
    pub ping: CommandOutput,
    pub simnet: CommandOutput,
}

/// The status of a host built from the command outputs.
pub open spec fn status_matches(s: HostStatus, hostname: Seq<char>, o: OmicronOverrides, out: StatusOutputs) -> bool {
    let zv = zone_entries(lines(out.zones.stdout@));
    let svcs = svcs_entries(lines(out.svcs.stdout@));
    let (cs, inst) = running_counts(zv);
    let simnets = out.simnet.exit_code == 0 && trim(out.simnet.stdout@).len() > 0;
    &&& s.hostname@ == hostname
    &&& s.connection is Connected
    &&& opt_state_view(s.services.sled_agent) == state_of(svcs, "sled-agent"@, 0)
    &&& opt_state_view(s.services.baseline) == state_of(svcs, "baseline"@, 0)
    &&& zones_view(s.zones.zones@) == zv
    &&& counts_view(s.zones.service_counts@) == cs
    &&& s.zones.instance_count == inst
    &&& counts_view(s.zones.expected_services@) == spec_expected_zones(o)
    &&& placement_view(s.zones.placement@) == spec_placement(zv)
    &&& match spec_parse_zpool_list(out.zpool.stdout@) {
        Ok(ps) => zpools_view(s.disk.oxp_pools@) == oxp_only(ps) && match rpool_index_from(ps, 0) {
            Some(k) => s.disk.rpool is Some && zpool_view(s.disk.rpool->0) == ps[k],
            None => s.disk.rpool is None,
        },
        Err(_) => s.disk.rpool is None && s.disk.oxp_pools@.len() == 0,
    }
    &&& vdevs_view(s.disk.vdev_files@) == (if vdev_sizes_fit(out.vdevs.stdout@) {
        with_bytes(vdev_entries(lines(out.vdevs.stdout@)))
    } else {
        Seq::empty()
    })
    &&& s.network.nexus_reachable == (s.network.dns_resolving && out.ping.exit_code == 0)
    &&& strings_view(s.network.dns_addresses@) == nonempty_trimmed(lines(out.dns.stdout@))
    &&& s.network.dns_resolving == (s.network.dns_addresses@.len() > 0)
    &&& s.network.simnets_exist == simnets
    &&& s.reboot_detected == spec_post_reboot(simnets, total_count(cs))
}

/// Read the status of a host from what its status commands printed. A
/// vdev listing whose sizes do not fit in bytes is read as no vdevs.
pub fn assemble_status(hostname: &str, overrides: &OmicronOverrides, out: &StatusOutputs) -> (r: HostStatus)
    requires
        zone_entries(lines(out.zones.stdout@)).len() <= u32::MAX,
    ensures
        status_matches(r, hostname@, *overrides, *out),
{
    let dns_check = parse_dns_check(out.dns.stdout.as_str());
    let (rpool, oxp_pools) = match parse_rpool(out.zpool.stdout.as_str()) {
        Ok(r) => match parse_oxp_pools(out.zpool.stdout.as_str()) {
            Ok(o) => (r, o),
            Err(_) => (None, Vec::new()),
        },
        Err(_) => (None, Vec::new()),
    };
    proof {
        if spec_parse_zpool_list(out.zpool.stdout@) is Err {
            assert(zpools_view(oxp_pools@) =~= Seq::empty());
        }
    }
    let zone_list = match parse_zoneadm_list(out.zones.stdout.as_str()) {
        Ok(z) => z,
        Err(_) => Vec::new(),
    };
    let (service_counts, instance_count, total_services) = count_running_zones(zone_list.as_slice());
    let placement = derive_zone_placement(zone_list.as_slice());
    let svc_list = match parse_svcs(out.svcs.stdout.as_str()) {
        Ok(s) => s,
        Err(_) => Vec::new(),
    };
    let sled_agent = find_state(&svc_list, "sled-agent");
    let baseline = find_state(&svc_list, "baseline");
    let vdev_files = if vdev_sizes_fit_exec(out.vdevs.stdout.as_str()) {
        match parse_vdev_files(out.vdevs.stdout.as_str()) {
            Ok(v) => v,
            Err(_) => Vec::new(),
        }
    } else {
        let v: Vec<VdevFileInfo> = Vec::new();
        assert(vdevs_view(v@) =~= Seq::empty());
        v
    };
    let nexus_reachable = dns_check.resolved && parse_nexus_ping(out.ping.exit_code);
    let simnets_exist = parse_simnet_check(out.simnet.exit_code, out.simnet.stdout.as_str());
    let reboot_detected = is_post_reboot_from_parts(simnets_exist, total_services, &baseline);
    HostStatus {
        hostname: string_from(hostname),
        connection: ConnectionState::Connected,
        services: ServiceStatus { sled_agent, baseline },
        zones: ZoneStatus {
            service_counts,
            expected_services: derive_expected_zones(overrides),
            instance_count,
            zones: zone_list,
            placement,
        },
        disk: DiskStatus { rpool, oxp_pools, vdev_files },
        network: NetworkStatus {
            nexus_reachable,
            dns_resolving: dns_check.resolved,
            dns_addresses: dns_check.addresses,
            simnets_exist,
        },
        reboot_detected,
    }
}


// --- The report ---

/// Bytes in a GiB.
pub const GIB: u64 = 1073741824;

/// `n / d` rounded to the nearest whole number, a half to the even one (as
/// a float is printed with a given precision).
pub open spec fn div_round_even(n: nat, d: nat) -> nat {
    let q = n / d;
    let r = n % d;
    if 2 * r > d {
        q + 1
    } else if 2 * r < d {
        q
    } else if q % 2 == 0 {
        q
    } else {
        q + 1
    }
}

/// Whole GiB of a byte count, rounded.
pub fn gib_rounded(bytes: u64) -> (r: u64)
    ensures
        r == div_round_even(bytes as nat, GIB as nat),
{
    let q = bytes / GIB;
    let rem = bytes % GIB;
    if 2 * rem > GIB {
        q + 1
    } else if 2 * rem < GIB {
        q
    } else if q % 2 == 0 {
        q
    } else {
        q + 1
    }
}

/// Tenths of a GiB of a byte count, rounded.
pub fn gib_tenths(bytes: u64) -> (r: u64)
    ensures
        r == div_round_even(bytes as nat * 10, GIB as nat),
{
    let t: u128 = bytes as u128 * 10;
    let g: u128 = GIB as u128;
    let q: u128 = t / g;
    let rem: u128 = t % g;
    assert(q <= 0xffff_ffff_ffff_ffff_ffu128) by (nonlinear_arith)
        requires
            q == t / g,
            t <= 0xffff_ffff_ffff_ffffu128 * 10,
            g == 1073741824,
    ;
    let r: u128 = if 2 * rem > g {
        q + 1
    } else if 2 * rem < g {
        q
    } else if q % 2 == 0 {
        q
    } else {
        q + 1
    };
    r as u64
}

/// A number of tenths written with one decimal: `12.3`.
pub open spec fn tenths_text(t: nat) -> Seq<char> {
    decimal(t / 10) + "."@ + decimal(t % 10)
}

/// Spaces.
pub open spec fn spaces(n: nat) -> Seq<char> {
    Seq::new(n, |i: int| ' ')
}

/// Left-aligned in a field of `w` characters (`{:<w}`).
pub open spec fn pad_to(s: Seq<char>, w: nat) -> Seq<char> {
    if s.len() >= w {
        s
    } else {
        s + spaces((w - s.len()) as nat)
    }
}

/// How a connection state is shown.
pub open spec fn conn_text(c: ConnectionState) -> Seq<char> {
    match c {
        ConnectionState::Connected => "connected"@,
        ConnectionState::Disconnected { .. } => "disconnected"@,
    }
}

/// How an optional service state is shown.
pub open spec fn state_text(o: Option<ServiceState>) -> Seq<char> {
    match o {
        Some(s) => spec_service_state_text(s@),
        None => "not found"@,
    }
}

/// The names of a list of counts.
pub open spec fn count_names(cs: Seq<(Seq<char>, nat)>) -> Seq<Seq<char>> {
    cs.map_values(|p: (Seq<char>, nat)| p.0)
}

/// The ascending list of a finite set of names.
pub open spec fn ascending_of(names: Set<Seq<char>>) -> Seq<Seq<char>> {
    choose|s: Seq<Seq<char>>| ascending(s) && s.to_set() == names
}

/// A line of the per-service table: the name, the running count, the
/// expected one and a mark when fewer run than expected.
pub open spec fn service_line(svc: Seq<char>, actual: nat, expected: Option<nat>) -> Seq<char> {
    "  "@ + pad_to(svc, 18) + " "@ + decimal(actual) + (match expected {
        Some(e) => "/"@ + decimal(e),
        None => Seq::empty(),
    }) + (match expected {
        Some(e) => if actual < e {
            " (!)"@
        } else {
            Seq::empty()
        },
        None => Seq::empty(),
    }) + "\n"@
}

/// The table lines for the names, in order.
pub open spec fn service_lines(
    names: Seq<Seq<char>>,
    actual: Seq<(Seq<char>, nat)>,
    expected: Seq<(Seq<char>, nat)>,
) -> Seq<char>
    decreases names.len(),
{
    if names.len() == 0 {
        Seq::empty()
    } else {
        service_lines(names.drop_last(), actual, expected) + service_line(
            names.last(),
            match count_of(actual, names.last()) {
                Some(n) => n,
                None => 0,
            },
            count_of(expected, names.last()),
        )
    }
}

/// The service names of the table: expected and running, ascending.
pub open spec fn table_names(z: ZoneStatus) -> Seq<Seq<char>> {
    ascending_of(
        count_names(counts_view(z.expected_services@)).to_set() + count_names(
            counts_view(z.service_counts@),
        ).to_set(),
    )
}

/// The service names of the running instance zones, in order.
pub open spec fn instance_names(zs: Seq<SpecZone>) -> Seq<Seq<char>>
    decreases zs.len(),
{
    if zs.len() == 0 {
        seq![]
    } else {
        let rest = instance_names(zs.drop_last());
        if zs.last().kind == ZoneKind::Instance && zs.last().status == SpecZoneStatus::Running {
            rest.push(zs.last().service_name)
        } else {
            rest
        }
    }
}

/// The number of characters at the start of `s` whose encoding reaches
/// `n` bytes, searching from `k`.
pub open spec fn cut_at(s: Seq<char>, n: nat, k: int) -> int
    decreases s.len() - k,
{
    if k < 0 || k >= s.len() || crate::text::utf8_len(s.take(k)) >= n {
        k
    } else {
        cut_at(s, n, k + 1)
    }
}

/// A pool name can be shortened: when it is longer than `oxp_` and eight
/// bytes, its eighth byte ends a character.
pub open spec fn shortenable(p: Seq<char>) -> bool {
    match crate::text::strip_prefix(p, "oxp_"@) {
        Some(s) => crate::text::utf8_len(s) > 8 ==> crate::text::utf8_len(s.take(cut_at(s, 8, 0)))
            == 8,
        None => true,
    }
}

/// A pool name as displayed: `oxp_` and the first eight bytes of the
/// rest, then `...`, when the rest is longer.
pub open spec fn short_pool(p: Seq<char>) -> Seq<char> {
    match crate::text::strip_prefix(p, "oxp_"@) {
        Some(s) => if crate::text::utf8_len(s) > 8 {
            "oxp_"@ + s.take(cut_at(s, 8, 0)) + "..."@
        } else {
            "oxp_"@ + s
        },
        None => p,
    }
}

/// The names placed on a pool.
pub open spec fn names_on(pl: Seq<(Seq<char>, Seq<Seq<char>>)>, pool: Seq<char>, i: int) -> Seq<Seq<char>>
    decreases pl.len() - i,
{
    if i < 0 || i >= pl.len() {
        seq![]
    } else if pl[i].0 == pool {
        pl[i].1
    } else {
        names_on(pl, pool, i + 1)
    }
}

/// The placement lines for the pools, in order.
pub open spec fn placement_lines(pools: Seq<Seq<char>>, pl: Seq<(Seq<char>, Seq<Seq<char>>)>) -> Seq<char>
    decreases pools.len(),
{
    if pools.len() == 0 {
        Seq::empty()
    } else {
        placement_lines(pools.drop_last(), pl) + "             "@ + short_pool(pools.last()) + ": "@
            + crate::text::join(names_on(pl, pools.last(), 0), ", "@) + "\n"@
    }
}

/// The pools of a placement.
pub open spec fn pool_names(pl: Seq<(Seq<char>, Seq<Seq<char>>)>) -> Seq<Seq<char>> {
    pl.map_values(|p: (Seq<char>, Seq<Seq<char>>)| p.0)
}

/// The last `/`-separated piece of a path.
pub open spec fn basename(p: Seq<char>) -> Seq<char> {
    match crate::text::rfind_char(p, '/') {
        Some(i) => p.subrange(i + 1, p.len() as int),
        None => p,
    }
}

/// The pool entries of the report: `<short name>: <cap>%`.
pub open spec fn pool_items(ps: Seq<ZpoolInfo>) -> Seq<Seq<char>> {
    ps.map_values(|p: ZpoolInfo| short_pool(p.name@) + ": "@ + decimal(p.capacity_pct as nat) + "%"@)
}

/// The vdev entries of the report: `<file>: <GiB, one decimal> GiB`.
pub open spec fn vdev_items(vs: Seq<VdevFileInfo>) -> Seq<Seq<char>> {
    vs.map_values(
        |v: VdevFileInfo|
            basename(v.path@) + ": "@ + tenths_text(div_round_even(v.size_bytes as nat * 10, GIB as nat))
                + " GiB"@,
    )
}

/// The report's header and reboot warning.
#[verifier::opaque]
pub open spec fn report_header(s: HostStatus, name: Seq<char>) -> Seq<char> {
    name + " / "@ + s.hostname@ + " ("@ + conn_text(s.connection) + ")\n"@ + (if s.reboot_detected {
        "  *** REBOOT DETECTED \u{2014} run 'whoah recover' ***\n"@
    } else {
        Seq::empty()
    })
}

/// The report's line of service states.
#[verifier::opaque]
pub open spec fn report_services(s: ServiceStatus) -> Seq<char> {
    "  Services:  sled-agent: "@ + state_text(s.sled_agent) + ", baseline: "@ + state_text(s.baseline)
        + "\n"@
}

/// The report's per-service table.
#[verifier::opaque]
pub open spec fn report_table(z: ZoneStatus) -> Seq<char> {
    service_lines(table_names(z), counts_view(z.service_counts@), counts_view(z.expected_services@))
}

/// The report's line of running instances, if any.
#[verifier::opaque]
pub open spec fn report_instances(z: ZoneStatus) -> Seq<char> {
    if z.instance_count > 0 {
        "  Instances:         "@ + decimal(z.instance_count as nat) + " ("@ + crate::text::join(
            instance_names(zones_view(z.zones@)),
            ", "@,
        ) + ")\n"@
    } else {
        Seq::empty()
    }
}

/// The report's placement lines, pools ascending.
#[verifier::opaque]
pub open spec fn report_placement(z: ZoneStatus) -> Seq<char> {
    placement_lines(
        ascending_of(pool_names(placement_view(z.placement@)).to_set()),
        placement_view(z.placement@),
    )
}

/// The report's disk lines.
#[verifier::opaque]
pub open spec fn report_disk(d: DiskStatus) -> Seq<char> {
    (match d.rpool {
        Some(p) => "  rpool:     "@ + decimal(p.capacity_pct as nat) + "% ("@ + decimal(
            div_round_even(p.free_bytes as nat, GIB as nat),
        ) + " GiB free)\n"@,
        None => Seq::empty(),
    }) + (if d.oxp_pools@.len() > 0 {
        "  oxp pools: "@ + crate::text::join(pool_items(d.oxp_pools@), ", "@) + "\n"@
    } else {
        Seq::empty()
    }) + (if d.vdev_files@.len() > 0 {
        "  vdevs:     "@ + crate::text::join(vdev_items(d.vdev_files@), ", "@) + "\n"@
    } else {
        Seq::empty()
    })
}

/// The report's network lines.
#[verifier::opaque]
pub open spec fn report_network(n: NetworkStatus) -> Seq<char> {
    "  Nexus:     "@ + (if n.nexus_reachable {
        "reachable"@
    } else {
        "unreachable"@
    }) + "\n"@ + "  DNS:       "@ + (if n.dns_resolving {
        "resolving"@
    } else {
        "not resolving"@
    }) + "\n"@
}

/// The report printed for a status: header and reboot warning, service
/// states, the per-service table, instances, placement, disks, network.
pub open spec fn spec_format_status(s: HostStatus, name: Seq<char>) -> Seq<char> {
    report_header(s, name) + report_services(s.services) + report_table(s.zones) + report_instances(
        s.zones,
    ) + report_placement(s.zones) + report_disk(s.disk) + report_network(s.network)
}

/// The pool names of a status can all be shortened for display.
pub open spec fn names_shortenable(s: HostStatus) -> bool {
    &&& forall|i: int| 0 <= i < s.disk.oxp_pools@.len() ==> shortenable(#[trigger] s.disk.oxp_pools@[i].name@)
    &&& forall|i: int| 0 <= i < s.zones.placement@.len() ==> shortenable(#[trigger] s.zones.placement@[i].0@)
}

fn char_width(c: char) -> (r: u64)
    ensures
        r == crate::text::char_utf8_len(c),
{
    let u = c as u32;
    if u < 0x80 {
        1
    } else if u < 0x800 {
        2
    } else if u < 0x10000 {
        3
    } else {
        4
    }
}

fn cut_exec(s: &[char], n: u64) -> (r: usize)
    requires
        n <= 8,
    ensures
        r == cut_at(s@, n as nat, 0),
        r <= s@.len(),
{
    let mut k: usize = 0;
    let mut bytes: u64 = 0;
    assert(s@.take(0) =~= Seq::<char>::empty());
    while k < s.len() && bytes < n
        invariant
            k <= s@.len(),
            n <= 8,
            bytes == crate::text::utf8_len(s@.take(k as int)),
            k > 0 ==> bytes < n + 4,
            k == 0 ==> bytes == 0,
            cut_at(s@, n as nat, k as int) == cut_at(s@, n as nat, 0),
        decreases s@.len() - k,
    {
        assert(s@.take(k + 1).drop_last() =~= s@.take(k as int));
        bytes = bytes + char_width(s[k]);
        k = k + 1;
    }
    k
}

/// Shorten a pool name for display.
pub fn shorten_pool(p: &str) -> (r: String)
    requires
        shortenable(p@),
    ensures
        r@ == short_pool(p@),
{
    let v = to_chars(p);
    match crate::text::strip_prefix_str(v.as_slice(), "oxp_") {
        Some(rest) => {
            let mut out = string_from("oxp_");
            if crate::text::utf8_len_exceeds(rest, 8) {
                let k = cut_exec(rest, 8);
                crate::text::push_chars(&mut out, vstd::slice::slice_subrange(rest, 0, k));
                crate::text::push_str(&mut out, "...");
            } else {
                crate::text::push_chars(&mut out, rest);
            }
            out
        },
        None => string_from(p),
    }
}

fn push_padded(out: &mut String, s: &str, w: usize)
    ensures
        final(out)@ == old(out)@ + pad_to(s@, w as nat),
{
    let v = to_chars(s);
    crate::text::push_chars(out, v.as_slice());
    let mut n: usize = v.len();
    while n < w
        invariant
            v@ == s@,
            v@.len() <= n,
            n <= w || n == v@.len(),
            out@ == old(out)@ + s@ + spaces((n - v@.len()) as nat),
        decreases w - n,
    {
        crate::text::push_char(out, ' ');
        n = n + 1;
        assert(spaces((n - v@.len()) as nat) =~= spaces((n - 1 - v@.len()) as nat).push(' '));
    }
    if v.len() >= w {
        assert(spaces(0) =~= Seq::<char>::empty());
    }
}

fn lookup_count(cs: &Vec<(String, u32)>, name: &str) -> (r: Option<u32>)
    ensures
        match r {
            Some(n) => count_of(counts_view(cs@), name@) == Some(n as nat),
            None => count_of(counts_view(cs@), name@) is None,
        },
{
    let ghost cv = counts_view(cs@);
    proof {
        lemma_count_index(cv, name@, 0);
    }
    let nv = to_chars(name);
    let mut i: usize = 0;
    while i < cs.len()
        invariant
            i <= cs@.len(),
            nv@ == name@,
            cv == counts_view(cs@),
            count_index(cv, name@, i as int) == count_index(cv, name@, 0),
        decreases cs@.len() - i,
    {
        let k = to_chars(cs[i].0.as_str());
        if crate::text::chars_eq(k.as_slice(), nv.as_slice()) {
            return Some(cs[i].1);
        }
        i = i + 1;
    }
    None
}

fn table_name_list(z: &ZoneStatus) -> (r: Vec<String>)
    ensures
        strings_view(r@) == table_names(*z),
{
    let mut names: Vec<String> = Vec::new();
    let ghost want = count_names(counts_view(z.expected_services@)).to_set() + count_names(
        counts_view(z.service_counts@),
    ).to_set();
    assert(strings_view(names@) =~= Seq::<Seq<char>>::empty());
    let mut i: usize = 0;
    while i < z.expected_services.len()
        invariant
            i <= z.expected_services@.len(),
            ascending(strings_view(names@)),
            strings_view(names@).to_set() == count_names(counts_view(z.expected_services@)).take(
                i as int,
            ).to_set(),
        decreases z.expected_services@.len() - i,
    {
        let ghost before = strings_view(names@);
        insert_ascending(&mut names, z.expected_services[i].0.as_str());
        i = i + 1;
        proof {
            let ks = count_names(counts_view(z.expected_services@));
            assert(ks.take(i as int) =~= ks.take(i - 1).push(ks[i - 1]));
            ks.take(i - 1).lemma_push_to_set_commute(ks[i - 1]);
        }
    }
    proof {
        let ke = count_names(counts_view(z.expected_services@));
        let ks = count_names(counts_view(z.service_counts@));
        assert(ke.take(i as int) =~= ke);
        assert(ks.take(0) =~= Seq::<Seq<char>>::empty());
        assert(ks.take(0).to_set() =~= Set::<Seq<char>>::empty());
        assert(strings_view(names@).to_set() =~= ke.to_set() + ks.take(0).to_set());
    }
    let mut j: usize = 0;
    while j < z.service_counts.len()
        invariant
            j <= z.service_counts@.len(),
            ascending(strings_view(names@)),
            strings_view(names@).to_set() == count_names(counts_view(z.expected_services@)).to_set()
                + count_names(counts_view(z.service_counts@)).take(j as int).to_set(),
        decreases z.service_counts@.len() - j,
    {
        insert_ascending(&mut names, z.service_counts[j].0.as_str());
        j = j + 1;
        proof {
            let ks = count_names(counts_view(z.service_counts@));
            assert(ks.take(j as int) =~= ks.take(j - 1).push(ks[j - 1]));
            ks.take(j - 1).lemma_push_to_set_commute(ks[j - 1]);
            let a = count_names(counts_view(z.expected_services@)).to_set();
            assert(strings_view(names@).to_set() =~= a + ks.take(j as int).to_set());
        }
    }
    proof {
        assert(count_names(counts_view(z.expected_services@)).take(z.expected_services@.len() as int)
            =~= count_names(counts_view(z.expected_services@)));
        assert(count_names(counts_view(z.service_counts@)).take(j as int) =~= count_names(
            counts_view(z.service_counts@),
        ));
        let s = strings_view(names@);
        assert(ascending(s) && s.to_set() == want);
        let c = ascending_of(want);
        lemma_ascending_unique_order(s, c);
    }
    names
}


fn push_service_line(out: &mut String, svc: &str, actual: u32, expected: Option<u32>)
    ensures
        final(out)@ == old(out)@ + service_line(
            svc@,
            actual as nat,
            match expected {
                Some(e) => Some(e as nat),
                None => None,
            },
        ),
{
    crate::text::push_str(out, "  ");
    push_padded(out, svc, 18);
    crate::text::push_str(out, " ");
    crate::text::push_u64(out, actual as u64);
    match expected {
        Some(e) => {
            crate::text::push_str(out, "/");
            crate::text::push_u64(out, e as u64);
        },
        None => {},
    }
    match expected {
        Some(e) => if actual < e {
            crate::text::push_str(out, " (!)");
        },
        None => {},
    }
    crate::text::push_str(out, "\n");
    proof {
        let ex = match expected {
            Some(e) => Some(e as nat),
            None => None,
        };
        assert(final(out)@ =~= old(out)@ + service_line(svc@, actual as nat, ex));
    }
}

fn service_table(z: &ZoneStatus) -> (r: String)
    ensures
        r@ == report_table(*z),
{
    reveal(report_table);
    let names = table_name_list(z);
    let ghost nv = strings_view(names@);
    let mut out = String::new();
    let mut i: usize = 0;
    while i < names.len()
        invariant
            i <= names@.len(),
            nv == strings_view(names@),
            out@ == service_lines(nv.take(i as int), counts_view(z.service_counts@), counts_view(z.expected_services@)),
        decreases names@.len() - i,
    {
        let actual = match lookup_count(&z.service_counts, names[i].as_str()) {
            Some(n) => n,
            None => 0,
        };
        let expected = lookup_count(&z.expected_services, names[i].as_str());
        push_service_line(&mut out, names[i].as_str(), actual, expected);
        i = i + 1;
        proof {
            assert(nv.take(i as int).drop_last() =~= nv.take(i - 1));
            assert(nv.take(i as int).last() == names@[i - 1]@);
        }
    }
    assert(nv.take(i as int) =~= nv);
    out
}

fn instance_list(zones: &Vec<ZoneInfo>) -> (r: Vec<String>)
    ensures
        strings_view(r@) == instance_names(zones_view(zones@)),
{
    let ghost zv = zones_view(zones@);
    let mut out: Vec<String> = Vec::new();
    let mut i: usize = 0;
    while i < zones.len()
        invariant
            i <= zones@.len(),
            zv == zones_view(zones@),
            strings_view(out@) == instance_names(zv.take(i as int)),
        decreases zones@.len() - i,
    {
        proof {
            assert(zv.take(i + 1).drop_last() =~= zv.take(i as int));
            assert(zv.take(i + 1).last() == zv[i as int]);
        }
        let z = &zones[i];
        let running = match z.status {
            crate::parse::zones::ZoneStatus::Running => true,
            _ => false,
        };
        if z.kind == ZoneKind::Instance && running {
            let ghost before = out@;
            out.push(z.service_name.clone());
            assert(strings_view(out@) =~= strings_view(before).push(z.service_name@));
        }
        i = i + 1;
    }
    assert(zv.take(i as int) =~= zv);
    out
}

fn pool_list(pl: &Vec<(String, Vec<String>)>) -> (r: Vec<String>)
    ensures
        strings_view(r@) == ascending_of(pool_names(placement_view(pl@)).to_set()),
        ascending(strings_view(r@)),
        strings_view(r@).to_set() == pool_names(placement_view(pl@)).to_set(),
{
    let ghost ks = pool_names(placement_view(pl@));
    let mut names: Vec<String> = Vec::new();
    assert(strings_view(names@) =~= Seq::<Seq<char>>::empty());
    assert(ks.take(0) =~= Seq::<Seq<char>>::empty());
    let mut i: usize = 0;
    while i < pl.len()
        invariant
            i <= pl@.len(),
            ks == pool_names(placement_view(pl@)),
            ascending(strings_view(names@)),
            strings_view(names@).to_set() == ks.take(i as int).to_set(),
        decreases pl@.len() - i,
    {
        insert_ascending(&mut names, pl[i].0.as_str());
        i = i + 1;
        proof {
            assert(ks.take(i as int) =~= ks.take(i - 1).push(ks[i - 1]));
            ks.take(i - 1).lemma_push_to_set_commute(ks[i - 1]);
        }
    }
    proof {
        assert(ks.take(i as int) =~= ks);
        lemma_ascending_unique_order(strings_view(names@), ascending_of(ks.to_set()));
    }
    names
}

fn names_on_exec(pl: &Vec<(String, Vec<String>)>, pool: &str) -> (r: Vec<String>)
    ensures
        strings_view(r@) == names_on(placement_view(pl@), pool@, 0),
{
    let ghost pv = placement_view(pl@);
    let pv_chars = to_chars(pool);
    let mut i: usize = 0;
    while i < pl.len()
        invariant
            i <= pl@.len(),
            pv == placement_view(pl@),
            pv_chars@ == pool@,
            names_on(pv, pool@, i as int) == names_on(pv, pool@, 0),
        decreases pl@.len() - i,
    {
        let k = to_chars(pl[i].0.as_str());
        if crate::text::chars_eq(k.as_slice(), pv_chars.as_slice()) {
            let v = pl[i].1.clone();
            proof {
                assert(v@ == pl@[i as int].1@);
                assert(strings_view(v@) =~= pv[i as int].1);
            }
            return v;
        }
        i = i + 1;
    }
    let v: Vec<String> = Vec::new();
    assert(strings_view(v@) =~= Seq::<Seq<char>>::empty());
    v
}

fn placement_text(z: &ZoneStatus) -> (r: String)
    requires
        forall|i: int| 0 <= i < z.placement@.len() ==> shortenable(#[trigger] z.placement@[i].0@),
    ensures
        r@ == report_placement(*z),
{
    reveal(report_placement);
    let pl = &z.placement;
    let pools = pool_list(pl);
    let ghost pv = strings_view(pools@);
    let ghost ks = pool_names(placement_view(pl@));
    let mut out = String::new();
    let mut i: usize = 0;
    while i < pools.len()
        invariant
            i <= pools@.len(),
            pv == strings_view(pools@),
            ks == pool_names(placement_view(pl@)),
            pv == ascending_of(ks.to_set()),
            pv.to_set() == ks.to_set(),
            forall|j: int| 0 <= j < pl@.len() ==> shortenable(#[trigger] pl@[j].0@),
            out@ == placement_lines(pv.take(i as int), placement_view(pl@)),
        decreases pools@.len() - i,
    {
        proof {
            assert(pv.to_set().contains(pv[i as int]));
            assert(ks.to_set().contains(pv[i as int]));
            let j = choose|j: int| 0 <= j < ks.len() && ks[j] == pv[i as int];
            assert(shortenable(pl@[j].0@));
        }
        let names = names_on_exec(pl, pools[i].as_str());
        crate::text::push_str(&mut out, "             ");
        let short = shorten_pool(pools[i].as_str());
        crate::text::push_str(&mut out, short.as_str());
        crate::text::push_str(&mut out, ": ");
        let joined = crate::text::join_exec(&names, ", ");
        assert(names@.map_values(|p: String| p@) =~= strings_view(names@));
        crate::text::push_str(&mut out, joined.as_str());
        crate::text::push_str(&mut out, "\n");
        i = i + 1;
        proof {
            assert(pv.take(i as int).drop_last() =~= pv.take(i - 1));
            assert(pv.take(i as int).last() == pools@[i - 1]@);
        }
    }
    assert(pv.take(i as int) =~= pv);
    out
}

fn pool_item_list(ps: &Vec<ZpoolInfo>) -> (r: Vec<String>)
    requires
        forall|i: int| 0 <= i < ps@.len() ==> shortenable(#[trigger] ps@[i].name@),
    ensures
        strings_view(r@) == pool_items(ps@),
{
    let mut out: Vec<String> = Vec::new();
    let mut i: usize = 0;
    while i < ps.len()
        invariant
            i <= ps@.len(),
            forall|j: int| 0 <= j < ps@.len() ==> shortenable(#[trigger] ps@[j].name@),
            strings_view(out@) == pool_items(ps@).take(i as int),
        decreases ps@.len() - i,
    {
        let mut item = shorten_pool(ps[i].name.as_str());
        crate::text::push_str(&mut item, ": ");
        crate::text::push_u64(&mut item, ps[i].capacity_pct as u64);
        crate::text::push_str(&mut item, "%");
        assert(item@ == pool_items(ps@)[i as int]);
        let ghost before = out@;
        out.push(item);
        assert(strings_view(out@) =~= strings_view(before).push(pool_items(ps@)[i as int]));
        i = i + 1;
        assert(strings_view(out@) =~= pool_items(ps@).take(i as int));
    }
    assert(pool_items(ps@).take(i as int) =~= pool_items(ps@));
    out
}

fn basename_exec(p: &str) -> (r: String)
    ensures
        r@ == basename(p@),
{
    let v = to_chars(p);
    match crate::text::rfind_char_exec(v.as_slice(), '/') {
        Some(i) => {
            proof {
                crate::text::lemma_rfind_char_to(v@, '/', v@.len() as int);
                assert(crate::text::rfind_char(v@, '/') == crate::text::rfind_char_to(v@, '/', v@.len() as int));
                assert(i < v@.len());
                assert(v@.len() == v.len());
            }
            string_of(vstd::slice::slice_subrange(v.as_slice(), i + 1, v.len()))
        },
        None => string_from(p),
    }
}

fn vdev_item_list(vs: &Vec<VdevFileInfo>) -> (r: Vec<String>)
    ensures
        strings_view(r@) == vdev_items(vs@),
{
    let mut out: Vec<String> = Vec::new();
    let mut i: usize = 0;
    while i < vs.len()
        invariant
            i <= vs@.len(),
            strings_view(out@) == vdev_items(vs@).take(i as int),
        decreases vs@.len() - i,
    {
        let mut item = basename_exec(vs[i].path.as_str());
        crate::text::push_str(&mut item, ": ");
        let t = gib_tenths(vs[i].size_bytes);
        crate::text::push_u64(&mut item, t / 10);
        crate::text::push_str(&mut item, ".");
        crate::text::push_u64(&mut item, t % 10);
        crate::text::push_str(&mut item, " GiB");
        assert(item@ =~= vdev_items(vs@)[i as int]);
        let ghost before = out@;
        out.push(item);
        assert(strings_view(out@) =~= strings_view(before).push(vdev_items(vs@)[i as int]));
        i = i + 1;
        assert(strings_view(out@) =~= vdev_items(vs@).take(i as int));
    }
    assert(vdev_items(vs@).take(i as int) =~= vdev_items(vs@));
    out
}

/// The report's header and reboot warning.
fn header_text(status: &HostStatus, deployment_name: &str) -> (r: String)
    ensures
        r@ == report_header(*status, deployment_name@),
{
    reveal(report_header);
    let mut out = string_from(deployment_name);
    crate::text::push_str(&mut out, " / ");
    crate::text::push_str(&mut out, status.hostname.as_str());
    crate::text::push_str(&mut out, " (");
    match &status.connection {
        ConnectionState::Connected => crate::text::push_str(&mut out, "connected"),
        ConnectionState::Disconnected { .. } => crate::text::push_str(&mut out, "disconnected"),
    }
    crate::text::push_str(&mut out, ")\n");
    if status.reboot_detected {
        crate::text::push_str(&mut out, "  *** REBOOT DETECTED \u{2014} run 'whoah recover' ***\n");
    }
    out
}

fn push_state(out: &mut String, o: &Option<ServiceState>)
    ensures
        final(out)@ == old(out)@ + state_text(*o),
{
    match o {
        Some(st) => {
            let t = st.to_text();
            crate::text::push_str(out, t.as_str());
        },
        None => crate::text::push_str(out, "not found"),
    }
}

/// The line of service states.
fn services_text(status: &HostStatus) -> (r: String)
    ensures
        r@ == report_services(status.services),
{
    reveal(report_services);
    let mut out = string_from("  Services:  sled-agent: ");
    push_state(&mut out, &status.services.sled_agent);
    crate::text::push_str(&mut out, ", baseline: ");
    push_state(&mut out, &status.services.baseline);
    crate::text::push_str(&mut out, "\n");
    out
}

/// The line of running instances, if any.
fn instances_text(z: &ZoneStatus) -> (r: String)
    ensures
        r@ == report_instances(*z),
{
    reveal(report_instances);
    let mut out = String::new();
    if z.instance_count > 0 {
        crate::text::push_str(&mut out, "  Instances:         ");
        crate::text::push_u64(&mut out, z.instance_count as u64);
        crate::text::push_str(&mut out, " (");
        let names = instance_list(&z.zones);
        let joined = crate::text::join_exec(&names, ", ");
        assert(names@.map_values(|p: String| p@) =~= strings_view(names@));
        crate::text::push_str(&mut out, joined.as_str());
        crate::text::push_str(&mut out, ")\n");
    }
    out
}

/// The disk lines.
fn disk_text(d: &DiskStatus) -> (r: String)
    requires
        forall|i: int| 0 <= i < d.oxp_pools@.len() ==> shortenable(#[trigger] d.oxp_pools@[i].name@),
    ensures
        r@ == report_disk(*d),
{
    reveal(report_disk);
    let mut out = String::new();
    match &d.rpool {
        Some(p) => {
            crate::text::push_str(&mut out, "  rpool:     ");
            crate::text::push_u64(&mut out, p.capacity_pct as u64);
            crate::text::push_str(&mut out, "% (");
            crate::text::push_u64(&mut out, gib_rounded(p.free_bytes));
            crate::text::push_str(&mut out, " GiB free)\n");
        },
        None => {},
    }
    let ghost a = out@;
    if d.oxp_pools.len() > 0 {
        crate::text::push_str(&mut out, "  oxp pools: ");
        let items = pool_item_list(&d.oxp_pools);
        let joined = crate::text::join_exec(&items, ", ");
        assert(items@.map_values(|p: String| p@) =~= strings_view(items@));
        crate::text::push_str(&mut out, joined.as_str());
        crate::text::push_str(&mut out, "\n");
    }
    let ghost b = out@;
    if d.vdev_files.len() > 0 {
        crate::text::push_str(&mut out, "  vdevs:     ");
        let items = vdev_item_list(&d.vdev_files);
        let joined = crate::text::join_exec(&items, ", ");
        assert(items@.map_values(|p: String| p@) =~= strings_view(items@));
        crate::text::push_str(&mut out, joined.as_str());
        crate::text::push_str(&mut out, "\n");
    }
    out
}

/// The network lines.
fn net_text(n: &NetworkStatus) -> (r: String)
    ensures
        r@ == report_network(*n),
{
    reveal(report_network);
    let mut out = string_from("  Nexus:     ");
    if n.nexus_reachable {
        crate::text::push_str(&mut out, "reachable");
    } else {
        crate::text::push_str(&mut out, "unreachable");
    }
    crate::text::push_str(&mut out, "\n");
    crate::text::push_str(&mut out, "  DNS:       ");
    if n.dns_resolving {
        crate::text::push_str(&mut out, "resolving");
    } else {
        crate::text::push_str(&mut out, "not resolving");
    }
    crate::text::push_str(&mut out, "\n");
    out
}

/// Format a status report for headless output.
pub fn format_status(status: &HostStatus, deployment_name: &str) -> (r: String)
    requires
        names_shortenable(*status),
    ensures
        r@ == spec_format_status(*status, deployment_name@),
{
    let mut out = header_text(status, deployment_name);
    let t = services_text(status);
    crate::text::push_str(&mut out, t.as_str());
    let t = service_table(&status.zones);
    crate::text::push_str(&mut out, t.as_str());
    let t = instances_text(&status.zones);
    crate::text::push_str(&mut out, t.as_str());
    let t = placement_text(&status.zones);
    crate::text::push_str(&mut out, t.as_str());
    let t = disk_text(&status.disk);
    crate::text::push_str(&mut out, t.as_str());
    let t = net_text(&status.network);
    crate::text::push_str(&mut out, t.as_str());
    assert(out@ =~= spec_format_status(*status, deployment_name@));
    out
}

} // verus!
