//! Demo mode: durations and weights of the simulated pipeline, and a
//! realistic status for the monitor, so the interface can be shown
//! without a rack.
use vstd::prelude::*;
use crate::config::{counts_view, derive_expected_zones, spec_expected_zones, total_count, DeploymentConfig};
use crate::parse::disk::VdevFileInfo;
use crate::parse::network::strings_view;
use crate::parse::services::ServiceState;
use crate::parse::zones::{placement_add, placement_add_exec, pool_index_from, placement_view, SpecZone, SpecZoneStatus, ZoneInfo, ZoneKind, ZoneStatus as RunState, zones_view};
use crate::parse::zpool::ZpoolInfo;
use crate::status::{ConnectionState, DiskStatus, HostStatus, NetworkStatus, ServiceStatus, ZoneStatus};
use crate::text::{push_char, push_str, str_eq, string_from};

verus! {

broadcast use vstd::slice::group_slice_axioms;

/// Seconds each step took on average in real builds.
pub open spec fn duration_table() -> Seq<(Seq<char>, nat)> {
    seq![
        ("prov-create"@, 1nat), ("prov-boot"@, 2nat), ("prov-install"@, 44nat),
        ("vm-network"@, 35nat), ("vm-netcat"@, 1nat), ("access-keys"@, 5nat),
        ("access-verify"@, 1nat), ("cache-start"@, 90nat), ("cache-configure"@, 20nat),
        ("os-update"@, 150nat), ("os-reboot"@, 50nat), ("os-cleanup"@, 2nat),
        ("os-packages"@, 167nat), ("os-rust"@, 40nat), ("os-swap"@, 2nat),
        ("repo-clone"@, 24nat), ("repo-configure"@, 2nat), ("build-prereqs-builder"@, 768nat),
        ("build-prereqs-runner"@, 97nat), ("build-fix-perms"@, 2nat), ("build-compile"@, 2415nat),
        ("build-package"@, 300nat), ("build-patch"@, 11nat), ("deploy-vhw"@, 114nat),
        ("deploy-install"@, 404nat), ("deploy-verify"@, 458nat), ("config-quotas"@, 195nat),
        ("config-ippool"@, 1nat),
    ]
}

/// Proportional weight of each step in the simulation.
pub open spec fn weight_table() -> Seq<(Seq<char>, nat)> {
    seq![
        ("prov-create"@, 1nat), ("prov-boot"@, 1nat), ("prov-install"@, 2nat),
        ("vm-network"@, 2nat), ("vm-netcat"@, 1nat), ("access-keys"@, 1nat),
        ("access-verify"@, 1nat), ("cache-start"@, 2nat), ("cache-configure"@, 1nat),
        ("os-update"@, 3nat), ("os-reboot"@, 2nat), ("os-cleanup"@, 1nat),
        ("os-packages"@, 3nat), ("os-rust"@, 2nat), ("os-swap"@, 1nat),
        ("repo-clone"@, 1nat), ("repo-configure"@, 1nat), ("build-prereqs-builder"@, 8nat),
        ("build-prereqs-runner"@, 2nat), ("build-fix-perms"@, 1nat), ("build-compile"@, 15nat),
        ("build-package"@, 4nat), ("build-patch"@, 1nat), ("deploy-vhw"@, 2nat),
        ("deploy-install"@, 5nat), ("deploy-verify"@, 5nat), ("config-quotas"@, 3nat),
        ("config-ippool"@, 1nat),
    ]
}

/// The value of the first entry with a key, or a default.
pub open spec fn table_value(t: Seq<(Seq<char>, nat)>, key: Seq<char>, default: nat) -> nat
    decreases t.len(),
{
    if t.len() == 0 {
        default
    } else if t[0].0 == key {
        t[0].1
    } else {
        table_value(t.drop_first(), key, default)
    }
}

fn lookup(keys: &Vec<&str>, values: &Vec<u64>, key: &str, default: u64) -> (r: u64)
    requires
        keys@.len() == values@.len(),
    ensures
        r == table_value(
            keys@.zip_with(values@).map_values(|p: (&str, u64)| (p.0@, p.1 as nat)),
            key@,
            default as nat,
        ),
{
    let ghost t = keys@.zip_with(values@).map_values(|p: (&str, u64)| (p.0@, p.1 as nat));
    let mut i: usize = 0;
    assert(t.skip(0) =~= t);
    while i < keys.len()
        invariant
            i <= keys@.len(),
            keys@.len() == values@.len(),
            t == keys@.zip_with(values@).map_values(|p: (&str, u64)| (p.0@, p.1 as nat)),
            table_value(t.skip(i as int), key@, default as nat) == table_value(t, key@, default as nat),
        decreases keys@.len() - i,
    {
        proof {
            assert(t.skip(i as int).drop_first() =~= t.skip(i + 1));
            assert(t.skip(i as int)[0] == t[i as int]);
        }
        if str_eq(keys[i], key) {
            return values[i];
        }
        i = i + 1;
    }
    proof {
        assert(t.skip(i as int) =~= Seq::<(Seq<char>, nat)>::empty());
    }
    default
}

fn step_ids() -> (r: Vec<&'static str>)
    ensures
        r@.len() == 28,
        forall|i: int| 0 <= i < 28 ==> (#[trigger] r@[i])@ == duration_table()[i].0,
        forall|i: int| 0 <= i < 28 ==> r@[i]@ == #[trigger] weight_table()[i].0,
{
    let r = vec![
        "prov-create", "prov-boot", "prov-install", "vm-network", "vm-netcat", "access-keys",
        "access-verify", "cache-start", "cache-configure", "os-update", "os-reboot", "os-cleanup",
        "os-packages", "os-rust", "os-swap", "repo-clone", "repo-configure",
        "build-prereqs-builder", "build-prereqs-runner", "build-fix-perms", "build-compile",
        "build-package", "build-patch", "deploy-vhw", "deploy-install", "deploy-verify",
        "config-quotas", "config-ippool",
    ];
    r
}

/// Realistic duration of a step in seconds, five for a step not listed.
pub fn realistic_duration(id: &str) -> (r: u64)
    ensures
        r == table_value(duration_table(), id@, 5),
{
    let keys = step_ids();
    let values: Vec<u64> = vec![
        1, 2, 44, 35, 1, 5, 1, 90, 20, 150, 50, 2, 167, 40, 2, 24, 2, 768, 97, 2, 2415, 300, 11,
        114, 404, 458, 195, 1,
    ];
    proof {
        assert(keys@.zip_with(values@).map_values(|p: (&str, u64)| (p.0@, p.1 as nat)) =~= duration_table());
    }
    lookup(&keys, &values, id, 5)
}

/// The sum of a table's values.
pub open spec fn table_total(t: Seq<(Seq<char>, nat)>) -> nat
    decreases t.len(),
{
    if t.len() == 0 {
        0
    } else {
        t[0].1 + table_total(t.drop_first())
    }
}

/// The step ids of a plan, phase by phase.
pub open spec fn plan_step_ids(plan: Seq<(Seq<char>, Seq<(Seq<char>, Seq<char>)>)>) -> Seq<Seq<char>>
    decreases plan.len(),
{
    if plan.len() == 0 {
        seq![]
    } else {
        plan_step_ids(plan.drop_last()) + plan.last().1.map_values(|p: (Seq<char>, Seq<char>)| p.0)
    }
}

/// The simulated build weighs each of the 28 steps of the build pipeline,
/// in its order, at one unit or more, and 73 units in all; at the demo's
/// pace of 350 ms a unit it lasts about 25 seconds.
pub proof fn law_demo_total_weight()
    ensures
        weight_table().map_values(|e: (Seq<char>, nat)| e.0) == plan_step_ids(crate::pipeline::deploy_plan()),
        forall|i: int| 0 <= i < weight_table().len() ==> #[trigger] weight_table()[i].1 >= 1,
        table_total(weight_table()) == 73,
{
    reveal_with_fuel(table_total, 29);
    reveal_with_fuel(plan_step_ids, 9);
    assert(weight_table().map_values(|e: (Seq<char>, nat)| e.0) =~= plan_step_ids(crate::pipeline::deploy_plan()));
}

/// Proportional weight of a step, one for a step not listed.
pub fn weight(id: &str) -> (r: u32)
    ensures
        r == table_value(weight_table(), id@, 1),
{
    let keys = step_ids();
    let values: Vec<u64> = vec![
        1, 1, 2, 2, 1, 1, 1, 2, 1, 3, 2, 1, 3, 2, 1, 1, 1, 8, 2, 1, 15, 4, 1, 2, 5, 5, 3, 1,
    ];
    proof {
        assert(keys@.zip_with(values@).map_values(|p: (&str, u64)| (p.0@, p.1 as nat)) =~= weight_table());
        lemma_weights_small(id@);
    }
    lookup(&keys, &values, id, 1) as u32
}

/// No realistic duration exceeds the compile step's.
pub proof fn lemma_durations_bounded(key: Seq<char>)
    ensures
        table_value(duration_table(), key, 5) <= 2415,
{
    lemma_table_bounded(duration_table(), key, 5, 2415);
}

proof fn lemma_weights_small(key: Seq<char>)
    ensures
        table_value(weight_table(), key, 1) <= 15,
{
    lemma_table_bounded(weight_table(), key, 1, 15);
}

proof fn lemma_table_bounded(t: Seq<(Seq<char>, nat)>, key: Seq<char>, default: nat, bound: nat)
    requires
        default <= bound,
        forall|i: int| 0 <= i < t.len() ==> (#[trigger] t[i]).1 <= bound,
    ensures
        table_value(t, key, default) <= bound,
    decreases t.len(),
{
    if t.len() > 0 && t[0].0 != key {
        assert forall|i: int| 0 <= i < t.drop_first().len() implies (#[trigger] t.drop_first()[i]).1 <= bound by {
            assert(t.drop_first()[i] == t[i + 1]);
        }
        lemma_table_bounded(t.drop_first(), key, default, bound);
    }
}

/// Milliseconds per unit of weight in the simulation.
pub const SCALE_MS: u64 = 350;

/// How long a simulated step takes, in milliseconds.
pub fn simulated_step_ms(id: &str) -> (r: u64)
    ensures
        r == SCALE_MS * table_value(weight_table(), id@, 1),
{
    let w = weight(id);
    SCALE_MS * (w as u64)
}

// ── The demo status ──

/// The pools of the demo host.
pub open spec fn demo_uuids() -> Seq<Seq<char>> {
    seq![
        "af5cfbf7-0f55-4c04-b695-dc5a42f0c06e"@,
        "b31e8a9c-72d1-4f8b-a3c5-9e6d47281fa3"@,
        "c8a24d15-e963-41ab-8f72-3b0c59d8e7a1"@,
    ]
}

/// A hex digit.
pub open spec fn hex_digit(d: nat) -> char {
    if d < 10 {
        ((d + 48) as u32) as char
    } else {
        ((d + 87) as u32) as char
    }
}

/// `n` in lower-case hex with `width` digits (`{:0width$x}` for a number
/// that fits).
pub open spec fn hex(n: nat, width: nat) -> Seq<char>
    decreases width,
{
    if width == 0 {
        seq![]
    } else {
        hex(n / 16, (width - 1) as nat).push(hex_digit(n % 16))
    }
}

fn push_hex(s: &mut String, n: u64, width: u32)
    ensures
        final(s)@ == old(s)@ + hex(n as nat, width as nat),
    decreases width,
{
    if width > 0 {
        push_hex(s, n / 16, width - 1);
        let c = char_from_nibble((n % 16) as u32);
        push_char(s, c);
        assert(hex(n as nat, width as nat) == hex((n / 16) as nat, (width - 1) as nat).push(
            hex_digit((n % 16) as nat),
        ));
    } else {
        assert(old(s)@ + hex(n as nat, 0) =~= old(s)@);
    }
}

fn char_from_nibble(d: u32) -> (c: char)
    requires
        d < 16,
    ensures
        c == hex_digit(d as nat),
{
    if d < 10 {
        crate::text::char_from_digit(d)
    } else {
        let c = match d {
            10 => 'a',
            11 => 'b',
            12 => 'c',
            13 => 'd',
            14 => 'e',
            _ => 'f',
        };
        c
    }
}


/// The pool the `g`-th demo zone (from zero) is placed on: the pools in
/// turn.
pub open spec fn demo_uuid(g: nat) -> Seq<char> {
    demo_uuids()[(g % 3) as int]
}

/// Infrastructure services among the expected ones.
pub open spec fn is_infrastructure(svc: Seq<char>) -> bool {
    svc == "switch"@ || svc == "sidecar_softnpu"@
}

/// The `g`-th demo zone (from zero), of service `svc`: id `g + 1`, named
/// and identified by that id in eight hex digits.
pub open spec fn demo_zone(svc: Seq<char>, g: nat) -> SpecZone {
    let name = "oxz_"@ + svc + "_"@ + hex(g + 1, 8);
    SpecZone {
        id: Some(g + 1),
        name,
        status: SpecZoneStatus::Running,
        path: "/pool/ext/"@ + demo_uuid(g) + "/crypt/zone/"@ + name,
        uuid: hex(g + 1, 8) + "-0000-0000-0000-000000000000"@,
        brand: "omicron1"@,
        ip_type: "excl"@,
        kind: if is_infrastructure(svc) {
            ZoneKind::Infrastructure
        } else {
            ZoneKind::Service
        },
        service_name: svc,
    }
}

/// The demo zones: for each expected service in order, as many zones as
/// expected, numbered on from the previous ones.
pub open spec fn demo_zones(exp: Seq<(Seq<char>, nat)>) -> Seq<SpecZone>
    decreases exp.len(),
{
    if exp.len() == 0 {
        seq![]
    } else {
        let base = total_count(exp.drop_last());
        demo_zones(exp.drop_last()) + Seq::new(exp.last().1, |k: int| demo_zone(exp.last().0, (base + k) as nat))
    }
}

/// The placement of the demo zones: each zone's service on its pool,
/// pools in order of first use.
pub open spec fn demo_placement(zs: Seq<SpecZone>) -> Seq<(Seq<char>, Seq<Seq<char>>)>
    decreases zs.len(),
{
    if zs.len() == 0 {
        seq![]
    } else {
        let z = zs.last();
        placement_add(demo_placement(zs.drop_last()), "oxp_"@ + demo_uuid((z.id->0 - 1) as nat), z.service_name)
    }
}

/// The demo's pools: 40 GiB each, 28, 35 and 42 percent used.
pub open spec fn demo_pool(i: int) -> crate::parse::zpool::SpecZpool {
    let pct: nat = if i == 0 {
        28
    } else if i == 1 {
        35
    } else {
        42
    };
    let size: nat = 42949672960;
    let alloc: nat = size * pct / 100;
    crate::parse::zpool::SpecZpool {
        name: "oxp_"@ + demo_uuids()[i],
        size_bytes: size,
        allocated_bytes: alloc,
        free_bytes: (size - alloc) as nat,
        fragmentation_pct: Some(10),
        capacity_pct: pct,
        health: "ONLINE"@,
    }
}

/// The demo's vdev files: three U.2 and two M.2, with sparse sizes.
pub open spec fn demo_vdevs() -> Seq<(Seq<char>, nat, nat)> {
    seq![
        ("/var/tmp/u2_0.vdev"@, 12884901888nat / 512, 12884901888nat),
        ("/var/tmp/u2_1.vdev"@, 14262534144nat / 512, 14262534144nat),
        ("/var/tmp/u2_2.vdev"@, 11811160064nat / 512, 11811160064nat),
        ("/var/tmp/m2_0.vdev"@, 3221225472nat / 512, 3221225472nat),
        ("/var/tmp/m2_1.vdev"@, 3758096384nat / 512, 3758096384nat),
    ]
}

fn demo_uuid_exec(g: u32) -> (r: &'static str)
    ensures
        r@ == demo_uuid(g as nat),
{
    let k = g % 3;
    if k == 0 {
        "af5cfbf7-0f55-4c04-b695-dc5a42f0c06e"
    } else if k == 1 {
        "b31e8a9c-72d1-4f8b-a3c5-9e6d47281fa3"
    } else {
        "c8a24d15-e963-41ab-8f72-3b0c59d8e7a1"
    }
}

fn demo_zone_exec(svc: &str, g: u32) -> (r: ZoneInfo)
    requires
        g < u32::MAX,
    ensures
        crate::parse::zones::zone_view(r) == demo_zone(svc@, g as nat),
{
    let id = g + 1;
    let mut name = string_from("oxz_");
    push_str(&mut name, svc);
    push_str(&mut name, "_");
    push_hex(&mut name, id as u64, 8);
    let uuid_str = demo_uuid_exec(g);
    let mut path = string_from("/pool/ext/");
    push_str(&mut path, uuid_str);
    push_str(&mut path, "/crypt/zone/");
    push_str(&mut path, name.as_str());
    let mut uuid = String::new();
    push_hex(&mut uuid, id as u64, 8);
    push_str(&mut uuid, "-0000-0000-0000-000000000000");
    let infra = str_eq(svc, "switch") || str_eq(svc, "sidecar_softnpu");
    let z = ZoneInfo {
        id: Some(id),
        name,
        status: RunState::Running,
        path,
        uuid,
        brand: string_from("omicron1"),
        ip_type: string_from("excl"),
        kind: if infra {
            ZoneKind::Infrastructure
        } else {
            ZoneKind::Service
        },
        service_name: string_from(svc),
    };
    assert(uuid@ =~= hex(g as nat + 1, 8) + "-0000-0000-0000-000000000000"@);
    z
}

/// The demo status of a deployment.
pub open spec fn demo_status_matches(s: HostStatus, c: DeploymentConfig) -> bool {
    let exp = spec_expected_zones(c.build.omicron.overrides);
    let zs = demo_zones(exp);
    let ips = c.deployment.network.external_dns_ips@;
    let hosts = c.deployment.hosts@;
    &&& s.hostname@ == (if hosts.len() > 0 {
        hosts[0].1.address@
    } else {
        "192.168.2.100"@
    })
    &&& s.connection is Connected
    &&& s.services.sled_agent matches Some(ServiceState::Online)
    &&& s.services.baseline matches Some(ServiceState::Online)
    &&& counts_view(s.zones.service_counts@) == exp
    &&& counts_view(s.zones.expected_services@) == exp
    &&& s.zones.instance_count == 0
    &&& zones_view(s.zones.zones@) == zs
    &&& placement_view(s.zones.placement@) == demo_placement(zs)
    &&& (s.disk.rpool matches Some(p) && crate::parse::zpool::zpool_view(p) == crate::parse::zpool::SpecZpool {
        name: "rpool"@,
        size_bytes: 267544698880,
        allocated_bytes: 82530148352,
        free_bytes: 185014550528,
        fragmentation_pct: Some(25),
        capacity_pct: 30,
        health: "ONLINE"@,
    })
    &&& crate::parse::zpool::zpools_view(s.disk.oxp_pools@) == seq![demo_pool(0), demo_pool(1), demo_pool(2)]
    &&& crate::parse::disk::vdevs_view(s.disk.vdev_files@) == demo_vdevs()
    &&& s.network.nexus_reachable
    &&& s.network.dns_resolving
    &&& strings_view(s.network.dns_addresses@) == seq![if ips.len() > 0 {
        ips[0]@
    } else {
        "192.168.2.40"@
    }]
    &&& s.network.simnets_exist
    &&& !s.reboot_detected
}

fn demo_pool_exec(i: usize) -> (r: ZpoolInfo)
    requires
        i < 3,
    ensures
        crate::parse::zpool::zpool_view(r) == demo_pool(i as int),
{
    let pct: u8 = if i == 0 {
        28
    } else if i == 1 {
        35
    } else {
        42
    };
    let size: u64 = 42949672960;
    let alloc: u64 = size * (pct as u64) / 100;
    let uuid = demo_uuid_exec(i as u32);
    let mut name = string_from("oxp_");
    push_str(&mut name, uuid);
    ZpoolInfo {
        name,
        size_bytes: size,
        allocated_bytes: alloc,
        free_bytes: size - alloc,
        fragmentation_pct: Some(10),
        capacity_pct: pct,
        health: string_from("ONLINE"),
    }
}

fn vdev(path: &str, size: u64) -> (r: VdevFileInfo)
    ensures
        r.path@ == path@,
        r.size_blocks == size / 512,
        r.size_bytes == size,
{
    VdevFileInfo { path: string_from(path), size_blocks: size / 512, size_bytes: size }
}

fn copy_counts(v: &Vec<(String, u32)>) -> (r: Vec<(String, u32)>)
    ensures
        counts_view(r@) == counts_view(v@),
{
    let mut out: Vec<(String, u32)> = Vec::new();
    let mut i: usize = 0;
    while i < v.len()
        invariant
            i <= v@.len(),
            counts_view(out@) == counts_view(v@).take(i as int),
        decreases v@.len() - i,
    {
        let ghost before = out@;
        let e = (v[i].0.clone(), v[i].1);
        out.push(e);
        assert(counts_view(out@) =~= counts_view(before).push(counts_view(v@)[i as int]));
        i = i + 1;
        assert(counts_view(out@) =~= counts_view(v@).take(i as int));
    }
    assert(counts_view(v@).take(i as int) =~= counts_view(v@));
    out
}

/// A realistic status for the monitor in demo mode: every expected zone
/// running, spread over three pools in turn, healthy pools and network.
pub fn demo_status(config: &DeploymentConfig) -> (r: HostStatus)
    requires
        total_count(spec_expected_zones(config.build.omicron.overrides)) < u32::MAX,
    ensures
        demo_status_matches(r, *config),
{
    let expected = derive_expected_zones(&config.build.omicron.overrides);
    let ghost exp = counts_view(expected@);
    let mut zone_list: Vec<ZoneInfo> = Vec::new();
    let mut placement: Vec<(String, Vec<String>)> = Vec::new();
    let mut g: u32 = 0;
    let mut i: usize = 0;
    assert(placement_view(placement@) =~= Seq::<(Seq<char>, Seq<Seq<char>>)>::empty());
    assert(zones_view(zone_list@) =~= Seq::<SpecZone>::empty());
    while i < expected.len()
        invariant
            i <= expected@.len(),
            exp == counts_view(expected@),
            total_count(exp) < u32::MAX,
            g == total_count(exp.take(i as int)),
            zones_view(zone_list@) == demo_zones(exp.take(i as int)),
            placement_view(placement@) == demo_placement(zones_view(zone_list@)),
        decreases expected@.len() - i,
    {
        proof {
            crate::recover::lemma_total_count_prefix(exp, i as int);
            assert(exp.take(i + 1).drop_last() =~= exp.take(i as int));
        }
        let count = expected[i].1;
        let ghost base = g;
        let ghost before = zones_view(zone_list@);
        let mut k: u32 = 0;
        while k < count
            invariant
                k <= count,
                count == exp[i as int].1,
                g == base + k,
                base + count <= total_count(exp),
                total_count(exp) < u32::MAX,
                i < expected@.len(),
                exp == counts_view(expected@),
                zones_view(zone_list@) == before + Seq::new(k as nat, |j: int| demo_zone(exp[i as int].0, (base + j) as nat)),
                placement_view(placement@) == demo_placement(zones_view(zone_list@)),
            decreases count - k,
        {
            let z = demo_zone_exec(expected[i].0.as_str(), g);
            let ghost zl = zones_view(zone_list@);
            zone_list.push(z);
            assert(zones_view(zone_list@) =~= zl.push(demo_zone(exp[i as int].0, g as nat)));
            let uuid = demo_uuid_exec(g);
            let mut pool = string_from("oxp_");
            push_str(&mut pool, uuid);
            placement_add_exec(&mut placement, pool, expected[i].0.clone());
            proof {
                let zs = zones_view(zone_list@);
                assert(zs.drop_last() =~= zl);
                assert(zs.last().id->0 - 1 == g);
            }
            g = g + 1;
            k = k + 1;
            assert(zones_view(zone_list@) =~= before + Seq::new(k as nat, |j: int| demo_zone(exp[i as int].0, (base + j) as nat)));
        }
        i = i + 1;
        proof {
            assert(exp.take(i as int).last() == exp[i - 1]);
            assert(exp.take(i as int).drop_last() =~= exp.take(i - 1));
        }
    }
    assert(exp.take(i as int) =~= exp);
    let rpool = Some(ZpoolInfo {
        name: string_from("rpool"),
        size_bytes: 267544698880,
        allocated_bytes: 82530148352,
        free_bytes: 185014550528,
        fragmentation_pct: Some(25),
        capacity_pct: 30,
        health: string_from("ONLINE"),
    });
    let oxp_pools = vec![demo_pool_exec(0), demo_pool_exec(1), demo_pool_exec(2)];
    assert(crate::parse::zpool::zpools_view(oxp_pools@) =~= seq![demo_pool(0), demo_pool(1), demo_pool(2)]);
    let vdev_files = vec![
        vdev("/var/tmp/u2_0.vdev", 12884901888),
        vdev("/var/tmp/u2_1.vdev", 14262534144),
        vdev("/var/tmp/u2_2.vdev", 11811160064),
        vdev("/var/tmp/m2_0.vdev", 3221225472),
        vdev("/var/tmp/m2_1.vdev", 3758096384),
    ];
    assert(crate::parse::disk::vdevs_view(vdev_files@) =~= demo_vdevs());
    let ips = &config.deployment.network.external_dns_ips;
    let dns_ip = if ips.len() > 0 {
        ips[0].clone()
    } else {
        string_from("192.168.2.40")
    };
    let hosts = &config.deployment.hosts;
    let hostname = if hosts.len() > 0 {
        hosts[0].1.address.clone()
    } else {
        string_from("192.168.2.100")
    };
    let dns_addresses = vec![dns_ip];
    assert(strings_view(dns_addresses@) =~= seq![dns_addresses@[0]@]);
    let service_counts = copy_counts(&expected);
    HostStatus {
        hostname,
        connection: ConnectionState::Connected,
        services: ServiceStatus {
            sled_agent: Some(ServiceState::Online),
            baseline: Some(ServiceState::Online),
        },
        zones: ZoneStatus {
            service_counts,
            expected_services: expected,
            instance_count: 0,
            zones: zone_list,
            placement,
        },
        disk: DiskStatus { rpool, oxp_pools, vdev_files },
        network: NetworkStatus {
            nexus_reachable: true,
            dns_resolving: true,
            dns_addresses,
            simnets_exist: true,
        },
        reboot_detected: false,
    }
}

/// The name of the `p`-th demo pool.
pub open spec fn demo_pool_name(p: int) -> Seq<char> {
    "oxp_"@ + demo_uuids()[p]
}

proof fn lemma_demo_pool_names_distinct()
    ensures
        forall|p: int, q: int| 0 <= p < 3 && 0 <= q < 3 && p != q ==> #[trigger] demo_pool_name(p) != #[trigger] demo_pool_name(q),
{
    reveal_strlit("af5cfbf7-0f55-4c04-b695-dc5a42f0c06e");
    reveal_strlit("b31e8a9c-72d1-4f8b-a3c5-9e6d47281fa3");
    reveal_strlit("c8a24d15-e963-41ab-8f72-3b0c59d8e7a1");
    reveal_strlit("oxp_");
    assert(demo_pool_name(0)[4] == 'a');
    assert(demo_pool_name(1)[4] == 'b');
    assert(demo_pool_name(2)[4] == 'c');
}

proof fn lemma_demo_zone_ids(exp: Seq<(Seq<char>, nat)>)
    ensures
        demo_zones(exp).len() == total_count(exp),
        forall|j: int| 0 <= j < demo_zones(exp).len() ==> (#[trigger] demo_zones(exp)[j]).id == Some((j + 1) as nat),
    decreases exp.len(),
{
    if exp.len() > 0 {
        lemma_demo_zone_ids(exp.drop_last());
    }
}

proof fn lemma_pool_index(pl: Seq<(Seq<char>, Seq<Seq<char>>)>, q: int, i: int)
    requires
        pl.len() <= 3,
        0 <= q < 3,
        0 <= i,
        i <= q || q >= pl.len(),
        forall|p: int| 0 <= p < pl.len() ==> (#[trigger] pl[p]).0 == demo_pool_name(p),
    ensures
        pool_index_from(pl, demo_pool_name(q), i) == (if q < pl.len() { Some(q) } else { None::<int> }),
    decreases pl.len() - i,
{
    lemma_demo_pool_names_distinct();
    if i < pl.len() {
        if pl[i].0 != demo_pool_name(q) {
            lemma_pool_index(pl, q, i + 1);
        }
    }
}

proof fn lemma_demo_placement_counts(zs: Seq<SpecZone>)
    requires
        forall|j: int| 0 <= j < zs.len() ==> (#[trigger] zs[j]).id == Some((j + 1) as nat),
    ensures
        demo_placement(zs).len() == (if zs.len() < 3 { zs.len() } else { 3 }),
        forall|p: int|
            0 <= p < demo_placement(zs).len() ==> (#[trigger] demo_placement(zs)[p]).0 == demo_pool_name(p)
                && demo_placement(zs)[p].1.len() == (zs.len() + 2 - p) / 3,
    decreases zs.len(),
{
    if zs.len() > 0 {
        let d = zs.drop_last();
        assert forall|j: int| 0 <= j < d.len() implies (#[trigger] d[j]).id == Some((j + 1) as nat) by {
            assert(d[j] == zs[j]);
        }
        lemma_demo_placement_counts(d);
        let n = d.len();
        let z = zs.last();
        assert(z.id == Some((n + 1) as nat));
        let q = (n % 3) as int;
        assert(demo_uuid(n) == demo_uuids()[q]);
        let pl = demo_placement(d);
        lemma_pool_index(pl, q, 0);
    }
}

/// In demo mode the zones are spread over the three pools in turn: with
/// `n` zones in all, the placement lists the first `min(n, 3)` pools in
/// order, the `p`-th holding `(n + 2 - p) / 3` zones; so no two pools
/// differ by more than one zone, and together they hold all `n`.
pub proof fn law_demo_placement_balanced(exp: Seq<(Seq<char>, nat)>)
    ensures
        demo_placement(demo_zones(exp)).len() == (if total_count(exp) < 3 { total_count(exp) } else { 3 }),
        forall|p: int|
            0 <= p < demo_placement(demo_zones(exp)).len() ==> (#[trigger] demo_placement(demo_zones(exp))[p]).0
                == demo_pool_name(p) && demo_placement(demo_zones(exp))[p].1.len() == (total_count(exp) + 2 - p) / 3,
        forall|p: int, q: int|
            0 <= p < demo_placement(demo_zones(exp)).len() && 0 <= q < demo_placement(demo_zones(exp)).len()
                ==> #[trigger] demo_placement(demo_zones(exp))[p].1.len() <= #[trigger] demo_placement(demo_zones(exp))[q].1.len() + 1,
        total_count(exp) >= 3 ==> demo_placement(demo_zones(exp))[0].1.len() + demo_placement(demo_zones(exp))[1].1.len()
            + demo_placement(demo_zones(exp))[2].1.len() == total_count(exp),
{
    let zs = demo_zones(exp);
    lemma_demo_zone_ids(exp);
    lemma_demo_placement_counts(zs);
    let n = total_count(exp);
    assert((n + 2) / 3 + (n + 1) / 3 + n / 3 == n) by (nonlinear_arith);
}

} // verus!
