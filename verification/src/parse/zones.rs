//! `zoneadm list -cp`: the zones of a host, what they run, and where.
use vstd::prelude::*;
use crate::text::{
    chars_eq_str, has_char, has_char_exec, lines, lines_exec, parse_u32, parse_unsigned,
    push_chars, split_char, split_char_exec, splitn_char, splitn_char_exec, starts_with,
    starts_with_exec, str_eq, string_from, string_of, strip_prefix, strip_prefix_str, to_chars,
    trim, trim_chars, utf8_len, utf8_len_exceeds, views,
};

verus! {

broadcast use vstd::slice::group_slice_axioms;

/// Control plane service names, longest match first so that
/// `crucible_pantry` is tried before `crucible`.
pub open spec fn known_services() -> Seq<Seq<char>> {
    seq![
        "crucible_pantry"@,
        "propolis-server"@,
        "internal_dns"@,
        "external_dns"@,
        "cockroachdb"@,
        "clickhouse"@,
        "oximeter"@,
        "crucible"@,
        "nexus"@,
        "ntp"@,
    ]
}

/// A zone with its state and what it runs.
pub struct ZoneInfo {
    pub id: Option<u32>,
    pub name: String,
    pub status: ZoneStatus,
    pub path: String,
    pub uuid: String,
    pub brand: String,
    pub ip_type: String,
    pub kind: ZoneKind,
    pub service_name: String,
}

/// State of a zone.
#[derive(Debug, Clone, PartialEq, Eq)]
pub enum ZoneStatus {
    Running,
    Installed,
    Configured,
    Incomplete,
    Ready,
    Unknown(String),
}

/// The mathematical value of a [`ZoneStatus`].
pub enum SpecZoneStatus {
    Running,
    Installed,
    Configured,
    Incomplete,
    Ready,
    Unknown(Seq<char>),
}

impl View for ZoneStatus {
    type V = SpecZoneStatus;

    open spec fn view(&self) -> SpecZoneStatus {
        match self {
            ZoneStatus::Running => SpecZoneStatus::Running,
            ZoneStatus::Installed => SpecZoneStatus::Installed,
            ZoneStatus::Configured => SpecZoneStatus::Configured,
            ZoneStatus::Incomplete => SpecZoneStatus::Incomplete,
            ZoneStatus::Ready => SpecZoneStatus::Ready,
            ZoneStatus::Unknown(s) => SpecZoneStatus::Unknown(s@),
        }
    }
}

/// The state named by a word of `zoneadm` output.
pub open spec fn spec_zone_status(s: Seq<char>) -> SpecZoneStatus {
    if s == "running"@ {
        SpecZoneStatus::Running
    } else if s == "installed"@ {
        SpecZoneStatus::Installed
    } else if s == "configured"@ {
        SpecZoneStatus::Configured
    } else if s == "incomplete"@ {
        SpecZoneStatus::Incomplete
    } else if s == "ready"@ {
        SpecZoneStatus::Ready
    } else {
        SpecZoneStatus::Unknown(s)
    }
}

impl ZoneStatus {
    /// The state named by a word of `zoneadm` output.
    pub fn from_state(s: &str) -> (r: ZoneStatus)
        ensures
            r@ == spec_zone_status(s@),
    {
        if str_eq(s, "running") {
            ZoneStatus::Running
        } else if str_eq(s, "installed") {
            ZoneStatus::Installed
        } else if str_eq(s, "configured") {
            ZoneStatus::Configured
        } else if str_eq(s, "incomplete") {
            ZoneStatus::Incomplete
        } else if str_eq(s, "ready") {
            ZoneStatus::Ready
        } else {
            ZoneStatus::Unknown(string_from(s))
        }
    }
}

/// What a zone runs.
#[derive(Debug, Clone, Copy, PartialEq, Eq, Structural)]
pub enum ZoneKind {
    /// Control plane service (nexus, crdb, dns, crucible, etc.)
    Service,
    /// VM instance (propolis-server)
    Instance,
    /// Infrastructure (sidecar_softnpu, switch)
    Infrastructure,
}

/// `stripped` is the service itself or one of its instances (`svc_...`).
pub open spec fn names_service(stripped: Seq<char>, svc: Seq<char>) -> bool {
    stripped == svc || starts_with(stripped, svc + "_"@)
}

/// The first known service, from index `i` of the list on, that `stripped`
/// names.
pub open spec fn known_service_from(stripped: Seq<char>, i: int) -> Option<Seq<char>>
    decreases known_services().len() - i,
{
    if i < 0 || i >= known_services().len() {
        None
    } else if names_service(stripped, known_services()[i]) {
        Some(known_services()[i])
    } else {
        known_service_from(stripped, i + 1)
    }
}

/// Kind and service name of a zone, by its name.
pub open spec fn spec_classify_zone(name: Seq<char>) -> (ZoneKind, Seq<char>) {
    if name == "sidecar_softnpu"@ {
        (ZoneKind::Infrastructure, name)
    } else {
        match strip_prefix(name, "oxz_"@) {
            None => (ZoneKind::Infrastructure, name),
            Some(stripped) => if names_service(stripped, "switch"@) {
                (ZoneKind::Infrastructure, "switch"@)
            } else {
                match known_service_from(stripped, 0) {
                    Some(svc) => (
                        if svc == "propolis-server"@ {
                            ZoneKind::Instance
                        } else {
                            ZoneKind::Service
                        },
                        svc,
                    ),
                    None => (ZoneKind::Service, stripped),
                }
            },
        }
    }
}

/// `stripped` names the service `svc`.
fn names_service_exec(stripped: &[char], svc: &str) -> (r: bool)
    ensures
        r == names_service(stripped@, svc@),
{
    if chars_eq_str(stripped, svc) {
        return true;
    }
    let mut p = to_chars(svc);
    p.push('_');
    assert(p@ =~= svc@ + "_"@) by {
        reveal_strlit("_");
    }
    starts_with_exec(stripped, p.as_slice())
}

/// Classify a zone by name and extract its service name.
pub fn classify_zone(name: &str) -> (r: (ZoneKind, String))
    ensures
        r.0 == spec_classify_zone(name@).0,
        r.1@ == spec_classify_zone(name@).1,
{
    if str_eq(name, "sidecar_softnpu") {
        return (ZoneKind::Infrastructure, string_from(name));
    }
    let all = to_chars(name);
    let stripped = match strip_prefix_str(all.as_slice(), "oxz_") {
        Some(s) => s,
        None => {
            return (ZoneKind::Infrastructure, string_from(name));
        },
    };
    if names_service_exec(stripped, "switch") {
        return (ZoneKind::Infrastructure, string_from("switch"));
    }
    let known: [&str; 10] = [
        "crucible_pantry",
        "propolis-server",
        "internal_dns",
        "external_dns",
        "cockroachdb",
        "clickhouse",
        "oximeter",
        "crucible",
        "nexus",
        "ntp",
    ];
    assert(known@.map_values(|s: &str| s@) =~= known_services());
    let mut i: usize = 0;
    while i < 10
        invariant
            i <= 10,
            known@.map_values(|s: &str| s@) == known_services(),
            name@ != "sidecar_softnpu"@,
            strip_prefix(name@, "oxz_"@) == Some(stripped@),
            !names_service(stripped@, "switch"@),
            known_service_from(stripped@, 0) == known_service_from(stripped@, i as int),
        decreases 10 - i,
    {
        assert(known@[i as int]@ == known_services()[i as int]);
        if names_service_exec(stripped, known[i]) {
            let kind = if str_eq(known[i], "propolis-server") {
                ZoneKind::Instance
            } else {
                ZoneKind::Service
            };
            return (kind, string_from(known[i]));
        }
        i = i + 1;
    }
    (ZoneKind::Service, string_of(stripped))
}

/// The mathematical value of a [`ZoneInfo`].
pub struct SpecZone {
    pub id: Option<nat>,
    pub name: Seq<char>,
    pub status: SpecZoneStatus,
    pub path: Seq<char>,
    pub uuid: Seq<char>,
    pub brand: Seq<char>,
    pub ip_type: Seq<char>,
    pub kind: ZoneKind,
    pub service_name: Seq<char>,
}

/// The view of a zone.
pub open spec fn zone_view(z: ZoneInfo) -> SpecZone {
    SpecZone {
        id: match z.id {
            Some(n) => Some(n as nat),
            None => None,
        },
        name: z.name@,
        status: z.status@,
        path: z.path@,
        uuid: z.uuid@,
        brand: z.brand@,
        ip_type: z.ip_type@,
        kind: z.kind,
        service_name: z.service_name@,
    }
}

/// The views of a list of zones.
pub open spec fn zones_view(v: Seq<ZoneInfo>) -> Seq<SpecZone> {
    v.map_values(|z: ZoneInfo| zone_view(z))
}

/// A line of `zoneadm list -cp` (`id:name:state:path:uuid:brand:ip-type`)
/// read as a zone; empty lines, lines of fewer than seven fields and the
/// global zone are skipped. An id of `-` or one that is not a number is
/// absent.
pub open spec fn zone_entry(l: Seq<char>) -> Option<SpecZone> {
    let t = trim(l);
    let f = splitn_char(t, ':', 7);
    if t.len() == 0 || f.len() < 7 || f[1] == "global"@ {
        None
    } else {
        Some(
            SpecZone {
                id: if f[0] == "-"@ {
                    None
                } else {
                    parse_unsigned(f[0], u32::MAX as nat)
                },
                name: f[1],
                status: spec_zone_status(f[2]),
                path: f[3],
                uuid: f[4],
                brand: f[5],
                ip_type: f[6],
                kind: spec_classify_zone(f[1]).0,
                service_name: spec_classify_zone(f[1]).1,
            },
        )
    }
}

/// The zones of the lines, in order.
pub open spec fn zone_entries(ls: Seq<Seq<char>>) -> Seq<SpecZone>
    decreases ls.len(),
{
    if ls.len() == 0 {
        seq![]
    } else {
        let rest = zone_entries(ls.drop_last());
        match zone_entry(ls.last()) {
            Some(z) => rest.push(z),
            None => rest,
        }
    }
}

fn zone_entry_exec(l: &[char]) -> (r: Option<ZoneInfo>)
    ensures
        match r {
            Some(z) => zone_entry(l@) == Some(zone_view(z)),
            None => zone_entry(l@) is None,
        },
{
    let t = trim_chars(l);
    if t.len() == 0 {
        return None;
    }
    let f = splitn_char_exec(t, ':', 7);
    if f.len() < 7 {
        return None;
    }
    let ghost fv = views(f@);
    assert(forall|k: int| 0 <= k < 7 ==> f@[k]@ == #[trigger] fv[k]);
    if chars_eq_str(f[1], "global") {
        return None;
    }
    let id = if chars_eq_str(f[0], "-") {
        None
    } else {
        match parse_u32(f[0]) {
            Some(n) => Some(n),
            None => None,
        }
    };
    let name = string_of(f[1]);
    let (kind, service_name) = classify_zone(name.as_str());
    let status = ZoneStatus::from_state(string_of(f[2]).as_str());
    let z = ZoneInfo {
        id,
        name,
        status,
        path: string_of(f[3]),
        uuid: string_of(f[4]),
        brand: string_of(f[5]),
        ip_type: string_of(f[6]),
        kind,
        service_name,
    };
    assert(zone_entry(l@) == Some(zone_view(z)));
    Some(z)
}

/// Parse output of `zoneadm list -cp` (colon-delimited). Never fails.
pub fn parse_zoneadm_list(output: &str) -> (r: Result<Vec<ZoneInfo>, super::ParseError>)
    ensures
        match r {
            Ok(v) => zones_view(v@) == zone_entries(lines(output@)),
            Err(_) => false,
        },
{
    let all = to_chars(output);
    let ls = lines_exec(all.as_slice());
    let ghost lv = views(ls@);
    let mut out: Vec<ZoneInfo> = Vec::new();
    let mut i: usize = 0;
    while i < ls.len()
        invariant
            i <= ls@.len(),
            lv == views(ls@),
            lv == lines(output@),
            zones_view(out@) == zone_entries(lv.take(i as int)),
        decreases ls@.len() - i,
    {
        assert(lv.take(i + 1).drop_last() =~= lv.take(i as int));
        assert(lv.take(i + 1).last() == ls@[i as int]@);
        if let Some(z) = zone_entry_exec(ls[i]) {
            let ghost before = out@;
            out.push(z);
            assert(zones_view(out@) =~= zones_view(before).push(zone_view(z)));
        }
        i = i + 1;
    }
    assert(lv.take(i as int) =~= lv);
    Ok(out)
}

/// The pool named in a zone path `/pool/ext/<UUID>/crypt/zone/...`,
/// searching the `/`-separated pieces from index `i`: `oxp_<UUID>` for the
/// piece after the first `ext` that is followed by one longer than eight
/// bytes holding a `-`.
pub open spec fn pool_from(parts: Seq<Seq<char>>, i: int) -> Option<Seq<char>>
    decreases parts.len() - i,
{
    if i < 0 || i + 1 >= parts.len() {
        None
    } else if parts[i] == "ext"@ && utf8_len(parts[i + 1]) > 8 && has_char(parts[i + 1], '-') {
        Some("oxp_"@ + parts[i + 1])
    } else {
        pool_from(parts, i + 1)
    }
}

/// The pool a zone path lies on.
pub open spec fn spec_pool_of_path(path: Seq<char>) -> Option<Seq<char>> {
    pool_from(split_char(path, '/'), 0)
}

/// Extract the pool identifier from a zone path.
pub fn extract_pool_from_path(path: &str) -> (r: Option<String>)
    ensures
        match r {
            Some(p) => spec_pool_of_path(path@) == Some(p@),
            None => spec_pool_of_path(path@) is None,
        },
{
    let all = to_chars(path);
    let parts = split_char_exec(all.as_slice(), '/');
    let ghost pv = views(parts@);
    let mut i: usize = 0;
    while i < parts.len() - 1
        invariant
            parts@.len() >= 1,
            pv == views(parts@),
            pv == split_char(path@, '/'),
            i < parts@.len(),
            pool_from(pv, 0) == pool_from(pv, i as int),
        decreases parts@.len() - i,
    {
        assert(parts@[i as int]@ == pv[i as int]);
        assert(parts@[i + 1]@ == pv[i + 1]);
        let uuid = parts[i + 1];
        if chars_eq_str(parts[i], "ext") && utf8_len_exceeds(uuid, 8) && has_char_exec(uuid, '-') {
            let mut s = string_from("oxp_");
            push_chars(&mut s, uuid);
            return Some(s);
        }
        i = i + 1;
    }
    None
}

/// Pools and the services placed on each, pools in order of first
/// appearance.
pub open spec fn placement_add(
    pl: Seq<(Seq<char>, Seq<Seq<char>>)>,
    pool: Seq<char>,
    svc: Seq<char>,
) -> Seq<(Seq<char>, Seq<Seq<char>>)> {
    match pool_index_from(pl, pool, 0) {
        Some(k) => pl.update(k, (pool, pl[k].1.push(svc))),
        None => pl.push((pool, seq![svc])),
    }
}

/// Index of the pool in the placement, searching from `i`.
pub open spec fn pool_index_from(pl: Seq<(Seq<char>, Seq<Seq<char>>)>, pool: Seq<char>, i: int) -> Option<int>
    decreases pl.len() - i,
{
    if i < 0 || i >= pl.len() {
        None
    } else if pl[i].0 == pool {
        Some(i)
    } else {
        pool_index_from(pl, pool, i + 1)
    }
}

/// Placement of the service and instance zones (infrastructure left out)
/// on the pools their paths name.
pub open spec fn spec_placement(zs: Seq<SpecZone>) -> Seq<(Seq<char>, Seq<Seq<char>>)>
    decreases zs.len(),
{
    if zs.len() == 0 {
        seq![]
    } else {
        let rest = spec_placement(zs.drop_last());
        let z = zs.last();
        if z.kind == ZoneKind::Infrastructure {
            rest
        } else {
            match spec_pool_of_path(z.path) {
                Some(p) => placement_add(rest, p, z.service_name),
                None => rest,
            }
        }
    }
}

/// The view of a placement.
pub open spec fn placement_view(v: Seq<(String, Vec<String>)>) -> Seq<(Seq<char>, Seq<Seq<char>>)> {
    v.map_values(|p: (String, Vec<String>)| (p.0@, p.1@.map_values(|s: String| s@)))
}

/// Add a service to the placement, on its pool.
pub fn placement_add_exec(pl: &mut Vec<(String, Vec<String>)>, pool: String, svc: String)
    ensures
        placement_view(final(pl)@) == placement_add(placement_view(old(pl)@), pool@, svc@),
{
    let ghost pv = placement_view(pl@);
    let mut k: usize = 0;
    while k < pl.len()
        invariant
            k <= pl@.len(),
            pv == placement_view(pl@),
            pl@ == old(pl)@,
            pool_index_from(pv, pool@, 0) == pool_index_from(pv, pool@, k as int),
        decreases pl@.len() - k,
    {
        if str_eq(pl[k].0.as_str(), pool.as_str()) {
            let ghost old_entry = pl@[k as int];
            let mut entry = pl.remove(k);
            let ghost names_before = entry.1@;
            entry.1.push(svc);
            assert(entry.1@.map_values(|s: String| s@) =~= names_before.map_values(|s: String| s@).push(svc@));
            pl.insert(k, entry);
            assert(pl@ =~= old(pl)@.update(k as int, entry));
            assert(placement_view(pl@) =~= pv.update(k as int, (pool@, pv[k as int].1.push(svc@))));
            return;
        }
        k = k + 1;
    }
    let mut names: Vec<String> = Vec::new();
    names.push(svc);
    let ghost before = pl@;
    pl.push((pool, names));
    assert(names@.map_values(|s: String| s@) =~= seq![svc@]);
    assert(placement_view(pl@) =~= pv.push((pool@, seq![svc@])));
}

/// Derive zone-to-zpool placement from zone paths.
/// Includes Service and Instance zones (not infrastructure).
/// Returns, for each pool in order of first appearance, its service names.
pub fn derive_zone_placement(zones: &[ZoneInfo]) -> (r: Vec<(String, Vec<String>)>)
    ensures
        placement_view(r@) == spec_placement(zones_view(zones@)),
{
    let ghost zv = zones_view(zones@);
    let mut pl: Vec<(String, Vec<String>)> = Vec::new();
    let mut i: usize = 0;
    while i < zones.len()
        invariant
            i <= zones@.len(),
            zv == zones_view(zones@),
            placement_view(pl@) == spec_placement(zv.take(i as int)),
        decreases zones@.len() - i,
    {
        assert(zv.take(i + 1).drop_last() =~= zv.take(i as int));
        assert(zv.take(i + 1).last() == zone_view(zones@[i as int]));
        let z = &zones[i];
        if z.kind != ZoneKind::Infrastructure {
            if let Some(p) = extract_pool_from_path(z.path.as_str()) {
                placement_add_exec(&mut pl, p, z.service_name.clone());
            }
        }
        i = i + 1;
    }
    assert(zv.take(i as int) =~= zv);
    pl
}

} // verus!
