//! The older discovery, kept for the import command: the same reads as
//! `discover`, with the lab's own addresses as defaults and the vdev
//! settings kept as separate fields.
use vstd::prelude::*;
use crate::config::{IpRange, NetworkConfig};
use crate::discover::{first_opt, get_opt, last_opt, or_text, str_list, str_opt, tfirst, tget, tlast, tstr_or, tstrings, toml_get, toml_view, parse_toml, toml_document, SpecToml, TomlValue};
use crate::parse::network::strings_view;
use crate::text::string_from;

verus! {

/// The gateway: the first infrastructure address, else the next hop of the
/// first route, as text; `192.168.1.1` otherwise.
pub open spec fn import_gateway(t: SpecToml) -> Seq<char> {
    let rnc = toml_get(t, "rack_network_config"@);
    let infra = get_opt(rnc, "infra_ip_first"@);
    let g = if infra is Some {
        infra
    } else {
        get_opt(first_opt(get_opt(rnc, "routes"@)), "nexthop"@)
    };
    or_text(str_opt(g), "192.168.1.1"@)
}

/// The network settings read with the lab's defaults.
pub open spec fn import_network_matches(n: NetworkConfig, t: SpecToml) -> bool {
    let rnc = toml_get(t, "rack_network_config"@);
    let pools = toml_get(t, "internal_services_ip_pool_ranges"@);
    let allowed = get_opt(toml_get(t, "allowed_source_ips"@), "list"@);
    &&& n.gateway@ == import_gateway(t)
    &&& strings_view(n.external_dns_ips@) == (match str_list(toml_get(t, "external_dns_ips"@)) {
        Some(l) => l,
        None => seq!["192.168.1.20"@],
    })
    &&& n.internal_services_range.first@ == or_text(
        str_opt(get_opt(first_opt(pools), "first"@)),
        "192.168.1.20"@,
    )
    &&& n.internal_services_range.last@ == or_text(
        str_opt(get_opt(first_opt(pools), "last"@)),
        "192.168.1.29"@,
    )
    &&& n.infra_ip@ == or_text(str_opt(get_opt(rnc, "infra_ip_first"@)), "192.168.1.30"@)
    &&& n.instance_pool_range.first@ == or_text(str_opt(first_opt(allowed)), "192.168.1.31"@)
    &&& n.instance_pool_range.last@ == or_text(str_opt(last_opt(allowed)), "192.168.1.40"@)
    &&& n.ntp_servers is None
    &&& n.dns_servers is None
    &&& n.external_dns_zone_name is None
    &&& n.rack_subnet is None
    &&& n.uplink_port_speed is None
    &&& n.allowed_source_ips is None
}

/// Read the network settings out of the parsed rack setup file, with the
/// lab's defaults.
pub fn import_network_from_rss(table: &TomlValue) -> (r: NetworkConfig)
    ensures
        import_network_matches(r, toml_view(*table)),
{
    let t = Some(table);
    let rnc = tget(t, "rack_network_config");
    let infra = tget(rnc, "infra_ip_first");
    let g = if infra.is_some() {
        infra
    } else {
        tget(tfirst(tget(rnc, "routes")), "nexthop")
    };
    let gateway = tstr_or(g, "192.168.1.1");
    let external_dns_ips = match tstrings(tget(t, "external_dns_ips")) {
        Some(l) => l,
        None => {
            let v = vec![string_from("192.168.1.20")];
            assert(strings_view(v@) =~= seq!["192.168.1.20"@]);
            v
        },
    };
    let pools = tget(t, "internal_services_ip_pool_ranges");
    let services_first = tstr_or(tget(tfirst(pools), "first"), "192.168.1.20");
    let services_last = tstr_or(tget(tfirst(pools), "last"), "192.168.1.29");
    let infra_ip = tstr_or(tget(rnc, "infra_ip_first"), "192.168.1.30");
    let allowed = tget(tget(t, "allowed_source_ips"), "list");
    let instance_first = tstr_or(tfirst(allowed), "192.168.1.31");
    let instance_last = tstr_or(tlast(allowed), "192.168.1.40");
    NetworkConfig {
        gateway,
        external_dns_ips,
        internal_services_range: IpRange { first: services_first, last: services_last },
        infra_ip,
        instance_pool_range: IpRange { first: instance_first, last: instance_last },
        ntp_servers: None,
        dns_servers: None,
        external_dns_zone_name: None,
        rack_subnet: None,
        uplink_port_speed: None,
        allowed_source_ips: None,
    }
}

/// Settings discovered on a running host, as the import reads them.
pub struct DiscoveredConfig {
    pub network: NetworkConfig,
    pub vdev_count: u32,
    pub vdev_size_bytes: Option<u64>,
    pub cockroachdb_redundancy: Option<u32>,
    pub storage_buffer_gib: Option<u32>,
    pub omicron_path: String,
}

/// The imported configuration, with Omicron at `~/omicron`.
pub fn imported_config(
    network: NetworkConfig,
    vdev_count: u32,
    vdev_size_bytes: Option<u64>,
    cockroachdb_redundancy: Option<u32>,
    storage_buffer_gib: Option<u32>,
) -> (r: DiscoveredConfig)
    ensures
        r.network == network,
        r.vdev_count == vdev_count,
        r.vdev_size_bytes == vdev_size_bytes,
        r.cockroachdb_redundancy == cockroachdb_redundancy,
        r.storage_buffer_gib == storage_buffer_gib,
        r.omicron_path@ == "~/omicron"@,
{
    DiscoveredConfig {
        network,
        vdev_count,
        vdev_size_bytes,
        cockroachdb_redundancy,
        storage_buffer_gib,
        omicron_path: string_from("~/omicron"),
    }
}

/// Parse the rack setup file (`config-rss.toml`) and read its network
/// settings, with the lab's defaults.
pub fn parse_network_from_rss(contents: &str) -> (r: Result<NetworkConfig, String>)
    ensures
        match toml_document(contents@) {
            Ok(t) => r matches Ok(n) && import_network_matches(n, t),
            Err(m) => r matches Err(e) && e@ == "Failed to parse config-rss.toml: "@ + m,
        },
{
    match parse_toml(contents) {
        Ok(t) => Ok(import_network_from_rss(&t)),
        Err(m) => Err(crate::provision::prefixed("Failed to parse config-rss.toml: ", m.as_str())),
    }
}

} // verus!
