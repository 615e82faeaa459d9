//! Discovery of a deployment's settings from a running host: reading the
//! network section of the rack setup file, counting virtual disks and
//! reading numeric constants out of source lines.
//!
//! The remote reads are the caller's; the text they return is read here.
use vstd::prelude::*;
use vstd::slice::slice_subrange;
use crate::config::{IpRange, NetworkConfig, OmicronOverrides};
use crate::parse::network::strings_view;
use crate::text::{contains, contains_str, lines, lines_exec, parse_u32, parse_u64, parse_unsigned, rfind_char, rfind_char_exec, string_from, to_chars, trim, trim_chars, views};

verus! {

broadcast use vstd::slice::group_slice_axioms;

/// Number of lines that mention a `.vdev` file.
pub open spec fn vdev_line_count(ls: Seq<Seq<char>>) -> nat
    decreases ls.len(),
{
    if ls.len() == 0 {
        0
    } else {
        vdev_line_count(ls.drop_last()) + (if contains(ls.last(), ".vdev"@) {
            1nat
        } else {
            0nat
        })
    }
}

/// Count vdev entries in the sled agent's `config.toml`: the lines that
/// mention a `.vdev` file.
pub fn count_vdevs(contents: &str) -> (r: u32)
    requires
        lines(contents@).len() <= u32::MAX,
    ensures
        r == vdev_line_count(lines(contents@)),
{
    let all = to_chars(contents);
    let ls = lines_exec(all.as_slice());
    let ghost lv = views(ls@);
    let mut n: u32 = 0;
    let mut i: usize = 0;
    while i < ls.len()
        invariant
            i <= ls@.len(),
            lv == views(ls@),
            lv == lines(contents@),
            lv.len() <= u32::MAX,
            n == vdev_line_count(lv.take(i as int)),
            n <= i,
        decreases ls@.len() - i,
    {
        assert(lv.take(i + 1).drop_last() =~= lv.take(i as int));
        assert(lv.take(i + 1).last() == ls@[i as int]@);
        if contains_str(ls[i], ".vdev") {
            n = n + 1;
        }
        i = i + 1;
    }
    assert(lv.take(i as int) =~= lv);
    n
}

/// The text with every trailing `c` removed (`trim_end_matches`).
pub open spec fn trim_end_char(s: Seq<char>, c: char) -> Seq<char>
    decreases s.len(),
{
    if s.len() > 0 && s.last() == c {
        trim_end_char(s.drop_last(), c)
    } else {
        s
    }
}

/// The number after the last `=` of a line, before any trailing `;`.
pub open spec fn assigned_value(line: Seq<char>) -> Option<nat> {
    match rfind_char(line, '=') {
        Some(i) => parse_unsigned(
            trim(trim_end_char(trim(line.subrange(i + 1, line.len() as int)), ';')),
            u32::MAX as nat,
        ),
        None => None,
    }
}

/// The number between the last `(` and the last `)` of a line, when the
/// `(` comes first.
pub open spec fn call_argument(line: Seq<char>) -> Option<nat> {
    match (rfind_char(line, '('), rfind_char(line, ')')) {
        (Some(a), Some(b)) => if a < b {
            parse_unsigned(trim(line.subrange(a + 1, b)), u32::MAX as nat)
        } else {
            None
        },
        _ => None,
    }
}

/// A `u32` constant read from a source line found by `grep`: the value of
/// an assignment (`= 3;`), else the argument of a call (`_u32(5)`).
pub open spec fn spec_rust_constant(grep_output: Seq<char>) -> Option<nat> {
    let line = trim(grep_output);
    if line.len() == 0 {
        None
    } else if assigned_value(line) is Some {
        assigned_value(line)
    } else {
        call_argument(line)
    }
}

/// `trim_end_matches` with a character.
pub fn trim_end_char_exec(s: &[char], c: char) -> (r: &[char])
    ensures
        r@ == trim_end_char(s@, c),
{
    let mut n: usize = s.len();
    assert(s@.subrange(0, n as int) =~= s@);
    while n > 0 && s[n - 1] == c
        invariant
            n <= s@.len(),
            trim_end_char(s@.subrange(0, n as int), c) == trim_end_char(s@, c),
        decreases n,
    {
        assert(s@.subrange(0, n as int).drop_last() =~= s@.subrange(0, n - 1));
        n = n - 1;
    }
    assert(s@.subrange(0, n as int) =~= s@.subrange(0, n as int));
    let r = slice_subrange(s, 0, n);
    proof {
        if n == s@.len() {
            assert(s@.subrange(0, n as int) =~= s@);
        }
    }
    r
}

/// Parse a `u32` constant from a Rust source grep result.
pub fn parse_rust_constant(grep_output: &str) -> (r: Option<u32>)
    ensures
        match r {
            Some(v) => spec_rust_constant(grep_output@) == Some(v as nat),
            None => spec_rust_constant(grep_output@) is None,
        },
{
    let all = to_chars(grep_output);
    let line = trim_chars(all.as_slice());
    if line.len() == 0 {
        return None;
    }
    if let Some(idx) = rfind_char_exec(line, '=') {
        proof {
            crate::text::lemma_rfind_char_to(line@, '=', line@.len() as int);
        }
        let after = slice_subrange(line, idx + 1, line.len());
        let t1 = trim_chars(after);
        let t2 = trim_end_char_exec(t1, ';');
        let t3 = trim_chars(t2);
        if let Some(n) = parse_u32(t3) {
            return Some(n);
        }
    }
    proof {
        crate::text::lemma_rfind_char_to(line@, '(', line@.len() as int);
        crate::text::lemma_rfind_char_to(line@, ')', line@.len() as int);
    }
    if let Some(start) = rfind_char_exec(line, '(') {
        if let Some(end) = rfind_char_exec(line, ')') {
            if start < end {
                let inner = trim_chars(slice_subrange(line, start + 1, end));
                if let Some(n) = parse_u32(inner) {
                    return Some(n);
                }
            }
        }
    }
    None
}


// --- The rack setup file ---

/// A TOML value as the discovery reads it. Keys of a table are unique and
/// kept in the order the document gives them; a float keeps no value, as
/// nothing here reads one.
pub enum TomlValue {
    String(String),
    Integer(i64),
    Boolean(bool),
    Datetime(String),
    Float,
    Array(Vec<TomlValue>),
    Table(Vec<(String, TomlValue)>),
}

/// A TOML value as values.
pub enum SpecToml {
    String(Seq<char>),
    Integer(i64),
    Boolean(bool),
    Datetime(Seq<char>),
    Float,
    Array(Seq<SpecToml>),
    Table(Seq<(Seq<char>, SpecToml)>),
}

/// The value of a TOML value.
pub open spec fn toml_view(v: TomlValue) -> SpecToml
    decreases v,
{
    match v {
        TomlValue::String(s) => SpecToml::String(s@),
        TomlValue::Integer(i) => SpecToml::Integer(i),
        TomlValue::Boolean(b) => SpecToml::Boolean(b),
        TomlValue::Datetime(d) => SpecToml::Datetime(d@),
        TomlValue::Float => SpecToml::Float,
        TomlValue::Array(a) => SpecToml::Array(
            Seq::new(a@.len(), |i: int| if 0 <= i < a@.len() { toml_view(a@[i]) } else { SpecToml::Float }),
        ),
        TomlValue::Table(es) => SpecToml::Table(
            Seq::new(
                es@.len(),
                |i: int| if 0 <= i < es@.len() { (es@[i].0@, toml_view(es@[i].1)) } else { (seq![], SpecToml::Float) },
            ),
        ),
    }
}

/// What `toml::from_str` makes of a text read as a `toml::Value`, as
/// values: the document, or the message of the error.
pub uninterp spec fn toml_document(text: Seq<char>) -> Result<SpecToml, Seq<char>>;

#[verifier::external_type_specification]
#[verifier::external_body]
pub struct ExTomlValue(toml::Value);

/// A `toml::Value` in the library's form, variant for variant (a float
/// keeps no value, a date-time its text). Nothing is stated of it: it only
/// serves `parse_toml`, whose contract speaks of the result.
#[verifier::external_body]
fn toml_value_of(v: &toml::Value) -> TomlValue {
    match v {
        toml::Value::String(s) => TomlValue::String(s.clone()),
        toml::Value::Integer(i) => TomlValue::Integer(*i),
        toml::Value::Float(_) => TomlValue::Float,
        toml::Value::Boolean(b) => TomlValue::Boolean(*b),
        toml::Value::Datetime(d) => TomlValue::Datetime(d.to_string()),
        toml::Value::Array(a) => TomlValue::Array(a.iter().map(toml_value_of).collect()),
        toml::Value::Table(t) => TomlValue::Table(t.iter().map(|(k, x)| (k.clone(), toml_value_of(x))).collect()),
    }
}

/// `toml::from_str::<toml::Value>`: the document of a text, or the error's
/// message. The contract names the result; TOML's grammar is not restated.
#[verifier::external_body]
pub(crate) fn parse_toml(text: &str) -> (r: Result<TomlValue, String>)
    ensures
        match r {
            Ok(t) => toml_document(text@) == Ok::<SpecToml, Seq<char>>(toml_view(t)),
            Err(e) => toml_document(text@) == Err::<SpecToml, Seq<char>>(e@),
        },
{
    match toml::from_str::<toml::Value>(text) {
        Ok(v) => Ok(toml_value_of(&v)),
        Err(e) => Err(e.to_string()),
    }
}

/// Parse the rack setup file (`config-rss.toml`) and read its network
/// settings.
pub fn parse_network_from_rss(contents: &str) -> (r: Result<NetworkConfig, String>)
    ensures
        match toml_document(contents@) {
            Ok(t) => r matches Ok(n) && rss_network_matches(n, t),
            Err(m) => r matches Err(e) && e@ == "Failed to parse config-rss.toml: "@ + m,
        },
{
    match parse_toml(contents) {
        Ok(t) => Ok(network_from_rss(&t)),
        Err(m) => Err(crate::provision::prefixed("Failed to parse config-rss.toml: ", m.as_str())),
    }
}

/// The values of array elements.
pub open spec fn array_view(a: Seq<TomlValue>) -> Seq<SpecToml> {
    Seq::new(a.len(), |i: int| if 0 <= i < a.len() { toml_view(a[i]) } else { SpecToml::Float })
}

/// The values of table entries.
pub open spec fn table_view(es: Seq<(String, TomlValue)>) -> Seq<(Seq<char>, SpecToml)> {
    Seq::new(
        es.len(),
        |i: int| if 0 <= i < es.len() { (es[i].0@, toml_view(es[i].1)) } else { (seq![], SpecToml::Float) },
    )
}

/// An array's value is the values of its elements, a table's those of its
/// entries.
pub proof fn lemma_toml_view_parts(v: TomlValue)
    ensures
        v matches TomlValue::Array(a) ==> toml_view(v) == SpecToml::Array(array_view(a@)),
        v matches TomlValue::Table(es) ==> toml_view(v) == SpecToml::Table(table_view(es@)),
{
    match v {
        TomlValue::Array(a) => {
            assert(toml_view(v) is Array);
            assert(array_view(a@) =~= toml_view(v)->Array_0);
        },
        TomlValue::Table(es) => {
            assert(toml_view(v) is Table);
            assert(table_view(es@) =~= toml_view(v)->Table_0);
        },
        _ => {},
    }
}

/// The value under a key among table entries.
pub open spec fn entry_of(es: Seq<(Seq<char>, SpecToml)>, key: Seq<char>) -> Option<SpecToml>
    decreases es.len(),
{
    if es.len() == 0 {
        None
    } else if es[0].0 == key {
        Some(es[0].1)
    } else {
        entry_of(es.drop_first(), key)
    }
}

/// `Value::get` with a key: the entry of a table, nothing for another value.
pub open spec fn toml_get(v: SpecToml, key: Seq<char>) -> Option<SpecToml> {
    match v {
        SpecToml::Table(es) => entry_of(es, key),
        _ => None,
    }
}

/// `Option::and_then(|v| v.get(key))`.
pub open spec fn get_opt(o: Option<SpecToml>, key: Seq<char>) -> Option<SpecToml> {
    match o {
        Some(v) => toml_get(v, key),
        None => None,
    }
}

/// `Value::as_array`, after an optional lookup.
pub open spec fn items_opt(o: Option<SpecToml>) -> Option<Seq<SpecToml>> {
    match o {
        Some(SpecToml::Array(a)) => Some(a),
        _ => None,
    }
}

/// The first element of an array value.
pub open spec fn first_opt(o: Option<SpecToml>) -> Option<SpecToml> {
    match items_opt(o) {
        Some(a) => if a.len() > 0 {
            Some(a[0])
        } else {
            None
        },
        None => None,
    }
}

/// The last element of an array value.
pub open spec fn last_opt(o: Option<SpecToml>) -> Option<SpecToml> {
    match items_opt(o) {
        Some(a) => if a.len() > 0 {
            Some(a.last())
        } else {
            None
        },
        None => None,
    }
}

/// `Value::as_str`, after an optional lookup.
pub open spec fn str_opt(o: Option<SpecToml>) -> Option<Seq<char>> {
    match o {
        Some(SpecToml::String(s)) => Some(s),
        _ => None,
    }
}

/// A string, or a default.
pub open spec fn or_text(o: Option<Seq<char>>, d: Seq<char>) -> Seq<char> {
    match o {
        Some(s) => s,
        None => d,
    }
}

/// The strings among array elements, in order (others are skipped).
pub open spec fn str_items(a: Seq<SpecToml>) -> Seq<Seq<char>>
    decreases a.len(),
{
    if a.len() == 0 {
        seq![]
    } else {
        let rest = str_items(a.drop_last());
        match a.last() {
            SpecToml::String(s) => rest.push(s),
            _ => rest,
        }
    }
}

/// The strings of an optional array value.
pub open spec fn str_list(o: Option<SpecToml>) -> Option<Seq<Seq<char>>> {
    match items_opt(o) {
        Some(a) => Some(str_items(a)),
        None => None,
    }
}

/// What an optional reference points to.
pub open spec fn deref_opt(o: Option<&TomlValue>) -> Option<SpecToml> {
    match o {
        Some(v) => Some(toml_view(*v)),
        None => None,
    }
}

/// The views of an optional list of strings.
pub open spec fn opt_strings_view(o: Option<Vec<String>>) -> Option<Seq<Seq<char>>> {
    match o {
        Some(v) => Some(strings_view(v@)),
        None => None,
    }
}

/// Look a key up in an optional table value.
pub fn tget<'a>(v: Option<&'a TomlValue>, key: &str) -> (r: Option<&'a TomlValue>)
    ensures
        deref_opt(r) == get_opt(deref_opt(v), key@),
{
    match v {
        Some(TomlValue::Table(es)) => {
            let ghost tv = table_view(es@);
            proof {
                lemma_toml_view_parts(TomlValue::Table(*es));
            }
            let kv = to_chars(key);
            let mut i: usize = 0;
            assert(tv.skip(0) =~= tv);
            assert(get_opt(deref_opt(v), key@) == entry_of(tv, key@));
            while i < es.len()
                invariant
                    i <= es@.len(),
                    tv == table_view(es@),
                    kv@ == key@,
                    entry_of(tv.skip(i as int), key@) == entry_of(tv, key@),
                    get_opt(deref_opt(v), key@) == entry_of(tv, key@),
                decreases es@.len() - i,
            {
                assert(tv.skip(i as int).drop_first() =~= tv.skip(i + 1));
                assert(tv.skip(i as int)[0] == tv[i as int]);
                assert(tv[i as int] == (es@[i as int].0@, toml_view(es@[i as int].1)));
                let k = to_chars(es[i].0.as_str());
                if crate::text::chars_eq(k.as_slice(), kv.as_slice()) {
                    assert(entry_of(tv.skip(i as int), key@) == Some(toml_view(es@[i as int].1)));
                    return Some(&es[i].1);
                }
                i = i + 1;
            }
            None
        },
        _ => None,
    }
}

/// The elements of an optional array value.
pub fn tarray<'a>(v: Option<&'a TomlValue>) -> (r: Option<&'a Vec<TomlValue>>)
    ensures
        match r {
            Some(a) => items_opt(deref_opt(v)) == Some(array_view(a@)),
            None => items_opt(deref_opt(v)) is None,
        },
{
    match v {
        Some(TomlValue::Array(a)) => {
            proof {
                lemma_toml_view_parts(TomlValue::Array(*a));
            }
            Some(a)
        },
        _ => None,
    }
}

/// The first element of an optional array value.
pub fn tfirst<'a>(v: Option<&'a TomlValue>) -> (r: Option<&'a TomlValue>)
    ensures
        deref_opt(r) == first_opt(deref_opt(v)),
{
    match tarray(v) {
        Some(a) => if a.len() > 0 {
            Some(&a[0])
        } else {
            None
        },
        None => None,
    }
}

/// The last element of an optional array value.
pub fn tlast<'a>(v: Option<&'a TomlValue>) -> (r: Option<&'a TomlValue>)
    ensures
        deref_opt(r) == last_opt(deref_opt(v)),
{
    match tarray(v) {
        Some(a) => if a.len() > 0 {
            Some(&a[a.len() - 1])
        } else {
            None
        },
        None => None,
    }
}

/// The string of an optional string value.
pub fn tstr(v: Option<&TomlValue>) -> (r: Option<String>)
    ensures
        opt_view_of(r) == str_opt(deref_opt(v)),
{
    match v {
        Some(TomlValue::String(s)) => Some(s.clone()),
        _ => None,
    }
}

/// The view of an optional string.
pub open spec fn opt_view_of(o: Option<String>) -> Option<Seq<char>> {
    match o {
        Some(s) => Some(s@),
        None => None,
    }
}

/// The string of an optional string value, or a default.
pub fn tstr_or(v: Option<&TomlValue>, d: &str) -> (r: String)
    ensures
        r@ == or_text(str_opt(deref_opt(v)), d@),
{
    match tstr(v) {
        Some(s) => s,
        None => string_from(d),
    }
}

/// The strings among the elements of an array.
pub fn string_items(a: &Vec<TomlValue>) -> (r: Vec<String>)
    ensures
        strings_view(r@) == str_items(array_view(a@)),
{
    let ghost av = array_view(a@);
    let mut out: Vec<String> = Vec::new();
    let mut i: usize = 0;
    while i < a.len()
        invariant
            i <= a@.len(),
            av == array_view(a@),
            strings_view(out@) == str_items(av.take(i as int)),
        decreases a@.len() - i,
    {
        assert(av.take(i + 1).drop_last() =~= av.take(i as int));
        assert(av.take(i + 1).last() == toml_view(a@[i as int]));
        match &a[i] {
            TomlValue::String(s) => {
                let ghost before = out@;
                out.push(s.clone());
                assert(strings_view(out@) =~= strings_view(before).push(s@));
            },
            _ => {},
        }
        i = i + 1;
    }
    assert(av.take(i as int) =~= av);
    out
}

/// The strings of an optional array value.
pub fn tstrings(v: Option<&TomlValue>) -> (r: Option<Vec<String>>)
    ensures
        opt_strings_view(r) == str_list(deref_opt(v)),
{
    match tarray(v) {
        Some(a) => Some(string_items(a)),
        None => None,
    }
}

/// The gateway named by the setup file: the next hop of the first route of
/// the first port, else the first infrastructure address (when no route
/// is given), as text; `0.0.0.0` otherwise.
pub open spec fn rss_gateway(t: SpecToml) -> Seq<char> {
    let rnc = toml_get(t, "rack_network_config"@);
    let hop = get_opt(first_opt(get_opt(first_opt(get_opt(rnc, "ports"@)), "routes"@)), "nexthop"@);
    let g = if hop is Some {
        hop
    } else {
        get_opt(rnc, "infra_ip_first"@)
    };
    or_text(str_opt(g), "0.0.0.0"@)
}

/// The network settings that the rack setup file holds, with `0.0.0.0`
/// for a missing address and nothing for a missing list.
pub open spec fn rss_network_matches(n: NetworkConfig, t: SpecToml) -> bool {
    let rnc = toml_get(t, "rack_network_config"@);
    let pools = toml_get(t, "internal_services_ip_pool_ranges"@);
    let allowed = get_opt(toml_get(t, "allowed_source_ips"@), "list"@);
    &&& n.gateway@ == rss_gateway(t)
    &&& strings_view(n.external_dns_ips@) == (match str_list(toml_get(t, "external_dns_ips"@)) {
        Some(l) => l,
        None => seq![],
    })
    &&& n.internal_services_range.first@ == or_text(
        str_opt(get_opt(first_opt(pools), "first"@)),
        "0.0.0.0"@,
    )
    &&& n.internal_services_range.last@ == or_text(
        str_opt(get_opt(first_opt(pools), "last"@)),
        "0.0.0.0"@,
    )
    &&& n.infra_ip@ == or_text(str_opt(get_opt(rnc, "infra_ip_first"@)), "0.0.0.0"@)
    &&& n.instance_pool_range.first@ == or_text(str_opt(first_opt(allowed)), "0.0.0.0"@)
    &&& n.instance_pool_range.last@ == or_text(str_opt(last_opt(allowed)), "0.0.0.0"@)
    &&& opt_view_of(n.external_dns_zone_name) == str_opt(toml_get(t, "external_dns_zone_name"@))
    &&& opt_view_of(n.rack_subnet) == str_opt(get_opt(rnc, "rack_subnet"@))
    &&& opt_strings_view(n.ntp_servers) == str_list(toml_get(t, "ntp_servers"@))
    &&& opt_strings_view(n.dns_servers) == str_list(toml_get(t, "dns_servers"@))
    &&& n.uplink_port_speed is None
    &&& n.allowed_source_ips is None
}

/// Read the network settings out of the parsed rack setup file.
pub fn network_from_rss(table: &TomlValue) -> (r: NetworkConfig)
    ensures
        rss_network_matches(r, toml_view(*table)),
{
    let t = Some(table);
    let rnc = tget(t, "rack_network_config");
    let hop = tget(tfirst(tget(tfirst(tget(rnc, "ports")), "routes")), "nexthop");
    let g = if hop.is_some() {
        hop
    } else {
        tget(rnc, "infra_ip_first")
    };
    let gateway = tstr_or(g, "0.0.0.0");
    let external_dns_ips = match tstrings(tget(t, "external_dns_ips")) {
        Some(l) => l,
        None => Vec::new(),
    };
    let pools = tget(t, "internal_services_ip_pool_ranges");
    let services_first = tstr_or(tget(tfirst(pools), "first"), "0.0.0.0");
    let services_last = tstr_or(tget(tfirst(pools), "last"), "0.0.0.0");
    let infra_ip = tstr_or(tget(rnc, "infra_ip_first"), "0.0.0.0");
    let allowed = tget(tget(t, "allowed_source_ips"), "list");
    let instance_first = tstr_or(tfirst(allowed), "0.0.0.0");
    let instance_last = tstr_or(tlast(allowed), "0.0.0.0");
    let external_dns_zone_name = tstr(tget(t, "external_dns_zone_name"));
    let rack_subnet = tstr(tget(rnc, "rack_subnet"));
    let ntp_servers = tstrings(tget(t, "ntp_servers"));
    let dns_servers = tstrings(tget(t, "dns_servers"));
    proof {
        if str_list(toml_get(toml_view(*table), "external_dns_ips"@)) is None {
            assert(strings_view(external_dns_ips@) =~= Seq::<Seq<char>>::empty());
        }
    }
    NetworkConfig {
        gateway,
        external_dns_ips,
        internal_services_range: IpRange { first: services_first, last: services_last },
        infra_ip,
        instance_pool_range: IpRange { first: instance_first, last: instance_last },
        ntp_servers,
        dns_servers,
        external_dns_zone_name,
        rack_subnet,
        uplink_port_speed: None,
        allowed_source_ips: None,
    }
}

/// Settings discovered on a running host.
pub struct DiscoveredConfig {
    pub network: NetworkConfig,
    pub overrides: OmicronOverrides,
    pub omicron_path: String,
}

/// The vdev count: counted in the sled agent's configuration when it
/// could be read, three otherwise.
pub fn vdev_count_or_default(config_toml: Option<&str>) -> (r: u32)
    requires
        config_toml matches Some(c) ==> lines(c@).len() <= u32::MAX,
    ensures
        config_toml matches Some(c) ==> r == vdev_line_count(lines(c@)),
        config_toml is None ==> r == 3,
{
    match config_toml {
        Some(c) => count_vdevs(c),
        None => 3,
    }
}

/// The size of a vdev file from `ls -l ... | awk '{print $5}'` output.
pub fn vdev_size_from_ls(stdout: &str) -> (r: Option<u64>)
    ensures
        match r {
            Some(v) => parse_unsigned(trim(stdout@), u64::MAX as nat) == Some(v as nat),
            None => parse_unsigned(trim(stdout@), u64::MAX as nat) is None,
        },
{
    let v = to_chars(stdout);
    parse_u64(trim_chars(v.as_slice()))
}

/// The discovered configuration: the network of the setup file, the vdev
/// count, size and the constants read from the source, with Omicron at
/// `~/omicron`.
pub fn discovered_config(
    network: NetworkConfig,
    vdev_count: u32,
    vdev_size_bytes: Option<u64>,
    cockroachdb_redundancy: Option<u32>,
    storage_buffer_gib: Option<u32>,
) -> (r: DiscoveredConfig)
    ensures
        r.network == network,
        r.overrides == (OmicronOverrides {
            cockroachdb_redundancy,
            control_plane_storage_buffer_gib: storage_buffer_gib,
            vdev_count: Some(vdev_count),
            vdev_size_bytes,
        }),
        r.omicron_path@ == "~/omicron"@,
{
    DiscoveredConfig {
        network,
        overrides: OmicronOverrides {
            cockroachdb_redundancy,
            control_plane_storage_buffer_gib: storage_buffer_gib,
            vdev_count: Some(vdev_count),
            vdev_size_bytes,
        },
        omicron_path: string_from("~/omicron"),
    }
}

} // verus!
