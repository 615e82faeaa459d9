//! Validation of a Proxmox hypervisor's settings against what the host
//! reports, and reading of a VM's configuration.
//!
//! The queries (`pvesh` over SSH) and the decoding of their JSON are the
//! caller's; the decoded answers are judged here, and the next query is
//! named here.
use vstd::prelude::*;
use crate::config::{ProxmoxHypervisorConfig, VmConfig};
use crate::parse::network::strings_view;
use crate::text::{ends_with, join, parse_unsigned, push_str, push_u64, split_char, split_char_exec, starts_with, starts_with_str, ends_with_str, string_from, string_of, to_chars, trim, trim_chars, chars_eq_str};

verus! {

broadcast use vstd::slice::group_slice_axioms;

/// What is known of a setting.
pub enum FieldStatus {
    /// Not yet checked.
    Unknown,
    /// Being checked.
    Checking,
    /// The value is valid.
    Valid,
    /// The value is invalid, for the reason given.
    Invalid(String),
}

impl FieldStatus {
    /// Whether the setting was found valid.
    pub fn is_valid(&self) -> (r: bool)
        ensures
            r == (*self is Valid),
    {
        match self {
            FieldStatus::Valid => true,
            _ => false,
        }
    }
}

/// The outcome of validating the settings, with the values the host
/// offers for pickers.
pub struct ProxmoxValidation {
    pub node: FieldStatus,
    pub disk_storage: FieldStatus,
    pub iso_storage: FieldStatus,
    pub iso_file: FieldStatus,
    pub available_nodes: Vec<String>,
    pub available_disk_storages: Vec<String>,
    pub available_iso_storages: Vec<String>,
    pub available_iso_files: Vec<String>,
    pub iso_storage_path: Option<String>,
    /// The node name with the host's capitalisation, when the configured
    /// one differs only in case.
    pub node_auto_fix: Option<String>,
}

impl ProxmoxValidation {
    /// A validation under way: every setting being checked, nothing found.
    pub fn checking() -> (r: ProxmoxValidation)
        ensures
            r.node is Checking,
            r.disk_storage is Checking,
            r.iso_storage is Checking,
            r.iso_file is Checking,
            r.available_nodes@.len() == 0,
            r.available_disk_storages@.len() == 0,
            r.available_iso_storages@.len() == 0,
            r.available_iso_files@.len() == 0,
            r.iso_storage_path is None,
            r.node_auto_fix is None,
    {
        ProxmoxValidation {
            node: FieldStatus::Checking,
            disk_storage: FieldStatus::Checking,
            iso_storage: FieldStatus::Checking,
            iso_file: FieldStatus::Checking,
            available_nodes: Vec::new(),
            available_disk_storages: Vec::new(),
            available_iso_storages: Vec::new(),
            available_iso_files: Vec::new(),
            iso_storage_path: None,
            node_auto_fix: None,
        }
    }

    /// A validation not started: every setting unknown.
    pub fn unknown() -> (r: ProxmoxValidation)
        ensures
            r.node is Unknown,
            r.disk_storage is Unknown,
            r.iso_storage is Unknown,
            r.iso_file is Unknown,
            r.available_nodes@.len() == 0,
            r.available_disk_storages@.len() == 0,
            r.available_iso_storages@.len() == 0,
            r.available_iso_files@.len() == 0,
            r.iso_storage_path is None,
            r.node_auto_fix is None,
    {
        ProxmoxValidation {
            node: FieldStatus::Unknown,
            disk_storage: FieldStatus::Unknown,
            iso_storage: FieldStatus::Unknown,
            iso_file: FieldStatus::Unknown,
            available_nodes: Vec::new(),
            available_disk_storages: Vec::new(),
            available_iso_storages: Vec::new(),
            available_iso_files: Vec::new(),
            iso_storage_path: None,
            node_auto_fix: None,
        }
    }
}

/// A node of the cluster, as `pvesh get /nodes` lists it.
pub struct NodeInfo {
    pub node: String,
    pub status: String,
}

/// A storage, as `pvesh get /storage` lists it.
pub struct StorageInfo {
    pub storage: String,
    pub content: String,
    pub storage_type: String,
    pub path: Option<String>,
}

/// A file of a storage, as its content listing gives it.
pub struct IsoInfo {
    pub volid: String,
}

/// The lower-case form of a text (`str::to_lowercase`).
pub uninterp spec fn lowercase(s: Seq<char>) -> Seq<char>;

/// `str::to_lowercase`: the text with each character mapped to lower case
/// by Unicode's rules. The contract names the result; the mapping itself
/// is not restated.
#[verifier::external_body]
pub(crate) fn to_lowercase(s: &str) -> (r: String)
    ensures
        r@ == lowercase(s@),
{
    s.to_lowercase()
}

/// The names of the nodes.
pub open spec fn node_names(ns: Seq<NodeInfo>) -> Seq<Seq<char>> {
    ns.map_values(|n: NodeInfo| n.node@)
}

/// Some node has exactly the name.
pub open spec fn spec_node_exact(ns: Seq<NodeInfo>, name: Seq<char>) -> bool {
    node_names(ns).contains(name)
}

/// The first node whose name equals the given one ignoring case.
pub open spec fn ci_index(ns: Seq<NodeInfo>, name: Seq<char>, i: int) -> Option<int>
    decreases ns.len() - i,
{
    if i < 0 || i >= ns.len() {
        None
    } else if lowercase(ns[i].node@) == lowercase(name) {
        Some(i)
    } else {
        ci_index(ns, name, i + 1)
    }
}

/// Whether a node has exactly the given name.
pub fn node_exact_match(nodes: &Vec<NodeInfo>, name: &str) -> (r: bool)
    ensures
        r == spec_node_exact(nodes@, name@),
{
    let nv = to_chars(name);
    let ghost names = node_names(nodes@);
    let mut i: usize = 0;
    while i < nodes.len()
        invariant
            i <= nodes@.len(),
            nv@ == name@,
            names == node_names(nodes@),
            forall|j: int| 0 <= j < i ==> #[trigger] names[j] != name@,
        decreases nodes@.len() - i,
    {
        let k = to_chars(nodes[i].node.as_str());
        if crate::text::chars_eq(k.as_slice(), nv.as_slice()) {
            assert(names[i as int] == name@);
            return true;
        }
        i = i + 1;
    }
    false
}

/// The index of the first node whose name equals the given one ignoring
/// case.
pub fn node_ci_match(nodes: &Vec<NodeInfo>, name: &str) -> (r: Option<usize>)
    ensures
        match r {
            Some(k) => ci_index(nodes@, name@, 0) == Some(k as int) && k < nodes@.len(),
            None => ci_index(nodes@, name@, 0) is None,
        },
{
    let target = to_lowercase(name);
    let tv = to_chars(target.as_str());
    let mut i: usize = 0;
    while i < nodes.len()
        invariant
            i <= nodes@.len(),
            tv@ == lowercase(name@),
            ci_index(nodes@, name@, i as int) == ci_index(nodes@, name@, 0),
        decreases nodes@.len() - i,
    {
        let l = to_lowercase(nodes[i].node.as_str());
        let lv = to_chars(l.as_str());
        if crate::text::chars_eq(lv.as_slice(), tv.as_slice()) {
            return Some(i);
        }
        i = i + 1;
    }
    None
}

/// `not found (available: a, b)`.
pub open spec fn not_found_text(available: Seq<Seq<char>>) -> Seq<char> {
    "not found (available: "@ + join(available, ", "@) + ")"@
}

fn not_found(available: &Vec<String>) -> (r: String)
    ensures
        r@ == not_found_text(strings_view(available@)),
{
    let mut s = string_from("not found (available: ");
    let j = crate::text::join_exec(available, ", ");
    assert(available@.map_values(|p: String| p@) =~= strings_view(available@));
    push_str(&mut s, j.as_str());
    push_str(&mut s, ")");
    s
}

/// The verdict on the configured node: valid when a node has its name;
/// valid with a fix when one has it in another case; else not found.
pub struct NodeVerdict {
    pub status: FieldStatus,
    pub available: Vec<String>,
    pub auto_fix: Option<String>,
}

/// Judge the configured node against the listed nodes.
pub fn check_node(nodes: &Vec<NodeInfo>, config_node: &str) -> (r: NodeVerdict)
    ensures
        strings_view(r.available@) == node_names(nodes@),
        spec_node_exact(nodes@, config_node@) ==> r.status is Valid && r.auto_fix is None,
        !spec_node_exact(nodes@, config_node@) ==> match ci_index(nodes@, config_node@, 0) {
            Some(k) => r.status is Valid && (r.auto_fix matches Some(f) && f@ == nodes@[k].node@),
            None => r.auto_fix is None && (r.status matches FieldStatus::Invalid(m) && m@
                == not_found_text(node_names(nodes@))),
        },
{
    let mut available: Vec<String> = Vec::new();
    let mut i: usize = 0;
    while i < nodes.len()
        invariant
            i <= nodes@.len(),
            strings_view(available@) == node_names(nodes@).take(i as int),
        decreases nodes@.len() - i,
    {
        let ghost before = available@;
        let n = nodes[i].node.clone();
        available.push(n);
        assert(strings_view(available@) =~= strings_view(before).push(nodes@[i as int].node@));
        i = i + 1;
        assert(strings_view(available@) =~= node_names(nodes@).take(i as int));
    }
    assert(node_names(nodes@).take(i as int) =~= node_names(nodes@));
    if node_exact_match(nodes, config_node) {
        NodeVerdict { status: FieldStatus::Valid, available, auto_fix: None }
    } else {
        match node_ci_match(nodes, config_node) {
            Some(k) => NodeVerdict {
                status: FieldStatus::Valid,
                available,
                auto_fix: Some(nodes[k].node.clone()),
            },
            None => {
                let msg = not_found(&available);
                NodeVerdict { status: FieldStatus::Invalid(msg), available, auto_fix: None }
            },
        }
    }
}

/// `query failed: <error>`.
pub fn query_failed(error: &str) -> (r: FieldStatus)
    ensures
        r matches FieldStatus::Invalid(m) && m@ == "query failed: "@ + error@,
{
    let mut s = string_from("query failed: ");
    push_str(&mut s, error);
    FieldStatus::Invalid(s)
}

/// `parse error: <error>`.
pub fn parse_failed(error: &str) -> (r: FieldStatus)
    ensures
        r matches FieldStatus::Invalid(m) && m@ == "parse error: "@ + error@,
{
    let mut s = string_from("parse error: ");
    push_str(&mut s, error);
    FieldStatus::Invalid(s)
}

/// A storage offers a content type when it is one of its `,`-separated
/// content names (as the pickers read it: untrimmed).
pub open spec fn lists_content(content: Seq<char>, kind: Seq<char>) -> bool {
    split_char(content, ',').contains(kind)
}

/// A storage supports a content type when one of its content names,
/// trimmed, is it (as the validation reads it).
pub open spec fn supports_content(content: Seq<char>, kind: Seq<char>) -> bool {
    exists|i: int| 0 <= i < split_char(content, ',').len() && trim(#[trigger] split_char(content, ',')[i]) == kind
}

fn content_has(content: &str, kind: &str, trimmed: bool) -> (r: bool)
    ensures
        trimmed ==> r == supports_content(content@, kind@),
        !trimmed ==> r == lists_content(content@, kind@),
{
    let cv = to_chars(content);
    let parts = split_char_exec(cv.as_slice(), ',');
    let ghost pv = crate::text::views(parts@);
    let mut i: usize = 0;
    while i < parts.len()
        invariant
            i <= parts@.len(),
            pv == crate::text::views(parts@),
            pv == split_char(content@, ','),
            forall|j: int| 0 <= j < i ==> !trimmed ==> #[trigger] pv[j] != kind@,
            forall|j: int| 0 <= j < i ==> trimmed ==> trim(#[trigger] pv[j]) != kind@,
        decreases parts@.len() - i,
    {
        let p = if trimmed {
            trim_chars(parts[i])
        } else {
            parts[i]
        };
        if chars_eq_str(p, kind) {
            assert(pv[i as int] == parts@[i as int]@);
            return true;
        }
        i = i + 1;
    }
    false
}

/// The names of the storages that list a content type, in order.
pub open spec fn storages_listing(ss: Seq<StorageInfo>, kind: Seq<char>) -> Seq<Seq<char>>
    decreases ss.len(),
{
    if ss.len() == 0 {
        seq![]
    } else {
        let rest = storages_listing(ss.drop_last(), kind);
        if lists_content(ss.last().content@, kind) {
            rest.push(ss.last().storage@)
        } else {
            rest
        }
    }
}

/// The first storage with a name.
pub open spec fn storage_index(ss: Seq<StorageInfo>, name: Seq<char>, i: int) -> Option<int>
    decreases ss.len() - i,
{
    if i < 0 || i >= ss.len() {
        None
    } else if ss[i].storage@ == name {
        Some(i)
    } else {
        storage_index(ss, name, i + 1)
    }
}

fn find_storage(ss: &Vec<StorageInfo>, name: &str) -> (r: Option<usize>)
    ensures
        match r {
            Some(k) => storage_index(ss@, name@, 0) == Some(k as int) && k < ss@.len(),
            None => storage_index(ss@, name@, 0) is None,
        },
{
    let nv = to_chars(name);
    let mut i: usize = 0;
    while i < ss.len()
        invariant
            i <= ss@.len(),
            nv@ == name@,
            storage_index(ss@, name@, i as int) == storage_index(ss@, name@, 0),
        decreases ss@.len() - i,
    {
        let k = to_chars(ss[i].storage.as_str());
        if crate::text::chars_eq(k.as_slice(), nv.as_slice()) {
            return Some(i);
        }
        i = i + 1;
    }
    None
}

fn listing(ss: &Vec<StorageInfo>, kind: &str) -> (r: Vec<String>)
    ensures
        strings_view(r@) == storages_listing(ss@, kind@),
{
    let mut out: Vec<String> = Vec::new();
    let mut i: usize = 0;
    while i < ss.len()
        invariant
            i <= ss@.len(),
            strings_view(out@) == storages_listing(ss@.take(i as int), kind@),
        decreases ss@.len() - i,
    {
        assert(ss@.take(i + 1).drop_last() =~= ss@.take(i as int));
        assert(ss@.take(i + 1).last() == ss@[i as int]);
        if content_has(ss[i].content.as_str(), kind, false) {
            let ghost before = out@;
            out.push(ss[i].storage.clone());
            assert(strings_view(out@) =~= strings_view(before).push(ss@[i as int].storage@));
        }
        i = i + 1;
    }
    assert(ss@.take(i as int) =~= ss@);
    out
}

/// The verdicts on the two storages, the picker lists and where ISOs are
/// stored.
pub struct StorageVerdict {
    pub disk_storage: FieldStatus,
    pub iso_storage: FieldStatus,
    pub available_disk_storages: Vec<String>,
    pub available_iso_storages: Vec<String>,
    pub iso_storage_path: Option<String>,
}

/// The verdict on a configured storage for a content type: valid when a
/// storage of that name supports it; invalid with `reason` when it exists
/// without; not found otherwise.
pub open spec fn storage_verdict_ok(
    st: FieldStatus,
    ss: Seq<StorageInfo>,
    name: Seq<char>,
    kind: Seq<char>,
    reason: Seq<char>,
) -> bool {
    match storage_index(ss, name, 0) {
        Some(k) => if supports_content(ss[k].content@, kind) {
            st is Valid
        } else {
            st matches FieldStatus::Invalid(m) && m@ == reason
        },
        None => st matches FieldStatus::Invalid(m) && m@ == not_found_text(storages_listing(ss, kind)),
    }
}

/// Judge the configured disk and ISO storages against the listed ones.
pub fn check_storages(storages: &Vec<StorageInfo>, config: &ProxmoxHypervisorConfig) -> (r: StorageVerdict)
    ensures
        strings_view(r.available_disk_storages@) == storages_listing(storages@, "images"@),
        strings_view(r.available_iso_storages@) == storages_listing(storages@, "iso"@),
        storage_verdict_ok(r.disk_storage, storages@, config.disk_storage@, "images"@, "exists but doesn't support disk images"@),
        storage_verdict_ok(r.iso_storage, storages@, config.iso_storage@, "iso"@, "exists but doesn't support ISOs"@),
        match storage_index(storages@, config.iso_storage@, 0) {
            Some(k) => supports_content(storages@[k].content@, "iso"@) ==> crate::text::opt_view(r.iso_storage_path) == crate::text::opt_view(storages@[k].path),
            None => true,
        },
        !(r.iso_storage is Valid) ==> r.iso_storage_path is None,
{
    let disks = listing(storages, "images");
    let isos = listing(storages, "iso");
    let disk_storage = match find_storage(storages, config.disk_storage.as_str()) {
        Some(k) => if content_has(storages[k].content.as_str(), "images", true) {
            FieldStatus::Valid
        } else {
            FieldStatus::Invalid(string_from("exists but doesn't support disk images"))
        },
        None => FieldStatus::Invalid(not_found(&disks)),
    };
    let mut iso_storage_path: Option<String> = None;
    let iso_storage = match find_storage(storages, config.iso_storage.as_str()) {
        Some(k) => if content_has(storages[k].content.as_str(), "iso", true) {
            iso_storage_path = match &storages[k].path {
                Some(p) => Some(p.clone()),
                None => None,
            };
            FieldStatus::Valid
        } else {
            FieldStatus::Invalid(string_from("exists but doesn't support ISOs"))
        },
        None => FieldStatus::Invalid(not_found(&isos)),
    };
    StorageVerdict {
        disk_storage,
        iso_storage,
        available_disk_storages: disks,
        available_iso_storages: isos,
        iso_storage_path,
    }
}

/// The file name of a volume id (`local:iso/x.iso` gives `x.iso`).
pub open spec fn volid_file(volid: Seq<char>) -> Seq<char> {
    split_char(volid, '/').last()
}

/// A Helios installer image.
pub open spec fn is_helios_iso(name: Seq<char>) -> bool {
    starts_with(name, "helios-install-"@) && ends_with(name, ".iso"@)
}

/// The Helios installer images among a storage's files, in order.
pub open spec fn helios_isos(isos: Seq<IsoInfo>) -> Seq<Seq<char>>
    decreases isos.len(),
{
    if isos.len() == 0 {
        seq![]
    } else {
        let rest = helios_isos(isos.drop_last());
        let n = volid_file(isos.last().volid@);
        if is_helios_iso(n) {
            rest.push(n)
        } else {
            rest
        }
    }
}

/// Whether a file name is a Helios installer image.
pub fn helios_iso_name(name: &str) -> (r: bool)
    ensures
        r == is_helios_iso(name@),
{
    let v = to_chars(name);
    starts_with_str(v.as_slice(), "helios-install-") && ends_with_str(v.as_slice(), ".iso")
}

/// The verdict on the configured ISO file and the installer images found.
pub fn check_isos(isos: &Vec<IsoInfo>, iso_file: &str) -> (r: (FieldStatus, Vec<String>))
    ensures
        strings_view(r.1@) == helios_isos(isos@),
        helios_isos(isos@).contains(iso_file@) ==> r.0 is Valid,
        !helios_isos(isos@).contains(iso_file@) ==> (r.0 matches FieldStatus::Invalid(m) && m@
            == "not found on storage"@),
{
    let mut files: Vec<String> = Vec::new();
    let mut i: usize = 0;
    while i < isos.len()
        invariant
            i <= isos@.len(),
            strings_view(files@) == helios_isos(isos@.take(i as int)),
        decreases isos@.len() - i,
    {
        assert(isos@.take(i + 1).drop_last() =~= isos@.take(i as int));
        assert(isos@.take(i + 1).last() == isos@[i as int]);
        let v = to_chars(isos[i].volid.as_str());
        let parts = split_char_exec(v.as_slice(), '/');
        let name = string_of(parts[parts.len() - 1]);
        if helios_iso_name(name.as_str()) {
            let ghost before = files@;
            files.push(name);
            assert(strings_view(files@) =~= strings_view(before).push(volid_file(isos@[i as int].volid@)));
        }
        i = i + 1;
    }
    assert(isos@.take(i as int) =~= isos@);
    let fv = to_chars(iso_file);
    let ghost fs = strings_view(files@);
    let mut found = false;
    let mut j: usize = 0;
    while j < files.len()
        invariant
            j <= files@.len(),
            fs == strings_view(files@),
            fv@ == iso_file@,
            found == exists|k: int| 0 <= k < j && fs[k] == iso_file@,
        decreases files@.len() - j,
    {
        let k = to_chars(files[j].as_str());
        if crate::text::chars_eq(k.as_slice(), fv.as_slice()) {
            found = true;
        }
        proof {
            if found {
                if fs[j as int] == iso_file@ {
                    assert(exists|k: int| 0 <= k < j + 1 && fs[k] == iso_file@);
                }
            }
        }
        j = j + 1;
    }
    if found {
        (FieldStatus::Valid, files)
    } else {
        (FieldStatus::Invalid(string_from("not found on storage")), files)
    }
}

/// The ISO listing query, for the node to use (the fixed name when there
/// is one) and the ISO storage; none when the node or the storage is not
/// valid.
pub fn iso_query_command(node: &FieldStatus, iso_storage: &FieldStatus, node_auto_fix: &Option<String>, config: &ProxmoxHypervisorConfig) -> (r: Option<String>)
    ensures
        !(node is Valid && iso_storage is Valid) ==> r is None,
        (node is Valid && iso_storage is Valid) ==> (r matches Some(c) && c@ == "pvesh get /nodes/"@
            + (match node_auto_fix {
            Some(f) => f@,
            None => config.node@,
        }) + "/storage/"@ + config.iso_storage@ + "/content --content iso --output-format json"@),
{
    if node.is_valid() && iso_storage.is_valid() {
        let mut s = string_from("pvesh get /nodes/");
        match node_auto_fix {
            Some(f) => push_str(&mut s, f.as_str()),
            None => push_str(&mut s, config.node.as_str()),
        }
        push_str(&mut s, "/storage/");
        push_str(&mut s, config.iso_storage.as_str());
        push_str(&mut s, "/content --content iso --output-format json");
        Some(s)
    } else {
        None
    }
}

/// The verdict on the ISO file when its listing is skipped.
pub fn iso_skipped() -> (r: FieldStatus)
    ensures
        r matches FieldStatus::Invalid(m) && m@ == "skipped (node or iso_storage invalid)"@,
{
    FieldStatus::Invalid(string_from("skipped (node or iso_storage invalid)"))
}

// --- The validation run ---

/// The node listing query.
pub fn nodes_query() -> (r: &'static str)
    ensures
        r@ == "pvesh get /nodes --output-format json"@,
{
    "pvesh get /nodes --output-format json"
}

/// The storage listing query.
pub fn storages_query() -> (r: &'static str)
    ensures
        r@ == "pvesh get /storage --output-format json"@,
{
    "pvesh get /storage --output-format json"
}

/// What a listing query gave: the decoded entries, or why there are none.
pub enum Listing<T> {
    Listed(Vec<T>),
    /// The output could not be decoded.
    ParseError(String),
    /// The query could not be run or exited non-zero.
    QueryFailed(String),
}

/// The verdict on a node as `check_node` gives it.
pub open spec fn node_verdict_ok(
    status: FieldStatus,
    auto_fix: Option<String>,
    nodes: Seq<NodeInfo>,
    name: Seq<char>,
) -> bool {
    if spec_node_exact(nodes, name) {
        status is Valid && auto_fix is None
    } else {
        match ci_index(nodes, name, 0) {
            Some(k) => status is Valid && (auto_fix matches Some(f) && f@ == nodes[k].node@),
            None => auto_fix is None && (status matches FieldStatus::Invalid(m) && m@
                == not_found_text(node_names(nodes))),
        }
    }
}

/// The settings other than the node are untouched.
pub open spec fn node_step_keeps(a: ProxmoxValidation, b: ProxmoxValidation) -> bool {
    &&& b.disk_storage == a.disk_storage
    &&& b.iso_storage == a.iso_storage
    &&& b.iso_file == a.iso_file
    &&& b.available_disk_storages@ == a.available_disk_storages@
    &&& b.available_iso_storages@ == a.available_iso_storages@
    &&& b.available_iso_files@ == a.available_iso_files@
    &&& b.iso_storage_path == a.iso_storage_path
}

/// Take the node listing into the validation. The validation goes on
/// unless the query failed.
pub fn apply_nodes(v: &mut ProxmoxValidation, answer: Listing<NodeInfo>, config: &ProxmoxHypervisorConfig) -> (go_on: bool)
    ensures
        go_on == !(answer is QueryFailed),
        node_step_keeps(*old(v), *final(v)),
        match answer {
            Listing::Listed(nodes) => {
                &&& node_verdict_ok(final(v).node, final(v).node_auto_fix, nodes@, config.node@)
                &&& strings_view(final(v).available_nodes@) == node_names(nodes@)
            },
            Listing::ParseError(e) => {
                &&& final(v).node matches FieldStatus::Invalid(m) && m@ == "parse error: "@ + e@
                &&& final(v).available_nodes@ == old(v).available_nodes@
                &&& final(v).node_auto_fix == old(v).node_auto_fix
            },
            Listing::QueryFailed(e) => {
                &&& final(v).node matches FieldStatus::Invalid(m) && m@ == "query failed: "@ + e@
                &&& final(v).available_nodes@ == old(v).available_nodes@
                &&& final(v).node_auto_fix == old(v).node_auto_fix
            },
        },
{
    match answer {
        Listing::Listed(nodes) => {
            let verdict = check_node(&nodes, config.node.as_str());
            v.node = verdict.status;
            v.available_nodes = verdict.available;
            v.node_auto_fix = verdict.auto_fix;
            true
        },
        Listing::ParseError(e) => {
            v.node = parse_failed(e.as_str());
            true
        },
        Listing::QueryFailed(e) => {
            v.node = query_failed(e.as_str());
            false
        },
    }
}

/// Take the storage listing into the validation. The validation goes on
/// unless the query failed.
pub fn apply_storages(v: &mut ProxmoxValidation, answer: Listing<StorageInfo>, config: &ProxmoxHypervisorConfig) -> (go_on: bool)
    ensures
        go_on == !(answer is QueryFailed),
        final(v).node == old(v).node,
        final(v).node_auto_fix == old(v).node_auto_fix,
        final(v).available_nodes@ == old(v).available_nodes@,
        final(v).iso_file == old(v).iso_file,
        final(v).available_iso_files@ == old(v).available_iso_files@,
        match answer {
            Listing::Listed(ss) => {
                &&& strings_view(final(v).available_disk_storages@) == storages_listing(ss@, "images"@)
                &&& strings_view(final(v).available_iso_storages@) == storages_listing(ss@, "iso"@)
                &&& storage_verdict_ok(final(v).disk_storage, ss@, config.disk_storage@, "images"@, "exists but doesn't support disk images"@)
                &&& storage_verdict_ok(final(v).iso_storage, ss@, config.iso_storage@, "iso"@, "exists but doesn't support ISOs"@)
                &&& match storage_index(ss@, config.iso_storage@, 0) {
                    Some(k) => supports_content(ss@[k].content@, "iso"@) ==> crate::text::opt_view(final(v).iso_storage_path) == crate::text::opt_view(ss@[k].path),
                    None => true,
                }
                &&& !(final(v).iso_storage is Valid) ==> final(v).iso_storage_path == old(v).iso_storage_path
            },
            Listing::ParseError(e) => {
                &&& final(v).disk_storage matches FieldStatus::Invalid(m) && m@ == "parse error: "@ + e@
                &&& final(v).iso_storage matches FieldStatus::Invalid(m) && m@ == "parse error: "@ + e@
                &&& final(v).available_disk_storages@ == old(v).available_disk_storages@
                &&& final(v).available_iso_storages@ == old(v).available_iso_storages@
                &&& final(v).iso_storage_path == old(v).iso_storage_path
            },
            Listing::QueryFailed(e) => {
                &&& final(v).disk_storage matches FieldStatus::Invalid(m) && m@ == "query failed: "@ + e@
                &&& final(v).iso_storage matches FieldStatus::Invalid(m) && m@ == "query failed: "@ + e@
                &&& final(v).available_disk_storages@ == old(v).available_disk_storages@
                &&& final(v).available_iso_storages@ == old(v).available_iso_storages@
                &&& final(v).iso_storage_path == old(v).iso_storage_path
            },
        },
{
    match answer {
        Listing::Listed(ss) => {
            let verdict = check_storages(&ss, config);
            v.disk_storage = verdict.disk_storage;
            v.iso_storage = verdict.iso_storage;
            v.available_disk_storages = verdict.available_disk_storages;
            v.available_iso_storages = verdict.available_iso_storages;
            if v.iso_storage.is_valid() {
                v.iso_storage_path = verdict.iso_storage_path;
            }
            true
        },
        Listing::ParseError(e) => {
            v.disk_storage = parse_failed(e.as_str());
            v.iso_storage = parse_failed(e.as_str());
            true
        },
        Listing::QueryFailed(e) => {
            v.disk_storage = query_failed(e.as_str());
            v.iso_storage = query_failed(e.as_str());
            false
        },
    }
}

/// Take the ISO listing into the validation, or, when there was none to
/// take because the node or the ISO storage is invalid, mark the ISO file
/// skipped.
pub fn apply_isos(v: &mut ProxmoxValidation, answer: Option<Listing<IsoInfo>>, config: &ProxmoxHypervisorConfig)
    ensures
        final(v).node == old(v).node,
        final(v).node_auto_fix == old(v).node_auto_fix,
        final(v).available_nodes@ == old(v).available_nodes@,
        final(v).disk_storage == old(v).disk_storage,
        final(v).iso_storage == old(v).iso_storage,
        final(v).available_disk_storages@ == old(v).available_disk_storages@,
        final(v).available_iso_storages@ == old(v).available_iso_storages@,
        final(v).iso_storage_path == old(v).iso_storage_path,
        match answer {
            None => {
                &&& final(v).iso_file matches FieldStatus::Invalid(m) && m@ == "skipped (node or iso_storage invalid)"@
                &&& final(v).available_iso_files@ == old(v).available_iso_files@
            },
            Some(Listing::Listed(isos)) => {
                &&& strings_view(final(v).available_iso_files@) == helios_isos(isos@)
                &&& helios_isos(isos@).contains(config.iso_file@) ==> final(v).iso_file is Valid
                &&& !helios_isos(isos@).contains(config.iso_file@) ==> (final(v).iso_file matches FieldStatus::Invalid(m) && m@ == "not found on storage"@)
            },
            Some(Listing::ParseError(e)) => {
                &&& final(v).iso_file matches FieldStatus::Invalid(m) && m@ == "parse error: "@ + e@
                &&& final(v).available_iso_files@ == old(v).available_iso_files@
            },
            Some(Listing::QueryFailed(e)) => {
                &&& final(v).iso_file matches FieldStatus::Invalid(m) && m@ == "query failed: "@ + e@
                &&& final(v).available_iso_files@ == old(v).available_iso_files@
            },
        },
{
    match answer {
        None => {
            v.iso_file = iso_skipped();
        },
        Some(Listing::Listed(isos)) => {
            let (status, files) = check_isos(&isos, config.iso_file.as_str());
            v.iso_file = status;
            v.available_iso_files = files;
        },
        Some(Listing::ParseError(e)) => {
            v.iso_file = parse_failed(e.as_str());
        },
        Some(Listing::QueryFailed(e)) => {
            v.iso_file = query_failed(e.as_str());
        },
    }
}

// --- VMs ---

/// A VM of the host, for pickers.
pub struct ProxmoxVm {
    pub vmid: u32,
    pub name: String,
}

/// A VM as `pvesh get /nodes/<node>/qemu` lists it.
pub struct QemuVmInfo {
    pub vmid: u32,
    pub name: String,
    pub status: String,
}

/// The VMs of a listing.
pub fn vms_from(list: &Vec<QemuVmInfo>) -> (r: Vec<ProxmoxVm>)
    ensures
        r@.len() == list@.len(),
        forall|i: int| 0 <= i < r@.len() ==> (#[trigger] r@[i]).vmid == list@[i].vmid && r@[i].name@ == list@[i].name@,
{
    let mut out: Vec<ProxmoxVm> = Vec::new();
    let mut i: usize = 0;
    while i < list.len()
        invariant
            i <= list@.len(),
            out@.len() == i,
            forall|j: int| 0 <= j < i ==> (#[trigger] out@[j]).vmid == list@[j].vmid && out@[j].name@ == list@[j].name@,
        decreases list@.len() - i,
    {
        out.push(ProxmoxVm { vmid: list[i].vmid, name: list[i].name.clone() });
        i = i + 1;
    }
    out
}

/// A VM's configuration as `pvesh get .../qemu/<vmid>/config` gives it;
/// cores default to 2 and sockets to 1 when the host leaves them out.
pub struct QemuVmConfig {
    pub name: Option<String>,
    pub cores: u32,
    pub sockets: u32,
    pub memory: Option<String>,
    pub cpu: Option<String>,
    pub ostype: Option<String>,
    pub sata0: Option<String>,
    pub scsi0: Option<String>,
    pub ide0: Option<String>,
    pub net0: Option<String>,
}

/// The first `size=<n>G` piece of a disk spec, as a number.
pub open spec fn size_from(parts: Seq<Seq<char>>, i: int) -> Option<nat>
    decreases parts.len() - i,
{
    if i < 0 || i >= parts.len() {
        None
    } else {
        let p = trim(parts[i]);
        if starts_with(p, "size="@) {
            let v = crate::discover::trim_end_char(trim_start_matches(p, "size="@), 'G');
            match parse_unsigned(v, u32::MAX as nat) {
                Some(n) => Some(n),
                None => size_from(parts, i + 1),
            }
        } else {
            size_from(parts, i + 1)
        }
    }
}

/// The text with every leading `p` removed (`trim_start_matches`).
pub open spec fn trim_start_matches(s: Seq<char>, p: Seq<char>) -> Seq<char>
    decreases s.len(),
{
    if p.len() > 0 && starts_with(s, p) {
        trim_start_matches(s.skip(p.len() as int), p)
    } else {
        s
    }
}

/// The disk size (GB) and bus of a VM: from its first SATA, SCSI or IDE
/// disk, in that order; 256 GB on SATA when it has none, 256 when the
/// size cannot be read.
pub open spec fn spec_disk(c: QemuVmConfig) -> (nat, Seq<char>) {
    let (spec, bus) = match c.sata0 {
        Some(s) => (Some(s@), "sata"@),
        None => match c.scsi0 {
            Some(s) => (Some(s@), "scsi"@),
            None => match c.ide0 {
                Some(s) => (Some(s@), "ide"@),
                None => (None, "sata"@),
            },
        },
    };
    match spec {
        None => (256, "sata"@),
        Some(sp) => (match size_from(split_char(sp, ','), 0) {
            Some(n) => n,
            None => 256,
        }, bus),
    }
}

fn trim_start_matches_exec<'a>(s: &'a [char], p: &str) -> (r: &'a [char])
    requires
        p@.len() > 0,
    ensures
        r@ == trim_start_matches(s@, p@),
    decreases s@.len(),
{
    match crate::text::strip_prefix_str(s, p) {
        Some(rest) => {
            assert(rest@ == s@.skip(p@.len() as int));
            trim_start_matches_exec(rest, p)
        },
        None => s,
    }
}

fn size_in(spec: &str) -> (r: Option<u32>)
    ensures
        match r {
            Some(n) => size_from(split_char(spec@, ','), 0) == Some(n as nat),
            None => size_from(split_char(spec@, ','), 0) is None,
        },
{
    let v = to_chars(spec);
    let parts = split_char_exec(v.as_slice(), ',');
    let ghost pv = crate::text::views(parts@);
    let mut i: usize = 0;
    while i < parts.len()
        invariant
            i <= parts@.len(),
            pv == crate::text::views(parts@),
            pv == split_char(spec@, ','),
            size_from(pv, i as int) == size_from(pv, 0),
        decreases parts@.len() - i,
    {
        let p = trim_chars(parts[i]);
        if starts_with_str(p, "size=") {
            proof {
                reveal_strlit("size=");
            }
            let a = trim_start_matches_exec(p, "size=");
            let b = crate::discover::trim_end_char_exec(a, 'G');
            if let Some(n) = crate::text::parse_u32(b) {
                return Some(n);
            }
        }
        i = i + 1;
    }
    None
}

/// The disk size and bus of a VM.
pub fn parse_disk_spec(config: &QemuVmConfig) -> (r: (u32, String))
    ensures
        r.0 as nat == spec_disk(*config).0,
        r.1@ == spec_disk(*config).1,
{
    let (spec, bus): (&str, &str) = if let Some(s) = &config.sata0 {
        (s.as_str(), "sata")
    } else if let Some(s) = &config.scsi0 {
        (s.as_str(), "scsi")
    } else if let Some(s) = &config.ide0 {
        (s.as_str(), "ide")
    } else {
        return (256, string_from("sata"));
    };
    let size = match size_in(spec) {
        Some(n) => n,
        None => 256,
    };
    (size, string_from(bus))
}

/// The first `bridge=<name>` piece of a network spec.
pub open spec fn bridge_from(parts: Seq<Seq<char>>, i: int) -> Option<Seq<char>>
    decreases parts.len() - i,
{
    if i < 0 || i >= parts.len() {
        None
    } else {
        let p = trim(parts[i]);
        if starts_with(p, "bridge="@) {
            Some(trim_start_matches(p, "bridge="@))
        } else {
            bridge_from(parts, i + 1)
        }
    }
}

/// The network model and bridge of a VM: the model before the first `=`
/// of its first interface, the bridge named in it (`vmbr0` when none);
/// `e1000e` on `vmbr0` when it has no interface.
pub open spec fn spec_net(c: QemuVmConfig) -> (Seq<char>, Seq<char>) {
    match c.net0 {
        None => ("e1000e"@, "vmbr0"@),
        Some(n) => (split_char(n@, '=')[0], match bridge_from(split_char(n@, ','), 0) {
            Some(b) => b,
            None => "vmbr0"@,
        }),
    }
}

fn bridge_in(net: &str) -> (r: Option<String>)
    ensures
        crate::text::opt_view(r) == bridge_from(split_char(net@, ','), 0),
{
    let v = to_chars(net);
    let parts = split_char_exec(v.as_slice(), ',');
    let ghost pv = crate::text::views(parts@);
    let mut i: usize = 0;
    while i < parts.len()
        invariant
            i <= parts@.len(),
            pv == crate::text::views(parts@),
            pv == split_char(net@, ','),
            bridge_from(pv, i as int) == bridge_from(pv, 0),
        decreases parts@.len() - i,
    {
        let p = trim_chars(parts[i]);
        if starts_with_str(p, "bridge=") {
            proof {
                reveal_strlit("bridge=");
            }
            let b = trim_start_matches_exec(p, "bridge=");
            return Some(string_of(b));
        }
        i = i + 1;
    }
    None
}

/// The network model and bridge of a VM.
pub fn parse_net_spec(config: &QemuVmConfig) -> (r: (String, String))
    ensures
        r.0@ == spec_net(*config).0,
        r.1@ == spec_net(*config).1,
{
    match &config.net0 {
        None => (string_from("e1000e"), string_from("vmbr0")),
        Some(net) => {
            let v = to_chars(net.as_str());
            let eq = split_char_exec(v.as_slice(), '=');
            let model = string_of(eq[0]);
            match bridge_in(net.as_str()) {
                Some(b) => (model, b),
                None => (model, string_from("vmbr0")),
            }
        },
    }
}

/// The memory of a VM in MiB: its `memory` setting as a number, 49152
/// when absent or unreadable.
pub open spec fn spec_memory(c: QemuVmConfig) -> nat {
    match c.memory {
        Some(m) => match parse_unsigned(m@, u32::MAX as nat) {
            Some(n) => n,
            None => 49152,
        },
        None => 49152,
    }
}

/// The deployment's VM settings read from a VM's configuration on the
/// host.
pub fn vm_config_from(vmid: u32, config: &QemuVmConfig) -> (r: VmConfig)
    ensures
        r.vmid == vmid,
        r.name@ == (match config.name {
            Some(n) => n@,
            None => "vm-"@ + crate::text::decimal(vmid as nat),
        }),
        r.cores == config.cores,
        r.sockets == config.sockets,
        r.memory_mb as nat == spec_memory(*config),
        r.disk_gb as nat == spec_disk(*config).0,
        r.disk_bus@ == spec_disk(*config).1,
        r.cpu_type@ == (match config.cpu {
            Some(c) => c@,
            None => "host"@,
        }),
        r.os_type@ == (match config.ostype {
            Some(o) => o@,
            None => "solaris"@,
        }),
        r.net_model@ == spec_net(*config).0,
        r.net_bridge@ == spec_net(*config).1,
{
    let memory_mb = match &config.memory {
        Some(m) => {
            let v = to_chars(m.as_str());
            match crate::text::parse_u32(v.as_slice()) {
                Some(n) => n,
                None => 49152,
            }
        },
        None => 49152,
    };
    let (disk_gb, disk_bus) = parse_disk_spec(config);
    let (net_model, net_bridge) = parse_net_spec(config);
    let name = match &config.name {
        Some(n) => n.clone(),
        None => {
            let mut s = string_from("vm-");
            push_u64(&mut s, vmid as u64);
            s
        },
    };
    VmConfig {
        vmid,
        name,
        cores: config.cores,
        sockets: config.sockets,
        memory_mb,
        disk_gb,
        disk_bus,
        cpu_type: match &config.cpu {
            Some(c) => c.clone(),
            None => string_from("host"),
        },
        os_type: match &config.ostype {
            Some(o) => o.clone(),
            None => string_from("solaris"),
        },
        net_model,
        net_bridge,
    }
}

/// Where an ISO is downloaded from, and where it is stored on the host.
pub fn iso_download_paths(iso_storage_path: &str, filename: &str) -> (r: (String, String))
    ensures
        r.0@ == "https://pkg.oxide.computer/install/latest/"@ + filename@,
        r.1@ == iso_storage_path@ + "/template/iso/"@ + filename@,
{
    let mut url = string_from("https://pkg.oxide.computer/install/latest/");
    push_str(&mut url, filename);
    let mut dest = string_from(iso_storage_path);
    push_str(&mut dest, "/template/iso/");
    push_str(&mut dest, filename);
    (url, dest)
}

} // verus!
