use whoah::config::ProxmoxHypervisorConfig;
use whoah::proxmox::{
    check_isos, check_node, check_storages, helios_iso_name, iso_download_paths, iso_query_command,
    iso_skipped, node_ci_match, node_exact_match, parse_disk_spec, parse_net_spec, query_failed,
    vm_config_from, FieldStatus, IsoInfo, NodeInfo, ProxmoxValidation, QemuVmConfig, StorageInfo,
};

fn node(n: &str) -> NodeInfo {
    NodeInfo { node: n.into(), status: "online".into() }
}

#[test]
fn test_node_case_insensitive_match() {
    let nodes = vec![node("pve")];
    let config_node = "PVE";
    let exact = node_exact_match(&nodes, config_node);
    assert!(!exact);
    let ci = node_ci_match(&nodes, config_node);
    assert!(ci.is_some());
    assert_eq!(nodes[ci.unwrap()].node, "pve");
}

#[test]
fn test_iso_filename_filtering() {
    let filenames = vec![
        "helios-install-vga.iso",
        "helios-install-ttya.iso",
        "ubuntu-24.04.iso",
        "TrueNAS-SCALE.iso",
        "helios-install-ttyb.iso",
    ];
    let filtered: Vec<&&str> = filenames.iter().filter(|n| helios_iso_name(n)).collect();
    assert_eq!(filtered.len(), 3);
    assert!(filtered.contains(&&"helios-install-vga.iso"));
    assert!(filtered.contains(&&"helios-install-ttya.iso"));
    assert!(filtered.contains(&&"helios-install-ttyb.iso"));
}

#[test]
fn test_node_exact_match_no_auto_fix() {
    let nodes = vec![node("pve")];
    let config_node = "pve";
    let exact = node_exact_match(&nodes, config_node);
    assert!(exact);
    let ci = node_ci_match(&nodes, config_node);
    assert_eq!(nodes[ci.unwrap()].node, config_node);
}

#[test]
fn test_node_no_match() {
    let nodes = vec![node("pve")];
    let config_node = "badnode";
    let exact = node_exact_match(&nodes, config_node);
    assert!(!exact);
    let ci = node_ci_match(&nodes, config_node);
    assert!(ci.is_none());
}

fn cfg() -> ProxmoxHypervisorConfig {
    ProxmoxHypervisorConfig {
        node: "PVE".into(),
        iso_storage: "local".into(),
        disk_storage: "local-lvm".into(),
        iso_file: "helios-install-vga.iso".into(),
    }
}

#[test]
fn node_verdicts() {
    let v = check_node(&vec![node("pve"), node("other")], "PVE");
    assert!(v.status.is_valid());
    assert_eq!(v.auto_fix, Some("pve".to_string()));
    let v = check_node(&vec![node("pve"), node("other")], "nope");
    assert!(matches!(v.status, FieldStatus::Invalid(ref m) if m == "not found (available: pve, other)"));
    assert_eq!(v.available, vec!["pve".to_string(), "other".to_string()]);
    assert!(matches!(query_failed("boom"), FieldStatus::Invalid(ref m) if m == "query failed: boom"));
    assert!(matches!(ProxmoxValidation::checking().node, FieldStatus::Checking));
}

fn storage(name: &str, content: &str, path: Option<&str>) -> StorageInfo {
    StorageInfo { storage: name.into(), content: content.into(), storage_type: "dir".into(), path: path.map(|p| p.to_string()) }
}

#[test]
fn storage_classification_by_content() {
    let storages = vec![
        storage("local-lvm", "images,rootdir", None),
        storage("local", "iso,vztmpl,backup", Some("/var/lib/vz")),
        storage("shared", "images,iso", Some("/mnt/shared")),
    ];
    let v = check_storages(&storages, &cfg());
    assert_eq!(v.available_disk_storages, vec!["local-lvm".to_string(), "shared".to_string()]);
    assert_eq!(v.available_iso_storages, vec!["local".to_string(), "shared".to_string()]);
    assert!(v.disk_storage.is_valid());
    assert!(v.iso_storage.is_valid());
    assert_eq!(v.iso_storage_path, Some("/var/lib/vz".to_string()));
    let mut c = cfg();
    c.disk_storage = "local".into();
    c.iso_storage = "missing".into();
    let v = check_storages(&storages, &c);
    assert!(matches!(v.disk_storage, FieldStatus::Invalid(ref m) if m == "exists but doesn't support disk images"));
    assert!(matches!(v.iso_storage, FieldStatus::Invalid(ref m) if m == "not found (available: local, shared)"));
    assert_eq!(v.iso_storage_path, None);
}

#[test]
fn iso_listing_and_query() {
    let isos = vec![
        IsoInfo { volid: "local:iso/helios-install-vga.iso".into() },
        IsoInfo { volid: "local:iso/ubuntu.iso".into() },
    ];
    let (st, files) = check_isos(&isos, "helios-install-vga.iso");
    assert!(st.is_valid());
    assert_eq!(files, vec!["helios-install-vga.iso".to_string()]);
    let (st, _) = check_isos(&isos, "helios-install-ttya.iso");
    assert!(matches!(st, FieldStatus::Invalid(ref m) if m == "not found on storage"));
    assert_eq!(
        iso_query_command(&FieldStatus::Valid, &FieldStatus::Valid, &Some("pve".to_string()), &cfg()),
        Some("pvesh get /nodes/pve/storage/local/content --content iso --output-format json".to_string())
    );
    assert_eq!(iso_query_command(&FieldStatus::Valid, &FieldStatus::Unknown, &None, &cfg()), None);
    assert!(matches!(iso_skipped(), FieldStatus::Invalid(ref m) if m == "skipped (node or iso_storage invalid)"));
    let (url, dest) = iso_download_paths("/var/lib/vz", "helios-install-vga.iso");
    assert_eq!(url, "https://pkg.oxide.computer/install/latest/helios-install-vga.iso");
    assert_eq!(dest, "/var/lib/vz/template/iso/helios-install-vga.iso");
}

fn qemu() -> QemuVmConfig {
    QemuVmConfig {
        name: None,
        cores: 2,
        sockets: 1,
        memory: None,
        cpu: None,
        ostype: None,
        sata0: None,
        scsi0: None,
        ide0: None,
        net0: None,
    }
}

#[test]
fn vm_config_is_read() {
    let mut c = qemu();
    assert_eq!(parse_disk_spec(&c), (256, "sata".to_string()));
    assert_eq!(parse_net_spec(&c), ("e1000e".to_string(), "vmbr0".to_string()));
    c.scsi0 = Some("local-lvm:vm-301-disk-0,size=512G".into());
    c.net0 = Some("virtio=BC:24:11:F4:EF:51,bridge=vmbr1,firewall=1".into());
    c.memory = Some("65536".into());
    assert_eq!(parse_disk_spec(&c), (512, "scsi".to_string()));
    assert_eq!(parse_net_spec(&c), ("virtio".to_string(), "vmbr1".to_string()));
    let vm = vm_config_from(301, &c);
    assert_eq!(vm.name, "vm-301");
    assert_eq!(vm.memory_mb, 65536);
    assert_eq!(vm.cpu_type, "host");
    assert_eq!(vm.os_type, "solaris");
    c.sata0 = Some("local:disk,size=abcG".into());
    assert_eq!(parse_disk_spec(&c), (256, "sata".to_string()));
}

use whoah::proxmox::{apply_isos, apply_nodes, apply_storages, nodes_query, storages_query, Listing};

fn hv_config() -> ProxmoxHypervisorConfig {
    ProxmoxHypervisorConfig {
        node: "PVE".into(),
        iso_storage: "local".into(),
        disk_storage: "local-lvm".into(),
        iso_file: "helios-install-vga.iso".into(),
    }
}

fn invalid(f: &FieldStatus) -> &str {
    match f {
        FieldStatus::Invalid(m) => m.as_str(),
        _ => panic!("expected an invalid setting"),
    }
}

#[test]
fn validation_run_all_valid_with_node_fix() {
    let config = hv_config();
    assert_eq!(nodes_query(), "pvesh get /nodes --output-format json");
    assert_eq!(storages_query(), "pvesh get /storage --output-format json");
    let mut v = ProxmoxValidation::unknown();
    assert!(apply_nodes(&mut v, Listing::Listed(vec![node("pve")]), &config));
    assert!(v.node.is_valid());
    assert_eq!(v.node_auto_fix.as_deref(), Some("pve"));
    assert_eq!(v.available_nodes, vec!["pve"]);
    let ss = vec![
        storage("local", "iso,vztmpl,backup", Some("/var/lib/vz")),
        storage("local-lvm", "rootdir,images", None),
    ];
    assert!(apply_storages(&mut v, Listing::Listed(ss), &config));
    assert!(v.disk_storage.is_valid());
    assert!(v.iso_storage.is_valid());
    assert_eq!(v.iso_storage_path.as_deref(), Some("/var/lib/vz"));
    let q = iso_query_command(&v.node, &v.iso_storage, &v.node_auto_fix, &config);
    assert_eq!(
        q.as_deref(),
        Some("pvesh get /nodes/pve/storage/local/content --content iso --output-format json")
    );
    let isos = vec![
        IsoInfo { volid: "local:iso/helios-install-vga.iso".into() },
        IsoInfo { volid: "local:iso/ubuntu.iso".into() },
    ];
    apply_isos(&mut v, Some(Listing::Listed(isos)), &config);
    assert!(v.iso_file.is_valid());
    assert_eq!(v.available_iso_files, vec!["helios-install-vga.iso"]);
}

#[test]
fn validation_run_stops_when_a_query_fails() {
    let config = hv_config();
    let mut v = ProxmoxValidation::unknown();
    assert!(!apply_nodes(&mut v, Listing::QueryFailed("Command failed: timeout".into()), &config));
    assert_eq!(invalid(&v.node), "query failed: Command failed: timeout");
    assert!(matches!(v.disk_storage, FieldStatus::Unknown));

    let mut v = ProxmoxValidation::unknown();
    assert!(apply_nodes(&mut v, Listing::ParseError("expected value".into()), &config));
    assert_eq!(invalid(&v.node), "parse error: expected value");
    assert!(!apply_storages(&mut v, Listing::QueryFailed("refused".into()), &config));
    assert_eq!(invalid(&v.disk_storage), "query failed: refused");
    assert_eq!(invalid(&v.iso_storage), "query failed: refused");
}

#[test]
fn validation_run_skips_isos_after_invalid_storage() {
    let config = hv_config();
    let mut v = ProxmoxValidation::unknown();
    apply_nodes(&mut v, Listing::Listed(vec![node("PVE")]), &config);
    assert!(v.node_auto_fix.is_none());
    apply_storages(&mut v, Listing::ParseError("bad json".into()), &config);
    assert_eq!(invalid(&v.iso_storage), "parse error: bad json");
    let q = iso_query_command(&v.node, &v.iso_storage, &v.node_auto_fix, &config);
    assert!(q.is_none());
    apply_isos(&mut v, None, &config);
    assert_eq!(invalid(&v.iso_file), "skipped (node or iso_storage invalid)");
    let mut w = ProxmoxValidation::unknown();
    apply_isos(&mut w, Some(Listing::QueryFailed("gone".into())), &config);
    assert_eq!(invalid(&w.iso_file), "query failed: gone");
}

#[test]
fn test_storage_classification_by_content() {
    let storages = vec![
        StorageInfo { storage: "local-lvm".into(), content: "images,rootdir".into(), storage_type: "lvmthin".into(), path: None },
        StorageInfo { storage: "local".into(), content: "iso,vztmpl,backup".into(), storage_type: "dir".into(), path: Some("/var/lib/vz".into()) },
        StorageInfo { storage: "shared".into(), content: "images,iso".into(), storage_type: "nfs".into(), path: Some("/mnt/shared".into()) },
    ];
    let v = check_storages(&storages, &cfg());
    assert_eq!(v.available_disk_storages, vec!["local-lvm", "shared"]);
    assert_eq!(v.available_iso_storages, vec!["local", "shared"]);
}
