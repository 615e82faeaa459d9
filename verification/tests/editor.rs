use whoah::config::{GlobalConfig, HypervisorType};
use whoah::editor::{
    array_items, config_file_name, edit_target, edit_value, hypervisor_message, migrate_precheck,
    migrated_global, new_hypervisor, renamed_deployment_text, set_config_field, set_hypervisor_field,
    split_field_path, EditTarget, FieldKind,
    FieldValue,
};

fn strings(v: &[&str]) -> Vec<String> {
    v.iter().map(|s| s.to_string()).collect()
}

#[test]
fn config_files() {
    assert_eq!(config_file_name("deployment").unwrap(), "deployment.toml");
    assert_eq!(config_file_name("build").unwrap(), "build.toml");
    assert_eq!(config_file_name("monitoring").unwrap(), "monitoring.toml");
    assert_eq!(config_file_name("state").unwrap_err(), "Unknown config file: state");
}

#[test]
fn field_paths() {
    let p = split_field_path("network.internal_services_range.first");
    assert_eq!(p.parents, vec!["network", "internal_services_range"]);
    assert_eq!(p.field, "first");
    let top = split_field_path("name");
    assert!(top.parents.is_empty());
    assert_eq!(top.field, "name");
}

#[test]
fn walk_plans() {
    let parents = strings(&["network", "internal_services_range"]);
    match edit_target(&parents, 2) {
        EditTarget::Tables { parents } => assert_eq!(parents, vec!["network", "internal_services_range"]),
        _ => panic!("expected tables"),
    }
    match edit_target(&parents, 1) {
        EditTarget::Inline { regular, inline_key, rest } => {
            assert_eq!(regular, vec!["network"]);
            assert_eq!(inline_key, "internal_services_range");
            assert!(rest.is_empty());
        }
        _ => panic!("expected an inline table"),
    }
}

#[test]
fn values_keep_their_kind() {
    assert!(matches!(edit_value(FieldKind::Integer, false, "vdev_count", "5"), Ok(FieldValue::Integer(5))));
    assert!(matches!(edit_value(FieldKind::Integer, true, "vmid", "-3"), Ok(FieldValue::Integer(-3))));
    match edit_value(FieldKind::Integer, false, "vdev_count", "five") {
        Err(e) => assert_eq!(e, "'vdev_count' must be a number, got 'five'"),
        Ok(_) => panic!("expected an error"),
    }
    match edit_value(FieldKind::Array, false, "external_dns_ips", " 10.0.0.1, ,10.0.0.2 ") {
        Ok(FieldValue::Array(items)) => assert_eq!(items, vec!["10.0.0.1", "10.0.0.2"]),
        _ => panic!("expected an array"),
    }
    match edit_value(FieldKind::Array, true, "x", "a,b") {
        Ok(FieldValue::Text(t)) => assert_eq!(t, "a,b"),
        _ => panic!("expected text"),
    }
    match edit_value(FieldKind::Other, false, "gateway", "10.0.0.1") {
        Ok(FieldValue::Text(t)) => assert_eq!(t, "10.0.0.1"),
        _ => panic!("expected text"),
    }
    assert!(array_items("").is_empty());
}

#[test]
fn rename_rules() {
    assert_eq!(migrate_precheck("a", "b", false, false).unwrap_err(), "Deployment 'a' not found");
    assert_eq!(migrate_precheck("a", "b", true, true).unwrap_err(), "Deployment 'b' already exists");
    assert!(migrate_precheck("a", "b", true, false).is_ok());
    let g = GlobalConfig { default_deployment: Some("a".to_string()) };
    assert_eq!(migrated_global(&g, "a", "b").unwrap().default_deployment.as_deref(), Some("b"));
    assert!(migrated_global(&g, "c", "b").is_none());
    assert!(migrated_global(&GlobalConfig::default(), "a", "b").is_none());
}

#[test]
fn test_new_hypervisor_defaults() {
    let h = new_hypervisor("test", HypervisorType::Proxmox);
    assert_eq!(h.hypervisor.name, "test");
    assert_eq!(h.hypervisor.hypervisor_type, HypervisorType::Proxmox);
    assert!(h.credentials.host.is_empty());
    assert_eq!(h.credentials.ssh_user, "root");
    let p = h.proxmox.unwrap();
    assert_eq!(p.node, "PVE");
    assert_eq!(p.disk_storage, "local-lvm");
    assert!(new_hypervisor("k", HypervisorType::LinuxKvm).proxmox.is_none());
    assert_eq!(hypervisor_message("lab", "already exists"), "Hypervisor 'lab' already exists");
}

#[test]
fn test_toml_edit_string_field() {
    let toml_str = "[network]\ngateway = \"192.168.1.1\"\ninfra_ip = \"192.168.1.50\"\n";
    let result = set_config_field(toml_str, "deployment.toml", "network.gateway", "10.0.0.1").unwrap();
    assert!(result.contains("gateway = \"10.0.0.1\""));
    assert!(result.contains("infra_ip = \"192.168.1.50\""));
}

#[test]
fn test_toml_edit_integer_preserved() {
    let toml_str = "[omicron.overrides]\ncockroachdb_redundancy = 3\nvdev_count = 3\n";
    let result =
        set_config_field(toml_str, "build.toml", "omicron.overrides.vdev_count", "5").unwrap();
    assert!(!result.contains("vdev_count = \"5\""));
    assert!(result.contains("vdev_count = 5"));
    assert!(result.contains("cockroachdb_redundancy = 3"));
}

#[test]
fn test_toml_edit_nested_path() {
    let toml_str = "[hypervisor]\nref = \"proxmox-lab\"\n\n[hypervisor.vm]\nvmid = 301\ncores = 2\n";
    let result = set_config_field(toml_str, "deployment.toml", "hypervisor.vm.cores", "4").unwrap();
    assert!(result.contains("cores = 4"));
    assert!(result.contains("vmid = 301"));
}

#[test]
fn test_toml_edit_inline_table() {
    let toml_str = "[network]\ngateway = \"192.168.2.1\"\ninternal_services_range = { first = \"192.168.2.70\", last = \"192.168.2.79\" }\ninstance_pool_range = { first = \"192.168.2.81\", last = \"192.168.2.90\" }\n";
    let result = set_config_field(
        toml_str,
        "deployment.toml",
        "network.internal_services_range.first",
        "10.0.0.1",
    )
    .unwrap();
    assert!(result.contains("10.0.0.1"));
    assert!(result.contains("last = \"192.168.2.79\""));
    assert!(result.contains("gateway = \"192.168.2.1\""));
}

#[test]
fn test_inline_table_navigation() {
    let toml_str = "[network]\ngateway = \"192.168.2.1\"\ninternal_services_range = { first = \"192.168.2.40\", last = \"192.168.2.49\" }\ninstance_pool_range = { first = \"192.168.2.51\", last = \"192.168.2.60\" }\n";
    let result = set_config_field(
        toml_str,
        "deployment.toml",
        "network.internal_services_range.first",
        "10.0.0.99",
    )
    .unwrap();
    assert!(result.contains("10.0.0.99"));
    assert!(result.contains("last = \"192.168.2.49\""));
    assert!(result.contains("gateway = \"192.168.2.1\""));
    assert!(result.contains("first = \"192.168.2.51\""));
}

#[test]
fn test_update_hypervisor_field_string() {
    let toml_str = "[hypervisor]\nname = \"test-hyp\"\ntype = \"proxmox\"\n\n[credentials]\nhost = \"10.0.0.1\"\nssh_user = \"root\"\n\n[proxmox]\nnode = \"PVE\"\niso_storage = \"local\"\ndisk_storage = \"local-lvm\"\niso_file = \"helios.iso\"\n";
    let result = set_config_field(toml_str, "test-hyp.toml", "credentials.host", "192.168.2.5").unwrap();
    assert!(result.contains("host = \"192.168.2.5\""));
    assert!(result.contains("ssh_user = \"root\""));
    assert!(result.contains("node = \"PVE\""));
    let config: toml::Value = toml::from_str(&result).unwrap();
    assert_eq!(config["credentials"]["host"].as_str(), Some("192.168.2.5"));
}

#[test]
fn config_field_edit_errors() {
    let e = set_config_field("[network\n", "deployment.toml", "network.gateway", "x").unwrap_err();
    assert!(e.starts_with("Failed to parse deployment.toml: "));
    let e = set_config_field("[a]\nn = 3\n", "build.toml", "a.n", "three").unwrap_err();
    assert_eq!(e, "'n' must be a number, got 'three'");
    let e = set_config_field("[a]\nx = 1\n[[a.r]]\nb = 1\n", "build.toml", "a.r.first", "x").unwrap_err();
    assert_eq!(e, "'r' is not a value");
    let e = set_config_field("[a]\nr = \"s\"\n", "build.toml", "a.r.first", "x").unwrap_err();
    assert_eq!(e, "'r' is not an inline table");
    let e = set_config_field("[a]\nr = { b = 1 }\n", "build.toml", "a.r.c.d", "x").unwrap_err();
    assert_eq!(e, "Key 'c' not found in inline table");
    let e = set_config_field("[a]\nr = { b = 1 }\n", "build.toml", "a.r.b.d", "x").unwrap_err();
    assert_eq!(e, "'b' is not an inline table");
    let e = set_config_field("[a]\n", "build.toml", "a.missing.f", "x").unwrap_err();
    assert_eq!(e, "Key 'missing' not found");
}

#[test]
fn config_field_edit_writes_arrays_and_new_fields() {
    let out = set_config_field("[a]\nxs = [\"p\"]\n", "build.toml", "a.xs", " q, ,r ").unwrap();
    assert!(out.contains("xs = [\"q\", \"r\"]"));
    let out = set_config_field("[a]\n", "build.toml", "a.fresh", "v").unwrap();
    assert!(out.contains("fresh = \"v\""));
    let out = set_config_field("[a]\nr = { n = 1, xs = [\"p\"] }\n", "build.toml", "a.r.xs", "q,r").unwrap();
    assert!(out.contains("xs = \"q,r\""));
    let out = set_config_field("[a]\nr = { n = 1 }\n", "build.toml", "a.r.n", "7").unwrap();
    assert!(out.contains("n = 7"));
}

#[test]
fn hypervisor_field_edit() {
    let text = "[hypervisor]\nname = \"lab\"\n\n[credentials]\nhost = \"10.0.0.1\"\nssh_port = 22\n";
    let out = set_hypervisor_field(text, "lab.toml", "credentials.host", "192.168.2.5").unwrap();
    assert!(out.contains("host = \"192.168.2.5\""));
    assert!(out.contains("name = \"lab\""));
    let out = set_hypervisor_field(text, "lab.toml", "credentials.ssh_port", "2222").unwrap();
    assert!(out.contains("ssh_port = 2222"));
    let e = set_hypervisor_field(text, "lab.toml", "credentials.ssh_port", "many").unwrap_err();
    assert_eq!(e, "'ssh_port' must be a number, got 'many'");
    // Missing tables are made on the way.
    let out = set_hypervisor_field(text, "lab.toml", "proxmox.node", "pve").unwrap();
    let v: toml::Value = toml::from_str(&out).unwrap();
    assert_eq!(v["proxmox"]["node"].as_str(), Some("pve"));
    let e = set_hypervisor_field(text, "lab.toml", "hypervisor.name.first", "x").unwrap_err();
    assert_eq!(e, "Expected 'name' to be a table");
    let e = set_hypervisor_field("[x\n", "lab.toml", "a", "b").unwrap_err();
    assert!(e.starts_with("Failed to parse lab.toml: "));
}

#[test]
fn renaming_sets_the_deployment_name() {
    let text = "[deployment]\nname = \"old\"\n\n[network]\ngateway = \"10.0.0.1\"\n";
    let out = renamed_deployment_text(text, "new").unwrap();
    assert!(out.contains("name = \"new\""));
    assert!(out.contains("gateway = \"10.0.0.1\""));
    let other = "[network]\ngateway = \"10.0.0.1\"\n";
    assert_eq!(renamed_deployment_text(other, "new").unwrap(), other);
    let e = renamed_deployment_text("[x\n", "new").unwrap_err();
    assert!(e.starts_with("Failed to parse deployment.toml: "));
}
