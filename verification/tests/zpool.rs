use whoah::parse::zpool::{parse_oxp_pools, parse_rpool, parse_zpool_list};

const SAMPLE_OUTPUT: &str = "\
rpool\t267544698880\t82530148352\t185014550528\t-\t-\t25\t30\t1.00\tONLINE\t-
oxp_abc123\t42949672960\t16267415552\t26682257408\t-\t-\t10\t38\t1.00\tONLINE\t-
oxp_def456\t42949672960\t13314398208\t29635274752\t-\t-\t8\t31\t1.00\tONLINE\t-
oxp_ghi789\t42949672960\t12470607872\t30479065088\t-\t-\t7\t29\t1.00\tONLINE\t-";

#[test]
fn test_parse_zpool_list() {
    let pools = parse_zpool_list(SAMPLE_OUTPUT).unwrap();
    assert_eq!(pools.len(), 4);
    assert_eq!(pools[0].name, "rpool");
    assert_eq!(pools[0].capacity_pct, 30);
    assert_eq!(pools[0].health, "ONLINE");
}

#[test]
fn test_parse_rpool() {
    let rpool = parse_rpool(SAMPLE_OUTPUT).unwrap().unwrap();
    assert_eq!(rpool.name, "rpool");
    assert_eq!(rpool.size_bytes, 267544698880);
}

#[test]
fn test_parse_oxp_pools() {
    let oxp = parse_oxp_pools(SAMPLE_OUTPUT).unwrap();
    assert_eq!(oxp.len(), 3);
    assert!(oxp.iter().all(|p| p.name.starts_with("oxp_")));
    assert_eq!(oxp[0].capacity_pct, 38);
}

#[test]
fn zpool_test_empty_output() {
    let pools = parse_zpool_list("").unwrap();
    assert!(pools.is_empty());
}

#[test]
fn zpool_fragmentation_and_errors() {
    let pools = parse_zpool_list(SAMPLE_OUTPUT).unwrap();
    assert_eq!(pools[0].fragmentation_pct, Some(25));
    assert_eq!(pools[1].allocated_bytes, 16267415552);
    assert!(parse_zpool_list("rpool\tbig\t1\t2\t-\t-\t3\t4\t1.0\tONLINE").is_err());
    assert!(parse_rpool("oxp_a\t1\t1\t0\t-\t-\t-\t50\t1\tONLINE").unwrap().is_none());
    assert!(parse_zpool_list("p\t1\t1\t0\t-\t-\t-\t50%\t1\tONLINE").is_err());
}
