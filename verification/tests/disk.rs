use whoah::parse::disk::parse_vdev_files;

#[test]
fn test_parse_vdev_files() {
    let output = " 24313856 /var/tmp/u2_0.vdev\n\
                    21102592 /var/tmp/u2_1.vdev\n\
                    21692416 /var/tmp/u2_2.vdev\n";
    let files = parse_vdev_files(output).unwrap();
    assert_eq!(files.len(), 3);
    assert_eq!(files[0].path, "/var/tmp/u2_0.vdev");
    assert_eq!(files[0].size_blocks, 24313856);
    assert_eq!(files[0].size_bytes, 24313856 * 512);
}

#[test]
fn test_no_vdev_files() {
    let output = "ls: /var/tmp/*.vdev: No such file or directory\n";
    let files = parse_vdev_files(output).unwrap();
    assert!(files.is_empty());
}

#[test]
fn disk_test_empty_output() {
    let files = parse_vdev_files("").unwrap();
    assert!(files.is_empty());
}

#[test]
fn vdev_unreadable_block_count_counts_as_zero() {
    let files = parse_vdev_files("abc /var/tmp/x.vdev\n").unwrap();
    assert_eq!(files.len(), 1);
    assert_eq!(files[0].size_blocks, 0);
    assert_eq!(files[0].size_bytes, 0);
}
