use whoah::parse::dladm::parse_ether_link;

#[test]
fn test_parse_single_link() {
    assert_eq!(parse_ether_link("e1000g0\n"), Some("e1000g0".to_string()));
}

#[test]
fn test_parse_with_whitespace() {
    assert_eq!(parse_ether_link("  e1000g0  \n"), Some("e1000g0".to_string()));
}

#[test]
fn test_parse_empty() {
    assert_eq!(parse_ether_link(""), None);
    assert_eq!(parse_ether_link("\n"), None);
}

#[test]
fn test_parse_multiple_links() {
    assert_eq!(parse_ether_link("igb0\nigb1\n"), Some("igb0".to_string()));
}

#[test]
fn test_parse_with_console_echo() {
    let output = "root@helios02:~# dladm show-ether -p -o LINK\ne1000g0\n";
    assert_eq!(parse_ether_link(output), Some("e1000g0".to_string()));
}

#[test]
fn test_parse_with_prompt_and_echo() {
    let output = "root@helios02:~# dladm show-ether -p -o LINK\ne1000g0\nroot@helios02:~#\n";
    assert_eq!(parse_ether_link(output), Some("e1000g0".to_string()));
}

#[test]
fn dladm_only_prompt_lines_give_none() {
    assert_eq!(parse_ether_link("root@h:~# dladm\n   \n"), None);
}
