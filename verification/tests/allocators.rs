use nidavellir::docker::{get_available_port, get_network_base, parse_octet, PORT_WINDOW};
use nidavellir::error::Error;

fn subnets(list: &[&str]) -> Vec<String> {
    list.iter().map(|s| s.to_string()).collect()
}

#[test]
fn network_base_fills_gap() {
    let existing = subnets(&["172.16.0.0/16", "172.17.0.0/16", "172.19.0.0/16"]);
    assert_eq!(get_network_base(&existing).unwrap(), "172.18");
}

#[test]
fn network_base_appends_when_no_gap() {
    let existing = subnets(&["172.16.0.0/16", "172.17.0.0/16", "172.18.0.0/16"]);
    assert_eq!(get_network_base(&existing).unwrap(), "172.19");
}

#[test]
fn network_base_single_entry() {
    let existing = subnets(&["172.5.0.0/16"]);
    assert_eq!(get_network_base(&existing).unwrap(), "172.6");
}

#[test]
fn network_base_without_baseline_fails() {
    let existing: Vec<String> = Vec::new();
    assert_eq!(get_network_base(&existing), Err(Error::NoBaselineNetwork));
}

#[test]
fn network_base_skips_foreign_subnets() {
    let existing = subnets(&["10.0.0.0/8", "junk", "172.20.0.0/16"]);
    assert_eq!(get_network_base(&existing).unwrap(), "172.21");
}

#[test]
fn network_base_ignores_duplicates() {
    let existing = subnets(&["172.16.0.0/16", "172.17.0.0/16", "172.17.0.0/16"]);
    assert_eq!(get_network_base(&existing).unwrap(), "172.18");
}

#[test]
fn parse_octet_reads_the_second_octet() {
    assert_eq!(parse_octet("172.16.0.0/16"), Some(16));
    assert_eq!(parse_octet("172.0016.0.0/16"), Some(16));
    assert_eq!(parse_octet("172.65535.0.0/16"), Some(65535));
}

#[test]
fn parse_octet_rejects_other_shapes() {
    assert_eq!(parse_octet("10.16.0.0/8"), None);
    assert_eq!(parse_octet("172.66000.0.0/16"), None);
    assert_eq!(parse_octet("172.1a.0.0/16"), None);
    assert_eq!(parse_octet("172."), None);
}

#[test]
fn port_scan_returns_first_free_port_after_occupied_ones() {
    let mut free = vec![false; PORT_WINDOW];
    free[2] = true;
    free[3] = true;
    assert_eq!(get_available_port(9000, &free), Ok(9002));
}

#[test]
fn port_scan_fails_when_base_port_is_free() {
    let mut free = vec![false; PORT_WINDOW];
    free[0] = true;
    assert_eq!(get_available_port(9000, &free), Err(Error::PortRangeExhausted));
}

#[test]
fn port_scan_fails_when_window_is_exhausted() {
    let free = vec![false; PORT_WINDOW];
    assert_eq!(get_available_port(9000, &free), Err(Error::PortRangeExhausted));
}
