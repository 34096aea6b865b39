use auto_attach::decimal::{parse_i32, parse_u32};
use auto_attach::status::{
    binding_matches, bound_port_list, check_attached, BindingFile, ProbeConfig, ProbeError,
};
use auto_attach::text::{chars_of, split_lines, split_words};

const HEADER: &str = "hub port sta spd dev      sockfd local_busid\n";

fn config() -> ProbeConfig {
    ProbeConfig {
        status_path: "/test/status".to_string(),
        port_dir: "/test/ports".to_string(),
    }
}

fn binding(port: u32, content: &str) -> BindingFile {
    BindingFile { port, content: content.to_string() }
}

fn chars(s: &str) -> Vec<char> {
    s.chars().collect()
}

#[test]
fn probe_skips_unbound_row_and_finds_bound_port() {
    let status = format!(
        "{}hs  0000 006 002 00040002 000000 1-1\nhs  0001 004 000 00000000 000003 0-0\n",
        HEADER
    );
    let files = vec![binding(1, "192.168.1.5 3240 2-1\n")];
    let r = check_attached(&config(), Some(&status), &files, "192.168.1.5", "2-1");
    assert!(matches!(r, Ok(true)));
    assert_eq!(bound_port_list(&status), vec![1]);
}

#[test]
fn probe_short_row_does_not_hide_later_match() {
    let status = format!("{}hs 0000 006\nhs  0002 004 000 00000000 000005 0-0\n", HEADER);
    let files = vec![binding(2, "10.0.0.1 3240 4-2")];
    let r = check_attached(&config(), Some(&status), &files, "10.0.0.1", "4-2");
    assert!(matches!(r, Ok(true)));
}

#[test]
fn probe_missing_status_is_unavailable() {
    let r = check_attached(&config(), None, &Vec::new(), "10.0.0.1", "4-2");
    match r {
        Err(ProbeError::Unavailable { path }) => assert_eq!(path, "/test/status"),
        _ => panic!("expected the status table to be reported missing"),
    }
    let e = ProbeError::Unavailable { path: "/test/status".to_string() };
    assert_eq!(e.message(), "Status file not found: /test/status");
}

#[test]
fn probe_no_match_is_false() {
    let status = format!("{}hs  0001 004 000 00000000 000003 0-0\n", HEADER);
    let files = vec![binding(1, "192.168.1.5 3240 2-2")];
    let r = check_attached(&config(), Some(&status), &files, "192.168.1.5", "2-1");
    assert!(matches!(r, Ok(false)));
    let r = check_attached(&config(), Some(&status), &files, "192.168.1.6", "2-2");
    assert!(matches!(r, Ok(false)));
}

#[test]
fn probe_missing_binding_file_is_skipped() {
    let status = format!(
        "{}hs  0001 004 000 00000000 000003 0-0\nhs  0007 004 000 00000000 000004 0-0\n",
        HEADER
    );
    let files = vec![binding(7, "192.168.1.5 3240 2-1")];
    let r = check_attached(&config(), Some(&status), &files, "192.168.1.5", "2-1");
    assert!(matches!(r, Ok(true)));
}

#[test]
fn probe_short_binding_file_is_skipped() {
    let status = format!(
        "{}hs  0001 004 000 00000000 000003 0-0\nhs  0003 004 000 00000000 000004 0-0\n",
        HEADER
    );
    let files = vec![binding(1, "192.168.1.5 3240"), binding(3, "192.168.1.5 3240 2-1")];
    let r = check_attached(&config(), Some(&status), &files, "192.168.1.5", "2-1");
    assert!(matches!(r, Ok(true)));
}

#[test]
fn probe_header_only_and_empty_are_false() {
    let r = check_attached(&config(), Some(HEADER), &Vec::new(), "a", "b");
    assert!(matches!(r, Ok(false)));
    let r = check_attached(&config(), Some(""), &Vec::new(), "a", "b");
    assert!(matches!(r, Ok(false)));
    let first_line_only = "hs  0001 004 000 00000000 000003 0-0";
    let files = vec![binding(1, "a 1 b")];
    let r = check_attached(&config(), Some(first_line_only), &files, "a", "b");
    assert!(matches!(r, Ok(false)));
}

#[test]
fn bound_ports_skip_bad_numbers() {
    let status = format!(
        "{}hs 00x1 004 000 0 000003 0-0\nhs 0004 004 000 0 zz 0-0\nhs 0005 004 000 0 -000 0-0\nhs 0006 004 000 0 -2 0-0\nhs 0009 004 000 0 +1 0-0 extra\n",
        HEADER
    );
    assert_eq!(bound_port_list(&status), vec![6, 9]);
}

#[test]
fn port_file_path_is_unpadded() {
    let c = config();
    assert_eq!(c.port_file_path(1), "/test/ports/port1");
    assert_eq!(c.port_file_path(0), "/test/ports/port0");
    assert_eq!(c.port_file_path(4294967295), "/test/ports/port4294967295");
    let s = ProbeConfig::standard();
    assert_eq!(s.status_path, "/sys/devices/platform/vhci_hcd.0/status");
    assert_eq!(s.port_file_path(12), "/var/run/vhci_hcd/port12");
}

#[test]
fn binding_match_rules() {
    assert!(binding_matches("172.21.0.1 3240 4-2\n", "172.21.0.1", "4-2"));
    assert!(binding_matches("  172.21.0.1\t3240   4-2 extra", "172.21.0.1", "4-2"));
    assert!(!binding_matches("172.21.0.1 3240", "172.21.0.1", "3240"));
    assert!(!binding_matches("", "", ""));
    assert!(!binding_matches("172.21.0.1 3240 4-2", "172.21.0.10", "4-2"));
    assert!(!binding_matches("172.21.0.1 3240 4-2", "172.21.0.1", "4-"));
}

#[test]
fn decimal_parsing_is_base_ten() {
    assert_eq!(parse_u32(&chars("0001")), Some(1));
    assert_eq!(parse_u32(&chars("010")), Some(10));
    assert_eq!(parse_u32(&chars("+7")), Some(7));
    assert_eq!(parse_u32(&chars("4294967295")), Some(4294967295));
    assert_eq!(parse_u32(&chars("4294967296")), None);
    assert_eq!(parse_u32(&chars("-1")), None);
    assert_eq!(parse_u32(&chars("")), None);
    assert_eq!(parse_u32(&chars("+")), None);
    assert_eq!(parse_u32(&chars("1a")), None);
    assert_eq!(parse_i32(&chars("000003")), Some(3));
    assert_eq!(parse_i32(&chars("000000")), Some(0));
    assert_eq!(parse_i32(&chars("-0")), Some(0));
    assert_eq!(parse_i32(&chars("-2147483648")), Some(-2147483648));
    assert_eq!(parse_i32(&chars("2147483647")), Some(2147483647));
    assert_eq!(parse_i32(&chars("2147483648")), None);
    assert_eq!(parse_i32(&chars("-2147483649")), None);
    assert_eq!(parse_i32(&chars("-")), None);
    assert_eq!(parse_i32(&chars("0x10")), None);
}

#[test]
fn text_splitting() {
    let v = chars_of("a\u{3000}b  c\n");
    assert_eq!(split_words(&v), vec![vec!['a'], vec!['b'], vec!['c']]);
    assert_eq!(split_words(&chars("   ")), Vec::<Vec<char>>::new());
    assert_eq!(
        split_lines(&chars("h\nx y\n")),
        vec![vec!['h'], vec!['x', ' ', 'y'], vec![]]
    );
}
