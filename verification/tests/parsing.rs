use sidecar_core::parse::has_port_prefix;
use sidecar_core::parse::parse_port_line;

#[test]
fn well_formed_simple() {
    assert_eq!(parse_port_line(b"PORT:4321"), Some(4321));
    assert_eq!(parse_port_line(b"PORT:8080"), Some(8080));
}

#[test]
fn whitespace_around_number() {
    assert_eq!(parse_port_line(b"PORT: 4321"), Some(4321));
    assert_eq!(parse_port_line(b"PORT:4321 "), Some(4321));
    assert_eq!(parse_port_line(b"PORT:\t 4321 \r"), Some(4321));
    assert_eq!(parse_port_line(b"PORT:   80   "), Some(80));
}

#[test]
fn sixteen_bit_bounds() {
    assert_eq!(parse_port_line(b"PORT:0"), Some(0));
    assert_eq!(parse_port_line(b"PORT:65535"), Some(65535));
    assert_eq!(parse_port_line(b"PORT:65536"), None);
    assert_eq!(parse_port_line(b"PORT:99999"), None);
    assert_eq!(parse_port_line(b"PORT:1000000"), None);
}

#[test]
fn non_numeric_remainder() {
    assert_eq!(parse_port_line(b"PORT:abc"), None);
    assert_eq!(parse_port_line(b"PORT:12a4"), None);
    assert_eq!(parse_port_line(b"PORT:"), None);
    assert_eq!(parse_port_line(b"PORT:   "), None);
    assert_eq!(parse_port_line(b"PORT:12 34"), None);
}

#[test]
fn sign_handling() {
    // Like the standard integer parser, one leading plus sign is accepted.
    assert_eq!(parse_port_line(b"PORT:+80"), Some(80));
    assert_eq!(parse_port_line(b"PORT:++80"), None);
    assert_eq!(parse_port_line(b"PORT:+"), None);
    assert_eq!(parse_port_line(b"PORT:-1"), None);
}

#[test]
fn leading_zeros_are_accepted() {
    assert_eq!(parse_port_line(b"PORT:00080"), Some(80));
    assert_eq!(parse_port_line(b"PORT:000000000000065535"), Some(65535));
    assert_eq!(parse_port_line(b"PORT:000000000000065536"), None);
}

#[test]
fn prefix_is_case_sensitive_and_anchored() {
    assert_eq!(parse_port_line(b"port:80"), None);
    assert_eq!(parse_port_line(b"Port:80"), None);
    assert_eq!(parse_port_line(b" PORT:80"), None);
    assert_eq!(parse_port_line(b"XPORT:80"), None);
    assert_eq!(parse_port_line(b"Backend: booting"), None);
    assert_eq!(parse_port_line(b""), None);
    assert_eq!(parse_port_line(b"PORT"), None);
}

#[test]
fn repeated_prefix_is_not_a_number() {
    assert_eq!(parse_port_line(b"PORT:PORT:80"), None);
}

#[test]
fn prefix_check() {
    assert!(has_port_prefix(b"PORT:"));
    assert!(has_port_prefix(b"PORT:4321"));
    assert!(has_port_prefix(b"PORT:abc"));
    assert!(!has_port_prefix(b"PORT"));
    assert!(!has_port_prefix(b"port:80"));
    assert!(!has_port_prefix(b""));
}
