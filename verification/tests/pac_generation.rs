use proxy_core::pac::{generate_pac, validate_pac, PacError};

const TEMPLATE: &str =
    "var rules = __RULES__;\nvar http = __HTTP__PORT__;\nvar socks = __SOCKS5__PORT__;\nfunction FindProxyForURL(url, host) { return \"DIRECT\"; }\n";

#[test]
fn pac_round_trip_keeps_rules_and_ports() {
    let text = generate_pac("", "!comment\n[section]\nexample.com", TEMPLATE, 8080, 1080).unwrap();
    assert!(text.contains("\"example.com\""));
    assert!(text.contains("8080"));
    assert!(text.contains("1080"));
    assert!(text.contains("function FindProxyForURL"));
    assert!(!text.contains("comment"));
    assert!(!text.contains("section"));
}

#[test]
fn pac_round_trip_with_a_line_that_only_looks_like_a_comment() {
    let text =
        generate_pac("", "<!comment\n[section]\nexample.com", TEMPLATE, 8080, 1080).unwrap();
    assert!(text.contains("\"example.com\""));
    assert!(text.contains("8080"));
    assert!(text.contains("1080"));
    assert!(text.contains("function FindProxyForURL"));
    assert!(!text.contains("section"));
    assert!(text.starts_with("var rules = [\n\"<!comment\",\n\"example.com\"\n];"));
}

#[test]
fn pac_exact_text() {
    let text = generate_pac(
        "  custom.example  \n\n",
        "!x\r\n||a.com\r\n[AutoProxy]\n@@b.org",
        TEMPLATE,
        1,
        65535,
    )
    .unwrap();
    let expected = "var rules = [\n\"custom.example\",\n\"||a.com\",\n\"@@b.org\"\n];\nvar http = 1;\nvar socks = 65535;\nfunction FindProxyForURL(url, host) { return \"DIRECT\"; }\n";
    assert_eq!(text, expected);
}

#[test]
fn pac_without_rules_has_empty_array() {
    let text = generate_pac("", "", TEMPLATE, 0, 10).unwrap();
    assert!(text.starts_with("var rules = [\n\n];\nvar http = 0;\nvar socks = 10;"));
}

#[test]
fn pac_replaces_every_placeholder_occurrence() {
    let template = "__HTTP__PORT__ __HTTP__PORT__ __SOCKS5__PORT__ function FindProxyForURL";
    let text = generate_pac("", "", template, 80, 90).unwrap();
    assert_eq!(text, "80 80 90 function FindProxyForURL");
}

#[test]
fn pac_without_entry_point_is_invalid_data() {
    let result = generate_pac("a.com", "", "var rules = __RULES__;", 8080, 1080);
    assert_eq!(result, Err(PacError::InvalidData));
    assert_eq!(PacError::InvalidData.describe(), "Generated PAC content is invalid.");
}

#[test]
fn pac_rules_may_bring_the_entry_point() {
    // The marker is looked for after substitution.
    let result = generate_pac("function FindProxyForURL", "", "__RULES__", 1, 2);
    assert_eq!(result.unwrap(), "[\n\"function FindProxyForURL\"\n]");
}

#[test]
fn validate_pac_looks_for_the_entry_point() {
    assert!(validate_pac("function FindProxyForURL(url, host) {}"));
    assert!(!validate_pac("function findProxyForURL(url, host) {}"));
    assert!(!validate_pac(""));
}

#[test]
fn pac_trims_unicode_white_space() {
    let text = generate_pac("\u{3000}a.com\u{a0}\t", "", "__RULES__ function FindProxyForURL", 1, 2)
        .unwrap();
    assert_eq!(text, "[\n\"a.com\"\n] function FindProxyForURL");
}
