use tailscale_keepalived::roster::ParseError;
use tailscale_keepalived::summary::{format_u64, summary_line};

#[test]
fn decimal_formatting_is_exact() {
    assert_eq!(format_u64(0), "0");
    assert_eq!(format_u64(7), "7");
    assert_eq!(format_u64(10), "10");
    assert_eq!(format_u64(255), "255");
    assert_eq!(format_u64(41641), "41641");
    assert_eq!(format_u64(u64::MAX), "18446744073709551615");
}

#[test]
fn summary_line_matches_the_log_format() {
    assert_eq!(
        summary_line(3, 1, 2),
        "Keepalive cycle: Sent 3 pkts | Skipped: 1 offline, 2 tag-filtered"
    );
    assert_eq!(
        summary_line(0, 0, 0),
        "Keepalive cycle: Sent 0 pkts | Skipped: 0 offline, 0 tag-filtered"
    );
}

#[test]
fn parse_errors_describe_themselves() {
    assert_eq!(ParseError::Utf8.describe(), "status output is not valid UTF-8");
    assert_eq!(
        ParseError::Json.describe(),
        "status output is not well-formed JSON"
    );
    assert_eq!(
        ParseError::Shape.describe(),
        "status JSON has an unexpected shape"
    );
}
