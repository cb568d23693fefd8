use tailscale_keepalived::cycle::{evaluate_cycle, plan_cycle, CycleError, PROBE_BYTE, TARGET_PORT};
use tailscale_keepalived::ipv4::Ipv4;
use tailscale_keepalived::model::{FilterConfig, Roster};
use tailscale_keepalived::roster::{parse_roster, ParseError};
use tailscale_keepalived::summary::summary_line;

fn no_filters() -> FilterConfig {
    FilterConfig {
        with_tags: None,
        without_tags: None,
    }
}

fn with_tags(tags: Vec<&str>) -> FilterConfig {
    FilterConfig {
        with_tags: Some(tags.into_iter().map(|s| s.to_string()).collect()),
        without_tags: None,
    }
}

const TWO_PEERS: &str = r#"{
  "Version": "ignored",
  "Peer": {
    "keyA": {
      "HostName": "a",
      "TailscaleIPs": ["100.64.0.1", "fe80::1"],
      "Online": true,
      "Tags": ["tag:prod"]
    },
    "keyB": {
      "TailscaleIPs": ["100.64.0.2"],
      "Online": false,
      "Tags": []
    }
  }
}"#;

#[test]
fn constants_match_the_wire_contract() {
    assert_eq!(TARGET_PORT, 41641);
    assert_eq!(PROBE_BYTE, b'z');
}

#[test]
fn empty_roster_plans_nothing() {
    let roster = parse_roster(br#"{"Peer": {}}"#).unwrap();
    assert_eq!(roster.peers.len(), 0);
    let plan = plan_cycle(&roster, &no_filters());
    assert_eq!(plan.targets.len(), 0);
    assert_eq!(plan.skipped_offline, 0);
    assert_eq!(plan.skipped_tags, 0);
    assert_eq!(
        summary_line(plan.targets.len(), plan.skipped_offline, plan.skipped_tags),
        "Keepalive cycle: Sent 0 pkts | Skipped: 0 offline, 0 tag-filtered"
    );
}

#[test]
fn missing_peer_member_is_empty_roster() {
    let roster = parse_roster(br#"{"Version": "x"}"#).unwrap();
    assert_eq!(roster.peers.len(), 0);
}

#[test]
fn two_peer_status_without_filters() {
    let roster = parse_roster(TWO_PEERS.as_bytes()).unwrap();
    assert_eq!(roster.peers.len(), 2);
    let plan = plan_cycle(&roster, &no_filters());
    assert_eq!(
        plan.targets,
        vec![Ipv4 {
            a: 100,
            b: 64,
            c: 0,
            d: 1
        }]
    );
    assert_eq!(plan.skipped_offline, 1);
    assert_eq!(plan.skipped_tags, 0);
    assert_eq!(
        summary_line(plan.targets.len(), plan.skipped_offline, plan.skipped_tags),
        "Keepalive cycle: Sent 1 pkts | Skipped: 1 offline, 0 tag-filtered"
    );
}

#[test]
fn two_peer_status_with_unmatched_allow_list() {
    let roster = parse_roster(TWO_PEERS.as_bytes()).unwrap();
    let plan = plan_cycle(&roster, &with_tags(vec!["tag:dev"]));
    assert_eq!(plan.targets.len(), 0);
    assert_eq!(plan.skipped_offline, 1);
    assert_eq!(plan.skipped_tags, 1);
}

#[test]
fn roster_fields_survive_parsing() {
    let roster = parse_roster(TWO_PEERS.as_bytes()).unwrap();
    let (key_a, rec_a) = roster
        .peers
        .iter()
        .find(|(k, _)| k.as_str() == "keyA")
        .expect("keyA parsed");
    assert_eq!(key_a.as_str(), "keyA");
    assert_eq!(rec_a.ips, vec!["100.64.0.1".to_string(), "fe80::1".to_string()]);
    assert_eq!(rec_a.online, Some(true));
    assert_eq!(&rec_a.tags, &Some(vec!["tag:prod".to_string()]));
    let (_, rec_b) = roster
        .peers
        .iter()
        .find(|(k, _)| k.as_str() == "keyB")
        .expect("keyB parsed");
    assert_eq!(rec_b.online, Some(false));
    assert_eq!(&rec_b.tags, &Some(Vec::new()));
}

#[test]
fn optional_fields_default_as_documented() {
    let doc = br#"{"Peer": {"k": {"TailscaleIPs": ["100.64.0.9"], "Online": null, "Tags": null}}}"#;
    let roster = parse_roster(doc).unwrap();
    assert_eq!(roster.peers[0].1.online, None);
    assert!(roster.peers[0].1.tags.is_none());
    let plan = plan_cycle(&roster, &no_filters());
    assert_eq!(plan.targets.len(), 0);
    assert_eq!(plan.skipped_offline, 1);

    let doc = br#"{"Peer": {"k": {"TailscaleIPs": ["100.64.0.9"]}}}"#;
    let roster = parse_roster(doc).unwrap();
    assert_eq!(roster.peers[0].1.online, None);
    assert!(roster.peers[0].1.tags.is_none());
}

fn parse_failure(doc: &[u8]) -> Option<ParseError> {
    parse_roster(doc).err()
}

#[test]
fn parse_error_taxonomy() {
    assert_eq!(parse_failure(&[0xff, 0xfe, 0x80]), Some(ParseError::Utf8));
    assert_eq!(parse_failure(b"not json {{"), Some(ParseError::Json));
    assert_eq!(parse_failure(b"[1, 2]"), Some(ParseError::Shape));
    assert_eq!(parse_failure(b"17"), Some(ParseError::Shape));
    assert_eq!(parse_failure(br#"{"Peer": 5}"#), Some(ParseError::Shape));
    assert_eq!(parse_failure(br#"{"Peer": null}"#), Some(ParseError::Shape));
    assert_eq!(
        parse_failure(br#"{"Peer": {"k": {"Online": true}}}"#),
        Some(ParseError::Shape)
    );
    assert_eq!(
        parse_failure(br#"{"Peer": {"k": {"TailscaleIPs": [5]}}}"#),
        Some(ParseError::Shape)
    );
    assert_eq!(
        parse_failure(br#"{"Peer": {"k": {"TailscaleIPs": ["1.2.3.4"], "Online": 7}}}"#),
        Some(ParseError::Shape)
    );
    assert_eq!(
        parse_failure(br#"{"Peer": {"k": {"TailscaleIPs": ["1.2.3.4"], "Tags": "x"}}}"#),
        Some(ParseError::Shape)
    );
}

#[test]
fn failed_command_abandons_the_cycle() {
    let r = evaluate_cycle(false, b"", &no_filters());
    assert_eq!(r.map(|_| ()), Err(CycleError::Command));
    assert_eq!(CycleError::Command.describe(), "Tailscale command failed");
}

#[test]
fn malformed_output_abandons_the_cycle() {
    let r = evaluate_cycle(true, b"garbage }", &no_filters());
    assert_eq!(r.map(|_| ()), Err(CycleError::Parse(ParseError::Json)));
}

#[test]
fn cycle_error_taxonomy_and_descriptions() {
    let c = no_filters();
    let r = evaluate_cycle(true, &[0xff, 0xfe], &c);
    assert_eq!(r.map(|_| ()), Err(CycleError::Parse(ParseError::Utf8)));
    let r = evaluate_cycle(true, b"[1, 2]", &c);
    assert_eq!(r.map(|_| ()), Err(CycleError::Parse(ParseError::Shape)));
    assert_eq!(
        CycleError::Parse(ParseError::Json).describe(),
        "status output is not well-formed JSON"
    );
    assert_eq!(
        CycleError::Parse(ParseError::Utf8).describe(),
        "status output is not valid UTF-8"
    );
    assert_eq!(
        CycleError::Parse(ParseError::Shape).describe(),
        "status JSON has an unexpected shape"
    );
}

#[test]
fn good_output_yields_a_plan() {
    let plan = evaluate_cycle(true, TWO_PEERS.as_bytes(), &no_filters()).unwrap();
    assert_eq!(plan.targets.len(), 1);
    assert_eq!(plan.skipped_offline, 1);
    assert_eq!(plan.skipped_tags, 0);
}

#[test]
fn unparsable_address_strings_send_nothing() {
    let doc = br#"{"Peer": {"k": {
        "TailscaleIPs": ["fe80::1", "bogus", "300.1.2.3", ""],
        "Online": true
    }}}"#;
    let roster: Roster = parse_roster(doc).unwrap();
    let plan = plan_cycle(&roster, &no_filters());
    assert_eq!(plan.targets.len(), 0);
    assert_eq!(plan.skipped_offline, 0);
    assert_eq!(plan.skipped_tags, 0);
}
