use tailscale_keepalived::filter::{accepts, classify, Verdict};
use tailscale_keepalived::model::{FilterConfig, PeerRecord};

fn peer(online: Option<bool>, tags: Option<Vec<&str>>) -> PeerRecord {
    PeerRecord {
        ips: Vec::new(),
        online,
        tags: tags.map(|t| t.into_iter().map(|s| s.to_string()).collect()),
    }
}

fn config(with: Option<Vec<&str>>, without: Option<Vec<&str>>) -> FilterConfig {
    FilterConfig {
        with_tags: with.map(|t| t.into_iter().map(|s| s.to_string()).collect()),
        without_tags: without.map(|t| t.into_iter().map(|s| s.to_string()).collect()),
    }
}

#[test]
fn offline_false_never_probed() {
    let c = config(Some(vec!["tag:prod"]), Some(vec!["tag:test"]));
    let p = peer(Some(false), Some(vec!["tag:prod"]));
    assert!(!accepts(&p, &c));
    assert_eq!(classify(&p, &c), Verdict::SkipOffline);
}

#[test]
fn offline_absent_never_probed() {
    let p = peer(None, Some(vec!["tag:prod"]));
    assert!(!accepts(&p, &config(None, None)));
    assert_eq!(
        classify(&p, &config(Some(vec!["tag:prod"]), None)),
        Verdict::SkipOffline
    );
}

#[test]
fn online_no_filters_probed() {
    let c = config(None, None);
    assert!(accepts(&peer(Some(true), None), &c));
    assert!(accepts(&peer(Some(true), Some(vec!["tag:any"])), &c));
    assert_eq!(classify(&peer(Some(true), None), &c), Verdict::Probe);
}

#[test]
fn with_tags_mismatch_rejected() {
    let c = config(Some(vec!["tag:prod"]), None);
    let p = peer(Some(true), Some(vec!["tag:test"]));
    assert!(!accepts(&p, &c));
    assert_eq!(classify(&p, &c), Verdict::SkipTag);
}

#[test]
fn with_tags_match_probed() {
    let c = config(Some(vec!["tag:prod", "tag:server"]), None);
    let p = peer(Some(true), Some(vec!["tag:other", "tag:server"]));
    assert!(accepts(&p, &c));
}

#[test]
fn without_tags_hit_rejected() {
    let c = config(None, Some(vec!["tag:test"]));
    let p = peer(Some(true), Some(vec!["tag:prod", "tag:test"]));
    assert!(!accepts(&p, &c));
    assert_eq!(classify(&p, &c), Verdict::SkipTag);
}

#[test]
fn without_tags_miss_probed() {
    let c = config(None, Some(vec!["tag:test"]));
    let p = peer(Some(true), Some(vec!["tag:prod"]));
    assert!(accepts(&p, &c));
}

#[test]
fn tag_comparison_is_case_sensitive() {
    let c = config(Some(vec!["tag:Prod"]), None);
    let p = peer(Some(true), Some(vec!["tag:prod"]));
    assert_eq!(classify(&p, &c), Verdict::SkipTag);
}

#[test]
fn empty_with_list_rejects_everyone() {
    let c = config(Some(vec![]), None);
    let p = peer(Some(true), Some(vec!["tag:prod"]));
    assert_eq!(classify(&p, &c), Verdict::SkipTag);
}

#[test]
fn empty_without_list_rejects_no_one() {
    let c = config(None, Some(vec![]));
    let p = peer(Some(true), Some(vec!["tag:prod"]));
    assert!(accepts(&p, &c));
}

#[test]
fn untagged_peer_with_allow_list_rejected() {
    let c = config(Some(vec!["tag:prod"]), None);
    assert_eq!(classify(&peer(Some(true), None), &c), Verdict::SkipTag);
}
