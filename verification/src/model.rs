//! Data model: one peer record, the roster, and the tag filter settings.

use vstd::prelude::*;

verus! {

/// One overlay peer as reported by the control plane. The record is
/// rebuilt from scratch every cycle and never mutated afterwards.
///
/// `online` and `tags` keep the optional shape of the source document:
/// an absent `Online` field means the peer is treated as offline, and an
/// absent `Tags` field means the peer has no tags.
pub struct PeerRecord {
    /// Address strings advertised for this peer, in document order.
    pub ips: Vec<String>,
    /// The `Online` flag, if the document carried one.
    pub online: Option<bool>,
    /// The `Tags` list, if the document carried one.
    pub tags: Option<Vec<String>>,
}

impl PeerRecord {
    /// A peer counts as online only when the flag is present and true.
    pub open spec fn is_online(self) -> bool {
        self.online == Some(true)
    }

    /// The peer's tag set as a sequence of strings; absent means empty.
    pub open spec fn tag_seq(self) -> Seq<Seq<char>> {
        match self.tags {
            Some(t) => t.deep_view(),
            None => Seq::empty(),
        }
    }
}

/// The roster for one cycle: peer key to peer record, in document order.
/// The source guarantees key uniqueness; nothing here depends on it.
pub struct Roster {
    pub peers: Vec<(String, PeerRecord)>,
}

/// Tag filter settings, fixed for the process lifetime.
///
/// `with_tags`, when present, is an allow-list: a peer must carry at
/// least one of these tags. `without_tags`, when present, is a deny-list:
/// a peer carrying any of these tags is excluded. A present but empty
/// allow-list rejects every peer; a present but empty deny-list rejects
/// none.
pub struct FilterConfig {
    pub with_tags: Option<Vec<String>>,
    pub without_tags: Option<Vec<String>>,
}

} // verus!
