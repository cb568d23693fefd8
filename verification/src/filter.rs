//! The peer filter: decides, from the online flag and the tag filter
//! settings, whether a peer is probed, and which counter it falls under
//! when it is skipped.

use vstd::prelude::*;
use crate::model::{FilterConfig, PeerRecord};

verus! {

/// How one peer is handled in a cycle.
#[derive(Clone, Copy, PartialEq, Eq, Structural, Debug)]
pub enum Verdict {
    /// The peer is probed on each of its valid IPv4 addresses.
    Probe,
    /// The peer is skipped because it is not online.
    SkipOffline,
    /// The peer is skipped by the tag allow-list or deny-list.
    SkipTag,
}

/// Some member of `sel` occurs in `tags`. Comparison is exact,
/// case-sensitive string equality.
pub open spec fn spec_has_any(tags: Seq<Seq<char>>, sel: Seq<Seq<char>>) -> bool {
    exists|i: int| 0 <= i < sel.len() && tags.contains(#[trigger] sel[i])
}

/// The allow-list check: absent means no restriction; present means the
/// peer must carry at least one listed tag.
pub open spec fn passes_with(p: PeerRecord, c: FilterConfig) -> bool {
    match c.with_tags {
        Some(w) => spec_has_any(p.tag_seq(), w.deep_view()),
        None => true,
    }
}

/// The deny-list check: absent means no restriction; present means the
/// peer must carry none of the listed tags.
pub open spec fn passes_without(p: PeerRecord, c: FilterConfig) -> bool {
    match c.without_tags {
        Some(w) => !spec_has_any(p.tag_seq(), w.deep_view()),
        None => true,
    }
}

/// The filter, with counter attribution: the online check comes first,
/// then the allow-list, then the deny-list. Both tag checks fall under
/// the same skip counter.
pub open spec fn spec_classify(p: PeerRecord, c: FilterConfig) -> Verdict {
    if !p.is_online() {
        Verdict::SkipOffline
    } else if !passes_with(p, c) {
        Verdict::SkipTag
    } else if !passes_without(p, c) {
        Verdict::SkipTag
    } else {
        Verdict::Probe
    }
}

/// A peer is probed exactly when the online check and both tag checks pass.
pub open spec fn spec_accepts(p: PeerRecord, c: FilterConfig) -> bool {
    spec_classify(p, c) is Probe
}

/// Exact membership test: `r` is true exactly when some element of `v`
/// equals `s` as a string.
fn vec_has_string(v: &Vec<String>, s: &String) -> (r: bool)
    ensures
        r == v.deep_view().contains(s@),
{
    let mut j: usize = 0;
    while j < v.len()
        invariant
            j <= v.len(),
            forall|t: int| 0 <= t < j ==> v.deep_view()[t] != s@,
        decreases v.len() - j,
    {
        if v[j] == *s {
            assert(v.deep_view()[j as int] == s@);
            return true;
        }
        j += 1;
    }
    false
}

/// Exact intersection test between a peer's tags and a configured list.
fn has_any_tag(tags: &Vec<String>, sel: &Vec<String>) -> (r: bool)
    ensures
        r == spec_has_any(tags.deep_view(), sel.deep_view()),
{
    let mut i: usize = 0;
    while i < sel.len()
        invariant
            i <= sel.len(),
            forall|t: int| 0 <= t < i ==> !tags.deep_view().contains(#[trigger] sel.deep_view()[t]),
        decreases sel.len() - i,
    {
        if vec_has_string(tags, &sel[i]) {
            assert(tags.deep_view().contains(sel.deep_view()[i as int]));
            return true;
        }
        i += 1;
    }
    false
}

/// Classifies one peer under the filter settings: probed, skipped as
/// offline, or skipped by a tag check.
pub fn classify(p: &PeerRecord, c: &FilterConfig) -> (v: Verdict)
    ensures
        v == spec_classify(*p, *c),
{
    let online = match p.online {
        Some(b) => b,
        None => false,
    };
    if !online {
        return Verdict::SkipOffline;
    }
    let no_tags: Vec<String> = Vec::new();
    let ptags: &Vec<String> = match &p.tags {
        Some(t) => t,
        None => &no_tags,
    };
    proof {
        assert(ptags.deep_view() =~= p.tag_seq());
    }
    match &c.with_tags {
        Some(w) => {
            if !has_any_tag(ptags, w) {
                return Verdict::SkipTag;
            }
        },
        None => {},
    }
    match &c.without_tags {
        Some(w) => {
            if has_any_tag(ptags, w) {
                return Verdict::SkipTag;
            }
        },
        None => {},
    }
    Verdict::Probe
}

/// The filter as a plain yes/no predicate.
pub fn accepts(p: &PeerRecord, c: &FilterConfig) -> (r: bool)
    ensures
        r == spec_accepts(*p, *c),
{
    let v = classify(p, c);
    match v {
        Verdict::Probe => true,
        _ => false,
    }
}

/// A peer whose `Online` flag is false or absent is never probed,
/// whatever the tag filter settings say.
pub proof fn lemma_offline_never_probed(p: PeerRecord, c: FilterConfig)
    requires
        p.online != Some(true),
    ensures
        spec_classify(p, c) == Verdict::SkipOffline,
        !spec_accepts(p, c),
{
}

/// An online peer is always probed when no tag filter is configured.
pub proof fn lemma_online_unfiltered_probed(p: PeerRecord, c: FilterConfig)
    requires
        p.online == Some(true),
        c.with_tags is None,
        c.without_tags is None,
    ensures
        spec_accepts(p, c),
{
}

} // verus!
