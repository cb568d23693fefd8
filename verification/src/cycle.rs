//! The cycle planner: from one roster and the filter settings, the exact
//! list of probe targets and the two skip counters.

use vstd::prelude::*;
use vstd::utf8::{decode_utf8, valid_utf8};
use crate::json::{json_doc, json_ok};
use crate::model::{FilterConfig, PeerRecord, Roster};
use crate::filter::{classify, spec_classify, Verdict};
use crate::ipv4::{parse_ipv4, spec_ipv4, Ipv4};
use crate::roster::{parse_roster, spec_describe, spec_doc_ok, spec_roster_matches, ParseError};

verus! {

/// The UDP port every probe is sent to.
pub const TARGET_PORT: u16 = 41641;

/// The fixed single-byte probe payload.
pub const PROBE_BYTE: u8 = 122;

/// One cycle's outcome, before any datagram is sent: the targets to
/// probe, in roster order, and how many peers were skipped and why.
pub struct CyclePlan {
    pub targets: Vec<Ipv4>,
    pub skipped_offline: usize,
    pub skipped_tags: usize,
}

/// The probe targets drawn from one peer's address strings: each
/// dotted-quad string contributes its address, every other string
/// contributes nothing.
pub open spec fn spec_targets_of(ips: Seq<String>) -> Seq<Ipv4>
    decreases ips.len(),
{
    if ips.len() == 0 {
        Seq::empty()
    } else {
        spec_targets_of(ips.drop_last()) + match spec_ipv4(ips.last()@) {
            Some(t) => seq![t],
            None => Seq::empty(),
        }
    }
}

/// The plan for a sequence of peers: targets of the probed peers
/// concatenated in order, one offline skip per peer that is not online,
/// one tag skip per online peer a tag check rejects.
pub open spec fn spec_plan(peers: Seq<(String, PeerRecord)>, c: FilterConfig) -> (Seq<Ipv4>, int, int)
    decreases peers.len(),
{
    if peers.len() == 0 {
        (Seq::empty(), 0, 0)
    } else {
        let rest = spec_plan(peers.drop_last(), c);
        match spec_classify(peers.last().1, c) {
            Verdict::Probe => (rest.0 + spec_targets_of(peers.last().1.ips@), rest.1, rest.2),
            Verdict::SkipOffline => (rest.0, rest.1 + 1, rest.2),
            Verdict::SkipTag => (rest.0, rest.1, rest.2 + 1),
        }
    }
}

/// An address string that is not a dotted quad contributes no target:
/// appending it to a peer's address list leaves the target list as it
/// was. IPv6 strings are never dotted quads, so this covers them.
pub proof fn lemma_non_ipv4_not_probed(ips: Seq<String>, s: String)
    requires
        spec_ipv4(s@) is None,
    ensures
        spec_targets_of(ips.push(s)) == spec_targets_of(ips),
{
    assert(ips.push(s).drop_last() =~= ips);
    assert(ips.push(s).last() == s);
}

/// Every dotted-quad string among a peer's addresses contributes its
/// address to the peer's targets: a probed peer is probed on each valid
/// IPv4 address it advertises.
pub proof fn lemma_every_valid_address_probed(ips: Seq<String>, i: int)
    requires
        0 <= i < ips.len(),
        spec_ipv4(ips[i]@) is Some,
    ensures
        spec_targets_of(ips).contains(spec_ipv4(ips[i]@)->Some_0),
    decreases ips.len(),
{
    let t = spec_ipv4(ips[i]@)->Some_0;
    if i == ips.len() - 1 {
        let whole = spec_targets_of(ips);
        assert(whole == spec_targets_of(ips.drop_last()) + seq![t]);
        assert(whole[whole.len() - 1] == t);
    } else {
        lemma_every_valid_address_probed(ips.drop_last(), i);
        assert(ips.drop_last()[i] == ips[i]);
        let pre = spec_targets_of(ips.drop_last());
        let j = choose|j: int| 0 <= j < pre.len() && pre[j] == t;
        assert(spec_targets_of(ips)[j] == t);
    }
}

/// Collects the probe targets of one peer's address strings.
fn targets_of(ips: &Vec<String>) -> (r: Vec<Ipv4>)
    ensures
        r@ == spec_targets_of(ips@),
{
    let mut r: Vec<Ipv4> = Vec::new();
    let mut i: usize = 0;
    while i < ips.len()
        invariant
            i <= ips.len(),
            r@ == spec_targets_of(ips@.take(i as int)),
        decreases ips.len() - i,
    {
        let ghost pre = ips@.take(i as int);
        let ghost post = ips@.take(i + 1 as int);
        match parse_ipv4(ips[i].as_str()) {
            Some(t) => {
                r.push(t);
            },
            None => {},
        }
        proof {
            assert(post.drop_last() =~= pre);
            assert(post.last() == ips@[i as int]);
        }
        i += 1;
    }
    proof {
        assert(ips@.take(ips@.len() as int) =~= ips@);
    }
    r
}

/// Plans one cycle: classifies every peer in roster order and gathers
/// the probe targets of the peers that pass the filter.
pub fn plan_cycle(roster: &Roster, c: &FilterConfig) -> (p: CyclePlan)
    ensures
        (p.targets@, p.skipped_offline as int, p.skipped_tags as int) == spec_plan(
            roster.peers@,
            *c,
        ),
{
    let mut targets: Vec<Ipv4> = Vec::new();
    let mut skipped_offline: usize = 0;
    let mut skipped_tags: usize = 0;
    let mut i: usize = 0;
    while i < roster.peers.len()
        invariant
            i <= roster.peers.len(),
            (targets@, skipped_offline as int, skipped_tags as int) == spec_plan(
                roster.peers@.take(i as int),
                *c,
            ),
            skipped_offline + skipped_tags <= i,
        decreases roster.peers.len() - i,
    {
        let ghost pre = roster.peers@.take(i as int);
        let ghost post = roster.peers@.take(i + 1 as int);
        let v = classify(&roster.peers[i].1, c);
        match v {
            Verdict::Probe => {
                let mut fresh = targets_of(&roster.peers[i].1.ips);
                targets.append(&mut fresh);
            },
            Verdict::SkipOffline => {
                skipped_offline += 1;
            },
            Verdict::SkipTag => {
                skipped_tags += 1;
            },
        }
        proof {
            assert(post.drop_last() =~= pre);
            assert(post.last() == roster.peers@[i as int]);
        }
        i += 1;
    }
    proof {
        assert(roster.peers@.take(roster.peers@.len() as int) =~= roster.peers@);
    }
    CyclePlan { targets, skipped_offline, skipped_tags }
}

/// Why a whole cycle was abandoned. Either way the scheduler logs the
/// failure, sends nothing this cycle, and keeps looping.
#[derive(Clone, Copy, PartialEq, Eq, Structural, Debug)]
pub enum CycleError {
    /// The status command could not be run or exited non-zero.
    Command,
    /// Its output could not be parsed.
    Parse(ParseError),
}

impl CycleError {
    /// A short fixed description, for diagnostics.
    pub fn describe(&self) -> (r: &'static str)
        ensures
            *self is Command ==> r@ == "Tailscale command failed"@,
            *self matches CycleError::Parse(e) ==> r@ == spec_describe(e),
    {
        match self {
            CycleError::Command => "Tailscale command failed",
            CycleError::Parse(e) => e.describe(),
        }
    }
}

/// Decides one cycle from what the status command produced: a failed
/// command or an unparsable document abandons the cycle, on exactly the
/// inputs the contract names; every other input yields the plan of a
/// roster that reads the parsed document as the roster module states.
pub fn evaluate_cycle(exit_ok: bool, stdout: &[u8], c: &FilterConfig) -> (r: Result<
    CyclePlan,
    CycleError,
>)
    ensures
        r == Err::<CyclePlan, CycleError>(CycleError::Command) <==> !exit_ok,
        r == Err::<CyclePlan, CycleError>(CycleError::Parse(ParseError::Utf8)) <==> exit_ok
            && !valid_utf8(stdout@),
        r == Err::<CyclePlan, CycleError>(CycleError::Parse(ParseError::Json)) <==> exit_ok
            && valid_utf8(stdout@) && !json_ok(decode_utf8(stdout@)),
        r == Err::<CyclePlan, CycleError>(CycleError::Parse(ParseError::Shape)) <==> exit_ok
            && valid_utf8(stdout@) && json_ok(decode_utf8(stdout@)) && !spec_doc_ok(
            json_doc(decode_utf8(stdout@)),
        ),
        r is Ok <==> exit_ok && valid_utf8(stdout@) && json_ok(decode_utf8(stdout@))
            && spec_doc_ok(json_doc(decode_utf8(stdout@))),
        r matches Ok(p) ==> exists|ro: Roster|
            spec_roster_matches(ro, json_doc(decode_utf8(stdout@))) && (
            p.targets@,
            p.skipped_offline as int,
            p.skipped_tags as int,
            ) == spec_plan(ro.peers@, *c),
{
    if !exit_ok {
        return Err(CycleError::Command);
    }
    match parse_roster(stdout) {
        Ok(roster) => {
            let plan = plan_cycle(&roster, c);
            proof {
                let ro = roster;
                assert(spec_roster_matches(ro, json_doc(decode_utf8(stdout@))) && (
                plan.targets@,
                plan.skipped_offline as int,
                plan.skipped_tags as int,
                ) == spec_plan(ro.peers@, *c));
            }
            Ok(plan)
        },
        Err(e) => Err(CycleError::Parse(e)),
    }
}

} // verus!
