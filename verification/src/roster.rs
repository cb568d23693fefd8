//! The roster parser: from the raw bytes the control plane printed to a
//! `Roster`, or a `ParseError` naming exactly what was wrong with them.
//!
//! The document shape is checked here, field by field: the top level
//! must be an object; a missing `Peer` member yields the empty roster;
//! each peer must carry a `TailscaleIPs` list of strings; `Online` may
//! be absent, null, or a boolean; `Tags` may be absent, null, or a list
//! of strings. Every unknown member is ignored. The spec predicates
//! below state the same shape over the names of the JSON boundary, and
//! the contracts tie each error and the parsed roster to them.

use vstd::prelude::*;
use vstd::utf8::{decode_utf8, valid_utf8};
use crate::json::{
    array_of, bool_of, entries_of, is_null_value, json_doc, json_from_str, json_ok, member_of,
    object_entries, object_of, str_from_bytes, string_of, value_get,
};
use crate::model::{PeerRecord, Roster};

verus! {

/// Why a status document was rejected.
#[derive(Clone, Copy, PartialEq, Eq, Structural, Debug)]
pub enum ParseError {
    /// The bytes are not valid UTF-8.
    Utf8,
    /// The text is not a well-formed JSON document.
    Json,
    /// The document is well-formed JSON of the wrong shape.
    Shape,
}

/// The fixed description of each parse error.
pub open spec fn spec_describe(e: ParseError) -> Seq<char> {
    match e {
        ParseError::Utf8 => "status output is not valid UTF-8"@,
        ParseError::Json => "status output is not well-formed JSON"@,
        ParseError::Shape => "status JSON has an unexpected shape"@,
    }
}

impl ParseError {
    /// A short fixed description, for diagnostics.
    pub fn describe(&self) -> (r: &'static str)
        ensures
            r@ == spec_describe(*self),
    {
        match self {
            ParseError::Utf8 => "status output is not valid UTF-8",
            ParseError::Json => "status output is not well-formed JSON",
            ParseError::Shape => "status JSON has an unexpected shape",
        }
    }
}

/// The value is an array of strings.
pub open spec fn spec_string_list_ok(v: serde_json::Value) -> bool {
    match array_of(v) {
        Some(items) => forall|i: int| 0 <= i < items.len() ==> string_of(#[trigger] items[i]) is Some,
        None => false,
    }
}

/// `ss` holds exactly the texts of the value's string elements, in order.
pub open spec fn spec_strings_match(ss: Seq<String>, v: serde_json::Value) -> bool {
    match array_of(v) {
        Some(items) => ss.len() == items.len() && forall|i: int|
            0 <= i < items.len() ==> string_of(#[trigger] items[i]) == Some(ss[i]@),
        None => false,
    }
}

/// An acceptable `Online` member: absent, null, or a boolean.
pub open spec fn spec_online_ok(mv: Option<serde_json::Value>) -> bool {
    match mv {
        None => true,
        Some(ov) => is_null_value(ov) || bool_of(ov) is Some,
    }
}

/// The parsed flag: absent and null both mean no flag.
pub open spec fn spec_online_matches(o: Option<bool>, mv: Option<serde_json::Value>) -> bool {
    match mv {
        None => o is None,
        Some(ov) => if is_null_value(ov) {
            o is None
        } else {
            bool_of(ov) is Some && o == bool_of(ov)
        },
    }
}

/// An acceptable `Tags` member: absent, null, or a list of strings.
pub open spec fn spec_tags_ok(mv: Option<serde_json::Value>) -> bool {
    match mv {
        None => true,
        Some(tv) => is_null_value(tv) || spec_string_list_ok(tv),
    }
}

/// The parsed tag list: absent and null both mean no list.
pub open spec fn spec_tags_match(t: Option<Vec<String>>, mv: Option<serde_json::Value>) -> bool {
    match mv {
        None => t is None,
        Some(tv) => if is_null_value(tv) {
            t is None
        } else {
            t matches Some(l) && spec_strings_match(l@, tv)
        },
    }
}

/// A well-shaped peer object: `TailscaleIPs` present as a list of
/// strings, `Online` and `Tags` acceptable as above. Unknown members
/// never matter.
pub open spec fn spec_peer_ok(v: serde_json::Value) -> bool {
    &&& member_of(v, "TailscaleIPs"@) matches Some(iv) && spec_string_list_ok(iv)
    &&& spec_online_ok(member_of(v, "Online"@))
    &&& spec_tags_ok(member_of(v, "Tags"@))
}

/// The record read from one well-shaped peer object.
pub open spec fn spec_peer_matches(p: PeerRecord, v: serde_json::Value) -> bool {
    &&& member_of(v, "TailscaleIPs"@) matches Some(iv) && spec_strings_match(p.ips@, iv)
    &&& spec_online_matches(p.online, member_of(v, "Online"@))
    &&& spec_tags_match(p.tags, member_of(v, "Tags"@))
}

/// Every peer object among the entries is well-shaped.
pub open spec fn spec_peers_ok(ents: Seq<(String, serde_json::Value)>) -> bool {
    forall|i: int| 0 <= i < ents.len() ==> spec_peer_ok((#[trigger] ents[i]).1)
}

/// A well-shaped status document: an object whose `Peer` member, when
/// present, is an object of well-shaped peer objects.
pub open spec fn spec_doc_ok(doc: serde_json::Value) -> bool {
    &&& object_of(doc) is Some
    &&& match member_of(doc, "Peer"@) {
        None => true,
        Some(pv) => match object_of(pv) {
            Some(m) => spec_peers_ok(entries_of(m)),
            None => false,
        },
    }
}

/// The roster read from a well-shaped document: one entry per `Peer`
/// member, in the document map's order, keys kept; a document without a
/// `Peer` member yields the empty roster.
pub open spec fn spec_roster_matches(ro: Roster, doc: serde_json::Value) -> bool {
    match member_of(doc, "Peer"@) {
        None => ro.peers@.len() == 0,
        Some(pv) => match object_of(pv) {
            Some(m) => {
                let ents = entries_of(m);
                &&& ro.peers@.len() == ents.len()
                &&& forall|i: int| 0 <= i < ents.len() ==> (#[trigger] ro.peers@[i]).0 == ents[i].0
                &&& forall|i: int|
                    0 <= i < ents.len() ==> spec_peer_matches((#[trigger] ro.peers@[i]).1, ents[i].1)
            },
            None => false,
        },
    }
}

/// Reads a JSON array of strings; `None` exactly when `v` is anything else.
fn read_string_list(v: &serde_json::Value) -> (r: Option<Vec<String>>)
    ensures
        r is Some <==> spec_string_list_ok(*v),
        r matches Some(l) ==> spec_strings_match(l@, *v),
{
    match v.as_array() {
        Some(items) => {
            let mut out: Vec<String> = Vec::new();
            let mut i: usize = 0;
            while i < items.len()
                invariant
                    i <= items.len(),
                    array_of(*v) == Some(items@),
                    out@.len() == i,
                    forall|j: int|
                        0 <= j < i ==> string_of(#[trigger] items@[j]) == Some(out@[j]@),
                decreases items.len() - i,
            {
                match items[i].as_str() {
                    Some(s) => out.push(s.to_owned()),
                    None => {
                        return None;
                    },
                }
                i += 1;
            }
            Some(out)
        },
        None => None,
    }
}

/// Reads one peer object: `TailscaleIPs` is required, `Online` and
/// `Tags` stay optional, unknown members are ignored.
fn peer_from_value(v: &serde_json::Value) -> (r: Result<PeerRecord, ParseError>)
    ensures
        r is Ok <==> spec_peer_ok(*v),
        r matches Ok(p) ==> spec_peer_matches(p, *v),
        r matches Err(e) ==> e == ParseError::Shape,
{
    let ips = match value_get(v, "TailscaleIPs") {
        Some(ipsv) => match read_string_list(ipsv) {
            Some(l) => l,
            None => {
                return Err(ParseError::Shape);
            },
        },
        None => {
            return Err(ParseError::Shape);
        },
    };
    let online = match value_get(v, "Online") {
        Some(ov) => {
            if ov.is_null() {
                None
            } else {
                match ov.as_bool() {
                    Some(b) => Some(b),
                    None => {
                        return Err(ParseError::Shape);
                    },
                }
            }
        },
        None => None,
    };
    let tags = match value_get(v, "Tags") {
        Some(tv) => {
            if tv.is_null() {
                None
            } else {
                match read_string_list(tv) {
                    Some(l) => Some(l),
                    None => {
                        return Err(ParseError::Shape);
                    },
                }
            }
        },
        None => None,
    };
    Ok(PeerRecord { ips, online, tags })
}

/// Parses the control plane's status bytes into a roster.
///
/// Each error comes on exactly one class of input: `Utf8` on bytes that
/// are not valid UTF-8, `Json` on text that is not a well-formed JSON
/// document, `Shape` on a well-formed document of the wrong shape; every
/// other input yields the roster the document describes.
pub fn parse_roster(bytes: &[u8]) -> (r: Result<Roster, ParseError>)
    ensures
        r == Err::<Roster, ParseError>(ParseError::Utf8) <==> !valid_utf8(bytes@),
        r == Err::<Roster, ParseError>(ParseError::Json) <==> valid_utf8(bytes@) && !json_ok(
            decode_utf8(bytes@),
        ),
        r == Err::<Roster, ParseError>(ParseError::Shape) <==> valid_utf8(bytes@) && json_ok(
            decode_utf8(bytes@),
        ) && !spec_doc_ok(json_doc(decode_utf8(bytes@))),
        r is Ok <==> valid_utf8(bytes@) && json_ok(decode_utf8(bytes@)) && spec_doc_ok(
            json_doc(decode_utf8(bytes@)),
        ),
        r matches Ok(ro) ==> spec_roster_matches(ro, json_doc(decode_utf8(bytes@))),
{
    let s = match str_from_bytes(bytes) {
        Some(s) => s,
        None => {
            return Err(ParseError::Utf8);
        },
    };
    let doc = match json_from_str(s) {
        Ok(v) => v,
        Err(_) => {
            return Err(ParseError::Json);
        },
    };
    if doc.as_object().is_none() {
        return Err(ParseError::Shape);
    }
    let pv = match value_get(&doc, "Peer") {
        Some(pv) => pv,
        None => {
            return Ok(Roster { peers: Vec::new() });
        },
    };
    let obj = match pv.as_object() {
        Some(o) => o,
        None => {
            return Err(ParseError::Shape);
        },
    };
    let ghost gpv = *pv;
    let ghost gobj = *obj;
    let entries = object_entries(obj);
    let mut peers: Vec<(String, PeerRecord)> = Vec::new();
    let mut i: usize = 0;
    while i < entries.len()
        invariant
            i <= entries.len(),
            valid_utf8(bytes@),
            json_ok(decode_utf8(bytes@)),
            doc == json_doc(decode_utf8(bytes@)),
            object_of(doc) is Some,
            member_of(doc, "Peer"@) == Some(gpv),
            object_of(gpv) == Some(gobj),
            entries@ == entries_of(gobj),
            peers@.len() == i,
            forall|j: int| 0 <= j < i ==> (#[trigger] peers@[j]).0 == entries@[j].0,
            forall|j: int| 0 <= j < i ==> spec_peer_matches((#[trigger] peers@[j]).1, entries@[j].1),
            forall|j: int| 0 <= j < i ==> spec_peer_ok(#[trigger] entries@[j].1),
        decreases entries.len() - i,
    {
        let rec = match peer_from_value(&entries[i].1) {
            Ok(p) => p,
            Err(_) => {
                proof {
                    assert(!spec_peer_ok((entries_of(gobj)[i as int]).1));
                    assert(!spec_peers_ok(entries_of(gobj)));
                    assert(!spec_doc_ok(doc));
                }
                return Err(ParseError::Shape);
            },
        };
        peers.push((entries[i].0.clone(), rec));
        i += 1;
    }
    Ok(Roster { peers })
}

} // verus!
