//! Fuzzy matching of a query against a clip's name or keyword.
//!
//! The matching itself is the work of the `sniffer-rs` crate, with the
//! settings that crate starts from: letter case is ignored, and a candidate
//! matches if it is within a small edit distance of the query, similar
//! enough to it, or contains it.

use vstd::prelude::*;

verus! {

/// What `sniffer_rs::sniffer::Sniffer::new().matches(candidate, query)`
/// answers for the two texts.
pub uninterp spec fn sniffer_matches(candidate: Seq<char>, query: Seq<char>) -> bool;

/// Calls `Sniffer::matches` of `sniffer-rs` on a matcher made by
/// `Sniffer::new`.
///
/// Taken on trust, not proved. The contract gives the answer a name, since
/// it depends on the two texts alone, and states one fact about it: an
/// empty query matches every candidate, because every text contains the
/// empty text and the matcher's containment test is switched on.
#[verifier::external_body]
fn sniff(candidate: &str, query: &str) -> (hit: bool)
    ensures
        hit == sniffer_matches(candidate@, query@),
        query@.len() == 0 ==> hit,
{
    sniffer_rs::sniffer::Sniffer::new().matches(candidate, query)
}

/// Whether `candidate` matches `query` fuzzily. An empty query matches
/// everything.
pub fn matches(candidate: &str, query: &str) -> (hit: bool)
    ensures
        hit == sniffer_matches(candidate@, query@),
        query@.len() == 0 ==> hit,
{
    sniff(candidate, query)
}

} // verus!
