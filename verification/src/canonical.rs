//! The canonical text of a patch collection: its entries ordered by the
//! text of their keys as rendered, not by the keys as numbers.
//!
//! A patch collection is first written out as a YAML mapping in ascending
//! key order, each key rendered as its label, or as a number where it has
//! none. That text is then read back as a mapping from key text to untyped
//! value, which orders its entries by key text, and written out again.
use std::collections::BTreeMap;
use vstd::prelude::*;

verus! {

/// What `serde_yaml` prints for the mapping that it reads from `text`, with
/// the entries ordered by key text; `None` where it reads no such mapping
/// from `text` or cannot print what it read.
pub uninterp spec fn resorted_yaml(text: Seq<char>) -> Option<Seq<char>>;

/// Reads `text` with `serde_yaml::from_str` as a `BTreeMap` from `String` to
/// `serde_yaml::Value` and prints that map with `serde_yaml::to_string`.
///
/// Trusted: that the outcome is a function of `text` alone, named
/// `resorted_yaml`. Nothing is claimed of what the text looks like.
#[verifier::external_body]
fn resort_yaml(text: &str) -> (sorted: Option<String>)
    ensures
        sorted is Some <==> resorted_yaml(text@) is Some,
        sorted matches Some(printed) ==> resorted_yaml(text@) == Some(printed@),
{
    match serde_yaml::from_str::<BTreeMap<String, serde_yaml::Value>>(text) {
        Ok(mapping) => serde_yaml::to_string(&mapping).ok(),
        Err(_) => None,
    }
}

/// The text that is written out, given the first pass and what reading it
/// back gave: the re-sorted text, and the first pass itself, in its numeric
/// order, where there is none.
pub open spec fn settled_text(first_pass: Seq<char>, resorted: Option<Seq<char>>) -> Seq<char> {
    match resorted {
        Some(sorted) => sorted,
        None => first_pass,
    }
}

/// The canonical text for the first pass `first_pass`.
pub open spec fn canonical(first_pass: Seq<char>) -> Seq<char> {
    settled_text(first_pass, resorted_yaml(first_pass))
}

/// Chooses the text to write out: the re-sorted text where reading the
/// first pass back succeeded, the first pass otherwise. No error comes of
/// the second case; the order of the entries is then the numeric one.
pub fn settle(first_pass: String, resorted: Option<String>) -> (text: String)
    ensures
        text@ == settled_text(
            first_pass@,
            match resorted {
                Some(sorted) => Some(sorted@),
                None => None,
            },
        ),
{
    match resorted {
        Some(sorted) => sorted,
        None => first_pass,
    }
}

/// Turns the first pass of a patch collection into its canonical text.
pub fn canonical_text(first_pass: String) -> (text: String)
    ensures
        text@ == canonical(first_pass@),
{
    let resorted = resort_yaml(first_pass.as_str());
    settle(first_pass, resorted)
}

} // verus!
