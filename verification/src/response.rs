//! The plain-text answer to an authorization request: the user's name, the
//! token or why there is none, and the claims or why they were refused.

use vstd::prelude::*;
use vstd::string::*;
use std::collections::BTreeMap;
use crate::claims::{Claims, distinct_names, pairs_map};
use crate::error::Error;

verus! {

/// How a claim set reads when it is written out for a person: as a map from
/// quoted names to quoted values, in the order of the names.
pub uninterp spec fn claims_debug_text(claims: Map<Seq<char>, Seq<char>>) -> Seq<char>;

/// Writes the pairs, as a `BTreeMap`, with std's `Debug` formatting.
/// Trusted: the text depends on the mapping alone.
#[verifier::external_body]
fn debug_pairs(pairs: &Vec<(String, String)>) -> (res: String)
    requires
        distinct_names(pairs@),
    ensures
        res@ == claims_debug_text(pairs_map(pairs@)),
{
    let map: BTreeMap<&str, &str> = pairs.iter().map(|p| (p.0.as_str(), p.1.as_str())).collect();
    format!("{:?}", map)
}

/// The text for an outcome of issuing: the token itself, or the error's text.
pub open spec fn token_text_of(attempt: Result<String, Error>) -> Seq<char> {
    match attempt {
        Ok(t) => t@,
        Err(e) => e.text(),
    }
}

/// The text for an outcome of verifying: the claims written out, or the
/// error's text.
pub open spec fn claims_text_of(verification: Result<Claims, Error>) -> Seq<char> {
    match verification {
        Ok(c) => claims_debug_text(c@),
        Err(e) => e.text(),
    }
}

/// The answer as a whole: three labelled parts, each label but the first on
/// a line of its own, each part but the last followed by a space.
pub open spec fn response_of(username: Seq<char>, token_text: Seq<char>, claims_text: Seq<char>)
    -> Seq<char> {
    "Username: "@ + username + " \nResult: "@ + token_text + " \nClaims: "@ + claims_text
}

/// Writes out an outcome of issuing.
pub fn token_text(attempt: &Result<String, Error>) -> (res: String)
    ensures
        res@ == token_text_of(*attempt),
{
    match attempt {
        Ok(t) => t.clone(),
        Err(e) => e.to_string(),
    }
}

/// Writes out an outcome of verifying.
pub fn claims_text(verification: &Result<Claims, Error>) -> (res: String)
    requires
        verification matches Ok(c) ==> c.wf(),
    ensures
        res@ == claims_text_of(*verification),
{
    match verification {
        Ok(c) => debug_pairs(c.entries()),
        Err(e) => e.to_string(),
    }
}

/// Puts the answer together from its three parts.
pub fn response_text(username: &str, token_text: &str, claims_text: &str) -> (res: String)
    ensures
        res@ == response_of(username@, token_text@, claims_text@),
{
    let mut res = String::from_str("Username: ");
    res.append(username);
    res.append(" \nResult: ");
    res.append(token_text);
    res.append(" \nClaims: ");
    res.append(claims_text);
    res
}

} // verus!
