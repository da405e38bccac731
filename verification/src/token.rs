//! Signing claim sets into tokens and reading them back: HMAC-SHA256 over a
//! header and a payload, in the compact form with two dots.

use vstd::prelude::*;
use vstd::string::*;
use hmac::{Hmac, Mac};
use jwt::{SignWithKey, VerifyWithKey};
use sha2::Sha256;
use std::collections::BTreeMap;
use crate::claims::{Claims, distinct_names, pairs_map, subject_name, expiration_name};
use crate::decimal::{decimal_digits, decimal_value, format_decimal, parse_decimal, lemma_parse_of_format};
use crate::error::{Error, ErrorView};

verus! {

/// What signing the claim set `claims` under `secret` gives: the token, or
/// the signer's complaint.
pub uninterp spec fn hs256_signed(secret: Seq<char>, claims: Map<Seq<char>, Seq<char>>) -> Result<
    Seq<char>,
    Seq<char>,
>;

/// What checking `token` under `secret` gives: the claim set that the token
/// carries where its form and its signature are in order, or the decoder's
/// complaint.
pub uninterp spec fn hs256_verified(secret: Seq<char>, token: Seq<char>) -> Result<
    Map<Seq<char>, Seq<char>>,
    Seq<char>,
>;

/// Builds an HMAC-SHA256 key with `Hmac::new_from_slice` of the `hmac` crate
/// and signs the pairs, as a map, with `SignWithKey::sign_with_key` of the
/// `jwt` crate. Trusted: the outcome depends on the secret and the mapping
/// alone; a token always comes out, since an HMAC key of any length is
/// accepted and a map from text to text can always be written as JSON; and
/// that token is accepted under the same secret, where it yields the mapping
/// that went in.
#[verifier::external_body]
fn sign_pairs(secret: &str, pairs: &Vec<(String, String)>) -> (res: Result<String, String>)
    requires
        distinct_names(pairs@),
    ensures
        res is Ok,
        match res {
            Ok(t) => hs256_signed(secret@, pairs_map(pairs@)) == Ok::<Seq<char>, Seq<char>>(t@)
                && hs256_verified(secret@, t@) == Ok::<Map<Seq<char>, Seq<char>>, Seq<char>>(
                pairs_map(pairs@),
            ),
            Err(e) => hs256_signed(secret@, pairs_map(pairs@)) == Err::<Seq<char>, Seq<char>>(e@),
        },
{
    let key: Hmac<Sha256> = match Hmac::new_from_slice(secret.as_bytes()) {
        Ok(k) => k,
        Err(e) => return Err(e.to_string()),
    };
    let map: BTreeMap<&str, &str> = pairs.iter().map(|p| (p.0.as_str(), p.1.as_str())).collect();
    match map.sign_with_key(&key) {
        Ok(t) => Ok(t),
        Err(e) => Err(e.to_string()),
    }
}

/// Builds an HMAC-SHA256 key with `Hmac::new_from_slice` of the `hmac` crate
/// and checks the token with `VerifyWithKey::verify_with_key` of the `jwt`
/// crate, reading the payload as a map from text to text. Trusted: the
/// outcome depends on the secret and the token alone; the pairs that come
/// back are the map's entries, one for each name.
#[verifier::external_body]
fn verify_text(secret: &str, token: &str) -> (res: Result<Vec<(String, String)>, String>)
    ensures
        match res {
            Ok(pairs) => distinct_names(pairs@) && hs256_verified(secret@, token@) == Ok::<
                Map<Seq<char>, Seq<char>>,
                Seq<char>,
            >(pairs_map(pairs@)),
            Err(e) => hs256_verified(secret@, token@) == Err::<Map<Seq<char>, Seq<char>>, Seq<char>>(
                e@,
            ),
        },
{
    let key: Hmac<Sha256> = match Hmac::new_from_slice(secret.as_bytes()) {
        Ok(k) => k,
        Err(e) => return Err(e.to_string()),
    };
    let claims: Result<BTreeMap<String, String>, jwt::Error> = token.verify_with_key(&key);
    match claims {
        Ok(m) => Ok(m.into_iter().collect()),
        Err(e) => Err(e.to_string()),
    }
}

/// Whether an outcome of issuing is the one that `want` describes.
pub open spec fn token_is(res: Result<String, Error>, want: Result<Seq<char>, ErrorView>) -> bool {
    match (res, want) {
        (Ok(t), Ok(w)) => t@ == w,
        (Err(e), Err(w)) => e@ == w,
        _ => false,
    }
}

/// Whether an outcome of verifying is the one that `want` describes.
pub open spec fn claims_are(
    res: Result<Claims, Error>,
    want: Result<Map<Seq<char>, Seq<char>>, ErrorView>,
) -> bool {
    match (res, want) {
        (Ok(c), Ok(w)) => c.wf() && c@ == w,
        (Err(e), Err(w)) => e@ == w,
        _ => false,
    }
}

/// The moment at which a token issued at `now` with a lifetime of `lifetime`
/// seconds expires, both in seconds since the epoch: their sum, held within
/// the range of a `u64`. The token is good up to and including that moment,
/// so one with a lifetime of zero is good at the moment of issue and at no
/// later one, and one with a lifetime below zero is past its time when it
/// is issued.
pub open spec fn expiry_at(now: u64, lifetime: i32) -> u64 {
    if now + lifetime < 0 {
        0
    } else if now + lifetime > u64::MAX {
        u64::MAX
    } else {
        (now + lifetime) as u64
    }
}

/// The claim set of a token for the user `username` that expires at
/// `expires_at`: the subject, and the expiration time in decimal.
pub open spec fn issued_claims(username: Seq<char>, expires_at: u64) -> Map<Seq<char>, Seq<char>> {
    Map::<Seq<char>, Seq<char>>::empty().insert(subject_name(), username).insert(
        expiration_name(),
        decimal_digits(expires_at as nat),
    )
}

/// What the caller gets for an outcome of signing: the token, or a
/// `JwtError` with the signer's complaint.
pub open spec fn signing_verdict(signed: Result<Seq<char>, Seq<char>>) -> Result<
    Seq<char>,
    ErrorView,
> {
    match signed {
        Ok(t) => Ok(t),
        Err(e) => Err(ErrorView::JwtError(e)),
    }
}

/// The complaint about a claim set without an expiration time.
pub open spec fn missing_expiration() -> Seq<char> {
    "missing exp claim"@
}

/// The complaint about an expiration time that is no decimal `u64`.
pub open spec fn malformed_expiration() -> Seq<char> {
    "malformed exp claim"@
}

/// Whether a claim set, whose signature is in order, is accepted at `now`.
/// It must carry an expiration time, written as a decimal `u64`, and that
/// time must not lie before `now`: a token is refused as expired only once
/// its expiration time is past.
pub open spec fn claims_verdict(claims: Map<Seq<char>, Seq<char>>, now: u64) -> Result<
    Map<Seq<char>, Seq<char>>,
    ErrorView,
> {
    if !claims.contains_key(expiration_name()) {
        Err(ErrorView::JwtError(missing_expiration()))
    } else {
        match decimal_value(claims[expiration_name()]) {
            None => Err(ErrorView::JwtError(malformed_expiration())),
            Some(e) => if e < now {
                Err(ErrorView::TokenExpired)
            } else {
                Ok(claims)
            },
        }
    }
}

/// What the caller gets for an outcome of checking a token, at `now`.
pub open spec fn verification_verdict(
    checked: Result<Map<Seq<char>, Seq<char>>, Seq<char>>,
    now: u64,
) -> Result<Map<Seq<char>, Seq<char>>, ErrorView> {
    match checked {
        Ok(claims) => claims_verdict(claims, now),
        Err(e) => Err(ErrorView::JwtError(e)),
    }
}

/// The outcome of verifying `token` under `secret` at `now`.
pub open spec fn verify_outcome(secret: Seq<char>, token: Seq<char>, now: u64) -> Result<
    Map<Seq<char>, Seq<char>>,
    ErrorView,
> {
    verification_verdict(hs256_verified(secret, token), now)
}

/// Computes the moment of expiry for a token issued at `now`.
pub fn expiry_time(now: u64, lifetime: i32) -> (res: u64)
    ensures
        res == expiry_at(now, lifetime),
{
    if lifetime >= 0 {
        let l: u64 = lifetime as u64;
        if now > u64::MAX - l {
            u64::MAX
        } else {
            now + l
        }
    } else {
        let l: u64 = (-(lifetime as i64)) as u64;
        if now < l {
            0
        } else {
            now - l
        }
    }
}

/// Builds the claim set of a token for `username` that expires at
/// `expires_at`.
pub fn claims_for(username: &str, expires_at: u64) -> (res: Claims)
    ensures
        res.wf(),
        res@ == issued_claims(username@, expires_at),
{
    let mut claims = Claims::new();
    claims.insert(String::from_str("sub"), String::from_str(username));
    claims.insert(String::from_str("exp"), format_decimal(expires_at));
    claims
}

/// Turns an outcome of signing into the caller's result.
pub fn signing_outcome(signed: Result<String, String>) -> (res: Result<String, Error>)
    ensures
        match signed {
            Ok(t) => token_is(res, signing_verdict(Ok(t@))),
            Err(e) => token_is(res, signing_verdict(Err(e@))),
        },
{
    match signed {
        Ok(t) => Ok(t),
        Err(e) => Err(Error::JwtError(e)),
    }
}

/// Signs a claim set under `secret`. A token always comes out, and it is one
/// that checking under the same secret accepts, with the same claims.
pub fn sign_claims(secret: &str, claims: &Claims) -> (res: Result<String, Error>)
    requires
        claims.wf(),
    ensures
        res is Ok,
        token_is(res, signing_verdict(hs256_signed(secret@, claims@))),
        res matches Ok(t) ==> hs256_verified(secret@, t@) == Ok::<
            Map<Seq<char>, Seq<char>>,
            Seq<char>,
        >(claims@),
{
    let signed = sign_pairs(secret, claims.entries());
    signing_outcome(signed)
}

/// Decides whether a claim set, whose signature is in order, is accepted at
/// `now`.
pub fn check_claims(claims: Claims, now: u64) -> (res: Result<Claims, Error>)
    requires
        claims.wf(),
    ensures
        claims_are(res, claims_verdict(claims@, now)),
{
    let expires_at = match claims.get("exp") {
        None => {
            return Err(Error::JwtError(String::from_str("missing exp claim")));
        },
        Some(text) => parse_decimal(text.as_str()),
    };
    match expires_at {
        None => Err(Error::JwtError(String::from_str("malformed exp claim"))),
        Some(e) => {
            if e < now {
                Err(Error::TokenExpired)
            } else {
                Ok(claims)
            }
        },
    }
}

/// Turns an outcome of checking a token into the caller's result, at `now`.
pub fn verification_outcome(checked: Result<Claims, String>, now: u64) -> (res: Result<
    Claims,
    Error,
>)
    requires
        checked matches Ok(c) ==> c.wf(),
    ensures
        match checked {
            Ok(c) => claims_are(res, verification_verdict(Ok(c@), now)),
            Err(e) => claims_are(res, verification_verdict(Err(e@), now)),
        },
{
    match checked {
        Ok(c) => check_claims(c, now),
        Err(e) => Err(Error::JwtError(e)),
    }
}

/// Checks `token` under `secret` and decides whether it is accepted at `now`.
pub fn verify_token(secret: &str, token: &str, now: u64) -> (res: Result<Claims, Error>)
    ensures
        claims_are(res, verify_outcome(secret@, token@, now)),
{
    let checked = match verify_text(secret, token) {
        Ok(pairs) => Ok(Claims::from_pairs(pairs)),
        Err(e) => Err(e),
    };
    verification_outcome(checked, now)
}

/// A moment lies within a token's lifetime exactly when it is no later than
/// the expiry: the expiry is the sum of issue time and lifetime wherever that
/// sum is a time at all, and where the sum is beyond the range of a `u64`
/// every moment that can be written lies within the lifetime.
pub proof fn lemma_expiry_window(now: u64, lifetime: i32, later: u64)
    ensures
        later <= now + lifetime ==> later <= expiry_at(now, lifetime),
        now + lifetime >= 0 ==> (later <= expiry_at(now, lifetime) <==> later <= now + lifetime),
        lifetime >= 0 ==> now <= expiry_at(now, lifetime),
{
}

/// A claim set made for a user names that user as its subject, and is
/// accepted at every moment up to its expiry and at none after it.
pub proof fn lemma_issued_claims_verdict(username: Seq<char>, expires_at: u64, now: u64)
    ensures
        issued_claims(username, expires_at).contains_key(subject_name()),
        issued_claims(username, expires_at)[subject_name()] == username,
        now <= expires_at ==> claims_verdict(issued_claims(username, expires_at), now) == Ok::<
            Map<Seq<char>, Seq<char>>,
            ErrorView,
        >(issued_claims(username, expires_at)),
        now > expires_at ==> claims_verdict(issued_claims(username, expires_at), now) == Err::<
            Map<Seq<char>, Seq<char>>,
            ErrorView,
        >(ErrorView::TokenExpired),
{
    reveal_strlit("sub");
    reveal_strlit("exp");
    assert("sub"@.len() == 3 && "exp"@.len() == 3);
    assert("sub"@[0] != "exp"@[0]);
    lemma_parse_of_format(expires_at);
}

} // verus!
