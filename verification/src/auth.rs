//! The authorization service: it checks a password against the stored
//! record, issues a signed token that expires, and verifies such tokens.
//!
//! The service reads neither the store nor the clock. Its caller looks the
//! user up, reads the expiration policy and the time, and hands them in.
//! Times are seconds since the epoch; the policy's lifetime is in seconds.

use vstd::prelude::*;
use vstd::string::*;
use crate::claims::{Claims, expiration_name, subject_name};
use crate::config::Config;
use crate::decimal::decimal_value;
use crate::error::{Error, ErrorView};
use crate::token::{
    claims_are, claims_for, expiry_at, expiry_time, hs256_signed, hs256_verified, issued_claims,
    lemma_issued_claims_verdict, sign_claims, signing_verdict, token_is, verify_outcome,
    verify_token,
};

verus! {

/// A user as the credential store holds it.
#[derive(Debug, Clone, PartialEq, Eq)]
pub struct UserRecord {
    pub username: String,
    pub password: String,
}

/// What a lookup in the credential store gave, as contracts speak of it: the
/// stored name and password where a record came back, nothing where none
/// did, or the store's complaint.
pub open spec fn lookup_view(lookup: Result<Option<UserRecord>, String>) -> Result<
    Option<(Seq<char>, Seq<char>)>,
    Seq<char>,
> {
    match lookup {
        Ok(Some(user)) => Ok(Some((user.username@, user.password@))),
        Ok(None) => Ok(None),
        Err(e) => Err(e@),
    }
}

/// Whether `username` with `password` is accepted for what the lookup gave.
/// A failed lookup is a `DatabaseError`. An absent user is `UserNotFound`,
/// and so is a record under any other name: names match exactly, character
/// for character. A password that differs from the stored one in any
/// character is `IncorrectPassword`.
pub open spec fn credentials_verdict(
    lookup: Result<Option<(Seq<char>, Seq<char>)>, Seq<char>>,
    username: Seq<char>,
    password: Seq<char>,
) -> Result<(), ErrorView> {
    match lookup {
        Err(e) => Err(ErrorView::DatabaseError(e)),
        Ok(None) => Err(ErrorView::UserNotFound),
        Ok(Some((name, stored))) => if name != username {
            Err(ErrorView::UserNotFound)
        } else if stored == password {
            Ok(())
        } else {
            Err(ErrorView::IncorrectPassword)
        },
    }
}

/// The outcome of issuing a token for `username` under `secret`, at `now`,
/// with a lifetime of `lifetime` seconds.
pub open spec fn issue_outcome(secret: Seq<char>, username: Seq<char>, lifetime: i32, now: u64)
    -> Result<Seq<char>, ErrorView> {
    signing_verdict(hs256_signed(secret, issued_claims(username, expiry_at(now, lifetime))))
}

/// The outcome of an authorization: the credentials are judged first, and
/// only accepted ones lead to a token.
pub open spec fn authorize_outcome(
    secret: Seq<char>,
    username: Seq<char>,
    password: Seq<char>,
    lookup: Result<Option<(Seq<char>, Seq<char>)>, Seq<char>>,
    lifetime: i32,
    now: u64,
) -> Result<Seq<char>, ErrorView> {
    match credentials_verdict(lookup, username, password) {
        Err(e) => Err(e),
        Ok(_) => issue_outcome(secret, username, lifetime, now),
    }
}

/// Whether `token` is one that verifies under `secret` at every moment up
/// to and including `expires_at`, with the claims of `username`, and is
/// refused as expired at every moment after it.
pub open spec fn valid_until(
    secret: Seq<char>,
    token: Seq<char>,
    username: Seq<char>,
    expires_at: u64,
) -> bool {
    forall|later: u64| #[trigger]
        verify_outcome(secret, token, later) == (if later <= expires_at {
            Ok::<Map<Seq<char>, Seq<char>>, ErrorView>(issued_claims(username, expires_at))
        } else {
            Err::<Map<Seq<char>, Seq<char>>, ErrorView>(ErrorView::TokenExpired)
        })
}

/// The service: it holds the signing secret, which never changes.
pub struct Auth {
    secret: String,
}

impl Auth {
    /// The signing secret.
    pub closed spec fn secret(&self) -> Seq<char> {
        self.secret@
    }

    /// A service that signs and verifies with `secret`.
    pub fn new(secret: String) -> (res: Auth)
        ensures
            res.secret() == secret@,
    {
        Auth { secret }
    }

    /// Judges a name and a password against what the lookup of the user
    /// gave.
    pub fn check_credentials(
        lookup: &Result<Option<UserRecord>, String>,
        username: &str,
        password: &str,
    ) -> (res: Result<(), Error>)
        ensures
            match (res, credentials_verdict(lookup_view(*lookup), username@, password@)) {
                (Ok(_), Ok(_)) => true,
                (Err(e), Err(w)) => e@ == w,
                _ => false,
            },
    {
        match lookup {
            Err(e) => Err(Error::DatabaseError(e.clone())),
            Ok(None) => Err(Error::UserNotFound),
            Ok(Some(user)) => {
                let wanted = String::from_str(username);
                let supplied = String::from_str(password);
                if !(user.username == wanted) {
                    Err(Error::UserNotFound)
                } else if user.password == supplied {
                    Ok(())
                } else {
                    Err(Error::IncorrectPassword)
                }
            },
        }
    }

    /// Issues a token for `username` at `now` that expires after the
    /// policy's lifetime. A token always comes out; it verifies under this
    /// service up to its expiry, and names `username` as its subject.
    pub fn issue_token(&self, username: &str, config: &Config, now: u64) -> (res: Result<
        String,
        Error,
    >)
        ensures
            res is Ok,
            token_is(res, issue_outcome(self.secret(), username@, config.jwt_expiration_time, now)),
            res matches Ok(t) ==> valid_until(
                self.secret(),
                t@,
                username@,
                expiry_at(now, config.jwt_expiration_time),
            ),
    {
        let expires_at = expiry_time(now, config.jwt_expiration_time);
        let claims = claims_for(username, expires_at);
        let res = sign_claims(self.secret.as_str(), &claims);
        proof {
            if let Ok(t) = &res {
                assert forall|later: u64| #[trigger]
                    verify_outcome(self.secret(), t@, later) == (if later <= expires_at {
                        Ok::<Map<Seq<char>, Seq<char>>, ErrorView>(
                            issued_claims(username@, expires_at),
                        )
                    } else {
                        Err::<Map<Seq<char>, Seq<char>>, ErrorView>(ErrorView::TokenExpired)
                    }) by {
                    lemma_issued_claims_verdict(username@, expires_at, later);
                }
            }
        }
        res
    }

    /// Authorizes `username` with `password`, given what the lookup of the
    /// user gave, the expiration policy and the time. A token comes out
    /// exactly when the record is that of `username` and the password is the
    /// stored one; nothing is signed otherwise.
    pub fn authorize_user(
        &self,
        username: &str,
        password: &str,
        lookup: &Result<Option<UserRecord>, String>,
        config: &Config,
        now: u64,
    ) -> (res: Result<String, Error>)
        ensures
            res is Ok <==> credentials_verdict(lookup_view(*lookup), username@, password@) is Ok,
            token_is(
                res,
                authorize_outcome(
                    self.secret(),
                    username@,
                    password@,
                    lookup_view(*lookup),
                    config.jwt_expiration_time,
                    now,
                ),
            ),
            res matches Ok(t) ==> valid_until(
                self.secret(),
                t@,
                username@,
                expiry_at(now, config.jwt_expiration_time),
            ),
    {
        match Auth::check_credentials(lookup, username, password) {
            Err(e) => Err(e),
            Ok(_) => self.issue_token(username, config, now),
        }
    }

    /// Verifies `jwt` at `now`: its form and signature under the service's
    /// secret, then its expiration time. The claims come back only where
    /// all of these are in order.
    pub fn verify(&self, jwt: &String, now: u64) -> (res: Result<Claims, Error>)
        ensures
            claims_are(res, verify_outcome(self.secret(), jwt@, now)),
    {
        verify_token(self.secret.as_str(), jwt.as_str(), now)
    }
}

/// A token that is valid for a user until some moment yields, whenever it is
/// verified no later than that moment, claims that name the user as their
/// subject.
pub proof fn lemma_valid_token_names_subject(
    secret: Seq<char>,
    token: Seq<char>,
    username: Seq<char>,
    expires_at: u64,
    now: u64,
)
    requires
        valid_until(secret, token, username, expires_at),
        now <= expires_at,
    ensures
        verify_outcome(secret, token, now) matches Ok(claims) && claims.contains_key(
            subject_name(),
        ) && claims[subject_name()] == username,
{
    assert(verify_outcome(secret, token, now) == Ok::<Map<Seq<char>, Seq<char>>, ErrorView>(
        issued_claims(username, expires_at),
    ));
    lemma_issued_claims_verdict(username, expires_at, now);
}

/// A user that the store does not hold is refused as `UserNotFound`,
/// whatever the password.
pub proof fn lemma_unknown_user_refused(
    secret: Seq<char>,
    username: Seq<char>,
    password: Seq<char>,
    lifetime: i32,
    now: u64,
)
    ensures
        authorize_outcome(secret, username, password, Ok(None), lifetime, now) == Err::<
            Seq<char>,
            ErrorView,
        >(ErrorView::UserNotFound),
{
}

/// A record that the store holds under another name does not stand for the
/// user: the outcome is `UserNotFound`, whatever the password.
pub proof fn lemma_other_users_record_refused(
    secret: Seq<char>,
    username: Seq<char>,
    password: Seq<char>,
    name: Seq<char>,
    stored: Seq<char>,
    lifetime: i32,
    now: u64,
)
    requires
        name != username,
    ensures
        authorize_outcome(secret, username, password, Ok(Some((name, stored))), lifetime, now)
            == Err::<Seq<char>, ErrorView>(ErrorView::UserNotFound),
{
}

/// A password that differs from the one stored for the user is refused as
/// `IncorrectPassword`.
pub proof fn lemma_wrong_password_refused(
    secret: Seq<char>,
    username: Seq<char>,
    password: Seq<char>,
    stored: Seq<char>,
    lifetime: i32,
    now: u64,
)
    requires
        stored != password,
    ensures
        authorize_outcome(secret, username, password, Ok(Some((username, stored))), lifetime, now)
            == Err::<Seq<char>, ErrorView>(ErrorView::IncorrectPassword),
{
}

/// With the password stored for the user, an authorization comes to what
/// signing the user's claims gives: the credentials stand in the way of
/// nothing.
pub proof fn lemma_matching_password_issues(
    secret: Seq<char>,
    username: Seq<char>,
    password: Seq<char>,
    lifetime: i32,
    now: u64,
)
    ensures
        authorize_outcome(secret, username, password, Ok(Some((username, password))), lifetime, now)
            == issue_outcome(secret, username, lifetime, now),
{
}

/// A token that verifies at two moments yields the same claims at both, and
/// one that verifies at some moment verifies at every earlier one.
pub proof fn lemma_verify_repeatable(secret: Seq<char>, token: Seq<char>, first: u64, second: u64)
    ensures
        verify_outcome(secret, token, first) is Ok && verify_outcome(secret, token, second) is Ok
            ==> verify_outcome(secret, token, first) == verify_outcome(secret, token, second),
        verify_outcome(secret, token, first) is Ok && second <= first ==> verify_outcome(
            secret,
            token,
            second,
        ) == verify_outcome(secret, token, first),
{
}

/// A token whose signature is in order and whose expiration time is `now`
/// or later is accepted, with the claims that it carries.
pub proof fn lemma_unexpired_token_accepted(
    secret: Seq<char>,
    token: Seq<char>,
    claims: Map<Seq<char>, Seq<char>>,
    expires_at: u64,
    now: u64,
)
    requires
        hs256_verified(secret, token) == Ok::<Map<Seq<char>, Seq<char>>, Seq<char>>(claims),
        claims.contains_key(expiration_name()),
        decimal_value(claims[expiration_name()]) == Some(expires_at),
        now <= expires_at,
    ensures
        verify_outcome(secret, token, now) == Ok::<Map<Seq<char>, Seq<char>>, ErrorView>(claims),
{
}

/// A token whose signature is in order and whose expiration time lies before
/// `now` is refused as `TokenExpired`.
pub proof fn lemma_expired_token_refused(
    secret: Seq<char>,
    token: Seq<char>,
    claims: Map<Seq<char>, Seq<char>>,
    expires_at: u64,
    now: u64,
)
    requires
        hs256_verified(secret, token) == Ok::<Map<Seq<char>, Seq<char>>, Seq<char>>(claims),
        claims.contains_key(expiration_name()),
        decimal_value(claims[expiration_name()]) == Some(expires_at),
        expires_at < now,
    ensures
        verify_outcome(secret, token, now) == Err::<Map<Seq<char>, Seq<char>>, ErrorView>(
            ErrorView::TokenExpired,
        ),
{
}

/// A token that checking under `secret` refuses, for its form or its
/// signature, is a `JwtError` with the decoder's complaint at every moment.
pub proof fn lemma_rejected_token_refused(
    secret: Seq<char>,
    token: Seq<char>,
    complaint: Seq<char>,
    now: u64,
)
    requires
        hs256_verified(secret, token) == Err::<Map<Seq<char>, Seq<char>>, Seq<char>>(complaint),
    ensures
        verify_outcome(secret, token, now) == Err::<Map<Seq<char>, Seq<char>>, ErrorView>(
            ErrorView::JwtError(complaint),
        ),
{
}

} // verus!
