//! Registration, login, and the filter that lets a request through only with
//! a token that counts.

use crate::crypt::{
    argon2_verified, decode_token, encode_token, framed, hash_of, issued, json_integer, json_integers,
    json_string, json_strings, member, member_seconds, parse_seconds, sealed_integer,
    sealed_seconds, unix_now, verify_password, written_range, MAX_PASSWORD_LENGTH,
};
use crate::types::account::SESSION_SECONDS;
use crate::errors::Error;
use crate::store::{is_row_not_found, Store};
use crate::types::account::{Account, AccountId, Credentials, NewAccount, Session};
use serde_json::Value;
use vstd::prelude::*;
use vstd::utf8::encode_utf8;

verus! {

/// Opens an account and returns it as stored, with the hash in place of the
/// password. An email that is taken is refused with the error that is
/// answered with status 422.
pub fn register(new_account: NewAccount, store: &mut Store) -> (r: Result<Account, Error>)
    requires
        old(store).well_formed(),
    ensures
        final(store).well_formed(),
        final(store).questions() == old(store).questions(),
        final(store).answers() == old(store).answers(),
        r is Ok <==> encode_utf8(new_account.password@).len() <= MAX_PASSWORD_LENGTH && !old(
            store,
        ).has_email(new_account.email@) && old(store).next_account_id() < i32::MAX,
        match r {
            Ok(account) => {
                &&& account.id.0 == old(store).next_account_id()
                &&& account.email == new_account.email
                &&& hash_of(account.password@, encode_utf8(new_account.password@))
                &&& argon2_verified(account.password@, encode_utf8(new_account.password@)) == Some(
                    true,
                )
                &&& final(store).accounts() == old(store).accounts().push(account)
            },
            Err(err) => {
                &&& final(store).same_contents(old(store))
                &&& if encode_utf8(new_account.password@).len() > MAX_PASSWORD_LENGTH {
                    err is ArgonLibraryError
                } else if old(store).has_email(new_account.email@) {
                    err is DatabaseQueryError && err.spec_status() == 422
                } else {
                    err is DatabaseQueryError && err.spec_status() == 500
                }
            },
        },
{
    store.add_account(new_account)
}

/// Whether `token` is a token that the service issued at some time for the
/// account with the id `account_id`: it holds the id under `account_id`, and
/// the time of issue and the second one day later as its window.
pub open spec fn token_for(token: Seq<char>, account_id: i32) -> bool {
    exists|now: i64| #[trigger] issued(token, now, "account_id"@, account_id as i64)
}

/// What checking `password` against the stored hash of `account` allows:
/// a token for the account where it matches, and the reason where it does
/// not.
pub open spec fn may_enter(account: Account, password: Seq<char>, r: Result<String, Error>) -> bool {
    match argon2_verified(account.password@, encode_utf8(password)) {
        Some(true) => (r matches Ok(token) && token_for(token@, account.id.0)) || r == Err::<
            String,
            Error,
        >(Error::TokenError),
        Some(false) => r == Err::<String, Error>(Error::WrongPassword),
        None => r is Err && r->Err_0 is ArgonLibraryError,
    }
}

/// Checks a password against an account and issues a token for the account
/// where it matches.
pub fn authenticate(account: &Account, password: &str) -> (r: Result<String, Error>)
    ensures
        may_enter(*account, password@, r),
{
    match verify_password(account.password.as_str(), password.as_bytes()) {
        Ok(true) => {
            match encode_token("account_id".to_owned(), account.id.0 as i64) {
                Ok(token) => Ok(token),
                Err(_) => Err(Error::TokenError),
            }
        },
        Ok(false) => Err(Error::WrongPassword),
        Err(message) => Err(Error::ArgonLibraryError(message)),
    }
}

/// Logs in: looks the account up by its email, checks the password, and
/// issues a token.
pub fn login(credentials: Credentials, store: &Store) -> (r: Result<String, Error>)
    ensures
        !store.has_email(credentials.email@) ==> r is Err && is_row_not_found(r->Err_0),
        store.has_email(credentials.email@) ==> exists|i: int|
            0 <= i < store.accounts().len() && (#[trigger] store.accounts()[i]).email@
                == credentials.email@ && may_enter(store.accounts()[i], credentials.password@, r),
{
    match store.get_account(credentials.email) {
        Ok(account) => authenticate(&account, credentials.password.as_str()),
        Err(err) => Err(err),
    }
}

/// An account whose stored hash was made from a password is let in with that
/// password: whatever `login` returns for its email and that password, it is
/// a token or, where no token could be issued, `TokenError`; never
/// `WrongPassword`.
pub proof fn lemma_registered_password_enters(
    store: Store,
    at: int,
    password: Seq<char>,
    r: Result<String, Error>,
)
    requires
        store.well_formed(),
        0 <= at < store.accounts().len(),
        argon2_verified(store.accounts()[at].password@, encode_utf8(password)) == Some(true),
        exists|i: int|
            0 <= i < store.accounts().len() && (#[trigger] store.accounts()[i]).email@
                == store.accounts()[at].email@ && may_enter(store.accounts()[i], password, r),
    ensures
        r is Ok || r == Err::<String, Error>(Error::TokenError),
{
    let i = choose|i: int|
        0 <= i < store.accounts().len() && (#[trigger] store.accounts()[i]).email@
            == store.accounts()[at].email@ && may_enter(store.accounts()[i], password, r);
    if i < at {
        assert(store.accounts()[i].email@ != store.accounts()[at].email@);
    } else if at < i {
        assert(store.accounts()[at].email@ != store.accounts()[i].email@);
    }
}

/// The session that the claims of a token stand for at the time `now`: the
/// account id must be there and fit in 32 bits, both times must be there,
/// and `now` must lie in the window from `nbf` to just before `exp`.
pub open spec fn claimed_session(
    account_id: Option<i64>,
    exp: Option<i64>,
    nbf: Option<i64>,
    now: i64,
) -> Option<Session> {
    match (account_id, exp, nbf) {
        (Some(account_id), Some(exp), Some(nbf)) => if i32::MIN <= account_id <= i32::MAX && nbf
            <= now < exp {
            Some(Session { exp, account_id: AccountId(account_id as i32), nbf })
        } else {
            None
        },
        _ => None,
    }
}

/// Decides whether the claims of a token make a session that counts at the
/// time `now`.
pub fn session_from_claims(
    account_id: Option<i64>,
    exp: Option<i64>,
    nbf: Option<i64>,
    now: i64,
) -> (r: Result<Session, Error>)
    ensures
        match claimed_session(account_id, exp, nbf, now) {
            Some(session) => r == Ok::<Session, Error>(session),
            None => r == Err::<Session, Error>(Error::TokenError),
        },
{
    match (account_id, exp, nbf) {
        (Some(account_id), Some(exp), Some(nbf)) => {
            if account_id < i32::MIN as i64 || account_id > i32::MAX as i64 {
                return Err(Error::TokenError);
            }
            let session = Session { exp, account_id: AccountId(account_id as i32), nbf };
            if session.is_valid_at(now) {
                Ok(session)
            } else {
                Err(Error::TokenError)
            }
        },
        _ => Err(Error::TokenError),
    }
}

/// The time that the claims hold under `key`: the second that the member
/// falls in, where the member is a string that reads as a time.
pub open spec fn claimed_seconds(claims: Value, key: Seq<char>) -> Option<i64> {
    member_seconds(json_strings(claims), key)
}

/// The number that the claims hold under `key`.
fn claim_number(claims: &Value, key: &str) -> (r: Option<i64>)
    ensures
        r == member(json_integers(*claims), key@),
{
    json_integer(claims, key)
}

/// The time that the claims hold under `key`, in seconds since the Unix
/// epoch.
fn claim_seconds(claims: &Value, key: &str) -> (r: Option<i64>)
    ensures
        r == claimed_seconds(*claims, key@),
{
    match json_string(claims, key) {
        Some(text) => parse_seconds(text),
        None => None,
    }
}

/// Reads a session from the claims of a token and decides whether it counts
/// at the time `now`: the account is the integer under `account_id`, and the
/// window runs from the time under `nbf` to just before the time under
/// `exp`.
pub fn session_in_claims(claims: &Value, now: i64) -> (r: Result<Session, Error>)
    ensures
        match claimed_session(
            member(json_integers(*claims), "account_id"@),
            claimed_seconds(*claims, "exp"@),
            claimed_seconds(*claims, "nbf"@),
            now,
        ) {
            Some(session) => r == Ok::<Session, Error>(session),
            None => r == Err::<Session, Error>(Error::TokenError),
        },
{
    let account_id = claim_number(claims, "account_id");
    let exp = claim_seconds(claims, "exp");
    let nbf = claim_seconds(claims, "nbf");
    session_from_claims(account_id, exp, nbf, now)
}

/// The session that a token certifies at the time `now`: the one that the
/// claims sealed in it make, where they are complete and `now` lies in
/// their window.
pub open spec fn certified(token: Seq<char>, now: i64) -> Option<Session> {
    claimed_session(
        sealed_integer(token, "account_id"@),
        sealed_seconds(token, "exp"@),
        sealed_seconds(token, "nbf"@),
        now,
    )
}

/// Opens a token and returns the session that it certifies at the present
/// time. Whatever is wrong with the token, the error is `TokenError`.
pub fn verify_token(token: String) -> (r: Result<Session, Error>)
    ensures
        r is Err ==> r == Err::<Session, Error>(Error::TokenError),
        !framed(token@) ==> r is Err,
        r matches Ok(session) ==> exists|now: i64| #[trigger] certified(token@, now) == Some(session),
{
    let claims = match decode_token(token) {
        Ok(claims) => claims,
        Err(_) => {
            return Err(Error::TokenError);
        },
    };
    let now = unix_now();
    let r = session_in_claims(&claims, now);
    assert(r matches Ok(session) ==> certified(token@, now) == Some(session));
    r
}

/// The filter before every route that needs an account: reads the token from
/// the `Authorization` header and lets the request through with the session
/// that the token certifies. A request without the header is turned away,
/// and so is one whose token does not count; both with `TokenError`.
pub fn auth(authorization: Option<String>) -> (r: Result<Session, Error>)
    ensures
        r is Err ==> r == Err::<Session, Error>(Error::TokenError),
        r matches Ok(session) ==> authorization matches Some(token) && framed(token@)
            && exists|now: i64| #[trigger] certified(token@, now) == Some(session),
{
    match authorization {
        Some(token) => verify_token(token),
        None => Err(Error::TokenError),
    }
}

/// Whatever session a token that was issued for an account certifies, at
/// whatever time, it is a session of that account.
pub proof fn lemma_token_certifies_its_account(
    token: Seq<char>,
    account_id: i32,
    now: i64,
    session: Session,
)
    requires
        token_for(token, account_id),
        certified(token, now) == Some(session),
    ensures
        session.account_id == AccountId(account_id),
{
}

/// A token that was issued for an account at a time between 1970 and the
/// year 9999 certifies, at every time of the day that follows, the session
/// of that account from the time of issue to one day later, and at every
/// other time nothing.
pub proof fn lemma_issued_token_certifies(token: Seq<char>, issued_at: i64, account_id: i32, now: i64)
    requires
        issued(token, issued_at, "account_id"@, account_id as i64),
        written_range(issued_at),
        written_range((issued_at + SESSION_SECONDS) as i64),
    ensures
        issued_at <= now < issued_at + SESSION_SECONDS ==> certified(token, now) == Some(
            Session {
                exp: (issued_at + SESSION_SECONDS) as i64,
                account_id: AccountId(account_id),
                nbf: issued_at,
            },
        ),
        !(issued_at <= now < issued_at + SESSION_SECONDS) ==> certified(token, now) is None,
{
    reveal_strlit("account_id");
    reveal_strlit("exp");
    reveal_strlit("nbf");
    assert("account_id"@.len() != "exp"@.len());
    assert("account_id"@.len() != "nbf"@.len());
}

/// A request that the filter turns away is answered with status 401.
pub proof fn lemma_filter_rejects_with_401(r: Result<Session, Error>)
    requires
        r == Err::<Session, Error>(Error::TokenError),
    ensures
        crate::errors::Rejection::Custom(r->Err_0).spec_status() == 401,
{
}

/// A token whose claims are complete counts at `now` exactly when `now`
/// lies in its window, and never at a time at or after `exp`.
pub proof fn lemma_claims_expire(account_id: i64, exp: i64, nbf: i64, now: i64)
    requires
        i32::MIN <= account_id <= i32::MAX,
    ensures
        claimed_session(Some(account_id), Some(exp), Some(nbf), now) is Some <==> nbf <= now < exp,
        now >= exp ==> claimed_session(Some(account_id), Some(exp), Some(nbf), now) is None,
        claimed_session(Some(account_id), Some(exp), Some(nbf), now) matches Some(session)
            ==> session.account_id.0 == account_id,
{
}

} // verus!
