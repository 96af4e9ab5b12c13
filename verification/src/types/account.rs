//! Accounts, what a client sends to open or enter one, and the session that
//! a token certifies.

use vstd::prelude::*;

verus! {

#[derive(Debug, PartialEq, Eq, Structural, Hash, Clone, Copy)]
pub struct AccountId(pub i32);

impl Default for AccountId {
    fn default() -> (r: AccountId)
        ensures
            r.0 == 0,
    {
        AccountId(0)
    }
}

/// A stored account. The password is kept as its encoded hash.
#[derive(Debug, Clone)]
pub struct Account {
    pub id: AccountId,
    pub email: String,
    pub password: String,
}

/// A registration as the client sends it.
#[derive(Debug, Clone)]
pub struct NewAccount {
    pub email: String,
    pub password: String,
}

/// What a client sends to log in.
#[derive(Debug, Clone)]
pub struct Credentials {
    pub email: String,
    pub password: String,
}

/// The number of seconds for which a session lasts: one day.
pub const SESSION_SECONDS: i64 = 86400;

/// What a token certifies: the account, and the time window in which the
/// token counts. Times are in seconds since the Unix epoch.
#[derive(Debug, Clone, Copy)]
pub struct Session {
    /// The first second at which the session no longer counts.
    pub exp: i64,
    pub account_id: AccountId,
    /// The first second at which the session counts.
    pub nbf: i64,
}

impl Session {
    /// Whether the session counts at the time `now`: from `nbf` on, and
    /// before `exp`.
    pub open spec fn valid_at(self, now: int) -> bool {
        self.nbf <= now < self.exp
    }

    pub fn is_valid_at(&self, now: i64) -> (r: bool)
        ensures
            r == self.valid_at(now as int),
    {
        self.nbf <= now && now < self.exp
    }
}

impl Account {
    /// A copy of the account.
    pub fn duplicate(&self) -> (r: Account)
        ensures
            r == *self,
    {
        Account { id: self.id, email: self.email.clone(), password: self.password.clone() }
    }
}

/// A session that was issued for one day at the time `issued_at` counts at
/// no time later than `issued_at` plus one day, and at every time from
/// `issued_at` up to that.
pub proof fn lemma_session_lasts_one_day(session: Session, issued_at: int, now: int)
    requires
        session.nbf == issued_at,
        session.exp == issued_at + SESSION_SECONDS,
    ensures
        now >= issued_at + SESSION_SECONDS ==> !session.valid_at(now),
        now < issued_at ==> !session.valid_at(now),
        issued_at <= now < issued_at + SESSION_SECONDS ==> session.valid_at(now),
{
}

} // verus!
