//! The session of a web client: whether its user is logged in, who the user
//! is, and when the session expires. The session store keeps the session
//! between requests; this module holds the rules on its values.
use vstd::prelude::*;

use crate::platform::{now_millis, spec_utc_datetime_text, utc_datetime_text, EARLIEST_TIME_MILLIS, LATEST_TIME_MILLIS};
use crate::text::concat2;

verus! {

/// The values the service keeps in a client's session, as read from it
/// (`None` where the session holds no readable value for the key).
#[derive(Debug)]
pub struct SessionValues {
    pub logged_in: Option<bool>,
    pub user_name: Option<String>,
    pub user_account_id: Option<u128>,
    /// When the session expires, in milliseconds since the Unix epoch.
    pub expiry: Option<i64>,
}

impl Clone for SessionValues {
    fn clone(&self) -> (r: Self)
        ensures
            r == *self,
    {
        SessionValues {
            logged_in: self.logged_in,
            user_name: match &self.user_name {
                Some(n) => Some(n.clone()),
                None => None,
            },
            user_account_id: self.user_account_id,
            expiry: self.expiry,
        }
    }
}

/// The default lifetime of a session, in seconds.
pub const DEFAULT_SESSION_SECONDS: u64 = 60;


/// Whether a session with this expiry has expired at `now`: only a session
/// with an expiry before `now` has.
pub open spec fn expired_at(expiry: Option<i64>, now: i64) -> bool {
    match expiry {
        Some(e) => e < now,
        None => false,
    }
}

/// Whether the session values have expired at `now`; a client without a
/// session counts as expired.
pub open spec fn session_expired_at(v: Option<SessionValues>, now: i64) -> bool {
    match v {
        Some(s) => expired_at(s.expiry, now),
        None => true,
    }
}

/// The lifetime `expire_in` asks for, in seconds (one minute by default).
pub open spec fn expire_seconds(expire_in: Option<u64>) -> int {
    match expire_in {
        Some(s) => s as int,
        None => DEFAULT_SESSION_SECONDS as int,
    }
}

/// When a session given `expire_in` seconds (one minute by default) at
/// `now` expires.
pub open spec fn expiry_after(now: i64, expire_in: Option<u64>) -> i64 {
    (now + 1000 * expire_seconds(expire_in)) as i64
}

/// Whether a session given `expire_in` seconds at `now` expires no later
/// than chrono's latest time (a later expiry makes chrono stop the
/// program).
pub open spec fn expiry_in_range(now: i64, expire_in: Option<u64>) -> bool {
    now + 1000 * expire_seconds(expire_in) <= LATEST_TIME_MILLIS
}

/// A time chrono can hold, in milliseconds since the Unix epoch.
pub open spec fn clock_time(now: i64) -> bool {
    EARLIEST_TIME_MILLIS <= now <= LATEST_TIME_MILLIS
}

/// The answer to whether the session may act for a user at `now`: an
/// expired session is refused first, then one whose user is not logged in.
pub open spec fn logged_in_check(v: Option<SessionValues>, now: i64, r: Result<(), String>) -> bool {
    if session_expired_at(v, now) {
        r matches Err(m) && m@ == "Session expired"@
    } else if !session_logged_in(v) {
        r matches Err(m) && m@ == "not logged in"@
    } else {
        r is Ok
    }
}

/// Whether the session values say the user is logged in (not without a
/// session).
pub open spec fn session_logged_in(v: Option<SessionValues>) -> bool {
    v matches Some(s) && s.logged_in == Some(true)
}

/// The user name the session values hold (empty without one).
pub open spec fn session_user_name(v: Option<SessionValues>) -> Seq<char> {
    match v {
        Some(s) => match s.user_name {
            Some(n) => n@,
            None => Seq::<char>::empty(),
        },
        None => Seq::<char>::empty(),
    }
}

/// What the setters write, the getters read back: a session marked logged
/// in or out reads as such, it gives back the user name stored in it, and a
/// session just given `expire_in` seconds at `now` has not expired at `now`.
pub proof fn law_session_reads_back_writes(
    v: SessionValues,
    status: bool,
    name: String,
    now: i64,
    expire_in: Option<u64>,
)
    requires
        clock_time(now),
        expiry_in_range(now, expire_in),
    ensures
        session_logged_in(Some(SessionValues { logged_in: Some(status), ..v })) == status,
        session_user_name(Some(SessionValues { user_name: Some(name), ..v })) == name@,
        !session_expired_at(Some(SessionValues { expiry: Some(expiry_after(now, expire_in)), ..v }), now),
{
}

/// The session of one client, identified by the id the client's cookie
/// carries.
pub struct SessionDataHandler {
    pub session_user_id: u128,
    session_option: Option<SessionValues>,
}

impl SessionDataHandler {
    /// The session's values, if the client has a session.
    pub closed spec fn values(&self) -> Option<SessionValues> {
        self.session_option
    }

    /// The id the client's cookie carries.
    pub closed spec fn client_id(&self) -> u128 {
        self.session_user_id
    }

    /// A handler for a client's session.
    pub fn new(session_user_id: u128, session_option: Option<SessionValues>) -> (r: Self)
        ensures
            r.client_id() == session_user_id,
            r.values() == session_option,
    {
        SessionDataHandler { session_user_id, session_option }
    }

    /// The session's values, to be written back to the store.
    pub fn session(&self) -> (r: &Option<SessionValues>)
        ensures
            *r == self.values(),
    {
        &self.session_option
    }

    /// Whether the session says the user is logged in (not without a
    /// session).
    pub fn is_logged_in(&self) -> (r: bool)
        ensures
            r == session_logged_in(self.values()),
    {
        match &self.session_option {
            Some(s) => match s.logged_in {
                Some(b) => b,
                None => false,
            },
            None => false,
        }
    }

    /// Records whether the user is logged in.
    pub fn set_loggin(&mut self, status: bool) -> (r: Result<(), String>)
        requires
            old(self).values() is Some,
        ensures
            r is Ok,
            final(self).client_id() == old(self).client_id(),
            final(self).values() == Some(SessionValues { logged_in: Some(status), ..old(self).values()->0 }),
    {
        match &mut self.session_option {
            Some(s) => {
                s.logged_in = Some(status);
            },
            None => {},
        }
        Ok(())
    }

    /// Whether the session has expired at `now`; a client without a session
    /// counts as expired.
    pub fn is_expired_at(&self, now: i64) -> (r: bool)
        ensures
            r == session_expired_at(self.values(), now),
    {
        match &self.session_option {
            Some(s) => match s.expiry {
                Some(e) => e < now,
                None => false,
            },
            None => true,
        }
    }

    /// Whether the session has expired now; a client without a session
    /// counts as expired, a session without expiry never expires.
    pub fn is_expired(&self) -> (r: bool)
        ensures
            exists|now: i64| clock_time(now) && r == session_expired_at(self.values(), now),
    {
        let now = now_millis();
        let r = self.is_expired_at(now);
        assert(clock_time(now) && r == session_expired_at(self.values(), now));
        r
    }

    /// The user name the session holds (empty without one).
    pub fn user_name(&self) -> (r: String)
        ensures
            r@ == session_user_name(self.values()),
    {
        match &self.session_option {
            Some(s) => match &s.user_name {
                Some(n) => n.clone(),
                None => String::new(),
            },
            None => String::new(),
        }
    }

    /// Records the user name.
    pub fn set_user_name(&mut self, user_name: &String) -> (r: Result<(), String>)
        requires
            old(self).values() is Some,
        ensures
            r is Ok,
            final(self).client_id() == old(self).client_id(),
            final(self).values() == Some(SessionValues { user_name: Some(*user_name), ..old(self).values()->0 }),
    {
        let name = user_name.clone();
        match &mut self.session_option {
            Some(s) => {
                s.user_name = Some(name);
            },
            None => {},
        }
        Ok(())
    }

    /// The id of the logged-in user's account.
    pub fn user_id(&self) -> (r: u128)
        requires
            self.values() matches Some(s) && s.user_account_id is Some,
        ensures
            r == self.values()->0.user_account_id->0,
    {
        match &self.session_option {
            Some(s) => match s.user_account_id {
                Some(id) => id,
                None => 0,
            },
            None => 0,
        }
    }

    /// Records the id of the logged-in user's account.
    pub fn set_user_id(&mut self, user_id: &u128) -> (r: Result<(), String>)
        requires
            old(self).values() is Some,
        ensures
            r is Ok,
            final(self).client_id() == old(self).client_id(),
            final(self).values() == Some(SessionValues { user_account_id: Some(*user_id), ..old(self).values()->0 }),
    {
        match &mut self.session_option {
            Some(s) => {
                s.user_account_id = Some(*user_id);
            },
            None => {},
        }
        Ok(())
    }

    /// Forgets the id of the logged-in user's account.
    pub fn remove_user_id(&mut self)
        requires
            old(self).values() is Some,
        ensures
            final(self).client_id() == old(self).client_id(),
            final(self).values() == Some(SessionValues { user_account_id: None, ..old(self).values()->0 }),
    {
        match &mut self.session_option {
            Some(s) => {
                s.user_account_id = None;
            },
            None => {},
        }
    }

    /// The session's expiry as shown to the user: the UTC date and time
    /// followed by " UTC" (chrono's earliest time where there is none).
    pub fn get_utc_expire_timestamp(&self) -> (r: String)
        ensures
            r@ == spec_utc_datetime_text(
                match self.values() {
                    Some(s) => match s.expiry {
                        Some(e) => e,
                        None => i64::MIN,
                    },
                    None => i64::MIN,
                },
            ) + " UTC"@,
    {
        let millis = match &self.session_option {
            Some(s) => match s.expiry {
                Some(e) => e,
                None => i64::MIN,
            },
            None => i64::MIN,
        };
        let text = utc_datetime_text(millis);
        concat2(text.as_str(), " UTC")
    }

    /// Lets the session expire `expire_in` seconds (one minute by default)
    /// after `now`.
    pub fn set_expire_at(&mut self, now: i64, expire_in: Option<u64>)
        requires
            old(self).values() is Some,
            clock_time(now),
            expiry_in_range(now, expire_in),
        ensures
            final(self).client_id() == old(self).client_id(),
            final(self).values() == Some(
                SessionValues { expiry: Some(expiry_after(now, expire_in)), ..old(self).values()->0 },
            ),
    {
        let seconds: u64 = match expire_in {
            Some(s) => s,
            None => DEFAULT_SESSION_SECONDS,
        };
        let millis: i64 = (seconds * 1000) as i64;
        match &mut self.session_option {
            Some(s) => {
                s.expiry = Some(now + millis);
            },
            None => {},
        }
    }

    /// Lets the session expire `expire_in` seconds (one minute by default)
    /// from now, where that is no later than chrono's latest time; `false`,
    /// with the session unchanged, where it is later.
    pub fn set_expire(&mut self, expire_in: Option<u64>) -> (r: bool)
        requires
            old(self).values() is Some,
        ensures
            final(self).client_id() == old(self).client_id(),
            exists|now: i64|
                #[trigger] clock_time(now) && 0 <= now && if expiry_in_range(now, expire_in) {
                    r && final(self).values() == Some(
                        SessionValues { expiry: Some(expiry_after(now, expire_in)), ..old(self).values()->0 },
                    )
                } else {
                    !r && final(self).values() == old(self).values()
                },
    {
        let now = now_millis();
        let seconds: u64 = match expire_in {
            Some(s) => s,
            None => DEFAULT_SESSION_SECONDS,
        };
        let room: i64 = LATEST_TIME_MILLIS - now;
        let fits = seconds <= (room / 1000) as u64;
        assert(fits == expiry_in_range(now, expire_in));
        if fits {
            self.set_expire_at(now, expire_in);
        }
        assert(clock_time(now) && 0 <= now);
        fits
    }

    /// Whether the session may act for a user at `now`: an expired session
    /// is refused first, then one whose user is not logged in.
    pub fn valid_logged_in_at(&self, now: i64) -> (r: Result<(), String>)
        ensures
            logged_in_check(self.values(), now, r),
    {
        if self.is_expired_at(now) {
            return Err(String::from_str("Session expired"));
        }
        if !self.is_logged_in() {
            return Err(String::from_str("not logged in"));
        }
        Ok(())
    }

    /// Whether the session may act for a user now: an expired session is
    /// refused first, then one whose user is not logged in.
    pub fn valid_logged_in(&self) -> (r: Result<(), String>)
        ensures
            exists|now: i64| clock_time(now) && logged_in_check(self.values(), now, r),
    {
        let now = now_millis();
        let r = self.valid_logged_in_at(now);
        assert(clock_time(now) && logged_in_check(self.values(), now, r));
        r
    }
}

} // verus!
