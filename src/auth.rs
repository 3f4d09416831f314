use vstd::prelude::*;

verus! {

/// The wall-clock second at which a lease of `lease` seconds, taken at `now`,
/// runs out; `None` for a lease that never runs out. A sum past the range of
/// `u64` stays at its end.
pub open spec fn expiry_after(lease: Option<u64>, now: u64) -> Option<u64> {
    match lease {
        None => None,
        Some(d) => Some(
            if now + d <= u64::MAX {
                (now + d) as u64
            } else {
                u64::MAX
            },
        ),
    }
}

/// One role's session token and, for a time-bounded token, the second (on the
/// wall clock) at which it stops being usable.
#[derive(Debug)]
pub struct Auth {
    pub client_token: String,
    pub expiry: Option<u64>,
}

impl Auth {
    /// The token may still be presented at `now`: it has no expiry, or its
    /// expiry lies ahead.
    pub open spec fn valid_at(&self, now: u64) -> bool {
        match self.expiry {
            None => true,
            Some(e) => now < e,
        }
    }

    /// The token has to be replaced at `now`: it has an expiry and the time left
    /// until it has reached zero.
    pub open spec fn renewal_due_at(&self, now: u64) -> bool {
        match self.expiry {
            None => false,
            Some(e) => e <= now,
        }
    }

    /// The token can be used at `now` without logging in again.
    pub open spec fn usable_at(&self, now: u64) -> bool {
        self.valid_at(now) && !self.renewal_due_at(now)
    }

    /// A record for `client_token`, taken at `now`, that runs out after `lease`
    /// seconds, or never when `lease` is `None`.
    pub fn new(client_token: &str, lease: Option<u64>, now: u64) -> (r: Auth)
        ensures
            r.client_token@ == client_token@,
            r.expiry == expiry_after(lease, now),
    {
        let expiry = match lease {
            None => None,
            Some(d) => Some(now.saturating_add(d)),
        };
        Auth { client_token: client_token.to_owned(), expiry }
    }

    pub fn is_valid(&self, now: u64) -> (r: bool)
        ensures
            r == self.valid_at(now),
    {
        match self.expiry {
            None => true,
            Some(e) => now < e,
        }
    }

    pub fn to_renew(&self, now: u64) -> (r: bool)
        ensures
            r == self.renewal_due_at(now),
    {
        match self.expiry {
            None => false,
            Some(e) => e <= now,
        }
    }
}

impl Clone for Auth {
    fn clone(&self) -> (r: Self)
        ensures
            r == *self,
    {
        Auth { client_token: self.client_token.clone(), expiry: self.expiry }
    }
}

} // verus!
