//! The client: a cache of session tokens by role, the login exchange that fills
//! it and the secret requests that use it.
use vstd::prelude::*;
use crate::auth::{expiry_after, Auth};
use crate::error::{server_error, VaultError};
use crate::body::{body_text, kwargs_view, request_body};
use crate::error::joined;
use crate::json::{error_list_of, is_json, login_fields, login_reply_of, opt_view, secret_fields, secret_lease_of};
use crate::secret::{freshness_of, freshness_window, Secret};

verus! {

/// A role has a cached token that can be used at `now`.
pub open spec fn logged_in(cache: Map<Seq<char>, Auth>, role: Seq<char>, now: u64) -> bool {
    cache.contains_key(role) && cache[role].usable_at(now)
}

/// The token that a login reply gives: its `client_token`, or the empty
/// string where it has none.
pub open spec fn token_or_empty(client_token: Option<Seq<char>>) -> Seq<char> {
    match client_token {
        Some(t) => t,
        None => Seq::empty(),
    }
}

/// The expiry of a token that a login reply gives: only a renewable token
/// runs out, after its lease (zero where the reply names none).
pub open spec fn login_expiry(lease: Option<u64>, renewable: Option<bool>, now: u64) -> Option<u64> {
    if renewable == Some(true) {
        expiry_after(
            Some(
                match lease {
                    Some(d) => d,
                    None => 0,
                },
            ),
            now,
        )
    } else {
        None
    }
}

/// The body of a login request for `role` with identity token `jwt`.
pub open spec fn login_body(role: Seq<char>, jwt: Seq<char>) -> Seq<char> {
    "{\"role\": \""@ + role + "\", \"jwt\": \""@ + jwt + "\"}"@
}

/// A request for the caller to send: method, full address, the session token
/// to present in the `X-Vault-Token` header if any, and the JSON body.
#[derive(Debug)]
pub struct HttpRequest {
    pub method: String,
    pub uri: String,
    pub token: Option<String>,
    pub body: String,
}

/// Relies on std::time::SystemTime::now: the seconds since the Unix epoch on
/// the wall clock (zero for a clock set before it).
#[verifier::external_body]
fn now_secs() -> (r: u64) {
    std::time::SystemTime::now().duration_since(std::time::UNIX_EPOCH).map(|d| d.as_secs()).unwrap_or(0)
}

/// A client of one server that caches one session token per role.
pub struct VaultClient {
    /// The server's base address.
    pub url: String,
    jwt: String,
    auth: Vec<(String, Auth)>,
}

impl View for VaultClient {
    type V = Map<Seq<char>, Auth>;

    /// The cached records, by role.
    closed spec fn view(&self) -> Map<Seq<char>, Auth> {
        Map::new(
            |k: Seq<char>| exists|i: int| 0 <= i < self.auth@.len() && self.auth@[i].0@ == k,
            |k: Seq<char>|
                self.auth@[choose|i: int| 0 <= i < self.auth@.len() && self.auth@[i].0@ == k].1,
        )
    }
}

impl VaultClient {
    /// No role is cached twice.
    pub closed spec fn wf(&self) -> bool {
        forall|i: int, j: int|
            0 <= i < self.auth@.len() && 0 <= j < self.auth@.len() && i != j
                ==> self.auth@[i].0@ != self.auth@[j].0@
    }

    /// The server's base address.
    pub closed spec fn base(&self) -> Seq<char> {
        self.url@
    }

    /// The identity token exchanged at login.
    pub closed spec fn identity(&self) -> Seq<char> {
        self.jwt@
    }

    proof fn lemma_entry(&self, i: int)
        requires
            self.wf(),
            0 <= i < self.auth@.len(),
        ensures
            self@.contains_key(self.auth@[i].0@),
            self@[self.auth@[i].0@] == self.auth@[i].1,
    {
        let k = self.auth@[i].0@;
        assert(self.auth@[i].0@ == k);
        let c = choose|c: int| 0 <= c < self.auth@.len() && self.auth@[c].0@ == k;
        assert(c == i);
    }

    /// A client of the server at `url` that logs in with identity token `jwt`,
    /// with nothing cached.
    pub fn new(url: &str, jwt: &str) -> (r: VaultClient)
        ensures
            r.wf(),
            r@ == Map::<Seq<char>, Auth>::empty(),
            r.base() == url@,
            r.identity() == jwt@,
    {
        let r = VaultClient { url: url.to_owned(), jwt: jwt.to_owned(), auth: Vec::new() };
        assert(r@ =~= Map::<Seq<char>, Auth>::empty());
        r
    }

    fn position(&self, role: &String) -> (r: Option<usize>)
        requires
            self.wf(),
        ensures
            match r {
                Some(i) => i < self.auth@.len() && self.auth@[i as int].0@ == role@,
                None => !self@.contains_key(role@),
            },
    {
        let mut i: usize = 0;
        while i < self.auth.len()
            invariant
                i <= self.auth@.len(),
                forall|j: int| 0 <= j < i ==> self.auth@[j].0@ != role@,
            decreases self.auth.len() - i,
        {
            if self.auth[i].0 == *role {
                return Some(i);
            }
            i = i + 1;
        }
        None
    }

    /// The record cached for `role`, if any.
    pub fn cached(&self, role: &str) -> (r: Option<Auth>)
        requires
            self.wf(),
        ensures
            match r {
                Some(a) => self@.contains_key(role@) && a == self@[role@],
                None => !self@.contains_key(role@),
            },
    {
        match self.position(&role.to_owned()) {
            Some(i) => {
                proof {
                    self.lemma_entry(i as int);
                }
                Some(self.auth[i].1.clone())
            },
            None => None,
        }
    }

    /// Whether `role` has a cached token that is valid and not due for
    /// renewal at `now`.
    pub fn is_logged_at(&self, role: &str, now: u64) -> (r: bool)
        requires
            self.wf(),
        ensures
            r == logged_in(self@, role@, now),
    {
        match self.position(&role.to_owned()) {
            Some(i) => {
                proof {
                    self.lemma_entry(i as int);
                }
                let a = &self.auth[i].1;
                a.is_valid(now) && !a.to_renew(now)
            },
            None => false,
        }
    }

    /// Whether `role` has a cached token that is valid and not due for
    /// renewal now, on the wall clock.
    pub fn is_logged(&self, role: &str) -> (r: bool)
        requires
            self.wf(),
        ensures
            r ==> self@.contains_key(role@),
            self@.contains_key(role@) && self@[role@].expiry is None ==> r,
    {
        let now = now_secs();
        self.is_logged_at(role, now)
    }

    /// Puts `rec` in the cache under `role`, in place of any record before.
    fn install(&mut self, role: &str, rec: Auth)
        requires
            old(self).wf(),
        ensures
            final(self).wf(),
            final(self)@ == old(self)@.insert(role@, rec),
            final(self).base() == old(self).base(),
            final(self).identity() == old(self).identity(),
    {
        let key = role.to_owned();
        let pos = self.position(&key);
        let ghost before = *self;
        let ghost at: int;
        match pos {
            Some(i) => {
                self.auth.set(i, (key, rec));
                proof {
                    at = i as int;
                }
            },
            None => {
                self.auth.push((key, rec));
                proof {
                    at = before.auth@.len() as int;
                }
            },
        }
        assert(self.wf());
        let ghost goal = before@.insert(role@, rec);
        assert forall|k: Seq<char>| #[trigger] self@.contains_key(k) == goal.contains_key(k) by {
            if k == role@ {
                self.lemma_entry(at);
            } else {
                if self@.contains_key(k) {
                    let j = choose|j: int| 0 <= j < self.auth@.len() && self.auth@[j].0@ == k;
                    assert(j != at);
                    before.lemma_entry(j);
                }
                if before@.contains_key(k) {
                    let j = choose|j: int| 0 <= j < before.auth@.len() && before.auth@[j].0@ == k;
                    assert(j != at);
                    assert(self.auth@[j] == before.auth@[j]);
                    self.lemma_entry(j);
                }
            }
        }
        assert forall|k: Seq<char>| self@.contains_key(k) implies #[trigger] self@[k] == goal[k] by {
            if k == role@ {
                self.lemma_entry(at);
            } else {
                let j = choose|j: int| 0 <= j < self.auth@.len() && self.auth@[j].0@ == k;
                self.lemma_entry(j);
                assert(j != at);
                assert(self.auth@[j] == before.auth@[j]);
                before.lemma_entry(j);
            }
        }
        assert(self@ =~= goal);
    }

    /// The login request for `role` at `now`, or `None` where its cached
    /// token can still be used and no request is needed.
    pub fn login_request(&self, role: &str, now: u64) -> (r: Option<HttpRequest>)
        requires
            self.wf(),
        ensures
            r is None <==> logged_in(self@, role@, now),
            r matches Some(q) ==> {
                &&& q.method@ == "POST"@
                &&& q.uri@ == self.base() + "/auth/kubernetes/login"@
                &&& q.token is None
                &&& q.body@ == login_body(role@, self.identity())
            },
    {
        if self.is_logged_at(role, now) {
            return None;
        }
        let mut uri = self.url.clone();
        uri.append("/auth/kubernetes/login");
        let mut body = "{\"role\": \"".to_owned();
        body.append(role);
        body.append("\", \"jwt\": \"");
        body.append(self.jwt.as_str());
        body.append("\"}");
        Some(HttpRequest { method: "POST".to_owned(), uri, token: None, body })
    }

    /// Installs under `role` the record that a successful login reply gives,
    /// from its `client_token`, `lease_duration` and `renewable` members (each
    /// `None` where the reply lacks it), and returns that record.
    pub fn finish_login(
        &mut self,
        role: &str,
        client_token: Option<String>,
        lease: Option<u64>,
        renewable: Option<bool>,
        now: u64,
    ) -> (r: Auth)
        requires
            old(self).wf(),
        ensures
            r.client_token@ == token_or_empty(opt_view(client_token)),
            r.expiry == login_expiry(lease, renewable, now),
            final(self).wf(),
            final(self)@ == old(self)@.insert(role@, r),
            final(self).base() == old(self).base(),
            final(self).identity() == old(self).identity(),
    {
        let token = match client_token {
            Some(t) => t,
            None => String::new(),
        };
        let span = match renewable {
            Some(true) => Some(
                match lease {
                    Some(d) => d,
                    None => 0,
                },
            ),
            _ => None,
        };
        let rec = Auth::new(token.as_str(), span, now);
        self.install(role, rec.clone());
        rec
    }

    /// Reads the reply to a login request for `role` made at `now`: on status
    /// 200 installs and returns the record that its `auth` members give; on any
    /// other status the server's error. The cache is left as it was on every
    /// failure.
    pub fn complete_login(&mut self, role: &str, status: u16, body: &str, now: u64) -> (r: Result<
        Auth,
        VaultError,
    >)
        requires
            old(self).wf(),
        ensures
            final(self).wf(),
            final(self).base() == old(self).base(),
            final(self).identity() == old(self).identity(),
            r is Err ==> final(self)@ == old(self)@,
            status == 200 ==> (r is Ok <==> is_json(body@)),
            status == 200 && !is_json(body@) ==> r matches Err(VaultError::Parse(_)),
            status != 200 ==> reply_error(r, status, body@),
            r matches Ok(a) ==> {
                &&& a.client_token@ == token_or_empty(login_reply_of(body@).0)
                &&& a.expiry == login_expiry(login_reply_of(body@).1, login_reply_of(body@).2, now)
                &&& final(self)@ == old(self)@.insert(role@, a)
            },
    {
        if status != 200 {
            return Err(server_error(status, body));
        }
        match login_fields(body) {
            Err(e) => Err(VaultError::Parse(e)),
            Ok(fields) => {
                let (token, lease, renewable) = fields;
                let a = self.finish_login(role, token, lease, renewable, now);
                Ok(a)
            },
        }
    }

    /// The request that fetches a secret for `role`: `method` on the server's
    /// address joined with `path`, presenting the role's cached token, with the
    /// body built from `kwargs`. Fails with `NotLogged`, and builds nothing,
    /// where no record is cached for `role`.
    pub fn secret_request(
        &self,
        role: &str,
        method: &str,
        path: &str,
        kwargs: Option<&Vec<(&str, &str)>>,
    ) -> (r: Result<HttpRequest, VaultError>)
        requires
            self.wf(),
        ensures
            r is Ok <==> self@.contains_key(role@),
            r matches Err(e) ==> e is NotLogged,
            r matches Ok(q) ==> {
                &&& q.method@ == method@
                &&& q.uri@ == self.base() + "/"@ + path@
                &&& q.token matches Some(t) && t@ == self@[role@].client_token@
                &&& q.body@ == body_text(kwargs_view(kwargs))
            },
    {
        match self.cached(role) {
            None => Err(VaultError::NotLogged),
            Some(a) => {
                let mut uri = self.url.clone();
                uri.append("/");
                uri.append(path);
                Ok(
                    HttpRequest {
                        method: method.to_owned(),
                        uri,
                        token: Some(a.client_token),
                        body: request_body(kwargs),
                    },
                )
            },
        }
    }
}

/// What a failed reply of status `status` with body `body` gives: the
/// server's error under `status` with its messages one per line, or a parse
/// error where the body holds no list of messages.
pub open spec fn reply_error<T>(r: Result<T, VaultError>, status: u16, body: Seq<char>) -> bool {
    match error_list_of(body) {
        Some(es) => r matches Err(VaultError::Server(s, m)) && s == status && m@ == joined(es),
        None => r matches Err(VaultError::Parse(_)),
    }
}

/// Reads the reply to a secret request: on status 200 the secret in its
/// `data` member, with the freshness window of its `lease_duration`; on any
/// other status the server's error.
pub fn read_secret(status: u16, body: &str) -> (r: Result<Secret, VaultError>)
    ensures
        status == 200 ==> (r is Ok <==> is_json(body@)),
        status == 200 && !is_json(body@) ==> r matches Err(VaultError::Parse(_)),
        status != 200 ==> reply_error(r, status, body@),
        r matches Ok(sec) ==> sec.freshness_window == freshness_of(secret_lease_of(body@)),
{
    if status != 200 {
        return Err(server_error(status, body));
    }
    match secret_fields(body) {
        Err(e) => Err(VaultError::Parse(e)),
        Ok(fields) => {
            let (lease, data) = fields;
            Ok(Secret::new(data, freshness_window(lease)))
        },
    }
}

/// A role whose cached record never expires is logged in at every instant,
/// so a login for it sends no request.
pub proof fn lemma_lasting_record_stays_logged_in(cache: Map<Seq<char>, Auth>, role: Seq<char>, now: u64)
    requires
        cache.contains_key(role),
        cache[role].expiry is None,
    ensures
        logged_in(cache, role, now),
{
}

/// A role whose cached record has reached its expiry is not logged in, so a
/// login for it sends a request.
pub proof fn lemma_expired_record_needs_login(cache: Map<Seq<char>, Auth>, role: Seq<char>, now: u64)
    requires
        cache.contains_key(role),
        cache[role].expiry matches Some(e) && e <= now,
    ensures
        !logged_in(cache, role, now),
        !cache[role].valid_at(now),
        cache[role].renewal_due_at(now),
{
}

/// A login reply that marks its token renewable gives a record that expires
/// its lease after `now`, where that instant fits in a `u64`, and at the end
/// of the range otherwise.
pub proof fn lemma_renewable_login_expires_after_lease(lease: Option<u64>, now: u64)
    ensures
        ({
            let d = match lease {
                Some(d) => d as int,
                None => 0,
            };
            &&& now + d <= u64::MAX ==> login_expiry(lease, Some(true), now) == Some((now + d) as u64)
            &&& now + d > u64::MAX ==> login_expiry(lease, Some(true), now) == Some(u64::MAX)
        }),
{
}

/// A login reply that does not mark its token renewable gives a record that
/// never expires, whatever lease it reports.
pub proof fn lemma_non_renewable_login_never_expires(lease: Option<u64>, now: u64)
    ensures
        login_expiry(lease, Some(false), now) is None,
        login_expiry(lease, None, now) is None,
{
}

} // verus!
