//! The trust boundary: password verification, claims construction, token
//! issuance and refresh, and the single verification path the request gate
//! uses.
//!
//! Every decision is made by a function that takes the clock reading as an
//! argument and is verified for every possible reading; the plain entry
//! points read the clock once and delegate.
use crate::clock::{clock_in_range, now_seconds};
use crate::codec;
use crate::codec::{spec_genuine, spec_sole_encoding, token_of, DecodeError};
use crate::errors::AuthError;
use crate::models::auth::{password_verifies, Claims, LoginRequest, TokenResponse, User};
use crate::text::str_eq;
use vstd::prelude::*;

verus! {

/// Upper bound on a configured validity window: a century of seconds.
/// Keeps `now + duration` far from any overflow for every clock reading.
pub const MAX_DURATION_SECS: i64 = 3153600000;

/// The trust-boundary parameters: signing secret and the two validity
/// windows, fixed at construction.
#[derive(Clone)]
pub struct AuthConfig {
    pub jwt_secret: String,
    pub token_duration_secs: i64,
    pub refresh_token_duration_secs: i64,
}

impl AuthConfig {
    pub open spec fn wf(&self) -> bool {
        &&& 0 < self.token_duration_secs <= MAX_DURATION_SECS
        &&& 0 < self.refresh_token_duration_secs <= MAX_DURATION_SECS
    }

    /// The standard windows: one hour of access, seven days of refresh.
    pub fn new(jwt_secret: String) -> (r: AuthConfig)
        ensures
            r.wf(),
            r.jwt_secret@ == jwt_secret@,
            r.token_duration_secs == 3600,
            r.refresh_token_duration_secs == 604800,
    {
        AuthConfig { jwt_secret, token_duration_secs: 3600, refresh_token_duration_secs: 604800 }
    }
}

/// The first principal in the directory carrying the given username.
pub open spec fn spec_find_user(users: Seq<User>, name: Seq<char>) -> Option<User>
    decreases users.len(),
{
    if users.len() == 0 {
        None
    } else if users[0].username@ == name {
        Some(users[0])
    } else {
        spec_find_user(users.drop_first(), name)
    }
}

/// A found principal carries the name it was found under.
pub proof fn lemma_found_user_name(users: Seq<User>, name: Seq<char>)
    ensures
        spec_find_user(users, name) matches Some(u) ==> u.username@ == name,
    decreases users.len(),
{
    if users.len() > 0 && users[0].username@ != name {
        lemma_found_user_name(users.drop_first(), name);
    }
}

pub struct AuthService {
    users: Vec<User>,
    jwt_secret: String,
    token_duration_secs: i64,
    refresh_token_duration_secs: i64,
}

impl AuthService {
    /// The seeded principal directory.
    pub closed spec fn spec_users(&self) -> Seq<User> {
        self.users@
    }

    /// The shared signing secret.
    pub closed spec fn spec_secret(&self) -> Seq<char> {
        self.jwt_secret@
    }

    /// Validity window of an access token, in seconds.
    pub closed spec fn spec_access_secs(&self) -> int {
        self.token_duration_secs as int
    }

    /// Validity window of a refresh token, in seconds.
    pub closed spec fn spec_refresh_secs(&self) -> int {
        self.refresh_token_duration_secs as int
    }

    pub open spec fn wf(&self) -> bool {
        &&& 0 < self.spec_access_secs() <= MAX_DURATION_SECS
        &&& 0 < self.spec_refresh_secs() <= MAX_DURATION_SECS
    }

    /// `t` is the pair issued to `sub` with role `role` at instant `now`:
    /// an access token and a refresh token over the same subject, role and
    /// issue instant, differing in expiry, the bearer marker, and the
    /// access window in seconds.
    pub open spec fn spec_issued_pair(
        &self,
        t: TokenResponse,
        sub: Seq<char>,
        role: Seq<char>,
        now: int,
    ) -> bool {
        &&& spec_sole_encoding(
            t.access_token@,
            sub,
            now,
            now + self.spec_access_secs(),
            role,
            self.spec_secret(),
        )
        &&& t.token_type@ == "Bearer"@
        &&& t.expires_in as int == self.spec_access_secs()
        &&& t.refresh_token matches Some(rt) && spec_sole_encoding(
            rt@,
            sub,
            now,
            now + self.spec_refresh_secs(),
            role,
            self.spec_secret(),
        )
    }

    /// Seeds the demo directory: an elevated-role principal and a standard
    /// one, each with a freshly hashed password.
    pub fn new(config: AuthConfig) -> (r: AuthService)
        requires
            config.wf(),
        ensures
            r.wf(),
            r.spec_secret() == config.jwt_secret@,
            r.spec_access_secs() == config.token_duration_secs as int,
            r.spec_refresh_secs() == config.refresh_token_duration_secs as int,
            r.spec_users().len() == 2,
            r.spec_users()[0].username@ == "admin"@,
            r.spec_users()[0].role@ == "admin"@,
            password_verifies("password123"@, r.spec_users()[0].password_hash@),
            r.spec_users()[1].username@ == "user"@,
            r.spec_users()[1].role@ == "user"@,
            password_verifies("userpass"@, r.spec_users()[1].password_hash@),
    {
        let mut users: Vec<User> = Vec::new();
        users.push(
            User::new(
                String::from_str("admin"),
                String::from_str("password123"),
                String::from_str("admin"),
            ),
        );
        users.push(
            User::new(
                String::from_str("user"),
                String::from_str("userpass"),
                String::from_str("user"),
            ),
        );
        AuthService {
            users,
            jwt_secret: config.jwt_secret,
            token_duration_secs: config.token_duration_secs,
            refresh_token_duration_secs: config.refresh_token_duration_secs,
        }
    }

    fn find_user(&self, name: &str) -> (r: Option<&User>)
        ensures
            match r {
                Some(u) => spec_find_user(self.spec_users(), name@) == Some(*u),
                None => spec_find_user(self.spec_users(), name@) is None,
            },
    {
        let n: usize = self.users.len();
        let mut i: usize = 0;
        proof {
            assert(self.users@.skip(0) =~= self.users@);
        }
        while i < n
            invariant
                0 <= i <= n,
                n == self.users@.len(),
                spec_find_user(self.users@, name@) == spec_find_user(
                    self.users@.skip(i as int),
                    name@,
                ),
            decreases n - i,
        {
            if str_eq(self.users[i].username.as_str(), name) {
                return Some(&self.users[i]);
            }
            proof {
                assert(self.users@.skip(i as int).drop_first() =~= self.users@.skip(i as int + 1));
            }
            i = i + 1;
        }
        None
    }

    /// Issues the pair for a subject and role at an instant.
    fn issue_tokens(&self, username: &str, role: &str, now: i64) -> (t: TokenResponse)
        requires
            self.wf(),
            clock_in_range(now as int),
        ensures
            self.spec_issued_pair(t, username@, role@, now as int),
    {
        let access_claims = Claims {
            sub: username.to_owned(),
            exp: now + self.token_duration_secs,
            iat: now,
            role: role.to_owned(),
        };
        let refresh_claims = Claims {
            sub: username.to_owned(),
            exp: now + self.refresh_token_duration_secs,
            iat: now,
            role: role.to_owned(),
        };
        let access_token: String = codec::encode(&access_claims, self.jwt_secret.as_str());
        let refresh_token: String = codec::encode(&refresh_claims, self.jwt_secret.as_str());
        TokenResponse {
            access_token,
            token_type: String::from_str("Bearer"),
            expires_in: self.token_duration_secs,
            refresh_token: Some(refresh_token),
        }
    }

    /// Login at a known instant. Succeeds exactly when the directory holds
    /// the username and the password verifies against its hash; the two
    /// failure cases return the same error value and are indistinguishable
    /// to the caller.
    pub fn authenticate_at(&self, login_req: &LoginRequest, now: i64) -> (r: Result<
        TokenResponse,
        AuthError,
    >)
        requires
            self.wf(),
            clock_in_range(now as int),
        ensures
            match spec_find_user(self.spec_users(), login_req.username@) {
                None => r matches Err(e) && e == AuthError::InvalidCredentials,
                Some(u) => if password_verifies(login_req.password@, u.password_hash@) {
                    r matches Ok(t) && self.spec_issued_pair(t, u.username@, u.role@, now as int)
                } else {
                    r matches Err(e) && e == AuthError::InvalidCredentials
                },
            },
    {
        let user: &User = match self.find_user(login_req.username.as_str()) {
            Some(u) => u,
            None => {
                return Err(AuthError::InvalidCredentials);
            },
        };
        if !user.verify_password(login_req.password.as_str()) {
            return Err(AuthError::InvalidCredentials);
        }
        Ok(self.issue_tokens(user.username.as_str(), user.role.as_str(), now))
    }

    /// Login: reads the clock once and issues at that instant.
    pub fn authenticate(&self, login_req: LoginRequest) -> (r: Result<TokenResponse, AuthError>)
        requires
            self.wf(),
        ensures
            match spec_find_user(self.spec_users(), login_req.username@) {
                None => r matches Err(e) && e == AuthError::InvalidCredentials,
                Some(u) => if password_verifies(login_req.password@, u.password_hash@) {
                    r matches Ok(t) && exists|now: int|
                        clock_in_range(now) && #[trigger] self.spec_issued_pair(
                            t,
                            u.username@,
                            u.role@,
                            now,
                        )
                } else {
                    r matches Err(e) && e == AuthError::InvalidCredentials
                },
            },
    {
        let now: i64 = now_seconds();
        self.authenticate_at(&login_req, now)
    }

    /// The single verification path, at a known instant: a genuine token is
    /// accepted while its expiry lies ahead and rejected as expired from
    /// its expiry on; anything else is rejected as invalid.
    pub fn verify_at(&self, token: &str, now: i64) -> (r: Result<Claims, AuthError>)
        requires
            self.wf(),
        ensures
            r matches Ok(c) ==> token@ == token_of(
                c.sub@,
                c.iat as int,
                c.exp as int,
                c.role@,
                self.spec_secret(),
            ) && c.exp > now,
            forall|sub: Seq<char>, iat: int, exp: int, role: Seq<char>|
                (i64::MIN <= iat <= i64::MAX && i64::MIN <= exp <= i64::MAX && token@
                    == #[trigger] token_of(sub, iat, exp, role, self.spec_secret())) ==> (if exp
                    <= now {
                    r matches Err(e) && e == AuthError::TokenExpired
                } else {
                    r matches Ok(c) && c.sub@ == sub && c.iat as int == iat && c.exp as int == exp
                        && c.role@ == role
                }),
            !spec_genuine(token@, self.spec_secret()) ==> (r matches Err(e) && e
                == AuthError::InvalidToken),
            r matches Err(e) ==> (e == AuthError::TokenExpired || e == AuthError::InvalidToken),
    {
        match codec::decode(token, self.jwt_secret.as_str()) {
            Err(_) => Err(AuthError::InvalidToken),
            Ok(c) => {
                if c.exp <= now {
                    Err(AuthError::TokenExpired)
                } else {
                    Ok(c)
                }
            },
        }
    }

    /// Verification against the clock: reads it once and checks expiry at
    /// that instant.
    pub fn verify_token(&self, token: &str) -> (r: Result<Claims, AuthError>)
        requires
            self.wf(),
        ensures
            r matches Ok(c) ==> token@ == token_of(
                c.sub@,
                c.iat as int,
                c.exp as int,
                c.role@,
                self.spec_secret(),
            ),
            !spec_genuine(token@, self.spec_secret()) ==> (r matches Err(e) && e
                == AuthError::InvalidToken),
            r matches Err(e) ==> (e == AuthError::TokenExpired || e == AuthError::InvalidToken),
    {
        let now: i64 = now_seconds();
        self.verify_at(token, now)
    }

    /// Refresh at a known instant: verify the presented refresh token, look
    /// the principal up again, and issue a fresh pair — rotation, not
    /// reuse. A genuine unexpired token of a vanished principal is refused
    /// as such.
    pub fn refresh_at(&self, refresh_token: &str, now: i64) -> (r: Result<
        TokenResponse,
        AuthError,
    >)
        requires
            self.wf(),
            clock_in_range(now as int),
        ensures
            forall|sub: Seq<char>, iat: int, exp: int, role: Seq<char>|
                (i64::MIN <= iat <= i64::MAX && i64::MIN <= exp <= i64::MAX && refresh_token@
                    == #[trigger] token_of(sub, iat, exp, role, self.spec_secret())) ==> (if exp
                    <= now {
                    r matches Err(e) && e == AuthError::TokenExpired
                } else {
                    match spec_find_user(self.spec_users(), sub) {
                        None => r matches Err(e) && e == AuthError::PrincipalNotFound,
                        Some(u) => r matches Ok(t) && self.spec_issued_pair(
                            t,
                            u.username@,
                            u.role@,
                            now as int,
                        ),
                    }
                }),
            !spec_genuine(refresh_token@, self.spec_secret()) ==> (r matches Err(e) && e
                == AuthError::InvalidToken),
            r matches Err(e) ==> (e == AuthError::TokenExpired || e == AuthError::InvalidToken || e
                == AuthError::PrincipalNotFound),
    {
        let claims: Claims = match self.verify_at(refresh_token, now) {
            Ok(c) => c,
            Err(e) => {
                return Err(e);
            },
        };
        let user: &User = match self.find_user(claims.sub.as_str()) {
            Some(u) => u,
            None => {
                return Err(AuthError::PrincipalNotFound);
            },
        };
        Ok(self.issue_tokens(user.username.as_str(), user.role.as_str(), now))
    }

    /// Refresh: reads the clock once and rotates at that instant.
    pub fn refresh_token(&self, refresh_token: String) -> (r: Result<TokenResponse, AuthError>)
        requires
            self.wf(),
        ensures
            !spec_genuine(refresh_token@, self.spec_secret()) ==> (r matches Err(e) && e
                == AuthError::InvalidToken),
            r matches Ok(t) ==> exists|sub: Seq<char>, role: Seq<char>, now: int|
                clock_in_range(now) && #[trigger] self.spec_issued_pair(t, sub, role, now),
            r matches Err(e) ==> (e == AuthError::TokenExpired || e == AuthError::InvalidToken || e
                == AuthError::PrincipalNotFound),
    {
        let now: i64 = now_seconds();
        self.refresh_at(refresh_token.as_str(), now)
    }

    /// Law: a login that succeeds verifies — the access token of the
    /// returned pair, presented at any instant before its expiry, yields
    /// claims carrying the authenticated username and the principal's role.
    pub fn authenticated_token_verifies(
        &self,
        login_req: &LoginRequest,
        now: i64,
        later: i64,
    ) -> (r: Option<(TokenResponse, Claims)>)
        requires
            self.wf(),
            clock_in_range(now as int),
            now <= later < now + self.spec_access_secs(),
        ensures
            match spec_find_user(self.spec_users(), login_req.username@) {
                Some(u) => password_verifies(login_req.password@, u.password_hash@) ==> (
                r matches Some(p) && p.1.sub@ == login_req.username@ && p.1.role@ == u.role@
                    && p.1.iat == now && p.1.exp as int == now as int + self.spec_access_secs()),
                None => r is None,
            },
    {
        proof {
            lemma_found_user_name(self.spec_users(), login_req.username@);
        }
        let pair: TokenResponse = match self.authenticate_at(login_req, now) {
            Ok(p) => p,
            Err(_) => {
                return None;  // exactly the logins that fail
            },
        };
        let claims: Claims = match self.verify_at(pair.access_token.as_str(), later) {
            Ok(c) => c,
            Err(_) => {
                return None;  // refuted: the token is genuine and unexpired at `later`
            },
        };
        Some((pair, claims))
    }

    /// Law: expiry is policy, not transport — a token whose expiry is
    /// already past still decodes structurally, yet verification rejects
    /// it as expired.
    pub fn expired_token_rejected(&self, claims: &Claims, now: i64) -> (r: (
        Result<Claims, DecodeError>,
        Result<Claims, AuthError>,
    ))
        requires
            self.wf(),
            claims.exp <= now,
        ensures
            r.0 is Ok,
            r.1 matches Err(e) && e == AuthError::TokenExpired,
    {
        let token: String = codec::encode(claims, self.jwt_secret.as_str());
        let structurally: Result<Claims, DecodeError> = codec::decode(
            token.as_str(),
            self.jwt_secret.as_str(),
        );
        let verified: Result<Claims, AuthError> = self.verify_at(token.as_str(), now);
        (structurally, verified)
    }

    /// Law: refresh is stateless rotation — one refresh token redeems at
    /// two different instants, both succeed, and the two access tokens
    /// differ because their issue instants differ.
    pub fn refresh_rotation(
        &self,
        sub: &str,
        role: &str,
        iat: i64,
        exp: i64,
        now1: i64,
        now2: i64,
    ) -> (r: Option<(TokenResponse, TokenResponse)>)
        requires
            self.wf(),
            clock_in_range(now1 as int),
            clock_in_range(now2 as int),
            now1 != now2,
            exp > now1,
            exp > now2,
            spec_find_user(self.spec_users(), sub@) is Some,
        ensures
            r matches Some(p) && p.0.access_token@ != p.1.access_token@,
    {
        let refresh_claims = Claims { sub: sub.to_owned(), exp, iat, role: role.to_owned() };
        let token: String = codec::encode(&refresh_claims, self.jwt_secret.as_str());
        let first: TokenResponse = match self.refresh_at(token.as_str(), now1) {
            Ok(t) => t,
            Err(_) => {
                proof {
                    // the token is genuine, unexpired, and its principal exists
                    assert(token@ == token_of(
                        sub@,
                        iat as int,
                        exp as int,
                        role@,
                        self.spec_secret(),
                    ));
                }
                return None;  // refuted above
            },
        };
        let second: TokenResponse = match self.refresh_at(token.as_str(), now2) {
            Ok(t) => t,
            Err(_) => {
                proof {
                    assert(token@ == token_of(
                        sub@,
                        iat as int,
                        exp as int,
                        role@,
                        self.spec_secret(),
                    ));
                }
                return None;  // refuted above
            },
        };
        proof {
            let u = spec_find_user(self.spec_users(), sub@).unwrap();
            if first.access_token@ == second.access_token@ {
                assert(i64::MIN <= now2 as int + self.spec_access_secs() <= i64::MAX);
                // the first token's sole-encoding clause pins its issue instant
                assert(second.access_token@ == token_of(
                    u.username@,
                    now2 as int,
                    now2 as int + self.spec_access_secs(),
                    u.role@,
                    self.spec_secret(),
                ));
                assert(false);
            }
        }
        Some((first, second))
    }
}

} // verus!
