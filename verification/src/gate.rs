//! The request gate: the interception layer that classifies every inbound
//! request, extracts a bearer token on protected paths, verifies it through
//! the auth service, and either forwards the request with the verified
//! claims attached or short-circuits with a structured error body.
//!
//! The enforced invariant: a protected request is forwarded only together
//! with claims recovered from a genuine, unexpired token. The surrounding
//! HTTP layer performs the decided outcome; all decisions are made here.
use crate::auth_service::{lemma_found_user_name, spec_find_user, AuthService};
use crate::clock::clock_in_range;
use crate::codec::{spec_genuine, token_of};
use crate::errors::{spec_auth_message, spec_auth_status, AuthError, ErrorResponse};
use crate::models::auth::{password_verifies, Claims, LoginRequest, TokenResponse};
use crate::text::{has_prefix, spec_has_prefix, str_eq};
use vstd::prelude::*;

verus! {

/// The authorization header of a request: absent, present but not
/// readable as text, or its text.
pub enum AuthHeader {
    Missing,
    Unreadable,
    Text(String),
}

/// The decision on one request: forward, carrying the verified claims
/// when the path was protected, or short-circuit with the structured
/// error body. Exactly one of the two happens per request.
pub enum GateOutcome {
    Forward(Option<Claims>),
    ShortCircuit(ErrorResponse),
}

/// The outcome is a short-circuit carrying exactly the body of this error.
pub open spec fn spec_rejected_with(r: GateOutcome, err: AuthError) -> bool {
    &&& r matches GateOutcome::ShortCircuit(e) && e.success == false && e.error@
        == spec_auth_message(err) && e.error@.len() > 0 && e.code == spec_auth_status(err)
}

pub struct RequestGate {
    public_paths: Vec<String>,
}

impl RequestGate {
    /// The configured public-path allowlist.
    pub closed spec fn spec_public_paths(&self) -> Seq<Seq<char>> {
        self.public_paths.deep_view()
    }

    /// Whether a path is on the allowlist.
    pub open spec fn spec_is_public(&self, path: Seq<char>) -> bool {
        exists|i: int|
            0 <= i < self.spec_public_paths().len() && #[trigger] self.spec_public_paths()[i]
                == path
    }

    /// The standard layout: login and refresh are the public paths.
    pub fn new() -> (r: RequestGate)
        ensures
            r.spec_public_paths() =~= seq!["/token"@, "/refresh"@],
    {
        let mut public_paths: Vec<String> = Vec::new();
        public_paths.push(String::from_str("/token"));
        public_paths.push(String::from_str("/refresh"));
        RequestGate { public_paths }
    }

    /// A gate with a caller-chosen allowlist.
    pub fn with_public_paths(public_paths: Vec<String>) -> (r: RequestGate)
        ensures
            r.spec_public_paths() == public_paths.deep_view(),
    {
        RequestGate { public_paths }
    }

    fn is_public(&self, path: &str) -> (r: bool)
        ensures
            r == self.spec_is_public(path@),
    {
        let n: usize = self.public_paths.len();
        let mut i: usize = 0;
        while i < n
            invariant
                0 <= i <= n,
                n == self.spec_public_paths().len(),
                forall|j: int| 0 <= j < i ==> #[trigger] self.spec_public_paths()[j] != path@,
            decreases n - i,
        {
            proof {
                assert(self.spec_public_paths()[i as int] == self.public_paths@[i as int]@);
            }
            if str_eq(self.public_paths[i].as_str(), path) {
                return true;
            }
            i = i + 1;
        }
        false
    }

    /// Decides one request at a known instant.
    ///
    /// A public path forwards at once, unmodified and with nothing
    /// attached. On a protected path: a missing header short-circuits as
    /// missing; an unreadable header, or one without the bearer prefix,
    /// short-circuits as malformed; otherwise the stripped token is
    /// verified, a genuine token still ahead of its expiry forwards with
    /// its claims attached, and every other token short-circuits with the
    /// verification error. Claims are attached only when recovered from a
    /// genuine, unexpired token.
    pub fn handle_at(
        &self,
        service: &AuthService,
        path: &str,
        header: &AuthHeader,
        now: i64,
    ) -> (r: GateOutcome)
        requires
            service.wf(),
        ensures
            self.spec_is_public(path@) ==> r matches GateOutcome::Forward(None::<Claims>),
            !self.spec_is_public(path@) && header is Missing ==> spec_rejected_with(
                r,
                AuthError::MissingAuthHeader,
            ),
            !self.spec_is_public(path@) && header is Unreadable ==> spec_rejected_with(
                r,
                AuthError::MalformedAuthHeader,
            ),
            !self.spec_is_public(path@) ==> (header matches AuthHeader::Text(h) ==> (
            !spec_has_prefix(h@, "Bearer "@) ==> spec_rejected_with(
                r,
                AuthError::MalformedAuthHeader,
            ))),
            !self.spec_is_public(path@) ==> (header matches AuthHeader::Text(h)
                ==> (spec_has_prefix(h@, "Bearer "@) ==> {
                let tok = h@.subrange("Bearer "@.len() as int, h@.len() as int);
                &&& (forall|sub: Seq<char>, iat: int, exp: int, role: Seq<char>|
                    (i64::MIN <= iat <= i64::MAX && i64::MIN <= exp <= i64::MAX && tok
                        == #[trigger] token_of(sub, iat, exp, role, service.spec_secret())) ==> (
                    if exp <= now {
                        spec_rejected_with(r, AuthError::TokenExpired)
                    } else {
                        r matches GateOutcome::Forward(Some(cl)) && cl.sub@ == sub
                            && cl.iat as int == iat && cl.exp as int == exp && cl.role@ == role
                    }))
                &&& (!spec_genuine(tok, service.spec_secret()) ==> spec_rejected_with(
                    r,
                    AuthError::InvalidToken,
                ))
            })),
            r matches GateOutcome::Forward(Some(cl)) ==> !self.spec_is_public(path@)
                && cl.exp > now && (header matches AuthHeader::Text(h) && spec_has_prefix(
                h@,
                "Bearer "@,
            ) && h@.subrange("Bearer "@.len() as int, h@.len() as int) == token_of(
                cl.sub@,
                cl.iat as int,
                cl.exp as int,
                cl.role@,
                service.spec_secret(),
            )),
            r matches GateOutcome::Forward(None::<Claims>) ==> self.spec_is_public(path@),
    {
        if self.is_public(path) {
            return GateOutcome::Forward(None);
        }
        let h: &String = match header {
            AuthHeader::Missing => {
                return GateOutcome::ShortCircuit(AuthError::MissingAuthHeader.to_response());
            },
            AuthHeader::Unreadable => {
                return GateOutcome::ShortCircuit(AuthError::MalformedAuthHeader.to_response());
            },
            AuthHeader::Text(h) => h,
        };
        proof {
            reveal_strlit("Bearer ");
        }
        if !has_prefix(h.as_str(), "Bearer ") {
            return GateOutcome::ShortCircuit(AuthError::MalformedAuthHeader.to_response());
        }
        let hn: usize = h.as_str().unicode_len();
        let token: &str = h.as_str().substring_char(7, hn);
        match service.verify_at(token, now) {
            Ok(claims) => GateOutcome::Forward(Some(claims)),
            Err(e) => GateOutcome::ShortCircuit(e.to_response()),
        }
    }

    /// Decides one request against the clock: reads it once and rules at
    /// that instant. The header-shape outcomes are exactly those
    /// of `handle_at`; claims are attached only when recovered from a
    /// genuine token.
    pub fn handle(&self, service: &AuthService, path: &str, header: &AuthHeader) -> (r:
        GateOutcome)
        requires
            service.wf(),
        ensures
            self.spec_is_public(path@) ==> r matches GateOutcome::Forward(None::<Claims>),
            !self.spec_is_public(path@) && header is Missing ==> spec_rejected_with(
                r,
                AuthError::MissingAuthHeader,
            ),
            !self.spec_is_public(path@) && header is Unreadable ==> spec_rejected_with(
                r,
                AuthError::MalformedAuthHeader,
            ),
            !self.spec_is_public(path@) ==> (header matches AuthHeader::Text(h) ==> (
            !spec_has_prefix(h@, "Bearer "@) ==> spec_rejected_with(
                r,
                AuthError::MalformedAuthHeader,
            ))),
            r matches GateOutcome::Forward(Some(cl)) ==> !self.spec_is_public(path@)
                && (header matches AuthHeader::Text(h) && spec_has_prefix(h@, "Bearer "@)
                && h@.subrange("Bearer "@.len() as int, h@.len() as int) == token_of(
                cl.sub@,
                cl.iat as int,
                cl.exp as int,
                cl.role@,
                service.spec_secret(),
            )),
            r matches GateOutcome::Forward(None::<Claims>) ==> self.spec_is_public(path@),
    {
        let now: i64 = crate::clock::now_seconds();
        self.handle_at(service, path, header, now)
    }

    /// Law: a pair freshly issued to a principal opens every protected
    /// path. Logging in and presenting `Bearer ` plus the access token
    /// before its expiry forwards the request, and the attached claims
    /// carry the principal's username and role; a login that fails opens
    /// nothing.
    pub fn issued_token_accepted(
        &self,
        service: &AuthService,
        login_req: &LoginRequest,
        path: &str,
        now: i64,
        later: i64,
    ) -> (r: Option<Claims>)
        requires
            service.wf(),
            clock_in_range(now as int),
            now <= later < now + service.spec_access_secs(),
            !self.spec_is_public(path@),
        ensures
            match spec_find_user(service.spec_users(), login_req.username@) {
                Some(u) => password_verifies(login_req.password@, u.password_hash@) ==> (
                r matches Some(c) && c.sub@ == login_req.username@ && c.role@ == u.role@),
                None => r is None,
            },
    {
        proof {
            lemma_found_user_name(service.spec_users(), login_req.username@);
        }
        let pair: TokenResponse = match service.authenticate_at(login_req, now) {
            Ok(p) => p,
            Err(_) => {
                return None;  // exactly the logins that fail
            },
        };
        let header_text: String = String::from_str("Bearer ").concat(pair.access_token.as_str());
        let ghost ht: Seq<char> = header_text@;
        let header = AuthHeader::Text(header_text);
        proof {
            reveal_strlit("Bearer ");
            assert(ht.subrange(0, 7) =~= "Bearer "@);
            assert(ht.subrange(7, ht.len() as int) =~= pair.access_token@);
        }
        match self.handle_at(service, path, &header, later) {
            GateOutcome::Forward(Some(c)) => Some(c),
            _ => {
                return None;  // refuted: the presented token is genuine and unexpired
            },
        }
    }
}

} // verus!
