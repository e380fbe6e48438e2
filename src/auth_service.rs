//! Authentication: a stored credential is checked, a token is issued, and
//! presented tokens are turned back into identities.
//!
//! The lookup of the user record is the caller's; this service decides on
//! the record it is handed (or on its absence).
use vstd::prelude::*;

use crate::audit::{AuditActor, AuditEvent, AuditOutcome, AuditTarget};
use crate::claims_json::{claims_json, claims_plain, Claims};
use crate::errors::{error_text, AppError};
use crate::guard::{is_unauthorized, AuthenticatedUser};
use crate::password::{argon2_verdict, verify_password, PasswordError};
use crate::token::{
    claims_of_text, is_expired, jwt_opened, jwt_signed, unix_now, JwtManager, TokenError,
};
use crate::user::{role_named, role_text, uuid_text, User, UserRole};
use crate::validation::{sanitize_for_logging, sanitized};

verus! {

/// The one text given for every failed login, whatever failed.
pub open spec fn invalid_credentials() -> Seq<char> {
    "invalid credentials"@
}

/// An issued token, its expiry, and who it was issued to.
#[derive(Debug, Clone, PartialEq, Eq)]
pub struct AuthSession {
    pub token: String,
    pub expires_at: i64,
    pub user: AuthenticatedUser,
}

/// The error an expired, invalid or unissuable token becomes at the boundary.
pub fn map_token_error(err: TokenError) -> (r: AppError)
    ensures
        match err {
            TokenError::Expired => is_unauthorized(r, "token expired"@),
            TokenError::Invalid(_) => is_unauthorized(r, "invalid token"@),
            TokenError::InvalidTtl => r matches AppError::Unexpected(m) && m@
                == "token generated with invalid ttl"@,
        },
{
    match err {
        TokenError::Expired => AppError::Unauthorized("token expired".to_owned()),
        TokenError::Invalid(_) => AppError::Unauthorized("invalid token".to_owned()),
        TokenError::InvalidTtl => AppError::Unexpected("token generated with invalid ttl".to_owned()),
    }
}

impl AuthenticatedUser {
    /// The identity that verified claims assert; a role outside the closed
    /// set is an anomaly, not a credentials problem.
    pub fn from_claims(claims: Claims) -> (r: Result<AuthenticatedUser, AppError>)
        ensures
            match role_named(claims.role@) {
                Some(role) => r is Ok && r->Ok_0.id == claims.sub && r->Ok_0.email@ == claims.email@
                    && r->Ok_0.role == role,
                None => r is Err && r->Err_0 is Unexpected,
            },
    {
        match UserRole::from_str(claims.role.as_str()) {
            Ok(role) => Ok(AuthenticatedUser { id: claims.sub, email: claims.email, role }),
            Err(e) => {
                let mut m = "invalid role in token: ".to_owned();
                m.append(e.0.as_str());
                Err(AppError::Unexpected(m))
            },
        }
    }
}

/// The result for well-signed, unexpired claims `c`: their identity, or an
/// anomaly when the role is outside the closed set.
pub open spec fn identity_of(r: Result<AuthenticatedUser, AppError>, c: Claims) -> bool {
    match role_named(c.role@) {
        Some(role) => r is Ok && r->Ok_0.id == c.sub && r->Ok_0.email@ == c.email@ && r->Ok_0.role
            == role,
        None => r is Err && r->Err_0 is Unexpected,
    }
}

/// The session projects the user record.
pub open spec fn session_for(s: AuthSession, u: User, jwt: JwtManager) -> bool {
    s.user.id == u.spec_id() && s.user.email@ == u.spec_email()@ && s.user.role == u.spec_role()
}

/// The session's token signs claims `c` that assert the user's identity and
/// expire with the session.
pub open spec fn issued_for(c: Claims, u: User, s: AuthSession, jwt: JwtManager) -> bool {
    &&& c.sub == u.spec_id()
    &&& c.email@ == u.spec_email()@
    &&& c.role@ == role_text(u.spec_role())
    &&& c.exp == s.expires_at
    &&& claims_plain(c)
    &&& jwt_signed(claims_json(c), jwt.spec_secret()) == s.token@
}

/// Checks credentials and issues tokens.
#[derive(Clone, Debug)]
pub struct AuthService {
    jwt: JwtManager,
}

impl AuthService {
    pub closed spec fn spec_jwt(&self) -> JwtManager {
        self.jwt
    }

    pub fn new(jwt: JwtManager) -> (r: AuthService)
        ensures
            r.spec_jwt() == jwt,
    {
        AuthService { jwt }
    }

    /// Decides a login at the instant `now`, on the record found for the
    /// submitted e-mail. An unknown e-mail and a wrong password fail alike.
    pub fn authenticate_at(&self, found: Option<&User>, password_input: &str, now: i64) -> (r: Result<AuthSession, AppError>)
        ensures
            match found {
                None => r is Err && is_unauthorized(r->Err_0, invalid_credentials()),
                Some(u) => match argon2_verdict(u.spec_password_hash()@, password_input@) {
                    Some(false) => r is Err && is_unauthorized(r->Err_0, invalid_credentials()),
                    None => r is Err && r->Err_0 is Unexpected,
                    Some(true) => match self.spec_jwt().expiry_at(now) {
                        None => r is Err && r->Err_0 is Unexpected,
                        Some(exp) => r is Ok && session_for(r->Ok_0, *u, self.spec_jwt())
                            && r->Ok_0.expires_at == exp && exists|c: Claims|
                            c.iat == now && #[trigger] issued_for(c, *u, r->Ok_0, self.spec_jwt()),
                    },
                },
            },
    {
        let user = match found {
            Some(u) => u,
            None => return Err(AppError::Unauthorized("invalid credentials".to_owned())),
        };
        match verify_password(user.password_hash().as_str(), password_input) {
            Ok(()) => {},
            Err(PasswordError::InvalidPassword) => {
                return Err(AppError::Unauthorized("invalid credentials".to_owned()));
            },
            Err(PasswordError::Hash(_)) => {
                return Err(AppError::Unexpected("failed to verify stored password hash".to_owned()));
            },
        }
        let details = match self.jwt.generate_at(user.id(), user.email(), user.role(), now) {
            Ok(d) => d,
            Err(_) => return Err(AppError::Unexpected("failed to issue token".to_owned())),
        };
        let ghost token_view = details.token@;
        let ghost expires = details.expires_at;
        let session = AuthSession {
            token: details.token,
            expires_at: details.expires_at,
            user: AuthenticatedUser {
                id: user.id(),
                email: user.email().as_str().to_owned(),
                role: user.role(),
            },
        };
        proof {
            let c = choose|c: Claims|
                c.sub == user.spec_id() && c.email@ == user.spec_email()@ && c.role@ == role_text(
                    user.spec_role(),
                ) && c.iat == now && c.exp == expires && claims_plain(c) && #[trigger] jwt_signed(
                    claims_json(c),
                    self.jwt.spec_secret(),
                ) == token_view;
            assert(issued_for(c, *user, session, self.jwt));
        }
        Ok(session)
    }

    /// Decides a login now.
    pub fn authenticate(&self, found: Option<&User>, password_input: &str) -> (r: Result<AuthSession, AppError>)
        ensures
            match found {
                None => r is Err && is_unauthorized(r->Err_0, invalid_credentials()),
                Some(u) => match argon2_verdict(u.spec_password_hash()@, password_input@) {
                    Some(false) => r is Err && is_unauthorized(r->Err_0, invalid_credentials()),
                    None => r is Err && r->Err_0 is Unexpected,
                    Some(true) => match r {
                        Ok(s) => session_for(s, *u, self.spec_jwt()) && exists|c: Claims|
                            c.exp == c.iat + 60 * self.spec_jwt().spec_ttl_minutes()
                                && #[trigger] issued_for(c, *u, s, self.spec_jwt()),
                        Err(e) => e is Unexpected,
                    },
                },
            },
    {
        let now = unix_now();
        self.authenticate_at(found, password_input, now)
    }

    /// The identity a presented token asserts, checked at `now`.
    pub fn verify_at(&self, token: &str, now: i64) -> (r: Result<AuthenticatedUser, AppError>)
        ensures
            match jwt_opened(token@, self.spec_jwt().spec_secret()) {
                None => r is Err && is_unauthorized(r->Err_0, "invalid token"@),
                Some(t) => match claims_of_text(t) {
                    None => r is Err && is_unauthorized(r->Err_0, "invalid token"@),
                    Some(c) => if is_expired(c.exp, now) {
                        r is Err && is_unauthorized(r->Err_0, "token expired"@)
                    } else {
                        identity_of(r, c)
                    },
                },
            },
            forall|c: Claims|
                token@ == #[trigger] jwt_signed(claims_json(c), self.spec_jwt().spec_secret())
                    && claims_plain(c) && c.exp >= 0 && role_named(c.role@) is Some ==> if is_expired(
                    c.exp,
                    now,
                ) {
                    r is Err && is_unauthorized(r->Err_0, "token expired"@)
                } else {
                    identity_of(r, c)
                },
    {
        let claims = match self.jwt.verify_at(token, now) {
            Ok(c) => c,
            Err(e) => return Err(map_token_error(e)),
        };
        let ghost c = claims;
        let r = AuthenticatedUser::from_claims(claims);
        proof {
            if r is Ok {
                crate::user::lemma_role_text_round_trip(r->Ok_0.role);
                reveal_strlit("admin");
                reveal_strlit("viewer");
                assert(role_text(r->Ok_0.role) == c.role@);
            }
        }
        r
    }

    /// The identity a presented token asserts, checked now.
    pub fn verify(&self, token: &str) -> (r: Result<AuthenticatedUser, AppError>)
        ensures
            match jwt_opened(token@, self.spec_jwt().spec_secret()) {
                None => r is Err && is_unauthorized(r->Err_0, "invalid token"@),
                Some(t) => match claims_of_text(t) {
                    None => r is Err && is_unauthorized(r->Err_0, "invalid token"@),
                    Some(c) => identity_of(r, c) || (r is Err && is_unauthorized(
                        r->Err_0,
                        "token expired"@,
                    )),
                },
            },
    {
        let now = unix_now();
        self.verify_at(token, now)
    }
}

/// A failed login reads the same whether the e-mail was unknown or the
/// password wrong: both are the one `invalid credentials` error.
pub proof fn lemma_login_failures_indistinguishable(unknown_email: AppError, wrong_password: AppError)
    requires
        is_unauthorized(unknown_email, invalid_credentials()),
        is_unauthorized(wrong_password, invalid_credentials()),
    ensures
        error_text(unknown_email) == error_text(wrong_password),
{
}

/// The audit event of a login attempt: its outcome is the one returned to
/// the caller; on failure the actor is the submitted e-mail alone.
pub fn login_audit_event(email: &str, result: &Result<AuthSession, AppError>) -> (r: AuditEvent)
    ensures
        r.action@ == "auth.login"@,
        r.outcome == (if result is Ok {
            AuditOutcome::Success
        } else {
            AuditOutcome::Failure
        }),
        r.target.kind@ == "auth"@,
        match result {
            Ok(s) => r.actor.id == Some(s.user.id) && r.actor.role is Some
                && r.actor.role->Some_0@ == role_text(s.user.role) && r.actor.email is Some
                && r.actor.email->Some_0@ == sanitized(s.user.email@) && r.target.id is Some
                && r.target.id->Some_0@ == uuid_text(s.user.id.0) && r.detail is None && r.ip is None,
            Err(e) => r.actor.id is None && r.actor.role is None && r.actor.email is Some
                && r.actor.email->Some_0@ == sanitized(email@) && r.target.id is None
                && r.detail is Some && r.detail->Some_0@ == sanitized(error_text(*e)) && r.ip is None,
        },
{
    match result {
        Ok(session) => {
            let actor = AuditActor {
                id: Some(session.user.id),
                email: Some(sanitize_for_logging(session.user.email.as_str())),
                role: Some(session.user.role.as_str().to_owned()),
            };
            let target = AuditTarget::new("auth", Some(session.user.id.to_text()));
            AuditEvent::success("auth.login", actor, target, None, None)
        },
        Err(err) => {
            let actor = AuditActor { id: None, email: Some(sanitize_for_logging(email)), role: None };
            let target = AuditTarget::new("auth", None);
            let text = err.describe();
            let detail = sanitize_for_logging(text.as_str());
            AuditEvent::failure("auth.login", actor, target, Some(detail), None)
        },
    }
}

} // verus!
