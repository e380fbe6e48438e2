//! Authorization decisions over an already verified identity, and the
//! extraction of a bearer token from an `Authorization` header.
use vstd::prelude::*;

use crate::errors::AppError;
use crate::text::{chars_of, starts_with, starts_with_at, string_of_range, trim, trim_bounds};
use crate::user::{UserId, UserRole};

verus! {

/// The identity carried by a verified token, for the length of one request.
#[derive(Debug, Clone, PartialEq, Eq)]
pub struct AuthenticatedUser {
    pub id: UserId,
    pub email: String,
    pub role: UserRole,
}

impl AuthenticatedUser {
    pub fn id(&self) -> (r: UserId)
        ensures
            r == self.id,
    {
        self.id
    }

    pub fn email(&self) -> (r: &str)
        ensures
            r@ == self.email@,
    {
        self.email.as_str()
    }

    pub fn role(&self) -> (r: &UserRole)
        ensures
            *r == self.role,
    {
        &self.role
    }
}

/// `e` is a `Forbidden` error with the text `m`.
pub open spec fn is_forbidden(e: AppError, m: Seq<char>) -> bool {
    e matches AppError::Forbidden(t) && t@ == m
}

/// `e` is an `Unauthorized` error with the text `m`.
pub open spec fn is_unauthorized(e: AppError, m: Seq<char>) -> bool {
    e matches AppError::Unauthorized(t) && t@ == m
}

/// Allowed exactly when the user holds the required role.
pub fn require_role(user: &AuthenticatedUser, required: UserRole) -> (r: Result<(), AppError>)
    ensures
        r is Ok <==> user.role == required,
        r is Err ==> is_forbidden(r->Err_0, "insufficient role"@),
{
    if user.role == required {
        Ok(())
    } else {
        Err(AppError::Forbidden("insufficient role".to_owned()))
    }
}

/// Allowed exactly for administrators.
pub fn ensure_admin(user: &AuthenticatedUser) -> (r: Result<(), AppError>)
    ensures
        r is Ok <==> user.role == UserRole::Admin,
        r is Err ==> is_forbidden(r->Err_0, "admin role required"@),
{
    match user.role {
        UserRole::Admin => Ok(()),
        _ => Err(AppError::Forbidden("admin role required".to_owned())),
    }
}

/// Allowed exactly when the user's role is among `allowed_roles`.
pub fn ensure_any(user: &AuthenticatedUser, allowed_roles: &[UserRole]) -> (r: Result<(), AppError>)
    ensures
        r is Ok <==> allowed_roles@.contains(user.role),
        r is Err ==> is_forbidden(r->Err_0, "insufficient role"@),
{
    let mut i: usize = 0;
    while i < allowed_roles.len()
        invariant
            i <= allowed_roles@.len(),
            forall|k: int| 0 <= k < i ==> allowed_roles@[k] != user.role,
        decreases allowed_roles@.len() - i,
    {
        if allowed_roles[i] == user.role {
            return Ok(());
        }
        i = i + 1;
    }
    Err(AppError::Forbidden("insufficient role".to_owned()))
}

/// Whether `user` may act on the resource owned by `target`.
pub open spec fn self_or_admin(user: AuthenticatedUser, target: UserId) -> bool {
    user.role == UserRole::Admin || user.id == target
}

/// Allowed for administrators, and for anyone acting on their own record.
pub fn require_self_or_admin(user: &AuthenticatedUser, target: UserId) -> (r: Result<(), AppError>)
    ensures
        r is Ok <==> self_or_admin(*user, target),
        r is Err ==> is_forbidden(r->Err_0, "insufficient privileges"@),
{
    if user.role == UserRole::Admin || user.id == target {
        Ok(())
    } else {
        Err(AppError::Forbidden("insufficient privileges".to_owned()))
    }
}

/// A viewer is refused another user's record, allowed its own; an
/// administrator is allowed any record.
pub proof fn lemma_self_or_admin_cases(user: AuthenticatedUser, target: UserId)
    ensures
        user.role == UserRole::Viewer && user.id != target ==> !self_or_admin(user, target),
        self_or_admin(user, user.id),
        user.role == UserRole::Admin ==> self_or_admin(user, target),
{
}

/// The text every rejected `Authorization` header gets, whatever was wrong.
pub open spec fn bearer_rejection() -> Seq<char> {
    "invalid or missing bearer token"@
}

pub open spec fn bearer_prefix() -> Seq<char> {
    "Bearer "@
}

/// `s` with every leading repetition of `p` removed.
pub open spec fn strip_prefixes(s: Seq<char>, p: Seq<char>) -> Seq<char>
    decreases s.len(),
{
    if p.len() > 0 && starts_with(s, p) {
        strip_prefixes(s.subrange(p.len() as int, s.len() as int), p)
    } else {
        s
    }
}

/// The token an `Authorization` header carries, if it carries one.
pub open spec fn bearer_token(header: Seq<char>) -> Option<Seq<char>> {
    if !starts_with(header, bearer_prefix()) {
        None
    } else {
        let token = trim(strip_prefixes(header, bearer_prefix()));
        if token.len() == 0 {
            None
        } else {
            Some(token)
        }
    }
}

/// Reads `Bearer <token>`. A missing header, another scheme and an empty
/// token are refused alike, with one and the same text.
pub fn extract_bearer_token(header: Option<&str>) -> (r: Result<String, AppError>)
    ensures
        match header {
            None => is_unauthorized(r->Err_0, bearer_rejection()) && r is Err,
            Some(h) => match bearer_token(h@) {
                Some(t) => r is Ok && r->Ok_0@ == t,
                None => r is Err && is_unauthorized(r->Err_0, bearer_rejection()),
            },
        },
{
    let h = match header {
        Some(h) => h,
        None => return Err(AppError::Unauthorized("invalid or missing bearer token".to_owned())),
    };
    let v = chars_of(h);
    let p = chars_of("Bearer ");
    proof {
        reveal_strlit("Bearer ");
        assert(v@.subrange(0, v@.len() as int) =~= v@);
    }
    if !starts_with_at(&v, 0, &p) {
        return Err(AppError::Unauthorized("invalid or missing bearer token".to_owned()));
    }
    let mut at: usize = 0;
    let mut more = true;
    let n = v.len();
    while more
        invariant
            n == v@.len(),
            at <= v@.len(),
            more == starts_with(v@.subrange(at as int, v@.len() as int), p@),
            p@ == bearer_prefix(),
            p@.len() == 7,
            strip_prefixes(v@, p@) == strip_prefixes(v@.subrange(at as int, v@.len() as int), p@),
        decreases v@.len() - at,
    {
        proof {
            let rest = v@.subrange(at as int, v@.len() as int);
            assert(starts_with(rest, p@));
            assert(rest.len() >= 7);
            assert(rest.subrange(7, rest.len() as int) =~= v@.subrange(at + 7, v@.len() as int));
        }
        at = at + 7;
        more = starts_with_at(&v, at, &p);
    }
    let mut tail: Vec<char> = Vec::new();
    let mut k: usize = at;
    while k < v.len()
        invariant
            at <= k <= v@.len(),
            tail@ == v@.subrange(at as int, k as int),
        decreases v@.len() - k,
    {
        tail.push(v[k]);
        k = k + 1;
        assert(tail@ =~= v@.subrange(at as int, k as int));
    }
    let (from, to) = trim_bounds(&tail);
    if from == to {
        return Err(AppError::Unauthorized("invalid or missing bearer token".to_owned()));
    }
    Ok(string_of_range(&tail, from, to))
}

} // verus!
