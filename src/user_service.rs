//! The decisions of user management: turning requests into validated
//! creations and updates, and deciding what an actor may see. Storage is the
//! caller's.
use vstd::prelude::*;

use crate::auth_service::AuthSession;
use crate::errors::AppError;
use crate::guard::AuthenticatedUser;
use crate::password::{argon2_verdict, hash_password};
use crate::text::{eq_text, trim};
use crate::user::{normalized_role_text, parse_role, role_named, role_text, NewUser, UpdateUser, User, UserId, UserRole};
use crate::value_objects::{
    email_error_message, meets_policy, name_error_message, password_error_message, EmailAddress,
    PasswordHash, PlainPassword, UserName,
};

verus! {

/// A request to create a user.
#[derive(Debug, Clone, PartialEq, Eq)]
pub struct CreateUserDto {
    pub name: String,
    pub email: String,
    pub password: String,
    pub role: String,
}

/// A request to change some fields of a user.
#[derive(Debug, Clone, PartialEq, Eq)]
pub struct UpdateUserDto {
    pub name: Option<String>,
    pub email: Option<String>,
    pub password: Option<String>,
    pub role: Option<String>,
}

/// A user as shown to callers: no password hash.
#[derive(Debug, Clone, PartialEq, Eq)]
pub struct UserResponseDto {
    pub id: UserId,
    pub name: String,
    pub email: String,
    pub role: String,
    pub created_at: i64,
    pub updated_at: i64,
}

impl UserResponseDto {
    pub fn from_user(user: &User) -> (r: UserResponseDto)
        ensures
            r.id == user.spec_id(),
            r.name@ == user.spec_name()@,
            r.email@ == user.spec_email()@,
            r.role@ == role_text(user.spec_role()),
            r.created_at == user.spec_created_at(),
            r.updated_at == user.spec_updated_at(),
    {
        UserResponseDto {
            id: user.id(),
            name: user.name().as_str().to_owned(),
            email: user.email().as_str().to_owned(),
            role: user.role().as_str().to_owned(),
            created_at: user.created_at(),
            updated_at: user.updated_at(),
        }
    }

    pub fn id(&self) -> (r: UserId)
        ensures
            r == self.id,
    {
        self.id
    }

    pub fn name(&self) -> (r: &str)
        ensures
            r@ == self.name@,
    {
        self.name.as_str()
    }

    pub fn email(&self) -> (r: &str)
        ensures
            r@ == self.email@,
    {
        self.email.as_str()
    }

    pub fn role(&self) -> (r: &str)
        ensures
            r@ == self.role@,
    {
        self.role.as_str()
    }
}

/// Credentials submitted to log in.
#[derive(Debug, Clone, PartialEq, Eq)]
pub struct LoginRequestDto {
    pub email: String,
    pub password: String,
}

/// The identity part of a login response.
#[derive(Debug, Clone, PartialEq, Eq)]
pub struct AuthenticatedUserDto {
    pub id: UserId,
    pub email: String,
    pub role: String,
}

/// What a successful login returns.
#[derive(Debug, Clone, PartialEq, Eq)]
pub struct LoginResponseDto {
    pub access_token: String,
    pub expires_at: i64,
    pub user: AuthenticatedUserDto,
}

impl LoginResponseDto {
    pub fn from_session(session: AuthSession) -> (r: LoginResponseDto)
        ensures
            r.access_token@ == session.token@,
            r.expires_at == session.expires_at,
            r.user.id == session.user.id,
            r.user.email@ == session.user.email@,
            r.user.role@ == role_text(session.user.role),
    {
        let role = session.user.role.as_str().to_owned();
        LoginResponseDto {
            access_token: session.token,
            expires_at: session.expires_at,
            user: AuthenticatedUserDto { id: session.user.id, email: session.user.email, role },
        }
    }
}

/// `e` is a validation error with the text `m`.
pub open spec fn is_validation(e: AppError, m: Seq<char>) -> bool {
    e matches AppError::Validation(t) && t@ == m
}

/// Hashes a password that met the policy into a storable hash. A hasher
/// failure, or a hash text that would not be stored as produced, is an
/// anomaly of the infrastructure.
fn hash_plain(password: &PlainPassword) -> (r: Result<PasswordHash, AppError>)
    ensures
        match r {
            Ok(h) => h.wf() && argon2_verdict(h@, password@) == Some(true),
            Err(e) => e is Unexpected,
        },
{
    let raw = match hash_password(password.as_str()) {
        Ok(h) => h,
        Err(_) => return Err(AppError::Unexpected("failed to hash password".to_owned())),
    };
    match PasswordHash::new(raw.as_str()) {
        Ok(h) => {
            if eq_text(h.as_str(), raw.as_str()) {
                Ok(h)
            } else {
                Err(AppError::Unexpected("password hash is not in stored form".to_owned()))
            }
        },
        Err(_) => Err(AppError::Unexpected("failed to hash password".to_owned())),
    }
}

/// The validation message of the first invalid field of a creation
/// request, in the order role, name, e-mail, password; `None` if all are
/// valid.
pub open spec fn creation_error(dto: CreateUserDto) -> Option<Seq<char>> {
    if role_named(normalized_role_text(dto.role@)) is None {
        Some("invalid role: "@ + dto.role@)
    } else if !UserName::spec_valid(dto.name@) {
        Some(name_error_message(trim(dto.name@)))
    } else if !EmailAddress::spec_valid(dto.email@) {
        Some(email_error_message(trim(dto.email@)))
    } else if !meets_policy(dto.password@) {
        Some(password_error_message(dto.password@))
    } else {
        None
    }
}

/// Validates a creation request: the role, then the name, then the e-mail,
/// then the password policy; the password is hashed last, and only a
/// failure of the hasher can then refuse the request.
pub fn new_user_from(dto: &CreateUserDto) -> (r: Result<NewUser, AppError>)
    ensures
        match creation_error(*dto) {
            Some(m) => r is Err && is_validation(r->Err_0, m),
            None => r is Ok || r->Err_0 is Unexpected,
        },
        r is Ok ==> ({
            let u = r->Ok_0;
            &&& Some(u.role) == role_named(normalized_role_text(dto.role@))
            &&& u.name@ == trim(dto.name@) && u.name.wf()
            &&& u.email@ == trim(dto.email@) && u.email.wf()
            &&& u.password_hash.wf()
            &&& argon2_verdict(u.password_hash@, dto.password@) == Some(true)
        }),
{
    let role = match parse_role(dto.role.as_str()) {
        Ok(r) => r,
        Err(e) => return Err(e),
    };
    let name = match UserName::parse(dto.name.as_str()) {
        Ok(n) => n,
        Err(e) => return Err(AppError::from_domain(e)),
    };
    let email = match EmailAddress::parse(dto.email.as_str()) {
        Ok(e) => e,
        Err(e) => return Err(AppError::from_domain(e)),
    };
    let password = match PlainPassword::parse(dto.password.as_str()) {
        Ok(p) => p,
        Err(e) => return Err(AppError::from_domain(e)),
    };
    let password_hash = match hash_plain(&password) {
        Ok(h) => h,
        Err(e) => return Err(e),
    };
    Ok(NewUser::build(name, email, password_hash, role))
}

/// The validation message of the first invalid field of an update request,
/// in the order name, e-mail, password, role, or the refusal of a request
/// that changes nothing; `None` if the request is valid.
pub open spec fn update_error(dto: UpdateUserDto) -> Option<Seq<char>> {
    if dto.name is Some && !UserName::spec_valid(dto.name->Some_0@) {
        Some(name_error_message(trim(dto.name->Some_0@)))
    } else if dto.email is Some && !EmailAddress::spec_valid(dto.email->Some_0@) {
        Some(email_error_message(trim(dto.email->Some_0@)))
    } else if dto.password is Some && !meets_policy(dto.password->Some_0@) {
        Some(password_error_message(dto.password->Some_0@))
    } else if dto.role is Some && role_named(normalized_role_text(dto.role->Some_0@)) is None {
        Some("invalid role: "@ + dto.role->Some_0@)
    } else if dto.name is None && dto.email is None && dto.password is None && dto.role is None {
        Some("at least one field must be provided"@)
    } else {
        None
    }
}

/// Validates an update request field by field (name, e-mail, password,
/// role); a request that changes nothing is refused. A new password is
/// hashed last, and only a failure of the hasher can then refuse the request.
pub fn update_from(dto: &UpdateUserDto) -> (r: Result<UpdateUser, AppError>)
    ensures
        match update_error(*dto) {
            Some(m) => r is Err && is_validation(r->Err_0, m),
            None => if dto.password is None {
                r is Ok
            } else {
                r is Ok || r->Err_0 is Unexpected
            },
        },
        r is Ok ==> ({
            let u = r->Ok_0;
            &&& u.name is Some == dto.name is Some
            &&& u.name is Some ==> u.name->Some_0@ == trim(dto.name->Some_0@)
                && u.name->Some_0.wf()
            &&& u.email is Some == dto.email is Some
            &&& u.email is Some ==> u.email->Some_0@ == trim(dto.email->Some_0@)
                && u.email->Some_0.wf()
            &&& u.password_hash is Some == dto.password is Some
            &&& u.password_hash is Some ==> u.password_hash->Some_0.wf() && argon2_verdict(
                u.password_hash->Some_0@,
                dto.password->Some_0@,
            ) == Some(true)
            &&& u.role is Some == dto.role is Some
            &&& u.role is Some ==> Some(u.role->Some_0) == role_named(
                normalized_role_text(dto.role->Some_0@),
            )
        }),
{
    let mut update = UpdateUser::default();
    if let Some(name) = &dto.name {
        match UserName::parse(name.as_str()) {
            Ok(n) => {
                update = update.apply_name(n);
            },
            Err(e) => return Err(AppError::from_domain(e)),
        }
    }
    if let Some(email) = &dto.email {
        match EmailAddress::parse(email.as_str()) {
            Ok(e) => {
                update = update.apply_email(e);
            },
            Err(e) => return Err(AppError::from_domain(e)),
        }
    }
    let mut plain: Option<PlainPassword> = None;
    if let Some(password) = &dto.password {
        match PlainPassword::parse(password.as_str()) {
            Ok(p) => {
                plain = Some(p);
            },
            Err(e) => return Err(AppError::from_domain(e)),
        }
    }
    if let Some(role) = &dto.role {
        match parse_role(role.as_str()) {
            Ok(r) => {
                update = update.apply_role(r);
            },
            Err(e) => return Err(e),
        }
    }
    if update.is_empty() && plain.is_none() {
        return Err(AppError::Validation("at least one field must be provided".to_owned()));
    }
    if let Some(p) = &plain {
        match hash_plain(p) {
            Ok(h) => {
                update = update.apply_password_hash(h);
            },
            Err(e) => return Err(e),
        }
    }
    Ok(update)
}

/// Whose records a listing returns: `None` for everyone's (administrators),
/// otherwise only the actor's own.
pub fn list_scope(actor: &AuthenticatedUser) -> (r: Option<UserId>)
    ensures
        r == (if actor.role == UserRole::Admin {
            None
        } else {
            Some(actor.id)
        }),
{
    if actor.role == UserRole::Admin {
        None
    } else {
        Some(actor.id)
    }
}

/// The error for a user id that names no record.
pub fn user_not_found(id: UserId) -> (r: AppError)
    ensures
        r matches AppError::NotFound(m) && m@ == "user "@ + crate::user::uuid_text(id.0)
            + " not found"@,
{
    let mut m = "user ".to_owned();
    let text = id.to_text();
    m.append(text.as_str());
    m.append(" not found");
    AppError::NotFound(m)
}

} // verus!
