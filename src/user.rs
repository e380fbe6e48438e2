//! Users, their roles, and the values that create or change them.
use vstd::prelude::*;

use crate::errors::{AppError, DomainError};
use crate::text::{eq_text, lower_of, string_of, to_lowercase, trim, trimmed};
use crate::value_objects::{
    email_error_message, name_error_message, EmailAddress, PasswordHash, PlainPassword, UserName,
};

verus! {

/// The closed set of permission levels.
#[derive(Clone, Copy, Debug, PartialEq, Eq, Structural, Hash)]
pub enum UserRole {
    Admin,
    Viewer,
}

/// Canonical text of a role.
pub open spec fn role_text(r: UserRole) -> Seq<char> {
    match r {
        UserRole::Admin => "admin"@,
        UserRole::Viewer => "viewer"@,
    }
}

/// The role whose canonical text is `s`, if any.
pub open spec fn role_named(s: Seq<char>) -> Option<UserRole> {
    if s == "admin"@ {
        Some(UserRole::Admin)
    } else if s == "viewer"@ {
        Some(UserRole::Viewer)
    } else {
        None
    }
}

/// A role name outside the closed set; it carries the offending text.
#[derive(Debug, Clone, PartialEq, Eq)]
pub struct UserRoleParseError(pub String);

impl UserRole {
    pub fn as_str(&self) -> (r: &'static str)
        ensures
            r@ == role_text(*self),
    {
        match self {
            UserRole::Admin => "admin",
            UserRole::Viewer => "viewer",
        }
    }

    /// Exact match against the canonical texts.
    pub fn from_str(value: &str) -> (r: Result<UserRole, UserRoleParseError>)
        ensures
            match role_named(value@) {
                Some(role) => r == Ok::<UserRole, UserRoleParseError>(role),
                None => r is Err && r->Err_0.0@ == "invalid role: "@ + value@,
            },
    {
        if eq_text(value, "admin") {
            Ok(UserRole::Admin)
        } else if eq_text(value, "viewer") {
            Ok(UserRole::Viewer)
        } else {
            proof {
                assert(value@ != "admin"@);
                assert(value@ != "viewer"@);
            }
            let mut message = "invalid role: ".to_owned();
            message.append(value);
            Err(UserRoleParseError(message))
        }
    }
}

/// Parsing a role's canonical text gives back the role.
pub proof fn lemma_role_text_round_trip(r: UserRole)
    ensures
        role_named(role_text(r)) == Some(r),
{
    reveal_strlit("admin");
    reveal_strlit("viewer");
    assert("admin"@.len() == 5);
    assert("viewer"@.len() == 6);
}

/// Every text outside the closed set is refused.
pub proof fn lemma_role_named_only_canonical(s: Seq<char>)
    ensures
        role_named(s) is Some <==> (s == "admin"@ || s == "viewer"@),
{
}

/// The role a caller's text stands for: trimmed, lower-cased, then matched.
pub open spec fn normalized_role_text(raw: Seq<char>) -> Seq<char> {
    lower_of(trim(raw))
}

/// Trims and lower-cases `raw`, then matches it against the closed set; an
/// unknown role is a validation error that carries the raw text as given.
pub fn parse_role(raw: &str) -> (r: Result<UserRole, AppError>)
    ensures
        match role_named(normalized_role_text(raw@)) {
            Some(role) => r == Ok::<UserRole, AppError>(role),
            None => r is Err && (r->Err_0 matches AppError::Validation(m) && m@ == "invalid role: "@
                + raw@),
        },
{
    let t = trimmed(raw);
    let t = string_of(&t);
    let normalized = to_lowercase(t.as_str());
    match UserRole::from_str(normalized.as_str()) {
        Ok(role) => Ok(role),
        Err(_) => {
            let mut message = "invalid role: ".to_owned();
            message.append(raw);
            Err(AppError::Validation(message))
        },
    }
}

/// The identity of a user: a 128-bit UUID.
#[derive(Clone, Copy, Debug, PartialEq, Eq, Structural, Hash)]
pub struct UserId(pub u128);

/// The lower-case hex digit of `d`.
pub open spec fn hex_char(d: int) -> char {
    if d == 0 {
        '0'
    } else if d == 1 {
        '1'
    } else if d == 2 {
        '2'
    } else if d == 3 {
        '3'
    } else if d == 4 {
        '4'
    } else if d == 5 {
        '5'
    } else if d == 6 {
        '6'
    } else if d == 7 {
        '7'
    } else if d == 8 {
        '8'
    } else if d == 9 {
        '9'
    } else if d == 10 {
        'a'
    } else if d == 11 {
        'b'
    } else if d == 12 {
        'c'
    } else if d == 13 {
        'd'
    } else if d == 14 {
        'e'
    } else {
        'f'
    }
}

/// `16` to the power `k`.
pub open spec fn pow16(k: nat) -> nat
    decreases k,
{
    if k == 0 {
        1
    } else {
        16 * pow16((k - 1) as nat)
    }
}

/// The `k`-th hex digit of `v`, most significant first (`0 <= k < 32`).
pub open spec fn nibble(v: u128, k: int) -> int {
    (v as int / pow16((31 - k) as nat) as int) % 16
}

/// Number of hyphens before position `i` of the hyphenated text.
pub open spec fn hyphens_before(i: int) -> int {
    if i < 8 {
        0
    } else if i < 13 {
        1
    } else if i < 18 {
        2
    } else if i < 23 {
        3
    } else {
        4
    }
}

/// The hyphenated lower-case text of the UUID `v`: its 32 hex digits, most
/// significant first, in groups of 8, 4, 4, 4 and 12 joined by `-`.
pub open spec fn uuid_text(v: u128) -> Seq<char> {
    Seq::new(
        36,
        |i: int|
            if i == 8 || i == 13 || i == 18 || i == 23 {
                '-'
            } else {
                hex_char(nibble(v, i - hyphens_before(i)))
            },
    )
}

/// What the `uuid` crate reads from the text `s`.
pub uninterp spec fn uuid_read(s: Seq<char>) -> Option<u128>;

/// A character of the hyphenated UUID text: a lower-case hex digit or `-`.
pub open spec fn is_uuid_char(c: char) -> bool {
    ('0' <= c && c <= '9') || ('a' <= c && c <= 'f') || c == '-'
}

/// Relies on `uuid::Uuid::from_u128` (big-endian) and the `Display` of
/// `Uuid::hyphenated`: lower-case hex digits in groups joined by `-`.
#[verifier::external_body]
fn hyphenated_text(v: u128) -> (r: String)
    ensures
        r@ == uuid_text(v),
{
    uuid::Uuid::from_u128(v).hyphenated().to_string()
}

/// Relies on `uuid::Uuid::parse_str`, which reads every format the crate
/// writes, the hyphenated one among them.
#[verifier::external_body]
fn parse_uuid(s: &str) -> (r: Option<u128>)
    ensures
        r == uuid_read(s@),
        forall|v: u128| s@ == uuid_text(v) ==> r == Some(v),
{
    uuid::Uuid::parse_str(s).ok().map(|u| u.as_u128())
}

proof fn lemma_pow16_positive(k: nat)
    ensures
        pow16(k) >= 1,
    decreases k,
{
    if k > 0 {
        lemma_pow16_positive((k - 1) as nat);
    }
}

/// Every character of the hyphenated text is a hex digit or `-`.
pub proof fn lemma_uuid_text_chars(v: u128)
    ensures
        uuid_text(v).len() == 36,
        forall|i: int| 0 <= i < uuid_text(v).len() ==> is_uuid_char(#[trigger] uuid_text(v)[i]),
{
    assert forall|i: int| 0 <= i < uuid_text(v).len() implies is_uuid_char(#[trigger] uuid_text(v)[i]) by {
        if !(i == 8 || i == 13 || i == 18 || i == 23) {
            let k = i - hyphens_before(i);
            let p = pow16((31 - k) as nat) as int;
            lemma_pow16_positive((31 - k) as nat);
            assert(0 <= nibble(v, k) < 16) by {
                assert(v as int / p >= 0) by (nonlinear_arith)
                    requires
                        v as int >= 0,
                        p >= 1,
                ;
            }
        }
    }
}

impl UserId {
    /// The hyphenated text of the id.
    pub fn to_text(&self) -> (r: String)
        ensures
            r@ == uuid_text(self.0),
            forall|i: int| 0 <= i < r@.len() ==> is_uuid_char(#[trigger] r@[i]),
    {
        proof {
            lemma_uuid_text_chars(self.0);
        }
        hyphenated_text(self.0)
    }

    /// Reads an id in any of the UUID formats.
    pub fn parse_text(s: &str) -> (r: Option<UserId>)
        ensures
            r == (match uuid_read(s@) {
                Some(v) => Some(UserId(v)),
                None => None,
            }),
            forall|v: u128| s@ == uuid_text(v) ==> r == Some(UserId(v)),
    {
        match parse_uuid(s) {
            Some(v) => Some(UserId(v)),
            None => None,
        }
    }
}

/// The message of the first check that fails, in the order name, e-mail,
/// password hash.
pub open spec fn first_entity_error(name: Seq<char>, email: Seq<char>, hash: Seq<char>) -> Seq<char> {
    if !UserName::spec_valid(name) {
        name_error_message(trim(name))
    } else if !EmailAddress::spec_valid(email) {
        email_error_message(trim(email))
    } else {
        "password hash cannot be empty"@
    }
}

/// A stored user. Timestamps are seconds since the Unix epoch.
#[derive(Clone, Debug, PartialEq, Eq)]
pub struct User {
    id: UserId,
    name: UserName,
    email: EmailAddress,
    role: UserRole,
    password_hash: PasswordHash,
    created_at: i64,
    updated_at: i64,
}

impl User {
    pub closed spec fn spec_id(&self) -> UserId {
        self.id
    }

    pub closed spec fn spec_name(&self) -> UserName {
        self.name
    }

    pub closed spec fn spec_email(&self) -> EmailAddress {
        self.email
    }

    pub closed spec fn spec_role(&self) -> UserRole {
        self.role
    }

    pub closed spec fn spec_password_hash(&self) -> PasswordHash {
        self.password_hash
    }

    pub closed spec fn spec_created_at(&self) -> i64 {
        self.created_at
    }

    pub closed spec fn spec_updated_at(&self) -> i64 {
        self.updated_at
    }

    pub fn new(
        id: UserId,
        name: UserName,
        email: EmailAddress,
        role: UserRole,
        password_hash: PasswordHash,
        created_at: i64,
        updated_at: i64,
    ) -> (r: User)
        ensures
            r.spec_id() == id,
            r.spec_name() == name,
            r.spec_email() == email,
            r.spec_role() == role,
            r.spec_password_hash() == password_hash,
            r.spec_created_at() == created_at,
            r.spec_updated_at() == updated_at,
    {
        User { id, name, email, role, password_hash, created_at, updated_at }
    }

    /// Validates the name, then the e-mail, then the hash; the first failure
    /// is returned.
    pub fn try_new(
        id: UserId,
        name: &str,
        email: &str,
        role: UserRole,
        password_hash: &str,
        created_at: i64,
        updated_at: i64,
    ) -> (r: Result<User, DomainError>)
        ensures
            match r {
                Ok(u) => u.spec_id() == id && u.spec_name()@ == trim(name@) && u.spec_name().wf()
                    && u.spec_email()@ == trim(email@) && u.spec_email().wf() && u.spec_role()
                    == role && u.spec_password_hash()@ == trim(password_hash@)
                    && u.spec_password_hash().wf() && u.spec_created_at() == created_at
                    && u.spec_updated_at() == updated_at,
                Err(e) => !(UserName::spec_valid(name@) && EmailAddress::spec_valid(email@)
                    && PasswordHash::spec_valid(password_hash@)) && e.message_view()
                    == first_entity_error(name@, email@, password_hash@),
            },
    {
        let name = match UserName::parse(name) {
            Ok(n) => n,
            Err(e) => return Err(e),
        };
        let email = match EmailAddress::parse(email) {
            Ok(e) => e,
            Err(e) => return Err(e),
        };
        let password_hash = match PasswordHash::new(password_hash) {
            Ok(h) => h,
            Err(e) => return Err(e),
        };
        Ok(User { id, name, email, role, password_hash, created_at, updated_at })
    }

    pub fn id(&self) -> (r: UserId)
        ensures
            r == self.spec_id(),
    {
        self.id
    }

    pub fn name(&self) -> (r: &UserName)
        ensures
            *r == self.spec_name(),
    {
        &self.name
    }

    pub fn email(&self) -> (r: &EmailAddress)
        ensures
            *r == self.spec_email(),
    {
        &self.email
    }

    pub fn role(&self) -> (r: UserRole)
        ensures
            r == self.spec_role(),
    {
        self.role
    }

    pub fn password_hash(&self) -> (r: &PasswordHash)
        ensures
            *r == self.spec_password_hash(),
    {
        &self.password_hash
    }

    pub fn created_at(&self) -> (r: i64)
        ensures
            r == self.spec_created_at(),
    {
        self.created_at
    }

    pub fn updated_at(&self) -> (r: i64)
        ensures
            r == self.spec_updated_at(),
    {
        self.updated_at
    }
}

/// A user about to be created, with every field already validated.
#[derive(Clone, Debug)]
pub struct NewUser {
    pub name: UserName,
    pub email: EmailAddress,
    pub password_hash: PasswordHash,
    pub role: UserRole,
}

impl NewUser {
    pub fn build(name: UserName, email: EmailAddress, password_hash: PasswordHash, role: UserRole) -> (r: NewUser)
        ensures
            r == (NewUser { name, email, password_hash, role }),
    {
        NewUser { name, email, password_hash, role }
    }

    /// Validates the name, then the e-mail, then the hash of a password that
    /// already met the policy.
    pub fn try_from_input(
        name: &str,
        email: &str,
        password: &PlainPassword,
        role: UserRole,
        hashed_password: &str,
    ) -> (r: Result<NewUser, DomainError>)
        ensures
            match r {
                Ok(u) => u.name@ == trim(name@) && u.name.wf() && u.email@ == trim(email@)
                    && u.email.wf() && u.password_hash@ == trim(hashed_password@)
                    && u.password_hash.wf() && u.role == role,
                Err(e) => !(UserName::spec_valid(name@) && EmailAddress::spec_valid(email@)
                    && PasswordHash::spec_valid(hashed_password@)) && e.message_view()
                    == first_entity_error(name@, email@, hashed_password@),
            },
    {
        let name = match UserName::parse(name) {
            Ok(n) => n,
            Err(e) => return Err(e),
        };
        let email = match EmailAddress::parse(email) {
            Ok(e) => e,
            Err(e) => return Err(e),
        };
        let password_hash = match PasswordHash::new(hashed_password) {
            Ok(h) => h,
            Err(e) => return Err(e),
        };
        Ok(NewUser { name, email, password_hash, role })
    }

    pub fn name(&self) -> (r: &UserName)
        ensures
            *r == self.name,
    {
        &self.name
    }

    pub fn email(&self) -> (r: &EmailAddress)
        ensures
            *r == self.email,
    {
        &self.email
    }

    pub fn password_hash(&self) -> (r: &PasswordHash)
        ensures
            *r == self.password_hash,
    {
        &self.password_hash
    }

    pub fn role(&self) -> (r: UserRole)
        ensures
            r == self.role,
    {
        self.role
    }
}

/// A partial change to a user: each field present is to be replaced.
#[derive(Clone, Debug)]
pub struct UpdateUser {
    pub name: Option<UserName>,
    pub email: Option<EmailAddress>,
    pub password_hash: Option<PasswordHash>,
    pub role: Option<UserRole>,
}

impl Default for UpdateUser {
    fn default() -> (r: UpdateUser)
        ensures
            r.name is None && r.email is None && r.password_hash is None && r.role is None,
    {
        UpdateUser { name: None, email: None, password_hash: None, role: None }
    }
}

impl UpdateUser {
    pub fn apply_name(self, name: UserName) -> (r: UpdateUser)
        ensures
            r == (UpdateUser { name: Some(name), ..self }),
    {
        UpdateUser { name: Some(name), ..self }
    }

    pub fn apply_email(self, email: EmailAddress) -> (r: UpdateUser)
        ensures
            r == (UpdateUser { email: Some(email), ..self }),
    {
        UpdateUser { email: Some(email), ..self }
    }

    pub fn apply_password_hash(self, password_hash: PasswordHash) -> (r: UpdateUser)
        ensures
            r == (UpdateUser { password_hash: Some(password_hash), ..self }),
    {
        UpdateUser { password_hash: Some(password_hash), ..self }
    }

    pub fn apply_role(self, role: UserRole) -> (r: UpdateUser)
        ensures
            r == (UpdateUser { role: Some(role), ..self }),
    {
        UpdateUser { role: Some(role), ..self }
    }

    pub fn name_str(&self) -> (r: Option<&str>)
        ensures
            r is Some == self.name is Some,
            r is Some ==> r->Some_0@ == self.name->Some_0@,
    {
        match &self.name {
            Some(v) => Some(v.as_str()),
            None => None,
        }
    }

    pub fn email_str(&self) -> (r: Option<&str>)
        ensures
            r is Some == self.email is Some,
            r is Some ==> r->Some_0@ == self.email->Some_0@,
    {
        match &self.email {
            Some(v) => Some(v.as_str()),
            None => None,
        }
    }

    pub fn password_hash_str(&self) -> (r: Option<&str>)
        ensures
            r is Some == self.password_hash is Some,
            r is Some ==> r->Some_0@ == self.password_hash->Some_0@,
    {
        match &self.password_hash {
            Some(v) => Some(v.as_str()),
            None => None,
        }
    }

    pub fn role(&self) -> (r: Option<UserRole>)
        ensures
            r == self.role,
    {
        self.role
    }

    /// No field is to be changed.
    pub fn is_empty(&self) -> (r: bool)
        ensures
            r == (self.name is None && self.email is None && self.password_hash is None
                && self.role is None),
    {
        self.name.is_none() && self.email.is_none() && self.password_hash.is_none()
            && self.role.is_none()
    }
}

} // verus!
