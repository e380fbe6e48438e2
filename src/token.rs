//! Signed, time-bound identity tokens (HS256 JWT).
//!
//! The library writes and reads the claims text itself; `jsonwebtoken` signs
//! that text and checks signatures. Expiry is decided here against a clock
//! given as an argument: a token is refused as soon as the clock passes its
//! expiry.
use vstd::prelude::*;

use crate::claims_json::{
    claims_json, claims_plain, read_claims, same_claims, write_claims, written_as, Claims,
};
use crate::claims_json::{lemma_role_text_is_plain, lemma_valid_email_is_plain};
use crate::user::{role_text, UserId, UserRole};
use crate::value_objects::EmailAddress;

verus! {

#[verifier::external_type_specification]
#[verifier::external_body]
pub struct ExJwtError(jsonwebtoken::errors::Error);

/// The HS256 token that `jsonwebtoken` makes of a payload text and a secret.
pub uninterp spec fn jwt_signed(payload: Seq<char>, secret: Seq<char>) -> Seq<char>;

/// The payload text of a token whose HS256 signature is valid under the
/// secret, as `jsonwebtoken` reads it.
pub uninterp spec fn jwt_opened(token: Seq<char>, secret: Seq<char>) -> Option<Seq<char>>;

/// Whether `chrono` can represent the instant `secs` seconds after the epoch:
/// from -262143-01-01T00:00:00 to +262142-12-31T23:59:59 UTC.
pub open spec fn chrono_representable(secs: i64) -> bool {
    -8_334_601_315_200 <= secs <= 8_210_266_876_799
}

/// Relies on `jsonwebtoken::encode` with the default header (HS256) and an
/// HMAC key made from the secret's bytes; the payload text goes in verbatim
/// as a `serde_json::value::RawValue`. `RawValue::from_string` refuses only
/// text that is not JSON, and `encode` with an HMAC key and the HS256 header
/// fails only on a serialization error, so a claims text is always signed.
#[verifier::external_body]
fn sign_payload(payload: &str, secret: &str) -> (r: Result<String, jsonwebtoken::errors::Error>)
    ensures
        r is Ok ==> r->Ok_0@ == jwt_signed(payload@, secret@),
        forall|c: Claims| payload@ == #[trigger] claims_json(c) && claims_plain(c) ==> r is Ok,
{
    let raw = serde_json::value::RawValue::from_string(payload.to_owned())?;
    let key = jsonwebtoken::EncodingKey::from_secret(secret.as_bytes());
    jsonwebtoken::encode(&jsonwebtoken::Header::default(), &raw, &key)
}

/// Relies on `jsonwebtoken::decode`: checks the HS256 signature under the
/// secret and hands back the payload text verbatim. Its own clock check is
/// off, so the outcome depends on the token and the secret alone. A token
/// that `encode` made with the same secret opens to its payload, when that
/// payload is a claims object whose `exp` is a non-negative integer (the one
/// claim that `decode` requires).
#[verifier::external_body]
fn open_token(token: &str, secret: &str) -> (r: Result<String, jsonwebtoken::errors::Error>)
    ensures
        match r {
            Ok(t) => jwt_opened(token@, secret@) == Some(t@),
            Err(_) => jwt_opened(token@, secret@) is None,
        },
        forall|c: Claims|
            token@ == #[trigger] jwt_signed(claims_json(c), secret@) && claims_plain(c) && c.exp >= 0
                ==> r is Ok && r->Ok_0@ == claims_json(c),
{
    let mut validation = jsonwebtoken::Validation::default();
    validation.validate_exp = false;
    let key = jsonwebtoken::DecodingKey::from_secret(secret.as_bytes());
    jsonwebtoken::decode::<Box<serde_json::value::RawValue>>(token, &key, &validation).map(
        |data| data.claims.get().to_owned(),
    )
}

/// Relies on the `Display` of `jsonwebtoken::errors::Error`.
#[verifier::external_body]
fn describe_jwt_error(e: &jsonwebtoken::errors::Error) -> (r: String) {
    e.to_string()
}

/// Relies on `chrono::DateTime::from_timestamp`: the instant exists exactly
/// when its date lies between `NaiveDate::MIN` (-262143-01-01) and
/// `NaiveDate::MAX` (+262142-12-31).
#[verifier::external_body]
fn timestamp_in_range(secs: i64) -> (r: bool)
    ensures
        r == chrono_representable(secs),
{
    chrono::DateTime::from_timestamp(secs, 0).is_some()
}

/// Relies on `chrono::Utc::now`: the current time in whole seconds.
#[verifier::external_body]
pub(crate) fn unix_now() -> (r: i64) {
    chrono::Utc::now().timestamp()
}

/// A token and the instant it expires, in Unix seconds.
#[derive(Debug, Clone, PartialEq, Eq)]
pub struct TokenDetails {
    pub token: String,
    pub expires_at: i64,
}

#[derive(Debug, Clone, PartialEq, Eq)]
pub enum TokenError {
    /// Malformed, or not signed with this manager's secret.
    Invalid(String),
    /// Well signed, but past its expiry.
    Expired,
    /// The expiry instant cannot be represented.
    InvalidTtl,
}

/// A token with expiry `exp` is refused at `now`.
pub open spec fn is_expired(exp: i64, now: i64) -> bool {
    exp < now
}

/// The claims text a token of this secret carries, if any is readable.
pub open spec fn claims_of_text(t: Seq<char>) -> Option<Claims> {
    if exists|c: Claims| written_as(t, c) {
        Some(choose|c: Claims| written_as(t, c))
    } else {
        None
    }
}

/// Signs identity claims with one secret and a fixed lifetime.
#[derive(Clone, Debug)]
pub struct JwtManager {
    secret: String,
    ttl_minutes: i64,
}

impl JwtManager {
    pub closed spec fn spec_secret(&self) -> Seq<char> {
        self.secret@
    }

    pub closed spec fn spec_ttl_minutes(&self) -> i64 {
        self.ttl_minutes
    }

    /// A lifetime below one minute is a configuration error, refused before
    /// a manager is made.
    pub fn new(secret: &str, ttl_minutes: i64) -> (r: JwtManager)
        requires
            ttl_minutes > 0,
        ensures
            r.spec_secret() == secret@,
            r.spec_ttl_minutes() == ttl_minutes,
    {
        JwtManager { secret: secret.to_owned(), ttl_minutes }
    }

    /// The expiry of a token issued at `now`, if it can be represented.
    pub open spec fn expiry_at(&self, now: i64) -> Option<i64> {
        let exp = now + 60 * self.spec_ttl_minutes();
        if i64::MIN <= exp <= i64::MAX && chrono_representable(exp as i64) {
            Some(exp as i64)
        } else {
            None
        }
    }

    /// Issues a token for the identity at the instant `now`.
    pub fn generate_at(&self, user_id: UserId, email: &EmailAddress, role: UserRole, now: i64) -> (r: Result<TokenDetails, TokenError>)
        ensures
            match self.expiry_at(now) {
                None => r == Err::<TokenDetails, TokenError>(TokenError::InvalidTtl),
                Some(exp) => r is Ok && r->Ok_0.expires_at == exp && exists|c: Claims|
                    c.sub == user_id && c.email@ == email@ && c.role@ == role_text(role) && c.iat
                        == now && c.exp == exp && claims_plain(c) && #[trigger] jwt_signed(
                        claims_json(c),
                        self.spec_secret(),
                    ) == r->Ok_0.token@,
            },
    {
        let wide: i128 = (now as i128) + (self.ttl_minutes as i128) * 60;
        if wide < (i64::MIN as i128) || wide > (i64::MAX as i128) {
            return Err(TokenError::InvalidTtl);
        }
        let exp = wide as i64;
        if !timestamp_in_range(exp) {
            return Err(TokenError::InvalidTtl);
        }
        let claims = Claims {
            sub: user_id,
            email: email.as_str().to_owned(),
            role: role.as_str().to_owned(),
            iat: now,
            exp,
        };
        let payload = write_claims(&claims);
        let address = email.as_str();
        proof {
            lemma_valid_email_is_plain(address@);
            lemma_role_text_is_plain(role);
            assert(claims_plain(claims));
        }
        match sign_payload(payload.as_str(), self.secret.as_str()) {
            Ok(token) => {
                assert(jwt_signed(claims_json(claims), self.spec_secret()) == token@);
                Ok(TokenDetails { token, expires_at: exp })
            },
            Err(e) => Err(TokenError::Invalid(describe_jwt_error(&e))),
        }
    }

    /// Issues a token for the identity, now.
    pub fn generate(&self, user_id: UserId, email: &EmailAddress, role: UserRole) -> (r: Result<TokenDetails, TokenError>)
        ensures
            r is Ok || r == Err::<TokenDetails, TokenError>(TokenError::InvalidTtl),
            r is Ok ==> exists|c: Claims|
                c.sub == user_id && c.email@ == email@ && c.role@ == role_text(role) && c.exp == c.iat
                    + 60 * self.spec_ttl_minutes() && c.exp == r->Ok_0.expires_at && claims_plain(c)
                    && #[trigger] jwt_signed(claims_json(c), self.spec_secret()) == r->Ok_0.token@,
    {
        let now = unix_now();
        self.generate_at(user_id, email, role, now)
    }

    /// Checks the signature, reads the claims, then checks expiry against
    /// `now`. A badly signed or unreadable token is `Invalid`; a well signed
    /// one past its expiry is `Expired`.
    pub fn verify_at(&self, token: &str, now: i64) -> (r: Result<Claims, TokenError>)
        ensures
            match jwt_opened(token@, self.spec_secret()) {
                None => r matches Err(TokenError::Invalid(_)),
                Some(t) => match claims_of_text(t) {
                    None => r matches Err(TokenError::Invalid(_)),
                    Some(c) => if is_expired(c.exp, now) {
                        r == Err::<Claims, TokenError>(TokenError::Expired)
                    } else {
                        r is Ok && same_claims(r->Ok_0, c)
                    },
                },
            },
            forall|c: Claims|
                token@ == #[trigger] jwt_signed(claims_json(c), self.spec_secret()) && claims_plain(c)
                    && c.exp >= 0 ==> if is_expired(c.exp, now) {
                    r == Err::<Claims, TokenError>(TokenError::Expired)
                } else {
                    r is Ok && same_claims(r->Ok_0, c)
                },
    {
        let secret = self.secret.as_str();
        assert(secret@ == self.spec_secret());
        let text = match open_token(token, secret) {
            Ok(t) => t,
            Err(e) => {
                proof {
                    assert forall|c: Claims|
                        token@ == #[trigger] jwt_signed(claims_json(c), self.spec_secret())
                            && claims_plain(c) && c.exp >= 0 implies false by {}
                }
                return Err(TokenError::Invalid(describe_jwt_error(&e)));
            },
        };
        let claims = match read_claims(text.as_str()) {
            Some(c) => c,
            None => {
                proof {
                    assert forall|c: Claims|
                        token@ == #[trigger] jwt_signed(claims_json(c), self.spec_secret())
                            && claims_plain(c) && c.exp >= 0 implies false by {
                        assert(written_as(text@, c));
                    }
                }
                return Err(TokenError::Invalid("malformed claims".to_owned()));
            },
        };
        proof {
            let c = choose|c: Claims| written_as(text@, c);
            assert(written_as(text@, claims));
            assert(same_claims(claims, c));
            assert forall|c: Claims|
                token@ == #[trigger] jwt_signed(claims_json(c), self.spec_secret()) && claims_plain(c)
                    && c.exp >= 0 implies same_claims(claims, c) by {
                assert(written_as(text@, c));
            }
        }
        if claims.exp < now {
            return Err(TokenError::Expired);
        }
        Ok(claims)
    }

    /// Checks a token against the current time.
    pub fn verify(&self, token: &str) -> (r: Result<Claims, TokenError>)
        ensures
            match jwt_opened(token@, self.spec_secret()) {
                None => r matches Err(TokenError::Invalid(_)),
                Some(t) => match claims_of_text(t) {
                    None => r matches Err(TokenError::Invalid(_)),
                    Some(c) => (r is Ok && same_claims(r->Ok_0, c)) || r == Err::<
                        Claims,
                        TokenError,
                    >(TokenError::Expired),
                },
            },
            forall|c: Claims|
                token@ == #[trigger] jwt_signed(claims_json(c), self.spec_secret()) && claims_plain(c)
                    && c.exp >= 0 ==> (r is Ok && same_claims(r->Ok_0, c)) || r == Err::<
                    Claims,
                    TokenError,
                >(TokenError::Expired),
    {
        let now = unix_now();
        self.verify_at(token, now)
    }
}

} // verus!
