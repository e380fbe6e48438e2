//! Validated values: e-mail addresses, user names, stored password hashes and
//! plaintext passwords that meet the password policy.
use vstd::prelude::*;

use crate::errors::DomainError;
use crate::text::{
    chars_of, is_white_space, is_white_space_char, string_of, trim, trimmed, utf8_len,
    utf8_len_exceeds,
};

verus! {

pub const MAX_EMAIL_BYTES: usize = 190;

pub const MAX_NAME_BYTES: usize = 120;

pub const MIN_PASSWORD_BYTES: usize = 12;

/// A letter of `[a-z]` matched without regard to case: the ASCII letters and
/// the two characters that fold to `k` and `s`.
pub open spec fn is_letter(c: char) -> bool {
    ('a' <= c && c <= 'z') || ('A' <= c && c <= 'Z') || c == '\u{17f}' || c == '\u{212a}'
}

pub open spec fn is_digit(c: char) -> bool {
    '0' <= c && c <= '9'
}

pub open spec fn is_local_char(c: char) -> bool {
    is_letter(c) || is_digit(c) || c == '.' || c == '_' || c == '%' || c == '+' || c == '-'
}

pub open spec fn is_domain_char(c: char) -> bool {
    is_letter(c) || is_digit(c) || c == '.' || c == '-'
}

/// `s` reads `local@domain.tld`, with the `@` at `at` and the last dot at `dot`.
pub open spec fn email_split(s: Seq<char>, at: int, dot: int) -> bool {
    &&& 0 < at
    &&& at + 1 < dot
    &&& dot + 2 < s.len()
    &&& s[at] == '@'
    &&& s[dot] == '.'
    &&& forall|i: int| 0 <= i < at ==> is_local_char(#[trigger] s[i])
    &&& forall|i: int| at < i < dot ==> is_domain_char(#[trigger] s[i])
    &&& forall|i: int| dot < i < s.len() ==> is_letter(#[trigger] s[i])
}

/// The shape of an address: one or more local characters, `@`, one or more
/// domain characters, a dot, and two or more letters.
pub open spec fn email_shape(s: Seq<char>) -> bool {
    exists|at: int, dot: int| email_split(s, at, dot)
}

pub open spec fn valid_email(s: Seq<char>) -> bool {
    s.len() > 0 && utf8_len(s) <= MAX_EMAIL_BYTES && email_shape(s)
}

pub open spec fn email_error_message(t: Seq<char>) -> Seq<char> {
    if t.len() == 0 {
        "email is required"@
    } else if utf8_len(t) > MAX_EMAIL_BYTES {
        "email must be at most 190 characters"@
    } else {
        "email has an invalid format"@
    }
}

pub open spec fn valid_name(s: Seq<char>) -> bool {
    s.len() > 0 && utf8_len(s) <= MAX_NAME_BYTES
}

pub open spec fn name_error_message(t: Seq<char>) -> Seq<char> {
    if t.len() == 0 {
        "name is required"@
    } else {
        "name must be at most 120 characters"@
    }
}

pub open spec fn has_upper(s: Seq<char>) -> bool {
    exists|i: int| 0 <= i < s.len() && 'A' <= #[trigger] s[i] && s[i] <= 'Z'
}

pub open spec fn has_lower(s: Seq<char>) -> bool {
    exists|i: int| 0 <= i < s.len() && 'a' <= #[trigger] s[i] && s[i] <= 'z'
}

pub open spec fn has_digit(s: Seq<char>) -> bool {
    exists|i: int| 0 <= i < s.len() && is_digit(#[trigger] s[i])
}

pub open spec fn is_ascii_alnum(c: char) -> bool {
    ('a' <= c && c <= 'z') || ('A' <= c && c <= 'Z') || is_digit(c)
}

pub open spec fn has_symbol(s: Seq<char>) -> bool {
    exists|i: int| 0 <= i < s.len() && !is_ascii_alnum(#[trigger] s[i]) && !is_white_space(s[i])
}

/// The password policy: at least 12 bytes, with an upper-case letter, a
/// lower-case letter, a digit and a symbol.
pub open spec fn meets_policy(s: Seq<char>) -> bool {
    utf8_len(s) >= MIN_PASSWORD_BYTES && has_upper(s) && has_lower(s) && has_digit(s)
        && has_symbol(s)
}

pub open spec fn password_error_message(s: Seq<char>) -> Seq<char> {
    if utf8_len(s) < MIN_PASSWORD_BYTES {
        "password must be at least 12 characters"@
    } else {
        "password must include uppercase, lowercase, digit and symbol"@
    }
}

fn is_letter_char(c: char) -> (r: bool)
    ensures
        r == is_letter(c),
{
    ('a' <= c && c <= 'z') || ('A' <= c && c <= 'Z') || c == '\u{17f}' || c == '\u{212a}'
}

fn is_digit_char(c: char) -> (r: bool)
    ensures
        r == is_digit(c),
{
    '0' <= c && c <= '9'
}

proof fn lemma_email_split_unique(s: Seq<char>, at: int, dot: int, a2: int, d2: int)
    requires
        0 <= at <= s.len(),
        forall|i: int| 0 <= i < at ==> s[i] != '@',
        at == s.len() || s[at] == '@',
        -1 <= dot < s.len(),
        forall|i: int| dot < i < s.len() ==> s[i] != '.',
        dot == -1 || s[dot] == '.',
        email_split(s, a2, d2),
    ensures
        a2 == at,
        d2 == dot,
{
    if a2 < at {
        assert(s[a2] != '@');
    }
    if at < a2 {
        assert(is_local_char(s[at]));
    }
    if d2 < dot {
        assert(is_letter(s[dot]));
    }
    if dot < d2 {
        assert(s[d2] != '.');
    }
}

/// Whether `s` has the shape of an e-mail address.
pub fn matches_email_shape(s: &Vec<char>) -> (r: bool)
    ensures
        r == email_shape(s@),
{
    let n = s.len();
    let mut at: usize = 0;
    while at < n && s[at] != '@'
        invariant
            at <= n == s@.len(),
            forall|i: int| 0 <= i < at ==> s@[i] != '@',
        decreases n - at,
    {
        at = at + 1;
    }
    let mut end: usize = n;
    while end > 0 && s[end - 1] != '.'
        invariant
            end <= n == s@.len(),
            forall|i: int| end <= i < n ==> s@[i] != '.',
        decreases end,
    {
        end = end - 1;
    }
    let ghost dot: int = end - 1;
    proof {
        if email_shape(s@) {
            let (a2, d2) = choose|a2: int, d2: int| email_split(s@, a2, d2);
            lemma_email_split_unique(s@, at as int, dot, a2, d2);
        }
    }
    if at == 0 || at == n || end <= at || end - at < 3 || n - end < 2 {
        return false;
    }
    let dot_index: usize = end - 1;
    let mut i: usize = 0;
    while i < at
        invariant
            i <= at < n == s@.len(),
            email_shape(s@) ==> email_split(s@, at as int, dot),
            forall|k: int| 0 <= k < i ==> is_local_char(#[trigger] s@[k]),
        decreases at - i,
    {
        let c = s[i];
        if !(is_letter_char(c) || is_digit_char(c) || c == '.' || c == '_' || c == '%' || c == '+'
            || c == '-') {
            assert(!is_local_char(s@[i as int]));
            return false;
        }
        i = i + 1;
    }
    let mut j: usize = at + 1;
    while j < dot_index
        invariant
            at < j <= dot_index < n == s@.len(),
            dot == dot_index,
            email_shape(s@) ==> email_split(s@, at as int, dot),
            forall|k: int| at < k < j ==> is_domain_char(#[trigger] s@[k]),
        decreases dot_index - j,
    {
        let c = s[j];
        if !(is_letter_char(c) || is_digit_char(c) || c == '.' || c == '-') {
            assert(!is_domain_char(s@[j as int]));
            return false;
        }
        j = j + 1;
    }
    let mut k: usize = end;
    while k < n
        invariant
            end <= k <= n == s@.len(),
            1 <= end,
            dot == end - 1,
            email_shape(s@) ==> email_split(s@, at as int, dot),
            forall|m: int| dot < m < k ==> is_letter(#[trigger] s@[m]),
        decreases n - k,
    {
        if !is_letter_char(s[k]) {
            assert(!is_letter(s@[k as int]));
            return false;
        }
        k = k + 1;
    }
    assert(email_split(s@, at as int, dot));
    true
}

/// An e-mail address: trimmed, at most 190 bytes, of the expected shape.
#[derive(Debug, PartialEq, Eq, Hash)]
pub struct EmailAddress {
    value: String,
}

impl Clone for EmailAddress {
    fn clone(&self) -> (r: EmailAddress)
        ensures
            r@ == self@,
    {
        proof {
            use_type_invariant(self);
        }
        EmailAddress { value: self.value.clone() }
    }
}

impl View for EmailAddress {
    type V = Seq<char>;

    closed spec fn view(&self) -> Seq<char> {
        self.value@
    }
}

impl EmailAddress {
    /// Whether parsing `raw` succeeds.
    pub open spec fn spec_valid(raw: Seq<char>) -> bool {
        valid_email(trim(raw))
    }

    /// The invariant that every constructor establishes.
    pub open spec fn wf(&self) -> bool {
        valid_email(self@)
    }

    #[verifier::type_invariant]
    spec fn inv(&self) -> bool {
        valid_email(self.value@)
    }

    /// Trims `value` and checks it, in this order: not empty, at most 190
    /// bytes, of the shape of an address.
    pub fn parse(value: &str) -> (r: Result<EmailAddress, DomainError>)
        ensures
            match r {
                Ok(e) => e@ == trim(value@) && valid_email(e@),
                Err(err) => !valid_email(trim(value@)) && err.message_view()
                    == email_error_message(trim(value@)),
            },
    {
        let t = trimmed(value);
        if t.len() == 0 {
            return Err(DomainError::validation("email is required"));
        }
        if utf8_len_exceeds(&t, MAX_EMAIL_BYTES) {
            return Err(DomainError::validation("email must be at most 190 characters"));
        }
        if !matches_email_shape(&t) {
            return Err(DomainError::validation("email has an invalid format"));
        }
        Ok(EmailAddress { value: string_of(&t) })
    }

    pub fn as_str(&self) -> (r: &str)
        ensures
            r@ == self@,
            valid_email(r@),
    {
        proof {
            use_type_invariant(self);
        }
        self.value.as_str()
    }
}

/// A display name: trimmed, not empty, at most 120 bytes.
#[derive(Clone, Debug, PartialEq, Eq, Hash)]
pub struct UserName {
    value: String,
}

impl View for UserName {
    type V = Seq<char>;

    closed spec fn view(&self) -> Seq<char> {
        self.value@
    }
}

impl UserName {
    /// Whether parsing `raw` succeeds.
    pub open spec fn spec_valid(raw: Seq<char>) -> bool {
        valid_name(trim(raw))
    }

    /// The invariant that every constructor establishes.
    pub open spec fn wf(&self) -> bool {
        valid_name(self@)
    }

    pub fn parse(value: &str) -> (r: Result<UserName, DomainError>)
        ensures
            match r {
                Ok(n) => n@ == trim(value@) && valid_name(n@),
                Err(err) => !valid_name(trim(value@)) && err.message_view() == name_error_message(
                    trim(value@),
                ),
            },
    {
        let t = trimmed(value);
        if t.len() == 0 {
            return Err(DomainError::validation("name is required"));
        }
        if utf8_len_exceeds(&t, MAX_NAME_BYTES) {
            return Err(DomainError::validation("name must be at most 120 characters"));
        }
        Ok(UserName { value: string_of(&t) })
    }

    pub fn as_str(&self) -> (r: &str)
        ensures
            r@ == self@,
    {
        self.value.as_str()
    }
}

/// A stored password hash: trimmed and not empty. Its text is never shown.
#[derive(Clone, Debug, PartialEq, Eq)]
pub struct PasswordHash {
    value: String,
}

impl View for PasswordHash {
    type V = Seq<char>;

    closed spec fn view(&self) -> Seq<char> {
        self.value@
    }
}

impl PasswordHash {
    /// Whether parsing `raw` succeeds.
    pub open spec fn spec_valid(raw: Seq<char>) -> bool {
        trim(raw).len() > 0
    }

    /// The invariant that every constructor establishes.
    pub open spec fn wf(&self) -> bool {
        self@.len() > 0
    }

    pub fn new(value: &str) -> (r: Result<PasswordHash, DomainError>)
        ensures
            match r {
                Ok(h) => h@ == trim(value@) && h@.len() > 0,
                Err(err) => trim(value@).len() == 0 && err.message_view()
                    == "password hash cannot be empty"@,
            },
    {
        let t = trimmed(value);
        if t.len() == 0 {
            return Err(DomainError::validation("password hash cannot be empty"));
        }
        Ok(PasswordHash { value: string_of(&t) })
    }

    pub fn as_str(&self) -> (r: &str)
        ensures
            r@ == self@,
    {
        self.value.as_str()
    }

    /// What is shown in place of the hash.
    pub fn redacted(&self) -> (r: &'static str)
        ensures
            r@ == "<redacted>"@,
    {
        "<redacted>"
    }
}

/// A plaintext password that meets the password policy.
#[derive(Clone, Debug, PartialEq, Eq)]
pub struct PlainPassword {
    value: String,
}

impl View for PlainPassword {
    type V = Seq<char>;

    closed spec fn view(&self) -> Seq<char> {
        self.value@
    }
}

impl PlainPassword {
    /// The invariant that every constructor establishes.
    pub open spec fn wf(&self) -> bool {
        meets_policy(self@)
    }

    /// Checks the policy on `value` as given, untrimmed.
    pub fn parse(value: &str) -> (r: Result<PlainPassword, DomainError>)
        ensures
            match r {
                Ok(p) => p@ == value@ && meets_policy(p@),
                Err(err) => !meets_policy(value@) && err.message_view() == password_error_message(
                    value@,
                ),
            },
    {
        let v = chars_of(value);
        if !utf8_len_exceeds(&v, MIN_PASSWORD_BYTES - 1) {
            return Err(DomainError::validation("password must be at least 12 characters"));
        }
        let mut upper = false;
        let mut lower = false;
        let mut digit = false;
        let mut symbol = false;
        let mut i: usize = 0;
        while i < v.len()
            invariant
                i <= v@.len(),
                v@ == value@,
                upper == exists|k: int| 0 <= k < i && 'A' <= #[trigger] v@[k] && v@[k] <= 'Z',
                lower == exists|k: int| 0 <= k < i && 'a' <= #[trigger] v@[k] && v@[k] <= 'z',
                digit == exists|k: int| 0 <= k < i && is_digit(#[trigger] v@[k]),
                symbol == exists|k: int|
                    0 <= k < i && !is_ascii_alnum(#[trigger] v@[k]) && !is_white_space(v@[k]),
            decreases v@.len() - i,
        {
            let c = v[i];
            let is_upper = 'A' <= c && c <= 'Z';
            let is_lower = 'a' <= c && c <= 'z';
            let is_dig = is_digit_char(c);
            upper = upper || is_upper;
            lower = lower || is_lower;
            digit = digit || is_dig;
            symbol = symbol || (!(is_upper || is_lower || is_dig) && !is_white_space_char(c));
            i = i + 1;
        }
        if !(upper && lower && digit && symbol) {
            return Err(
                DomainError::validation(
                    "password must include uppercase, lowercase, digit and symbol",
                ),
            );
        }
        Ok(PlainPassword { value: value.to_owned() })
    }

    pub fn as_str(&self) -> (r: &str)
        ensures
            r@ == self@,
    {
        self.value.as_str()
    }
}

} // verus!
