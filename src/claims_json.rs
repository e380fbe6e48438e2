//! The JSON text of token claims: written by the library and read back by it.
//!
//! The claims object is always written in one form,
//! `{"sub":"…","email":"…","role":"…","iat":…,"exp":…}`, with string fields
//! that need no escaping. Reading accepts exactly the texts of that form.
use vstd::prelude::*;

use crate::text::{chars_of, eq_text, push_char, starts_with, starts_with_at, string_of, string_of_range};
use crate::user::{role_text, uuid_text, UserId, UserRole};
use crate::value_objects::{
    email_split, is_domain_char, is_letter, is_local_char, valid_email,
};

verus! {

/// The identity assertions a token carries. Times are Unix seconds.
#[derive(Debug, Clone, PartialEq, Eq)]
pub struct Claims {
    pub sub: UserId,
    pub email: String,
    pub role: String,
    pub iat: i64,
    pub exp: i64,
}

/// The two claims hold the same values.
pub open spec fn same_claims(a: Claims, b: Claims) -> bool {
    a.sub == b.sub && a.email@ == b.email@ && a.role@ == b.role@ && a.iat == b.iat && a.exp == b.exp
}

/// A JSON string body that needs no escaping.
pub open spec fn json_plain(s: Seq<char>) -> bool {
    forall|i: int| 0 <= i < s.len() ==> #[trigger] s[i] != '"' && s[i] != '\u{5c}' && ' ' <= s[i]
}

pub open spec fn digit_char(d: nat) -> char {
    if d == 0 {
        '0'
    } else if d == 1 {
        '1'
    } else if d == 2 {
        '2'
    } else if d == 3 {
        '3'
    } else if d == 4 {
        '4'
    } else if d == 5 {
        '5'
    } else if d == 6 {
        '6'
    } else if d == 7 {
        '7'
    } else if d == 8 {
        '8'
    } else {
        '9'
    }
}

pub open spec fn is_digit(c: char) -> bool {
    '0' <= c && c <= '9'
}

pub open spec fn digit_value(c: char) -> nat {
    (c as u32 - '0' as u32) as nat
}

/// Decimal digits of `m`, most significant first.
pub open spec fn digits(m: nat) -> Seq<char>
    decreases m,
{
    if m < 10 {
        seq![digit_char(m)]
    } else {
        digits(m / 10).push(digit_char(m % 10))
    }
}

/// The value of a string of decimal digits.
pub open spec fn digits_value(s: Seq<char>) -> nat
    decreases s.len(),
{
    if s.len() == 0 {
        0
    } else {
        10 * digits_value(s.drop_last()) + digit_value(s.last())
    }
}

/// Decimal text of an integer, with a leading `-` when negative.
pub open spec fn int_text(n: int) -> Seq<char> {
    if n < 0 {
        seq!['-'] + digits((-n) as nat)
    } else {
        digits(n as nat)
    }
}

/// The claims object, written with string fields unescaped.
pub open spec fn claims_json(c: Claims) -> Seq<char> {
    "{\"sub\":\""@ + uuid_text(c.sub.0) + "\",\"email\":\""@ + c.email@ + "\",\"role\":\""@
        + c.role@ + "\",\"iat\":"@ + int_text(c.iat as int) + ",\"exp\":"@ + int_text(
        c.exp as int,
    ) + "}"@
}

/// Every string field of the claims can be written without escaping.
pub open spec fn claims_plain(c: Claims) -> bool {
    json_plain(uuid_text(c.sub.0)) && json_plain(c.email@) && json_plain(c.role@)
}

proof fn lemma_digit_char(d: nat)
    requires
        d < 10,
    ensures
        is_digit(digit_char(d)),
        digit_value(digit_char(d)) == d,
{
}

proof fn lemma_digits_are_digits(m: nat)
    ensures
        digits(m).len() > 0,
        forall|i: int| 0 <= i < digits(m).len() ==> is_digit(#[trigger] digits(m)[i]),
    decreases m,
{
    lemma_digit_char(m % 10);
    if m >= 10 {
        lemma_digits_are_digits(m / 10);
        let d = digits(m);
        assert forall|i: int| 0 <= i < d.len() implies is_digit(#[trigger] d[i]) by {
            if i < d.len() - 1 {
                assert(d[i] == digits(m / 10)[i]);
            }
        }
    } else {
        lemma_digit_char(m);
    }
}

proof fn lemma_int_text_chars(n: int)
    ensures
        forall|i: int| 0 <= i < int_text(n).len() ==> is_number_char(#[trigger] int_text(n)[i]),
{
    let m: nat = if n < 0 { (-n) as nat } else { n as nat };
    lemma_digits_are_digits(m);
    if n < 0 {
        assert forall|i: int| 0 <= i < int_text(n).len() implies is_number_char(#[trigger] int_text(n)[i]) by {
            if i > 0 {
                assert(int_text(n)[i] == digits(m)[i - 1]);
            }
        }
    }
}

proof fn lemma_digits_value(m: nat)
    ensures
        digits_value(digits(m)) == m,
    decreases m,
{
    if m < 10 {
        lemma_digit_char(m);
        assert(digits(m).drop_last() =~= Seq::<char>::empty());
        assert(digits(m).last() == digit_char(m));
        assert(digits_value(Seq::<char>::empty()) == 0);
    } else {
        lemma_digits_value(m / 10);
        lemma_digit_char(m % 10);
        assert(digits(m).drop_last() =~= digits(m / 10));
        assert(digits(m).last() == digit_char(m % 10));
        assert(10 * (m / 10) + m % 10 == m) by (nonlinear_arith);
    }
}

proof fn lemma_digits_value_prefix(s: Seq<char>, i: int, j: int)
    requires
        0 <= i <= j <= s.len(),
    ensures
        digits_value(s.subrange(0, i)) <= digits_value(s.subrange(0, j)),
    decreases j - i,
{
    if i < j {
        lemma_digits_value_prefix(s, i, j - 1);
        assert(s.subrange(0, j).drop_last() =~= s.subrange(0, j - 1));
    }
}

fn digit_of(d: u64) -> (r: char)
    requires
        d < 10,
    ensures
        r == digit_char(d as nat),
{
    if d == 0 {
        '0'
    } else if d == 1 {
        '1'
    } else if d == 2 {
        '2'
    } else if d == 3 {
        '3'
    } else if d == 4 {
        '4'
    } else if d == 5 {
        '5'
    } else if d == 6 {
        '6'
    } else if d == 7 {
        '7'
    } else if d == 8 {
        '8'
    } else {
        '9'
    }
}

fn push_digits(out: &mut String, m: u64)
    ensures
        final(out)@ == old(out)@ + digits(m as nat),
    decreases m,
{
    if m >= 10 {
        push_digits(out, m / 10);
    }
    push_char(out, digit_of(m % 10));
    assert(final(out)@ =~= old(out)@ + digits(m as nat));
}

fn push_int(out: &mut String, n: i64)
    ensures
        final(out)@ == old(out)@ + int_text(n as int),
{
    if n < 0 {
        push_char(out, '-');
        let magnitude: u64 = if n == i64::MIN {
            9223372036854775808u64
        } else {
            (-n) as u64
        };
        push_digits(out, magnitude);
        assert(final(out)@ =~= old(out)@ + int_text(n as int));
    } else {
        push_digits(out, n as u64);
    }
}

/// The decimal text of `n`.
pub fn int_string(n: i64) -> (r: String)
    ensures
        r@ == int_text(n as int),
{
    let mut s = String::new();
    push_int(&mut s, n);
    assert(s@ =~= int_text(n as int));
    s
}

/// A valid e-mail address needs no escaping.
pub proof fn lemma_valid_email_is_plain(s: Seq<char>)
    requires
        valid_email(s),
    ensures
        json_plain(s),
{
    let (at, dot) = choose|at: int, dot: int| email_split(s, at, dot);
    assert forall|i: int| 0 <= i < s.len() implies #[trigger] s[i] != '"' && s[i] != '\u{5c}' && ' '
        <= s[i] by {
        if i < at {
            assert(is_local_char(s[i]));
        } else if at < i < dot {
            assert(is_domain_char(s[i]));
        } else if dot < i {
            assert(is_letter(s[i]));
        }
    }
}

/// The text of a role needs no escaping.
pub proof fn lemma_role_text_is_plain(r: UserRole)
    ensures
        json_plain(role_text(r)),
{
    reveal_strlit("admin");
    reveal_strlit("viewer");
}

/// The JSON text of the claims.
pub fn write_claims(c: &Claims) -> (r: String)
    ensures
        r@ == claims_json(*c),
        json_plain(uuid_text(c.sub.0)),
{
    let mut s = "{\"sub\":\"".to_owned();
    let sub = c.sub.to_text();
    assert(json_plain(sub@));
    s.append(sub.as_str());
    s.append("\",\"email\":\"");
    s.append(c.email.as_str());
    s.append("\",\"role\":\"");
    s.append(c.role.as_str());
    s.append("\",\"iat\":");
    push_int(&mut s, c.iat);
    s.append(",\"exp\":");
    push_int(&mut s, c.exp);
    s.append("}");
    assert(s@ =~= claims_json(*c));
    s
}

/// Reads a decimal integer written by `int_string`, and nothing else.
pub fn parse_int(run: &Vec<char>) -> (r: Option<i64>)
    ensures
        r is Some ==> run@ == int_text(r->Some_0 as int),
        forall|n: i64| run@ == int_text(n as int) ==> r == Some(n),
{
    let len = run.len();
    if len == 0 {
        proof {
            assert forall|n: i64| run@ != int_text(n as int) by {
                lemma_digits_are_digits(if n < 0 { (-n) as nat } else { n as nat });
            }
        }
        return None;
    }
    let negative = run[0] == '-';
    let start: usize = if negative {
        1
    } else {
        0
    };
    let ghost body = run@.subrange(start as int, len as int);
    proof {
        assert forall|n: i64| run@ == int_text(n as int) implies (n < 0) == negative && body
            == digits(if n < 0 { (-n) as nat } else { n as nat }) by {
            let m: nat = if n < 0 { (-n) as nat } else { n as nat };
            lemma_digits_are_digits(m);
            if n < 0 {
                assert(run@[0] == '-');
                assert(body =~= digits(m));
            } else {
                assert(is_digit(run@[0]));
                assert(body =~= digits(m));
            }
        }
    }
    if start == len {
        proof {
            assert forall|n: i64| run@ != int_text(n as int) by {
                if run@ == int_text(n as int) {
                    lemma_digits_are_digits(if n < 0 { (-n) as nat } else { n as nat });
                }
            }
        }
        return None;
    }
    let mut value: u64 = 0;
    let mut i: usize = start;
    while i < len
        invariant
            start <= i <= len == run@.len(),
            body == run@.subrange(start as int, len as int),
            value == digits_value(run@.subrange(start as int, i as int)),
            forall|n: i64| run@ == int_text(n as int) ==> (n < 0) == negative && body == digits(
                if n < 0 { (-n) as nat } else { n as nat },
            ),
        decreases len - i,
    {
        let c = run[i];
        let ghost prefix = run@.subrange(start as int, i + 1);
        proof {
            assert(prefix.drop_last() =~= run@.subrange(start as int, i as int));
            assert(prefix =~= body.subrange(0, i + 1 - start));
            assert(run@.subrange(start as int, i as int) =~= body.subrange(0, i - start));
        }
        if c < '0' || c > '9' {
            proof {
                assert forall|n: i64| run@ != int_text(n as int) by {
                    if run@ == int_text(n as int) {
                        let m: nat = if n < 0 { (-n) as nat } else { n as nat };
                        lemma_digits_are_digits(m);
                        assert(body[i - start] == c);
                    }
                }
            }
            return None;
        }
        let d = (c as u32 - '0' as u32) as u64;
        let next = match value.checked_mul(10) {
            Some(t) => t.checked_add(d),
            None => None,
        };
        match next {
            Some(t) => {
                value = t;
            },
            None => {
                proof {
                    assert forall|n: i64| run@ != int_text(n as int) by {
                        if run@ == int_text(n as int) {
                            let m: nat = if n < 0 { (-n) as nat } else { n as nat };
                            lemma_digits_value(m);
                            lemma_digits_value_prefix(body, i + 1 - start, body.len() as int);
                            assert(body.subrange(0, body.len() as int) =~= body);
                        }
                    }
                }
                return None;
            },
        }
        i = i + 1;
    }
    proof {
        assert(run@.subrange(start as int, len as int) =~= body);
    }
    let candidate: i64 = if negative {
        if value > 9223372036854775808u64 {
            proof {
                assert forall|n: i64| run@ != int_text(n as int) by {
                    if run@ == int_text(n as int) {
                        lemma_digits_value((-n) as nat);
                    }
                }
            }
            return None;
        } else if value == 9223372036854775808u64 {
            i64::MIN
        } else {
            -(value as i64)
        }
    } else {
        if value > 9223372036854775807u64 {
            proof {
                assert forall|n: i64| run@ != int_text(n as int) by {
                    if run@ == int_text(n as int) {
                        lemma_digits_value(n as nat);
                    }
                }
            }
            return None;
        }
        value as i64
    };
    proof {
        assert forall|n: i64| run@ == int_text(n as int) implies n == candidate by {
            let m: nat = if n < 0 { (-n) as nat } else { n as nat };
            lemma_digits_value(m);
        }
    }
    let rendered = int_string(candidate);
    let written = string_of(run);
    if eq_text(rendered.as_str(), written.as_str()) {
        Some(candidate)
    } else {
        None
    }
}

/// The text is the written form of the claims `c`.
pub open spec fn written_as(t: Seq<char>, c: Claims) -> bool {
    claims_plain(c) && t == claims_json(c)
}

/// The `k`-th piece of the written form of `c`.
pub open spec fn claims_piece(c: Claims, k: int) -> Seq<char> {
    if k == 0 {
        "{\"sub\":\""@
    } else if k == 1 {
        uuid_text(c.sub.0)
    } else if k == 2 {
        "\",\"email\":\""@
    } else if k == 3 {
        c.email@
    } else if k == 4 {
        "\",\"role\":\""@
    } else if k == 5 {
        c.role@
    } else if k == 6 {
        "\",\"iat\":"@
    } else if k == 7 {
        int_text(c.iat as int)
    } else if k == 8 {
        ",\"exp\":"@
    } else if k == 9 {
        int_text(c.exp as int)
    } else {
        "}"@
    }
}

/// Where the `k`-th piece of the written form of `c` starts.
pub open spec fn claims_offset(c: Claims, k: int) -> int
    decreases k,
{
    if k <= 0 {
        0
    } else {
        claims_offset(c, k - 1) + claims_piece(c, k - 1).len()
    }
}

proof fn lemma_claims_layout(c: Claims)
    ensures
        claims_json(c).len() == claims_offset(c, 11),
        forall|k: int|
            0 <= k < 11 ==> claims_json(c).subrange(claims_offset(c, k), claims_offset(c, k + 1))
                == #[trigger] claims_piece(c, k),
        claims_json(c)[claims_offset(c, 2)] == '"',
        claims_json(c)[claims_offset(c, 4)] == '"',
        claims_json(c)[claims_offset(c, 6)] == '"',
        claims_json(c)[claims_offset(c, 8)] == ',',
        claims_json(c)[claims_offset(c, 10)] == '}',
{
    reveal_strlit("{\"sub\":\"");
    reveal_strlit("\",\"email\":\"");
    reveal_strlit("\",\"role\":\"");
    reveal_strlit("\",\"iat\":");
    reveal_strlit(",\"exp\":");
    reveal_strlit("}");
    reveal_with_fuel(claims_offset, 12);
    let t = claims_json(c);
    let o = |k: int| claims_offset(c, k);
    assert(t =~= claims_piece(c, 0) + claims_piece(c, 1) + claims_piece(c, 2) + claims_piece(c, 3) + claims_piece(c, 4) + claims_piece(c, 5) + claims_piece(c, 6) + claims_piece(c, 7) + claims_piece(c, 8) + claims_piece(c, 9) + claims_piece(c, 10));
    assert(o(11) == claims_piece(c, 0).len() + claims_piece(c, 1).len() + claims_piece(c, 2).len() + claims_piece(c, 3).len() + claims_piece(c, 4).len() + claims_piece(c, 5).len() + claims_piece(c, 6).len() + claims_piece(c, 7).len() + claims_piece(c, 8).len() + claims_piece(c, 9).len() + claims_piece(c, 10).len());
    assert forall|k: int| 0 <= k < 11 implies t.subrange(o(k), o(k + 1)) == #[trigger] claims_piece(c, k) by {
        if k == 0 {
            assert(t.subrange(o(0), o(1)) =~= claims_piece(c, 0));
        }
        if k == 1 {
            assert(t.subrange(o(1), o(2)) =~= claims_piece(c, 1));
        }
        if k == 2 {
            assert(t.subrange(o(2), o(3)) =~= claims_piece(c, 2));
        }
        if k == 3 {
            assert(t.subrange(o(3), o(4)) =~= claims_piece(c, 3));
        }
        if k == 4 {
            assert(t.subrange(o(4), o(5)) =~= claims_piece(c, 4));
        }
        if k == 5 {
            assert(t.subrange(o(5), o(6)) =~= claims_piece(c, 5));
        }
        if k == 6 {
            assert(t.subrange(o(6), o(7)) =~= claims_piece(c, 6));
        }
        if k == 7 {
            assert(t.subrange(o(7), o(8)) =~= claims_piece(c, 7));
        }
        if k == 8 {
            assert(t.subrange(o(8), o(9)) =~= claims_piece(c, 8));
        }
        if k == 9 {
            assert(t.subrange(o(9), o(10)) =~= claims_piece(c, 9));
        }
        if k == 10 {
            assert(t.subrange(o(10), o(11)) =~= claims_piece(c, 10));
        }
    }
    assert(t[o(2)] == claims_piece(c, 2)[0]);
    assert(t[o(4)] == claims_piece(c, 4)[0]);
    assert(t[o(6)] == claims_piece(c, 6)[0]);
    assert(t[o(8)] == claims_piece(c, 8)[0]);
    assert(t[o(10)] == claims_piece(c, 10)[0]);
}

fn expect_at(v: &Vec<char>, at: usize, lit: &str) -> (r: Option<usize>)
    requires
        at <= v@.len(),
    ensures
        match r {
            Some(e) => e == at + lit@.len() && e <= v@.len() && v@.subrange(at as int, e as int)
                == lit@,
            None => !starts_with(v@.subrange(at as int, v@.len() as int), lit@),
        },
{
    let p = chars_of(lit);
    let n = v.len();
    if starts_with_at(v, at, &p) {
        assert(p@.len() <= n - at);
        proof {
            assert(v@.subrange(at as int, at + p@.len()) =~= v@.subrange(
                at as int,
                v@.len() as int,
            ).subrange(0, p@.len() as int));
        }
        Some(at + p.len())
    } else {
        None
    }
}

/// Index of the first `"` at or after `at`, if every character before it
/// needs no escaping.
fn read_plain(v: &Vec<char>, at: usize) -> (r: Option<usize>)
    requires
        at <= v@.len(),
    ensures
        r is Some ==> at <= r->Some_0 < v@.len() && v@[r->Some_0 as int] == '"' && json_plain(
            v@.subrange(at as int, r->Some_0 as int),
        ),
        forall|e: int|
            at <= e < v@.len() && v@[e] == '"' && #[trigger] json_plain(v@.subrange(at as int, e))
                ==> r == Some(e as usize),
{
    let n = v.len();
    let mut j: usize = at;
    while j < n && v[j] != '"'
        invariant
            at <= j <= n == v@.len(),
            forall|k: int| at <= k < j ==> #[trigger] v@[k] != '"' && v@[k] != '\u{5c}' && ' ' <= v@[k],
        decreases n - j,
    {
        let ch = v[j];
        if ch == '\u{5c}' || !(' ' <= ch) {
            proof {
                assert forall|e: int|
                    at <= e < v@.len() && v@[e] == '"' && #[trigger] json_plain(
                        v@.subrange(at as int, e),
                    ) implies false by {
                    if j < e {
                        assert(v@.subrange(at as int, e)[j - at] == ch);
                    }
                }
            }
            return None;
        }
        j = j + 1;
    }
    if j == n {
        proof {
            assert forall|e: int|
                at <= e < v@.len() && v@[e] == '"' && #[trigger] json_plain(v@.subrange(at as int, e))
                    implies false by {
                assert(v@[e] != '"');
            }
        }
        return None;
    }
    proof {
        assert forall|e: int|
            at <= e < v@.len() && v@[e] == '"' && #[trigger] json_plain(v@.subrange(at as int, e))
                implies e == j by {
            if e < j {
                assert(v@[e] != '"');
            }
            if j < e {
                assert(v@.subrange(at as int, e)[j - at] == v@[j as int]);
            }
        }
    }
    proof {
        let s = v@.subrange(at as int, j as int);
        assert forall|i: int| 0 <= i < s.len() implies #[trigger] s[i] != '"' && s[i] != '\u{5c}' && ' '
            <= s[i] by {
            assert(s[i] == v@[at + i]);
        }
    }
    Some(j)
}

pub open spec fn is_number_char(c: char) -> bool {
    c == '-' || is_digit(c)
}

/// End of the run of number characters that starts at `at`.
fn read_number_run(v: &Vec<char>, at: usize) -> (end: usize)
    requires
        at <= v@.len(),
    ensures
        at <= end <= v@.len(),
        forall|k: int| at <= k < end ==> is_number_char(#[trigger] v@[k]),
        end == v@.len() || !is_number_char(v@[end as int]),
{
    let n = v.len();
    let mut end: usize = at;
    while end < n && (v[end] == '-' || ('0' <= v[end] && v[end] <= '9'))
        invariant
            at <= end <= n == v@.len(),
            forall|k: int| at <= k < end ==> is_number_char(#[trigger] v@[k]),
        decreases n - end,
    {
        end = end + 1;
    }
    end
}

fn copy_range(v: &Vec<char>, from: usize, to: usize) -> (r: Vec<char>)
    requires
        from <= to <= v@.len(),
    ensures
        r@ == v@.subrange(from as int, to as int),
{
    let mut r: Vec<char> = Vec::new();
    let mut k: usize = from;
    while k < to
        invariant
            from <= k <= to <= v@.len(),
            r@ == v@.subrange(from as int, k as int),
        decreases to - k,
    {
        r.push(v[k]);
        k = k + 1;
        assert(r@ =~= v@.subrange(from as int, k as int));
    }
    r
}

/// Reads a string field that ends at the next `"`.
fn read_field(v: &Vec<char>, at: usize) -> (r: Option<(String, usize)>)
    requires
        at <= v@.len(),
    ensures
        r is Some ==> ({
            let (s, e) = r->Some_0;
            at <= e < v@.len() && s@ == v@.subrange(at as int, e as int) && json_plain(s@)
        }),
        forall|e: int|
            at <= e < v@.len() && v@[e] == '"' && #[trigger] json_plain(v@.subrange(at as int, e))
                ==> r is Some && r->Some_0.1 == e,
{
    let found = read_plain(v, at);
    let n = v.len();
    proof {
        assert forall|e: int|
            at <= e < v@.len() && v@[e] == '"' && #[trigger] json_plain(v@.subrange(at as int, e))
                implies found is Some && found->Some_0 == e by {
            assert(e <= n);
            assert(found == Some(e as usize));
        }
    }
    match found {
        Some(e) => Some((string_of_range(v, at, e), e)),
        None => None,
    }
}

/// Reads a number field that ends before the next non-number character.
fn read_number(v: &Vec<char>, at: usize) -> (r: Option<(i64, usize)>)
    requires
        at <= v@.len(),
    ensures
        r is Some ==> ({
            let (n, e) = r->Some_0;
            at <= e <= v@.len() && v@.subrange(at as int, e as int) == int_text(n as int)
        }),
        forall|n: i64, e: int|
            #![trigger v@.subrange(at as int, e), int_text(n as int)]
            at <= e <= v@.len() && v@.subrange(at as int, e) == int_text(n as int) && (e
                == v@.len() || !is_number_char(v@[e])) ==> r == Some((n, e as usize)),
{
    let end = read_number_run(v, at);
    let run = copy_range(v, at, end);
    proof {
        assert forall|n: i64, e: int|
            #![trigger v@.subrange(at as int, e), int_text(n as int)]
            at <= e <= v@.len() && v@.subrange(at as int, e) == int_text(n as int) && (e
                == v@.len() || !is_number_char(v@[e])) implies e == end && run@ == int_text(
            n as int,
        ) by {
            lemma_int_text_chars(n as int);
            if e < end {
                assert(is_number_char(v@[e]));
            }
            if end < e {
                assert(v@.subrange(at as int, e)[end - at] == v@[end as int]);
            }
        }
    }
    match parse_int(&run) {
        Some(n) => Some((n, end)),
        None => None,
    }
}

proof fn lemma_claims_offsets_grow(c: Claims, k: int)
    requires
        0 <= k,
    ensures
        0 <= claims_offset(c, k) <= claims_offset(c, k + 1),
    decreases k,
{
    if k > 0 {
        lemma_claims_offsets_grow(c, k - 1);
    }
}

proof fn lemma_claims_offset_mono(c: Claims, j: int, k: int)
    requires
        0 <= j <= k,
    ensures
        claims_offset(c, j) <= claims_offset(c, k),
    decreases k - j,
{
    if j < k {
        lemma_claims_offset_mono(c, j, k - 1);
        lemma_claims_offsets_grow(c, k - 1);
    }
}

proof fn lemma_piece_at(v: Seq<char>, c: Claims, k: int)
    requires
        written_as(v, c),
        0 <= k < 11,
    ensures
        0 <= claims_offset(c, k) <= claims_offset(c, k + 1) <= v.len(),
        k < 10 ==> claims_offset(c, k + 1) < v.len(),
        claims_offset(c, 11) == v.len(),
        v.subrange(claims_offset(c, k), claims_offset(c, k + 1)) == claims_piece(c, k),
        starts_with(v.subrange(claims_offset(c, k), v.len() as int), claims_piece(c, k)),
        v[claims_offset(c, 2)] == '"',
        v[claims_offset(c, 4)] == '"',
        v[claims_offset(c, 6)] == '"',
        v[claims_offset(c, 8)] == ',',
        v[claims_offset(c, 10)] == '}',
{
    lemma_claims_layout(c);
    lemma_claims_offsets_grow(c, k);
    lemma_claims_offset_mono(c, k + 1, 11);
    if k < 10 {
        lemma_claims_offset_mono(c, k + 1, 10);
    }
    lemma_claims_offsets_grow(c, 10);
    reveal_strlit("}");
    assert(claims_piece(c, 10).len() == 1);
    let o = claims_offset(c, k);
    let o2 = claims_offset(c, k + 1);
    assert(v.subrange(o, v.len() as int).subrange(0, claims_piece(c, k).len() as int) =~= v.subrange(o, o2));
}

#[verifier::rlimit(100)]
#[verifier::spinoff_prover]
/// Reads claims from their JSON text: exactly the texts that `write_claims`
/// makes of claims whose string fields need no escaping.
pub fn read_claims(text: &str) -> (r: Option<Claims>)
    ensures
        r is Some ==> written_as(text@, r->Some_0),
        forall|w: Claims| #[trigger] written_as(text@, w) ==> r is Some && same_claims(r->Some_0, w),
{
    let v = chars_of(text);
    let a = match expect_at(&v, 0, "{\"sub\":\"") {
        Some(a) => a,
        None => {
            proof {
                assert forall|w: Claims| #[trigger] written_as(text@, w) implies false by {
                    lemma_piece_at(v@, w, 0);
                }
            }
            return None;
        },
    };
    proof {
        assert forall|w: Claims| #[trigger] written_as(text@, w) implies a == claims_offset(w, 1) by {
            lemma_piece_at(v@, w, 0);
        }
    }
    let (sub_text, b) = match read_field(&v, a) {
        Some(x) => x,
        None => {
            proof {
                assert forall|w: Claims| #[trigger] written_as(text@, w) implies false by {
                    lemma_piece_at(v@, w, 1);
                }
            }
            return None;
        },
    };
    proof {
        assert forall|w: Claims| #[trigger] written_as(text@, w) implies b == claims_offset(w, 2) by {
            lemma_piece_at(v@, w, 1);
        }
    }
    let c = match expect_at(&v, b, "\",\"email\":\"") {
        Some(c) => c,
        None => {
            proof {
                assert forall|w: Claims| #[trigger] written_as(text@, w) implies false by {
                    lemma_piece_at(v@, w, 2);
                }
            }
            return None;
        },
    };
    proof {
        assert forall|w: Claims| #[trigger] written_as(text@, w) implies c == claims_offset(w, 3) by {
            lemma_piece_at(v@, w, 2);
        }
    }
    let (email, d) = match read_field(&v, c) {
        Some(x) => x,
        None => {
            proof {
                assert forall|w: Claims| #[trigger] written_as(text@, w) implies false by {
                    lemma_piece_at(v@, w, 3);
                }
            }
            return None;
        },
    };
    proof {
        assert forall|w: Claims| #[trigger] written_as(text@, w) implies d == claims_offset(w, 4) by {
            lemma_piece_at(v@, w, 3);
        }
    }
    let e = match expect_at(&v, d, "\",\"role\":\"") {
        Some(e) => e,
        None => {
            proof {
                assert forall|w: Claims| #[trigger] written_as(text@, w) implies false by {
                    lemma_piece_at(v@, w, 4);
                }
            }
            return None;
        },
    };
    proof {
        assert forall|w: Claims| #[trigger] written_as(text@, w) implies e == claims_offset(w, 5) by {
            lemma_piece_at(v@, w, 4);
        }
    }
    let (role, f) = match read_field(&v, e) {
        Some(x) => x,
        None => {
            proof {
                assert forall|w: Claims| #[trigger] written_as(text@, w) implies false by {
                    lemma_piece_at(v@, w, 5);
                }
            }
            return None;
        },
    };
    proof {
        assert forall|w: Claims| #[trigger] written_as(text@, w) implies f == claims_offset(w, 6) by {
            lemma_piece_at(v@, w, 5);
        }
    }
    let g = match expect_at(&v, f, "\",\"iat\":") {
        Some(g) => g,
        None => {
            proof {
                assert forall|w: Claims| #[trigger] written_as(text@, w) implies false by {
                    lemma_piece_at(v@, w, 6);
                }
            }
            return None;
        },
    };
    proof {
        assert forall|w: Claims| #[trigger] written_as(text@, w) implies g == claims_offset(w, 7) by {
            lemma_piece_at(v@, w, 6);
        }
    }
    let (iat, h) = match read_number(&v, g) {
        Some(x) => x,
        None => {
            proof {
                assert forall|w: Claims| #[trigger] written_as(text@, w) implies false by {
                    lemma_piece_at(v@, w, 7);
                }
            }
            return None;
        },
    };
    proof {
        assert forall|w: Claims| #[trigger] written_as(text@, w) implies h == claims_offset(w, 8)
            && iat == w.iat by {
            lemma_piece_at(v@, w, 7);
        }
    }
    let i = match expect_at(&v, h, ",\"exp\":") {
        Some(i) => i,
        None => {
            proof {
                assert forall|w: Claims| #[trigger] written_as(text@, w) implies false by {
                    lemma_piece_at(v@, w, 8);
                }
            }
            return None;
        },
    };
    proof {
        assert forall|w: Claims| #[trigger] written_as(text@, w) implies i == claims_offset(w, 9) by {
            lemma_piece_at(v@, w, 8);
        }
    }
    let (exp, j) = match read_number(&v, i) {
        Some(x) => x,
        None => {
            proof {
                assert forall|w: Claims| #[trigger] written_as(text@, w) implies false by {
                    lemma_piece_at(v@, w, 9);
                }
            }
            return None;
        },
    };
    proof {
        assert forall|w: Claims| #[trigger] written_as(text@, w) implies j == claims_offset(w, 10)
            && exp == w.exp by {
            lemma_piece_at(v@, w, 9);
        }
    }
    let k = match expect_at(&v, j, "}") {
        Some(k) => k,
        None => {
            proof {
                assert forall|w: Claims| #[trigger] written_as(text@, w) implies false by {
                    lemma_piece_at(v@, w, 10);
                }
            }
            return None;
        },
    };
    proof {
        assert forall|w: Claims| #[trigger] written_as(text@, w) implies k == claims_offset(w, 11) by {
            lemma_piece_at(v@, w, 10);
        }
    }
    if k != v.len() {
        proof {
            assert forall|w: Claims| #[trigger] written_as(text@, w) implies false by {
                lemma_piece_at(v@, w, 10);
            }
        }
        return None;
    }
    let sub = match UserId::parse_text(sub_text.as_str()) {
        Some(id) => id,
        None => {
            proof {
                assert forall|w: Claims| #[trigger] written_as(text@, w) implies false by {
                    lemma_piece_at(v@, w, 1);
                }
            }
            return None;
        },
    };
    let canonical = sub.to_text();
    if !eq_text(canonical.as_str(), sub_text.as_str()) {
        proof {
            assert forall|w: Claims| #[trigger] written_as(text@, w) implies false by {
                lemma_piece_at(v@, w, 10);
                lemma_piece_at(v@, w, 1);
            }
        }
        return None;
    }
    let claims = Claims { sub, email, role, iat, exp };
    proof {
        assert(v@ =~= v@.subrange(0, a as int) + v@.subrange(a as int, b as int) + v@.subrange(
            b as int,
            c as int,
        ) + v@.subrange(c as int, d as int) + v@.subrange(d as int, e as int) + v@.subrange(
            e as int,
            f as int,
        ) + v@.subrange(f as int, g as int) + v@.subrange(g as int, h as int) + v@.subrange(
            h as int,
            i as int,
        ) + v@.subrange(i as int, j as int) + v@.subrange(j as int, k as int));
        assert(text@ =~= claims_json(claims));
        assert forall|w: Claims| #[trigger] written_as(text@, w) implies same_claims(claims, w) by {
            lemma_piece_at(v@, w, 1);
            lemma_piece_at(v@, w, 3);
            lemma_piece_at(v@, w, 5);
        }
    }
    Some(claims)
}

} // verus!
