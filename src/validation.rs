//! Sanitizing untrusted text before it is written to a log sink.
use vstd::prelude::*;

use crate::text::{
    chars_of, is_control, is_control_char, string_of_range, trim, trim_bounds, trim_end,
    trim_start, utf8_width, utf8_width_of,
};

verus! {

/// Largest request body accepted, in bytes.
pub const MAX_JSON_BODY_BYTES: usize = 16384;

/// Longest text, in UTF-8 bytes, that a log field may hold.
pub const MAX_LOG_FIELD_BYTES: usize = 256;

/// Characters that survive sanitizing: all but control characters, tab excepted.
pub open spec fn kept_in_log(c: char) -> bool {
    !is_control(c) || c == '\u{9}'
}

/// `s` without the characters that are not kept in logs.
pub open spec fn strip_controls(s: Seq<char>) -> Seq<char>
    decreases s.len(),
{
    if s.len() == 0 {
        s
    } else if kept_in_log(s.last()) {
        strip_controls(s.drop_last()).push(s.last())
    } else {
        strip_controls(s.drop_last())
    }
}

/// The longest prefix of `s` whose UTF-8 encoding fits in `n` bytes.
pub open spec fn prefix_within(s: Seq<char>, n: nat) -> Seq<char>
    decreases s.len(),
{
    if s.len() == 0 || utf8_width(s[0]) > n {
        Seq::empty()
    } else {
        seq![s[0]] + prefix_within(s.drop_first(), (n - utf8_width(s[0])) as nat)
    }
}

/// What a free-text field becomes before it is logged.
pub open spec fn sanitized(s: Seq<char>) -> Seq<char> {
    trim(prefix_within(strip_controls(s), MAX_LOG_FIELD_BYTES as nat))
}

proof fn lemma_prefix_within_step(s: Seq<char>, i: int, n: nat)
    requires
        0 <= i < s.len(),
        utf8_width(s[i]) <= n,
    ensures
        prefix_within(s.subrange(i, s.len() as int), n) == seq![s[i]] + prefix_within(
            s.subrange(i + 1, s.len() as int),
            (n - utf8_width(s[i])) as nat,
        ),
{
    let t = s.subrange(i, s.len() as int);
    assert(t[0] == s[i]);
    assert(t.drop_first() =~= s.subrange(i + 1, s.len() as int));
}

/// Strips control characters (tab and space kept), keeps at most 256 bytes
/// (never splitting a character) and trims surrounding white space.
pub fn sanitize_for_logging(value: &str) -> (r: String)
    ensures
        r@ == sanitized(value@),
        r@.len() <= MAX_LOG_FIELD_BYTES,
        forall|i: int| 0 <= i < r@.len() ==> kept_in_log(#[trigger] r@[i]),
{
    let chars = chars_of(value);
    let mut kept: Vec<char> = Vec::new();
    let mut i: usize = 0;
    while i < chars.len()
        invariant
            i <= chars@.len(),
            chars@ == value@,
            kept@ == strip_controls(chars@.subrange(0, i as int)),
            forall|k: int| 0 <= k < kept@.len() ==> kept_in_log(#[trigger] kept@[k]),
        decreases chars@.len() - i,
    {
        let c = chars[i];
        proof {
            assert(chars@.subrange(0, i + 1).drop_last() =~= chars@.subrange(0, i as int));
        }
        if !is_control_char(c) || c == '\u{9}' {
            kept.push(c);
        }
        i = i + 1;
    }
    assert(chars@.subrange(0, chars@.len() as int) =~= chars@);
    // Longest prefix that fits in the byte budget.
    let mut end: usize = 0;
    let mut budget: usize = MAX_LOG_FIELD_BYTES;
    assert(kept@.subrange(0, kept@.len() as int) =~= kept@);
    assert(kept@.subrange(0, 0) + kept@ =~= kept@);
    while end < kept.len() && utf8_width_of(kept[end]) <= budget
        invariant
            end <= kept@.len(),
            budget <= MAX_LOG_FIELD_BYTES,
            prefix_within(kept@, MAX_LOG_FIELD_BYTES as nat) == kept@.subrange(0, end as int)
                + prefix_within(kept@.subrange(end as int, kept@.len() as int), budget as nat),
        decreases kept@.len() - end,
    {
        proof {
            lemma_prefix_within_step(kept@, end as int, budget as nat);
            assert(kept@.subrange(0, end as int) + seq![kept@[end as int]] =~= kept@.subrange(
                0,
                end + 1,
            ));
        }
        budget = budget - utf8_width_of(kept[end]);
        end = end + 1;
    }
    proof {
        if end == kept@.len() {
            assert(kept@.subrange(end as int, kept@.len() as int) =~= Seq::<char>::empty());
        } else {
            assert(kept@.subrange(end as int, kept@.len() as int)[0] == kept@[end as int]);
        }
        assert(prefix_within(kept@, MAX_LOG_FIELD_BYTES as nat) =~= kept@.subrange(0, end as int));
        assert(kept@.subrange(0, 0) + prefix_within(kept@, MAX_LOG_FIELD_BYTES as nat)
            =~= prefix_within(kept@, MAX_LOG_FIELD_BYTES as nat));
    }
    let mut head: Vec<char> = Vec::new();
    let mut k: usize = 0;
    while k < end
        invariant
            k <= end <= kept@.len(),
            head@ == kept@.subrange(0, k as int),
        decreases end - k,
    {
        head.push(kept[k]);
        k = k + 1;
        assert(head@ =~= kept@.subrange(0, k as int));
    }
    let (from, to) = trim_bounds(&head);
    let r = string_of_range(&head, from, to);
    proof {
        assert forall|j: int| 0 <= j < r@.len() implies kept_in_log(#[trigger] r@[j]) by {
            assert(r@[j] == kept@[j + from]);
        }
        lemma_budget_bounds_len(kept@, end as int);
    }
    r
}

proof fn lemma_budget_bounds_len(s: Seq<char>, end: int)
    requires
        0 <= end <= s.len(),
        prefix_within(s, MAX_LOG_FIELD_BYTES as nat) == s.subrange(0, end),
    ensures
        end <= MAX_LOG_FIELD_BYTES,
{
    lemma_prefix_within_count(s, MAX_LOG_FIELD_BYTES as nat);
}

proof fn lemma_prefix_within_count(s: Seq<char>, n: nat)
    ensures
        prefix_within(s, n).len() <= n,
    decreases s.len(),
{
    if s.len() > 0 && utf8_width(s[0]) <= n {
        lemma_prefix_within_count(s.drop_first(), (n - utf8_width(s[0])) as nat);
    }
}

proof fn lemma_strip_controls_kept(s: Seq<char>)
    ensures
        forall|i: int| 0 <= i < strip_controls(s).len() ==> kept_in_log(#[trigger] strip_controls(s)[i]),
    decreases s.len(),
{
    if s.len() > 0 {
        let rest = strip_controls(s.drop_last());
        lemma_strip_controls_kept(s.drop_last());
        if kept_in_log(s.last()) {
            assert forall|i: int| 0 <= i < strip_controls(s).len() implies kept_in_log(
                #[trigger] strip_controls(s)[i],
            ) by {
                if i < rest.len() {
                    assert(strip_controls(s)[i] == rest[i]);
                }
            }
        }
    }
}

proof fn lemma_prefix_within_from(s: Seq<char>, n: nat)
    ensures
        prefix_within(s, n).len() <= s.len(),
        forall|i: int| 0 <= i < prefix_within(s, n).len() ==> #[trigger] prefix_within(s, n)[i] == s[i],
    decreases s.len(),
{
    if s.len() > 0 && utf8_width(s[0]) <= n {
        let m = (n - utf8_width(s[0])) as nat;
        lemma_prefix_within_from(s.drop_first(), m);
        let p = prefix_within(s, n);
        assert forall|i: int| 0 <= i < p.len() implies #[trigger] p[i] == s[i] by {
            if i > 0 {
                assert(p[i] == prefix_within(s.drop_first(), m)[i - 1]);
            }
        }
    }
}

proof fn lemma_trim_start_suffix(s: Seq<char>)
    ensures
        trim_start(s).len() <= s.len(),
        forall|i: int| 0 <= i < trim_start(s).len() ==> #[trigger] trim_start(s)[i] == s[i + s.len() - trim_start(s).len()],
    decreases s.len(),
{
    if s.len() > 0 && crate::text::is_white_space(s[0]) {
        lemma_trim_start_suffix(s.drop_first());
    }
}

proof fn lemma_trim_end_prefix(s: Seq<char>)
    ensures
        trim_end(s).len() <= s.len(),
        forall|i: int| 0 <= i < trim_end(s).len() ==> #[trigger] trim_end(s)[i] == s[i],
    decreases s.len(),
{
    if s.len() > 0 && crate::text::is_white_space(s.last()) {
        lemma_trim_end_prefix(s.drop_last());
    }
}

/// A sanitized field holds no control character but tab, and at most 256
/// characters, whatever the input.
pub proof fn lemma_sanitized_is_clean(s: Seq<char>)
    ensures
        sanitized(s).len() <= MAX_LOG_FIELD_BYTES,
        forall|i: int| 0 <= i < sanitized(s).len() ==> kept_in_log(#[trigger] sanitized(s)[i]),
{
    let k = strip_controls(s);
    let p = prefix_within(k, MAX_LOG_FIELD_BYTES as nat);
    let t = trim_start(p);
    lemma_strip_controls_kept(s);
    lemma_prefix_within_from(k, MAX_LOG_FIELD_BYTES as nat);
    lemma_prefix_within_count(k, MAX_LOG_FIELD_BYTES as nat);
    lemma_trim_start_suffix(p);
    lemma_trim_end_prefix(t);
    assert forall|i: int| 0 <= i < sanitized(s).len() implies kept_in_log(#[trigger] sanitized(s)[i]) by {
        assert(sanitized(s)[i] == t[i]);
        assert(t[i] == p[i + p.len() - t.len()]);
        assert(p[i + p.len() - t.len()] == k[i + p.len() - t.len()]);
    }
}

} // verus!
