//! Names of the counters of user operations.
use vstd::prelude::*;

use crate::text::{chars_of, eq_text, push_char, string_of_range};

verus! {

/// Name of the counter of one operation and outcome, for those counted.
pub open spec fn counter_for(op: Seq<char>, outcome: Seq<char>) -> Option<Seq<char>> {
    if op == "create"@ && outcome == "success"@ {
        Some("app_user_create_success_total"@)
    } else if op == "create"@ && outcome == "error"@ {
        Some("app_user_create_error_total"@)
    } else if op == "list"@ && outcome == "success"@ {
        Some("app_user_list_success_total"@)
    } else if op == "list"@ && outcome == "error"@ {
        Some("app_user_list_error_total"@)
    } else if op == "get"@ && outcome == "success"@ {
        Some("app_user_get_success_total"@)
    } else if op == "get"@ && outcome == "error"@ {
        Some("app_user_get_error_total"@)
    } else if op == "update"@ && outcome == "success"@ {
        Some("app_user_update_success_total"@)
    } else if op == "update"@ && outcome == "error"@ {
        Some("app_user_update_error_total"@)
    } else if op == "delete"@ && outcome == "success"@ {
        Some("app_user_delete_success_total"@)
    } else if op == "delete"@ && outcome == "error"@ {
        Some("app_user_delete_error_total"@)
    } else {
        None
    }
}

pub open spec fn is_line_break(c: char) -> bool {
    c == '\n' || c == '\r'
}

/// `s` without its leading line breaks.
pub open spec fn strip_leading_breaks(s: Seq<char>) -> Seq<char>
    decreases s.len(),
{
    if s.len() > 0 && is_line_break(s[0]) {
        strip_leading_breaks(s.drop_first())
    } else {
        s
    }
}

/// The exposition text served for scraping: no leading line breaks, and a
/// line break at the end.
pub open spec fn exposition_body(s: Seq<char>) -> Seq<char> {
    let t = strip_leading_breaks(s);
    if t.len() > 0 && t.last() == '\n' {
        t
    } else {
        t.push('\n')
    }
}

proof fn lemma_strip_leading_breaks(s: Seq<char>, i: int)
    requires
        0 <= i <= s.len(),
        forall|k: int| 0 <= k < i ==> is_line_break(#[trigger] s[k]),
        i == s.len() || !is_line_break(s[i]),
    ensures
        strip_leading_breaks(s) == s.subrange(i, s.len() as int),
    decreases i,
{
    if i == 0 {
        assert(s.subrange(0, s.len() as int) =~= s);
    } else {
        let t = s.drop_first();
        assert forall|k: int| 0 <= k < i - 1 implies is_line_break(#[trigger] t[k]) by {
            assert(t[k] == s[k + 1]);
        }
        lemma_strip_leading_breaks(t, i - 1);
        assert(t.subrange(i - 1, t.len() as int) =~= s.subrange(i, s.len() as int));
    }
}

/// Normalizes a rendered metrics text for scraping.
pub fn prometheus_body(rendered: &str) -> (r: String)
    ensures
        r@ == exposition_body(rendered@),
{
    let v = chars_of(rendered);
    let n = v.len();
    let mut i: usize = 0;
    while i < n && (v[i] == '\n' || v[i] == '\r')
        invariant
            i <= n == v@.len(),
            forall|k: int| 0 <= k < i ==> is_line_break(#[trigger] v@[k]),
        decreases n - i,
    {
        i = i + 1;
    }
    proof {
        lemma_strip_leading_breaks(v@, i as int);
    }
    let mut r = string_of_range(&v, i, n);
    if i == n || v[n - 1] != '\n' {
        push_char(&mut r, '\n');
    }
    r
}

/// Counts user operations.
#[derive(Clone, Copy, Debug)]
pub struct AppMetrics;

impl AppMetrics {
    /// Name of the counter of all user operations.
    pub const USERS_OP_TOTAL: &'static str = "app_user_operations_total";

    pub fn new() -> (r: AppMetrics) {
        AppMetrics
    }

    /// The counter for an operation and outcome, if both are counted.
    pub fn counter_metric(operation: &str, outcome: &str) -> (r: Option<&'static str>)
        ensures
            match counter_for(operation@, outcome@) {
                Some(name) => r is Some && r->Some_0@ == name,
                None => r is None,
            },
    {
        let success = eq_text(outcome, "success");
        let error = eq_text(outcome, "error");
        proof {
            reveal_strlit("success");
            reveal_strlit("error");
            assert("success"@.len() != "error"@.len());
        }
        if !success && !error {
            return None;
        }
        if eq_text(operation, "create") {
            if success { Some("app_user_create_success_total") } else { Some("app_user_create_error_total") }
        } else if eq_text(operation, "list") {
            if success { Some("app_user_list_success_total") } else { Some("app_user_list_error_total") }
        } else if eq_text(operation, "get") {
            if success { Some("app_user_get_success_total") } else { Some("app_user_get_error_total") }
        } else if eq_text(operation, "update") {
            if success { Some("app_user_update_success_total") } else { Some("app_user_update_error_total") }
        } else if eq_text(operation, "delete") {
            if success { Some("app_user_delete_success_total") } else { Some("app_user_delete_error_total") }
        } else {
            None
        }
    }
}

} // verus!
