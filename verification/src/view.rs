//! View-state derivation: which of the two form sections a given page URL
//! selects, the matching document title and visibility classes, and the URL
//! a mode change pushes into the browser history.

use vstd::prelude::*;
use vstd::string::StrSliceExecFns;
use vstd::string::StringExecFns;

verus! {

/// Which of the two views the page presents.
#[derive(Clone, Copy, Debug, PartialEq, Eq, Structural)]
pub enum ViewMode {
    SignIn,
    SignUp,
}

/// Index of the first occurrence of `c` in `q`, or `q.len()` if absent.
pub open spec fn spec_find(q: Seq<char>, c: char) -> int
    decreases q.len(),
{
    if q.len() == 0 {
        0
    } else if q[0] == c {
        0
    } else {
        1 + spec_find(q.subrange(1, q.len() as int), c)
    }
}

/// `spec_find` returns the least index holding `c`, or the length.
pub proof fn lemma_spec_find(q: Seq<char>, c: char)
    ensures
        0 <= spec_find(q, c) <= q.len(),
        spec_find(q, c) < q.len() ==> q[spec_find(q, c)] == c,
        forall|k: int| 0 <= k < spec_find(q, c) ==> q[k] != c,
    decreases q.len(),
{
    if q.len() == 0 {
    } else if q[0] == c {
    } else {
        let rest = q.subrange(1, q.len() as int);
        lemma_spec_find(rest, c);
        if spec_find(q, c) < q.len() {
            assert(q[spec_find(q, c)] == rest[spec_find(rest, c)]);
        }
        assert forall|k: int| 0 <= k < spec_find(q, c) implies q[k] != c by {
            if k >= 1 {
                assert(q[k] == rest[k - 1]);
            }
        }
    }
}

/// If `c` first appears at `i`, then `spec_find` returns `i`.
pub proof fn lemma_spec_find_at(q: Seq<char>, c: char, i: int)
    requires
        0 <= i < q.len(),
        q[i] == c,
        forall|k: int| 0 <= k < i ==> q[k] != c,
    ensures
        spec_find(q, c) == i,
{
    lemma_spec_find(q, c);
    if spec_find(q, c) < i {
        assert(q[spec_find(q, c)] == c);
    }
}

/// If `c` does not appear in `q`, then `spec_find` returns `q.len()`.
pub proof fn lemma_spec_find_absent(q: Seq<char>, c: char)
    requires
        forall|k: int| 0 <= k < q.len() ==> q[k] != c,
    ensures
        spec_find(q, c) == q.len(),
{
    lemma_spec_find(q, c);
}

/// Index of the first occurrence of `c` in `s`, or its length if absent.
pub(crate) fn find_char(s: &str, c: char) -> (r: usize)
    ensures
        r as int == spec_find(s@, c),
        r <= s@.len(),
{
    proof {
        lemma_spec_find(s@, c);
    }
    let n = s.unicode_len();
    let mut i: usize = 0;
    while i < n
        invariant
            n == s@.len(),
            i <= n,
            forall|k: int| 0 <= k < i ==> s@[k] != c,
        decreases n - i,
    {
        if s.get_char(i) == c {
            proof {
                lemma_spec_find_at(s@, c, i as int);
            }
            return i;
        }
        i = i + 1;
    }
    proof {
        lemma_spec_find_absent(s@, c);
    }
    n
}

/// Whether two string slices hold the same characters.
pub(crate) fn str_eq(a: &str, b: &str) -> (r: bool)
    ensures
        r == (a@ == b@),
{
    let na = a.unicode_len();
    let nb = b.unicode_len();
    if na != nb {
        return false;
    }
    let mut i: usize = 0;
    while i < na
        invariant
            na == a@.len(),
            na == b@.len(),
            i <= na,
            forall|k: int| 0 <= k < i ==> a@[k] == b@[k],
        decreases na - i,
    {
        if a.get_char(i) != b.get_char(i) {
            return false;
        }
        i = i + 1;
    }
    proof {
        assert(a@ =~= b@);
    }
    true
}

/// The value of `key` in the query body `q` (no leading `'?'`): segments are
/// separated by `'&'`; within a segment the key runs to the first `'='` and
/// the value is what follows it (empty when no `'='` is present); the first
/// segment whose key matches wins.
pub open spec fn spec_param(q: Seq<char>, key: Seq<char>) -> Option<Seq<char>>
    decreases q.len(),
    via spec_param_decreases
{
    let amp = spec_find(q, '&');
    let seg = q.subrange(0, amp);
    let eq = spec_find(seg, '=');
    if seg.subrange(0, eq) == key {
        Some(
            if eq < seg.len() {
                seg.subrange(eq + 1, seg.len() as int)
            } else {
                Seq::empty()
            },
        )
    } else if amp < q.len() {
        spec_param(q.subrange(amp + 1, q.len() as int), key)
    } else {
        None
    }
}

#[via_fn]
proof fn spec_param_decreases(q: Seq<char>, key: Seq<char>) {
    lemma_spec_find(q, '&');
}

/// Look `key` up in the query body `q`.
pub fn param_value(q: &str, key: &str) -> (r: Option<String>)
    ensures
        r is Some <==> spec_param(q@, key@) is Some,
        r matches Some(v) ==> Some(v@) == spec_param(q@, key@),
    decreases q@.len(),
{
    proof {
        lemma_spec_find(q@, '&');
    }
    let n = q.unicode_len();
    let amp = find_char(q, '&');
    let seg = q.substring_char(0, amp);
    proof {
        lemma_spec_find(seg@, '=');
    }
    let eq = find_char(seg, '=');
    let seg_len = seg.unicode_len();
    let k = seg.substring_char(0, eq);
    if str_eq(k, key) {
        if eq < seg_len {
            Some(String::from_str(seg.substring_char(eq + 1, seg_len)))
        } else {
            Some(String::new())
        }
    } else if amp < n {
        let rest = q.substring_char(amp + 1, n);
        param_value(rest, key)
    } else {
        None
    }
}

/// The query body of a search string: a single leading `'?'` is dropped.
pub open spec fn spec_query_body(search: Seq<char>) -> Seq<char> {
    if search.len() > 0 && search[0] == '?' {
        search.subrange(1, search.len() as int)
    } else {
        search
    }
}

/// The value of the `type` parameter in a search string, if present.
pub open spec fn spec_type_param(search: Seq<char>) -> Option<Seq<char>> {
    spec_param(spec_query_body(search), "type"@)
}

/// The mode a search string selects: `SignUp` exactly when the `type`
/// parameter is present with value `new`, else `SignIn`.
pub open spec fn spec_mode_of_search(search: Seq<char>) -> ViewMode {
    if spec_type_param(search) == Some("new"@) {
        ViewMode::SignUp
    } else {
        ViewMode::SignIn
    }
}

/// Derive the view mode from the page URL's search string.
pub fn mode_of_search(search: &str) -> (r: ViewMode)
    ensures
        r == spec_mode_of_search(search@),
{
    let n = search.unicode_len();
    let body = if n > 0 && search.get_char(0) == '?' {
        search.substring_char(1, n)
    } else {
        search
    };
    match param_value(body, "type") {
        Some(v) => {
            if str_eq(v.as_str(), "new") {
                ViewMode::SignUp
            } else {
                ViewMode::SignIn
            }
        }
        None => ViewMode::SignIn,
    }
}

/// The document title for a mode, with the fixed site suffix.
pub open spec fn spec_title(m: ViewMode) -> Seq<char> {
    match m {
        ViewMode::SignUp => "Create account"@ + " - GMT"@,
        ViewMode::SignIn => "Sign in"@ + " - GMT"@,
    }
}

/// The section class hidden in a mode.
pub open spec fn spec_hide_class(m: ViewMode) -> Seq<char> {
    match m {
        ViewMode::SignUp => "signin"@,
        ViewMode::SignIn => "signup"@,
    }
}

/// The section class shown in a mode.
pub open spec fn spec_show_class(m: ViewMode) -> Seq<char> {
    match m {
        ViewMode::SignUp => "signup"@,
        ViewMode::SignIn => "signin"@,
    }
}

/// Everything a renderer must apply for one mode: the title to set, the
/// section class to hide and the section class to show.
pub struct RenderPlan {
    pub mode: ViewMode,
    pub title: String,
    pub hide_class: String,
    pub show_class: String,
}

/// The render plan for the current search string. The plan is a pure
/// function of the search string, so rendering it again for an unchanged
/// URL repeats the same title and the same visibility classes.
pub fn update_plan(search: &str) -> (r: RenderPlan)
    ensures
        r.mode == spec_mode_of_search(search@),
        r.title@ == spec_title(r.mode),
        r.hide_class@ == spec_hide_class(r.mode),
        r.show_class@ == spec_show_class(r.mode),
{
    let mode = mode_of_search(search);
    match mode {
        ViewMode::SignUp => RenderPlan {
            mode,
            title: String::from_str("Create account").concat(" - GMT"),
            hide_class: String::from_str("signin"),
            show_class: String::from_str("signup"),
        },
        ViewMode::SignIn => RenderPlan {
            mode,
            title: String::from_str("Sign in").concat(" - GMT"),
            hide_class: String::from_str("signup"),
            show_class: String::from_str("signin"),
        },
    }
}

/// The mode a state-change request selects: the literal `signup` asks for
/// `SignUp`, anything else for `SignIn`.
pub open spec fn spec_target_mode(t: Seq<char>) -> ViewMode {
    if t == "signup"@ {
        ViewMode::SignUp
    } else {
        ViewMode::SignIn
    }
}

/// The query a mode writes into the URL.
pub open spec fn spec_mode_query(m: ViewMode) -> Seq<char> {
    match m {
        ViewMode::SignUp => "?type=new"@,
        ViewMode::SignIn => ""@,
    }
}

/// The URL pushed into history for a state change: the current path plus
/// `?type=new` for sign-up, the bare path for sign-in.
pub fn change_state_url(path: &str, target: &str) -> (r: String)
    ensures
        r@ == path@ + spec_mode_query(spec_target_mode(target@)),
{
    if str_eq(target, "signup") {
        String::from_str(path).concat("?type=new")
    } else {
        proof {
            reveal_strlit("");
            assert(path@ + ""@ =~= path@);
        }
        String::from_str(path)
    }
}

/// Mode and URL stay in step: the query that `change_state_url` appends for
/// a mode selects that same mode again when the new URL is rendered.
pub proof fn lemma_mode_query_roundtrip(m: ViewMode)
    ensures
        spec_mode_of_search(spec_mode_query(m)) == m,
{
    reveal_strlit("?type=new");
    reveal_strlit("type");
    reveal_strlit("new");
    reveal_strlit("");
    match m {
        ViewMode::SignUp => {
            let search = "?type=new"@;
            let body = spec_query_body(search);
            assert(body =~= "type=new"@) by {
                reveal_strlit("type=new");
            }
            reveal_strlit("type=new");
            let amp = spec_find(body, '&');
            assert(amp == 8) by {
                lemma_spec_find_absent(body, '&');
            }
            let seg = body.subrange(0, 8);
            assert(seg =~= body);
            assert(spec_find(seg, '=') == 4) by {
                lemma_spec_find_at(seg, '=', 4);
            }
            assert(seg.subrange(0, 4) =~= "type"@);
            assert(seg.subrange(5, 8) =~= "new"@);
            assert(spec_param(body, "type"@) == Some("new"@));
        }
        ViewMode::SignIn => {
            let search = ""@;
            let body = spec_query_body(search);
            assert(body =~= ""@);
            let amp = spec_find(body, '&');
            assert(amp == 0) by {
                lemma_spec_find_absent(body, '&');
            }
            let seg = body.subrange(0, 0);
            assert(spec_find(seg, '=') == 0) by {
                lemma_spec_find_absent(seg, '=');
            }
            assert(seg.subrange(0, 0).len() == 0);
            reveal_strlit("type");
            assert(seg.subrange(0, 0) != "type"@);
            assert(spec_param(body, "type"@) is None);
        }
    }
}

} // verus!
