use vstd::prelude::*;
use crate::text::{chars_of, is_ws, is_ws_char, occurs_at, occurs_at_exec};

verus! {

broadcast use vstd::string::group_string_axioms;

/// The length of the run of characters satisfying `p` that starts at `j`.
pub open spec fn run_len(s: Seq<char>, j: int, p: spec_fn(char) -> bool) -> nat
    decreases s.len() - j,
{
    if 0 <= j < s.len() && p(s[j]) {
        1 + run_len(s, j + 1, p)
    } else {
        0
    }
}

pub proof fn lemma_run_len(s: Seq<char>, j: int, k: int, p: spec_fn(char) -> bool)
    requires
        0 <= j,
        0 <= k,
        j + k <= s.len(),
        forall|t: int| j <= t < j + k ==> p(#[trigger] s[t]),
        j + k == s.len() || !p(s[j + k]),
    ensures
        run_len(s, j, p) == k,
    decreases k,
{
    if k > 0 {
        lemma_run_len(s, j + 1, k - 1, p);
    }
}

/// A character of a base64 hash: `[a-zA-Z0-9+/=]`.
pub open spec fn is_hash_char(c: char) -> bool {
    ('a' <= c && c <= 'z') || ('A' <= c && c <= 'Z') || ('0' <= c && c <= '9') || c == '+'
        || c == '/' || c == '='
}

/// Any character but a double quote: `[^"]`.
pub open spec fn is_not_quote(c: char) -> bool {
    c != '"'
}

pub open spec fn ws_pred() -> spec_fn(char) -> bool {
    |c: char| is_ws(c)
}

pub open spec fn hash_pred() -> spec_fn(char) -> bool {
    |c: char| is_hash_char(c)
}

pub open spec fn not_quote_pred() -> spec_fn(char) -> bool {
    |c: char| is_not_quote(c)
}

fn is_hash_char_exec(c: char) -> (b: bool)
    ensures
        b == is_hash_char(c),
{
    ('a' <= c && c <= 'z') || ('A' <= c && c <= 'Z') || ('0' <= c && c <= '9') || c == '+'
        || c == '/' || c == '='
}

fn ws_run_exec(s: &Vec<char>, j: usize) -> (n: usize)
    requires
        j <= s.len(),
    ensures
        n == run_len(s@, j as int, ws_pred()),
        j + n <= s.len(),
{
    let mut k: usize = j;
    while k < s.len() && is_ws_char(s[k])
        invariant
            j <= k <= s.len(),
            forall|t: int| j <= t < k ==> ws_pred()(#[trigger] s@[t]),
        decreases s.len() - k,
    {
        k = k + 1;
    }
    proof {
        lemma_run_len(s@, j as int, (k - j) as int, ws_pred());
    }
    k - j
}

fn hash_run_exec(s: &Vec<char>, j: usize) -> (n: usize)
    requires
        j <= s.len(),
    ensures
        n == run_len(s@, j as int, hash_pred()),
        j + n <= s.len(),
{
    let mut k: usize = j;
    while k < s.len() && is_hash_char_exec(s[k])
        invariant
            j <= k <= s.len(),
            forall|t: int| j <= t < k ==> hash_pred()(#[trigger] s@[t]),
        decreases s.len() - k,
    {
        k = k + 1;
    }
    proof {
        lemma_run_len(s@, j as int, (k - j) as int, hash_pred());
    }
    k - j
}

fn not_quote_run_exec(s: &Vec<char>, j: usize) -> (n: usize)
    requires
        j <= s.len(),
    ensures
        n == run_len(s@, j as int, not_quote_pred()),
        j + n <= s.len(),
{
    let mut k: usize = j;
    while k < s.len() && s[k] != '"'
        invariant
            j <= k <= s.len(),
            forall|t: int| j <= t < k ==> not_quote_pred()(#[trigger] s@[t]),
        decreases s.len() - k,
    {
        k = k + 1;
    }
    proof {
        lemma_run_len(s@, j as int, (k - j) as int, not_quote_pred());
    }
    k - j
}

// ---------------------------------------------------------------------
// `LABEL\s+(sha256-[a-zA-Z0-9+/=]+)`
// ---------------------------------------------------------------------

/// The hash that `LABEL\s+(sha256-[a-zA-Z0-9+/=]+)` captures when it
/// matches at index `i` of `s`.
pub open spec fn labeled_hash_at(s: Seq<char>, label: Seq<char>, i: int) -> Option<Seq<char>> {
    if occurs_at(s, i, label) {
        let j = i + label.len();
        let w = run_len(s, j, ws_pred());
        let h = j + w;
        let n = run_len(s, h + 7, hash_pred());
        if w >= 1 && occurs_at(s, h, "sha256-"@) && n >= 1 {
            Some(s.subrange(h, h + 7 + n))
        } else {
            None
        }
    } else {
        None
    }
}

/// The capture of the leftmost match of the pattern at or after index `from`.
pub open spec fn scan_labeled_hash(s: Seq<char>, label: Seq<char>, from: int) -> Option<
    Seq<char>,
>
    decreases s.len() + 1 - from,
{
    if from < 0 || from > s.len() {
        None
    } else {
        match labeled_hash_at(s, label, from) {
            Some(h) => Some(h),
            None => scan_labeled_hash(s, label, from + 1),
        }
    }
}

/// The capture of the leftmost match of `LABEL\s+(sha256-[a-zA-Z0-9+/=]+)`
/// in `s`, as a regular expression search finds it.
pub open spec fn first_labeled_hash(s: Seq<char>, label: Seq<char>) -> Option<Seq<char>> {
    scan_labeled_hash(s, label, 0)
}

/// The bounds of the capture at `i`, if the pattern matches there.
fn labeled_hash_at_exec(s: &Vec<char>, label: &Vec<char>, i: usize) -> (r: Option<(usize, usize)>)
    requires
        i <= s.len(),
    ensures
        match r {
            Some((a, b)) => a <= b <= s.len() && labeled_hash_at(s@, label@, i as int) == Some(
                s@.subrange(a as int, b as int),
            ),
            None => labeled_hash_at(s@, label@, i as int) is None,
        },
{
    if !occurs_at_exec(s, i, label) {
        return None;
    }
    let j = i + label.len();
    let w = ws_run_exec(s, j);
    let h = j + w;
    let prefix = chars_of("sha256-");
    proof {
        reveal_strlit("sha256-");
    }
    if w < 1 || !occurs_at_exec(s, h, &prefix) {
        return None;
    }
    let n = hash_run_exec(s, h + 7);
    if n < 1 {
        return None;
    }
    Some((h, h + 7 + n))
}

/// The bounds of the capture of the leftmost match at or after `from`.
fn scan_labeled_hash_exec(s: &Vec<char>, label: &Vec<char>) -> (r: Option<(usize, usize)>)
    ensures
        match r {
            Some((a, b)) => a <= b <= s.len() && first_labeled_hash(s@, label@) == Some(
                s@.subrange(a as int, b as int),
            ),
            None => first_labeled_hash(s@, label@) is None,
        },
{
    let mut i: usize = 0;
    while i <= s.len()
        invariant
            i <= s.len() + 1,
            scan_labeled_hash(s@, label@, 0) == scan_labeled_hash(s@, label@, i as int),
        decreases s.len() + 1 - i,
    {
        match labeled_hash_at_exec(s, label, i) {
            Some(bounds) => {
                return Some(bounds);
            },
            None => {},
        }
        if i == s.len() {
            assert(scan_labeled_hash(s@, label@, i + 1) is None);
            return None;
        }
        i = i + 1;
    }
    None
}

/// The leftmost capture of `LABEL\s+(sha256-[a-zA-Z0-9+/=]+)` in `text`.
pub fn find_labeled_hash(text: &str, label: &str) -> (r: Option<String>)
    ensures
        match r {
            Some(h) => first_labeled_hash(text@, label@) == Some(h@),
            None => first_labeled_hash(text@, label@) is None,
        },
{
    let s = chars_of(text);
    let l = chars_of(label);
    match scan_labeled_hash_exec(&s, &l) {
        Some((a, b)) => Some(text.substring_char(a, b).to_string()),
        None => None,
    }
}

// ---------------------------------------------------------------------
// `NAME\s*=\s*"VALUE"` with VALUE either `[^"]*` or a fixed text
// ---------------------------------------------------------------------

/// The length of the match of `NAME\s*=\s*"VALUE"` at index `i` of `s`, where
/// VALUE is the text `v` when `value` is `Some(v)` and `[^"]*` otherwise.
pub open spec fn attr_match_len(s: Seq<char>, i: int, name: Seq<char>, value: Option<Seq<char>>) -> Option<int> {
    if occurs_at(s, i, name) {
        let a = i + name.len();
        let w1 = run_len(s, a, ws_pred());
        let eq = a + w1;
        if eq < s.len() && s[eq] == '=' {
            let w2 = run_len(s, eq + 1, ws_pred());
            let q1 = eq + 1 + w2;
            if q1 < s.len() && s[q1] == '"' {
                let c = q1 + 1;
                let vlen = match value {
                    Some(v) => if occurs_at(s, c, v) {
                        v.len() as int
                    } else {
                        -1
                    },
                    None => run_len(s, c, not_quote_pred()) as int,
                };
                if vlen >= 0 && c + vlen < s.len() && s[c + vlen] == '"' {
                    Some(c + vlen + 1 - i)
                } else {
                    None
                }
            } else {
                None
            }
        } else {
            None
        }
    } else {
        None
    }
}

/// `s` from index `k` on, with every match of the attribute pattern, taken
/// leftmost first and without overlap, replaced by `repl`.
pub open spec fn replace_from(
    s: Seq<char>,
    k: int,
    name: Seq<char>,
    value: Option<Seq<char>>,
    repl: Seq<char>,
) -> Seq<char>
    decreases s.len() - k,
{
    if k < 0 || k >= s.len() {
        seq![]
    } else {
        match attr_match_len(s, k, name, value) {
            Some(n) => if n > 0 {
                repl + replace_from(s, k + n, name, value, repl)
            } else {
                seq![s[k]] + replace_from(s, k + 1, name, value, repl)
            },
            None => seq![s[k]] + replace_from(s, k + 1, name, value, repl),
        }
    }
}

/// `s` with every match of the attribute pattern replaced by `repl`, as a
/// regular expression's `replace_all` gives it.
pub open spec fn replace_attr(s: Seq<char>, name: Seq<char>, value: Option<Seq<char>>, repl: Seq<char>) -> Seq<char> {
    replace_from(s, 0, name, value, repl)
}

/// The attribute pattern matches somewhere in `s`.
pub open spec fn attr_matches(s: Seq<char>, name: Seq<char>, value: Option<Seq<char>>) -> bool {
    exists|k: int| 0 <= k < s.len() && #[trigger] attr_match_len(s, k, name, value) is Some
}

fn attr_match_len_exec(s: &Vec<char>, i: usize, name: &Vec<char>, value: &Option<Vec<char>>) -> (r: Option<usize>)
    requires
        i <= s.len(),
    ensures
        match r {
            Some(n) => attr_match_len(s@, i as int, name@, match value {
                Some(v) => Some(v@),
                None => None,
            }) == Some(n as int) && i + n <= s.len() && n > 0,
            None => attr_match_len(s@, i as int, name@, match value {
                Some(v) => Some(v@),
                None => None,
            }) is None,
        },
{
    if !occurs_at_exec(s, i, name) {
        return None;
    }
    let a = i + name.len();
    let w1 = ws_run_exec(s, a);
    let eq = a + w1;
    if !(eq < s.len() && s[eq] == '=') {
        return None;
    }
    let w2 = ws_run_exec(s, eq + 1);
    let q1 = eq + 1 + w2;
    if !(q1 < s.len() && s[q1] == '"') {
        return None;
    }
    let c = q1 + 1;
    let vlen = match value {
        Some(v) => {
            if !occurs_at_exec(s, c, v) {
                return None;
            }
            v.len()
        },
        None => not_quote_run_exec(s, c),
    };
    if c + vlen < s.len() && s[c + vlen] == '"' {
        Some(c + vlen + 1 - i)
    } else {
        None
    }
}

proof fn lemma_replace_step_none(
    s: Seq<char>,
    k: int,
    name: Seq<char>,
    value: Option<Seq<char>>,
    repl: Seq<char>,
)
    requires
        0 <= k < s.len(),
        attr_match_len(s, k, name, value) is None,
    ensures
        replace_from(s, k, name, value, repl) == seq![s[k]] + replace_from(s, k + 1, name, value, repl),
{
}

/// A run never reaches past the end of the text.
pub(crate) proof fn lemma_run_len_bound(s: Seq<char>, j: int, p: spec_fn(char) -> bool)
    requires
        0 <= j <= s.len(),
    ensures
        j + run_len(s, j, p) <= s.len(),
    decreases s.len() - j,
{
    if j < s.len() && p(s[j]) {
        lemma_run_len_bound(s, j + 1, p);
    }
}

/// A run in `pre + s` past `pre` is the run in `s`.
pub(crate) proof fn lemma_run_len_shift(pre: Seq<char>, s: Seq<char>, j: int, p: spec_fn(char) -> bool)
    requires
        0 <= j,
    ensures
        run_len(pre + s, pre.len() + j, p) == run_len(s, j, p),
    decreases s.len() - j,
{
    if j < s.len() {
        assert((pre + s)[pre.len() + j] == s[j]);
        if p(s[j]) {
            lemma_run_len_shift(pre, s, j + 1, p);
        }
    }
}

/// A run in `u + w` that starts in `u` ends in `u` when `w` starts with a
/// character outside the run.
pub(crate) proof fn lemma_run_len_stops(u: Seq<char>, w: Seq<char>, j: int, p: spec_fn(char) -> bool)
    requires
        0 <= j <= u.len(),
        w.len() > 0,
        !p(w[0]),
    ensures
        run_len(u + w, j, p) == run_len(u, j, p),
    decreases u.len() - j,
{
    assert((u + w)[u.len() as int] == w[0]);
    if j < u.len() {
        assert((u + w)[j] == u[j]);
        if p(u[j]) {
            lemma_run_len_stops(u, w, j + 1, p);
        }
    }
}

/// `x` occurs in `pre + s` past `pre` where it occurs in `s`.
pub(crate) proof fn lemma_occurs_shift(pre: Seq<char>, s: Seq<char>, j: int, x: Seq<char>)
    requires
        0 <= j,
    ensures
        occurs_at(pre + s, pre.len() + j, x) == occurs_at(s, j, x),
{
    if j + x.len() <= s.len() {
        assert((pre + s).subrange(pre.len() + j, pre.len() + j + x.len()) =~= s.subrange(j, j + x.len()));
    }
}

/// The attribute pattern matches in `pre + s` past `pre` as it does in `s`.
pub(crate) proof fn lemma_match_shift(
    pre: Seq<char>,
    s: Seq<char>,
    j: int,
    name: Seq<char>,
    value: Option<Seq<char>>,
)
    requires
        0 <= j,
    ensures
        attr_match_len(pre + s, pre.len() + j, name, value) == attr_match_len(s, j, name, value),
{
    let t = pre + s;
    let o = pre.len() as int;
    lemma_occurs_shift(pre, s, j, name);
    let a = j + name.len();
    lemma_run_len_shift(pre, s, a, ws_pred());
    let eq = a + run_len(s, a, ws_pred());
    if eq < s.len() {
        assert(t[o + eq] == s[eq]);
    }
    lemma_run_len_shift(pre, s, eq + 1, ws_pred());
    let q1 = eq + 1 + run_len(s, eq + 1, ws_pred());
    if q1 < s.len() {
        assert(t[o + q1] == s[q1]);
    }
    let c = q1 + 1;
    match value {
        Some(v) => {
            lemma_occurs_shift(pre, s, c, v);
            if c + v.len() < s.len() {
                assert(t[o + c + v.len()] == s[c + v.len()]);
            }
        },
        None => {
            lemma_run_len_shift(pre, s, c, not_quote_pred());
            let vl = run_len(s, c, not_quote_pred()) as int;
            if c + vl < s.len() {
                assert(t[o + c + vl] == s[c + vl]);
            }
        },
    }
}

/// The replacement in `pre + s` past `pre` is the replacement in `s`.
pub(crate) proof fn lemma_replace_shift(
    pre: Seq<char>,
    s: Seq<char>,
    j: int,
    name: Seq<char>,
    value: Option<Seq<char>>,
    repl: Seq<char>,
)
    requires
        0 <= j,
    ensures
        replace_from(pre + s, pre.len() + j, name, value, repl) == replace_from(s, j, name, value, repl),
    decreases s.len() - j,
{
    if j < s.len() {
        lemma_match_shift(pre, s, j, name, value);
        assert((pre + s)[pre.len() + j] == s[j]);
        match attr_match_len(s, j, name, value) {
            Some(n) => if n > 0 {
                if j + n <= s.len() {
                    lemma_replace_shift(pre, s, j + n, name, value, repl);
                }
            } else {
                lemma_replace_shift(pre, s, j + 1, name, value, repl);
            },
            None => {
                lemma_replace_shift(pre, s, j + 1, name, value, repl);
            },
        }
    }
}

/// A character that no match of `NAME\s*=\s*"VALUE"` can hold: not in the
/// name, not in the value, and none of white space, `=` and `"`.
pub open spec fn stops_match(c: char, name: Seq<char>, value: Seq<char>) -> bool {
    &&& !is_ws(c)
    &&& c != '='
    &&& c != '"'
    &&& forall|i: int| 0 <= i < name.len() ==> name[i] != c
    &&& forall|i: int| 0 <= i < value.len() ==> value[i] != c
}

/// A match in `u + w` that starts in `u` is a match of `u` and ends in `u`
/// when `w` starts with a character that no match can hold.
pub(crate) proof fn lemma_match_before_stop(
    u: Seq<char>,
    w: Seq<char>,
    k: int,
    name: Seq<char>,
    value: Seq<char>,
)
    requires
        0 <= k < u.len(),
        w.len() > 0,
        stops_match(w[0], name, value),
    ensures
        attr_match_len(u + w, k, name, Some(value)) == attr_match_len(u, k, name, Some(value)),
        attr_match_len(u, k, name, Some(value)) matches Some(n) ==> k + n <= u.len(),
{
    let t = u + w;
    let ul = u.len() as int;
    assert(t[ul] == w[0]);
    let a = k + name.len();
    if a <= ul {
        assert(t.subrange(k, a) =~= u.subrange(k, a));
        lemma_run_len_stops(u, w, a, ws_pred());
        lemma_run_len_bound(u, a, ws_pred());
        let eq = a + run_len(u, a, ws_pred());
        if eq < ul {
            assert(t[eq] == u[eq]);
            lemma_run_len_stops(u, w, eq + 1, ws_pred());
            lemma_run_len_bound(u, eq + 1, ws_pred());
            let q1 = eq + 1 + run_len(u, eq + 1, ws_pred());
            if q1 < ul {
                assert(t[q1] == u[q1]);
                let c = q1 + 1;
                if c + value.len() <= ul {
                    assert(t.subrange(c, c + value.len()) =~= u.subrange(c, c + value.len()));
                    if c + value.len() < ul {
                        assert(t[c + value.len()] == u[c + value.len()]);
                    }
                } else if c + value.len() <= t.len() {
                    assert(t.subrange(c, c + value.len())[ul - c] == t[ul]);
                }
            }
        }
    } else if a <= t.len() {
        assert(t.subrange(k, a)[ul - k] == t[ul]);
    }
}

/// The replacement in `u + [c] + v`, where no match can hold `c`, is the
/// replacement in `u`, then `c`, then the replacement in `v`.
pub(crate) proof fn lemma_replace_split(
    u: Seq<char>,
    c: char,
    v: Seq<char>,
    k: int,
    name: Seq<char>,
    value: Seq<char>,
    repl: Seq<char>,
)
    requires
        0 <= k <= u.len(),
        name.len() > 0,
        stops_match(c, name, value),
    ensures
        replace_from(u + seq![c] + v, k, name, Some(value), repl) == replace_from(u, k, name, Some(value), repl)
            + seq![c] + replace_from(v, 0, name, Some(value), repl),
    decreases u.len() - k,
{
    let t = u + seq![c] + v;
    let w = seq![c] + v;
    assert(t =~= u + w);
    let ul = u.len() as int;
    if k == ul {
        assert(t[ul] == c);
        assert(!occurs_at(t, ul, name)) by {
            if occurs_at(t, ul, name) {
                assert(t.subrange(ul, ul + name.len())[0] == t[ul]);
            }
        }
        lemma_replace_shift(u + seq![c], v, 0, name, Some(value), repl);
        assert(t =~= (u + seq![c]) + v);
        assert(replace_from(u, k, name, Some(value), repl) =~= Seq::<char>::empty());
        assert(replace_from(t, k, name, Some(value), repl) =~= seq![c] + replace_from(t, k + 1, name, Some(value), repl));
    } else {
        lemma_match_before_stop(u, w, k, name, value);
        assert(t[k] == u[k]);
        match attr_match_len(u, k, name, Some(value)) {
            Some(n) => if n > 0 {
                lemma_replace_split(u, c, v, k + n, name, value, repl);
                assert(replace_from(t, k, name, Some(value), repl) =~= repl + replace_from(t, k + n, name, Some(value), repl));
            } else {
                lemma_replace_split(u, c, v, k + 1, name, value, repl);
            },
            None => {
                lemma_replace_split(u, c, v, k + 1, name, value, repl);
                assert(replace_from(t, k, name, Some(value), repl) =~= seq![u[k]] + replace_from(t, k + 1, name, Some(value), repl));
            },
        }
    }
}

/// Leading white space is kept as it is by the replacement, as no name
/// starts with white space.
pub(crate) proof fn lemma_replace_after_blank(
    p: Seq<char>,
    s: Seq<char>,
    k: int,
    name: Seq<char>,
    value: Option<Seq<char>>,
    repl: Seq<char>,
)
    requires
        0 <= k <= p.len(),
        forall|i: int| 0 <= i < p.len() ==> is_ws(#[trigger] p[i]),
        name.len() > 0,
        !is_ws(name[0]),
    ensures
        replace_from(p + s, k, name, value, repl) == p.subrange(k, p.len() as int) + replace_from(s, 0, name, value, repl),
    decreases p.len() - k,
{
    let t = p + s;
    if k < p.len() {
        assert(t[k] == p[k]);
        assert(!occurs_at(t, k, name)) by {
            if occurs_at(t, k, name) {
                assert(t.subrange(k, k + name.len())[0] == t[k]);
            }
        }
        lemma_replace_after_blank(p, s, k + 1, name, value, repl);
        assert(p.subrange(k, p.len() as int) =~= seq![p[k]] + p.subrange(k + 1, p.len() as int));
    } else {
        lemma_replace_shift(p, s, 0, name, value, repl);
        assert(p.subrange(k, p.len() as int) =~= Seq::<char>::empty());
    }
}

/// `s` with every match of the attribute pattern replaced by `repl`, and
/// whether there was a match.
pub fn replace_attr_exec(text: &str, name: &str, value: Option<&str>, repl: &str) -> (r: (String, bool))
    ensures
        r.0@ == replace_attr(text@, name@, match value {
            Some(v) => Some(v@),
            None => None,
        }, repl@),
        r.1 == attr_matches(text@, name@, match value {
            Some(v) => Some(v@),
            None => None,
        }),
{
    let s = chars_of(text);
    let nm = chars_of(name);
    let val: Option<Vec<char>> = match value {
        Some(v) => Some(chars_of(v)),
        None => None,
    };
    let ghost vs: Option<Seq<char>> = match value {
        Some(v) => Some(v@),
        None => None,
    };
    assert(vs == match val { Some(v) => Some(v@), None => None::<Seq<char>> });
    let mut out = String::new();
    let mut start: usize = 0;
    let mut i: usize = 0;
    let mut found = false;
    while i < s.len()
        invariant
            s@ == text@,
            start <= i <= s.len(),
            vs == match val { Some(v) => Some(v@), None => None::<Seq<char>> },
            out@ + s@.subrange(start as int, i as int) + replace_from(s@, i as int, nm@, vs, repl@)
                == replace_attr(s@, nm@, vs, repl@),
            found == exists|k: int| 0 <= k < i && #[trigger] attr_match_len(s@, k, nm@, vs) is Some,
        decreases s.len() - i,
    {
        match attr_match_len_exec(&s, i, &nm, &val) {
            Some(n) => {
                let piece = text.substring_char(start, i);
                let ghost before = out@;
                out.append(piece);
                out.append(repl);
                proof {
                    assert(out@ == before + s@.subrange(start as int, i as int) + repl@);
                    assert(replace_from(s@, i as int, nm@, vs, repl@) == repl@ + replace_from(
                        s@,
                        i + n,
                        nm@,
                        vs,
                        repl@,
                    ));
                    assert(s@.subrange((i + n) as int, (i + n) as int) =~= Seq::<char>::empty());
                    assert(out@ + s@.subrange((i + n) as int, (i + n) as int) + replace_from(
                        s@,
                        i + n,
                        nm@,
                        vs,
                        repl@,
                    ) =~= before + s@.subrange(start as int, i as int) + replace_from(
                        s@,
                        i as int,
                        nm@,
                        vs,
                        repl@,
                    ));
                }
                found = true;
                i = i + n;
                start = i;
                proof {
                    assert(exists|k: int| 0 <= k < i && #[trigger] attr_match_len(s@, k, nm@, vs) is Some) by {
                        assert(attr_match_len(s@, (i - n) as int, nm@, vs) is Some);
                    }
                }
            },
            None => {
                proof {
                    lemma_replace_step_none(s@, i as int, nm@, vs, repl@);
                    assert(s@.subrange(start as int, i + 1) =~= s@.subrange(start as int, i as int).push(s@[i as int]));
                    assert(out@ + s@.subrange(start as int, i + 1) + replace_from(s@, i + 1, nm@, vs, repl@)
                        =~= out@ + s@.subrange(start as int, i as int) + (seq![s@[i as int]] + replace_from(s@, i + 1, nm@, vs, repl@)));
                }
                i = i + 1;
            },
        }
    }
    let rest = text.substring_char(start, s.len());
    out.append(rest);
    proof {
        assert(out@ =~= replace_attr(s@, nm@, vs, repl@));
    }
    (out, found)
}

} // verus!
