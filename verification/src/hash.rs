use vstd::prelude::*;
use crate::eh_error::Result;
use crate::nix_command::opt_view;
use crate::patterns::{
    attr_matches, find_labeled_hash, first_labeled_hash, hash_pred, labeled_hash_at, replace_attr,
    replace_attr_exec, replace_from, run_len, scan_labeled_hash, attr_match_len, lemma_run_len,
    ws_pred, lemma_replace_split, stops_match, lemma_replace_after_blank,
};
use crate::text::{contains, contains_str, is_ws, occurs_at, starts_with, str_eq};

verus! {

broadcast use vstd::string::group_string_axioms;

/// The hash that nix reports as the one it actually got: the capture of
/// `got:\s+(sha256-…)`, else of `actual:\s+(sha256-…)`, else of
/// `have:\s+(sha256-…)`.
pub open spec fn new_hash_of(stderr: Seq<char>) -> Option<Seq<char>> {
    match first_labeled_hash(stderr, "got:"@) {
        Some(h) => Some(h),
        None => match first_labeled_hash(stderr, "actual:"@) {
            Some(h) => Some(h),
            None => first_labeled_hash(stderr, "have:"@),
        },
    }
}

/// The hash that nix reports as the one that was specified.
pub open spec fn old_hash_of(stderr: Seq<char>) -> Option<Seq<char>> {
    first_labeled_hash(stderr, "specified:"@)
}

/// Reads hashes out of the error output of nix.
pub trait HashExtractor {
    /// The hash that the build actually produced.
    fn extract_hash(&self, stderr: &str) -> Option<String>;

    /// The hash that the source specified.
    fn extract_old_hash(&self, stderr: &str) -> Option<String>;
}

/// Reads hashes by the patterns nix prints them in.
pub struct RegexHashExtractor;

impl HashExtractor for RegexHashExtractor {
    fn extract_hash(&self, stderr: &str) -> (r: Option<String>)
        ensures
            opt_view(r) == new_hash_of(stderr@),
    {
        match find_labeled_hash(stderr, "got:") {
            Some(h) => Some(h),
            None => match find_labeled_hash(stderr, "actual:") {
                Some(h) => Some(h),
                None => find_labeled_hash(stderr, "have:"),
            },
        }
    }

    fn extract_old_hash(&self, stderr: &str) -> (r: Option<String>)
        ensures
            opt_view(r) == old_hash_of(stderr@),
    {
        find_labeled_hash(stderr, "specified:")
    }
}

/// Rewrites hashes in the `.nix` files of a project.
pub trait NixFileFixer {
    /// Fixes the hash in every file found; whether any file changed.
    fn fix_hash_in_files(&self, old_hash: Option<&str>, new_hash: &str) -> Result<bool>;

    /// The `.nix` files of the project.
    fn find_nix_files(&self) -> Result<Vec<String>>;

    /// Fixes the hash in one file; whether it changed.
    fn fix_hash_in_file(&self, file_path: &str, old_hash: Option<&str>, new_hash: &str) -> Result<
        bool,
    >;
}

/// `NAME = "HASH"`, the text an attribute is rewritten to.
pub open spec fn assignment(name: Seq<char>, hash: Seq<char>) -> Seq<char> {
    name + " = \""@ + hash + "\""@
}

/// `content` with every `hash`, `sha256` and `outputHash` attribute whose
/// value is `old_hash` set to `new_hash`, one attribute name after the other.
pub open spec fn replace_target_hash_spec(content: Seq<char>, old_hash: Seq<char>, new_hash: Seq<char>) -> Seq<char> {
    let a = replace_attr(content, "hash"@, Some(old_hash), assignment("hash"@, new_hash));
    let b = replace_attr(a, "sha256"@, Some(old_hash), assignment("sha256"@, new_hash));
    replace_attr(b, "outputHash"@, Some(old_hash), assignment("outputHash"@, new_hash))
}

/// `content` with every `hash`, `sha256` and `outputHash` attribute set to
/// `new_hash`, one attribute name after the other.
pub open spec fn replace_any_hash_spec(content: Seq<char>, new_hash: Seq<char>) -> Seq<char> {
    let a = replace_attr(content, "hash"@, None, assignment("hash"@, new_hash));
    let b = replace_attr(a, "sha256"@, None, assignment("sha256"@, new_hash));
    replace_attr(b, "outputHash"@, None, assignment("outputHash"@, new_hash))
}

/// `content` with the hash fixed: only attributes holding `old_hash` when
/// it is known, every hash attribute otherwise.
pub open spec fn fixed_content(content: Seq<char>, old_hash: Option<Seq<char>>, new_hash: Seq<char>) -> Seq<char> {
    match old_hash {
        Some(old) => replace_target_hash_spec(content, old, new_hash),
        None => replace_any_hash_spec(content, new_hash),
    }
}

fn assignment_string(name: &str, hash: &str) -> (r: String)
    ensures
        r@ == assignment(name@, hash@),
{
    let mut r = name.to_string();
    r.append(" = \"");
    r.append(hash);
    r.append("\"");
    r
}

pub fn replace_target_hash(content: &str, old_hash: &str, new_hash: &str) -> (r: String)
    ensures
        r@ == replace_target_hash_spec(content@, old_hash@, new_hash@),
{
    let (a, _) = replace_attr_exec(content, "hash", Some(old_hash), assignment_string("hash", new_hash).as_str());
    let (b, _) = replace_attr_exec(a.as_str(), "sha256", Some(old_hash), assignment_string("sha256", new_hash).as_str());
    let (c, _) = replace_attr_exec(b.as_str(), "outputHash", Some(old_hash), assignment_string("outputHash", new_hash).as_str());
    c
}

pub fn replace_any_hash(content: &str, new_hash: &str) -> (r: String)
    ensures
        r@ == replace_any_hash_spec(content@, new_hash@),
{
    let (a, _) = replace_attr_exec(content, "hash", None, assignment_string("hash", new_hash).as_str());
    let (b, _) = replace_attr_exec(a.as_str(), "sha256", None, assignment_string("sha256", new_hash).as_str());
    let (c, _) = replace_attr_exec(b.as_str(), "outputHash", None, assignment_string("outputHash", new_hash).as_str());
    c
}

/// The new text of a file whose hash is fixed, or `None` when fixing it
/// changes nothing (and the file is left alone).
pub fn fix_hash_in_content(content: &str, old_hash: Option<&str>, new_hash: &str) -> (r: Option<String>)
    ensures
        match r {
            Some(t) => t@ == fixed_content(content@, opt_str_view(old_hash), new_hash@) && t@ != content@,
            None => fixed_content(content@, opt_str_view(old_hash), new_hash@) == content@,
        },
{
    let result = match old_hash {
        Some(old) => replace_target_hash(content, old, new_hash),
        None => replace_any_hash(content, new_hash),
    };
    if str_eq(result.as_str(), content) {
        None
    } else {
        Some(result)
    }
}

/// The text of an optional string slice.
pub open spec fn opt_str_view(o: Option<&str>) -> Option<Seq<char>> {
    match o {
        Some(s) => Some(s@),
        None => None,
    }
}

/// Output that reports a genuine hash mismatch: it says so, or it names both
/// a specified and a gotten hash.
pub open spec fn hash_mismatch_reported(stderr: Seq<char>) -> bool {
    contains(stderr, "hash mismatch"@) || (contains(stderr, "specified:"@) && contains(
        stderr,
        "got:"@,
    ))
}

pub fn is_hash_mismatch_error(stderr: &str) -> (b: bool)
    ensures
        b == hash_mismatch_reported(stderr@),
{
    contains_str(stderr, "hash mismatch") || (contains_str(stderr, "specified:") && contains_str(
        stderr,
        "got:",
    ))
}

// ---------------------------------------------------------------------
// Finding `.nix` files
// ---------------------------------------------------------------------

/// How deep the search for `.nix` files descends below the working
/// directory.
pub const MAX_DIR_DEPTH: usize = 3;

/// Whether the search for `.nix` files leaves out a directory entry: never
/// the starting directory or a file; a hidden directory, `node_modules`,
/// `target` and `result` always.
pub open spec fn skipped_entry(depth: usize, is_dir: bool, name: Seq<char>) -> bool {
    depth != 0 && is_dir && (starts_with(name, "."@) || name == "node_modules"@ || name
        == "target"@ || name == "result"@)
}

pub fn should_skip(depth: usize, is_dir: bool, name: &str) -> (b: bool)
    ensures
        b == skipped_entry(depth, is_dir, name@),
{
    if depth == 0 || !is_dir {
        return false;
    }
    crate::text::starts_with_str(name, ".") || str_eq(name, "node_modules") || str_eq(name, "target")
        || str_eq(name, "result")
}

/// Whether a walked entry is a `.nix` file: a file whose extension is
/// exactly `nix`.
pub fn is_nix_file(is_file: bool, extension: Option<&str>) -> (b: bool)
    ensures
        b == (is_file && match extension {
            Some(e) => e@ == "nix"@,
            None => false,
        }),
{
    is_file && match extension {
        Some(e) => str_eq(e, "nix"),
        None => false,
    }
}

// ---------------------------------------------------------------------
// Laws
// ---------------------------------------------------------------------

/// A well-formed SRI sha256 hash: `sha256-` followed by at least one
/// base64 character.
pub open spec fn is_sri_sha256(h: Seq<char>) -> bool {
    h.len() > 7 && starts_with(h, "sha256-"@) && forall|i: int|
        7 <= i < h.len() ==> crate::patterns::is_hash_char(#[trigger] h[i])
}

proof fn lemma_capture_is_sri(s: Seq<char>, label: Seq<char>, from: int)
    ensures
        scan_labeled_hash(s, label, from) matches Some(h) ==> is_sri_sha256(h),
    decreases s.len() + 1 - from,
{
    if 0 <= from <= s.len() {
        match labeled_hash_at(s, label, from) {
            Some(h) => {
                reveal_strlit("sha256-");
                let j = from + label.len();
                let w = run_len(s, j, crate::patterns::ws_pred());
                let p = j + w;
                let n = run_len(s, p + 7, hash_pred());
                lemma_run_prefix_holds(s, p + 7, hash_pred());
                assert(h =~= s.subrange(p, p + 7 + n));
                assert(h.subrange(0, 7) =~= s.subrange(p, p + 7));
                assert forall|i: int| 7 <= i < h.len() implies crate::patterns::is_hash_char(
                    #[trigger] h[i],
                ) by {
                    assert(h[i] == s[p + i]);
                    assert(hash_pred()(s[p + 7 + (i - 7)]));
                }
            },
            None => {
                lemma_capture_is_sri(s, label, from + 1);
            },
        }
    }
}

proof fn lemma_run_prefix_holds(s: Seq<char>, j: int, p: spec_fn(char) -> bool)
    ensures
        forall|t: int| j <= t < j + run_len(s, j, p) ==> #[trigger] p(s[t]),
        j + run_len(s, j, p) <= s.len() || run_len(s, j, p) == 0,
    decreases s.len() - j,
{
    if 0 <= j < s.len() && p(s[j]) {
        lemma_run_prefix_holds(s, j + 1, p);
    }
}

/// A hash read out of nix's output is always a well-formed SRI sha256 hash.
pub proof fn law_extracted_hashes_are_sri(stderr: Seq<char>)
    ensures
        new_hash_of(stderr) matches Some(h) ==> is_sri_sha256(h),
        old_hash_of(stderr) matches Some(h) ==> is_sri_sha256(h),
{
    lemma_capture_is_sri(stderr, "got:"@, 0);
    lemma_capture_is_sri(stderr, "actual:"@, 0);
    lemma_capture_is_sri(stderr, "have:"@, 0);
    lemma_capture_is_sri(stderr, "specified:"@, 0);
}

proof fn lemma_capture_occurs(s: Seq<char>, label: Seq<char>, from: int)
    ensures
        scan_labeled_hash(s, label, from) matches Some(h) ==> contains(s, h),
    decreases s.len() + 1 - from,
{
    if 0 <= from <= s.len() {
        match labeled_hash_at(s, label, from) {
            Some(h) => {
                let j = from + label.len();
                let w = run_len(s, j, crate::patterns::ws_pred());
                let p = j + w;
                let n = run_len(s, p + 7, hash_pred());
                lemma_run_prefix_holds(s, p + 7, hash_pred());
                assert(h =~= s.subrange(p, p + 7 + n));
                assert(occurs_at(s, p, h));
            },
            None => {
                lemma_capture_occurs(s, label, from + 1);
            },
        }
    }
}

proof fn lemma_scan_none(s: Seq<char>, label: Seq<char>, from: int)
    requires
        0 <= from,
    ensures
        scan_labeled_hash(s, label, from) is None <==> forall|i: int|
            from <= i <= s.len() ==> #[trigger] labeled_hash_at(s, label, i) is None,
    decreases s.len() + 1 - from,
{
    if from <= s.len() {
        lemma_scan_none(s, label, from + 1);
        if labeled_hash_at(s, label, from) is None {
            assert forall|i: int| from <= i <= s.len() && (forall|k: int|
                from + 1 <= k <= s.len() ==> #[trigger] labeled_hash_at(s, label, k) is None)
                implies #[trigger] labeled_hash_at(s, label, i) is None by {
                if i > from {
                    assert(labeled_hash_at(s, label, i) is None);
                }
            }
        }
    }
}

/// A hash read out of nix's output occurs in that output. A `got:` report
/// wins over an `actual:` one, which wins over a `have:` one, wherever in
/// the output they stand; and no new hash is read exactly when none of the
/// three reports matches anywhere.
pub proof fn law_extracted_hash_is_reported(stderr: Seq<char>)
    ensures
        new_hash_of(stderr) matches Some(h) ==> contains(stderr, h),
        old_hash_of(stderr) matches Some(h) ==> contains(stderr, h),
        first_labeled_hash(stderr, "got:"@) is Some ==> new_hash_of(stderr) == first_labeled_hash(
            stderr,
            "got:"@,
        ),
        first_labeled_hash(stderr, "got:"@) is None && first_labeled_hash(stderr, "actual:"@) is Some
            ==> new_hash_of(stderr) == first_labeled_hash(stderr, "actual:"@),
        first_labeled_hash(stderr, "got:"@) is None && first_labeled_hash(stderr, "actual:"@) is None
            ==> new_hash_of(stderr) == first_labeled_hash(stderr, "have:"@),
        new_hash_of(stderr) is None <==> forall|i: int|
            #![trigger labeled_hash_at(stderr, "got:"@, i)]
            #![trigger labeled_hash_at(stderr, "actual:"@, i)]
            #![trigger labeled_hash_at(stderr, "have:"@, i)]
            0 <= i <= stderr.len() ==> labeled_hash_at(stderr, "got:"@, i) is None
                && labeled_hash_at(stderr, "actual:"@, i) is None && labeled_hash_at(
                stderr,
                "have:"@,
                i,
            ) is None,
{
    lemma_capture_occurs(stderr, "got:"@, 0);
    lemma_capture_occurs(stderr, "actual:"@, 0);
    lemma_capture_occurs(stderr, "have:"@, 0);
    lemma_capture_occurs(stderr, "specified:"@, 0);
    lemma_scan_none(stderr, "got:"@, 0);
    lemma_scan_none(stderr, "actual:"@, 0);
    lemma_scan_none(stderr, "have:"@, 0);
}

proof fn lemma_replace_without_match(
    s: Seq<char>,
    k: int,
    name: Seq<char>,
    value: Option<Seq<char>>,
    repl: Seq<char>,
)
    requires
        0 <= k <= s.len(),
        !attr_matches(s, name, value),
    ensures
        replace_from(s, k, name, value, repl) == s.subrange(k, s.len() as int),
    decreases s.len() - k,
{
    if k < s.len() {
        assert(attr_match_len(s, k, name, value) is None);
        lemma_replace_without_match(s, k + 1, name, value, repl);
        assert(s.subrange(k, s.len() as int) =~= seq![s[k]] + s.subrange(k + 1, s.len() as int));
    } else {
        assert(s.subrange(k, s.len() as int) =~= Seq::<char>::empty());
    }
}

/// Where no attribute holds the old hash, a targeted fix changes nothing.
pub proof fn law_targeted_fix_without_old_hash_is_identity(
    content: Seq<char>,
    old_hash: Seq<char>,
    new_hash: Seq<char>,
)
    requires
        !attr_matches(content, "hash"@, Some(old_hash)),
        !attr_matches(content, "sha256"@, Some(old_hash)),
        !attr_matches(content, "outputHash"@, Some(old_hash)),
    ensures
        replace_target_hash_spec(content, old_hash, new_hash) == content,
{
    lemma_replace_without_match(content, 0, "hash"@, Some(old_hash), assignment("hash"@, new_hash));
    assert(content.subrange(0, content.len() as int) =~= content);
    lemma_replace_without_match(content, 0, "sha256"@, Some(old_hash), assignment("sha256"@, new_hash));
    lemma_replace_without_match(content, 0, "outputHash"@, Some(old_hash), assignment("outputHash"@, new_hash));
}

/// Where the attribute pattern matches at some `m` at or after `k`, the
/// replacement text appears in what the replacement gives from `k` on: the
/// match at `m` is replaced, or an earlier one that covers it.
proof fn lemma_replace_inserts(
    s: Seq<char>,
    k: int,
    m: int,
    name: Seq<char>,
    value: Option<Seq<char>>,
    repl: Seq<char>,
)
    requires
        0 <= k <= m < s.len(),
        attr_match_len(s, m, name, value) is Some,
    ensures
        contains(replace_from(s, k, name, value, repl), repl),
    decreases s.len() - k,
{
    let out = replace_from(s, k, name, value, repl);
    match attr_match_len(s, k, name, value) {
        Some(n) => {
            assert(n > 0);
            assert(out.subrange(0, repl.len() as int) =~= repl);
            assert(occurs_at(out, 0, repl));
        },
        None => {
            assert(k < m);
            lemma_replace_inserts(s, k + 1, m, name, value, repl);
            let rest = replace_from(s, k + 1, name, value, repl);
            let j = choose|j: int| occurs_at(rest, j, repl);
            assert(out == seq![s[k]] + rest);
            assert(out.subrange(j + 1, j + 1 + repl.len()) =~= rest.subrange(j, j + repl.len()));
            assert(occurs_at(out, j + 1, repl));
        },
    }
}

/// When nix names the old hash and only an `outputHash` attribute holds
/// it (a fixed-output derivation), the targeted fix rewrites that
/// attribute: the fixed text holds `outputHash = "NEW"`.
pub proof fn law_targeted_fix_rewrites_output_hash(
    content: Seq<char>,
    old_hash: Seq<char>,
    new_hash: Seq<char>,
)
    requires
        attr_matches(content, "outputHash"@, Some(old_hash)),
        !attr_matches(content, "hash"@, Some(old_hash)),
        !attr_matches(content, "sha256"@, Some(old_hash)),
    ensures
        contains(
            replace_target_hash_spec(content, old_hash, new_hash),
            assignment("outputHash"@, new_hash),
        ),
        contains(
            fixed_content(content, Some(old_hash), new_hash),
            assignment("outputHash"@, new_hash),
        ),
{
    lemma_replace_without_match(content, 0, "hash"@, Some(old_hash), assignment("hash"@, new_hash));
    assert(content.subrange(0, content.len() as int) =~= content);
    lemma_replace_without_match(content, 0, "sha256"@, Some(old_hash), assignment("sha256"@, new_hash));
    let m = choose|m: int| 0 <= m < content.len() && #[trigger] attr_match_len(content, m, "outputHash"@, Some(old_hash)) is Some;
    lemma_replace_inserts(content, 0, m, "outputHash"@, Some(old_hash), assignment("outputHash"@, new_hash));
}

/// An ASCII letter or digit.
pub open spec fn is_alnum(c: char) -> bool {
    ('a' <= c && c <= 'z') || ('A' <= c && c <= 'Z') || ('0' <= c && c <= '9')
}

/// A non-empty run of letters and digits, such as an attribute name.
pub open spec fn is_word(s: Seq<char>) -> bool {
    s.len() > 0 && forall|i: int| 0 <= i < s.len() ==> is_alnum(#[trigger] s[i])
}

/// `s` holds no double quote.
pub open spec fn quote_free(s: Seq<char>) -> bool {
    forall|i: int| 0 <= i < s.len() ==> #[trigger] s[i] != '"'
}

proof fn lemma_assignment_layout(n: Seq<char>, x: Seq<char>)
    ensures
        assignment(n, x).len() == n.len() + 5 + x.len(),
        forall|i: int| 0 <= i < n.len() ==> #[trigger] assignment(n, x)[i] == n[i],
        assignment(n, x)[n.len() as int] == ' ',
        assignment(n, x)[n.len() + 1int] == '=',
        assignment(n, x)[n.len() + 2int] == ' ',
        assignment(n, x)[n.len() + 3int] == '"',
        forall|i: int|
            n.len() + 4 <= i < n.len() + 4 + x.len() ==> #[trigger] assignment(n, x)[i] == x[i - n.len() - 4],
        assignment(n, x)[n.len() + 4int + x.len()] == '"',
{
    reveal_strlit(" = \"");
    reveal_strlit("\"");
    let t = assignment(n, x);
    assert(t =~= n + seq![' ', '=', ' ', '"'] + x + seq!['"']);
}

/// In the text `NAME = "X"` (with no quote in `X`), a word `N2` starts an
/// attribute assignment only where it ends `NAME` itself, and then only
/// with the value `X`.
proof fn lemma_assignment_matches(
    n: Seq<char>,
    n2: Seq<char>,
    x: Seq<char>,
    v: Option<Seq<char>>,
    k: int,
)
    requires
        is_word(n),
        is_word(n2),
        quote_free(x),
    ensures
        attr_match_len(assignment(n, x), k, n2, v) is Some ==> {
            &&& k + n2.len() == n.len()
            &&& occurs_at(n, k, n2)
            &&& (v matches Some(o) ==> o == x)
        },
{
    let t = assignment(n, x);
    lemma_assignment_layout(n, x);
    let ln = n.len() as int;
    if attr_match_len(t, k, n2, v) is Some {
        let a = k + n2.len();
        assert(occurs_at(t, k, n2));
        assert forall|j: int| 0 <= j < n2.len() implies t[k + j] == #[trigger] n2[j] by {
            assert(t.subrange(k, a)[j] == t[k + j]);
        }
        if k >= ln + 4 {
            let w1 = run_len(t, a, ws_pred());
            let eq = a + w1;
            let w2 = run_len(t, eq + 1, ws_pred());
            let q1 = eq + 1 + w2;
            if q1 < t.len() - 1 {
                assert(t[q1] == x[q1 - ln - 4]);
            }
        } else if k >= ln {
            assert(t[k + 0] == n2[0]);
            assert(is_alnum(n2[0]));
        } else if a > ln {
            assert(t[k + (ln - k)] == n2[ln - k]);
            assert(is_alnum(n2[ln - k]));
        } else {
            assert(n.subrange(k, a) =~= t.subrange(k, a));
            if a < ln {
                assert(is_alnum(n[a]));
                assert(t[a] == n[a]);
                assert(!is_ws(t[a]));
                assert(run_len(t, a, ws_pred()) == 0);
            } else {
                lemma_run_len(t, ln, 1, ws_pred());
                lemma_run_len(t, ln + 2, 1, ws_pred());
                let c = ln + 4;
                match v {
                    Some(o) => {
                        assert(occurs_at(t, c, o));
                        if c + o.len() < t.len() - 1 {
                            assert(t[c + o.len()] == x[o.len() as int]);
                        }
                        assert(o.len() == x.len());
                        assert forall|j: int| 0 <= j < o.len() implies o[j] == x[j] by {
                            assert(t.subrange(c, c + o.len())[j] == t[c + j]);
                            assert(t[c + j] == x[j]);
                        }
                        assert(o =~= x);
                    },
                    None => {},
                }
            }
        }
    }
}

/// The fix of `NAME = "OLD"` for its own attribute name.
proof fn lemma_assignment_rewritten(n: Seq<char>, x: Seq<char>, y: Seq<char>)
    requires
        is_word(n),
        quote_free(x),
    ensures
        replace_attr(assignment(n, x), n, Some(x), assignment(n, y)) == assignment(n, y),
{
    let t = assignment(n, x);
    lemma_assignment_layout(n, x);
    let ln = n.len() as int;
    assert(t.subrange(0, ln) =~= n);
    assert(t.subrange(ln + 4, ln + 4 + x.len()) =~= x);
    assert(is_alnum(n[0]));
    lemma_run_len(t, ln, 1, ws_pred());
    lemma_run_len(t, ln + 2, 1, ws_pred());
    assert(attr_match_len(t, 0, n, Some(x)) == Some(t.len() as int));
    assert(replace_from(t, t.len() as int, n, Some(x), assignment(n, y)) =~= Seq::<char>::empty());
    assert(replace_from(t, 0, n, Some(x), assignment(n, y)) =~= assignment(n, y));
}

/// The fix of `NAME = "X"` for another attribute name, one that `NAME`
/// does not end with, changes nothing.
proof fn lemma_assignment_untouched(n: Seq<char>, n2: Seq<char>, x: Seq<char>, v: Option<Seq<char>>, repl: Seq<char>)
    requires
        is_word(n),
        is_word(n2),
        quote_free(x),
        !occurs_at(n, n.len() - n2.len(), n2),
    ensures
        replace_attr(assignment(n, x), n2, v, repl) == assignment(n, x),
{
    let t = assignment(n, x);
    assert forall|k: int| 0 <= k < t.len() implies !(#[trigger] attr_match_len(t, k, n2, v) is Some) by {
        lemma_assignment_matches(n, n2, x, v, k);
    }
    lemma_replace_without_match(t, 0, n2, v, repl);
    assert(t.subrange(0, t.len() as int) =~= t);
}

proof fn lemma_names_are_words()
    ensures
        "hash"@.len() == 4,
        "sha256"@.len() == 6,
        "outputHash"@.len() == 10,
        is_word("hash"@),
        is_word("sha256"@),
        is_word("outputHash"@),
        !occurs_at("hash"@, -2, "sha256"@),
        !occurs_at("hash"@, -6, "outputHash"@),
        !occurs_at("sha256"@, 2, "hash"@),
        !occurs_at("sha256"@, -4, "outputHash"@),
        !occurs_at("outputHash"@, 6, "hash"@),
        !occurs_at("outputHash"@, 4, "sha256"@),
{
    reveal_strlit("hash");
    reveal_strlit("sha256");
    reveal_strlit("outputHash");
    assert("sha256"@.subrange(2, 6)[0] != "hash"@[0]);
    assert("outputHash"@.subrange(6, 10)[0] != "hash"@[0]);
    assert("outputHash"@.subrange(4, 10)[0] != "sha256"@[0]);
}

/// The targeted fix of an attribute `NAME = "OLD"`, for each of `hash`,
/// `sha256` and `outputHash`, gives `NAME = "NEW"`: the attribute now holds
/// the new hash, and no longer the old one unless the two are the same
/// (hashes hold no double quote).
pub proof fn law_targeted_fix_rewrites_each_attribute(
    name: Seq<char>,
    old_hash: Seq<char>,
    new_hash: Seq<char>,
)
    requires
        name == "hash"@ || name == "sha256"@ || name == "outputHash"@,
        quote_free(old_hash),
        quote_free(new_hash),
    ensures
        replace_target_hash_spec(assignment(name, old_hash), old_hash, new_hash) == assignment(
            name,
            new_hash,
        ),
        fixed_content(assignment(name, old_hash), Some(old_hash), new_hash) == assignment(
            name,
            new_hash,
        ),
        old_hash != new_hash ==> !attr_matches(
            replace_target_hash_spec(assignment(name, old_hash), old_hash, new_hash),
            name,
            Some(old_hash),
        ),
{
    lemma_names_are_words();
    let h = "hash"@;
    let s2 = "sha256"@;
    let o = "outputHash"@;
    let old = Some(old_hash);
    if name == h {
        lemma_assignment_rewritten(h, old_hash, new_hash);
        lemma_assignment_untouched(h, s2, new_hash, old, assignment(s2, new_hash));
        lemma_assignment_untouched(h, o, new_hash, old, assignment(o, new_hash));
    } else if name == s2 {
        lemma_assignment_untouched(s2, h, old_hash, old, assignment(h, new_hash));
        lemma_assignment_rewritten(s2, old_hash, new_hash);
        lemma_assignment_untouched(s2, o, new_hash, old, assignment(o, new_hash));
    } else {
        lemma_assignment_untouched(o, h, old_hash, old, assignment(h, new_hash));
        lemma_assignment_untouched(o, s2, old_hash, old, assignment(s2, new_hash));
        lemma_assignment_rewritten(o, old_hash, new_hash);
    }
    if old_hash != new_hash {
        let t = assignment(name, new_hash);
        assert forall|k: int| 0 <= k < t.len() implies !(#[trigger] attr_match_len(t, k, name, old) is Some) by {
            lemma_assignment_matches(name, name, new_hash, old, k);
        }
    }
}

/// A character that ends one statement and starts the next for the fix:
/// no white space, letter, digit, `=` or `"`, and not in the old hash.
pub open spec fn separates(c: char, old_hash: Seq<char>) -> bool {
    &&& !is_ws(c)
    &&& !is_alnum(c)
    &&& c != '='
    &&& c != '"'
    &&& forall|i: int| 0 <= i < old_hash.len() ==> old_hash[i] != c
}

/// White space only.
pub open spec fn is_blank(p: Seq<char>) -> bool {
    forall|i: int| 0 <= i < p.len() ==> is_ws(#[trigger] p[i])
}

proof fn lemma_fix_split(u: Seq<char>, c: char, v: Seq<char>, old_hash: Seq<char>, new_hash: Seq<char>)
    requires
        separates(c, old_hash),
    ensures
        replace_target_hash_spec(u + seq![c] + v, old_hash, new_hash) == replace_target_hash_spec(
            u,
            old_hash,
            new_hash,
        ) + seq![c] + replace_target_hash_spec(v, old_hash, new_hash),
{
    lemma_names_are_words();
    let h = "hash"@;
    let s2 = "sha256"@;
    let o = "outputHash"@;
    let old = Some(old_hash);
    assert(stops_match(c, h, old_hash));
    assert(stops_match(c, s2, old_hash));
    assert(stops_match(c, o, old_hash));
    let rh = assignment(h, new_hash);
    let rs = assignment(s2, new_hash);
    let ro = assignment(o, new_hash);
    lemma_replace_split(u, c, v, 0, h, old_hash, rh);
    let a1 = replace_attr(u, h, old, rh);
    let a2 = replace_attr(v, h, old, rh);
    lemma_replace_split(a1, c, a2, 0, s2, old_hash, rs);
    let b1 = replace_attr(a1, s2, old, rs);
    let b2 = replace_attr(a2, s2, old, rs);
    lemma_replace_split(b1, c, b2, 0, o, old_hash, ro);
}

proof fn lemma_fix_after_blank(p: Seq<char>, t: Seq<char>, old_hash: Seq<char>, new_hash: Seq<char>)
    requires
        is_blank(p),
    ensures
        replace_target_hash_spec(p + t, old_hash, new_hash) == p + replace_target_hash_spec(t, old_hash, new_hash),
{
    lemma_names_are_words();
    let h = "hash"@;
    let s2 = "sha256"@;
    let o = "outputHash"@;
    let old = Some(old_hash);
    assert(is_alnum(h[0]) && is_alnum(s2[0]) && is_alnum(o[0]));
    assert(p.subrange(0, p.len() as int) =~= p);
    let rh = assignment(h, new_hash);
    let rs = assignment(s2, new_hash);
    let ro = assignment(o, new_hash);
    lemma_replace_after_blank(p, t, 0, h, old, rh);
    let a = replace_attr(t, h, old, rh);
    lemma_replace_after_blank(p, a, 0, s2, old, rs);
    let b = replace_attr(a, s2, old, rs);
    lemma_replace_after_blank(p, b, 0, o, old, ro);
}

/// Statements fixed apart: where the old hash holds no `;`, the targeted
/// fix of `U;V` is the fix of `U`, then `;`, then the fix of `V`. Every
/// attribute holding the old hash is rewritten, not only the first one,
/// and the text around the attributes is kept.
pub proof fn law_targeted_fix_treats_statements_apart(
    u: Seq<char>,
    v: Seq<char>,
    old_hash: Seq<char>,
    new_hash: Seq<char>,
)
    requires
        forall|i: int| 0 <= i < old_hash.len() ==> old_hash[i] != ';',
    ensures
        replace_target_hash_spec(u + ";"@ + v, old_hash, new_hash) == replace_target_hash_spec(
            u,
            old_hash,
            new_hash,
        ) + ";"@ + replace_target_hash_spec(v, old_hash, new_hash),
{
    reveal_strlit(";");
    assert(";"@ =~= seq![';']);
    lemma_fix_split(u, ';', v, old_hash, new_hash);
}

proof fn lemma_blank_assignment_keeps_no_old(indent: Seq<char>, name: Seq<char>, old_hash: Seq<char>, new_hash: Seq<char>)
    requires
        is_word(name),
        is_blank(indent),
        quote_free(new_hash),
        old_hash != new_hash,
    ensures
        !attr_matches(indent + assignment(name, new_hash), name, Some(old_hash)),
{
    let t = indent + assignment(name, new_hash);
    assert(is_alnum(name[0]));
    assert forall|k: int| 0 <= k < t.len() implies !(#[trigger] attr_match_len(t, k, name, Some(old_hash)) is Some) by {
        if k < indent.len() {
            assert(t[k] == indent[k]);
            if occurs_at(t, k, name) {
                assert(t.subrange(k, k + name.len())[0] == t[k]);
            }
        } else {
            crate::patterns::lemma_match_shift(indent, assignment(name, new_hash), k - indent.len(), name, Some(old_hash));
            lemma_assignment_matches(name, name, new_hash, Some(old_hash), k - indent.len());
        }
    }
}

/// In a file, an attribute statement `NAME = "OLD"` for `hash`, `sha256`
/// or `outputHash`, indented by white space and set off by separators such
/// as `;` or `{`, is rewritten in place to `NAME = "NEW"` whatever the text
/// before and after it holds: that text is fixed the same way on its own,
/// and the statement no longer holds the old hash unless it equals the new
/// one (hashes hold no double quote).
#[verifier::rlimit(50)]
pub proof fn law_targeted_fix_rewrites_the_attribute_in_place(
    before: Seq<char>,
    open: char,
    indent: Seq<char>,
    name: Seq<char>,
    close: char,
    after: Seq<char>,
    old_hash: Seq<char>,
    new_hash: Seq<char>,
)
    requires
        name == "hash"@ || name == "sha256"@ || name == "outputHash"@,
        separates(open, old_hash),
        separates(close, old_hash),
        is_blank(indent),
        quote_free(old_hash),
        quote_free(new_hash),
    ensures
        replace_target_hash_spec(
            before + seq![open] + indent + assignment(name, old_hash) + seq![close] + after,
            old_hash,
            new_hash,
        ) == replace_target_hash_spec(before, old_hash, new_hash) + seq![open] + indent + assignment(
            name,
            new_hash,
        ) + seq![close] + replace_target_hash_spec(after, old_hash, new_hash),
        old_hash != new_hash ==> !attr_matches(
            replace_target_hash_spec(indent + assignment(name, old_hash), old_hash, new_hash),
            name,
            Some(old_hash),
        ),
{
    let content = before + seq![open] + indent + assignment(name, old_hash) + seq![close] + after;
    let stmt = indent + assignment(name, old_hash);
    let rest = stmt + seq![close] + after;
    let fb = replace_target_hash_spec(before, old_hash, new_hash);
    let fa = replace_target_hash_spec(after, old_hash, new_hash);
    let fixed_stmt = indent + assignment(name, new_hash);
    assert(content =~= before + seq![open] + rest);
    lemma_fix_split(before, open, rest, old_hash, new_hash);
    lemma_fix_split(stmt, close, after, old_hash, new_hash);
    lemma_fix_after_blank(indent, assignment(name, old_hash), old_hash, new_hash);
    law_targeted_fix_rewrites_each_attribute(name, old_hash, new_hash);
    assert(replace_target_hash_spec(stmt, old_hash, new_hash) == fixed_stmt);
    assert(replace_target_hash_spec(rest, old_hash, new_hash) == fixed_stmt + seq![close] + fa);
    assert(replace_target_hash_spec(content, old_hash, new_hash) == fb + seq![open] + (fixed_stmt
        + seq![close] + fa));
    assert(fb + seq![open] + (fixed_stmt + seq![close] + fa) =~= fb + seq![open] + indent + assignment(
        name,
        new_hash,
    ) + seq![close] + fa);
    if old_hash != new_hash {
        lemma_names_are_words();
        lemma_blank_assignment_keeps_no_old(indent, name, old_hash, new_hash);
    }
}

} // verus!
