use vstd::prelude::*;
use crate::error::{EhError, ErrorView};
use crate::eval::{package_arg, package_arg_of};
use crate::order::views;
use crate::patterns::{attr_matches, replace_attr, replace_attr_exec};
use crate::text::{contains, contains_str};

pub use crate::hash::{
    HashExtractor, NixFileFixer, RegexHashExtractor, is_hash_mismatch_error,
};
pub use crate::retry::{
    DefaultNixErrorClassifier, NixErrorClassifier, RetryAction, classify_retry_action,
};

verus! {

broadcast use vstd::string::group_string_axioms;

/// The installable named in `args` (the first non-flag argument), or
/// `<unknown>`.
pub open spec fn package_name_of(args: Seq<Seq<char>>) -> Seq<char> {
    match package_arg_of(args) {
        Some(a) => a,
        None => "<unknown>"@,
    }
}

/// The installable named in `args`, or `<unknown>`.
pub fn package_name(args: &[String]) -> (r: &str)
    ensures
        r@ == package_name_of(views(args@)),
{
    match package_arg(args) {
        Some(a) => a,
        None => "<unknown>",
    }
}

/// The expression for the `meta` attribute of `arg`: `ARG.meta` for a flake
/// reference, `nixpkgs#ARG.meta` for a bare name.
pub open spec fn meta_expr_of(arg: Seq<char>) -> Seq<char> {
    if contains(arg, "#"@) {
        arg + ".meta"@
    } else {
        "nixpkgs#"@ + arg + ".meta"@
    }
}

pub fn make_eval_expr(eval_arg: &str) -> (r: String)
    ensures
        r@ == meta_expr_of(eval_arg@),
{
    if contains_str(eval_arg, "#") {
        eval_arg.to_string().concat(".meta")
    } else {
        let mut e = "nixpkgs#".to_string();
        e.append(eval_arg);
        e.append(".meta");
        e
    }
}

/// The text patterns that no argument may contain.
pub open spec fn dangerous_patterns() -> Seq<Seq<char>> {
    seq![
        ";"@,
        "&&"@,
        "||"@,
        "|"@,
        "`"@,
        "$("@,
        "${"@,
        ">"@,
        "<"@,
        ">>"@,
        "<<"@,
        "2>"@,
        "2>>"@,
    ]
}

fn dangerous_pattern_list() -> (r: Vec<&'static str>)
    ensures
        r@.map_values(|p: &str| p@) == dangerous_patterns(),
{
    let r = vec![";", "&&", "||", "|", "`", "$(", "${", ">", "<", ">>", "<<", "2>", "2>>"];
    assert(r@.map_values(|p: &str| p@) =~= dangerous_patterns());
    r
}

/// Some argument contains a dangerous pattern.
pub open spec fn violation_at(args: Seq<Seq<char>>, i: int, p: int) -> bool {
    0 <= i < args.len() && 0 <= p < dangerous_patterns().len() && contains(
        args[i],
        dangerous_patterns()[p],
    )
}

/// `(i, p)` is the first violation: in the first argument that holds a
/// dangerous pattern, the first pattern it holds.
pub open spec fn minimal_violation(args: Seq<Seq<char>>, i: int, p: int) -> bool {
    &&& violation_at(args, i, p)
    &&& forall|i2: int, p2: int| i2 < i ==> !violation_at(args, i2, p2)
    &&& forall|p2: int| p2 < p ==> !violation_at(args, i, p2)
}

/// The error that validating `args` gives, if any.
pub open spec fn validation_error_of(args: Seq<Seq<char>>) -> Option<ErrorView> {
    if exists|i: int, p: int| minimal_violation(args, i, p) {
        let (i, p) = choose|i: int, p: int| minimal_violation(args, i, p);
        Some(
            ErrorView::InvalidInput(
                args[i],
                "contains potentially dangerous pattern: "@ + dangerous_patterns()[p],
            ),
        )
    } else {
        None
    }
}

/// There is at most one first violation.
pub proof fn lemma_minimal_violation_unique(args: Seq<Seq<char>>, i: int, p: int, j: int, q: int)
    requires
        minimal_violation(args, i, p),
        minimal_violation(args, j, q),
    ensures
        i == j && p == q,
{
    if i < j {
        assert(!violation_at(args, i, p));
    } else if j < i {
        assert(!violation_at(args, j, q));
    } else if p < q {
        assert(!violation_at(args, i, p));
    } else if q < p {
        assert(!violation_at(args, j, q));
    }
}

/// Where there is a violation, there is a first one.
pub proof fn lemma_minimal_violation_exists(args: Seq<Seq<char>>, i: int, p: int)
    requires
        violation_at(args, i, p),
    ensures
        exists|j: int, q: int| minimal_violation(args, j, q),
    decreases i, p,
{
    if exists|i2: int, p2: int| i2 < i && violation_at(args, i2, p2) {
        let (i2, p2) = choose|i2: int, p2: int| i2 < i && violation_at(args, i2, p2);
        lemma_minimal_violation_exists(args, i2, p2);
    } else if exists|p2: int| p2 < p && violation_at(args, i, p2) {
        let p2 = choose|p2: int| p2 < p && violation_at(args, i, p2);
        lemma_minimal_violation_exists(args, i, p2);
    } else {
        assert(minimal_violation(args, i, p));
    }
}

/// `a` holds a shell metacharacter or redirection: `;`, `&&`, `||`, `|`,
/// a backquote, `$(`, `${`, `>`, `<`, `>>`, `<<`, `2>` or `2>>`.
pub open spec fn holds_shell_metacharacter(a: Seq<char>) -> bool {
    ||| contains(a, ";"@)
    ||| contains(a, "&&"@)
    ||| contains(a, "||"@)
    ||| contains(a, "|"@)
    ||| contains(a, "`"@)
    ||| contains(a, "$("@)
    ||| contains(a, "${"@)
    ||| contains(a, ">"@)
    ||| contains(a, "<"@)
    ||| contains(a, ">>"@)
    ||| contains(a, "<<"@)
    ||| contains(a, "2>"@)
    ||| contains(a, "2>>"@)
}

proof fn lemma_violation_is_metacharacter(args: Seq<Seq<char>>, i: int, p: int)
    requires
        violation_at(args, i, p),
    ensures
        holds_shell_metacharacter(args[i]),
{
    let d = dangerous_patterns();
    if p == 0 { assert(d[0] == ";"@); }
    else if p == 1 { assert(d[1] == "&&"@); }
    else if p == 2 { assert(d[2] == "||"@); }
    else if p == 3 { assert(d[3] == "|"@); }
    else if p == 4 { assert(d[4] == "`"@); }
    else if p == 5 { assert(d[5] == "$("@); }
    else if p == 6 { assert(d[6] == "${"@); }
    else if p == 7 { assert(d[7] == ">"@); }
    else if p == 8 { assert(d[8] == "<"@); }
    else if p == 9 { assert(d[9] == ">>"@); }
    else if p == 10 { assert(d[10] == "<<"@); }
    else if p == 11 { assert(d[11] == "2>"@); }
    else { assert(d[12] == "2>>"@); }
}

proof fn lemma_metacharacter_is_violation(args: Seq<Seq<char>>, i: int)
    requires
        0 <= i < args.len(),
        holds_shell_metacharacter(args[i]),
    ensures
        exists|p: int| violation_at(args, i, p),
{
    let d = dangerous_patterns();
    let a = args[i];
    if contains(a, ";"@) { assert(violation_at(args, i, 0)); }
    else if contains(a, "&&"@) { assert(violation_at(args, i, 1)); }
    else if contains(a, "||"@) { assert(violation_at(args, i, 2)); }
    else if contains(a, "|"@) { assert(violation_at(args, i, 3)); }
    else if contains(a, "`"@) { assert(violation_at(args, i, 4)); }
    else if contains(a, "$("@) { assert(violation_at(args, i, 5)); }
    else if contains(a, "${"@) { assert(violation_at(args, i, 6)); }
    else if contains(a, ">"@) { assert(violation_at(args, i, 7)); }
    else if contains(a, "<"@) { assert(violation_at(args, i, 8)); }
    else if contains(a, ">>"@) { assert(violation_at(args, i, 9)); }
    else if contains(a, "<<"@) { assert(violation_at(args, i, 10)); }
    else if contains(a, "2>"@) { assert(violation_at(args, i, 11)); }
    else { assert(violation_at(args, i, 12)); }
}

/// Validation refuses exactly the argument lists in which some argument
/// holds a shell metacharacter or redirection: every other list (flake
/// references with `:`, `#`, `/` or `.` among them) is accepted.
pub proof fn law_validation_refuses_exactly_shell_metacharacters(args: Seq<Seq<char>>)
    ensures
        validation_error_of(args) is None <==> forall|i: int|
            0 <= i < args.len() ==> !holds_shell_metacharacter(#[trigger] args[i]),
{
    if validation_error_of(args) is None {
        assert forall|i: int| 0 <= i < args.len() implies !holds_shell_metacharacter(#[trigger] args[i]) by {
            if holds_shell_metacharacter(args[i]) {
                lemma_metacharacter_is_violation(args, i);
                let p = choose|p: int| violation_at(args, i, p);
                lemma_minimal_violation_exists(args, i, p);
            }
        }
    } else {
        let (i, p) = choose|i: int, p: int| minimal_violation(args, i, p);
        lemma_violation_is_metacharacter(args, i, p);
    }
}

/// Refuses arguments that hold shell metacharacters, naming the first such
/// argument and the first pattern it holds.
pub fn validate_nix_args(args: &[String]) -> (r: Result<(), EhError>)
    ensures
        match r {
            Ok(()) => {
                &&& forall|i: int, p: int| !violation_at(views(args@), i, p)
                &&& validation_error_of(views(args@)) is None
            },
            Err(e) => {
                &&& exists|i: int, p: int|
                    {
                        &&& minimal_violation(views(args@), i, p)
                        &&& e matches EhError::InvalidInput { input, reason } && input@ == views(
                            args@,
                        )[i] && reason@ == "contains potentially dangerous pattern: "@
                            + dangerous_patterns()[p]
                    }
                &&& validation_error_of(views(args@)) == Some(e@)
            },
        },
{
    let patterns = dangerous_pattern_list();
    let ghost pats = dangerous_patterns();
    let ghost v = views(args@);
    for i in 0..args.len()
        invariant
            v == views(args@),
            pats == dangerous_patterns(),
            patterns@.map_values(|p: &str| p@) == pats,
            forall|i2: int, p2: int| i2 < i ==> !violation_at(v, i2, p2),
    {
        for k in 0..patterns.len()
            invariant
                v == views(args@),
                pats == dangerous_patterns(),
                patterns@.map_values(|p: &str| p@) == pats,
                0 <= i < args.len(),
                forall|i2: int, p2: int| i2 < i ==> !violation_at(v, i2, p2),
                forall|p2: int| p2 < k ==> !violation_at(v, i as int, p2),
        {
            let pat = patterns[k];
            assert(pats[k as int] == pat@);
            if contains_str(args[i].as_str(), pat) {
                let mut reason = "contains potentially dangerous pattern: ".to_string();
                reason.append(pat);
                let e = EhError::InvalidInput { input: args[i].clone(), reason };
                assert(minimal_violation(v, i as int, k as int));
                proof {
                    let (i1, p1) = choose|i1: int, p1: int| minimal_violation(v, i1, p1);
                    lemma_minimal_violation_unique(v, i as int, k as int, i1, p1);
                }
                return Err(e);
            }
        }
    }
    assert(!(exists|i: int, p: int| minimal_violation(v, i, p)));
    Ok(())
}

/// `content` with the hash fixed the way the file fixer does it, and whether
/// any attribute pattern matched along the way.
pub open spec fn fix_passes(content: Seq<char>, old_hash: Option<Seq<char>>, new_hash: Seq<char>) -> (Seq<char>, bool) {
    let r1 = crate::hash::assignment("hash"@, new_hash);
    let r2 = crate::hash::assignment("sha256"@, new_hash);
    let r3 = crate::hash::assignment("outputHash"@, new_hash);
    let a = replace_attr(content, "hash"@, old_hash, r1);
    let b = replace_attr(a, "sha256"@, old_hash, r2);
    let c = replace_attr(b, "outputHash"@, old_hash, r3);
    (
        c,
        attr_matches(content, "hash"@, old_hash) || attr_matches(a, "sha256"@, old_hash)
            || attr_matches(b, "outputHash"@, old_hash),
    )
}

/// The new text of a file with its hash fixed, and whether any hash
/// attribute was found to rewrite.
pub fn fix_hash_content(content: &str, old_hash: Option<&str>, new_hash: &str) -> (r: (String, bool))
    ensures
        (r.0@, r.1) == fix_passes(content@, crate::hash::opt_str_view(old_hash), new_hash@),
{
    let mut r1 = "hash".to_string();
    r1.append(" = \"");
    r1.append(new_hash);
    r1.append("\"");
    let mut r2 = "sha256".to_string();
    r2.append(" = \"");
    r2.append(new_hash);
    r2.append("\"");
    let mut r3 = "outputHash".to_string();
    r3.append(" = \"");
    r3.append(new_hash);
    r3.append("\"");
    let (a, m1) = replace_attr_exec(content, "hash", old_hash, r1.as_str());
    let (b, m2) = replace_attr_exec(a.as_str(), "sha256", old_hash, r2.as_str());
    let (c, m3) = replace_attr_exec(b.as_str(), "outputHash", old_hash, r3.as_str());
    (c, m1 || m2 || m3)
}

/// `c` is `lower` or its ASCII capital.
pub open spec fn ascii_either(c: char, lower: char, upper: char) -> bool {
    c == lower || c == upper
}

/// An extension that is `nix` in any ASCII case.
pub open spec fn nix_extension(ext: Seq<char>) -> bool {
    ext.len() == 3 && ascii_either(ext[0], 'n', 'N') && ascii_either(ext[1], 'i', 'I')
        && ascii_either(ext[2], 'x', 'X')
}

/// Whether a walked entry is a `.nix` file: a file whose extension is `nix`
/// in any ASCII case.
pub fn is_nix_file_ignoring_case(is_file: bool, extension: Option<&str>) -> (b: bool)
    ensures
        b == (is_file && match extension {
            Some(e) => nix_extension(e@),
            None => false,
        }),
{
    if !is_file {
        return false;
    }
    match extension {
        Some(e) => {
            if e.unicode_len() != 3 {
                return false;
            }
            let a = e.get_char(0);
            let b = e.get_char(1);
            let c = e.get_char(2);
            (a == 'n' || a == 'N') && (b == 'i' || b == 'I') && (c == 'x' || c == 'X')
        },
        None => false,
    }
}


/// A checked run of `nix SUBCOMMAND ARGS…` with automatic retries: the
/// request that [`crate::guarded_run::guarded_step`] carries out, step by
/// step, from [`crate::guarded_run::GuardedState::Start`].
pub fn handle_nix_with_retry(subcommand: &str, args: &[String], interactive: bool) -> (r: crate::guarded_run::GuardedRequest)
    ensures
        r.subcommand@ == subcommand@,
        views(r.args@) == views(args@),
        r.interactive == interactive,
{
    crate::guarded_run::GuardedRequest {
        subcommand: subcommand.to_string(),
        args: crate::nix_command::clone_strings(args),
        interactive,
    }
}

} // verus!
