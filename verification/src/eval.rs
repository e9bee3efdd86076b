use vstd::prelude::*;
use crate::eh_error::EhError;
use crate::order::views;
use crate::text::{contains, contains_str, ends_with, ends_with_str, str_eq, trim, trim_str};

verus! {

broadcast use vstd::string::group_string_axioms;

/// An argument that is a flag rather than an installable.
pub open spec fn is_flag(a: Seq<char>) -> bool {
    a.len() > 0 && a[0] == '-'
}

/// The first argument that is not a flag.
pub open spec fn package_arg_of(args: Seq<Seq<char>>) -> Option<Seq<char>>
    decreases args.len(),
{
    if args.len() == 0 {
        None
    } else if !is_flag(args[0]) {
        Some(args[0])
    } else {
        package_arg_of(args.drop_first())
    }
}

proof fn lemma_package_arg_skip(args: Seq<Seq<char>>, i: int)
    requires
        0 <= i <= args.len(),
        forall|j: int| 0 <= j < i ==> is_flag(#[trigger] args[j]),
    ensures
        package_arg_of(args) == package_arg_of(args.skip(i)),
    decreases i,
{
    if i == 0 {
        assert(args.skip(0) =~= args);
    } else {
        assert forall|j: int| 0 <= j < i - 1 implies is_flag(#[trigger] args.drop_first()[j]) by {
            assert(args.drop_first()[j] == args[j + 1]);
        }
        lemma_package_arg_skip(args.drop_first(), i - 1);
        assert(args.drop_first().skip(i - 1) =~= args.skip(i));
    }
}

/// The first argument that does not start with `-`.
pub fn package_arg(args: &[String]) -> (r: Option<&str>)
    ensures
        match r {
            Some(a) => package_arg_of(views(args@)) == Some(a@),
            None => package_arg_of(views(args@)) is None,
        },
{
    let ghost v = views(args@);
    for i in 0..args.len()
        invariant
            v == views(args@),
            forall|j: int| 0 <= j < i ==> is_flag(#[trigger] v[j]),
    {
        let a = args[i].as_str();
        let flag = crate::text::starts_with_str(a, "-");
        proof {
            reveal_strlit("-");
            assert(v[i as int] == a@);
            if flag {
                assert(a@.subrange(0, 1)[0] == a@[0]);
            } else if a@.len() > 0 && a@[0] == '-' {
                assert(a@.subrange(0, 1) =~= "-"@);
            }
        }
        if !flag {
            proof {
                lemma_package_arg_skip(v, i as int);
                assert(v.skip(i as int)[0] == v[i as int]);
            }
            return Some(a);
        }
    }
    proof {
        lemma_package_arg_skip(v, v.len() as int);
    }
    None
}

/// The expression whose `meta` attribute describes the installable `arg`:
/// `nixpkgs#NAME.meta` for a bare name, `REF.meta` for a flake reference,
/// `REF#default.meta` for a reference without an attribute (`.` standing
/// for `.#`). `None` when `arg` is blank.
pub open spec fn eval_expr_of(arg: Seq<char>) -> Option<Seq<char>> {
    let t = trim(arg);
    if t.len() == 0 {
        None
    } else {
        let r = if t == "."@ {
            ".#"@
        } else {
            t
        };
        if ends_with(r, "#"@) {
            Some(r + "default.meta"@)
        } else if contains(r, "#"@) {
            Some(r + ".meta"@)
        } else {
            Some("nixpkgs#"@ + r + ".meta"@)
        }
    }
}

pub fn make_eval_expr(eval_arg: &str) -> (r: Result<String, EhError>)
    ensures
        match r {
            Ok(e) => eval_expr_of(eval_arg@) == Some(e@),
            Err(e) => eval_expr_of(eval_arg@) is None && e == EhError::InvalidEvalInput,
        },
{
    let t = trim_str(eval_arg);
    if t.as_str().unicode_len() == 0 {
        return Err(EhError::InvalidEvalInput);
    }
    let r = if str_eq(t.as_str(), ".") {
        ".#".to_string()
    } else {
        t
    };
    if ends_with_str(r.as_str(), "#") {
        Ok(r.concat("default.meta"))
    } else if contains_str(r.as_str(), "#") {
        Ok(r.concat(".meta"))
    } else {
        let mut e = "nixpkgs#".to_string();
        e.append(r.as_str());
        e.append(".meta");
        Ok(e)
    }
}

} // verus!
