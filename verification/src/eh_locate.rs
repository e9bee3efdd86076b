use vstd::prelude::*;
use crate::eh_error::EhError;
use crate::order::{insert_distinct, strictly_sorted, views};
use crate::text::{contains, contains_str, trim, trim_str};

verus! {

broadcast use vstd::string::group_string_axioms;

/// A name that can be looked up: not blank, and not a path.
pub open spec fn binary_name_ok(binary: Seq<char>) -> bool {
    trim(binary).len() > 0 && !contains(binary, "/"@)
}

/// Refuses a blank binary name or one that holds a `/`.
pub fn validate_binary_name(binary: &str) -> (r: Result<(), EhError>)
    ensures
        r is Ok <==> binary_name_ok(binary@),
        r matches Err(e) ==> e matches EhError::InvalidBinaryName { binary: b } && b@ == binary@,
{
    let t = trim_str(binary);
    if t.unicode_len() == 0 || contains_str(binary, "/") {
        Err(EhError::InvalidBinaryName { binary: binary.to_string() })
    } else {
        Ok(())
    }
}

/// The file that a package providing `binary` installs.
pub open spec fn query_pattern_of(binary: Seq<char>) -> Seq<char> {
    "/bin/"@ + binary
}

/// The path to look up in the package database for `binary`.
pub fn query_pattern(binary: &str) -> (r: String)
    ensures
        r@ == query_pattern_of(binary@),
{
    let mut p = "/bin/".to_string();
    p.append(binary);
    p
}

/// A file of the package database: its path and the packages that install it.
pub struct FileRecord {
    pub path: String,
    pub packages: Vec<String>,
}

/// Among the first `n` records, one for `path` lists `pkg`.
pub open spec fn provides_upto(records: Seq<FileRecord>, path: Seq<char>, pkg: Seq<char>, n: int) -> bool {
    exists|i: int|
        0 <= i < n && i < records.len() && #[trigger] records[i].path@ == path && views(
            records[i].packages@,
        ).contains(pkg)
}

/// Some record for `path` lists `pkg`.
pub open spec fn provides(records: Seq<FileRecord>, path: Seq<char>, pkg: Seq<char>) -> bool {
    provides_upto(records, path, pkg, records.len() as int)
}

/// The packages that install exactly `/bin/BINARY`, each once, in order.
pub fn extract_candidates(records: &[FileRecord], binary: &str) -> (r: Vec<String>)
    ensures
        strictly_sorted(views(r@)),
        forall|y: Seq<char>|
            views(r@).contains(y) <==> provides(records@, query_pattern_of(binary@), y),
{
    let pattern = query_pattern(binary);
    let ghost pat = pattern@;
    let mut out: Vec<String> = Vec::new();
    assert(views(out@) =~= Seq::<Seq<char>>::empty());
    for i in 0..records.len()
        invariant
            pat == pattern@,
            pat == query_pattern_of(binary@),
            strictly_sorted(views(out@)),
            forall|y: Seq<char>|
                views(out@).contains(y) <==> provides_upto(records@, pat, y, i as int),
    {
        let rec = &records[i];
        let hit = crate::text::str_eq(rec.path.as_str(), pattern.as_str());
        let ghost before = out@;
        if hit {
            for j in 0..rec.packages.len()
                invariant
                    pat == pattern@,
                    rec == records@[i as int],
                    rec.path@ == pat,
                    0 <= i < records@.len(),
                    strictly_sorted(views(out@)),
                    forall|y: Seq<char>|
                        views(out@).contains(y) <==> (provides_upto(records@, pat, y, i as int)
                            || views(rec.packages@).take(j as int).contains(y)),
            {
                let ghost prev = out@;
                insert_distinct(&mut out, rec.packages[j].clone());
                proof {
                    assert forall|y: Seq<char>|
                        views(out@).contains(y) <==> (provides_upto(records@, pat, y, i as int)
                            || views(rec.packages@).take(j + 1).contains(y)) by {
                        let t = views(rec.packages@).take(j + 1);
                        assert(t =~= views(rec.packages@).take(j as int).push(rec.packages@[j as int]@));
                        if t.contains(y) {
                            let k = choose|k: int| 0 <= k < t.len() && t[k] == y;
                            if k < j {
                                assert(views(rec.packages@).take(j as int)[k] == y);
                            }
                        }
                        if views(rec.packages@).take(j as int).contains(y) {
                            let k = choose|k: int|
                                0 <= k < j && views(rec.packages@).take(j as int)[k] == y;
                            assert(t[k] == y);
                        }
                        if y == rec.packages@[j as int]@ {
                            assert(t[j as int] == y);
                        }
                    }
                }
            }
            proof {
                assert(views(rec.packages@).take(rec.packages@.len() as int) =~= views(rec.packages@));
                assert forall|y: Seq<char>|
                    views(out@).contains(y) <==> provides_upto(records@, pat, y, i + 1) by {
                    if views(rec.packages@).contains(y) {
                        assert(records@[i as int].path@ == pat);
                    }
                    if provides_upto(records@, pat, y, i + 1) {
                        let k = choose|k: int|
                            0 <= k < i + 1 && k < records@.len() && #[trigger] records@[k].path@
                                == pat && views(records@[k].packages@).contains(y);
                        if k < i {
                            assert(provides_upto(records@, pat, y, i as int));
                        }
                    }
                }
            }
        } else {
            proof {
                assert forall|y: Seq<char>|
                    views(out@).contains(y) <==> provides_upto(records@, pat, y, i + 1) by {
                    if provides_upto(records@, pat, y, i + 1) {
                        let k = choose|k: int|
                            0 <= k < i + 1 && k < records@.len() && #[trigger] records@[k].path@
                                == pat && views(records@[k].packages@).contains(y);
                        if k < i {
                            assert(provides_upto(records@, pat, y, i as int));
                        }
                    }
                }
            }
        }
    }
    out
}

/// What the lookup settled on: a package, or several to choose from.
pub enum Selection {
    Chosen(String),
    Ambiguous(Vec<String>),
}

/// The choice among `candidates` for `binary`: none is an error, one is
/// taken, the package named like the binary is preferred, and otherwise the
/// user has to choose.
pub open spec fn selection_meets(r: Result<Selection, EhError>, binary: Seq<char>, candidates: Seq<Seq<char>>) -> bool {
    if candidates.len() == 0 {
        r matches Err(EhError::BinaryNotFound { binary: b }) && b@ == binary
    } else if candidates.len() == 1 {
        r matches Ok(Selection::Chosen(c)) && c@ == candidates[0]
    } else if candidates.contains(binary) {
        r matches Ok(Selection::Chosen(c)) && c@ == binary
    } else {
        r matches Ok(Selection::Ambiguous(v)) && views(v@) == candidates
    }
}

pub fn select_candidate(binary: &str, candidates: Vec<String>) -> (r: Result<Selection, EhError>)
    ensures
        selection_meets(r, binary@, views(candidates@)),
{
    let n = candidates.len();
    if n == 0 {
        return Err(EhError::BinaryNotFound { binary: binary.to_string() });
    }
    if n == 1 {
        return Ok(Selection::Chosen(candidates[0].clone()));
    }
    for i in 0..n
        invariant
            n == candidates.len(),
            forall|j: int| 0 <= j < i ==> views(candidates@)[j] != binary@,
    {
        if crate::text::str_eq(candidates[i].as_str(), binary) {
            assert(views(candidates@)[i as int] == binary@);
            return Ok(Selection::Chosen(candidates[i].clone()));
        }
    }
    Ok(Selection::Ambiguous(candidates))
}

/// How the user answered when asked to choose a package.
pub enum PromptAnswer {
    /// No terminal is attached to ask on.
    NoTerminal,
    /// The user picked the candidate at this position.
    Picked(usize),
    /// Asking failed, with this message.
    Failed(String),
}

/// The package the user chose among several, or why there is none.
pub fn select_ambiguous_candidate(binary: &str, candidates: Vec<String>, answer: PromptAnswer) -> (r: Result<String, EhError>)
    requires
        answer matches PromptAnswer::Picked(i) ==> i < candidates.len(),
    ensures
        match answer {
            PromptAnswer::NoTerminal => r matches Err(EhError::AmbiguousBinary { binary: b, candidates: c })
                && b@ == binary@ && views(c@) == views(candidates@),
            PromptAnswer::Picked(i) => r matches Ok(c) && c@ == candidates@[i as int]@,
            PromptAnswer::Failed(m) => r == Err::<String, EhError>(EhError::Io(m)),
        },
{
    match answer {
        PromptAnswer::NoTerminal => Err(
            EhError::AmbiguousBinary { binary: binary.to_string(), candidates },
        ),
        PromptAnswer::Picked(i) => Ok(candidates[i].clone()),
        PromptAnswer::Failed(m) => Err(EhError::Io(m)),
    }
}

/// The package that provides `binary`, looked up in the database files
/// `records`: refused for a name that is blank or a path, otherwise chosen
/// among the packages installing `/bin/BINARY`.
pub fn get_package_from_index(binary: &str, records: &[FileRecord]) -> (r: Result<Selection, EhError>)
    ensures
        !binary_name_ok(binary@) ==> (r matches Err(EhError::InvalidBinaryName { binary: b }) && b@
            == binary@),
        binary_name_ok(binary@) ==> exists|c: Seq<Seq<char>>|
            {
                &&& strictly_sorted(c)
                &&& forall|y: Seq<char>|
                    #[trigger] c.contains(y) <==> provides(records@, query_pattern_of(binary@), y)
                &&& selection_meets(r, binary@, c)
            },
{
    match validate_binary_name(binary) {
        Err(e) => Err(e),
        Ok(()) => {
            let candidates = extract_candidates(records, binary);
            let ghost c = views(candidates@);
            let r = select_candidate(binary, candidates);
            assert(selection_meets(r, binary@, c));
            r
        },
    }
}

} // verus!
