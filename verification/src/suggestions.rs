use vstd::prelude::*;
use crate::order::views;
use crate::text::{
    chars_of, contains, contains_str, first_at_or_after, find_first_from, occurs_at,
    occurs_at_exec, split_on, split_str, trim, trim_str,
};

verus! {

broadcast use vstd::string::group_string_axioms;

/// Where `.+?\?` that starts at `start` ends: the first `?` after at least
/// one character, with no line break before it. `k` is the next index to
/// look at.
pub open spec fn lazy_end(t: Seq<char>, start: int, k: int) -> Option<int>
    decreases t.len() - k,
{
    if k < 0 || k >= t.len() {
        None
    } else if t[k] == '?' && k > start {
        Some(k)
    } else if t[k] == '\n' {
        None
    } else {
        lazy_end(t, start, k + 1)
    }
}

/// The capture of `Did you mean (?:one of )?(.+?)\?` when it matches at
/// index `i` of `t`, as the bounds of the captured text.
pub open spec fn suggestion_capture_at(t: Seq<char>, i: int) -> Option<(int, int)> {
    if occurs_at(t, i, "Did you mean "@) {
        let p = i + 13;
        if occurs_at(t, p, "one of "@) && lazy_end(t, p + 7, p + 7) is Some {
            Some((p + 7, lazy_end(t, p + 7, p + 7)->0))
        } else if lazy_end(t, p, p) is Some {
            Some((p, lazy_end(t, p, p)->0))
        } else {
            None
        }
    } else {
        None
    }
}

/// The capture of the leftmost match at or after `from`.
pub open spec fn scan_suggestion_capture(t: Seq<char>, from: int) -> Option<(int, int)>
    decreases t.len() + 1 - from,
{
    if from < 0 || from > t.len() {
        None
    } else {
        match suggestion_capture_at(t, from) {
            Some(c) => Some(c),
            None => scan_suggestion_capture(t, from + 1),
        }
    }
}

/// The pieces of each element split at `sep`, all in order.
pub open spec fn split_all(parts: Seq<Seq<char>>, sep: Seq<char>) -> Seq<Seq<char>>
    decreases parts.len(),
{
    if parts.len() == 0 {
        seq![]
    } else {
        split_on(parts[0], sep) + split_all(parts.drop_first(), sep)
    }
}

/// Each element trimmed, the empty ones dropped.
pub open spec fn tidy(parts: Seq<Seq<char>>) -> Seq<Seq<char>>
    decreases parts.len(),
{
    if parts.len() == 0 {
        seq![]
    } else {
        let t = trim(parts[0]);
        (if t.len() > 0 {
            seq![t]
        } else {
            seq![]
        }) + tidy(parts.drop_first())
    }
}

/// The names nix suggests on a `Did you mean …?` line: the captured list,
/// split at `, ` and at ` or `, trimmed, without empty names.
pub open spec fn suggestions_of(line: Seq<char>) -> Seq<Seq<char>> {
    match scan_suggestion_capture(line, 0) {
        Some((a, b)) => tidy(split_all(split_on(line.subrange(a, b), ", "@), " or "@)),
        None => seq![],
    }
}

fn lazy_end_exec(t: &Vec<char>, start: usize) -> (r: Option<usize>)
    requires
        start <= t.len(),
    ensures
        match r {
            Some(j) => lazy_end(t@, start as int, start as int) == Some(j as int) && start < j
                < t.len(),
            None => lazy_end(t@, start as int, start as int) is None,
        },
{
    let mut k = start;
    while k < t.len()
        invariant
            start <= k <= t.len(),
            lazy_end(t@, start as int, start as int) == lazy_end(t@, start as int, k as int),
        decreases t.len() - k,
    {
        if t[k] == '?' && k > start {
            return Some(k);
        } else if t[k] == '\n' {
            return None;
        }
        k = k + 1;
    }
    None
}

fn capture_at_exec(t: &Vec<char>, i: usize, dym: &Vec<char>, one_of: &Vec<char>) -> (r: Option<(usize, usize)>)
    requires
        i <= t.len(),
        dym@ == "Did you mean "@,
        one_of@ == "one of "@,
    ensures
        match r {
            Some((a, b)) => suggestion_capture_at(t@, i as int) == Some((a as int, b as int)) && a
                <= b <= t.len(),
            None => suggestion_capture_at(t@, i as int) is None,
        },
{
    proof {
        reveal_strlit("Did you mean ");
        reveal_strlit("one of ");
    }
    if !occurs_at_exec(t, i, dym) {
        return None;
    }
    let p = i + 13;
    if occurs_at_exec(t, p, one_of) {
        match lazy_end_exec(t, p + 7) {
            Some(j) => {
                return Some((p + 7, j));
            },
            None => {},
        }
    }
    match lazy_end_exec(t, p) {
        Some(j) => Some((p, j)),
        None => None,
    }
}

fn scan_capture_exec(t: &Vec<char>) -> (r: Option<(usize, usize)>)
    ensures
        match r {
            Some((a, b)) => scan_suggestion_capture(t@, 0) == Some((a as int, b as int)) && a <= b
                <= t.len(),
            None => scan_suggestion_capture(t@, 0) is None,
        },
{
    let dym = chars_of("Did you mean ");
    let one_of = chars_of("one of ");
    let mut i: usize = 0;
    while i <= t.len()
        invariant
            i <= t.len() + 1,
            dym@ == "Did you mean "@,
            one_of@ == "one of "@,
            scan_suggestion_capture(t@, 0) == scan_suggestion_capture(t@, i as int),
        decreases t.len() + 1 - i,
    {
        match capture_at_exec(t, i, &dym, &one_of) {
            Some(c) => {
                return Some(c);
            },
            None => {},
        }
        if i == t.len() {
            assert(scan_suggestion_capture(t@, i + 1) is None);
            return None;
        }
        i = i + 1;
    }
    None
}

fn split_each(parts: &Vec<String>, sep: &str) -> (r: Vec<String>)
    requires
        sep@.len() > 0,
    ensures
        views(r@) == split_all(views(parts@), sep@),
{
    let ghost v = views(parts@);
    let mut rev: Vec<Vec<String>> = Vec::new();
    for k in 0..parts.len()
        invariant
            v == views(parts@),
            sep@.len() > 0,
            rev@.len() == k,
            forall|j: int| 0 <= j < k ==> views(#[trigger] rev@[j]@) == split_on(v[j], sep@),
    {
        rev.push(split_str(parts[k].as_str(), sep));
    }
    // Concatenate from the back so that each step adds one element's pieces
    // in front of the rest.
    let mut acc: Vec<String> = Vec::new();
    let mut i = parts.len();
    while i > 0
        invariant
            v == views(parts@),
            i <= parts.len(),
            rev@.len() == parts.len(),
            forall|j: int| 0 <= j < parts.len() ==> views(#[trigger] rev@[j]@) == split_on(v[j], sep@),
            views(acc@) == split_all(v.skip(i as int), sep@),
        decreases i,
    {
        i = i - 1;
        let mut next: Vec<String> = Vec::new();
        let pieces = &rev[i];
        crate::nix_command::push_all(&mut next, pieces.as_slice());
        crate::nix_command::push_all(&mut next, acc.as_slice());
        proof {
            assert(v.skip(i as int).drop_first() =~= v.skip(i + 1));
            assert(v.skip(i as int)[0] == v[i as int]);
            assert(views(next@) =~= views(rev@[i as int]@) + views(acc@));
        }
        acc = next;
    }
    assert(v.skip(0) =~= v);
    acc
}

fn tidy_exec(parts: &Vec<String>) -> (r: Vec<String>)
    ensures
        views(r@) == tidy(views(parts@)),
{
    let ghost v = views(parts@);
    let mut acc: Vec<String> = Vec::new();
    let mut i = parts.len();
    while i > 0
        invariant
            v == views(parts@),
            i <= parts.len(),
            views(acc@) == tidy(v.skip(i as int)),
        decreases i,
    {
        i = i - 1;
        let t = trim_str(parts[i].as_str());
        let mut next: Vec<String> = Vec::new();
        let keep = t.as_str().unicode_len() > 0;
        let ghost tv = t@;
        if keep {
            next.push(t);
        }
        crate::nix_command::push_all(&mut next, acc.as_slice());
        proof {
            assert(v.skip(i as int).drop_first() =~= v.skip(i + 1));
            assert(v.skip(i as int)[0] == v[i as int]);
            if keep {
                assert(views(next@) =~= seq![tv] + views(acc@));
            } else {
                assert(views(next@) =~= views(acc@));
                assert(views(next@) =~= Seq::<Seq<char>>::empty() + views(acc@));
            }
        }
        acc = next;
    }
    assert(v.skip(0) =~= v);
    acc
}

/// The names nix suggests on a `Did you mean …?` line.
pub fn parse_nix_suggestions(did_you_mean_line: &str) -> (r: Vec<String>)
    ensures
        views(r@) == suggestions_of(did_you_mean_line@),
{
    let t = chars_of(did_you_mean_line);
    match scan_capture_exec(&t) {
        Some((a, b)) => {
            let captured = did_you_mean_line.substring_char(a, b);
            proof {
                reveal_strlit(", ");
                reveal_strlit(" or ");
            }
            let first = split_str(captured, ", ");
            let second = split_each(&first, " or ");
            tidy_exec(&second)
        },
        None => {
            let r: Vec<String> = Vec::new();
            assert(views(r@) =~= Seq::<Seq<char>>::empty());
            r
        },
    }
}

/// The first line of `s`, from index `pos` on, that contains `pat`; lines end
/// at `\n`, and a line that ends so loses a final `\r`, as `str::lines`
/// gives them.
pub open spec fn line_with_from(s: Seq<char>, pat: Seq<char>, pos: int) -> Option<Seq<char>>
    decreases s.len() + 1 - pos,
{
    if pos < 0 || pos >= s.len() {
        None
    } else {
        let end = match first_at_or_after(s, seq!['\n'], pos) {
            Some(e) => if pos <= e <= s.len() { e } else { s.len() as int },
            None => s.len() as int,
        };
        let raw = s.subrange(pos, end);
        let line = if end < s.len() && raw.len() > 0 && raw.last() == '\r' {
            raw.drop_last()
        } else {
            raw
        };
        if contains(line, pat) {
            Some(line)
        } else {
            line_with_from(s, pat, end + 1)
        }
    }
}

/// The names suggested on the first line of nix's error output that says
/// `Did you mean`; none when there is no such line.
pub open spec fn error_suggestions_of(stderr: Seq<char>) -> Seq<Seq<char>> {
    match line_with_from(stderr, "Did you mean"@, 0) {
        Some(line) => suggestions_of(line),
        None => seq![],
    }
}

/// The names that nix's error output suggests instead of a misspelt one.
pub fn error_suggestions(stderr: &str) -> (r: Vec<String>)
    ensures
        views(r@) == error_suggestions_of(stderr@),
{
    let s = chars_of(stderr);
    let nl = chars_of("\n");
    proof {
        reveal_strlit("\n");
    }
    assert(nl@ =~= seq!['\n']);
    let mut pos: usize = 0;
    while pos < s.len()
        invariant
            s@ == stderr@,
            nl@ == seq!['\n'],
            pos <= s.len(),
            line_with_from(s@, "Did you mean"@, 0) == line_with_from(s@, "Did you mean"@, pos as int),
        decreases s.len() - pos,
    {
        let end = match find_first_from(&s, &nl, pos) {
            Some(e) => e,
            None => s.len(),
        };
        let strip = end < s.len() && end > pos && s[end - 1] == '\r';
        let line_end = if strip { end - 1 } else { end };
        let line = stderr.substring_char(pos, line_end);
        proof {
            let raw = s@.subrange(pos as int, end as int);
            if strip {
                assert(raw.drop_last() =~= s@.subrange(pos as int, line_end as int));
            } else {
                assert(raw =~= s@.subrange(pos as int, line_end as int));
            }
        }
        if contains_str(line, "Did you mean") {
            return parse_nix_suggestions(line);
        }
        if end >= s.len() {
            assert(line_with_from(s@, "Did you mean"@, end + 1) is None);
            let r: Vec<String> = Vec::new();
            assert(views(r@) =~= Seq::<Seq<char>>::empty());
            return r;
        }
        pos = end + 1;
    }
    assert(line_with_from(s@, "Did you mean"@, pos as int) is None);
    let r: Vec<String> = Vec::new();
    assert(views(r@) =~= Seq::<Seq<char>>::empty());
    r
}


/// The text that `String::from_utf8_lossy` decodes `bytes` to.
pub uninterp spec fn lossy_text(bytes: Seq<u8>) -> Seq<char>;

/// `bytes` decoded as UTF-8, each invalid sequence replaced by U+FFFD, by
/// `String::from_utf8_lossy`.
#[verifier::external_body]
pub(crate) fn decode_lossy(bytes: &[u8]) -> (r: String)
    ensures
        r@ == lossy_text(bytes@),
{
    String::from_utf8_lossy(bytes).into_owned()
}

/// The names that nix's raw error output suggests, for the `Did you mean`
/// line of the log; none when it suggests nothing.
pub fn print_error_suggestions(stderr: &[u8]) -> (r: Vec<String>)
    ensures
        views(r@) == error_suggestions_of(lossy_text(stderr@)),
{
    let text = decode_lossy(stderr);
    error_suggestions(text.as_str())
}

} // verus!
