use vstd::prelude::*;

verus! {

broadcast use vstd::string::group_string_axioms;

/// Unicode `White_Space`: the characters that `char::is_whitespace`,
/// `str::trim` and the `\s` class of a regular expression accept.
pub open spec fn is_ws(c: char) -> bool {
    let u = c as u32;
    ||| (9 <= u && u <= 13)
    ||| u == 32
    ||| u == 0x85
    ||| u == 0xa0
    ||| u == 0x1680
    ||| (0x2000 <= u && u <= 0x200a)
    ||| u == 0x2028
    ||| u == 0x2029
    ||| u == 0x202f
    ||| u == 0x205f
    ||| u == 0x3000
}

/// Executable form of [`is_ws`].
pub fn is_ws_char(c: char) -> (b: bool)
    ensures
        b == is_ws(c),
{
    let u = c as u32;
    (9 <= u && u <= 13) || u == 32 || u == 0x85 || u == 0xa0 || u == 0x1680 || (0x2000 <= u
        && u <= 0x200a) || u == 0x2028 || u == 0x2029 || u == 0x202f || u == 0x205f || u
        == 0x3000
}

/// `p` occurs in `s` starting at index `i`.
pub open spec fn occurs_at(s: Seq<char>, i: int, p: Seq<char>) -> bool {
    0 <= i && i + p.len() <= s.len() && s.subrange(i, i + p.len()) == p
}

/// `p` occurs somewhere in `s` (an empty `p` occurs everywhere).
pub open spec fn contains(s: Seq<char>, p: Seq<char>) -> bool {
    exists|i: int| occurs_at(s, i, p)
}

pub open spec fn starts_with(s: Seq<char>, p: Seq<char>) -> bool {
    occurs_at(s, 0, p)
}

pub open spec fn ends_with(s: Seq<char>, p: Seq<char>) -> bool {
    p.len() <= s.len() && occurs_at(s, s.len() - p.len(), p)
}

/// The characters of `s`, in order.
pub fn chars_of(s: &str) -> (out: Vec<char>)
    ensures
        out@ == s@,
{
    let mut out: Vec<char> = Vec::new();
    for c in it: s.chars()
        invariant
            it.seq() == s@,
            out@ == it.seq().take(it.index()),
    {
        out.push(c);
    }
    out
}

/// Whether `p` occurs in `s` at index `i`.
pub fn occurs_at_exec(s: &Vec<char>, i: usize, p: &Vec<char>) -> (b: bool)
    ensures
        b == occurs_at(s@, i as int, p@),
{
    if i > s.len() || p.len() > s.len() - i {
        return false;
    }
    let mut k: usize = 0;
    while k < p.len()
        invariant
            i + p.len() <= s.len(),
            k <= p.len(),
            forall|j: int| 0 <= j < k ==> s@[i + j] == p@[j],
        decreases p.len() - k,
    {
        if s[i + k] != p[k] {
            assert(s@.subrange(i as int, i + p.len())[k as int] != p@[k as int]);
            return false;
        }
        k = k + 1;
    }
    assert(s@.subrange(i as int, i + p.len()) =~= p@);
    true
}

/// The first index at or after `from` where `p` occurs in `s`.
pub fn find_from(s: &Vec<char>, p: &Vec<char>, from: usize) -> (r: Option<usize>)
    ensures
        r matches Some(i) ==> from <= i && occurs_at(s@, i as int, p@) && forall|j: int|
            from <= j < i ==> !occurs_at(s@, j, p@),
        r is None ==> forall|j: int| from <= j ==> !occurs_at(s@, j, p@),
{
    let mut i = from;
    while i < s.len()
        invariant
            from <= i,
            forall|j: int| from <= j < i ==> !occurs_at(s@, j, p@),
        decreases s.len() - i,
    {
        if occurs_at_exec(s, i, p) {
            return Some(i);
        }
        i = i + 1;
    }
    if i == s.len() && occurs_at_exec(s, i, p) {
        return Some(i);
    }
    None
}

/// Whether `pat` occurs in `hay`.
pub fn contains_str(hay: &str, pat: &str) -> (b: bool)
    ensures
        b == contains(hay@, pat@),
{
    let h = chars_of(hay);
    let p = chars_of(pat);
    match find_from(&h, &p, 0) {
        Some(_) => true,
        None => {
            assert forall|i: int| !occurs_at(hay@, i, pat@) by {
                if 0 <= i {
                }
            }
            false
        },
    }
}

/// Whether `hay` begins with `pat`.
pub fn starts_with_str(hay: &str, pat: &str) -> (b: bool)
    ensures
        b == starts_with(hay@, pat@),
{
    let h = chars_of(hay);
    let p = chars_of(pat);
    occurs_at_exec(&h, 0, &p)
}

/// Whether `hay` ends with `pat`.
pub fn ends_with_str(hay: &str, pat: &str) -> (b: bool)
    ensures
        b == ends_with(hay@, pat@),
{
    let h = chars_of(hay);
    let p = chars_of(pat);
    if p.len() > h.len() {
        return false;
    }
    occurs_at_exec(&h, h.len() - p.len(), &p)
}

/// Character-wise equality of two strings.
pub fn str_eq(a: &str, b: &str) -> (r: bool)
    ensures
        r == (a@ == b@),
{
    let x = chars_of(a);
    let y = chars_of(b);
    if x.len() != y.len() {
        return false;
    }
    let r = occurs_at_exec(&x, 0, &y);
    assert(x@.subrange(0, y@.len() as int) =~= x@);
    r
}


/// `s` without its leading white space.
pub open spec fn trim_start(s: Seq<char>) -> Seq<char>
    decreases s.len(),
{
    if s.len() > 0 && is_ws(s[0]) {
        trim_start(s.drop_first())
    } else {
        s
    }
}

/// `s` without its trailing white space.
pub open spec fn trim_end(s: Seq<char>) -> Seq<char>
    decreases s.len(),
{
    if s.len() > 0 && is_ws(s.last()) {
        trim_end(s.drop_last())
    } else {
        s
    }
}

/// `s` without leading and trailing white space, as `str::trim` gives it.
pub open spec fn trim(s: Seq<char>) -> Seq<char> {
    trim_end(trim_start(s))
}

proof fn lemma_trim_start(s: Seq<char>, a: int)
    requires
        0 <= a <= s.len(),
        forall|i: int| 0 <= i < a ==> is_ws(#[trigger] s[i]),
        a == s.len() || !is_ws(s[a]),
    ensures
        trim_start(s) == s.subrange(a, s.len() as int),
    decreases a,
{
    if a == 0 {
        assert(s.subrange(0, s.len() as int) =~= s);
    } else {
        let t = s.drop_first();
        assert forall|i: int| 0 <= i < a - 1 implies is_ws(#[trigger] t[i]) by {
            assert(t[i] == s[i + 1]);
        }
        if a - 1 < t.len() {
            assert(t[a - 1] == s[a]);
        }
        lemma_trim_start(t, a - 1);
        assert(t.subrange(a - 1, t.len() as int) =~= s.subrange(a, s.len() as int));
    }
}

proof fn lemma_trim_end(s: Seq<char>, b: int)
    requires
        0 <= b <= s.len(),
        forall|i: int| b <= i < s.len() ==> is_ws(#[trigger] s[i]),
        b == 0 || !is_ws(s[b - 1]),
    ensures
        trim_end(s) == s.subrange(0, b),
    decreases s.len() - b,
{
    if b == s.len() {
        assert(s.subrange(0, b) =~= s);
    } else {
        let t = s.drop_last();
        assert forall|i: int| b <= i < t.len() implies is_ws(#[trigger] t[i]) by {
            assert(t[i] == s[i]);
        }
        if b > 0 {
            assert(t[b - 1] == s[b - 1]);
        }
        lemma_trim_end(t, b);
        assert(t.subrange(0, b) =~= s.subrange(0, b));
    }
}

/// The bounds `(a, b)` of the trimmed part of `s`.
pub fn trim_bounds(s: &Vec<char>) -> (r: (usize, usize))
    ensures
        r.0 <= r.1 <= s.len(),
        s@.subrange(r.0 as int, r.1 as int) == trim(s@),
{
    let mut a: usize = 0;
    while a < s.len() && is_ws_char(s[a])
        invariant
            a <= s.len(),
            forall|i: int| 0 <= i < a ==> is_ws(#[trigger] s@[i]),
        decreases s.len() - a,
    {
        a = a + 1;
    }
    proof {
        lemma_trim_start(s@, a as int);
    }
    let ghost t = s@.subrange(a as int, s.len() as int);
    let mut b: usize = s.len();
    while b > a && is_ws_char(s[b - 1])
        invariant
            a <= b <= s.len(),
            t == s@.subrange(a as int, s.len() as int),
            forall|i: int| b <= i < s.len() ==> is_ws(#[trigger] s@[i]),
        decreases b,
    {
        b = b - 1;
    }
    proof {
        assert forall|i: int| b - a <= i < t.len() implies is_ws(#[trigger] t[i]) by {
            assert(t[i] == s@[a + i]);
        }
        if b > a {
            assert(t[b - a - 1] == s@[b - 1]);
        }
        lemma_trim_end(t, b - a);
        assert(t.subrange(0, b - a) =~= s@.subrange(a as int, b as int));
    }
    (a, b)
}

/// `s` without leading and trailing white space.
pub fn trim_str(s: &str) -> (r: String)
    ensures
        r@ == trim(s@),
{
    let v = chars_of(s);
    let (a, b) = trim_bounds(&v);
    s.substring_char(a, b).to_string()
}


/// The decimal digit character for `d < 10`.
pub open spec fn digit_char(d: nat) -> char {
    (48 + d) as char
}

/// The decimal rendering of `n`, without leading zeros.
pub open spec fn decimal(n: nat) -> Seq<char>
    decreases n,
{
    if n < 10 {
        seq![digit_char(n)]
    } else {
        decimal(n / 10).push(digit_char(n % 10))
    }
}

/// The decimal rendering of `x`, with a leading `-` when it is negative.
pub open spec fn signed_decimal(x: int) -> Seq<char> {
    if x < 0 {
        seq!['-'] + decimal((-x) as nat)
    } else {
        decimal(x as nat)
    }
}

fn digit_str(d: u64) -> (r: &'static str)
    requires
        d < 10,
    ensures
        r@ == seq![digit_char(d as nat)],
{
    match d {
        0 => { proof { reveal_strlit("0"); } "0" },
        1 => { proof { reveal_strlit("1"); } "1" },
        2 => { proof { reveal_strlit("2"); } "2" },
        3 => { proof { reveal_strlit("3"); } "3" },
        4 => { proof { reveal_strlit("4"); } "4" },
        5 => { proof { reveal_strlit("5"); } "5" },
        6 => { proof { reveal_strlit("6"); } "6" },
        7 => { proof { reveal_strlit("7"); } "7" },
        8 => { proof { reveal_strlit("8"); } "8" },
        _ => { proof { reveal_strlit("9"); } "9" },
    }
}

/// The decimal rendering of `n`, as `n.to_string()` gives it.
pub fn decimal_string(n: u64) -> (r: String)
    ensures
        r@ == decimal(n as nat),
    decreases n,
{
    if n < 10 {
        digit_str(n).to_string()
    } else {
        let head = decimal_string(n / 10);
        head.concat(digit_str(n % 10))
    }
}

/// The decimal rendering of `x`, as `x.to_string()` gives it.
pub fn signed_decimal_string(x: i32) -> (r: String)
    ensures
        r@ == signed_decimal(x as int),
{
    if x < 0 {
        proof {
            reveal_strlit("-");
        }
        let wide: i64 = x as i64;
        let digits = decimal_string((-wide) as u64);
        let mut out = "-".to_string();
        out.append(digits.as_str());
        out
    } else {
        decimal_string(x as u64)
    }
}


/// The strings of `list` with `sep` between each two.
pub open spec fn join(list: Seq<Seq<char>>, sep: Seq<char>) -> Seq<char>
    decreases list.len(),
{
    if list.len() == 0 {
        seq![]
    } else if list.len() == 1 {
        list[0]
    } else {
        join(list.drop_last(), sep) + sep + list.last()
    }
}

/// `list` joined with `sep`, as `slice::join` gives it.
pub fn join_strings(list: &[String], sep: &str) -> (r: String)
    ensures
        r@ == join(crate::order::views(list@), sep@),
{
    let ghost v = crate::order::views(list@);
    let mut r = String::new();
    for i in 0..list.len()
        invariant
            v == crate::order::views(list@),
            r@ == join(v.take(i as int), sep@),
    {
        if i != 0 {
            r.append(sep);
        }
        r.append(list[i].as_str());
        proof {
            assert(v.take(i + 1).drop_last() =~= v.take(i as int));
            if i == 0 {
                assert(v.take(1) =~= seq![v[0]]);
            }
        }
    }
    assert(v.take(list@.len() as int) =~= v);
    r
}


/// The first index at or after `k` where `p` occurs in `s`.
pub open spec fn first_at_or_after(s: Seq<char>, p: Seq<char>, k: int) -> Option<int>
    decreases s.len() + 1 - k,
{
    if k < 0 || k > s.len() {
        None
    } else if occurs_at(s, k, p) {
        Some(k)
    } else {
        first_at_or_after(s, p, k + 1)
    }
}

proof fn lemma_first_at_or_after(s: Seq<char>, p: Seq<char>, k: int, r: Option<int>)
    requires
        0 <= k,
        r matches Some(i) ==> k <= i && occurs_at(s, i, p) && forall|j: int|
            k <= j < i ==> !occurs_at(s, j, p),
        r is None ==> forall|j: int| k <= j ==> !occurs_at(s, j, p),
    ensures
        first_at_or_after(s, p, k) == r,
    decreases s.len() + 1 - k,
{
    if k <= s.len() && !occurs_at(s, k, p) {
        lemma_first_at_or_after(s, p, k + 1, r);
    } else if k > s.len() {
        if let Some(i) = r {
            assert(!occurs_at(s, i, p));
        }
    }
}

/// [`find_from`] stated over [`first_at_or_after`].
pub fn find_first_from(s: &Vec<char>, p: &Vec<char>, from: usize) -> (r: Option<usize>)
    ensures
        match r {
            Some(i) => first_at_or_after(s@, p@, from as int) == Some(i as int) && from <= i
                && i <= s.len() && occurs_at(s@, i as int, p@),
            None => first_at_or_after(s@, p@, from as int) is None,
        },
{
    let r = find_from(s, p, from);
    proof {
        let g: Option<int> = match r {
            Some(i) => Some(i as int),
            None => None,
        };
        lemma_first_at_or_after(s@, p@, from as int, g);
    }
    r
}

/// The pieces of `s` from index `pos` on, split at each occurrence of the
/// non-empty `sep`, as `str::split` gives them.
pub open spec fn split_from(s: Seq<char>, sep: Seq<char>, pos: int) -> Seq<Seq<char>>
    decreases s.len() - pos,
{
    if pos < 0 || pos > s.len() || sep.len() == 0 {
        seq![]
    } else {
        match first_at_or_after(s, sep, pos) {
            Some(i) => if i >= pos && i + sep.len() <= s.len() {
                seq![s.subrange(pos, i)] + split_from(s, sep, i + sep.len())
            } else {
                seq![]
            },
            None => seq![s.subrange(pos, s.len() as int)],
        }
    }
}

/// The pieces of `s` split at each occurrence of the non-empty `sep`.
pub open spec fn split_on(s: Seq<char>, sep: Seq<char>) -> Seq<Seq<char>> {
    split_from(s, sep, 0)
}

/// `text` split at each occurrence of the non-empty `sep`.
pub fn split_str(text: &str, sep: &str) -> (r: Vec<String>)
    requires
        sep@.len() > 0,
    ensures
        crate::order::views(r@) == split_on(text@, sep@),
{
    let s = chars_of(text);
    let p = chars_of(sep);
    let mut out: Vec<String> = Vec::new();
    let mut pos: usize = 0;
    loop
        invariant
            s@ == text@,
            p@ == sep@,
            p@.len() > 0,
            pos <= s.len(),
            crate::order::views(out@) + split_from(s@, p@, pos as int) == split_on(s@, p@),
        decreases s.len() - pos,
    {
        match find_first_from(&s, &p, pos) {
            Some(i) => {
                let piece = text.substring_char(pos, i).to_string();
                let ghost before = crate::order::views(out@);
                out.push(piece);
                proof {
                    assert(crate::order::views(out@) =~= before.push(s@.subrange(pos as int, i as int)));
                    assert(split_from(s@, p@, pos as int) == seq![s@.subrange(pos as int, i as int)]
                        + split_from(s@, p@, i + p@.len()));
                    assert(crate::order::views(out@) + split_from(s@, p@, i + p@.len()) =~= before
                        + split_from(s@, p@, pos as int));
                }
                pos = i + p.len();
            },
            None => {
                let piece = text.substring_char(pos, s.len()).to_string();
                let ghost before = crate::order::views(out@);
                out.push(piece);
                proof {
                    assert(crate::order::views(out@) =~= before + split_from(s@, p@, pos as int));
                }
                return out;
            },
        }
    }
}

} // verus!
