//! Shortening of source paths in backtraces and log locations.
//!
//! A path inside the current directory becomes relative to it; a path into
//! a crate of the package registry, `<prefix>/registry/src/<index>/<crate>-<version>/<rel>`,
//! becomes `<crate>:<rel>`; any other path stays as it is.
use vstd::prelude::*;

verus! {

/// The part of a path that leads into the package registry's sources.
pub open spec fn registry_marker() -> Seq<char> {
    seq!['/', 'r', 'e', 'g', 'i', 's', 't', 'r', 'y', '/', 's', 'r', 'c', '/']
}

/// The first index from `i` on at which `pat` occurs in `h`.
pub open spec fn find_spec(h: Seq<char>, pat: Seq<char>, i: int) -> Option<int>
    decreases h.len() + 1 - i,
{
    if i < 0 || i + pat.len() > h.len() {
        None
    } else if h.subrange(i, i + pat.len()) == pat {
        Some(i)
    } else {
        find_spec(h, pat, i + 1)
    }
}

/// The last index in `[lo, hi)` that holds `c`.
pub open spec fn rfind_spec(h: Seq<char>, c: char, lo: int, hi: int) -> Option<int>
    decreases hi - lo,
{
    if hi <= lo {
        None
    } else if h[hi - 1] == c {
        Some(hi - 1)
    } else {
        rfind_spec(h, c, lo, hi - 1)
    }
}

/// Length of the first `n` characters of `s` without their trailing slashes.
pub open spec fn trimmed_len(s: Seq<char>, n: int) -> int
    decreases n,
{
    if n > 0 && s[n - 1] == '/' {
        trimmed_len(s, n - 1)
    } else {
        n
    }
}

/// The first index from `i` on that does not hold a slash (the length where none).
pub open spec fn skip_slashes(p: Seq<char>, i: int) -> int
    decreases p.len() - i,
{
    if 0 <= i < p.len() && p[i] == '/' {
        skip_slashes(p, i + 1)
    } else {
        i
    }
}

/// What remains of `p` below the absolute directory `dir`: `p` must start
/// with `dir` (trailing slashes of `dir` aside) followed by a slash; the
/// slashes that follow are dropped, and something must remain.
pub open spec fn strip_dir(p: Seq<char>, dir: Seq<char>) -> Option<Seq<char>> {
    if dir.len() > 0 && dir[0] == '/' {
        let d = trimmed_len(dir, dir.len() as int);
        let k = skip_slashes(p, d);
        if d < p.len() && p.subrange(0, d) == dir.subrange(0, d) && p[d] == '/' && k < p.len() {
            Some(p.subrange(k, p.len() as int))
        } else {
            None
        }
    } else {
        None
    }
}

proof fn lemma_trimmed_len(s: Seq<char>, n: int)
    requires
        0 <= n <= s.len(),
    ensures
        0 <= trimmed_len(s, n) <= n,
    decreases n,
{
    if n > 0 && s[n - 1] == '/' {
        lemma_trimmed_len(s, n - 1);
    }
}

proof fn lemma_skip_slashes(p: Seq<char>, i: int)
    requires
        0 <= i,
    ensures
        i <= skip_slashes(p, i),
        skip_slashes(p, i) < p.len() ==> p[skip_slashes(p, i)] != '/',
        i <= p.len() ==> skip_slashes(p, i) <= p.len(),
    decreases p.len() - i,
{
    if 0 <= i < p.len() && p[i] == '/' {
        lemma_skip_slashes(p, i + 1);
    }
}

/// For an absolute path into the registry, where the crate's name starts,
/// where the dash before its version stands, and where the path inside the
/// crate starts.
pub open spec fn registry_parts(p: Seq<char>) -> Option<(int, int, int)> {
    if p.len() == 0 || p[0] != '/' {
        None
    } else {
        match find_spec(p, registry_marker(), 0) {
            None => None,
            Some(m) => {
                let index_start = m + registry_marker().len();
                match find_spec(p, seq!['/'], index_start) {
                    None => None,
                    Some(e1) => {
                        let crate_start = e1 + 1;
                        match find_spec(p, seq!['/'], crate_start) {
                            None => None,
                            Some(e2) => match rfind_spec(p, '-', crate_start, e2) {
                                None => None,
                                Some(d) => if e1 == index_start || d == crate_start || d + 1 == e2
                                    || e2 + 1 >= p.len() {
                                    None
                                } else {
                                    Some((crate_start, d, e2 + 1))
                                },
                            },
                        }
                    },
                }
            },
        }
    }
}

/// The shortened form of `p`, seen from the directory `cwd`.
pub open spec fn shorten_spec(p: Seq<char>, cwd: Seq<char>) -> Seq<char> {
    match strip_dir(p, cwd) {
        Some(rel) => rel,
        None => match registry_parts(p) {
            Some((c, d, r)) => p.subrange(c, d) + seq![':'] + p.subrange(r, p.len() as int),
            None => p,
        },
    }
}

/// `p` relative to `cwd` where it lies inside it, else unchanged.
pub open spec fn relative_spec(p: Seq<char>, cwd: Seq<char>) -> Seq<char> {
    match strip_dir(p, cwd) {
        Some(rel) => rel,
        None => p,
    }
}

pub(crate) fn chars_of(s: &str) -> (r: Vec<char>)
    ensures
        r@ == s@,
{
    let n = s.unicode_len();
    let mut r: Vec<char> = Vec::new();
    let mut i: usize = 0;
    while i < n
        invariant
            n == s@.len(),
            i <= n,
            r@ == s@.subrange(0, i as int),
        decreases n - i,
    {
        r.push(s.get_char(i));
        assert(r@ == s@.subrange(0, i + 1));
        i += 1;
    }
    assert(s@.subrange(0, n as int) == s@);
    r
}

pub(crate) fn matches_at(h: &Vec<char>, pat: &Vec<char>, i: usize) -> (r: bool)
    requires
        i + pat@.len() <= h@.len(),
    ensures
        r == (h@.subrange(i as int, i + pat@.len()) == pat@),
{
    let hn = h.len();
    let mut k: usize = 0;
    while k < pat.len()
        invariant
            hn == h@.len(),
            k <= pat@.len(),
            i + pat@.len() <= h@.len(),
            h@.subrange(i as int, i + k) == pat@.subrange(0, k as int),
        decreases pat@.len() - k,
    {
        assert(i + k < h@.len());
        if h[i + k] != pat[k] {
            assert(h@.subrange(i as int, i + pat@.len())[k as int] != pat@[k as int]);
            return false;
        }
        assert(h@.subrange(i as int, i + k + 1) == h@.subrange(i as int, i + k).push(h@[i + k]));
        assert(pat@.subrange(0, k + 1) == pat@.subrange(0, k as int).push(pat@[k as int]));
        k += 1;
    }
    assert(pat@.subrange(0, pat@.len() as int) == pat@);
    true
}

pub(crate) fn find_from(h: &Vec<char>, pat: &Vec<char>, from: usize) -> (r: Option<usize>)
    ensures
        r == (match find_spec(h@, pat@, from as int) {
            Some(k) => Some(k as usize),
            None => None::<usize>,
        }),
        r matches Some(k) ==> from <= k && k + pat@.len() <= h@.len(),
        find_spec(h@, pat@, from as int) matches Some(k) ==> from <= k && k + pat@.len() <= h@.len(),
{
    proof {
        lemma_find_bounds(h@, pat@, from as int);
    }
    if pat.len() > h.len() || from > h.len() - pat.len() {
        proof {
            lemma_find_bounds(h@, pat@, from as int);
        }
        return None;
    }
    let last = h.len() - pat.len();
    let mut i = from;
    while i <= last
        invariant
            from <= i <= last + 1,
            last + pat@.len() == h@.len(),
            find_spec(h@, pat@, from as int) == find_spec(h@, pat@, i as int),
        decreases last + 1 - i,
    {
        if matches_at(h, pat, i) {
            proof {
                lemma_find_bounds(h@, pat@, i as int);
            }
            return Some(i);
        }
        if i == last {
            return None;
        }
        i += 1;
    }
    None
}

proof fn lemma_find_bounds(h: Seq<char>, pat: Seq<char>, i: int)
    ensures
        find_spec(h, pat, i) matches Some(k) ==> i <= k && k + pat.len() <= h.len() && h.subrange(
            k,
            k + pat.len(),
        ) == pat,
        i >= 0 && i + pat.len() > h.len() ==> find_spec(h, pat, i) is None,
    decreases h.len() + 1 - i,
{
    if i >= 0 && i + pat.len() <= h.len() && h.subrange(i, i + pat.len()) != pat {
        lemma_find_bounds(h, pat, i + 1);
    }
}

fn rfind_char(h: &Vec<char>, c: char, lo: usize, hi: usize) -> (r: Option<usize>)
    requires
        hi <= h@.len(),
    ensures
        r == (match rfind_spec(h@, c, lo as int, hi as int) {
            Some(k) => Some(k as usize),
            None => None::<usize>,
        }),
        rfind_spec(h@, c, lo as int, hi as int) matches Some(k) ==> lo <= k < hi,
{
    proof {
        lemma_rfind_bounds(h@, c, lo as int, hi as int);
    }
    let mut j = hi;
    while j > lo
        invariant
            j <= hi,
            hi <= h@.len(),
            rfind_spec(h@, c, lo as int, hi as int) == rfind_spec(h@, c, lo as int, j as int),
        decreases j,
    {
        if h[j - 1] == c {
            return Some(j - 1);
        }
        j -= 1;
    }
    None
}

fn strip_dir_at(p: &Vec<char>, dir: &Vec<char>) -> (r: Option<usize>)
    ensures
        r is None <==> strip_dir(p@, dir@) is None,
        r matches Some(k) ==> k <= p@.len() && strip_dir(p@, dir@) == Some(
            p@.subrange(k as int, p@.len() as int),
        ),
{
    let pn = p.len();
    if dir.len() == 0 || dir[0] != '/' {
        return None;
    }
    let mut d = dir.len();
    while d > 0 && dir[d - 1] == '/'
        invariant
            d <= dir@.len(),
            trimmed_len(dir@, dir@.len() as int) == trimmed_len(dir@, d as int),
        decreases d,
    {
        d -= 1;
    }
    assert(d == trimmed_len(dir@, dir@.len() as int));
    if d >= pn {
        return None;
    }
    let mut i: usize = 0;
    while i < d
        invariant
            i <= d,
            d <= dir@.len(),
            d < p@.len(),
            d == trimmed_len(dir@, dir@.len() as int),
            dir@.len() > 0 && dir@[0] == '/',
            p@.subrange(0, i as int) == dir@.subrange(0, i as int),
        decreases d - i,
    {
        if p[i] != dir[i] {
            assert(p@.subrange(0, d as int)[i as int] != dir@.subrange(0, d as int)[i as int]);
            return None;
        }
        assert(p@.subrange(0, i + 1) == p@.subrange(0, i as int).push(p@[i as int]));
        assert(dir@.subrange(0, i + 1) == dir@.subrange(0, i as int).push(dir@[i as int]));
        i += 1;
    }
    if p[d] != '/' {
        return None;
    }
    let mut k = d;
    while k < pn && p[k] == '/'
        invariant
            d <= k <= pn,
            pn == p@.len(),
            d == trimmed_len(dir@, dir@.len() as int),
            dir@.len() > 0 && dir@[0] == '/',
            p@.subrange(0, d as int) == dir@.subrange(0, d as int),
            p@[d as int] == '/',
            skip_slashes(p@, d as int) == skip_slashes(p@, k as int),
        decreases pn - k,
    {
        k += 1;
    }
    if k >= pn {
        return None;
    }
    Some(k)
}

fn registry_parts_of(p: &Vec<char>) -> (r: Option<(usize, usize, usize)>)
    ensures
        r == (match registry_parts(p@) {
            Some((c, d, s)) => Some((c as usize, d as usize, s as usize)),
            None => None::<(usize, usize, usize)>,
        }),
        r matches Some((c, d, s)) ==> c < d < s <= p@.len(),
        registry_parts(p@) matches Some((c, d, s)) ==> 0 <= c < d < s <= p@.len(),
{
    if p.len() == 0 || p[0] != '/' {
        return None;
    }
    let marker = vec!['/', 'r', 'e', 'g', 'i', 's', 't', 'r', 'y', '/', 's', 'r', 'c', '/'];
    assert(marker@ == registry_marker());
    let slash = vec!['/'];
    assert(slash@ == seq!['/']);
    let m = match find_from(p, &marker, 0) {
        Some(m) => m,
        None => return None,
    };
    let index_start = m + marker.len();
    assert(find_spec(p@, registry_marker(), 0) == Some(m as int));
    assert(index_start == m + registry_marker().len());
    let e1 = match find_from(p, &slash, index_start) {
        Some(e) => e,
        None => {
            assert(find_spec(p@, seq!['/'], index_start as int) is None);
            return None;
        },
    };
    let crate_start = e1 + 1;
    let e2 = match find_from(p, &slash, crate_start) {
        Some(e) => e,
        None => return None,
    };
    let d = match rfind_char(p, '-', crate_start, e2) {
        Some(d) => d,
        None => return None,
    };
    proof {
        lemma_rfind_bounds(p@, '-', crate_start as int, e2 as int);
    }
    if e1 == index_start || d == crate_start || d + 1 == e2 || e2 + 1 >= p.len() {
        return None;
    }
    assert(registry_parts(p@) == Some((crate_start as int, d as int, e2 + 1)));
    Some((crate_start, d, e2 + 1))
}

proof fn lemma_rfind_bounds(h: Seq<char>, c: char, lo: int, hi: int)
    ensures
        rfind_spec(h, c, lo, hi) matches Some(k) ==> lo <= k < hi,
    decreases hi - lo,
{
    if hi > lo {
        lemma_rfind_bounds(h, c, lo, hi - 1);
    }
}

/// Shortens a source path for display, seen from the directory `cwd`.
pub fn shorten_path(p: &str, cwd: &str) -> (r: String)
    ensures
        r@ == shorten_spec(p@, cwd@),
{
    let pc = chars_of(p);
    let dc = chars_of(cwd);
    let n = pc.len();
    if let Some(k) = strip_dir_at(&pc, &dc) {
        return String::from_str(p.substring_char(k, n));
    }
    match registry_parts_of(&pc) {
        Some((c, d, s)) => {
            let name = String::from_str(p.substring_char(c, d));
            let with_colon = name.concat(":");
            proof {
                reveal_strlit(":");
                assert(":"@ =~= seq![':']);
            }
            let r = with_colon.concat(p.substring_char(s, n));
            assert(r@ == p@.subrange(c as int, d as int) + seq![':'] + p@.subrange(s as int, n as int));
            r
        },
        None => String::from_str(p),
    }
}

/// `p` relative to the directory `cwd` where it lies inside it, else unchanged.
pub fn relative_path(p: &str, cwd: &str) -> (r: String)
    ensures
        r@ == relative_spec(p@, cwd@),
{
    let pc = chars_of(p);
    let dc = chars_of(cwd);
    let n = pc.len();
    if let Some(k) = strip_dir_at(&pc, &dc) {
        return String::from_str(p.substring_char(k, n));
    }
    String::from_str(p)
}


proof fn lemma_find_first(h: Seq<char>, pat: Seq<char>, i: int)
    requires
        0 <= i,
    ensures
        find_spec(h, pat, i) matches Some(k) ==> forall|j: int|
            i <= j < k ==> #[trigger] h.subrange(j, j + pat.len()) != pat,
    decreases h.len() + 1 - i,
{
    if i + pat.len() <= h.len() && h.subrange(i, i + pat.len()) != pat {
        lemma_find_first(h, pat, i + 1);
    }
}

/// A shortened path does not start with a slash, unless shortening left it unchanged.
proof fn lemma_shortened_is_relative(p: Seq<char>, cwd: Seq<char>)
    ensures
        shorten_spec(p, cwd) != p ==> shorten_spec(p, cwd).len() > 0 && shorten_spec(p, cwd)[0]
            != '/',
{
    match strip_dir(p, cwd) {
        Some(rel) => {
            let d = trimmed_len(cwd, cwd.len() as int);
            lemma_trimmed_len(cwd, cwd.len() as int);
            lemma_skip_slashes(p, d);
            assert(rel[0] == p[skip_slashes(p, d)]);
        },
        None => match registry_parts(p) {
            Some((c, d, r)) => {
                let m = find_spec(p, registry_marker(), 0)->Some_0;
                let e1 = find_spec(p, seq!['/'], m + registry_marker().len())->Some_0;
                lemma_find_bounds(p, registry_marker(), 0);
                lemma_find_bounds(p, seq!['/'], m + registry_marker().len());
                lemma_find_first(p, seq!['/'], c);
                lemma_rfind_bounds(p, '-', c, find_spec(p, seq!['/'], c)->Some_0);
                if p[c] == '/' {
                    assert(p.subrange(c, c + 1) =~= seq!['/']);
                }
                let q = p.subrange(c, d) + seq![':'] + p.subrange(r, p.len() as int);
                assert(q[0] == p[c]);
            },
            None => {},
        },
    }
}

/// Shortening is idempotent: a shortened path shortens to itself.
pub proof fn lemma_shorten_idempotent(p: Seq<char>, cwd: Seq<char>)
    ensures
        shorten_spec(shorten_spec(p, cwd), cwd) == shorten_spec(p, cwd),
{
    lemma_shortened_is_relative(p, cwd);
    let q = shorten_spec(p, cwd);
    if q != p {
        assert(strip_dir(q, cwd) is None) by {
            if cwd.len() > 0 && cwd[0] == '/' {
                let d = trimmed_len(cwd, cwd.len() as int);
                lemma_trimmed_len(cwd, cwd.len() as int);
                if d < q.len() && q.subrange(0, d) == cwd.subrange(0, d) && q[d] == '/' {
                    if d > 0 {
                        assert(q[0] == q.subrange(0, d)[0]);
                        assert(cwd[0] == cwd.subrange(0, d)[0]);
                    }
                }
            }
        }
        assert(registry_parts(q) is None);
    }
}

} // verus!
