use vstd::prelude::*;
use vstd::string::*;

verus! {

/// Unicode `White_Space`, the set that `char::is_whitespace` and `str::trim` use.
pub open spec fn is_space(c: char) -> bool {
    ('\u{9}' <= c && c <= '\u{d}') || c == ' ' || c == '\u{85}' || c == '\u{a0}' || c
        == '\u{1680}' || ('\u{2000}' <= c && c <= '\u{200a}') || c == '\u{2028}' || c
        == '\u{2029}' || c == '\u{202f}' || c == '\u{205f}' || c == '\u{3000}'
}

pub open spec fn trim_left(s: Seq<char>) -> Seq<char>
    decreases s.len(),
{
    if s.len() > 0 && is_space(s[0]) {
        trim_left(s.drop_first())
    } else {
        s
    }
}

pub open spec fn trim_right(s: Seq<char>) -> Seq<char>
    decreases s.len(),
{
    if s.len() > 0 && is_space(s.last()) {
        trim_right(s.drop_last())
    } else {
        s
    }
}

/// `s` without leading and trailing white space.
pub open spec fn trim_spec(s: Seq<char>) -> Seq<char> {
    trim_right(trim_left(s))
}

/// `s` without its first `n` characters; empty when it has fewer.
pub open spec fn drop_n(s: Seq<char>, n: int) -> Seq<char> {
    if n <= s.len() {
        s.skip(n)
    } else {
        Seq::empty()
    }
}

pub open spec fn starts_with_spec(s: Seq<char>, p: Seq<char>) -> bool {
    p.len() <= s.len() && s.subrange(0, p.len() as int) == p
}

/// `needle` occurs in `hay` at position `i`.
pub open spec fn occurs_at(hay: Seq<char>, needle: Seq<char>, i: int) -> bool {
    0 <= i && i + needle.len() <= hay.len() && hay.subrange(i, i + needle.len()) == needle
}

pub open spec fn contains_spec(hay: Seq<char>, needle: Seq<char>) -> bool {
    exists|i: int| occurs_at(hay, needle, i)
}

/// Index of the first `c` in `s`, if any.
pub open spec fn first_index_of(s: Seq<char>, c: char) -> Option<int>
    decreases s.len(),
{
    if s.len() == 0 {
        None
    } else if s[0] == c {
        Some(0)
    } else {
        match first_index_of(s.drop_first(), c) {
            Some(i) => Some(i + 1),
            None => None,
        }
    }
}

/// What `str::to_lowercase` makes of a text.
pub uninterp spec fn lower_of(s: Seq<char>) -> Seq<char>;

/// Relies on `str::to_lowercase`: the result is a function of the characters alone.
#[verifier::external_body]
pub(crate) fn lowercase(s: &str) -> (r: String)
    ensures
        r@ == lower_of(s@),
        s@.len() == 0 ==> r@.len() == 0,
{
    s.to_lowercase()
}

pub fn is_whitespace(c: char) -> (r: bool)
    ensures
        r == is_space(c),
{
    ('\u{9}' <= c && c <= '\u{d}') || c == ' ' || c == '\u{85}' || c == '\u{a0}' || c
        == '\u{1680}' || ('\u{2000}' <= c && c <= '\u{200a}') || c == '\u{2028}' || c
        == '\u{2029}' || c == '\u{202f}' || c == '\u{205f}' || c == '\u{3000}'
}

proof fn lemma_trim_left_step(s: Seq<char>, i: int)
    requires
        0 <= i < s.len(),
        is_space(s[i]),
    ensures
        trim_left(s.subrange(i, s.len() as int)) == trim_left(s.subrange(i + 1, s.len() as int)),
{
    let t = s.subrange(i, s.len() as int);
    assert(t.drop_first() =~= s.subrange(i + 1, s.len() as int));
}

proof fn lemma_trim_right_step(s: Seq<char>, a: int, j: int)
    requires
        0 <= a < j <= s.len(),
        is_space(s[j - 1]),
    ensures
        trim_right(s.subrange(a, j)) == trim_right(s.subrange(a, j - 1)),
{
    let t = s.subrange(a, j);
    assert(t.drop_last() =~= s.subrange(a, j - 1));
}

/// Copy of `s` without leading and trailing white space.
pub fn trim(s: &str) -> (r: String)
    ensures
        r@ == trim_spec(s@),
{
    let n = s.unicode_len();
    let mut i: usize = 0;
    proof {
        assert(s@.subrange(0, n as int) =~= s@);
    }
    while i < n && is_whitespace(s.get_char(i))
        invariant
            n == s@.len(),
            i <= n,
            trim_left(s@) == trim_left(s@.subrange(i as int, n as int)),
        decreases n - i,
    {
        proof {
            lemma_trim_left_step(s@, i as int);
        }
        i = i + 1;
    }
    let ghost left = s@.subrange(i as int, n as int);
    proof {
        assert(left.len() == 0 || !is_space(left[0]));
    }
    let mut j: usize = n;
    proof {
        assert(s@.subrange(i as int, j as int) =~= left);
    }
    while j > i && is_whitespace(s.get_char(j - 1))
        invariant
            n == s@.len(),
            i <= j <= n,
            left == s@.subrange(i as int, n as int),
            trim_left(s@) == left,
            trim_right(left) == trim_right(s@.subrange(i as int, j as int)),
        decreases j,
    {
        proof {
            lemma_trim_right_step(s@, i as int, j as int);
        }
        j = j - 1;
    }
    let r = s.substring_char(i, j);
    proof {
        let t = s@.subrange(i as int, j as int);
        assert(t.len() == 0 || !is_space(t.last()));
    }
    String::from_str(r)
}

/// Whether `s` begins with `p`.
pub fn starts_with(s: &str, p: &str) -> (r: bool)
    ensures
        r == starts_with_spec(s@, p@),
{
    let n = s.unicode_len();
    let m = p.unicode_len();
    if m > n {
        return false;
    }
    let mut k: usize = 0;
    while k < m
        invariant
            n == s@.len(),
            m == p@.len(),
            m <= n,
            k <= m,
            forall|q: int| 0 <= q < k ==> s@[q] == p@[q],
        decreases m - k,
    {
        if s.get_char(k) != p.get_char(k) {
            proof {
                assert(s@.subrange(0, m as int)[k as int] != p@[k as int]);
            }
            return false;
        }
        k = k + 1;
    }
    proof {
        assert(s@.subrange(0, m as int) =~= p@);
    }
    true
}

/// The characters of `s`, one per element.
pub fn chars_of(s: &str) -> (r: Vec<char>)
    ensures
        r@ == s@,
{
    let n = s.unicode_len();
    let mut v: Vec<char> = Vec::with_capacity(n);
    let mut k: usize = 0;
    while k < n
        invariant
            n == s@.len(),
            k <= n,
            v@ == s@.subrange(0, k as int),
        decreases n - k,
    {
        v.push(s.get_char(k));
        k = k + 1;
        proof {
            assert(v@ =~= s@.subrange(0, k as int));
        }
    }
    proof {
        assert(s@.subrange(0, n as int) =~= s@);
    }
    v
}

/// Whether `needle` occurs in `hay` as a contiguous run.
pub fn contains(hay: &str, needle: &str) -> (r: bool)
    ensures
        r == contains_spec(hay@, needle@),
{
    let h = chars_of(hay);
    let nd = chars_of(needle);
    let n = h.len();
    let m = nd.len();
    if m > n {
        proof {
            assert forall|i: int| !occurs_at(hay@, needle@, i) by {}
        }
        return false;
    }
    let mut i: usize = 0;
    while i <= n - m
        invariant
            h@ == hay@,
            nd@ == needle@,
            n == h@.len(),
            m == nd@.len(),
            m <= n,
            i <= n - m + 1,
            forall|q: int| 0 <= q < i ==> !occurs_at(hay@, needle@, q),
        decreases n - m + 1 - i,
    {
        let mut k: usize = 0;
        let mut same = true;
        while k < m
            invariant
                h@ == hay@,
                nd@ == needle@,
                n == h@.len(),
                m == nd@.len(),
                i + m <= n,
                k <= m,
                same == (forall|q: int| 0 <= q < k ==> h@[i + q] == nd@[q]),
            decreases m - k,
        {
            if h[i + k] != nd[k] {
                same = false;
            }
            k = k + 1;
        }
        if same {
            proof {
                assert(hay@.subrange(i as int, i + m) =~= needle@);
                assert(occurs_at(hay@, needle@, i as int));
            }
            return true;
        }
        proof {
            assert(!(forall|q: int| 0 <= q < m ==> h@[i + q] == nd@[q]));
            let q = choose|q: int| 0 <= q < m && h@[i + q] != nd@[q];
            assert(hay@.subrange(i as int, i + m)[q] != needle@[q]);
        }
        i = i + 1;
    }
    false
}

/// Position of the first `c` in `s`.
pub fn find_char(s: &str, c: char) -> (r: Option<usize>)
    ensures
        r matches Some(k) ==> first_index_of(s@, c) == Some(k as int),
        r is None ==> first_index_of(s@, c) is None,
{
    let n = s.unicode_len();
    let mut k: usize = 0;
    while k < n
        invariant
            n == s@.len(),
            k <= n,
            forall|q: int| 0 <= q < k ==> s@[q] != c,
        decreases n - k,
    {
        if s.get_char(k) == c {
            proof {
                lemma_first_index(s@, c, k as int);
            }
            return Some(k);
        }
        k = k + 1;
    }
    proof {
        lemma_no_index(s@, c);
    }
    None
}

proof fn lemma_first_index(s: Seq<char>, c: char, k: int)
    requires
        0 <= k < s.len(),
        s[k] == c,
        forall|q: int| 0 <= q < k ==> s[q] != c,
    ensures
        first_index_of(s, c) == Some(k),
    decreases k,
{
    if k > 0 {
        lemma_first_index(s.drop_first(), c, k - 1);
    }
}

proof fn lemma_no_index(s: Seq<char>, c: char)
    requires
        forall|q: int| 0 <= q < s.len() ==> s[q] != c,
    ensures
        first_index_of(s, c) is None,
    decreases s.len(),
{
    if s.len() > 0 {
        lemma_no_index(s.drop_first(), c);
    }
}

/// The characters of `s` from position `from` on, or nothing when it is shorter.
pub fn tail_from(s: &str, from: usize) -> (r: String)
    ensures
        r@ == drop_n(s@, from as int),
{
    let n = s.unicode_len();
    if from <= n {
        String::from_str(s.substring_char(from, n))
    } else {
        String::new()
    }
}

/// `s` with every occurrence of the pattern `p` replaced by `r`, scanning from
/// the left, matches not overlapping. An empty pattern occurs before every
/// character and at the end.
pub open spec fn replace_spec(s: Seq<char>, p: Seq<char>, r: Seq<char>) -> Seq<char>
    decreases s.len(),
{
    if p.len() == 0 {
        if s.len() == 0 {
            r
        } else {
            r + seq![s[0]] + replace_spec(s.skip(1), p, r)
        }
    } else if s.len() < p.len() {
        s
    } else if s.take(p.len() as int) == p {
        r + replace_spec(s.skip(p.len() as int), p, r)
    } else {
        seq![s[0]] + replace_spec(s.skip(1), p, r)
    }
}

proof fn lemma_replace_short(s: Seq<char>, p: Seq<char>, r: Seq<char>)
    requires
        s.len() < p.len(),
    ensures
        replace_spec(s, p, r) == s,
{
}

/// `rep` before every character of `s` and at its end.
fn interleave(s: &str, rep: &str) -> (r: String)
    ensures
        r@ == replace_spec(s@, Seq::empty(), rep@),
{
    let n = s.unicode_len();
    let mut out = String::new();
    let mut i: usize = 0;
    proof {
        assert(s@.skip(0) =~= s@);
        assert(out@ + replace_spec(s@.skip(0), Seq::empty(), rep@) =~= replace_spec(
            s@,
            Seq::empty(),
            rep@,
        ));
    }
    while i < n
        invariant
            n == s@.len(),
            i <= n,
            replace_spec(s@, Seq::empty(), rep@) == out@ + replace_spec(
                s@.skip(i as int),
                Seq::empty(),
                rep@,
            ),
        decreases n - i,
    {
        let ghost before = out@;
        out.append(rep);
        out.append(s.substring_char(i, i + 1));
        proof {
            let rest = s@.skip(i as int);
            assert(rest.skip(1) =~= s@.skip(i + 1));
            assert(s@.subrange(i as int, i + 1) =~= seq![rest[0]]);
            assert(out@ =~= before + rep@ + seq![rest[0]]);
            assert(replace_spec(rest, Seq::empty(), rep@) =~= rep@ + seq![rest[0]] + replace_spec(
                s@.skip(i + 1),
                Seq::empty(),
                rep@,
            ));
        }
        i = i + 1;
    }
    proof {
        assert(s@.skip(n as int) =~= Seq::<char>::empty());
    }
    out.append(rep);
    out
}

/// Replaces every occurrence of `pat` in `s` by `rep`.
pub fn replace_all(s: &str, pat: &str, rep: &str) -> (r: String)
    ensures
        r@ == replace_spec(s@, pat@, rep@),
{
    if pat.unicode_len() == 0 {
        proof {
            assert(pat@ =~= Seq::<char>::empty());
        }
        return interleave(s, rep);
    }
    let h = chars_of(s);
    let pc = chars_of(pat);
    let n = h.len();
    let m = pc.len();
    let mut out = String::new();
    let mut last: usize = 0;
    let mut i: usize = 0;
    proof {
        assert(s@.skip(0) =~= s@);
        assert(out@ + s@.subrange(0, 0) =~= Seq::<char>::empty());
    }
    while m <= n - i
        invariant
            h@ == s@,
            pc@ == pat@,
            n == s@.len(),
            m == pat@.len(),
            m > 0,
            last <= i <= n,
            replace_spec(s@, pat@, rep@) == out@ + s@.subrange(last as int, i as int)
                + replace_spec(s@.skip(i as int), pat@, rep@),
        decreases n - i,
    {
        let mut k: usize = 0;
        let mut same = true;
        while k < m
            invariant
                h@ == s@,
                pc@ == pat@,
                n == s@.len(),
                m == pat@.len(),
                i + m <= n,
                k <= m,
                same == (forall|q: int| 0 <= q < k ==> h@[i + q] == pc@[q]),
            decreases m - k,
        {
            if h[i + k] != pc[k] {
                same = false;
            }
            k = k + 1;
        }
        let ghost rest = s@.skip(i as int);
        if same {
            proof {
                assert(rest.take(m as int) =~= pat@);
                assert(rest.skip(m as int) =~= s@.skip(i + m));
            }
            let ghost before = out@;
            let seg = s.substring_char(last, i);
            out.append(seg);
            out.append(rep);
            proof {
                assert(out@ =~= before + s@.subrange(last as int, i as int) + rep@);
                assert(s@.subrange((i + m) as int, (i + m) as int) =~= Seq::<char>::empty());
                assert(out@ + s@.subrange((i + m) as int, (i + m) as int) =~= out@);
                assert(replace_spec(s@, pat@, rep@) =~= out@ + s@.subrange(
                    (i + m) as int,
                    (i + m) as int,
                ) + replace_spec(s@.skip(i + m), pat@, rep@));
            }
            i = i + m;
            last = i;
        } else {
            proof {
                assert(!(forall|q: int| 0 <= q < m ==> h@[i + q] == pc@[q]));
                let q = choose|q: int| 0 <= q < m && h@[i + q] != pc@[q];
                assert(rest.take(m as int)[q] != pat@[q]);
                assert(rest.skip(1) =~= s@.skip(i + 1));
                assert(s@.subrange(last as int, i + 1) =~= s@.subrange(last as int, i as int)
                    + seq![s@[i as int]]);
                assert(replace_spec(s@, pat@, rep@) =~= out@ + s@.subrange(last as int, i + 1)
                    + replace_spec(s@.skip(i + 1), pat@, rep@));
            }
            i = i + 1;
        }
    }
    proof {
        lemma_replace_short(s@.skip(i as int), pat@, rep@);
        assert(s@.subrange(last as int, i as int) + s@.skip(i as int) =~= s@.subrange(
            last as int,
            n as int,
        ));
    }
    let seg = s.substring_char(last, n);
    out.append(seg);
    out
}

/// The texts joined, `sep` between neighbours.
pub open spec fn join_spec(v: Seq<Seq<char>>, sep: Seq<char>) -> Seq<char>
    decreases v.len(),
{
    if v.len() == 0 {
        Seq::empty()
    } else if v.len() == 1 {
        v[0]
    } else {
        join_spec(v.drop_last(), sep) + sep + v.last()
    }
}

/// Joins the texts with `sep` between neighbours.
pub fn join(v: &Vec<String>, sep: &str) -> (r: String)
    ensures
        r@ == join_spec(v@.map_values(|s: String| s@), sep@),
{
    let ghost views = v@.map_values(|s: String| s@);
    let mut out = String::new();
    let mut k: usize = 0;
    while k < v.len()
        invariant
            k <= v@.len(),
            views == v@.map_values(|s: String| s@),
            out@ == join_spec(views.subrange(0, k as int), sep@),
        decreases v@.len() - k,
    {
        let ghost before = out@;
        if k > 0 {
            out.append(sep);
        }
        out.append(v[k].as_str());
        proof {
            let next = views.subrange(0, k + 1);
            assert(next.drop_last() =~= views.subrange(0, k as int));
            if k == 0 {
                assert(out@ =~= v@[0]@);
            } else {
                assert(out@ =~= before + sep@ + v@[k as int]@);
            }
        }
        k = k + 1;
    }
    proof {
        assert(views.subrange(0, v@.len() as int) =~= views);
    }
    out
}

} // verus!
