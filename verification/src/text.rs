//! Character-level string operations with exact specifications.
use vstd::prelude::*;

verus! {

/// Index of the first occurrence of `c` in `s`, or `s.len()` when `c` does not occur.
pub open spec fn first_index_of(s: Seq<char>, c: char) -> int
    decreases s.len(),
{
    if s.len() == 0 {
        0
    } else if s[0] == c {
        0
    } else {
        1 + first_index_of(s.drop_first(), c)
    }
}

/// `first_index_of` is the position of the first `c`, or the length.
pub proof fn lemma_first_index_of(s: Seq<char>, c: char)
    ensures
        0 <= first_index_of(s, c) <= s.len(),
        forall|k: int| 0 <= k < first_index_of(s, c) ==> s[k] != c,
        first_index_of(s, c) < s.len() ==> s[first_index_of(s, c)] == c,
    decreases s.len(),
{
    if s.len() > 0 && s[0] != c {
        lemma_first_index_of(s.drop_first(), c);
        assert forall|k: int| 0 <= k < first_index_of(s, c) implies s[k] != c by {
            if k > 0 {
                assert(s[k] == s.drop_first()[k - 1]);
            }
        }
    }
}

/// Any position that is the first `c` (or the length, when there is none) is `first_index_of`.
pub proof fn lemma_first_index_of_is(s: Seq<char>, c: char, m: int)
    requires
        0 <= m <= s.len(),
        forall|k: int| 0 <= k < m ==> s[k] != c,
        m < s.len() ==> s[m] == c,
    ensures
        first_index_of(s, c) == m,
{
    lemma_first_index_of(s, c);
    let r = first_index_of(s, c);
    if r < m {
        assert(s[r] != c);
    } else if m < r {
        assert(s[m] != c);
    }
}

/// `s` with every `from` replaced by `to`.
pub open spec fn replace_char_spec(s: Seq<char>, from: char, to: char) -> Seq<char> {
    Seq::new(s.len(), |i: int| if s[i] == from { to } else { s[i] })
}

/// `pat` occurs in `s` at position `i`.
pub open spec fn occurs_at(s: Seq<char>, pat: Seq<char>, i: int) -> bool {
    0 <= i && i + pat.len() <= s.len() && s.subrange(i, i + pat.len()) == pat
}

/// `pat` occurs somewhere in `s`.
pub open spec fn contains_spec(s: Seq<char>, pat: Seq<char>) -> bool {
    exists|i: int| occurs_at(s, pat, i)
}

/// `s` begins with `pat`.
pub open spec fn starts_with_spec(s: Seq<char>, pat: Seq<char>) -> bool {
    occurs_at(s, pat, 0)
}

/// `s` with every non-overlapping occurrence of `pat`, found left to right,
/// replaced by `rep`. The empty pattern occurs before each character and at
/// the end, so `rep` is put there.
pub open spec fn replace_all_spec(s: Seq<char>, pat: Seq<char>, rep: Seq<char>) -> Seq<char>
    decreases s.len(),
{
    if pat.len() == 0 {
        if s.len() == 0 {
            rep
        } else {
            rep + seq![s[0]] + replace_all_spec(s.drop_first(), pat, rep)
        }
    } else if s.len() < pat.len() {
        s
    } else if s.take(pat.len() as int) == pat {
        rep + replace_all_spec(s.skip(pat.len() as int), pat, rep)
    } else {
        seq![s[0]] + replace_all_spec(s.drop_first(), pat, rep)
    }
}

/// A Unix path `base` extended by the component `comp`: an absolute `comp`
/// replaces `base`; otherwise a `/` is put between them unless `base` is empty
/// or already ends with one.
pub open spec fn join_path_spec(base: Seq<char>, comp: Seq<char>) -> Seq<char> {
    if comp.len() > 0 && comp[0] == '/' {
        comp
    } else if base.len() > 0 && base.last() != '/' {
        base + seq!['/'] + comp
    } else {
        base + comp
    }
}

/// Appends `c` to `s` (`String::push`).
#[verifier::external_body]
fn push_char(s: &mut String, c: char)
    ensures
        final(s)@ == old(s)@.push(c),
{
    s.push(c);
}

/// The characters of `s`, in order.
pub fn chars_of(s: &str) -> (res: Vec<char>)
    ensures
        res@ == s@,
{
    let mut res: Vec<char> = Vec::new();
    for c in it: s.chars()
        invariant
            res@ == it.seq().take(it.index() as int),
    {
        res.push(c);
    }
    res
}

/// The string made of the characters `cs`.
pub fn string_of(cs: &[char]) -> (res: String)
    ensures
        res@ == cs@,
{
    let mut res = String::new();
    let mut i: usize = 0;
    while i < cs.len()
        invariant
            i <= cs.len(),
            res@ == cs@.take(i as int),
        decreases cs.len() - i,
    {
        push_char(&mut res, cs[i]);
        assert(cs@.take(i + 1) == cs@.take(i as int).push(cs@[i as int]));
        i = i + 1;
    }
    assert(cs@.take(cs.len() as int) == cs@);
    res
}

/// Appends the characters `cs` to `out`.
pub fn extend_chars(out: &mut Vec<char>, cs: &[char])
    ensures
        final(out)@ == old(out)@ + cs@,
{
    let mut i: usize = 0;
    while i < cs.len()
        invariant
            i <= cs.len(),
            out@ == old(out)@ + cs@.take(i as int),
        decreases cs.len() - i,
    {
        out.push(cs[i]);
        assert(cs@.take(i + 1) == cs@.take(i as int).push(cs@[i as int]));
        i = i + 1;
    }
    assert(cs@.take(cs.len() as int) == cs@);
}

/// The concatenation of `a` and `b`.
pub fn concat(a: &str, b: &str) -> (res: String)
    ensures
        res@ == a@ + b@,
{
    let mut cs = chars_of(a);
    let bs = chars_of(b);
    extend_chars(&mut cs, bs.as_slice());
    string_of(cs.as_slice())
}

/// First index `r` in `from..to` with `cs[r] == c`, or `to` when there is none.
pub fn find_char(cs: &[char], from: usize, to: usize, c: char) -> (r: usize)
    requires
        from <= to <= cs.len(),
    ensures
        from <= r <= to,
        forall|k: int| from <= k < r ==> cs@[k] != c,
        r < to ==> cs@[r as int] == c,
{
    let mut i = from;
    while i < to
        invariant
            from <= i <= to <= cs.len(),
            forall|k: int| from <= k < i ==> cs@[k] != c,
        decreases to - i,
    {
        if cs[i] == c {
            return i;
        }
        i = i + 1;
    }
    i
}

/// Whether `pat` occurs in `cs` at position `i`.
pub fn matches_at(cs: &[char], pat: &[char], i: usize) -> (r: bool)
    ensures
        r == occurs_at(cs@, pat@, i as int),
{
    if i > cs.len() || pat.len() > cs.len() - i {
        return false;
    }
    let mut k: usize = 0;
    while k < pat.len()
        invariant
            k <= pat.len(),
            i + pat.len() <= cs.len(),
            forall|j: int| 0 <= j < k ==> cs@[i + j] == pat@[j],
        decreases pat.len() - k,
    {
        if cs[i + k] != pat[k] {
            assert(cs@.subrange(i as int, i + pat.len())[k as int] != pat@[k as int]);
            return false;
        }
        k = k + 1;
    }
    assert(cs@.subrange(i as int, i + pat.len()) =~= pat@);
    true
}

/// Whether the two character sequences are equal.
pub fn chars_equal(a: &[char], b: &[char]) -> (r: bool)
    ensures
        r == (a@ == b@),
{
    if a.len() != b.len() {
        return false;
    }
    let r = matches_at(a, b, 0);
    assert(r ==> a@.subrange(0, b.len() as int) == a@);
    assert(a@ == b@ ==> a@.subrange(0, b.len() as int) =~= a@);
    r
}

/// Whether the two strings are equal.
pub fn str_equal(a: &str, b: &str) -> (r: bool)
    ensures
        r == (a@ == b@),
{
    let x = chars_of(a);
    let y = chars_of(b);
    chars_equal(x.as_slice(), y.as_slice())
}

/// Whether `pat` occurs in `s` (`str::contains`).
pub fn contains(s: &str, pat: &str) -> (r: bool)
    ensures
        r == contains_spec(s@, pat@),
{
    let cs = chars_of(s);
    let ps = chars_of(pat);
    if ps.len() > cs.len() {
        assert(!contains_spec(s@, pat@));
        return false;
    }
    let last = cs.len() - ps.len();
    let mut i: usize = 0;
    loop
        invariant
            ps.len() <= cs.len(),
            last == cs.len() - ps.len(),
            i <= last,
            cs@ == s@,
            ps@ == pat@,
            forall|j: int| 0 <= j < i ==> !occurs_at(s@, pat@, j),
        ensures
            forall|j: int| 0 <= j <= last ==> !occurs_at(s@, pat@, j),
        decreases last - i,
    {
        if matches_at(cs.as_slice(), ps.as_slice(), i) {
            return true;
        }
        if i == last {
            break;
        }
        i = i + 1;
    }
    assert forall|j: int| !occurs_at(s@, pat@, j) by {
        if 0 <= j <= last {
        }
    }
    false
}

/// Whether `s` begins with `pat` (`str::starts_with`).
pub fn starts_with(s: &str, pat: &str) -> (r: bool)
    ensures
        r == starts_with_spec(s@, pat@),
{
    let cs = chars_of(s);
    let ps = chars_of(pat);
    matches_at(cs.as_slice(), ps.as_slice(), 0)
}

/// `s` with every `from` replaced by `to` (`str::replace` with a character pattern).
pub fn replace_char(s: &str, from: char, to: char) -> (res: String)
    ensures
        res@ == replace_char_spec(s@, from, to),
{
    let cs = chars_of(s);
    let mut out: Vec<char> = Vec::new();
    let mut i: usize = 0;
    while i < cs.len()
        invariant
            i <= cs.len(),
            cs@ == s@,
            out@ == replace_char_spec(s@, from, to).take(i as int),
        decreases cs.len() - i,
    {
        let c = cs[i];
        if c == from {
            out.push(to);
        } else {
            out.push(c);
        }
        assert(replace_char_spec(s@, from, to).take(i + 1) =~= replace_char_spec(s@, from, to).take(
            i as int,
        ).push(out@.last()));
        i = i + 1;
    }
    assert(replace_char_spec(s@, from, to).take(cs.len() as int) =~= replace_char_spec(s@, from, to));
    string_of(out.as_slice())
}

/// One step of `replace_all_spec` taken at position `i` of `s`.
proof fn lemma_replace_all_step(s: Seq<char>, pat: Seq<char>, rep: Seq<char>, i: int)
    requires
        pat.len() > 0,
        0 <= i,
        i + pat.len() <= s.len(),
    ensures
        occurs_at(s, pat, i) ==> replace_all_spec(s.skip(i), pat, rep) == rep + replace_all_spec(
            s.skip(i + pat.len()),
            pat,
            rep,
        ),
        !occurs_at(s, pat, i) ==> replace_all_spec(s.skip(i), pat, rep) == seq![s[i]]
            + replace_all_spec(s.skip(i + 1), pat, rep),
{
    let t = s.skip(i);
    assert(t.take(pat.len() as int) =~= s.subrange(i, i + pat.len()));
    assert(t.skip(pat.len() as int) =~= s.skip(i + pat.len()));
    assert(t.drop_first() =~= s.skip(i + 1));
}

/// `s` with every non-overlapping occurrence of `pat` replaced by `rep`, scanning
/// from the left (`str::replace` with a string pattern).
pub fn replace_all(s: &str, pat: &str, rep: &str) -> (res: String)
    ensures
        res@ == replace_all_spec(s@, pat@, rep@),
{
    let cs = chars_of(s);
    let ps = chars_of(pat);
    let rs = chars_of(rep);
    let mut out: Vec<char> = Vec::new();
    let mut i: usize = 0;
    assert(s@.skip(0) =~= s@);
    if ps.len() == 0 {
        while i < cs.len()
            invariant
                i <= cs.len(),
                cs@ == s@,
                rs@ == rep@,
                pat@.len() == 0,
                out@ + replace_all_spec(s@.skip(i as int), pat@, rep@) == replace_all_spec(
                    s@,
                    pat@,
                    rep@,
                ),
            decreases cs.len() - i,
        {
            assert(s@.skip(i as int).drop_first() =~= s@.skip(i + 1));
            let ghost before = out@;
            extend_chars(&mut out, rs.as_slice());
            out.push(cs[i]);
            assert(out@ =~= before + (rep@ + seq![s@[i as int]]));
            assert(before + (rep@ + seq![s@[i as int]] + replace_all_spec(s@.skip(i + 1), pat@, rep@))
                =~= out@ + replace_all_spec(s@.skip(i + 1), pat@, rep@));
            i = i + 1;
        }
        assert(s@.skip(cs.len() as int) =~= Seq::<char>::empty());
        extend_chars(&mut out, rs.as_slice());
        assert(out@ =~= replace_all_spec(s@, pat@, rep@));
        return string_of(out.as_slice());
    }
    while i < cs.len()
        invariant
            i <= cs.len(),
            cs@ == s@,
            ps@ == pat@,
            rs@ == rep@,
            pat@.len() > 0,
            out@ + replace_all_spec(s@.skip(i as int), pat@, rep@) == replace_all_spec(
                s@,
                pat@,
                rep@,
            ),
        decreases cs.len() - i,
    {
        if ps.len() > cs.len() - i {
            // Too little is left for another occurrence: the rest is copied as it is.
            assert(replace_all_spec(s@.skip(i as int), pat@, rep@) == s@.skip(i as int));
            extend_chars(&mut out, cs.as_slice().split_at(i).1);
            assert(out@ + replace_all_spec(s@.skip(cs.len() as int), pat@, rep@) =~= out@);
            i = cs.len();
        } else if matches_at(cs.as_slice(), ps.as_slice(), i) {
            proof {
                lemma_replace_all_step(s@, pat@, rep@, i as int);
            }
            extend_chars(&mut out, rs.as_slice());
            i = i + ps.len();
        } else {
            proof {
                lemma_replace_all_step(s@, pat@, rep@, i as int);
            }
            out.push(cs[i]);
            i = i + 1;
        }
    }
    assert(replace_all_spec(s@.skip(cs.len() as int), pat@, rep@) =~= Seq::<char>::empty());
    assert(out@ =~= replace_all_spec(s@, pat@, rep@));
    string_of(out.as_slice())
}

/// `base` extended by the path component `comp` (`Path::join` on Unix).
pub fn join_path(base: &str, comp: &str) -> (res: String)
    ensures
        res@ == join_path_spec(base@, comp@),
{
    let bs = chars_of(base);
    let cs = chars_of(comp);
    if cs.len() > 0 && cs[0] == '/' {
        string_of(cs.as_slice())
    } else if bs.len() > 0 && bs[bs.len() - 1] != '/' {
        let mut out = bs;
        out.push('/');
        extend_chars(&mut out, cs.as_slice());
        string_of(out.as_slice())
    } else {
        let mut out = bs;
        extend_chars(&mut out, cs.as_slice());
        string_of(out.as_slice())
    }
}

} // verus!
