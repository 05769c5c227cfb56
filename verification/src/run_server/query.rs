//! URL query strings: decoding `k=v&k=v` into pairs and looking a key up.
use vstd::prelude::*;
use vstd::string::*;
use crate::text::{chars_of, find_char, first_index_of, lemma_first_index_of, lemma_first_index_of_is, str_equal};

verus! {

/// One decoded query parameter: a key and its value, both borrowed from the query.
pub type QueryParam<'a> = (&'a str, &'a str);

/// The decoded parameters of a query, in the order in which they occur.
pub type QueryParams<'a> = Vec<QueryParam<'a>>;

/// The pair that one `&`-separated piece of a query stands for: the text before
/// the first `=` and the text between it and the next `=` (or the end); no pair
/// when the piece holds no `=`.
pub open spec fn pair_of(piece: Seq<char>) -> Option<(Seq<char>, Seq<char>)> {
    let e = first_index_of(piece, '=');
    if e < piece.len() {
        let after = piece.skip(e + 1);
        Some((piece.take(e), after.take(first_index_of(after, '='))))
    } else {
        None
    }
}

/// The pairs of a query: it is split at every `&`, and each piece that holds a
/// `=` gives one pair, in order.
pub open spec fn decode_spec(s: Seq<char>) -> Seq<(Seq<char>, Seq<char>)>
    decreases s.len(),
{
    let i = first_index_of(s, '&');
    proof {
        lemma_first_index_of(s, '&');
    }
    let rest = if i < s.len() {
        decode_spec(s.skip(i + 1))
    } else {
        Seq::empty()
    };
    match pair_of(s.take(i)) {
        Some(p) => seq![p] + rest,
        None => rest,
    }
}

/// The decoded parameters as character sequences.
pub open spec fn params_view(ps: Seq<(&str, &str)>) -> Seq<(Seq<char>, Seq<char>)> {
    ps.map_values(|p: (&str, &str)| (p.0@, p.1@))
}

/// The value of the first pair whose key is `key`.
pub open spec fn lookup_spec(ps: Seq<(Seq<char>, Seq<char>)>, key: Seq<char>) -> Option<Seq<char>>
    decreases ps.len(),
{
    if ps.len() == 0 {
        None
    } else if ps[0].0 == key {
        Some(ps[0].1)
    } else {
        lookup_spec(ps.drop_first(), key)
    }
}

/// An optional borrowed string as a character sequence.
pub open spec fn opt_str_view(o: Option<&str>) -> Option<Seq<char>> {
    match o {
        Some(v) => Some(v@),
        None => None,
    }
}

/// Skipping pairs whose key differs does not change the lookup.
proof fn lemma_lookup_skip(ps: Seq<(Seq<char>, Seq<char>)>, key: Seq<char>, i: int)
    requires
        0 <= i <= ps.len(),
        forall|j: int| 0 <= j < i ==> ps[j].0 != key,
    ensures
        lookup_spec(ps, key) == lookup_spec(ps.skip(i), key),
    decreases i,
{
    if i > 0 {
        lemma_lookup_skip(ps.drop_first(), key, i - 1);
        assert(ps.drop_first().skip(i - 1) =~= ps.skip(i));
    } else {
        assert(ps.skip(0) =~= ps);
    }
}

/// The value of the first parameter whose key is `key`.
pub fn query_get<'a>(params: &'a QueryParams<'a>, key: &'a str) -> (res: Option<&'a str>)
    ensures
        opt_str_view(res) == lookup_spec(params_view(params@), key@),
{
    let ghost ps = params_view(params@);
    let mut i: usize = 0;
    while i < params.len()
        invariant
            i <= params.len(),
            ps == params_view(params@),
            forall|j: int| 0 <= j < i ==> ps[j].0 != key@,
        decreases params.len() - i,
    {
        let (k, v) = params[i];
        if str_equal(k, key) {
            proof {
                lemma_lookup_skip(ps, key@, i as int);
                assert(ps.skip(i as int)[0] == ps[i as int]);
            }
            return Some(v);
        }
        i = i + 1;
    }
    proof {
        lemma_lookup_skip(ps, key@, i as int);
        assert(ps.skip(i as int).len() == 0);
    }
    None
}

/// One round of decoding: the piece of `s` from `pos` up to the next `&` at
/// `amp` (or the end) gives the pair found by the positions `eq` and `end`.
proof fn lemma_decode_step(s: Seq<char>, pos: int, amp: int, eq: int, end: int)
    requires
        0 <= pos <= amp <= s.len(),
        forall|k: int| pos <= k < amp ==> s[k] != '&',
        amp < s.len() ==> s[amp] == '&',
        pos <= eq <= amp,
        forall|k: int| pos <= k < eq ==> s[k] != '=',
        eq < amp ==> s[eq] == '=',
        eq < amp ==> eq + 1 <= end <= amp,
        eq < amp ==> forall|k: int| eq + 1 <= k < end ==> s[k] != '=',
        eq < amp ==> end < amp ==> s[end] == '=',
    ensures
        decode_spec(s.skip(pos)) == (if eq < amp {
            seq![(s.subrange(pos, eq), s.subrange(eq + 1, end))]
        } else {
            Seq::empty()
        }) + (if amp < s.len() {
            decode_spec(s.skip(amp + 1))
        } else {
            Seq::empty()
        }),
{
    let t = s.skip(pos);
    lemma_first_index_of_is(t, '&', amp - pos);
    let piece = t.take(amp - pos);
    assert(piece =~= s.subrange(pos, amp));
    lemma_first_index_of_is(piece, '=', eq - pos);
    if amp < s.len() {
        assert(t.skip(amp - pos + 1) =~= s.skip(amp + 1));
    }
    if eq < amp {
        let after = piece.skip(eq - pos + 1);
        assert(after =~= s.subrange(eq + 1, amp));
        lemma_first_index_of_is(after, '=', end - (eq + 1));
        assert(piece.take(eq - pos) =~= s.subrange(pos, eq));
        assert(after.take(end - (eq + 1)) =~= s.subrange(eq + 1, end));
    }
}

/// The parameters of a query string, in order: the query is split at every
/// `&`, and each piece that holds a `=` gives the pair of the text before the
/// first `=` and the text after it up to the next `=`.
pub fn query_decode<'a>(string: &'a str) -> (res: QueryParams<'a>)
    ensures
        params_view(res@) == decode_spec(string@),
{
    let cs = chars_of(string);
    let n = cs.len();
    let mut v: QueryParams<'a> = Vec::new();
    let mut pos: usize = 0;
    assert(string@.skip(0) =~= string@);
    loop
        invariant_except_break
            params_view(v@) + decode_spec(string@.skip(pos as int)) == decode_spec(string@),
        invariant
            pos <= n,
            n == cs.len(),
            cs@ == string@,
        ensures
            params_view(v@) == decode_spec(string@),
        decreases n - pos,
    {
        let amp = find_char(cs.as_slice(), pos, n, '&');
        let eq = find_char(cs.as_slice(), pos, amp, '=');
        let ghost old_v = v@;
        if eq < amp {
            let end = find_char(cs.as_slice(), eq + 1, amp, '=');
            proof {
                lemma_decode_step(string@, pos as int, amp as int, eq as int, end as int);
            }
            let key = string.substring_char(pos, eq);
            let value = string.substring_char(eq + 1, end);
            v.push((key, value));
            assert(params_view(v@) =~= params_view(old_v) + seq![(key@, value@)]);
        } else {
            proof {
                lemma_decode_step(string@, pos as int, amp as int, eq as int, amp as int);
            }
        }
        if amp == n {
            assert(params_view(v@) =~= decode_spec(string@));
            break;
        }
        pos = amp + 1;
    }
    v
}

/// No `&` and no `=` in `t`.
pub open spec fn is_plain(t: Seq<char>) -> bool {
    forall|i: int| 0 <= i < t.len() ==> t[i] != '&' && t[i] != '='
}

/// `k=v`.
pub open spec fn encode_pair(p: (Seq<char>, Seq<char>)) -> Seq<char> {
    p.0 + seq!['='] + p.1
}

/// The pairs written as `k=v`, joined by `&`.
pub open spec fn encode_spec(ps: Seq<(Seq<char>, Seq<char>)>) -> Seq<char>
    decreases ps.len(),
{
    if ps.len() == 0 {
        Seq::empty()
    } else if ps.len() == 1 {
        encode_pair(ps[0])
    } else {
        encode_spec(ps.drop_last()) + seq!['&'] + encode_pair(ps.last())
    }
}

/// Decoding two queries joined by `&` gives the pairs of the first followed by
/// those of the second.
pub proof fn lemma_decode_join(s1: Seq<char>, s2: Seq<char>)
    ensures
        decode_spec(s1 + seq!['&'] + s2) == decode_spec(s1) + decode_spec(s2),
    decreases s1.len(),
{
    let s = s1 + seq!['&'] + s2;
    lemma_first_index_of(s1, '&');
    let i1 = first_index_of(s1, '&');
    if i1 < s1.len() {
        lemma_first_index_of_is(s, '&', i1);
        assert(s.take(i1) =~= s1.take(i1));
        assert(s.skip(i1 + 1) =~= s1.skip(i1 + 1) + seq!['&'] + s2);
        lemma_decode_join(s1.skip(i1 + 1), s2);
        assert(decode_spec(s) =~= decode_spec(s1) + decode_spec(s2));
    } else {
        lemma_first_index_of_is(s, '&', s1.len() as int);
        assert(s.take(s1.len() as int) =~= s1);
        assert(s.skip(s1.len() as int + 1) =~= s2);
        assert(s1.take(s1.len() as int) =~= s1);
        assert(decode_spec(s) =~= decode_spec(s1) + decode_spec(s2));
    }
}

/// A single `k=v` with plain `k` and `v` decodes to that one pair.
proof fn lemma_decode_pair(p: (Seq<char>, Seq<char>))
    requires
        is_plain(p.0),
        is_plain(p.1),
    ensures
        decode_spec(encode_pair(p)) == seq![p],
{
    let s = encode_pair(p);
    let k = p.0;
    let v = p.1;
    lemma_first_index_of_is(s, '&', s.len() as int);
    assert(s.take(s.len() as int) =~= s);
    lemma_first_index_of_is(s, '=', k.len() as int);
    let after = s.skip(k.len() as int + 1);
    assert(after =~= v);
    lemma_first_index_of_is(v, '=', v.len() as int);
    assert(s.take(k.len() as int) =~= k);
    assert(v.take(v.len() as int) =~= v);
    assert(decode_spec(s) =~= seq![p]);
}

/// Decoding gives back the pairs that were encoded, when no key or value holds
/// a `&` or a `=`.
pub proof fn lemma_decode_encode(ps: Seq<(Seq<char>, Seq<char>)>)
    requires
        forall|i: int| 0 <= i < ps.len() ==> is_plain(#[trigger] ps[i].0) && is_plain(ps[i].1),
    ensures
        decode_spec(encode_spec(ps)) == ps,
    decreases ps.len(),
{
    if ps.len() == 0 {
        lemma_first_index_of_is(Seq::<char>::empty(), '&', 0);
        lemma_first_index_of_is(Seq::<char>::empty(), '=', 0);
        assert(decode_spec(encode_spec(ps)) =~= ps);
    } else if ps.len() == 1 {
        lemma_decode_pair(ps[0]);
        assert(seq![ps[0]] =~= ps);
    } else {
        let init = ps.drop_last();
        assert forall|i: int| 0 <= i < init.len() implies is_plain(#[trigger] init[i].0) && is_plain(
            init[i].1,
        ) by {
            assert(init[i] == ps[i]);
        }
        lemma_decode_encode(init);
        lemma_decode_join(encode_spec(init), encode_pair(ps.last()));
        lemma_decode_pair(ps.last());
        assert(init + seq![ps.last()] =~= ps);
    }
}

/// Looking a key up in a decoded encoding finds what looking it up in the
/// original pairs finds, when no key or value holds a `&` or a `=`.
pub proof fn lemma_lookup_encoded(ps: Seq<(Seq<char>, Seq<char>)>, key: Seq<char>)
    requires
        forall|i: int| 0 <= i < ps.len() ==> is_plain(#[trigger] ps[i].0) && is_plain(ps[i].1),
    ensures
        lookup_spec(decode_spec(encode_spec(ps)), key) == lookup_spec(ps, key),
{
    lemma_decode_encode(ps);
}

/// Every decoded key and value is free of `&` and `=`.
pub proof fn lemma_decoded_plain(s: Seq<char>)
    ensures
        forall|i: int|
            0 <= i < decode_spec(s).len() ==> is_plain(#[trigger] decode_spec(s)[i].0) && is_plain(
                decode_spec(s)[i].1,
            ),
    decreases s.len(),
{
    lemma_first_index_of(s, '&');
    let i = first_index_of(s, '&');
    let piece = s.take(i);
    let rest = if i < s.len() {
        decode_spec(s.skip(i + 1))
    } else {
        Seq::empty()
    };
    if i < s.len() {
        lemma_decoded_plain(s.skip(i + 1));
    }
    match pair_of(piece) {
        Some(p) => {
            lemma_first_index_of(piece, '=');
            let e = first_index_of(piece, '=');
            let after = piece.skip(e + 1);
            lemma_first_index_of(after, '=');
            assert(is_plain(p.0));
            assert(is_plain(p.1)) by {
                assert forall|j: int| 0 <= j < p.1.len() implies p.1[j] != '&' && p.1[j] != '=' by {
                    assert(p.1[j] == s[e + 1 + j]);
                }
            }
            assert forall|j: int| 0 <= j < decode_spec(s).len() implies is_plain(
                #[trigger] decode_spec(s)[j].0,
            ) && is_plain(decode_spec(s)[j].1) by {
                if j > 0 {
                    assert(decode_spec(s)[j] == rest[j - 1]);
                }
            }
        },
        None => {},
    }
}

} // verus!
