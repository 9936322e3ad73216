use vstd::prelude::*;
use crate::error::Error;
use crate::text::{char_vec, find_char, find_from, lemma_find_from, lemma_find_from_bound, str_eq};

verus! {

broadcast use vstd::string::group_string_axioms;

/// Where the raw value that starts at `vs` ends: at the next comma, where a
/// value that opens with a double quote first runs to its closing quote.
pub open spec fn value_end(s: Seq<char>, vs: int) -> int {
    if vs < s.len() && s[vs] == '"' {
        find_from(s, ',', find_from(s, '"', vs + 1) + 1)
    } else {
        find_from(s, ',', vs)
    }
}

/// A value that opens with a double quote and never closes it.
pub open spec fn unterminated(s: Seq<char>, vs: int) -> bool {
    vs < s.len() && s[vs] == '"' && find_from(s, '"', vs + 1) == s.len()
}

/// The pair at the front of `s`: its key, its raw value, and where the rest starts.
/// The key runs to the first `=`; it must not be empty nor hold a comma.
pub open spec fn split_pair(s: Seq<char>) -> Option<(Seq<char>, Seq<char>, int)> {
    let eq = find_from(s, '=', 0);
    if eq == s.len() || find_from(s, ',', 0) < eq || eq == 0 || unterminated(s, eq + 1) {
        None
    } else {
        let e = value_end(s, eq + 1);
        Some(
            (
                s.take(eq),
                s.subrange(eq + 1, e),
                if e < s.len() {
                    e + 1
                } else {
                    e
                },
            ),
        )
    }
}

proof fn lemma_split_pair_progress(s: Seq<char>)
    requires
        split_pair(s) is Some,
    ensures
        0 < (split_pair(s)->0).2 <= s.len(),
        (split_pair(s)->0).2 == s.len() || s[(split_pair(s)->0).2 - 1] == ',',
        (split_pair(s)->0).2 < s.len() ==> (split_pair(s)->0).2 - 1 == value_end(s, find_from(s, '=', 0) + 1),
        find_from(s, '=', 0) + 1 <= value_end(s, find_from(s, '=', 0) + 1) <= s.len(),
{
    let eq = find_from(s, '=', 0);
    lemma_find_from_bound(s, '=', 0);
    let vs = eq + 1;
    if vs < s.len() && s[vs] == '"' {
        lemma_find_from_bound(s, '"', vs + 1);
        lemma_find_from_bound(s, ',', find_from(s, '"', vs + 1) + 1);
    } else {
        lemma_find_from_bound(s, ',', vs);
    }
}

#[via_fn]
proof fn scan_pairs_decreases(s: Seq<char>) {
    if s.len() > 0 && split_pair(s) is Some {
        lemma_split_pair_progress(s);
    }
}

/// The pairs of an attribute list, in order, as long as each one is well formed.
pub open spec fn scan_pairs(s: Seq<char>) -> Option<Seq<(Seq<char>, Seq<char>)>>
    decreases s.len(),
    via scan_pairs_decreases
{
    if s.len() == 0 {
        Some(seq![])
    } else {
        match split_pair(s) {
            None => None,
            Some(p) => match scan_pairs(s.skip(p.2)) {
                None => None,
                Some(rest) => Some(seq![(p.0, p.1)] + rest),
            },
        }
    }
}

pub open spec fn keys_distinct(ps: Seq<(Seq<char>, Seq<char>)>) -> bool {
    forall|i: int, j: int| 0 <= i < j < ps.len() ==> ps[i].0 != ps[j].0
}

/// An attribute list split into `(key, raw value)` pairs; no key may come twice.
pub open spec fn tokenize(s: Seq<char>) -> Option<Seq<(Seq<char>, Seq<char>)>> {
    match scan_pairs(s) {
        Some(ps) => if keys_distinct(ps) {
            Some(ps)
        } else {
            None
        },
        None => None,
    }
}

/// The raw value of the first pair with key `k`.
pub open spec fn lookup(ps: Seq<(Seq<char>, Seq<char>)>, k: Seq<char>) -> Option<Seq<char>>
    decreases ps.len(),
{
    if ps.len() == 0 {
        None
    } else if ps[0].0 == k {
        Some(ps[0].1)
    } else {
        lookup(ps.drop_first(), k)
    }
}

pub open spec fn pairs_view(v: Seq<(String, String)>) -> Seq<(Seq<char>, Seq<char>)> {
    Seq::new(v.len(), |i: int| (v[i].0@, v[i].1@))
}

proof fn lemma_find_from_skip(s: Seq<char>, c: char, i: int, j: int)
    requires
        0 <= i <= s.len(),
        0 <= j <= s.len() - i,
    ensures
        find_from(s.skip(i), c, j) == find_from(s, c, i + j) - i,
    decreases s.len() - i - j,
{
    if j < s.len() - i {
        assert(s.skip(i)[j] == s[i + j]);
        if s[i + j] != c {
            lemma_find_from_skip(s, c, i, j + 1);
        }
    }
}

/// Splits an attribute list into its `(key, raw value)` pairs.
pub fn attribute_pairs(s: &str) -> (r: Result<Vec<(String, String)>, Error>)
    ensures
        match r {
            Ok(v) => tokenize(s@) == Some(pairs_view(v@)),
            Err(_) => tokenize(s@) is None,
        },
{
    let cs = char_vec(s);
    let n = cs.len();
    let mut out: Vec<(String, String)> = Vec::new();
    let mut i: usize = 0;
    proof {
        assert(s@.skip(0) =~= s@);
        match scan_pairs(s@) {
            Some(rest) => {
                assert(pairs_view(out@) + rest =~= rest);
            },
            None => {},
        }
    }
    while i < n
        invariant
            cs@ == s@,
            n == cs@.len(),
            i <= n,
            scan_pairs(s@) == match scan_pairs(s@.skip(i as int)) {
                Some(rest) => Some(pairs_view(out@) + rest),
                None => None,
            },
        decreases n - i,
    {
        let ghost t = s@.skip(i as int);
        proof {
            lemma_find_from_skip(s@, '=', i as int, 0);
            lemma_find_from_skip(s@, ',', i as int, 0);
        }
        let eq = find_char(&cs, '=', i);
        let comma = find_char(&cs, ',', i);
        if eq == n || comma < eq || eq == i {
            return Err(Error::invalid_input(s));
        }
        let vs = eq + 1;
        let ghost tvs = (vs - i) as int;
        let e;
        if vs < n && cs[vs] == '"' {
            proof {
                lemma_find_from_skip(s@, '"', i as int, tvs + 1);
                assert(t[tvs] == s@[vs as int]);
            }
            let q = find_char(&cs, '"', vs + 1);
            if q == n {
                return Err(Error::invalid_input(s));
            }
            proof {
                lemma_find_from_skip(s@, ',', i as int, q + 1 - i);
            }
            e = find_char(&cs, ',', q + 1);
        } else {
            proof {
                if vs < n {
                    assert(t[tvs] == s@[vs as int]);
                }
                lemma_find_from_skip(s@, ',', i as int, tvs);
            }
            e = find_char(&cs, ',', vs);
        }
        let key = s.substring_char(i, eq).to_owned();
        let value = s.substring_char(vs, e).to_owned();
        let next = if e < n {
            e + 1
        } else {
            e
        };
        proof {
            let p = split_pair(t)->0;
            assert(p.0 =~= key@);
            assert(p.1 =~= value@);
            assert(p.2 == next - i);
            assert(t.skip(p.2) =~= s@.skip(next as int));
            assert(pairs_view(out@.push((key, value))) =~= pairs_view(out@) + seq![(p.0, p.1)]);
            match scan_pairs(s@.skip(next as int)) {
                Some(rest) => {
                    assert(pairs_view(out@) + (seq![(p.0, p.1)] + rest) =~= pairs_view(out@) + seq![
                        (p.0, p.1),
                    ] + rest);
                },
                None => {},
            }
        }
        out.push((key, value));
        i = next;
    }
    proof {
        assert(s@.skip(i as int) =~= Seq::<char>::empty());
        assert(pairs_view(out@) + Seq::<(Seq<char>, Seq<char>)>::empty() =~= pairs_view(out@));
    }
    let mut a: usize = 0;
    while a < out.len()
        invariant
            scan_pairs(s@) == Some(pairs_view(out@)),
            a <= out@.len(),
            forall|x: int, y: int|
                0 <= x < a && x < y < out@.len() ==> out@[x].0@ != out@[y].0@,
        decreases out@.len() - a,
    {
        let mut b: usize = a + 1;
        while b < out.len()
            invariant
                scan_pairs(s@) == Some(pairs_view(out@)),
                a < out@.len(),
                a + 1 <= b <= out@.len(),
                forall|x: int, y: int|
                    0 <= x < a && x < y < out@.len() ==> out@[x].0@ != out@[y].0@,
                forall|y: int| a < y < b ==> out@[a as int].0@ != out@[y].0@,
            decreases out@.len() - b,
        {
            if str_eq(out[a].0.as_str(), out[b].0.as_str()) {
                proof {
                    let ps = pairs_view(out@);
                    assert(ps[a as int].0 == ps[b as int].0);
                }
                return Err(Error::invalid_input(s));
            }
            b = b + 1;
        }
        a = a + 1;
    }
    proof {
        let ps = pairs_view(out@);
        assert forall|x: int, y: int| 0 <= x < y < ps.len() implies ps[x].0 != ps[y].0 by {
            assert(ps[x].0 == out@[x].0@);
            assert(ps[y].0 == out@[y].0@);
        }
    }
    Ok(out)
}

/// The raw value given for `key`, if any.
pub fn find_attr<'a>(pairs: &'a Vec<(String, String)>, key: &str) -> (r: Option<&'a str>)
    ensures
        match r {
            Some(v) => lookup(pairs_view(pairs@), key@) == Some(v@),
            None => lookup(pairs_view(pairs@), key@) is None,
        },
{
    let ghost ps = pairs_view(pairs@);
    let mut i: usize = 0;
    assert(ps.skip(0) =~= ps);
    while i < pairs.len()
        invariant
            ps == pairs_view(pairs@),
            i <= pairs@.len(),
            lookup(ps, key@) == lookup(ps.skip(i as int), key@),
        decreases pairs@.len() - i,
    {
        assert(ps.skip(i as int).drop_first() =~= ps.skip(i + 1));
        assert(ps.skip(i as int)[0] == ps[i as int]);
        if str_eq(pairs[i].0.as_str(), key) {
            return Some(pairs[i].1.as_str());
        }
        i = i + 1;
    }
    None
}

pub open spec fn pair_text(k: Seq<char>, v: Seq<char>) -> Seq<char> {
    k + seq!['='] + v
}

/// The pairs written as `KEY=VALUE`, parted by commas.
pub open spec fn attrs_text(ps: Seq<(Seq<char>, Seq<char>)>) -> Seq<char>
    decreases ps.len(),
{
    if ps.len() == 0 {
        seq![]
    } else if ps.len() == 1 {
        pair_text(ps[0].0, ps[0].1)
    } else {
        pair_text(ps[0].0, ps[0].1) + seq![','] + attrs_text(ps.drop_first())
    }
}

/// The entries of a list of attributes that are present, in the list's order.
pub open spec fn present(c: Seq<(Seq<char>, Option<Seq<char>>)>) -> Seq<(Seq<char>, Seq<char>)>
    decreases c.len(),
{
    if c.len() == 0 {
        seq![]
    } else {
        match c.last().1 {
            Some(v) => present(c.drop_last()).push((c.last().0, v)),
            None => present(c.drop_last()),
        }
    }
}

/// A key that the tokenizer reads back: not empty, no `=` and no comma.
pub open spec fn name_ok(k: Seq<char>) -> bool {
    k.len() > 0 && forall|i: int| 0 <= i < k.len() ==> #[trigger] k[i] != '=' && k[i] != ','
}

/// A value that the tokenizer reads back whole: either it holds no comma and does not
/// open with a double quote, or it is a double-quoted text without inner quotes.
pub open spec fn value_ok(v: Seq<char>) -> bool {
    ((forall|i: int| 0 <= i < v.len() ==> #[trigger] v[i] != ',') && (v.len() == 0 || v[0]
        != '"')) || (v.len() >= 2 && v[0] == '"' && v[v.len() - 1] == '"' && forall|i: int|
        1 <= i < v.len() - 1 ==> #[trigger] v[i] != '"')
}

/// A list of attributes in the order they are written, with distinct keys.
pub open spec fn canon_ok(c: Seq<(Seq<char>, Option<Seq<char>>)>) -> bool {
    &&& forall|i: int|
        0 <= i < c.len() ==> name_ok(#[trigger] c[i].0) && (c[i].1 is Some ==> value_ok(
            c[i].1->0,
        ))
    &&& forall|i: int, j: int| 0 <= i < j < c.len() ==> c[i].0 != c[j].0
}

proof fn lemma_lookup_push(p: Seq<(Seq<char>, Seq<char>)>, x: (Seq<char>, Seq<char>), k: Seq<char>)
    ensures
        lookup(p.push(x), k) == if lookup(p, k) is Some {
            lookup(p, k)
        } else if x.0 == k {
            Some(x.1)
        } else {
            None::<Seq<char>>
        },
    decreases p.len(),
{
    let q = p.push(x);
    if p.len() > 0 {
        assert(q[0] == p[0]);
        assert(q.drop_first() =~= p.drop_first().push(x));
        lemma_lookup_push(p.drop_first(), x, k);
        if p[0].0 == k {
            assert(lookup(q, k) == Some(p[0].1));
            assert(lookup(p, k) == Some(p[0].1));
        } else {
            assert(lookup(q, k) == lookup(q.drop_first(), k));
            assert(lookup(p, k) == lookup(p.drop_first(), k));
        }
    } else {
        assert(q[0] == x);
        assert(q.drop_first() =~= Seq::<(Seq<char>, Seq<char>)>::empty());
        assert(lookup(q.drop_first(), k) is None);
        assert(lookup(p, k) is None);
    }
}

proof fn lemma_lookup_none(p: Seq<(Seq<char>, Seq<char>)>, k: Seq<char>)
    requires
        lookup(p, k) is None,
    ensures
        forall|j: int| 0 <= j < p.len() ==> p[j].0 != k,
    decreases p.len(),
{
    if p.len() > 0 {
        lemma_lookup_none(p.drop_first(), k);
        assert forall|j: int| 0 <= j < p.len() implies p[j].0 != k by {
            if j > 0 {
                assert(p[j] == p.drop_first()[j - 1]);
            }
        }
    }
}

proof fn lemma_present(c: Seq<(Seq<char>, Option<Seq<char>>)>)
    requires
        canon_ok(c),
    ensures
        forall|i: int| 0 <= i < c.len() ==> lookup(present(c), #[trigger] c[i].0) == c[i].1,
        forall|k: Seq<char>|
            (forall|i: int| 0 <= i < c.len() ==> c[i].0 != k) ==> lookup(present(c), k) is None,
        keys_distinct(present(c)),
        forall|j: int|
            0 <= j < present(c).len() ==> name_ok(#[trigger] present(c)[j].0) && value_ok(
                present(c)[j].1,
            ),
    decreases c.len(),
{
    if c.len() > 0 {
        let d = c.drop_last();
        let x = c.last();
        assert forall|i: int| 0 <= i < d.len() implies name_ok(#[trigger] d[i].0) && (d[i].1 is Some
            ==> value_ok(d[i].1->0)) by {
            assert(d[i] == c[i]);
        }
        assert forall|i: int, j: int| 0 <= i < j < d.len() implies d[i].0 != d[j].0 by {
            assert(d[i] == c[i]);
            assert(d[j] == c[j]);
        }
        lemma_present(d);
        let p = present(d);
        assert forall|i: int| 0 <= i < d.len() implies d[i].0 != x.0 by {
            assert(d[i] == c[i]);
        }
        assert(lookup(p, x.0) is None);
        lemma_lookup_none(p, x.0);
        match x.1 {
            Some(v) => {
                assert forall|k: Seq<char>| #[trigger] lookup(p.push((x.0, v)), k) == if lookup(
                    p,
                    k,
                ) is Some {
                    lookup(p, k)
                } else if x.0 == k {
                    Some(v)
                } else {
                    None::<Seq<char>>
                } by {
                    lemma_lookup_push(p, (x.0, v), k);
                }
                assert forall|i: int| 0 <= i < c.len() implies lookup(
                    present(c),
                    #[trigger] c[i].0,
                ) == c[i].1 by {
                    if i < d.len() {
                        assert(d[i] == c[i]);
                        assert(lookup(p, d[i].0) == d[i].1);
                    }
                }
                assert forall|k: Seq<char>|
                    (forall|i: int| 0 <= i < c.len() ==> c[i].0 != k) implies lookup(
                    present(c),
                    k,
                ) is None by {
                    assert forall|i: int| 0 <= i < d.len() implies d[i].0 != k by {
                        assert(d[i] == c[i]);
                    }
                    assert(c[c.len() - 1].0 != k);
                }
            },
            None => {
                assert forall|i: int| 0 <= i < c.len() implies lookup(
                    present(c),
                    #[trigger] c[i].0,
                ) == c[i].1 by {
                    if i < d.len() {
                        assert(d[i] == c[i]);
                        assert(lookup(p, d[i].0) == d[i].1);
                    }
                }
                assert forall|k: Seq<char>|
                    (forall|i: int| 0 <= i < c.len() ==> c[i].0 != k) implies lookup(
                    present(c),
                    k,
                ) is None by {
                    assert forall|i: int| 0 <= i < d.len() implies d[i].0 != k by {
                        assert(d[i] == c[i]);
                    }
                }
            },
        }
    }
}

proof fn lemma_attrs_text_push(ps: Seq<(Seq<char>, Seq<char>)>, x: (Seq<char>, Seq<char>))
    ensures
        attrs_text(ps.push(x)) == if ps.len() == 0 {
            pair_text(x.0, x.1)
        } else {
            attrs_text(ps) + seq![','] + pair_text(x.0, x.1)
        },
    decreases ps.len(),
{
    let q = ps.push(x);
    if ps.len() == 0 {
        assert(q[0] == x);
        assert(attrs_text(q) == pair_text(q[0].0, q[0].1));
    } else if ps.len() == 1 {
        assert(q[0] == ps[0]);
        assert(q.drop_first() =~= seq![x]);
        assert(seq![x][0] == x);
        assert(attrs_text(seq![x]) == pair_text(x.0, x.1));
        assert(attrs_text(q) == pair_text(ps[0].0, ps[0].1) + seq![','] + attrs_text(q.drop_first()));
        assert(attrs_text(ps) == pair_text(ps[0].0, ps[0].1));
    } else {
        assert(q[0] == ps[0]);
        assert(q.drop_first() =~= ps.drop_first().push(x));
        lemma_attrs_text_push(ps.drop_first(), x);
        let a = pair_text(ps[0].0, ps[0].1);
        let b = attrs_text(ps.drop_first());
        assert(attrs_text(q) == a + seq![','] + attrs_text(q.drop_first()));
        assert(attrs_text(ps) == a + seq![','] + b);
        assert(a + seq![','] + (b + seq![','] + pair_text(x.0, x.1)) =~= a + seq![','] + b + seq![
            ',',
        ] + pair_text(x.0, x.1));
    }
}

proof fn lemma_scan_attrs_text(ps: Seq<(Seq<char>, Seq<char>)>)
    requires
        forall|j: int| 0 <= j < ps.len() ==> name_ok(#[trigger] ps[j].0) && value_ok(ps[j].1),
    ensures
        scan_pairs(attrs_text(ps)) == Some(ps),
    decreases ps.len(),
{
    if ps.len() == 0 {
        assert(ps =~= seq![]);
    } else {
        let k = ps[0].0;
        let v = ps[0].1;
        assert(name_ok(k) && value_ok(v));
        let rest = ps.drop_first();
        let tail: Seq<char> = if ps.len() == 1 {
            seq![]
        } else {
            seq![','] + attrs_text(rest)
        };
        let s = attrs_text(ps);
        assert(s =~= k + seq!['='] + v + tail);
        let eq = k.len() as int;
        let vs = eq + 1;
        let e = vs + v.len();
        assert(forall|i: int| 0 <= i < k.len() ==> s[i] == k[i]);
        assert(forall|i: int| 0 <= i < v.len() ==> s[vs + i] == v[i]);
        assert(s[eq] == '=');
        assert(e < s.len() ==> s[e] == ',');
        lemma_find_from(s, '=', 0, eq);
        lemma_find_from_bound(s, ',', 0);
        if find_from(s, ',', 0) < eq {
            assert(s[find_from(s, ',', 0)] == k[find_from(s, ',', 0)]);
        }
        if v.len() >= 2 && v[0] == '"' && v[v.len() - 1] == '"' && forall|i: int|
            1 <= i < v.len() - 1 ==> #[trigger] v[i] != '"' {
            assert forall|i: int| vs + 1 <= i < e - 1 implies s[i] != '"' by {
                assert(s[i] == v[i - vs]);
            }
            lemma_find_from(s, '"', vs + 1, e - 1);
            lemma_find_from(s, ',', e, e);
        } else {
            assert(forall|i: int| 0 <= i < v.len() ==> #[trigger] v[i] != ',');
            assert forall|i: int| vs <= i < e implies s[i] != ',' by {
                assert(s[i] == v[i - vs]);
            }
            lemma_find_from(s, ',', vs, e);
        }
        assert(value_end(s, vs) == e);
        assert(s.take(eq) =~= k);
        assert(s.subrange(vs, e) =~= v);
        let next = if e < s.len() {
            e + 1
        } else {
            e
        };
        if ps.len() == 1 {
            assert(s.skip(next) =~= Seq::<char>::empty());
            assert(seq![(k, v)] + Seq::<(Seq<char>, Seq<char>)>::empty() =~= ps);
        } else {
            assert(s.skip(next) =~= attrs_text(rest));
            assert forall|j: int| 0 <= j < rest.len() implies name_ok(#[trigger] rest[j].0) && value_ok(
                rest[j].1,
            ) by {
                assert(rest[j] == ps[j + 1]);
                assert(name_ok(ps[j + 1].0) && value_ok(ps[j + 1].1));
            }
            lemma_scan_attrs_text(rest);
            assert(seq![(k, v)] + rest =~= ps);
        }
    }
}

/// The attribute text of a list of attributes reads back as its present entries, and
/// each key finds the value it was given.
pub proof fn lemma_canon_round_trip(c: Seq<(Seq<char>, Option<Seq<char>>)>)
    requires
        canon_ok(c),
    ensures
        tokenize(attrs_text(present(c))) == Some(present(c)),
        forall|i: int| 0 <= i < c.len() ==> lookup(present(c), #[trigger] c[i].0) == c[i].1,
{
    lemma_present(c);
    lemma_scan_attrs_text(present(c));
}

pub open spec fn opt_view(o: Option<String>) -> Option<Seq<char>> {
    match o {
        Some(s) => Some(s@),
        None => None,
    }
}

pub open spec fn canon_view(c: Seq<(&str, Option<String>)>) -> Seq<(Seq<char>, Option<Seq<char>>)> {
    Seq::new(c.len(), |i: int| (c[i].0@, opt_view(c[i].1)))
}

/// Appends the present entries of `c` as an attribute list.
pub fn write_attrs(out: &mut String, c: &Vec<(&str, Option<String>)>)
    ensures
        final(out)@ == old(out)@ + attrs_text(present(canon_view(c@))),
{
    proof {
        reveal_strlit(",");
        reveal_strlit("=");
    }
    let ghost cv = canon_view(c@);
    let mut first = true;
    let mut i: usize = 0;
    assert(cv.take(0) =~= Seq::<(Seq<char>, Option<Seq<char>>)>::empty());
    assert(out@ =~= old(out)@ + attrs_text(present(cv.take(0))));
    while i < c.len()
        invariant
            cv == canon_view(c@),
            i <= c@.len(),
            out@ == old(out)@ + attrs_text(present(cv.take(i as int))),
            first == (present(cv.take(i as int)).len() == 0),
        decreases c@.len() - i,
    {
        proof {
            reveal_strlit(",");
            reveal_strlit("=");
        }
        let ghost before = out@;
        let ghost ps = present(cv.take(i as int));
        assert(cv.take(i + 1).drop_last() =~= cv.take(i as int));
        assert(cv.take(i + 1).last() == cv[i as int]);
        match &c[i].1 {
            Some(v) => {
                if !first {
                    out.append(",");
                }
                out.append(c[i].0);
                out.append("=");
                out.append(v.as_str());
                proof {
                    lemma_attrs_text_push(ps, (c@[i as int].0@, v@));
                    if ps.len() == 0 {
                        assert(out@ =~= before + pair_text(c@[i as int].0@, v@));
                    } else {
                        assert(out@ =~= before + seq![','] + pair_text(c@[i as int].0@, v@));
                    }
                }
                first = false;
            },
            None => {},
        }
        i = i + 1;
    }
    assert(cv.take(i as int) =~= cv);
}

} // verus!
