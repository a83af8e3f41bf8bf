//! Text comparison in code-point order, and facts about sequences of strings.

use vstd::prelude::*;

verus! {

/// `a` sorts strictly before `b` in lexicographic code-point order. For UTF-8
/// strings this is the order of `Ord for str`, which compares the encoded bytes.
pub open spec fn lex_lt(a: Seq<char>, b: Seq<char>) -> bool
    decreases a.len(),
{
    if a.len() == 0 {
        b.len() > 0
    } else if b.len() == 0 {
        false
    } else if a[0] != b[0] {
        (a[0] as int) < (b[0] as int)
    } else {
        lex_lt(a.drop_first(), b.drop_first())
    }
}

/// The characters of each string of `v`, in order.
pub open spec fn texts(v: Seq<String>) -> Seq<Seq<char>> {
    Seq::new(v.len(), |i: int| v[i]@)
}

/// Some string of `v` has the characters `k`.
pub open spec fn holds_text(v: Seq<String>, k: Seq<char>) -> bool {
    exists|q: int| 0 <= q < v.len() && v[q]@ == k
}

/// The strings of `v` are in strictly increasing order (so no two are equal).
pub open spec fn strictly_sorted(v: Seq<String>) -> bool {
    forall|p: int, q: int| 0 <= p < q < v.len() ==> lex_lt(v[p]@, v[q]@)
}

/// The texts are in strictly increasing order.
pub open spec fn ascending(v: Seq<Seq<char>>) -> bool {
    forall|p: int, q: int| 0 <= p < q < v.len() ==> lex_lt(v[p], v[q])
}

/// A sorted string sequence has sorted texts, and holds exactly the texts
/// that its text sequence contains.
pub proof fn lemma_texts_of_sorted(v: Seq<String>)
    ensures
        strictly_sorted(v) ==> ascending(texts(v)),
        forall|k: Seq<char>| holds_text(v, k) <==> texts(v).contains(k),
{
    assert forall|k: Seq<char>| holds_text(v, k) <==> texts(v).contains(k) by {
        if holds_text(v, k) {
            let q = choose|q: int| 0 <= q < v.len() && v[q]@ == k;
            assert(texts(v)[q] == k);
        }
        if texts(v).contains(k) {
            let q = choose|q: int| 0 <= q < texts(v).len() && texts(v)[q] == k;
            assert(v[q]@ == k);
        }
    }
}

/// A set of texts has only one strictly increasing arrangement.
pub proof fn lemma_ascending_unique(a: Seq<Seq<char>>, b: Seq<Seq<char>>)
    requires
        ascending(a),
        ascending(b),
        forall|k: Seq<char>| a.contains(k) <==> b.contains(k),
    ensures
        a == b,
    decreases a.len(),
{
    if a.len() == 0 {
        if b.len() > 0 {
            assert(b.contains(b[0]));
        }
        assert(a =~= b);
    } else {
        assert(a.contains(a[0]));
        let j = choose|j: int| 0 <= j < b.len() && b[j] == a[0];
        assert(b.contains(b[0]));
        let i = choose|i: int| 0 <= i < a.len() && a[i] == b[0];
        if j > 0 {
            assert(lex_lt(b[0], b[j]));
            lemma_lex_irreflexive(a[0]);
            if i > 0 {
                assert(lex_lt(a[0], a[i]));
                lemma_lex_asymmetric(a[0], a[i]);
            }
        }
        assert(a[0] == b[0]);
        let a1 = a.drop_first();
        let b1 = b.drop_first();
        lemma_lex_irreflexive(a[0]);
        assert forall|k: Seq<char>| a1.contains(k) <==> (a.contains(k) && k != a[0]) by {
            if a1.contains(k) {
                let q = choose|q: int| 0 <= q < a1.len() && a1[q] == k;
                assert(a[q + 1] == k);
                assert(lex_lt(a[0], a[q + 1]));
            }
            if a.contains(k) && k != a[0] {
                let q = choose|q: int| 0 <= q < a.len() && a[q] == k;
                assert(a1[q - 1] == k);
            }
        }
        assert forall|k: Seq<char>| b1.contains(k) <==> (b.contains(k) && k != b[0]) by {
            if b1.contains(k) {
                let q = choose|q: int| 0 <= q < b1.len() && b1[q] == k;
                assert(b[q + 1] == k);
                assert(lex_lt(b[0], b[q + 1]));
            }
            if b.contains(k) && k != b[0] {
                let q = choose|q: int| 0 <= q < b.len() && b[q] == k;
                assert(b1[q - 1] == k);
            }
        }
        assert forall|p: int, q: int| 0 <= p < q < a1.len() implies lex_lt(a1[p], a1[q]) by {
            assert(a1[p] == a[p + 1] && a1[q] == a[q + 1]);
        }
        assert forall|p: int, q: int| 0 <= p < q < b1.len() implies lex_lt(b1[p], b1[q]) by {
            assert(b1[p] == b[p + 1] && b1[q] == b[q + 1]);
        }
        lemma_ascending_unique(a1, b1);
        assert forall|q: int| 0 <= q < a.len() implies a[q] == b[q] by {
            if q > 0 {
                assert(a[q] == a1[q - 1] && b[q] == b1[q - 1]);
            }
        }
        assert(a =~= b);
    }
}

/// No two strings of `v` have the same characters.
pub open spec fn distinct_texts(v: Seq<String>) -> bool {
    forall|p: int, q: int| 0 <= p < v.len() && 0 <= q < v.len() && p != q ==> v[p]@ != v[q]@
}

pub proof fn lemma_lex_irreflexive(a: Seq<char>)
    ensures
        !lex_lt(a, a),
    decreases a.len(),
{
    if a.len() > 0 {
        lemma_lex_irreflexive(a.drop_first());
    }
}

pub proof fn lemma_lex_asymmetric(a: Seq<char>, b: Seq<char>)
    ensures
        lex_lt(a, b) ==> !lex_lt(b, a),
    decreases a.len(),
{
    if a.len() > 0 && b.len() > 0 && a[0] == b[0] {
        lemma_lex_asymmetric(a.drop_first(), b.drop_first());
    }
}

pub proof fn lemma_lex_transitive(a: Seq<char>, b: Seq<char>, c: Seq<char>)
    requires
        lex_lt(a, b),
        lex_lt(b, c),
    ensures
        lex_lt(a, c),
    decreases a.len(),
{
    if a.len() > 0 && a[0] == b[0] && b[0] == c[0] {
        lemma_lex_transitive(a.drop_first(), b.drop_first(), c.drop_first());
    }
}

pub proof fn lemma_lex_total(a: Seq<char>, b: Seq<char>)
    requires
        a != b,
    ensures
        lex_lt(a, b) || lex_lt(b, a),
    decreases a.len(),
{
    if a.len() == 0 && b.len() == 0 {
        assert(a =~= b);
    } else if a.len() > 0 && b.len() > 0 && a[0] == b[0] {
        if a.drop_first() =~= b.drop_first() {
            assert forall|i: int| 0 <= i < a.len() implies a[i] == b[i] by {
                if i > 0 {
                    assert(a[i] == a.drop_first()[i - 1]);
                    assert(b[i] == b.drop_first()[i - 1]);
                }
            }
            assert(a =~= b);
        }
        lemma_lex_total(a.drop_first(), b.drop_first());
    }
}

/// Whether two texts have the same characters.
pub fn text_eq(a: &str, b: &str) -> (r: bool)
    ensures
        r == (a@ == b@),
{
    let n = a.unicode_len();
    if n != b.unicode_len() {
        return false;
    }
    let mut i: usize = 0;
    while i < n
        invariant
            n == a@.len(),
            n == b@.len(),
            i <= n,
            forall|j: int| 0 <= j < i ==> a@[j] == b@[j],
        decreases n - i,
    {
        if a.get_char(i) != b.get_char(i) {
            return false;
        }
        i = i + 1;
    }
    assert(a@ =~= b@);
    true
}

/// Whether `a` sorts strictly before `b`.
pub fn text_before(a: &str, b: &str) -> (r: bool)
    ensures
        r == lex_lt(a@, b@),
{
    let la = a.unicode_len();
    let lb = b.unicode_len();
    let mut i: usize = 0;
    assert(a@.skip(0) =~= a@);
    assert(b@.skip(0) =~= b@);
    while i < la && i < lb
        invariant
            la == a@.len(),
            lb == b@.len(),
            i <= la,
            i <= lb,
            lex_lt(a@, b@) == lex_lt(a@.skip(i as int), b@.skip(i as int)),
        decreases la - i,
    {
        let ca = a.get_char(i);
        let cb = b.get_char(i);
        assert(a@.skip(i as int)[0] == ca);
        assert(b@.skip(i as int)[0] == cb);
        if ca != cb {
            return (ca as u32) < (cb as u32);
        }
        assert(a@.skip(i as int).drop_first() =~= a@.skip(i + 1));
        assert(b@.skip(i as int).drop_first() =~= b@.skip(i + 1));
        i = i + 1;
    }
    la < lb
}

pub proof fn lemma_holds_text_insert(s: Seq<String>, p: int, x: String)
    requires
        0 <= p <= s.len(),
    ensures
        forall|k: Seq<char>| holds_text(s.insert(p, x), k) <==> (holds_text(s, k) || k == x@),
{
    let t = s.insert(p, x);
    assert forall|k: Seq<char>| holds_text(t, k) implies (holds_text(s, k) || k == x@) by {
        let q = choose|q: int| 0 <= q < t.len() && t[q]@ == k;
        if q < p {
            assert(s[q]@ == k);
        } else if q > p {
            assert(s[q - 1]@ == k);
        }
    }
    assert forall|k: Seq<char>| (holds_text(s, k) || k == x@) implies holds_text(t, k) by {
        if k == x@ {
            assert(t[p]@ == k);
        } else {
            let q = choose|q: int| 0 <= q < s.len() && s[q]@ == k;
            if q < p {
                assert(t[q]@ == k);
            } else {
                assert(t[q + 1]@ == k);
            }
        }
    }
}

pub proof fn lemma_holds_text_push(s: Seq<String>, x: String)
    ensures
        forall|k: Seq<char>| holds_text(s.push(x), k) <==> (holds_text(s, k) || k == x@),
{
    assert(s.push(x) =~= s.insert(s.len() as int, x));
    lemma_holds_text_insert(s, s.len() as int, x);
}

pub proof fn lemma_sorted_insert(s: Seq<String>, p: int, x: String)
    requires
        strictly_sorted(s),
        0 <= p <= s.len(),
        forall|q: int| 0 <= q < p ==> lex_lt(s[q]@, x@),
        p < s.len() ==> lex_lt(x@, s[p]@),
    ensures
        strictly_sorted(s.insert(p, x)),
{
    let t = s.insert(p, x);
    assert forall|a: int, b: int| 0 <= a < b < t.len() implies lex_lt(t[a]@, t[b]@) by {
        if b < p {
            assert(t[a] == s[a] && t[b] == s[b]);
        } else if b == p {
            assert(t[a] == s[a] && t[b] == x);
        } else if a < p {
            assert(t[a] == s[a] && t[b] == s[b - 1]);
        } else if a == p {
            assert(t[a] == x && t[b] == s[b - 1]);
            if b - 1 > p {
                lemma_lex_transitive(x@, s[p]@, s[b - 1]@);
            }
        } else {
            assert(t[a] == s[a - 1] && t[b] == s[b - 1]);
        }
    }
}

/// Position of a string with the characters of `target` in `items`, if any.
pub fn find_text(items: &Vec<String>, target: &str) -> (r: Option<usize>)
    ensures
        match r {
            Some(p) => p < items.len() && items@[p as int]@ == target@,
            None => !holds_text(items@, target@),
        },
{
    let n = items.len();
    let mut p: usize = 0;
    while p < n
        invariant
            n == items.len(),
            p <= n,
            forall|q: int| 0 <= q < p ==> items@[q]@ != target@,
        decreases n - p,
    {
        if text_eq(items[p].as_str(), target) {
            return Some(p);
        }
        p = p + 1;
    }
    None
}

/// The distinct strings of `items`, in strictly increasing order.
pub fn sorted_distinct(items: &Vec<String>) -> (r: Vec<String>)
    ensures
        strictly_sorted(r@),
        forall|k: Seq<char>| holds_text(r@, k) <==> holds_text(items@, k),
{
    let mut out: Vec<String> = Vec::new();
    let n = items.len();
    for i in 0..n
        invariant
            n == items.len(),
            strictly_sorted(out@),
            forall|k: Seq<char>| holds_text(out@, k) <==> holds_text(items@.take(i as int), k),
    {
        let item = &items[i];
        let mut p: usize = 0;
        while p < out.len() && text_before(out[p].as_str(), item.as_str())
            invariant
                p <= out.len(),
                forall|q: int| 0 <= q < p ==> lex_lt(out@[q]@, item@),
            decreases out.len() - p,
        {
            p = p + 1;
        }
        let present = p < out.len() && text_eq(out[p].as_str(), item.as_str());
        let ghost before = out@;
        if !present {
            proof {
                if p < out.len() {
                    lemma_lex_total(out@[p as int]@, item@);
                }
                lemma_sorted_insert(before, p as int, *item);
                lemma_holds_text_insert(before, p as int, *item);
            }
            out.insert(p, item.clone());
            assert(out@ == before.insert(p as int, *item));
        }
        proof {
            let prefix = items@.take(i as int);
            assert(items@.take(i + 1) =~= prefix.push(*item));
            lemma_holds_text_push(prefix, *item);
            if present {
                assert(out@[p as int]@ == item@);
                assert(holds_text(out@, item@));
            }
            assert forall|k: Seq<char>| holds_text(out@, k) <==> holds_text(items@.take(i + 1), k) by {
                assert(holds_text(items@.take(i + 1), k) <==> (holds_text(prefix, k) || k == item@));
                assert(holds_text(before, k) <==> holds_text(prefix, k));
            }
        }
    }
    assert(items@.take(n as int) =~= items@);
    out
}

} // verus!
