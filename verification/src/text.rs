//! Character-sequence utilities over the `char` view of strings: equality,
//! prefix and substring tests, repeated prefix stripping and the
//! lexicographic order of strings.

use vstd::prelude::*;

verus! {

/// `p` occurs somewhere inside `s` as a contiguous run.
pub open spec fn occurs_in(p: Seq<char>, s: Seq<char>) -> bool {
    exists|i: int| 0 <= i && i + p.len() <= s.len() && #[trigger] s.subrange(i, i + p.len()) == p
}

/// `s` with every leading copy of a non-empty `p` removed, repeatedly;
/// an empty `p` removes nothing.
pub open spec fn strip_repeated(s: Seq<char>, p: Seq<char>) -> Seq<char>
    decreases s.len(),
{
    if p.len() > 0 && p.is_prefix_of(s) {
        strip_repeated(s.skip(p.len() as int), p)
    } else {
        s
    }
}

/// Lexicographic order of character sequences, characters compared by
/// their code points; a proper prefix comes first.
pub open spec fn seq_lt(a: Seq<char>, b: Seq<char>) -> bool
    decreases a.len(),
{
    if a.len() == 0 {
        b.len() > 0
    } else if b.len() == 0 {
        false
    } else if a[0] != b[0] {
        a[0] < b[0]
    } else {
        seq_lt(a.drop_first(), b.drop_first())
    }
}

/// No sequence comes before itself.
pub proof fn lemma_seq_lt_irreflexive(a: Seq<char>)
    ensures
        !seq_lt(a, a),
    decreases a.len(),
{
    if a.len() > 0 {
        lemma_seq_lt_irreflexive(a.drop_first());
    }
}

/// The order is transitive.
pub proof fn lemma_seq_lt_transitive(a: Seq<char>, b: Seq<char>, c: Seq<char>)
    requires
        seq_lt(a, b),
        seq_lt(b, c),
    ensures
        seq_lt(a, c),
    decreases a.len(),
{
    if a.len() > 0 && b.len() > 0 && c.len() > 0 && a[0] == b[0] && b[0] == c[0] {
        lemma_seq_lt_transitive(a.drop_first(), b.drop_first(), c.drop_first());
    }
}

/// Any two distinct sequences are ordered one way or the other.
pub proof fn lemma_seq_lt_total(a: Seq<char>, b: Seq<char>)
    ensures
        a != b ==> seq_lt(a, b) || seq_lt(b, a),
    decreases a.len(),
{
    if a.len() > 0 && b.len() > 0 && a[0] == b[0] {
        lemma_seq_lt_total(a.drop_first(), b.drop_first());
        if a.drop_first() == b.drop_first() {
            assert forall|i: int| 0 <= i < a.len() implies a[i] == b[i] by {
                if i > 0 {
                    assert(a[i] == a.drop_first()[i - 1]);
                    assert(b[i] == b.drop_first()[i - 1]);
                }
            }
            assert(a =~= b);
        }
    } else if a.len() == 0 && b.len() == 0 {
        assert(a =~= b);
    }
}

/// `seq_lt` is the lexicographic order: `a` comes before `b` exactly when,
/// at the first position where they differ, `a` has the smaller code point,
/// or when `a` is a proper prefix of `b`. Lengths matter only through the
/// prefix case.
pub proof fn lemma_seq_lt_lexicographic(a: Seq<char>, b: Seq<char>)
    ensures
        seq_lt(a, b) <==> (exists|k: int|
            #![trigger a[k], b[k]]
            0 <= k < a.len() && k < b.len() && a.take(k) == b.take(k) && a[k] < b[k]) || (a.len()
            < b.len() && a == b.take(a.len() as int)),
    decreases a.len(),
{
    if a.len() == 0 {
        assert(a =~= b.take(0));
    } else if b.len() == 0 {
    } else if a[0] != b[0] {
        assert(a.take(0) =~= b.take(0));
        if exists|k: int|
            #![trigger a[k], b[k]]
            0 <= k < a.len() && k < b.len() && a.take(k) == b.take(k) && a[k] < b[k] {
            let k = choose|k: int|
                #![trigger a[k], b[k]]
                0 <= k < a.len() && k < b.len() && a.take(k) == b.take(k) && a[k] < b[k];
            if k > 0 {
                assert(a.take(k)[0] == b.take(k)[0]);
            }
        }
        if a.len() < b.len() && a == b.take(a.len() as int) {
            assert(a[0] == b.take(a.len() as int)[0]);
        }
    } else {
        let a1 = a.drop_first();
        let b1 = b.drop_first();
        lemma_seq_lt_lexicographic(a1, b1);
        if exists|k: int|
            #![trigger a1[k], b1[k]]
            0 <= k < a1.len() && k < b1.len() && a1.take(k) == b1.take(k) && a1[k] < b1[k] {
            let k = choose|k: int|
                #![trigger a1[k], b1[k]]
                0 <= k < a1.len() && k < b1.len() && a1.take(k) == b1.take(k) && a1[k] < b1[k];
            assert(a.take(k + 1) =~= b.take(k + 1)) by {
                assert forall|i: int| 0 <= i < k + 1 implies #[trigger] a.take(k + 1)[i] == b.take(k + 1)[i] by {
                    if i > 0 {
                        assert(a1.take(k)[i - 1] == b1.take(k)[i - 1]);
                    }
                }
            }
            assert(a[k + 1] == a1[k] && b[k + 1] == b1[k]);
        }
        if exists|k: int|
            #![trigger a[k], b[k]]
            0 <= k < a.len() && k < b.len() && a.take(k) == b.take(k) && a[k] < b[k] {
            let k = choose|k: int|
                #![trigger a[k], b[k]]
                0 <= k < a.len() && k < b.len() && a.take(k) == b.take(k) && a[k] < b[k];
            assert(k > 0);
            assert(a1.take(k - 1) =~= b1.take(k - 1)) by {
                assert forall|i: int| 0 <= i < k - 1 implies #[trigger] a1.take(k - 1)[i] == b1.take(k - 1)[i] by {
                    assert(a.take(k)[i + 1] == b.take(k)[i + 1]);
                }
            }
            assert(a1[k - 1] == a[k] && b1[k - 1] == b[k]);
        }
        if a1.len() < b1.len() && a1 == b1.take(a1.len() as int) {
            assert(a =~= b.take(a.len() as int)) by {
                assert forall|i: int| 0 <= i < a.len() implies #[trigger] a[i] == b.take(a.len() as int)[i] by {
                    if i > 0 {
                        assert(a1[i - 1] == b1.take(a1.len() as int)[i - 1]);
                    }
                }
            }
        }
        if a.len() < b.len() && a == b.take(a.len() as int) {
            assert(a1 =~= b1.take(a1.len() as int)) by {
                assert forall|i: int| 0 <= i < a1.len() implies #[trigger] a1[i] == b1.take(a1.len() as int)[i] by {
                    assert(a[i + 1] == b.take(a.len() as int)[i + 1]);
                }
            }
        }
    }
}

/// The characters of `s`, in order.
pub fn chars_of(s: &str) -> (v: Vec<char>)
    ensures
        v@ == s@,
{
    let mut v: Vec<char> = Vec::new();
    for c in it: s.chars()
        invariant
            v@ == it.seq().take(it.index() as int),
    {
        v.push(c);
    }
    v
}

/// Whether `p` stands in `s` starting at position `i`.
pub fn matches_at(s: &Vec<char>, p: &Vec<char>, i: usize) -> (r: bool)
    requires
        i <= s.len(),
    ensures
        r == (i + p.len() <= s.len() && s@.subrange(i as int, i + p.len()) == p@),
{
    if p.len() > s.len() - i {
        return false;
    }
    let mut j: usize = 0;
    while j < p.len()
        invariant
            j <= p.len(),
            i + p.len() <= s.len(),
            forall|k: int| 0 <= k < j ==> s@[i + k] == p@[k],
        decreases p.len() - j,
    {
        if s[i + j] != p[j] {
            assert(s@.subrange(i as int, i + p.len())[j as int] != p@[j as int]);
            return false;
        }
        j += 1;
    }
    assert(s@.subrange(i as int, i + p.len()) =~= p@);
    true
}

/// Whether the two sequences are equal.
pub fn chars_eq(a: &Vec<char>, b: &Vec<char>) -> (r: bool)
    ensures
        r == (a@ == b@),
{
    if a.len() != b.len() {
        return false;
    }
    let r = matches_at(a, b, 0);
    assert(a@.subrange(0, a@.len() as int) =~= a@);
    r
}

/// Whether `s` begins with `p`.
pub fn starts_with_chars(s: &Vec<char>, p: &Vec<char>) -> (r: bool)
    ensures
        r == p@.is_prefix_of(s@),
{
    matches_at(s, p, 0)
}

/// Whether `p` occurs anywhere in `s`.
pub fn contains_chars(s: &Vec<char>, p: &Vec<char>) -> (r: bool)
    ensures
        r == occurs_in(p@, s@),
{
    if p.len() > s.len() {
        return false;
    }
    let last: usize = s.len() - p.len();
    let mut i: usize = 0;
    while i < last
        invariant
            last == s.len() - p.len(),
            i <= last,
            forall|k: int| 0 <= k < i ==> #[trigger] s@.subrange(k, k + p.len()) != p@,
        decreases last - i,
    {
        if matches_at(s, p, i) {
            return true;
        }
        i += 1;
    }
    matches_at(s, p, last)
}

/// `s` with every leading copy of `p` removed, as `str::trim_start_matches`
/// does for a string pattern.
pub fn strip_repeated_prefix(s: &Vec<char>, p: &Vec<char>) -> (r: Vec<char>)
    ensures
        r@ == strip_repeated(s@, p@),
{
    let mut k: usize = 0;
    let mut go = p.len() > 0;
    assert(s@.skip(0) =~= s@);
    while go
        invariant
            k <= s.len(),
            strip_repeated(s@, p@) == strip_repeated(s@.skip(k as int), p@),
            !go ==> strip_repeated(s@.skip(k as int), p@) == s@.skip(k as int),
        decreases (s.len() - k) as int + if go { 1int } else { 0int },
    {
        if p.len() <= s.len() - k {
            assert(s@.skip(k as int).subrange(0, p@.len() as int) =~= s@.subrange(
                k as int,
                k + p.len(),
            ));
        }
        if matches_at(s, p, k) {
            assert(s@.skip(k as int).skip(p@.len() as int) =~= s@.skip(k + p.len()));
            k = k + p.len();
            go = p.len() > 0;
        } else {
            go = false;
        }
    }
    let mut r: Vec<char> = Vec::new();
    let mut j: usize = k;
    while j < s.len()
        invariant
            k <= j <= s.len(),
            r@ == s@.subrange(k as int, j as int),
        decreases s.len() - j,
    {
        r.push(s[j]);
        assert(s@.subrange(k as int, j + 1) =~= s@.subrange(k as int, j as int).push(s@[j as int]));
        j += 1;
    }
    assert(s@.subrange(k as int, s.len() as int) =~= s@.skip(k as int));
    r
}

/// Whether `a` comes before `b` in lexicographic order.
pub fn chars_lt(a: &Vec<char>, b: &Vec<char>) -> (r: bool)
    ensures
        r == seq_lt(a@, b@),
{
    let mut i: usize = 0;
    assert(a@.skip(0) =~= a@);
    assert(b@.skip(0) =~= b@);
    while i < a.len() && i < b.len()
        invariant
            i <= a.len(),
            i <= b.len(),
            seq_lt(a@, b@) == seq_lt(a@.skip(i as int), b@.skip(i as int)),
        decreases a.len() - i,
    {
        if a[i] != b[i] {
            assert(a@.skip(i as int)[0] == a@[i as int]);
            assert(b@.skip(i as int)[0] == b@[i as int]);
            return a[i] < b[i];
        }
        assert(a@.skip(i as int).drop_first() =~= a@.skip(i + 1));
        assert(b@.skip(i as int).drop_first() =~= b@.skip(i + 1));
        i += 1;
    }
    i < b.len()
}

} // verus!
