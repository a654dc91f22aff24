//! Orderings for the sorted listings: lexicographic order on key sequences, and a
//! stable sort of positions by group, then key, then position.
use vstd::prelude::*;

verus! {

/// Strict lexicographic order on sequences of integers; a proper prefix comes first.
pub open spec fn lex_lt(a: Seq<u64>, b: Seq<u64>) -> bool
    decreases a.len(),
{
    if a.len() == 0 {
        b.len() > 0
    } else if b.len() == 0 {
        false
    } else if a[0] != b[0] {
        a[0] < b[0]
    } else {
        lex_lt(a.drop_first(), b.drop_first())
    }
}

/// No sequence comes before itself.
pub proof fn lemma_lex_irreflexive(a: Seq<u64>)
    ensures
        !lex_lt(a, a),
    decreases a.len(),
{
    if a.len() > 0 {
        lemma_lex_irreflexive(a.drop_first());
    }
}

/// The lexicographic order is transitive.
pub proof fn lemma_lex_transitive(a: Seq<u64>, b: Seq<u64>, c: Seq<u64>)
    requires
        lex_lt(a, b),
        lex_lt(b, c),
    ensures
        lex_lt(a, c),
    decreases a.len(),
{
    if a.len() > 0 && b.len() > 0 && c.len() > 0 && a[0] == b[0] && b[0] == c[0] {
        lemma_lex_transitive(a.drop_first(), b.drop_first(), c.drop_first());
    }
}

/// Of two sequences, at most one comes before the other.
pub proof fn lemma_lex_asymmetric(a: Seq<u64>, b: Seq<u64>)
    requires
        lex_lt(a, b),
    ensures
        !lex_lt(b, a),
    decreases a.len(),
{
    if a.len() > 0 && b.len() > 0 && a[0] == b[0] {
        lemma_lex_asymmetric(a.drop_first(), b.drop_first());
    }
}

/// Of two different sequences, one comes before the other.
pub proof fn lemma_lex_total(a: Seq<u64>, b: Seq<u64>)
    ensures
        lex_lt(a, b) || lex_lt(b, a) || a == b,
    decreases a.len(),
{
    if a.len() == 0 && b.len() == 0 {
        assert(a =~= b);
    } else if a.len() > 0 && b.len() > 0 && a[0] == b[0] {
        lemma_lex_total(a.drop_first(), b.drop_first());
        if a.drop_first() == b.drop_first() {
            assert(a =~= seq![a[0]] + a.drop_first());
            assert(b =~= seq![b[0]] + b.drop_first());
        }
    }
}

/// Whether `a` comes strictly before `b` in lexicographic order.
pub fn lex_less(a: &[u64], b: &[u64]) -> (r: bool)
    ensures
        r == lex_lt(a@, b@),
{
    let mut i: usize = 0;
    assert(a@.skip(0) =~= a@);
    assert(b@.skip(0) =~= b@);
    while i < a.len() && i < b.len() && a[i] == b[i]
        invariant
            i <= a@.len(),
            i <= b@.len(),
            lex_lt(a@, b@) == lex_lt(a@.skip(i as int), b@.skip(i as int)),
        decreases a@.len() - i,
    {
        assert(a@.skip(i as int).drop_first() =~= a@.skip(i + 1));
        assert(b@.skip(i as int).drop_first() =~= b@.skip(i + 1));
        i = i + 1;
    }
    if i < a.len() && i < b.len() {
        a[i] < b[i]
    } else {
        i == a.len() && i < b.len()
    }
}

/// The keys of a table of key vectors, as sequences.
pub open spec fn key_views(keys: Seq<Vec<u64>>) -> Seq<Seq<u64>> {
    keys.map_values(|k: Vec<u64>| k@)
}

/// Whether position `i` goes before position `j` when sorting by group (lower first),
/// then by key (ascending, or descending when `rev`), then by position (ascending, or
/// descending when `rev`).
///
/// This is what a stable ascending sort by key, followed by a reversal when `rev`,
/// followed by a stable sort by group, produces.
pub open spec fn ranked_before(
    groups: Seq<u8>,
    keys: Seq<Seq<u64>>,
    rev: bool,
    i: int,
    j: int,
) -> bool {
    if groups[i] != groups[j] {
        groups[i] < groups[j]
    } else if rev {
        lex_lt(keys[j], keys[i]) || (keys[i] == keys[j] && j < i)
    } else {
        lex_lt(keys[i], keys[j]) || (keys[i] == keys[j] && i < j)
    }
}

/// `p` lists every position of the table exactly once, each before the ones that
/// `ranked_before` puts after it.
pub open spec fn is_ranked_order(
    groups: Seq<u8>,
    keys: Seq<Seq<u64>>,
    rev: bool,
    p: Seq<usize>,
) -> bool {
    &&& p.len() == keys.len()
    &&& forall|k: int| 0 <= k < p.len() ==> p[k] < keys.len()
    &&& forall|a: int, b: int|
        #![trigger p[a], p[b]]
        0 <= a < b < p.len() ==> ranked_before(groups, keys, rev, p[a] as int, p[b] as int)
}

/// No position goes before itself.
pub proof fn lemma_ranked_irreflexive(groups: Seq<u8>, keys: Seq<Seq<u64>>, rev: bool, i: int)
    ensures
        !ranked_before(groups, keys, rev, i, i),
{
    lemma_lex_irreflexive(keys[i]);
}

/// The ranking is transitive.
pub proof fn lemma_ranked_transitive(
    groups: Seq<u8>,
    keys: Seq<Seq<u64>>,
    rev: bool,
    i: int,
    j: int,
    k: int,
)
    requires
        ranked_before(groups, keys, rev, i, j),
        ranked_before(groups, keys, rev, j, k),
    ensures
        ranked_before(groups, keys, rev, i, k),
{
    if groups[i] == groups[j] && groups[j] == groups[k] {
        if rev {
            if lex_lt(keys[j], keys[i]) && lex_lt(keys[k], keys[j]) {
                lemma_lex_transitive(keys[k], keys[j], keys[i]);
            }
        } else {
            if lex_lt(keys[i], keys[j]) && lex_lt(keys[j], keys[k]) {
                lemma_lex_transitive(keys[i], keys[j], keys[k]);
            }
        }
    }
}

/// Of two different positions, one goes before the other.
pub proof fn lemma_ranked_total(groups: Seq<u8>, keys: Seq<Seq<u64>>, rev: bool, i: int, j: int)
    requires
        i != j,
    ensures
        ranked_before(groups, keys, rev, i, j) || ranked_before(groups, keys, rev, j, i),
{
    lemma_lex_total(keys[i], keys[j]);
}

/// Whether position `i` goes before position `j` (see `ranked_before`).
fn goes_before(groups: &Vec<u8>, keys: &Vec<Vec<u64>>, rev: bool, i: usize, j: usize) -> (r: bool)
    requires
        groups.len() == keys.len(),
        i < keys.len(),
        j < keys.len(),
    ensures
        r == ranked_before(groups@, key_views(keys@), rev, i as int, j as int),
{
    let ghost kv = key_views(keys@);
    assert(kv[i as int] == keys@[i as int]@);
    assert(kv[j as int] == keys@[j as int]@);
    if groups[i] != groups[j] {
        return groups[i] < groups[j];
    }
    let ki = keys[i].as_slice();
    let kj = keys[j].as_slice();
    let (first, second) = if rev { (kj, ki) } else { (ki, kj) };
    if lex_less(first, second) {
        return true;
    }
    if lex_less(second, first) {
        return false;
    }
    proof {
        lemma_lex_total(first@, second@);
    }
    if rev { j < i } else { i < j }
}

/// The positions of a table of groups and keys in ranked order: a stable sort by group,
/// then key (descending when `rev`, with equal keys in reverse position order).
pub fn ranked_order(groups: &Vec<u8>, keys: &Vec<Vec<u64>>, rev: bool) -> (p: Vec<usize>)
    requires
        groups.len() == keys.len(),
    ensures
        is_ranked_order(groups@, key_views(keys@), rev, p@),
{
    let n = keys.len();
    let ghost kv = key_views(keys@);
    let mut p: Vec<usize> = Vec::new();
    let mut k: usize = 0;
    while k < n
        invariant
            n == keys@.len(),
            groups@.len() == n,
            kv == key_views(keys@),
            k <= n,
            p@.len() == k,
            forall|m: int| 0 <= m < p@.len() ==> p@[m] < k,
            forall|a: int, b: int|
                #![trigger p@[a], p@[b]]
                0 <= a < b < p@.len() ==> ranked_before(groups@, kv, rev, p@[a] as int, p@[b] as int),
        decreases n - k,
    {
        let mut j: usize = 0;
        while j < p.len() && goes_before(groups, keys, rev, p[j], k)
            invariant
                n == keys@.len(),
                groups@.len() == n,
                kv == key_views(keys@),
                k < n,
                j <= p@.len(),
                p@.len() == k,
                forall|m: int| 0 <= m < p@.len() ==> p@[m] < k,
                forall|m: int| 0 <= m < j ==> ranked_before(groups@, kv, rev, #[trigger] p@[m] as int, k as int),
            decreases p@.len() - j,
        {
            j = j + 1;
        }
        let ghost old_p = p@;
        proof {
            if j < old_p.len() {
                lemma_ranked_total(groups@, kv, rev, old_p[j as int] as int, k as int);
                assert forall|m: int| j < m < old_p.len() implies ranked_before(
                    groups@,
                    kv,
                    rev,
                    k as int,
                    #[trigger] old_p[m] as int,
                ) by {
                    assert(ranked_before(groups@, kv, rev, old_p[j as int] as int, old_p[m] as int));
                    lemma_ranked_transitive(
                        groups@,
                        kv,
                        rev,
                        k as int,
                        old_p[j as int] as int,
                        old_p[m] as int,
                    );
                }
            }
        }
        p.insert(j, k);
        proof {
            assert forall|a: int, b: int|
                #![trigger p@[a], p@[b]]
                0 <= a < b < p@.len() implies ranked_before(
                groups@,
                kv,
                rev,
                p@[a] as int,
                p@[b] as int,
            ) by {
                if b < j {
                    assert(p@[a] == old_p[a] && p@[b] == old_p[b]);
                } else if b == j {
                    assert(p@[a] == old_p[a]);
                } else if a < j {
                    assert(p@[a] == old_p[a] && p@[b] == old_p[b - 1]);
                } else if a == j {
                    assert(p@[b] == old_p[b - 1]);
                } else {
                    assert(p@[a] == old_p[a - 1] && p@[b] == old_p[b - 1]);
                }
            }
        }
        k = k + 1;
    }
    p
}

} // verus!
