use vstd::prelude::*;

verus! {

/// The interactions of body `i` with every later body of `n`:
/// `(i, i + 1), (i, i + 2), ..., (i, n - 1)`.
pub open spec fn pair_row(n: nat, i: nat) -> Seq<(usize, usize)> {
    Seq::new((n - i - 1) as nat, |k: int| (i as usize, (i + 1 + k) as usize))
}

/// The rows of bodies `0 .. rows`, one after the other.
pub open spec fn pair_rows(n: nat, rows: nat) -> Seq<(usize, usize)>
    decreases rows,
{
    if rows == 0 {
        Seq::empty()
    } else {
        pair_rows(n, (rows - 1) as nat) + pair_row(n, (rows - 1) as nat)
    }
}

/// Every unordered pair of distinct bodies among `n`, each written with the
/// smaller index first, in lexicographic order: the order in which a
/// simulation step visits them.
pub open spec fn interaction_pairs_spec(n: nat) -> Seq<(usize, usize)> {
    pair_rows(n, n)
}

/// Lists the pairs of bodies that interact in one simulation step, in the
/// order in which they are visited: for each body `i`, its pairs with the
/// bodies `j > i`, by increasing `j`.
pub fn interaction_pairs(n: usize) -> (pairs: Vec<(usize, usize)>)
    ensures
        pairs@ == interaction_pairs_spec(n as nat),
{
    let mut pairs: Vec<(usize, usize)> = Vec::new();
    let mut i: usize = 0;
    while i < n
        invariant
            i <= n,
            pairs@ == pair_rows(n as nat, i as nat),
        decreases n - i,
    {
        let mut j: usize = i + 1;
        while j < n
            invariant
                i < n,
                i + 1 <= j <= n,
                pairs@ == pair_rows(n as nat, i as nat) + pair_row(n as nat, i as nat).take(
                    j - i - 1,
                ),
            decreases n - j,
        {
            let ghost before = pairs@;
            pairs.push((i, j));
            assert(pair_row(n as nat, i as nat).take(j - i) =~= pair_row(n as nat, i as nat).take(
                j - i - 1,
            ).push((i, j)));
            assert(pairs@ =~= before.push((i, j)));
            j = j + 1;
        }
        assert(pair_row(n as nat, i as nat).take(n - i - 1) =~= pair_row(n as nat, i as nat));
        i = i + 1;
    }
    pairs
}


/// Whether the pair `p` involves body `k`.
pub open spec fn involves(p: (usize, usize), k: nat) -> bool {
    p.0 == k || p.1 == k
}

/// How many pairs of `s` involve body `k`.
pub open spec fn count_involving(s: Seq<(usize, usize)>, k: nat) -> nat
    decreases s.len(),
{
    if s.len() == 0 {
        0
    } else {
        count_involving(s.drop_last(), k) + if involves(s.last(), k) {
            1nat
        } else {
            0nat
        }
    }
}

proof fn lemma_pair_rows_shape(n: nat, rows: nat)
    requires
        rows <= n,
        n <= usize::MAX,
    ensures
        2 * pair_rows(n, rows).len() == rows * (2 * n - 1 - rows),
        forall|t: int|
            0 <= t < pair_rows(n, rows).len() ==> {
                let p = #[trigger] pair_rows(n, rows)[t];
                p.0 < rows && p.0 < p.1 && p.1 < n
            },
        pair_rows(n, rows).no_duplicates(),
        forall|i: nat, j: nat|
            i < rows && i < j < n ==> #[trigger] pair_rows(n, rows).contains(
                (i as usize, j as usize),
            ),
    decreases rows,
{
    if rows > 0 {
        let r = (rows - 1) as nat;
        lemma_pair_rows_shape(n, r);
        let a = pair_rows(n, r);
        let b = pair_row(n, r);
        let s = pair_rows(n, rows);
        assert(s == a + b);
        assert(2 * s.len() == rows * (2 * n - 1 - rows)) by (nonlinear_arith)
            requires
                2 * a.len() == r * (2 * n - 1 - r),
                s.len() == a.len() + b.len(),
                b.len() == n - r - 1,
                rows == r + 1,
                rows <= n,
        ;
        assert forall|t: int| 0 <= t < s.len() implies {
            let p = #[trigger] s[t];
            p.0 < rows && p.0 < p.1 && p.1 < n
        } by {
            if t >= a.len() {
                assert(s[t] == b[t - a.len()]);
            } else {
                assert(s[t] == a[t]);
            }
        }
        assert forall|t1: int, t2: int|
            0 <= t1 < s.len() && 0 <= t2 < s.len() && t1 != t2 implies s[t1] != s[t2] by {
            if t1 < a.len() && t2 < a.len() {
                assert(s[t1] == a[t1] && s[t2] == a[t2]);
            } else if t1 >= a.len() && t2 >= a.len() {
                assert(s[t1] == b[t1 - a.len()] && s[t2] == b[t2 - a.len()]);
            } else if t1 < a.len() {
                assert(s[t1] == a[t1] && s[t2] == b[t2 - a.len()]);
                assert(a[t1].0 < r);
            } else {
                assert(s[t2] == a[t2] && s[t1] == b[t1 - a.len()]);
                assert(a[t2].0 < r);
            }
        }
        assert forall|i: nat, j: nat| i < rows && i < j < n implies #[trigger] s.contains(
            (i as usize, j as usize),
        ) by {
            if i < r {
                assert(a.contains((i as usize, j as usize)));
                let t = choose|t: int| 0 <= t < a.len() && a[t] == (i as usize, j as usize);
                assert(s[t] == a[t]);
            } else {
                let t = a.len() + (j - i - 1);
                assert(b[j - i - 1] == (i as usize, j as usize));
                assert(s[t] == b[j - i - 1]);
            }
        }
    }
}

proof fn lemma_count_concat(a: Seq<(usize, usize)>, b: Seq<(usize, usize)>, k: nat)
    ensures
        count_involving(a + b, k) == count_involving(a, k) + count_involving(b, k),
    decreases b.len(),
{
    if b.len() == 0 {
        assert(a + b =~= a);
    } else {
        lemma_count_concat(a, b.drop_last(), k);
        assert((a + b).drop_last() =~= a + b.drop_last());
        assert((a + b).last() == b.last());
    }
}

proof fn lemma_count_row_prefix(n: nat, i: nat, t: nat, k: nat)
    requires
        i < n,
        t <= n - i - 1,
        n <= usize::MAX,
        k < n,
    ensures
        count_involving(pair_row(n, i).take(t as int), k) == if i == k {
            t as int
        } else if i < k && k - i - 1 < t {
            1
        } else {
            0
        },
    decreases t,
{
    let row = pair_row(n, i);
    if t == 0 {
        assert(row.take(0) =~= Seq::<(usize, usize)>::empty());
    } else {
        lemma_count_row_prefix(n, i, (t - 1) as nat, k);
        assert(row.take(t as int).drop_last() =~= row.take(t - 1));
        assert(row.take(t as int).last() == row[t - 1]);
    }
}

proof fn lemma_count_rows(n: nat, rows: nat, k: nat)
    requires
        rows <= n,
        n <= usize::MAX,
        k < n,
    ensures
        count_involving(pair_rows(n, rows), k) == if k < rows {
            n - 1
        } else {
            rows as int
        },
    decreases rows,
{
    if rows > 0 {
        let r = (rows - 1) as nat;
        lemma_count_rows(n, r, k);
        lemma_count_concat(pair_rows(n, r), pair_row(n, r), k);
        lemma_count_row_prefix(n, r, (n - r - 1) as nat, k);
        assert(pair_row(n, r).take(n - r - 1) =~= pair_row(n, r));
    }
}

/// The interaction schedule of `n` bodies lists exactly the unordered pairs
/// of distinct bodies: every entry is a pair `(i, j)` with `i < j < n`, every
/// such pair is listed, and none is listed twice; so there are
/// `n * (n - 1) / 2` of them.
pub proof fn lemma_interaction_pairs_exact(n: nat)
    requires
        n <= usize::MAX,
    ensures
        forall|t: int|
            0 <= t < interaction_pairs_spec(n).len() ==> {
                let p = #[trigger] interaction_pairs_spec(n)[t];
                p.0 < p.1 && p.1 < n
            },
        forall|i: nat, j: nat|
            i < j < n ==> #[trigger] interaction_pairs_spec(n).contains((i as usize, j as usize)),
        interaction_pairs_spec(n).no_duplicates(),
        2 * interaction_pairs_spec(n).len() == n * (n - 1),
{
    lemma_pair_rows_shape(n, n);
    assert(n * (2 * n - 1 - n) == n * (n - 1));
}

/// In one simulation step each of `n` bodies takes part in exactly `n - 1`
/// interactions: one with every other body.
pub proof fn lemma_each_body_interacts_with_all_others(n: nat, k: nat)
    requires
        n <= usize::MAX,
        k < n,
    ensures
        count_involving(interaction_pairs_spec(n), k) == n - 1,
{
    lemma_count_rows(n, n, k);
}

} // verus!
