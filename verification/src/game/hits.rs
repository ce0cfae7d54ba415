use vstd::prelude::*;

verus! {

/// The rows of an intersection matrix as sequences: `rows[b][a]` tells
/// whether bullet `b`'s last step crossed asteroid `a`.
pub open spec fn rows_of(m: Seq<Vec<bool>>) -> Seq<Seq<bool>> {
    m.map_values(|v: Vec<bool>| v@)
}

/// The first asteroid at or after `from` that the bullet crossed and that is
/// not taken yet.
pub open spec fn first_free(row: Seq<bool>, taken: Seq<bool>, from: int) -> Option<int>
    decreases taken.len() - from,
{
    if from < 0 || from >= taken.len() {
        None
    } else if row[from] && !taken[from] {
        Some(from)
    } else {
        first_free(row, taken, from + 1)
    }
}

/// Which of `n` asteroids are hit once the first `k` bullets were handled,
/// bullets taking turns in order.
pub open spec fn taken_after(rows: Seq<Seq<bool>>, n: nat, k: nat) -> Seq<bool>
    decreases k,
{
    if k == 0 {
        Seq::new(n, |i: int| false)
    } else {
        let t = taken_after(rows, n, (k - 1) as nat);
        match first_free(rows[k - 1], t, 0) {
            Some(a) => t.update(a, true),
            None => t,
        }
    }
}

/// The asteroid bullet `b` destroys, if any: the first one its path crossed
/// that no earlier bullet of the frame has hit.
pub open spec fn target_of(rows: Seq<Seq<bool>>, n: nat, b: nat) -> Option<int> {
    first_free(rows[b as int], taken_after(rows, n, b), 0)
}

/// How many of the first `k` bullets hit something.
pub open spec fn hit_count(rows: Seq<Seq<bool>>, n: nat, k: nat) -> nat
    decreases k,
{
    if k == 0 {
        0
    } else {
        hit_count(rows, n, (k - 1) as nat) + if target_of(rows, n, (k - 1) as nat) is Some {
            1nat
        } else {
            0nat
        }
    }
}

/// Number of `true` entries.
pub open spec fn count_true(s: Seq<bool>) -> nat
    decreases s.len(),
{
    if s.len() == 0 {
        0
    } else {
        count_true(s.drop_last()) + if s.last() {
            1nat
        } else {
            0nat
        }
    }
}

pub open spec fn as_int(o: Option<usize>) -> Option<int> {
    match o {
        Some(a) => Some(a as int),
        None => None,
    }
}

/// The outcome of checking a frame's bullets against the asteroid field.
pub struct HitOutcome {
    /// For each bullet, the asteroid it destroyed; a bullet with a target is
    /// used up, the others fly on.
    pub targets: Vec<Option<usize>>,
    /// For each asteroid, whether a bullet hit it.
    pub asteroid_hit: Vec<bool>,
    /// Number of asteroids hit, which is also the number of bullets used up.
    pub hits: usize,
}

proof fn lemma_first_free(row: Seq<bool>, taken: Seq<bool>, from: int)
    requires
        0 <= from,
    ensures
        match first_free(row, taken, from) {
            Some(a) => {
                &&& from <= a < taken.len()
                &&& row[a]
                &&& !taken[a]
                &&& forall|j: int| from <= j < a ==> !(row[j] && !taken[j])
            },
            None => forall|j: int| from <= j < taken.len() ==> !(row[j] && !taken[j]),
        },
    decreases taken.len() - from,
{
    if from < taken.len() && !(row[from] && !taken[from]) {
        lemma_first_free(row, taken, from + 1);
    }
}

proof fn lemma_taken_len(rows: Seq<Seq<bool>>, n: nat, k: nat)
    ensures
        taken_after(rows, n, k).len() == n,
    decreases k,
{
    if k > 0 {
        let t = taken_after(rows, n, (k - 1) as nat);
        lemma_taken_len(rows, n, (k - 1) as nat);
        lemma_first_free(rows[k - 1], t, 0);
    }
}

/// An asteroid once hit stays hit for the rest of the frame.
proof fn lemma_taken_monotone(rows: Seq<Seq<bool>>, n: nat, k1: nat, k2: nat, a: int)
    requires
        k1 <= k2,
        0 <= a < n,
        taken_after(rows, n, k1)[a],
    ensures
        taken_after(rows, n, k2)[a],
    decreases k2,
{
    if k2 > k1 {
        lemma_taken_monotone(rows, n, k1, (k2 - 1) as nat, a);
        let t = taken_after(rows, n, (k2 - 1) as nat);
        lemma_taken_len(rows, n, (k2 - 1) as nat);
        lemma_first_free(rows[k2 - 1], t, 0);
    }
}

proof fn lemma_count_update(s: Seq<bool>, a: int)
    requires
        0 <= a < s.len(),
        !s[a],
    ensures
        count_true(s.update(a, true)) == count_true(s) + 1,
    decreases s.len(),
{
    let u = s.update(a, true);
    if a == s.len() - 1 {
        assert(u.drop_last() =~= s.drop_last());
    } else {
        assert(u.drop_last() =~= s.drop_last().update(a, true));
        lemma_count_update(s.drop_last(), a);
    }
}

proof fn lemma_count_none(n: nat)
    ensures
        count_true(Seq::new(n, |i: int| false)) == 0,
    decreases n,
{
    if n > 0 {
        assert(Seq::new(n, |i: int| false).drop_last() =~= Seq::new((n - 1) as nat, |i: int| false));
        lemma_count_none((n - 1) as nat);
    }
}

/// The asteroid a bullet destroys is one its path crossed, that no earlier
/// bullet of the frame hit, and the first such one in field order.
pub proof fn lemma_target_is_first_free(rows: Seq<Seq<bool>>, n: nat, b: nat)
    ensures
        match target_of(rows, n, b) {
            Some(a) => {
                &&& 0 <= a < n
                &&& rows[b as int][a]
                &&& !taken_after(rows, n, b)[a]
                &&& forall|j: int|
                    0 <= j < a ==> !(rows[b as int][j] && !taken_after(rows, n, b)[j])
            },
            None => forall|j: int|
                0 <= j < n ==> !(rows[b as int][j] && !taken_after(rows, n, b)[j]),
        },
{
    lemma_taken_len(rows, n, b);
    lemma_first_free(rows[b as int], taken_after(rows, n, b), 0);
}

/// No asteroid is destroyed by two bullets in one frame.
pub proof fn lemma_targets_distinct(rows: Seq<Seq<bool>>, n: nat, b1: nat, b2: nat)
    requires
        b1 < b2,
        target_of(rows, n, b1) is Some,
        target_of(rows, n, b2) is Some,
    ensures
        target_of(rows, n, b1) != target_of(rows, n, b2),
{
    let a1 = target_of(rows, n, b1)->0;
    lemma_target_is_first_free(rows, n, b1);
    lemma_target_is_first_free(rows, n, b2);
    lemma_taken_len(rows, n, b1);
    assert(taken_after(rows, n, (b1 + 1) as nat) == taken_after(rows, n, b1).update(a1, true));
    lemma_taken_monotone(rows, n, (b1 + 1) as nat, b2, a1);
}

/// Bullets used up and asteroids hit are equally many.
pub proof fn lemma_hits_match_taken(rows: Seq<Seq<bool>>, n: nat, k: nat)
    ensures
        count_true(taken_after(rows, n, k)) == hit_count(rows, n, k),
    decreases k,
{
    if k == 0 {
        lemma_count_none(n);
    } else {
        lemma_hits_match_taken(rows, n, (k - 1) as nat);
        let t = taken_after(rows, n, (k - 1) as nat);
        lemma_taken_len(rows, n, (k - 1) as nat);
        lemma_first_free(rows[k - 1], t, 0);
        if let Some(a) = first_free(rows[k - 1], t, 0) {
            lemma_count_update(t, a);
        }
    }
}

fn first_free_exec(row: &Vec<bool>, taken: &Vec<bool>) -> (r: Option<usize>)
    requires
        row.len() == taken.len(),
    ensures
        as_int(r) == first_free(row@, taken@, 0),
{
    let mut a: usize = 0;
    while a < taken.len()
        invariant
            a <= taken.len(),
            row.len() == taken.len(),
            first_free(row@, taken@, 0) == first_free(row@, taken@, a as int),
        decreases taken.len() - a,
    {
        if row[a] && !taken[a] {
            return Some(a);
        }
        a = a + 1;
    }
    None
}

/// Lets the frame's bullets, in order, each destroy the first asteroid its
/// path crossed that no earlier bullet hit; `intersects[b][a]` tells whether
/// bullet `b`'s last step crossed asteroid `a`.
pub fn resolve_hits(intersects: &Vec<Vec<bool>>, n_asteroids: usize) -> (r: HitOutcome)
    requires
        forall|b: int| 0 <= b < intersects.len() ==> #[trigger] intersects[b].len() == n_asteroids,
    ensures
        r.targets.len() == intersects.len(),
        forall|b: int|
            0 <= b < intersects.len() ==> as_int(#[trigger] r.targets[b]) == target_of(
                rows_of(intersects@),
                n_asteroids as nat,
                b as nat,
            ),
        r.asteroid_hit@ == taken_after(rows_of(intersects@), n_asteroids as nat, intersects.len() as nat),
        r.hits == hit_count(rows_of(intersects@), n_asteroids as nat, intersects.len() as nat),
        r.hits == count_true(r.asteroid_hit@),
        r.asteroid_hit.len() == n_asteroids,
{
    let ghost rows = rows_of(intersects@);
    let n = n_asteroids;
    let mut taken: Vec<bool> = Vec::new();
    for a in 0..n
        invariant
            taken@ == Seq::new(a as nat, |i: int| false),
    {
        taken.push(false);
        assert(taken@ =~= Seq::new((a + 1) as nat, |i: int| false));
    }
    assert(taken@ == taken_after(rows, n as nat, 0));
    let mut targets: Vec<Option<usize>> = Vec::new();
    let mut hits: usize = 0;
    let m = intersects.len();
    for b in 0..m
        invariant
            m == intersects.len(),
            rows == rows_of(intersects@),
            forall|c: int| 0 <= c < intersects.len() ==> #[trigger] intersects[c].len() == n,
            taken@ == taken_after(rows, n as nat, b as nat),
            targets.len() == b,
            forall|c: int| 0 <= c < b ==> as_int(#[trigger] targets[c]) == target_of(rows, n as nat, c as nat),
            hits == hit_count(rows, n as nat, b as nat),
            hits <= b,
    {
        proof {
            lemma_taken_len(rows, n as nat, b as nat);
        }
        let row = &intersects[b];
        assert(row@ == rows[b as int]);
        let t = first_free_exec(row, &taken);
        proof {
            lemma_first_free(rows[b as int], taken@, 0);
        }
        match t {
            Some(a) => {
                taken.set(a, true);
                hits = hits + 1;
            },
            None => {},
        }
        targets.push(t);
        assert(taken@ =~= taken_after(rows, n as nat, (b + 1) as nat));
    }
    proof {
        lemma_hits_match_taken(rows, n as nat, m as nat);
        lemma_taken_len(rows, n as nat, m as nat);
    }
    HitOutcome { targets, asteroid_hit: taken, hits }
}

} // verus!
