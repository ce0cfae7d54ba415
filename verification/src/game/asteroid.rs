use vstd::prelude::*;

verus! {

/// The three asteroid sizes.  A hit asteroid breaks into two of the next
/// smaller size; a small one is destroyed.
#[derive(Clone, Copy, Debug, PartialEq, Eq, Structural)]
pub enum AsteroidSize {
    Small,
    Medium,
    Large,
}

/// Outline radius, in world units.
pub open spec fn size_radius(s: AsteroidSize) -> nat {
    match s {
        AsteroidSize::Small => 10,
        AsteroidSize::Medium => 20,
        AsteroidSize::Large => 40,
    }
}

/// Speed given to a freshly made asteroid, in world units per second.
pub open spec fn size_speed(s: AsteroidSize) -> nat {
    match s {
        AsteroidSize::Small => 70,
        AsteroidSize::Medium => 60,
        AsteroidSize::Large => 50,
    }
}

/// Mass used when two asteroids bounce off each other.
pub open spec fn size_mass(s: AsteroidSize) -> nat {
    match s {
        AsteroidSize::Small => 1,
        AsteroidSize::Medium => 4,
        AsteroidSize::Large => 16,
    }
}

/// The size of the fragments of a hit asteroid, if any.
pub open spec fn size_smaller(s: AsteroidSize) -> Option<AsteroidSize> {
    match s {
        AsteroidSize::Large => Some(AsteroidSize::Medium),
        AsteroidSize::Medium => Some(AsteroidSize::Small),
        AsteroidSize::Small => None,
    }
}

impl AsteroidSize {
    pub fn radius(&self) -> (r: u32)
        ensures
            r == size_radius(*self),
    {
        match self {
            AsteroidSize::Small => 10,
            AsteroidSize::Medium => 20,
            AsteroidSize::Large => 40,
        }
    }

    pub fn initial_speed(&self) -> (r: u32)
        ensures
            r == size_speed(*self),
    {
        match self {
            AsteroidSize::Small => 70,
            AsteroidSize::Medium => 60,
            AsteroidSize::Large => 50,
        }
    }

    pub fn mass(&self) -> (r: u32)
        ensures
            r == size_mass(*self),
    {
        match self {
            AsteroidSize::Small => 1,
            AsteroidSize::Medium => 4,
            AsteroidSize::Large => 16,
        }
    }

    pub fn smaller(&self) -> (r: Option<AsteroidSize>)
        ensures
            r == size_smaller(*self),
    {
        match self {
            AsteroidSize::Large => Some(AsteroidSize::Medium),
            AsteroidSize::Medium => Some(AsteroidSize::Small),
            AsteroidSize::Small => None,
        }
    }
}

/// Each step down the size ladder halves the radius, quarters the mass
/// (mass grows with the square of the radius) and adds 10 to the speed.
pub proof fn lemma_size_ladder(s: AsteroidSize)
    ensures
        size_mass(s) * 100 == size_radius(s) * size_radius(s),
        size_smaller(s) matches Some(t) ==> {
            &&& 2 * size_radius(t) == size_radius(s)
            &&& 4 * size_mass(t) == size_mass(s)
            &&& size_speed(t) == size_speed(s) + 10
        },
{
}

/// How many steps down the size ladder an asteroid still has.
pub open spec fn size_rank(s: AsteroidSize) -> nat {
    match s {
        AsteroidSize::Small => 0,
        AsteroidSize::Medium => 1,
        AsteroidSize::Large => 2,
    }
}

/// Bullet hits needed to destroy an asteroid together with all of its
/// fragments.
pub open spec fn hits_to_clear(s: AsteroidSize) -> nat
    decreases size_rank(s),
{
    match size_smaller(s) {
        Some(t) => 1 + 2 * hits_to_clear(t),
        None => 1,
    }
}

/// Clearing a large asteroid takes seven hits, a medium one three and a
/// small one a single hit.
pub proof fn lemma_hits_to_clear()
    ensures
        hits_to_clear(AsteroidSize::Large) == 7,
        hits_to_clear(AsteroidSize::Medium) == 3,
        hits_to_clear(AsteroidSize::Small) == 1,
{
    reveal_with_fuel(hits_to_clear, 3);
}

/// What becomes of one asteroid when the field is rebuilt after the bullets
/// have hit.
#[derive(Clone, Copy, Debug, PartialEq, Eq, Structural)]
pub enum Fate {
    /// Not hit: it stays, unchanged.
    Kept,
    /// Hit: it breaks into two fragments of the given size.
    Split(AsteroidSize),
    /// Hit while small: it disappears.
    Destroyed,
}

pub open spec fn fate_of(s: AsteroidSize, hit: bool) -> Fate {
    if !hit {
        Fate::Kept
    } else {
        match size_smaller(s) {
            Some(t) => Fate::Split(t),
            None => Fate::Destroyed,
        }
    }
}

/// The asteroids that one asteroid turns into.
pub open spec fn pieces(s: AsteroidSize, hit: bool) -> Seq<AsteroidSize> {
    match fate_of(s, hit) {
        Fate::Kept => seq![s],
        Fate::Split(t) => seq![t, t],
        Fate::Destroyed => seq![],
    }
}

/// The field after rebuilding the first `n` asteroids, in their order, each
/// replaced by its pieces.
pub open spec fn rebuilt(sizes: Seq<AsteroidSize>, hit: Seq<bool>, n: nat) -> Seq<AsteroidSize>
    decreases n,
{
    if n == 0 {
        seq![]
    } else {
        rebuilt(sizes, hit, (n - 1) as nat) + pieces(sizes[n - 1], hit[n - 1])
    }
}

/// Among the first `n` asteroids: how many were not hit.
pub open spec fn count_kept(sizes: Seq<AsteroidSize>, hit: Seq<bool>, n: nat) -> nat
    decreases n,
{
    if n == 0 {
        0
    } else {
        count_kept(sizes, hit, (n - 1) as nat) + if hit[n - 1] { 0nat } else { 1nat }
    }
}

/// Among the first `n` asteroids: how many were hit and were not small.
pub open spec fn count_split(sizes: Seq<AsteroidSize>, hit: Seq<bool>, n: nat) -> nat
    decreases n,
{
    if n == 0 {
        0
    } else {
        count_split(sizes, hit, (n - 1) as nat) + if hit[n - 1] && sizes[n - 1] != AsteroidSize::Small {
            1nat
        } else {
            0nat
        }
    }
}

/// After a rebuild the field holds every asteroid that was not hit, plus two
/// fragments for each hit asteroid that was not small.
pub proof fn lemma_rebuilt_len(sizes: Seq<AsteroidSize>, hit: Seq<bool>, n: nat)
    ensures
        rebuilt(sizes, hit, n).len() == count_kept(sizes, hit, n) + 2 * count_split(sizes, hit, n),
    decreases n,
{
    if n > 0 {
        lemma_rebuilt_len(sizes, hit, (n - 1) as nat);
    }
}

/// What a rebuild does to each asteroid: one that was not hit stays as it
/// is; a hit one gives two fragments of half its radius, or nothing when it
/// was small.
pub proof fn lemma_pieces(s: AsteroidSize, hit: bool)
    ensures
        !hit ==> pieces(s, hit) == seq![s],
        hit && s == AsteroidSize::Small ==> pieces(s, hit).len() == 0,
        hit && s != AsteroidSize::Small ==> {
            &&& pieces(s, hit).len() == 2
            &&& pieces(s, hit)[0] == pieces(s, hit)[1]
            &&& 2 * size_radius(pieces(s, hit)[0]) == size_radius(s)
        },
{
}

/// A rebuild keeps the field's order: the pieces of the first `m` asteroids
/// come first, in order, ahead of those of later asteroids; a field in which
/// nothing was hit comes out unchanged.
pub proof fn lemma_rebuild_keeps_order(sizes: Seq<AsteroidSize>, hit: Seq<bool>, m: nat, n: nat)
    requires
        m <= n,
        n <= sizes.len(),
    ensures
        rebuilt(sizes, hit, m).len() <= rebuilt(sizes, hit, n).len(),
        rebuilt(sizes, hit, n).subrange(0, rebuilt(sizes, hit, m).len() as int) == rebuilt(sizes, hit, m),
        (forall|k: int| 0 <= k < n ==> !#[trigger] hit[k]) ==> rebuilt(sizes, hit, n) == sizes.subrange(0, n as int),
    decreases n,
{
    if n > m {
        lemma_rebuild_keeps_order(sizes, hit, m, (n - 1) as nat);
        let a = rebuilt(sizes, hit, (n - 1) as nat);
        let b = rebuilt(sizes, hit, m);
        assert(rebuilt(sizes, hit, n).subrange(0, b.len() as int) =~= a.subrange(0, b.len() as int));
    } else {
        assert(rebuilt(sizes, hit, n).subrange(0, rebuilt(sizes, hit, n).len() as int) =~= rebuilt(sizes, hit, n));
    }
    if n > 0 {
        if forall|k: int| 0 <= k < n ==> !#[trigger] hit[k] {
            lemma_rebuild_keeps_order(sizes, hit, 0, (n - 1) as nat);
            assert(sizes.subrange(0, n as int) =~= sizes.subrange(0, n - 1) + seq![sizes[n - 1]]);
        }
    } else {
        assert(sizes.subrange(0, 0) =~= Seq::<AsteroidSize>::empty());
    }
}

/// Decides what becomes of each asteroid given which ones a bullet hit, and
/// returns those fates in order together with the rebuilt field.
pub fn rebuild_field(sizes: &Vec<AsteroidSize>, hit: &Vec<bool>) -> (r: (Vec<Fate>, Vec<AsteroidSize>))
    requires
        hit.len() == sizes.len(),
    ensures
        r.0.len() == sizes.len(),
        forall|k: int| 0 <= k < sizes.len() ==> r.0[k] == fate_of(sizes[k], hit[k]),
        r.1@ == rebuilt(sizes@, hit@, sizes.len() as nat),
{
    let mut fates: Vec<Fate> = Vec::new();
    let mut field: Vec<AsteroidSize> = Vec::new();
    let n = sizes.len();
    for i in 0..n
        invariant
            n == sizes.len(),
            n == hit.len(),
            fates.len() == i,
            forall|k: int| 0 <= k < i ==> fates[k] == fate_of(sizes[k], hit[k]),
            field@ == rebuilt(sizes@, hit@, i as nat),
    {
        let s = sizes[i];
        if !hit[i] {
            fates.push(Fate::Kept);
            field.push(s);
        } else {
            match s.smaller() {
                Some(t) => {
                    fates.push(Fate::Split(t));
                    field.push(t);
                    field.push(t);
                },
                None => {
                    fates.push(Fate::Destroyed);
                },
            }
        }
        assert(field@ =~= rebuilt(sizes@, hit@, (i + 1) as nat));
    }
    (fates, field)
}

/// Lexicographic order on index pairs.
pub open spec fn pair_lt(a: (usize, usize), b: (usize, usize)) -> bool {
    a.0 < b.0 || (a.0 == b.0 && a.1 < b.1)
}

/// Lists every pair `(i, j)` with `i < j` whose asteroids overlap, in
/// lexicographic order; `overlap[i][j]` tells whether asteroids `i` and `j`
/// overlap (only the entries above the diagonal are read).
pub fn find_collisions(overlap: &Vec<Vec<bool>>) -> (r: Vec<(usize, usize)>)
    requires
        forall|i: int| 0 <= i < overlap.len() ==> #[trigger] overlap[i].len() == overlap.len(),
    ensures
        forall|k: int|
            0 <= k < r.len() ==> {
                &&& (#[trigger] r[k]).0 < r[k].1
                &&& r[k].1 < overlap.len()
                &&& overlap[r[k].0 as int][r[k].1 as int]
            },
        forall|i: int, j: int|
            0 <= i < j < overlap.len() && #[trigger] overlap[i][j] ==> r@.contains((i as usize, j as usize)),
        forall|k: int, l: int| 0 <= k < l < r.len() ==> pair_lt(#[trigger] r[k], #[trigger] r[l]),
{
    let n = overlap.len();
    let mut pairs: Vec<(usize, usize)> = Vec::new();
    for i in 0..n
        invariant
            n == overlap.len(),
            forall|a: int| 0 <= a < overlap.len() ==> #[trigger] overlap[a].len() == overlap.len(),
            forall|k: int|
                0 <= k < pairs.len() ==> {
                    &&& (#[trigger] pairs[k]).0 < pairs[k].1
                    &&& pairs[k].1 < n
                    &&& pairs[k].0 < i
                    &&& overlap[pairs[k].0 as int][pairs[k].1 as int]
                },
            forall|a: int, b: int|
                0 <= a < b < n && a < i && #[trigger] overlap[a][b] ==> pairs@.contains((a as usize, b as usize)),
            forall|k: int, l: int| 0 <= k < l < pairs.len() ==> pair_lt(#[trigger] pairs[k], #[trigger] pairs[l]),
    {
        let row = &overlap[i];
        for j in i + 1..n
            invariant
                n == overlap.len(),
                i < n,
                row@ == overlap[i as int]@,
                row.len() == n,
                forall|k: int|
                    0 <= k < pairs.len() ==> {
                        &&& (#[trigger] pairs[k]).0 < pairs[k].1
                        &&& pairs[k].1 < n
                        &&& pairs[k].0 <= i
                        &&& (pairs[k].0 == i ==> pairs[k].1 < j)
                        &&& overlap[pairs[k].0 as int][pairs[k].1 as int]
                    },
                forall|a: int, b: int|
                    0 <= a < b < n && (a < i || (a == i && b < j)) && #[trigger] overlap[a][b]
                        ==> pairs@.contains((a as usize, b as usize)),
                forall|k: int, l: int| 0 <= k < l < pairs.len() ==> pair_lt(#[trigger] pairs[k], #[trigger] pairs[l]),
        {
            if row[j] {
                let ghost old_pairs = pairs@;
                pairs.push((i, j));
                assert forall|a: int, b: int|
                    0 <= a < b < n && (a < i || (a == i && b < j + 1)) && #[trigger] overlap[a][b]
                        implies pairs@.contains((a as usize, b as usize)) by {
                    if a == i && b == j {
                        assert(pairs@[pairs.len() - 1] == (a as usize, b as usize));
                    } else {
                        let w = choose|w: int| 0 <= w < old_pairs.len() && old_pairs[w] == (a as usize, b as usize);
                        assert(pairs@[w] == (a as usize, b as usize));
                    }
                }
            }
        }
    }
    pairs
}

} // verus!
