use vstd::prelude::*;

verus! {

/// Whether projectile `p` hits enemy `e` according to the collision table `hits` (one row per
/// enemy, one column per projectile). Missing entries are misses.
pub open spec fn hit_at(hits: Seq<Vec<bool>>, e: int, p: int) -> bool {
    0 <= e < hits.len() && 0 <= p < hits[e]@.len() && hits[e]@[p]
}

/// The first projectile at index `p` or later (below `n`) that hits enemy `e` and that no
/// entry of `taken` has claimed.
pub open spec fn first_free_hit(
    hits: Seq<Vec<bool>>,
    e: int,
    taken: Seq<Option<usize>>,
    p: int,
    n: usize,
) -> Option<usize>
    decreases n - p,
{
    if p >= n || p < 0 {
        None
    } else if hit_at(hits, e, p) && !taken.contains(Some(p as usize)) {
        Some(p as usize)
    } else {
        first_free_hit(hits, e, taken, p + 1, n)
    }
}

/// Which projectile each enemy takes, enemies in order: an eligible enemy takes the first
/// projectile that hits it and that no earlier enemy has taken; an ineligible enemy (already
/// hit, or still protected) takes none.
pub open spec fn hit_assignments(eligible: Seq<bool>, hits: Seq<Vec<bool>>, n: usize) -> Seq<
    Option<usize>,
>
    decreases eligible.len(),
{
    if eligible.len() == 0 {
        Seq::empty()
    } else {
        let prev = hit_assignments(eligible.drop_last(), hits, n);
        let e = eligible.len() - 1;
        prev.push(
            if eligible[e] {
                first_free_hit(hits, e, prev, 0, n)
            } else {
                None
            },
        )
    }
}

/// The number of `true` entries of `s`.
pub open spec fn count_true(s: Seq<bool>) -> nat
    decreases s.len(),
{
    if s.len() == 0 {
        0
    } else {
        count_true(s.drop_last()) + if s.last() {
            1nat
        } else {
            0nat
        }
    }
}

proof fn lemma_count_true_bounds(s: Seq<bool>)
    ensures
        count_true(s) <= s.len(),
        count_true(s) == s.len() ==> forall|i: int| 0 <= i < s.len() ==> #[trigger] s[i],
    decreases s.len(),
{
    if s.len() > 0 {
        lemma_count_true_bounds(s.drop_last());
        if count_true(s) == s.len() {
            assert forall|i: int| 0 <= i < s.len() implies #[trigger] s[i] by {
                if i < s.len() - 1 {
                    assert(s.drop_last()[i] == s[i]);
                }
            }
        }
    }
}

proof fn lemma_count_true_all_false(s: Seq<bool>)
    requires
        forall|i: int| 0 <= i < s.len() ==> !#[trigger] s[i],
    ensures
        count_true(s) == 0,
    decreases s.len(),
{
    if s.len() > 0 {
        let t = s.drop_last();
        assert forall|i: int| 0 <= i < t.len() implies !#[trigger] t[i] by {
            assert(t[i] == s[i]);
        }
        lemma_count_true_all_false(t);
    }
}

proof fn lemma_count_true_set(s: Seq<bool>, p: int)
    requires
        0 <= p < s.len(),
        !s[p],
    ensures
        count_true(s.update(p, true)) == count_true(s) + 1,
    decreases s.len(),
{
    let t = s.update(p, true);
    if p == s.len() - 1 {
        assert(t.drop_last() =~= s.drop_last());
    } else {
        assert(t.drop_last() =~= s.drop_last().update(p, true));
        lemma_count_true_set(s.drop_last(), p);
    }
}

proof fn lemma_first_free_hit_sound(
    hits: Seq<Vec<bool>>,
    e: int,
    taken: Seq<Option<usize>>,
    p: int,
    n: usize,
)
    ensures
        first_free_hit(hits, e, taken, p, n) matches Some(q) ==> p <= q < n && hit_at(
            hits,
            e,
            q as int,
        ) && !taken.contains(Some(q)),
    decreases n - p,
{
    if p < n && p >= 0 {
        lemma_first_free_hit_sound(hits, e, taken, p + 1, n);
    }
}

proof fn lemma_hit_assignments_sound(eligible: Seq<bool>, hits: Seq<Vec<bool>>, n: usize)
    ensures
        hit_assignments(eligible, hits, n).len() == eligible.len(),
        forall|i: int|
            0 <= i < eligible.len() && (#[trigger] hit_assignments(eligible, hits, n)[i]) is Some
                ==> {
                let q = hit_assignments(eligible, hits, n)[i]->0;
                &&& eligible[i]
                &&& q < n
                &&& hit_at(hits, i, q as int)
            },
        forall|i: int, j: int|
            0 <= i < j < eligible.len() && (#[trigger] hit_assignments(eligible, hits, n)[i])
                is Some ==> hit_assignments(eligible, hits, n)[i] != #[trigger] hit_assignments(
                eligible,
                hits,
                n,
            )[j],
    decreases eligible.len(),
{
    if eligible.len() > 0 {
        let pre = eligible.drop_last();
        lemma_hit_assignments_sound(pre, hits, n);
        let prev = hit_assignments(pre, hits, n);
        let e = eligible.len() - 1;
        lemma_first_free_hit_sound(hits, e, prev, 0, n);
        let a = hit_assignments(eligible, hits, n);
        assert forall|i: int| 0 <= i < eligible.len() && (#[trigger] a[i]) is Some implies {
            let q = a[i]->0;
            &&& eligible[i]
            &&& q < n
            &&& hit_at(hits, i, q as int)
        } by {
            if i < e {
                assert(a[i] == prev[i]);
                assert(pre[i] == eligible[i]);
            }
        }
        assert forall|i: int, j: int| 0 <= i < j < eligible.len() && (#[trigger] a[i]) is Some implies a[i]
            != #[trigger] a[j] by {
            if j < e {
                assert(a[i] == prev[i]);
                assert(a[j] == prev[j]);
            } else {
                assert(a[i] == prev[i]);
                if a[j] is Some {
                    assert(prev.contains(a[i]));
                }
            }
        }
    }
}

/// Projectile hits resolve one to one: an enemy is hit only when it is eligible and the
/// projectile it takes really hits it, and no projectile is taken by two enemies.
pub proof fn law_each_projectile_hits_at_most_one_enemy(
    eligible: Seq<bool>,
    hits: Seq<Vec<bool>>,
    n: usize,
)
    ensures
        forall|i: int|
            0 <= i < eligible.len() && (#[trigger] hit_assignments(eligible, hits, n)[i]) is Some
                ==> eligible[i] && hit_at(hits, i, hit_assignments(eligible, hits, n)[i]->0 as int),
        forall|i: int, j: int|
            0 <= i < eligible.len() && 0 <= j < eligible.len() && i != j && (
            #[trigger] hit_assignments(eligible, hits, n)[i]) is Some ==> hit_assignments(
                eligible,
                hits,
                n,
            )[i] != #[trigger] hit_assignments(eligible, hits, n)[j],
{
    lemma_hit_assignments_sound(eligible, hits, n);
    let a = hit_assignments(eligible, hits, n);
    assert forall|i: int, j: int|
        0 <= i < eligible.len() && 0 <= j < eligible.len() && i != j && (#[trigger] a[i]) is Some implies a[i]
        != #[trigger] a[j] by {
        if j < i {
            if a[j] is Some {
                assert(a[j] != a[i]);
            }
        }
    }
}

proof fn lemma_first_free_hit_least(
    hits: Seq<Vec<bool>>,
    e: int,
    taken: Seq<Option<usize>>,
    p: int,
    n: usize,
)
    requires
        0 <= p,
    ensures
        first_free_hit(hits, e, taken, p, n) matches Some(q) ==> forall|r: int|
            p <= r < q && #[trigger] hit_at(hits, e, r) ==> taken.contains(Some(r as usize)),
        first_free_hit(hits, e, taken, p, n) is None ==> forall|r: int|
            p <= r < n && #[trigger] hit_at(hits, e, r) ==> taken.contains(Some(r as usize)),
    decreases n - p,
{
    if p < n {
        lemma_first_free_hit_least(hits, e, taken, p + 1, n);
    }
}

/// Every eligible enemy is hit by the lowest-numbered projectile that touches it and that no
/// earlier enemy took: an ineligible enemy takes nothing; the projectile an enemy takes hits it
/// and was free; and while some projectile touching an eligible enemy is still free, that
/// enemy is hit, by that projectile or a lower-numbered one.
pub proof fn law_each_enemy_takes_first_free_hit(
    eligible: Seq<bool>,
    hits: Seq<Vec<bool>>,
    n: usize,
)
    ensures
        hit_assignments(eligible, hits, n).len() == eligible.len(),
        forall|i: int|
            0 <= i < eligible.len() && !eligible[i] ==> (#[trigger] hit_assignments(
                eligible,
                hits,
                n,
            )[i]) is None,
        forall|i: int|
            0 <= i < eligible.len() && (#[trigger] hit_assignments(eligible, hits, n)[i]) is Some
                ==> {
                let q = hit_assignments(eligible, hits, n)[i]->0;
                &&& q < n
                &&& hit_at(hits, i, q as int)
                &&& !hit_assignments(eligible, hits, n).take(i).contains(Some(q))
            },
        forall|i: int, p: int|
            0 <= i < eligible.len() && eligible[i] && 0 <= p < n && #[trigger] hit_at(hits, i, p)
                && !hit_assignments(eligible, hits, n).take(i).contains(Some(p as usize)) ==> (
            #[trigger] hit_assignments(eligible, hits, n)[i]) is Some && hit_assignments(
                eligible,
                hits,
                n,
            )[i]->0 <= p,
    decreases eligible.len(),
{
    if eligible.len() > 0 {
        let pre = eligible.drop_last();
        law_each_enemy_takes_first_free_hit(pre, hits, n);
        let prev = hit_assignments(pre, hits, n);
        let e = eligible.len() - 1;
        let a = hit_assignments(eligible, hits, n);
        lemma_first_free_hit_sound(hits, e, prev, 0, n);
        lemma_first_free_hit_least(hits, e, prev, 0, n);
        assert(a.take(e) =~= prev);
        assert forall|i: int| 0 <= i < e implies #[trigger] a[i] == prev[i] && a.take(i) =~= prev.take(i)
            && eligible[i] == pre[i] by {}
        assert forall|i: int| 0 <= i < eligible.len() && !eligible[i] implies (#[trigger] a[i]) is None by {
            if i < e {
                assert(a[i] == prev[i]);
            }
        }
        assert forall|i: int| 0 <= i < eligible.len() && (#[trigger] a[i]) is Some implies {
            let q = a[i]->0;
            &&& q < n
            &&& hit_at(hits, i, q as int)
            &&& !a.take(i).contains(Some(q))
        } by {
            if i < e {
                assert(a[i] == prev[i]);
                assert(a.take(i) =~= prev.take(i));
            }
        }
        assert forall|i: int, p: int|
            0 <= i < eligible.len() && eligible[i] && 0 <= p < n && #[trigger] hit_at(hits, i, p)
                && !a.take(i).contains(Some(p as usize)) implies (#[trigger] a[i]) is Some
            && a[i]->0 <= p by {
            if i < e {
                assert(a[i] == prev[i]);
                assert(a.take(i) =~= prev.take(i));
                assert(pre[i] == eligible[i]);
            } else {
                if a[i] is Some && a[i]->0 > p {
                    assert(prev.contains(Some(p as usize)));
                }
            }
        }
    }
}

/// Resolves the player projectiles of one frame against a list of enemies, enemies in order.
/// `eligible[e]` says whether enemy `e` can be hit at all; `hits[e][p]` whether projectile `p`
/// touches enemy `e` along its path this frame. Returns, per enemy, the projectile that hits
/// it. Once every projectile is taken the remaining enemies are skipped.
pub fn assign_projectile_hits(
    eligible: &Vec<bool>,
    hits: &Vec<Vec<bool>>,
    n_projectiles: usize,
) -> (assigned: Vec<Option<usize>>)
    ensures
        assigned@ == hit_assignments(eligible@, hits@, n_projectiles),
{
    let n = n_projectiles;
    let mut consumed: Vec<bool> = Vec::new();
    let mut k: usize = 0;
    while k < n
        invariant
            k <= n,
            consumed@.len() == k,
            forall|q: int| 0 <= q < k ==> !#[trigger] consumed@[q],
        decreases n - k,
    {
        consumed.push(false);
        k = k + 1;
    }
    proof {
        lemma_count_true_all_false(consumed@);
    }
    let mut count: usize = 0;
    let mut assigned: Vec<Option<usize>> = Vec::new();
    let mut e: usize = 0;
    while e < eligible.len()
        invariant
            e <= eligible.len(),
            consumed@.len() == n,
            assigned@ == hit_assignments(eligible@.take(e as int), hits@, n),
            count == count_true(consumed@),
            forall|q: int| 0 <= q < n ==> #[trigger] consumed@[q] == assigned@.contains(Some(q as usize)),
            forall|i: int| 0 <= i < assigned@.len() && (#[trigger] assigned@[i]) is Some ==> assigned@[i]->0 < n,
        decreases eligible.len() - e,
    {
        proof {
            lemma_count_true_bounds(consumed@);
        }
        let ghost prev = assigned@;
        assert(eligible@.take(e + 1).drop_last() =~= eligible@.take(e as int));
        assert(eligible@.take(e + 1)[e as int] == eligible@[e as int]);
        let mut found: Option<usize> = None;
        if count < n && eligible[e] {
            let mut p: usize = 0;
            while p < n
                invariant_except_break
                    found is None,
                invariant
                    p <= n,
                    consumed@.len() == n,
                    forall|q: int| 0 <= q < n ==> #[trigger] consumed@[q] == prev.contains(Some(q as usize)),
                    first_free_hit(hits@, e as int, prev, 0, n) == first_free_hit(
                        hits@,
                        e as int,
                        prev,
                        p as int,
                        n,
                    ),
                ensures
                    found == first_free_hit(hits@, e as int, prev, 0, n),
                decreases n - p,
            {
                let hit = e < hits.len() && p < hits[e].len() && hits[e][p];
                if !consumed[p] && hit {
                    found = Some(p);
                    break;
                }
                p = p + 1;
            }
            proof {
                lemma_first_free_hit_sound(hits@, e as int, prev, 0, n);
            }
            if let Some(q) = found {
                proof {
                    lemma_count_true_set(consumed@, q as int);
                }
                consumed.set(q, true);
                count = count + 1;
            }
        } else if eligible[e] {
            proof {
                lemma_count_true_bounds(consumed@);
                assert forall|q: int| 0 <= q < n implies #[trigger] prev.contains(Some(q as usize)) by {
                    assert(consumed@[q]);
                }
                lemma_first_free_hit_none_when_all_taken(hits@, e as int, prev, 0, n);
            }
        }
        assigned.push(found);
        proof {
            assert forall|q: int| 0 <= q < n implies #[trigger] consumed@[q] == assigned@.contains(Some(q as usize)) by {
                if assigned@.contains(Some(q as usize)) {
                    let w = choose|w: int| 0 <= w < assigned@.len() && assigned@[w] == Some(q as usize);
                    if w < prev.len() {
                        assert(prev[w] == assigned@[w]);
                    }
                }
                if prev.contains(Some(q as usize)) {
                    let w = choose|w: int| 0 <= w < prev.len() && prev[w] == Some(q as usize);
                    assert(assigned@[w] == prev[w]);
                }
                if found == Some(q as usize) {
                    assert(assigned@[prev.len() as int] == Some(q as usize));
                }
            }
        }
        e = e + 1;
    }
    assert(eligible@.take(eligible.len() as int) =~= eligible@);
    assigned
}

proof fn lemma_first_free_hit_none_when_all_taken(
    hits: Seq<Vec<bool>>,
    e: int,
    taken: Seq<Option<usize>>,
    p: int,
    n: usize,
)
    requires
        forall|q: int| 0 <= q < n ==> #[trigger] taken.contains(Some(q as usize)),
    ensures
        first_free_hit(hits, e, taken, p, n) is None,
    decreases n - p,
{
    if p < n && p >= 0 {
        assert(taken.contains(Some(p as usize)));
        lemma_first_free_hit_none_when_all_taken(hits, e, taken, p + 1, n);
    }
}

/// Which way a killed enemy is pushed: away from the player (`1` to the right when the player
/// stands to its left), to the right when there is no player.
pub fn knockback_dir(player_left_of_enemy: Option<bool>) -> (dir: i8)
    ensures
        dir == match player_left_of_enemy {
            Some(true) => 1i8,
            Some(false) => -1i8,
            None => 1i8,
        },
{
    match player_left_of_enemy {
        Some(left) => {
            if left {
                1
            } else {
                -1
            }
        },
        None => 1,
    }
}

/// Whether a hit can hurt the player: not while invincible, respawning or lying prone.
pub fn player_can_be_damaged(invincible: bool, respawning: bool, prone: bool) -> (b: bool)
    ensures
        b == (!invincible && !respawning && !prone),
{
    !invincible && !respawning && !prone
}

} // verus!
