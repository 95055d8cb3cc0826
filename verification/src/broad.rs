//! Broad phase: sweep and prune over world bounding boxes.
//!
//! Bodies are sorted ascending by the minimum of their bounding box on the
//! vertical axis (gravity-dominated scenes separate well on it).  A sweep
//! then scans each body against its successors, stopping as soon as a
//! successor's minimum lies beyond the current body's maximum — no later one
//! can overlap either — and a three-axis test rejects the rest.  The
//! contract is three-sided: every emitted pair names two distinct live
//! bodies, never both static, with overlapping boxes; every two bodies that
//! overlap without both being static appear as a pair, in one order or the
//! other — the early stop prunes candidates, never contacts; and no two
//! bodies are paired twice.

use vstd::prelude::*;
use crate::body::Body;
use crate::components::{aabb_separated, PhysicsMode};
use crate::contacts::CollisionPair;

verus! {

/// Sort key: the bounding box minimum on the vertical axis.
pub open spec fn min_y_key(bodies: Seq<Body>, i: int) -> int {
    bodies[i]@.aabb.mins.y
}

/// Two bodies deserve the narrow phase: their boxes overlap and they are not
/// both static.
pub open spec fn eligible_pair(bodies: Seq<Body>, a: int, b: int) -> bool {
    &&& !(bodies[a].mode == PhysicsMode::Static && bodies[b].mode == PhysicsMode::Static)
    &&& !aabb_separated(bodies[a]@.aabb, bodies[b]@.aabb)
}

/// Some position of the list holds the value `v`.
pub open spec fn contains_index(list: Seq<usize>, v: int) -> bool {
    exists|p: int| 0 <= p < list.len() && #[trigger] list[p] == v
}

/// The pair `(a, b)` appears in the list, in this order.
pub open spec fn pair_in(pairs: Seq<CollisionPair>, a: int, b: int) -> bool {
    exists|k: int|
        0 <= k < pairs.len() && (#[trigger] pairs[k]).entity_a == a && pairs[k].entity_b == b
}

/// Two pairs name the same two bodies, in either order.
pub open spec fn same_unordered(p1: CollisionPair, p2: CollisionPair) -> bool {
    ||| (p1.entity_a == p2.entity_a && p1.entity_b == p2.entity_b)
    ||| (p1.entity_a == p2.entity_b && p1.entity_b == p2.entity_a)
}

/// The pair arose from two sweep positions lying before the given bound in
/// sweep order: an earlier row, or the same row and an earlier column.
spec fn from_positions(pr: CollisionPair, list: Seq<usize>, row: int, col: int) -> bool {
    exists|p: int, q: int|
        {
            &&& 0 <= p < q < list.len()
            &&& (#[trigger] list[p]) == pr.entity_a
            &&& (#[trigger] list[q]) == pr.entity_b
            &&& (p < row || (p == row && q < col))
        }
}

/// A sweep-order bound on a pair's positions loosens to any later bound.
proof fn lemma_from_positions_weaken(
    pr: CollisionPair,
    list: Seq<usize>,
    row: int,
    col: int,
    row2: int,
    col2: int,
)
    requires
        from_positions(pr, list, row, col),
        row < row2 || (row == row2 && col <= col2),
    ensures
        from_positions(pr, list, row2, col2),
{
    let (p, q) = choose|p: int, q: int|
        {
            &&& 0 <= p < q < list.len()
            &&& (#[trigger] list[p]) == pr.entity_a
            &&& (#[trigger] list[q]) == pr.entity_b
            &&& (p < row || (p == row && q < col))
        };
    assert(list[p] == pr.entity_a && list[q] == pr.entity_b);
}

/// Over a duplicate-free position list, a pair from positions before the
/// bound `(row, col)` cannot name the same two bodies as the pair at
/// `(row, col)` itself, in either order.
proof fn lemma_new_pair_distinct(pr: CollisionPair, list: Seq<usize>, row: int, col: int)
    requires
        from_positions(pr, list, row, col),
        0 <= row < col < list.len(),
        forall|p: int, q: int| 0 <= p < q < list.len() ==> list[p] != list[q],
    ensures
        !same_unordered(pr, CollisionPair { entity_a: list[row], entity_b: list[col] }),
{
    let (p, q) = choose|p: int, q: int|
        {
            &&& 0 <= p < q < list.len()
            &&& (#[trigger] list[p]) == pr.entity_a
            &&& (#[trigger] list[q]) == pr.entity_b
            &&& (p < row || (p == row && q < col))
        };
    if pr.entity_a == list[row] && pr.entity_b == list[col] {
        assert(p == row);
        assert(q == col);
        assert(false);
    }
    if pr.entity_a == list[col] && pr.entity_b == list[row] {
        assert(p == col);
        assert(q == row);
        assert(false);
    }
}

/// A pushed list keeps every pair it had.
proof fn lemma_pair_in_push(pairs: Seq<CollisionPair>, c: CollisionPair, a: int, b: int)
    requires
        pair_in(pairs, a, b),
    ensures
        pair_in(pairs.push(c), a, b),
{
    let k = choose|k: int|
        0 <= k < pairs.len() && (#[trigger] pairs[k]).entity_a == a && pairs[k].entity_b == b;
    assert(pairs.push(c)[k].entity_a == a && pairs.push(c)[k].entity_b == b);
}

/// Indices sorted ascending by `min_y_key`: each index names a live body, no
/// index appears twice, and no index is lost.
fn sort_by_min_y(bodies: &Vec<Body>, list: &mut Vec<usize>)
    requires
        forall|p: int| 0 <= p < old(list)@.len() ==> (#[trigger] old(list)@[p]) < bodies@.len(),
        forall|p: int, q: int|
            0 <= p < q < old(list)@.len() ==> old(list)@[p] != old(list)@[q],
    ensures
        final(list)@.len() == old(list)@.len(),
        forall|p: int| 0 <= p < final(list)@.len() ==> (#[trigger] final(list)@[p]) < bodies@.len(),
        forall|p: int, q: int|
            0 <= p < q < final(list)@.len() ==> final(list)@[p] != final(list)@[q],
        forall|p: int, q: int|
            0 <= p < q < final(list)@.len() ==> min_y_key(bodies@, final(list)@[p] as int)
                <= min_y_key(bodies@, final(list)@[q] as int),
        forall|p: int|
            0 <= p < old(list)@.len() ==> #[trigger] contains_index(
                final(list)@,
                old(list)@[p] as int,
            ),
{
    let n = list.len();
    if n == 0 {
        return;
    }
    proof {
        assert forall|p: int| 0 <= p < n implies #[trigger] contains_index(
            list@,
            old(list)@[p] as int,
        ) by {
            assert(list@[p] == old(list)@[p]);
        }
    }
    let mut s: usize = 1;
    while s < n
        invariant
            1 <= s <= n,
            n == list@.len(),
            forall|p: int| 0 <= p < n ==> (#[trigger] list@[p]) < bodies@.len(),
            forall|p: int, q: int| 0 <= p < q < n ==> list@[p] != list@[q],
            forall|p: int, q: int|
                0 <= p < q < s ==> min_y_key(bodies@, list@[p] as int) <= min_y_key(
                    bodies@,
                    list@[q] as int,
                ),
            forall|p: int|
                0 <= p < n ==> #[trigger] contains_index(list@, old(list)@[p] as int),
        decreases n - s,
    {
        let mut t: usize = s;
        while t > 0 && bodies[list[t - 1]].aabb.mins.y > bodies[list[t]].aabb.mins.y
            invariant
                0 <= t <= s < n,
                n == list@.len(),
                forall|p: int| 0 <= p < n ==> (#[trigger] list@[p]) < bodies@.len(),
                forall|p: int, q: int| 0 <= p < q < n ==> list@[p] != list@[q],
                forall|p: int, q: int|
                    0 <= p < q <= s && q != t ==> min_y_key(bodies@, list@[p] as int) <= min_y_key(
                        bodies@,
                        list@[q] as int,
                    ),
                forall|p: int|
                    0 <= p < n ==> #[trigger] contains_index(list@, old(list)@[p] as int),
            decreases t,
        {
            let ghost prev = list@;
            let u = list[t - 1];
            let v = list[t];
            list[t - 1] = v;
            list[t] = u;
            proof {
                assert forall|p: int| 0 <= p < n implies #[trigger] contains_index(
                    list@,
                    old(list)@[p] as int,
                ) by {
                    let w = old(list)@[p];
                    assert(contains_index(prev, w as int));
                    let q0 = choose|q: int| 0 <= q < prev.len() && #[trigger] prev[q] == w as int;
                    if q0 == t - 1 {
                        assert(list@[t as int] == w);
                    } else if q0 == t {
                        assert(list@[t - 1] == w);
                    } else {
                        assert(list@[q0] == w);
                    }
                }
            }
            t = t - 1;
        }
        s = s + 1;
    }
}

/// Rebuild the candidate pair list.
///
/// Sound: every emitted pair names two distinct live bodies, never both
/// static, with overlapping boxes.  Complete: any two distinct bodies whose
/// boxes overlap, unless both are static, appear as a pair in one order or
/// the other.  Duplicate-free: no two list positions name the same two
/// bodies, in either order.
pub fn collision_pairs(bodies: &Vec<Body>, pairs: &mut Vec<CollisionPair>)
    ensures
        forall|k: int|
            0 <= k < final(pairs)@.len() ==> {
                let pr = #[trigger] final(pairs)@[k];
                &&& pr.entity_a < bodies@.len()
                &&& pr.entity_b < bodies@.len()
                &&& pr.entity_a != pr.entity_b
                &&& eligible_pair(bodies@, pr.entity_a as int, pr.entity_b as int)
            },
        forall|a: int, b: int|
            0 <= a < bodies@.len() && 0 <= b < bodies@.len() && a != b && #[trigger] eligible_pair(
                bodies@,
                a,
                b,
            ) ==> pair_in(final(pairs)@, a, b) || pair_in(final(pairs)@, b, a),
        forall|k1: int, k2: int|
            0 <= k1 < k2 < final(pairs)@.len() ==> !same_unordered(
                #[trigger] final(pairs)@[k1],
                #[trigger] final(pairs)@[k2],
            ),
{
    pairs.clear();
    let n = bodies.len();
    let mut list: Vec<usize> = Vec::new();
    let mut i: usize = 0;
    while i < n
        invariant
            list@.len() == i,
            i <= n,
            forall|p: int| 0 <= p < i ==> (#[trigger] list@[p]) == p,
        decreases n - i,
    {
        list.push(i);
        i = i + 1;
    }
    let ghost pre_sort = list@;
    sort_by_min_y(bodies, &mut list);
    proof {
        assert forall|v: int| 0 <= v < n implies #[trigger] contains_index(list@, v) by {
            assert(pre_sort[v] == v as usize);
            assert(contains_index(list@, pre_sort[v] as int));
        }
    }
    let mut idx: usize = 0;
    while idx < n
        invariant
            n == bodies@.len(),
            list@.len() == n,
            forall|p: int| 0 <= p < n ==> (#[trigger] list@[p]) < n,
            forall|p: int, q: int| 0 <= p < q < n ==> list@[p] != list@[q],
            forall|p: int, q: int|
                0 <= p < q < n ==> min_y_key(bodies@, list@[p] as int) <= min_y_key(
                    bodies@,
                    list@[q] as int,
                ),
            forall|v: int| 0 <= v < n ==> #[trigger] contains_index(list@, v),
            forall|k: int|
                0 <= k < pairs@.len() ==> {
                    let pr = #[trigger] pairs@[k];
                    &&& pr.entity_a < n
                    &&& pr.entity_b < n
                    &&& pr.entity_a != pr.entity_b
                    &&& eligible_pair(bodies@, pr.entity_a as int, pr.entity_b as int)
                },
            forall|p: int, q: int|
                0 <= p < q < n && p < idx && eligible_pair(
                    bodies@,
                    list@[p] as int,
                    list@[q] as int,
                ) ==> pair_in(pairs@, list@[p] as int, list@[q] as int),
            forall|k1: int, k2: int|
                0 <= k1 < k2 < pairs@.len() ==> !same_unordered(
                    #[trigger] pairs@[k1],
                    #[trigger] pairs@[k2],
                ),
            forall|k: int|
                0 <= k < pairs@.len() ==> #[trigger] from_positions(
                    pairs@[k],
                    list@,
                    idx as int,
                    idx as int,
                ),
        decreases n - idx,
    {
        let a = list[idx];
        let aabb_a = bodies[a].aabb;
        let mut j: usize = idx + 1;
        let mut stopped = false;
        proof {
            assert forall|k: int| 0 <= k < pairs@.len() implies #[trigger] from_positions(
                pairs@[k],
                list@,
                idx as int,
                j as int,
            ) by {
                lemma_from_positions_weaken(
                    pairs@[k], list@, idx as int, idx as int, idx as int, j as int,
                );
            }
        }
        while j < n && !stopped
            invariant
                n == bodies@.len(),
                list@.len() == n,
                idx < j <= n,
                a == list@[idx as int],
                a < n,
                aabb_a == bodies@[a as int].aabb,
                forall|p: int| 0 <= p < n ==> (#[trigger] list@[p]) < n,
                forall|p: int, q: int| 0 <= p < q < n ==> list@[p] != list@[q],
                forall|p: int, q: int|
                    0 <= p < q < n ==> min_y_key(bodies@, list@[p] as int) <= min_y_key(
                        bodies@,
                        list@[q] as int,
                    ),
                forall|v: int| 0 <= v < n ==> #[trigger] contains_index(list@, v),
                forall|k: int|
                    0 <= k < pairs@.len() ==> {
                        let pr = #[trigger] pairs@[k];
                        &&& pr.entity_a < n
                        &&& pr.entity_b < n
                        &&& pr.entity_a != pr.entity_b
                        &&& eligible_pair(bodies@, pr.entity_a as int, pr.entity_b as int)
                    },
                forall|p: int, q: int|
                    0 <= p < q < n && p < idx && eligible_pair(
                        bodies@,
                        list@[p] as int,
                        list@[q] as int,
                    ) ==> pair_in(pairs@, list@[p] as int, list@[q] as int),
                forall|q: int|
                    idx < q < j && eligible_pair(bodies@, a as int, list@[q] as int) ==> pair_in(
                        pairs@,
                        a as int,
                        list@[q] as int,
                    ),
                forall|k1: int, k2: int|
                    0 <= k1 < k2 < pairs@.len() ==> !same_unordered(
                        #[trigger] pairs@[k1],
                        #[trigger] pairs@[k2],
                    ),
                forall|k: int|
                    0 <= k < pairs@.len() ==> #[trigger] from_positions(
                        pairs@[k],
                        list@,
                        idx as int,
                        j as int,
                    ),
                stopped ==> j < n && (forall|q: int|
                    j <= q < n ==> min_y_key(bodies@, list@[q] as int)
                        > bodies@[a as int]@.aabb.maxs.y),
            decreases n - j + (if stopped { 0int } else { 1int }),
        {
            let b = list[j];
            let aabb_b = bodies[b].aabb;
            if aabb_b.mins.y > aabb_a.maxs.y {
                stopped = true;
            } else {
                let separated = aabb_a.mins.x >= aabb_b.maxs.x || aabb_a.maxs.x <= aabb_b.mins.x
                    || aabb_a.mins.y >= aabb_b.maxs.y || aabb_a.maxs.y <= aabb_b.mins.y
                    || aabb_a.mins.z >= aabb_b.maxs.z || aabb_a.maxs.z <= aabb_b.mins.z;
                let both_static = match (bodies[a].mode, bodies[b].mode) {
                    (PhysicsMode::Static, PhysicsMode::Static) => true,
                    (_, _) => false,
                };
                if !separated && !both_static {
                    let ghost before = pairs@;
                    pairs.push(CollisionPair { entity_a: a, entity_b: b });
                    proof {
                        assert forall|p: int, q: int|
                            0 <= p < q < n && p < idx && eligible_pair(
                                bodies@,
                                list@[p] as int,
                                list@[q] as int,
                            ) implies pair_in(pairs@, list@[p] as int, list@[q] as int) by {
                            lemma_pair_in_push(
                                before,
                                CollisionPair { entity_a: a, entity_b: b },
                                list@[p] as int,
                                list@[q] as int,
                            );
                        }
                        assert forall|q: int|
                            idx < q < j + 1 && eligible_pair(
                                bodies@,
                                a as int,
                                list@[q] as int,
                            ) implies pair_in(pairs@, a as int, list@[q] as int) by {
                            if q < j {
                                lemma_pair_in_push(
                                    before,
                                    CollisionPair { entity_a: a, entity_b: b },
                                    a as int,
                                    list@[q] as int,
                                );
                            } else {
                                assert(pairs@[pairs@.len() - 1].entity_a == a);
                            }
                        }
                        let newpair = CollisionPair { entity_a: a, entity_b: b };
                        assert(list@[idx as int] == newpair.entity_a && list@[j as int]
                            == newpair.entity_b);
                        assert(from_positions(newpair, list@, idx as int, j + 1));
                        assert forall|k: int| 0 <= k < pairs@.len() implies #[trigger]
                        from_positions(pairs@[k], list@, idx as int, j + 1) by {
                            if k < pairs@.len() - 1 {
                                assert(pairs@[k] == before[k]);
                                lemma_from_positions_weaken(
                                    pairs@[k], list@, idx as int, j as int, idx as int, j + 1,
                                );
                            }
                        }
                        assert forall|k1: int, k2: int|
                            0 <= k1 < k2 < pairs@.len() implies !same_unordered(
                            #[trigger] pairs@[k1],
                            #[trigger] pairs@[k2],
                        ) by {
                            if k2 == pairs@.len() - 1 {
                                assert(pairs@[k1] == before[k1]);
                                assert(from_positions(pairs@[k1], list@, idx as int, j as int));
                                lemma_new_pair_distinct(pairs@[k1], list@, idx as int, j as int);
                                assert(pairs@[k2] == newpair);
                            } else {
                                assert(pairs@[k1] == before[k1] && pairs@[k2] == before[k2]);
                            }
                        }
                    }
                } else {
                    proof {
                        assert forall|k: int| 0 <= k < pairs@.len() implies #[trigger]
                        from_positions(pairs@[k], list@, idx as int, j + 1) by {
                            lemma_from_positions_weaken(
                                pairs@[k], list@, idx as int, j as int, idx as int, j + 1,
                            );
                        }
                    }
                }
                j = j + 1;
            }
        }
        proof {
            assert forall|k: int| 0 <= k < pairs@.len() implies #[trigger] from_positions(
                pairs@[k],
                list@,
                idx as int + 1,
                idx as int + 1,
            ) by {
                assert(from_positions(pairs@[k], list@, idx as int, j as int));
                lemma_from_positions_weaken(
                    pairs@[k], list@, idx as int, j as int, idx as int + 1, idx as int + 1,
                );
            }
            if stopped {
                assert forall|q: int|
                    idx < q < n && eligible_pair(bodies@, a as int, list@[q] as int) implies pair_in(
                    pairs@,
                    a as int,
                    list@[q] as int,
                ) by {
                    if q >= j {
                        assert(min_y_key(bodies@, list@[q] as int) > bodies@[a as int]@.aabb.maxs.y);
                        assert(aabb_separated(
                            bodies@[a as int]@.aabb,
                            bodies@[list@[q] as int]@.aabb,
                        ));
                    }
                }
            }
        }
        idx = idx + 1;
    }
    proof {
        assert forall|av: int, bv: int|
            0 <= av < bodies@.len() && 0 <= bv < bodies@.len() && av != bv && #[trigger]
        eligible_pair(bodies@, av, bv) implies pair_in(pairs@, av, bv) || pair_in(
            pairs@,
            bv,
            av,
        ) by {
            assert(contains_index(list@, av));
            assert(contains_index(list@, bv));
            let p = choose|p: int| 0 <= p < n && #[trigger] list@[p] == av;
            let q = choose|q: int| 0 <= q < n && #[trigger] list@[q] == bv;
            assert(p != q);
            if p < q {
                assert(pair_in(pairs@, av, bv));
            } else {
                assert(eligible_pair(bodies@, bv, av));
                assert(pair_in(pairs@, bv, av));
            }
        }
    }
}

} // verus!
