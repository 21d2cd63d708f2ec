//! The closure of a query target under tag implication, as a fixpoint.

use vstd::prelude::*;

verus! {

/// A (tag id, value id) pair; value id 0 stands for any value of the tag.
pub type Pair = (u64, u64);

/// A stored implication: a file tagged with `(tag_id, value_id)` is also
/// considered tagged with `(implied_tag_id, implied_value_id)`.
#[derive(Clone, Copy, Debug, PartialEq, Eq, Structural)]
pub struct Implication {
    pub tag_id: u64,
    pub value_id: u64,
    pub implied_tag_id: u64,
    pub implied_value_id: u64,
}

/// Whether an implication leads into `p`: it implies `p`'s tag, with `p`'s
/// value or any value when `p`'s value is the wildcard.
pub open spec fn leads_to(e: Implication, p: Pair) -> bool {
    e.implied_tag_id == p.0 && (p.1 == 0 || e.implied_value_id == p.1)
}

pub open spec fn source(e: Implication) -> Pair {
    (e.tag_id, e.value_id)
}

/// Whether every implication leading into a member of `s` starts in `s`.
pub open spec fn is_closed(s: Set<Pair>, edges: Seq<Implication>) -> bool {
    forall|p: Pair, k: int|
        #[trigger] s.contains(p) && 0 <= k < edges.len() && #[trigger] leads_to(edges[k], p)
            ==> s.contains(source(edges[k]))
}

/// Whether `r` lies within every closed set that holds the seed.
pub open spec fn is_least(r: Set<Pair>, seed: Pair, edges: Seq<Implication>) -> bool {
    forall|s: Set<Pair>| #[trigger] is_closed(s, edges) && s.contains(seed) ==> r.subset_of(s)
}

/// The number of implications not yet followed.
pub open spec fn unfollowed(followed: Seq<bool>) -> nat
    decreases followed.len(),
{
    if followed.len() == 0 {
        0
    } else {
        unfollowed(followed.drop_last()) + if followed.last() {
            0nat
        } else {
            1nat
        }
    }
}

proof fn lemma_follow(followed: Seq<bool>, k: int)
    requires
        0 <= k < followed.len(),
        !followed[k],
    ensures
        unfollowed(followed.update(k, true)) + 1 == unfollowed(followed),
    decreases followed.len(),
{
    let u = followed.update(k, true);
    if k == followed.len() - 1 {
        assert(u.drop_last() =~= followed.drop_last());
    } else {
        lemma_follow(followed.drop_last(), k);
        assert(u.drop_last() =~= followed.drop_last().update(k, true));
    }
}

fn contains(r: &Vec<Pair>, p: Pair) -> (b: bool)
    ensures
        b == r@.contains(p),
{
    let mut i: usize = 0;
    while i < r.len()
        invariant
            i <= r.len(),
            forall|j: int| 0 <= j < i ==> r@[j] != p,
        decreases r.len() - i,
    {
        if r[i].0 == p.0 && r[i].1 == p.1 {
            return true;
        }
        i = i + 1;
    }
    false
}

fn leads_into(e: Implication, r: &Vec<Pair>) -> (b: bool)
    ensures
        b == exists|j: int| 0 <= j < r@.len() && leads_to(e, #[trigger] r@[j]),
{
    let mut i: usize = 0;
    while i < r.len()
        invariant
            i <= r.len(),
            forall|j: int| 0 <= j < i ==> !leads_to(e, #[trigger] r@[j]),
        decreases r.len() - i,
    {
        let p = r[i];
        if e.implied_tag_id == p.0 && (p.1 == 0 || e.implied_value_id == p.1) {
            return true;
        }
        i = i + 1;
    }
    false
}

/// The closure set of a query target: every (tag, value) pair that, on a
/// file, satisfies the target under implication. Starting from the seed,
/// the source of each implication leading into a member joins the set,
/// until nothing more joins. Each implication is followed at most once, so
/// the computation ends whatever cycles the implications form.
pub fn closure(seed: Pair, edges: &Vec<Implication>) -> (r: Vec<Pair>)
    ensures
        r@.no_duplicates(),
        r@.contains(seed),
        is_closed(r@.to_set(), edges@),
        is_least(r@.to_set(), seed, edges@),
{
    let mut r: Vec<Pair> = vec![seed];
    let mut followed: Vec<bool> = Vec::new();
    let mut k: usize = 0;
    while k < edges.len()
        invariant
            k <= edges.len(),
            followed@.len() == k,
            forall|j: int| 0 <= j < k ==> !followed@[j],
        decreases edges.len() - k,
    {
        followed.push(false);
        k = k + 1;
    }
    proof {
        assert(r@ =~= seq![seed]);
        assert forall|s: Set<Pair>| #[trigger] is_closed(s, edges@) && s.contains(seed) implies r@.to_set().subset_of(s) by {
            assert forall|p: Pair| r@.to_set().contains(p) implies s.contains(p) by {
                assert(r@.contains(p));
                let j = choose|j: int| 0 <= j < r@.len() && r@[j] == p;
                assert(j == 0);
            }
        }
    }
    let mut changed = true;
    while changed
        invariant
            followed@.len() == edges@.len(),
            r@.no_duplicates(),
            r@.contains(seed),
            is_least(r@.to_set(), seed, edges@),
            forall|j: int| 0 <= j < edges@.len() && followed@[j] ==> r@.contains(source(edges@[j])),
            !changed ==> forall|j: int, q: int|
                0 <= j < edges@.len() && !followed@[j] && 0 <= q < r@.len() ==> !leads_to(
                    #[trigger] edges@[j],
                    #[trigger] r@[q],
                ),
        decreases unfollowed(followed@), if changed { 1int } else { 0int },
    {
        changed = false;
        let mut k: usize = 0;
        let ghost start = unfollowed(followed@);
        while k < edges.len()
            invariant
                k <= edges@.len(),
                followed@.len() == edges@.len(),
                r@.no_duplicates(),
                r@.contains(seed),
                is_least(r@.to_set(), seed, edges@),
                forall|j: int| 0 <= j < edges@.len() && followed@[j] ==> r@.contains(source(edges@[j])),
                changed ==> unfollowed(followed@) < start,
                !changed ==> unfollowed(followed@) == start,
                !changed ==> forall|j: int, q: int|
                    0 <= j < k && !followed@[j] && 0 <= q < r@.len() ==> !leads_to(
                        #[trigger] edges@[j],
                        #[trigger] r@[q],
                    ),
            decreases edges@.len() - k,
        {
            let e = edges[k];
            if !followed[k] && leads_into(e, &r) {
                proof {
                    lemma_follow(followed@, k as int);
                }
                followed.set(k, true);
                let s = (e.tag_id, e.value_id);
                if !contains(&r, s) {
                    let ghost before = r@;
                    r.push(s);
                    proof {
                        assert(r@ == before.push(s));
                        let w0 = choose|w: int| 0 <= w < before.len() && before[w] == seed;
                        assert(r@[w0] == seed);
                        assert forall|x: Pair| #[trigger] r@.to_set().contains(x) == before.to_set().insert(s).contains(x) by {
                            if r@.contains(x) {
                                let w = choose|w: int| 0 <= w < r@.len() && r@[w] == x;
                                if w < before.len() {
                                    assert(before[w] == x);
                                }
                            }
                            if before.contains(x) {
                                let w = choose|w: int| 0 <= w < before.len() && before[w] == x;
                                assert(r@[w] == x);
                            }
                            if x == s {
                                assert(r@[r@.len() - 1] == s);
                            }
                        }
                        assert(r@.to_set() =~= before.to_set().insert(s));
                        assert forall|t: Set<Pair>| #[trigger] is_closed(t, edges@) && t.contains(seed) implies r@.to_set().subset_of(t) by {
                            assert(before.to_set().subset_of(t));
                            let q = choose|q: int| 0 <= q < before.len() && leads_to(e, #[trigger] before[q]);
                            assert(before.to_set().contains(before[q]));
                            assert(t.contains(before[q]));
                            assert(leads_to(edges@[k as int], before[q]));
                        }
                        assert forall|j: int| 0 <= j < edges@.len() && followed@[j] implies r@.contains(source(edges@[j])) by {
                            if j != k {
                                assert(before.contains(source(edges@[j])));
                                let w = choose|w: int| 0 <= w < before.len() && before[w] == source(edges@[j]);
                                assert(r@[w] == source(edges@[j]));
                            } else {
                                assert(r@[r@.len() - 1] == s);
                            }
                        }
                    }
                }
                changed = true;
            }
            k = k + 1;
        }
    }
    proof {
        assert forall|p: Pair, j: int|
            #[trigger] r@.to_set().contains(p) && 0 <= j < edges@.len() && #[trigger] leads_to(edges@[j], p) implies r@.to_set().contains(source(edges@[j])) by {
            let q = choose|q: int| 0 <= q < r@.len() && r@[q] == p;
            if !followed@[j] {
                assert(!leads_to(edges@[j], r@[q]));
            }
        }
    }
    r
}

} // verus!
