//! The story cards of the entity-relationships window: one card per job,
//! listing the pains and gains linked to it, and the cards put in order of
//! how many of their needs are addressed, fewest first.

use vstd::prelude::*;

use crate::ids::EntityId;
use crate::idset::contains_id;
use crate::model::{Entity, Link, ValueAnnotation, ids_of};

verus! {

broadcast use vstd::seq_lib::group_filter_ensures;

/// Keeps the links into `job` whose need is one of `known`.
pub open spec fn links_into_job(job: EntityId, known: Seq<EntityId>) -> spec_fn(Link) -> bool {
    |l: Link| l.1 == job && known.contains(l.0)
}

/// The needs a job's card lists from a `(need, job)` table: the first member
/// of each link into the job whose need exists, in table order.
pub open spec fn job_need_list(links: Seq<Link>, job: EntityId, known: Seq<EntityId>) -> Seq<EntityId> {
    links.filter(links_into_job(job, known)).map_values(|l: Link| l.0)
}

/// Whether some entity of `items` has identifier `id`.
fn has_entity<T: Entity>(items: &Vec<T>, id: EntityId) -> (r: bool)
    ensures
        r == ids_of(items@).contains(id),
{
    let mut i: usize = 0;
    while i < items.len()
        invariant
            i <= items@.len(),
            forall|k: int| 0 <= k < i ==> (#[trigger] items@[k]).spec_id() != id,
        decreases items@.len() - i,
    {
        if items[i].entity_id() == id {
            proof {
                assert(ids_of(items@)[i as int] == id);
            }
            return true;
        }
        i = i + 1;
    }
    proof {
        if ids_of(items@).contains(id) {
            let k = choose|k: int| 0 <= k < ids_of(items@).len() && ids_of(items@)[k] == id;
            assert(items@[k].spec_id() == id);
        }
    }
    false
}

/// The needs listed on the card of `job`, from a `(need, job)` link table:
/// each linked need that exists among `items`, in link-table order.
pub fn job_need_ids<T: Entity>(links: &Vec<Link>, job: EntityId, items: &Vec<T>) -> (r: Vec<EntityId>)
    ensures
        r@ == job_need_list(links@, job, ids_of(items@)),
{
    let ghost keep = links_into_job(job, ids_of(items@));
    let mut r: Vec<EntityId> = Vec::new();
    let mut i: usize = 0;
    while i < links.len()
        invariant
            i <= links@.len(),
            keep == links_into_job(job, ids_of(items@)),
            r@ == links@.take(i as int).filter(keep).map_values(|l: Link| l.0),
        decreases links@.len() - i,
    {
        let l = links[i];
        proof {
            assert(links@.take(i + 1) == links@.take(i as int).push(l));
            links@.take(i as int).lemma_filter_push(l, keep);
        }
        if l.1 == job && has_entity(items, l.0) {
            r.push(l.0);
            proof {
                assert(links@.take(i + 1).filter(keep).map_values(|l: Link| l.0) =~= links@.take(
                    i as int,
                ).filter(keep).map_values(|l: Link| l.0).push(l.0));
            }
        }
        i = i + 1;
    }
    proof {
        assert(links@.take(links@.len() as int) == links@);
    }
    r
}

/// Index `a` goes before index `b`: a smaller key, or an equal key and an
/// earlier position.
pub open spec fn goes_before(keys: Seq<usize>, a: usize, b: usize) -> bool {
    keys[a as int] < keys[b as int] || (keys[a as int] == keys[b as int] && a < b)
}

/// `order` lists each index of `keys` once, by increasing key, and indices
/// with equal keys in the order they have in `keys`.
pub open spec fn is_stable_order(keys: Seq<usize>, order: Seq<usize>) -> bool {
    &&& order.len() == keys.len()
    &&& order.no_duplicates()
    &&& forall|i: int| 0 <= i < order.len() ==> #[trigger] order[i] < keys.len()
    &&& forall|i: int, j: int|
        0 <= i < j < order.len() ==> goes_before(keys, #[trigger] order[i], #[trigger] order[j])
}

/// The indices of `keys` sorted by key, keeping their order in `keys` among
/// equal keys: the order in which the story cards are shown, fewest
/// addressed needs first.
pub fn stable_order_by_key(keys: &Vec<usize>) -> (r: Vec<usize>)
    ensures
        is_stable_order(keys@, r@),
{
    let mut order: Vec<usize> = Vec::new();
    let mut i: usize = 0;
    while i < keys.len()
        invariant
            i <= keys@.len(),
            order@.len() == i,
            order@.no_duplicates(),
            forall|k: int| 0 <= k < order@.len() ==> #[trigger] order@[k] < i,
            forall|a: int, b: int|
                0 <= a < b < order@.len() ==> goes_before(keys@, #[trigger] order@[a], #[trigger] order@[b]),
        decreases keys@.len() - i,
    {
        let key = keys[i];
        // Position after every index whose key is no larger.
        let mut p: usize = 0;
        while p < order.len() && keys[order[p]] <= key
            invariant
                p <= order@.len(),
                i < keys@.len(),
                key == keys@[i as int],
                forall|k: int| 0 <= k < order@.len() ==> #[trigger] order@[k] < i,
                forall|k: int| 0 <= k < p ==> keys@[(#[trigger] order@[k]) as int] <= key,
            decreases order@.len() - p,
        {
            p = p + 1;
        }
        proof {
            // Past `p` every key is larger: the keys along `order` never decrease.
            assert forall|k: int| p <= k < order@.len() implies keys@[(#[trigger] order@[k]) as int] > key by {
                if k > p as int {
                    assert(goes_before(keys@, order@[p as int], order@[k]));
                }
            }
        }
        let ghost before = order@;
        order.insert(p, i);
        proof {
            assert(order@ == before.insert(p as int, i));
            assert forall|k: int| 0 <= k < order@.len() implies #[trigger] order@[k] < i + 1 by {
                if k < p {
                    assert(order@[k] == before[k]);
                } else if k > p {
                    assert(order@[k] == before[k - 1]);
                }
            }
            assert forall|a: int, b: int| 0 <= a < b < order@.len() implies goes_before(
                keys@,
                #[trigger] order@[a],
                #[trigger] order@[b],
            ) by {
                if a < p && b < p {
                    assert(goes_before(keys@, before[a], before[b]));
                } else if a < p && b == p {
                    assert(keys@[before[a] as int] <= key);
                    assert(before[a] < i);
                } else if a < p && b > p {
                    assert(order@[b] == before[b - 1]);
                    assert(goes_before(keys@, before[a], before[b - 1]));
                } else if a == p {
                    assert(order@[b] == before[b - 1]);
                    assert(keys@[before[b - 1] as int] > key);
                } else {
                    assert(order@[a] == before[a - 1]);
                    assert(order@[b] == before[b - 1]);
                    assert(goes_before(keys@, before[a - 1], before[b - 1]));
                }
            }
            assert forall|a: int, b: int| 0 <= a < order@.len() && 0 <= b < order@.len() && a != b implies order@[a] != order@[b] by {
                if a != p && b != p {
                    let a0 = if a < p { a } else { a - 1 };
                    let b0 = if b < p { b } else { b - 1 };
                    assert(order@[a] == before[a0]);
                    assert(order@[b] == before[b0]);
                } else if a == p {
                    let b0 = if b < p { b } else { b - 1 };
                    assert(order@[b] == before[b0]);
                } else {
                    let a0 = if a < p { a } else { a - 1 };
                    assert(order@[a] == before[a0]);
                }
            }
        }
        i = i + 1;
    }
    order
}


/// The annotation counts on the web of a job: its need is one of the job's
/// needs and its solution exists.
pub open spec fn on_web(needs: Seq<EntityId>, solutions: Seq<EntityId>) -> spec_fn(ValueAnnotation) -> bool {
    |a: ValueAnnotation| needs.contains(a.pain_or_gain_id) && solutions.contains(a.reliever_or_creator_id)
}

/// The outer ring of a job's web: the solution of each counted annotation,
/// each once, in the order the annotations first name them.
pub open spec fn web_ring(anns: Seq<ValueAnnotation>, needs: Seq<EntityId>, solutions: Seq<EntityId>) -> Seq<EntityId>
    decreases anns.len(),
{
    if anns.len() == 0 {
        Seq::empty()
    } else {
        let ring = web_ring(anns.drop_last(), needs, solutions);
        let a = anns.last();
        if on_web(needs, solutions)(a) && !ring.contains(a.reliever_or_creator_id) {
            ring.push(a.reliever_or_creator_id)
        } else {
            ring
        }
    }
}

/// The solutions on the outer ring of a job's web: those annotated on one of
/// `needs` that exist among `solutions`, each once, in first-annotation order.
pub fn web_solution_ids<T: Entity>(anns: &Vec<ValueAnnotation>, needs: &Vec<EntityId>, solutions: &Vec<T>) -> (r: Vec<EntityId>)
    ensures
        r@ == web_ring(anns@, needs@, ids_of(solutions@)),
        r@.no_duplicates(),
{
    let mut r: Vec<EntityId> = Vec::new();
    let mut i: usize = 0;
    while i < anns.len()
        invariant
            i <= anns@.len(),
            r@ == web_ring(anns@.take(i as int), needs@, ids_of(solutions@)),
            r@.no_duplicates(),
        decreases anns@.len() - i,
    {
        let a = anns[i];
        proof {
            assert(anns@.take(i + 1).drop_last() == anns@.take(i as int));
            assert(anns@.take(i + 1).last() == a);
        }
        if contains_id(needs, a.pain_or_gain_id) && has_entity(solutions, a.reliever_or_creator_id)
            && !contains_id(&r, a.reliever_or_creator_id) {
            let ghost before = r@;
            r.push(a.reliever_or_creator_id);
            proof {
                assert forall|x: int, y: int| 0 <= x < r@.len() && 0 <= y < r@.len() && x != y implies r@[x] != r@[y] by {
                    if x == before.len() as int {
                        assert(before[y] == r@[y]);
                        assert(before.contains(before[y]));
                    } else if y == before.len() as int {
                        assert(before[x] == r@[x]);
                        assert(before.contains(before[x]));
                    } else {
                        assert(before[x] == r@[x] && before[y] == r@[y]);
                    }
                }
            }
        }
        i = i + 1;
    }
    proof {
        assert(anns@.take(anns@.len() as int) == anns@);
    }
    r
}

} // verus!
