//! Small verified operations on identifier lists and link tables, shared by
//! the graph queries and the editing actions.

use std::collections::HashSet;
use vstd::prelude::*;

use crate::ids::EntityId;
use crate::model::{Entity, Link};

verus! {

broadcast use vstd::std_specs::hash::group_hash_axioms;

/// Selects the second member of a link whose first member is `a`.
pub open spec fn target_if_from(a: EntityId) -> spec_fn(Link) -> Option<EntityId> {
    |l: Link| if l.0 == a { Some(l.1) } else { None }
}

/// Selects the first member of a link whose second member is `b`.
pub open spec fn source_if_to(b: EntityId) -> spec_fn(Link) -> Option<EntityId> {
    |l: Link| if l.1 == b { Some(l.0) } else { None }
}

/// The second members of the links whose first member is `a`, in table order.
pub open spec fn targets_of(links: Seq<Link>, a: EntityId) -> Seq<EntityId> {
    links.filter_map(target_if_from(a))
}

/// The first members of the links whose second member is `b`, in table order.
pub open spec fn sources_of(links: Seq<Link>, b: EntityId) -> Seq<EntityId> {
    links.filter_map(source_if_to(b))
}

/// `x` is among the targets of `a` exactly when the table holds `(a, x)`.
pub proof fn lemma_targets_of_contains(links: Seq<Link>, a: EntityId, x: EntityId)
    ensures
        targets_of(links, a).contains(x) <==> links.contains((a, x)),
    decreases links.len(),
{
    let f = target_if_from(a);
    if links.len() > 0 {
        let rest = links.drop_last();
        lemma_targets_of_contains(rest, a, x);
        assert(links == rest.push(links.last()));
        assert(targets_of(links, a) == (match f(links.last()) {
            Some(s) => targets_of(rest, a) + seq![s],
            None => targets_of(rest, a),
        }));
        if links.contains((a, x)) && !rest.contains((a, x)) {
            let k = choose|k: int| 0 <= k < links.len() && links[k] == (a, x);
            if k < links.len() - 1 {
                assert(rest[k] == (a, x));
            }
            assert(targets_of(links, a)[targets_of(links, a).len() - 1] == x);
        }
        if targets_of(links, a).contains(x) && !targets_of(rest, a).contains(x) {
            assert(f(links.last()) == Some(x));
            assert(links[links.len() - 1] == (a, x));
        }
        if rest.contains((a, x)) {
            let k = choose|k: int| 0 <= k < rest.len() && rest[k] == (a, x);
            assert(links[k] == (a, x));
            let j = choose|j: int| 0 <= j < targets_of(rest, a).len() && targets_of(rest, a)[j] == x;
            assert(targets_of(links, a)[j] == x);
        }
        if targets_of(rest, a).contains(x) {
            let j = choose|j: int| 0 <= j < targets_of(rest, a).len() && targets_of(rest, a)[j] == x;
            assert(targets_of(links, a)[j] == x);
        }
    }
}

/// `x` is among the sources of `b` exactly when the table holds `(x, b)`.
pub proof fn lemma_sources_of_contains(links: Seq<Link>, b: EntityId, x: EntityId)
    ensures
        sources_of(links, b).contains(x) <==> links.contains((x, b)),
    decreases links.len(),
{
    let f = source_if_to(b);
    if links.len() > 0 {
        let rest = links.drop_last();
        lemma_sources_of_contains(rest, b, x);
        assert(links == rest.push(links.last()));
        assert(sources_of(links, b) == (match f(links.last()) {
            Some(s) => sources_of(rest, b) + seq![s],
            None => sources_of(rest, b),
        }));
        if links.contains((x, b)) && !rest.contains((x, b)) {
            let k = choose|k: int| 0 <= k < links.len() && links[k] == (x, b);
            if k < links.len() - 1 {
                assert(rest[k] == (x, b));
            }
            assert(sources_of(links, b)[sources_of(links, b).len() - 1] == x);
        }
        if sources_of(links, b).contains(x) && !sources_of(rest, b).contains(x) {
            assert(f(links.last()) == Some(x));
            assert(links[links.len() - 1] == (x, b));
        }
        if rest.contains((x, b)) {
            let k = choose|k: int| 0 <= k < rest.len() && rest[k] == (x, b);
            assert(links[k] == (x, b));
            let j = choose|j: int| 0 <= j < sources_of(rest, b).len() && sources_of(rest, b)[j] == x;
            assert(sources_of(links, b)[j] == x);
        }
        if sources_of(rest, b).contains(x) {
            let j = choose|j: int| 0 <= j < sources_of(rest, b).len() && sources_of(rest, b)[j] == x;
            assert(sources_of(links, b)[j] == x);
        }
    }
}

/// The second members of the links whose first member is `a`, in table order.
pub fn link_targets(links: &Vec<Link>, a: EntityId) -> (r: Vec<EntityId>)
    ensures
        r@ == targets_of(links@, a),
{
    let mut r: Vec<EntityId> = Vec::new();
    let mut i: usize = 0;
    while i < links.len()
        invariant
            i <= links@.len(),
            r@ == targets_of(links@.take(i as int), a),
        decreases links@.len() - i,
    {
        proof {
            links@.lemma_filter_map_take_succ(target_if_from(a), i as int);
        }
        let l = links[i];
        if l.0 == a {
            r.push(l.1);
        }
        i = i + 1;
    }
    assert(links@.take(links@.len() as int) == links@);
    r
}

/// The first members of the links whose second member is `b`, in table order.
pub fn link_sources(links: &Vec<Link>, b: EntityId) -> (r: Vec<EntityId>)
    ensures
        r@ == sources_of(links@, b),
{
    let mut r: Vec<EntityId> = Vec::new();
    let mut i: usize = 0;
    while i < links.len()
        invariant
            i <= links@.len(),
            r@ == sources_of(links@.take(i as int), b),
        decreases links@.len() - i,
    {
        proof {
            links@.lemma_filter_map_take_succ(source_if_to(b), i as int);
        }
        let l = links[i];
        if l.1 == b {
            r.push(l.0);
        }
        i = i + 1;
    }
    assert(links@.take(links@.len() as int) == links@);
    r
}

/// Whether `ids` holds `x`.
pub fn contains_id(ids: &Vec<EntityId>, x: EntityId) -> (r: bool)
    ensures
        r == ids@.contains(x),
{
    let mut i: usize = 0;
    while i < ids.len()
        invariant
            i <= ids@.len(),
            forall|k: int| 0 <= k < i ==> ids@[k] != x,
        decreases ids@.len() - i,
    {
        if ids[i] == x {
            return true;
        }
        i = i + 1;
    }
    false
}

/// Whether the table holds the link `pair`.
pub fn contains_link(links: &Vec<Link>, pair: Link) -> (r: bool)
    ensures
        r == links@.contains(pair),
{
    let mut i: usize = 0;
    while i < links.len()
        invariant
            i <= links@.len(),
            forall|k: int| 0 <= k < i ==> links@[k] != pair,
        decreases links@.len() - i,
    {
        let l = links[i];
        if l.0 == pair.0 && l.1 == pair.1 {
            return true;
        }
        i = i + 1;
    }
    false
}

/// Appends `x` unless it is already present.
pub fn push_unique(ids: &mut Vec<EntityId>, x: EntityId)
    ensures
        final(ids)@ == if old(ids)@.contains(x) {
            old(ids)@
        } else {
            old(ids)@.push(x)
        },
        old(ids)@.no_duplicates() ==> final(ids)@.no_duplicates(),
        final(ids)@.to_set() == old(ids)@.to_set().insert(x),
{
    proof {
        broadcast use vstd::seq_lib::group_seq_properties;
    }
    if !contains_id(ids, x) {
        ids.push(x);
    }
    proof {
        broadcast use vstd::seq_lib::group_seq_properties;
        assert(final(ids)@.to_set() =~= old(ids)@.to_set().insert(x));
    }
}

/// Appends each element of `xs` that is not yet present.
pub fn extend_unique(ids: &mut Vec<EntityId>, xs: &Vec<EntityId>)
    ensures
        old(ids)@.no_duplicates() ==> final(ids)@.no_duplicates(),
        final(ids)@.to_set() == old(ids)@.to_set() + xs@.to_set(),
        old(ids)@.is_prefix_of(final(ids)@),
{
    let ghost start = ids@;
    let mut i: usize = 0;
    while i < xs.len()
        invariant
            i <= xs@.len(),
            start.no_duplicates() ==> ids@.no_duplicates(),
            ids@.to_set() == start.to_set() + xs@.take(i as int).to_set(),
            start.is_prefix_of(ids@),
        decreases xs@.len() - i,
    {
        let ghost before = ids@;
        push_unique(ids, xs[i]);
        proof {
            broadcast use vstd::seq_lib::group_seq_properties;
            assert(xs@.take(i + 1) == xs@.take(i as int).push(xs@[i as int]));
            assert(ids@.to_set() =~= start.to_set() + xs@.take(i + 1).to_set());
            assert(start.is_prefix_of(ids@)) by {
                assert forall|k: int| 0 <= k < start.len() implies start[k] == ids@[k] by {
                    assert(before[k] == start[k]);
                }
            }
        }
        i = i + 1;
    }
    proof {
        assert(xs@.take(xs@.len() as int) == xs@);
    }
}

/// The set holding exactly the elements of `ids`.
pub fn to_hash_set(ids: &Vec<EntityId>) -> (r: HashSet<EntityId>)
    ensures
        r@ == ids@.to_set(),
{
    let mut r: HashSet<EntityId> = HashSet::new();
    let mut i: usize = 0;
    while i < ids.len()
        invariant
            i <= ids@.len(),
            r@ == ids@.take(i as int).to_set(),
        decreases ids@.len() - i,
    {
        r.insert(ids[i]);
        proof {
            broadcast use vstd::seq_lib::group_seq_properties;
            assert(ids@.take(i + 1) == ids@.take(i as int).push(ids@[i as int]));
            assert(r@ =~= ids@.take(i + 1).to_set());
        }
        i = i + 1;
    }
    proof {
        assert(ids@.take(ids@.len() as int) == ids@);
    }
    r
}

/// The second members of the links whose first member lies in `from`.
pub open spec fn image(links: Seq<Link>, from: Set<EntityId>) -> Set<EntityId> {
    Set::new(
        |x: EntityId|
            exists|k: int| 0 <= k < links.len() && from.contains(#[trigger] links[k].0) && links[k].1 == x,
    )
}

/// The first members of the links whose second member lies in `to`.
pub open spec fn preimage(links: Seq<Link>, to: Set<EntityId>) -> Set<EntityId> {
    Set::new(
        |x: EntityId|
            exists|k: int| 0 <= k < links.len() && to.contains(#[trigger] links[k].1) && links[k].0 == x,
    )
}

/// Each second member, once, of the links whose first member is in `from`.
pub fn image_of(links: &Vec<Link>, from: &Vec<EntityId>) -> (r: Vec<EntityId>)
    ensures
        r@.len() <= links@.len(),
        r@.no_duplicates(),
        r@.to_set() == image(links@, from@.to_set()),
{
    let mut r: Vec<EntityId> = Vec::new();
    let mut i: usize = 0;
    while i < links.len()
        invariant
            i <= links@.len(),
            r@.len() <= i,
            r@.no_duplicates(),
            r@.to_set() == image(links@.take(i as int), from@.to_set()),
        decreases links@.len() - i,
    {
        let l = links[i];
        if contains_id(from, l.0) {
            push_unique(&mut r, l.1);
        }
        proof {
            let t = links@.take(i + 1);
            assert(t == links@.take(i as int).push(links@[i as int]));
            assert(r@.to_set() =~= image(t, from@.to_set())) by {
                assert forall|x: EntityId| image(t, from@.to_set()).contains(x) implies r@.to_set().contains(x) by {
                    let k = choose|k: int| 0 <= k < t.len() && from@.to_set().contains(#[trigger] t[k].0) && t[k].1 == x;
                    if k < i {
                        assert(links@.take(i as int)[k] == t[k]);
                        assert(image(links@.take(i as int), from@.to_set()).contains(x));
                    }
                }
                assert forall|x: EntityId| r@.to_set().contains(x) implies image(t, from@.to_set()).contains(x) by {
                    if x == l.1 && from@.contains(l.0) {
                        assert(t[i as int] == l);
                    } else {
                        assert(image(links@.take(i as int), from@.to_set()).contains(x));
                        let k = choose|k: int| 0 <= k < i && from@.to_set().contains(#[trigger] links@.take(i as int)[k].0) && links@.take(i as int)[k].1 == x;
                        assert(t[k] == links@.take(i as int)[k]);
                    }
                }
            }
        }
        i = i + 1;
    }
    proof {
        assert(links@.take(links@.len() as int) == links@);
    }
    r
}

/// Each first member, once, of the links whose second member is in `to`.
pub fn preimage_of(links: &Vec<Link>, to: &Vec<EntityId>) -> (r: Vec<EntityId>)
    ensures
        r@.len() <= links@.len(),
        r@.no_duplicates(),
        r@.to_set() == preimage(links@, to@.to_set()),
{
    let mut r: Vec<EntityId> = Vec::new();
    let mut i: usize = 0;
    while i < links.len()
        invariant
            i <= links@.len(),
            r@.len() <= i,
            r@.no_duplicates(),
            r@.to_set() == preimage(links@.take(i as int), to@.to_set()),
        decreases links@.len() - i,
    {
        let l = links[i];
        if contains_id(to, l.1) {
            push_unique(&mut r, l.0);
        }
        proof {
            let t = links@.take(i + 1);
            assert(t == links@.take(i as int).push(links@[i as int]));
            assert(r@.to_set() =~= preimage(t, to@.to_set())) by {
                assert forall|x: EntityId| preimage(t, to@.to_set()).contains(x) implies r@.to_set().contains(x) by {
                    let k = choose|k: int| 0 <= k < t.len() && to@.to_set().contains(#[trigger] t[k].1) && t[k].0 == x;
                    if k < i {
                        assert(links@.take(i as int)[k] == t[k]);
                        assert(preimage(links@.take(i as int), to@.to_set()).contains(x));
                    }
                }
                assert forall|x: EntityId| r@.to_set().contains(x) implies preimage(t, to@.to_set()).contains(x) by {
                    if x == l.0 && to@.contains(l.1) {
                        assert(t[i as int] == l);
                    } else {
                        assert(preimage(links@.take(i as int), to@.to_set()).contains(x));
                        let k = choose|k: int| 0 <= k < i && to@.to_set().contains(#[trigger] links@.take(i as int)[k].1) && links@.take(i as int)[k].0 == x;
                        assert(t[k] == links@.take(i as int)[k]);
                    }
                }
            }
        }
        i = i + 1;
    }
    proof {
        assert(links@.take(links@.len() as int) == links@);
    }
    r
}

/// The number of elements of `xs` that `ys` also holds, for a duplicate-free `xs`.
pub(crate) fn count_common(xs: &Vec<EntityId>, ys: &Vec<EntityId>) -> (r: usize)
    requires
        xs@.no_duplicates(),
    ensures
        r <= xs@.len(),
        r == xs@.to_set().intersect(ys@.to_set()).len(),
{
    broadcast use vstd::set::group_set_axioms;
    broadcast use vstd::seq_lib::seq_to_set_is_finite;

    let mut r: usize = 0;
    let mut i: usize = 0;
    proof {
        assert(xs@.take(0).to_set().intersect(ys@.to_set()) =~= Set::empty());
    }
    while i < xs.len()
        invariant
            i <= xs@.len(),
            xs@.no_duplicates(),
            r == xs@.take(i as int).to_set().intersect(ys@.to_set()).len(),
            r <= i,
        decreases xs@.len() - i,
    {
        let x = xs[i];
        let ghost a = xs@.take(i as int).to_set().intersect(ys@.to_set());
        proof {
            assert(xs@.take(i + 1) == xs@.take(i as int).push(x));
            xs@.take(i as int).lemma_push_to_set_commute(x);
            assert(!xs@.take(i as int).contains(x)) by {
                if xs@.take(i as int).contains(x) {
                    let k = choose|k: int| 0 <= k < i && xs@.take(i as int)[k] == x;
                    assert(xs@[k] == xs@[i as int]);
                }
            }
            assert(a.finite());
        }
        if contains_id(ys, x) {
            proof {
                assert(xs@.take(i + 1).to_set().intersect(ys@.to_set()) =~= a.insert(x));
                assert(!a.contains(x));
            }
            r = r + 1;
        } else {
            proof {
                assert(xs@.take(i + 1).to_set().intersect(ys@.to_set()) =~= a);
            }
        }
        i = i + 1;
    }
    proof {
        assert(xs@.take(xs@.len() as int) == xs@);
    }
    r
}


/// Accepts the entities whose identifier is in `ids` (`member`) or not in it (`!member`).
pub open spec fn member_filter<T: Entity>(ids: Seq<EntityId>, member: bool) -> spec_fn(T) -> bool {
    |x: T| ids.contains(x.spec_id()) == member
}

/// The `(id, name)` entry of an entity.
pub open spec fn entry_of<T: Entity>() -> spec_fn(T) -> (EntityId, Seq<char>) {
    |x: T| (x.spec_id(), x.spec_name())
}

/// The `(id, name)` entries, in order, of the entities of `items` whose
/// identifier is in `ids` (`member`) or not in it (`!member`).
pub open spec fn named_entries<T: Entity>(items: Seq<T>, ids: Seq<EntityId>, member: bool) -> Seq<(EntityId, Seq<char>)> {
    items.filter(member_filter(ids, member)).map_values(entry_of())
}

/// The text view of a list of named entries.
pub open spec fn entry_views(entries: Seq<(EntityId, String)>) -> Seq<(EntityId, Seq<char>)> {
    entries.map_values(|e: (EntityId, String)| (e.0, e.1@))
}

/// Splits `items` into the entries whose identifier is in `linked_ids` and
/// the others, each as `(id, name)` in the order of `items`: the linked
/// entities of a panel and the choices left for linking.
pub fn partition_linked<T: Entity>(linked_ids: &Vec<EntityId>, items: &Vec<T>) -> (r: (Vec<(EntityId, String)>, Vec<(EntityId, String)>))
    ensures
        entry_views(r.0@) == named_entries(items@, linked_ids@, true),
        entry_views(r.1@) == named_entries(items@, linked_ids@, false),
{
    let ghost inside = member_filter::<T>(linked_ids@, true);
    let ghost outside = member_filter::<T>(linked_ids@, false);
    let ghost entry = entry_of::<T>();
    let mut linked: Vec<(EntityId, String)> = Vec::new();
    let mut available: Vec<(EntityId, String)> = Vec::new();
    let mut i: usize = 0;
    while i < items.len()
        invariant
            i <= items@.len(),
            inside == member_filter::<T>(linked_ids@, true),
            outside == member_filter::<T>(linked_ids@, false),
            entry == entry_of::<T>(),
            entry_views(linked@) == items@.take(i as int).filter(inside).map_values(entry),
            entry_views(available@) == items@.take(i as int).filter(outside).map_values(entry),
        decreases items@.len() - i,
    {
        let item = &items[i];
        let id = item.entity_id();
        let name = String::from_str(item.entity_name());
        proof {
            assert(items@.take(i + 1) == items@.take(i as int).push(*item));
            items@.take(i as int).lemma_filter_push(*item, inside);
            items@.take(i as int).lemma_filter_push(*item, outside);
        }
        let ghost before_l = linked@;
        let ghost before_a = available@;
        if contains_id(linked_ids, id) {
            linked.push((id, name));
            proof {
                assert(entry_views(linked@) =~= entry_views(before_l).push((id, name@)));
                assert(items@.take(i + 1).filter(inside).map_values(entry) =~= items@.take(
                    i as int,
                ).filter(inside).map_values(entry).push(entry(*item)));
                assert(items@.take(i + 1).filter(outside) == items@.take(i as int).filter(outside));
            }
        } else {
            available.push((id, name));
            proof {
                assert(entry_views(available@) =~= entry_views(before_a).push((id, name@)));
                assert(items@.take(i + 1).filter(outside).map_values(entry) =~= items@.take(
                    i as int,
                ).filter(outside).map_values(entry).push(entry(*item)));
                assert(items@.take(i + 1).filter(inside) == items@.take(i as int).filter(inside));
            }
        }
        i = i + 1;
    }
    proof {
        assert(items@.take(items@.len() as int) == items@);
    }
    (linked, available)
}

} // verus!
