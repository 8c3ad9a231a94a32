//! Editing operations on link tables, annotation lists and entity lists.

use vstd::prelude::*;

use crate::ids::EntityId;
use crate::idset::contains_link;
use crate::model::{Entity, Link, ValueAnnotation, ValueType};

verus! {

broadcast use vstd::seq_lib::group_filter_ensures;

/// Keeps the links other than `pair`.
pub open spec fn link_is_not(pair: Link) -> spec_fn(Link) -> bool {
    |l: Link| l != pair
}

/// Keeps the links whose first member is not `id`.
pub open spec fn first_is_not(id: EntityId) -> spec_fn(Link) -> bool {
    |l: Link| l.0 != id
}

/// Keeps the links whose second member is not `id`.
pub open spec fn second_is_not(id: EntityId) -> spec_fn(Link) -> bool {
    |l: Link| l.1 != id
}

/// Keeps the annotations that do not join `need` to `solution`.
pub open spec fn annotation_is_not(need: EntityId, solution: EntityId) -> spec_fn(ValueAnnotation) -> bool {
    |a: ValueAnnotation| !(a.pain_or_gain_id == need && a.reliever_or_creator_id == solution)
}

/// Keeps the annotations whose solution is not `solution`.
pub open spec fn solution_is_not(solution: EntityId) -> spec_fn(ValueAnnotation) -> bool {
    |a: ValueAnnotation| a.reliever_or_creator_id != solution
}

/// Keeps the entities whose identifier is not `id`.
pub open spec fn id_is_not<T: Entity>(id: EntityId) -> spec_fn(T) -> bool {
    |x: T| x.spec_id() != id
}

/// Which links a removal keeps.
enum LinkFilter {
    AllBut(Link),
    FirstNot(EntityId),
    SecondNot(EntityId),
}

impl LinkFilter {
    spec fn keeps(self) -> spec_fn(Link) -> bool {
        match self {
            LinkFilter::AllBut(p) => link_is_not(p),
            LinkFilter::FirstNot(id) => first_is_not(id),
            LinkFilter::SecondNot(id) => second_is_not(id),
        }
    }

    fn keep(&self, l: Link) -> (r: bool)
        ensures
            r == (self.keeps())(l),
    {
        match self {
            LinkFilter::AllBut(p) => !(l.0 == p.0 && l.1 == p.1),
            LinkFilter::FirstNot(id) => l.0 != *id,
            LinkFilter::SecondNot(id) => l.1 != *id,
        }
    }
}

/// Keeps, in order, the links the filter keeps.
fn retain_links(links: &mut Vec<Link>, filter: LinkFilter)
    ensures
        final(links)@ == old(links)@.filter(filter.keeps()),
{
    let mut kept: Vec<Link> = Vec::new();
    let mut i: usize = 0;
    while i < links.len()
        invariant
            i <= links@.len(),
            kept@ == links@.take(i as int).filter(filter.keeps()),
        decreases links@.len() - i,
    {
        let l = links[i];
        proof {
            assert(links@.take(i + 1) == links@.take(i as int).push(l));
            links@.take(i as int).lemma_filter_push(l, filter.keeps());
        }
        if filter.keep(l) {
            kept.push(l);
        }
        i = i + 1;
    }
    proof {
        assert(links@.take(links@.len() as int) == links@);
    }
    *links = kept;
}

/// The table with `pair` appended unless it is already there.
pub open spec fn with_link(links: Seq<Link>, pair: Link) -> Seq<Link> {
    if links.contains(pair) {
        links
    } else {
        links.push(pair)
    }
}

/// Adds `pair` to the table unless it is already there.
pub fn add_link(links: &mut Vec<Link>, pair: Link)
    ensures
        final(links)@ == with_link(old(links)@, pair),
{
    if !contains_link(links, pair) {
        links.push(pair);
    }
}

/// Removes every occurrence of `pair` from the table.
pub fn remove_link(links: &mut Vec<Link>, pair: Link)
    ensures
        final(links)@ == old(links)@.filter(link_is_not(pair)),
{
    retain_links(links, LinkFilter::AllBut(pair));
}

/// Removes every link whose first member is `id`.
pub fn remove_links_from(links: &mut Vec<Link>, id: EntityId)
    ensures
        final(links)@ == old(links)@.filter(first_is_not(id)),
{
    retain_links(links, LinkFilter::FirstNot(id));
}

/// Removes every link whose second member is `id`.
pub fn remove_links_to(links: &mut Vec<Link>, id: EntityId)
    ensures
        final(links)@ == old(links)@.filter(second_is_not(id)),
{
    retain_links(links, LinkFilter::SecondNot(id));
}

/// Which annotations a removal keeps.
enum AnnotationFilter {
    AllBut(EntityId, EntityId),
    SolutionNot(EntityId),
}

impl AnnotationFilter {
    spec fn keeps(self) -> spec_fn(ValueAnnotation) -> bool {
        match self {
            AnnotationFilter::AllBut(n, s) => annotation_is_not(n, s),
            AnnotationFilter::SolutionNot(s) => solution_is_not(s),
        }
    }

    fn keep(&self, a: &ValueAnnotation) -> (r: bool)
        ensures
            r == (self.keeps())(*a),
    {
        match self {
            AnnotationFilter::AllBut(n, s) => !(a.pain_or_gain_id == *n && a.reliever_or_creator_id
                == *s),
            AnnotationFilter::SolutionNot(s) => a.reliever_or_creator_id != *s,
        }
    }
}

/// Keeps, in order, the annotations the filter keeps.
fn retain_annotations(anns: &mut Vec<ValueAnnotation>, filter: AnnotationFilter)
    ensures
        final(anns)@ == old(anns)@.filter(filter.keeps()),
{
    let mut kept: Vec<ValueAnnotation> = Vec::new();
    let mut i: usize = 0;
    while i < anns.len()
        invariant
            i <= anns@.len(),
            kept@ == anns@.take(i as int).filter(filter.keeps()),
        decreases anns@.len() - i,
    {
        let a = anns[i];
        proof {
            assert(anns@.take(i + 1) == anns@.take(i as int).push(a));
            anns@.take(i as int).lemma_filter_push(a, filter.keeps());
        }
        if filter.keep(&a) {
            kept.push(a);
        }
        i = i + 1;
    }
    proof {
        assert(anns@.take(anns@.len() as int) == anns@);
    }
    *anns = kept;
}

/// Some annotation joins `need` to `solution`.
pub open spec fn has_annotation(anns: Seq<ValueAnnotation>, need: EntityId, solution: EntityId) -> bool {
    exists|k: int|
        0 <= k < anns.len() && #[trigger] anns[k].pain_or_gain_id == need
            && anns[k].reliever_or_creator_id == solution
}

/// Whether some annotation joins `need` to `solution`.
pub fn annotation_exists(anns: &Vec<ValueAnnotation>, need: EntityId, solution: EntityId) -> (r: bool)
    ensures
        r == has_annotation(anns@, need, solution),
{
    let mut i: usize = 0;
    while i < anns.len()
        invariant
            i <= anns@.len(),
            forall|k: int|
                0 <= k < i ==> !(#[trigger] anns@[k].pain_or_gain_id == need
                    && anns@[k].reliever_or_creator_id == solution),
        decreases anns@.len() - i,
    {
        if anns[i].pain_or_gain_id == need && anns[i].reliever_or_creator_id == solution {
            return true;
        }
        i = i + 1;
    }
    false
}

/// The first annotation joining `need` to `solution`, if any: the cell of a
/// coverage matrix.
pub fn find_annotation(anns: &Vec<ValueAnnotation>, need: EntityId, solution: EntityId) -> (r: Option<ValueAnnotation>)
    ensures
        r is None <==> !has_annotation(anns@, need, solution),
        r matches Some(a) ==> exists|k: int| is_first_annotation(anns@, need, solution, k) && anns@[k] == a,
{
    let mut i: usize = 0;
    while i < anns.len()
        invariant
            i <= anns@.len(),
            forall|k: int|
                0 <= k < i ==> !(#[trigger] anns@[k].pain_or_gain_id == need
                    && anns@[k].reliever_or_creator_id == solution),
        decreases anns@.len() - i,
    {
        if anns[i].pain_or_gain_id == need && anns[i].reliever_or_creator_id == solution {
            proof {
                assert(is_first_annotation(anns@, need, solution, i as int));
            }
            return Some(anns[i]);
        }
        i = i + 1;
    }
    None
}

/// The list with `ann` appended unless an annotation already joins its need
/// to its solution.
pub open spec fn with_annotation(anns: Seq<ValueAnnotation>, ann: ValueAnnotation) -> Seq<ValueAnnotation> {
    if has_annotation(anns, ann.pain_or_gain_id, ann.reliever_or_creator_id) {
        anns
    } else {
        anns.push(ann)
    }
}

/// Appends `ann` unless an annotation already joins its need to its solution.
pub fn add_annotation(anns: &mut Vec<ValueAnnotation>, ann: ValueAnnotation)
    ensures
        final(anns)@ == with_annotation(old(anns)@, ann),
{
    if !annotation_exists(anns, ann.pain_or_gain_id, ann.reliever_or_creator_id) {
        anns.push(ann);
    }
}

/// Removes every annotation joining `need` to `solution`.
pub fn remove_annotation(anns: &mut Vec<ValueAnnotation>, need: EntityId, solution: EntityId)
    ensures
        final(anns)@ == old(anns)@.filter(annotation_is_not(need, solution)),
{
    retain_annotations(anns, AnnotationFilter::AllBut(need, solution));
}

/// Removes every annotation whose solution is `solution`.
pub fn remove_annotations_of_solution(anns: &mut Vec<ValueAnnotation>, solution: EntityId)
    ensures
        final(anns)@ == old(anns)@.filter(solution_is_not(solution)),
{
    retain_annotations(anns, AnnotationFilter::SolutionNot(solution));
}

/// `k` is the first index of an annotation joining `need` to `solution`.
pub open spec fn is_first_annotation(anns: Seq<ValueAnnotation>, need: EntityId, solution: EntityId, k: int) -> bool {
    &&& 0 <= k < anns.len()
    &&& anns[k].pain_or_gain_id == need
    &&& anns[k].reliever_or_creator_id == solution
    &&& forall|j: int|
        0 <= j < k ==> !(#[trigger] anns[j].pain_or_gain_id == need && anns[j].reliever_or_creator_id
            == solution)
}

/// Sets the value type and strength of the first annotation joining `need`
/// to `solution`; without such an annotation nothing changes.
pub fn edit_annotation(
    anns: &mut Vec<ValueAnnotation>,
    need: EntityId,
    solution: EntityId,
    value_type: ValueType,
    strength_bits: u32,
)
    ensures
        !has_annotation(old(anns)@, need, solution) ==> final(anns)@ == old(anns)@,
        has_annotation(old(anns)@, need, solution) ==> exists|k: int|
            is_first_annotation(old(anns)@, need, solution, k) && final(anns)@ == old(anns)@.update(
                k,
                ValueAnnotation { value_type, strength_bits, ..old(anns)@[k] },
            ),
{
    let mut i: usize = 0;
    while i < anns.len()
        invariant
            i <= anns@.len(),
            anns@ == old(anns)@,
            forall|k: int|
                0 <= k < i ==> !(#[trigger] anns@[k].pain_or_gain_id == need
                    && anns@[k].reliever_or_creator_id == solution),
        decreases anns@.len() - i,
    {
        if anns[i].pain_or_gain_id == need && anns[i].reliever_or_creator_id == solution {
            let mut a = anns[i];
            a.value_type = value_type;
            a.strength_bits = strength_bits;
            anns.set(i, a);
            proof {
                assert(is_first_annotation(old(anns)@, need, solution, i as int));
            }
            return;
        }
        i = i + 1;
    }
}

/// Keeps, in order, the entities whose identifier is not `id`.
pub fn remove_entity<T: Entity>(items: &mut Vec<T>, id: EntityId)
    ensures
        final(items)@ == old(items)@.filter(id_is_not::<T>(id)),
{
    let ghost all = items@;
    let mut rest: Vec<T> = Vec::new();
    std::mem::swap(items, &mut rest);
    let mut kept: Vec<T> = Vec::new();
    let ghost mut i: int = 0;
    while rest.len() > 0
        invariant
            0 <= i <= all.len(),
            rest@ == all.subrange(i, all.len() as int),
            kept@ == all.take(i).filter(id_is_not::<T>(id)),
        decreases rest@.len(),
    {
        let x = rest.remove(0);
        proof {
            assert(x == all[i]);
            assert(all.take(i + 1) == all.take(i).push(x));
            all.take(i).lemma_filter_push(x, id_is_not::<T>(id));
            assert(rest@ =~= all.subrange(i + 1, all.len() as int));
            i = i + 1;
        }
        if x.entity_id() != id {
            kept.push(x);
        }
    }
    proof {
        assert(all.take(all.len() as int) == all);
    }
    *items = kept;
}

} // verus!
