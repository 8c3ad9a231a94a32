//! Properties that hold across the library's operations: what adding and
//! removing links and annotations do to each other, what a confirmed delete
//! leaves behind, that hover highlighting is symmetric, that a fit score is a
//! fraction, and that navigation and the merge of saved and fixed data
//! change nothing when repeated.

use vstd::prelude::*;

use crate::demo::{merged_with, with_annotations, with_links, DemoData};
use crate::editing::{
    after_feature_delete, after_gain_creator_delete, after_pain_relief_delete,
    after_gain_creator_detail, after_pain_relief_detail, after_product_delete,
    annotations_after, annotations_after_edits, expand_first_feature, expand_first_product, is_first_with_id,
    links_after, navigated_to_feature, navigated_to_product, new_annotation, pending_after,
    upserted, AccordionOutcome, AnnotationEdits, DetailOutcome,
};
use crate::graph::{annotation_edges, chain_edges, is_path, path_from_to, reachable_from, reaches, reversed};
use crate::ids::EntityId;
use crate::idset::{image, preimage};
use crate::relations::{need_solution_edges, spec_flow_connected, spec_highlighted_ids};
use crate::links::{
    annotation_is_not, first_is_not, has_annotation, id_is_not, is_first_annotation, link_is_not,
    second_is_not,
    solution_is_not, with_annotation, with_link,
};
use crate::overview::{
    apply_fits, connected, covered_gains, covered_pains, fit_step, is_product_id, is_segment_id,
    linked_scores, need_tables_fit,
    product_fits, segment_fits, segment_gains, segment_jobs, segment_pains, spec_fit_score,
    spec_highlighted_scores, visible_middle, FitScore, Highlight,
};
use crate::model::{ids_of, App, Entity, Feature, GainCreator, Link, PainRelief, Product, ValueAnnotation, ValuePropPageView};

verus! {

broadcast use vstd::seq_lib::group_filter_ensures;

/// Merging the same items a second time changes nothing, and a merge never
/// leaves more elements than the longer of the two lists.
pub proof fn law_upsert_is_idempotent<T>(v: Seq<T>, items: Seq<T>)
    ensures
        upserted(upserted(v, items), items) == upserted(v, items),
        upserted(v, items).len() == if items.len() <= v.len() {
            v.len()
        } else {
            items.len()
        },
        upserted(v, items).take(items.len() as int) == items,
{
    let once = upserted(v, items);
    assert(once.take(items.len() as int) =~= items);
    assert(once.skip(items.len() as int) =~= if items.len() <= v.len() {
        v.skip(items.len() as int)
    } else {
        Seq::<T>::empty()
    });
    assert(upserted(once, items) =~= once);
}

/// After a link is added the table holds it, and adding it again changes nothing.
pub proof fn law_add_link_is_idempotent(links: Seq<Link>, pair: Link)
    ensures
        with_link(links, pair).contains(pair),
        with_link(with_link(links, pair), pair) == with_link(links, pair),
{
    if !links.contains(pair) {
        assert(links.push(pair)[links.len() as int] == pair);
    }
}

/// Adding a link keeps a duplicate-free table duplicate-free.
pub proof fn law_add_link_keeps_table_duplicate_free(links: Seq<Link>, pair: Link)
    requires
        links.no_duplicates(),
    ensures
        with_link(links, pair).no_duplicates(),
{
    if !links.contains(pair) {
        let t = links.push(pair);
        assert forall|i: int, j: int| 0 <= i < t.len() && 0 <= j < t.len() && i != j implies t[i]
            != t[j] by {
            if i == links.len() {
                assert(links[j] == t[j]);
            } else if j == links.len() {
                assert(links[i] == t[i]);
            }
        }
    }
}

/// A removed link is gone from the table, and removing a link that was just
/// added to a table without it gives the table back.
pub proof fn law_remove_link_undoes_add(links: Seq<Link>, pair: Link)
    ensures
        !links.filter(link_is_not(pair)).contains(pair),
        !links.contains(pair) ==> with_link(links, pair).filter(link_is_not(pair)) == links,
{
    if links.filter(link_is_not(pair)).contains(pair) {
        let k = choose|k: int| 0 <= k < links.filter(link_is_not(pair)).len() && links.filter(link_is_not(pair))[k] == pair;
        assert(link_is_not(pair)(links.filter(link_is_not(pair))[k]));
    }
    if !links.contains(pair) {
        links.lemma_filter_push(pair, link_is_not(pair));
        assert forall|k: int| 0 <= k < links.len() implies #[trigger] link_is_not(pair)(links[k]) by {
            assert(links.contains(links[k]));
        }
        lemma_filter_keeps_all(links, link_is_not(pair));
    }
}

/// Filtering by a predicate that every element meets keeps the sequence.
proof fn lemma_filter_keeps_all<A>(s: Seq<A>, p: spec_fn(A) -> bool)
    requires
        forall|k: int| 0 <= k < s.len() ==> #[trigger] p(s[k]),
    ensures
        s.filter(p) == s,
    decreases s.len(),
{
    if s.len() > 0 {
        let t = s.drop_last();
        assert forall|k: int| 0 <= k < t.len() implies #[trigger] p(t[k]) by {
            assert(t[k] == s[k]);
        }
        lemma_filter_keeps_all(t, p);
        assert(s == t.push(s.last()));
        t.lemma_filter_push(s.last(), p);
        assert(p(s[s.len() - 1]));
    } else {
        assert(s.filter(p) =~= s);
    }
}

/// After an annotation is added some annotation joins its need to its
/// solution, and adding it again changes nothing.
pub proof fn law_add_annotation_is_idempotent(anns: Seq<ValueAnnotation>, ann: ValueAnnotation)
    ensures
        has_annotation(with_annotation(anns, ann), ann.pain_or_gain_id, ann.reliever_or_creator_id),
        with_annotation(with_annotation(anns, ann), ann) == with_annotation(anns, ann),
{
    if !has_annotation(anns, ann.pain_or_gain_id, ann.reliever_or_creator_id) {
        let t = anns.push(ann);
        assert(t[anns.len() as int] == ann);
        assert(t[anns.len() as int].pain_or_gain_id == ann.pain_or_gain_id);
    }
}

/// Removing the annotations of a pair leaves none for it, and removing the
/// one just added for a pair that had none gives the list back.
pub proof fn law_remove_annotation_undoes_add(anns: Seq<ValueAnnotation>, ann: ValueAnnotation)
    ensures
        !has_annotation(
            anns.filter(annotation_is_not(ann.pain_or_gain_id, ann.reliever_or_creator_id)),
            ann.pain_or_gain_id,
            ann.reliever_or_creator_id,
        ),
        !has_annotation(anns, ann.pain_or_gain_id, ann.reliever_or_creator_id) ==> with_annotation(
            anns,
            ann,
        ).filter(annotation_is_not(ann.pain_or_gain_id, ann.reliever_or_creator_id)) == anns,
{
    let need = ann.pain_or_gain_id;
    let sol = ann.reliever_or_creator_id;
    let keep = annotation_is_not(need, sol);
    let kept = anns.filter(keep);
    if has_annotation(kept, need, sol) {
        let k = choose|k: int|
            0 <= k < kept.len() && #[trigger] kept[k].pain_or_gain_id == need
                && kept[k].reliever_or_creator_id == sol;
        assert(keep(kept[k]));
    }
    if !has_annotation(anns, need, sol) {
        anns.lemma_filter_push(ann, keep);
        assert forall|k: int| 0 <= k < anns.len() implies #[trigger] keep(anns[k]) by {
            if !keep(anns[k]) {
                assert(anns[k].pain_or_gain_id == need);
            }
        }
        lemma_filter_keeps_all(anns, keep);
    }
}


/// A confirmed product delete leaves no product with that identifier and no
/// feature link from it, closes its detail window and clears the request.
pub proof fn law_product_delete_leaves_no_reference(v: ValuePropPageView, id: EntityId, dismissed: bool)
    requires
        v.products_pending_delete == Some(id),
    ensures
        forall|k: int|
            0 <= k < after_product_delete(v, true, dismissed).products.len()
                ==> #[trigger] after_product_delete(v, true, dismissed).products[k].id != id,
        forall|l: Link| #[trigger]
            after_product_delete(v, true, dismissed).product_feature_links.contains(l) ==> l.0 != id,
        after_product_delete(v, true, dismissed).products_selected_id != Some(id),
        after_product_delete(v, true, dismissed).products_pending_delete is None,
{
    let w = after_product_delete(v, true, dismissed);
    assert forall|k: int| 0 <= k < w.products.len() implies #[trigger] w.products[k].id != id by {
        assert(id_is_not::<Product>(id)(w.products[k]));
    }
    assert forall|l: Link| #[trigger] w.product_feature_links.contains(l) implies l.0 != id by {
        let k = choose|k: int| 0 <= k < w.product_feature_links.len() && w.product_feature_links[k] == l;
        assert(first_is_not(id)(w.product_feature_links[k]));
    }
}

/// A confirmed feature delete leaves no feature with that identifier and no
/// product, pain relief or gain creator link that names it, and clears the
/// request.
pub proof fn law_feature_delete_leaves_no_reference(v: ValuePropPageView, id: EntityId, dismissed: bool)
    requires
        v.features_pending_delete == Some(id),
    ensures
        forall|k: int|
            0 <= k < after_feature_delete(v, true, dismissed).features.len()
                ==> #[trigger] after_feature_delete(v, true, dismissed).features[k].id != id,
        forall|l: Link| #[trigger]
            after_feature_delete(v, true, dismissed).product_feature_links.contains(l) ==> l.1 != id,
        forall|l: Link| #[trigger]
            after_feature_delete(v, true, dismissed).feature_pain_relief_links.contains(l) ==> l.0 != id,
        forall|l: Link| #[trigger]
            after_feature_delete(v, true, dismissed).feature_gain_creator_links.contains(l) ==> l.0 != id,
        after_feature_delete(v, true, dismissed).features_pending_delete is None,
{
    let w = after_feature_delete(v, true, dismissed);
    assert forall|k: int| 0 <= k < w.features.len() implies #[trigger] w.features[k].id != id by {
        assert(id_is_not::<Feature>(id)(w.features[k]));
    }
    assert forall|l: Link| #[trigger] w.product_feature_links.contains(l) implies l.1 != id by {
        let k = choose|k: int| 0 <= k < w.product_feature_links.len() && w.product_feature_links[k] == l;
        assert(second_is_not(id)(w.product_feature_links[k]));
    }
    assert forall|l: Link| #[trigger] w.feature_pain_relief_links.contains(l) implies l.0 != id by {
        let k = choose|k: int|
            0 <= k < w.feature_pain_relief_links.len() && w.feature_pain_relief_links[k] == l;
        assert(first_is_not(id)(w.feature_pain_relief_links[k]));
    }
    assert forall|l: Link| #[trigger] w.feature_gain_creator_links.contains(l) implies l.0 != id by {
        let k = choose|k: int|
            0 <= k < w.feature_gain_creator_links.len() && w.feature_gain_creator_links[k] == l;
        assert(first_is_not(id)(w.feature_gain_creator_links[k]));
    }
}

/// A confirmed pain relief delete leaves no pain relief with that identifier,
/// no feature link to it and no annotation naming it as the solution, closes
/// its detail window and clears the request.
pub proof fn law_pain_relief_delete_leaves_no_reference(v: ValuePropPageView, id: EntityId, dismissed: bool)
    requires
        v.pain_reliefs_pending_delete == Some(id),
    ensures
        forall|k: int|
            0 <= k < after_pain_relief_delete(v, true, dismissed).pain_reliefs.len()
                ==> #[trigger] after_pain_relief_delete(v, true, dismissed).pain_reliefs[k].id != id,
        forall|l: Link| #[trigger]
            after_pain_relief_delete(v, true, dismissed).feature_pain_relief_links.contains(l) ==> l.1
                != id,
        forall|k: int|
            0 <= k < after_pain_relief_delete(v, true, dismissed).pain_relief_annotations.len()
                ==> #[trigger] after_pain_relief_delete(
                v,
                true,
                dismissed,
            ).pain_relief_annotations[k].reliever_or_creator_id != id,
        after_pain_relief_delete(v, true, dismissed).pain_reliefs_selected_id != Some(id),
        after_pain_relief_delete(v, true, dismissed).pain_reliefs_pending_delete is None,
{
    let w = after_pain_relief_delete(v, true, dismissed);
    assert forall|k: int| 0 <= k < w.pain_reliefs.len() implies #[trigger] w.pain_reliefs[k].id != id by {
        assert(id_is_not::<PainRelief>(id)(w.pain_reliefs[k]));
    }
    assert forall|l: Link| #[trigger] w.feature_pain_relief_links.contains(l) implies l.1 != id by {
        let k = choose|k: int|
            0 <= k < w.feature_pain_relief_links.len() && w.feature_pain_relief_links[k] == l;
        assert(second_is_not(id)(w.feature_pain_relief_links[k]));
    }
    assert forall|k: int| 0 <= k < w.pain_relief_annotations.len() implies #[trigger] w.pain_relief_annotations[k].reliever_or_creator_id != id by {
        assert(solution_is_not(id)(w.pain_relief_annotations[k]));
    }
}

/// A confirmed gain creator delete leaves no gain creator with that
/// identifier, no feature link to it and no annotation naming it as the
/// solution, closes its detail window and clears the request.
pub proof fn law_gain_creator_delete_leaves_no_reference(v: ValuePropPageView, id: EntityId, dismissed: bool)
    requires
        v.gain_creators_pending_delete == Some(id),
    ensures
        forall|k: int|
            0 <= k < after_gain_creator_delete(v, true, dismissed).gain_creators.len()
                ==> #[trigger] after_gain_creator_delete(v, true, dismissed).gain_creators[k].id != id,
        forall|l: Link| #[trigger]
            after_gain_creator_delete(v, true, dismissed).feature_gain_creator_links.contains(l) ==> l.1
                != id,
        forall|k: int|
            0 <= k < after_gain_creator_delete(v, true, dismissed).gain_creator_annotations.len()
                ==> #[trigger] after_gain_creator_delete(
                v,
                true,
                dismissed,
            ).gain_creator_annotations[k].reliever_or_creator_id != id,
        after_gain_creator_delete(v, true, dismissed).gain_creators_selected_id != Some(id),
        after_gain_creator_delete(v, true, dismissed).gain_creators_pending_delete is None,
{
    let w = after_gain_creator_delete(v, true, dismissed);
    assert forall|k: int| 0 <= k < w.gain_creators.len() implies #[trigger] w.gain_creators[k].id != id by {
        assert(id_is_not::<GainCreator>(id)(w.gain_creators[k]));
    }
    assert forall|l: Link| #[trigger] w.feature_gain_creator_links.contains(l) implies l.1 != id by {
        let k = choose|k: int|
            0 <= k < w.feature_gain_creator_links.len() && w.feature_gain_creator_links[k] == l;
        assert(second_is_not(id)(w.feature_gain_creator_links[k]));
    }
    assert forall|k: int| 0 <= k < w.gain_creator_annotations.len() implies #[trigger] w.gain_creator_annotations[k].reliever_or_creator_id != id by {
        assert(solution_is_not(id)(w.gain_creator_annotations[k]));
    }
}

/// A delete dialog that is dismissed only clears the request, and one that
/// is neither confirmed nor dismissed changes nothing.
pub proof fn law_unconfirmed_delete_keeps_entities(v: ValuePropPageView)
    ensures
        after_product_delete(v, false, false) == v,
        after_feature_delete(v, false, false) == v,
        after_pain_relief_delete(v, false, false) == v,
        after_gain_creator_delete(v, false, false) == v,
        after_product_delete(v, false, true) == (ValuePropPageView { products_pending_delete: None, ..v }),
        after_feature_delete(v, false, true) == (ValuePropPageView { features_pending_delete: None, ..v }),
        after_pain_relief_delete(v, false, true) == (ValuePropPageView {
            pain_reliefs_pending_delete: None,
            ..v
        }),
        after_gain_creator_delete(v, false, true) == (ValuePropPageView {
            gain_creators_pending_delete: None,
            ..v
        }),
{
}


/// A path read backwards is a path of the reversed graph.
proof fn lemma_reverse_reaches(edges: Seq<Link>, a: EntityId, b: EntityId)
    requires
        reaches(edges, a, b),
    ensures
        reaches(reversed(edges), b, a),
{
    let p = choose|p: Seq<EntityId>| #[trigger] path_from_to(edges, p, a, b);
    let n = p.len();
    let q = p.reverse();
    let r = reversed(edges);
    assert forall|i: int| 0 <= i < q.len() - 1 implies #[trigger] r.contains((q[i], q[i + 1])) by {
        let j = n - 2 - i;
        assert(edges.contains((p[j], p[j + 1])));
        let k = choose|k: int| 0 <= k < edges.len() && edges[k] == (p[j], p[j + 1]);
        assert(r[k] == (p[j + 1], p[j]));
        assert(q[i] == p[j + 1]);
        assert(q[i + 1] == p[j]);
    }
    assert(path_from_to(r, q, b, a));
}

/// Reversing a graph twice gives it back.
proof fn lemma_reversed_twice(edges: Seq<Link>)
    ensures
        reversed(reversed(edges)) == edges,
{
    assert(reversed(reversed(edges)) =~= edges);
}

/// On the overview, hovering `a` highlights `b` exactly when hovering `b`
/// highlights `a`: a connection along the chain is one in both directions.
pub proof fn law_overview_connection_is_symmetric(app: &App, a: EntityId, b: EntityId)
    ensures
        connected(app, a).contains(b) <==> connected(app, b).contains(a),
{
    let e = chain_edges(app);
    lemma_reversed_twice(e);
    if reaches(e, a, b) {
        lemma_reverse_reaches(e, a, b);
    }
    if reaches(e, b, a) {
        lemma_reverse_reaches(e, b, a);
    }
    if reaches(reversed(e), a, b) {
        lemma_reverse_reaches(reversed(e), a, b);
    }
    if reaches(reversed(e), b, a) {
        lemma_reverse_reaches(reversed(e), b, a);
    }
}


/// Two hops forward from `a` reach `b` exactly when two hops backward from
/// `b` reach `a`.
proof fn lemma_two_hops(l1: Seq<Link>, l2: Seq<Link>, a: EntityId, b: EntityId)
    ensures
        image(l2, image(l1, set![a])).contains(b) <==> preimage(l1, preimage(l2, set![b])).contains(a),
{
    if image(l2, image(l1, set![a])).contains(b) {
        let k2 = choose|k2: int| 0 <= k2 < l2.len() && image(l1, set![a]).contains(#[trigger] l2[k2].0) && l2[k2].1 == b;
        let f = l2[k2].0;
        let k1 = choose|k1: int| 0 <= k1 < l1.len() && set![a].contains(#[trigger] l1[k1].0) && l1[k1].1 == f;
        assert(preimage(l2, set![b]).contains(f)) by {
            assert(set![b].contains(l2[k2].1));
        }
        assert(preimage(l2, set![b]).contains(l1[k1].1));
    }
    if preimage(l1, preimage(l2, set![b])).contains(a) {
        let k1 = choose|k1: int| 0 <= k1 < l1.len() && preimage(l2, set![b]).contains(#[trigger] l1[k1].1) && l1[k1].0 == a;
        let f = l1[k1].1;
        let k2 = choose|k2: int| 0 <= k2 < l2.len() && set![b].contains(#[trigger] l2[k2].1) && l2[k2].0 == f;
        assert(image(l1, set![a]).contains(f)) by {
            assert(set![a].contains(l1[k1].0));
        }
        assert(image(l1, set![a]).contains(l2[k2].0));
    }
}

/// On the value-proposition page, hovering `a` highlights `b` exactly when
/// hovering `b` highlights `a`: a product and a gain creator or pain relief
/// are linked through a shared feature either way round.
pub proof fn law_value_prop_highlight_is_symmetric(app: &App, a: EntityId, b: EntityId)
    ensures
        spec_highlighted_ids(app, Some(a)).contains(b) <==> spec_highlighted_ids(app, Some(b)).contains(a),
{
    let vp = app.valueprop_page;
    lemma_two_hops(vp.product_feature_links@, vp.feature_gain_creator_links@, a, b);
    lemma_two_hops(vp.product_feature_links@, vp.feature_pain_relief_links@, a, b);
    lemma_two_hops(vp.product_feature_links@, vp.feature_gain_creator_links@, b, a);
    lemma_two_hops(vp.product_feature_links@, vp.feature_pain_relief_links@, b, a);
}


/// One hop backward from `a` reaches `b` exactly when one hop forward from
/// `b` reaches `a`.
proof fn lemma_one_hop(l: Seq<Link>, a: EntityId, b: EntityId)
    ensures
        preimage(l, set![a]).contains(b) <==> image(l, set![b]).contains(a),
{
    if preimage(l, set![a]).contains(b) {
        let k = choose|k: int| 0 <= k < l.len() && set![a].contains(#[trigger] l[k].1) && l[k].0 == b;
        assert(set![b].contains(l[k].0));
    }
    if image(l, set![b]).contains(a) {
        let k = choose|k: int| 0 <= k < l.len() && set![b].contains(#[trigger] l[k].0) && l[k].1 == a;
        assert(set![a].contains(l[k].1));
    }
}

/// Back along `l1` then forward along `l2` from `a` reaches `b` exactly when
/// back along `l2` then forward along `l1` from `b` reaches `a`.
proof fn lemma_shared_source(l1: Seq<Link>, l2: Seq<Link>, a: EntityId, b: EntityId)
    ensures
        image(l2, preimage(l1, set![a])).contains(b) <==> image(l1, preimage(l2, set![b])).contains(a),
{
    if image(l2, preimage(l1, set![a])).contains(b) {
        let k2 = choose|k2: int| 0 <= k2 < l2.len() && preimage(l1, set![a]).contains(#[trigger] l2[k2].0) && l2[k2].1 == b;
        let x = l2[k2].0;
        let k1 = choose|k1: int| 0 <= k1 < l1.len() && set![a].contains(#[trigger] l1[k1].1) && l1[k1].0 == x;
        assert(preimage(l2, set![b]).contains(x)) by {
            assert(set![b].contains(l2[k2].1));
        }
        assert(preimage(l2, set![b]).contains(l1[k1].0));
    }
    if image(l1, preimage(l2, set![b])).contains(a) {
        let k1 = choose|k1: int| 0 <= k1 < l1.len() && preimage(l2, set![b]).contains(#[trigger] l1[k1].0) && l1[k1].1 == a;
        let x = l1[k1].0;
        let k2 = choose|k2: int| 0 <= k2 < l2.len() && set![b].contains(#[trigger] l2[k2].1) && l2[k2].0 == x;
        assert(preimage(l1, set![a]).contains(x)) by {
            assert(set![a].contains(l1[k1].1));
        }
        assert(preimage(l1, set![a]).contains(l2[k2].0));
    }
}

/// In the flow diagram, hovering `a` highlights `b` exactly when hovering
/// `b` highlights `a`.
pub proof fn law_flow_highlight_is_symmetric(app: &App, a: EntityId, b: EntityId)
    ensures
        spec_flow_connected(app, Some(a)).contains(b) <==> spec_flow_connected(app, Some(b)).contains(a),
{
    let vp = app.valueprop_page;
    let cs = app.customer_segment_page;
    let pr = need_solution_edges(vp.pain_relief_annotations@);
    let gc = need_solution_edges(vp.gain_creator_annotations@);
    lemma_one_hop(cs.job_pain_links@, a, b);
    lemma_one_hop(cs.job_pain_links@, b, a);
    lemma_one_hop(cs.job_gain_links@, a, b);
    lemma_one_hop(cs.job_gain_links@, b, a);
    lemma_one_hop(pr, a, b);
    lemma_one_hop(pr, b, a);
    lemma_one_hop(gc, a, b);
    lemma_one_hop(gc, b, a);
    lemma_shared_source(cs.job_pain_links@, pr, a, b);
    lemma_shared_source(cs.job_pain_links@, pr, b, a);
    lemma_shared_source(pr, cs.job_pain_links@, a, b);
    lemma_shared_source(pr, cs.job_pain_links@, b, a);
    lemma_shared_source(cs.job_gain_links@, gc, a, b);
    lemma_shared_source(cs.job_gain_links@, gc, b, a);
    lemma_shared_source(gc, cs.job_gain_links@, a, b);
    lemma_shared_source(gc, cs.job_gain_links@, b, a);
}


/// The sources of the links into a set are finitely many, no more than the links.
proof fn lemma_preimage_bounded(links: Seq<Link>, to: Set<EntityId>)
    ensures
        preimage(links, to).finite(),
        preimage(links, to).len() <= links.len(),
{
    broadcast use vstd::seq_lib::seq_to_set_is_finite;

    let firsts = links.map_values(|l: Link| l.0);
    assert(preimage(links, to).subset_of(firsts.to_set())) by {
        assert forall|x: EntityId| preimage(links, to).contains(x) implies firsts.to_set().contains(x) by {
            let k = choose|k: int| 0 <= k < links.len() && to.contains(#[trigger] links[k].1) && links[k].0 == x;
            assert(firsts[k] == x);
        }
    }
    firsts.lemma_cardinality_of_set();
    vstd::set_lib::lemma_len_subset(preimage(links, to), firsts.to_set());
}

/// A product's fit for a segment, when the segment has needs, counts no more
/// addressed needs than the segment has: the score lies between 0 and 1.
pub proof fn law_fit_is_a_fraction(app: &App, p: EntityId, s: EntityId)
    requires
        need_tables_fit(app),
    ensures
        spec_fit_score(app, p, s) matches FitScore::Ratio { addressed, total } ==> 0 < total && addressed
            <= total,
{
    let cs = app.customer_segment_page;
    let gains = segment_gains(app, s);
    let pains = segment_pains(app, s);
    lemma_preimage_bounded(cs.job_gain_links@, segment_jobs(app, s));
    lemma_preimage_bounded(cs.job_pain_links@, segment_jobs(app, s));
    vstd::set_lib::lemma_len_intersect(gains, covered_gains(app, p));
    vstd::set_lib::lemma_len_intersect(pains, covered_pains(app, p));
    assert(covered_gains(app, p).intersect(gains) =~= gains.intersect(covered_gains(app, p)));
    assert(covered_pains(app, p).intersect(pains) =~= pains.intersect(covered_pains(app, p)));
}


/// Every link added in turn, and every link already there, is in the table afterwards.
proof fn lemma_with_links_holds_all(links: Seq<Link>, pairs: Seq<Link>)
    ensures
        forall|k: int| 0 <= k < pairs.len() ==> with_links(links, pairs).contains(#[trigger] pairs[k]),
        forall|x: Link| links.contains(x) ==> #[trigger] with_links(links, pairs).contains(x),
    decreases pairs.len(),
{
    if pairs.len() > 0 {
        let rest = pairs.drop_last();
        lemma_with_links_holds_all(links, rest);
        let w = with_links(links, rest);
        law_add_link_is_idempotent(w, pairs.last());
        assert forall|x: Link| w.contains(x) implies with_link(w, pairs.last()).contains(x) by {
            if !w.contains(pairs.last()) {
                let k = choose|k: int| 0 <= k < w.len() && w[k] == x;
                assert(w.push(pairs.last())[k] == x);
            }
        }
        assert forall|x: Link| links.contains(x) implies #[trigger] with_links(links, pairs).contains(x) by {
            assert(w.contains(x));
        }
        assert forall|k: int| 0 <= k < pairs.len() implies with_links(links, pairs).contains(#[trigger] pairs[k]) by {
            if k < pairs.len() - 1 {
                assert(rest[k] == pairs[k]);
            }
        }
    }
}

/// Adding links that are all already in the table changes nothing.
proof fn lemma_with_links_present(links: Seq<Link>, pairs: Seq<Link>)
    requires
        forall|k: int| 0 <= k < pairs.len() ==> links.contains(#[trigger] pairs[k]),
    ensures
        with_links(links, pairs) == links,
    decreases pairs.len(),
{
    if pairs.len() > 0 {
        let rest = pairs.drop_last();
        assert forall|k: int| 0 <= k < rest.len() implies links.contains(#[trigger] rest[k]) by {
            assert(rest[k] == pairs[k]);
        }
        lemma_with_links_present(links, rest);
        assert(links.contains(pairs[pairs.len() - 1]));
    }
}

/// Adding the same links a second time changes nothing.
pub proof fn law_link_merge_is_idempotent(links: Seq<Link>, pairs: Seq<Link>)
    ensures
        with_links(with_links(links, pairs), pairs) == with_links(links, pairs),
{
    lemma_with_links_holds_all(links, pairs);
    lemma_with_links_present(with_links(links, pairs), pairs);
}

/// Every annotation added in turn has its pair joined afterwards, and every
/// pair joined before stays joined.
proof fn lemma_with_annotations_holds_all(anns: Seq<ValueAnnotation>, new: Seq<ValueAnnotation>)
    ensures
        forall|k: int|
            0 <= k < new.len() ==> has_annotation(
                with_annotations(anns, new),
                (#[trigger] new[k]).pain_or_gain_id,
                new[k].reliever_or_creator_id,
            ),
        forall|n: EntityId, s: EntityId|
            has_annotation(anns, n, s) ==> #[trigger] has_annotation(with_annotations(anns, new), n, s),
    decreases new.len(),
{
    if new.len() > 0 {
        let rest = new.drop_last();
        lemma_with_annotations_holds_all(anns, rest);
        let w = with_annotations(anns, rest);
        law_add_annotation_is_idempotent(w, new.last());
        assert forall|n: EntityId, s: EntityId| has_annotation(w, n, s) implies has_annotation(
            with_annotation(w, new.last()),
            n,
            s,
        ) by {
            let k = choose|k: int|
                0 <= k < w.len() && #[trigger] w[k].pain_or_gain_id == n && w[k].reliever_or_creator_id == s;
            if !has_annotation(w, new.last().pain_or_gain_id, new.last().reliever_or_creator_id) {
                assert(w.push(new.last())[k] == w[k]);
            }
        }
        assert forall|n: EntityId, s: EntityId| has_annotation(anns, n, s) implies #[trigger] has_annotation(
            with_annotations(anns, new),
            n,
            s,
        ) by {
            assert(has_annotation(w, n, s));
        }
        assert forall|k: int| 0 <= k < new.len() implies has_annotation(
            with_annotations(anns, new),
            (#[trigger] new[k]).pain_or_gain_id,
            new[k].reliever_or_creator_id,
        ) by {
            if k < new.len() - 1 {
                assert(rest[k] == new[k]);
            }
        }
    }
}

/// Adding annotations whose pairs are all joined already changes nothing.
proof fn lemma_with_annotations_present(anns: Seq<ValueAnnotation>, new: Seq<ValueAnnotation>)
    requires
        forall|k: int|
            0 <= k < new.len() ==> has_annotation(anns, (#[trigger] new[k]).pain_or_gain_id, new[k].reliever_or_creator_id),
    ensures
        with_annotations(anns, new) == anns,
    decreases new.len(),
{
    if new.len() > 0 {
        let rest = new.drop_last();
        assert forall|k: int| 0 <= k < rest.len() implies has_annotation(
            anns,
            (#[trigger] rest[k]).pain_or_gain_id,
            rest[k].reliever_or_creator_id,
        ) by {
            assert(rest[k] == new[k]);
        }
        lemma_with_annotations_present(anns, rest);
        assert(has_annotation(anns, new[new.len() - 1].pain_or_gain_id, new[new.len() - 1].reliever_or_creator_id));
    }
}

/// Adding the same annotations a second time changes nothing.
pub proof fn law_annotation_merge_is_idempotent(anns: Seq<ValueAnnotation>, new: Seq<ValueAnnotation>)
    ensures
        with_annotations(with_annotations(anns, new), new) == with_annotations(anns, new),
{
    lemma_with_annotations_holds_all(anns, new);
    lemma_with_annotations_present(with_annotations(anns, new), new);
}

/// Merging the same data a second time changes nothing, neither the data
/// nor the tab, windows, selections, delete requests and scroll targets: the
/// demonstration data survives restarts without accumulating duplicates.
pub proof fn law_demo_merge_is_idempotent(before: App, d: DemoData, once: App, twice: App)
    requires
        merged_with(before, d, once),
        merged_with(once, d, twice),
    ensures
        twice.tab == once.tab,
        twice.valueprop_page@ == once.valueprop_page@,
        twice.customer_segment_page@ == once.customer_segment_page@,
        twice.customer_segment_page.segments_state.pending_delete == once.customer_segment_page.segments_state.pending_delete,
        twice.customer_segment_page.segments_state.selected_id == once.customer_segment_page.segments_state.selected_id,
        twice.customer_segment_page.segments_state.scroll_to_id == once.customer_segment_page.segments_state.scroll_to_id,
        twice.customer_segment_page.jobs_state.pending_delete == once.customer_segment_page.jobs_state.pending_delete,
        twice.customer_segment_page.jobs_state.selected_id == once.customer_segment_page.jobs_state.selected_id,
        twice.customer_segment_page.jobs_state.scroll_to_id == once.customer_segment_page.jobs_state.scroll_to_id,
        twice.customer_segment_page.pains_state.pending_delete == once.customer_segment_page.pains_state.pending_delete,
        twice.customer_segment_page.pains_state.selected_id == once.customer_segment_page.pains_state.selected_id,
        twice.customer_segment_page.pains_state.scroll_to_id == once.customer_segment_page.pains_state.scroll_to_id,
        twice.customer_segment_page.gains_state.pending_delete == once.customer_segment_page.gains_state.pending_delete,
        twice.customer_segment_page.gains_state.selected_id == once.customer_segment_page.gains_state.selected_id,
        twice.customer_segment_page.gains_state.scroll_to_id == once.customer_segment_page.gains_state.scroll_to_id,
{
    let vp = before.valueprop_page@;
    let cs = before.customer_segment_page@;
    law_upsert_is_idempotent(vp.products, d.products@);
    law_upsert_is_idempotent(vp.features, d.features@);
    law_upsert_is_idempotent(vp.pain_reliefs, d.pain_reliefs@);
    law_upsert_is_idempotent(vp.gain_creators, d.gain_creators@);
    law_upsert_is_idempotent(cs.segments, d.segments@);
    law_upsert_is_idempotent(cs.jobs, d.jobs@);
    law_upsert_is_idempotent(cs.pains, d.pains@);
    law_upsert_is_idempotent(cs.gains, d.gains@);
    law_link_merge_is_idempotent(vp.product_feature_links, d.product_feature_links@);
    law_link_merge_is_idempotent(vp.feature_pain_relief_links, d.feature_pain_relief_links@);
    law_link_merge_is_idempotent(vp.feature_gain_creator_links, d.feature_gain_creator_links@);
    law_link_merge_is_idempotent(cs.segment_job_links, d.segment_job_links@);
    law_link_merge_is_idempotent(cs.job_pain_links, d.job_pain_links@);
    law_link_merge_is_idempotent(cs.job_gain_links, d.job_gain_links@);
    law_annotation_merge_is_idempotent(vp.pain_relief_annotations, d.pain_relief_annotations@);
    law_annotation_merge_is_idempotent(vp.gain_creator_annotations, d.gain_creator_annotations@);
}


/// Two first positions of the same identifier are the same position.
proof fn lemma_first_position_unique<T: Entity>(s: Seq<T>, id: EntityId, a: int, b: int)
    requires
        is_first_with_id(s, id, a),
        is_first_with_id(s, id, b),
    ensures
        a == b,
{
    if a < b {
        assert(s[a].spec_id() != id);
    } else if b < a {
        assert(s[b].spec_id() != id);
    }
}

/// Bringing a feature into view a second time changes nothing, and
/// afterwards its window is open, it is selected and scrolled to, and the
/// first feature with its identifier is expanded.
pub proof fn law_feature_navigation_is_idempotent(v: ValuePropPageView, id: EntityId)
    ensures
        navigated_to_feature(navigated_to_feature(v, id), id) == navigated_to_feature(v, id),
        navigated_to_feature(v, id).product_windows.features_open,
        navigated_to_feature(v, id).features_selected_id == Some(id),
        navigated_to_feature(v, id).features_scroll_to_id == Some(id),
        forall|k: int|
            is_first_with_id(v.features, id, k) ==> (#[trigger] navigated_to_feature(v, id).features[k]).expanded,
{
    let s = v.features;
    let s1 = expand_first_feature(s, id);
    if exists|k: int| is_first_with_id(s, id, k) {
        let k = choose|k: int| is_first_with_id(s, id, k);
        assert(is_first_with_id(s1, id, k)) by {
            assert forall|j: int| 0 <= j < k implies (#[trigger] s1[j]).spec_id() != id by {
                assert(s1[j] == s[j]);
            }
        }
        let c = choose|c: int| is_first_with_id(s1, id, c);
        lemma_first_position_unique(s1, id, k, c);
        assert(expand_first_feature(s1, id) =~= s1);
        assert forall|j: int| is_first_with_id(s, id, j) implies (#[trigger] s1[j]).expanded by {
            lemma_first_position_unique(s, id, k, j);
        }
    }
    assert(navigated_to_feature(navigated_to_feature(v, id), id) =~= navigated_to_feature(v, id));
}

/// Bringing a product into view a second time changes nothing, and
/// afterwards its window is open, it is selected and scrolled to, and the
/// first product with its identifier is expanded.
pub proof fn law_product_navigation_is_idempotent(v: ValuePropPageView, id: EntityId)
    ensures
        navigated_to_product(navigated_to_product(v, id), id) == navigated_to_product(v, id),
        navigated_to_product(v, id).product_windows.products_open,
        navigated_to_product(v, id).products_selected_id == Some(id),
        navigated_to_product(v, id).products_scroll_to_id == Some(id),
        forall|k: int|
            is_first_with_id(v.products, id, k) ==> (#[trigger] navigated_to_product(v, id).products[k]).expanded,
{
    let s = v.products;
    let s1 = expand_first_product(s, id);
    if exists|k: int| is_first_with_id(s, id, k) {
        let k = choose|k: int| is_first_with_id(s, id, k);
        assert(is_first_with_id(s1, id, k)) by {
            assert forall|j: int| 0 <= j < k implies (#[trigger] s1[j]).spec_id() != id by {
                assert(s1[j] == s[j]);
            }
        }
        let c = choose|c: int| is_first_with_id(s1, id, c);
        lemma_first_position_unique(s1, id, k, c);
        assert(expand_first_product(s1, id) =~= s1);
        assert forall|j: int| is_first_with_id(s, id, j) implies (#[trigger] s1[j]).expanded by {
            lemma_first_position_unique(s, id, k, j);
        }
    }
    assert(navigated_to_product(navigated_to_product(v, id), id) =~= navigated_to_product(v, id));
}


/// A highlight is full, or a fit of some but not more than all needs.
pub open spec fn is_fraction(h: Highlight) -> bool {
    match h {
        Highlight::Linked => true,
        Highlight::Fit { addressed, total } => 0 < addressed && addressed <= total,
    }
}

/// Every score of the map is a fraction.
pub open spec fn scores_are_fractions(m: Map<EntityId, Highlight>) -> bool {
    forall|id: EntityId| #[trigger] m.contains_key(id) ==> is_fraction(m[id])
}

/// Every fit among the candidates counts no more addressed needs than needs.
pub open spec fn fits_are_fractions(cs: Seq<(EntityId, FitScore)>) -> bool {
    forall|i: int|
        0 <= i < cs.len() ==> ((#[trigger] cs[i]).1 matches FitScore::Ratio { addressed, total }
            ==> addressed <= total)
}

/// Applying fractional fits to fractional scores keeps them fractional.
proof fn lemma_apply_fits_keeps_fractions(m: Map<EntityId, Highlight>, cs: Seq<(EntityId, FitScore)>)
    requires
        scores_are_fractions(m),
        fits_are_fractions(cs),
    ensures
        scores_are_fractions(apply_fits(m, cs)),
    decreases cs.len(),
{
    if cs.len() > 0 {
        let rest = cs.drop_last();
        assert(fits_are_fractions(rest)) by {
            assert forall|i: int| 0 <= i < rest.len() implies ((#[trigger] rest[i]).1 matches FitScore::Ratio {
                addressed,
                total,
            } ==> addressed <= total) by {
                assert(rest[i] == cs[i]);
            }
        }
        lemma_apply_fits_keeps_fractions(m, rest);
        let before = apply_fits(m, rest);
        let c = cs.last();
        assert(c == cs[cs.len() - 1]);
        let after = fit_step(before, c);
        assert forall|id: EntityId| #[trigger] after.contains_key(id) implies is_fraction(after[id]) by {
            if id != c.0 {
                assert(before.contains_key(id));
            }
        }
    }
}

/// In fit-score mode every highlight on the overview is full or a fraction
/// in (0, 1] of a segment's needs: a zero fit removes the highlight instead.
pub proof fn law_highlights_are_fractions(app: &App, hovered: Option<EntityId>)
    requires
        need_tables_fit(app),
    ensures
        scores_are_fractions(spec_highlighted_scores(app, hovered)),
{
    if let Some(h) = hovered {
        let base = linked_scores(connected(app, h));
        assert(scores_are_fractions(base));
        let segs = app.customer_segment_page.segments_state.segments@;
        let prods = app.valueprop_page.products_state.products@;
        assert(fits_are_fractions(segment_fits(app, h))) by {
            assert forall|i: int| 0 <= i < segment_fits(app, h).len() implies ((#[trigger] segment_fits(app, h)[i]).1 matches FitScore::Ratio {
                addressed,
                total,
            } ==> addressed <= total) by {
                law_fit_is_a_fraction(app, h, segs[i].id);
            }
        }
        assert(fits_are_fractions(product_fits(app, h))) by {
            assert forall|i: int| 0 <= i < product_fits(app, h).len() implies ((#[trigger] product_fits(app, h)[i]).1 matches FitScore::Ratio {
                addressed,
                total,
            } ==> addressed <= total) by {
                law_fit_is_a_fraction(app, prods[i].id, h);
            }
        }
        lemma_apply_fits_keeps_fractions(base, segment_fits(app, h));
        lemma_apply_fits_keeps_fractions(base, product_fits(app, h));
    }
}


/// With nothing hovered, or with an entity that is neither a product nor a
/// segment, the fit-score highlights are the plain connection highlights:
/// fits only replace scores at the opposite end from a product or segment.
pub proof fn law_fit_mode_is_binary_off_the_ends(app: &App, hovered: Option<EntityId>)
    requires
        hovered matches Some(h) ==> !is_product_id(app, h) && !is_segment_id(app, h),
    ensures
        spec_highlighted_scores(app, hovered) == match hovered {
            None => Map::<EntityId, Highlight>::empty(),
            Some(h) => linked_scores(connected(app, h)),
        },
{
}


/// No two elements of `s` share a key.
pub open spec fn distinct_by<A, K>(s: Seq<A>, key: spec_fn(A) -> K) -> bool {
    forall|i: int, j: int| 0 <= i < j < s.len() ==> #[trigger] key(s[i]) != #[trigger] key(s[j])
}

/// The need and solution an annotation joins.
pub open spec fn annotation_pair() -> spec_fn(ValueAnnotation) -> Link {
    |a: ValueAnnotation| (a.pain_or_gain_id, a.reliever_or_creator_id)
}

/// At most one annotation joins each need to each solution.
pub open spec fn unique_pairs(anns: Seq<ValueAnnotation>) -> bool {
    distinct_by(anns, annotation_pair())
}

/// A link table is duplicate-free exactly when no two links are the same.
proof fn lemma_no_duplicates_is_distinct(links: Seq<Link>)
    ensures
        links.no_duplicates() <==> distinct_by(links, |l: Link| l),
{
    let id = |l: Link| l;
    if links.no_duplicates() {
        assert forall|i: int, j: int| 0 <= i < j < links.len() implies #[trigger] id(links[i]) != #[trigger] id(links[j]) by {
        }
    }
    if distinct_by(links, id) {
        assert forall|i: int, j: int| 0 <= i < links.len() && 0 <= j < links.len() && i != j implies links[i] != links[j] by {
            if i < j {
                assert(id(links[i]) != id(links[j]));
            } else {
                assert(id(links[j]) != id(links[i]));
            }
        }
    }
}

/// Filtering keeps keys distinct.
proof fn lemma_filter_keeps_distinct<A, K>(s: Seq<A>, p: spec_fn(A) -> bool, key: spec_fn(A) -> K)
    requires
        distinct_by(s, key),
    ensures
        distinct_by(s.filter(p), key),
    decreases s.len(),
{
    if s.len() > 0 {
        let t = s.drop_last();
        let x = s.last();
        assert forall|i: int, j: int| 0 <= i < j < t.len() implies #[trigger] key(t[i]) != #[trigger] key(t[j]) by {
            assert(t[i] == s[i] && t[j] == s[j]);
        }
        lemma_filter_keeps_distinct(t, p, key);
        assert(s == t.push(x));
        t.lemma_filter_push(x, p);
        let f = t.filter(p);
        if p(x) {
            assert forall|i: int, j: int| 0 <= i < j < f.push(x).len() implies #[trigger] key(f.push(x)[i]) != #[trigger] key(f.push(x)[j]) by {
                if j == f.len() {
                    let y = f[i];
                    assert(f.contains(y));
                    t.lemma_filter_contains_rev(p, y);
                    let k = choose|k: int| 0 <= k < t.len() && t[k] == y;
                    assert(s[k] == y && s[s.len() - 1] == x);
                    assert(key(s[k]) != key(s[s.len() - 1]));
                } else {
                    assert(f.push(x)[i] == f[i] && f.push(x)[j] == f[j]);
                }
            }
        }
    } else {
        assert(s.filter(p) =~= s);
    }
}

/// Appending an element whose key is new keeps keys distinct.
proof fn lemma_push_keeps_distinct<A, K>(s: Seq<A>, x: A, key: spec_fn(A) -> K)
    requires
        distinct_by(s, key),
        forall|k: int| 0 <= k < s.len() ==> key(#[trigger] s[k]) != key(x),
    ensures
        distinct_by(s.push(x), key),
{
    let t = s.push(x);
    assert forall|i: int, j: int| 0 <= i < j < t.len() implies #[trigger] key(t[i]) != #[trigger] key(t[j]) by {
        assert(t[i] == s[i]);
        if j < s.len() {
            assert(t[j] == s[j]);
        }
    }
}

/// Replacing an element by one with the same key keeps keys distinct.
proof fn lemma_update_keeps_distinct<A, K>(s: Seq<A>, k: int, x: A, key: spec_fn(A) -> K)
    requires
        distinct_by(s, key),
        0 <= k < s.len(),
        key(x) == key(s[k]),
    ensures
        distinct_by(s.update(k, x), key),
{
    let t = s.update(k, x);
    assert forall|i: int, j: int| 0 <= i < j < t.len() implies #[trigger] key(t[i]) != #[trigger] key(t[j]) by {
        assert(key(t[i]) == key(s[i]));
        assert(key(t[j]) == key(s[j]));
    }
}

/// Adding a link unless present and then removing one keeps a table duplicate-free.
proof fn lemma_links_after_keeps_unique(links: Seq<Link>, add: Option<Link>, remove: Option<Link>)
    requires
        links.no_duplicates(),
    ensures
        links_after(links, add, remove).no_duplicates(),
{
    let id = |l: Link| l;
    lemma_no_duplicates_is_distinct(links);
    let added = match add {
        Some(p) => if links.contains(p) { links } else { links.push(p) },
        None => links,
    };
    if let Some(p) = add {
        if !links.contains(p) {
            assert forall|k: int| 0 <= k < links.len() implies id(#[trigger] links[k]) != id(p) by {
                assert(links.contains(links[k]));
            }
            lemma_push_keeps_distinct(links, p, id);
        }
    }
    if let Some(q) = remove {
        lemma_filter_keeps_distinct(added, link_is_not(q), id);
        lemma_no_duplicates_is_distinct(added.filter(link_is_not(q)));
    } else {
        lemma_no_duplicates_is_distinct(added);
    }
}

/// An annotated pair has a first annotation.
proof fn lemma_first_annotation_exists(anns: Seq<ValueAnnotation>, need: EntityId, solution: EntityId)
    requires
        has_annotation(anns, need, solution),
    ensures
        exists|k: int| is_first_annotation(anns, need, solution, k),
    decreases anns.len(),
{
    let rest = anns.drop_last();
    if has_annotation(rest, need, solution) {
        let j = choose|j: int|
            0 <= j < rest.len() && #[trigger] rest[j].pain_or_gain_id == need
                && rest[j].reliever_or_creator_id == solution;
        assert(anns[j].pain_or_gain_id == need);
        lemma_first_annotation_exists(rest, need, solution);
        let k = choose|k: int| is_first_annotation(rest, need, solution, k);
        assert forall|i: int| 0 <= i < k implies !(#[trigger] anns[i].pain_or_gain_id == need
            && anns[i].reliever_or_creator_id == solution) by {
            assert(anns[i] == rest[i]);
        }
        assert(is_first_annotation(anns, need, solution, k));
    } else {
        let last = anns.len() - 1;
        let j = choose|j: int|
            0 <= j < anns.len() && #[trigger] anns[j].pain_or_gain_id == need
                && anns[j].reliever_or_creator_id == solution;
        if j < last {
            assert(rest[j] == anns[j]);
            assert(rest[j].pain_or_gain_id == need);
        }
        assert forall|i: int| 0 <= i < last implies !(#[trigger] anns[i].pain_or_gain_id == need
            && anns[i].reliever_or_creator_id == solution) by {
            assert(anns[i] == rest[i]);
            if rest[i].pain_or_gain_id == need && rest[i].reliever_or_creator_id == solution {
                assert(has_annotation(rest, need, solution));
            }
        }
        assert(is_first_annotation(anns, need, solution, last));
    }
}

/// The edits of a solution's panel keep at most one annotation per pair.
proof fn lemma_annotation_edits_keep_unique(anns: Seq<ValueAnnotation>, solution: EntityId, e: AnnotationEdits)
    requires
        unique_pairs(anns),
    ensures
        unique_pairs(annotations_after_edits(anns, solution, e)),
{
    let key = annotation_pair();
    let added = match e.to_add {
        Some(need) => if has_annotation(anns, need, solution) {
            anns
        } else {
            anns.push(new_annotation(need, solution))
        },
        None => anns,
    };
    if let Some(need) = e.to_add {
        if !has_annotation(anns, need, solution) {
            assert forall|k: int| 0 <= k < anns.len() implies key(#[trigger] anns[k]) != key(new_annotation(need, solution)) by {
                if key(anns[k]) == key(new_annotation(need, solution)) {
                    assert(anns[k].pain_or_gain_id == need && anns[k].reliever_or_creator_id == solution);
                }
            }
            lemma_push_keeps_distinct(anns, new_annotation(need, solution), key);
        }
    }
    let removed = match e.to_remove {
        Some(need) => added.filter(annotation_is_not(need, solution)),
        None => added,
    };
    if let Some(need) = e.to_remove {
        lemma_filter_keeps_distinct(added, annotation_is_not(need, solution), key);
    }
    if let Some((need, vt, bits)) = e.edit {
        if has_annotation(removed, need, solution) {
            lemma_first_annotation_exists(removed, need, solution);
            let k = choose|k: int| is_first_annotation(removed, need, solution, k);
            lemma_update_keeps_distinct(
                removed,
                k,
                ValueAnnotation { value_type: vt, strength_bits: bits, ..removed[k] },
                key,
            );
        }
    }
}

/// A need linked in a panel frame that neither unlinks nor edits it keeps
/// the new annotation the frame adds for it.
proof fn lemma_new_annotation_survives(anns: Seq<ValueAnnotation>, solution: EntityId, e: AnnotationEdits, need: EntityId)
    requires
        e.to_add == Some(need),
        !has_annotation(anns, need, solution),
        e.to_remove != Some(need),
        e.edit matches Some(t) ==> t.0 != need,
    ensures
        annotations_after_edits(anns, solution, e).contains(new_annotation(need, solution)),
{
    let fresh = new_annotation(need, solution);
    let added = anns.push(fresh);
    let j = anns.len() as int;
    assert(added[j] == fresh);
    let removed = match e.to_remove {
        Some(r) => added.filter(annotation_is_not(r, solution)),
        None => added,
    };
    assert(removed.contains(fresh)) by {
        if let Some(r) = e.to_remove {
            assert(annotation_is_not(r, solution)(added[j]));
            added.lemma_filter_contains(annotation_is_not(r, solution), j);
        }
    }
    if let Some((n2, vt, bits)) = e.edit {
        if has_annotation(removed, n2, solution) {
            lemma_first_annotation_exists(removed, n2, solution);
            let k = choose|k: int| is_first_annotation(removed, n2, solution, k);
            let m = choose|m: int| 0 <= m < removed.len() && removed[m] == fresh;
            assert(removed[k].pain_or_gain_id == n2);
            assert(m != k);
            let w = removed.update(k, ValueAnnotation { value_type: vt, strength_bits: bits, ..removed[k] });
            assert(w[m] == fresh);
            assert(w.contains(fresh));
        }
    }
}

/// A frame of the pain relief detail panel keeps the feature links free of
/// duplicates and at most one annotation per pain and pain relief, and leaves
/// the pain reliefs as they were; closing the window deselects the relief;
/// and a pain linked to a relief that had none for it gets a new
/// differentiator of medium strength, which stays unless the same frame
/// unlinks or edits that pain (appended last in a frame that only links).
pub proof fn law_pain_relief_detail_keeps_tables_unique(
    v: ValuePropPageView,
    id: EntityId,
    o: DetailOutcome,
    e: AnnotationEdits,
)
    requires
        v.pain_reliefs_selected_id == Some(id),
        v.feature_pain_relief_links.no_duplicates(),
        unique_pairs(v.pain_relief_annotations),
    ensures
        after_pain_relief_detail(v, o, e).feature_pain_relief_links.no_duplicates(),
        unique_pairs(after_pain_relief_detail(v, o, e).pain_relief_annotations),
        after_pain_relief_detail(v, o, e).pain_reliefs == v.pain_reliefs,
        after_pain_relief_detail(v, o, e).pain_reliefs_selected_id == if o.keep_open {
            Some(id)
        } else {
            None
        },
        forall|need: EntityId|
            e.to_add == Some(need) && !has_annotation(v.pain_relief_annotations, need, id) && e.to_remove is None
                && e.edit is None ==> #[trigger] after_pain_relief_detail(v, o, e).pain_relief_annotations
                == v.pain_relief_annotations.push(new_annotation(need, id)),
        forall|need: EntityId|
            e.to_add == Some(need) && !has_annotation(v.pain_relief_annotations, need, id) && e.to_remove != Some(need)
                && (e.edit matches Some(t) ==> t.0 != need) ==> #[trigger] after_pain_relief_detail(
                v,
                o,
                e,
            ).pain_relief_annotations.contains(new_annotation(need, id)),
{
    assert forall|need: EntityId|
        e.to_add == Some(need) && !has_annotation(v.pain_relief_annotations, need, id) && e.to_remove != Some(need)
            && (e.edit matches Some(t) ==> t.0 != need) implies #[trigger] after_pain_relief_detail(
            v,
            o,
            e,
        ).pain_relief_annotations.contains(new_annotation(need, id)) by {
        lemma_new_annotation_survives(v.pain_relief_annotations, id, e, need);
    }
    lemma_links_after_keeps_unique(v.feature_pain_relief_links, o.link_to_add, o.link_to_remove);
    lemma_annotation_edits_keep_unique(v.pain_relief_annotations, id, e);
}

/// A frame of the gain creator detail panel keeps the feature links free of
/// duplicates and at most one annotation per gain and gain creator, and
/// leaves the gain creators as they were; closing the window deselects the
/// creator; and a gain linked to a creator that had none for it gets a new
/// differentiator of medium strength, which stays unless the same frame
/// unlinks or edits that gain (appended last in a frame that only links).
pub proof fn law_gain_creator_detail_keeps_tables_unique(
    v: ValuePropPageView,
    id: EntityId,
    o: DetailOutcome,
    e: AnnotationEdits,
)
    requires
        v.gain_creators_selected_id == Some(id),
        v.feature_gain_creator_links.no_duplicates(),
        unique_pairs(v.gain_creator_annotations),
    ensures
        after_gain_creator_detail(v, o, e).feature_gain_creator_links.no_duplicates(),
        unique_pairs(after_gain_creator_detail(v, o, e).gain_creator_annotations),
        after_gain_creator_detail(v, o, e).gain_creators == v.gain_creators,
        after_gain_creator_detail(v, o, e).gain_creators_selected_id == if o.keep_open {
            Some(id)
        } else {
            None
        },
        forall|need: EntityId|
            e.to_add == Some(need) && !has_annotation(v.gain_creator_annotations, need, id) && e.to_remove is None
                && e.edit is None ==> #[trigger] after_gain_creator_detail(v, o, e).gain_creator_annotations
                == v.gain_creator_annotations.push(new_annotation(need, id)),
        forall|need: EntityId|
            e.to_add == Some(need) && !has_annotation(v.gain_creator_annotations, need, id) && e.to_remove != Some(need)
                && (e.edit matches Some(t) ==> t.0 != need) ==> #[trigger] after_gain_creator_detail(
                v,
                o,
                e,
            ).gain_creator_annotations.contains(new_annotation(need, id)),
{
    assert forall|need: EntityId|
        e.to_add == Some(need) && !has_annotation(v.gain_creator_annotations, need, id) && e.to_remove != Some(need)
            && (e.edit matches Some(t) ==> t.0 != need) implies #[trigger] after_gain_creator_detail(
            v,
            o,
            e,
        ).gain_creator_annotations.contains(new_annotation(need, id)) by {
        lemma_new_annotation_survives(v.gain_creator_annotations, id, e, need);
    }
    lemma_links_after_keeps_unique(v.feature_gain_creator_links, o.link_to_add, o.link_to_remove);
    lemma_annotation_edits_keep_unique(v.gain_creator_annotations, id, e);
}

/// A frame of the products accordion keeps a duplicate-free link table
/// duplicate-free and changes it by at most the link it adds and the link it
/// removes. When the frame reports links and deletes of listed products
/// only, every new link starts at a listed product and the pending delete is
/// the old one or a listed product.
pub proof fn law_products_accordion_frame(
    products: Seq<Product>,
    links: Seq<Link>,
    pending: Option<EntityId>,
    o: AccordionOutcome,
)
    requires
        links.no_duplicates(),
    ensures
        links_after(links, o.link_to_add, o.link_to_remove).no_duplicates(),
        forall|l: Link| #[trigger]
            links_after(links, o.link_to_add, o.link_to_remove).contains(l) ==> links.contains(l)
                || o.link_to_add == Some(l),
        forall|l: Link| #[trigger]
            links.contains(l) ==> links_after(links, o.link_to_add, o.link_to_remove).contains(l)
                || o.link_to_remove == Some(l),
        (o.link_to_add matches Some(p) ==> ids_of(products).contains(p.0)) ==> forall|l: Link|
            #[trigger] links_after(links, o.link_to_add, o.link_to_remove).contains(l)
                && !links.contains(l) ==> ids_of(products).contains(l.0),
        (o.to_delete matches Some(d) ==> ids_of(products).contains(d)) ==> (pending_after(pending, o)
            == pending || (pending_after(pending, o) matches Some(d) && ids_of(products).contains(d))),
{
    lemma_links_after_keeps_unique(links, o.link_to_add, o.link_to_remove);
    let added = match o.link_to_add {
        Some(p) => if links.contains(p) { links } else { links.push(p) },
        None => links,
    };
    assert forall|l: Link| #[trigger] added.contains(l) implies links.contains(l) || o.link_to_add == Some(l) by {
        if !links.contains(l) && o.link_to_add != Some(l) {
            let k = choose|k: int| 0 <= k < added.len() && added[k] == l;
            if let Some(p) = o.link_to_add {
                if !links.contains(p) {
                    if k < links.len() {
                        assert(links[k] == l);
                    }
                }
            }
        }
    }
    assert forall|l: Link| links.contains(l) implies #[trigger] added.contains(l) by {
        if let Some(p) = o.link_to_add {
            if !links.contains(p) {
                let k = choose|k: int| 0 <= k < links.len() && links[k] == l;
                assert(added[k] == l);
            }
        }
    }
    if let Some(q) = o.link_to_remove {
        let after = added.filter(link_is_not(q));
        assert forall|l: Link| #[trigger] after.contains(l) implies added.contains(l) by {
            added.lemma_filter_contains_rev(link_is_not(q), l);
        }
        assert forall|l: Link| added.contains(l) && l != q implies #[trigger] after.contains(l) by {
            let k = choose|k: int| 0 <= k < added.len() && added[k] == l;
            added.lemma_filter_contains(link_is_not(q), k);
        }
    }
}


/// In the flow diagram a hovered need lights up every solution annotated on
/// it and a hovered solution every need it is annotated on, for pains and
/// gains alike; a hovered job lights up each pain and gain linked to it, and
/// a hovered pain or gain each of its jobs.
pub proof fn law_flow_lights_direct_partners(app: &App)
    ensures
        forall|k: int|
            0 <= k < app.valueprop_page.pain_relief_annotations@.len() ==> {
                let a = #[trigger] app.valueprop_page.pain_relief_annotations@[k];
                &&& spec_flow_connected(app, Some(a.pain_or_gain_id)).contains(a.reliever_or_creator_id)
                &&& spec_flow_connected(app, Some(a.reliever_or_creator_id)).contains(a.pain_or_gain_id)
            },
        forall|k: int|
            0 <= k < app.valueprop_page.gain_creator_annotations@.len() ==> {
                let a = #[trigger] app.valueprop_page.gain_creator_annotations@[k];
                &&& spec_flow_connected(app, Some(a.pain_or_gain_id)).contains(a.reliever_or_creator_id)
                &&& spec_flow_connected(app, Some(a.reliever_or_creator_id)).contains(a.pain_or_gain_id)
            },
        forall|k: int|
            0 <= k < app.customer_segment_page.job_pain_links@.len() ==> {
                let l = #[trigger] app.customer_segment_page.job_pain_links@[k];
                &&& spec_flow_connected(app, Some(l.1)).contains(l.0)
                &&& spec_flow_connected(app, Some(l.0)).contains(l.1)
            },
        forall|k: int|
            0 <= k < app.customer_segment_page.job_gain_links@.len() ==> {
                let l = #[trigger] app.customer_segment_page.job_gain_links@[k];
                &&& spec_flow_connected(app, Some(l.1)).contains(l.0)
                &&& spec_flow_connected(app, Some(l.0)).contains(l.1)
            },
{
    let vp = app.valueprop_page;
    let cs = app.customer_segment_page;
    let pr = need_solution_edges(vp.pain_relief_annotations@);
    let gc = need_solution_edges(vp.gain_creator_annotations@);
    assert forall|k: int| 0 <= k < vp.pain_relief_annotations@.len() implies {
        let a = #[trigger] vp.pain_relief_annotations@[k];
        &&& spec_flow_connected(app, Some(a.pain_or_gain_id)).contains(a.reliever_or_creator_id)
        &&& spec_flow_connected(app, Some(a.reliever_or_creator_id)).contains(a.pain_or_gain_id)
    } by {
        let a = vp.pain_relief_annotations@[k];
        assert(pr[k] == (a.pain_or_gain_id, a.reliever_or_creator_id));
        assert(set![a.pain_or_gain_id].contains(pr[k].0));
        assert(set![a.reliever_or_creator_id].contains(pr[k].1));
        assert(image(pr, set![a.pain_or_gain_id]).contains(a.reliever_or_creator_id));
        assert(preimage(pr, set![a.reliever_or_creator_id]).contains(a.pain_or_gain_id));
    }
    assert forall|k: int| 0 <= k < vp.gain_creator_annotations@.len() implies {
        let a = #[trigger] vp.gain_creator_annotations@[k];
        &&& spec_flow_connected(app, Some(a.pain_or_gain_id)).contains(a.reliever_or_creator_id)
        &&& spec_flow_connected(app, Some(a.reliever_or_creator_id)).contains(a.pain_or_gain_id)
    } by {
        let a = vp.gain_creator_annotations@[k];
        assert(gc[k] == (a.pain_or_gain_id, a.reliever_or_creator_id));
        assert(set![a.pain_or_gain_id].contains(gc[k].0));
        assert(set![a.reliever_or_creator_id].contains(gc[k].1));
        assert(image(gc, set![a.pain_or_gain_id]).contains(a.reliever_or_creator_id));
        assert(preimage(gc, set![a.reliever_or_creator_id]).contains(a.pain_or_gain_id));
    }
    assert forall|k: int| 0 <= k < cs.job_pain_links@.len() implies {
        let l = #[trigger] cs.job_pain_links@[k];
        &&& spec_flow_connected(app, Some(l.1)).contains(l.0)
        &&& spec_flow_connected(app, Some(l.0)).contains(l.1)
    } by {
        let l = cs.job_pain_links@[k];
        assert(set![l.1].contains(cs.job_pain_links@[k].1));
        assert(set![l.0].contains(cs.job_pain_links@[k].0));
        assert(preimage(cs.job_pain_links@, set![l.1]).contains(l.0));
        assert(image(cs.job_pain_links@, set![l.0]).contains(l.1));
    }
    assert forall|k: int| 0 <= k < cs.job_gain_links@.len() implies {
        let l = #[trigger] cs.job_gain_links@[k];
        &&& spec_flow_connected(app, Some(l.1)).contains(l.0)
        &&& spec_flow_connected(app, Some(l.0)).contains(l.1)
    } by {
        let l = cs.job_gain_links@[k];
        assert(set![l.1].contains(cs.job_gain_links@[k].1));
        assert(set![l.0].contains(cs.job_gain_links@[k].0));
        assert(preimage(cs.job_gain_links@, set![l.1]).contains(l.0));
        assert(image(cs.job_gain_links@, set![l.0]).contains(l.1));
    }
}

/// Every link of the segment-job table is an edge of the chain.
proof fn lemma_segment_job_link_in_chain(app: &App, k: int)
    requires
        0 <= k < app.customer_segment_page.segment_job_links@.len(),
    ensures
        chain_edges(app).contains(app.customer_segment_page.segment_job_links@[k]),
{
    let vp = app.valueprop_page;
    let cs = app.customer_segment_page;
    let front = vp.product_feature_links@ + vp.feature_gain_creator_links@ + vp.feature_pain_relief_links@
        + annotation_edges(vp.gain_creator_annotations@) + annotation_edges(vp.pain_relief_annotations@)
        + cs.job_gain_links@ + cs.job_pain_links@;
    assert(chain_edges(app) == front + cs.segment_job_links@);
    assert(chain_edges(app)[front.len() + k] == cs.segment_job_links@[k]);
}

/// With the overview filter on, every entity that has a path along the chain
/// into a visible segment is visible, and so is every entity a visible
/// product has a path to; in particular each job linked to a visible segment
/// is visible.
pub proof fn law_visible_ends_show_their_chains(hidden_products: Set<EntityId>, hidden_segments: Set<EntityId>, app: &App)
    ensures
        forall|j: int, x: EntityId|
            0 <= j < app.customer_segment_page.segments_state.segments@.len()
                && !hidden_segments.contains(#[trigger] app.customer_segment_page.segments_state.segments@[j].id)
                && x != app.customer_segment_page.segments_state.segments@[j].id
                && #[trigger] reaches(chain_edges(app), x, app.customer_segment_page.segments_state.segments@[j].id)
                ==> visible_middle(hidden_products, hidden_segments, app).contains(x),
        forall|i: int, x: EntityId|
            0 <= i < app.valueprop_page.products_state.products@.len()
                && !hidden_products.contains(#[trigger] app.valueprop_page.products_state.products@[i].id)
                && x != app.valueprop_page.products_state.products@[i].id
                && #[trigger] reaches(chain_edges(app), app.valueprop_page.products_state.products@[i].id, x)
                ==> visible_middle(hidden_products, hidden_segments, app).contains(x),
        forall|j: int, k: int|
            0 <= j < app.customer_segment_page.segments_state.segments@.len()
                && !hidden_segments.contains(#[trigger] app.customer_segment_page.segments_state.segments@[j].id)
                && 0 <= k < app.customer_segment_page.segment_job_links@.len()
                && (#[trigger] app.customer_segment_page.segment_job_links@[k]).1
                == app.customer_segment_page.segments_state.segments@[j].id
                && app.customer_segment_page.segment_job_links@[k].0
                != app.customer_segment_page.segments_state.segments@[j].id
                ==> visible_middle(hidden_products, hidden_segments, app).contains(
                app.customer_segment_page.segment_job_links@[k].0,
            ),
{
    let e = chain_edges(app);
    let segs = app.customer_segment_page.segments_state.segments@;
    let prods = app.valueprop_page.products_state.products@;
    let links = app.customer_segment_page.segment_job_links@;
    assert forall|j: int, x: EntityId|
        0 <= j < segs.len() && !hidden_segments.contains(#[trigger] segs[j].id) && x != segs[j].id
            && #[trigger] reaches(e, x, segs[j].id) implies visible_middle(hidden_products, hidden_segments, app).contains(x) by {
        lemma_reverse_reaches(e, x, segs[j].id);
        assert(reachable_from(reversed(e), segs[j].id).contains(x));
    }
    assert forall|i: int, x: EntityId|
        0 <= i < prods.len() && !hidden_products.contains(#[trigger] prods[i].id) && x != prods[i].id
            && #[trigger] reaches(e, prods[i].id, x) implies visible_middle(hidden_products, hidden_segments, app).contains(x) by {
        assert(reachable_from(e, prods[i].id).contains(x));
    }
    assert forall|j: int, k: int|
        0 <= j < segs.len() && !hidden_segments.contains(#[trigger] segs[j].id) && 0 <= k < links.len()
            && (#[trigger] links[k]).1 == segs[j].id && links[k].0 != segs[j].id
            implies visible_middle(hidden_products, hidden_segments, app).contains(links[k].0) by {
        let s = segs[j].id;
        let x = links[k].0;
        lemma_segment_job_link_in_chain(app, k);
        let p = seq![x, s];
        assert(is_path(e, p)) by {
            assert forall|i: int| 0 <= i < p.len() - 1 implies #[trigger] e.contains((p[i], p[i + 1])) by {
                assert(links[k] == (x, s));
            }
        }
        assert(path_from_to(e, p, x, s));
        lemma_reverse_reaches(e, x, s);
        assert(reachable_from(reversed(e), s).contains(x));
    }
}

/// A segment's fit is undefined exactly when none of its jobs has a gain or a
/// pain; a single linked pain or gain makes it a ratio over all the
/// segment's distinct gains and pains.
pub proof fn law_fit_undefined_only_without_needs(app: &App, p: EntityId, s: EntityId)
    requires
        need_tables_fit(app),
    ensures
        (spec_fit_score(app, p, s) is Undefined) <==> !((exists|k1: int, k2: int|
            0 <= k1 < app.customer_segment_page.segment_job_links@.len()
                && 0 <= k2 < app.customer_segment_page.job_pain_links@.len()
                && (#[trigger] app.customer_segment_page.segment_job_links@[k1]).1 == s
                && (#[trigger] app.customer_segment_page.job_pain_links@[k2]).1
                == app.customer_segment_page.segment_job_links@[k1].0) || (exists|k1: int, k2: int|
            0 <= k1 < app.customer_segment_page.segment_job_links@.len()
                && 0 <= k2 < app.customer_segment_page.job_gain_links@.len()
                && (#[trigger] app.customer_segment_page.segment_job_links@[k1]).1 == s
                && (#[trigger] app.customer_segment_page.job_gain_links@[k2]).1
                == app.customer_segment_page.segment_job_links@[k1].0)),
        spec_fit_score(app, p, s) matches FitScore::Ratio { total, .. } ==> total == segment_gains(app, s).len()
            + segment_pains(app, s).len(),
{
    let cs = app.customer_segment_page;
    let sj = cs.segment_job_links@;
    let jobs = segment_jobs(app, s);
    let gains = segment_gains(app, s);
    let pains = segment_pains(app, s);
    lemma_preimage_bounded(cs.job_gain_links@, jobs);
    lemma_preimage_bounded(cs.job_pain_links@, jobs);
    if exists|k1: int, k2: int|
        0 <= k1 < sj.len() && 0 <= k2 < cs.job_pain_links@.len() && (#[trigger] sj[k1]).1 == s
            && (#[trigger] cs.job_pain_links@[k2]).1 == sj[k1].0 {
        let (k1, k2) = choose|k1: int, k2: int|
            0 <= k1 < sj.len() && 0 <= k2 < cs.job_pain_links@.len() && (#[trigger] sj[k1]).1 == s
                && (#[trigger] cs.job_pain_links@[k2]).1 == sj[k1].0;
        assert(set![s].contains(sj[k1].1));
        assert(jobs.contains(sj[k1].0));
        assert(jobs.contains(cs.job_pain_links@[k2].1));
        assert(pains.contains(cs.job_pain_links@[k2].0));
    }
    if exists|k1: int, k2: int|
        0 <= k1 < sj.len() && 0 <= k2 < cs.job_gain_links@.len() && (#[trigger] sj[k1]).1 == s
            && (#[trigger] cs.job_gain_links@[k2]).1 == sj[k1].0 {
        let (k1, k2) = choose|k1: int, k2: int|
            0 <= k1 < sj.len() && 0 <= k2 < cs.job_gain_links@.len() && (#[trigger] sj[k1]).1 == s
                && (#[trigger] cs.job_gain_links@[k2]).1 == sj[k1].0;
        assert(set![s].contains(sj[k1].1));
        assert(jobs.contains(sj[k1].0));
        assert(jobs.contains(cs.job_gain_links@[k2].1));
        assert(gains.contains(cs.job_gain_links@[k2].0));
    }
    if pains.len() != 0 {
        if pains =~= Set::empty() {
            assert(Set::<EntityId>::empty().len() == 0);
        }
        let x = pains.choose();
        assert(pains.contains(x));
        let k2 = choose|k2: int| 0 <= k2 < cs.job_pain_links@.len() && jobs.contains(#[trigger] cs.job_pain_links@[k2].1) && cs.job_pain_links@[k2].0 == x;
        let k1 = choose|k1: int| 0 <= k1 < sj.len() && set![s].contains(#[trigger] sj[k1].1) && sj[k1].0 == cs.job_pain_links@[k2].1;
        assert(sj[k1].1 == s);
    }
    if gains.len() != 0 {
        if gains =~= Set::empty() {
            assert(Set::<EntityId>::empty().len() == 0);
        }
        let x = gains.choose();
        assert(gains.contains(x));
        let k2 = choose|k2: int| 0 <= k2 < cs.job_gain_links@.len() && jobs.contains(#[trigger] cs.job_gain_links@[k2].1) && cs.job_gain_links@[k2].0 == x;
        let k1 = choose|k1: int| 0 <= k1 < sj.len() && set![s].contains(#[trigger] sj[k1].1) && sj[k1].0 == cs.job_gain_links@[k2].1;
        assert(sj[k1].1 == s);
    }
}


/// Filtering keeps exactly the elements that pass: each element of the
/// sequence that passes is in the result, and each element of the result is
/// in the sequence and passes.
proof fn lemma_filter_members<A>(s: Seq<A>, p: spec_fn(A) -> bool)
    ensures
        forall|x: A| s.contains(x) && p(x) ==> #[trigger] s.filter(p).contains(x),
        forall|x: A| #[trigger] s.filter(p).contains(x) ==> s.contains(x) && p(x),
{
    assert forall|x: A| s.contains(x) && p(x) implies #[trigger] s.filter(p).contains(x) by {
        let k = choose|k: int| 0 <= k < s.len() && s[k] == x;
        s.lemma_filter_contains(p, k);
    }
    assert forall|x: A| #[trigger] s.filter(p).contains(x) implies s.contains(x) && p(x) by {
        s.lemma_filter_contains_rev(p, x);
        let k = choose|k: int| 0 <= k < s.filter(p).len() && s.filter(p)[k] == x;
    }
}

/// A confirmed pain relief delete removes only what belongs to the deleted
/// relief: every annotation and feature link of another relief stays, every
/// other relief stays, nothing new appears, and the products, features, gain
/// creators and their links and annotations are untouched.
pub proof fn law_pain_relief_delete_keeps_others(v: ValuePropPageView, id: EntityId, dismissed: bool)
    requires
        v.pain_reliefs_pending_delete == Some(id),
    ensures
        forall|a: ValueAnnotation|
            v.pain_relief_annotations.contains(a) && a.reliever_or_creator_id != id
                ==> #[trigger] after_pain_relief_delete(v, true, dismissed).pain_relief_annotations.contains(a),
        forall|a: ValueAnnotation|
            #[trigger] after_pain_relief_delete(v, true, dismissed).pain_relief_annotations.contains(a)
                ==> v.pain_relief_annotations.contains(a),
        forall|l: Link|
            v.feature_pain_relief_links.contains(l) && l.1 != id
                ==> #[trigger] after_pain_relief_delete(v, true, dismissed).feature_pain_relief_links.contains(l),
        forall|l: Link|
            #[trigger] after_pain_relief_delete(v, true, dismissed).feature_pain_relief_links.contains(l)
                ==> v.feature_pain_relief_links.contains(l),
        forall|r: PainRelief|
            v.pain_reliefs.contains(r) && r.id != id
                ==> #[trigger] after_pain_relief_delete(v, true, dismissed).pain_reliefs.contains(r),
        after_pain_relief_delete(v, true, dismissed).products == v.products,
        after_pain_relief_delete(v, true, dismissed).features == v.features,
        after_pain_relief_delete(v, true, dismissed).gain_creators == v.gain_creators,
        after_pain_relief_delete(v, true, dismissed).product_feature_links == v.product_feature_links,
        after_pain_relief_delete(v, true, dismissed).feature_gain_creator_links == v.feature_gain_creator_links,
        after_pain_relief_delete(v, true, dismissed).gain_creator_annotations == v.gain_creator_annotations,
{
    lemma_filter_members(v.pain_relief_annotations, solution_is_not(id));
    lemma_filter_members(v.feature_pain_relief_links, second_is_not(id));
    lemma_filter_members(v.pain_reliefs, id_is_not::<PainRelief>(id));
}

/// A confirmed gain creator delete removes only what belongs to the deleted
/// creator: every annotation and feature link of another creator stays,
/// every other creator stays, nothing new appears, and the products,
/// features, pain reliefs and their links and annotations are untouched.
pub proof fn law_gain_creator_delete_keeps_others(v: ValuePropPageView, id: EntityId, dismissed: bool)
    requires
        v.gain_creators_pending_delete == Some(id),
    ensures
        forall|a: ValueAnnotation|
            v.gain_creator_annotations.contains(a) && a.reliever_or_creator_id != id
                ==> #[trigger] after_gain_creator_delete(v, true, dismissed).gain_creator_annotations.contains(a),
        forall|a: ValueAnnotation|
            #[trigger] after_gain_creator_delete(v, true, dismissed).gain_creator_annotations.contains(a)
                ==> v.gain_creator_annotations.contains(a),
        forall|l: Link|
            v.feature_gain_creator_links.contains(l) && l.1 != id
                ==> #[trigger] after_gain_creator_delete(v, true, dismissed).feature_gain_creator_links.contains(l),
        forall|l: Link|
            #[trigger] after_gain_creator_delete(v, true, dismissed).feature_gain_creator_links.contains(l)
                ==> v.feature_gain_creator_links.contains(l),
        forall|g: GainCreator|
            v.gain_creators.contains(g) && g.id != id
                ==> #[trigger] after_gain_creator_delete(v, true, dismissed).gain_creators.contains(g),
        after_gain_creator_delete(v, true, dismissed).products == v.products,
        after_gain_creator_delete(v, true, dismissed).features == v.features,
        after_gain_creator_delete(v, true, dismissed).pain_reliefs == v.pain_reliefs,
        after_gain_creator_delete(v, true, dismissed).product_feature_links == v.product_feature_links,
        after_gain_creator_delete(v, true, dismissed).feature_pain_relief_links == v.feature_pain_relief_links,
        after_gain_creator_delete(v, true, dismissed).pain_relief_annotations == v.pain_relief_annotations,
{
    lemma_filter_members(v.gain_creator_annotations, solution_is_not(id));
    lemma_filter_members(v.feature_gain_creator_links, second_is_not(id));
    lemma_filter_members(v.gain_creators, id_is_not::<GainCreator>(id));
}

/// A confirmed product delete removes only what belongs to the deleted
/// product: every feature link of another product and every other product
/// stays, nothing new appears, and the features, solutions and their links
/// and annotations are untouched.
pub proof fn law_product_delete_keeps_others(v: ValuePropPageView, id: EntityId, dismissed: bool)
    requires
        v.products_pending_delete == Some(id),
    ensures
        forall|l: Link|
            v.product_feature_links.contains(l) && l.0 != id
                ==> #[trigger] after_product_delete(v, true, dismissed).product_feature_links.contains(l),
        forall|l: Link|
            #[trigger] after_product_delete(v, true, dismissed).product_feature_links.contains(l)
                ==> v.product_feature_links.contains(l),
        forall|p: Product|
            v.products.contains(p) && p.id != id
                ==> #[trigger] after_product_delete(v, true, dismissed).products.contains(p),
        after_product_delete(v, true, dismissed).features == v.features,
        after_product_delete(v, true, dismissed).pain_reliefs == v.pain_reliefs,
        after_product_delete(v, true, dismissed).gain_creators == v.gain_creators,
        after_product_delete(v, true, dismissed).feature_pain_relief_links == v.feature_pain_relief_links,
        after_product_delete(v, true, dismissed).feature_gain_creator_links == v.feature_gain_creator_links,
        after_product_delete(v, true, dismissed).pain_relief_annotations == v.pain_relief_annotations,
        after_product_delete(v, true, dismissed).gain_creator_annotations == v.gain_creator_annotations,
{
    lemma_filter_members(v.product_feature_links, first_is_not(id));
    lemma_filter_members(v.products, id_is_not::<Product>(id));
}

/// A confirmed feature delete removes only what belongs to the deleted
/// feature: every product, pain relief and gain creator link of another
/// feature and every other feature stays, nothing new appears, and the
/// products, solutions and annotations are untouched.
pub proof fn law_feature_delete_keeps_others(v: ValuePropPageView, id: EntityId, dismissed: bool)
    requires
        v.features_pending_delete == Some(id),
    ensures
        forall|l: Link|
            v.product_feature_links.contains(l) && l.1 != id
                ==> #[trigger] after_feature_delete(v, true, dismissed).product_feature_links.contains(l),
        forall|l: Link|
            #[trigger] after_feature_delete(v, true, dismissed).product_feature_links.contains(l)
                ==> v.product_feature_links.contains(l),
        forall|l: Link|
            v.feature_pain_relief_links.contains(l) && l.0 != id
                ==> #[trigger] after_feature_delete(v, true, dismissed).feature_pain_relief_links.contains(l),
        forall|l: Link|
            #[trigger] after_feature_delete(v, true, dismissed).feature_pain_relief_links.contains(l)
                ==> v.feature_pain_relief_links.contains(l),
        forall|l: Link|
            v.feature_gain_creator_links.contains(l) && l.0 != id
                ==> #[trigger] after_feature_delete(v, true, dismissed).feature_gain_creator_links.contains(l),
        forall|l: Link|
            #[trigger] after_feature_delete(v, true, dismissed).feature_gain_creator_links.contains(l)
                ==> v.feature_gain_creator_links.contains(l),
        forall|f: Feature|
            v.features.contains(f) && f.id != id
                ==> #[trigger] after_feature_delete(v, true, dismissed).features.contains(f),
        after_feature_delete(v, true, dismissed).products == v.products,
        after_feature_delete(v, true, dismissed).pain_reliefs == v.pain_reliefs,
        after_feature_delete(v, true, dismissed).gain_creators == v.gain_creators,
        after_feature_delete(v, true, dismissed).pain_relief_annotations == v.pain_relief_annotations,
        after_feature_delete(v, true, dismissed).gain_creator_annotations == v.gain_creator_annotations,
{
    lemma_filter_members(v.product_feature_links, second_is_not(id));
    lemma_filter_members(v.feature_pain_relief_links, first_is_not(id));
    lemma_filter_members(v.feature_gain_creator_links, first_is_not(id));
    lemma_filter_members(v.features, id_is_not::<Feature>(id));
}

/// Unlinking a need from a solution in an accordion frame removes exactly
/// that pair: every annotation of another need or another solution stays,
/// none for the pair remains, and nothing appears but what the frame links.
pub proof fn law_unlinking_removes_only_that_pair(anns: Seq<ValueAnnotation>, add: Option<Link>, pair: Link)
    ensures
        forall|a: ValueAnnotation|
            anns.contains(a) && !(a.pain_or_gain_id == pair.0 && a.reliever_or_creator_id == pair.1)
                ==> #[trigger] annotations_after(anns, add, Some(pair)).contains(a),
        forall|a: ValueAnnotation|
            #[trigger] annotations_after(anns, add, Some(pair)).contains(a) ==> !(a.pain_or_gain_id == pair.0
                && a.reliever_or_creator_id == pair.1) && (anns.contains(a) || (add matches Some(q) && a
                == new_annotation(q.0, q.1))),
{
    let added = match add {
        Some(q) => if has_annotation(anns, q.0, q.1) {
            anns
        } else {
            anns.push(new_annotation(q.0, q.1))
        },
        None => anns,
    };
    lemma_filter_members(added, annotation_is_not(pair.0, pair.1));
    assert forall|a: ValueAnnotation| anns.contains(a) implies added.contains(a) by {
        if let Some(q) = add {
            if !has_annotation(anns, q.0, q.1) {
                let k = choose|k: int| 0 <= k < anns.len() && anns[k] == a;
                assert(added[k] == a);
            }
        }
    }
    assert forall|a: ValueAnnotation| added.contains(a) implies anns.contains(a) || (add matches Some(q) && a
        == new_annotation(q.0, q.1)) by {
        if let Some(q) = add {
            if !has_annotation(anns, q.0, q.1) {
                let k = choose|k: int| 0 <= k < added.len() && added[k] == a;
                if k < anns.len() {
                    assert(anns[k] == a);
                }
            }
        }
    }
}

/// Unlinking a pair of link-table members in a frame removes exactly that
/// link: every other link stays, and nothing appears but what the frame links.
pub proof fn law_unlinking_removes_only_that_link(links: Seq<Link>, add: Option<Link>, pair: Link)
    ensures
        forall|l: Link| links.contains(l) && l != pair ==> #[trigger] links_after(links, add, Some(pair)).contains(l),
        forall|l: Link|
            #[trigger] links_after(links, add, Some(pair)).contains(l) ==> l != pair && (links.contains(l)
                || add == Some(l)),
{
    let added = match add {
        Some(q) => if links.contains(q) {
            links
        } else {
            links.push(q)
        },
        None => links,
    };
    lemma_filter_members(added, link_is_not(pair));
    assert forall|l: Link| links.contains(l) implies added.contains(l) by {
        if let Some(q) = add {
            if !links.contains(q) {
                let k = choose|k: int| 0 <= k < links.len() && links[k] == l;
                assert(added[k] == l);
            }
        }
    }
    assert forall|l: Link| added.contains(l) implies links.contains(l) || add == Some(l) by {
        if let Some(q) = add {
            if !links.contains(q) {
                let k = choose|k: int| 0 <= k < added.len() && added[k] == l;
                if k < links.len() {
                    assert(links[k] == l);
                }
            }
        }
    }
}

/// Unlinking a need in a solution's detail panel, in a frame that links and
/// edits nothing, removes exactly that need's annotation: every annotation of
/// another need or another solution stays and nothing appears.
pub proof fn law_panel_unlink_removes_only_that_need(anns: Seq<ValueAnnotation>, solution: EntityId, need: EntityId)
    ensures
        forall|a: ValueAnnotation|
            anns.contains(a) && !(a.pain_or_gain_id == need && a.reliever_or_creator_id == solution)
                ==> #[trigger] annotations_after_edits(
                anns,
                solution,
                AnnotationEdits { to_add: None, to_remove: Some(need), edit: None },
            ).contains(a),
        forall|a: ValueAnnotation|
            #[trigger] annotations_after_edits(
                anns,
                solution,
                AnnotationEdits { to_add: None, to_remove: Some(need), edit: None },
            ).contains(a) ==> anns.contains(a) && !(a.pain_or_gain_id == need && a.reliever_or_creator_id
                == solution),
{
    lemma_filter_members(anns, annotation_is_not(need, solution));
}

} // verus!
