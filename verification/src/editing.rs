//! The editing actions of the value-proposition windows: what a frame's
//! clicks do to the page once the window has been drawn. The windows collect
//! the user's choices while drawing and hand them here as an outcome.

use vstd::prelude::*;

use crate::ids::{is_version_four, new_random_id, EntityId};
use crate::links::{
    add_annotation, add_link, edit_annotation, first_is_not, has_annotation, id_is_not,
    is_first_annotation, link_is_not, remove_annotation, remove_annotations_of_solution,
    remove_entity, remove_link, remove_links_from, remove_links_to, second_is_not,
    solution_is_not, annotation_is_not,
};
use crate::model::{
    Entity, Feature, FeaturesState, GainCreator, GainCreatorState, Link, PainRelief,
    PainReliefState, Product, ProductsState, ValueAnnotation, ValuePropPage, ValuePropPageView,
    ValueType,
};

verus! {

/// Strength of a newly linked annotation: 0.5, "medium", as `f32` bits.
pub const NEW_ANNOTATION_STRENGTH_BITS: u32 = 0x3F00_0000;

/// The new annotation joining `need` to `solution`: a differentiator of medium strength.
pub open spec fn new_annotation(need: EntityId, solution: EntityId) -> ValueAnnotation {
    ValueAnnotation {
        pain_or_gain_id: need,
        reliever_or_creator_id: solution,
        value_type: ValueType::Differentiator,
        strength_bits: NEW_ANNOTATION_STRENGTH_BITS,
    }
}

// ── Delete confirmation ──────────────────────────────────────────────────────

/// The page after the answer to the product delete dialog.
pub open spec fn after_product_delete(v: ValuePropPageView, confirmed: bool, dismissed: bool) -> ValuePropPageView {
    match v.products_pending_delete {
        None => v,
        Some(id) => ValuePropPageView {
            product_feature_links: if confirmed {
                v.product_feature_links.filter(first_is_not(id))
            } else {
                v.product_feature_links
            },
            products: if confirmed {
                v.products.filter(id_is_not::<Product>(id))
            } else {
                v.products
            },
            products_selected_id: if confirmed && v.products_selected_id == Some(id) {
                None
            } else {
                v.products_selected_id
            },
            products_pending_delete: if confirmed || dismissed {
                None
            } else {
                Some(id)
            },
            ..v
        },
    }
}

/// Applies the answer to the product delete dialog. On confirmation the
/// pending product and its feature links go, and its detail panel closes;
/// on confirmation or dismissal the request is cleared.
pub fn resolve_product_delete(vp: &mut ValuePropPage, confirmed: bool, dismissed: bool)
    ensures
        final(vp)@ == after_product_delete(old(vp)@, confirmed, dismissed),
{
    let id = match vp.products_state.pending_delete {
        None => {
            return ;
        },
        Some(id) => id,
    };
    if confirmed {
        remove_links_from(&mut vp.product_feature_links, id);
        remove_entity(&mut vp.products_state.products, id);
        if vp.products_state.selected_id == Some(id) {
            vp.products_state.selected_id = None;
        }
    }
    if confirmed || dismissed {
        vp.products_state.pending_delete = None;
    }
}

/// The page after the answer to the feature delete dialog.
pub open spec fn after_feature_delete(v: ValuePropPageView, confirmed: bool, dismissed: bool) -> ValuePropPageView {
    match v.features_pending_delete {
        None => v,
        Some(id) => ValuePropPageView {
            product_feature_links: if confirmed {
                v.product_feature_links.filter(second_is_not(id))
            } else {
                v.product_feature_links
            },
            feature_pain_relief_links: if confirmed {
                v.feature_pain_relief_links.filter(first_is_not(id))
            } else {
                v.feature_pain_relief_links
            },
            feature_gain_creator_links: if confirmed {
                v.feature_gain_creator_links.filter(first_is_not(id))
            } else {
                v.feature_gain_creator_links
            },
            features: if confirmed {
                v.features.filter(id_is_not::<Feature>(id))
            } else {
                v.features
            },
            features_pending_delete: if confirmed || dismissed {
                None
            } else {
                Some(id)
            },
            ..v
        },
    }
}

/// Applies the answer to the feature delete dialog. On confirmation the
/// pending feature goes together with its product, pain relief and gain
/// creator links; on confirmation or dismissal the request is cleared.
pub fn resolve_feature_delete(vp: &mut ValuePropPage, confirmed: bool, dismissed: bool)
    ensures
        final(vp)@ == after_feature_delete(old(vp)@, confirmed, dismissed),
{
    let id = match vp.features_state.pending_delete {
        None => {
            return ;
        },
        Some(id) => id,
    };
    if confirmed {
        remove_links_to(&mut vp.product_feature_links, id);
        remove_links_from(&mut vp.feature_pain_relief_links, id);
        remove_links_from(&mut vp.feature_gain_creator_links, id);
        remove_entity(&mut vp.features_state.features, id);
    }
    if confirmed || dismissed {
        vp.features_state.pending_delete = None;
    }
}

/// The page after the answer to the pain relief delete dialog.
pub open spec fn after_pain_relief_delete(v: ValuePropPageView, confirmed: bool, dismissed: bool) -> ValuePropPageView {
    match v.pain_reliefs_pending_delete {
        None => v,
        Some(id) => ValuePropPageView {
            feature_pain_relief_links: if confirmed {
                v.feature_pain_relief_links.filter(second_is_not(id))
            } else {
                v.feature_pain_relief_links
            },
            pain_relief_annotations: if confirmed {
                v.pain_relief_annotations.filter(solution_is_not(id))
            } else {
                v.pain_relief_annotations
            },
            pain_reliefs: if confirmed {
                v.pain_reliefs.filter(id_is_not::<PainRelief>(id))
            } else {
                v.pain_reliefs
            },
            pain_reliefs_selected_id: if confirmed && v.pain_reliefs_selected_id == Some(id) {
                None
            } else {
                v.pain_reliefs_selected_id
            },
            pain_reliefs_pending_delete: if confirmed || dismissed {
                None
            } else {
                Some(id)
            },
            ..v
        },
    }
}

/// Applies the answer to the pain relief delete dialog. On confirmation the
/// pending pain relief goes together with its feature links and its pain
/// annotations, and its detail panel closes; on confirmation or dismissal the
/// request is cleared.
pub fn resolve_pain_relief_delete(vp: &mut ValuePropPage, confirmed: bool, dismissed: bool)
    ensures
        final(vp)@ == after_pain_relief_delete(old(vp)@, confirmed, dismissed),
{
    let id = match vp.pain_relief_state.pending_delete {
        None => {
            return ;
        },
        Some(id) => id,
    };
    if confirmed {
        remove_links_to(&mut vp.feature_pain_relief_links, id);
        remove_annotations_of_solution(&mut vp.pain_relief_annotations, id);
        remove_entity(&mut vp.pain_relief_state.pain_reliefs, id);
        if vp.pain_relief_state.selected_id == Some(id) {
            vp.pain_relief_state.selected_id = None;
        }
    }
    if confirmed || dismissed {
        vp.pain_relief_state.pending_delete = None;
    }
}

/// The page after the answer to the gain creator delete dialog.
pub open spec fn after_gain_creator_delete(v: ValuePropPageView, confirmed: bool, dismissed: bool) -> ValuePropPageView {
    match v.gain_creators_pending_delete {
        None => v,
        Some(id) => ValuePropPageView {
            feature_gain_creator_links: if confirmed {
                v.feature_gain_creator_links.filter(second_is_not(id))
            } else {
                v.feature_gain_creator_links
            },
            gain_creator_annotations: if confirmed {
                v.gain_creator_annotations.filter(solution_is_not(id))
            } else {
                v.gain_creator_annotations
            },
            gain_creators: if confirmed {
                v.gain_creators.filter(id_is_not::<GainCreator>(id))
            } else {
                v.gain_creators
            },
            gain_creators_selected_id: if confirmed && v.gain_creators_selected_id == Some(
                id,
            ) {
                None
            } else {
                v.gain_creators_selected_id
            },
            gain_creators_pending_delete: if confirmed || dismissed {
                None
            } else {
                Some(id)
            },
            ..v
        },
    }
}

/// Applies the answer to the gain creator delete dialog. On confirmation the
/// pending gain creator goes together with its feature links and its gain
/// annotations, and its detail panel closes; on confirmation or dismissal the
/// request is cleared.
pub fn resolve_gain_creator_delete(vp: &mut ValuePropPage, confirmed: bool, dismissed: bool)
    ensures
        final(vp)@ == after_gain_creator_delete(old(vp)@, confirmed, dismissed),
{
    let id = match vp.gain_creator_state.pending_delete {
        None => {
            return ;
        },
        Some(id) => id,
    };
    if confirmed {
        remove_links_to(&mut vp.feature_gain_creator_links, id);
        remove_annotations_of_solution(&mut vp.gain_creator_annotations, id);
        remove_entity(&mut vp.gain_creator_state.gain_creators, id);
        if vp.gain_creator_state.selected_id == Some(id) {
            vp.gain_creator_state.selected_id = None;
        }
    }
    if confirmed || dismissed {
        vp.gain_creator_state.pending_delete = None;
    }
}

// ── Navigation ───────────────────────────────────────────────────────────────

/// `k` is the first index of an entity with identifier `id`.
pub open spec fn is_first_with_id<T: Entity>(s: Seq<T>, id: EntityId, k: int) -> bool {
    &&& 0 <= k < s.len()
    &&& s[k].spec_id() == id
    &&& forall|j: int| 0 <= j < k ==> (#[trigger] s[j]).spec_id() != id
}

/// The features with the first one of identifier `id` expanded.
pub open spec fn expand_first_feature(s: Seq<Feature>, id: EntityId) -> Seq<Feature> {
    if exists|k: int| is_first_with_id(s, id, k) {
        let k = choose|k: int| is_first_with_id(s, id, k);
        s.update(k, Feature { expanded: true, ..s[k] })
    } else {
        s
    }
}

/// The products with the first one of identifier `id` expanded.
pub open spec fn expand_first_product(s: Seq<Product>, id: EntityId) -> Seq<Product> {
    if exists|k: int| is_first_with_id(s, id, k) {
        let k = choose|k: int| is_first_with_id(s, id, k);
        s.update(k, Product { expanded: true, ..s[k] })
    } else {
        s
    }
}

/// The page after bringing feature `id` into view.
pub open spec fn navigated_to_feature(v: ValuePropPageView, id: EntityId) -> ValuePropPageView {
    ValuePropPageView {
        product_windows: crate::model::ProductWindows { features_open: true, ..v.product_windows },
        features: expand_first_feature(v.features, id),
        features_selected_id: Some(id),
        features_scroll_to_id: Some(id),
        ..v
    }
}

/// The page after bringing product `id` into view.
pub open spec fn navigated_to_product(v: ValuePropPageView, id: EntityId) -> ValuePropPageView {
    ValuePropPageView {
        product_windows: crate::model::ProductWindows { products_open: true, ..v.product_windows },
        products: expand_first_product(v.products, id),
        products_selected_id: Some(id),
        products_scroll_to_id: Some(id),
        ..v
    }
}

/// Two first indices of the same identifier are equal.
proof fn lemma_first_unique<T: Entity>(s: Seq<T>, id: EntityId, a: int, b: int)
    requires
        is_first_with_id(s, id, a),
        is_first_with_id(s, id, b),
    ensures
        a == b,
{
    if a < b {
        assert((s[a]).spec_id() != id);
    } else if b < a {
        assert((s[b]).spec_id() != id);
    }
}

/// The index of the first entity with identifier `id`, if any.
pub fn first_index<T: Entity>(items: &Vec<T>, id: EntityId) -> (r: Option<usize>)
    ensures
        match r {
            Some(k) => is_first_with_id(items@, id, k as int),
            None => forall|k: int| 0 <= k < items@.len() ==> (#[trigger] items@[k]).spec_id() != id,
        },
{
    let mut i: usize = 0;
    while i < items.len()
        invariant
            i <= items@.len(),
            forall|j: int| 0 <= j < i ==> (#[trigger] items@[j]).spec_id() != id,
        decreases items@.len() - i,
    {
        if items[i].entity_id() == id {
            return Some(i);
        }
        i = i + 1;
    }
    None
}

/// Opens the Features window and makes feature `feat_id` visible in both
/// modes: its accordion row is expanded and its detail panel selected, and
/// the table scrolls to it.
pub fn navigate_to_feature(vp: &mut ValuePropPage, feat_id: EntityId)
    ensures
        final(vp)@ == navigated_to_feature(old(vp)@, feat_id),
{
    vp.product_windows.features_open = true;
    let ghost s = vp.features_state.features@;
    match first_index(&vp.features_state.features, feat_id) {
        Some(k) => {
            vp.features_state.features[k].expanded = true;
            proof {
                let c = choose|c: int| is_first_with_id(s, feat_id, c);
                lemma_first_unique(s, feat_id, k as int, c);
                assert(vp.features_state.features@ =~= expand_first_feature(s, feat_id));
            }
        },
        None => {
            assert(!exists|k: int| is_first_with_id(s, feat_id, k));
        },
    }
    vp.features_state.selected_id = Some(feat_id);
    vp.features_state.scroll_to_id = Some(feat_id);
}

/// Opens the Products window and makes product `prod_id` visible in both
/// modes: its accordion row is expanded and its detail panel selected, and
/// the table scrolls to it.
pub fn navigate_to_product(vp: &mut ValuePropPage, prod_id: EntityId)
    ensures
        final(vp)@ == navigated_to_product(old(vp)@, prod_id),
{
    vp.product_windows.products_open = true;
    let ghost s = vp.products_state.products@;
    match first_index(&vp.products_state.products, prod_id) {
        Some(k) => {
            vp.products_state.products[k].expanded = true;
            proof {
                let c = choose|c: int| is_first_with_id(s, prod_id, c);
                lemma_first_unique(s, prod_id, k as int, c);
                assert(vp.products_state.products@ =~= expand_first_product(s, prod_id));
            }
        },
        None => {
            assert(!exists|k: int| is_first_with_id(s, prod_id, k));
        },
    }
    vp.products_state.selected_id = Some(prod_id);
    vp.products_state.scroll_to_id = Some(prod_id);
}

// ── Accordion tables ─────────────────────────────────────────────────────────

/// What the user did in an accordion table during one frame.
#[derive(Clone, Copy, Debug)]
pub struct AccordionOutcome {
    /// The table scrolled to the requested row.
    pub did_scroll: bool,
    /// The row whose delete button was clicked.
    pub to_delete: Option<EntityId>,
    /// The link chosen in a row's "add" combo.
    pub link_to_add: Option<Link>,
    /// The link whose unlink button was clicked.
    pub link_to_remove: Option<Link>,
    /// The row whose detail panel was opened.
    pub panel_select: Option<EntityId>,
    /// The open detail panel was closed from its row.
    pub panel_deselect: bool,
}

/// What the user did to a solution's annotated needs during one frame, as
/// `(need, solution)` pairs.
#[derive(Clone, Copy, Debug)]
pub struct AnnotationOutcome {
    pub to_add: Option<Link>,
    pub to_remove: Option<Link>,
}

/// A table's pending delete after the outcome.
pub open spec fn pending_after(pending: Option<EntityId>, o: AccordionOutcome) -> Option<EntityId> {
    match o.to_delete {
        Some(id) => Some(id),
        None => pending,
    }
}

/// A table's selection after the outcome: closing wins over opening.
pub open spec fn selection_after(selected: Option<EntityId>, o: AccordionOutcome) -> Option<EntityId> {
    if o.panel_deselect {
        None
    } else {
        match o.panel_select {
            Some(id) => Some(id),
            None => selected,
        }
    }
}

/// A table's scroll request after the outcome: served once scrolled.
pub open spec fn scroll_after(scroll: Option<EntityId>, o: AccordionOutcome) -> Option<EntityId> {
    if o.did_scroll {
        None
    } else {
        scroll
    }
}

/// A link table after adding a link (unless present) and then removing one.
pub open spec fn links_after(links: Seq<Link>, add: Option<Link>, remove: Option<Link>) -> Seq<Link> {
    let added = match add {
        Some(p) => if links.contains(p) {
            links
        } else {
            links.push(p)
        },
        None => links,
    };
    match remove {
        Some(p) => added.filter(link_is_not(p)),
        None => added,
    }
}

/// An annotation list after adding a new annotation (unless the pair is
/// annotated already) and then removing a pair.
pub open spec fn annotations_after(
    anns: Seq<ValueAnnotation>,
    add: Option<Link>,
    remove: Option<Link>,
) -> Seq<ValueAnnotation> {
    let added = match add {
        Some(p) => if has_annotation(anns, p.0, p.1) {
            anns
        } else {
            anns.push(new_annotation(p.0, p.1))
        },
        None => anns,
    };
    match remove {
        Some(p) => added.filter(annotation_is_not(p.0, p.1)),
        None => added,
    }
}

/// Adds, then removes, the links of an outcome.
fn apply_link_changes(links: &mut Vec<Link>, add: Option<Link>, remove: Option<Link>)
    ensures
        final(links)@ == links_after(old(links)@, add, remove),
{
    if let Some(pair) = add {
        add_link(links, pair);
    }
    if let Some(pair) = remove {
        remove_link(links, pair);
    }
}

/// Adds, then removes, the annotations of an outcome.
fn apply_annotation_changes(anns: &mut Vec<ValueAnnotation>, add: Option<Link>, remove: Option<Link>)
    ensures
        final(anns)@ == annotations_after(old(anns)@, add, remove),
{
    if let Some(pair) = add {
        add_annotation(
            anns,
            ValueAnnotation {
                pain_or_gain_id: pair.0,
                reliever_or_creator_id: pair.1,
                value_type: ValueType::default(),
                strength_bits: NEW_ANNOTATION_STRENGTH_BITS,
            },
        );
    }
    if let Some(pair) = remove {
        remove_annotation(anns, pair.0, pair.1);
    }
}

/// Updates a table's pending delete, selection and scroll request.
fn apply_selection(
    pending: &mut Option<EntityId>,
    selected: &mut Option<EntityId>,
    scroll: &mut Option<EntityId>,
    o: &AccordionOutcome,
)
    ensures
        *final(pending) == pending_after(*old(pending), *o),
        *final(selected) == selection_after(*old(selected), *o),
        *final(scroll) == scroll_after(*old(scroll), *o),
{
    if o.did_scroll {
        *scroll = None;
    }
    if let Some(id) = o.to_delete {
        *pending = Some(id);
    }
    if o.panel_deselect {
        *selected = None;
    } else if let Some(id) = o.panel_select {
        *selected = Some(id);
    }
}

/// Applies a frame of the products accordion; links are
/// `(product_id, feature_id)`.
pub fn apply_products_accordion(state: &mut ProductsState, links: &mut Vec<Link>, o: &AccordionOutcome)
    ensures
        final(state).products@ == old(state).products@,
        final(state).pending_delete == pending_after(old(state).pending_delete, *o),
        final(state).selected_id == selection_after(old(state).selected_id, *o),
        final(state).scroll_to_id == scroll_after(old(state).scroll_to_id, *o),
        final(links)@ == links_after(old(links)@, o.link_to_add, o.link_to_remove),
{
    apply_selection(&mut state.pending_delete, &mut state.selected_id, &mut state.scroll_to_id, o);
    apply_link_changes(links, o.link_to_add, o.link_to_remove);
}

/// Applies a frame of the features accordion; links are
/// `(product_id, feature_id)`.
pub fn apply_features_accordion(state: &mut FeaturesState, links: &mut Vec<Link>, o: &AccordionOutcome)
    ensures
        final(state).features@ == old(state).features@,
        final(state).pending_delete == pending_after(old(state).pending_delete, *o),
        final(state).selected_id == selection_after(old(state).selected_id, *o),
        final(state).scroll_to_id == scroll_after(old(state).scroll_to_id, *o),
        final(links)@ == links_after(old(links)@, o.link_to_add, o.link_to_remove),
{
    apply_selection(&mut state.pending_delete, &mut state.selected_id, &mut state.scroll_to_id, o);
    apply_link_changes(links, o.link_to_add, o.link_to_remove);
}

/// Applies a frame of the pain relief accordion; feature links are
/// `(feature_id, pain_relief_id)` and annotations join pains to pain reliefs.
pub fn apply_pain_relief_accordion(
    state: &mut PainReliefState,
    feature_links: &mut Vec<Link>,
    pain_annotations: &mut Vec<ValueAnnotation>,
    o: &AccordionOutcome,
    a: &AnnotationOutcome,
)
    ensures
        final(state).pain_reliefs@ == old(state).pain_reliefs@,
        final(state).pending_delete == pending_after(old(state).pending_delete, *o),
        final(state).selected_id == selection_after(old(state).selected_id, *o),
        final(state).scroll_to_id == scroll_after(old(state).scroll_to_id, *o),
        final(feature_links)@ == links_after(old(feature_links)@, o.link_to_add, o.link_to_remove),
        final(pain_annotations)@ == annotations_after(old(pain_annotations)@, a.to_add, a.to_remove),
{
    apply_selection(&mut state.pending_delete, &mut state.selected_id, &mut state.scroll_to_id, o);
    apply_link_changes(feature_links, o.link_to_add, o.link_to_remove);
    apply_annotation_changes(pain_annotations, a.to_add, a.to_remove);
}

/// Applies a frame of the gain creator accordion; feature links are
/// `(feature_id, gain_creator_id)` and annotations join gains to gain creators.
pub fn apply_gain_creator_accordion(
    state: &mut GainCreatorState,
    feature_links: &mut Vec<Link>,
    gain_annotations: &mut Vec<ValueAnnotation>,
    o: &AccordionOutcome,
    a: &AnnotationOutcome,
)
    ensures
        final(state).gain_creators@ == old(state).gain_creators@,
        final(state).pending_delete == pending_after(old(state).pending_delete, *o),
        final(state).selected_id == selection_after(old(state).selected_id, *o),
        final(state).scroll_to_id == scroll_after(old(state).scroll_to_id, *o),
        final(feature_links)@ == links_after(old(feature_links)@, o.link_to_add, o.link_to_remove),
        final(gain_annotations)@ == annotations_after(old(gain_annotations)@, a.to_add, a.to_remove),
{
    apply_selection(&mut state.pending_delete, &mut state.selected_id, &mut state.scroll_to_id, o);
    apply_link_changes(feature_links, o.link_to_add, o.link_to_remove);
    apply_annotation_changes(gain_annotations, a.to_add, a.to_remove);
}

// ── Detail panels ────────────────────────────────────────────────────────────

/// What the user did in a detail panel window during one frame.
#[derive(Clone, Copy, Debug)]
pub struct DetailOutcome {
    /// The window stays open (its close button was not clicked).
    pub keep_open: bool,
    /// The link chosen in the "add" combo.
    pub link_to_add: Option<Link>,
    /// The link whose unlink button was clicked.
    pub link_to_remove: Option<Link>,
    /// The linked entity the user asked to open.
    pub navigate_to: Option<EntityId>,
}

/// What the user did to the annotated needs in a solution's detail panel:
/// the need to link, the need to unlink, and a new value type and strength
/// (as `f32` bits) for one linked need.
#[derive(Clone, Copy, Debug)]
pub struct AnnotationEdits {
    pub to_add: Option<EntityId>,
    pub to_remove: Option<EntityId>,
    pub edit: Option<(EntityId, ValueType, u32)>,
}

/// The annotation list after the edits made in the panel of `solution`.
pub open spec fn annotations_after_edits(
    anns: Seq<ValueAnnotation>,
    solution: EntityId,
    e: AnnotationEdits,
) -> Seq<ValueAnnotation> {
    let added = match e.to_add {
        Some(need) => if has_annotation(anns, need, solution) {
            anns
        } else {
            anns.push(new_annotation(need, solution))
        },
        None => anns,
    };
    let removed = match e.to_remove {
        Some(need) => added.filter(annotation_is_not(need, solution)),
        None => added,
    };
    match e.edit {
        Some((need, vt, bits)) => edited(removed, need, solution, vt, bits),
        None => removed,
    }
}

/// The list with the first annotation joining `need` to `solution` given a
/// new value type and strength.
pub open spec fn edited(
    anns: Seq<ValueAnnotation>,
    need: EntityId,
    solution: EntityId,
    vt: ValueType,
    bits: u32,
) -> Seq<ValueAnnotation> {
    if has_annotation(anns, need, solution) {
        let k = choose|k: int| is_first_annotation(anns, need, solution, k);
        anns.update(k, ValueAnnotation { value_type: vt, strength_bits: bits, ..anns[k] })
    } else {
        anns
    }
}

/// Two first indices of the same pair are equal.
proof fn lemma_first_annotation_unique(anns: Seq<ValueAnnotation>, need: EntityId, solution: EntityId, a: int, b: int)
    requires
        is_first_annotation(anns, need, solution, a),
        is_first_annotation(anns, need, solution, b),
    ensures
        a == b,
{
    if a < b {
        assert(!(anns[a].pain_or_gain_id == need && anns[a].reliever_or_creator_id == solution));
    } else if b < a {
        assert(!(anns[b].pain_or_gain_id == need && anns[b].reliever_or_creator_id == solution));
    }
}

/// Applies the edits made to the annotated needs in the panel of `solution`.
fn apply_annotation_edits(anns: &mut Vec<ValueAnnotation>, solution: EntityId, e: &AnnotationEdits)
    ensures
        final(anns)@ == annotations_after_edits(old(anns)@, solution, *e),
{
    if let Some(need) = e.to_add {
        add_annotation(
            anns,
            ValueAnnotation {
                pain_or_gain_id: need,
                reliever_or_creator_id: solution,
                value_type: ValueType::default(),
                strength_bits: NEW_ANNOTATION_STRENGTH_BITS,
            },
        );
    }
    if let Some(need) = e.to_remove {
        remove_annotation(anns, need, solution);
    }
    if let Some((need, vt, bits)) = e.edit {
        let ghost before = anns@;
        edit_annotation(anns, need, solution, vt, bits);
        proof {
            if has_annotation(before, need, solution) {
                let k = choose|k: int|
                    is_first_annotation(before, need, solution, k) && anns@ == before.update(
                        k,
                        ValueAnnotation { value_type: vt, strength_bits: bits, ..before[k] },
                    );
                let c = choose|c: int| is_first_annotation(before, need, solution, c);
                lemma_first_annotation_unique(before, need, solution, k, c);
            }
        }
    }
}

/// The page after a frame of the product detail panel.
pub open spec fn after_product_detail(v: ValuePropPageView, o: DetailOutcome) -> ValuePropPageView {
    match v.products_selected_id {
        None => v,
        Some(id) => {
            let w = ValuePropPageView {
                products_selected_id: if o.keep_open {
                    Some(id)
                } else {
                    None
                },
                product_feature_links: links_after(v.product_feature_links, o.link_to_add, o.link_to_remove),
                ..v
            };
            match o.navigate_to {
                Some(f) => navigated_to_feature(w, f),
                None => w,
            }
        },
    }
}

/// Applies a frame of the product detail panel: closing deselects, the
/// chosen `(product_id, feature_id)` link is added and the unlinked one
/// removed, and a clicked feature is brought into view.
pub fn apply_product_detail(vp: &mut ValuePropPage, o: &DetailOutcome)
    ensures
        final(vp)@ == after_product_detail(old(vp)@, *o),
{
    if vp.products_state.selected_id.is_none() {
        return ;
    }
    if !o.keep_open {
        vp.products_state.selected_id = None;
    }
    apply_link_changes(&mut vp.product_feature_links, o.link_to_add, o.link_to_remove);
    if let Some(f) = o.navigate_to {
        navigate_to_feature(vp, f);
    }
}

/// The page after a frame of the feature detail panel.
pub open spec fn after_feature_detail(v: ValuePropPageView, o: DetailOutcome) -> ValuePropPageView {
    match v.features_selected_id {
        None => v,
        Some(id) => {
            let w = ValuePropPageView {
                features_selected_id: if o.keep_open {
                    Some(id)
                } else {
                    None
                },
                product_feature_links: links_after(v.product_feature_links, o.link_to_add, o.link_to_remove),
                ..v
            };
            match o.navigate_to {
                Some(p) => navigated_to_product(w, p),
                None => w,
            }
        },
    }
}

/// Applies a frame of the feature detail panel: closing deselects, the
/// chosen `(product_id, feature_id)` link is added and the unlinked one
/// removed, and a clicked product is brought into view.
pub fn apply_feature_detail(vp: &mut ValuePropPage, o: &DetailOutcome)
    ensures
        final(vp)@ == after_feature_detail(old(vp)@, *o),
{
    if vp.features_state.selected_id.is_none() {
        return ;
    }
    if !o.keep_open {
        vp.features_state.selected_id = None;
    }
    apply_link_changes(&mut vp.product_feature_links, o.link_to_add, o.link_to_remove);
    if let Some(p) = o.navigate_to {
        navigate_to_product(vp, p);
    }
}

/// The page after a frame of the pain relief detail panel.
pub open spec fn after_pain_relief_detail(
    v: ValuePropPageView,
    o: DetailOutcome,
    e: AnnotationEdits,
) -> ValuePropPageView {
    match v.pain_reliefs_selected_id {
        None => v,
        Some(id) => {
            let w = ValuePropPageView {
                pain_reliefs_selected_id: if o.keep_open {
                    Some(id)
                } else {
                    None
                },
                feature_pain_relief_links: links_after(
                    v.feature_pain_relief_links,
                    o.link_to_add,
                    o.link_to_remove,
                ),
                pain_relief_annotations: annotations_after_edits(v.pain_relief_annotations, id, e),
                ..v
            };
            match o.navigate_to {
                Some(f) => navigated_to_feature(w, f),
                None => w,
            }
        },
    }
}

/// Applies a frame of the pain relief detail panel: closing deselects,
/// `(feature_id, pain_relief_id)` links are added and removed, the pain
/// annotations of the selected relief are added, removed and edited, and a
/// clicked feature is brought into view.
pub fn apply_pain_relief_detail(vp: &mut ValuePropPage, o: &DetailOutcome, e: &AnnotationEdits)
    ensures
        final(vp)@ == after_pain_relief_detail(old(vp)@, *o, *e),
{
    let id = match vp.pain_relief_state.selected_id {
        None => {
            return ;
        },
        Some(id) => id,
    };
    if !o.keep_open {
        vp.pain_relief_state.selected_id = None;
    }
    apply_link_changes(&mut vp.feature_pain_relief_links, o.link_to_add, o.link_to_remove);
    apply_annotation_edits(&mut vp.pain_relief_annotations, id, e);
    if let Some(f) = o.navigate_to {
        navigate_to_feature(vp, f);
    }
}

/// The page after a frame of the gain creator detail panel.
pub open spec fn after_gain_creator_detail(
    v: ValuePropPageView,
    o: DetailOutcome,
    e: AnnotationEdits,
) -> ValuePropPageView {
    match v.gain_creators_selected_id {
        None => v,
        Some(id) => {
            let w = ValuePropPageView {
                gain_creators_selected_id: if o.keep_open {
                    Some(id)
                } else {
                    None
                },
                feature_gain_creator_links: links_after(
                    v.feature_gain_creator_links,
                    o.link_to_add,
                    o.link_to_remove,
                ),
                gain_creator_annotations: annotations_after_edits(v.gain_creator_annotations, id, e),
                ..v
            };
            match o.navigate_to {
                Some(f) => navigated_to_feature(w, f),
                None => w,
            }
        },
    }
}

/// Applies a frame of the gain creator detail panel: closing deselects,
/// `(feature_id, gain_creator_id)` links are added and removed, the gain
/// annotations of the selected creator are added, removed and edited, and a
/// clicked feature is brought into view.
pub fn apply_gain_creator_detail(vp: &mut ValuePropPage, o: &DetailOutcome, e: &AnnotationEdits)
    ensures
        final(vp)@ == after_gain_creator_detail(old(vp)@, *o, *e),
{
    let id = match vp.gain_creator_state.selected_id {
        None => {
            return ;
        },
        Some(id) => id,
    };
    if !o.keep_open {
        vp.gain_creator_state.selected_id = None;
    }
    apply_link_changes(&mut vp.feature_gain_creator_links, o.link_to_add, o.link_to_remove);
    apply_annotation_edits(&mut vp.gain_creator_annotations, id, e);
    if let Some(f) = o.navigate_to {
        navigate_to_feature(vp, f);
    }
}

// ── New entities ─────────────────────────────────────────────────────────────

/// Adds a blank product with a fresh random identifier and returns the identifier.
pub fn add_product(state: &mut ProductsState) -> (id: EntityId)
    ensures
        final(state).products@.len() == old(state).products@.len() + 1,
        final(state).products@.take(old(state).products@.len() as int) == old(state).products@,
        final(state).products@.last().id == id,
        final(state).products@.last().name@.len() == 0,
        final(state).products@.last().description@.len() == 0,
        final(state).products@.last().notes@.len() == 0,
        !final(state).products@.last().expanded,
        final(state).pending_delete == old(state).pending_delete,
        final(state).selected_id == old(state).selected_id,
        final(state).scroll_to_id == old(state).scroll_to_id,
        id != 0,
        is_version_four(id),
{
    let id = new_random_id();
    assert(id != 0) by (bit_vector)
        requires
            id & 0xF000_C000_0000_0000_0000u128 == 0x4000_8000_0000_0000_0000u128,
    ;
    state.products.push(
        Product {
            id,
            name: String::new(),
            description: String::new(),
            notes: String::new(),
            expanded: false,
        },
    );
    proof {
        assert(state.products@.take(old(state).products@.len() as int) =~= old(state).products@);
    }
    id
}

/// Adds a blank feature with a fresh random identifier and returns the identifier.
pub fn add_feature(state: &mut FeaturesState) -> (id: EntityId)
    ensures
        final(state).features@.len() == old(state).features@.len() + 1,
        final(state).features@.take(old(state).features@.len() as int) == old(state).features@,
        final(state).features@.last().id == id,
        final(state).features@.last().name@.len() == 0,
        final(state).features@.last().description@.len() == 0,
        final(state).features@.last().status@.len() == 0,
        final(state).features@.last().notes@.len() == 0,
        final(state).features@.last().user_story@.len() == 0,
        final(state).features@.last().acceptance_criteria@.len() == 0,
        !final(state).features@.last().expanded,
        final(state).pending_delete == old(state).pending_delete,
        final(state).selected_id == old(state).selected_id,
        final(state).scroll_to_id == old(state).scroll_to_id,
        id != 0,
        is_version_four(id),
{
    let id = new_random_id();
    assert(id != 0) by (bit_vector)
        requires
            id & 0xF000_C000_0000_0000_0000u128 == 0x4000_8000_0000_0000_0000u128,
    ;
    state.features.push(
        Feature {
            id,
            name: String::new(),
            description: String::new(),
            status: String::new(),
            notes: String::new(),
            user_story: String::new(),
            acceptance_criteria: String::new(),
            expanded: false,
        },
    );
    proof {
        assert(state.features@.take(old(state).features@.len() as int) =~= old(state).features@);
    }
    id
}

/// Adds a blank pain relief with a fresh random identifier and returns the identifier.
pub fn add_pain_relief(state: &mut PainReliefState) -> (id: EntityId)
    ensures
        final(state).pain_reliefs@.len() == old(state).pain_reliefs@.len() + 1,
        final(state).pain_reliefs@.take(old(state).pain_reliefs@.len() as int) == old(state).pain_reliefs@,
        final(state).pain_reliefs@.last().id == id,
        final(state).pain_reliefs@.last().name@.len() == 0,
        final(state).pain_reliefs@.last().description@.len() == 0,
        final(state).pain_reliefs@.last().notes@.len() == 0,
        !final(state).pain_reliefs@.last().expanded,
        final(state).pending_delete == old(state).pending_delete,
        final(state).selected_id == old(state).selected_id,
        final(state).scroll_to_id == old(state).scroll_to_id,
        id != 0,
        is_version_four(id),
{
    let id = new_random_id();
    assert(id != 0) by (bit_vector)
        requires
            id & 0xF000_C000_0000_0000_0000u128 == 0x4000_8000_0000_0000_0000u128,
    ;
    state.pain_reliefs.push(
        PainRelief {
            id,
            name: String::new(),
            description: String::new(),
            notes: String::new(),
            expanded: false,
        },
    );
    proof {
        assert(state.pain_reliefs@.take(old(state).pain_reliefs@.len() as int) =~= old(state).pain_reliefs@);
    }
    id
}

/// Adds a blank gain creator with a fresh random identifier and returns the identifier.
pub fn add_gain_creator(state: &mut GainCreatorState) -> (id: EntityId)
    ensures
        final(state).gain_creators@.len() == old(state).gain_creators@.len() + 1,
        final(state).gain_creators@.take(old(state).gain_creators@.len() as int) == old(state).gain_creators@,
        final(state).gain_creators@.last().id == id,
        final(state).gain_creators@.last().name@.len() == 0,
        final(state).gain_creators@.last().description@.len() == 0,
        final(state).gain_creators@.last().notes@.len() == 0,
        !final(state).gain_creators@.last().expanded,
        final(state).pending_delete == old(state).pending_delete,
        final(state).selected_id == old(state).selected_id,
        final(state).scroll_to_id == old(state).scroll_to_id,
        id != 0,
        is_version_four(id),
{
    let id = new_random_id();
    assert(id != 0) by (bit_vector)
        requires
            id & 0xF000_C000_0000_0000_0000u128 == 0x4000_8000_0000_0000_0000u128,
    ;
    state.gain_creators.push(
        GainCreator {
            id,
            name: String::new(),
            description: String::new(),
            notes: String::new(),
            expanded: false,
        },
    );
    proof {
        assert(state.gain_creators@.take(old(state).gain_creators@.len() as int) =~= old(state).gain_creators@);
    }
    id
}

/// `items` merged into `v` positionally: `items` replace the first
/// `items.len()` elements, and any further elements of `v` stay.
pub open spec fn upserted<T>(v: Seq<T>, items: Seq<T>) -> Seq<T> {
    if items.len() <= v.len() {
        items + v.skip(items.len() as int)
    } else {
        items
    }
}

/// Merges `items` into `vec` positionally: overwrites index `i` if it exists,
/// otherwise pushes, so that reloading the same items does not duplicate them.
pub fn upsert_items<T>(vec: &mut Vec<T>, items: Vec<T>)
    ensures
        final(vec)@ == upserted(old(vec)@, items@),
{
    let ghost all = items@;
    let ghost start = vec@;
    let mut items = items;
    let n = items.len();
    assert(all.len() == n);
    let mut i: usize = 0;
    while items.len() > 0
        invariant
            i <= all.len(),
            all.len() <= usize::MAX,
            items@ == all.skip(i as int),
            vec@ == if i <= start.len() {
                all.take(i as int) + start.skip(i as int)
            } else {
                all.take(i as int)
            },
        decreases items@.len(),
    {
        let item = items.remove(0);
        proof {
            assert(item == all[i as int]);
            assert(items@ =~= all.skip(i + 1));
            assert(all.take(i + 1) == all.take(i as int).push(item));
        }
        if i < vec.len() {
            vec.set(i, item);
            proof {
                assert(vec@ =~= all.take(i + 1) + start.skip(i + 1));
            }
        } else {
            vec.push(item);
            proof {
                assert(vec@ =~= all.take(i + 1));
            }
        }
        i = i + 1;
    }
    proof {
        assert(all.take(all.len() as int) == all);
        if all.len() == start.len() {
            assert(start.skip(all.len() as int) =~= Seq::<T>::empty());
        }
    }
}

} // verus!
