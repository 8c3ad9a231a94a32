//! Overview page queries: which entities a hovered entity is connected to,
//! and the product–segment fit score.
//!
//! A fit score is the fraction of a segment's needs (the gains and pains of
//! its jobs) that a product addresses through its features. The library gives
//! it as the pair of counts `(addressed, total)`; the editor shows the
//! fraction.

use std::collections::{HashMap, HashSet};
use vstd::prelude::*;

use crate::graph::{
    annotation_edge_list, annotation_edges, build_directed_adj, chain_edges, reachable_from,
    reachable_list, reversed,
};
use crate::ids::EntityId;
use crate::idset::{count_common, extend_unique, image, image_of, preimage, preimage_of, to_hash_set};
use crate::model::{App, CustomerSegment, Product};

verus! {

broadcast use vstd::std_specs::hash::group_hash_axioms;

/// The VP-design fit of a product for a segment.
#[derive(Clone, Copy, Debug, PartialEq, Eq, Structural)]
pub enum FitScore {
    /// The segment has no gains or pains: there is nothing to measure.
    Undefined,
    /// `addressed` of the segment's `total` needs are covered by the product.
    Ratio { addressed: usize, total: usize },
}

/// What the overview highlights on hover: nothing, every connected entity
/// in full, or the opposite end by fit score.
#[derive(Clone, Copy, Debug, PartialEq, Eq, Structural)]
pub enum HighlightMode {
    Off,
    Binary,
    FitScore,
}

/// The mode the toolbar button switches to: off, binary, fit score, and
/// round again.
pub fn next_highlight_mode(m: HighlightMode) -> (r: HighlightMode)
    ensures
        r == match m {
            HighlightMode::Off => HighlightMode::Binary,
            HighlightMode::Binary => HighlightMode::FitScore,
            HighlightMode::FitScore => HighlightMode::Off,
        },
{
    match m {
        HighlightMode::Off => HighlightMode::Binary,
        HighlightMode::Binary => HighlightMode::FitScore,
        HighlightMode::FitScore => HighlightMode::Off,
    }
}

impl Default for HighlightMode {
    /// The overview starts in binary mode.
    fn default() -> (r: Self)
        ensures
            r == HighlightMode::Binary,
    {
        HighlightMode::Binary
    }
}

/// How strongly an entity is highlighted on the overview.
#[derive(Clone, Copy, Debug, PartialEq, Eq, Structural)]
pub enum Highlight {
    /// Connected to the hovered entity: full highlight.
    Linked,
    /// Highlighted in proportion to a fit score `addressed / total`.
    Fit { addressed: usize, total: usize },
}

/// The features linked to product `p`.
pub open spec fn product_features(app: &App, p: EntityId) -> Set<EntityId> {
    image(app.valueprop_page.product_feature_links@, set![p])
}

/// The gain creators reachable from product `p` through its features.
pub open spec fn product_gain_creators(app: &App, p: EntityId) -> Set<EntityId> {
    image(app.valueprop_page.feature_gain_creator_links@, product_features(app, p))
}

/// The pain reliefs reachable from product `p` through its features.
pub open spec fn product_pain_reliefs(app: &App, p: EntityId) -> Set<EntityId> {
    image(app.valueprop_page.feature_pain_relief_links@, product_features(app, p))
}

/// The gains annotated on the gain creators of product `p`.
pub open spec fn covered_gains(app: &App, p: EntityId) -> Set<EntityId> {
    image(annotation_edges(app.valueprop_page.gain_creator_annotations@), product_gain_creators(app, p))
}

/// The pains annotated on the pain reliefs of product `p`.
pub open spec fn covered_pains(app: &App, p: EntityId) -> Set<EntityId> {
    image(annotation_edges(app.valueprop_page.pain_relief_annotations@), product_pain_reliefs(app, p))
}

/// The jobs linked to segment `s`.
pub open spec fn segment_jobs(app: &App, s: EntityId) -> Set<EntityId> {
    preimage(app.customer_segment_page.segment_job_links@, set![s])
}

/// The gains linked to the jobs of segment `s`.
pub open spec fn segment_gains(app: &App, s: EntityId) -> Set<EntityId> {
    preimage(app.customer_segment_page.job_gain_links@, segment_jobs(app, s))
}

/// The pains linked to the jobs of segment `s`.
pub open spec fn segment_pains(app: &App, s: EntityId) -> Set<EntityId> {
    preimage(app.customer_segment_page.job_pain_links@, segment_jobs(app, s))
}

/// The fit of product `p` for segment `s`.
pub open spec fn spec_fit_score(app: &App, p: EntityId, s: EntityId) -> FitScore {
    let total = segment_gains(app, s).len() + segment_pains(app, s).len();
    if total == 0 {
        FitScore::Undefined
    } else {
        FitScore::Ratio {
            addressed: (covered_gains(app, p).intersect(segment_gains(app, s)).len()
                + covered_pains(app, p).intersect(segment_pains(app, s)).len()) as usize,
            total: total as usize,
        }
    }
}

/// The job-need link tables are small enough for their lengths to add up in a `usize`.
pub open spec fn need_tables_fit(app: &App) -> bool {
    app.customer_segment_page.job_gain_links@.len() + app.customer_segment_page.job_pain_links@.len()
        <= usize::MAX
}

/// The entities a path in either direction along the chain connects to `h`.
pub open spec fn connected(app: &App, h: EntityId) -> Set<EntityId> {
    reachable_from(chain_edges(app), h) + reachable_from(reversed(chain_edges(app)), h)
}

/// Every member of `s` with a full highlight.
pub open spec fn linked_scores(s: Set<EntityId>) -> Map<EntityId, Highlight> {
    Map::new(|x: EntityId| s.contains(x), |x: EntityId| Highlight::Linked)
}

/// One candidate's effect on the scores: no needs leaves the score alone, a
/// positive fit replaces it, a zero fit removes it.
pub open spec fn fit_step(m: Map<EntityId, Highlight>, c: (EntityId, FitScore)) -> Map<EntityId, Highlight> {
    match c.1 {
        FitScore::Undefined => m,
        FitScore::Ratio { addressed, total } => if addressed > 0 {
            m.insert(c.0, Highlight::Fit { addressed, total })
        } else {
            m.remove(c.0)
        },
    }
}

/// The candidates' effects applied in order.
pub open spec fn apply_fits(m: Map<EntityId, Highlight>, cs: Seq<(EntityId, FitScore)>) -> Map<EntityId, Highlight>
    decreases cs.len(),
{
    if cs.len() == 0 {
        m
    } else {
        fit_step(apply_fits(m, cs.drop_last()), cs.last())
    }
}

/// Some product has identifier `h`.
pub open spec fn is_product_id(app: &App, h: EntityId) -> bool {
    exists|i: int|
        0 <= i < app.valueprop_page.products_state.products@.len()
            && #[trigger] app.valueprop_page.products_state.products@[i].id == h
}

/// Some segment has identifier `h`.
pub open spec fn is_segment_id(app: &App, h: EntityId) -> bool {
    exists|i: int|
        0 <= i < app.customer_segment_page.segments_state.segments@.len()
            && #[trigger] app.customer_segment_page.segments_state.segments@[i].id == h
}

/// Each segment with the fit of product `p` for it.
pub open spec fn segment_fits(app: &App, p: EntityId) -> Seq<(EntityId, FitScore)> {
    app.customer_segment_page.segments_state.segments@.map_values(
        |s: CustomerSegment| (s.id, spec_fit_score(app, p, s.id)),
    )
}

/// Each product with its fit for segment `s`.
pub open spec fn product_fits(app: &App, s: EntityId) -> Seq<(EntityId, FitScore)> {
    app.valueprop_page.products_state.products@.map_values(
        |p: Product| (p.id, spec_fit_score(app, p.id, s)),
    )
}

/// The overview highlight in fit-score mode: everything connected to the
/// hovered entity, with the opposite column scored by fit when the hovered
/// entity is a product or a segment.
pub open spec fn spec_highlighted_scores(app: &App, hovered: Option<EntityId>) -> Map<EntityId, Highlight> {
    match hovered {
        None => Map::empty(),
        Some(h) => {
            let base = linked_scores(connected(app, h));
            if is_product_id(app, h) {
                apply_fits(base, segment_fits(app, h))
            } else if is_segment_id(app, h) {
                apply_fits(base, product_fits(app, h))
            } else {
                base
            }
        },
    }
}

/// The set of gain ids and pain ids reachable from a product via its features
/// → gain creators / pain reliefs → annotations.
pub fn product_covered_gains_pains(product_id: EntityId, app: &App) -> (r: (HashSet<EntityId>, HashSet<EntityId>))
    ensures
        r.0@ == covered_gains(app, product_id),
        r.1@ == covered_pains(app, product_id),
{
    let (gains, pains) = covered_lists(product_id, app);
    (to_hash_set(&gains), to_hash_set(&pains))
}

/// Covered gains and pains of a product as duplicate-free lists.
fn covered_lists(product_id: EntityId, app: &App) -> (r: (Vec<EntityId>, Vec<EntityId>))
    ensures
        r.0@.no_duplicates(),
        r.1@.no_duplicates(),
        r.0@.to_set() == covered_gains(app, product_id),
        r.1@.to_set() == covered_pains(app, product_id),
        r.0@.len() <= app.valueprop_page.gain_creator_annotations@.len(),
        r.1@.len() <= app.valueprop_page.pain_relief_annotations@.len(),
{
    let vp = &app.valueprop_page;
    let mut start: Vec<EntityId> = Vec::new();
    start.push(product_id);
    proof {
        assert(start@.to_set() =~= set![product_id]) by {
            broadcast use vstd::seq_lib::group_seq_properties;
        }
    }
    let features = image_of(&vp.product_feature_links, &start);
    let gain_creators = image_of(&vp.feature_gain_creator_links, &features);
    let pain_reliefs = image_of(&vp.feature_pain_relief_links, &features);
    let gain_edges = annotation_edge_list(&vp.gain_creator_annotations);
    let pain_edges = annotation_edge_list(&vp.pain_relief_annotations);
    let gains = image_of(&gain_edges, &gain_creators);
    let pains = image_of(&pain_edges, &pain_reliefs);
    (gains, pains)
}

/// The gain creators and pain reliefs a product reaches through its features.
pub fn product_solution_ids(product_id: EntityId, app: &App) -> (r: (HashSet<EntityId>, HashSet<EntityId>))
    ensures
        r.0@ == product_gain_creators(app, product_id),
        r.1@ == product_pain_reliefs(app, product_id),
{
    let vp = &app.valueprop_page;
    let mut start: Vec<EntityId> = Vec::new();
    start.push(product_id);
    proof {
        assert(start@.to_set() =~= set![product_id]) by {
            broadcast use vstd::seq_lib::group_seq_properties;
        }
    }
    let features = image_of(&vp.product_feature_links, &start);
    let gain_creators = image_of(&vp.feature_gain_creator_links, &features);
    let pain_reliefs = image_of(&vp.feature_pain_relief_links, &features);
    (to_hash_set(&gain_creators), to_hash_set(&pain_reliefs))
}

/// The set of gain ids and pain ids linked to a segment's jobs.
pub fn segment_needs(segment_id: EntityId, app: &App) -> (r: (HashSet<EntityId>, HashSet<EntityId>))
    ensures
        r.0@ == segment_gains(app, segment_id),
        r.1@ == segment_pains(app, segment_id),
{
    let (gains, pains) = segment_need_lists(segment_id, app);
    (to_hash_set(&gains), to_hash_set(&pains))
}

/// Segment gains and pains as duplicate-free lists.
fn segment_need_lists(segment_id: EntityId, app: &App) -> (r: (Vec<EntityId>, Vec<EntityId>))
    ensures
        r.0@.no_duplicates(),
        r.1@.no_duplicates(),
        r.0@.to_set() == segment_gains(app, segment_id),
        r.1@.to_set() == segment_pains(app, segment_id),
        r.0@.len() <= app.customer_segment_page.job_gain_links@.len(),
        r.1@.len() <= app.customer_segment_page.job_pain_links@.len(),
{
    let cs = &app.customer_segment_page;
    let mut seg: Vec<EntityId> = Vec::new();
    seg.push(segment_id);
    proof {
        assert(seg@.to_set() =~= set![segment_id]) by {
            broadcast use vstd::seq_lib::group_seq_properties;
        }
    }
    let jobs = preimage_of(&cs.segment_job_links, &seg);
    let gains = preimage_of(&cs.job_gain_links, &jobs);
    let pains = preimage_of(&cs.job_pain_links, &jobs);
    (gains, pains)
}

/// VP-design fit score: how many of a segment's needs a product addresses,
/// out of how many; `Undefined` when the segment has no needs.
pub fn fit_score(product_id: EntityId, segment_id: EntityId, app: &App) -> (r: FitScore)
    requires
        need_tables_fit(app),
    ensures
        r == spec_fit_score(app, product_id, segment_id),
{
    let (prod_gains, prod_pains) = covered_lists(product_id, app);
    let (seg_gains, seg_pains) = segment_need_lists(segment_id, app);
    proof {
        seg_gains@.unique_seq_to_set();
        seg_pains@.unique_seq_to_set();
    }
    let total = seg_gains.len() + seg_pains.len();
    if total == 0 {
        return FitScore::Undefined;
    }
    let g = count_common(&seg_gains, &prod_gains);
    let p = count_common(&seg_pains, &prod_pains);
    proof {
        assert(seg_gains@.to_set().intersect(prod_gains@.to_set()) =~= covered_gains(app, product_id).intersect(segment_gains(app, segment_id)));
        assert(seg_pains@.to_set().intersect(prod_pains@.to_set()) =~= covered_pains(app, product_id).intersect(segment_pains(app, segment_id)));
    }
    FitScore::Ratio { addressed: g + p, total }
}

/// Applies each candidate's fit in order: no needs keeps the existing score,
/// a positive fit replaces it, a zero fit removes the candidate.
pub fn apply_fit_scores(scores: &mut HashMap<EntityId, Highlight>, fits: &Vec<(EntityId, FitScore)>)
    ensures
        final(scores)@ == apply_fits(old(scores)@, fits@),
{
    let ghost m0 = scores@;
    let mut i: usize = 0;
    while i < fits.len()
        invariant
            i <= fits@.len(),
            scores@ == apply_fits(m0, fits@.take(i as int)),
        decreases fits@.len() - i,
    {
        let (id, s) = fits[i];
        proof {
            assert(fits@.take(i + 1).drop_last() == fits@.take(i as int));
            assert(fits@.take(i + 1).last() == (id, s));
        }
        match s {
            FitScore::Undefined => {},
            FitScore::Ratio { addressed, total } => {
                if addressed > 0 {
                    scores.insert(id, Highlight::Fit { addressed, total });
                } else {
                    scores.remove(&id);
                    proof {
                        assert(scores@ =~= apply_fits(m0, fits@.take(i as int)).remove(id));
                    }
                }
            },
        }
        i = i + 1;
    }
    proof {
        assert(fits@.take(fits@.len() as int) == fits@);
    }
}

/// The entities connected to `h`, each once.
fn connected_list(h: EntityId, app: &App) -> (r: Vec<EntityId>)
    ensures
        r@.no_duplicates(),
        r@.to_set() == connected(app, h),
{
    let (fwd, bwd) = build_directed_adj(app);
    let mut r = reachable_list(h, &fwd);
    let back = reachable_list(h, &bwd);
    extend_unique(&mut r, &back);
    r
}

/// Every member of `ids` with a full highlight.
fn linked_map(ids: &Vec<EntityId>) -> (r: HashMap<EntityId, Highlight>)
    ensures
        r@ == linked_scores(ids@.to_set()),
{
    let mut r: HashMap<EntityId, Highlight> = HashMap::new();
    let mut i: usize = 0;
    proof {
        assert(r@ =~= linked_scores(ids@.take(0).to_set()));
    }
    while i < ids.len()
        invariant
            i <= ids@.len(),
            r@ == linked_scores(ids@.take(i as int).to_set()),
        decreases ids@.len() - i,
    {
        r.insert(ids[i], Highlight::Linked);
        proof {
            assert(ids@.take(i + 1) == ids@.take(i as int).push(ids@[i as int]));
            ids@.take(i as int).lemma_push_to_set_commute(ids@[i as int]);
            assert(r@ =~= linked_scores(ids@.take(i + 1).to_set()));
        }
        i = i + 1;
    }
    proof {
        assert(ids@.take(ids@.len() as int) == ids@);
    }
    r
}

/// Whether some product has identifier `h`.
fn has_product(app: &App, h: EntityId) -> (r: bool)
    ensures
        r == is_product_id(app, h),
{
    let products = &app.valueprop_page.products_state.products;
    let mut i: usize = 0;
    while i < products.len()
        invariant
            i <= products@.len(),
            products == &app.valueprop_page.products_state.products,
            forall|k: int| 0 <= k < i ==> products@[k].id != h,
        decreases products@.len() - i,
    {
        if products[i].id == h {
            assert(app.valueprop_page.products_state.products@[i as int].id == h);
            return true;
        }
        i = i + 1;
    }
    false
}

/// Whether some segment has identifier `h`.
fn has_segment(app: &App, h: EntityId) -> (r: bool)
    ensures
        r == is_segment_id(app, h),
{
    let segments = &app.customer_segment_page.segments_state.segments;
    let mut i: usize = 0;
    while i < segments.len()
        invariant
            i <= segments@.len(),
            segments == &app.customer_segment_page.segments_state.segments,
            forall|k: int| 0 <= k < i ==> segments@[k].id != h,
        decreases segments@.len() - i,
    {
        if segments[i].id == h {
            assert(app.customer_segment_page.segments_state.segments@[i as int].id == h);
            return true;
        }
        i = i + 1;
    }
    false
}

/// Returns a score map: every entity connected to the hovered one is fully
/// highlighted, but when hovering a product or a segment the opposite column
/// is scored by fit.
pub fn highlighted_scores(hovered: Option<EntityId>, app: &App) -> (r: HashMap<EntityId, Highlight>)
    requires
        need_tables_fit(app),
    ensures
        r@ == spec_highlighted_scores(app, hovered),
{
    let start = match hovered {
        None => {
            return HashMap::new();
        },
        Some(h) => h,
    };
    let ids = connected_list(start, app);
    let mut scores = linked_map(&ids);
    if has_product(app, start) {
        let segments = &app.customer_segment_page.segments_state.segments;
        let mut fits: Vec<(EntityId, FitScore)> = Vec::new();
        let mut i: usize = 0;
        while i < segments.len()
            invariant
                need_tables_fit(app),
                i <= segments@.len(),
                segments == &app.customer_segment_page.segments_state.segments,
                fits@ == segment_fits(app, start).take(i as int),
            decreases segments@.len() - i,
        {
            let sid = segments[i].id;
            fits.push((sid, fit_score(start, sid, app)));
            proof {
                assert(fits@ =~= segment_fits(app, start).take(i + 1));
            }
            i = i + 1;
        }
        proof {
            assert(segment_fits(app, start).take(segments@.len() as int) =~= segment_fits(app, start));
        }
        apply_fit_scores(&mut scores, &fits);
    } else if has_segment(app, start) {
        let products = &app.valueprop_page.products_state.products;
        let mut fits: Vec<(EntityId, FitScore)> = Vec::new();
        let mut i: usize = 0;
        while i < products.len()
            invariant
                need_tables_fit(app),
                i <= products@.len(),
                products == &app.valueprop_page.products_state.products,
                fits@ == product_fits(app, start).take(i as int),
            decreases products@.len() - i,
        {
            let pid = products[i].id;
            fits.push((pid, fit_score(pid, start, app)));
            proof {
                assert(fits@ =~= product_fits(app, start).take(i + 1));
            }
            i = i + 1;
        }
        proof {
            assert(product_fits(app, start).take(products@.len() as int) =~= product_fits(app, start));
        }
        apply_fit_scores(&mut scores, &fits);
    }
    scores
}

/// The binary highlight: every entity connected to the hovered one, fully.
pub fn binary_scores(hovered: Option<EntityId>, app: &App) -> (r: HashMap<EntityId, Highlight>)
    ensures
        r@ == match hovered {
            None => Map::empty(),
            Some(h) => linked_scores(connected(app, h)),
        },
{
    match hovered {
        None => HashMap::new(),
        Some(start) => {
            let ids = connected_list(start, app);
            linked_map(&ids)
        },
    }
}

/// The intermediate entities that the visible products reach forward or the
/// visible segments reach backward.
pub open spec fn visible_middle(
    hidden_products: Set<EntityId>,
    hidden_segments: Set<EntityId>,
    app: &App,
) -> Set<EntityId> {
    let products = app.valueprop_page.products_state.products@;
    let segments = app.customer_segment_page.segments_state.segments@;
    Set::new(
        |x: EntityId|
            (exists|i: int|
                0 <= i < products.len() && !hidden_products.contains(#[trigger] products[i].id)
                    && reachable_from(chain_edges(app), products[i].id).contains(x)) || (exists|
                j: int,
            |
                0 <= j < segments.len() && !hidden_segments.contains(#[trigger] segments[j].id)
                    && reachable_from(reversed(chain_edges(app)), segments[j].id).contains(x)),
    )
}

/// Computes which intermediate entities are reachable from the visible
/// (non-hidden) products and segments; `None` when no filter is active.
pub fn compute_visible_middle(
    hidden_products: &HashSet<EntityId>,
    hidden_segments: &HashSet<EntityId>,
    app: &App,
) -> (r: Option<HashSet<EntityId>>)
    ensures
        match r {
            None => hidden_products@.is_empty() && hidden_segments@.is_empty(),
            Some(v) => !(hidden_products@.is_empty() && hidden_segments@.is_empty()) && v@
                == visible_middle(hidden_products@, hidden_segments@, app),
        },
{
    if hidden_products.is_empty() && hidden_segments.is_empty() {
        return None;
    }
    let (fwd, bwd) = build_directed_adj(app);
    let products = &app.valueprop_page.products_state.products;
    let segments = &app.customer_segment_page.segments_state.segments;
    let ghost hp = hidden_products@;
    let ghost hs = hidden_segments@;
    let ghost fwd_e = chain_edges(app);
    let ghost bwd_e = reversed(chain_edges(app));
    let mut visible: Vec<EntityId> = Vec::new();
    let mut i: usize = 0;
    while i < products.len()
        invariant
            i <= products@.len(),
            products == &app.valueprop_page.products_state.products,
            fwd.edges@ == fwd_e,
            hidden_products@ == hp,
            visible@.no_duplicates(),
            visible@.to_set() == Set::new(
                |x: EntityId|
                    exists|k: int|
                        0 <= k < i && !hp.contains(#[trigger] products@[k].id) && reachable_from(
                            fwd_e,
                            products@[k].id,
                        ).contains(x),
            ),
        decreases products@.len() - i,
    {
        let ghost before = visible@.to_set();
        let pid = products[i].id;
        if !hidden_products.contains(&pid) {
            let reach = reachable_list(pid, &fwd);
            extend_unique(&mut visible, &reach);
        }
        proof {
            assert(visible@.to_set() =~= Set::new(
                |x: EntityId|
                    exists|k: int|
                        0 <= k < i + 1 && !hp.contains(#[trigger] products@[k].id) && reachable_from(
                            fwd_e,
                            products@[k].id,
                        ).contains(x),
            )) by {
                assert forall|x: EntityId| visible@.to_set().contains(x) implies exists|k: int|
                    0 <= k < i + 1 && !hp.contains(#[trigger] products@[k].id) && reachable_from(
                        fwd_e,
                        products@[k].id,
                    ).contains(x) by {
                    if !before.contains(x) {
                        assert(products@[i as int].id == pid);
                    }
                }
            }
        }
        i = i + 1;
    }
    let ghost after_products = visible@.to_set();
    let mut j: usize = 0;
    while j < segments.len()
        invariant
            j <= segments@.len(),
            segments == &app.customer_segment_page.segments_state.segments,
            bwd.edges@ == bwd_e,
            hidden_segments@ == hs,
            visible@.no_duplicates(),
            visible@.to_set() == after_products + Set::new(
                |x: EntityId|
                    exists|k: int|
                        0 <= k < j && !hs.contains(#[trigger] segments@[k].id) && reachable_from(
                            bwd_e,
                            segments@[k].id,
                        ).contains(x),
            ),
        decreases segments@.len() - j,
    {
        let ghost before = visible@.to_set();
        let sid = segments[j].id;
        if !hidden_segments.contains(&sid) {
            let reach = reachable_list(sid, &bwd);
            extend_unique(&mut visible, &reach);
        }
        proof {
            assert(visible@.to_set() =~= after_products + Set::new(
                |x: EntityId|
                    exists|k: int|
                        0 <= k < j + 1 && !hs.contains(#[trigger] segments@[k].id) && reachable_from(
                            bwd_e,
                            segments@[k].id,
                        ).contains(x),
            )) by {
                assert forall|x: EntityId| visible@.to_set().contains(x) && !after_products.contains(x) implies exists|k: int|
                    0 <= k < j + 1 && !hs.contains(#[trigger] segments@[k].id) && reachable_from(
                        bwd_e,
                        segments@[k].id,
                    ).contains(x) by {
                    if !before.contains(x) {
                        assert(segments@[j as int].id == sid);
                    }
                }
            }
        }
        j = j + 1;
    }
    let r = to_hash_set(&visible);
    proof {
        assert(r@ =~= visible_middle(hp, hs, app));
    }
    Some(r)
}

} // verus!
