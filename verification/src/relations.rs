//! Hover highlighting on the value-proposition page and in the flow diagram
//! of the entity-relationships window.

use std::collections::HashSet;
use vstd::prelude::*;

use crate::graph::{annotation_edge_list, annotation_edges, reverse_links, reversed};
use crate::ids::EntityId;
use crate::idset::{extend_unique, image, image_of, preimage, preimage_of, to_hash_set};
use crate::model::App;

verus! {

broadcast use vstd::std_specs::hash::group_hash_axioms;

/// The entities linked, directly or through features, to the hovered one on
/// the value-proposition page:
/// - a product: the gain creators and pain reliefs of its features;
/// - a gain creator: the products of its features;
/// - a pain relief: the products of its features.
pub open spec fn spec_highlighted_ids(app: &App, hovered: Option<EntityId>) -> Set<EntityId> {
    let vp = app.valueprop_page;
    match hovered {
        None => Set::empty(),
        Some(h) => {
            let features_of_product = image(vp.product_feature_links@, set![h]);
            image(vp.feature_gain_creator_links@, features_of_product) + image(
                vp.feature_pain_relief_links@,
                features_of_product,
            ) + preimage(
                vp.product_feature_links@,
                preimage(vp.feature_gain_creator_links@, set![h]),
            ) + preimage(vp.product_feature_links@, preimage(vp.feature_pain_relief_links@, set![h]))
        },
    }
}

/// Computes the set of entity ids to highlight because they are linked
/// (directly or via features) to the hovered entity. Features are an
/// invisible intermediate layer on this page: every link flows through them.
pub fn highlighted_ids(hovered: Option<EntityId>, app: &App) -> (r: HashSet<EntityId>)
    ensures
        r@ == spec_highlighted_ids(app, hovered),
{
    let hovered_id = match hovered {
        None => {
            return HashSet::new();
        },
        Some(h) => h,
    };
    let vp = &app.valueprop_page;
    let mut start: Vec<EntityId> = Vec::new();
    start.push(hovered_id);
    proof {
        assert(start@.to_set() =~= set![hovered_id]) by {
            broadcast use vstd::seq_lib::group_seq_properties;
        }
    }
    let mut result: Vec<EntityId> = Vec::new();
    // Hovered product: forward through its features.
    let features_of_product = image_of(&vp.product_feature_links, &start);
    extend_unique(&mut result, &image_of(&vp.feature_gain_creator_links, &features_of_product));
    extend_unique(&mut result, &image_of(&vp.feature_pain_relief_links, &features_of_product));
    // Hovered gain creator: backward through its features to the products.
    let features_of_gain_creator = preimage_of(&vp.feature_gain_creator_links, &start);
    extend_unique(&mut result, &preimage_of(&vp.product_feature_links, &features_of_gain_creator));
    // Hovered pain relief: backward through its features to the products.
    let features_of_pain_relief = preimage_of(&vp.feature_pain_relief_links, &start);
    extend_unique(&mut result, &preimage_of(&vp.product_feature_links, &features_of_pain_relief));
    let r = to_hash_set(&result);
    proof {
        assert(r@ =~= spec_highlighted_ids(app, hovered));
    }
    r
}

/// For each annotation, the edge from the need to the solution.
pub open spec fn need_solution_edges(app_anns: Seq<crate::model::ValueAnnotation>) -> Seq<crate::model::Link> {
    reversed(annotation_edges(app_anns))
}

/// The entities the flow diagram connects to the hovered one, whichever
/// column it sits in:
/// - a job: its pains and gains, and the solutions annotated on them;
/// - a need: its jobs and the solutions annotated on it;
/// - a solution: the needs it is annotated on, and their jobs.
pub open spec fn spec_flow_connected(app: &App, hovered: Option<EntityId>) -> Set<EntityId> {
    let vp = app.valueprop_page;
    let cs = app.customer_segment_page;
    let pr_edges = need_solution_edges(vp.pain_relief_annotations@);
    let gc_edges = need_solution_edges(vp.gain_creator_annotations@);
    match hovered {
        None => Set::empty(),
        Some(h) => {
            let pains_of_job = preimage(cs.job_pain_links@, set![h]);
            let gains_of_job = preimage(cs.job_gain_links@, set![h]);
            let pains_of_solution = preimage(pr_edges, set![h]);
            let gains_of_solution = preimage(gc_edges, set![h]);
            // hovered job
            pains_of_job + gains_of_job + image(pr_edges, pains_of_job) + image(gc_edges, gains_of_job)
            // hovered need
             + image(cs.job_pain_links@, set![h]) + image(cs.job_gain_links@, set![h]) + image(
                pr_edges,
                set![h],
            ) + image(gc_edges, set![h])
            // hovered solution
             + pains_of_solution + image(cs.job_pain_links@, pains_of_solution) + gains_of_solution
                + image(cs.job_gain_links@, gains_of_solution)
        },
    }
}

/// Computes the set of entity ids connected to the hovered one across all
/// flow links.
pub fn build_flow_connected(hovered: Option<EntityId>, app: &App) -> (r: HashSet<EntityId>)
    ensures
        r@ == spec_flow_connected(app, hovered),
{
    let hid = match hovered {
        None => {
            return HashSet::new();
        },
        Some(h) => h,
    };
    let cs = &app.customer_segment_page;
    let vp = &app.valueprop_page;
    let mut start: Vec<EntityId> = Vec::new();
    start.push(hid);
    proof {
        assert(start@.to_set() =~= set![hid]) by {
            broadcast use vstd::seq_lib::group_seq_properties;
        }
    }
    let pr_edges = reverse_links(&annotation_edge_list(&vp.pain_relief_annotations));
    let gc_edges = reverse_links(&annotation_edge_list(&vp.gain_creator_annotations));
    let mut set: Vec<EntityId> = Vec::new();
    // Hovered job: its needs, then the solutions of those needs.
    let pain_ids_of_job = preimage_of(&cs.job_pain_links, &start);
    let gain_ids_of_job = preimage_of(&cs.job_gain_links, &start);
    extend_unique(&mut set, &pain_ids_of_job);
    extend_unique(&mut set, &gain_ids_of_job);
    extend_unique(&mut set, &image_of(&pr_edges, &pain_ids_of_job));
    extend_unique(&mut set, &image_of(&gc_edges, &gain_ids_of_job));
    // Hovered need: its jobs and solutions.
    extend_unique(&mut set, &image_of(&cs.job_pain_links, &start));
    extend_unique(&mut set, &image_of(&cs.job_gain_links, &start));
    extend_unique(&mut set, &image_of(&pr_edges, &start));
    extend_unique(&mut set, &image_of(&gc_edges, &start));
    // Hovered solution: its needs and their jobs.
    let pains_of_solution = preimage_of(&pr_edges, &start);
    extend_unique(&mut set, &pains_of_solution);
    extend_unique(&mut set, &image_of(&cs.job_pain_links, &pains_of_solution));
    let gains_of_solution = preimage_of(&gc_edges, &start);
    extend_unique(&mut set, &gains_of_solution);
    extend_unique(&mut set, &image_of(&cs.job_gain_links, &gains_of_solution));
    let r = to_hash_set(&set);
    proof {
        assert(r@ =~= spec_flow_connected(app, hovered));
    }
    r
}

} // verus!
