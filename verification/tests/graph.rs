use std::collections::HashSet;

use valens::demo::{
    load_demo_data, DEMO_FEATURE_1, DEMO_FEATURE_2, DEMO_FEATURE_3, DEMO_GAIN_1, DEMO_GAIN_2,
    DEMO_GAIN_3, DEMO_GAIN_CREATOR_1, DEMO_GAIN_CREATOR_2, DEMO_GAIN_CREATOR_3, DEMO_JOB_1,
    DEMO_JOB_2, DEMO_JOB_3, DEMO_PAIN_1, DEMO_PAIN_2, DEMO_PAIN_3, DEMO_PAIN_RELIEF_1,
    DEMO_PAIN_RELIEF_2, DEMO_PAIN_RELIEF_3, DEMO_PRODUCT_1, DEMO_PRODUCT_2, DEMO_SEGMENT_1,
    DEMO_SEGMENT_2,
};
use valens::graph::{annotation_edge_list, bfs, build_directed_adj, reachable_list, reverse_links, Adjacency};
use valens::overview::{
    next_highlight_mode, HighlightMode,
    apply_fit_scores, binary_scores, compute_visible_middle, fit_score, highlighted_scores,
    product_covered_gains_pains, segment_needs, FitScore, Highlight,
};
use valens::relations::{build_flow_connected, highlighted_ids};
use valens::{App, CustomerSegment};

fn demo() -> App {
    load_demo_data(App::default())
}

fn set(ids: &[u128]) -> HashSet<u128> {
    ids.iter().copied().collect()
}

#[test]
fn adjacency_follows_the_chain_and_its_reverse() {
    let app = demo();
    let (fwd, bwd) = build_directed_adj(&app);
    assert_eq!(fwd.edges.len(), 4 + 3 + 3 + 3 + 3 + 3 + 3 + 5);
    assert_eq!(fwd.edges[0], (DEMO_PRODUCT_1, DEMO_FEATURE_1));
    assert_eq!(bwd.edges[0], (DEMO_FEATURE_1, DEMO_PRODUCT_1));
    assert!(fwd.edges.contains(&(DEMO_GAIN_CREATOR_1, DEMO_GAIN_1)));
    assert!(fwd.edges.contains(&(DEMO_JOB_2, DEMO_SEGMENT_2)));
    assert!(!fwd.edges.contains(&(DEMO_SEGMENT_2, DEMO_JOB_2)));
    assert!(bwd.edges.contains(&(DEMO_SEGMENT_2, DEMO_JOB_2)));
}

#[test]
fn bfs_reaches_everything_downstream_of_a_product() {
    let app = demo();
    let (fwd, _) = build_directed_adj(&app);
    let reached = bfs(DEMO_PRODUCT_1, &fwd);
    assert_eq!(
        reached,
        set(&[
            DEMO_FEATURE_1, DEMO_FEATURE_3, DEMO_GAIN_CREATOR_1, DEMO_GAIN_CREATOR_3,
            DEMO_PAIN_RELIEF_1, DEMO_PAIN_RELIEF_3, DEMO_GAIN_1, DEMO_GAIN_3, DEMO_PAIN_1,
            DEMO_PAIN_3, DEMO_JOB_1, DEMO_JOB_3, DEMO_SEGMENT_1, DEMO_SEGMENT_2,
        ])
    );
    assert!(!reached.contains(&DEMO_PRODUCT_1));
}

#[test]
fn bfs_backward_from_a_segment() {
    let app = demo();
    let (_, bwd) = build_directed_adj(&app);
    let reached = bfs(DEMO_SEGMENT_2, &bwd);
    assert_eq!(reached.len(), 14);
    assert!(reached.contains(&DEMO_PRODUCT_1));
    assert!(reached.contains(&DEMO_PRODUCT_2));
    assert!(!reached.contains(&DEMO_JOB_1));
    assert!(!reached.contains(&DEMO_SEGMENT_1));
}

#[test]
fn reachable_list_is_breadth_first_and_handles_cycles() {
    let adj = Adjacency { edges: vec![(1, 2), (2, 3), (3, 1), (1, 4), (4, 4)] };
    assert_eq!(reachable_list(1, &adj), vec![2, 4, 3]);
    assert_eq!(reachable_list(9, &adj), Vec::<u128>::new());
}

#[test]
fn reversing_and_annotation_edges() {
    assert_eq!(reverse_links(&vec![(1, 2), (3, 4)]), vec![(2, 1), (4, 3)]);
    let app = demo();
    let edges = annotation_edge_list(&app.valueprop_page.pain_relief_annotations);
    assert_eq!(edges[0], (DEMO_PAIN_RELIEF_1, DEMO_PAIN_1));
}

#[test]
fn fit_scores_of_the_demo() {
    let app = demo();
    assert_eq!(fit_score(DEMO_PRODUCT_1, DEMO_SEGMENT_1, &app), FitScore::Ratio { addressed: 4, total: 6 });
    assert_eq!(fit_score(DEMO_PRODUCT_2, DEMO_SEGMENT_2, &app), FitScore::Ratio { addressed: 4, total: 4 });
    assert_eq!(fit_score(DEMO_PRODUCT_1, DEMO_SEGMENT_2, &app), FitScore::Ratio { addressed: 2, total: 4 });
}

#[test]
fn fit_score_of_segment_without_needs_is_undefined() {
    let mut app = demo();
    app.customer_segment_page.segments_state.segments.push(CustomerSegment {
        id: 77,
        name: "Empty".to_owned(),
        description: String::new(),
        notes: String::new(),
        characteristics: String::new(),
        parent_id: None,
        expanded: false,
    });
    assert_eq!(fit_score(DEMO_PRODUCT_1, 77, &app), FitScore::Undefined);
}

#[test]
fn covered_needs_and_segment_needs() {
    let app = demo();
    let (gains, pains) = product_covered_gains_pains(DEMO_PRODUCT_2, &app);
    assert_eq!(gains, set(&[DEMO_GAIN_2, DEMO_GAIN_3]));
    assert_eq!(pains, set(&[DEMO_PAIN_2, DEMO_PAIN_3]));
    let (gains, pains) = segment_needs(DEMO_SEGMENT_2, &app);
    assert_eq!(gains, set(&[DEMO_GAIN_2, DEMO_GAIN_3]));
    assert_eq!(pains, set(&[DEMO_PAIN_2, DEMO_PAIN_3]));
}

#[test]
fn highlight_scores_use_fit_for_the_opposite_column() {
    let app = demo();
    let scores = highlighted_scores(Some(DEMO_PRODUCT_1), &app);
    assert_eq!(scores.len(), 14);
    assert_eq!(scores.get(&DEMO_SEGMENT_1), Some(&Highlight::Fit { addressed: 4, total: 6 }));
    assert_eq!(scores.get(&DEMO_SEGMENT_2), Some(&Highlight::Fit { addressed: 2, total: 4 }));
    assert_eq!(scores.get(&DEMO_FEATURE_1), Some(&Highlight::Linked));
    assert!(highlighted_scores(None, &app).is_empty());
    let binary = binary_scores(Some(DEMO_PRODUCT_1), &app);
    assert_eq!(binary.get(&DEMO_SEGMENT_1), Some(&Highlight::Linked));
    assert_eq!(binary.len(), 14);
}

#[test]
fn hovering_a_segment_scores_products() {
    let app = demo();
    let scores = highlighted_scores(Some(DEMO_SEGMENT_2), &app);
    assert_eq!(scores.get(&DEMO_PRODUCT_2), Some(&Highlight::Fit { addressed: 4, total: 4 }));
    assert_eq!(scores.get(&DEMO_PRODUCT_1), Some(&Highlight::Fit { addressed: 2, total: 4 }));
}

#[test]
fn zero_fit_removes_and_undefined_keeps() {
    let mut scores = std::collections::HashMap::new();
    scores.insert(1u128, Highlight::Linked);
    scores.insert(2u128, Highlight::Linked);
    apply_fit_scores(
        &mut scores,
        &vec![(1, FitScore::Ratio { addressed: 0, total: 3 }), (2, FitScore::Undefined), (3, FitScore::Ratio { addressed: 1, total: 2 })],
    );
    assert_eq!(scores.get(&1), None);
    assert_eq!(scores.get(&2), Some(&Highlight::Linked));
    assert_eq!(scores.get(&3), Some(&Highlight::Fit { addressed: 1, total: 2 }));
}

#[test]
fn visible_middle_follows_the_unhidden_ends() {
    let app = demo();
    assert!(compute_visible_middle(&HashSet::new(), &HashSet::new(), &app).is_none());
    let hidden_products = set(&[DEMO_PRODUCT_2]);
    let hidden_segments = set(&[DEMO_SEGMENT_1, DEMO_SEGMENT_2]);
    let visible = compute_visible_middle(&hidden_products, &hidden_segments, &app).unwrap();
    assert!(visible.contains(&DEMO_FEATURE_1));
    assert!(visible.contains(&DEMO_GAIN_CREATOR_3));
    assert!(!visible.contains(&DEMO_FEATURE_2));
    assert!(!visible.contains(&DEMO_PAIN_2));
    assert!(!visible.contains(&DEMO_JOB_2));
}

#[test]
fn value_prop_highlight_goes_through_features_both_ways() {
    let app = demo();
    assert_eq!(
        highlighted_ids(Some(DEMO_PRODUCT_1), &app),
        set(&[DEMO_GAIN_CREATOR_1, DEMO_GAIN_CREATOR_3, DEMO_PAIN_RELIEF_1, DEMO_PAIN_RELIEF_3])
    );
    assert_eq!(highlighted_ids(Some(DEMO_GAIN_CREATOR_3), &app), set(&[DEMO_PRODUCT_1, DEMO_PRODUCT_2]));
    assert_eq!(highlighted_ids(Some(DEMO_PAIN_RELIEF_2), &app), set(&[DEMO_PRODUCT_2]));
    assert!(highlighted_ids(None, &app).is_empty());
}

#[test]
fn flow_highlight_by_column() {
    let app = demo();
    assert_eq!(
        build_flow_connected(Some(DEMO_JOB_1), &app),
        set(&[DEMO_PAIN_1, DEMO_GAIN_1, DEMO_PAIN_RELIEF_1, DEMO_GAIN_CREATOR_1])
    );
    assert_eq!(build_flow_connected(Some(DEMO_PAIN_2), &app), set(&[DEMO_JOB_2, DEMO_PAIN_RELIEF_2]));
    assert_eq!(build_flow_connected(Some(DEMO_PAIN_RELIEF_3), &app), set(&[DEMO_PAIN_3, DEMO_JOB_3]));
    assert!(build_flow_connected(None, &app).is_empty());
}

#[test]
fn hover_highlights_are_symmetric_on_the_demo() {
    let app = demo();
    let all = [
        DEMO_PRODUCT_1, DEMO_PRODUCT_2, DEMO_FEATURE_1, DEMO_FEATURE_2, DEMO_FEATURE_3,
        DEMO_GAIN_CREATOR_1, DEMO_GAIN_CREATOR_2, DEMO_GAIN_CREATOR_3, DEMO_PAIN_RELIEF_1,
        DEMO_PAIN_RELIEF_2, DEMO_PAIN_RELIEF_3, DEMO_GAIN_1, DEMO_GAIN_2, DEMO_GAIN_3,
        DEMO_PAIN_1, DEMO_PAIN_2, DEMO_PAIN_3, DEMO_JOB_1, DEMO_JOB_2, DEMO_JOB_3,
        DEMO_SEGMENT_1, DEMO_SEGMENT_2,
    ];
    for &a in &all {
        let from_a = binary_scores(Some(a), &app);
        let vp_a = highlighted_ids(Some(a), &app);
        let flow_a = build_flow_connected(Some(a), &app);
        for &b in &all {
            let from_b = binary_scores(Some(b), &app);
            assert_eq!(from_a.contains_key(&b), from_b.contains_key(&a));
            assert_eq!(vp_a.contains(&b), highlighted_ids(Some(b), &app).contains(&a));
            assert_eq!(flow_a.contains(&b), build_flow_connected(Some(b), &app).contains(&a));
        }
    }
}

#[test]
fn highlight_mode_cycles_from_binary() {
    let start = HighlightMode::default();
    assert_eq!(start, HighlightMode::Binary);
    assert_eq!(next_highlight_mode(start), HighlightMode::FitScore);
    assert_eq!(next_highlight_mode(HighlightMode::FitScore), HighlightMode::Off);
    assert_eq!(next_highlight_mode(HighlightMode::Off), HighlightMode::Binary);
}

#[test]
fn product_solutions_through_features() {
    let app = demo();
    let (gcs, prs) = valens::overview::product_solution_ids(DEMO_PRODUCT_1, &app);
    assert_eq!(gcs, set(&[DEMO_GAIN_CREATOR_1, DEMO_GAIN_CREATOR_3]));
    assert_eq!(prs, set(&[DEMO_PAIN_RELIEF_1, DEMO_PAIN_RELIEF_3]));
}

#[test]
fn fit_mode_equals_binary_off_the_ends() {
    let app = demo();
    for h in [DEMO_FEATURE_2, DEMO_JOB_3, DEMO_GAIN_1, 999] {
        assert_eq!(highlighted_scores(Some(h), &app), binary_scores(Some(h), &app));
    }
}
