use valens::demo::{load_demo_data, DEMO_FEATURE_1, DEMO_FEATURE_2, DEMO_FEATURE_3, DEMO_JOB_1, DEMO_JOB_2, DEMO_PAIN_1, DEMO_GAIN_2};
use valens::idset::partition_linked;
use valens::stories::{job_need_ids, stable_order_by_key};
use valens::demo::DEMO_PAIN_RELIEF_1;
use valens::{App, ValueAnnotation, ValueType};

#[test]
fn job_cards_list_linked_existing_needs() {
    let mut app = load_demo_data(App::default());
    let cs = &mut app.customer_segment_page;
    assert_eq!(job_need_ids(&cs.job_pain_links, DEMO_JOB_1, &cs.pains_state.pains), vec![DEMO_PAIN_1]);
    cs.job_pain_links.push((99, DEMO_JOB_1));
    assert_eq!(job_need_ids(&cs.job_pain_links, DEMO_JOB_1, &cs.pains_state.pains), vec![DEMO_PAIN_1]);
    assert_eq!(job_need_ids(&cs.job_gain_links, DEMO_JOB_2, &cs.gains_state.gains), vec![DEMO_GAIN_2]);
    assert!(job_need_ids(&cs.job_gain_links, 12345, &cs.gains_state.gains).is_empty());
}

#[test]
fn stable_order_puts_fewest_first_and_keeps_ties() {
    assert_eq!(stable_order_by_key(&vec![2, 0, 1, 0]), vec![1, 3, 2, 0]);
    assert_eq!(stable_order_by_key(&vec![]), Vec::<usize>::new());
    assert_eq!(stable_order_by_key(&vec![5, 5, 5]), vec![0, 1, 2]);
}

#[test]
fn partition_splits_linked_from_available() {
    let app = load_demo_data(App::default());
    let features = &app.valueprop_page.features_state.features;
    let (linked, available) = partition_linked(&vec![DEMO_FEATURE_3], features);
    assert_eq!(linked, vec![(DEMO_FEATURE_3, "Real-time fraud scoring".to_owned())]);
    assert_eq!(
        available,
        vec![
            (DEMO_FEATURE_1, "Unified payment API".to_owned()),
            (DEMO_FEATURE_2, "Automated KYC decisioning".to_owned()),
        ]
    );
}

#[test]
fn web_ring_lists_existing_solutions_once() {
    let mut app = load_demo_data(App::default());
    let vp = &mut app.valueprop_page;
    vp.pain_relief_annotations.push(ValueAnnotation {
        pain_or_gain_id: DEMO_PAIN_1,
        reliever_or_creator_id: 4242,
        value_type: ValueType::Differentiator,
        strength_bits: 0.3f32.to_bits(),
    });
    vp.pain_relief_annotations.push(vp.pain_relief_annotations[0]);
    let ring = valens::stories::web_solution_ids(&vp.pain_relief_annotations, &vec![DEMO_PAIN_1], &vp.pain_relief_state.pain_reliefs);
    assert_eq!(ring, vec![DEMO_PAIN_RELIEF_1]);
    assert!(valens::stories::web_solution_ids(&vp.pain_relief_annotations, &vec![], &vp.pain_relief_state.pain_reliefs).is_empty());
}
