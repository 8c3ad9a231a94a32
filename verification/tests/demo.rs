use valens::demo::{
    demo_data, load_demo_data, merge_demo_data, DEMO_FEATURE_1, DEMO_FEATURE_3, DEMO_GAIN_3,
    DEMO_GAIN_CREATOR_3, DEMO_PAIN_1, DEMO_PAIN_RELIEF_1, DEMO_PRODUCT_1, DEMO_SEGMENT_2,
};
use valens::{App, Product, Tab, ValueType};

#[test]
fn demo_data_into_fresh_state() {
    let app = load_demo_data(App::default());
    assert_eq!(app.tab, Tab::ValueProp);
    let vp = &app.valueprop_page;
    let cs = &app.customer_segment_page;
    assert_eq!(vp.products_state.products.len(), 2);
    assert_eq!(vp.products_state.products[0].name, "Payment Rails API");
    assert_eq!(vp.features_state.features.len(), 3);
    assert_eq!(vp.features_state.features[2].status, "Draft");
    assert_eq!(vp.pain_relief_state.pain_reliefs.len(), 3);
    assert_eq!(vp.gain_creator_state.gain_creators.len(), 3);
    assert_eq!(cs.segments_state.segments.len(), 2);
    assert_eq!(cs.jobs_state.jobs.len(), 3);
    assert_eq!(cs.pains_state.pains.len(), 3);
    assert_eq!(cs.gains_state.gains.len(), 3);
    assert_eq!(vp.product_feature_links.len(), 4);
    assert_eq!(vp.product_feature_links[1], (DEMO_PRODUCT_1, DEMO_FEATURE_3));
    assert_eq!(cs.segment_job_links.len(), 5);
    assert_eq!(vp.pain_relief_annotations.len(), 3);
    assert_eq!(vp.pain_relief_annotations[0].pain_or_gain_id, DEMO_PAIN_1);
    assert_eq!(vp.pain_relief_annotations[0].reliever_or_creator_id, DEMO_PAIN_RELIEF_1);
    assert_eq!(vp.pain_relief_annotations[0].value_type, ValueType::TableStake);
    assert_eq!(f32::from_bits(vp.pain_relief_annotations[0].strength_bits), 0.9);
    assert_eq!(f32::from_bits(vp.gain_creator_annotations[2].strength_bits), 0.75);
    assert_eq!(vp.gain_creator_annotations[2].reliever_or_creator_id, DEMO_GAIN_CREATOR_3);
    assert_eq!(f32::from_bits(cs.gains_state.gains[2].importance_bits), 0.75);
    assert_eq!(cs.gains_state.gains[2].id, DEMO_GAIN_3);
    assert_eq!(cs.segments_state.segments[1].id, DEMO_SEGMENT_2);
    assert!(vp.products_state.products.iter().all(|p| !p.expanded));
}

#[test]
fn demo_ids_match_their_uuid_text() {
    assert_eq!(
        valens::parse_uuid_opt(Some("e3142c46-5ac5-4425-8080-a8faff6e3ae4".to_owned())),
        Some(DEMO_PRODUCT_1)
    );
    assert_eq!(
        valens::parse_uuid_opt(Some("a1b2c3d4-e5f6-7890-abcd-ef1234567890".to_owned())),
        Some(DEMO_FEATURE_1)
    );
}

#[test]
fn merging_demo_data_twice_adds_nothing() {
    let once = load_demo_data(App::default());
    let twice = load_demo_data(once.clone());
    assert_eq!(twice.valueprop_page.products_state.products.len(), 2);
    assert_eq!(twice.valueprop_page.product_feature_links, once.valueprop_page.product_feature_links);
    assert_eq!(twice.valueprop_page.gain_creator_annotations, once.valueprop_page.gain_creator_annotations);
    assert_eq!(twice.customer_segment_page.segment_job_links, once.customer_segment_page.segment_job_links);
    assert_eq!(twice.customer_segment_page.jobs_state.jobs.len(), 3);
}

#[test]
fn merge_keeps_saved_extras_and_overwrites_by_position() {
    let mut app = App::default();
    app.tab = Tab::Overview;
    for (id, name) in [(1u128, "mine 1"), (2, "mine 2"), (3, "mine 3")] {
        app.valueprop_page.products_state.products.push(Product {
            id,
            name: name.to_owned(),
            description: String::new(),
            notes: String::new(),
            expanded: true,
        });
    }
    app.valueprop_page.product_feature_links.push((3, 4));
    merge_demo_data(&mut app, demo_data());
    let products = &app.valueprop_page.products_state.products;
    assert_eq!(products.len(), 3);
    assert_eq!(products[0].id, DEMO_PRODUCT_1);
    assert_eq!(products[2].name, "mine 3");
    assert_eq!(app.valueprop_page.product_feature_links.len(), 5);
    assert_eq!(app.valueprop_page.product_feature_links[0], (3, 4));
    assert_eq!(app.tab, Tab::Overview);
}

#[test]
fn demo_texts_are_complete() {
    let d = demo_data();
    assert_eq!(d.products[1].description, "Automated identity verification and AML screening with regulator-ready audit trails");
    assert_eq!(d.segments[0].notes, "");
    assert!(d.features[0].acceptance_criteria.contains('\n'));
    assert_eq!(d.segments[0].parent_id, None);
}
