use valens::editing::{
    add_gain_creator, add_product, apply_gain_creator_detail, apply_pain_relief_accordion,
    apply_product_detail, apply_products_accordion, navigate_to_feature, navigate_to_product,
    resolve_feature_delete, resolve_gain_creator_delete, resolve_pain_relief_delete,
    resolve_product_delete, AccordionOutcome, AnnotationEdits, AnnotationOutcome, DetailOutcome,
    NEW_ANNOTATION_STRENGTH_BITS,
};
use valens::links::{
    add_annotation, add_link, annotation_exists, edit_annotation, find_annotation,
    remove_annotation, remove_annotations_of_solution, remove_entity, remove_link,
    remove_links_from, remove_links_to,
};
use valens::{upsert_items, App, Product, ValueAnnotation, ValuePropPage, ValueType};

fn product(id: u128, name: &str) -> Product {
    Product {
        id,
        name: name.to_owned(),
        description: String::new(),
        notes: String::new(),
        expanded: false,
    }
}

fn ann(need: u128, sol: u128, strength: f32) -> ValueAnnotation {
    ValueAnnotation {
        pain_or_gain_id: need,
        reliever_or_creator_id: sol,
        value_type: ValueType::Differentiator,
        strength_bits: strength.to_bits(),
    }
}

fn demo() -> App {
    valens::demo::load_demo_data(App::default())
}

#[test]
fn add_link_is_idempotent() {
    let mut links = vec![(1u128, 2u128)];
    add_link(&mut links, (3, 4));
    assert_eq!(links, vec![(1, 2), (3, 4)]);
    add_link(&mut links, (3, 4));
    assert_eq!(links, vec![(1, 2), (3, 4)]);
}

#[test]
fn remove_link_removes_every_copy() {
    let mut links = vec![(1u128, 2u128), (3, 4), (1, 2)];
    remove_link(&mut links, (1, 2));
    assert_eq!(links, vec![(3, 4)]);
}

#[test]
fn remove_link_undoes_add() {
    let before = vec![(1u128, 2u128), (5, 6)];
    let mut links = before.clone();
    add_link(&mut links, (3, 4));
    remove_link(&mut links, (3, 4));
    assert_eq!(links, before);
}

#[test]
fn remove_links_by_member() {
    let mut links = vec![(1u128, 2u128), (1, 3), (4, 2)];
    remove_links_from(&mut links, 1);
    assert_eq!(links, vec![(4, 2)]);
    let mut links = vec![(1u128, 2u128), (1, 3), (4, 2)];
    remove_links_to(&mut links, 2);
    assert_eq!(links, vec![(1, 3)]);
}

#[test]
fn annotations_add_find_edit_remove() {
    let mut anns = vec![ann(1, 10, 0.5)];
    add_annotation(&mut anns, ann(1, 10, 0.9));
    assert_eq!(anns.len(), 1);
    assert_eq!(f32::from_bits(anns[0].strength_bits), 0.5);
    add_annotation(&mut anns, ann(2, 10, 0.3));
    assert_eq!(anns.len(), 2);
    assert!(annotation_exists(&anns, 2, 10));
    assert!(!annotation_exists(&anns, 2, 11));
    assert_eq!(find_annotation(&anns, 2, 10), Some(ann(2, 10, 0.3)));
    assert_eq!(find_annotation(&anns, 3, 10), None);
    edit_annotation(&mut anns, 2, 10, ValueType::TableStake, 0.8f32.to_bits());
    assert_eq!(anns[1].value_type, ValueType::TableStake);
    assert_eq!(f32::from_bits(anns[1].strength_bits), 0.8);
    remove_annotation(&mut anns, 1, 10);
    assert_eq!(anns, vec![ValueAnnotation { value_type: ValueType::TableStake, ..ann(2, 10, 0.8) }]);
    remove_annotations_of_solution(&mut anns, 10);
    assert!(anns.is_empty());
}

#[test]
fn edit_annotation_of_missing_pair_changes_nothing() {
    let mut anns = vec![ann(1, 10, 0.5)];
    edit_annotation(&mut anns, 9, 10, ValueType::TableStake, 0);
    assert_eq!(anns, vec![ann(1, 10, 0.5)]);
}

#[test]
fn remove_entity_keeps_others_in_order() {
    let mut items = vec![product(1, "a"), product(2, "b"), product(3, "c"), product(2, "d")];
    remove_entity(&mut items, 2);
    let names: Vec<&str> = items.iter().map(|p| p.name.as_str()).collect();
    assert_eq!(names, vec!["a", "c"]);
}

#[test]
fn upsert_overwrites_then_appends() {
    let mut v = vec![1, 2, 3];
    upsert_items(&mut v, vec![7, 8]);
    assert_eq!(v, vec![7, 8, 3]);
    upsert_items(&mut v, vec![4, 5, 6, 9]);
    assert_eq!(v, vec![4, 5, 6, 9]);
    upsert_items(&mut v, vec![4, 5, 6, 9]);
    assert_eq!(v, vec![4, 5, 6, 9]);
}

#[test]
fn confirmed_product_delete_cascades() {
    let mut app = demo();
    let p1 = valens::demo::DEMO_PRODUCT_1;
    let vp = &mut app.valueprop_page;
    vp.products_state.pending_delete = Some(p1);
    vp.products_state.selected_id = Some(p1);
    resolve_product_delete(vp, true, false);
    assert_eq!(vp.products_state.products.len(), 1);
    assert!(vp.products_state.products.iter().all(|p| p.id != p1));
    assert!(vp.product_feature_links.iter().all(|l| l.0 != p1));
    assert_eq!(vp.product_feature_links.len(), 2);
    assert_eq!(vp.products_state.pending_delete, None);
    assert_eq!(vp.products_state.selected_id, None);
}

#[test]
fn dismissed_delete_only_clears_request() {
    let mut app = demo();
    let p1 = valens::demo::DEMO_PRODUCT_1;
    let vp = &mut app.valueprop_page;
    vp.products_state.pending_delete = Some(p1);
    resolve_product_delete(vp, false, true);
    assert_eq!(vp.products_state.products.len(), 2);
    assert_eq!(vp.product_feature_links.len(), 4);
    assert_eq!(vp.products_state.pending_delete, None);
    vp.products_state.pending_delete = Some(p1);
    resolve_product_delete(vp, false, false);
    assert_eq!(vp.products_state.pending_delete, Some(p1));
}

#[test]
fn confirmed_feature_delete_cascades() {
    let mut app = demo();
    let f3 = valens::demo::DEMO_FEATURE_3;
    let vp = &mut app.valueprop_page;
    vp.features_state.pending_delete = Some(f3);
    resolve_feature_delete(vp, true, false);
    assert_eq!(vp.features_state.features.len(), 2);
    assert!(vp.product_feature_links.iter().all(|l| l.1 != f3));
    assert!(vp.feature_pain_relief_links.iter().all(|l| l.0 != f3));
    assert!(vp.feature_gain_creator_links.iter().all(|l| l.0 != f3));
    assert_eq!(vp.product_feature_links.len(), 2);
}

#[test]
fn confirmed_solution_deletes_cascade_to_annotations() {
    let mut app = demo();
    let pr1 = valens::demo::DEMO_PAIN_RELIEF_1;
    let gc2 = valens::demo::DEMO_GAIN_CREATOR_2;
    let vp = &mut app.valueprop_page;
    vp.pain_relief_state.pending_delete = Some(pr1);
    resolve_pain_relief_delete(vp, true, true);
    assert_eq!(vp.pain_relief_state.pain_reliefs.len(), 2);
    assert!(vp.pain_relief_annotations.iter().all(|a| a.reliever_or_creator_id != pr1));
    assert!(vp.feature_pain_relief_links.iter().all(|l| l.1 != pr1));
    vp.gain_creator_state.pending_delete = Some(gc2);
    resolve_gain_creator_delete(vp, true, false);
    assert_eq!(vp.gain_creator_state.gain_creators.len(), 2);
    assert_eq!(vp.gain_creator_annotations.len(), 2);
    assert!(vp.feature_gain_creator_links.iter().all(|l| l.1 != gc2));
}

#[test]
fn navigation_opens_window_expands_and_scrolls() {
    let mut app = demo();
    let f2 = valens::demo::DEMO_FEATURE_2;
    let vp = &mut app.valueprop_page;
    navigate_to_feature(vp, f2);
    assert!(vp.product_windows.features_open);
    assert!(vp.features_state.features[1].expanded);
    assert!(!vp.features_state.features[0].expanded);
    assert_eq!(vp.features_state.selected_id, Some(f2));
    assert_eq!(vp.features_state.scroll_to_id, Some(f2));
    let p2 = valens::demo::DEMO_PRODUCT_2;
    navigate_to_product(vp, p2);
    assert!(vp.product_windows.products_open);
    assert!(vp.products_state.products[1].expanded);
    assert_eq!(vp.products_state.selected_id, Some(p2));
}

#[test]
fn navigation_to_unknown_id_only_selects() {
    let mut vp = ValuePropPage::empty();
    navigate_to_feature(&mut vp, 42);
    assert!(vp.product_windows.features_open);
    assert_eq!(vp.features_state.selected_id, Some(42));
    assert!(vp.features_state.features.is_empty());
}

#[test]
fn products_accordion_outcome() {
    let mut app = demo();
    let vp = &mut app.valueprop_page;
    vp.products_state.scroll_to_id = Some(7);
    let o = AccordionOutcome {
        did_scroll: true,
        to_delete: Some(5),
        link_to_add: Some((5, 6)),
        link_to_remove: Some(vp.product_feature_links[0]),
        panel_select: Some(5),
        panel_deselect: false,
    };
    apply_products_accordion(&mut vp.products_state, &mut vp.product_feature_links, &o);
    assert_eq!(vp.products_state.pending_delete, Some(5));
    assert_eq!(vp.products_state.selected_id, Some(5));
    assert_eq!(vp.products_state.scroll_to_id, None);
    assert_eq!(vp.product_feature_links.len(), 4);
    assert_eq!(*vp.product_feature_links.last().unwrap(), (5, 6));
    let o = AccordionOutcome {
        did_scroll: false,
        to_delete: None,
        link_to_add: None,
        link_to_remove: None,
        panel_select: Some(9),
        panel_deselect: true,
    };
    apply_products_accordion(&mut vp.products_state, &mut vp.product_feature_links, &o);
    assert_eq!(vp.products_state.selected_id, None);
    assert_eq!(vp.products_state.pending_delete, Some(5));
}

#[test]
fn pain_relief_accordion_adds_medium_differentiator() {
    let mut vp = ValuePropPage::empty();
    let o = AccordionOutcome {
        did_scroll: false,
        to_delete: None,
        link_to_add: None,
        link_to_remove: None,
        panel_select: None,
        panel_deselect: false,
    };
    let a = AnnotationOutcome { to_add: Some((1, 2)), to_remove: None };
    apply_pain_relief_accordion(
        &mut vp.pain_relief_state,
        &mut vp.feature_pain_relief_links,
        &mut vp.pain_relief_annotations,
        &o,
        &a,
    );
    assert_eq!(vp.pain_relief_annotations.len(), 1);
    assert_eq!(vp.pain_relief_annotations[0].value_type, ValueType::Differentiator);
    assert_eq!(f32::from_bits(vp.pain_relief_annotations[0].strength_bits), 0.5);
    assert_eq!(NEW_ANNOTATION_STRENGTH_BITS, 0.5f32.to_bits());
    let a = AnnotationOutcome { to_add: None, to_remove: Some((1, 2)) };
    apply_pain_relief_accordion(
        &mut vp.pain_relief_state,
        &mut vp.feature_pain_relief_links,
        &mut vp.pain_relief_annotations,
        &o,
        &a,
    );
    assert!(vp.pain_relief_annotations.is_empty());
}

#[test]
fn product_detail_closes_links_and_navigates() {
    let mut app = demo();
    let p1 = valens::demo::DEMO_PRODUCT_1;
    let f2 = valens::demo::DEMO_FEATURE_2;
    let vp = &mut app.valueprop_page;
    vp.products_state.selected_id = Some(p1);
    let o = DetailOutcome {
        keep_open: false,
        link_to_add: Some((p1, f2)),
        link_to_remove: None,
        navigate_to: Some(f2),
    };
    apply_product_detail(vp, &o);
    assert_eq!(vp.products_state.selected_id, None);
    assert!(vp.product_feature_links.contains(&(p1, f2)));
    assert_eq!(vp.features_state.selected_id, Some(f2));
    assert!(vp.product_windows.features_open);
}

#[test]
fn product_detail_without_selection_does_nothing() {
    let mut vp = ValuePropPage::empty();
    let o = DetailOutcome { keep_open: true, link_to_add: Some((1, 2)), link_to_remove: None, navigate_to: None };
    apply_product_detail(&mut vp, &o);
    assert!(vp.product_feature_links.is_empty());
}

#[test]
fn gain_creator_detail_edits_annotations() {
    let mut app = demo();
    let gc1 = valens::demo::DEMO_GAIN_CREATOR_1;
    let g1 = valens::demo::DEMO_GAIN_1;
    let g2 = valens::demo::DEMO_GAIN_2;
    let vp = &mut app.valueprop_page;
    vp.gain_creator_state.selected_id = Some(gc1);
    let o = DetailOutcome { keep_open: true, link_to_add: None, link_to_remove: None, navigate_to: None };
    let e = AnnotationEdits {
        to_add: Some(g2),
        to_remove: None,
        edit: Some((g1, ValueType::TableStake, 0.6f32.to_bits())),
    };
    apply_gain_creator_detail(vp, &o, &e);
    assert_eq!(vp.gain_creator_state.selected_id, Some(gc1));
    assert!(annotation_exists(&vp.gain_creator_annotations, g2, gc1));
    let edited = find_annotation(&vp.gain_creator_annotations, g1, gc1).unwrap();
    assert_eq!(edited.value_type, ValueType::TableStake);
    assert_eq!(f32::from_bits(edited.strength_bits), 0.6);
}

#[test]
fn new_entities_get_fresh_version_four_ids() {
    let mut app = App::default();
    let before = app.valueprop_page.products_state.products.len();
    let id = add_product(&mut app.valueprop_page.products_state);
    assert_ne!(id, 0);
    assert_eq!((id >> 76) & 0xF, 4);
    assert_eq!((id >> 62) & 0b11, 0b10);
    assert_eq!(app.valueprop_page.products_state.products.len(), before + 1);
    let last = app.valueprop_page.products_state.products.last().unwrap();
    assert_eq!(last.id, id);
    assert!(last.name.is_empty());
    let id2 = add_gain_creator(&mut app.valueprop_page.gain_creator_state);
    assert_ne!(id2, id);
}

#[test]
fn navigating_twice_is_the_same_as_once() {
    let mut app = demo();
    let f3 = valens::demo::DEMO_FEATURE_3;
    navigate_to_feature(&mut app.valueprop_page, f3);
    let once: Vec<bool> = app.valueprop_page.features_state.features.iter().map(|f| f.expanded).collect();
    navigate_to_feature(&mut app.valueprop_page, f3);
    let twice: Vec<bool> = app.valueprop_page.features_state.features.iter().map(|f| f.expanded).collect();
    assert_eq!(once, twice);
    assert_eq!(once, vec![false, false, true]);
    assert_eq!(app.valueprop_page.features_state.scroll_to_id, Some(f3));
}

#[test]
fn removing_an_added_annotation_restores_the_list() {
    let before = vec![ann(1, 10, 0.5), ann(2, 11, 0.7)];
    let mut anns = before.clone();
    add_annotation(&mut anns, ann(3, 10, 0.2));
    assert_eq!(anns.len(), 3);
    remove_annotation(&mut anns, 3, 10);
    assert_eq!(anns, before);
}
