use valens::rows::{
    annotation_from_row, annotation_to_row, feature_from_row, feature_to_row, gain_from_row,
    gain_to_row, link_from_row, link_to_row, pain_from_row, pain_to_row, product_from_row,
    product_to_row, segment_from_row, segment_to_row, value_type_db_name, value_type_from_db,
    EntityRow,
};
use valens::{
    parse_uuid_opt, CustomerSegment, Feature, Gain, Pain, Product, ValueAnnotation, ValueType,
};

const P1: u128 = 0xe3142c46_5ac5_4425_8080_a8faff6e3ae4;

fn product() -> Product {
    Product {
        id: P1,
        name: "Test product".to_owned(),
        description: "desc".to_owned(),
        notes: "notes".to_owned(),
        expanded: true,
    }
}

#[test]
fn uuid_text_parses_to_its_value() {
    assert_eq!(
        parse_uuid_opt(Some("e3142c46-5ac5-4425-8080-a8faff6e3ae4".to_owned())),
        Some(P1)
    );
}

#[test]
fn uuid_parse_rejects_bad_text_and_missing_value() {
    assert_eq!(parse_uuid_opt(Some("not-a-uuid".to_owned())), None);
    assert_eq!(parse_uuid_opt(Some(String::new())), None);
    assert_eq!(parse_uuid_opt(None), None);
}

#[test]
fn uuid_parse_accepts_other_layouts() {
    assert_eq!(parse_uuid_opt(Some("E3142C46-5AC5-4425-8080-A8FAFF6E3AE4".to_owned())), Some(P1));
    assert_eq!(parse_uuid_opt(Some("e3142c465ac544258080a8faff6e3ae4".to_owned())), Some(P1));
}

#[test]
fn product_row_holds_hyphenated_lowercase_id() {
    let row = product_to_row(&product());
    assert_eq!(row.id, "e3142c46-5ac5-4425-8080-a8faff6e3ae4");
    assert_eq!(row.name, "Test product");
    assert_eq!(row.description, "desc");
    assert_eq!(row.notes, "notes");
}

#[test]
fn product_row_round_trip_collapses() {
    let p = product();
    let back = product_from_row(product_to_row(&p)).expect("row decodes");
    assert_eq!(back.id, p.id);
    assert_eq!(back.name, "Test product");
    assert_eq!(back.description, "desc");
    assert_eq!(back.notes, "notes");
    assert!(!back.expanded);
}

#[test]
fn product_row_with_bad_id_decodes_to_none() {
    let row = EntityRow {
        id: "12345".to_owned(),
        name: "x".to_owned(),
        description: String::new(),
        notes: String::new(),
    };
    assert!(product_from_row(row).is_none());
}

#[test]
fn feature_row_round_trip() {
    let f = Feature {
        id: 0xa1b2c3d4_e5f6_7890_abcd_ef1234567890,
        name: "Unified payment API".to_owned(),
        description: "d".to_owned(),
        status: "Draft".to_owned(),
        notes: "n".to_owned(),
        user_story: "As a user".to_owned(),
        acceptance_criteria: "- works".to_owned(),
        expanded: true,
    };
    let row = feature_to_row(&f);
    assert_eq!(row.id, "a1b2c3d4-e5f6-7890-abcd-ef1234567890");
    let back = feature_from_row(row).expect("row decodes");
    assert_eq!(back.id, f.id);
    assert_eq!(back.status, "Draft");
    assert_eq!(back.user_story, "As a user");
    assert_eq!(back.acceptance_criteria, "- works");
    assert!(!back.expanded);
}

#[test]
fn segment_row_round_trip_keeps_parent() {
    let s = CustomerSegment {
        id: 0xc1d2e3f4_a5b6_7890_cdef_012345678901,
        name: "Fintech Startups".to_owned(),
        description: String::new(),
        notes: String::new(),
        characteristics: "small teams".to_owned(),
        parent_id: Some(0xd2e3f4a5_b6c7_8901_defa_123456789012),
        expanded: false,
    };
    let row = segment_to_row(&s);
    assert_eq!(row.parent_id.as_deref(), Some("d2e3f4a5-b6c7-8901-defa-123456789012"));
    let back = segment_from_row(row).expect("row decodes");
    assert_eq!(back.parent_id, s.parent_id);
    assert_eq!(back.characteristics, "small teams");
}

#[test]
fn segment_row_with_bad_parent_drops_parent() {
    let s = CustomerSegment {
        id: 0xc1d2e3f4_a5b6_7890_cdef_012345678901,
        name: "Regional Banks".to_owned(),
        description: String::new(),
        notes: String::new(),
        characteristics: String::new(),
        parent_id: None,
        expanded: false,
    };
    let mut row = segment_to_row(&s);
    assert!(row.parent_id.is_none());
    row.parent_id = Some("garbage".to_owned());
    let back = segment_from_row(row).expect("row decodes");
    assert_eq!(back.parent_id, None);
}

#[test]
fn pain_and_gain_rows_keep_importance_bits() {
    let p = Pain {
        id: 0xb4c5d6e7_f8a9_0123_bcde_345678901234,
        name: "Complex API integration".to_owned(),
        description: String::new(),
        notes: String::new(),
        importance_bits: 0.9f32.to_bits(),
        expanded: true,
    };
    let back = pain_from_row(pain_to_row(&p)).expect("row decodes");
    assert_eq!(f32::from_bits(back.importance_bits), 0.9);
    assert!(!back.expanded);
    let g = Gain {
        id: 0xe7f8a9b0_c1d2_3456_efab_678901234567,
        name: "Fast API go-live".to_owned(),
        description: String::new(),
        notes: String::new(),
        importance_bits: 0.75f32.to_bits(),
        expanded: false,
    };
    let back = gain_from_row(gain_to_row(&g)).expect("row decodes");
    assert_eq!(back.id, g.id);
    assert_eq!(f32::from_bits(back.importance_bits), 0.75);
}

#[test]
fn link_row_round_trip() {
    let l = (P1, 0xa1b2c3d4_e5f6_7890_abcd_ef1234567890u128);
    let (a, b) = link_to_row(l);
    assert_eq!(a, "e3142c46-5ac5-4425-8080-a8faff6e3ae4");
    assert_eq!(link_from_row(&a, &b), Some(l));
    assert_eq!(link_from_row(&a, "nope"), None);
}

#[test]
fn annotation_row_round_trip() {
    let a = ValueAnnotation {
        pain_or_gain_id: 0xb4c5d6e7_f8a9_0123_bcde_345678901234,
        reliever_or_creator_id: 0x1a2b3c4d_5e6f_7890_1a2b_3c4d5e6f7890,
        value_type: ValueType::TableStake,
        strength_bits: 0.9f32.to_bits(),
    };
    let row = annotation_to_row(&a);
    assert_eq!(row.value_type, "TableStake");
    assert_eq!(annotation_from_row(&row), Some(a));
}

#[test]
fn value_type_text_round_trip() {
    assert_eq!(value_type_db_name(ValueType::TableStake), "TableStake");
    assert_eq!(value_type_db_name(ValueType::Differentiator), "Differentiator");
    assert_eq!(value_type_from_db("TableStake"), ValueType::TableStake);
    assert_eq!(value_type_from_db("Differentiator"), ValueType::Differentiator);
    assert_eq!(value_type_from_db("Unknown"), ValueType::Differentiator);
}

#[test]
fn value_type_labels() {
    assert_eq!(ValueType::TableStake.label(), "Table Stake");
    assert_eq!(ValueType::Differentiator.label(), "Differentiator");
    assert_eq!(ValueType::default(), ValueType::Differentiator);
}
