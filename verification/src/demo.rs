//! The demonstration portfolio: a payments and compliance business with two
//! products, their features, pain reliefs and gain creators, two customer
//! segments with their jobs, pains and gains, and the links and annotations
//! that join them. The identifiers are fixed, so links saved in an earlier
//! session still name the same entities after the data is merged in again.

use vstd::prelude::*;

use crate::editing::{upsert_items, upserted};
use crate::ids::{hex_digit, hex_digits, uuid_text, EntityId};
use crate::links::{add_annotation, add_link, has_annotation, with_annotation, with_link};
use crate::model::{
    App, CustomerSegment, CustomerSegmentPageView, Feature, Gain, GainCreator, Job, Link, Pain,
    PainRelief, Product, ValueAnnotation, ValuePropPageView, ValueType, ids_of,
};

verus! {

/// Fixed identifiers of the demonstration entities; each is the value of its
/// UUID text (`lemma_demo_ids_match_their_texts`).
pub const DEMO_PRODUCT_1: EntityId = 0xe3142c46_5ac5_4425_8080_a8faff6e3ae4;
pub const DEMO_PRODUCT_2: EntityId = 0x93a7b2b5_ce26_4078_bce6_ca7d2d941b70;
pub const DEMO_FEATURE_1: EntityId = 0xa1b2c3d4_e5f6_7890_abcd_ef1234567890;
pub const DEMO_FEATURE_2: EntityId = 0xb2c3d4e5_f6a7_8901_bcde_f12345678901;
pub const DEMO_FEATURE_3: EntityId = 0xc3d4e5f6_a7b8_9012_cdef_012345678902;
pub const DEMO_PAIN_RELIEF_1: EntityId = 0x1a2b3c4d_5e6f_7890_1a2b_3c4d5e6f7890;
pub const DEMO_PAIN_RELIEF_2: EntityId = 0x2b3c4d5e_6f7a_8901_2b3c_4d5e6f7a8901;
pub const DEMO_PAIN_RELIEF_3: EntityId = 0x3c4d5e6f_7a8b_9012_3c4d_5e6f7a8b9012;
pub const DEMO_SEGMENT_1: EntityId = 0xc1d2e3f4_a5b6_7890_cdef_012345678901;
pub const DEMO_SEGMENT_2: EntityId = 0xd2e3f4a5_b6c7_8901_defa_123456789012;
pub const DEMO_JOB_1: EntityId = 0xe1f2a3b4_c5d6_7890_efab_012345678901;
pub const DEMO_JOB_2: EntityId = 0xf2a3b4c5_d6e7_8901_fabc_123456789012;
pub const DEMO_JOB_3: EntityId = 0xa3b4c5d6_e7f8_9012_abcd_234567890123;
pub const DEMO_PAIN_1: EntityId = 0xb4c5d6e7_f8a9_0123_bcde_345678901234;
pub const DEMO_PAIN_2: EntityId = 0xc5d6e7f8_a9b0_1234_cdef_456789012345;
pub const DEMO_PAIN_3: EntityId = 0xd6e7f8a9_b0c1_2345_defa_567890123456;
pub const DEMO_GAIN_1: EntityId = 0xe7f8a9b0_c1d2_3456_efab_678901234567;
pub const DEMO_GAIN_2: EntityId = 0xf8a9b0c1_d2e3_4567_fabc_789012345678;
pub const DEMO_GAIN_3: EntityId = 0xa9b0c1d2_e3f4_5678_abcd_890123456789;
pub const DEMO_GAIN_CREATOR_1: EntityId = 0x4d5e6f7a_8b9c_0123_4d5e_6f7a8b9c0123;
pub const DEMO_GAIN_CREATOR_2: EntityId = 0x5e6f7a8b_9c0d_1234_5e6f_7a8b9c0d1234;
pub const DEMO_GAIN_CREATOR_3: EntityId = 0x6f7a8b9c_0d1e_2345_6f7a_8b9c0d1e2345;

/// The table with each of `pairs` added in turn unless it is already there.
pub open spec fn with_links(links: Seq<Link>, pairs: Seq<Link>) -> Seq<Link>
    decreases pairs.len(),
{
    if pairs.len() == 0 {
        links
    } else {
        with_link(with_links(links, pairs.drop_last()), pairs.last())
    }
}

/// The list with each of `new` added in turn unless an annotation already
/// joins its need to its solution.
pub open spec fn with_annotations(anns: Seq<ValueAnnotation>, new: Seq<ValueAnnotation>) -> Seq<ValueAnnotation>
    decreases new.len(),
{
    if new.len() == 0 {
        anns
    } else {
        with_annotation(with_annotations(anns, new.drop_last()), new.last())
    }
}

/// Adds each of `pairs` in turn unless it is already in the table.
fn add_links(links: &mut Vec<Link>, pairs: &Vec<Link>)
    ensures
        final(links)@ == with_links(old(links)@, pairs@),
{
    let ghost start = links@;
    let mut i: usize = 0;
    while i < pairs.len()
        invariant
            i <= pairs@.len(),
            links@ == with_links(start, pairs@.take(i as int)),
        decreases pairs@.len() - i,
    {
        add_link(links, pairs[i]);
        proof {
            assert(pairs@.take(i + 1).drop_last() == pairs@.take(i as int));
        }
        i = i + 1;
    }
    proof {
        assert(pairs@.take(pairs@.len() as int) == pairs@);
    }
}

/// Adds each of `new` in turn unless its need and solution are already joined.
fn add_annotations(anns: &mut Vec<ValueAnnotation>, new: &Vec<ValueAnnotation>)
    ensures
        final(anns)@ == with_annotations(old(anns)@, new@),
{
    let ghost start = anns@;
    let mut i: usize = 0;
    while i < new.len()
        invariant
            i <= new@.len(),
            anns@ == with_annotations(start, new@.take(i as int)),
        decreases new@.len() - i,
    {
        add_annotation(anns, new[i]);
        proof {
            assert(new@.take(i + 1).drop_last() == new@.take(i as int));
        }
        i = i + 1;
    }
    proof {
        assert(new@.take(new@.len() as int) == new@);
    }
}

/// The entities, link tables and annotations of a data set to merge in.
pub struct DemoData {
    pub products: Vec<Product>,
    pub features: Vec<Feature>,
    pub pain_reliefs: Vec<PainRelief>,
    pub gain_creators: Vec<GainCreator>,
    pub segments: Vec<CustomerSegment>,
    pub jobs: Vec<Job>,
    pub pains: Vec<Pain>,
    pub gains: Vec<Gain>,
    pub product_feature_links: Vec<Link>,
    pub feature_pain_relief_links: Vec<Link>,
    pub feature_gain_creator_links: Vec<Link>,
    pub segment_job_links: Vec<Link>,
    pub job_pain_links: Vec<Link>,
    pub job_gain_links: Vec<Link>,
    pub pain_relief_annotations: Vec<ValueAnnotation>,
    pub gain_creator_annotations: Vec<ValueAnnotation>,
}

/// `d` is the demonstration portfolio: the identifiers, texts and importances
/// of its entities, its link tables and its annotations; every entity starts
/// collapsed and no segment has a parent.
pub open spec fn is_demo_data(d: DemoData) -> bool {
    &&& ids_of(d.products@) == seq![DEMO_PRODUCT_1, DEMO_PRODUCT_2]
    &&& d.products@[0].name@ == "Payment Rails API"@
    &&& d.products@[0].description@ == "Embedded payment processing covering card, ACH, and SWIFT via a single integration"@
    &&& d.products@[0].notes@ == "Primary revenue product; pricing is per-transaction with a monthly platform fee"@
    &&& d.products@[1].name@ == "KYC & Compliance Suite"@
    &&& d.products@[1].description@ == "Automated identity verification and AML screening with regulator-ready audit trails"@
    &&& d.products@[1].notes@ == "Sold standalone or bundled with Payment Rails API; banks require on-prem option"@
    &&& forall|k: int| 0 <= k < d.products@.len() ==> !(#[trigger] d.products@[k]).expanded
    &&& ids_of(d.features@) == seq![DEMO_FEATURE_1, DEMO_FEATURE_2, DEMO_FEATURE_3]
    &&& d.features@[0].name@ == "Unified payment API"@
    &&& d.features@[0].description@ == "Single REST endpoint routing transactions across card, ACH, and SWIFT"@
    &&& d.features@[0].status@ == "In Progress"@
    &&& d.features@[0].notes@ == "ISO 20022 message format required for SWIFT; versioned endpoints for backwards compatibility"@
    &&& d.features@[0].user_story@ == "As a fintech developer, I want one API to initiate any payment type so that I don't have to integrate multiple schemes separately."@
    &&& d.features@[0].acceptance_criteria@ == "- Supports card authorisation, ACH credit/debit, and SWIFT MT103\n- Response time < 200 ms at p99\n- Returns a unified transaction ID regardless of scheme"@
    &&& d.features@[1].name@ == "Automated KYC decisioning"@
    &&& d.features@[1].description@ == "ML-driven identity checks that approve clean applicants in seconds"@
    &&& d.features@[1].status@ == "In Progress"@
    &&& d.features@[1].notes@ == "Manual review queue for edge cases; all decisions stored with reasoning for audit"@
    &&& d.features@[1].user_story@ == "As a compliance officer, I want automated KYC decisions so that most applicants are approved instantly while edge cases are flagged for human review."@
    &&& d.features@[1].acceptance_criteria@ == "- Auto-approve rate > 85 % for standard applicants\n- Full decision audit trail exportable as PDF\n- Manual review SLA < 4 hours"@
    &&& d.features@[2].name@ == "Real-time fraud scoring"@
    &&& d.features@[2].description@ == "Risk engine scoring every transaction in under 50 ms with tunable thresholds"@
    &&& d.features@[2].status@ == "Draft"@
    &&& d.features@[2].notes@ == "Per-merchant risk profiles allow threshold tuning without touching global model"@
    &&& d.features@[2].user_story@ == "As a risk manager, I want to tune fraud thresholds per merchant so that I can reduce false positives without accepting more fraud losses."@
    &&& d.features@[2].acceptance_criteria@ == "- Score latency < 50 ms at p99\n- Merchant-level threshold configuration via dashboard\n- False-positive rate < 0.5 % at default settings"@
    &&& forall|k: int| 0 <= k < d.features@.len() ==> !(#[trigger] d.features@[k]).expanded
    &&& ids_of(d.pain_reliefs@) == seq![DEMO_PAIN_RELIEF_1, DEMO_PAIN_RELIEF_2, DEMO_PAIN_RELIEF_3]
    &&& d.pain_reliefs@[0].name@ == "Pre-built SDK & sandbox"@
    &&& d.pain_reliefs@[0].description@ == "Language SDKs and a realistic sandbox environment cut integration from weeks to hours"@
    &&& d.pain_reliefs@[0].notes@ == "SDKs available for Node, Python, Java, and Go; sandbox mirrors production data shapes"@
    &&& d.pain_reliefs@[1].name@ == "Instant KYC auto-approval"@
    &&& d.pain_reliefs@[1].description@ == "Clean applicants are approved in seconds; only genuine edge cases reach manual review"@
    &&& d.pain_reliefs@[1].notes@ == "Reduces perceived friction; banks appreciate the audit trail that accompanies each decision"@
    &&& d.pain_reliefs@[2].name@ == "Tunable risk thresholds"@
    &&& d.pain_reliefs@[2].description@ == "Per-merchant fraud profiles reduce false positives without relaxing overall fraud controls"@
    &&& d.pain_reliefs@[2].notes@ == "Threshold changes take effect without redeployment; A/B testing supported"@
    &&& forall|k: int| 0 <= k < d.pain_reliefs@.len() ==> !(#[trigger] d.pain_reliefs@[k]).expanded
    &&& ids_of(d.gain_creators@) == seq![DEMO_GAIN_CREATOR_1, DEMO_GAIN_CREATOR_2, DEMO_GAIN_CREATOR_3]
    &&& d.gain_creators@[0].name@ == "One-day API go-live"@
    &&& d.gain_creators@[0].description@ == "Comprehensive docs, runbooks, and a sandbox let devs reach production in a single sprint"@
    &&& d.gain_creators@[0].notes@ == "Interactive API explorer in the developer portal accelerates discovery"@
    &&& d.gain_creators@[1].name@ == "Frictionless onboarding flow"@
    &&& d.gain_creators@[1].description@ == "Pre-filled forms, progressive KYC steps, and instant auto-approval maximise conversion"@
    &&& d.gain_creators@[1].notes@ == "Mobile-optimised flow reduces drop-off on smaller screens"@
    &&& d.gain_creators@[2].name@ == "Transparent fraud analytics"@
    &&& d.gain_creators@[2].description@ == "Real-time dashboard with explainable scores builds confidence for customers and regulators"@
    &&& d.gain_creators@[2].notes@ == "Exportable reports satisfy auditor requests without engineering involvement"@
    &&& forall|k: int| 0 <= k < d.gain_creators@.len() ==> !(#[trigger] d.gain_creators@[k]).expanded
    &&& ids_of(d.segments@) == seq![DEMO_SEGMENT_1, DEMO_SEGMENT_2]
    &&& d.segments@[0].name@ == "Fintech Startups"@
    &&& d.segments@[0].description@ == "Early-stage fintechs embedding financial services into their product"@
    &&& d.segments@[0].notes@ == ""@
    &&& d.segments@[0].characteristics@ == "Small dev teams, need fast API integration, cost-sensitive, move quickly"@
    &&& d.segments@[1].name@ == "Regional Banks"@
    &&& d.segments@[1].description@ == "Mid-sized banks modernising their infrastructure via BaaS"@
    &&& d.segments@[1].notes@ == ""@
    &&& d.segments@[1].characteristics@ == "Strong compliance requirements, legacy system integration, risk-averse procurement"@
    &&& forall|k: int| 0 <= k < d.segments@.len() ==> !(#[trigger] d.segments@[k]).expanded
    &&& ids_of(d.jobs@) == seq![DEMO_JOB_1, DEMO_JOB_2, DEMO_JOB_3]
    &&& d.jobs@[0].name@ == "Integrate payment rails"@
    &&& d.jobs@[0].description@ == "Connect to card schemes, ACH, or SWIFT via a BaaS provider API"@
    &&& d.jobs@[0].notes@ == "Critical path for fintechs launching; compliance sign-off required for banks"@
    &&& d.jobs@[1].name@ == "Manage KYC & onboarding"@
    &&& d.jobs@[1].description@ == "Verify customer identities and satisfy AML obligations at account opening"@
    &&& d.jobs@[1].notes@ == "Fintechs want automated flows; banks need audit trails for regulators"@
    &&& d.jobs@[2].name@ == "Monitor transactions for fraud"@
    &&& d.jobs@[2].description@ == "Detect and act on suspicious activity in real time"@
    &&& d.jobs@[2].notes@ == "False-positive rate is a key concern for both segments"@
    &&& forall|k: int| 0 <= k < d.jobs@.len() ==> !(#[trigger] d.jobs@[k]).expanded
    &&& ids_of(d.pains@) == seq![DEMO_PAIN_1, DEMO_PAIN_2, DEMO_PAIN_3]
    &&& d.pains@[0].name@ == "Complex API integration"@
    &&& d.pains@[0].description@ == "BaaS APIs are inconsistent across providers, slowing time-to-market"@
    &&& d.pains@[0].notes@ == "Fintechs cite this as the top bottleneck before launch"@
    &&& d.pains@[0].importance_bits == 0x3F66_6666
    &&& d.pains@[1].name@ == "KYC drop-off rates"@
    &&& d.pains@[1].description@ == "Lengthy identity checks cause customers to abandon onboarding"@
    &&& d.pains@[1].notes@ == "Manual review steps are the main culprit for regional banks"@
    &&& d.pains@[1].importance_bits == 0x3F4C_CCCD
    &&& d.pains@[2].name@ == "High false-positive fraud alerts"@
    &&& d.pains@[2].description@ == "Legitimate transactions blocked, damaging customer trust"@
    &&& d.pains@[2].notes@ == "Both segments lose revenue and incur support costs from false positives"@
    &&& d.pains@[2].importance_bits == 0x3F33_3333
    &&& forall|k: int| 0 <= k < d.pains@.len() ==> !(#[trigger] d.pains@[k]).expanded
    &&& ids_of(d.gains@) == seq![DEMO_GAIN_1, DEMO_GAIN_2, DEMO_GAIN_3]
    &&& d.gains@[0].name@ == "Fast API go-live"@
    &&& d.gains@[0].description@ == "Launch payment capabilities in days with well-documented, consistent APIs"@
    &&& d.gains@[0].notes@ == "Top priority for fintechs racing to market"@
    &&& d.gains@[0].importance_bits == 0x3F66_6666
    &&& d.gains@[1].name@ == "High KYC pass rates"@
    &&& d.gains@[1].description@ == "More customers complete onboarding with minimal friction"@
    &&& d.gains@[1].notes@ == "Automated decisioning with clear audit trail satisfies both segments"@
    &&& d.gains@[1].importance_bits == 0x3F4C_CCCD
    &&& d.gains@[2].name@ == "Accurate fraud detection"@
    &&& d.gains@[2].description@ == "Catch real fraud while keeping false-positive rates low"@
    &&& d.gains@[2].notes@ == "Tunable risk thresholds are valued by regional banks"@
    &&& d.gains@[2].importance_bits == 0x3F40_0000
    &&& forall|k: int| 0 <= k < d.gains@.len() ==> !(#[trigger] d.gains@[k]).expanded
    &&& forall|k: int| 0 <= k < d.segments@.len() ==> (#[trigger] d.segments@[k]).parent_id is None
    &&& d.product_feature_links@ == seq![(DEMO_PRODUCT_1, DEMO_FEATURE_1), (DEMO_PRODUCT_1, DEMO_FEATURE_3), (DEMO_PRODUCT_2, DEMO_FEATURE_2), (DEMO_PRODUCT_2, DEMO_FEATURE_3)]
    &&& d.feature_pain_relief_links@ == seq![(DEMO_FEATURE_1, DEMO_PAIN_RELIEF_1), (DEMO_FEATURE_2, DEMO_PAIN_RELIEF_2), (DEMO_FEATURE_3, DEMO_PAIN_RELIEF_3)]
    &&& d.feature_gain_creator_links@ == seq![(DEMO_FEATURE_1, DEMO_GAIN_CREATOR_1), (DEMO_FEATURE_2, DEMO_GAIN_CREATOR_2), (DEMO_FEATURE_3, DEMO_GAIN_CREATOR_3)]
    &&& d.segment_job_links@ == seq![(DEMO_JOB_1, DEMO_SEGMENT_1), (DEMO_JOB_2, DEMO_SEGMENT_1), (DEMO_JOB_3, DEMO_SEGMENT_1), (DEMO_JOB_2, DEMO_SEGMENT_2), (DEMO_JOB_3, DEMO_SEGMENT_2)]
    &&& d.job_pain_links@ == seq![(DEMO_PAIN_1, DEMO_JOB_1), (DEMO_PAIN_2, DEMO_JOB_2), (DEMO_PAIN_3, DEMO_JOB_3)]
    &&& d.job_gain_links@ == seq![(DEMO_GAIN_1, DEMO_JOB_1), (DEMO_GAIN_2, DEMO_JOB_2), (DEMO_GAIN_3, DEMO_JOB_3)]
    &&& d.pain_relief_annotations@ == seq![
        ValueAnnotation {
            pain_or_gain_id: DEMO_PAIN_1,
            reliever_or_creator_id: DEMO_PAIN_RELIEF_1,
            value_type: ValueType::TableStake,
            strength_bits: 0x3F66_6666,
        },
        ValueAnnotation {
            pain_or_gain_id: DEMO_PAIN_2,
            reliever_or_creator_id: DEMO_PAIN_RELIEF_2,
            value_type: ValueType::TableStake,
            strength_bits: 0x3F59_999A,
        },
        ValueAnnotation {
            pain_or_gain_id: DEMO_PAIN_3,
            reliever_or_creator_id: DEMO_PAIN_RELIEF_3,
            value_type: ValueType::Differentiator,
            strength_bits: 0x3F33_3333,
        },
    ]
    &&& d.gain_creator_annotations@ == seq![
        ValueAnnotation {
            pain_or_gain_id: DEMO_GAIN_1,
            reliever_or_creator_id: DEMO_GAIN_CREATOR_1,
            value_type: ValueType::Differentiator,
            strength_bits: 0x3F59_999A,
        },
        ValueAnnotation {
            pain_or_gain_id: DEMO_GAIN_2,
            reliever_or_creator_id: DEMO_GAIN_CREATOR_2,
            value_type: ValueType::Differentiator,
            strength_bits: 0x3F4C_CCCD,
        },
        ValueAnnotation {
            pain_or_gain_id: DEMO_GAIN_3,
            reliever_or_creator_id: DEMO_GAIN_CREATOR_3,
            value_type: ValueType::Differentiator,
            strength_bits: 0x3F40_0000,
        },
    ]
}

/// `after` is `before` with `d` merged in: each entity list takes the
/// entities of `d` positionally, each link and annotation of `d` is added
/// unless already present, and everything else stays.
pub open spec fn merged_with(before: App, d: DemoData, after: App) -> bool {
    let vp = before.valueprop_page@;
    let cs = before.customer_segment_page@;
    &&& after.tab == before.tab
    &&& after.valueprop_page@ == (ValuePropPageView {
        products: upserted(vp.products, d.products@),
        features: upserted(vp.features, d.features@),
        pain_reliefs: upserted(vp.pain_reliefs, d.pain_reliefs@),
        gain_creators: upserted(vp.gain_creators, d.gain_creators@),
        product_feature_links: with_links(vp.product_feature_links, d.product_feature_links@),
        feature_pain_relief_links: with_links(vp.feature_pain_relief_links, d.feature_pain_relief_links@),
        feature_gain_creator_links: with_links(vp.feature_gain_creator_links, d.feature_gain_creator_links@),
        pain_relief_annotations: with_annotations(vp.pain_relief_annotations, d.pain_relief_annotations@),
        gain_creator_annotations: with_annotations(vp.gain_creator_annotations, d.gain_creator_annotations@),
        ..vp
    })
    &&& after.customer_segment_page@ == (CustomerSegmentPageView {
        segments: upserted(cs.segments, d.segments@),
        jobs: upserted(cs.jobs, d.jobs@),
        pains: upserted(cs.pains, d.pains@),
        gains: upserted(cs.gains, d.gains@),
        segment_job_links: with_links(cs.segment_job_links, d.segment_job_links@),
        job_pain_links: with_links(cs.job_pain_links, d.job_pain_links@),
        job_gain_links: with_links(cs.job_gain_links, d.job_gain_links@),
    })
    &&& after.customer_segment_page.segments_state.pending_delete == before.customer_segment_page.segments_state.pending_delete
    &&& after.customer_segment_page.segments_state.selected_id == before.customer_segment_page.segments_state.selected_id
    &&& after.customer_segment_page.segments_state.scroll_to_id == before.customer_segment_page.segments_state.scroll_to_id
    &&& after.customer_segment_page.jobs_state.pending_delete == before.customer_segment_page.jobs_state.pending_delete
    &&& after.customer_segment_page.jobs_state.selected_id == before.customer_segment_page.jobs_state.selected_id
    &&& after.customer_segment_page.jobs_state.scroll_to_id == before.customer_segment_page.jobs_state.scroll_to_id
    &&& after.customer_segment_page.pains_state.pending_delete == before.customer_segment_page.pains_state.pending_delete
    &&& after.customer_segment_page.pains_state.selected_id == before.customer_segment_page.pains_state.selected_id
    &&& after.customer_segment_page.pains_state.scroll_to_id == before.customer_segment_page.pains_state.scroll_to_id
    &&& after.customer_segment_page.gains_state.pending_delete == before.customer_segment_page.gains_state.pending_delete
    &&& after.customer_segment_page.gains_state.selected_id == before.customer_segment_page.gains_state.selected_id
    &&& after.customer_segment_page.gains_state.scroll_to_id == before.customer_segment_page.gains_state.scroll_to_id
}

/// Text owned as a `String`.
fn text(s: &str) -> (r: String)
    ensures
        r@ == s@,
{
    String::from_str(s)
}

/// The demonstration portfolio.
pub fn demo_data() -> (r: DemoData)
    ensures
        is_demo_data(r),
{
    let mut products: Vec<Product> = Vec::new();
    products.push(
        Product {
            id: DEMO_PRODUCT_1,
            name: text("Payment Rails API"),
            description: text("Embedded payment processing covering card, ACH, and SWIFT via a single integration"),
            notes: text("Primary revenue product; pricing is per-transaction with a monthly platform fee"),
            expanded: false,
        },
    );
    products.push(
        Product {
            id: DEMO_PRODUCT_2,
            name: text("KYC & Compliance Suite"),
            description: text("Automated identity verification and AML screening with regulator-ready audit trails"),
            notes: text("Sold standalone or bundled with Payment Rails API; banks require on-prem option"),
            expanded: false,
        },
    );
    proof {
        assert(ids_of(products@) =~= seq![DEMO_PRODUCT_1, DEMO_PRODUCT_2]);
    }
    let mut features: Vec<Feature> = Vec::new();
    features.push(
        Feature {
            id: DEMO_FEATURE_1,
            name: text("Unified payment API"),
            description: text("Single REST endpoint routing transactions across card, ACH, and SWIFT"),
            status: text("In Progress"),
            notes: text("ISO 20022 message format required for SWIFT; versioned endpoints for backwards compatibility"),
            user_story: text("As a fintech developer, I want one API to initiate any payment type so that I don't have to integrate multiple schemes separately."),
            acceptance_criteria: text("- Supports card authorisation, ACH credit/debit, and SWIFT MT103\n- Response time < 200 ms at p99\n- Returns a unified transaction ID regardless of scheme"),
            expanded: false,
        },
    );
    features.push(
        Feature {
            id: DEMO_FEATURE_2,
            name: text("Automated KYC decisioning"),
            description: text("ML-driven identity checks that approve clean applicants in seconds"),
            status: text("In Progress"),
            notes: text("Manual review queue for edge cases; all decisions stored with reasoning for audit"),
            user_story: text("As a compliance officer, I want automated KYC decisions so that most applicants are approved instantly while edge cases are flagged for human review."),
            acceptance_criteria: text("- Auto-approve rate > 85 % for standard applicants\n- Full decision audit trail exportable as PDF\n- Manual review SLA < 4 hours"),
            expanded: false,
        },
    );
    features.push(
        Feature {
            id: DEMO_FEATURE_3,
            name: text("Real-time fraud scoring"),
            description: text("Risk engine scoring every transaction in under 50 ms with tunable thresholds"),
            status: text("Draft"),
            notes: text("Per-merchant risk profiles allow threshold tuning without touching global model"),
            user_story: text("As a risk manager, I want to tune fraud thresholds per merchant so that I can reduce false positives without accepting more fraud losses."),
            acceptance_criteria: text("- Score latency < 50 ms at p99\n- Merchant-level threshold configuration via dashboard\n- False-positive rate < 0.5 % at default settings"),
            expanded: false,
        },
    );
    proof {
        assert(ids_of(features@) =~= seq![DEMO_FEATURE_1, DEMO_FEATURE_2, DEMO_FEATURE_3]);
    }
    let mut pain_reliefs: Vec<PainRelief> = Vec::new();
    pain_reliefs.push(
        PainRelief {
            id: DEMO_PAIN_RELIEF_1,
            name: text("Pre-built SDK & sandbox"),
            description: text("Language SDKs and a realistic sandbox environment cut integration from weeks to hours"),
            notes: text("SDKs available for Node, Python, Java, and Go; sandbox mirrors production data shapes"),
            expanded: false,
        },
    );
    pain_reliefs.push(
        PainRelief {
            id: DEMO_PAIN_RELIEF_2,
            name: text("Instant KYC auto-approval"),
            description: text("Clean applicants are approved in seconds; only genuine edge cases reach manual review"),
            notes: text("Reduces perceived friction; banks appreciate the audit trail that accompanies each decision"),
            expanded: false,
        },
    );
    pain_reliefs.push(
        PainRelief {
            id: DEMO_PAIN_RELIEF_3,
            name: text("Tunable risk thresholds"),
            description: text("Per-merchant fraud profiles reduce false positives without relaxing overall fraud controls"),
            notes: text("Threshold changes take effect without redeployment; A/B testing supported"),
            expanded: false,
        },
    );
    proof {
        assert(ids_of(pain_reliefs@) =~= seq![DEMO_PAIN_RELIEF_1, DEMO_PAIN_RELIEF_2, DEMO_PAIN_RELIEF_3]);
    }
    let mut gain_creators: Vec<GainCreator> = Vec::new();
    gain_creators.push(
        GainCreator {
            id: DEMO_GAIN_CREATOR_1,
            name: text("One-day API go-live"),
            description: text("Comprehensive docs, runbooks, and a sandbox let devs reach production in a single sprint"),
            notes: text("Interactive API explorer in the developer portal accelerates discovery"),
            expanded: false,
        },
    );
    gain_creators.push(
        GainCreator {
            id: DEMO_GAIN_CREATOR_2,
            name: text("Frictionless onboarding flow"),
            description: text("Pre-filled forms, progressive KYC steps, and instant auto-approval maximise conversion"),
            notes: text("Mobile-optimised flow reduces drop-off on smaller screens"),
            expanded: false,
        },
    );
    gain_creators.push(
        GainCreator {
            id: DEMO_GAIN_CREATOR_3,
            name: text("Transparent fraud analytics"),
            description: text("Real-time dashboard with explainable scores builds confidence for customers and regulators"),
            notes: text("Exportable reports satisfy auditor requests without engineering involvement"),
            expanded: false,
        },
    );
    proof {
        assert(ids_of(gain_creators@) =~= seq![DEMO_GAIN_CREATOR_1, DEMO_GAIN_CREATOR_2, DEMO_GAIN_CREATOR_3]);
    }
    let mut segments: Vec<CustomerSegment> = Vec::new();
    segments.push(
        CustomerSegment {
            id: DEMO_SEGMENT_1,
            name: text("Fintech Startups"),
            description: text("Early-stage fintechs embedding financial services into their product"),
            notes: text(""),
            characteristics: text("Small dev teams, need fast API integration, cost-sensitive, move quickly"),
            expanded: false,
            parent_id: None,
        },
    );
    segments.push(
        CustomerSegment {
            id: DEMO_SEGMENT_2,
            name: text("Regional Banks"),
            description: text("Mid-sized banks modernising their infrastructure via BaaS"),
            notes: text(""),
            characteristics: text("Strong compliance requirements, legacy system integration, risk-averse procurement"),
            expanded: false,
            parent_id: None,
        },
    );
    proof {
        assert(ids_of(segments@) =~= seq![DEMO_SEGMENT_1, DEMO_SEGMENT_2]);
    }
    let mut jobs: Vec<Job> = Vec::new();
    jobs.push(
        Job {
            id: DEMO_JOB_1,
            name: text("Integrate payment rails"),
            description: text("Connect to card schemes, ACH, or SWIFT via a BaaS provider API"),
            notes: text("Critical path for fintechs launching; compliance sign-off required for banks"),
            expanded: false,
        },
    );
    jobs.push(
        Job {
            id: DEMO_JOB_2,
            name: text("Manage KYC & onboarding"),
            description: text("Verify customer identities and satisfy AML obligations at account opening"),
            notes: text("Fintechs want automated flows; banks need audit trails for regulators"),
            expanded: false,
        },
    );
    jobs.push(
        Job {
            id: DEMO_JOB_3,
            name: text("Monitor transactions for fraud"),
            description: text("Detect and act on suspicious activity in real time"),
            notes: text("False-positive rate is a key concern for both segments"),
            expanded: false,
        },
    );
    proof {
        assert(ids_of(jobs@) =~= seq![DEMO_JOB_1, DEMO_JOB_2, DEMO_JOB_3]);
    }
    let mut pains: Vec<Pain> = Vec::new();
    pains.push(
        Pain {
            id: DEMO_PAIN_1,
            name: text("Complex API integration"),
            description: text("BaaS APIs are inconsistent across providers, slowing time-to-market"),
            notes: text("Fintechs cite this as the top bottleneck before launch"),
            importance_bits: 0x3F66_6666,
            expanded: false,
        },
    );
    pains.push(
        Pain {
            id: DEMO_PAIN_2,
            name: text("KYC drop-off rates"),
            description: text("Lengthy identity checks cause customers to abandon onboarding"),
            notes: text("Manual review steps are the main culprit for regional banks"),
            importance_bits: 0x3F4C_CCCD,
            expanded: false,
        },
    );
    pains.push(
        Pain {
            id: DEMO_PAIN_3,
            name: text("High false-positive fraud alerts"),
            description: text("Legitimate transactions blocked, damaging customer trust"),
            notes: text("Both segments lose revenue and incur support costs from false positives"),
            importance_bits: 0x3F33_3333,
            expanded: false,
        },
    );
    proof {
        assert(ids_of(pains@) =~= seq![DEMO_PAIN_1, DEMO_PAIN_2, DEMO_PAIN_3]);
    }
    let mut gains: Vec<Gain> = Vec::new();
    gains.push(
        Gain {
            id: DEMO_GAIN_1,
            name: text("Fast API go-live"),
            description: text("Launch payment capabilities in days with well-documented, consistent APIs"),
            notes: text("Top priority for fintechs racing to market"),
            importance_bits: 0x3F66_6666,
            expanded: false,
        },
    );
    gains.push(
        Gain {
            id: DEMO_GAIN_2,
            name: text("High KYC pass rates"),
            description: text("More customers complete onboarding with minimal friction"),
            notes: text("Automated decisioning with clear audit trail satisfies both segments"),
            importance_bits: 0x3F4C_CCCD,
            expanded: false,
        },
    );
    gains.push(
        Gain {
            id: DEMO_GAIN_3,
            name: text("Accurate fraud detection"),
            description: text("Catch real fraud while keeping false-positive rates low"),
            notes: text("Tunable risk thresholds are valued by regional banks"),
            importance_bits: 0x3F40_0000,
            expanded: false,
        },
    );
    proof {
        assert(ids_of(gains@) =~= seq![DEMO_GAIN_1, DEMO_GAIN_2, DEMO_GAIN_3]);
    }
    let mut product_feature_links: Vec<Link> = Vec::new();
    product_feature_links.push((DEMO_PRODUCT_1, DEMO_FEATURE_1));
    product_feature_links.push((DEMO_PRODUCT_1, DEMO_FEATURE_3));
    product_feature_links.push((DEMO_PRODUCT_2, DEMO_FEATURE_2));
    product_feature_links.push((DEMO_PRODUCT_2, DEMO_FEATURE_3));
    proof {
        assert(product_feature_links@ =~= seq![(DEMO_PRODUCT_1, DEMO_FEATURE_1), (DEMO_PRODUCT_1, DEMO_FEATURE_3), (DEMO_PRODUCT_2, DEMO_FEATURE_2), (DEMO_PRODUCT_2, DEMO_FEATURE_3)]);
    }
    let mut feature_pain_relief_links: Vec<Link> = Vec::new();
    feature_pain_relief_links.push((DEMO_FEATURE_1, DEMO_PAIN_RELIEF_1));
    feature_pain_relief_links.push((DEMO_FEATURE_2, DEMO_PAIN_RELIEF_2));
    feature_pain_relief_links.push((DEMO_FEATURE_3, DEMO_PAIN_RELIEF_3));
    proof {
        assert(feature_pain_relief_links@ =~= seq![(DEMO_FEATURE_1, DEMO_PAIN_RELIEF_1), (DEMO_FEATURE_2, DEMO_PAIN_RELIEF_2), (DEMO_FEATURE_3, DEMO_PAIN_RELIEF_3)]);
    }
    let mut feature_gain_creator_links: Vec<Link> = Vec::new();
    feature_gain_creator_links.push((DEMO_FEATURE_1, DEMO_GAIN_CREATOR_1));
    feature_gain_creator_links.push((DEMO_FEATURE_2, DEMO_GAIN_CREATOR_2));
    feature_gain_creator_links.push((DEMO_FEATURE_3, DEMO_GAIN_CREATOR_3));
    proof {
        assert(feature_gain_creator_links@ =~= seq![(DEMO_FEATURE_1, DEMO_GAIN_CREATOR_1), (DEMO_FEATURE_2, DEMO_GAIN_CREATOR_2), (DEMO_FEATURE_3, DEMO_GAIN_CREATOR_3)]);
    }
    let mut segment_job_links: Vec<Link> = Vec::new();
    segment_job_links.push((DEMO_JOB_1, DEMO_SEGMENT_1));
    segment_job_links.push((DEMO_JOB_2, DEMO_SEGMENT_1));
    segment_job_links.push((DEMO_JOB_3, DEMO_SEGMENT_1));
    segment_job_links.push((DEMO_JOB_2, DEMO_SEGMENT_2));
    segment_job_links.push((DEMO_JOB_3, DEMO_SEGMENT_2));
    proof {
        assert(segment_job_links@ =~= seq![(DEMO_JOB_1, DEMO_SEGMENT_1), (DEMO_JOB_2, DEMO_SEGMENT_1), (DEMO_JOB_3, DEMO_SEGMENT_1), (DEMO_JOB_2, DEMO_SEGMENT_2), (DEMO_JOB_3, DEMO_SEGMENT_2)]);
    }
    let mut job_pain_links: Vec<Link> = Vec::new();
    job_pain_links.push((DEMO_PAIN_1, DEMO_JOB_1));
    job_pain_links.push((DEMO_PAIN_2, DEMO_JOB_2));
    job_pain_links.push((DEMO_PAIN_3, DEMO_JOB_3));
    proof {
        assert(job_pain_links@ =~= seq![(DEMO_PAIN_1, DEMO_JOB_1), (DEMO_PAIN_2, DEMO_JOB_2), (DEMO_PAIN_3, DEMO_JOB_3)]);
    }
    let mut job_gain_links: Vec<Link> = Vec::new();
    job_gain_links.push((DEMO_GAIN_1, DEMO_JOB_1));
    job_gain_links.push((DEMO_GAIN_2, DEMO_JOB_2));
    job_gain_links.push((DEMO_GAIN_3, DEMO_JOB_3));
    proof {
        assert(job_gain_links@ =~= seq![(DEMO_GAIN_1, DEMO_JOB_1), (DEMO_GAIN_2, DEMO_JOB_2), (DEMO_GAIN_3, DEMO_JOB_3)]);
    }
    let mut pain_relief_annotations: Vec<ValueAnnotation> = Vec::new();
    pain_relief_annotations.push(
        ValueAnnotation {
            pain_or_gain_id: DEMO_PAIN_1,
            reliever_or_creator_id: DEMO_PAIN_RELIEF_1,
            value_type: ValueType::TableStake,
            strength_bits: 0x3F66_6666,
        },
    );
    pain_relief_annotations.push(
        ValueAnnotation {
            pain_or_gain_id: DEMO_PAIN_2,
            reliever_or_creator_id: DEMO_PAIN_RELIEF_2,
            value_type: ValueType::TableStake,
            strength_bits: 0x3F59_999A,
        },
    );
    pain_relief_annotations.push(
        ValueAnnotation {
            pain_or_gain_id: DEMO_PAIN_3,
            reliever_or_creator_id: DEMO_PAIN_RELIEF_3,
            value_type: ValueType::Differentiator,
            strength_bits: 0x3F33_3333,
        },
    );
    proof {
        assert(pain_relief_annotations@ =~= seq![
            ValueAnnotation {
                pain_or_gain_id: DEMO_PAIN_1,
                reliever_or_creator_id: DEMO_PAIN_RELIEF_1,
                value_type: ValueType::TableStake,
                strength_bits: 0x3F66_6666,
            },
            ValueAnnotation {
                pain_or_gain_id: DEMO_PAIN_2,
                reliever_or_creator_id: DEMO_PAIN_RELIEF_2,
                value_type: ValueType::TableStake,
                strength_bits: 0x3F59_999A,
            },
            ValueAnnotation {
                pain_or_gain_id: DEMO_PAIN_3,
                reliever_or_creator_id: DEMO_PAIN_RELIEF_3,
                value_type: ValueType::Differentiator,
                strength_bits: 0x3F33_3333,
            },
        ]);
    }
    let mut gain_creator_annotations: Vec<ValueAnnotation> = Vec::new();
    gain_creator_annotations.push(
        ValueAnnotation {
            pain_or_gain_id: DEMO_GAIN_1,
            reliever_or_creator_id: DEMO_GAIN_CREATOR_1,
            value_type: ValueType::Differentiator,
            strength_bits: 0x3F59_999A,
        },
    );
    gain_creator_annotations.push(
        ValueAnnotation {
            pain_or_gain_id: DEMO_GAIN_2,
            reliever_or_creator_id: DEMO_GAIN_CREATOR_2,
            value_type: ValueType::Differentiator,
            strength_bits: 0x3F4C_CCCD,
        },
    );
    gain_creator_annotations.push(
        ValueAnnotation {
            pain_or_gain_id: DEMO_GAIN_3,
            reliever_or_creator_id: DEMO_GAIN_CREATOR_3,
            value_type: ValueType::Differentiator,
            strength_bits: 0x3F40_0000,
        },
    );
    proof {
        assert(gain_creator_annotations@ =~= seq![
            ValueAnnotation {
                pain_or_gain_id: DEMO_GAIN_1,
                reliever_or_creator_id: DEMO_GAIN_CREATOR_1,
                value_type: ValueType::Differentiator,
                strength_bits: 0x3F59_999A,
            },
            ValueAnnotation {
                pain_or_gain_id: DEMO_GAIN_2,
                reliever_or_creator_id: DEMO_GAIN_CREATOR_2,
                value_type: ValueType::Differentiator,
                strength_bits: 0x3F4C_CCCD,
            },
            ValueAnnotation {
                pain_or_gain_id: DEMO_GAIN_3,
                reliever_or_creator_id: DEMO_GAIN_CREATOR_3,
                value_type: ValueType::Differentiator,
                strength_bits: 0x3F40_0000,
            },
        ]);
    }
    DemoData {
        products,
        features,
        pain_reliefs,
        gain_creators,
        segments,
        jobs,
        pains,
        gains,
        product_feature_links,
        feature_pain_relief_links,
        feature_gain_creator_links,
        segment_job_links,
        job_pain_links,
        job_gain_links,
        pain_relief_annotations,
        gain_creator_annotations,
    }
}

/// Merges `demo` into the editor state: each entity list takes the
/// entities of `demo` positionally, overwriting an entity at the same index
/// or appending, and each link and annotation is added unless already
/// present, so that merging the same data again accumulates no duplicates.
pub fn merge_demo_data(app: &mut App, demo: DemoData)
    ensures
        merged_with(*old(app), demo, *final(app)),
{
    let ghost d = demo;
    upsert_items(&mut app.valueprop_page.products_state.products, demo.products);
    upsert_items(&mut app.valueprop_page.features_state.features, demo.features);
    upsert_items(&mut app.valueprop_page.pain_relief_state.pain_reliefs, demo.pain_reliefs);
    upsert_items(&mut app.valueprop_page.gain_creator_state.gain_creators, demo.gain_creators);
    upsert_items(&mut app.customer_segment_page.segments_state.segments, demo.segments);
    upsert_items(&mut app.customer_segment_page.jobs_state.jobs, demo.jobs);
    upsert_items(&mut app.customer_segment_page.pains_state.pains, demo.pains);
    upsert_items(&mut app.customer_segment_page.gains_state.gains, demo.gains);
    add_links(&mut app.valueprop_page.product_feature_links, &demo.product_feature_links);
    add_links(&mut app.valueprop_page.feature_pain_relief_links, &demo.feature_pain_relief_links);
    add_links(&mut app.valueprop_page.feature_gain_creator_links, &demo.feature_gain_creator_links);
    add_links(&mut app.customer_segment_page.segment_job_links, &demo.segment_job_links);
    add_links(&mut app.customer_segment_page.job_pain_links, &demo.job_pain_links);
    add_links(&mut app.customer_segment_page.job_gain_links, &demo.job_gain_links);
    add_annotations(&mut app.valueprop_page.pain_relief_annotations, &demo.pain_relief_annotations);
    add_annotations(&mut app.valueprop_page.gain_creator_annotations, &demo.gain_creator_annotations);
    proof {
        assert(app.valueprop_page@ =~= (ValuePropPageView {
            products: upserted(old(app).valueprop_page@.products, d.products@),
            features: upserted(old(app).valueprop_page@.features, d.features@),
            pain_reliefs: upserted(old(app).valueprop_page@.pain_reliefs, d.pain_reliefs@),
            gain_creators: upserted(old(app).valueprop_page@.gain_creators, d.gain_creators@),
            product_feature_links: with_links(old(app).valueprop_page@.product_feature_links, d.product_feature_links@),
            feature_pain_relief_links: with_links(old(app).valueprop_page@.feature_pain_relief_links, d.feature_pain_relief_links@),
            feature_gain_creator_links: with_links(old(app).valueprop_page@.feature_gain_creator_links, d.feature_gain_creator_links@),
            pain_relief_annotations: with_annotations(old(app).valueprop_page@.pain_relief_annotations, d.pain_relief_annotations@),
            gain_creator_annotations: with_annotations(old(app).valueprop_page@.gain_creator_annotations, d.gain_creator_annotations@),
            ..old(app).valueprop_page@
        }));
    }
}

/// Starts the demonstration: the saved editor state (or a fresh one) with
/// the demonstration portfolio merged in.
pub fn load_demo_data(saved: App) -> (r: App)
    ensures
        exists|d: DemoData| #[trigger] is_demo_data(d) && merged_with(saved, d, r),
{
    let demo = demo_data();
    let ghost d = demo;
    let mut app = saved;
    merge_demo_data(&mut app, demo);
    proof {
        assert(is_demo_data(d) && merged_with(saved, d, app));
    }
    app
}

/// The sixteen hexadecimal digits, and no digits of nothing.
proof fn lemma_hex_digit_values()
    ensures
        hex_digit(0) == '0',
        hex_digit(1) == '1',
        hex_digit(2) == '2',
        hex_digit(3) == '3',
        hex_digit(4) == '4',
        hex_digit(5) == '5',
        hex_digit(6) == '6',
        hex_digit(7) == '7',
        hex_digit(8) == '8',
        hex_digit(9) == '9',
        hex_digit(10) == 'a',
        hex_digit(11) == 'b',
        hex_digit(12) == 'c',
        hex_digit(13) == 'd',
        hex_digit(14) == 'e',
        hex_digit(15) == 'f',
        hex_digits(0nat, 0) == Seq::<char>::empty(),
{
    assert(hex_digit(0) == '0');
    assert(hex_digit(1) == '1');
    assert(hex_digit(2) == '2');
    assert(hex_digit(3) == '3');
    assert(hex_digit(4) == '4');
    assert(hex_digit(5) == '5');
    assert(hex_digit(6) == '6');
    assert(hex_digit(7) == '7');
    assert(hex_digit(8) == '8');
    assert(hex_digit(9) == '9');
    assert(hex_digit(10) == 'a');
    assert(hex_digit(11) == 'b');
    assert(hex_digit(12) == 'c');
    assert(hex_digit(13) == 'd');
    assert(hex_digit(14) == 'e');
    assert(hex_digit(15) == 'f');
    assert(hex_digits(0nat, 0) =~= Seq::<char>::empty());
}

/// `DEMO_PRODUCT_1` is the value whose UUID text is `e3142c46-5ac5-4425-8080-a8faff6e3ae4`.
proof fn lemma_demo_product_1_text()
    ensures
        uuid_text(DEMO_PRODUCT_1) == "e3142c46-5ac5-4425-8080-a8faff6e3ae4"@,
{
    lemma_hex_digit_values();
    assert(hex_digits(14nat, 1) =~= seq!['e']);
    assert(hex_digits(227nat, 2) =~= seq!['e', '3']);
    assert(hex_digits(3633nat, 3) =~= seq!['e', '3', '1']);
    assert(hex_digits(58132nat, 4) =~= seq!['e', '3', '1', '4']);
    assert(hex_digits(930114nat, 5) =~= seq!['e', '3', '1', '4', '2']);
    assert(hex_digits(14881836nat, 6) =~= seq!['e', '3', '1', '4', '2', 'c']);
    assert(hex_digits(238109380nat, 7) =~= seq!['e', '3', '1', '4', '2', 'c', '4']);
    assert(hex_digits(3809750086nat, 8) =~= seq!['e', '3', '1', '4', '2', 'c', '4', '6']);
    assert(hex_digits(60956001381nat, 9) =~= seq!['e', '3', '1', '4', '2', 'c', '4', '6', '5']);
    assert(hex_digits(975296022106nat, 10) =~= seq!['e', '3', '1', '4', '2', 'c', '4', '6', '5', 'a']);
    assert(hex_digits(15604736353708nat, 11) =~= seq!['e', '3', '1', '4', '2', 'c', '4', '6', '5', 'a', 'c']);
    assert(hex_digits(249675781659333nat, 12) =~= seq!['e', '3', '1', '4', '2', 'c', '4', '6', '5', 'a', 'c', '5']);
    assert(hex_digits(3994812506549332nat, 13) =~= seq!['e', '3', '1', '4', '2', 'c', '4', '6', '5', 'a', 'c', '5', '4']);
    assert(hex_digits(63917000104789316nat, 14) =~= seq!['e', '3', '1', '4', '2', 'c', '4', '6', '5', 'a', 'c', '5', '4', '4']);
    assert(hex_digits(1022672001676629058nat, 15) =~= seq!['e', '3', '1', '4', '2', 'c', '4', '6', '5', 'a', 'c', '5', '4', '4', '2']);
    assert(hex_digits(16362752026826064933nat, 16) =~= seq!['e', '3', '1', '4', '2', 'c', '4', '6', '5', 'a', 'c', '5', '4', '4', '2', '5']);
    assert(hex_digits(261804032429217038936nat, 17) =~= seq!['e', '3', '1', '4', '2', 'c', '4', '6', '5', 'a', 'c', '5', '4', '4', '2', '5', '8']);
    assert(hex_digits(4188864518867472622976nat, 18) =~= seq!['e', '3', '1', '4', '2', 'c', '4', '6', '5', 'a', 'c', '5', '4', '4', '2', '5', '8', '0']);
    assert(hex_digits(67021832301879561967624nat, 19) =~= seq!['e', '3', '1', '4', '2', 'c', '4', '6', '5', 'a', 'c', '5', '4', '4', '2', '5', '8', '0', '8']);
    assert(hex_digits(1072349316830072991481984nat, 20) =~= seq!['e', '3', '1', '4', '2', 'c', '4', '6', '5', 'a', 'c', '5', '4', '4', '2', '5', '8', '0', '8', '0']);
    assert(hex_digits(17157589069281167863711754nat, 21) =~= seq!['e', '3', '1', '4', '2', 'c', '4', '6', '5', 'a', 'c', '5', '4', '4', '2', '5', '8', '0', '8', '0', 'a']);
    assert(hex_digits(274521425108498685819388072nat, 22) =~= seq!['e', '3', '1', '4', '2', 'c', '4', '6', '5', 'a', 'c', '5', '4', '4', '2', '5', '8', '0', '8', '0', 'a', '8']);
    assert(hex_digits(4392342801735978973110209167nat, 23) =~= seq!['e', '3', '1', '4', '2', 'c', '4', '6', '5', 'a', 'c', '5', '4', '4', '2', '5', '8', '0', '8', '0', 'a', '8', 'f']);
    assert(hex_digits(70277484827775663569763346682nat, 24) =~= seq!['e', '3', '1', '4', '2', 'c', '4', '6', '5', 'a', 'c', '5', '4', '4', '2', '5', '8', '0', '8', '0', 'a', '8', 'f', 'a']);
    assert(hex_digits(1124439757244410617116213546927nat, 25) =~= seq!['e', '3', '1', '4', '2', 'c', '4', '6', '5', 'a', 'c', '5', '4', '4', '2', '5', '8', '0', '8', '0', 'a', '8', 'f', 'a', 'f']);
    assert(hex_digits(17991036115910569873859416750847nat, 26) =~= seq!['e', '3', '1', '4', '2', 'c', '4', '6', '5', 'a', 'c', '5', '4', '4', '2', '5', '8', '0', '8', '0', 'a', '8', 'f', 'a', 'f', 'f']);
    assert(hex_digits(287856577854569117981750668013558nat, 27) =~= seq!['e', '3', '1', '4', '2', 'c', '4', '6', '5', 'a', 'c', '5', '4', '4', '2', '5', '8', '0', '8', '0', 'a', '8', 'f', 'a', 'f', 'f', '6']);
    assert(hex_digits(4605705245673105887708010688216942nat, 28) =~= seq!['e', '3', '1', '4', '2', 'c', '4', '6', '5', 'a', 'c', '5', '4', '4', '2', '5', '8', '0', '8', '0', 'a', '8', 'f', 'a', 'f', 'f', '6', 'e']);
    assert(hex_digits(73691283930769694203328171011471075nat, 29) =~= seq!['e', '3', '1', '4', '2', 'c', '4', '6', '5', 'a', 'c', '5', '4', '4', '2', '5', '8', '0', '8', '0', 'a', '8', 'f', 'a', 'f', 'f', '6', 'e', '3']);
    assert(hex_digits(1179060542892315107253250736183537210nat, 30) =~= seq!['e', '3', '1', '4', '2', 'c', '4', '6', '5', 'a', 'c', '5', '4', '4', '2', '5', '8', '0', '8', '0', 'a', '8', 'f', 'a', 'f', 'f', '6', 'e', '3', 'a']);
    assert(hex_digits(18864968686277041716052011778936595374nat, 31) =~= seq!['e', '3', '1', '4', '2', 'c', '4', '6', '5', 'a', 'c', '5', '4', '4', '2', '5', '8', '0', '8', '0', 'a', '8', 'f', 'a', 'f', 'f', '6', 'e', '3', 'a', 'e']);
    assert(hex_digits(301839498980432667456832188462985525988nat, 32) =~= seq!['e', '3', '1', '4', '2', 'c', '4', '6', '5', 'a', 'c', '5', '4', '4', '2', '5', '8', '0', '8', '0', 'a', '8', 'f', 'a', 'f', 'f', '6', 'e', '3', 'a', 'e', '4']);
    reveal_strlit("e3142c46-5ac5-4425-8080-a8faff6e3ae4");
    assert(uuid_text(DEMO_PRODUCT_1) =~= "e3142c46-5ac5-4425-8080-a8faff6e3ae4"@);
}

/// `DEMO_PRODUCT_2` is the value whose UUID text is `93a7b2b5-ce26-4078-bce6-ca7d2d941b70`.
proof fn lemma_demo_product_2_text()
    ensures
        uuid_text(DEMO_PRODUCT_2) == "93a7b2b5-ce26-4078-bce6-ca7d2d941b70"@,
{
    lemma_hex_digit_values();
    assert(hex_digits(9nat, 1) =~= seq!['9']);
    assert(hex_digits(147nat, 2) =~= seq!['9', '3']);
    assert(hex_digits(2362nat, 3) =~= seq!['9', '3', 'a']);
    assert(hex_digits(37799nat, 4) =~= seq!['9', '3', 'a', '7']);
    assert(hex_digits(604795nat, 5) =~= seq!['9', '3', 'a', '7', 'b']);
    assert(hex_digits(9676722nat, 6) =~= seq!['9', '3', 'a', '7', 'b', '2']);
    assert(hex_digits(154827563nat, 7) =~= seq!['9', '3', 'a', '7', 'b', '2', 'b']);
    assert(hex_digits(2477241013nat, 8) =~= seq!['9', '3', 'a', '7', 'b', '2', 'b', '5']);
    assert(hex_digits(39635856220nat, 9) =~= seq!['9', '3', 'a', '7', 'b', '2', 'b', '5', 'c']);
    assert(hex_digits(634173699534nat, 10) =~= seq!['9', '3', 'a', '7', 'b', '2', 'b', '5', 'c', 'e']);
    assert(hex_digits(10146779192546nat, 11) =~= seq!['9', '3', 'a', '7', 'b', '2', 'b', '5', 'c', 'e', '2']);
    assert(hex_digits(162348467080742nat, 12) =~= seq!['9', '3', 'a', '7', 'b', '2', 'b', '5', 'c', 'e', '2', '6']);
    assert(hex_digits(2597575473291876nat, 13) =~= seq!['9', '3', 'a', '7', 'b', '2', 'b', '5', 'c', 'e', '2', '6', '4']);
    assert(hex_digits(41561207572670016nat, 14) =~= seq!['9', '3', 'a', '7', 'b', '2', 'b', '5', 'c', 'e', '2', '6', '4', '0']);
    assert(hex_digits(664979321162720263nat, 15) =~= seq!['9', '3', 'a', '7', 'b', '2', 'b', '5', 'c', 'e', '2', '6', '4', '0', '7']);
    assert(hex_digits(10639669138603524216nat, 16) =~= seq!['9', '3', 'a', '7', 'b', '2', 'b', '5', 'c', 'e', '2', '6', '4', '0', '7', '8']);
    assert(hex_digits(170234706217656387467nat, 17) =~= seq!['9', '3', 'a', '7', 'b', '2', 'b', '5', 'c', 'e', '2', '6', '4', '0', '7', '8', 'b']);
    assert(hex_digits(2723755299482502199484nat, 18) =~= seq!['9', '3', 'a', '7', 'b', '2', 'b', '5', 'c', 'e', '2', '6', '4', '0', '7', '8', 'b', 'c']);
    assert(hex_digits(43580084791720035191758nat, 19) =~= seq!['9', '3', 'a', '7', 'b', '2', 'b', '5', 'c', 'e', '2', '6', '4', '0', '7', '8', 'b', 'c', 'e']);
    assert(hex_digits(697281356667520563068134nat, 20) =~= seq!['9', '3', 'a', '7', 'b', '2', 'b', '5', 'c', 'e', '2', '6', '4', '0', '7', '8', 'b', 'c', 'e', '6']);
    assert(hex_digits(11156501706680329009090156nat, 21) =~= seq!['9', '3', 'a', '7', 'b', '2', 'b', '5', 'c', 'e', '2', '6', '4', '0', '7', '8', 'b', 'c', 'e', '6', 'c']);
    assert(hex_digits(178504027306885264145442506nat, 22) =~= seq!['9', '3', 'a', '7', 'b', '2', 'b', '5', 'c', 'e', '2', '6', '4', '0', '7', '8', 'b', 'c', 'e', '6', 'c', 'a']);
    assert(hex_digits(2856064436910164226327080103nat, 23) =~= seq!['9', '3', 'a', '7', 'b', '2', 'b', '5', 'c', 'e', '2', '6', '4', '0', '7', '8', 'b', 'c', 'e', '6', 'c', 'a', '7']);
    assert(hex_digits(45697030990562627621233281661nat, 24) =~= seq!['9', '3', 'a', '7', 'b', '2', 'b', '5', 'c', 'e', '2', '6', '4', '0', '7', '8', 'b', 'c', 'e', '6', 'c', 'a', '7', 'd']);
    assert(hex_digits(731152495849002041939732506578nat, 25) =~= seq!['9', '3', 'a', '7', 'b', '2', 'b', '5', 'c', 'e', '2', '6', '4', '0', '7', '8', 'b', 'c', 'e', '6', 'c', 'a', '7', 'd', '2']);
    assert(hex_digits(11698439933584032671035720105261nat, 26) =~= seq!['9', '3', 'a', '7', 'b', '2', 'b', '5', 'c', 'e', '2', '6', '4', '0', '7', '8', 'b', 'c', 'e', '6', 'c', 'a', '7', 'd', '2', 'd']);
    assert(hex_digits(187175038937344522736571521684185nat, 27) =~= seq!['9', '3', 'a', '7', 'b', '2', 'b', '5', 'c', 'e', '2', '6', '4', '0', '7', '8', 'b', 'c', 'e', '6', 'c', 'a', '7', 'd', '2', 'd', '9']);
    assert(hex_digits(2994800622997512363785144346946964nat, 28) =~= seq!['9', '3', 'a', '7', 'b', '2', 'b', '5', 'c', 'e', '2', '6', '4', '0', '7', '8', 'b', 'c', 'e', '6', 'c', 'a', '7', 'd', '2', 'd', '9', '4']);
    assert(hex_digits(47916809967960197820562309551151425nat, 29) =~= seq!['9', '3', 'a', '7', 'b', '2', 'b', '5', 'c', 'e', '2', '6', '4', '0', '7', '8', 'b', 'c', 'e', '6', 'c', 'a', '7', 'd', '2', 'd', '9', '4', '1']);
    assert(hex_digits(766668959487363165128996952818422811nat, 30) =~= seq!['9', '3', 'a', '7', 'b', '2', 'b', '5', 'c', 'e', '2', '6', '4', '0', '7', '8', 'b', 'c', 'e', '6', 'c', 'a', '7', 'd', '2', 'd', '9', '4', '1', 'b']);
    assert(hex_digits(12266703351797810642063951245094764983nat, 31) =~= seq!['9', '3', 'a', '7', 'b', '2', 'b', '5', 'c', 'e', '2', '6', '4', '0', '7', '8', 'b', 'c', 'e', '6', 'c', 'a', '7', 'd', '2', 'd', '9', '4', '1', 'b', '7']);
    assert(hex_digits(196267253628764970273023219921516239728nat, 32) =~= seq!['9', '3', 'a', '7', 'b', '2', 'b', '5', 'c', 'e', '2', '6', '4', '0', '7', '8', 'b', 'c', 'e', '6', 'c', 'a', '7', 'd', '2', 'd', '9', '4', '1', 'b', '7', '0']);
    reveal_strlit("93a7b2b5-ce26-4078-bce6-ca7d2d941b70");
    assert(uuid_text(DEMO_PRODUCT_2) =~= "93a7b2b5-ce26-4078-bce6-ca7d2d941b70"@);
}

/// `DEMO_FEATURE_1` is the value whose UUID text is `a1b2c3d4-e5f6-7890-abcd-ef1234567890`.
proof fn lemma_demo_feature_1_text()
    ensures
        uuid_text(DEMO_FEATURE_1) == "a1b2c3d4-e5f6-7890-abcd-ef1234567890"@,
{
    lemma_hex_digit_values();
    assert(hex_digits(10nat, 1) =~= seq!['a']);
    assert(hex_digits(161nat, 2) =~= seq!['a', '1']);
    assert(hex_digits(2587nat, 3) =~= seq!['a', '1', 'b']);
    assert(hex_digits(41394nat, 4) =~= seq!['a', '1', 'b', '2']);
    assert(hex_digits(662316nat, 5) =~= seq!['a', '1', 'b', '2', 'c']);
    assert(hex_digits(10597059nat, 6) =~= seq!['a', '1', 'b', '2', 'c', '3']);
    assert(hex_digits(169552957nat, 7) =~= seq!['a', '1', 'b', '2', 'c', '3', 'd']);
    assert(hex_digits(2712847316nat, 8) =~= seq!['a', '1', 'b', '2', 'c', '3', 'd', '4']);
    assert(hex_digits(43405557070nat, 9) =~= seq!['a', '1', 'b', '2', 'c', '3', 'd', '4', 'e']);
    assert(hex_digits(694488913125nat, 10) =~= seq!['a', '1', 'b', '2', 'c', '3', 'd', '4', 'e', '5']);
    assert(hex_digits(11111822610015nat, 11) =~= seq!['a', '1', 'b', '2', 'c', '3', 'd', '4', 'e', '5', 'f']);
    assert(hex_digits(177789161760246nat, 12) =~= seq!['a', '1', 'b', '2', 'c', '3', 'd', '4', 'e', '5', 'f', '6']);
    assert(hex_digits(2844626588163943nat, 13) =~= seq!['a', '1', 'b', '2', 'c', '3', 'd', '4', 'e', '5', 'f', '6', '7']);
    assert(hex_digits(45514025410623096nat, 14) =~= seq!['a', '1', 'b', '2', 'c', '3', 'd', '4', 'e', '5', 'f', '6', '7', '8']);
    assert(hex_digits(728224406569969545nat, 15) =~= seq!['a', '1', 'b', '2', 'c', '3', 'd', '4', 'e', '5', 'f', '6', '7', '8', '9']);
    assert(hex_digits(11651590505119512720nat, 16) =~= seq!['a', '1', 'b', '2', 'c', '3', 'd', '4', 'e', '5', 'f', '6', '7', '8', '9', '0']);
    assert(hex_digits(186425448081912203530nat, 17) =~= seq!['a', '1', 'b', '2', 'c', '3', 'd', '4', 'e', '5', 'f', '6', '7', '8', '9', '0', 'a']);
    assert(hex_digits(2982807169310595256491nat, 18) =~= seq!['a', '1', 'b', '2', 'c', '3', 'd', '4', 'e', '5', 'f', '6', '7', '8', '9', '0', 'a', 'b']);
    assert(hex_digits(47724914708969524103868nat, 19) =~= seq!['a', '1', 'b', '2', 'c', '3', 'd', '4', 'e', '5', 'f', '6', '7', '8', '9', '0', 'a', 'b', 'c']);
    assert(hex_digits(763598635343512385661901nat, 20) =~= seq!['a', '1', 'b', '2', 'c', '3', 'd', '4', 'e', '5', 'f', '6', '7', '8', '9', '0', 'a', 'b', 'c', 'd']);
    assert(hex_digits(12217578165496198170590430nat, 21) =~= seq!['a', '1', 'b', '2', 'c', '3', 'd', '4', 'e', '5', 'f', '6', '7', '8', '9', '0', 'a', 'b', 'c', 'd', 'e']);
    assert(hex_digits(195481250647939170729446895nat, 22) =~= seq!['a', '1', 'b', '2', 'c', '3', 'd', '4', 'e', '5', 'f', '6', '7', '8', '9', '0', 'a', 'b', 'c', 'd', 'e', 'f']);
    assert(hex_digits(3127700010367026731671150321nat, 23) =~= seq!['a', '1', 'b', '2', 'c', '3', 'd', '4', 'e', '5', 'f', '6', '7', '8', '9', '0', 'a', 'b', 'c', 'd', 'e', 'f', '1']);
    assert(hex_digits(50043200165872427706738405138nat, 24) =~= seq!['a', '1', 'b', '2', 'c', '3', 'd', '4', 'e', '5', 'f', '6', '7', '8', '9', '0', 'a', 'b', 'c', 'd', 'e', 'f', '1', '2']);
    assert(hex_digits(800691202653958843307814482211nat, 25) =~= seq!['a', '1', 'b', '2', 'c', '3', 'd', '4', 'e', '5', 'f', '6', '7', '8', '9', '0', 'a', 'b', 'c', 'd', 'e', 'f', '1', '2', '3']);
    assert(hex_digits(12811059242463341492925031715380nat, 26) =~= seq!['a', '1', 'b', '2', 'c', '3', 'd', '4', 'e', '5', 'f', '6', '7', '8', '9', '0', 'a', 'b', 'c', 'd', 'e', 'f', '1', '2', '3', '4']);
    assert(hex_digits(204976947879413463886800507446085nat, 27) =~= seq!['a', '1', 'b', '2', 'c', '3', 'd', '4', 'e', '5', 'f', '6', '7', '8', '9', '0', 'a', 'b', 'c', 'd', 'e', 'f', '1', '2', '3', '4', '5']);
    assert(hex_digits(3279631166070615422188808119137366nat, 28) =~= seq!['a', '1', 'b', '2', 'c', '3', 'd', '4', 'e', '5', 'f', '6', '7', '8', '9', '0', 'a', 'b', 'c', 'd', 'e', 'f', '1', '2', '3', '4', '5', '6']);
    assert(hex_digits(52474098657129846755020929906197863nat, 29) =~= seq!['a', '1', 'b', '2', 'c', '3', 'd', '4', 'e', '5', 'f', '6', '7', '8', '9', '0', 'a', 'b', 'c', 'd', 'e', 'f', '1', '2', '3', '4', '5', '6', '7']);
    assert(hex_digits(839585578514077548080334878499165816nat, 30) =~= seq!['a', '1', 'b', '2', 'c', '3', 'd', '4', 'e', '5', 'f', '6', '7', '8', '9', '0', 'a', 'b', 'c', 'd', 'e', 'f', '1', '2', '3', '4', '5', '6', '7', '8']);
    assert(hex_digits(13433369256225240769285358055986653065nat, 31) =~= seq!['a', '1', 'b', '2', 'c', '3', 'd', '4', 'e', '5', 'f', '6', '7', '8', '9', '0', 'a', 'b', 'c', 'd', 'e', 'f', '1', '2', '3', '4', '5', '6', '7', '8', '9']);
    assert(hex_digits(214933908099603852308565728895786449040nat, 32) =~= seq!['a', '1', 'b', '2', 'c', '3', 'd', '4', 'e', '5', 'f', '6', '7', '8', '9', '0', 'a', 'b', 'c', 'd', 'e', 'f', '1', '2', '3', '4', '5', '6', '7', '8', '9', '0']);
    reveal_strlit("a1b2c3d4-e5f6-7890-abcd-ef1234567890");
    assert(uuid_text(DEMO_FEATURE_1) =~= "a1b2c3d4-e5f6-7890-abcd-ef1234567890"@);
}

/// `DEMO_FEATURE_2` is the value whose UUID text is `b2c3d4e5-f6a7-8901-bcde-f12345678901`.
proof fn lemma_demo_feature_2_text()
    ensures
        uuid_text(DEMO_FEATURE_2) == "b2c3d4e5-f6a7-8901-bcde-f12345678901"@,
{
    lemma_hex_digit_values();
    assert(hex_digits(11nat, 1) =~= seq!['b']);
    assert(hex_digits(178nat, 2) =~= seq!['b', '2']);
    assert(hex_digits(2860nat, 3) =~= seq!['b', '2', 'c']);
    assert(hex_digits(45763nat, 4) =~= seq!['b', '2', 'c', '3']);
    assert(hex_digits(732221nat, 5) =~= seq!['b', '2', 'c', '3', 'd']);
    assert(hex_digits(11715540nat, 6) =~= seq!['b', '2', 'c', '3', 'd', '4']);
    assert(hex_digits(187448654nat, 7) =~= seq!['b', '2', 'c', '3', 'd', '4', 'e']);
    assert(hex_digits(2999178469nat, 8) =~= seq!['b', '2', 'c', '3', 'd', '4', 'e', '5']);
    assert(hex_digits(47986855519nat, 9) =~= seq!['b', '2', 'c', '3', 'd', '4', 'e', '5', 'f']);
    assert(hex_digits(767789688310nat, 10) =~= seq!['b', '2', 'c', '3', 'd', '4', 'e', '5', 'f', '6']);
    assert(hex_digits(12284635012970nat, 11) =~= seq!['b', '2', 'c', '3', 'd', '4', 'e', '5', 'f', '6', 'a']);
    assert(hex_digits(196554160207527nat, 12) =~= seq!['b', '2', 'c', '3', 'd', '4', 'e', '5', 'f', '6', 'a', '7']);
    assert(hex_digits(3144866563320440nat, 13) =~= seq!['b', '2', 'c', '3', 'd', '4', 'e', '5', 'f', '6', 'a', '7', '8']);
    assert(hex_digits(50317865013127049nat, 14) =~= seq!['b', '2', 'c', '3', 'd', '4', 'e', '5', 'f', '6', 'a', '7', '8', '9']);
    assert(hex_digits(805085840210032784nat, 15) =~= seq!['b', '2', 'c', '3', 'd', '4', 'e', '5', 'f', '6', 'a', '7', '8', '9', '0']);
    assert(hex_digits(12881373443360524545nat, 16) =~= seq!['b', '2', 'c', '3', 'd', '4', 'e', '5', 'f', '6', 'a', '7', '8', '9', '0', '1']);
    assert(hex_digits(206101975093768392731nat, 17) =~= seq!['b', '2', 'c', '3', 'd', '4', 'e', '5', 'f', '6', 'a', '7', '8', '9', '0', '1', 'b']);
    assert(hex_digits(3297631601500294283708nat, 18) =~= seq!['b', '2', 'c', '3', 'd', '4', 'e', '5', 'f', '6', 'a', '7', '8', '9', '0', '1', 'b', 'c']);
    assert(hex_digits(52762105624004708539341nat, 19) =~= seq!['b', '2', 'c', '3', 'd', '4', 'e', '5', 'f', '6', 'a', '7', '8', '9', '0', '1', 'b', 'c', 'd']);
    assert(hex_digits(844193689984075336629470nat, 20) =~= seq!['b', '2', 'c', '3', 'd', '4', 'e', '5', 'f', '6', 'a', '7', '8', '9', '0', '1', 'b', 'c', 'd', 'e']);
    assert(hex_digits(13507099039745205386071535nat, 21) =~= seq!['b', '2', 'c', '3', 'd', '4', 'e', '5', 'f', '6', 'a', '7', '8', '9', '0', '1', 'b', 'c', 'd', 'e', 'f']);
    assert(hex_digits(216113584635923286177144561nat, 22) =~= seq!['b', '2', 'c', '3', 'd', '4', 'e', '5', 'f', '6', 'a', '7', '8', '9', '0', '1', 'b', 'c', 'd', 'e', 'f', '1']);
    assert(hex_digits(3457817354174772578834312978nat, 23) =~= seq!['b', '2', 'c', '3', 'd', '4', 'e', '5', 'f', '6', 'a', '7', '8', '9', '0', '1', 'b', 'c', 'd', 'e', 'f', '1', '2']);
    assert(hex_digits(55325077666796361261349007651nat, 24) =~= seq!['b', '2', 'c', '3', 'd', '4', 'e', '5', 'f', '6', 'a', '7', '8', '9', '0', '1', 'b', 'c', 'd', 'e', 'f', '1', '2', '3']);
    assert(hex_digits(885201242668741780181584122420nat, 25) =~= seq!['b', '2', 'c', '3', 'd', '4', 'e', '5', 'f', '6', 'a', '7', '8', '9', '0', '1', 'b', 'c', 'd', 'e', 'f', '1', '2', '3', '4']);
    assert(hex_digits(14163219882699868482905345958725nat, 26) =~= seq!['b', '2', 'c', '3', 'd', '4', 'e', '5', 'f', '6', 'a', '7', '8', '9', '0', '1', 'b', 'c', 'd', 'e', 'f', '1', '2', '3', '4', '5']);
    assert(hex_digits(226611518123197895726485535339606nat, 27) =~= seq!['b', '2', 'c', '3', 'd', '4', 'e', '5', 'f', '6', 'a', '7', '8', '9', '0', '1', 'b', 'c', 'd', 'e', 'f', '1', '2', '3', '4', '5', '6']);
    assert(hex_digits(3625784289971166331623768565433703nat, 28) =~= seq!['b', '2', 'c', '3', 'd', '4', 'e', '5', 'f', '6', 'a', '7', '8', '9', '0', '1', 'b', 'c', 'd', 'e', 'f', '1', '2', '3', '4', '5', '6', '7']);
    assert(hex_digits(58012548639538661305980297046939256nat, 29) =~= seq!['b', '2', 'c', '3', 'd', '4', 'e', '5', 'f', '6', 'a', '7', '8', '9', '0', '1', 'b', 'c', 'd', 'e', 'f', '1', '2', '3', '4', '5', '6', '7', '8']);
    assert(hex_digits(928200778232618580895684752751028105nat, 30) =~= seq!['b', '2', 'c', '3', 'd', '4', 'e', '5', 'f', '6', 'a', '7', '8', '9', '0', '1', 'b', 'c', 'd', 'e', 'f', '1', '2', '3', '4', '5', '6', '7', '8', '9']);
    assert(hex_digits(14851212451721897294330956044016449680nat, 31) =~= seq!['b', '2', 'c', '3', 'd', '4', 'e', '5', 'f', '6', 'a', '7', '8', '9', '0', '1', 'b', 'c', 'd', 'e', 'f', '1', '2', '3', '4', '5', '6', '7', '8', '9', '0']);
    assert(hex_digits(237619399227550356709295296704263194881nat, 32) =~= seq!['b', '2', 'c', '3', 'd', '4', 'e', '5', 'f', '6', 'a', '7', '8', '9', '0', '1', 'b', 'c', 'd', 'e', 'f', '1', '2', '3', '4', '5', '6', '7', '8', '9', '0', '1']);
    reveal_strlit("b2c3d4e5-f6a7-8901-bcde-f12345678901");
    assert(uuid_text(DEMO_FEATURE_2) =~= "b2c3d4e5-f6a7-8901-bcde-f12345678901"@);
}

/// `DEMO_FEATURE_3` is the value whose UUID text is `c3d4e5f6-a7b8-9012-cdef-012345678902`.
proof fn lemma_demo_feature_3_text()
    ensures
        uuid_text(DEMO_FEATURE_3) == "c3d4e5f6-a7b8-9012-cdef-012345678902"@,
{
    lemma_hex_digit_values();
    assert(hex_digits(12nat, 1) =~= seq!['c']);
    assert(hex_digits(195nat, 2) =~= seq!['c', '3']);
    assert(hex_digits(3133nat, 3) =~= seq!['c', '3', 'd']);
    assert(hex_digits(50132nat, 4) =~= seq!['c', '3', 'd', '4']);
    assert(hex_digits(802126nat, 5) =~= seq!['c', '3', 'd', '4', 'e']);
    assert(hex_digits(12834021nat, 6) =~= seq!['c', '3', 'd', '4', 'e', '5']);
    assert(hex_digits(205344351nat, 7) =~= seq!['c', '3', 'd', '4', 'e', '5', 'f']);
    assert(hex_digits(3285509622nat, 8) =~= seq!['c', '3', 'd', '4', 'e', '5', 'f', '6']);
    assert(hex_digits(52568153962nat, 9) =~= seq!['c', '3', 'd', '4', 'e', '5', 'f', '6', 'a']);
    assert(hex_digits(841090463399nat, 10) =~= seq!['c', '3', 'd', '4', 'e', '5', 'f', '6', 'a', '7']);
    assert(hex_digits(13457447414395nat, 11) =~= seq!['c', '3', 'd', '4', 'e', '5', 'f', '6', 'a', '7', 'b']);
    assert(hex_digits(215319158630328nat, 12) =~= seq!['c', '3', 'd', '4', 'e', '5', 'f', '6', 'a', '7', 'b', '8']);
    assert(hex_digits(3445106538085257nat, 13) =~= seq!['c', '3', 'd', '4', 'e', '5', 'f', '6', 'a', '7', 'b', '8', '9']);
    assert(hex_digits(55121704609364112nat, 14) =~= seq!['c', '3', 'd', '4', 'e', '5', 'f', '6', 'a', '7', 'b', '8', '9', '0']);
    assert(hex_digits(881947273749825793nat, 15) =~= seq!['c', '3', 'd', '4', 'e', '5', 'f', '6', 'a', '7', 'b', '8', '9', '0', '1']);
    assert(hex_digits(14111156379997212690nat, 16) =~= seq!['c', '3', 'd', '4', 'e', '5', 'f', '6', 'a', '7', 'b', '8', '9', '0', '1', '2']);
    assert(hex_digits(225778502079955403052nat, 17) =~= seq!['c', '3', 'd', '4', 'e', '5', 'f', '6', 'a', '7', 'b', '8', '9', '0', '1', '2', 'c']);
    assert(hex_digits(3612456033279286448845nat, 18) =~= seq!['c', '3', 'd', '4', 'e', '5', 'f', '6', 'a', '7', 'b', '8', '9', '0', '1', '2', 'c', 'd']);
    assert(hex_digits(57799296532468583181534nat, 19) =~= seq!['c', '3', 'd', '4', 'e', '5', 'f', '6', 'a', '7', 'b', '8', '9', '0', '1', '2', 'c', 'd', 'e']);
    assert(hex_digits(924788744519497330904559nat, 20) =~= seq!['c', '3', 'd', '4', 'e', '5', 'f', '6', 'a', '7', 'b', '8', '9', '0', '1', '2', 'c', 'd', 'e', 'f']);
    assert(hex_digits(14796619912311957294472944nat, 21) =~= seq!['c', '3', 'd', '4', 'e', '5', 'f', '6', 'a', '7', 'b', '8', '9', '0', '1', '2', 'c', 'd', 'e', 'f', '0']);
    assert(hex_digits(236745918596991316711567105nat, 22) =~= seq!['c', '3', 'd', '4', 'e', '5', 'f', '6', 'a', '7', 'b', '8', '9', '0', '1', '2', 'c', 'd', 'e', 'f', '0', '1']);
    assert(hex_digits(3787934697551861067385073682nat, 23) =~= seq!['c', '3', 'd', '4', 'e', '5', 'f', '6', 'a', '7', 'b', '8', '9', '0', '1', '2', 'c', 'd', 'e', 'f', '0', '1', '2']);
    assert(hex_digits(60606955160829777078161178915nat, 24) =~= seq!['c', '3', 'd', '4', 'e', '5', 'f', '6', 'a', '7', 'b', '8', '9', '0', '1', '2', 'c', 'd', 'e', 'f', '0', '1', '2', '3']);
    assert(hex_digits(969711282573276433250578862644nat, 25) =~= seq!['c', '3', 'd', '4', 'e', '5', 'f', '6', 'a', '7', 'b', '8', '9', '0', '1', '2', 'c', 'd', 'e', 'f', '0', '1', '2', '3', '4']);
    assert(hex_digits(15515380521172422932009261802309nat, 26) =~= seq!['c', '3', 'd', '4', 'e', '5', 'f', '6', 'a', '7', 'b', '8', '9', '0', '1', '2', 'c', 'd', 'e', 'f', '0', '1', '2', '3', '4', '5']);
    assert(hex_digits(248246088338758766912148188836950nat, 27) =~= seq!['c', '3', 'd', '4', 'e', '5', 'f', '6', 'a', '7', 'b', '8', '9', '0', '1', '2', 'c', 'd', 'e', 'f', '0', '1', '2', '3', '4', '5', '6']);
    assert(hex_digits(3971937413420140270594371021391207nat, 28) =~= seq!['c', '3', 'd', '4', 'e', '5', 'f', '6', 'a', '7', 'b', '8', '9', '0', '1', '2', 'c', 'd', 'e', 'f', '0', '1', '2', '3', '4', '5', '6', '7']);
    assert(hex_digits(63550998614722244329509936342259320nat, 29) =~= seq!['c', '3', 'd', '4', 'e', '5', 'f', '6', 'a', '7', 'b', '8', '9', '0', '1', '2', 'c', 'd', 'e', 'f', '0', '1', '2', '3', '4', '5', '6', '7', '8']);
    assert(hex_digits(1016815977835555909272158981476149129nat, 30) =~= seq!['c', '3', 'd', '4', 'e', '5', 'f', '6', 'a', '7', 'b', '8', '9', '0', '1', '2', 'c', 'd', 'e', 'f', '0', '1', '2', '3', '4', '5', '6', '7', '8', '9']);
    assert(hex_digits(16269055645368894548354543703618386064nat, 31) =~= seq!['c', '3', 'd', '4', 'e', '5', 'f', '6', 'a', '7', 'b', '8', '9', '0', '1', '2', 'c', 'd', 'e', 'f', '0', '1', '2', '3', '4', '5', '6', '7', '8', '9', '0']);
    assert(hex_digits(260304890325902312773672699257894177026nat, 32) =~= seq!['c', '3', 'd', '4', 'e', '5', 'f', '6', 'a', '7', 'b', '8', '9', '0', '1', '2', 'c', 'd', 'e', 'f', '0', '1', '2', '3', '4', '5', '6', '7', '8', '9', '0', '2']);
    reveal_strlit("c3d4e5f6-a7b8-9012-cdef-012345678902");
    assert(uuid_text(DEMO_FEATURE_3) =~= "c3d4e5f6-a7b8-9012-cdef-012345678902"@);
}

/// `DEMO_PAIN_RELIEF_1` is the value whose UUID text is `1a2b3c4d-5e6f-7890-1a2b-3c4d5e6f7890`.
proof fn lemma_demo_pain_relief_1_text()
    ensures
        uuid_text(DEMO_PAIN_RELIEF_1) == "1a2b3c4d-5e6f-7890-1a2b-3c4d5e6f7890"@,
{
    lemma_hex_digit_values();
    assert(hex_digits(1nat, 1) =~= seq!['1']);
    assert(hex_digits(26nat, 2) =~= seq!['1', 'a']);
    assert(hex_digits(418nat, 3) =~= seq!['1', 'a', '2']);
    assert(hex_digits(6699nat, 4) =~= seq!['1', 'a', '2', 'b']);
    assert(hex_digits(107187nat, 5) =~= seq!['1', 'a', '2', 'b', '3']);
    assert(hex_digits(1715004nat, 6) =~= seq!['1', 'a', '2', 'b', '3', 'c']);
    assert(hex_digits(27440068nat, 7) =~= seq!['1', 'a', '2', 'b', '3', 'c', '4']);
    assert(hex_digits(439041101nat, 8) =~= seq!['1', 'a', '2', 'b', '3', 'c', '4', 'd']);
    assert(hex_digits(7024657621nat, 9) =~= seq!['1', 'a', '2', 'b', '3', 'c', '4', 'd', '5']);
    assert(hex_digits(112394521950nat, 10) =~= seq!['1', 'a', '2', 'b', '3', 'c', '4', 'd', '5', 'e']);
    assert(hex_digits(1798312351206nat, 11) =~= seq!['1', 'a', '2', 'b', '3', 'c', '4', 'd', '5', 'e', '6']);
    assert(hex_digits(28772997619311nat, 12) =~= seq!['1', 'a', '2', 'b', '3', 'c', '4', 'd', '5', 'e', '6', 'f']);
    assert(hex_digits(460367961908983nat, 13) =~= seq!['1', 'a', '2', 'b', '3', 'c', '4', 'd', '5', 'e', '6', 'f', '7']);
    assert(hex_digits(7365887390543736nat, 14) =~= seq!['1', 'a', '2', 'b', '3', 'c', '4', 'd', '5', 'e', '6', 'f', '7', '8']);
    assert(hex_digits(117854198248699785nat, 15) =~= seq!['1', 'a', '2', 'b', '3', 'c', '4', 'd', '5', 'e', '6', 'f', '7', '8', '9']);
    assert(hex_digits(1885667171979196560nat, 16) =~= seq!['1', 'a', '2', 'b', '3', 'c', '4', 'd', '5', 'e', '6', 'f', '7', '8', '9', '0']);
    assert(hex_digits(30170674751667144961nat, 17) =~= seq!['1', 'a', '2', 'b', '3', 'c', '4', 'd', '5', 'e', '6', 'f', '7', '8', '9', '0', '1']);
    assert(hex_digits(482730796026674319386nat, 18) =~= seq!['1', 'a', '2', 'b', '3', 'c', '4', 'd', '5', 'e', '6', 'f', '7', '8', '9', '0', '1', 'a']);
    assert(hex_digits(7723692736426789110178nat, 19) =~= seq!['1', 'a', '2', 'b', '3', 'c', '4', 'd', '5', 'e', '6', 'f', '7', '8', '9', '0', '1', 'a', '2']);
    assert(hex_digits(123579083782828625762859nat, 20) =~= seq!['1', 'a', '2', 'b', '3', 'c', '4', 'd', '5', 'e', '6', 'f', '7', '8', '9', '0', '1', 'a', '2', 'b']);
    assert(hex_digits(1977265340525258012205747nat, 21) =~= seq!['1', 'a', '2', 'b', '3', 'c', '4', 'd', '5', 'e', '6', 'f', '7', '8', '9', '0', '1', 'a', '2', 'b', '3']);
    assert(hex_digits(31636245448404128195291964nat, 22) =~= seq!['1', 'a', '2', 'b', '3', 'c', '4', 'd', '5', 'e', '6', 'f', '7', '8', '9', '0', '1', 'a', '2', 'b', '3', 'c']);
    assert(hex_digits(506179927174466051124671428nat, 23) =~= seq!['1', 'a', '2', 'b', '3', 'c', '4', 'd', '5', 'e', '6', 'f', '7', '8', '9', '0', '1', 'a', '2', 'b', '3', 'c', '4']);
    assert(hex_digits(8098878834791456817994742861nat, 24) =~= seq!['1', 'a', '2', 'b', '3', 'c', '4', 'd', '5', 'e', '6', 'f', '7', '8', '9', '0', '1', 'a', '2', 'b', '3', 'c', '4', 'd']);
    assert(hex_digits(129582061356663309087915885781nat, 25) =~= seq!['1', 'a', '2', 'b', '3', 'c', '4', 'd', '5', 'e', '6', 'f', '7', '8', '9', '0', '1', 'a', '2', 'b', '3', 'c', '4', 'd', '5']);
    assert(hex_digits(2073312981706612945406654172510nat, 26) =~= seq!['1', 'a', '2', 'b', '3', 'c', '4', 'd', '5', 'e', '6', 'f', '7', '8', '9', '0', '1', 'a', '2', 'b', '3', 'c', '4', 'd', '5', 'e']);
    assert(hex_digits(33173007707305807126506466760166nat, 27) =~= seq!['1', 'a', '2', 'b', '3', 'c', '4', 'd', '5', 'e', '6', 'f', '7', '8', '9', '0', '1', 'a', '2', 'b', '3', 'c', '4', 'd', '5', 'e', '6']);
    assert(hex_digits(530768123316892914024103468162671nat, 28) =~= seq!['1', 'a', '2', 'b', '3', 'c', '4', 'd', '5', 'e', '6', 'f', '7', '8', '9', '0', '1', 'a', '2', 'b', '3', 'c', '4', 'd', '5', 'e', '6', 'f']);
    assert(hex_digits(8492289973070286624385655490602743nat, 29) =~= seq!['1', 'a', '2', 'b', '3', 'c', '4', 'd', '5', 'e', '6', 'f', '7', '8', '9', '0', '1', 'a', '2', 'b', '3', 'c', '4', 'd', '5', 'e', '6', 'f', '7']);
    assert(hex_digits(135876639569124585990170487849643896nat, 30) =~= seq!['1', 'a', '2', 'b', '3', 'c', '4', 'd', '5', 'e', '6', 'f', '7', '8', '9', '0', '1', 'a', '2', 'b', '3', 'c', '4', 'd', '5', 'e', '6', 'f', '7', '8']);
    assert(hex_digits(2174026233105993375842727805594302345nat, 31) =~= seq!['1', 'a', '2', 'b', '3', 'c', '4', 'd', '5', 'e', '6', 'f', '7', '8', '9', '0', '1', 'a', '2', 'b', '3', 'c', '4', 'd', '5', 'e', '6', 'f', '7', '8', '9']);
    assert(hex_digits(34784419729695894013483644889508837520nat, 32) =~= seq!['1', 'a', '2', 'b', '3', 'c', '4', 'd', '5', 'e', '6', 'f', '7', '8', '9', '0', '1', 'a', '2', 'b', '3', 'c', '4', 'd', '5', 'e', '6', 'f', '7', '8', '9', '0']);
    reveal_strlit("1a2b3c4d-5e6f-7890-1a2b-3c4d5e6f7890");
    assert(uuid_text(DEMO_PAIN_RELIEF_1) =~= "1a2b3c4d-5e6f-7890-1a2b-3c4d5e6f7890"@);
}

/// `DEMO_PAIN_RELIEF_2` is the value whose UUID text is `2b3c4d5e-6f7a-8901-2b3c-4d5e6f7a8901`.
proof fn lemma_demo_pain_relief_2_text()
    ensures
        uuid_text(DEMO_PAIN_RELIEF_2) == "2b3c4d5e-6f7a-8901-2b3c-4d5e6f7a8901"@,
{
    lemma_hex_digit_values();
    assert(hex_digits(2nat, 1) =~= seq!['2']);
    assert(hex_digits(43nat, 2) =~= seq!['2', 'b']);
    assert(hex_digits(691nat, 3) =~= seq!['2', 'b', '3']);
    assert(hex_digits(11068nat, 4) =~= seq!['2', 'b', '3', 'c']);
    assert(hex_digits(177092nat, 5) =~= seq!['2', 'b', '3', 'c', '4']);
    assert(hex_digits(2833485nat, 6) =~= seq!['2', 'b', '3', 'c', '4', 'd']);
    assert(hex_digits(45335765nat, 7) =~= seq!['2', 'b', '3', 'c', '4', 'd', '5']);
    assert(hex_digits(725372254nat, 8) =~= seq!['2', 'b', '3', 'c', '4', 'd', '5', 'e']);
    assert(hex_digits(11605956070nat, 9) =~= seq!['2', 'b', '3', 'c', '4', 'd', '5', 'e', '6']);
    assert(hex_digits(185695297135nat, 10) =~= seq!['2', 'b', '3', 'c', '4', 'd', '5', 'e', '6', 'f']);
    assert(hex_digits(2971124754167nat, 11) =~= seq!['2', 'b', '3', 'c', '4', 'd', '5', 'e', '6', 'f', '7']);
    assert(hex_digits(47537996066682nat, 12) =~= seq!['2', 'b', '3', 'c', '4', 'd', '5', 'e', '6', 'f', '7', 'a']);
    assert(hex_digits(760607937066920nat, 13) =~= seq!['2', 'b', '3', 'c', '4', 'd', '5', 'e', '6', 'f', '7', 'a', '8']);
    assert(hex_digits(12169726993070729nat, 14) =~= seq!['2', 'b', '3', 'c', '4', 'd', '5', 'e', '6', 'f', '7', 'a', '8', '9']);
    assert(hex_digits(194715631889131664nat, 15) =~= seq!['2', 'b', '3', 'c', '4', 'd', '5', 'e', '6', 'f', '7', 'a', '8', '9', '0']);
    assert(hex_digits(3115450110226106625nat, 16) =~= seq!['2', 'b', '3', 'c', '4', 'd', '5', 'e', '6', 'f', '7', 'a', '8', '9', '0', '1']);
    assert(hex_digits(49847201763617706002nat, 17) =~= seq!['2', 'b', '3', 'c', '4', 'd', '5', 'e', '6', 'f', '7', 'a', '8', '9', '0', '1', '2']);
    assert(hex_digits(797555228217883296043nat, 18) =~= seq!['2', 'b', '3', 'c', '4', 'd', '5', 'e', '6', 'f', '7', 'a', '8', '9', '0', '1', '2', 'b']);
    assert(hex_digits(12760883651486132736691nat, 19) =~= seq!['2', 'b', '3', 'c', '4', 'd', '5', 'e', '6', 'f', '7', 'a', '8', '9', '0', '1', '2', 'b', '3']);
    assert(hex_digits(204174138423778123787068nat, 20) =~= seq!['2', 'b', '3', 'c', '4', 'd', '5', 'e', '6', 'f', '7', 'a', '8', '9', '0', '1', '2', 'b', '3', 'c']);
    assert(hex_digits(3266786214780449980593092nat, 21) =~= seq!['2', 'b', '3', 'c', '4', 'd', '5', 'e', '6', 'f', '7', 'a', '8', '9', '0', '1', '2', 'b', '3', 'c', '4']);
    assert(hex_digits(52268579436487199689489485nat, 22) =~= seq!['2', 'b', '3', 'c', '4', 'd', '5', 'e', '6', 'f', '7', 'a', '8', '9', '0', '1', '2', 'b', '3', 'c', '4', 'd']);
    assert(hex_digits(836297270983795195031831765nat, 23) =~= seq!['2', 'b', '3', 'c', '4', 'd', '5', 'e', '6', 'f', '7', 'a', '8', '9', '0', '1', '2', 'b', '3', 'c', '4', 'd', '5']);
    assert(hex_digits(13380756335740723120509308254nat, 24) =~= seq!['2', 'b', '3', 'c', '4', 'd', '5', 'e', '6', 'f', '7', 'a', '8', '9', '0', '1', '2', 'b', '3', 'c', '4', 'd', '5', 'e']);
    assert(hex_digits(214092101371851569928148932070nat, 25) =~= seq!['2', 'b', '3', 'c', '4', 'd', '5', 'e', '6', 'f', '7', 'a', '8', '9', '0', '1', '2', 'b', '3', 'c', '4', 'd', '5', 'e', '6']);
    assert(hex_digits(3425473621949625118850382913135nat, 26) =~= seq!['2', 'b', '3', 'c', '4', 'd', '5', 'e', '6', 'f', '7', 'a', '8', '9', '0', '1', '2', 'b', '3', 'c', '4', 'd', '5', 'e', '6', 'f']);
    assert(hex_digits(54807577951194001901606126610167nat, 27) =~= seq!['2', 'b', '3', 'c', '4', 'd', '5', 'e', '6', 'f', '7', 'a', '8', '9', '0', '1', '2', 'b', '3', 'c', '4', 'd', '5', 'e', '6', 'f', '7']);
    assert(hex_digits(876921247219104030425698025762682nat, 28) =~= seq!['2', 'b', '3', 'c', '4', 'd', '5', 'e', '6', 'f', '7', 'a', '8', '9', '0', '1', '2', 'b', '3', 'c', '4', 'd', '5', 'e', '6', 'f', '7', 'a']);
    assert(hex_digits(14030739955505664486811168412202920nat, 29) =~= seq!['2', 'b', '3', 'c', '4', 'd', '5', 'e', '6', 'f', '7', 'a', '8', '9', '0', '1', '2', 'b', '3', 'c', '4', 'd', '5', 'e', '6', 'f', '7', 'a', '8']);
    assert(hex_digits(224491839288090631788978694595246729nat, 30) =~= seq!['2', 'b', '3', 'c', '4', 'd', '5', 'e', '6', 'f', '7', 'a', '8', '9', '0', '1', '2', 'b', '3', 'c', '4', 'd', '5', 'e', '6', 'f', '7', 'a', '8', '9']);
    assert(hex_digits(3591869428609450108623659113523947664nat, 31) =~= seq!['2', 'b', '3', 'c', '4', 'd', '5', 'e', '6', 'f', '7', 'a', '8', '9', '0', '1', '2', 'b', '3', 'c', '4', 'd', '5', 'e', '6', 'f', '7', 'a', '8', '9', '0']);
    assert(hex_digits(57469910857751201737978545816383162625nat, 32) =~= seq!['2', 'b', '3', 'c', '4', 'd', '5', 'e', '6', 'f', '7', 'a', '8', '9', '0', '1', '2', 'b', '3', 'c', '4', 'd', '5', 'e', '6', 'f', '7', 'a', '8', '9', '0', '1']);
    reveal_strlit("2b3c4d5e-6f7a-8901-2b3c-4d5e6f7a8901");
    assert(uuid_text(DEMO_PAIN_RELIEF_2) =~= "2b3c4d5e-6f7a-8901-2b3c-4d5e6f7a8901"@);
}

/// `DEMO_PAIN_RELIEF_3` is the value whose UUID text is `3c4d5e6f-7a8b-9012-3c4d-5e6f7a8b9012`.
proof fn lemma_demo_pain_relief_3_text()
    ensures
        uuid_text(DEMO_PAIN_RELIEF_3) == "3c4d5e6f-7a8b-9012-3c4d-5e6f7a8b9012"@,
{
    lemma_hex_digit_values();
    assert(hex_digits(3nat, 1) =~= seq!['3']);
    assert(hex_digits(60nat, 2) =~= seq!['3', 'c']);
    assert(hex_digits(964nat, 3) =~= seq!['3', 'c', '4']);
    assert(hex_digits(15437nat, 4) =~= seq!['3', 'c', '4', 'd']);
    assert(hex_digits(246997nat, 5) =~= seq!['3', 'c', '4', 'd', '5']);
    assert(hex_digits(3951966nat, 6) =~= seq!['3', 'c', '4', 'd', '5', 'e']);
    assert(hex_digits(63231462nat, 7) =~= seq!['3', 'c', '4', 'd', '5', 'e', '6']);
    assert(hex_digits(1011703407nat, 8) =~= seq!['3', 'c', '4', 'd', '5', 'e', '6', 'f']);
    assert(hex_digits(16187254519nat, 9) =~= seq!['3', 'c', '4', 'd', '5', 'e', '6', 'f', '7']);
    assert(hex_digits(258996072314nat, 10) =~= seq!['3', 'c', '4', 'd', '5', 'e', '6', 'f', '7', 'a']);
    assert(hex_digits(4143937157032nat, 11) =~= seq!['3', 'c', '4', 'd', '5', 'e', '6', 'f', '7', 'a', '8']);
    assert(hex_digits(66302994512523nat, 12) =~= seq!['3', 'c', '4', 'd', '5', 'e', '6', 'f', '7', 'a', '8', 'b']);
    assert(hex_digits(1060847912200377nat, 13) =~= seq!['3', 'c', '4', 'd', '5', 'e', '6', 'f', '7', 'a', '8', 'b', '9']);
    assert(hex_digits(16973566595206032nat, 14) =~= seq!['3', 'c', '4', 'd', '5', 'e', '6', 'f', '7', 'a', '8', 'b', '9', '0']);
    assert(hex_digits(271577065523296513nat, 15) =~= seq!['3', 'c', '4', 'd', '5', 'e', '6', 'f', '7', 'a', '8', 'b', '9', '0', '1']);
    assert(hex_digits(4345233048372744210nat, 16) =~= seq!['3', 'c', '4', 'd', '5', 'e', '6', 'f', '7', 'a', '8', 'b', '9', '0', '1', '2']);
    assert(hex_digits(69523728773963907363nat, 17) =~= seq!['3', 'c', '4', 'd', '5', 'e', '6', 'f', '7', 'a', '8', 'b', '9', '0', '1', '2', '3']);
    assert(hex_digits(1112379660383422517820nat, 18) =~= seq!['3', 'c', '4', 'd', '5', 'e', '6', 'f', '7', 'a', '8', 'b', '9', '0', '1', '2', '3', 'c']);
    assert(hex_digits(17798074566134760285124nat, 19) =~= seq!['3', 'c', '4', 'd', '5', 'e', '6', 'f', '7', 'a', '8', 'b', '9', '0', '1', '2', '3', 'c', '4']);
    assert(hex_digits(284769193058156164561997nat, 20) =~= seq!['3', 'c', '4', 'd', '5', 'e', '6', 'f', '7', 'a', '8', 'b', '9', '0', '1', '2', '3', 'c', '4', 'd']);
    assert(hex_digits(4556307088930498632991957nat, 21) =~= seq!['3', 'c', '4', 'd', '5', 'e', '6', 'f', '7', 'a', '8', 'b', '9', '0', '1', '2', '3', 'c', '4', 'd', '5']);
    assert(hex_digits(72900913422887978127871326nat, 22) =~= seq!['3', 'c', '4', 'd', '5', 'e', '6', 'f', '7', 'a', '8', 'b', '9', '0', '1', '2', '3', 'c', '4', 'd', '5', 'e']);
    assert(hex_digits(1166414614766207650045941222nat, 23) =~= seq!['3', 'c', '4', 'd', '5', 'e', '6', 'f', '7', 'a', '8', 'b', '9', '0', '1', '2', '3', 'c', '4', 'd', '5', 'e', '6']);
    assert(hex_digits(18662633836259322400735059567nat, 24) =~= seq!['3', 'c', '4', 'd', '5', 'e', '6', 'f', '7', 'a', '8', 'b', '9', '0', '1', '2', '3', 'c', '4', 'd', '5', 'e', '6', 'f']);
    assert(hex_digits(298602141380149158411760953079nat, 25) =~= seq!['3', 'c', '4', 'd', '5', 'e', '6', 'f', '7', 'a', '8', 'b', '9', '0', '1', '2', '3', 'c', '4', 'd', '5', 'e', '6', 'f', '7']);
    assert(hex_digits(4777634262082386534588175249274nat, 26) =~= seq!['3', 'c', '4', 'd', '5', 'e', '6', 'f', '7', 'a', '8', 'b', '9', '0', '1', '2', '3', 'c', '4', 'd', '5', 'e', '6', 'f', '7', 'a']);
    assert(hex_digits(76442148193318184553410803988392nat, 27) =~= seq!['3', 'c', '4', 'd', '5', 'e', '6', 'f', '7', 'a', '8', 'b', '9', '0', '1', '2', '3', 'c', '4', 'd', '5', 'e', '6', 'f', '7', 'a', '8']);
    assert(hex_digits(1223074371093090952854572863814283nat, 28) =~= seq!['3', 'c', '4', 'd', '5', 'e', '6', 'f', '7', 'a', '8', 'b', '9', '0', '1', '2', '3', 'c', '4', 'd', '5', 'e', '6', 'f', '7', 'a', '8', 'b']);
    assert(hex_digits(19569189937489455245673165821028537nat, 29) =~= seq!['3', 'c', '4', 'd', '5', 'e', '6', 'f', '7', 'a', '8', 'b', '9', '0', '1', '2', '3', 'c', '4', 'd', '5', 'e', '6', 'f', '7', 'a', '8', 'b', '9']);
    assert(hex_digits(313107038999831283930770653136456592nat, 30) =~= seq!['3', 'c', '4', 'd', '5', 'e', '6', 'f', '7', 'a', '8', 'b', '9', '0', '1', '2', '3', 'c', '4', 'd', '5', 'e', '6', 'f', '7', 'a', '8', 'b', '9', '0']);
    assert(hex_digits(5009712623997300542892330450183305473nat, 31) =~= seq!['3', 'c', '4', 'd', '5', 'e', '6', 'f', '7', 'a', '8', 'b', '9', '0', '1', '2', '3', 'c', '4', 'd', '5', 'e', '6', 'f', '7', 'a', '8', 'b', '9', '0', '1']);
    assert(hex_digits(80155401983956808686277287202932887570nat, 32) =~= seq!['3', 'c', '4', 'd', '5', 'e', '6', 'f', '7', 'a', '8', 'b', '9', '0', '1', '2', '3', 'c', '4', 'd', '5', 'e', '6', 'f', '7', 'a', '8', 'b', '9', '0', '1', '2']);
    reveal_strlit("3c4d5e6f-7a8b-9012-3c4d-5e6f7a8b9012");
    assert(uuid_text(DEMO_PAIN_RELIEF_3) =~= "3c4d5e6f-7a8b-9012-3c4d-5e6f7a8b9012"@);
}

/// `DEMO_SEGMENT_1` is the value whose UUID text is `c1d2e3f4-a5b6-7890-cdef-012345678901`.
proof fn lemma_demo_segment_1_text()
    ensures
        uuid_text(DEMO_SEGMENT_1) == "c1d2e3f4-a5b6-7890-cdef-012345678901"@,
{
    lemma_hex_digit_values();
    assert(hex_digits(12nat, 1) =~= seq!['c']);
    assert(hex_digits(193nat, 2) =~= seq!['c', '1']);
    assert(hex_digits(3101nat, 3) =~= seq!['c', '1', 'd']);
    assert(hex_digits(49618nat, 4) =~= seq!['c', '1', 'd', '2']);
    assert(hex_digits(793902nat, 5) =~= seq!['c', '1', 'd', '2', 'e']);
    assert(hex_digits(12702435nat, 6) =~= seq!['c', '1', 'd', '2', 'e', '3']);
    assert(hex_digits(203238975nat, 7) =~= seq!['c', '1', 'd', '2', 'e', '3', 'f']);
    assert(hex_digits(3251823604nat, 8) =~= seq!['c', '1', 'd', '2', 'e', '3', 'f', '4']);
    assert(hex_digits(52029177674nat, 9) =~= seq!['c', '1', 'd', '2', 'e', '3', 'f', '4', 'a']);
    assert(hex_digits(832466842789nat, 10) =~= seq!['c', '1', 'd', '2', 'e', '3', 'f', '4', 'a', '5']);
    assert(hex_digits(13319469484635nat, 11) =~= seq!['c', '1', 'd', '2', 'e', '3', 'f', '4', 'a', '5', 'b']);
    assert(hex_digits(213111511754166nat, 12) =~= seq!['c', '1', 'd', '2', 'e', '3', 'f', '4', 'a', '5', 'b', '6']);
    assert(hex_digits(3409784188066663nat, 13) =~= seq!['c', '1', 'd', '2', 'e', '3', 'f', '4', 'a', '5', 'b', '6', '7']);
    assert(hex_digits(54556547009066616nat, 14) =~= seq!['c', '1', 'd', '2', 'e', '3', 'f', '4', 'a', '5', 'b', '6', '7', '8']);
    assert(hex_digits(872904752145065865nat, 15) =~= seq!['c', '1', 'd', '2', 'e', '3', 'f', '4', 'a', '5', 'b', '6', '7', '8', '9']);
    assert(hex_digits(13966476034321053840nat, 16) =~= seq!['c', '1', 'd', '2', 'e', '3', 'f', '4', 'a', '5', 'b', '6', '7', '8', '9', '0']);
    assert(hex_digits(223463616549136861452nat, 17) =~= seq!['c', '1', 'd', '2', 'e', '3', 'f', '4', 'a', '5', 'b', '6', '7', '8', '9', '0', 'c']);
    assert(hex_digits(3575417864786189783245nat, 18) =~= seq!['c', '1', 'd', '2', 'e', '3', 'f', '4', 'a', '5', 'b', '6', '7', '8', '9', '0', 'c', 'd']);
    assert(hex_digits(57206685836579036531934nat, 19) =~= seq!['c', '1', 'd', '2', 'e', '3', 'f', '4', 'a', '5', 'b', '6', '7', '8', '9', '0', 'c', 'd', 'e']);
    assert(hex_digits(915306973385264584510959nat, 20) =~= seq!['c', '1', 'd', '2', 'e', '3', 'f', '4', 'a', '5', 'b', '6', '7', '8', '9', '0', 'c', 'd', 'e', 'f']);
    assert(hex_digits(14644911574164233352175344nat, 21) =~= seq!['c', '1', 'd', '2', 'e', '3', 'f', '4', 'a', '5', 'b', '6', '7', '8', '9', '0', 'c', 'd', 'e', 'f', '0']);
    assert(hex_digits(234318585186627733634805505nat, 22) =~= seq!['c', '1', 'd', '2', 'e', '3', 'f', '4', 'a', '5', 'b', '6', '7', '8', '9', '0', 'c', 'd', 'e', 'f', '0', '1']);
    assert(hex_digits(3749097362986043738156888082nat, 23) =~= seq!['c', '1', 'd', '2', 'e', '3', 'f', '4', 'a', '5', 'b', '6', '7', '8', '9', '0', 'c', 'd', 'e', 'f', '0', '1', '2']);
    assert(hex_digits(59985557807776699810510209315nat, 24) =~= seq!['c', '1', 'd', '2', 'e', '3', 'f', '4', 'a', '5', 'b', '6', '7', '8', '9', '0', 'c', 'd', 'e', 'f', '0', '1', '2', '3']);
    assert(hex_digits(959768924924427196968163349044nat, 25) =~= seq!['c', '1', 'd', '2', 'e', '3', 'f', '4', 'a', '5', 'b', '6', '7', '8', '9', '0', 'c', 'd', 'e', 'f', '0', '1', '2', '3', '4']);
    assert(hex_digits(15356302798790835151490613584709nat, 26) =~= seq!['c', '1', 'd', '2', 'e', '3', 'f', '4', 'a', '5', 'b', '6', '7', '8', '9', '0', 'c', 'd', 'e', 'f', '0', '1', '2', '3', '4', '5']);
    assert(hex_digits(245700844780653362423849817355350nat, 27) =~= seq!['c', '1', 'd', '2', 'e', '3', 'f', '4', 'a', '5', 'b', '6', '7', '8', '9', '0', 'c', 'd', 'e', 'f', '0', '1', '2', '3', '4', '5', '6']);
    assert(hex_digits(3931213516490453798781597077685607nat, 28) =~= seq!['c', '1', 'd', '2', 'e', '3', 'f', '4', 'a', '5', 'b', '6', '7', '8', '9', '0', 'c', 'd', 'e', 'f', '0', '1', '2', '3', '4', '5', '6', '7']);
    assert(hex_digits(62899416263847260780505553242969720nat, 29) =~= seq!['c', '1', 'd', '2', 'e', '3', 'f', '4', 'a', '5', 'b', '6', '7', '8', '9', '0', 'c', 'd', 'e', 'f', '0', '1', '2', '3', '4', '5', '6', '7', '8']);
    assert(hex_digits(1006390660221556172488088851887515529nat, 30) =~= seq!['c', '1', 'd', '2', 'e', '3', 'f', '4', 'a', '5', 'b', '6', '7', '8', '9', '0', 'c', 'd', 'e', 'f', '0', '1', '2', '3', '4', '5', '6', '7', '8', '9']);
    assert(hex_digits(16102250563544898759809421630200248464nat, 31) =~= seq!['c', '1', 'd', '2', 'e', '3', 'f', '4', 'a', '5', 'b', '6', '7', '8', '9', '0', 'c', 'd', 'e', 'f', '0', '1', '2', '3', '4', '5', '6', '7', '8', '9', '0']);
    assert(hex_digits(257636009016718380156950746083203975425nat, 32) =~= seq!['c', '1', 'd', '2', 'e', '3', 'f', '4', 'a', '5', 'b', '6', '7', '8', '9', '0', 'c', 'd', 'e', 'f', '0', '1', '2', '3', '4', '5', '6', '7', '8', '9', '0', '1']);
    reveal_strlit("c1d2e3f4-a5b6-7890-cdef-012345678901");
    assert(uuid_text(DEMO_SEGMENT_1) =~= "c1d2e3f4-a5b6-7890-cdef-012345678901"@);
}

/// `DEMO_SEGMENT_2` is the value whose UUID text is `d2e3f4a5-b6c7-8901-defa-123456789012`.
proof fn lemma_demo_segment_2_text()
    ensures
        uuid_text(DEMO_SEGMENT_2) == "d2e3f4a5-b6c7-8901-defa-123456789012"@,
{
    lemma_hex_digit_values();
    assert(hex_digits(13nat, 1) =~= seq!['d']);
    assert(hex_digits(210nat, 2) =~= seq!['d', '2']);
    assert(hex_digits(3374nat, 3) =~= seq!['d', '2', 'e']);
    assert(hex_digits(53987nat, 4) =~= seq!['d', '2', 'e', '3']);
    assert(hex_digits(863807nat, 5) =~= seq!['d', '2', 'e', '3', 'f']);
    assert(hex_digits(13820916nat, 6) =~= seq!['d', '2', 'e', '3', 'f', '4']);
    assert(hex_digits(221134666nat, 7) =~= seq!['d', '2', 'e', '3', 'f', '4', 'a']);
    assert(hex_digits(3538154661nat, 8) =~= seq!['d', '2', 'e', '3', 'f', '4', 'a', '5']);
    assert(hex_digits(56610474587nat, 9) =~= seq!['d', '2', 'e', '3', 'f', '4', 'a', '5', 'b']);
    assert(hex_digits(905767593398nat, 10) =~= seq!['d', '2', 'e', '3', 'f', '4', 'a', '5', 'b', '6']);
    assert(hex_digits(14492281494380nat, 11) =~= seq!['d', '2', 'e', '3', 'f', '4', 'a', '5', 'b', '6', 'c']);
    assert(hex_digits(231876503910087nat, 12) =~= seq!['d', '2', 'e', '3', 'f', '4', 'a', '5', 'b', '6', 'c', '7']);
    assert(hex_digits(3710024062561400nat, 13) =~= seq!['d', '2', 'e', '3', 'f', '4', 'a', '5', 'b', '6', 'c', '7', '8']);
    assert(hex_digits(59360385000982409nat, 14) =~= seq!['d', '2', 'e', '3', 'f', '4', 'a', '5', 'b', '6', 'c', '7', '8', '9']);
    assert(hex_digits(949766160015718544nat, 15) =~= seq!['d', '2', 'e', '3', 'f', '4', 'a', '5', 'b', '6', 'c', '7', '8', '9', '0']);
    assert(hex_digits(15196258560251496705nat, 16) =~= seq!['d', '2', 'e', '3', 'f', '4', 'a', '5', 'b', '6', 'c', '7', '8', '9', '0', '1']);
    assert(hex_digits(243140136964023947293nat, 17) =~= seq!['d', '2', 'e', '3', 'f', '4', 'a', '5', 'b', '6', 'c', '7', '8', '9', '0', '1', 'd']);
    assert(hex_digits(3890242191424383156702nat, 18) =~= seq!['d', '2', 'e', '3', 'f', '4', 'a', '5', 'b', '6', 'c', '7', '8', '9', '0', '1', 'd', 'e']);
    assert(hex_digits(62243875062790130507247nat, 19) =~= seq!['d', '2', 'e', '3', 'f', '4', 'a', '5', 'b', '6', 'c', '7', '8', '9', '0', '1', 'd', 'e', 'f']);
    assert(hex_digits(995902001004642088115962nat, 20) =~= seq!['d', '2', 'e', '3', 'f', '4', 'a', '5', 'b', '6', 'c', '7', '8', '9', '0', '1', 'd', 'e', 'f', 'a']);
    assert(hex_digits(15934432016074273409855393nat, 21) =~= seq!['d', '2', 'e', '3', 'f', '4', 'a', '5', 'b', '6', 'c', '7', '8', '9', '0', '1', 'd', 'e', 'f', 'a', '1']);
    assert(hex_digits(254950912257188374557686290nat, 22) =~= seq!['d', '2', 'e', '3', 'f', '4', 'a', '5', 'b', '6', 'c', '7', '8', '9', '0', '1', 'd', 'e', 'f', 'a', '1', '2']);
    assert(hex_digits(4079214596115013992922980643nat, 23) =~= seq!['d', '2', 'e', '3', 'f', '4', 'a', '5', 'b', '6', 'c', '7', '8', '9', '0', '1', 'd', 'e', 'f', 'a', '1', '2', '3']);
    assert(hex_digits(65267433537840223886767690292nat, 24) =~= seq!['d', '2', 'e', '3', 'f', '4', 'a', '5', 'b', '6', 'c', '7', '8', '9', '0', '1', 'd', 'e', 'f', 'a', '1', '2', '3', '4']);
    assert(hex_digits(1044278936605443582188283044677nat, 25) =~= seq!['d', '2', 'e', '3', 'f', '4', 'a', '5', 'b', '6', 'c', '7', '8', '9', '0', '1', 'd', 'e', 'f', 'a', '1', '2', '3', '4', '5']);
    assert(hex_digits(16708462985687097315012528714838nat, 26) =~= seq!['d', '2', 'e', '3', 'f', '4', 'a', '5', 'b', '6', 'c', '7', '8', '9', '0', '1', 'd', 'e', 'f', 'a', '1', '2', '3', '4', '5', '6']);
    assert(hex_digits(267335407770993557040200459437415nat, 27) =~= seq!['d', '2', 'e', '3', 'f', '4', 'a', '5', 'b', '6', 'c', '7', '8', '9', '0', '1', 'd', 'e', 'f', 'a', '1', '2', '3', '4', '5', '6', '7']);
    assert(hex_digits(4277366524335896912643207350998648nat, 28) =~= seq!['d', '2', 'e', '3', 'f', '4', 'a', '5', 'b', '6', 'c', '7', '8', '9', '0', '1', 'd', 'e', 'f', 'a', '1', '2', '3', '4', '5', '6', '7', '8']);
    assert(hex_digits(68437864389374350602291317615978377nat, 29) =~= seq!['d', '2', 'e', '3', 'f', '4', 'a', '5', 'b', '6', 'c', '7', '8', '9', '0', '1', 'd', 'e', 'f', 'a', '1', '2', '3', '4', '5', '6', '7', '8', '9']);
    assert(hex_digits(1095005830229989609636661081855654032nat, 30) =~= seq!['d', '2', 'e', '3', 'f', '4', 'a', '5', 'b', '6', 'c', '7', '8', '9', '0', '1', 'd', 'e', 'f', 'a', '1', '2', '3', '4', '5', '6', '7', '8', '9', '0']);
    assert(hex_digits(17520093283679833754186577309690464513nat, 31) =~= seq!['d', '2', 'e', '3', 'f', '4', 'a', '5', 'b', '6', 'c', '7', '8', '9', '0', '1', 'd', 'e', 'f', 'a', '1', '2', '3', '4', '5', '6', '7', '8', '9', '0', '1']);
    assert(hex_digits(280321492538877340066985236955047432210nat, 32) =~= seq!['d', '2', 'e', '3', 'f', '4', 'a', '5', 'b', '6', 'c', '7', '8', '9', '0', '1', 'd', 'e', 'f', 'a', '1', '2', '3', '4', '5', '6', '7', '8', '9', '0', '1', '2']);
    reveal_strlit("d2e3f4a5-b6c7-8901-defa-123456789012");
    assert(uuid_text(DEMO_SEGMENT_2) =~= "d2e3f4a5-b6c7-8901-defa-123456789012"@);
}

/// `DEMO_JOB_1` is the value whose UUID text is `e1f2a3b4-c5d6-7890-efab-012345678901`.
proof fn lemma_demo_job_1_text()
    ensures
        uuid_text(DEMO_JOB_1) == "e1f2a3b4-c5d6-7890-efab-012345678901"@,
{
    lemma_hex_digit_values();
    assert(hex_digits(14nat, 1) =~= seq!['e']);
    assert(hex_digits(225nat, 2) =~= seq!['e', '1']);
    assert(hex_digits(3615nat, 3) =~= seq!['e', '1', 'f']);
    assert(hex_digits(57842nat, 4) =~= seq!['e', '1', 'f', '2']);
    assert(hex_digits(925482nat, 5) =~= seq!['e', '1', 'f', '2', 'a']);
    assert(hex_digits(14807715nat, 6) =~= seq!['e', '1', 'f', '2', 'a', '3']);
    assert(hex_digits(236923451nat, 7) =~= seq!['e', '1', 'f', '2', 'a', '3', 'b']);
    assert(hex_digits(3790775220nat, 8) =~= seq!['e', '1', 'f', '2', 'a', '3', 'b', '4']);
    assert(hex_digits(60652403532nat, 9) =~= seq!['e', '1', 'f', '2', 'a', '3', 'b', '4', 'c']);
    assert(hex_digits(970438456517nat, 10) =~= seq!['e', '1', 'f', '2', 'a', '3', 'b', '4', 'c', '5']);
    assert(hex_digits(15527015304285nat, 11) =~= seq!['e', '1', 'f', '2', 'a', '3', 'b', '4', 'c', '5', 'd']);
    assert(hex_digits(248432244868566nat, 12) =~= seq!['e', '1', 'f', '2', 'a', '3', 'b', '4', 'c', '5', 'd', '6']);
    assert(hex_digits(3974915917897063nat, 13) =~= seq!['e', '1', 'f', '2', 'a', '3', 'b', '4', 'c', '5', 'd', '6', '7']);
    assert(hex_digits(63598654686353016nat, 14) =~= seq!['e', '1', 'f', '2', 'a', '3', 'b', '4', 'c', '5', 'd', '6', '7', '8']);
    assert(hex_digits(1017578474981648265nat, 15) =~= seq!['e', '1', 'f', '2', 'a', '3', 'b', '4', 'c', '5', 'd', '6', '7', '8', '9']);
    assert(hex_digits(16281255599706372240nat, 16) =~= seq!['e', '1', 'f', '2', 'a', '3', 'b', '4', 'c', '5', 'd', '6', '7', '8', '9', '0']);
    assert(hex_digits(260500089595301955854nat, 17) =~= seq!['e', '1', 'f', '2', 'a', '3', 'b', '4', 'c', '5', 'd', '6', '7', '8', '9', '0', 'e']);
    assert(hex_digits(4168001433524831293679nat, 18) =~= seq!['e', '1', 'f', '2', 'a', '3', 'b', '4', 'c', '5', 'd', '6', '7', '8', '9', '0', 'e', 'f']);
    assert(hex_digits(66688022936397300698874nat, 19) =~= seq!['e', '1', 'f', '2', 'a', '3', 'b', '4', 'c', '5', 'd', '6', '7', '8', '9', '0', 'e', 'f', 'a']);
    assert(hex_digits(1067008366982356811181995nat, 20) =~= seq!['e', '1', 'f', '2', 'a', '3', 'b', '4', 'c', '5', 'd', '6', '7', '8', '9', '0', 'e', 'f', 'a', 'b']);
    assert(hex_digits(17072133871717708978911920nat, 21) =~= seq!['e', '1', 'f', '2', 'a', '3', 'b', '4', 'c', '5', 'd', '6', '7', '8', '9', '0', 'e', 'f', 'a', 'b', '0']);
    assert(hex_digits(273154141947483343662590721nat, 22) =~= seq!['e', '1', 'f', '2', 'a', '3', 'b', '4', 'c', '5', 'd', '6', '7', '8', '9', '0', 'e', 'f', 'a', 'b', '0', '1']);
    assert(hex_digits(4370466271159733498601451538nat, 23) =~= seq!['e', '1', 'f', '2', 'a', '3', 'b', '4', 'c', '5', 'd', '6', '7', '8', '9', '0', 'e', 'f', 'a', 'b', '0', '1', '2']);
    assert(hex_digits(69927460338555735977623224611nat, 24) =~= seq!['e', '1', 'f', '2', 'a', '3', 'b', '4', 'c', '5', 'd', '6', '7', '8', '9', '0', 'e', 'f', 'a', 'b', '0', '1', '2', '3']);
    assert(hex_digits(1118839365416891775641971593780nat, 25) =~= seq!['e', '1', 'f', '2', 'a', '3', 'b', '4', 'c', '5', 'd', '6', '7', '8', '9', '0', 'e', 'f', 'a', 'b', '0', '1', '2', '3', '4']);
    assert(hex_digits(17901429846670268410271545500485nat, 26) =~= seq!['e', '1', 'f', '2', 'a', '3', 'b', '4', 'c', '5', 'd', '6', '7', '8', '9', '0', 'e', 'f', 'a', 'b', '0', '1', '2', '3', '4', '5']);
    assert(hex_digits(286422877546724294564344728007766nat, 27) =~= seq!['e', '1', 'f', '2', 'a', '3', 'b', '4', 'c', '5', 'd', '6', '7', '8', '9', '0', 'e', 'f', 'a', 'b', '0', '1', '2', '3', '4', '5', '6']);
    assert(hex_digits(4582766040747588713029515648124263nat, 28) =~= seq!['e', '1', 'f', '2', 'a', '3', 'b', '4', 'c', '5', 'd', '6', '7', '8', '9', '0', 'e', 'f', 'a', 'b', '0', '1', '2', '3', '4', '5', '6', '7']);
    assert(hex_digits(73324256651961419408472250369988216nat, 29) =~= seq!['e', '1', 'f', '2', 'a', '3', 'b', '4', 'c', '5', 'd', '6', '7', '8', '9', '0', 'e', 'f', 'a', 'b', '0', '1', '2', '3', '4', '5', '6', '7', '8']);
    assert(hex_digits(1173188106431382710535556005919811465nat, 30) =~= seq!['e', '1', 'f', '2', 'a', '3', 'b', '4', 'c', '5', 'd', '6', '7', '8', '9', '0', 'e', 'f', 'a', 'b', '0', '1', '2', '3', '4', '5', '6', '7', '8', '9']);
    assert(hex_digits(18771009702902123368568896094716983440nat, 31) =~= seq!['e', '1', 'f', '2', 'a', '3', 'b', '4', 'c', '5', 'd', '6', '7', '8', '9', '0', 'e', 'f', 'a', 'b', '0', '1', '2', '3', '4', '5', '6', '7', '8', '9', '0']);
    assert(hex_digits(300336155246433973897102337515471735041nat, 32) =~= seq!['e', '1', 'f', '2', 'a', '3', 'b', '4', 'c', '5', 'd', '6', '7', '8', '9', '0', 'e', 'f', 'a', 'b', '0', '1', '2', '3', '4', '5', '6', '7', '8', '9', '0', '1']);
    reveal_strlit("e1f2a3b4-c5d6-7890-efab-012345678901");
    assert(uuid_text(DEMO_JOB_1) =~= "e1f2a3b4-c5d6-7890-efab-012345678901"@);
}

/// `DEMO_JOB_2` is the value whose UUID text is `f2a3b4c5-d6e7-8901-fabc-123456789012`.
proof fn lemma_demo_job_2_text()
    ensures
        uuid_text(DEMO_JOB_2) == "f2a3b4c5-d6e7-8901-fabc-123456789012"@,
{
    lemma_hex_digit_values();
    assert(hex_digits(15nat, 1) =~= seq!['f']);
    assert(hex_digits(242nat, 2) =~= seq!['f', '2']);
    assert(hex_digits(3882nat, 3) =~= seq!['f', '2', 'a']);
    assert(hex_digits(62115nat, 4) =~= seq!['f', '2', 'a', '3']);
    assert(hex_digits(993851nat, 5) =~= seq!['f', '2', 'a', '3', 'b']);
    assert(hex_digits(15901620nat, 6) =~= seq!['f', '2', 'a', '3', 'b', '4']);
    assert(hex_digits(254425932nat, 7) =~= seq!['f', '2', 'a', '3', 'b', '4', 'c']);
    assert(hex_digits(4070814917nat, 8) =~= seq!['f', '2', 'a', '3', 'b', '4', 'c', '5']);
    assert(hex_digits(65133038685nat, 9) =~= seq!['f', '2', 'a', '3', 'b', '4', 'c', '5', 'd']);
    assert(hex_digits(1042128618966nat, 10) =~= seq!['f', '2', 'a', '3', 'b', '4', 'c', '5', 'd', '6']);
    assert(hex_digits(16674057903470nat, 11) =~= seq!['f', '2', 'a', '3', 'b', '4', 'c', '5', 'd', '6', 'e']);
    assert(hex_digits(266784926455527nat, 12) =~= seq!['f', '2', 'a', '3', 'b', '4', 'c', '5', 'd', '6', 'e', '7']);
    assert(hex_digits(4268558823288440nat, 13) =~= seq!['f', '2', 'a', '3', 'b', '4', 'c', '5', 'd', '6', 'e', '7', '8']);
    assert(hex_digits(68296941172615049nat, 14) =~= seq!['f', '2', 'a', '3', 'b', '4', 'c', '5', 'd', '6', 'e', '7', '8', '9']);
    assert(hex_digits(1092751058761840784nat, 15) =~= seq!['f', '2', 'a', '3', 'b', '4', 'c', '5', 'd', '6', 'e', '7', '8', '9', '0']);
    assert(hex_digits(17484016940189452545nat, 16) =~= seq!['f', '2', 'a', '3', 'b', '4', 'c', '5', 'd', '6', 'e', '7', '8', '9', '0', '1']);
    assert(hex_digits(279744271043031240735nat, 17) =~= seq!['f', '2', 'a', '3', 'b', '4', 'c', '5', 'd', '6', 'e', '7', '8', '9', '0', '1', 'f']);
    assert(hex_digits(4475908336688499851770nat, 18) =~= seq!['f', '2', 'a', '3', 'b', '4', 'c', '5', 'd', '6', 'e', '7', '8', '9', '0', '1', 'f', 'a']);
    assert(hex_digits(71614533387015997628331nat, 19) =~= seq!['f', '2', 'a', '3', 'b', '4', 'c', '5', 'd', '6', 'e', '7', '8', '9', '0', '1', 'f', 'a', 'b']);
    assert(hex_digits(1145832534192255962053308nat, 20) =~= seq!['f', '2', 'a', '3', 'b', '4', 'c', '5', 'd', '6', 'e', '7', '8', '9', '0', '1', 'f', 'a', 'b', 'c']);
    assert(hex_digits(18333320547076095392852929nat, 21) =~= seq!['f', '2', 'a', '3', 'b', '4', 'c', '5', 'd', '6', 'e', '7', '8', '9', '0', '1', 'f', 'a', 'b', 'c', '1']);
    assert(hex_digits(293333128753217526285646866nat, 22) =~= seq!['f', '2', 'a', '3', 'b', '4', 'c', '5', 'd', '6', 'e', '7', '8', '9', '0', '1', 'f', 'a', 'b', 'c', '1', '2']);
    assert(hex_digits(4693330060051480420570349859nat, 23) =~= seq!['f', '2', 'a', '3', 'b', '4', 'c', '5', 'd', '6', 'e', '7', '8', '9', '0', '1', 'f', 'a', 'b', 'c', '1', '2', '3']);
    assert(hex_digits(75093280960823686729125597748nat, 24) =~= seq!['f', '2', 'a', '3', 'b', '4', 'c', '5', 'd', '6', 'e', '7', '8', '9', '0', '1', 'f', 'a', 'b', 'c', '1', '2', '3', '4']);
    assert(hex_digits(1201492495373178987666009563973nat, 25) =~= seq!['f', '2', 'a', '3', 'b', '4', 'c', '5', 'd', '6', 'e', '7', '8', '9', '0', '1', 'f', 'a', 'b', 'c', '1', '2', '3', '4', '5']);
    assert(hex_digits(19223879925970863802656153023574nat, 26) =~= seq!['f', '2', 'a', '3', 'b', '4', 'c', '5', 'd', '6', 'e', '7', '8', '9', '0', '1', 'f', 'a', 'b', 'c', '1', '2', '3', '4', '5', '6']);
    assert(hex_digits(307582078815533820842498448377191nat, 27) =~= seq!['f', '2', 'a', '3', 'b', '4', 'c', '5', 'd', '6', 'e', '7', '8', '9', '0', '1', 'f', 'a', 'b', 'c', '1', '2', '3', '4', '5', '6', '7']);
    assert(hex_digits(4921313261048541133479975174035064nat, 28) =~= seq!['f', '2', 'a', '3', 'b', '4', 'c', '5', 'd', '6', 'e', '7', '8', '9', '0', '1', 'f', 'a', 'b', 'c', '1', '2', '3', '4', '5', '6', '7', '8']);
    assert(hex_digits(78741012176776658135679602784561033nat, 29) =~= seq!['f', '2', 'a', '3', 'b', '4', 'c', '5', 'd', '6', 'e', '7', '8', '9', '0', '1', 'f', 'a', 'b', 'c', '1', '2', '3', '4', '5', '6', '7', '8', '9']);
    assert(hex_digits(1259856194828426530170873644552976528nat, 30) =~= seq!['f', '2', 'a', '3', 'b', '4', 'c', '5', 'd', '6', 'e', '7', '8', '9', '0', '1', 'f', 'a', 'b', 'c', '1', '2', '3', '4', '5', '6', '7', '8', '9', '0']);
    assert(hex_digits(20157699117254824482733978312847624449nat, 31) =~= seq!['f', '2', 'a', '3', 'b', '4', 'c', '5', 'd', '6', 'e', '7', '8', '9', '0', '1', 'f', 'a', 'b', 'c', '1', '2', '3', '4', '5', '6', '7', '8', '9', '0', '1']);
    assert(hex_digits(322523185876077191723743653005561991186nat, 32) =~= seq!['f', '2', 'a', '3', 'b', '4', 'c', '5', 'd', '6', 'e', '7', '8', '9', '0', '1', 'f', 'a', 'b', 'c', '1', '2', '3', '4', '5', '6', '7', '8', '9', '0', '1', '2']);
    reveal_strlit("f2a3b4c5-d6e7-8901-fabc-123456789012");
    assert(uuid_text(DEMO_JOB_2) =~= "f2a3b4c5-d6e7-8901-fabc-123456789012"@);
}

/// `DEMO_JOB_3` is the value whose UUID text is `a3b4c5d6-e7f8-9012-abcd-234567890123`.
proof fn lemma_demo_job_3_text()
    ensures
        uuid_text(DEMO_JOB_3) == "a3b4c5d6-e7f8-9012-abcd-234567890123"@,
{
    lemma_hex_digit_values();
    assert(hex_digits(10nat, 1) =~= seq!['a']);
    assert(hex_digits(163nat, 2) =~= seq!['a', '3']);
    assert(hex_digits(2619nat, 3) =~= seq!['a', '3', 'b']);
    assert(hex_digits(41908nat, 4) =~= seq!['a', '3', 'b', '4']);
    assert(hex_digits(670540nat, 5) =~= seq!['a', '3', 'b', '4', 'c']);
    assert(hex_digits(10728645nat, 6) =~= seq!['a', '3', 'b', '4', 'c', '5']);
    assert(hex_digits(171658333nat, 7) =~= seq!['a', '3', 'b', '4', 'c', '5', 'd']);
    assert(hex_digits(2746533334nat, 8) =~= seq!['a', '3', 'b', '4', 'c', '5', 'd', '6']);
    assert(hex_digits(43944533358nat, 9) =~= seq!['a', '3', 'b', '4', 'c', '5', 'd', '6', 'e']);
    assert(hex_digits(703112533735nat, 10) =~= seq!['a', '3', 'b', '4', 'c', '5', 'd', '6', 'e', '7']);
    assert(hex_digits(11249800539775nat, 11) =~= seq!['a', '3', 'b', '4', 'c', '5', 'd', '6', 'e', '7', 'f']);
    assert(hex_digits(179996808636408nat, 12) =~= seq!['a', '3', 'b', '4', 'c', '5', 'd', '6', 'e', '7', 'f', '8']);
    assert(hex_digits(2879948938182537nat, 13) =~= seq!['a', '3', 'b', '4', 'c', '5', 'd', '6', 'e', '7', 'f', '8', '9']);
    assert(hex_digits(46079183010920592nat, 14) =~= seq!['a', '3', 'b', '4', 'c', '5', 'd', '6', 'e', '7', 'f', '8', '9', '0']);
    assert(hex_digits(737266928174729473nat, 15) =~= seq!['a', '3', 'b', '4', 'c', '5', 'd', '6', 'e', '7', 'f', '8', '9', '0', '1']);
    assert(hex_digits(11796270850795671570nat, 16) =~= seq!['a', '3', 'b', '4', 'c', '5', 'd', '6', 'e', '7', 'f', '8', '9', '0', '1', '2']);
    assert(hex_digits(188740333612730745130nat, 17) =~= seq!['a', '3', 'b', '4', 'c', '5', 'd', '6', 'e', '7', 'f', '8', '9', '0', '1', '2', 'a']);
    assert(hex_digits(3019845337803691922091nat, 18) =~= seq!['a', '3', 'b', '4', 'c', '5', 'd', '6', 'e', '7', 'f', '8', '9', '0', '1', '2', 'a', 'b']);
    assert(hex_digits(48317525404859070753468nat, 19) =~= seq!['a', '3', 'b', '4', 'c', '5', 'd', '6', 'e', '7', 'f', '8', '9', '0', '1', '2', 'a', 'b', 'c']);
    assert(hex_digits(773080406477745132055501nat, 20) =~= seq!['a', '3', 'b', '4', 'c', '5', 'd', '6', 'e', '7', 'f', '8', '9', '0', '1', '2', 'a', 'b', 'c', 'd']);
    assert(hex_digits(12369286503643922112888018nat, 21) =~= seq!['a', '3', 'b', '4', 'c', '5', 'd', '6', 'e', '7', 'f', '8', '9', '0', '1', '2', 'a', 'b', 'c', 'd', '2']);
    assert(hex_digits(197908584058302753806208291nat, 22) =~= seq!['a', '3', 'b', '4', 'c', '5', 'd', '6', 'e', '7', 'f', '8', '9', '0', '1', '2', 'a', 'b', 'c', 'd', '2', '3']);
    assert(hex_digits(3166537344932844060899332660nat, 23) =~= seq!['a', '3', 'b', '4', 'c', '5', 'd', '6', 'e', '7', 'f', '8', '9', '0', '1', '2', 'a', 'b', 'c', 'd', '2', '3', '4']);
    assert(hex_digits(50664597518925504974389322565nat, 24) =~= seq!['a', '3', 'b', '4', 'c', '5', 'd', '6', 'e', '7', 'f', '8', '9', '0', '1', '2', 'a', 'b', 'c', 'd', '2', '3', '4', '5']);
    assert(hex_digits(810633560302808079590229161046nat, 25) =~= seq!['a', '3', 'b', '4', 'c', '5', 'd', '6', 'e', '7', 'f', '8', '9', '0', '1', '2', 'a', 'b', 'c', 'd', '2', '3', '4', '5', '6']);
    assert(hex_digits(12970136964844929273443666576743nat, 26) =~= seq!['a', '3', 'b', '4', 'c', '5', 'd', '6', 'e', '7', 'f', '8', '9', '0', '1', '2', 'a', 'b', 'c', 'd', '2', '3', '4', '5', '6', '7']);
    assert(hex_digits(207522191437518868375098665227896nat, 27) =~= seq!['a', '3', 'b', '4', 'c', '5', 'd', '6', 'e', '7', 'f', '8', '9', '0', '1', '2', 'a', 'b', 'c', 'd', '2', '3', '4', '5', '6', '7', '8']);
    assert(hex_digits(3320355063000301894001578643646345nat, 28) =~= seq!['a', '3', 'b', '4', 'c', '5', 'd', '6', 'e', '7', 'f', '8', '9', '0', '1', '2', 'a', 'b', 'c', 'd', '2', '3', '4', '5', '6', '7', '8', '9']);
    assert(hex_digits(53125681008004830304025258298341520nat, 29) =~= seq!['a', '3', 'b', '4', 'c', '5', 'd', '6', 'e', '7', 'f', '8', '9', '0', '1', '2', 'a', 'b', 'c', 'd', '2', '3', '4', '5', '6', '7', '8', '9', '0']);
    assert(hex_digits(850010896128077284864404132773464321nat, 30) =~= seq!['a', '3', 'b', '4', 'c', '5', 'd', '6', 'e', '7', 'f', '8', '9', '0', '1', '2', 'a', 'b', 'c', 'd', '2', '3', '4', '5', '6', '7', '8', '9', '0', '1']);
    assert(hex_digits(13600174338049236557830466124375429138nat, 31) =~= seq!['a', '3', 'b', '4', 'c', '5', 'd', '6', 'e', '7', 'f', '8', '9', '0', '1', '2', 'a', 'b', 'c', 'd', '2', '3', '4', '5', '6', '7', '8', '9', '0', '1', '2']);
    assert(hex_digits(217602789408787784925287457990006866211nat, 32) =~= seq!['a', '3', 'b', '4', 'c', '5', 'd', '6', 'e', '7', 'f', '8', '9', '0', '1', '2', 'a', 'b', 'c', 'd', '2', '3', '4', '5', '6', '7', '8', '9', '0', '1', '2', '3']);
    reveal_strlit("a3b4c5d6-e7f8-9012-abcd-234567890123");
    assert(uuid_text(DEMO_JOB_3) =~= "a3b4c5d6-e7f8-9012-abcd-234567890123"@);
}

/// `DEMO_PAIN_1` is the value whose UUID text is `b4c5d6e7-f8a9-0123-bcde-345678901234`.
proof fn lemma_demo_pain_1_text()
    ensures
        uuid_text(DEMO_PAIN_1) == "b4c5d6e7-f8a9-0123-bcde-345678901234"@,
{
    lemma_hex_digit_values();
    assert(hex_digits(11nat, 1) =~= seq!['b']);
    assert(hex_digits(180nat, 2) =~= seq!['b', '4']);
    assert(hex_digits(2892nat, 3) =~= seq!['b', '4', 'c']);
    assert(hex_digits(46277nat, 4) =~= seq!['b', '4', 'c', '5']);
    assert(hex_digits(740445nat, 5) =~= seq!['b', '4', 'c', '5', 'd']);
    assert(hex_digits(11847126nat, 6) =~= seq!['b', '4', 'c', '5', 'd', '6']);
    assert(hex_digits(189554030nat, 7) =~= seq!['b', '4', 'c', '5', 'd', '6', 'e']);
    assert(hex_digits(3032864487nat, 8) =~= seq!['b', '4', 'c', '5', 'd', '6', 'e', '7']);
    assert(hex_digits(48525831807nat, 9) =~= seq!['b', '4', 'c', '5', 'd', '6', 'e', '7', 'f']);
    assert(hex_digits(776413308920nat, 10) =~= seq!['b', '4', 'c', '5', 'd', '6', 'e', '7', 'f', '8']);
    assert(hex_digits(12422612942730nat, 11) =~= seq!['b', '4', 'c', '5', 'd', '6', 'e', '7', 'f', '8', 'a']);
    assert(hex_digits(198761807083689nat, 12) =~= seq!['b', '4', 'c', '5', 'd', '6', 'e', '7', 'f', '8', 'a', '9']);
    assert(hex_digits(3180188913339024nat, 13) =~= seq!['b', '4', 'c', '5', 'd', '6', 'e', '7', 'f', '8', 'a', '9', '0']);
    assert(hex_digits(50883022613424385nat, 14) =~= seq!['b', '4', 'c', '5', 'd', '6', 'e', '7', 'f', '8', 'a', '9', '0', '1']);
    assert(hex_digits(814128361814790162nat, 15) =~= seq!['b', '4', 'c', '5', 'd', '6', 'e', '7', 'f', '8', 'a', '9', '0', '1', '2']);
    assert(hex_digits(13026053789036642595nat, 16) =~= seq!['b', '4', 'c', '5', 'd', '6', 'e', '7', 'f', '8', 'a', '9', '0', '1', '2', '3']);
    assert(hex_digits(208416860624586281531nat, 17) =~= seq!['b', '4', 'c', '5', 'd', '6', 'e', '7', 'f', '8', 'a', '9', '0', '1', '2', '3', 'b']);
    assert(hex_digits(3334669769993380504508nat, 18) =~= seq!['b', '4', 'c', '5', 'd', '6', 'e', '7', 'f', '8', 'a', '9', '0', '1', '2', '3', 'b', 'c']);
    assert(hex_digits(53354716319894088072141nat, 19) =~= seq!['b', '4', 'c', '5', 'd', '6', 'e', '7', 'f', '8', 'a', '9', '0', '1', '2', '3', 'b', 'c', 'd']);
    assert(hex_digits(853675461118305409154270nat, 20) =~= seq!['b', '4', 'c', '5', 'd', '6', 'e', '7', 'f', '8', 'a', '9', '0', '1', '2', '3', 'b', 'c', 'd', 'e']);
    assert(hex_digits(13658807377892886546468323nat, 21) =~= seq!['b', '4', 'c', '5', 'd', '6', 'e', '7', 'f', '8', 'a', '9', '0', '1', '2', '3', 'b', 'c', 'd', 'e', '3']);
    assert(hex_digits(218540918046286184743493172nat, 22) =~= seq!['b', '4', 'c', '5', 'd', '6', 'e', '7', 'f', '8', 'a', '9', '0', '1', '2', '3', 'b', 'c', 'd', 'e', '3', '4']);
    assert(hex_digits(3496654688740578955895890757nat, 23) =~= seq!['b', '4', 'c', '5', 'd', '6', 'e', '7', 'f', '8', 'a', '9', '0', '1', '2', '3', 'b', 'c', 'd', 'e', '3', '4', '5']);
    assert(hex_digits(55946475019849263294334252118nat, 24) =~= seq!['b', '4', 'c', '5', 'd', '6', 'e', '7', 'f', '8', 'a', '9', '0', '1', '2', '3', 'b', 'c', 'd', 'e', '3', '4', '5', '6']);
    assert(hex_digits(895143600317588212709348033895nat, 25) =~= seq!['b', '4', 'c', '5', 'd', '6', 'e', '7', 'f', '8', 'a', '9', '0', '1', '2', '3', 'b', 'c', 'd', 'e', '3', '4', '5', '6', '7']);
    assert(hex_digits(14322297605081411403349568542328nat, 26) =~= seq!['b', '4', 'c', '5', 'd', '6', 'e', '7', 'f', '8', 'a', '9', '0', '1', '2', '3', 'b', 'c', 'd', 'e', '3', '4', '5', '6', '7', '8']);
    assert(hex_digits(229156761681302582453593096677257nat, 27) =~= seq!['b', '4', 'c', '5', 'd', '6', 'e', '7', 'f', '8', 'a', '9', '0', '1', '2', '3', 'b', 'c', 'd', 'e', '3', '4', '5', '6', '7', '8', '9']);
    assert(hex_digits(3666508186900841319257489546836112nat, 28) =~= seq!['b', '4', 'c', '5', 'd', '6', 'e', '7', 'f', '8', 'a', '9', '0', '1', '2', '3', 'b', 'c', 'd', 'e', '3', '4', '5', '6', '7', '8', '9', '0']);
    assert(hex_digits(58664130990413461108119832749377793nat, 29) =~= seq!['b', '4', 'c', '5', 'd', '6', 'e', '7', 'f', '8', 'a', '9', '0', '1', '2', '3', 'b', 'c', 'd', 'e', '3', '4', '5', '6', '7', '8', '9', '0', '1']);
    assert(hex_digits(938626095846615377729917323990044690nat, 30) =~= seq!['b', '4', 'c', '5', 'd', '6', 'e', '7', 'f', '8', 'a', '9', '0', '1', '2', '3', 'b', 'c', 'd', 'e', '3', '4', '5', '6', '7', '8', '9', '0', '1', '2']);
    assert(hex_digits(15018017533545846043678677183840715043nat, 31) =~= seq!['b', '4', 'c', '5', 'd', '6', 'e', '7', 'f', '8', 'a', '9', '0', '1', '2', '3', 'b', 'c', 'd', 'e', '3', '4', '5', '6', '7', '8', '9', '0', '1', '2', '3']);
    assert(hex_digits(240288280536733536698858834941451440692nat, 32) =~= seq!['b', '4', 'c', '5', 'd', '6', 'e', '7', 'f', '8', 'a', '9', '0', '1', '2', '3', 'b', 'c', 'd', 'e', '3', '4', '5', '6', '7', '8', '9', '0', '1', '2', '3', '4']);
    reveal_strlit("b4c5d6e7-f8a9-0123-bcde-345678901234");
    assert(uuid_text(DEMO_PAIN_1) =~= "b4c5d6e7-f8a9-0123-bcde-345678901234"@);
}

/// `DEMO_PAIN_2` is the value whose UUID text is `c5d6e7f8-a9b0-1234-cdef-456789012345`.
proof fn lemma_demo_pain_2_text()
    ensures
        uuid_text(DEMO_PAIN_2) == "c5d6e7f8-a9b0-1234-cdef-456789012345"@,
{
    lemma_hex_digit_values();
    assert(hex_digits(12nat, 1) =~= seq!['c']);
    assert(hex_digits(197nat, 2) =~= seq!['c', '5']);
    assert(hex_digits(3165nat, 3) =~= seq!['c', '5', 'd']);
    assert(hex_digits(50646nat, 4) =~= seq!['c', '5', 'd', '6']);
    assert(hex_digits(810350nat, 5) =~= seq!['c', '5', 'd', '6', 'e']);
    assert(hex_digits(12965607nat, 6) =~= seq!['c', '5', 'd', '6', 'e', '7']);
    assert(hex_digits(207449727nat, 7) =~= seq!['c', '5', 'd', '6', 'e', '7', 'f']);
    assert(hex_digits(3319195640nat, 8) =~= seq!['c', '5', 'd', '6', 'e', '7', 'f', '8']);
    assert(hex_digits(53107130250nat, 9) =~= seq!['c', '5', 'd', '6', 'e', '7', 'f', '8', 'a']);
    assert(hex_digits(849714084009nat, 10) =~= seq!['c', '5', 'd', '6', 'e', '7', 'f', '8', 'a', '9']);
    assert(hex_digits(13595425344155nat, 11) =~= seq!['c', '5', 'd', '6', 'e', '7', 'f', '8', 'a', '9', 'b']);
    assert(hex_digits(217526805506480nat, 12) =~= seq!['c', '5', 'd', '6', 'e', '7', 'f', '8', 'a', '9', 'b', '0']);
    assert(hex_digits(3480428888103681nat, 13) =~= seq!['c', '5', 'd', '6', 'e', '7', 'f', '8', 'a', '9', 'b', '0', '1']);
    assert(hex_digits(55686862209658898nat, 14) =~= seq!['c', '5', 'd', '6', 'e', '7', 'f', '8', 'a', '9', 'b', '0', '1', '2']);
    assert(hex_digits(890989795354542371nat, 15) =~= seq!['c', '5', 'd', '6', 'e', '7', 'f', '8', 'a', '9', 'b', '0', '1', '2', '3']);
    assert(hex_digits(14255836725672677940nat, 16) =~= seq!['c', '5', 'd', '6', 'e', '7', 'f', '8', 'a', '9', 'b', '0', '1', '2', '3', '4']);
    assert(hex_digits(228093387610762847052nat, 17) =~= seq!['c', '5', 'd', '6', 'e', '7', 'f', '8', 'a', '9', 'b', '0', '1', '2', '3', '4', 'c']);
    assert(hex_digits(3649494201772205552845nat, 18) =~= seq!['c', '5', 'd', '6', 'e', '7', 'f', '8', 'a', '9', 'b', '0', '1', '2', '3', '4', 'c', 'd']);
    assert(hex_digits(58391907228355288845534nat, 19) =~= seq!['c', '5', 'd', '6', 'e', '7', 'f', '8', 'a', '9', 'b', '0', '1', '2', '3', '4', 'c', 'd', 'e']);
    assert(hex_digits(934270515653684621528559nat, 20) =~= seq!['c', '5', 'd', '6', 'e', '7', 'f', '8', 'a', '9', 'b', '0', '1', '2', '3', '4', 'c', 'd', 'e', 'f']);
    assert(hex_digits(14948328250458953944456948nat, 21) =~= seq!['c', '5', 'd', '6', 'e', '7', 'f', '8', 'a', '9', 'b', '0', '1', '2', '3', '4', 'c', 'd', 'e', 'f', '4']);
    assert(hex_digits(239173252007343263111311173nat, 22) =~= seq!['c', '5', 'd', '6', 'e', '7', 'f', '8', 'a', '9', 'b', '0', '1', '2', '3', '4', 'c', 'd', 'e', 'f', '4', '5']);
    assert(hex_digits(3826772032117492209780978774nat, 23) =~= seq!['c', '5', 'd', '6', 'e', '7', 'f', '8', 'a', '9', 'b', '0', '1', '2', '3', '4', 'c', 'd', 'e', 'f', '4', '5', '6']);
    assert(hex_digits(61228352513879875356495660391nat, 24) =~= seq!['c', '5', 'd', '6', 'e', '7', 'f', '8', 'a', '9', 'b', '0', '1', '2', '3', '4', 'c', 'd', 'e', 'f', '4', '5', '6', '7']);
    assert(hex_digits(979653640222078005703930566264nat, 25) =~= seq!['c', '5', 'd', '6', 'e', '7', 'f', '8', 'a', '9', 'b', '0', '1', '2', '3', '4', 'c', 'd', 'e', 'f', '4', '5', '6', '7', '8']);
    assert(hex_digits(15674458243553248091262889060233nat, 26) =~= seq!['c', '5', 'd', '6', 'e', '7', 'f', '8', 'a', '9', 'b', '0', '1', '2', '3', '4', 'c', 'd', 'e', 'f', '4', '5', '6', '7', '8', '9']);
    assert(hex_digits(250791331896851969460206224963728nat, 27) =~= seq!['c', '5', 'd', '6', 'e', '7', 'f', '8', 'a', '9', 'b', '0', '1', '2', '3', '4', 'c', 'd', 'e', 'f', '4', '5', '6', '7', '8', '9', '0']);
    assert(hex_digits(4012661310349631511363299599419649nat, 28) =~= seq!['c', '5', 'd', '6', 'e', '7', 'f', '8', 'a', '9', 'b', '0', '1', '2', '3', '4', 'c', 'd', 'e', 'f', '4', '5', '6', '7', '8', '9', '0', '1']);
    assert(hex_digits(64202580965594104181812793590714386nat, 29) =~= seq!['c', '5', 'd', '6', 'e', '7', 'f', '8', 'a', '9', 'b', '0', '1', '2', '3', '4', 'c', 'd', 'e', 'f', '4', '5', '6', '7', '8', '9', '0', '1', '2']);
    assert(hex_digits(1027241295449505666909004697451430179nat, 30) =~= seq!['c', '5', 'd', '6', 'e', '7', 'f', '8', 'a', '9', 'b', '0', '1', '2', '3', '4', 'c', 'd', 'e', 'f', '4', '5', '6', '7', '8', '9', '0', '1', '2', '3']);
    assert(hex_digits(16435860727192090670544075159222882868nat, 31) =~= seq!['c', '5', 'd', '6', 'e', '7', 'f', '8', 'a', '9', 'b', '0', '1', '2', '3', '4', 'c', 'd', 'e', 'f', '4', '5', '6', '7', '8', '9', '0', '1', '2', '3', '4']);
    assert(hex_digits(262973771635073450728705202547566125893nat, 32) =~= seq!['c', '5', 'd', '6', 'e', '7', 'f', '8', 'a', '9', 'b', '0', '1', '2', '3', '4', 'c', 'd', 'e', 'f', '4', '5', '6', '7', '8', '9', '0', '1', '2', '3', '4', '5']);
    reveal_strlit("c5d6e7f8-a9b0-1234-cdef-456789012345");
    assert(uuid_text(DEMO_PAIN_2) =~= "c5d6e7f8-a9b0-1234-cdef-456789012345"@);
}

/// `DEMO_PAIN_3` is the value whose UUID text is `d6e7f8a9-b0c1-2345-defa-567890123456`.
proof fn lemma_demo_pain_3_text()
    ensures
        uuid_text(DEMO_PAIN_3) == "d6e7f8a9-b0c1-2345-defa-567890123456"@,
{
    lemma_hex_digit_values();
    assert(hex_digits(13nat, 1) =~= seq!['d']);
    assert(hex_digits(214nat, 2) =~= seq!['d', '6']);
    assert(hex_digits(3438nat, 3) =~= seq!['d', '6', 'e']);
    assert(hex_digits(55015nat, 4) =~= seq!['d', '6', 'e', '7']);
    assert(hex_digits(880255nat, 5) =~= seq!['d', '6', 'e', '7', 'f']);
    assert(hex_digits(14084088nat, 6) =~= seq!['d', '6', 'e', '7', 'f', '8']);
    assert(hex_digits(225345418nat, 7) =~= seq!['d', '6', 'e', '7', 'f', '8', 'a']);
    assert(hex_digits(3605526697nat, 8) =~= seq!['d', '6', 'e', '7', 'f', '8', 'a', '9']);
    assert(hex_digits(57688427163nat, 9) =~= seq!['d', '6', 'e', '7', 'f', '8', 'a', '9', 'b']);
    assert(hex_digits(923014834608nat, 10) =~= seq!['d', '6', 'e', '7', 'f', '8', 'a', '9', 'b', '0']);
    assert(hex_digits(14768237353740nat, 11) =~= seq!['d', '6', 'e', '7', 'f', '8', 'a', '9', 'b', '0', 'c']);
    assert(hex_digits(236291797659841nat, 12) =~= seq!['d', '6', 'e', '7', 'f', '8', 'a', '9', 'b', '0', 'c', '1']);
    assert(hex_digits(3780668762557458nat, 13) =~= seq!['d', '6', 'e', '7', 'f', '8', 'a', '9', 'b', '0', 'c', '1', '2']);
    assert(hex_digits(60490700200919331nat, 14) =~= seq!['d', '6', 'e', '7', 'f', '8', 'a', '9', 'b', '0', 'c', '1', '2', '3']);
    assert(hex_digits(967851203214709300nat, 15) =~= seq!['d', '6', 'e', '7', 'f', '8', 'a', '9', 'b', '0', 'c', '1', '2', '3', '4']);
    assert(hex_digits(15485619251435348805nat, 16) =~= seq!['d', '6', 'e', '7', 'f', '8', 'a', '9', 'b', '0', 'c', '1', '2', '3', '4', '5']);
    assert(hex_digits(247769908022965580893nat, 17) =~= seq!['d', '6', 'e', '7', 'f', '8', 'a', '9', 'b', '0', 'c', '1', '2', '3', '4', '5', 'd']);
    assert(hex_digits(3964318528367449294302nat, 18) =~= seq!['d', '6', 'e', '7', 'f', '8', 'a', '9', 'b', '0', 'c', '1', '2', '3', '4', '5', 'd', 'e']);
    assert(hex_digits(63429096453879188708847nat, 19) =~= seq!['d', '6', 'e', '7', 'f', '8', 'a', '9', 'b', '0', 'c', '1', '2', '3', '4', '5', 'd', 'e', 'f']);
    assert(hex_digits(1014865543262067019341562nat, 20) =~= seq!['d', '6', 'e', '7', 'f', '8', 'a', '9', 'b', '0', 'c', '1', '2', '3', '4', '5', 'd', 'e', 'f', 'a']);
    assert(hex_digits(16237848692193072309464997nat, 21) =~= seq!['d', '6', 'e', '7', 'f', '8', 'a', '9', 'b', '0', 'c', '1', '2', '3', '4', '5', 'd', 'e', 'f', 'a', '5']);
    assert(hex_digits(259805579075089156951439958nat, 22) =~= seq!['d', '6', 'e', '7', 'f', '8', 'a', '9', 'b', '0', 'c', '1', '2', '3', '4', '5', 'd', 'e', 'f', 'a', '5', '6']);
    assert(hex_digits(4156889265201426511223039335nat, 23) =~= seq!['d', '6', 'e', '7', 'f', '8', 'a', '9', 'b', '0', 'c', '1', '2', '3', '4', '5', 'd', 'e', 'f', 'a', '5', '6', '7']);
    assert(hex_digits(66510228243222824179568629368nat, 24) =~= seq!['d', '6', 'e', '7', 'f', '8', 'a', '9', 'b', '0', 'c', '1', '2', '3', '4', '5', 'd', 'e', 'f', 'a', '5', '6', '7', '8']);
    assert(hex_digits(1064163651891565186873098069897nat, 25) =~= seq!['d', '6', 'e', '7', 'f', '8', 'a', '9', 'b', '0', 'c', '1', '2', '3', '4', '5', 'd', 'e', 'f', 'a', '5', '6', '7', '8', '9']);
    assert(hex_digits(17026618430265042989969569118352nat, 26) =~= seq!['d', '6', 'e', '7', 'f', '8', 'a', '9', 'b', '0', 'c', '1', '2', '3', '4', '5', 'd', 'e', 'f', 'a', '5', '6', '7', '8', '9', '0']);
    assert(hex_digits(272425894884240687839513105893633nat, 27) =~= seq!['d', '6', 'e', '7', 'f', '8', 'a', '9', 'b', '0', 'c', '1', '2', '3', '4', '5', 'd', 'e', 'f', 'a', '5', '6', '7', '8', '9', '0', '1']);
    assert(hex_digits(4358814318147851005432209694298130nat, 28) =~= seq!['d', '6', 'e', '7', 'f', '8', 'a', '9', 'b', '0', 'c', '1', '2', '3', '4', '5', 'd', 'e', 'f', 'a', '5', '6', '7', '8', '9', '0', '1', '2']);
    assert(hex_digits(69741029090365616086915355108770083nat, 29) =~= seq!['d', '6', 'e', '7', 'f', '8', 'a', '9', 'b', '0', 'c', '1', '2', '3', '4', '5', 'd', 'e', 'f', 'a', '5', '6', '7', '8', '9', '0', '1', '2', '3']);
    assert(hex_digits(1115856465445849857390645681740321332nat, 30) =~= seq!['d', '6', 'e', '7', 'f', '8', 'a', '9', 'b', '0', 'c', '1', '2', '3', '4', '5', 'd', 'e', 'f', 'a', '5', '6', '7', '8', '9', '0', '1', '2', '3', '4']);
    assert(hex_digits(17853703447133597718250330907845141317nat, 31) =~= seq!['d', '6', 'e', '7', 'f', '8', 'a', '9', 'b', '0', 'c', '1', '2', '3', '4', '5', 'd', 'e', 'f', 'a', '5', '6', '7', '8', '9', '0', '1', '2', '3', '4', '5']);
    assert(hex_digits(285659255154137563492005294525522261078nat, 32) =~= seq!['d', '6', 'e', '7', 'f', '8', 'a', '9', 'b', '0', 'c', '1', '2', '3', '4', '5', 'd', 'e', 'f', 'a', '5', '6', '7', '8', '9', '0', '1', '2', '3', '4', '5', '6']);
    reveal_strlit("d6e7f8a9-b0c1-2345-defa-567890123456");
    assert(uuid_text(DEMO_PAIN_3) =~= "d6e7f8a9-b0c1-2345-defa-567890123456"@);
}

/// `DEMO_GAIN_1` is the value whose UUID text is `e7f8a9b0-c1d2-3456-efab-678901234567`.
proof fn lemma_demo_gain_1_text()
    ensures
        uuid_text(DEMO_GAIN_1) == "e7f8a9b0-c1d2-3456-efab-678901234567"@,
{
    lemma_hex_digit_values();
    assert(hex_digits(14nat, 1) =~= seq!['e']);
    assert(hex_digits(231nat, 2) =~= seq!['e', '7']);
    assert(hex_digits(3711nat, 3) =~= seq!['e', '7', 'f']);
    assert(hex_digits(59384nat, 4) =~= seq!['e', '7', 'f', '8']);
    assert(hex_digits(950154nat, 5) =~= seq!['e', '7', 'f', '8', 'a']);
    assert(hex_digits(15202473nat, 6) =~= seq!['e', '7', 'f', '8', 'a', '9']);
    assert(hex_digits(243239579nat, 7) =~= seq!['e', '7', 'f', '8', 'a', '9', 'b']);
    assert(hex_digits(3891833264nat, 8) =~= seq!['e', '7', 'f', '8', 'a', '9', 'b', '0']);
    assert(hex_digits(62269332236nat, 9) =~= seq!['e', '7', 'f', '8', 'a', '9', 'b', '0', 'c']);
    assert(hex_digits(996309315777nat, 10) =~= seq!['e', '7', 'f', '8', 'a', '9', 'b', '0', 'c', '1']);
    assert(hex_digits(15940949052445nat, 11) =~= seq!['e', '7', 'f', '8', 'a', '9', 'b', '0', 'c', '1', 'd']);
    assert(hex_digits(255055184839122nat, 12) =~= seq!['e', '7', 'f', '8', 'a', '9', 'b', '0', 'c', '1', 'd', '2']);
    assert(hex_digits(4080882957425955nat, 13) =~= seq!['e', '7', 'f', '8', 'a', '9', 'b', '0', 'c', '1', 'd', '2', '3']);
    assert(hex_digits(65294127318815284nat, 14) =~= seq!['e', '7', 'f', '8', 'a', '9', 'b', '0', 'c', '1', 'd', '2', '3', '4']);
    assert(hex_digits(1044706037101044549nat, 15) =~= seq!['e', '7', 'f', '8', 'a', '9', 'b', '0', 'c', '1', 'd', '2', '3', '4', '5']);
    assert(hex_digits(16715296593616712790nat, 16) =~= seq!['e', '7', 'f', '8', 'a', '9', 'b', '0', 'c', '1', 'd', '2', '3', '4', '5', '6']);
    assert(hex_digits(267444745497867404654nat, 17) =~= seq!['e', '7', 'f', '8', 'a', '9', 'b', '0', 'c', '1', 'd', '2', '3', '4', '5', '6', 'e']);
    assert(hex_digits(4279115927965878474479nat, 18) =~= seq!['e', '7', 'f', '8', 'a', '9', 'b', '0', 'c', '1', 'd', '2', '3', '4', '5', '6', 'e', 'f']);
    assert(hex_digits(68465854847454055591674nat, 19) =~= seq!['e', '7', 'f', '8', 'a', '9', 'b', '0', 'c', '1', 'd', '2', '3', '4', '5', '6', 'e', 'f', 'a']);
    assert(hex_digits(1095453677559264889466795nat, 20) =~= seq!['e', '7', 'f', '8', 'a', '9', 'b', '0', 'c', '1', 'd', '2', '3', '4', '5', '6', 'e', 'f', 'a', 'b']);
    assert(hex_digits(17527258840948238231468726nat, 21) =~= seq!['e', '7', 'f', '8', 'a', '9', 'b', '0', 'c', '1', 'd', '2', '3', '4', '5', '6', 'e', 'f', 'a', 'b', '6']);
    assert(hex_digits(280436141455171811703499623nat, 22) =~= seq!['e', '7', 'f', '8', 'a', '9', 'b', '0', 'c', '1', 'd', '2', '3', '4', '5', '6', 'e', 'f', 'a', 'b', '6', '7']);
    assert(hex_digits(4486978263282748987255993976nat, 23) =~= seq!['e', '7', 'f', '8', 'a', '9', 'b', '0', 'c', '1', 'd', '2', '3', '4', '5', '6', 'e', 'f', 'a', 'b', '6', '7', '8']);
    assert(hex_digits(71791652212523983796095903625nat, 24) =~= seq!['e', '7', 'f', '8', 'a', '9', 'b', '0', 'c', '1', 'd', '2', '3', '4', '5', '6', 'e', 'f', 'a', 'b', '6', '7', '8', '9']);
    assert(hex_digits(1148666435400383740737534458000nat, 25) =~= seq!['e', '7', 'f', '8', 'a', '9', 'b', '0', 'c', '1', 'd', '2', '3', '4', '5', '6', 'e', 'f', 'a', 'b', '6', '7', '8', '9', '0']);
    assert(hex_digits(18378662966406139851800551328001nat, 26) =~= seq!['e', '7', 'f', '8', 'a', '9', 'b', '0', 'c', '1', 'd', '2', '3', '4', '5', '6', 'e', 'f', 'a', 'b', '6', '7', '8', '9', '0', '1']);
    assert(hex_digits(294058607462498237628808821248018nat, 27) =~= seq!['e', '7', 'f', '8', 'a', '9', 'b', '0', 'c', '1', 'd', '2', '3', '4', '5', '6', 'e', 'f', 'a', 'b', '6', '7', '8', '9', '0', '1', '2']);
    assert(hex_digits(4704937719399971802060941139968291nat, 28) =~= seq!['e', '7', 'f', '8', 'a', '9', 'b', '0', 'c', '1', 'd', '2', '3', '4', '5', '6', 'e', 'f', 'a', 'b', '6', '7', '8', '9', '0', '1', '2', '3']);
    assert(hex_digits(75279003510399548832975058239492660nat, 29) =~= seq!['e', '7', 'f', '8', 'a', '9', 'b', '0', 'c', '1', 'd', '2', '3', '4', '5', '6', 'e', 'f', 'a', 'b', '6', '7', '8', '9', '0', '1', '2', '3', '4']);
    assert(hex_digits(1204464056166392781327600931831882565nat, 30) =~= seq!['e', '7', 'f', '8', 'a', '9', 'b', '0', 'c', '1', 'd', '2', '3', '4', '5', '6', 'e', 'f', 'a', 'b', '6', '7', '8', '9', '0', '1', '2', '3', '4', '5']);
    assert(hex_digits(19271424898662284501241614909310121046nat, 31) =~= seq!['e', '7', 'f', '8', 'a', '9', 'b', '0', 'c', '1', 'd', '2', '3', '4', '5', '6', 'e', 'f', 'a', 'b', '6', '7', '8', '9', '0', '1', '2', '3', '4', '5', '6']);
    assert(hex_digits(308342798378596552019865838548961936743nat, 32) =~= seq!['e', '7', 'f', '8', 'a', '9', 'b', '0', 'c', '1', 'd', '2', '3', '4', '5', '6', 'e', 'f', 'a', 'b', '6', '7', '8', '9', '0', '1', '2', '3', '4', '5', '6', '7']);
    reveal_strlit("e7f8a9b0-c1d2-3456-efab-678901234567");
    assert(uuid_text(DEMO_GAIN_1) =~= "e7f8a9b0-c1d2-3456-efab-678901234567"@);
}

/// `DEMO_GAIN_2` is the value whose UUID text is `f8a9b0c1-d2e3-4567-fabc-789012345678`.
proof fn lemma_demo_gain_2_text()
    ensures
        uuid_text(DEMO_GAIN_2) == "f8a9b0c1-d2e3-4567-fabc-789012345678"@,
{
    lemma_hex_digit_values();
    assert(hex_digits(15nat, 1) =~= seq!['f']);
    assert(hex_digits(248nat, 2) =~= seq!['f', '8']);
    assert(hex_digits(3978nat, 3) =~= seq!['f', '8', 'a']);
    assert(hex_digits(63657nat, 4) =~= seq!['f', '8', 'a', '9']);
    assert(hex_digits(1018523nat, 5) =~= seq!['f', '8', 'a', '9', 'b']);
    assert(hex_digits(16296368nat, 6) =~= seq!['f', '8', 'a', '9', 'b', '0']);
    assert(hex_digits(260741900nat, 7) =~= seq!['f', '8', 'a', '9', 'b', '0', 'c']);
    assert(hex_digits(4171870401nat, 8) =~= seq!['f', '8', 'a', '9', 'b', '0', 'c', '1']);
    assert(hex_digits(66749926429nat, 9) =~= seq!['f', '8', 'a', '9', 'b', '0', 'c', '1', 'd']);
    assert(hex_digits(1067998822866nat, 10) =~= seq!['f', '8', 'a', '9', 'b', '0', 'c', '1', 'd', '2']);
    assert(hex_digits(17087981165870nat, 11) =~= seq!['f', '8', 'a', '9', 'b', '0', 'c', '1', 'd', '2', 'e']);
    assert(hex_digits(273407698653923nat, 12) =~= seq!['f', '8', 'a', '9', 'b', '0', 'c', '1', 'd', '2', 'e', '3']);
    assert(hex_digits(4374523178462772nat, 13) =~= seq!['f', '8', 'a', '9', 'b', '0', 'c', '1', 'd', '2', 'e', '3', '4']);
    assert(hex_digits(69992370855404357nat, 14) =~= seq!['f', '8', 'a', '9', 'b', '0', 'c', '1', 'd', '2', 'e', '3', '4', '5']);
    assert(hex_digits(1119877933686469718nat, 15) =~= seq!['f', '8', 'a', '9', 'b', '0', 'c', '1', 'd', '2', 'e', '3', '4', '5', '6']);
    assert(hex_digits(17918046938983515495nat, 16) =~= seq!['f', '8', 'a', '9', 'b', '0', 'c', '1', 'd', '2', 'e', '3', '4', '5', '6', '7']);
    assert(hex_digits(286688751023736247935nat, 17) =~= seq!['f', '8', 'a', '9', 'b', '0', 'c', '1', 'd', '2', 'e', '3', '4', '5', '6', '7', 'f']);
    assert(hex_digits(4587020016379779966970nat, 18) =~= seq!['f', '8', 'a', '9', 'b', '0', 'c', '1', 'd', '2', 'e', '3', '4', '5', '6', '7', 'f', 'a']);
    assert(hex_digits(73392320262076479471531nat, 19) =~= seq!['f', '8', 'a', '9', 'b', '0', 'c', '1', 'd', '2', 'e', '3', '4', '5', '6', '7', 'f', 'a', 'b']);
    assert(hex_digits(1174277124193223671544508nat, 20) =~= seq!['f', '8', 'a', '9', 'b', '0', 'c', '1', 'd', '2', 'e', '3', '4', '5', '6', '7', 'f', 'a', 'b', 'c']);
    assert(hex_digits(18788433987091578744712135nat, 21) =~= seq!['f', '8', 'a', '9', 'b', '0', 'c', '1', 'd', '2', 'e', '3', '4', '5', '6', '7', 'f', 'a', 'b', 'c', '7']);
    assert(hex_digits(300614943793465259915394168nat, 22) =~= seq!['f', '8', 'a', '9', 'b', '0', 'c', '1', 'd', '2', 'e', '3', '4', '5', '6', '7', 'f', 'a', 'b', 'c', '7', '8']);
    assert(hex_digits(4809839100695444158646306697nat, 23) =~= seq!['f', '8', 'a', '9', 'b', '0', 'c', '1', 'd', '2', 'e', '3', '4', '5', '6', '7', 'f', 'a', 'b', 'c', '7', '8', '9']);
    assert(hex_digits(76957425611127106538340907152nat, 24) =~= seq!['f', '8', 'a', '9', 'b', '0', 'c', '1', 'd', '2', 'e', '3', '4', '5', '6', '7', 'f', 'a', 'b', 'c', '7', '8', '9', '0']);
    assert(hex_digits(1231318809778033704613454514433nat, 25) =~= seq!['f', '8', 'a', '9', 'b', '0', 'c', '1', 'd', '2', 'e', '3', '4', '5', '6', '7', 'f', 'a', 'b', 'c', '7', '8', '9', '0', '1']);
    assert(hex_digits(19701100956448539273815272230930nat, 26) =~= seq!['f', '8', 'a', '9', 'b', '0', 'c', '1', 'd', '2', 'e', '3', '4', '5', '6', '7', 'f', 'a', 'b', 'c', '7', '8', '9', '0', '1', '2']);
    assert(hex_digits(315217615303176628381044355694883nat, 27) =~= seq!['f', '8', 'a', '9', 'b', '0', 'c', '1', 'd', '2', 'e', '3', '4', '5', '6', '7', 'f', 'a', 'b', 'c', '7', '8', '9', '0', '1', '2', '3']);
    assert(hex_digits(5043481844850826054096709691118132nat, 28) =~= seq!['f', '8', 'a', '9', 'b', '0', 'c', '1', 'd', '2', 'e', '3', '4', '5', '6', '7', 'f', 'a', 'b', 'c', '7', '8', '9', '0', '1', '2', '3', '4']);
    assert(hex_digits(80695709517613216865547355057890117nat, 29) =~= seq!['f', '8', 'a', '9', 'b', '0', 'c', '1', 'd', '2', 'e', '3', '4', '5', '6', '7', 'f', 'a', 'b', 'c', '7', '8', '9', '0', '1', '2', '3', '4', '5']);
    assert(hex_digits(1291131352281811469848757680926241878nat, 30) =~= seq!['f', '8', 'a', '9', 'b', '0', 'c', '1', 'd', '2', 'e', '3', '4', '5', '6', '7', 'f', 'a', 'b', 'c', '7', '8', '9', '0', '1', '2', '3', '4', '5', '6']);
    assert(hex_digits(20658101636508983517580122894819870055nat, 31) =~= seq!['f', '8', 'a', '9', 'b', '0', 'c', '1', 'd', '2', 'e', '3', '4', '5', '6', '7', 'f', 'a', 'b', 'c', '7', '8', '9', '0', '1', '2', '3', '4', '5', '6', '7']);
    assert(hex_digits(330529626184143736281281966317117920888nat, 32) =~= seq!['f', '8', 'a', '9', 'b', '0', 'c', '1', 'd', '2', 'e', '3', '4', '5', '6', '7', 'f', 'a', 'b', 'c', '7', '8', '9', '0', '1', '2', '3', '4', '5', '6', '7', '8']);
    reveal_strlit("f8a9b0c1-d2e3-4567-fabc-789012345678");
    assert(uuid_text(DEMO_GAIN_2) =~= "f8a9b0c1-d2e3-4567-fabc-789012345678"@);
}

/// `DEMO_GAIN_3` is the value whose UUID text is `a9b0c1d2-e3f4-5678-abcd-890123456789`.
proof fn lemma_demo_gain_3_text()
    ensures
        uuid_text(DEMO_GAIN_3) == "a9b0c1d2-e3f4-5678-abcd-890123456789"@,
{
    lemma_hex_digit_values();
    assert(hex_digits(10nat, 1) =~= seq!['a']);
    assert(hex_digits(169nat, 2) =~= seq!['a', '9']);
    assert(hex_digits(2715nat, 3) =~= seq!['a', '9', 'b']);
    assert(hex_digits(43440nat, 4) =~= seq!['a', '9', 'b', '0']);
    assert(hex_digits(695052nat, 5) =~= seq!['a', '9', 'b', '0', 'c']);
    assert(hex_digits(11120833nat, 6) =~= seq!['a', '9', 'b', '0', 'c', '1']);
    assert(hex_digits(177933341nat, 7) =~= seq!['a', '9', 'b', '0', 'c', '1', 'd']);
    assert(hex_digits(2846933458nat, 8) =~= seq!['a', '9', 'b', '0', 'c', '1', 'd', '2']);
    assert(hex_digits(45550935342nat, 9) =~= seq!['a', '9', 'b', '0', 'c', '1', 'd', '2', 'e']);
    assert(hex_digits(728814965475nat, 10) =~= seq!['a', '9', 'b', '0', 'c', '1', 'd', '2', 'e', '3']);
    assert(hex_digits(11661039447615nat, 11) =~= seq!['a', '9', 'b', '0', 'c', '1', 'd', '2', 'e', '3', 'f']);
    assert(hex_digits(186576631161844nat, 12) =~= seq!['a', '9', 'b', '0', 'c', '1', 'd', '2', 'e', '3', 'f', '4']);
    assert(hex_digits(2985226098589509nat, 13) =~= seq!['a', '9', 'b', '0', 'c', '1', 'd', '2', 'e', '3', 'f', '4', '5']);
    assert(hex_digits(47763617577432150nat, 14) =~= seq!['a', '9', 'b', '0', 'c', '1', 'd', '2', 'e', '3', 'f', '4', '5', '6']);
    assert(hex_digits(764217881238914407nat, 15) =~= seq!['a', '9', 'b', '0', 'c', '1', 'd', '2', 'e', '3', 'f', '4', '5', '6', '7']);
    assert(hex_digits(12227486099822630520nat, 16) =~= seq!['a', '9', 'b', '0', 'c', '1', 'd', '2', 'e', '3', 'f', '4', '5', '6', '7', '8']);
    assert(hex_digits(195639777597162088330nat, 17) =~= seq!['a', '9', 'b', '0', 'c', '1', 'd', '2', 'e', '3', 'f', '4', '5', '6', '7', '8', 'a']);
    assert(hex_digits(3130236441554593413291nat, 18) =~= seq!['a', '9', 'b', '0', 'c', '1', 'd', '2', 'e', '3', 'f', '4', '5', '6', '7', '8', 'a', 'b']);
    assert(hex_digits(50083783064873494612668nat, 19) =~= seq!['a', '9', 'b', '0', 'c', '1', 'd', '2', 'e', '3', 'f', '4', '5', '6', '7', '8', 'a', 'b', 'c']);
    assert(hex_digits(801340529037975913802701nat, 20) =~= seq!['a', '9', 'b', '0', 'c', '1', 'd', '2', 'e', '3', 'f', '4', '5', '6', '7', '8', 'a', 'b', 'c', 'd']);
    assert(hex_digits(12821448464607614620843224nat, 21) =~= seq!['a', '9', 'b', '0', 'c', '1', 'd', '2', 'e', '3', 'f', '4', '5', '6', '7', '8', 'a', 'b', 'c', 'd', '8']);
    assert(hex_digits(205143175433721833933491593nat, 22) =~= seq!['a', '9', 'b', '0', 'c', '1', 'd', '2', 'e', '3', 'f', '4', '5', '6', '7', '8', 'a', 'b', 'c', 'd', '8', '9']);
    assert(hex_digits(3282290806939549342935865488nat, 23) =~= seq!['a', '9', 'b', '0', 'c', '1', 'd', '2', 'e', '3', 'f', '4', '5', '6', '7', '8', 'a', 'b', 'c', 'd', '8', '9', '0']);
    assert(hex_digits(52516652911032789486973847809nat, 24) =~= seq!['a', '9', 'b', '0', 'c', '1', 'd', '2', 'e', '3', 'f', '4', '5', '6', '7', '8', 'a', 'b', 'c', 'd', '8', '9', '0', '1']);
    assert(hex_digits(840266446576524631791581564946nat, 25) =~= seq!['a', '9', 'b', '0', 'c', '1', 'd', '2', 'e', '3', 'f', '4', '5', '6', '7', '8', 'a', 'b', 'c', 'd', '8', '9', '0', '1', '2']);
    assert(hex_digits(13444263145224394108665305039139nat, 26) =~= seq!['a', '9', 'b', '0', 'c', '1', 'd', '2', 'e', '3', 'f', '4', '5', '6', '7', '8', 'a', 'b', 'c', 'd', '8', '9', '0', '1', '2', '3']);
    assert(hex_digits(215108210323590305738644880626228nat, 27) =~= seq!['a', '9', 'b', '0', 'c', '1', 'd', '2', 'e', '3', 'f', '4', '5', '6', '7', '8', 'a', 'b', 'c', 'd', '8', '9', '0', '1', '2', '3', '4']);
    assert(hex_digits(3441731365177444891818318090019653nat, 28) =~= seq!['a', '9', 'b', '0', 'c', '1', 'd', '2', 'e', '3', 'f', '4', '5', '6', '7', '8', 'a', 'b', 'c', 'd', '8', '9', '0', '1', '2', '3', '4', '5']);
    assert(hex_digits(55067701842839118269093089440314454nat, 29) =~= seq!['a', '9', 'b', '0', 'c', '1', 'd', '2', 'e', '3', 'f', '4', '5', '6', '7', '8', 'a', 'b', 'c', 'd', '8', '9', '0', '1', '2', '3', '4', '5', '6']);
    assert(hex_digits(881083229485425892305489431045031271nat, 30) =~= seq!['a', '9', 'b', '0', 'c', '1', 'd', '2', 'e', '3', 'f', '4', '5', '6', '7', '8', 'a', 'b', 'c', 'd', '8', '9', '0', '1', '2', '3', '4', '5', '6', '7']);
    assert(hex_digits(14097331671766814276887830896720500344nat, 31) =~= seq!['a', '9', 'b', '0', 'c', '1', 'd', '2', 'e', '3', 'f', '4', '5', '6', '7', '8', 'a', 'b', 'c', 'd', '8', '9', '0', '1', '2', '3', '4', '5', '6', '7', '8']);
    assert(hex_digits(225557306748269028430205294347528005513nat, 32) =~= seq!['a', '9', 'b', '0', 'c', '1', 'd', '2', 'e', '3', 'f', '4', '5', '6', '7', '8', 'a', 'b', 'c', 'd', '8', '9', '0', '1', '2', '3', '4', '5', '6', '7', '8', '9']);
    reveal_strlit("a9b0c1d2-e3f4-5678-abcd-890123456789");
    assert(uuid_text(DEMO_GAIN_3) =~= "a9b0c1d2-e3f4-5678-abcd-890123456789"@);
}

/// `DEMO_GAIN_CREATOR_1` is the value whose UUID text is `4d5e6f7a-8b9c-0123-4d5e-6f7a8b9c0123`.
proof fn lemma_demo_gain_creator_1_text()
    ensures
        uuid_text(DEMO_GAIN_CREATOR_1) == "4d5e6f7a-8b9c-0123-4d5e-6f7a8b9c0123"@,
{
    lemma_hex_digit_values();
    assert(hex_digits(4nat, 1) =~= seq!['4']);
    assert(hex_digits(77nat, 2) =~= seq!['4', 'd']);
    assert(hex_digits(1237nat, 3) =~= seq!['4', 'd', '5']);
    assert(hex_digits(19806nat, 4) =~= seq!['4', 'd', '5', 'e']);
    assert(hex_digits(316902nat, 5) =~= seq!['4', 'd', '5', 'e', '6']);
    assert(hex_digits(5070447nat, 6) =~= seq!['4', 'd', '5', 'e', '6', 'f']);
    assert(hex_digits(81127159nat, 7) =~= seq!['4', 'd', '5', 'e', '6', 'f', '7']);
    assert(hex_digits(1298034554nat, 8) =~= seq!['4', 'd', '5', 'e', '6', 'f', '7', 'a']);
    assert(hex_digits(20768552872nat, 9) =~= seq!['4', 'd', '5', 'e', '6', 'f', '7', 'a', '8']);
    assert(hex_digits(332296845963nat, 10) =~= seq!['4', 'd', '5', 'e', '6', 'f', '7', 'a', '8', 'b']);
    assert(hex_digits(5316749535417nat, 11) =~= seq!['4', 'd', '5', 'e', '6', 'f', '7', 'a', '8', 'b', '9']);
    assert(hex_digits(85067992566684nat, 12) =~= seq!['4', 'd', '5', 'e', '6', 'f', '7', 'a', '8', 'b', '9', 'c']);
    assert(hex_digits(1361087881066944nat, 13) =~= seq!['4', 'd', '5', 'e', '6', 'f', '7', 'a', '8', 'b', '9', 'c', '0']);
    assert(hex_digits(21777406097071105nat, 14) =~= seq!['4', 'd', '5', 'e', '6', 'f', '7', 'a', '8', 'b', '9', 'c', '0', '1']);
    assert(hex_digits(348438497553137682nat, 15) =~= seq!['4', 'd', '5', 'e', '6', 'f', '7', 'a', '8', 'b', '9', 'c', '0', '1', '2']);
    assert(hex_digits(5575015960850202915nat, 16) =~= seq!['4', 'd', '5', 'e', '6', 'f', '7', 'a', '8', 'b', '9', 'c', '0', '1', '2', '3']);
    assert(hex_digits(89200255373603246644nat, 17) =~= seq!['4', 'd', '5', 'e', '6', 'f', '7', 'a', '8', 'b', '9', 'c', '0', '1', '2', '3', '4']);
    assert(hex_digits(1427204085977651946317nat, 18) =~= seq!['4', 'd', '5', 'e', '6', 'f', '7', 'a', '8', 'b', '9', 'c', '0', '1', '2', '3', '4', 'd']);
    assert(hex_digits(22835265375642431141077nat, 19) =~= seq!['4', 'd', '5', 'e', '6', 'f', '7', 'a', '8', 'b', '9', 'c', '0', '1', '2', '3', '4', 'd', '5']);
    assert(hex_digits(365364246010278898257246nat, 20) =~= seq!['4', 'd', '5', 'e', '6', 'f', '7', 'a', '8', 'b', '9', 'c', '0', '1', '2', '3', '4', 'd', '5', 'e']);
    assert(hex_digits(5845827936164462372115942nat, 21) =~= seq!['4', 'd', '5', 'e', '6', 'f', '7', 'a', '8', 'b', '9', 'c', '0', '1', '2', '3', '4', 'd', '5', 'e', '6']);
    assert(hex_digits(93533246978631397953855087nat, 22) =~= seq!['4', 'd', '5', 'e', '6', 'f', '7', 'a', '8', 'b', '9', 'c', '0', '1', '2', '3', '4', 'd', '5', 'e', '6', 'f']);
    assert(hex_digits(1496531951658102367261681399nat, 23) =~= seq!['4', 'd', '5', 'e', '6', 'f', '7', 'a', '8', 'b', '9', 'c', '0', '1', '2', '3', '4', 'd', '5', 'e', '6', 'f', '7']);
    assert(hex_digits(23944511226529637876186902394nat, 24) =~= seq!['4', 'd', '5', 'e', '6', 'f', '7', 'a', '8', 'b', '9', 'c', '0', '1', '2', '3', '4', 'd', '5', 'e', '6', 'f', '7', 'a']);
    assert(hex_digits(383112179624474206018990438312nat, 25) =~= seq!['4', 'd', '5', 'e', '6', 'f', '7', 'a', '8', 'b', '9', 'c', '0', '1', '2', '3', '4', 'd', '5', 'e', '6', 'f', '7', 'a', '8']);
    assert(hex_digits(6129794873991587296303847013003nat, 26) =~= seq!['4', 'd', '5', 'e', '6', 'f', '7', 'a', '8', 'b', '9', 'c', '0', '1', '2', '3', '4', 'd', '5', 'e', '6', 'f', '7', 'a', '8', 'b']);
    assert(hex_digits(98076717983865396740861552208057nat, 27) =~= seq!['4', 'd', '5', 'e', '6', 'f', '7', 'a', '8', 'b', '9', 'c', '0', '1', '2', '3', '4', 'd', '5', 'e', '6', 'f', '7', 'a', '8', 'b', '9']);
    assert(hex_digits(1569227487741846347853784835328924nat, 28) =~= seq!['4', 'd', '5', 'e', '6', 'f', '7', 'a', '8', 'b', '9', 'c', '0', '1', '2', '3', '4', 'd', '5', 'e', '6', 'f', '7', 'a', '8', 'b', '9', 'c']);
    assert(hex_digits(25107639803869541565660557365262784nat, 29) =~= seq!['4', 'd', '5', 'e', '6', 'f', '7', 'a', '8', 'b', '9', 'c', '0', '1', '2', '3', '4', 'd', '5', 'e', '6', 'f', '7', 'a', '8', 'b', '9', 'c', '0']);
    assert(hex_digits(401722236861912665050568917844204545nat, 30) =~= seq!['4', 'd', '5', 'e', '6', 'f', '7', 'a', '8', 'b', '9', 'c', '0', '1', '2', '3', '4', 'd', '5', 'e', '6', 'f', '7', 'a', '8', 'b', '9', 'c', '0', '1']);
    assert(hex_digits(6427555789790602640809102685507272722nat, 31) =~= seq!['4', 'd', '5', 'e', '6', 'f', '7', 'a', '8', 'b', '9', 'c', '0', '1', '2', '3', '4', 'd', '5', 'e', '6', 'f', '7', 'a', '8', 'b', '9', 'c', '0', '1', '2']);
    assert(hex_digits(102840892636649642252945642968116363555nat, 32) =~= seq!['4', 'd', '5', 'e', '6', 'f', '7', 'a', '8', 'b', '9', 'c', '0', '1', '2', '3', '4', 'd', '5', 'e', '6', 'f', '7', 'a', '8', 'b', '9', 'c', '0', '1', '2', '3']);
    reveal_strlit("4d5e6f7a-8b9c-0123-4d5e-6f7a8b9c0123");
    assert(uuid_text(DEMO_GAIN_CREATOR_1) =~= "4d5e6f7a-8b9c-0123-4d5e-6f7a8b9c0123"@);
}

/// `DEMO_GAIN_CREATOR_2` is the value whose UUID text is `5e6f7a8b-9c0d-1234-5e6f-7a8b9c0d1234`.
proof fn lemma_demo_gain_creator_2_text()
    ensures
        uuid_text(DEMO_GAIN_CREATOR_2) == "5e6f7a8b-9c0d-1234-5e6f-7a8b9c0d1234"@,
{
    lemma_hex_digit_values();
    assert(hex_digits(5nat, 1) =~= seq!['5']);
    assert(hex_digits(94nat, 2) =~= seq!['5', 'e']);
    assert(hex_digits(1510nat, 3) =~= seq!['5', 'e', '6']);
    assert(hex_digits(24175nat, 4) =~= seq!['5', 'e', '6', 'f']);
    assert(hex_digits(386807nat, 5) =~= seq!['5', 'e', '6', 'f', '7']);
    assert(hex_digits(6188922nat, 6) =~= seq!['5', 'e', '6', 'f', '7', 'a']);
    assert(hex_digits(99022760nat, 7) =~= seq!['5', 'e', '6', 'f', '7', 'a', '8']);
    assert(hex_digits(1584364171nat, 8) =~= seq!['5', 'e', '6', 'f', '7', 'a', '8', 'b']);
    assert(hex_digits(25349826745nat, 9) =~= seq!['5', 'e', '6', 'f', '7', 'a', '8', 'b', '9']);
    assert(hex_digits(405597227932nat, 10) =~= seq!['5', 'e', '6', 'f', '7', 'a', '8', 'b', '9', 'c']);
    assert(hex_digits(6489555646912nat, 11) =~= seq!['5', 'e', '6', 'f', '7', 'a', '8', 'b', '9', 'c', '0']);
    assert(hex_digits(103832890350605nat, 12) =~= seq!['5', 'e', '6', 'f', '7', 'a', '8', 'b', '9', 'c', '0', 'd']);
    assert(hex_digits(1661326245609681nat, 13) =~= seq!['5', 'e', '6', 'f', '7', 'a', '8', 'b', '9', 'c', '0', 'd', '1']);
    assert(hex_digits(26581219929754898nat, 14) =~= seq!['5', 'e', '6', 'f', '7', 'a', '8', 'b', '9', 'c', '0', 'd', '1', '2']);
    assert(hex_digits(425299518876078371nat, 15) =~= seq!['5', 'e', '6', 'f', '7', 'a', '8', 'b', '9', 'c', '0', 'd', '1', '2', '3']);
    assert(hex_digits(6804792302017253940nat, 16) =~= seq!['5', 'e', '6', 'f', '7', 'a', '8', 'b', '9', 'c', '0', 'd', '1', '2', '3', '4']);
    assert(hex_digits(108876676832276063045nat, 17) =~= seq!['5', 'e', '6', 'f', '7', 'a', '8', 'b', '9', 'c', '0', 'd', '1', '2', '3', '4', '5']);
    assert(hex_digits(1742026829316417008734nat, 18) =~= seq!['5', 'e', '6', 'f', '7', 'a', '8', 'b', '9', 'c', '0', 'd', '1', '2', '3', '4', '5', 'e']);
    assert(hex_digits(27872429269062672139750nat, 19) =~= seq!['5', 'e', '6', 'f', '7', 'a', '8', 'b', '9', 'c', '0', 'd', '1', '2', '3', '4', '5', 'e', '6']);
    assert(hex_digits(445958868305002754236015nat, 20) =~= seq!['5', 'e', '6', 'f', '7', 'a', '8', 'b', '9', 'c', '0', 'd', '1', '2', '3', '4', '5', 'e', '6', 'f']);
    assert(hex_digits(7135341892880044067776247nat, 21) =~= seq!['5', 'e', '6', 'f', '7', 'a', '8', 'b', '9', 'c', '0', 'd', '1', '2', '3', '4', '5', 'e', '6', 'f', '7']);
    assert(hex_digits(114165470286080705084419962nat, 22) =~= seq!['5', 'e', '6', 'f', '7', 'a', '8', 'b', '9', 'c', '0', 'd', '1', '2', '3', '4', '5', 'e', '6', 'f', '7', 'a']);
    assert(hex_digits(1826647524577291281350719400nat, 23) =~= seq!['5', 'e', '6', 'f', '7', 'a', '8', 'b', '9', 'c', '0', 'd', '1', '2', '3', '4', '5', 'e', '6', 'f', '7', 'a', '8']);
    assert(hex_digits(29226360393236660501611510411nat, 24) =~= seq!['5', 'e', '6', 'f', '7', 'a', '8', 'b', '9', 'c', '0', 'd', '1', '2', '3', '4', '5', 'e', '6', 'f', '7', 'a', '8', 'b']);
    assert(hex_digits(467621766291786568025784166585nat, 25) =~= seq!['5', 'e', '6', 'f', '7', 'a', '8', 'b', '9', 'c', '0', 'd', '1', '2', '3', '4', '5', 'e', '6', 'f', '7', 'a', '8', 'b', '9']);
    assert(hex_digits(7481948260668585088412546665372nat, 26) =~= seq!['5', 'e', '6', 'f', '7', 'a', '8', 'b', '9', 'c', '0', 'd', '1', '2', '3', '4', '5', 'e', '6', 'f', '7', 'a', '8', 'b', '9', 'c']);
    assert(hex_digits(119711172170697361414600746645952nat, 27) =~= seq!['5', 'e', '6', 'f', '7', 'a', '8', 'b', '9', 'c', '0', 'd', '1', '2', '3', '4', '5', 'e', '6', 'f', '7', 'a', '8', 'b', '9', 'c', '0']);
    assert(hex_digits(1915378754731157782633611946335245nat, 28) =~= seq!['5', 'e', '6', 'f', '7', 'a', '8', 'b', '9', 'c', '0', 'd', '1', '2', '3', '4', '5', 'e', '6', 'f', '7', 'a', '8', 'b', '9', 'c', '0', 'd']);
    assert(hex_digits(30646060075698524522137791141363921nat, 29) =~= seq!['5', 'e', '6', 'f', '7', 'a', '8', 'b', '9', 'c', '0', 'd', '1', '2', '3', '4', '5', 'e', '6', 'f', '7', 'a', '8', 'b', '9', 'c', '0', 'd', '1']);
    assert(hex_digits(490336961211176392354204658261822738nat, 30) =~= seq!['5', 'e', '6', 'f', '7', 'a', '8', 'b', '9', 'c', '0', 'd', '1', '2', '3', '4', '5', 'e', '6', 'f', '7', 'a', '8', 'b', '9', 'c', '0', 'd', '1', '2']);
    assert(hex_digits(7845391379378822277667274532189163811nat, 31) =~= seq!['5', 'e', '6', 'f', '7', 'a', '8', 'b', '9', 'c', '0', 'd', '1', '2', '3', '4', '5', 'e', '6', 'f', '7', 'a', '8', 'b', '9', 'c', '0', 'd', '1', '2', '3']);
    assert(hex_digits(125526262070061156442676392515026620980nat, 32) =~= seq!['5', 'e', '6', 'f', '7', 'a', '8', 'b', '9', 'c', '0', 'd', '1', '2', '3', '4', '5', 'e', '6', 'f', '7', 'a', '8', 'b', '9', 'c', '0', 'd', '1', '2', '3', '4']);
    reveal_strlit("5e6f7a8b-9c0d-1234-5e6f-7a8b9c0d1234");
    assert(uuid_text(DEMO_GAIN_CREATOR_2) =~= "5e6f7a8b-9c0d-1234-5e6f-7a8b9c0d1234"@);
}

/// `DEMO_GAIN_CREATOR_3` is the value whose UUID text is `6f7a8b9c-0d1e-2345-6f7a-8b9c0d1e2345`.
proof fn lemma_demo_gain_creator_3_text()
    ensures
        uuid_text(DEMO_GAIN_CREATOR_3) == "6f7a8b9c-0d1e-2345-6f7a-8b9c0d1e2345"@,
{
    lemma_hex_digit_values();
    assert(hex_digits(6nat, 1) =~= seq!['6']);
    assert(hex_digits(111nat, 2) =~= seq!['6', 'f']);
    assert(hex_digits(1783nat, 3) =~= seq!['6', 'f', '7']);
    assert(hex_digits(28538nat, 4) =~= seq!['6', 'f', '7', 'a']);
    assert(hex_digits(456616nat, 5) =~= seq!['6', 'f', '7', 'a', '8']);
    assert(hex_digits(7305867nat, 6) =~= seq!['6', 'f', '7', 'a', '8', 'b']);
    assert(hex_digits(116893881nat, 7) =~= seq!['6', 'f', '7', 'a', '8', 'b', '9']);
    assert(hex_digits(1870302108nat, 8) =~= seq!['6', 'f', '7', 'a', '8', 'b', '9', 'c']);
    assert(hex_digits(29924833728nat, 9) =~= seq!['6', 'f', '7', 'a', '8', 'b', '9', 'c', '0']);
    assert(hex_digits(478797339661nat, 10) =~= seq!['6', 'f', '7', 'a', '8', 'b', '9', 'c', '0', 'd']);
    assert(hex_digits(7660757434577nat, 11) =~= seq!['6', 'f', '7', 'a', '8', 'b', '9', 'c', '0', 'd', '1']);
    assert(hex_digits(122572118953246nat, 12) =~= seq!['6', 'f', '7', 'a', '8', 'b', '9', 'c', '0', 'd', '1', 'e']);
    assert(hex_digits(1961153903251938nat, 13) =~= seq!['6', 'f', '7', 'a', '8', 'b', '9', 'c', '0', 'd', '1', 'e', '2']);
    assert(hex_digits(31378462452031011nat, 14) =~= seq!['6', 'f', '7', 'a', '8', 'b', '9', 'c', '0', 'd', '1', 'e', '2', '3']);
    assert(hex_digits(502055399232496180nat, 15) =~= seq!['6', 'f', '7', 'a', '8', 'b', '9', 'c', '0', 'd', '1', 'e', '2', '3', '4']);
    assert(hex_digits(8032886387719938885nat, 16) =~= seq!['6', 'f', '7', 'a', '8', 'b', '9', 'c', '0', 'd', '1', 'e', '2', '3', '4', '5']);
    assert(hex_digits(128526182203519022166nat, 17) =~= seq!['6', 'f', '7', 'a', '8', 'b', '9', 'c', '0', 'd', '1', 'e', '2', '3', '4', '5', '6']);
    assert(hex_digits(2056418915256304354671nat, 18) =~= seq!['6', 'f', '7', 'a', '8', 'b', '9', 'c', '0', 'd', '1', 'e', '2', '3', '4', '5', '6', 'f']);
    assert(hex_digits(32902702644100869674743nat, 19) =~= seq!['6', 'f', '7', 'a', '8', 'b', '9', 'c', '0', 'd', '1', 'e', '2', '3', '4', '5', '6', 'f', '7']);
    assert(hex_digits(526443242305613914795898nat, 20) =~= seq!['6', 'f', '7', 'a', '8', 'b', '9', 'c', '0', 'd', '1', 'e', '2', '3', '4', '5', '6', 'f', '7', 'a']);
    assert(hex_digits(8423091876889822636734376nat, 21) =~= seq!['6', 'f', '7', 'a', '8', 'b', '9', 'c', '0', 'd', '1', 'e', '2', '3', '4', '5', '6', 'f', '7', 'a', '8']);
    assert(hex_digits(134769470030237162187750027nat, 22) =~= seq!['6', 'f', '7', 'a', '8', 'b', '9', 'c', '0', 'd', '1', 'e', '2', '3', '4', '5', '6', 'f', '7', 'a', '8', 'b']);
    assert(hex_digits(2156311520483794595004000441nat, 23) =~= seq!['6', 'f', '7', 'a', '8', 'b', '9', 'c', '0', 'd', '1', 'e', '2', '3', '4', '5', '6', 'f', '7', 'a', '8', 'b', '9']);
    assert(hex_digits(34500984327740713520064007068nat, 24) =~= seq!['6', 'f', '7', 'a', '8', 'b', '9', 'c', '0', 'd', '1', 'e', '2', '3', '4', '5', '6', 'f', '7', 'a', '8', 'b', '9', 'c']);
    assert(hex_digits(552015749243851416321024113088nat, 25) =~= seq!['6', 'f', '7', 'a', '8', 'b', '9', 'c', '0', 'd', '1', 'e', '2', '3', '4', '5', '6', 'f', '7', 'a', '8', 'b', '9', 'c', '0']);
    assert(hex_digits(8832251987901622661136385809421nat, 26) =~= seq!['6', 'f', '7', 'a', '8', 'b', '9', 'c', '0', 'd', '1', 'e', '2', '3', '4', '5', '6', 'f', '7', 'a', '8', 'b', '9', 'c', '0', 'd']);
    assert(hex_digits(141316031806425962578182172950737nat, 27) =~= seq!['6', 'f', '7', 'a', '8', 'b', '9', 'c', '0', 'd', '1', 'e', '2', '3', '4', '5', '6', 'f', '7', 'a', '8', 'b', '9', 'c', '0', 'd', '1']);
    assert(hex_digits(2261056508902815401250914767211806nat, 28) =~= seq!['6', 'f', '7', 'a', '8', 'b', '9', 'c', '0', 'd', '1', 'e', '2', '3', '4', '5', '6', 'f', '7', 'a', '8', 'b', '9', 'c', '0', 'd', '1', 'e']);
    assert(hex_digits(36176904142445046420014636275388898nat, 29) =~= seq!['6', 'f', '7', 'a', '8', 'b', '9', 'c', '0', 'd', '1', 'e', '2', '3', '4', '5', '6', 'f', '7', 'a', '8', 'b', '9', 'c', '0', 'd', '1', 'e', '2']);
    assert(hex_digits(578830466279120742720234180406222371nat, 30) =~= seq!['6', 'f', '7', 'a', '8', 'b', '9', 'c', '0', 'd', '1', 'e', '2', '3', '4', '5', '6', 'f', '7', 'a', '8', 'b', '9', 'c', '0', 'd', '1', 'e', '2', '3']);
    assert(hex_digits(9261287460465931883523746886499557940nat, 31) =~= seq!['6', 'f', '7', 'a', '8', 'b', '9', 'c', '0', 'd', '1', 'e', '2', '3', '4', '5', '6', 'f', '7', 'a', '8', 'b', '9', 'c', '0', 'd', '1', 'e', '2', '3', '4']);
    assert(hex_digits(148180599367454910136379950183992927045nat, 32) =~= seq!['6', 'f', '7', 'a', '8', 'b', '9', 'c', '0', 'd', '1', 'e', '2', '3', '4', '5', '6', 'f', '7', 'a', '8', 'b', '9', 'c', '0', 'd', '1', 'e', '2', '3', '4', '5']);
    reveal_strlit("6f7a8b9c-0d1e-2345-6f7a-8b9c0d1e2345");
    assert(uuid_text(DEMO_GAIN_CREATOR_3) =~= "6f7a8b9c-0d1e-2345-6f7a-8b9c0d1e2345"@);
}



/// Each demonstration identifier is the value of its fixed UUID text: the
/// hyphenated lowercase text `uuid` writes for it, and parses back to it.
pub proof fn lemma_demo_ids_match_their_texts()
    ensures
        uuid_text(DEMO_PRODUCT_1) == "e3142c46-5ac5-4425-8080-a8faff6e3ae4"@,
        uuid_text(DEMO_PRODUCT_2) == "93a7b2b5-ce26-4078-bce6-ca7d2d941b70"@,
        uuid_text(DEMO_FEATURE_1) == "a1b2c3d4-e5f6-7890-abcd-ef1234567890"@,
        uuid_text(DEMO_FEATURE_2) == "b2c3d4e5-f6a7-8901-bcde-f12345678901"@,
        uuid_text(DEMO_FEATURE_3) == "c3d4e5f6-a7b8-9012-cdef-012345678902"@,
        uuid_text(DEMO_PAIN_RELIEF_1) == "1a2b3c4d-5e6f-7890-1a2b-3c4d5e6f7890"@,
        uuid_text(DEMO_PAIN_RELIEF_2) == "2b3c4d5e-6f7a-8901-2b3c-4d5e6f7a8901"@,
        uuid_text(DEMO_PAIN_RELIEF_3) == "3c4d5e6f-7a8b-9012-3c4d-5e6f7a8b9012"@,
        uuid_text(DEMO_SEGMENT_1) == "c1d2e3f4-a5b6-7890-cdef-012345678901"@,
        uuid_text(DEMO_SEGMENT_2) == "d2e3f4a5-b6c7-8901-defa-123456789012"@,
        uuid_text(DEMO_JOB_1) == "e1f2a3b4-c5d6-7890-efab-012345678901"@,
        uuid_text(DEMO_JOB_2) == "f2a3b4c5-d6e7-8901-fabc-123456789012"@,
        uuid_text(DEMO_JOB_3) == "a3b4c5d6-e7f8-9012-abcd-234567890123"@,
        uuid_text(DEMO_PAIN_1) == "b4c5d6e7-f8a9-0123-bcde-345678901234"@,
        uuid_text(DEMO_PAIN_2) == "c5d6e7f8-a9b0-1234-cdef-456789012345"@,
        uuid_text(DEMO_PAIN_3) == "d6e7f8a9-b0c1-2345-defa-567890123456"@,
        uuid_text(DEMO_GAIN_1) == "e7f8a9b0-c1d2-3456-efab-678901234567"@,
        uuid_text(DEMO_GAIN_2) == "f8a9b0c1-d2e3-4567-fabc-789012345678"@,
        uuid_text(DEMO_GAIN_3) == "a9b0c1d2-e3f4-5678-abcd-890123456789"@,
        uuid_text(DEMO_GAIN_CREATOR_1) == "4d5e6f7a-8b9c-0123-4d5e-6f7a8b9c0123"@,
        uuid_text(DEMO_GAIN_CREATOR_2) == "5e6f7a8b-9c0d-1234-5e6f-7a8b9c0d1234"@,
        uuid_text(DEMO_GAIN_CREATOR_3) == "6f7a8b9c-0d1e-2345-6f7a-8b9c0d1e2345"@,
{
    lemma_demo_product_1_text();
    lemma_demo_product_2_text();
    lemma_demo_feature_1_text();
    lemma_demo_feature_2_text();
    lemma_demo_feature_3_text();
    lemma_demo_pain_relief_1_text();
    lemma_demo_pain_relief_2_text();
    lemma_demo_pain_relief_3_text();
    lemma_demo_segment_1_text();
    lemma_demo_segment_2_text();
    lemma_demo_job_1_text();
    lemma_demo_job_2_text();
    lemma_demo_job_3_text();
    lemma_demo_pain_1_text();
    lemma_demo_pain_2_text();
    lemma_demo_pain_3_text();
    lemma_demo_gain_1_text();
    lemma_demo_gain_2_text();
    lemma_demo_gain_3_text();
    lemma_demo_gain_creator_1_text();
    lemma_demo_gain_creator_2_text();
    lemma_demo_gain_creator_3_text();
}

} // verus!
