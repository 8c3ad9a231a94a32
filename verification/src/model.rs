//! The entity model: products and their features, the pain relievers and gain
//! creators those features provide, and the customer side (segments, jobs,
//! pains, gains), together with the link tables that join them.
//!
//! Importance and strength are fractions that the editor shows and edits as
//! `f32`; the model carries each as the bit pattern of that `f32`
//! (`f32::to_bits`), so that the value passes through the verified code
//! unchanged.

use vstd::prelude::*;

use crate::ids::EntityId;

verus! {

/// A many-to-many link, `(first id, second id)`; each table documents which
/// entity kind stands in which position.
pub type Link = (EntityId, EntityId);

/// Whether a solution is a minimum requirement or a source of competitive advantage.
#[derive(Clone, Copy, Debug, PartialEq, Eq, Structural)]
pub enum ValueType {
    /// Minimum requirement to be viable: binary, qualifying.
    TableStake,
    /// Creates competitive advantage: gradual, comparable.
    Differentiator,
}

impl ValueType {
    /// The label shown for the value type in the editor.
    pub fn label(self) -> (r: &'static str)
        ensures
            r@ == (match self {
                ValueType::TableStake => "Table Stake"@,
                ValueType::Differentiator => "Differentiator"@,
            }),
    {
        match self {
            ValueType::TableStake => "Table Stake",
            ValueType::Differentiator => "Differentiator",
        }
    }
}

impl Default for ValueType {
    /// New annotations are differentiators.
    fn default() -> (r: Self)
        ensures
            r == ValueType::Differentiator,
    {
        ValueType::Differentiator
    }
}

/// Annotated link between a pain or gain and the pain relief or gain creator
/// that addresses it.
#[derive(Clone, Copy, Debug, PartialEq, Eq, Structural)]
pub struct ValueAnnotation {
    pub pain_or_gain_id: EntityId,
    pub reliever_or_creator_id: EntityId,
    pub value_type: ValueType,
    /// How well the solution addresses the need, a fraction from 0 to 1,
    /// as the bit pattern of an `f32`.
    pub strength_bits: u32,
}

/// A product or service.
#[derive(Clone, Debug)]
pub struct Product {
    pub id: EntityId,
    pub name: String,
    pub description: String,
    pub notes: String,
    /// Whether the row is expanded in the accordion (not persisted).
    pub expanded: bool,
}

/// A feature of one or more products.
#[derive(Clone, Debug)]
pub struct Feature {
    pub id: EntityId,
    pub name: String,
    pub description: String,
    pub status: String,
    pub notes: String,
    pub user_story: String,
    pub acceptance_criteria: String,
    pub expanded: bool,
}

/// A pain relief: how a feature relieves customer pains.
#[derive(Clone, Debug)]
pub struct PainRelief {
    pub id: EntityId,
    pub name: String,
    pub description: String,
    pub notes: String,
    pub expanded: bool,
}

/// A gain creator: how a feature creates customer gains.
#[derive(Clone, Debug)]
pub struct GainCreator {
    pub id: EntityId,
    pub name: String,
    pub description: String,
    pub notes: String,
    pub expanded: bool,
}

/// A customer segment, optionally nested under a parent segment.
#[derive(Clone, Debug)]
pub struct CustomerSegment {
    pub id: EntityId,
    pub name: String,
    pub description: String,
    pub notes: String,
    pub characteristics: String,
    pub parent_id: Option<EntityId>,
    pub expanded: bool,
}

/// A job the customer is trying to get done.
#[derive(Clone, Debug)]
pub struct Job {
    pub id: EntityId,
    pub name: String,
    pub description: String,
    pub notes: String,
    pub expanded: bool,
}

/// A customer pain.
#[derive(Clone, Debug)]
pub struct Pain {
    pub id: EntityId,
    pub name: String,
    pub description: String,
    pub notes: String,
    /// Importance, a fraction from 0 to 1, as the bit pattern of an `f32`.
    pub importance_bits: u32,
    pub expanded: bool,
}

/// A customer gain.
#[derive(Clone, Debug)]
pub struct Gain {
    pub id: EntityId,
    pub name: String,
    pub description: String,
    pub notes: String,
    /// Importance, a fraction from 0 to 1, as the bit pattern of an `f32`.
    pub importance_bits: u32,
    pub expanded: bool,
}

/// An entity with an identifier and a display name.
pub trait Entity {
    spec fn spec_id(&self) -> EntityId;

    spec fn spec_name(&self) -> Seq<char>;

    fn entity_id(&self) -> (r: EntityId)
        ensures
            r == self.spec_id(),
    ;

    fn entity_name(&self) -> (r: &str)
        ensures
            r@ == self.spec_name(),
    ;
}

impl Entity for Product {
    open spec fn spec_id(&self) -> EntityId {
        self.id
    }

    open spec fn spec_name(&self) -> Seq<char> {
        self.name@
    }

    fn entity_id(&self) -> (r: EntityId) {
        self.id
    }

    fn entity_name(&self) -> (r: &str) {
        self.name.as_str()
    }
}

impl Entity for Feature {
    open spec fn spec_id(&self) -> EntityId {
        self.id
    }

    open spec fn spec_name(&self) -> Seq<char> {
        self.name@
    }

    fn entity_id(&self) -> (r: EntityId) {
        self.id
    }

    fn entity_name(&self) -> (r: &str) {
        self.name.as_str()
    }
}

impl Entity for PainRelief {
    open spec fn spec_id(&self) -> EntityId {
        self.id
    }

    open spec fn spec_name(&self) -> Seq<char> {
        self.name@
    }

    fn entity_id(&self) -> (r: EntityId) {
        self.id
    }

    fn entity_name(&self) -> (r: &str) {
        self.name.as_str()
    }
}

impl Entity for GainCreator {
    open spec fn spec_id(&self) -> EntityId {
        self.id
    }

    open spec fn spec_name(&self) -> Seq<char> {
        self.name@
    }

    fn entity_id(&self) -> (r: EntityId) {
        self.id
    }

    fn entity_name(&self) -> (r: &str) {
        self.name.as_str()
    }
}

impl Entity for CustomerSegment {
    open spec fn spec_id(&self) -> EntityId {
        self.id
    }

    open spec fn spec_name(&self) -> Seq<char> {
        self.name@
    }

    fn entity_id(&self) -> (r: EntityId) {
        self.id
    }

    fn entity_name(&self) -> (r: &str) {
        self.name.as_str()
    }
}

impl Entity for Job {
    open spec fn spec_id(&self) -> EntityId {
        self.id
    }

    open spec fn spec_name(&self) -> Seq<char> {
        self.name@
    }

    fn entity_id(&self) -> (r: EntityId) {
        self.id
    }

    fn entity_name(&self) -> (r: &str) {
        self.name.as_str()
    }
}

impl Entity for Pain {
    open spec fn spec_id(&self) -> EntityId {
        self.id
    }

    open spec fn spec_name(&self) -> Seq<char> {
        self.name@
    }

    fn entity_id(&self) -> (r: EntityId) {
        self.id
    }

    fn entity_name(&self) -> (r: &str) {
        self.name.as_str()
    }
}

impl Entity for Gain {
    open spec fn spec_id(&self) -> EntityId {
        self.id
    }

    open spec fn spec_name(&self) -> Seq<char> {
        self.name@
    }

    fn entity_id(&self) -> (r: EntityId) {
        self.id
    }

    fn entity_name(&self) -> (r: &str) {
        self.name.as_str()
    }
}

/// The identifiers of a list of entities, in order.
pub open spec fn ids_of<T: Entity>(items: Seq<T>) -> Seq<EntityId> {
    items.map_values(|e: T| e.spec_id())
}

/// Products table state: the products and the transient selection.
#[derive(Clone, Debug)]
pub struct ProductsState {
    pub products: Vec<Product>,
    /// The product awaiting delete confirmation.
    pub pending_delete: Option<EntityId>,
    /// The product whose detail window is open.
    pub selected_id: Option<EntityId>,
    /// The product the table should scroll to on the next frame.
    pub scroll_to_id: Option<EntityId>,
}

/// Features table state.
#[derive(Clone, Debug)]
pub struct FeaturesState {
    pub features: Vec<Feature>,
    pub pending_delete: Option<EntityId>,
    pub selected_id: Option<EntityId>,
    pub scroll_to_id: Option<EntityId>,
}

/// Pain relief table state.
#[derive(Clone, Debug)]
pub struct PainReliefState {
    pub pain_reliefs: Vec<PainRelief>,
    pub pending_delete: Option<EntityId>,
    pub selected_id: Option<EntityId>,
    pub scroll_to_id: Option<EntityId>,
}

/// Gain creator table state.
#[derive(Clone, Debug)]
pub struct GainCreatorState {
    pub gain_creators: Vec<GainCreator>,
    pub pending_delete: Option<EntityId>,
    pub selected_id: Option<EntityId>,
    pub scroll_to_id: Option<EntityId>,
}

/// Customer segment table state.
#[derive(Clone, Debug)]
pub struct SegmentsState {
    pub segments: Vec<CustomerSegment>,
    pub pending_delete: Option<EntityId>,
    pub selected_id: Option<EntityId>,
    pub scroll_to_id: Option<EntityId>,
}

/// Jobs table state.
#[derive(Clone, Debug)]
pub struct JobsState {
    pub jobs: Vec<Job>,
    pub pending_delete: Option<EntityId>,
    pub selected_id: Option<EntityId>,
    pub scroll_to_id: Option<EntityId>,
}

/// Pains table state.
#[derive(Clone, Debug)]
pub struct PainsState {
    pub pains: Vec<Pain>,
    pub pending_delete: Option<EntityId>,
    pub selected_id: Option<EntityId>,
    pub scroll_to_id: Option<EntityId>,
}

/// Gains table state.
#[derive(Clone, Debug)]
pub struct GainsState {
    pub gains: Vec<Gain>,
    pub pending_delete: Option<EntityId>,
    pub selected_id: Option<EntityId>,
    pub scroll_to_id: Option<EntityId>,
}

/// Which floating windows of the value-proposition page are open.
#[derive(Clone, Copy, Debug, PartialEq, Eq, Structural)]
pub struct ProductWindows {
    pub products_open: bool,
    pub features_open: bool,
    pub pain_relief_open: bool,
    pub gain_creators_open: bool,
    pub thoughtful_execution_open: bool,
    pub value_gap_open: bool,
    pub value_quadrant_open: bool,
    pub relationships_open: bool,
}

/// Value-proposition page: products, features, and the links that connect them
/// to customer pains and gains.
#[derive(Clone, Debug)]
pub struct ValuePropPage {
    pub product_windows: ProductWindows,
    pub products_state: ProductsState,
    pub features_state: FeaturesState,
    pub pain_relief_state: PainReliefState,
    pub gain_creator_state: GainCreatorState,
    /// Each entry is `(product_id, feature_id)`.
    pub product_feature_links: Vec<Link>,
    /// Each entry is `(feature_id, pain_relief_id)`.
    pub feature_pain_relief_links: Vec<Link>,
    /// Annotated links between pains and pain reliefs.
    pub pain_relief_annotations: Vec<ValueAnnotation>,
    /// Each entry is `(feature_id, gain_creator_id)`.
    pub feature_gain_creator_links: Vec<Link>,
    /// Annotated links between gains and gain creators.
    pub gain_creator_annotations: Vec<ValueAnnotation>,
}

/// Customer-segment page: segments, jobs, pains, gains and their links.
#[derive(Clone, Debug)]
pub struct CustomerSegmentPage {
    pub segments_state: SegmentsState,
    pub jobs_state: JobsState,
    pub pains_state: PainsState,
    pub gains_state: GainsState,
    /// Each entry is `(job_id, segment_id)`.
    pub segment_job_links: Vec<Link>,
    /// Each entry is `(pain_id, job_id)`.
    pub job_pain_links: Vec<Link>,
    /// Each entry is `(gain_id, job_id)`.
    pub job_gain_links: Vec<Link>,
}

/// The top-level tab.
#[derive(Clone, Copy, Debug, PartialEq, Eq, Structural)]
pub enum Tab {
    ValueProp,
    Customer,
    Overview,
}

/// Whether the application starts on demo data or on the user's database.
#[derive(Clone, Copy, Debug, PartialEq, Eq, Structural)]
pub enum Mode {
    Demo,
    Production,
}

/// The whole editor state: the active tab and the two data pages.
#[derive(Clone, Debug)]
pub struct App {
    pub tab: Tab,
    pub valueprop_page: ValuePropPage,
    pub customer_segment_page: CustomerSegmentPage,
}

impl ProductWindows {
    /// Whether every window is closed.
    pub open spec fn all_closed(&self) -> bool {
        !self.products_open && !self.features_open && !self.pain_relief_open
            && !self.gain_creators_open && !self.thoughtful_execution_open && !self.value_gap_open
            && !self.value_quadrant_open && !self.relationships_open
    }

    /// All windows closed.
    pub fn closed() -> (r: Self)
        ensures
            r.all_closed(),
    {
        ProductWindows {
            products_open: false,
            features_open: false,
            pain_relief_open: false,
            gain_creators_open: false,
            thoughtful_execution_open: false,
            value_gap_open: false,
            value_quadrant_open: false,
            relationships_open: false,
        }
    }
}

impl ValuePropPage {
    /// Whether the page holds no entities, no links, no selection and no open window.
    pub open spec fn is_empty(&self) -> bool {
        &&& self.product_windows.all_closed()
        &&& self.products_state.products@.len() == 0
        &&& self.products_state.pending_delete is None
        &&& self.products_state.selected_id is None
        &&& self.products_state.scroll_to_id is None
        &&& self.features_state.features@.len() == 0
        &&& self.features_state.pending_delete is None
        &&& self.features_state.selected_id is None
        &&& self.features_state.scroll_to_id is None
        &&& self.pain_relief_state.pain_reliefs@.len() == 0
        &&& self.pain_relief_state.pending_delete is None
        &&& self.pain_relief_state.selected_id is None
        &&& self.pain_relief_state.scroll_to_id is None
        &&& self.gain_creator_state.gain_creators@.len() == 0
        &&& self.gain_creator_state.pending_delete is None
        &&& self.gain_creator_state.selected_id is None
        &&& self.gain_creator_state.scroll_to_id is None
        &&& self.product_feature_links@.len() == 0
        &&& self.feature_pain_relief_links@.len() == 0
        &&& self.pain_relief_annotations@.len() == 0
        &&& self.feature_gain_creator_links@.len() == 0
        &&& self.gain_creator_annotations@.len() == 0
    }

    /// An empty page.
    pub fn empty() -> (r: Self)
        ensures
            r.is_empty(),
    {
        ValuePropPage {
            product_windows: ProductWindows::closed(),
            products_state: ProductsState {
                products: Vec::new(),
                pending_delete: None,
                selected_id: None,
                scroll_to_id: None,
            },
            features_state: FeaturesState {
                features: Vec::new(),
                pending_delete: None,
                selected_id: None,
                scroll_to_id: None,
            },
            pain_relief_state: PainReliefState {
                pain_reliefs: Vec::new(),
                pending_delete: None,
                selected_id: None,
                scroll_to_id: None,
            },
            gain_creator_state: GainCreatorState {
                gain_creators: Vec::new(),
                pending_delete: None,
                selected_id: None,
                scroll_to_id: None,
            },
            product_feature_links: Vec::new(),
            feature_pain_relief_links: Vec::new(),
            pain_relief_annotations: Vec::new(),
            feature_gain_creator_links: Vec::new(),
            gain_creator_annotations: Vec::new(),
        }
    }
}

impl Default for ValuePropPage {
    fn default() -> (r: Self)
        ensures
            r.is_empty(),
    {
        ValuePropPage::empty()
    }
}

impl CustomerSegmentPage {
    /// Whether the page holds no entities, no links and no selection.
    pub open spec fn is_empty(&self) -> bool {
        &&& self.segments_state.segments@.len() == 0
        &&& self.segments_state.pending_delete is None
        &&& self.segments_state.selected_id is None
        &&& self.segments_state.scroll_to_id is None
        &&& self.jobs_state.jobs@.len() == 0
        &&& self.jobs_state.pending_delete is None
        &&& self.jobs_state.selected_id is None
        &&& self.jobs_state.scroll_to_id is None
        &&& self.pains_state.pains@.len() == 0
        &&& self.pains_state.pending_delete is None
        &&& self.pains_state.selected_id is None
        &&& self.pains_state.scroll_to_id is None
        &&& self.gains_state.gains@.len() == 0
        &&& self.gains_state.pending_delete is None
        &&& self.gains_state.selected_id is None
        &&& self.gains_state.scroll_to_id is None
        &&& self.segment_job_links@.len() == 0
        &&& self.job_pain_links@.len() == 0
        &&& self.job_gain_links@.len() == 0
    }

    /// An empty page.
    pub fn empty() -> (r: Self)
        ensures
            r.is_empty(),
    {
        CustomerSegmentPage {
            segments_state: SegmentsState {
                segments: Vec::new(),
                pending_delete: None,
                selected_id: None,
                scroll_to_id: None,
            },
            jobs_state: JobsState {
                jobs: Vec::new(),
                pending_delete: None,
                selected_id: None,
                scroll_to_id: None,
            },
            pains_state: PainsState {
                pains: Vec::new(),
                pending_delete: None,
                selected_id: None,
                scroll_to_id: None,
            },
            gains_state: GainsState {
                gains: Vec::new(),
                pending_delete: None,
                selected_id: None,
                scroll_to_id: None,
            },
            segment_job_links: Vec::new(),
            job_pain_links: Vec::new(),
            job_gain_links: Vec::new(),
        }
    }
}

impl Default for CustomerSegmentPage {
    fn default() -> (r: Self)
        ensures
            r.is_empty(),
    {
        CustomerSegmentPage::empty()
    }
}

impl Default for App {
    /// The value-proposition tab on two empty pages.
    fn default() -> (r: Self)
        ensures
            r.tab == Tab::ValueProp,
            r.valueprop_page.is_empty(),
            r.customer_segment_page.is_empty(),
    {
        App {
            tab: Tab::ValueProp,
            valueprop_page: ValuePropPage::empty(),
            customer_segment_page: CustomerSegmentPage::empty(),
        }
    }
}

/// The value-proposition page as mathematical values.
#[verifier::ext_equal]
pub struct ValuePropPageView {
    pub product_windows: ProductWindows,
    pub products: Seq<Product>,
    pub products_pending_delete: Option<EntityId>,
    pub products_selected_id: Option<EntityId>,
    pub products_scroll_to_id: Option<EntityId>,
    pub features: Seq<Feature>,
    pub features_pending_delete: Option<EntityId>,
    pub features_selected_id: Option<EntityId>,
    pub features_scroll_to_id: Option<EntityId>,
    pub pain_reliefs: Seq<PainRelief>,
    pub pain_reliefs_pending_delete: Option<EntityId>,
    pub pain_reliefs_selected_id: Option<EntityId>,
    pub pain_reliefs_scroll_to_id: Option<EntityId>,
    pub gain_creators: Seq<GainCreator>,
    pub gain_creators_pending_delete: Option<EntityId>,
    pub gain_creators_selected_id: Option<EntityId>,
    pub gain_creators_scroll_to_id: Option<EntityId>,
    pub product_feature_links: Seq<Link>,
    pub feature_pain_relief_links: Seq<Link>,
    pub pain_relief_annotations: Seq<ValueAnnotation>,
    pub feature_gain_creator_links: Seq<Link>,
    pub gain_creator_annotations: Seq<ValueAnnotation>,
}

impl View for ValuePropPage {
    type V = ValuePropPageView;

    open spec fn view(&self) -> ValuePropPageView {
        ValuePropPageView {
            product_windows: self.product_windows,
            products: self.products_state.products@,
            products_pending_delete: self.products_state.pending_delete,
            products_selected_id: self.products_state.selected_id,
            products_scroll_to_id: self.products_state.scroll_to_id,
            features: self.features_state.features@,
            features_pending_delete: self.features_state.pending_delete,
            features_selected_id: self.features_state.selected_id,
            features_scroll_to_id: self.features_state.scroll_to_id,
            pain_reliefs: self.pain_relief_state.pain_reliefs@,
            pain_reliefs_pending_delete: self.pain_relief_state.pending_delete,
            pain_reliefs_selected_id: self.pain_relief_state.selected_id,
            pain_reliefs_scroll_to_id: self.pain_relief_state.scroll_to_id,
            gain_creators: self.gain_creator_state.gain_creators@,
            gain_creators_pending_delete: self.gain_creator_state.pending_delete,
            gain_creators_selected_id: self.gain_creator_state.selected_id,
            gain_creators_scroll_to_id: self.gain_creator_state.scroll_to_id,
            product_feature_links: self.product_feature_links@,
            feature_pain_relief_links: self.feature_pain_relief_links@,
            pain_relief_annotations: self.pain_relief_annotations@,
            feature_gain_creator_links: self.feature_gain_creator_links@,
            gain_creator_annotations: self.gain_creator_annotations@,
        }
    }
}

/// The customer-segment page as mathematical values.
#[verifier::ext_equal]
pub struct CustomerSegmentPageView {
    pub segments: Seq<CustomerSegment>,
    pub jobs: Seq<Job>,
    pub pains: Seq<Pain>,
    pub gains: Seq<Gain>,
    pub segment_job_links: Seq<Link>,
    pub job_pain_links: Seq<Link>,
    pub job_gain_links: Seq<Link>,
}

impl View for CustomerSegmentPage {
    type V = CustomerSegmentPageView;

    open spec fn view(&self) -> CustomerSegmentPageView {
        CustomerSegmentPageView {
            segments: self.segments_state.segments@,
            jobs: self.jobs_state.jobs@,
            pains: self.pains_state.pains@,
            gains: self.gains_state.gains@,
            segment_job_links: self.segment_job_links@,
            job_pain_links: self.job_pain_links@,
            job_gain_links: self.job_gain_links@,
        }
    }
}

} // verus!
