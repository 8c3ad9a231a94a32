//! Verified core of the Valens value-proposition workbench: the entity model,
//! the link tables that join products to customer needs, the graph queries
//! behind hover highlighting and fit scoring, the editing actions, and the
//! row encoding used by persistence.

pub mod demo;
pub mod editing;
pub mod graph;
pub mod ids;
pub mod idset;
pub mod laws;
pub mod links;
pub mod model;
pub mod names;
pub mod overview;
pub mod relations;
pub mod rows;
pub mod stories;

pub use ids::{parse_uuid_opt, EntityId};
pub use model::{
    App, CustomerSegment, CustomerSegmentPage, Entity, Feature, FeaturesState, Gain, GainCreator,
    GainCreatorState, GainsState, Job, JobsState, Link, Mode, Pain, PainRelief, PainReliefState,
    PainsState, Product, ProductWindows, ProductsState, SegmentsState, Tab, ValueAnnotation,
    ValuePropPage, ValueType,
};
pub use names::{display_name, truncate};
pub use editing::upsert_items;
