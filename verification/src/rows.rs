//! The rows the database stores for each entity, link and annotation.
//!
//! Identifiers are stored as the hyphenated lowercase UUID text; a row whose
//! identifier text does not parse as a UUID decodes to `None`. Importance and
//! strength travel as `f32` bit patterns, which the database layer converts.

use vstd::prelude::*;

use crate::ids::{parse_uuid_opt, parse_uuid_text, uuid_parse, uuid_text, uuid_to_text, EntityId};
use crate::model::{
    CustomerSegment, Feature, Gain, GainCreator, Job, Link, Pain, PainRelief, Product,
    ValueAnnotation, ValueType,
};

verus! {

/// A row of the products, pain reliefs, gain creators or jobs table.
#[derive(Clone, Debug)]
pub struct EntityRow {
    pub id: String,
    pub name: String,
    pub description: String,
    pub notes: String,
}

/// A row of the features table.
#[derive(Clone, Debug)]
pub struct FeatureRow {
    pub id: String,
    pub name: String,
    pub description: String,
    pub status: String,
    pub notes: String,
    pub user_story: String,
    pub acceptance_criteria: String,
}

/// A row of the customer segments table.
#[derive(Clone, Debug)]
pub struct SegmentRow {
    pub id: String,
    pub name: String,
    pub description: String,
    pub notes: String,
    pub characteristics: String,
    pub parent_id: Option<String>,
}

/// A row of the pains or gains table.
#[derive(Clone, Debug)]
pub struct NeedRow {
    pub id: String,
    pub name: String,
    pub description: String,
    pub notes: String,
    pub importance_bits: u32,
}

/// A row of an annotation table.
#[derive(Clone, Debug)]
pub struct AnnotationRow {
    pub pain_or_gain_id: String,
    pub reliever_or_creator_id: String,
    pub value_type: String,
    pub strength_bits: u32,
}

/// The text stored for a value type.
pub open spec fn spec_value_type_db_name(vt: ValueType) -> Seq<char> {
    match vt {
        ValueType::TableStake => "TableStake"@,
        ValueType::Differentiator => "Differentiator"@,
    }
}

/// The value type a stored text stands for: `"TableStake"` is a table stake;
/// anything else, including unknown text from older databases, a differentiator.
pub open spec fn spec_value_type_from_db(s: Seq<char>) -> ValueType {
    if s == "TableStake"@ {
        ValueType::TableStake
    } else {
        ValueType::Differentiator
    }
}

/// The text stored for a value type.
pub fn value_type_db_name(vt: ValueType) -> (r: &'static str)
    ensures
        r@ == spec_value_type_db_name(vt),
{
    match vt {
        ValueType::TableStake => "TableStake",
        ValueType::Differentiator => "Differentiator",
    }
}

/// The value type a stored text stands for.
pub fn value_type_from_db(s: &str) -> (r: ValueType)
    ensures
        r == spec_value_type_from_db(s@),
        forall|vt: ValueType| s@ == spec_value_type_db_name(vt) ==> r == vt,
{
    proof {
        reveal_strlit("TableStake");
        reveal_strlit("Differentiator");
        assert("TableStake"@ != "Differentiator"@) by {
            assert("TableStake"@[0] != "Differentiator"@[0]);
        }
    }
    let text = String::from_str(s);
    let table_stake = String::from_str("TableStake");
    if text == table_stake {
        ValueType::TableStake
    } else {
        ValueType::Differentiator
    }
}

/// A copy of a text.
fn copy_text(s: &String) -> (r: String)
    ensures
        r == *s,
{
    s.clone()
}

/// The row stored for a product.
pub fn product_to_row(p: &Product) -> (r: EntityRow)
    ensures
        r.id@ == uuid_text(p.id),
        r.name == p.name,
        r.description == p.description,
        r.notes == p.notes,
{
    EntityRow {
        id: uuid_to_text(p.id),
        name: copy_text(&p.name),
        description: copy_text(&p.description),
        notes: copy_text(&p.notes),
    }
}

/// The product a row stands for, collapsed; `None` when the identifier does
/// not parse.
/// Reading back the row written for a value gives that value again (collapsed).
pub fn product_from_row(row: EntityRow) -> (r: Option<Product>)
    ensures
        r == match uuid_parse(row.id@) {
            None => None,
            Some(id) => Some(
                Product {
                    id,
                    name: row.name,
                    description: row.description,
                    notes: row.notes,
                    expanded: false,
                },
            ),
        },
        forall|p: Product|
            row.id@ == uuid_text(p.id) && row.name == p.name && row.description == p.description
                && row.notes == p.notes ==> r == Some(
                Product {
                    id: p.id,
                    name: p.name,
                    description: p.description,
                    notes: p.notes,
                    expanded: false,
                },
            ),
{
    match parse_uuid_text(row.id.as_str()) {
        None => None,
        Some(id) => Some(
            Product {
                id,
                name: row.name,
                description: row.description,
                notes: row.notes,
                expanded: false,
            },
        ),
    }
}

/// The row stored for a pain relief.
pub fn pain_relief_to_row(p: &PainRelief) -> (r: EntityRow)
    ensures
        r.id@ == uuid_text(p.id),
        r.name == p.name,
        r.description == p.description,
        r.notes == p.notes,
{
    EntityRow {
        id: uuid_to_text(p.id),
        name: copy_text(&p.name),
        description: copy_text(&p.description),
        notes: copy_text(&p.notes),
    }
}

/// The pain relief a row stands for, collapsed; `None` when the identifier
/// does not parse.
/// Reading back the row written for a value gives that value again (collapsed).
pub fn pain_relief_from_row(row: EntityRow) -> (r: Option<PainRelief>)
    ensures
        r == match uuid_parse(row.id@) {
            None => None,
            Some(id) => Some(
                PainRelief {
                    id,
                    name: row.name,
                    description: row.description,
                    notes: row.notes,
                    expanded: false,
                },
            ),
        },
        forall|p: PainRelief|
            row.id@ == uuid_text(p.id) && row.name == p.name && row.description == p.description
                && row.notes == p.notes ==> r == Some(
                PainRelief {
                    id: p.id,
                    name: p.name,
                    description: p.description,
                    notes: p.notes,
                    expanded: false,
                },
            ),
{
    match parse_uuid_text(row.id.as_str()) {
        None => None,
        Some(id) => Some(
            PainRelief {
                id,
                name: row.name,
                description: row.description,
                notes: row.notes,
                expanded: false,
            },
        ),
    }
}

/// The row stored for a gain creator.
pub fn gain_creator_to_row(g: &GainCreator) -> (r: EntityRow)
    ensures
        r.id@ == uuid_text(g.id),
        r.name == g.name,
        r.description == g.description,
        r.notes == g.notes,
{
    EntityRow {
        id: uuid_to_text(g.id),
        name: copy_text(&g.name),
        description: copy_text(&g.description),
        notes: copy_text(&g.notes),
    }
}

/// The gain creator a row stands for, collapsed; `None` when the identifier
/// does not parse.
/// Reading back the row written for a value gives that value again (collapsed).
pub fn gain_creator_from_row(row: EntityRow) -> (r: Option<GainCreator>)
    ensures
        r == match uuid_parse(row.id@) {
            None => None,
            Some(id) => Some(
                GainCreator {
                    id,
                    name: row.name,
                    description: row.description,
                    notes: row.notes,
                    expanded: false,
                },
            ),
        },
        forall|g: GainCreator|
            row.id@ == uuid_text(g.id) && row.name == g.name && row.description == g.description
                && row.notes == g.notes ==> r == Some(
                GainCreator {
                    id: g.id,
                    name: g.name,
                    description: g.description,
                    notes: g.notes,
                    expanded: false,
                },
            ),
{
    match parse_uuid_text(row.id.as_str()) {
        None => None,
        Some(id) => Some(
            GainCreator {
                id,
                name: row.name,
                description: row.description,
                notes: row.notes,
                expanded: false,
            },
        ),
    }
}

/// The row stored for a job.
pub fn job_to_row(j: &Job) -> (r: EntityRow)
    ensures
        r.id@ == uuid_text(j.id),
        r.name == j.name,
        r.description == j.description,
        r.notes == j.notes,
{
    EntityRow {
        id: uuid_to_text(j.id),
        name: copy_text(&j.name),
        description: copy_text(&j.description),
        notes: copy_text(&j.notes),
    }
}

/// The job a row stands for, collapsed; `None` when the identifier does not parse.
/// Reading back the row written for a value gives that value again (collapsed).
pub fn job_from_row(row: EntityRow) -> (r: Option<Job>)
    ensures
        r == match uuid_parse(row.id@) {
            None => None,
            Some(id) => Some(
                Job {
                    id,
                    name: row.name,
                    description: row.description,
                    notes: row.notes,
                    expanded: false,
                },
            ),
        },
        forall|j: Job|
            row.id@ == uuid_text(j.id) && row.name == j.name && row.description == j.description
                && row.notes == j.notes ==> r == Some(
                Job {
                    id: j.id,
                    name: j.name,
                    description: j.description,
                    notes: j.notes,
                    expanded: false,
                },
            ),
{
    match parse_uuid_text(row.id.as_str()) {
        None => None,
        Some(id) => Some(
            Job {
                id,
                name: row.name,
                description: row.description,
                notes: row.notes,
                expanded: false,
            },
        ),
    }
}

/// The row stored for a feature.
pub fn feature_to_row(f: &Feature) -> (r: FeatureRow)
    ensures
        r.id@ == uuid_text(f.id),
        r.name == f.name,
        r.description == f.description,
        r.status == f.status,
        r.notes == f.notes,
        r.user_story == f.user_story,
        r.acceptance_criteria == f.acceptance_criteria,
{
    FeatureRow {
        id: uuid_to_text(f.id),
        name: copy_text(&f.name),
        description: copy_text(&f.description),
        status: copy_text(&f.status),
        notes: copy_text(&f.notes),
        user_story: copy_text(&f.user_story),
        acceptance_criteria: copy_text(&f.acceptance_criteria),
    }
}

/// The feature a row stands for, collapsed; `None` when the identifier does
/// not parse.
/// Reading back the row written for a value gives that value again (collapsed).
pub fn feature_from_row(row: FeatureRow) -> (r: Option<Feature>)
    ensures
        r == match uuid_parse(row.id@) {
            None => None,
            Some(id) => Some(
                Feature {
                    id,
                    name: row.name,
                    description: row.description,
                    status: row.status,
                    notes: row.notes,
                    user_story: row.user_story,
                    acceptance_criteria: row.acceptance_criteria,
                    expanded: false,
                },
            ),
        },
        forall|f: Feature|
            row.id@ == uuid_text(f.id) && row.name == f.name && row.description == f.description
                && row.status == f.status && row.notes == f.notes && row.user_story == f.user_story
                && row.acceptance_criteria == f.acceptance_criteria ==> r == Some(
                Feature {
                    id: f.id,
                    name: f.name,
                    description: f.description,
                    status: f.status,
                    notes: f.notes,
                    user_story: f.user_story,
                    acceptance_criteria: f.acceptance_criteria,
                    expanded: false,
                },
            ),
{
    match parse_uuid_text(row.id.as_str()) {
        None => None,
        Some(id) => Some(
            Feature {
                id,
                name: row.name,
                description: row.description,
                status: row.status,
                notes: row.notes,
                user_story: row.user_story,
                acceptance_criteria: row.acceptance_criteria,
                expanded: false,
            },
        ),
    }
}

/// The row stored for a customer segment; a parent is stored as its UUID text.
pub fn segment_to_row(s: &CustomerSegment) -> (r: SegmentRow)
    ensures
        r.id@ == uuid_text(s.id),
        r.name == s.name,
        r.description == s.description,
        r.notes == s.notes,
        r.characteristics == s.characteristics,
        match s.parent_id {
            None => r.parent_id is None,
            Some(p) => r.parent_id is Some && r.parent_id.unwrap()@ == uuid_text(p),
        },
{
    let parent_id = match s.parent_id {
        None => None,
        Some(p) => Some(uuid_to_text(p)),
    };
    SegmentRow {
        id: uuid_to_text(s.id),
        name: copy_text(&s.name),
        description: copy_text(&s.description),
        notes: copy_text(&s.notes),
        characteristics: copy_text(&s.characteristics),
        parent_id,
    }
}

/// The customer segment a row stands for, collapsed; `None` when the
/// identifier does not parse. A parent that does not parse is dropped.
/// Reading back the row written for a value gives that value again (collapsed).
pub fn segment_from_row(row: SegmentRow) -> (r: Option<CustomerSegment>)
    ensures
        r == match uuid_parse(row.id@) {
            None => None,
            Some(id) => Some(
                CustomerSegment {
                    id,
                    name: row.name,
                    description: row.description,
                    notes: row.notes,
                    characteristics: row.characteristics,
                    parent_id: match row.parent_id {
                        None => None,
                        Some(p) => uuid_parse(p@),
                    },
                    expanded: false,
                },
            ),
        },
        forall|c: CustomerSegment|
            row.id@ == uuid_text(c.id) && row.name == c.name && row.description == c.description
                && row.notes == c.notes && row.characteristics == c.characteristics && match c.parent_id {
                None => row.parent_id is None,
                Some(q) => row.parent_id is Some && row.parent_id.unwrap()@ == uuid_text(q),
            } ==> r == Some(
                CustomerSegment {
                    id: c.id,
                    name: c.name,
                    description: c.description,
                    notes: c.notes,
                    characteristics: c.characteristics,
                    parent_id: c.parent_id,
                    expanded: false,
                },
            ),
{
    let parent_id = match &row.parent_id {
        None => None,
        Some(p) => parse_uuid_text(p.as_str()),
    };
    match parse_uuid_text(row.id.as_str()) {
        None => None,
        Some(id) => Some(
            CustomerSegment {
                id,
                name: row.name,
                description: row.description,
                notes: row.notes,
                characteristics: row.characteristics,
                parent_id,
                expanded: false,
            },
        ),
    }
}

/// The row stored for a pain.
pub fn pain_to_row(p: &Pain) -> (r: NeedRow)
    ensures
        r.id@ == uuid_text(p.id),
        r.name == p.name,
        r.description == p.description,
        r.notes == p.notes,
        r.importance_bits == p.importance_bits,
{
    NeedRow {
        id: uuid_to_text(p.id),
        name: copy_text(&p.name),
        description: copy_text(&p.description),
        notes: copy_text(&p.notes),
        importance_bits: p.importance_bits,
    }
}

/// The pain a row stands for, collapsed; `None` when the identifier does not parse.
/// Reading back the row written for a value gives that value again (collapsed).
pub fn pain_from_row(row: NeedRow) -> (r: Option<Pain>)
    ensures
        r == match uuid_parse(row.id@) {
            None => None,
            Some(id) => Some(
                Pain {
                    id,
                    name: row.name,
                    description: row.description,
                    notes: row.notes,
                    importance_bits: row.importance_bits,
                    expanded: false,
                },
            ),
        },
        forall|p: Pain|
            row.id@ == uuid_text(p.id) && row.name == p.name && row.description == p.description
                && row.notes == p.notes && row.importance_bits == p.importance_bits ==> r == Some(
                Pain {
                    id: p.id,
                    name: p.name,
                    description: p.description,
                    notes: p.notes,
                    importance_bits: p.importance_bits,
                    expanded: false,
                },
            ),
{
    match parse_uuid_text(row.id.as_str()) {
        None => None,
        Some(id) => Some(
            Pain {
                id,
                name: row.name,
                description: row.description,
                notes: row.notes,
                importance_bits: row.importance_bits,
                expanded: false,
            },
        ),
    }
}

/// The row stored for a gain.
pub fn gain_to_row(g: &Gain) -> (r: NeedRow)
    ensures
        r.id@ == uuid_text(g.id),
        r.name == g.name,
        r.description == g.description,
        r.notes == g.notes,
        r.importance_bits == g.importance_bits,
{
    NeedRow {
        id: uuid_to_text(g.id),
        name: copy_text(&g.name),
        description: copy_text(&g.description),
        notes: copy_text(&g.notes),
        importance_bits: g.importance_bits,
    }
}

/// The gain a row stands for, collapsed; `None` when the identifier does not parse.
/// Reading back the row written for a value gives that value again (collapsed).
pub fn gain_from_row(row: NeedRow) -> (r: Option<Gain>)
    ensures
        r == match uuid_parse(row.id@) {
            None => None,
            Some(id) => Some(
                Gain {
                    id,
                    name: row.name,
                    description: row.description,
                    notes: row.notes,
                    importance_bits: row.importance_bits,
                    expanded: false,
                },
            ),
        },
        forall|g: Gain|
            row.id@ == uuid_text(g.id) && row.name == g.name && row.description == g.description
                && row.notes == g.notes && row.importance_bits == g.importance_bits ==> r == Some(
                Gain {
                    id: g.id,
                    name: g.name,
                    description: g.description,
                    notes: g.notes,
                    importance_bits: g.importance_bits,
                    expanded: false,
                },
            ),
{
    match parse_uuid_text(row.id.as_str()) {
        None => None,
        Some(id) => Some(
            Gain {
                id,
                name: row.name,
                description: row.description,
                notes: row.notes,
                importance_bits: row.importance_bits,
                expanded: false,
            },
        ),
    }
}

/// The two texts stored for a link.
pub fn link_to_row(l: Link) -> (r: (String, String))
    ensures
        r.0@ == uuid_text(l.0),
        r.1@ == uuid_text(l.1),
{
    (uuid_to_text(l.0), uuid_to_text(l.1))
}

/// The link two stored texts stand for; `None` when either does not parse.
/// Reading back the row written for a value gives that value again.
pub fn link_from_row(a: &str, b: &str) -> (r: Option<Link>)
    ensures
        r == match (uuid_parse(a@), uuid_parse(b@)) {
            (Some(x), Some(y)) => Some((x, y)),
            _ => None,
        },
        forall|l: Link| a@ == uuid_text(l.0) && b@ == uuid_text(l.1) ==> r == Some(l),
{
    let x = parse_uuid_text(a);
    let y = parse_uuid_text(b);
    match (x, y) {
        (Some(x), Some(y)) => Some((x, y)),
        _ => None,
    }
}

/// The row stored for an annotation.
pub fn annotation_to_row(a: &ValueAnnotation) -> (r: AnnotationRow)
    ensures
        r.pain_or_gain_id@ == uuid_text(a.pain_or_gain_id),
        r.reliever_or_creator_id@ == uuid_text(a.reliever_or_creator_id),
        r.value_type@ == spec_value_type_db_name(a.value_type),
        r.strength_bits == a.strength_bits,
{
    AnnotationRow {
        pain_or_gain_id: uuid_to_text(a.pain_or_gain_id),
        reliever_or_creator_id: uuid_to_text(a.reliever_or_creator_id),
        value_type: String::from_str(value_type_db_name(a.value_type)),
        strength_bits: a.strength_bits,
    }
}

/// The annotation a row stands for; `None` when either identifier does not
/// parse. Unknown value-type text reads as a differentiator.
/// Reading back the row written for a value gives that value again.
pub fn annotation_from_row(row: &AnnotationRow) -> (r: Option<ValueAnnotation>)
    ensures
        r == match (uuid_parse(row.pain_or_gain_id@), uuid_parse(row.reliever_or_creator_id@)) {
            (Some(need), Some(solution)) => Some(
                ValueAnnotation {
                    pain_or_gain_id: need,
                    reliever_or_creator_id: solution,
                    value_type: spec_value_type_from_db(row.value_type@),
                    strength_bits: row.strength_bits,
                },
            ),
            _ => None,
        },
        forall|x: ValueAnnotation|
            row.pain_or_gain_id@ == uuid_text(x.pain_or_gain_id) && row.reliever_or_creator_id@
                == uuid_text(x.reliever_or_creator_id) && row.value_type@ == spec_value_type_db_name(
                x.value_type,
            ) && row.strength_bits == x.strength_bits ==> r == Some(x),
{
    let value_type = value_type_from_db(row.value_type.as_str());
    let need = parse_uuid_text(row.pain_or_gain_id.as_str());
    let solution = parse_uuid_text(row.reliever_or_creator_id.as_str());
    match (need, solution) {
        (Some(need), Some(solution)) => Some(
            ValueAnnotation {
                pain_or_gain_id: need,
                reliever_or_creator_id: solution,
                value_type,
                strength_bits: row.strength_bits,
            },
        ),
        _ => None,
    }
}

} // verus!
