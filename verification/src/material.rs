//! Materials: the master data of what is produced and consumed.
//!
//! A material's free-form attributes are a JSON object; here they travel as
//! its JSON text, which nothing in this crate inspects.

use vstd::prelude::*;
use vstd::string::*;
use crate::error::{ApiError, Entity};
use crate::ident::{id_string, id_text, lemma_id_text_parses, uuid_of_text};
use crate::paging::{limit_or, page_or_first, saturating_page, skipped, wrapped, saturating_window, Window};
use crate::text::{lemma_trim_idempotent, lowercase_of, opt_view, patch_kept, patch_trimmed, patched, to_lower, trim_owned, trimmed};
use crate::time::Timestamp;

verus! {

/// A material as stored.
#[derive(Debug)]
pub struct MaterialModel {
    pub id: u128,
    /// Unique material number, e.g. `MAT-10001`.
    pub material_number: String,
    pub name: String,
    pub description: String,
    /// raw | intermediate | finished | consumable | packaging
    pub material_type: String,
    /// Base unit of measure: kg, L, g, mL, units, m, m2, m3
    pub unit_of_measure: String,
    pub attributes: String,
    pub is_active: bool,
    pub created_at: Timestamp,
    pub updated_at: Timestamp,
}

pub struct MaterialView {
    pub id: u128,
    pub material_number: Seq<char>,
    pub name: Seq<char>,
    pub description: Seq<char>,
    pub material_type: Seq<char>,
    pub unit_of_measure: Seq<char>,
    pub attributes: Seq<char>,
    pub is_active: bool,
    pub created_at: Timestamp,
    pub updated_at: Timestamp,
}

impl View for MaterialModel {
    type V = MaterialView;

    open spec fn view(&self) -> MaterialView {
        MaterialView {
            id: self.id,
            material_number: self.material_number@,
            name: self.name@,
            description: self.description@,
            material_type: self.material_type@,
            unit_of_measure: self.unit_of_measure@,
            attributes: self.attributes@,
            is_active: self.is_active,
            created_at: self.created_at,
            updated_at: self.updated_at,
        }
    }
}

/// Query of `GET /api/materials`.
#[derive(Debug)]
pub struct MaterialFilter {
    pub page: Option<usize>,
    pub limit: Option<usize>,
    pub material_type: Option<String>,
    pub is_active: Option<bool>,
    pub search: Option<String>,
}

/// Which materials a list request selects.
#[derive(Debug)]
pub enum MaterialQuery {
    All,
    Active(bool),
    OfType(String),
    /// Number or name, lower-cased, matches this `LIKE` pattern.
    Search(String),
}

impl MaterialFilter {
    /// 50 materials a page by default; page 0 is page 1.
    pub fn window(&self) -> (r: Window)
        ensures
            r.limit == limit_or(self.limit, 50) as i64,
            r.offset == wrapped(saturating_page(self.page), limit_or(self.limit, 50)) as i64,
            skipped(saturating_page(self.page), limit_or(self.limit, 50)) <= usize::MAX ==> r.offset == skipped(
                saturating_page(self.page),
                limit_or(self.limit, 50),
            ) as i64,
    {
        saturating_window(self.page, self.limit, 50)
    }

    /// One filter at a time selects; none, or more than one, selects all.
    /// A search matches `%text%` against lower-cased number and name.
    pub fn query(&self) -> (r: MaterialQuery)
        ensures
            match (self.material_type, self.is_active, self.search) {
                (None, Some(a), None) => r matches MaterialQuery::Active(b) && a == b,
                (Some(t), None, None) => r matches MaterialQuery::OfType(u) && u@ == t@,
                (None, None, Some(q)) => r matches MaterialQuery::Search(p) && p@ == seq!['%']
                    + lowercase_of(q@) + seq!['%'],
                _ => r matches MaterialQuery::All,
            },
    {
        match (&self.material_type, &self.is_active, &self.search) {
            (None, Some(a), None) => MaterialQuery::Active(*a),
            (Some(t), None, None) => MaterialQuery::OfType(t.clone()),
            (None, None, Some(q)) => {
                let mut p = String::from_str("%");
                let lower = to_lower(q.as_str());
                p.append(lower.as_str());
                p.append("%");
                proof {
                    reveal_strlit("%");
                }
                MaterialQuery::Search(p)
            },
            _ => MaterialQuery::All,
        }
    }
}

/// Body of `POST /api/materials`.
#[derive(Debug)]
pub struct CreateMaterialBody {
    pub material_number: String,
    pub name: String,
    pub description: String,
    pub material_type: String,
    pub unit_of_measure: String,
    pub attributes: String,
    pub is_active: bool,
}

/// Body of `PATCH /api/materials/:id`.
#[derive(Debug)]
pub struct UpdateMaterialBody {
    pub material_number: Option<String>,
    pub name: Option<String>,
    pub description: Option<String>,
    pub material_type: Option<String>,
    pub unit_of_measure: Option<String>,
    pub attributes: Option<String>,
    pub is_active: Option<bool>,
}

/// The material that `POST /api/materials` stores: text fields trimmed.
pub open spec fn new_material_view(body: CreateMaterialBody, id: u128, now: Timestamp) -> MaterialView {
    MaterialView {
        id,
        material_number: trimmed(body.material_number@),
        name: trimmed(body.name@),
        description: trimmed(body.description@),
        material_type: trimmed(body.material_type@),
        unit_of_measure: trimmed(body.unit_of_measure@),
        attributes: body.attributes@,
        is_active: body.is_active,
        created_at: now,
        updated_at: now,
    }
}

pub fn create_material(body: &CreateMaterialBody, id: u128, now: Timestamp) -> (r: MaterialModel)
    ensures
        r@ == new_material_view(*body, id, now),
{
    MaterialModel {
        id,
        material_number: trim_owned(body.material_number.as_str()),
        name: trim_owned(body.name.as_str()),
        description: trim_owned(body.description.as_str()),
        material_type: trim_owned(body.material_type.as_str()),
        unit_of_measure: trim_owned(body.unit_of_measure.as_str()),
        attributes: body.attributes.clone(),
        is_active: body.is_active,
        created_at: now,
        updated_at: now,
    }
}

pub open spec fn patched_flag(new: Option<bool>, current: bool) -> bool {
    match new {
        Some(b) => b,
        None => current,
    }
}

/// The material after `PATCH /api/materials/:id`: sent fields replace the
/// stored ones, text fields trimmed (attributes as sent).
pub open spec fn updated_material_view(cur: MaterialView, body: UpdateMaterialBody, now: Timestamp) -> MaterialView {
    MaterialView {
        material_number: trimmed(patched(opt_view(body.material_number), cur.material_number)),
        name: trimmed(patched(opt_view(body.name), cur.name)),
        description: trimmed(patched(opt_view(body.description), cur.description)),
        material_type: trimmed(patched(opt_view(body.material_type), cur.material_type)),
        unit_of_measure: trimmed(patched(opt_view(body.unit_of_measure), cur.unit_of_measure)),
        attributes: patched(opt_view(body.attributes), cur.attributes),
        is_active: patched_flag(body.is_active, cur.is_active),
        updated_at: now,
        ..cur
    }
}

pub fn update_material(current: &MaterialModel, body: &UpdateMaterialBody, now: Timestamp) -> (r:
    MaterialModel)
    ensures
        r@ == updated_material_view(current@, *body, now),
{
    MaterialModel {
        id: current.id,
        material_number: patch_trimmed(&body.material_number, &current.material_number),
        name: patch_trimmed(&body.name, &current.name),
        description: patch_trimmed(&body.description, &current.description),
        material_type: patch_trimmed(&body.material_type, &current.material_type),
        unit_of_measure: patch_trimmed(&body.unit_of_measure, &current.unit_of_measure),
        attributes: patch_kept(&body.attributes, &current.attributes),
        is_active: match body.is_active {
            Some(b) => b,
            None => current.is_active,
        },
        created_at: current.created_at,
        updated_at: now,
    }
}

pub open spec fn material_view_opt(m: Option<MaterialModel>) -> Option<MaterialView> {
    match m {
        Some(x) => Some(x@),
        None => None,
    }
}

/// `PATCH /api/materials/:id`, given the stored material (if any).
pub fn update_material_request(current: &Option<MaterialModel>, body: &UpdateMaterialBody, now: Timestamp) -> (r:
    Result<MaterialModel, ApiError>)
    ensures
        match material_view_opt(*current) {
            None => r matches Err(ApiError::NotFound(Entity::Material)),
            Some(cur) => r matches Ok(m) && m@ == updated_material_view(cur, *body, now),
        },
{
    match current {
        Some(c) => Ok(update_material(c, body, now)),
        None => Err(ApiError::NotFound(Entity::Material)),
    }
}

/// A material as the API shows it.
#[derive(Debug)]
pub struct MaterialResponse {
    pub id: String,
    pub material_number: String,
    pub name: String,
    pub description: String,
    pub material_type: String,
    pub unit_of_measure: String,
    pub attributes: String,
    pub is_active: bool,
    pub created_at: String,
    pub updated_at: String,
}

pub open spec fn shows_material(r: MaterialResponse, m: MaterialView) -> bool {
    &&& r.id@ == id_text(m.id)
    &&& r.material_number@ == m.material_number
    &&& r.name@ == m.name
    &&& r.description@ == m.description
    &&& r.material_type@ == m.material_type
    &&& r.unit_of_measure@ == m.unit_of_measure
    &&& r.attributes@ == m.attributes
    &&& r.is_active == m.is_active
    &&& r.created_at@ == m.created_at.text()
    &&& r.updated_at@ == m.updated_at.text()
}

impl MaterialResponse {
    pub fn from(m: &MaterialModel) -> (r: MaterialResponse)
        ensures
            shows_material(r, m@),
    {
        MaterialResponse {
            id: id_string(m.id),
            material_number: m.material_number.clone(),
            name: m.name.clone(),
            description: m.description.clone(),
            material_type: m.material_type.clone(),
            unit_of_measure: m.unit_of_measure.clone(),
            attributes: m.attributes.clone(),
            is_active: m.is_active,
            created_at: m.created_at.to_rfc3339(),
            updated_at: m.updated_at.to_rfc3339(),
        }
    }
}

/// The items of `GET /api/materials`, in the order of the rows.
pub fn material_responses(rows: &Vec<MaterialModel>) -> (r: Vec<MaterialResponse>)
    ensures
        r.len() == rows.len(),
        forall|i: int| 0 <= i < rows.len() ==> shows_material(#[trigger] r[i], rows[i]@),
{
    let mut r: Vec<MaterialResponse> = Vec::new();
    for i in 0..rows.len()
        invariant
            r.len() == i,
            forall|j: int| 0 <= j < i ==> shows_material(#[trigger] r[j], rows[j]@),
    {
        r.push(MaterialResponse::from(&rows[i]));
    }
    r
}

/// A patch that sends nothing changes nothing of a material as created, but
/// the time of its last update.
pub proof fn lemma_empty_patch_keeps_new_material(
    body: CreateMaterialBody,
    id: u128,
    t0: Timestamp,
    patch: UpdateMaterialBody,
    t1: Timestamp,
)
    requires
        patch.material_number is None,
        patch.name is None,
        patch.description is None,
        patch.material_type is None,
        patch.unit_of_measure is None,
        patch.attributes is None,
        patch.is_active is None,
    ensures
        updated_material_view(new_material_view(body, id, t0), patch, t1) == (MaterialView {
            updated_at: t1,
            ..new_material_view(body, id, t0)
        }),
{
    lemma_trim_idempotent(body.material_number@);
    lemma_trim_idempotent(body.name@);
    lemma_trim_idempotent(body.description@);
    lemma_trim_idempotent(body.material_type@);
    lemma_trim_idempotent(body.unit_of_measure@);
}


/// What `POST /api/materials` stores: the text fields sent, trimmed (the
/// attributes as sent); the activity flag sent; made and updated at `now`.
pub proof fn lemma_new_material_fields(body: CreateMaterialBody, id: u128, now: Timestamp)
    ensures
        ({
            let m = new_material_view(body, id, now);
            &&& m.id == id
            &&& m.material_number == trimmed(body.material_number@)
            &&& m.name == trimmed(body.name@)
            &&& m.description == trimmed(body.description@)
            &&& m.material_type == trimmed(body.material_type@)
            &&& m.unit_of_measure == trimmed(body.unit_of_measure@)
            &&& m.attributes == body.attributes@
            &&& m.is_active == body.is_active
            &&& m.created_at == now && m.updated_at == now
        }),
{
}

/// What `PATCH /api/materials/:id` stores: each text field sent replaces the
/// stored one, trimmed (the attributes as sent), and one not sent keeps the
/// stored value (trimmed); a flag sent replaces the stored one; identity and
/// creation time never change.
pub proof fn lemma_material_patch_fields(cur: MaterialView, body: UpdateMaterialBody, now: Timestamp)
    ensures
        ({
            let m = updated_material_view(cur, body, now);
            &&& match body.material_number {
                Some(t) => m.material_number == trimmed(t@),
                None => m.material_number == trimmed(cur.material_number),
            }
            &&& match body.name {
                Some(t) => m.name == trimmed(t@),
                None => m.name == trimmed(cur.name),
            }
            &&& match body.description {
                Some(t) => m.description == trimmed(t@),
                None => m.description == trimmed(cur.description),
            }
            &&& match body.material_type {
                Some(t) => m.material_type == trimmed(t@),
                None => m.material_type == trimmed(cur.material_type),
            }
            &&& match body.unit_of_measure {
                Some(t) => m.unit_of_measure == trimmed(t@),
                None => m.unit_of_measure == trimmed(cur.unit_of_measure),
            }
            &&& match body.attributes {
                Some(t) => m.attributes == t@,
                None => m.attributes == cur.attributes,
            }
            &&& match body.is_active {
                Some(a) => m.is_active == a,
                None => m.is_active == cur.is_active,
            }
            &&& m.id == cur.id
            &&& m.created_at == cur.created_at
            &&& m.updated_at == now
        }),
{
}


/// A material as shown reads back as the material stored: its id parses
/// back and every other field is the stored one.
pub proof fn lemma_material_shown(r: MaterialResponse, m: MaterialView)
    requires
        shows_material(r, m),
    ensures
        uuid_of_text(r.id@) == Some(m.id),
        r.material_number@ == m.material_number,
        r.name@ == m.name,
        r.description@ == m.description,
        r.material_type@ == m.material_type,
        r.unit_of_measure@ == m.unit_of_measure,
        r.attributes@ == m.attributes,
        r.is_active == m.is_active,
{
    lemma_id_text_parses(m.id);
}


/// The stored material is taken as it is stored, or as none.
pub proof fn lemma_material_input_read(m: Option<MaterialModel>)
    ensures
        match m {
            Some(x) => material_view_opt(m) == Some(x@),
            None => material_view_opt(m) is None,
        },
{
}

} // verus!
