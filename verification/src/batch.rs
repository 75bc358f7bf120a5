//! Batches: lots of one material, with a quantity, a status and dates.
//!
//! Quantities are exact decimals in the database; here they travel as their
//! decimal text, which nothing in this crate inspects.

use vstd::prelude::*;
use vstd::string::*;
use crate::error::{ApiError, Entity, RefField};
use crate::ident::{lemma_id_text_parses, filter_id_value, resolve_filter_id, id_string, id_text, new_ref_value, opt_id_string, opt_id_text, opt_id_view, parse_ref, ref_change_of, resolve_new_ref, resolve_ref_change, uuid_of_text, RefChange};
use crate::paging::{limit_or, page_or_first, saturating_page, skipped, wrapped, saturating_window, Window};
use crate::text::{lemma_trim_idempotent, opt_view, patch_kept, patch_trimmed, patched, trim_owned, trimmed};
use crate::time::Timestamp;

verus! {

/// A batch as stored.
#[derive(Debug)]
pub struct BatchModel {
    pub id: u128,
    /// Unique batch or lot number, e.g. `BAT-2024-00042`.
    pub batch_number: String,
    pub material_id: u128,
    /// The material's number and name when the batch was made or re-pointed.
    pub material_number: String,
    pub material_name: String,
    pub quantity: String,
    pub unit_of_measure: String,
    /// active | quarantine | released | expired | consumed | rejected
    pub status: String,
    pub manufactured_date: String,
    pub expiry_date: String,
    pub notes: String,
    pub process_order_id: Option<u128>,
    pub created_at: Timestamp,
    pub updated_at: Timestamp,
}

pub struct BatchView {
    pub id: u128,
    pub batch_number: Seq<char>,
    pub material_id: u128,
    pub material_number: Seq<char>,
    pub material_name: Seq<char>,
    pub quantity: Seq<char>,
    pub unit_of_measure: Seq<char>,
    pub status: Seq<char>,
    pub manufactured_date: Seq<char>,
    pub expiry_date: Seq<char>,
    pub notes: Seq<char>,
    pub process_order_id: Option<u128>,
    pub created_at: Timestamp,
    pub updated_at: Timestamp,
}

impl View for BatchModel {
    type V = BatchView;

    open spec fn view(&self) -> BatchView {
        BatchView {
            id: self.id,
            batch_number: self.batch_number@,
            material_id: self.material_id,
            material_number: self.material_number@,
            material_name: self.material_name@,
            quantity: self.quantity@,
            unit_of_measure: self.unit_of_measure@,
            status: self.status@,
            manufactured_date: self.manufactured_date@,
            expiry_date: self.expiry_date@,
            notes: self.notes@,
            process_order_id: self.process_order_id,
            created_at: self.created_at,
            updated_at: self.updated_at,
        }
    }
}

/// Query of `GET /api/batches`.
#[derive(Debug)]
pub struct BatchFilter {
    pub page: Option<usize>,
    pub limit: Option<usize>,
    pub material_id: Option<String>,
    pub status: Option<String>,
}

/// Which batches a list request selects: those that meet every condition
/// it holds.
#[derive(Debug)]
pub struct BatchQuery {
    pub material_id: Option<u128>,
    pub status: Option<String>,
}

impl BatchQuery {
    /// Whether the query selects a batch.
    pub open spec fn admits(self, b: BatchView) -> bool {
        &&& (self.material_id matches Some(m) ==> b.material_id == m)
        &&& (self.status matches Some(s) ==> b.status == s@)
    }
}

impl BatchFilter {
    /// 50 batches a page by default; page 0 is page 1.
    pub fn window(&self) -> (r: Window)
        ensures
            r.limit == limit_or(self.limit, 50) as i64,
            r.offset == wrapped(saturating_page(self.page), limit_or(self.limit, 50)) as i64,
            skipped(saturating_page(self.page), limit_or(self.limit, 50)) <= usize::MAX ==> r.offset == skipped(
                saturating_page(self.page),
                limit_or(self.limit, 50),
            ) as i64,
    {
        saturating_window(self.page, self.limit, 50)
    }

    /// Each filter given restricts the list: the material, which must be a
    /// UUID, and the status.
    pub fn query(&self) -> (r: Result<BatchQuery, ApiError>)
        ensures
            match filter_id_value(opt_view(self.material_id)) {
                Some(m) => r matches Ok(q) && q.material_id == m && opt_view(q.status) == opt_view(self.status),
                None => r matches Err(ApiError::InvalidRef(RefField::MaterialId)),
            },
    {
        let material = match resolve_filter_id(&self.material_id, RefField::MaterialId) {
            Ok(m) => m,
            Err(e) => return Err(e),
        };
        let status = match &self.status {
            Some(t) => Some(t.clone()),
            None => None,
        };
        Ok(BatchQuery { material_id: material, status })
    }
}

/// Body of `POST /api/batches`; `quantity` is the decimal text of the
/// quantity sent.
#[derive(Debug)]
pub struct CreateBatchBody {
    pub batch_number: String,
    pub material_id: String,
    pub quantity: String,
    pub unit_of_measure: String,
    pub status: String,
    pub manufactured_date: String,
    pub expiry_date: String,
    pub notes: String,
    pub process_order_id: Option<String>,
}

/// Body of `PATCH /api/batches/:id`; a process order of `""` removes it.
#[derive(Debug)]
pub struct UpdateBatchBody {
    pub batch_number: Option<String>,
    pub material_id: Option<String>,
    pub quantity: Option<String>,
    pub unit_of_measure: Option<String>,
    pub status: Option<String>,
    pub manufactured_date: Option<String>,
    pub expiry_date: Option<String>,
    pub notes: Option<String>,
    pub process_order_id: Option<String>,
}

/// The material a new batch is of, resolved by number and name before the
/// batch is made.
#[derive(Debug)]
pub struct MaterialSnapshot {
    pub id: u128,
    pub material_number: String,
    pub name: String,
}

impl CreateBatchBody {
    /// The material of the new batch.
    pub fn material_ref(&self) -> (r: Result<u128, ApiError>)
        ensures
            match uuid_of_text(self.material_id@) {
                Some(v) => r == Ok::<u128, ApiError>(v),
                None => r matches Err(ApiError::InvalidRef(RefField::MaterialId)),
            },
    {
        parse_ref(self.material_id.as_str(), RefField::MaterialId)
    }
}

impl UpdateBatchBody {
    /// The material the batch is re-pointed to, if the patch names one.
    pub fn material_ref(&self) -> (r: Result<Option<u128>, ApiError>)
        ensures
            match self.material_id {
                None => r == Ok::<Option<u128>, ApiError>(None),
                Some(t) => match uuid_of_text(t@) {
                    Some(v) => r == Ok::<Option<u128>, ApiError>(Some(v)),
                    None => r matches Err(ApiError::InvalidRef(RefField::MaterialId)),
                },
            },
    {
        match &self.material_id {
            None => Ok(None),
            Some(t) => match parse_ref(t.as_str(), RefField::MaterialId) {
                Ok(v) => Ok(Some(v)),
                Err(e) => Err(e),
            },
        }
    }
}

/// The batch that `POST /api/batches` stores: text fields of the body
/// trimmed, the material's number and name copied in as they are.
pub open spec fn new_batch_view(
    body: CreateBatchBody,
    material: MaterialSnapshot,
    order: Option<u128>,
    id: u128,
    now: Timestamp,
) -> BatchView {
    BatchView {
        id,
        batch_number: trimmed(body.batch_number@),
        material_id: material.id,
        material_number: material.material_number@,
        material_name: material.name@,
        quantity: body.quantity@,
        unit_of_measure: trimmed(body.unit_of_measure@),
        status: trimmed(body.status@),
        manufactured_date: trimmed(body.manufactured_date@),
        expiry_date: trimmed(body.expiry_date@),
        notes: trimmed(body.notes@),
        process_order_id: order,
        created_at: now,
        updated_at: now,
    }
}

/// `POST /api/batches` once its material is found: a process order that is
/// neither absent, empty nor a UUID is refused.
pub fn create_batch(body: &CreateBatchBody, material: &MaterialSnapshot, id: u128, now: Timestamp) -> (r:
    Result<BatchModel, ApiError>)
    requires
        uuid_of_text(body.material_id@) == Some(material.id),
    ensures
        match new_ref_value(opt_view(body.process_order_id)) {
            Some(o) => r matches Ok(b) && b@ == new_batch_view(*body, *material, o, id, now),
            None => r matches Err(ApiError::InvalidRef(RefField::ProcessOrderId)),
        },
{
    let order = match resolve_new_ref(&body.process_order_id, RefField::ProcessOrderId) {
        Ok(o) => o,
        Err(e) => return Err(e),
    };
    Ok(
        BatchModel {
            id,
            batch_number: trim_owned(body.batch_number.as_str()),
            material_id: material.id,
            material_number: material.material_number.clone(),
            material_name: material.name.clone(),
            quantity: body.quantity.clone(),
            unit_of_measure: trim_owned(body.unit_of_measure.as_str()),
            status: trim_owned(body.status.as_str()),
            manufactured_date: trim_owned(body.manufactured_date.as_str()),
            expiry_date: trim_owned(body.expiry_date.as_str()),
            notes: trim_owned(body.notes.as_str()),
            process_order_id: order,
            created_at: now,
            updated_at: now,
        },
    )
}

pub open spec fn snapshot_view(m: Option<MaterialSnapshot>) -> Option<(u128, Seq<char>, Seq<char>)> {
    match m {
        Some(s) => Some((s.id, s.material_number@, s.name@)),
        None => None,
    }
}

/// The batch after `PATCH /api/batches/:id`: `material` is the material the
/// patch re-points to, if any; sent text fields replace the stored ones,
/// trimmed (the quantity as sent).
pub open spec fn updated_batch_view(
    cur: BatchView,
    body: UpdateBatchBody,
    material: Option<(u128, Seq<char>, Seq<char>)>,
    order: RefChange,
    now: Timestamp,
) -> BatchView {
    BatchView {
        batch_number: trimmed(patched(opt_view(body.batch_number), cur.batch_number)),
        material_id: match material {
            Some(m) => m.0,
            None => cur.material_id,
        },
        material_number: match material {
            Some(m) => m.1,
            None => cur.material_number,
        },
        material_name: match material {
            Some(m) => m.2,
            None => cur.material_name,
        },
        quantity: patched(opt_view(body.quantity), cur.quantity),
        unit_of_measure: trimmed(patched(opt_view(body.unit_of_measure), cur.unit_of_measure)),
        status: trimmed(patched(opt_view(body.status), cur.status)),
        manufactured_date: trimmed(patched(opt_view(body.manufactured_date), cur.manufactured_date)),
        expiry_date: trimmed(patched(opt_view(body.expiry_date), cur.expiry_date)),
        notes: trimmed(patched(opt_view(body.notes), cur.notes)),
        process_order_id: order.applied(cur.process_order_id),
        updated_at: now,
        ..cur
    }
}

/// `PATCH /api/batches/:id` once a new material (if any) is found: a process
/// order that is neither absent, empty nor a UUID is refused.
pub fn update_batch(
    current: &BatchModel,
    body: &UpdateBatchBody,
    material: Option<MaterialSnapshot>,
    now: Timestamp,
) -> (r: Result<BatchModel, ApiError>)
    requires
        match body.material_id {
            None => material is None,
            Some(t) => material matches Some(m) && uuid_of_text(t@) == Some(m.id),
        },
    ensures
        match ref_change_of(opt_view(body.process_order_id)) {
            Some(c) => r matches Ok(b) && b@ == updated_batch_view(
                current@,
                *body,
                snapshot_view(material),
                c,
                now,
            ),
            None => r matches Err(ApiError::InvalidRef(RefField::ProcessOrderId)),
        },
        r matches Ok(b) ==> match material {
            Some(m) => b.material_id == m.id && b.material_number@ == m.material_number@ && b.material_name@
                == m.name@,
            None => b.material_id == current.material_id && b.material_number@ == current.material_number@
                && b.material_name@ == current.material_name@,
        },
{
    let (material_id, material_number, material_name) = match material {
        Some(m) => (m.id, m.material_number, m.name),
        None => (current.material_id, current.material_number.clone(), current.material_name.clone()),
    };
    let change = match resolve_ref_change(&body.process_order_id, RefField::ProcessOrderId) {
        Ok(c) => c,
        Err(e) => return Err(e),
    };
    Ok(
        BatchModel {
            id: current.id,
            batch_number: patch_trimmed(&body.batch_number, &current.batch_number),
            material_id,
            material_number,
            material_name,
            quantity: patch_kept(&body.quantity, &current.quantity),
            unit_of_measure: patch_trimmed(&body.unit_of_measure, &current.unit_of_measure),
            status: patch_trimmed(&body.status, &current.status),
            manufactured_date: patch_trimmed(&body.manufactured_date, &current.manufactured_date),
            expiry_date: patch_trimmed(&body.expiry_date, &current.expiry_date),
            notes: patch_trimmed(&body.notes, &current.notes),
            process_order_id: change.apply(current.process_order_id),
            created_at: current.created_at,
            updated_at: now,
        },
    )
}

/// A batch as the API shows it; `quantity` is the stored decimal text.
#[derive(Debug)]
pub struct BatchResponse {
    pub id: String,
    pub batch_number: String,
    pub material_id: String,
    pub material_number: String,
    pub material_name: String,
    pub quantity: String,
    pub unit_of_measure: String,
    pub status: String,
    pub manufactured_date: String,
    pub expiry_date: String,
    pub notes: String,
    pub process_order_id: Option<String>,
    pub created_at: String,
    pub updated_at: String,
}

pub open spec fn shows_batch(r: BatchResponse, b: BatchView) -> bool {
    &&& r.id@ == id_text(b.id)
    &&& r.batch_number@ == b.batch_number
    &&& r.material_id@ == id_text(b.material_id)
    &&& r.material_number@ == b.material_number
    &&& r.material_name@ == b.material_name
    &&& r.quantity@ == b.quantity
    &&& r.unit_of_measure@ == b.unit_of_measure
    &&& r.status@ == b.status
    &&& r.manufactured_date@ == b.manufactured_date
    &&& r.expiry_date@ == b.expiry_date
    &&& r.notes@ == b.notes
    &&& opt_id_view(r.process_order_id) == opt_id_text(b.process_order_id)
    &&& r.created_at@ == b.created_at.text()
    &&& r.updated_at@ == b.updated_at.text()
}

impl BatchResponse {
    pub fn from(b: &BatchModel) -> (r: BatchResponse)
        ensures
            shows_batch(r, b@),
    {
        BatchResponse {
            id: id_string(b.id),
            batch_number: b.batch_number.clone(),
            material_id: id_string(b.material_id),
            material_number: b.material_number.clone(),
            material_name: b.material_name.clone(),
            quantity: b.quantity.clone(),
            unit_of_measure: b.unit_of_measure.clone(),
            status: b.status.clone(),
            manufactured_date: b.manufactured_date.clone(),
            expiry_date: b.expiry_date.clone(),
            notes: b.notes.clone(),
            process_order_id: opt_id_string(b.process_order_id),
            created_at: b.created_at.to_rfc3339(),
            updated_at: b.updated_at.to_rfc3339(),
        }
    }
}

/// The items of `GET /api/batches`, in the order of the rows.
pub fn batch_responses(rows: &Vec<BatchModel>) -> (r: Vec<BatchResponse>)
    ensures
        r.len() == rows.len(),
        forall|i: int| 0 <= i < rows.len() ==> shows_batch(#[trigger] r[i], rows[i]@),
{
    let mut r: Vec<BatchResponse> = Vec::new();
    for i in 0..rows.len()
        invariant
            r.len() == i,
            forall|j: int| 0 <= j < i ==> shows_batch(#[trigger] r[j], rows[j]@),
    {
        r.push(BatchResponse::from(&rows[i]));
    }
    r
}

/// A patch that sends nothing changes nothing of a batch as created, but
/// the time of its last update.
pub proof fn lemma_empty_patch_keeps_new_batch(
    body: CreateBatchBody,
    material: MaterialSnapshot,
    order: Option<u128>,
    id: u128,
    t0: Timestamp,
    patch: UpdateBatchBody,
    t1: Timestamp,
)
    requires
        patch.batch_number is None,
        patch.material_id is None,
        patch.quantity is None,
        patch.unit_of_measure is None,
        patch.status is None,
        patch.manufactured_date is None,
        patch.expiry_date is None,
        patch.notes is None,
        patch.process_order_id is None,
    ensures
        ref_change_of(opt_view(patch.process_order_id)) == Some(RefChange::Keep),
        updated_batch_view(new_batch_view(body, material, order, id, t0), patch, None, RefChange::Keep, t1)
            == (BatchView { updated_at: t1, ..new_batch_view(body, material, order, id, t0) }),
{
    lemma_trim_idempotent(body.batch_number@);
    lemma_trim_idempotent(body.unit_of_measure@);
    lemma_trim_idempotent(body.status@);
    lemma_trim_idempotent(body.manufactured_date@);
    lemma_trim_idempotent(body.expiry_date@);
    lemma_trim_idempotent(body.notes@);
}

/// The copied material number and name of a batch survive changes to the
/// material record: only a patch that re-points the batch replaces them.
pub proof fn lemma_material_snapshot_kept(cur: BatchView, body: UpdateBatchBody, order: RefChange, now: Timestamp)
    ensures
        updated_batch_view(cur, body, None, order, now).material_id == cur.material_id,
        updated_batch_view(cur, body, None, order, now).material_number == cur.material_number,
        updated_batch_view(cur, body, None, order, now).material_name == cur.material_name,
{
}

pub open spec fn found_view(f: Option<(String, String)>) -> Option<(Seq<char>, Seq<char>)> {
    match f {
        Some(p) => Some((p.0@, p.1@)),
        None => None,
    }
}

/// The answer to `POST /api/batches`, refusals in the order the service
/// checks them: the material id must be a UUID, then name a material; then
/// the process order must be absent, empty or a UUID. `found` is the number
/// and name that looking up the named material gave.
pub open spec fn batch_create_outcome(
    body: CreateBatchBody,
    found: Option<(Seq<char>, Seq<char>)>,
    id: u128,
    now: Timestamp,
) -> Result<BatchView, ApiError> {
    match uuid_of_text(body.material_id@) {
        None => Err(ApiError::InvalidRef(RefField::MaterialId)),
        Some(m) => match found {
            None => Err(ApiError::NotFound(Entity::Material)),
            Some(f) => match new_ref_value(opt_view(body.process_order_id)) {
                None => Err(ApiError::InvalidRef(RefField::ProcessOrderId)),
                Some(o) => Ok(
                    BatchView {
                        id,
                        batch_number: trimmed(body.batch_number@),
                        material_id: m,
                        material_number: f.0,
                        material_name: f.1,
                        quantity: body.quantity@,
                        unit_of_measure: trimmed(body.unit_of_measure@),
                        status: trimmed(body.status@),
                        manufactured_date: trimmed(body.manufactured_date@),
                        expiry_date: trimmed(body.expiry_date@),
                        notes: trimmed(body.notes@),
                        process_order_id: o,
                        created_at: now,
                        updated_at: now,
                    },
                ),
            },
        },
    }
}

/// `POST /api/batches`, given what looking up the material the body names
/// found (ignored when the body does not name one).
pub fn create_batch_request(body: &CreateBatchBody, found: Option<(String, String)>, id: u128, now: Timestamp) -> (r:
    Result<BatchModel, ApiError>)
    ensures
        match batch_create_outcome(*body, found_view(found), id, now) {
            Ok(v) => r matches Ok(b) && b@ == v,
            Err(e) => r matches Err(x) && x == e,
        },
{
    let m = match body.material_ref() {
        Ok(m) => m,
        Err(e) => return Err(e),
    };
    let (material_number, name) = match found {
        Some(f) => f,
        None => return Err(ApiError::NotFound(Entity::Material)),
    };
    let snapshot = MaterialSnapshot { id: m, material_number, name };
    create_batch(body, &snapshot, id, now)
}

/// The answer to `PATCH /api/batches/:id`, refusals in the order the service
/// checks them: the batch must exist; a material the patch names must be a
/// UUID, then exist; then the process order must be absent, empty or a UUID.
pub open spec fn batch_patch_outcome(
    current: Option<BatchView>,
    body: UpdateBatchBody,
    found: Option<(Seq<char>, Seq<char>)>,
    now: Timestamp,
) -> Result<BatchView, ApiError> {
    match current {
        None => Err(ApiError::NotFound(Entity::Batch)),
        Some(cur) => {
            let material: Result<Option<(u128, Seq<char>, Seq<char>)>, ApiError> = match body.material_id {
                None => Ok(None),
                Some(t) => match uuid_of_text(t@) {
                    None => Err(ApiError::InvalidRef(RefField::MaterialId)),
                    Some(m) => match found {
                        None => Err(ApiError::NotFound(Entity::Material)),
                        Some(f) => Ok(Some((m, f.0, f.1))),
                    },
                },
            };
            match material {
                Err(e) => Err(e),
                Ok(mat) => match ref_change_of(opt_view(body.process_order_id)) {
                    None => Err(ApiError::InvalidRef(RefField::ProcessOrderId)),
                    Some(c) => Ok(updated_batch_view(cur, body, mat, c, now)),
                },
            }
        },
    }
}

pub open spec fn batch_view_opt(b: Option<BatchModel>) -> Option<BatchView> {
    match b {
        Some(m) => Some(m@),
        None => None,
    }
}

/// `PATCH /api/batches/:id`, given the stored batch (if any) and what
/// looking up the material the patch names found (ignored when it names
/// none).
pub fn update_batch_request(
    current: &Option<BatchModel>,
    body: &UpdateBatchBody,
    found: Option<(String, String)>,
    now: Timestamp,
) -> (r: Result<BatchModel, ApiError>)
    ensures
        match batch_patch_outcome(batch_view_opt(*current), *body, found_view(found), now) {
            Ok(v) => r matches Ok(b) && b@ == v,
            Err(e) => r matches Err(x) && x == e,
        },
{
    let cur = match current {
        Some(c) => c,
        None => return Err(ApiError::NotFound(Entity::Batch)),
    };
    let material = match body.material_ref() {
        Err(e) => return Err(e),
        Ok(None) => None,
        Ok(Some(m)) => match found {
            None => return Err(ApiError::NotFound(Entity::Material)),
            Some((material_number, name)) => Some(MaterialSnapshot { id: m, material_number, name }),
        },
    };
    update_batch(cur, body, material, now)
}


/// What `POST /api/batches` stores: the text fields sent, trimmed (the
/// quantity as sent); the number and name of the material found; the
/// process order resolved; made and updated at `now`.
pub proof fn lemma_new_batch_fields(
    body: CreateBatchBody,
    material: MaterialSnapshot,
    order: Option<u128>,
    id: u128,
    now: Timestamp,
)
    ensures
        ({
            let b = new_batch_view(body, material, order, id, now);
            &&& b.id == id
            &&& b.batch_number == trimmed(body.batch_number@)
            &&& b.material_id == material.id
            &&& b.material_number == material.material_number@
            &&& b.material_name == material.name@
            &&& b.quantity == body.quantity@
            &&& b.unit_of_measure == trimmed(body.unit_of_measure@)
            &&& b.status == trimmed(body.status@)
            &&& b.manufactured_date == trimmed(body.manufactured_date@)
            &&& b.expiry_date == trimmed(body.expiry_date@)
            &&& b.notes == trimmed(body.notes@)
            &&& b.process_order_id == order
            &&& b.created_at == now && b.updated_at == now
        }),
{
}

/// What `PATCH /api/batches/:id` stores: each text field sent replaces the
/// stored one, trimmed (the quantity as sent), and one not sent keeps the
/// stored value (trimmed); a material named replaces the material with its
/// number and name; the process order is kept, removed or replaced as the
/// change says; identity and creation time never change.
pub proof fn lemma_batch_patch_fields(
    cur: BatchView,
    body: UpdateBatchBody,
    material: Option<(u128, Seq<char>, Seq<char>)>,
    order: RefChange,
    now: Timestamp,
)
    ensures
        ({
            let b = updated_batch_view(cur, body, material, order, now);
            &&& match body.batch_number {
                Some(t) => b.batch_number == trimmed(t@),
                None => b.batch_number == trimmed(cur.batch_number),
            }
            &&& match body.quantity {
                Some(t) => b.quantity == t@,
                None => b.quantity == cur.quantity,
            }
            &&& match body.unit_of_measure {
                Some(t) => b.unit_of_measure == trimmed(t@),
                None => b.unit_of_measure == trimmed(cur.unit_of_measure),
            }
            &&& match body.status {
                Some(t) => b.status == trimmed(t@),
                None => b.status == trimmed(cur.status),
            }
            &&& match body.manufactured_date {
                Some(t) => b.manufactured_date == trimmed(t@),
                None => b.manufactured_date == trimmed(cur.manufactured_date),
            }
            &&& match body.expiry_date {
                Some(t) => b.expiry_date == trimmed(t@),
                None => b.expiry_date == trimmed(cur.expiry_date),
            }
            &&& match body.notes {
                Some(t) => b.notes == trimmed(t@),
                None => b.notes == trimmed(cur.notes),
            }
            &&& match material {
                Some((m, number, name)) => b.material_id == m && b.material_number == number
                    && b.material_name == name,
                None => b.material_id == cur.material_id && b.material_number == cur.material_number
                    && b.material_name == cur.material_name,
            }
            &&& match order {
                RefChange::Keep => b.process_order_id == cur.process_order_id,
                RefChange::Clear => b.process_order_id == None::<u128>,
                RefChange::Assign(v) => b.process_order_id == Some(v),
            }
            &&& b.id == cur.id
            &&& b.created_at == cur.created_at
            &&& b.updated_at == now
        }),
{
}


/// How `POST /api/batches` answers: a material id that is not a UUID is
/// refused first, then one that names no material, then a process order
/// that is neither absent, empty nor a UUID; otherwise the batch stores the
/// text fields sent (trimmed; the quantity as sent), the material with the
/// number and name found, and the process order given.
pub proof fn lemma_batch_create_answers(
    body: CreateBatchBody,
    found: Option<(Seq<char>, Seq<char>)>,
    id: u128,
    now: Timestamp,
)
    ensures
        ({
            let out = batch_create_outcome(body, found, id, now);
            let m = uuid_of_text(body.material_id@);
            let o = new_ref_value(opt_view(body.process_order_id));
            let f = found->0;
            &&& m is None ==> out == Err::<BatchView, ApiError>(ApiError::InvalidRef(RefField::MaterialId))
            &&& (m is Some && found is None) ==> out == Err::<BatchView, ApiError>(
                ApiError::NotFound(Entity::Material),
            )
            &&& (m is Some && found is Some && o is None) ==> out == Err::<BatchView, ApiError>(
                ApiError::InvalidRef(RefField::ProcessOrderId),
            )
            &&& (m is Some && found is Some && o is Some) ==> (out matches Ok(b) && b.id == id && b.batch_number
                == trimmed(body.batch_number@) && b.material_id == m->0 && b.material_number == f.0
                && b.material_name == f.1 && b.quantity == body.quantity@ && b.unit_of_measure == trimmed(
                body.unit_of_measure@,
            ) && b.status == trimmed(body.status@) && b.manufactured_date == trimmed(body.manufactured_date@)
                && b.expiry_date == trimmed(body.expiry_date@) && b.notes == trimmed(body.notes@)
                && b.process_order_id == o->0 && b.created_at == now && b.updated_at == now)
        }),
{
}

/// How `PATCH /api/batches/:id` answers: a missing batch is refused first;
/// then a material the patch names must be a UUID, then exist; then the
/// process order field must be absent, empty or a UUID; otherwise the patch
/// applies, with the material named (number and name as found) or the
/// stored one.
pub proof fn lemma_batch_patch_answers(
    current: Option<BatchView>,
    body: UpdateBatchBody,
    found: Option<(Seq<char>, Seq<char>)>,
    now: Timestamp,
)
    ensures
        ({
            let out = batch_patch_outcome(current, body, found, now);
            let m = match body.material_id {
                Some(t) => uuid_of_text(t@),
                None => None,
            };
            let material_ok = body.material_id is None || (m is Some && found is Some);
            let c = ref_change_of(opt_view(body.process_order_id));
            let f = found->0;
            let mat = if body.material_id is None {
                None
            } else {
                Some((m->0, f.0, f.1))
            };
            &&& current is None ==> out == Err::<BatchView, ApiError>(ApiError::NotFound(Entity::Batch))
            &&& (current is Some && body.material_id is Some && m is None) ==> out == Err::<BatchView, ApiError>(
                ApiError::InvalidRef(RefField::MaterialId),
            )
            &&& (current is Some && m is Some && found is None) ==> out == Err::<BatchView, ApiError>(
                ApiError::NotFound(Entity::Material),
            )
            &&& (current is Some && material_ok && c is None) ==> out == Err::<BatchView, ApiError>(
                ApiError::InvalidRef(RefField::ProcessOrderId),
            )
            &&& (current is Some && material_ok && c is Some) ==> out == Ok::<BatchView, ApiError>(
                updated_batch_view(current->0, body, mat, c->0, now),
            )
        }),
{
}


/// A batch as shown reads back as the batch stored: its id, material and
/// process order parse back and every other field is the stored one.
pub proof fn lemma_batch_shown(r: BatchResponse, b: BatchView)
    requires
        shows_batch(r, b),
    ensures
        uuid_of_text(r.id@) == Some(b.id),
        uuid_of_text(r.material_id@) == Some(b.material_id),
        match b.process_order_id {
            Some(x) => r.process_order_id matches Some(t) && uuid_of_text(t@) == Some(x),
            None => r.process_order_id is None,
        },
        r.batch_number@ == b.batch_number,
        r.material_number@ == b.material_number,
        r.material_name@ == b.material_name,
        r.quantity@ == b.quantity,
        r.unit_of_measure@ == b.unit_of_measure,
        r.status@ == b.status,
        r.manufactured_date@ == b.manufactured_date,
        r.expiry_date@ == b.expiry_date,
        r.notes@ == b.notes,
{
    lemma_id_text_parses(b.id);
    lemma_id_text_parses(b.material_id);
    if let Some(p) = b.process_order_id {
        lemma_id_text_parses(p);
    }
}


/// What the stored batch and the lookups are taken to be: the batch as
/// stored, or none; the material named with its id, number and name as
/// read; the number and name found as read.
pub proof fn lemma_batch_inputs_read(
    b: Option<BatchModel>,
    m: Option<MaterialSnapshot>,
    f: Option<(String, String)>,
)
    ensures
        match b {
            Some(x) => batch_view_opt(b) == Some(x@),
            None => batch_view_opt(b) is None,
        },
        match m {
            Some(s) => snapshot_view(m) == Some((s.id, s.material_number@, s.name@)),
            None => snapshot_view(m) is None,
        },
        match f {
            Some((number, name)) => found_view(f) == Some((number@, name@)),
            None => found_view(f) is None,
        },
{
}

} // verus!
