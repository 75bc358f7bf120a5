//! Handling units: pallets, drums and other containers, each holding some
//! quantity of one batch at one location.
//!
//! Quantities travel as decimal text, as for batches.

use vstd::prelude::*;
use vstd::string::*;
use crate::error::{ApiError, Entity, RefField};
use crate::ident::{lemma_id_text_parses, uuid_of_text, filter_id_value, resolve_filter_id, id_string, id_text, new_ref_value, opt_id_string, opt_id_text, opt_id_view, ref_change_of, resolve_new_ref, resolve_ref_change, RefChange};
use crate::paging::{limit_or, page_or_first, saturating_page, skipped, wrapped, saturating_window, Window};
use crate::text::{lemma_trim_idempotent, opt_view, patch_kept, patch_trimmed, patched, trim_owned, trimmed};
use crate::time::Timestamp;

verus! {

/// A handling unit as stored.
#[derive(Debug)]
pub struct HandlingUnitModel {
    pub id: u128,
    /// Unique identifier or barcode, e.g. `HU-00000123`.
    pub hu_number: String,
    pub description: String,
    /// pallet | container | box | drum | ibc | sack | other
    pub hu_type: String,
    /// empty | partial | full | sealed | damaged | disposed
    pub status: String,
    pub batch_id: Option<u128>,
    /// The batch's number when the unit was linked to it.
    pub batch_number: String,
    pub quantity: String,
    pub unit_of_measure: String,
    pub location_id: Option<u128>,
    /// The location's code when the unit was put there.
    pub location_code: String,
    pub created_at: Timestamp,
    pub updated_at: Timestamp,
}

pub struct HandlingUnitView {
    pub id: u128,
    pub hu_number: Seq<char>,
    pub description: Seq<char>,
    pub hu_type: Seq<char>,
    pub status: Seq<char>,
    pub batch_id: Option<u128>,
    pub batch_number: Seq<char>,
    pub quantity: Seq<char>,
    pub unit_of_measure: Seq<char>,
    pub location_id: Option<u128>,
    pub location_code: Seq<char>,
    pub created_at: Timestamp,
    pub updated_at: Timestamp,
}

impl View for HandlingUnitModel {
    type V = HandlingUnitView;

    open spec fn view(&self) -> HandlingUnitView {
        HandlingUnitView {
            id: self.id,
            hu_number: self.hu_number@,
            description: self.description@,
            hu_type: self.hu_type@,
            status: self.status@,
            batch_id: self.batch_id,
            batch_number: self.batch_number@,
            quantity: self.quantity@,
            unit_of_measure: self.unit_of_measure@,
            location_id: self.location_id,
            location_code: self.location_code@,
            created_at: self.created_at,
            updated_at: self.updated_at,
        }
    }
}

/// Query of `GET /api/handling-units`.
#[derive(Debug)]
pub struct HuFilter {
    pub page: Option<usize>,
    pub limit: Option<usize>,
    pub batch_id: Option<String>,
    pub location_id: Option<String>,
    pub status: Option<String>,
    pub hu_type: Option<String>,
}

/// Which handling units a list request selects: those that meet every
/// condition it holds.
#[derive(Debug)]
pub struct HuQuery {
    pub batch_id: Option<u128>,
    pub location_id: Option<u128>,
    pub status: Option<String>,
    pub hu_type: Option<String>,
}

impl HuQuery {
    /// Whether the query selects a handling unit.
    pub open spec fn admits(self, h: HandlingUnitView) -> bool {
        &&& (self.batch_id matches Some(b) ==> h.batch_id == Some(b))
        &&& (self.location_id matches Some(l) ==> h.location_id == Some(l))
        &&& (self.status matches Some(s) ==> h.status == s@)
        &&& (self.hu_type matches Some(t) ==> h.hu_type == t@)
    }
}

impl HuFilter {
    /// 50 units a page by default; page 0 is page 1.
    pub fn window(&self) -> (r: Window)
        ensures
            r.limit == limit_or(self.limit, 50) as i64,
            r.offset == wrapped(saturating_page(self.page), limit_or(self.limit, 50)) as i64,
            skipped(saturating_page(self.page), limit_or(self.limit, 50)) <= usize::MAX ==> r.offset == skipped(
                saturating_page(self.page),
                limit_or(self.limit, 50),
            ) as i64,
    {
        saturating_window(self.page, self.limit, 50)
    }

    /// Each filter given restricts the list: the batch and the location,
    /// which must be UUIDs (the batch is looked at first), the status and the
    /// type.
    pub fn query(&self) -> (r: Result<HuQuery, ApiError>)
        ensures
            match filter_id_value(opt_view(self.batch_id)) {
                None => r matches Err(ApiError::InvalidRef(RefField::BatchId)),
                Some(b) => match filter_id_value(opt_view(self.location_id)) {
                    None => r matches Err(ApiError::InvalidRef(RefField::LocationId)),
                    Some(l) => r matches Ok(q) && q.batch_id == b && q.location_id == l && opt_view(q.status)
                        == opt_view(self.status) && opt_view(q.hu_type) == opt_view(self.hu_type),
                },
            },
    {
        let batch = match resolve_filter_id(&self.batch_id, RefField::BatchId) {
            Ok(b) => b,
            Err(e) => return Err(e),
        };
        let location = match resolve_filter_id(&self.location_id, RefField::LocationId) {
            Ok(l) => l,
            Err(e) => return Err(e),
        };
        let status = match &self.status {
            Some(t) => Some(t.clone()),
            None => None,
        };
        let hu_type = match &self.hu_type {
            Some(t) => Some(t.clone()),
            None => None,
        };
        Ok(HuQuery { batch_id: batch, location_id: location, status, hu_type })
    }
}

/// Body of `POST /api/handling-units`; `quantity` is the decimal text of the
/// quantity sent (zero when none was).
#[derive(Debug)]
pub struct CreateHandlingUnitBody {
    pub hu_number: String,
    pub description: String,
    pub hu_type: String,
    pub status: String,
    pub batch_id: Option<String>,
    pub quantity: String,
    pub unit_of_measure: String,
    pub location_id: Option<String>,
}

/// Body of `PATCH /api/handling-units/:id`; a batch or location of `""`
/// unlinks it.
#[derive(Debug)]
pub struct UpdateHandlingUnitBody {
    pub hu_number: Option<String>,
    pub description: Option<String>,
    pub hu_type: Option<String>,
    pub status: Option<String>,
    pub batch_id: Option<String>,
    pub quantity: Option<String>,
    pub unit_of_measure: Option<String>,
    pub location_id: Option<String>,
}

impl CreateHandlingUnitBody {
    /// The batch the new unit holds, if any.
    pub fn batch_ref(&self) -> (r: Result<Option<u128>, ApiError>)
        ensures
            match new_ref_value(opt_view(self.batch_id)) {
                Some(v) => r == Ok::<Option<u128>, ApiError>(v),
                None => r matches Err(ApiError::InvalidRef(RefField::BatchId)),
            },
    {
        resolve_new_ref(&self.batch_id, RefField::BatchId)
    }

    /// The location of the new unit, if any.
    pub fn location_ref(&self) -> (r: Result<Option<u128>, ApiError>)
        ensures
            match new_ref_value(opt_view(self.location_id)) {
                Some(v) => r == Ok::<Option<u128>, ApiError>(v),
                None => r matches Err(ApiError::InvalidRef(RefField::LocationId)),
            },
    {
        resolve_new_ref(&self.location_id, RefField::LocationId)
    }
}

impl UpdateHandlingUnitBody {
    pub fn batch_change(&self) -> (r: Result<RefChange, ApiError>)
        ensures
            match ref_change_of(opt_view(self.batch_id)) {
                Some(c) => r == Ok::<RefChange, ApiError>(c),
                None => r matches Err(ApiError::InvalidRef(RefField::BatchId)),
            },
    {
        resolve_ref_change(&self.batch_id, RefField::BatchId)
    }

    pub fn location_change(&self) -> (r: Result<RefChange, ApiError>)
        ensures
            match ref_change_of(opt_view(self.location_id)) {
                Some(c) => r == Ok::<RefChange, ApiError>(c),
                None => r matches Err(ApiError::InvalidRef(RefField::LocationId)),
            },
    {
        resolve_ref_change(&self.location_id, RefField::LocationId)
    }
}

/// A link to a batch or location, with the number or code it had when the
/// link was made.
#[derive(Debug)]
pub struct Linked {
    pub id: u128,
    pub label: String,
}

pub open spec fn linked_view(l: Option<Linked>) -> Option<(u128, Seq<char>)> {
    match l {
        Some(k) => Some((k.id, k.label@)),
        None => None,
    }
}

/// A reference of a new unit together with what looking it up found: no
/// reference links nothing; a reference to a missing record is `NotFound`.
pub fn attach(reference: Option<u128>, lookup: Option<String>, entity: Entity) -> (r: Result<
    Option<Linked>,
    ApiError,
>)
    ensures
        match reference {
            None => r matches Ok(None),
            Some(v) => match lookup {
                Some(l) => r matches Ok(Some(k)) && k.id == v && k.label@ == l@,
                None => r matches Err(ApiError::NotFound(e)) && e == entity,
            },
        },
{
    match reference {
        None => Ok(None),
        Some(v) => match lookup {
            Some(l) => Ok(Some(Linked { id: v, label: l })),
            None => Err(ApiError::NotFound(entity)),
        },
    }
}

/// What a patch does to a link, once a newly named record is looked up.
#[derive(Debug)]
pub enum LinkChange {
    Keep,
    Clear,
    To(Linked),
}

pub open spec fn link_change_view(c: LinkChange) -> Option<Option<(u128, Seq<char>)>> {
    match c {
        LinkChange::Keep => None,
        LinkChange::Clear => Some(None),
        LinkChange::To(k) => Some(Some((k.id, k.label@))),
    }
}

/// A reference change together with what looking up a newly named record
/// found; a newly named record that is missing is `NotFound`.
pub fn relink(change: RefChange, lookup: Option<String>, entity: Entity) -> (r: Result<
    LinkChange,
    ApiError,
>)
    ensures
        match change {
            RefChange::Keep => r matches Ok(LinkChange::Keep),
            RefChange::Clear => r matches Ok(LinkChange::Clear),
            RefChange::Assign(v) => match lookup {
                Some(l) => r matches Ok(LinkChange::To(k)) && k.id == v && k.label@ == l@,
                None => r matches Err(ApiError::NotFound(e)) && e == entity,
            },
        },
{
    match change {
        RefChange::Keep => Ok(LinkChange::Keep),
        RefChange::Clear => Ok(LinkChange::Clear),
        RefChange::Assign(v) => match lookup {
            Some(l) => Ok(LinkChange::To(Linked { id: v, label: l })),
            None => Err(ApiError::NotFound(entity)),
        },
    }
}

pub open spec fn link_id(l: Option<(u128, Seq<char>)>) -> Option<u128> {
    match l {
        Some(k) => Some(k.0),
        None => None,
    }
}

pub open spec fn link_label(l: Option<(u128, Seq<char>)>) -> Seq<char> {
    match l {
        Some(k) => k.1,
        None => Seq::empty(),
    }
}

/// The unit that `POST /api/handling-units` stores: text fields trimmed,
/// batch number and location code copied from the linked records, empty
/// when unlinked.
pub open spec fn new_unit_view(
    body: CreateHandlingUnitBody,
    batch: Option<(u128, Seq<char>)>,
    location: Option<(u128, Seq<char>)>,
    id: u128,
    now: Timestamp,
) -> HandlingUnitView {
    HandlingUnitView {
        id,
        hu_number: trimmed(body.hu_number@),
        description: trimmed(body.description@),
        hu_type: trimmed(body.hu_type@),
        status: trimmed(body.status@),
        batch_id: link_id(batch),
        batch_number: link_label(batch),
        quantity: body.quantity@,
        unit_of_measure: trimmed(body.unit_of_measure@),
        location_id: link_id(location),
        location_code: link_label(location),
        created_at: now,
        updated_at: now,
    }
}

fn split_link(l: Option<Linked>) -> (r: (Option<u128>, String))
    ensures
        r.0 == link_id(linked_view(l)),
        r.1@ == link_label(linked_view(l)),
{
    match l {
        Some(k) => (Some(k.id), k.label),
        None => (None, String::new()),
    }
}

/// `POST /api/handling-units` once its batch and location are found.
pub fn create_handling_unit(
    body: &CreateHandlingUnitBody,
    batch: Option<Linked>,
    location: Option<Linked>,
    id: u128,
    now: Timestamp,
) -> (r: HandlingUnitModel)
    requires
        new_ref_value(opt_view(body.batch_id)) == Some(link_id(linked_view(batch))),
        new_ref_value(opt_view(body.location_id)) == Some(link_id(linked_view(location))),
    ensures
        r@ == new_unit_view(*body, linked_view(batch), linked_view(location), id, now),
        match batch {
            Some(k) => r.batch_id == Some(k.id) && r.batch_number@ == k.label@,
            None => r.batch_id is None && r.batch_number@ == Seq::<char>::empty(),
        },
        match location {
            Some(k) => r.location_id == Some(k.id) && r.location_code@ == k.label@,
            None => r.location_id is None && r.location_code@ == Seq::<char>::empty(),
        },
{
    let (batch_id, batch_number) = split_link(batch);
    let (location_id, location_code) = split_link(location);
    HandlingUnitModel {
        id,
        hu_number: trim_owned(body.hu_number.as_str()),
        description: trim_owned(body.description.as_str()),
        hu_type: trim_owned(body.hu_type.as_str()),
        status: trim_owned(body.status.as_str()),
        batch_id,
        batch_number,
        quantity: body.quantity.clone(),
        unit_of_measure: trim_owned(body.unit_of_measure.as_str()),
        location_id,
        location_code,
        created_at: now,
        updated_at: now,
    }
}

/// A link change is the one that a patch's reference field asks for.
pub open spec fn link_agrees(c: LinkChange, text: Option<Seq<char>>) -> bool {
    match ref_change_of(text) {
        Some(RefChange::Keep) => c is Keep,
        Some(RefChange::Clear) => c is Clear,
        Some(RefChange::Assign(v)) => c matches LinkChange::To(k) && k.id == v,
        None => false,
    }
}

/// The link after a change: kept, removed (with an empty label) or replaced.
pub open spec fn relinked(
    change: Option<Option<(u128, Seq<char>)>>,
    cur_id: Option<u128>,
    cur_label: Seq<char>,
) -> (Option<u128>, Seq<char>) {
    match change {
        None => (cur_id, cur_label),
        Some(l) => (link_id(l), link_label(l)),
    }
}

/// The unit after `PATCH /api/handling-units/:id`: sent text fields replace
/// the stored ones, trimmed (the quantity as sent); links change as
/// `batch` and `location` say.
pub open spec fn updated_unit_view(
    cur: HandlingUnitView,
    body: UpdateHandlingUnitBody,
    batch: Option<Option<(u128, Seq<char>)>>,
    location: Option<Option<(u128, Seq<char>)>>,
    now: Timestamp,
) -> HandlingUnitView {
    HandlingUnitView {
        hu_number: trimmed(patched(opt_view(body.hu_number), cur.hu_number)),
        description: trimmed(patched(opt_view(body.description), cur.description)),
        hu_type: trimmed(patched(opt_view(body.hu_type), cur.hu_type)),
        status: trimmed(patched(opt_view(body.status), cur.status)),
        batch_id: relinked(batch, cur.batch_id, cur.batch_number).0,
        batch_number: relinked(batch, cur.batch_id, cur.batch_number).1,
        quantity: patched(opt_view(body.quantity), cur.quantity),
        unit_of_measure: trimmed(patched(opt_view(body.unit_of_measure), cur.unit_of_measure)),
        location_id: relinked(location, cur.location_id, cur.location_code).0,
        location_code: relinked(location, cur.location_id, cur.location_code).1,
        updated_at: now,
        ..cur
    }
}

fn apply_link(change: LinkChange, cur_id: Option<u128>, cur_label: &String) -> (r: (
    Option<u128>,
    String,
))
    ensures
        r.0 == relinked(link_change_view(change), cur_id, cur_label@).0,
        r.1@ == relinked(link_change_view(change), cur_id, cur_label@).1,
{
    match change {
        LinkChange::Keep => (cur_id, cur_label.clone()),
        LinkChange::Clear => (None, String::new()),
        LinkChange::To(k) => (Some(k.id), k.label),
    }
}

/// `PATCH /api/handling-units/:id` once newly named batch and location are
/// found.
pub fn update_handling_unit(
    current: &HandlingUnitModel,
    body: &UpdateHandlingUnitBody,
    batch: LinkChange,
    location: LinkChange,
    now: Timestamp,
) -> (r: HandlingUnitModel)
    requires
        link_agrees(batch, opt_view(body.batch_id)),
        link_agrees(location, opt_view(body.location_id)),
    ensures
        r@ == updated_unit_view(
            current@,
            *body,
            link_change_view(batch),
            link_change_view(location),
            now,
        ),
        match batch {
            LinkChange::Keep => r.batch_id == current.batch_id && r.batch_number@ == current.batch_number@,
            LinkChange::Clear => r.batch_id is None && r.batch_number@ == Seq::<char>::empty(),
            LinkChange::To(k) => r.batch_id == Some(k.id) && r.batch_number@ == k.label@,
        },
        match location {
            LinkChange::Keep => r.location_id == current.location_id && r.location_code@ == current.location_code@,
            LinkChange::Clear => r.location_id is None && r.location_code@ == Seq::<char>::empty(),
            LinkChange::To(k) => r.location_id == Some(k.id) && r.location_code@ == k.label@,
        },
{
    let (batch_id, batch_number) = apply_link(batch, current.batch_id, &current.batch_number);
    let (location_id, location_code) = apply_link(
        location,
        current.location_id,
        &current.location_code,
    );
    HandlingUnitModel {
        id: current.id,
        hu_number: patch_trimmed(&body.hu_number, &current.hu_number),
        description: patch_trimmed(&body.description, &current.description),
        hu_type: patch_trimmed(&body.hu_type, &current.hu_type),
        status: patch_trimmed(&body.status, &current.status),
        batch_id,
        batch_number,
        quantity: patch_kept(&body.quantity, &current.quantity),
        unit_of_measure: patch_trimmed(&body.unit_of_measure, &current.unit_of_measure),
        location_id,
        location_code,
        created_at: current.created_at,
        updated_at: now,
    }
}

/// A handling unit as the API shows it; `quantity` is the stored decimal
/// text.
#[derive(Debug)]
pub struct HandlingUnitResponse {
    pub id: String,
    pub hu_number: String,
    pub description: String,
    pub hu_type: String,
    pub status: String,
    pub batch_id: Option<String>,
    pub batch_number: String,
    pub quantity: String,
    pub unit_of_measure: String,
    pub location_id: Option<String>,
    pub location_code: String,
    pub created_at: String,
    pub updated_at: String,
}

pub open spec fn shows_unit(r: HandlingUnitResponse, h: HandlingUnitView) -> bool {
    &&& r.id@ == id_text(h.id)
    &&& r.hu_number@ == h.hu_number
    &&& r.description@ == h.description
    &&& r.hu_type@ == h.hu_type
    &&& r.status@ == h.status
    &&& opt_id_view(r.batch_id) == opt_id_text(h.batch_id)
    &&& r.batch_number@ == h.batch_number
    &&& r.quantity@ == h.quantity
    &&& r.unit_of_measure@ == h.unit_of_measure
    &&& opt_id_view(r.location_id) == opt_id_text(h.location_id)
    &&& r.location_code@ == h.location_code
    &&& r.created_at@ == h.created_at.text()
    &&& r.updated_at@ == h.updated_at.text()
}

impl HandlingUnitResponse {
    pub fn from(h: &HandlingUnitModel) -> (r: HandlingUnitResponse)
        ensures
            shows_unit(r, h@),
    {
        HandlingUnitResponse {
            id: id_string(h.id),
            hu_number: h.hu_number.clone(),
            description: h.description.clone(),
            hu_type: h.hu_type.clone(),
            status: h.status.clone(),
            batch_id: opt_id_string(h.batch_id),
            batch_number: h.batch_number.clone(),
            quantity: h.quantity.clone(),
            unit_of_measure: h.unit_of_measure.clone(),
            location_id: opt_id_string(h.location_id),
            location_code: h.location_code.clone(),
            created_at: h.created_at.to_rfc3339(),
            updated_at: h.updated_at.to_rfc3339(),
        }
    }
}

/// The items of `GET /api/handling-units`, in the order of the rows.
pub fn handling_unit_responses(rows: &Vec<HandlingUnitModel>) -> (r: Vec<HandlingUnitResponse>)
    ensures
        r.len() == rows.len(),
        forall|i: int| 0 <= i < rows.len() ==> shows_unit(#[trigger] r[i], rows[i]@),
{
    let mut r: Vec<HandlingUnitResponse> = Vec::new();
    for i in 0..rows.len()
        invariant
            r.len() == i,
            forall|j: int| 0 <= j < i ==> shows_unit(#[trigger] r[j], rows[j]@),
    {
        r.push(HandlingUnitResponse::from(&rows[i]));
    }
    r
}

/// Unlinking clears both the reference and its copied label, so a unit
/// never shows the number of a batch (or the code of a location) it is not
/// linked to; a unit created without links carries empty labels.
pub proof fn lemma_unlinked_has_no_label(
    cur: HandlingUnitView,
    body: UpdateHandlingUnitBody,
    location: Option<Option<(u128, Seq<char>)>>,
    now: Timestamp,
)
    ensures
        updated_unit_view(cur, body, Some(None), location, now).batch_id is None,
        updated_unit_view(cur, body, Some(None), location, now).batch_number.len() == 0,
        link_label(None).len() == 0,
{
}

/// A patch that sends nothing changes nothing of a unit as created, but the
/// time of its last update.
pub proof fn lemma_empty_patch_keeps_new_unit(
    body: CreateHandlingUnitBody,
    batch: Option<(u128, Seq<char>)>,
    location: Option<(u128, Seq<char>)>,
    id: u128,
    t0: Timestamp,
    patch: UpdateHandlingUnitBody,
    t1: Timestamp,
)
    requires
        patch.hu_number is None,
        patch.description is None,
        patch.hu_type is None,
        patch.status is None,
        patch.batch_id is None,
        patch.quantity is None,
        patch.unit_of_measure is None,
        patch.location_id is None,
    ensures
        updated_unit_view(new_unit_view(body, batch, location, id, t0), patch, None, None, t1) == (
        HandlingUnitView { updated_at: t1, ..new_unit_view(body, batch, location, id, t0) }),
{
    lemma_trim_idempotent(body.hu_number@);
    lemma_trim_idempotent(body.description@);
    lemma_trim_idempotent(body.hu_type@);
    lemma_trim_idempotent(body.status@);
    lemma_trim_idempotent(body.unit_of_measure@);
}

pub open spec fn label_view(f: Option<String>) -> Option<Seq<char>> {
    match f {
        Some(l) => Some(l@),
        None => None,
    }
}

/// A reference of a new unit with what looking it up found: `None` for a
/// named record that was not found, else the link.
pub open spec fn attached(r: Option<u128>, found: Option<Seq<char>>) -> Option<Option<(u128, Seq<char>)>> {
    match r {
        None => Some(None),
        Some(v) => match found {
            Some(l) => Some(Some((v, l))),
            None => None,
        },
    }
}

/// The answer to `POST /api/handling-units`, refusals in the order the
/// service checks them: the batch must be absent, empty or a UUID, then
/// exist; then the same for the location. `batch_found` and
/// `location_found` are the batch number and location code that looking up
/// the named records gave.
pub open spec fn unit_create_outcome(
    body: CreateHandlingUnitBody,
    batch_found: Option<Seq<char>>,
    location_found: Option<Seq<char>>,
    id: u128,
    now: Timestamp,
) -> Result<HandlingUnitView, ApiError> {
    match new_ref_value(opt_view(body.batch_id)) {
        None => Err(ApiError::InvalidRef(RefField::BatchId)),
        Some(b) => match attached(b, batch_found) {
            None => Err(ApiError::NotFound(Entity::Batch)),
            Some(bl) => match new_ref_value(opt_view(body.location_id)) {
                None => Err(ApiError::InvalidRef(RefField::LocationId)),
                Some(l) => match attached(l, location_found) {
                    None => Err(ApiError::NotFound(Entity::Location)),
                    Some(ll) => Ok(new_unit_view(body, bl, ll, id, now)),
                },
            },
        },
    }
}

/// `POST /api/handling-units`, given what looking up the batch and the
/// location that the body names found (each ignored when none is named).
pub fn create_handling_unit_request(
    body: &CreateHandlingUnitBody,
    batch_found: Option<String>,
    location_found: Option<String>,
    id: u128,
    now: Timestamp,
) -> (r: Result<HandlingUnitModel, ApiError>)
    ensures
        match unit_create_outcome(*body, label_view(batch_found), label_view(location_found), id, now) {
            Ok(v) => r matches Ok(h) && h@ == v,
            Err(e) => r matches Err(x) && x == e,
        },
{
    let b = match body.batch_ref() {
        Ok(b) => b,
        Err(e) => return Err(e),
    };
    let batch = match attach(b, batch_found, Entity::Batch) {
        Ok(l) => l,
        Err(e) => return Err(e),
    };
    let l = match body.location_ref() {
        Ok(l) => l,
        Err(e) => return Err(e),
    };
    let location = match attach(l, location_found, Entity::Location) {
        Ok(l) => l,
        Err(e) => return Err(e),
    };
    Ok(create_handling_unit(body, batch, location, id, now))
}

/// A reference change with what looking up a newly named record found:
/// `None` for a named record that was not found, else the link change (as
/// in `link_change_view`).
pub open spec fn relinked_by(c: RefChange, found: Option<Seq<char>>) -> Option<Option<Option<(u128, Seq<char>)>>> {
    match c {
        RefChange::Keep => Some(None),
        RefChange::Clear => Some(Some(None)),
        RefChange::Assign(v) => match found {
            Some(l) => Some(Some(Some((v, l)))),
            None => None,
        },
    }
}

/// The answer to `PATCH /api/handling-units/:id`, refusals in the order the
/// service checks them: the unit must exist; the batch field must be
/// absent, empty or a UUID, and a named batch must exist; then the same for
/// the location.
pub open spec fn unit_patch_outcome(
    current: Option<HandlingUnitView>,
    body: UpdateHandlingUnitBody,
    batch_found: Option<Seq<char>>,
    location_found: Option<Seq<char>>,
    now: Timestamp,
) -> Result<HandlingUnitView, ApiError> {
    match current {
        None => Err(ApiError::NotFound(Entity::HandlingUnit)),
        Some(cur) => match ref_change_of(opt_view(body.batch_id)) {
            None => Err(ApiError::InvalidRef(RefField::BatchId)),
            Some(bc) => match relinked_by(bc, batch_found) {
                None => Err(ApiError::NotFound(Entity::Batch)),
                Some(bl) => match ref_change_of(opt_view(body.location_id)) {
                    None => Err(ApiError::InvalidRef(RefField::LocationId)),
                    Some(lc) => match relinked_by(lc, location_found) {
                        None => Err(ApiError::NotFound(Entity::Location)),
                        Some(ll) => Ok(updated_unit_view(cur, body, bl, ll, now)),
                    },
                },
            },
        },
    }
}

pub open spec fn unit_view_opt(h: Option<HandlingUnitModel>) -> Option<HandlingUnitView> {
    match h {
        Some(m) => Some(m@),
        None => None,
    }
}

/// `PATCH /api/handling-units/:id`, given the stored unit (if any) and what
/// looking up a newly named batch and location found (each ignored when the
/// patch names none).
pub fn update_handling_unit_request(
    current: &Option<HandlingUnitModel>,
    body: &UpdateHandlingUnitBody,
    batch_found: Option<String>,
    location_found: Option<String>,
    now: Timestamp,
) -> (r: Result<HandlingUnitModel, ApiError>)
    ensures
        match unit_patch_outcome(
            unit_view_opt(*current),
            *body,
            label_view(batch_found),
            label_view(location_found),
            now,
        ) {
            Ok(v) => r matches Ok(h) && h@ == v,
            Err(e) => r matches Err(x) && x == e,
        },
{
    let cur = match current {
        Some(c) => c,
        None => return Err(ApiError::NotFound(Entity::HandlingUnit)),
    };
    let bc = match body.batch_change() {
        Ok(c) => c,
        Err(e) => return Err(e),
    };
    let batch = match relink(bc, batch_found, Entity::Batch) {
        Ok(l) => l,
        Err(e) => return Err(e),
    };
    let lc = match body.location_change() {
        Ok(c) => c,
        Err(e) => return Err(e),
    };
    let location = match relink(lc, location_found, Entity::Location) {
        Ok(l) => l,
        Err(e) => return Err(e),
    };
    Ok(update_handling_unit(cur, body, batch, location, now))
}


/// What `POST /api/handling-units` stores: the text fields sent, trimmed
/// (the quantity as sent); each link with the number or code of the record
/// found, or no link and an empty label; made and updated at `now`.
pub proof fn lemma_new_unit_fields(
    body: CreateHandlingUnitBody,
    batch: Option<(u128, Seq<char>)>,
    location: Option<(u128, Seq<char>)>,
    id: u128,
    now: Timestamp,
)
    ensures
        ({
            let h = new_unit_view(body, batch, location, id, now);
            &&& h.id == id
            &&& h.hu_number == trimmed(body.hu_number@)
            &&& h.description == trimmed(body.description@)
            &&& h.hu_type == trimmed(body.hu_type@)
            &&& h.status == trimmed(body.status@)
            &&& h.quantity == body.quantity@
            &&& h.unit_of_measure == trimmed(body.unit_of_measure@)
            &&& match batch {
                Some((b, number)) => h.batch_id == Some(b) && h.batch_number == number,
                None => h.batch_id == None::<u128> && h.batch_number == Seq::<char>::empty(),
            }
            &&& match location {
                Some((l, code)) => h.location_id == Some(l) && h.location_code == code,
                None => h.location_id == None::<u128> && h.location_code == Seq::<char>::empty(),
            }
            &&& h.created_at == now && h.updated_at == now
        }),
{
}

/// What `PATCH /api/handling-units/:id` stores: each text field sent
/// replaces the stored one, trimmed (the quantity as sent), and one not sent
/// keeps the stored value (trimmed); each link is kept (no change), removed
/// with its label emptied, or replaced together with the label found;
/// identity and creation time never change.
pub proof fn lemma_unit_patch_fields(
    cur: HandlingUnitView,
    body: UpdateHandlingUnitBody,
    batch: Option<Option<(u128, Seq<char>)>>,
    location: Option<Option<(u128, Seq<char>)>>,
    now: Timestamp,
)
    ensures
        ({
            let h = updated_unit_view(cur, body, batch, location, now);
            &&& match body.hu_number {
                Some(t) => h.hu_number == trimmed(t@),
                None => h.hu_number == trimmed(cur.hu_number),
            }
            &&& match body.description {
                Some(t) => h.description == trimmed(t@),
                None => h.description == trimmed(cur.description),
            }
            &&& match body.hu_type {
                Some(t) => h.hu_type == trimmed(t@),
                None => h.hu_type == trimmed(cur.hu_type),
            }
            &&& match body.status {
                Some(t) => h.status == trimmed(t@),
                None => h.status == trimmed(cur.status),
            }
            &&& match body.quantity {
                Some(t) => h.quantity == t@,
                None => h.quantity == cur.quantity,
            }
            &&& match body.unit_of_measure {
                Some(t) => h.unit_of_measure == trimmed(t@),
                None => h.unit_of_measure == trimmed(cur.unit_of_measure),
            }
            &&& match batch {
                None => h.batch_id == cur.batch_id && h.batch_number == cur.batch_number,
                Some(None) => h.batch_id == None::<u128> && h.batch_number == Seq::<char>::empty(),
                Some(Some((b, number))) => h.batch_id == Some(b) && h.batch_number == number,
            }
            &&& match location {
                None => h.location_id == cur.location_id && h.location_code == cur.location_code,
                Some(None) => h.location_id == None::<u128> && h.location_code == Seq::<char>::empty(),
                Some(Some((l, code))) => h.location_id == Some(l) && h.location_code == code,
            }
            &&& h.id == cur.id
            &&& h.created_at == cur.created_at
            &&& h.updated_at == now
        }),
{
}


/// How `POST /api/handling-units` answers: the batch field must be absent,
/// empty or a UUID, and a batch it names must exist; then the same for the
/// location; otherwise the unit is linked to what was named, with the batch
/// number and location code found (no link and an empty label for what was
/// not named).
pub proof fn lemma_unit_create_answers(
    body: CreateHandlingUnitBody,
    batch_found: Option<Seq<char>>,
    location_found: Option<Seq<char>>,
    id: u128,
    now: Timestamp,
)
    ensures
        ({
            let out = unit_create_outcome(body, batch_found, location_found, id, now);
            let b = new_ref_value(opt_view(body.batch_id));
            let l = new_ref_value(opt_view(body.location_id));
            let batch_ok = b == Some(None::<u128>) || (b matches Some(Some(_)) && batch_found is Some);
            let location_ok = l == Some(None::<u128>) || (l matches Some(Some(_)) && location_found is Some);
            &&& b is None ==> out == Err::<HandlingUnitView, ApiError>(ApiError::InvalidRef(RefField::BatchId))
            &&& ((b matches Some(Some(_))) && batch_found is None) ==> out == Err::<HandlingUnitView, ApiError>(
                ApiError::NotFound(Entity::Batch),
            )
            &&& (batch_ok && l is None) ==> out == Err::<HandlingUnitView, ApiError>(
                ApiError::InvalidRef(RefField::LocationId),
            )
            &&& (batch_ok && (l matches Some(Some(_))) && location_found is None) ==> out == Err::<
                HandlingUnitView,
                ApiError,
            >(ApiError::NotFound(Entity::Location))
            &&& (batch_ok && location_ok) ==> (out matches Ok(h) && h.id == id && h.hu_number == trimmed(
                body.hu_number@,
            ) && h.description == trimmed(body.description@) && h.hu_type == trimmed(body.hu_type@)
                && h.status == trimmed(body.status@) && h.quantity == body.quantity@ && h.unit_of_measure
                == trimmed(body.unit_of_measure@) && h.batch_id == b->0 && h.batch_number == (if b->0 is Some {
                batch_found->0
            } else {
                Seq::<char>::empty()
            }) && h.location_id == l->0 && h.location_code == (if l->0 is Some {
                location_found->0
            } else {
                Seq::<char>::empty()
            }) && h.created_at == now && h.updated_at == now)
        }),
{
}

/// How `PATCH /api/handling-units/:id` answers: a missing unit is refused
/// first; then the batch field must be absent, empty or a UUID, and a batch
/// it names must exist; then the same for the location; otherwise the patch
/// applies, each link kept (field absent), removed (`""`) or replaced by the
/// record named with the label found.
pub proof fn lemma_unit_patch_answers(
    current: Option<HandlingUnitView>,
    body: UpdateHandlingUnitBody,
    batch_found: Option<Seq<char>>,
    location_found: Option<Seq<char>>,
    now: Timestamp,
)
    ensures
        ({
            let out = unit_patch_outcome(current, body, batch_found, location_found, now);
            let bc = ref_change_of(opt_view(body.batch_id));
            let lc = ref_change_of(opt_view(body.location_id));
            let batch_ok = bc is Some && (bc->0 is Assign ==> batch_found is Some);
            let location_ok = lc is Some && (lc->0 is Assign ==> location_found is Some);
            let batch_link: Option<Option<(u128, Seq<char>)>> = match bc {
                Some(RefChange::Assign(v)) => Some(Some((v, batch_found->0))),
                Some(RefChange::Clear) => Some(None),
                _ => None,
            };
            let location_link: Option<Option<(u128, Seq<char>)>> = match lc {
                Some(RefChange::Assign(v)) => Some(Some((v, location_found->0))),
                Some(RefChange::Clear) => Some(None),
                _ => None,
            };
            &&& current is None ==> out == Err::<HandlingUnitView, ApiError>(
                ApiError::NotFound(Entity::HandlingUnit),
            )
            &&& (current is Some && bc is None) ==> out == Err::<HandlingUnitView, ApiError>(
                ApiError::InvalidRef(RefField::BatchId),
            )
            &&& (current is Some && (bc matches Some(RefChange::Assign(_))) && batch_found is None) ==> out == Err::<
                HandlingUnitView,
                ApiError,
            >(ApiError::NotFound(Entity::Batch))
            &&& (current is Some && batch_ok && lc is None) ==> out == Err::<HandlingUnitView, ApiError>(
                ApiError::InvalidRef(RefField::LocationId),
            )
            &&& (current is Some && batch_ok && (lc matches Some(RefChange::Assign(_))) && location_found is None)
                ==> out == Err::<HandlingUnitView, ApiError>(ApiError::NotFound(Entity::Location))
            &&& (current is Some && batch_ok && location_ok) ==> out == Ok::<HandlingUnitView, ApiError>(
                updated_unit_view(current->0, body, batch_link, location_link, now),
            )
        }),
{
}


/// A handling unit as shown reads back as the unit stored: its id, batch and
/// location parse back and every other field is the stored one.
pub proof fn lemma_unit_shown(r: HandlingUnitResponse, h: HandlingUnitView)
    requires
        shows_unit(r, h),
    ensures
        uuid_of_text(r.id@) == Some(h.id),
        match h.batch_id {
            Some(x) => r.batch_id matches Some(t) && uuid_of_text(t@) == Some(x),
            None => r.batch_id is None,
        },
        match h.location_id {
            Some(x) => r.location_id matches Some(t) && uuid_of_text(t@) == Some(x),
            None => r.location_id is None,
        },
        r.hu_number@ == h.hu_number,
        r.description@ == h.description,
        r.hu_type@ == h.hu_type,
        r.status@ == h.status,
        r.batch_number@ == h.batch_number,
        r.quantity@ == h.quantity,
        r.unit_of_measure@ == h.unit_of_measure,
        r.location_code@ == h.location_code,
{
    lemma_id_text_parses(h.id);
    if let Some(b) = h.batch_id {
        lemma_id_text_parses(b);
    }
    if let Some(l) = h.location_id {
        lemma_id_text_parses(l);
    }
}


/// What the stored unit, links and lookups are taken to be: the unit as
/// stored, or none; a link with its id and label as read; a link change
/// keeping (nothing), removing, or pointing to a link; a label found as
/// read.
pub proof fn lemma_unit_inputs_read(h: Option<HandlingUnitModel>, k: Option<Linked>, c: LinkChange, f: Option<String>)
    ensures
        match h {
            Some(x) => unit_view_opt(h) == Some(x@),
            None => unit_view_opt(h) is None,
        },
        match k {
            Some(l) => linked_view(k) == Some((l.id, l.label@)),
            None => linked_view(k) is None,
        },
        match c {
            LinkChange::Keep => link_change_view(c) is None,
            LinkChange::Clear => link_change_view(c) == Some(None::<(u128, Seq<char>)>),
            LinkChange::To(l) => link_change_view(c) == Some(Some((l.id, l.label@))),
        },
        match f {
            Some(s) => label_view(f) == Some(s@),
            None => label_view(f) is None,
        },
{
}

} // verus!
