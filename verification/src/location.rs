//! Locations: where material is kept, arranged in a hierarchy by an
//! optional parent location.

use vstd::prelude::*;
use vstd::string::*;
use crate::error::{ApiError, Entity, RefField};
use crate::ident::{lemma_id_text_parses, filter_id_value, resolve_filter_id, id_string, id_text, new_ref_value, opt_id_string, opt_id_text, opt_id_view, ref_change_of, uuid_of_text, resolve_new_ref, resolve_ref_change, RefChange};
use crate::material::patched_flag;
use crate::paging::{limit_or, page_or_first, saturating_page, skipped, wrapped, saturating_window, Window};
use crate::text::{lemma_trim_idempotent, opt_view, patch_trimmed, patched, trim_owned, trimmed};
use crate::time::Timestamp;

verus! {

/// A location as stored.
#[derive(Debug)]
pub struct LocationModel {
    pub id: u128,
    /// Unique short code, e.g. `WH-A1-R3`.
    pub location_code: String,
    pub name: String,
    pub description: String,
    /// warehouse | production | lab | quarantine | staging | dispatch
    pub location_type: String,
    pub parent_location_id: Option<u128>,
    pub is_active: bool,
    pub created_at: Timestamp,
    pub updated_at: Timestamp,
}

pub struct LocationView {
    pub id: u128,
    pub location_code: Seq<char>,
    pub name: Seq<char>,
    pub description: Seq<char>,
    pub location_type: Seq<char>,
    pub parent_location_id: Option<u128>,
    pub is_active: bool,
    pub created_at: Timestamp,
    pub updated_at: Timestamp,
}

impl View for LocationModel {
    type V = LocationView;

    open spec fn view(&self) -> LocationView {
        LocationView {
            id: self.id,
            location_code: self.location_code@,
            name: self.name@,
            description: self.description@,
            location_type: self.location_type@,
            parent_location_id: self.parent_location_id,
            is_active: self.is_active,
            created_at: self.created_at,
            updated_at: self.updated_at,
        }
    }
}

/// Query of `GET /api/locations`.
#[derive(Debug)]
pub struct LocationFilter {
    pub page: Option<usize>,
    pub limit: Option<usize>,
    pub location_type: Option<String>,
    pub is_active: Option<bool>,
    pub parent_id: Option<String>,
}

/// Which locations a list request selects: those that meet every condition
/// it holds.
#[derive(Debug)]
pub struct LocationQuery {
    pub location_type: Option<String>,
    pub is_active: Option<bool>,
    pub parent_location_id: Option<u128>,
}

impl LocationQuery {
    /// Whether the query selects a location.
    pub open spec fn admits(self, l: LocationView) -> bool {
        &&& (self.location_type matches Some(t) ==> l.location_type == t@)
        &&& (self.is_active matches Some(a) ==> l.is_active == a)
        &&& (self.parent_location_id matches Some(p) ==> l.parent_location_id == Some(p))
    }
}

impl LocationFilter {
    /// 50 locations a page by default; page 0 is page 1.
    pub fn window(&self) -> (r: Window)
        ensures
            r.limit == limit_or(self.limit, 50) as i64,
            r.offset == wrapped(saturating_page(self.page), limit_or(self.limit, 50)) as i64,
            skipped(saturating_page(self.page), limit_or(self.limit, 50)) <= usize::MAX ==> r.offset == skipped(
                saturating_page(self.page),
                limit_or(self.limit, 50),
            ) as i64,
    {
        saturating_window(self.page, self.limit, 50)
    }

    /// Each filter given restricts the list: the type, the activity flag and
    /// the parent, which must be a UUID.
    pub fn query(&self) -> (r: Result<LocationQuery, ApiError>)
        ensures
            match filter_id_value(opt_view(self.parent_id)) {
                Some(p) => r matches Ok(q) && q.parent_location_id == p && opt_view(q.location_type)
                    == opt_view(self.location_type) && q.is_active == self.is_active,
                None => r matches Err(ApiError::InvalidRef(RefField::ParentLocationId)),
            },
    {
        let parent = match resolve_filter_id(&self.parent_id, RefField::ParentLocationId) {
            Ok(p) => p,
            Err(e) => return Err(e),
        };
        let location_type = match &self.location_type {
            Some(t) => Some(t.clone()),
            None => None,
        };
        Ok(LocationQuery { location_type, is_active: self.is_active, parent_location_id: parent })
    }
}

/// Body of `POST /api/locations`.
#[derive(Debug)]
pub struct CreateLocationBody {
    pub location_code: String,
    pub name: String,
    pub description: String,
    pub location_type: String,
    pub parent_location_id: Option<String>,
    pub is_active: bool,
}

/// Body of `PATCH /api/locations/:id`; a parent of `""` removes the parent.
#[derive(Debug)]
pub struct UpdateLocationBody {
    pub location_code: Option<String>,
    pub name: Option<String>,
    pub description: Option<String>,
    pub location_type: Option<String>,
    pub parent_location_id: Option<String>,
    pub is_active: Option<bool>,
}

/// The location that `POST /api/locations` stores: text fields trimmed.
pub open spec fn new_location_view(body: CreateLocationBody, parent: Option<u128>, id: u128, now: Timestamp) -> LocationView {
    LocationView {
        id,
        location_code: trimmed(body.location_code@),
        name: trimmed(body.name@),
        description: trimmed(body.description@),
        location_type: trimmed(body.location_type@),
        parent_location_id: parent,
        is_active: body.is_active,
        created_at: now,
        updated_at: now,
    }
}

/// `POST /api/locations`: a parent that is neither absent, empty nor a UUID
/// is refused.
pub fn create_location(body: &CreateLocationBody, id: u128, now: Timestamp) -> (r: Result<
    LocationModel,
    ApiError,
>)
    ensures
        match new_ref_value(opt_view(body.parent_location_id)) {
            Some(p) => r matches Ok(l) && l@ == new_location_view(*body, p, id, now),
            None => r matches Err(ApiError::InvalidRef(RefField::ParentLocationId)),
        },
{
    let parent = match resolve_new_ref(&body.parent_location_id, RefField::ParentLocationId) {
        Ok(p) => p,
        Err(e) => return Err(e),
    };
    Ok(
        LocationModel {
            id,
            location_code: trim_owned(body.location_code.as_str()),
            name: trim_owned(body.name.as_str()),
            description: trim_owned(body.description.as_str()),
            location_type: trim_owned(body.location_type.as_str()),
            parent_location_id: parent,
            is_active: body.is_active,
            created_at: now,
            updated_at: now,
        },
    )
}

/// The location after `PATCH /api/locations/:id`.
pub open spec fn updated_location_view(cur: LocationView, body: UpdateLocationBody, change: RefChange, now: Timestamp) -> LocationView {
    LocationView {
        location_code: trimmed(patched(opt_view(body.location_code), cur.location_code)),
        name: trimmed(patched(opt_view(body.name), cur.name)),
        description: trimmed(patched(opt_view(body.description), cur.description)),
        location_type: trimmed(patched(opt_view(body.location_type), cur.location_type)),
        parent_location_id: change.applied(cur.parent_location_id),
        is_active: patched_flag(body.is_active, cur.is_active),
        updated_at: now,
        ..cur
    }
}

/// `PATCH /api/locations/:id`: a parent that is neither absent, empty nor a
/// UUID is refused.
pub fn update_location(current: &LocationModel, body: &UpdateLocationBody, now: Timestamp) -> (r:
    Result<LocationModel, ApiError>)
    ensures
        match ref_change_of(opt_view(body.parent_location_id)) {
            Some(c) => r matches Ok(l) && l@ == updated_location_view(current@, *body, c, now),
            None => r matches Err(ApiError::InvalidRef(RefField::ParentLocationId)),
        },
{
    let change = match resolve_ref_change(&body.parent_location_id, RefField::ParentLocationId) {
        Ok(c) => c,
        Err(e) => return Err(e),
    };
    Ok(
        LocationModel {
            id: current.id,
            location_code: patch_trimmed(&body.location_code, &current.location_code),
            name: patch_trimmed(&body.name, &current.name),
            description: patch_trimmed(&body.description, &current.description),
            location_type: patch_trimmed(&body.location_type, &current.location_type),
            parent_location_id: change.apply(current.parent_location_id),
            is_active: match body.is_active {
                Some(b) => b,
                None => current.is_active,
            },
            created_at: current.created_at,
            updated_at: now,
        },
    )
}

pub open spec fn location_view_opt(l: Option<LocationModel>) -> Option<LocationView> {
    match l {
        Some(m) => Some(m@),
        None => None,
    }
}

/// `PATCH /api/locations/:id`, given the stored location (if any): a
/// missing location is refused before the parent is read.
pub fn update_location_request(current: &Option<LocationModel>, body: &UpdateLocationBody, now: Timestamp) -> (r:
    Result<LocationModel, ApiError>)
    ensures
        match location_view_opt(*current) {
            None => r matches Err(ApiError::NotFound(Entity::Location)),
            Some(cur) => match ref_change_of(opt_view(body.parent_location_id)) {
                Some(c) => r matches Ok(l) && l@ == updated_location_view(cur, *body, c, now),
                None => r matches Err(ApiError::InvalidRef(RefField::ParentLocationId)),
            },
        },
{
    match current {
        Some(c) => update_location(c, body, now),
        None => Err(ApiError::NotFound(Entity::Location)),
    }
}

/// A location as the API shows it.
#[derive(Debug)]
pub struct LocationResponse {
    pub id: String,
    pub location_code: String,
    pub name: String,
    pub description: String,
    pub location_type: String,
    pub parent_location_id: Option<String>,
    pub is_active: bool,
    pub created_at: String,
    pub updated_at: String,
}

pub open spec fn shows_location(r: LocationResponse, l: LocationView) -> bool {
    &&& r.id@ == id_text(l.id)
    &&& r.location_code@ == l.location_code
    &&& r.name@ == l.name
    &&& r.description@ == l.description
    &&& r.location_type@ == l.location_type
    &&& opt_id_view(r.parent_location_id) == opt_id_text(l.parent_location_id)
    &&& r.is_active == l.is_active
    &&& r.created_at@ == l.created_at.text()
    &&& r.updated_at@ == l.updated_at.text()
}

impl LocationResponse {
    pub fn from(l: &LocationModel) -> (r: LocationResponse)
        ensures
            shows_location(r, l@),
    {
        LocationResponse {
            id: id_string(l.id),
            location_code: l.location_code.clone(),
            name: l.name.clone(),
            description: l.description.clone(),
            location_type: l.location_type.clone(),
            parent_location_id: opt_id_string(l.parent_location_id),
            is_active: l.is_active,
            created_at: l.created_at.to_rfc3339(),
            updated_at: l.updated_at.to_rfc3339(),
        }
    }
}

/// The items of `GET /api/locations`, in the order of the rows.
pub fn location_responses(rows: &Vec<LocationModel>) -> (r: Vec<LocationResponse>)
    ensures
        r.len() == rows.len(),
        forall|i: int| 0 <= i < rows.len() ==> shows_location(#[trigger] r[i], rows[i]@),
{
    let mut r: Vec<LocationResponse> = Vec::new();
    for i in 0..rows.len()
        invariant
            r.len() == i,
            forall|j: int| 0 <= j < i ==> shows_location(#[trigger] r[j], rows[j]@),
    {
        r.push(LocationResponse::from(&rows[i]));
    }
    r
}

/// Sending a parent of `""` detaches a location from its parent; leaving
/// the parent out keeps it; sending a UUID moves the location under it.
pub proof fn lemma_parent_patch(cur: LocationView, body: UpdateLocationBody, now: Timestamp)
    ensures
        body.parent_location_id is None ==> ref_change_of(opt_view(body.parent_location_id))
            == Some(RefChange::Keep) && updated_location_view(cur, body, RefChange::Keep, now).parent_location_id
            == cur.parent_location_id,
        (body.parent_location_id matches Some(t) && t@.len() == 0) ==> ref_change_of(
            opt_view(body.parent_location_id),
        ) == Some(RefChange::Clear) && updated_location_view(cur, body, RefChange::Clear, now).parent_location_id
            is None,
        (body.parent_location_id is Some && uuid_of_text(body.parent_location_id->0@) is Some)
            ==> updated_location_view(
            cur,
            body,
            ref_change_of(opt_view(body.parent_location_id))->0,
            now,
        ).parent_location_id == uuid_of_text(body.parent_location_id->0@),
{
    if body.parent_location_id is Some {
        let t = body.parent_location_id->0;
        if t@.len() == 0 {
            assert(uuid_of_text(t@) is None);
        }
    }
}

/// A patch that sends nothing changes nothing of a location as created, but
/// the time of its last update.
pub proof fn lemma_empty_patch_keeps_new_location(
    body: CreateLocationBody,
    parent: Option<u128>,
    id: u128,
    t0: Timestamp,
    patch: UpdateLocationBody,
    t1: Timestamp,
)
    requires
        patch.location_code is None,
        patch.name is None,
        patch.description is None,
        patch.location_type is None,
        patch.parent_location_id is None,
        patch.is_active is None,
    ensures
        updated_location_view(new_location_view(body, parent, id, t0), patch, RefChange::Keep, t1)
            == (LocationView { updated_at: t1, ..new_location_view(body, parent, id, t0) }),
{
    lemma_trim_idempotent(body.location_code@);
    lemma_trim_idempotent(body.name@);
    lemma_trim_idempotent(body.description@);
    lemma_trim_idempotent(body.location_type@);
}


/// What `POST /api/locations` stores: the text fields sent, trimmed; the
/// parent resolved; the activity flag sent; made and updated at `now`.
pub proof fn lemma_new_location_fields(body: CreateLocationBody, parent: Option<u128>, id: u128, now: Timestamp)
    ensures
        ({
            let l = new_location_view(body, parent, id, now);
            &&& l.id == id
            &&& l.location_code == trimmed(body.location_code@)
            &&& l.name == trimmed(body.name@)
            &&& l.description == trimmed(body.description@)
            &&& l.location_type == trimmed(body.location_type@)
            &&& l.parent_location_id == parent
            &&& l.is_active == body.is_active
            &&& l.created_at == now && l.updated_at == now
        }),
{
}

/// What `PATCH /api/locations/:id` stores: each text field sent replaces the
/// stored one, trimmed, and one not sent keeps the stored value (trimmed);
/// a flag sent replaces the stored one; the parent is kept, removed or
/// replaced as the change says; identity and creation time never change.
pub proof fn lemma_location_patch_fields(cur: LocationView, body: UpdateLocationBody, change: RefChange, now: Timestamp)
    ensures
        ({
            let l = updated_location_view(cur, body, change, now);
            &&& match body.location_code {
                Some(t) => l.location_code == trimmed(t@),
                None => l.location_code == trimmed(cur.location_code),
            }
            &&& match body.name {
                Some(t) => l.name == trimmed(t@),
                None => l.name == trimmed(cur.name),
            }
            &&& match body.description {
                Some(t) => l.description == trimmed(t@),
                None => l.description == trimmed(cur.description),
            }
            &&& match body.location_type {
                Some(t) => l.location_type == trimmed(t@),
                None => l.location_type == trimmed(cur.location_type),
            }
            &&& match body.is_active {
                Some(a) => l.is_active == a,
                None => l.is_active == cur.is_active,
            }
            &&& match change {
                RefChange::Keep => l.parent_location_id == cur.parent_location_id,
                RefChange::Clear => l.parent_location_id == None::<u128>,
                RefChange::Assign(p) => l.parent_location_id == Some(p),
            }
            &&& l.id == cur.id
            &&& l.created_at == cur.created_at
            &&& l.updated_at == now
        }),
{
}


/// A location as shown reads back as the location stored: its id and parent
/// parse back and every other field is the stored one.
pub proof fn lemma_location_shown(r: LocationResponse, l: LocationView)
    requires
        shows_location(r, l),
    ensures
        uuid_of_text(r.id@) == Some(l.id),
        match l.parent_location_id {
            Some(x) => r.parent_location_id matches Some(t) && uuid_of_text(t@) == Some(x),
            None => r.parent_location_id is None,
        },
        r.location_code@ == l.location_code,
        r.name@ == l.name,
        r.description@ == l.description,
        r.location_type@ == l.location_type,
        r.is_active == l.is_active,
{
    lemma_id_text_parses(l.id);
    if let Some(p) = l.parent_location_id {
        lemma_id_text_parses(p);
    }
}


/// The stored location is taken as it is stored, or as none.
pub proof fn lemma_location_input_read(l: Option<LocationModel>)
    ensures
        match l {
            Some(x) => location_view_opt(l) == Some(x@),
            None => location_view_opt(l) is None,
        },
{
}

} // verus!
