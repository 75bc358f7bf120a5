//! Process orders (electronic batch records): creation against a workflow,
//! edits, and the execution life cycle
//! `pending -> in_progress -> completed`, with `cancelled` reachable from the
//! first two, and an audit record for every confirmed step.

use vstd::prelude::*;
use vstd::string::*;
use crate::error::{ApiError, Entity, RefField};
use crate::ident::{lemma_id_text_parses, id_string, id_text, opt_id_string, opt_id_text, opt_id_view, parse_ref, uuid_of_text};
use crate::paging::{limit_or, page_or_first, saturating_page, skipped, wrapped, strict_window, Window};
use crate::text::{lemma_trim_idempotent, opt_view, patch_kept, patch_trimmed, patched, trim_owned, trimmed};
use crate::time::Timestamp;

verus! {

pub open spec fn pending() -> Seq<char> {
    "pending"@
}

pub open spec fn in_progress() -> Seq<char> {
    "in_progress"@
}

pub open spec fn completed() -> Seq<char> {
    "completed"@
}

pub open spec fn cancelled() -> Seq<char> {
    "cancelled"@
}

/// A process order as stored.
#[derive(Debug)]
pub struct ProcessOrderModel {
    pub id: u128,
    pub order_number: String,
    pub description: String,
    pub workflow_id: Option<u128>,
    /// The workflow's name when the order was made or re-pointed.
    pub workflow_name: String,
    pub status: String,
    pub assigned_to: String,
    pub scheduled_date: String,
    pub current_step: i32,
    pub total_steps: i32,
    pub created_at: Timestamp,
    pub updated_at: Timestamp,
}

/// A process order as the contracts see it.
pub struct OrderView {
    pub id: u128,
    pub order_number: Seq<char>,
    pub description: Seq<char>,
    pub workflow_id: Option<u128>,
    pub workflow_name: Seq<char>,
    pub status: Seq<char>,
    pub assigned_to: Seq<char>,
    pub scheduled_date: Seq<char>,
    pub current_step: i32,
    pub total_steps: i32,
    pub created_at: Timestamp,
    pub updated_at: Timestamp,
}

impl View for ProcessOrderModel {
    type V = OrderView;

    open spec fn view(&self) -> OrderView {
        OrderView {
            id: self.id,
            order_number: self.order_number@,
            description: self.description@,
            workflow_id: self.workflow_id,
            workflow_name: self.workflow_name@,
            status: self.status@,
            assigned_to: self.assigned_to@,
            scheduled_date: self.scheduled_date@,
            current_step: self.current_step,
            total_steps: self.total_steps,
            created_at: self.created_at,
            updated_at: self.updated_at,
        }
    }
}

impl ProcessOrderModel {
    /// A field-by-field copy.
    pub fn duplicate(&self) -> (r: ProcessOrderModel)
        ensures
            r@ == self@,
    {
        ProcessOrderModel {
            id: self.id,
            order_number: self.order_number.clone(),
            description: self.description.clone(),
            workflow_id: self.workflow_id,
            workflow_name: self.workflow_name.clone(),
            status: self.status.clone(),
            assigned_to: self.assigned_to.clone(),
            scheduled_date: self.scheduled_date.clone(),
            current_step: self.current_step,
            total_steps: self.total_steps,
            created_at: self.created_at,
            updated_at: self.updated_at,
        }
    }
}

/// One confirmed step of an order: the audit record.
#[derive(Debug)]
pub struct ProcessOrderExecutionModel {
    pub id: u128,
    pub process_order_id: u128,
    pub node_canvas_id: String,
    pub node_type: String,
    pub node_label: String,
    pub step_number: i32,
    pub confirmed_by: String,
    pub notes: String,
    pub confirmed_at: Timestamp,
}

pub struct ExecutionView {
    pub id: u128,
    pub process_order_id: u128,
    pub node_canvas_id: Seq<char>,
    pub node_type: Seq<char>,
    pub node_label: Seq<char>,
    pub step_number: i32,
    pub confirmed_by: Seq<char>,
    pub notes: Seq<char>,
    pub confirmed_at: Timestamp,
}

impl View for ProcessOrderExecutionModel {
    type V = ExecutionView;

    open spec fn view(&self) -> ExecutionView {
        ExecutionView {
            id: self.id,
            process_order_id: self.process_order_id,
            node_canvas_id: self.node_canvas_id@,
            node_type: self.node_type@,
            node_label: self.node_label@,
            step_number: self.step_number,
            confirmed_by: self.confirmed_by@,
            notes: self.notes@,
            confirmed_at: self.confirmed_at,
        }
    }
}

/// Query of `GET /api/orders`: paging and an optional status.
#[derive(Debug)]
pub struct OrderFilterOptions {
    pub page: Option<usize>,
    pub limit: Option<usize>,
    pub status: Option<String>,
}

/// Which orders a list request selects.
#[derive(Debug)]
pub enum OrderQuery {
    All,
    WithStatus(String),
}

impl OrderFilterOptions {
    /// A status, when given, selects the orders in it.
    pub fn query(&self) -> (r: OrderQuery)
        ensures
            match self.status {
                Some(s) => r matches OrderQuery::WithStatus(t) && t@ == s@,
                None => r matches OrderQuery::All,
            },
    {
        match &self.status {
            Some(s) => OrderQuery::WithStatus(s.clone()),
            None => OrderQuery::All,
        }
    }

    /// 50 orders a page by default.
    pub fn window(&self) -> (r: Window)
        ensures
            r.limit == limit_or(self.limit, 50) as i64,
            r.offset == wrapped(page_or_first(self.page), limit_or(self.limit, 50)) as i64,
            page_or_first(self.page) >= 1 && skipped(page_or_first(self.page), limit_or(self.limit, 50)) <= usize::MAX
                ==> r.offset == skipped(page_or_first(self.page), limit_or(self.limit, 50)) as i64,
    {
        strict_window(self.page, self.limit, 50)
    }
}

/// Body of `POST /api/orders`.
#[derive(Debug)]
pub struct CreateProcessOrderBody {
    pub order_number: String,
    pub description: String,
    pub workflow_id: String,
    pub assigned_to: String,
    pub scheduled_date: String,
}

/// Body of `PATCH /api/orders/:id`: only the fields sent change.
#[derive(Debug)]
pub struct UpdateProcessOrderBody {
    pub order_number: Option<String>,
    pub description: Option<String>,
    pub workflow_id: Option<String>,
    pub assigned_to: Option<String>,
    pub scheduled_date: Option<String>,
    pub status: Option<String>,
}

/// Body of `POST /api/orders/:id/start`.
#[derive(Debug)]
pub struct StartProcessOrderBody {
    pub total_steps: i32,
}

/// Body of `POST /api/orders/:id/steps`.
#[derive(Debug)]
pub struct ConfirmStepBody {
    pub node_canvas_id: String,
    pub node_type: String,
    pub node_label: String,
    pub step_number: i32,
    pub confirmed_by: String,
    pub notes: String,
}

impl CreateProcessOrderBody {
    /// The workflow the new order follows.
    pub fn workflow_ref(&self) -> (r: Result<u128, ApiError>)
        ensures
            match uuid_of_text(self.workflow_id@) {
                Some(v) => r == Ok::<u128, ApiError>(v),
                None => r == Err::<u128, ApiError>(ApiError::InvalidRef(RefField::WorkflowId)),
            },
    {
        parse_ref(self.workflow_id.as_str(), RefField::WorkflowId)
    }
}

impl UpdateProcessOrderBody {
    /// The workflow the order is re-pointed to, if the patch names one.
    pub fn workflow_ref(&self) -> (r: Result<Option<u128>, ApiError>)
        ensures
            match self.workflow_id {
                None => r == Ok::<Option<u128>, ApiError>(None),
                Some(t) => match uuid_of_text(t@) {
                    Some(v) => r == Ok::<Option<u128>, ApiError>(Some(v)),
                    None => r == Err::<Option<u128>, ApiError>(
                        ApiError::InvalidRef(RefField::WorkflowId),
                    ),
                },
            },
    {
        match &self.workflow_id {
            None => Ok(None),
            Some(t) => match parse_ref(t.as_str(), RefField::WorkflowId) {
                Ok(v) => Ok(Some(v)),
                Err(e) => Err(e),
            },
        }
    }
}

/// The order that `POST /api/orders` stores: text fields trimmed, the
/// workflow's current name copied in, pending, with no steps.
pub open spec fn new_order_view(
    body: CreateProcessOrderBody,
    workflow_id: u128,
    workflow_name: Seq<char>,
    id: u128,
    now: Timestamp,
) -> OrderView {
    OrderView {
        id,
        order_number: trimmed(body.order_number@),
        description: trimmed(body.description@),
        workflow_id: Some(workflow_id),
        workflow_name,
        status: pending(),
        assigned_to: trimmed(body.assigned_to@),
        scheduled_date: trimmed(body.scheduled_date@),
        current_step: 0,
        total_steps: 0,
        created_at: now,
        updated_at: now,
    }
}

/// The order that `POST /api/orders` stores.
pub fn create_order(
    body: &CreateProcessOrderBody,
    workflow_id: u128,
    workflow_name: String,
    id: u128,
    now: Timestamp,
) -> (r: ProcessOrderModel)
    requires
        uuid_of_text(body.workflow_id@) == Some(workflow_id),
    ensures
        r@ == new_order_view(*body, workflow_id, workflow_name@, id, now),
{
    ProcessOrderModel {
        id,
        order_number: trim_owned(body.order_number.as_str()),
        description: trim_owned(body.description.as_str()),
        workflow_id: Some(workflow_id),
        workflow_name,
        status: String::from_str("pending"),
        assigned_to: trim_owned(body.assigned_to.as_str()),
        scheduled_date: trim_owned(body.scheduled_date.as_str()),
        current_step: 0,
        total_steps: 0,
        created_at: now,
        updated_at: now,
    }
}

/// The order after `PATCH /api/orders/:id`: sent text fields replace the
/// stored ones (trimmed, except the status); `workflow` is the workflow the
/// patch re-points to with its current name, if any; progress is untouched.
pub open spec fn updated_order_view(
    cur: OrderView,
    body: UpdateProcessOrderBody,
    workflow: Option<(u128, Seq<char>)>,
    now: Timestamp,
) -> OrderView {
    OrderView {
        order_number: trimmed(patched(opt_view(body.order_number), cur.order_number)),
        description: trimmed(patched(opt_view(body.description), cur.description)),
        workflow_id: match workflow {
            Some(w) => Some(w.0),
            None => cur.workflow_id,
        },
        workflow_name: match workflow {
            Some(w) => w.1,
            None => cur.workflow_name,
        },
        status: patched(opt_view(body.status), cur.status),
        assigned_to: trimmed(patched(opt_view(body.assigned_to), cur.assigned_to)),
        scheduled_date: trimmed(patched(opt_view(body.scheduled_date), cur.scheduled_date)),
        updated_at: now,
        ..cur
    }
}

pub open spec fn workflow_view(w: Option<(u128, String)>) -> Option<(u128, Seq<char>)> {
    match w {
        Some(p) => Some((p.0, p.1@)),
        None => None,
    }
}

/// The order that `PATCH /api/orders/:id` stores.
pub fn update_order(
    current: &ProcessOrderModel,
    body: &UpdateProcessOrderBody,
    workflow: Option<(u128, String)>,
    now: Timestamp,
) -> (r: ProcessOrderModel)
    requires
        match body.workflow_id {
            None => workflow is None,
            Some(t) => workflow matches Some(w) && uuid_of_text(t@) == Some(w.0),
        },
    ensures
        r@ == updated_order_view(current@, *body, workflow_view(workflow), now),
        match workflow {
            Some(w) => r.workflow_id == Some(w.0) && r.workflow_name@ == w.1@,
            None => r.workflow_id == current.workflow_id && r.workflow_name@ == current.workflow_name@,
        },
{
    let (workflow_id, workflow_name) = match workflow {
        Some(w) => (Some(w.0), w.1),
        None => (current.workflow_id, current.workflow_name.clone()),
    };
    ProcessOrderModel {
        id: current.id,
        order_number: patch_trimmed(&body.order_number, &current.order_number),
        description: patch_trimmed(&body.description, &current.description),
        workflow_id,
        workflow_name,
        status: patch_kept(&body.status, &current.status),
        assigned_to: patch_trimmed(&body.assigned_to, &current.assigned_to),
        scheduled_date: patch_trimmed(&body.scheduled_date, &current.scheduled_date),
        current_step: current.current_step,
        total_steps: current.total_steps,
        created_at: current.created_at,
        updated_at: now,
    }
}

pub open spec fn order_view_opt(o: Option<ProcessOrderModel>) -> Option<OrderView> {
    match o {
        Some(m) => Some(m@),
        None => None,
    }
}

/// `start`: a pending order goes in progress with `total` steps to do and
/// none done; anything else is refused.
pub open spec fn started(o: Option<OrderView>, total: i32, now: Timestamp) -> Option<OrderView> {
    match o {
        Some(v) => if v.status == pending() {
            Some(
                OrderView {
                    status: in_progress(),
                    total_steps: total,
                    current_step: 0,
                    updated_at: now,
                    ..v
                },
            )
        } else {
            None
        },
        None => None,
    }
}

/// `complete`: an order in progress is completed; anything else is refused.
pub open spec fn completed_order(o: Option<OrderView>, now: Timestamp) -> Option<OrderView> {
    match o {
        Some(v) => if v.status == in_progress() {
            Some(OrderView { status: completed(), updated_at: now, ..v })
        } else {
            None
        },
        None => None,
    }
}

/// `cancel`: a pending order or one in progress is cancelled; anything else
/// is refused.
pub open spec fn cancelled_order(o: Option<OrderView>, now: Timestamp) -> Option<OrderView> {
    match o {
        Some(v) => if v.status == pending() || v.status == in_progress() {
            Some(OrderView { status: cancelled(), updated_at: now, ..v })
        } else {
            None
        },
        None => None,
    }
}

/// The audit record of a confirmed step.
pub open spec fn execution_view(
    order: u128,
    body: ConfirmStepBody,
    id: u128,
    confirmed_at: Timestamp,
) -> ExecutionView {
    ExecutionView {
        id,
        process_order_id: order,
        node_canvas_id: body.node_canvas_id@,
        node_type: body.node_type@,
        node_label: body.node_label@,
        step_number: body.step_number,
        confirmed_by: body.confirmed_by@,
        notes: body.notes@,
        confirmed_at,
    }
}

/// A confirmed step advances the order's progress to that step; progress
/// never moves back, so a step below the current one leaves it as it is.
pub open spec fn stepped(v: OrderView, step: i32, now: Timestamp) -> OrderView {
    OrderView { current_step: if step > v.current_step { step } else { v.current_step }, updated_at: now, ..v }
}

fn status_is(m: &ProcessOrderModel, which: &str) -> (r: bool)
    ensures
        r == (m.status@ == which@),
{
    m.status == String::from_str(which)
}

fn restatus(m: &ProcessOrderModel, status: &str, now: Timestamp) -> (r: ProcessOrderModel)
    ensures
        r@ == (OrderView { status: status@, updated_at: now, ..m@ }),
{
    let mut r = m.duplicate();
    r.status = String::from_str(status);
    r.updated_at = now;
    r
}

/// `POST /api/orders/:id/start`: records the number of steps and starts a
/// pending order; `NotPending` when the order is missing or not pending.
pub fn start_order(current: &Option<ProcessOrderModel>, body: &StartProcessOrderBody, now: Timestamp) -> (r:
    Result<ProcessOrderModel, ApiError>)
    ensures
        match started(order_view_opt(*current), body.total_steps, now) {
            Some(v) => r matches Ok(m) && m@ == v,
            None => r matches Err(ApiError::NotPending),
        },
{
    match current {
        Some(m) => {
            if status_is(m, "pending") {
                let mut r = restatus(m, "in_progress", now);
                r.total_steps = body.total_steps;
                r.current_step = 0;
                Ok(r)
            } else {
                Err(ApiError::NotPending)
            }
        },
        None => Err(ApiError::NotPending),
    }
}

/// `POST /api/orders/:id/complete`: an order in progress is completed;
/// `CannotComplete` when it is missing or not in progress.
pub fn complete_order(current: &Option<ProcessOrderModel>, now: Timestamp) -> (r: Result<
    ProcessOrderModel,
    ApiError,
>)
    ensures
        match completed_order(order_view_opt(*current), now) {
            Some(v) => r matches Ok(m) && m@ == v,
            None => r matches Err(ApiError::CannotComplete),
        },
{
    match current {
        Some(m) => {
            if status_is(m, "in_progress") {
                Ok(restatus(m, "completed", now))
            } else {
                Err(ApiError::CannotComplete)
            }
        },
        None => Err(ApiError::CannotComplete),
    }
}

/// `POST /api/orders/:id/cancel`: a pending order or one in progress is
/// cancelled; `CannotCancel` when it is missing, completed or cancelled.
pub fn cancel_order(current: &Option<ProcessOrderModel>, now: Timestamp) -> (r: Result<
    ProcessOrderModel,
    ApiError,
>)
    ensures
        match cancelled_order(order_view_opt(*current), now) {
            Some(v) => r matches Ok(m) && m@ == v,
            None => r matches Err(ApiError::CannotCancel),
        },
{
    match current {
        Some(m) => {
            if status_is(m, "pending") || status_is(m, "in_progress") {
                Ok(restatus(m, "cancelled", now))
            } else {
                Err(ApiError::CannotCancel)
            }
        },
        None => Err(ApiError::CannotCancel),
    }
}

/// `POST /api/orders/:id/steps`: on an order in progress, the audit record
/// of the step and the order advanced to that step (never back); `NotFound` for a missing
/// order, `NotInProgress` for one in any other state.
pub fn confirm_step(
    current: &Option<ProcessOrderModel>,
    body: &ConfirmStepBody,
    execution_id: u128,
    confirmed_at: Timestamp,
    now: Timestamp,
) -> (r: Result<(ProcessOrderModel, ProcessOrderExecutionModel), ApiError>)
    ensures
        match current {
            None => r matches Err(ApiError::NotFound(Entity::ProcessOrder)),
            Some(m) => if m.status@ == in_progress() {
                r matches Ok(p) && p.0@ == stepped(m@, body.step_number, now) && p.1@
                    == execution_view(m.id, *body, execution_id, confirmed_at)
            } else {
                r matches Err(ApiError::NotInProgress)
            },
        },
{
    match current {
        None => Err(ApiError::NotFound(Entity::ProcessOrder)),
        Some(m) => {
            if status_is(m, "in_progress") {
                let record = ProcessOrderExecutionModel {
                    id: execution_id,
                    process_order_id: m.id,
                    node_canvas_id: body.node_canvas_id.clone(),
                    node_type: body.node_type.clone(),
                    node_label: body.node_label.clone(),
                    step_number: body.step_number,
                    confirmed_by: body.confirmed_by.clone(),
                    notes: body.notes.clone(),
                    confirmed_at,
                };
                let mut order = m.duplicate();
                if body.step_number > order.current_step {
                    order.current_step = body.step_number;
                }
                order.updated_at = now;
                Ok((order, record))
            } else {
                Err(ApiError::NotInProgress)
            }
        },
    }
}

/// A process order as the API shows it.
#[derive(Debug)]
pub struct ProcessOrderResponse {
    pub id: String,
    pub order_number: String,
    pub description: String,
    pub workflow_id: Option<String>,
    pub workflow_name: String,
    pub status: String,
    pub assigned_to: String,
    pub scheduled_date: String,
    pub current_step: i32,
    pub total_steps: i32,
    pub created_at: String,
    pub updated_at: String,
}

/// `r` shows the order `o`: identifiers as canonical UUID text, instants as
/// RFC 3339 text, everything else as stored.
pub open spec fn shows_order(r: ProcessOrderResponse, o: OrderView) -> bool {
    &&& r.id@ == id_text(o.id)
    &&& r.order_number@ == o.order_number
    &&& r.description@ == o.description
    &&& opt_id_view(r.workflow_id) == opt_id_text(o.workflow_id)
    &&& r.workflow_name@ == o.workflow_name
    &&& r.status@ == o.status
    &&& r.assigned_to@ == o.assigned_to
    &&& r.scheduled_date@ == o.scheduled_date
    &&& r.current_step == o.current_step
    &&& r.total_steps == o.total_steps
    &&& r.created_at@ == o.created_at.text()
    &&& r.updated_at@ == o.updated_at.text()
}

impl ProcessOrderResponse {
    pub fn from(p: &ProcessOrderModel) -> (r: ProcessOrderResponse)
        ensures
            shows_order(r, p@),
    {
        ProcessOrderResponse {
            id: id_string(p.id),
            order_number: p.order_number.clone(),
            description: p.description.clone(),
            workflow_id: opt_id_string(p.workflow_id),
            workflow_name: p.workflow_name.clone(),
            status: p.status.clone(),
            assigned_to: p.assigned_to.clone(),
            scheduled_date: p.scheduled_date.clone(),
            current_step: p.current_step,
            total_steps: p.total_steps,
            created_at: p.created_at.to_rfc3339(),
            updated_at: p.updated_at.to_rfc3339(),
        }
    }
}

/// An audit record as the API shows it.
#[derive(Debug)]
pub struct ProcessOrderExecutionResponse {
    pub id: String,
    pub process_order_id: String,
    pub node_canvas_id: String,
    pub node_type: String,
    pub node_label: String,
    pub step_number: i32,
    pub confirmed_by: String,
    pub notes: String,
    pub confirmed_at: String,
}

pub open spec fn shows_execution(r: ProcessOrderExecutionResponse, e: ExecutionView) -> bool {
    &&& r.id@ == id_text(e.id)
    &&& r.process_order_id@ == id_text(e.process_order_id)
    &&& r.node_canvas_id@ == e.node_canvas_id
    &&& r.node_type@ == e.node_type
    &&& r.node_label@ == e.node_label
    &&& r.step_number == e.step_number
    &&& r.confirmed_by@ == e.confirmed_by
    &&& r.notes@ == e.notes
    &&& r.confirmed_at@ == e.confirmed_at.text()
}

impl ProcessOrderExecutionResponse {
    pub fn from(e: &ProcessOrderExecutionModel) -> (r: ProcessOrderExecutionResponse)
        ensures
            shows_execution(r, e@),
    {
        ProcessOrderExecutionResponse {
            id: id_string(e.id),
            process_order_id: id_string(e.process_order_id),
            node_canvas_id: e.node_canvas_id.clone(),
            node_type: e.node_type.clone(),
            node_label: e.node_label.clone(),
            step_number: e.step_number,
            confirmed_by: e.confirmed_by.clone(),
            notes: e.notes.clone(),
            confirmed_at: e.confirmed_at.to_rfc3339(),
        }
    }
}

/// An order with its execution log, as `GET /api/orders/:id` shows it.
#[derive(Debug)]
pub struct ProcessOrderDetailResponse {
    pub order: ProcessOrderResponse,
    pub executions: Vec<ProcessOrderExecutionResponse>,
}

/// The responses for a list of orders, in the same order.
pub fn order_responses(rows: &Vec<ProcessOrderModel>) -> (r: Vec<ProcessOrderResponse>)
    ensures
        r.len() == rows.len(),
        forall|i: int| 0 <= i < rows.len() ==> shows_order(#[trigger] r[i], rows[i]@),
{
    let mut r: Vec<ProcessOrderResponse> = Vec::new();
    for i in 0..rows.len()
        invariant
            r.len() == i,
            forall|j: int| 0 <= j < i ==> shows_order(#[trigger] r[j], rows[j]@),
    {
        r.push(ProcessOrderResponse::from(&rows[i]));
    }
    r
}

impl ProcessOrderDetailResponse {
    /// The order and its audit records, in the order given (the query sorts
    /// them by step number).
    pub fn from_parts(order: &ProcessOrderModel, executions: &Vec<ProcessOrderExecutionModel>) -> (r:
        ProcessOrderDetailResponse)
        ensures
            shows_order(r.order, order@),
            r.executions.len() == executions.len(),
            forall|i: int|
                0 <= i < executions.len() ==> shows_execution(
                    #[trigger] r.executions[i],
                    executions[i]@,
                ),
    {
        let mut list: Vec<ProcessOrderExecutionResponse> = Vec::new();
        for i in 0..executions.len()
            invariant
                list.len() == i,
                forall|j: int|
                    0 <= j < i ==> shows_execution(#[trigger] list[j], executions[j]@),
        {
            list.push(ProcessOrderExecutionResponse::from(&executions[i]));
        }
        ProcessOrderDetailResponse { order: ProcessOrderResponse::from(order), executions: list }
    }
}

pub open spec fn name_view(f: Option<String>) -> Option<Seq<char>> {
    match f {
        Some(n) => Some(n@),
        None => None,
    }
}

/// The answer to `POST /api/orders`, refusals in the order the service
/// checks them: the workflow id must be a UUID, then name a workflow.
/// `found` is the name that looking up the named workflow gave.
pub open spec fn order_create_outcome(
    body: CreateProcessOrderBody,
    found: Option<Seq<char>>,
    id: u128,
    now: Timestamp,
) -> Result<OrderView, ApiError> {
    match uuid_of_text(body.workflow_id@) {
        None => Err(ApiError::InvalidRef(RefField::WorkflowId)),
        Some(w) => match found {
            None => Err(ApiError::NotFound(Entity::Workflow)),
            Some(n) => Ok(new_order_view(body, w, n, id, now)),
        },
    }
}

/// `POST /api/orders`, given the name that looking up the workflow the body
/// names found (ignored when the id is not a UUID).
pub fn create_order_request(body: &CreateProcessOrderBody, found: Option<String>, id: u128, now: Timestamp) -> (r:
    Result<ProcessOrderModel, ApiError>)
    ensures
        match order_create_outcome(*body, name_view(found), id, now) {
            Ok(v) => r matches Ok(o) && o@ == v,
            Err(e) => r matches Err(x) && x == e,
        },
{
    let w = match body.workflow_ref() {
        Ok(w) => w,
        Err(e) => return Err(e),
    };
    match found {
        Some(name) => Ok(create_order(body, w, name, id, now)),
        None => Err(ApiError::NotFound(Entity::Workflow)),
    }
}

/// The answer to `PATCH /api/orders/:id`, refusals in the order the service
/// checks them: the order must exist; a workflow the patch names must be a
/// UUID, then exist.
pub open spec fn order_patch_outcome(
    current: Option<OrderView>,
    body: UpdateProcessOrderBody,
    found: Option<Seq<char>>,
    now: Timestamp,
) -> Result<OrderView, ApiError> {
    match current {
        None => Err(ApiError::NotFound(Entity::ProcessOrder)),
        Some(cur) => match body.workflow_id {
            None => Ok(updated_order_view(cur, body, None, now)),
            Some(t) => match uuid_of_text(t@) {
                None => Err(ApiError::InvalidRef(RefField::WorkflowId)),
                Some(w) => match found {
                    None => Err(ApiError::NotFound(Entity::Workflow)),
                    Some(n) => Ok(updated_order_view(cur, body, Some((w, n)), now)),
                },
            },
        },
    }
}

/// `PATCH /api/orders/:id`, given the stored order (if any) and the name
/// that looking up a workflow the patch names found (ignored when it names
/// none).
pub fn update_order_request(
    current: &Option<ProcessOrderModel>,
    body: &UpdateProcessOrderBody,
    found: Option<String>,
    now: Timestamp,
) -> (r: Result<ProcessOrderModel, ApiError>)
    ensures
        match order_patch_outcome(order_view_opt(*current), *body, name_view(found), now) {
            Ok(v) => r matches Ok(o) && o@ == v,
            Err(e) => r matches Err(x) && x == e,
        },
{
    let cur = match current {
        Some(c) => c,
        None => return Err(ApiError::NotFound(Entity::ProcessOrder)),
    };
    let workflow = match body.workflow_ref() {
        Err(e) => return Err(e),
        Ok(None) => None,
        Ok(Some(w)) => match found {
            Some(name) => Some((w, name)),
            None => return Err(ApiError::NotFound(Entity::Workflow)),
        },
    };
    Ok(update_order(cur, body, workflow, now))
}

proof fn lemma_statuses_differ()
    ensures
        pending() != in_progress(),
        pending() != completed(),
        pending() != cancelled(),
        in_progress() != completed(),
        in_progress() != cancelled(),
        completed() != cancelled(),
{
    reveal_strlit("pending");
    reveal_strlit("in_progress");
    reveal_strlit("completed");
    reveal_strlit("cancelled");
    assert(pending()[0] != in_progress()[0]);
    assert(pending()[0] != completed()[0]);
    assert(pending()[1] != cancelled()[1]);
    assert(in_progress()[0] != completed()[0]);
    assert(in_progress()[0] != cancelled()[0]);
    assert(completed()[1] != cancelled()[1]);
}

/// Completed and cancelled orders are final: no transition applies to them,
/// and no step can be confirmed on them.
pub proof fn lemma_closed_orders_are_final(o: OrderView, total: i32, now: Timestamp)
    requires
        o.status == completed() || o.status == cancelled(),
    ensures
        started(Some(o), total, now) is None,
        completed_order(Some(o), now) is None,
        cancelled_order(Some(o), now) is None,
        o.status != in_progress(),
{
    lemma_statuses_differ();
}

/// A missing order can be neither started, completed nor cancelled.
pub proof fn lemma_missing_order_refused(total: i32, now: Timestamp)
    ensures
        started(None, total, now) is None,
        completed_order(None, now) is None,
        cancelled_order(None, now) is None,
{
}

/// The life cycle of an order: a new order is pending; starting it puts it
/// in progress with the given number of steps and none done; from there it
/// can be completed or cancelled, and a pending order can be cancelled
/// directly; each move keeps what identifies the order.
pub proof fn lemma_order_life_cycle(
    body: CreateProcessOrderBody,
    workflow_id: u128,
    workflow_name: Seq<char>,
    id: u128,
    total: i32,
    t0: Timestamp,
    t1: Timestamp,
    t2: Timestamp,
)
    ensures
        ({
            let o = new_order_view(body, workflow_id, workflow_name, id, t0);
            let s = started(Some(o), total, t1);
            &&& o.status == pending()
            &&& s is Some
            &&& s->0.status == in_progress()
            &&& s->0.current_step == 0
            &&& s->0.total_steps == total
            &&& s->0.id == id && s->0.order_number == o.order_number
            &&& completed_order(s, t2) is Some
            &&& completed_order(s, t2)->0.status == completed()
            &&& completed_order(s, t2)->0.total_steps == total
            &&& cancelled_order(s, t2) is Some
            &&& cancelled_order(s, t2)->0.status == cancelled()
            &&& cancelled_order(Some(o), t1) is Some
            &&& cancelled_order(Some(o), t1)->0.status == cancelled()
            &&& completed_order(Some(o), t1) is None
        }),
{
    lemma_statuses_differ();
}

/// An order can be started only once: a started order is no longer pending.
pub proof fn lemma_start_once(o: OrderView, total: i32, t1: Timestamp, total2: i32, t2: Timestamp)
    requires
        started(Some(o), total, t1) is Some,
    ensures
        started(started(Some(o), total, t1), total2, t2) is None,
{
    lemma_statuses_differ();
}

/// Confirming a step keeps the order in progress, so further steps can be
/// confirmed and the order can still be completed or cancelled; the order's
/// progress never decreases, and reaches at least the step confirmed.
pub proof fn lemma_steps_keep_order_open(o: OrderView, step: i32, now: Timestamp, later: Timestamp)
    requires
        o.status == in_progress(),
    ensures
        stepped(o, step, now).status == in_progress(),
        stepped(o, step, now).current_step >= o.current_step,
        stepped(o, step, now).current_step >= step,
        stepped(o, step, now).current_step == o.current_step || stepped(o, step, now).current_step == step,
        stepped(o, step, now).total_steps == o.total_steps,
        completed_order(Some(stepped(o, step, now)), later) is Some,
        cancelled_order(Some(stepped(o, step, now)), later) is Some,
{
}

/// A patch that sends nothing changes nothing of an order as created, but
/// the time of its last update.
pub proof fn lemma_empty_patch_keeps_new_order(
    body: CreateProcessOrderBody,
    workflow_id: u128,
    workflow_name: Seq<char>,
    id: u128,
    t0: Timestamp,
    patch: UpdateProcessOrderBody,
    t1: Timestamp,
)
    requires
        patch.order_number is None,
        patch.description is None,
        patch.workflow_id is None,
        patch.assigned_to is None,
        patch.scheduled_date is None,
        patch.status is None,
    ensures
        updated_order_view(new_order_view(body, workflow_id, workflow_name, id, t0), patch, None, t1)
            == (OrderView { updated_at: t1, ..new_order_view(body, workflow_id, workflow_name, id, t0) }),
{
    lemma_trim_idempotent(body.order_number@);
    lemma_trim_idempotent(body.description@);
    lemma_trim_idempotent(body.assigned_to@);
    lemma_trim_idempotent(body.scheduled_date@);
}


/// What `POST /api/orders` stores: the number, description, assignee and
/// date sent, each trimmed; the workflow it names with that workflow's name;
/// a fresh order, pending, with no steps, made and updated at `now`.
pub proof fn lemma_new_order_fields(
    body: CreateProcessOrderBody,
    workflow_id: u128,
    workflow_name: Seq<char>,
    id: u128,
    now: Timestamp,
)
    ensures
        ({
            let o = new_order_view(body, workflow_id, workflow_name, id, now);
            &&& o.id == id
            &&& o.order_number == trimmed(body.order_number@)
            &&& o.description == trimmed(body.description@)
            &&& o.assigned_to == trimmed(body.assigned_to@)
            &&& o.scheduled_date == trimmed(body.scheduled_date@)
            &&& o.workflow_id == Some(workflow_id)
            &&& o.workflow_name == workflow_name
            &&& o.status == "pending"@
            &&& o.current_step == 0 && o.total_steps == 0
            &&& o.created_at == now && o.updated_at == now
        }),
{
}

/// What `PATCH /api/orders/:id` stores: each text field sent replaces the
/// stored one, trimmed (the status as sent); a field not sent keeps the
/// stored value (trimmed); a workflow named re-points the order and copies
/// its name; identity, progress and creation time never change.
pub proof fn lemma_order_patch_fields(
    cur: OrderView,
    body: UpdateProcessOrderBody,
    workflow: Option<(u128, Seq<char>)>,
    now: Timestamp,
)
    ensures
        ({
            let o = updated_order_view(cur, body, workflow, now);
            &&& match body.order_number {
                Some(t) => o.order_number == trimmed(t@),
                None => o.order_number == trimmed(cur.order_number),
            }
            &&& match body.description {
                Some(t) => o.description == trimmed(t@),
                None => o.description == trimmed(cur.description),
            }
            &&& match body.assigned_to {
                Some(t) => o.assigned_to == trimmed(t@),
                None => o.assigned_to == trimmed(cur.assigned_to),
            }
            &&& match body.scheduled_date {
                Some(t) => o.scheduled_date == trimmed(t@),
                None => o.scheduled_date == trimmed(cur.scheduled_date),
            }
            &&& match body.status {
                Some(t) => o.status == t@,
                None => o.status == cur.status,
            }
            &&& match workflow {
                Some((w, name)) => o.workflow_id == Some(w) && o.workflow_name == name,
                None => o.workflow_id == cur.workflow_id && o.workflow_name == cur.workflow_name,
            }
            &&& o.id == cur.id
            &&& o.current_step == cur.current_step
            &&& o.total_steps == cur.total_steps
            &&& o.created_at == cur.created_at
            &&& o.updated_at == now
        }),
{
}

/// Starting a pending order sets it in progress with the given number of
/// steps and none done, and changes nothing else but the time of update;
/// an order in any other state is not started.
pub proof fn lemma_start_fields(o: OrderView, total: i32, now: Timestamp)
    ensures
        o.status == "pending"@ ==> ({
            let s = started(Some(o), total, now);
            &&& s is Some
            &&& s->0.status == "in_progress"@
            &&& s->0.total_steps == total
            &&& s->0.current_step == 0
            &&& s->0.updated_at == now
            &&& s->0.id == o.id
            &&& s->0.order_number == o.order_number
            &&& s->0.description == o.description
            &&& s->0.workflow_id == o.workflow_id
            &&& s->0.workflow_name == o.workflow_name
            &&& s->0.assigned_to == o.assigned_to
            &&& s->0.scheduled_date == o.scheduled_date
            &&& s->0.created_at == o.created_at
        }),
        o.status != "pending"@ ==> started(Some(o), total, now) is None,
{
    reveal_strlit("pending");
    reveal_strlit("in_progress");
}

/// Completing or cancelling an order changes its status and the time of
/// update, and nothing else.
pub proof fn lemma_close_fields(o: OrderView, now: Timestamp)
    ensures
        o.status == "in_progress"@ ==> completed_order(Some(o), now) == Some(
            OrderView { status: "completed"@, updated_at: now, ..o },
        ),
        o.status != "in_progress"@ ==> completed_order(Some(o), now) is None,
        (o.status == "pending"@ || o.status == "in_progress"@) ==> cancelled_order(Some(o), now) == Some(
            OrderView { status: "cancelled"@, updated_at: now, ..o },
        ),
        !(o.status == "pending"@ || o.status == "in_progress"@) ==> cancelled_order(Some(o), now) is None,
{
    reveal_strlit("pending");
    reveal_strlit("in_progress");
    reveal_strlit("completed");
    reveal_strlit("cancelled");
}

/// The audit record of a confirmed step holds what the operator sent (node,
/// step number, who confirmed it and the notes, untouched), the order it
/// belongs to, its own id and the time of confirmation; the order keeps
/// everything but its progress, which moves to the later of the step it was
/// at and the one confirmed, and the time of update.
pub proof fn lemma_step_fields(o: OrderView, body: ConfirmStepBody, id: u128, confirmed_at: Timestamp, now: Timestamp)
    ensures
        ({
            let e = execution_view(o.id, body, id, confirmed_at);
            &&& e.id == id
            &&& e.process_order_id == o.id
            &&& e.node_canvas_id == body.node_canvas_id@
            &&& e.node_type == body.node_type@
            &&& e.node_label == body.node_label@
            &&& e.step_number == body.step_number
            &&& e.confirmed_by == body.confirmed_by@
            &&& e.notes == body.notes@
            &&& e.confirmed_at == confirmed_at
        }),
        ({
            let s = stepped(o, body.step_number, now);
            &&& s.current_step >= o.current_step
            &&& s.current_step >= body.step_number
            &&& (s.current_step == o.current_step || s.current_step == body.step_number)
            &&& s == OrderView { current_step: s.current_step, updated_at: now, ..o }
        }),
{
}


/// How `POST /api/orders` answers: a workflow id that is not a UUID is
/// refused first, then one that names no workflow; otherwise the new order
/// follows that workflow under the name found.
pub proof fn lemma_order_create_answers(body: CreateProcessOrderBody, found: Option<Seq<char>>, id: u128, now: Timestamp)
    ensures
        ({
            let out = order_create_outcome(body, found, id, now);
            let w = uuid_of_text(body.workflow_id@);
            &&& w is None ==> out == Err::<OrderView, ApiError>(ApiError::InvalidRef(RefField::WorkflowId))
            &&& (w is Some && found is None) ==> out == Err::<OrderView, ApiError>(
                ApiError::NotFound(Entity::Workflow),
            )
            &&& (w is Some && found is Some) ==> out == Ok::<OrderView, ApiError>(
                new_order_view(body, w->0, found->0, id, now),
            )
        }),
{
}

/// How `PATCH /api/orders/:id` answers: a missing order is refused first;
/// then a workflow the patch names must be a UUID, then exist; otherwise the
/// patch applies, re-pointing the order to the workflow named (with the
/// name found) or leaving its workflow as it is.
pub proof fn lemma_order_patch_answers(
    current: Option<OrderView>,
    body: UpdateProcessOrderBody,
    found: Option<Seq<char>>,
    now: Timestamp,
)
    ensures
        ({
            let out = order_patch_outcome(current, body, found, now);
            let w = match body.workflow_id {
                Some(t) => uuid_of_text(t@),
                None => None,
            };
            &&& current is None ==> out == Err::<OrderView, ApiError>(ApiError::NotFound(Entity::ProcessOrder))
            &&& (current is Some && body.workflow_id is None) ==> out == Ok::<OrderView, ApiError>(
                updated_order_view(current->0, body, None, now),
            )
            &&& (current is Some && body.workflow_id is Some && w is None) ==> out == Err::<OrderView, ApiError>(
                ApiError::InvalidRef(RefField::WorkflowId),
            )
            &&& (current is Some && w is Some && found is None) ==> out == Err::<OrderView, ApiError>(
                ApiError::NotFound(Entity::Workflow),
            )
            &&& (current is Some && w is Some && found is Some) ==> out == Ok::<OrderView, ApiError>(
                updated_order_view(current->0, body, Some((w->0, found->0)), now),
            )
        }),
{
}


/// An order as shown reads back as the order stored: its id and workflow
/// parse back to the stored identifiers, its text fields and counts are the
/// stored ones.
pub proof fn lemma_order_shown(r: ProcessOrderResponse, o: OrderView)
    requires
        shows_order(r, o),
    ensures
        uuid_of_text(r.id@) == Some(o.id),
        match o.workflow_id {
            Some(x) => r.workflow_id matches Some(t) && uuid_of_text(t@) == Some(x),
            None => r.workflow_id is None,
        },
        r.order_number@ == o.order_number,
        r.description@ == o.description,
        r.workflow_name@ == o.workflow_name,
        r.status@ == o.status,
        r.assigned_to@ == o.assigned_to,
        r.scheduled_date@ == o.scheduled_date,
        r.current_step == o.current_step,
        r.total_steps == o.total_steps,
{
    lemma_id_text_parses(o.id);
    if let Some(w) = o.workflow_id {
        lemma_id_text_parses(w);
    }
}

/// An audit record as shown reads back as the record stored: its id and its
/// order parse back, and what the operator sent is shown as it is.
pub proof fn lemma_execution_shown(r: ProcessOrderExecutionResponse, e: ExecutionView)
    requires
        shows_execution(r, e),
    ensures
        uuid_of_text(r.id@) == Some(e.id),
        uuid_of_text(r.process_order_id@) == Some(e.process_order_id),
        r.node_canvas_id@ == e.node_canvas_id,
        r.node_type@ == e.node_type,
        r.node_label@ == e.node_label,
        r.step_number == e.step_number,
        r.confirmed_by@ == e.confirmed_by,
        r.notes@ == e.notes,
{
    lemma_id_text_parses(e.id);
    lemma_id_text_parses(e.process_order_id);
}


/// What the stored order and the lookups are taken to be: the order as
/// stored, or none; the workflow found with its id and the name as read;
/// the name found as read.
pub proof fn lemma_order_inputs_read(o: Option<ProcessOrderModel>, w: Option<(u128, String)>, n: Option<String>)
    ensures
        match o {
            Some(m) => order_view_opt(o) == Some(m@),
            None => order_view_opt(o) is None,
        },
        match w {
            Some((id, name)) => workflow_view(w) == Some((id, name@)),
            None => workflow_view(w) is None,
        },
        match n {
            Some(s) => name_view(n) == Some(s@),
            None => name_view(n) is None,
        },
{
}

} // verus!
