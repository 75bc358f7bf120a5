use bim_mes::error::{ApiError, Entity, RefField};
use bim_mes::order::{
    cancel_order, complete_order, confirm_step, create_order, create_order_request, order_responses, start_order,
    update_order, update_order_request,
    ConfirmStepBody, CreateProcessOrderBody, OrderFilterOptions, ProcessOrderDetailResponse, ProcessOrderModel,
    ProcessOrderResponse, StartProcessOrderBody, UpdateProcessOrderBody,
};
use bim_mes::paging::Window;
use bim_mes::time::Timestamp;

const WF: &str = "936da01f-9abd-4d9d-80c7-02af85c822a8";
const WF_VALUE: u128 = 0x936da01f_9abd_4d9d_80c7_02af85c822a8;

fn at(secs: i64) -> Timestamp {
    Timestamp::new(secs, 0).unwrap()
}

fn body() -> CreateProcessOrderBody {
    CreateProcessOrderBody {
        order_number: "  PO-1001 ".to_string(),
        description: " Mix batch ".to_string(),
        workflow_id: WF.to_string(),
        assigned_to: "\tana ".to_string(),
        scheduled_date: " 2024-05-01".to_string(),
    }
}

fn new_order() -> ProcessOrderModel {
    create_order(&body(), WF_VALUE, " Mixing ".to_string(), 42, at(1_700_000_000))
}

fn step(n: i32) -> ConfirmStepBody {
    ConfirmStepBody {
        node_canvas_id: "n1".to_string(),
        node_type: "task".to_string(),
        node_label: "Weigh".to_string(),
        step_number: n,
        confirmed_by: "ana".to_string(),
        notes: " ok ".to_string(),
    }
}

#[test]
fn order_created_pending() {
    let o = new_order();
    assert_eq!(o.id, 42);
    assert_eq!(o.order_number, "PO-1001");
    assert_eq!(o.description, "Mix batch");
    assert_eq!(o.workflow_id, Some(WF_VALUE));
    assert_eq!(o.workflow_name, " Mixing ");
    assert_eq!(o.status, "pending");
    assert_eq!(o.assigned_to, "ana");
    assert_eq!(o.scheduled_date, "2024-05-01");
    assert_eq!((o.current_step, o.total_steps), (0, 0));
    assert_eq!(o.created_at.secs(), 1_700_000_000);
    assert_eq!(o.updated_at.secs(), 1_700_000_000);
}

#[test]
fn order_workflow_refs() {
    assert_eq!(body().workflow_ref().unwrap(), WF_VALUE);
    let mut b = body();
    b.workflow_id = "nope".to_string();
    assert!(matches!(b.workflow_ref(), Err(ApiError::InvalidRef(RefField::WorkflowId))));
    let mut p = UpdateProcessOrderBody {
        order_number: None,
        description: None,
        workflow_id: None,
        assigned_to: None,
        scheduled_date: None,
        status: None,
    };
    assert_eq!(p.workflow_ref().unwrap(), None);
    p.workflow_id = Some(WF.to_string());
    assert_eq!(p.workflow_ref().unwrap(), Some(WF_VALUE));
    p.workflow_id = Some(String::new());
    assert!(matches!(p.workflow_ref(), Err(ApiError::InvalidRef(RefField::WorkflowId))));
}

#[test]
fn order_full_life_cycle() {
    let o = new_order();
    let started = start_order(&Some(o), &StartProcessOrderBody { total_steps: 3 }, at(1_700_000_100)).unwrap();
    assert_eq!(started.status, "in_progress");
    assert_eq!((started.current_step, started.total_steps), (0, 3));
    assert_eq!(started.updated_at.secs(), 1_700_000_100);
    assert_eq!(started.created_at.secs(), 1_700_000_000);
    let (stepped, record) =
        confirm_step(&Some(started), &step(1), 7, at(1_700_000_200), at(1_700_000_201)).unwrap();
    assert_eq!(stepped.current_step, 1);
    assert_eq!(stepped.status, "in_progress");
    assert_eq!(stepped.updated_at.secs(), 1_700_000_201);
    assert_eq!(record.id, 7);
    assert_eq!(record.process_order_id, 42);
    assert_eq!(record.step_number, 1);
    assert_eq!(record.notes, " ok ");
    assert_eq!(record.confirmed_at.secs(), 1_700_000_200);
    let (stepped, _) = confirm_step(&Some(stepped), &step(2), 8, at(1), at(2)).unwrap();
    assert_eq!(stepped.current_step, 2);
    let done = complete_order(&Some(stepped), at(1_700_000_300)).unwrap();
    assert_eq!(done.status, "completed");
    assert_eq!(done.total_steps, 3);
    assert_eq!(done.current_step, 2);
    assert_eq!(done.order_number, "PO-1001");
}

#[test]
fn confirming_an_earlier_step_keeps_progress() {
    let started = start_order(&Some(new_order()), &StartProcessOrderBody { total_steps: 5 }, at(10)).unwrap();
    let (ahead, _) = confirm_step(&Some(started), &step(4), 1, at(11), at(12)).unwrap();
    assert_eq!(ahead.current_step, 4);
    let (kept, record) = confirm_step(&Some(ahead), &step(2), 2, at(13), at(14)).unwrap();
    assert_eq!(kept.current_step, 4);
    assert_eq!(kept.updated_at.secs(), 14);
    assert_eq!(record.step_number, 2);
    let (same, _) = confirm_step(&Some(kept), &step(4), 3, at(15), at(16)).unwrap();
    assert_eq!(same.current_step, 4);
}

#[test]
fn order_cancel_paths() {
    let pending = cancel_order(&Some(new_order()), at(5)).unwrap();
    assert_eq!(pending.status, "cancelled");
    let running = start_order(&Some(new_order()), &StartProcessOrderBody { total_steps: 2 }, at(5)).unwrap();
    let cancelled = cancel_order(&Some(running), at(6)).unwrap();
    assert_eq!(cancelled.status, "cancelled");
    assert_eq!(cancelled.total_steps, 2);
}

#[test]
fn closed_orders_refuse_everything() {
    let done = complete_order(&Some(start_order(&Some(new_order()), &StartProcessOrderBody { total_steps: 1 }, at(1)).unwrap()), at(2)).unwrap();
    let cancelled = cancel_order(&Some(new_order()), at(2)).unwrap();
    for closed in [done, cancelled] {
        let c = Some(closed);
        assert!(matches!(start_order(&c, &StartProcessOrderBody { total_steps: 4 }, at(3)), Err(ApiError::NotPending)));
        assert!(matches!(complete_order(&c, at(3)), Err(ApiError::CannotComplete)));
        assert!(matches!(cancel_order(&c, at(3)), Err(ApiError::CannotCancel)));
        assert!(matches!(confirm_step(&c, &step(1), 1, at(3), at(3)), Err(ApiError::NotInProgress)));
    }
}

#[test]
fn missing_or_wrong_state_orders() {
    assert!(matches!(start_order(&None, &StartProcessOrderBody { total_steps: 4 }, at(3)), Err(ApiError::NotPending)));
    assert!(matches!(complete_order(&None, at(3)), Err(ApiError::CannotComplete)));
    assert!(matches!(cancel_order(&None, at(3)), Err(ApiError::CannotCancel)));
    assert!(matches!(
        confirm_step(&None, &step(1), 1, at(3), at(3)),
        Err(ApiError::NotFound(Entity::ProcessOrder))
    ));
    let pending = Some(new_order());
    assert!(matches!(complete_order(&pending, at(3)), Err(ApiError::CannotComplete)));
    assert!(matches!(confirm_step(&pending, &step(1), 1, at(3), at(3)), Err(ApiError::NotInProgress)));
    let running = Some(start_order(&pending, &StartProcessOrderBody { total_steps: 2 }, at(3)).unwrap());
    assert!(matches!(start_order(&running, &StartProcessOrderBody { total_steps: 5 }, at(4)), Err(ApiError::NotPending)));
}

#[test]
fn order_patches() {
    let o = new_order();
    let empty = UpdateProcessOrderBody {
        order_number: None,
        description: None,
        workflow_id: None,
        assigned_to: None,
        scheduled_date: None,
        status: None,
    };
    let same = update_order(&o, &empty, None, at(9));
    assert_eq!(same.order_number, o.order_number);
    assert_eq!(same.description, o.description);
    assert_eq!(same.workflow_id, o.workflow_id);
    assert_eq!(same.workflow_name, o.workflow_name);
    assert_eq!(same.status, o.status);
    assert_eq!(same.assigned_to, o.assigned_to);
    assert_eq!(same.scheduled_date, o.scheduled_date);
    assert_eq!(same.created_at.secs(), 1_700_000_000);
    assert_eq!(same.updated_at.secs(), 9);
    let patch = UpdateProcessOrderBody {
        order_number: Some(" PO-2 ".to_string()),
        description: None,
        workflow_id: Some("00000000-0000-0000-0000-000000000005".to_string()),
        assigned_to: Some(" bo ".to_string()),
        scheduled_date: None,
        status: Some(" on_hold ".to_string()),
    };
    let changed = update_order(&o, &patch, Some((5, "Packing".to_string())), at(10));
    assert_eq!(changed.order_number, "PO-2");
    assert_eq!(changed.assigned_to, "bo");
    assert_eq!(changed.status, " on_hold ");
    assert_eq!(changed.workflow_id, Some(5));
    assert_eq!(changed.workflow_name, "Packing");
    assert_eq!(changed.description, "Mix batch");
    assert_eq!((changed.current_step, changed.total_steps), (0, 0));
}

#[test]
fn order_responses_shown() {
    let o = start_order(&Some(new_order()), &StartProcessOrderBody { total_steps: 4 }, at(1431648000)).unwrap();
    let r = ProcessOrderResponse::from(&o);
    assert_eq!(r.id, "00000000-0000-0000-0000-00000000002a");
    assert_eq!(r.workflow_id.as_deref(), Some(WF));
    assert_eq!(r.status, "in_progress");
    assert_eq!(r.total_steps, 4);
    assert_eq!(r.updated_at, "2015-05-15T00:00:00+00:00");
    let list = order_responses(&vec![new_order(), o]);
    assert_eq!(list.len(), 2);
    assert_eq!(list[0].status, "pending");
    assert_eq!(list[1].status, "in_progress");
    let (s, rec) = confirm_step(&Some(start_order(&Some(new_order()), &StartProcessOrderBody { total_steps: 2 }, at(1)).unwrap()), &step(1), 3, at(1431648000), at(2)).unwrap();
    let d = ProcessOrderDetailResponse::from_parts(&s, &vec![rec]);
    assert_eq!(d.order.current_step, 1);
    assert_eq!(d.executions.len(), 1);
    assert_eq!(d.executions[0].id, "00000000-0000-0000-0000-000000000003");
    assert_eq!(d.executions[0].process_order_id, "00000000-0000-0000-0000-00000000002a");
    assert_eq!(d.executions[0].node_label, "Weigh");
    assert_eq!(d.executions[0].confirmed_at, "2015-05-15T00:00:00+00:00");
}

#[test]
fn order_list_window() {
    let f = OrderFilterOptions { page: Some(2), limit: None, status: Some("pending".to_string()) };
    assert_eq!(f.window(), Window { limit: 50, offset: 50 });
}

#[test]
fn order_create_refusal_order() {
    let mut b = body();
    assert_eq!(create_order_request(&b, Some("Mixing".to_string()), 1, at(0)).unwrap().workflow_name, "Mixing");
    assert!(matches!(create_order_request(&b, None, 1, at(0)), Err(ApiError::NotFound(Entity::Workflow))));
    b.workflow_id = "x".to_string();
    assert!(matches!(
        create_order_request(&b, None, 1, at(0)),
        Err(ApiError::InvalidRef(RefField::WorkflowId))
    ));
}

#[test]
fn order_patch_refusal_order() {
    let bad = UpdateProcessOrderBody {
        order_number: None,
        description: None,
        workflow_id: Some("x".to_string()),
        assigned_to: None,
        scheduled_date: None,
        status: None,
    };
    assert!(matches!(update_order_request(&None, &bad, None, at(1)), Err(ApiError::NotFound(Entity::ProcessOrder))));
    let cur = Some(new_order());
    assert!(matches!(update_order_request(&cur, &bad, None, at(1)), Err(ApiError::InvalidRef(RefField::WorkflowId))));
    let named = UpdateProcessOrderBody { workflow_id: Some(WF.to_string()), ..bad };
    assert!(matches!(update_order_request(&cur, &named, None, at(1)), Err(ApiError::NotFound(Entity::Workflow))));
    let ok = update_order_request(&cur, &named, Some("Packing".to_string()), at(1)).unwrap();
    assert_eq!(ok.workflow_name, "Packing");
    assert_eq!(ok.workflow_id, Some(WF_VALUE));
    let none = UpdateProcessOrderBody { workflow_id: None, ..named };
    assert_eq!(update_order_request(&cur, &none, Some("ignored".to_string()), at(1)).unwrap().workflow_name, " Mixing ");
}
