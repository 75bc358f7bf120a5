use bim_mes::error::{found, material_delete_failure, touched, write_failure, ApiError, Entity, RefField};
use bim_mes::ident::{fresh_id, id_string, opt_id_string, parse_path_id, parse_ref, resolve_new_ref, resolve_ref_change, RefChange};
use bim_mes::paging::{saturating_window, strict_window, Window};
use bim_mes::text::{has_substring, patch_kept, patch_trimmed, to_lower, trim_owned};
use bim_mes::time::Timestamp;
use bim_mes::defaults::{default_batch_status, default_hu_status, default_hu_type, default_json_obj, default_location_type, default_material_type, default_true, default_uom};

const SAMPLE: &str = "550e8400-e29b-41d4-a716-446655440000";
const SAMPLE_VALUE: u128 = 0x550e8400_e29b_41d4_a716_446655440000;

#[test]
fn error_statuses() {
    assert_eq!(ApiError::InvalidUuid.status_code(), 400);
    assert_eq!(ApiError::InvalidRef(RefField::BatchId).status_code(), 400);
    assert_eq!(ApiError::NotFound(Entity::Material).status_code(), 404);
    assert_eq!(ApiError::Duplicate(Entity::Workflow).status_code(), 409);
    assert_eq!(ApiError::MaterialInUse.status_code(), 409);
    assert_eq!(ApiError::NotPending.status_code(), 409);
    assert_eq!(ApiError::NotInProgress.status_code(), 409);
    assert_eq!(ApiError::CannotComplete.status_code(), 409);
    assert_eq!(ApiError::CannotCancel.status_code(), 409);
    assert_eq!(ApiError::Database("boom".to_string()).status_code(), 500);
}

#[test]
fn error_messages() {
    assert_eq!(ApiError::InvalidUuid.message(), "Invalid UUID");
    assert_eq!(ApiError::InvalidRef(RefField::WorkflowId).message(), "Invalid workflow_id UUID");
    assert_eq!(ApiError::InvalidRef(RefField::ParentLocationId).message(), "Invalid parent_location_id UUID");
    assert_eq!(ApiError::InvalidRef(RefField::MaterialId).message(), "Invalid material_id UUID");
    assert_eq!(ApiError::InvalidRef(RefField::ProcessOrderId).message(), "Invalid process_order_id UUID");
    assert_eq!(ApiError::InvalidRef(RefField::BatchId).message(), "Invalid batch_id UUID");
    assert_eq!(ApiError::InvalidRef(RefField::LocationId).message(), "Invalid location_id UUID");
    assert_eq!(ApiError::NotFound(Entity::Workflow).message(), "Workflow not found");
    assert_eq!(ApiError::NotFound(Entity::ProcessOrder).message(), "Process order not found");
    assert_eq!(ApiError::NotFound(Entity::Material).message(), "Material not found");
    assert_eq!(ApiError::NotFound(Entity::Location).message(), "Location not found");
    assert_eq!(ApiError::NotFound(Entity::Batch).message(), "Batch not found");
    assert_eq!(ApiError::NotFound(Entity::HandlingUnit).message(), "Handling unit not found");
    assert_eq!(ApiError::Duplicate(Entity::Workflow).message(), "A workflow with that name already exists");
    assert_eq!(ApiError::Duplicate(Entity::ProcessOrder).message(), "An order with that number already exists");
    assert_eq!(ApiError::Duplicate(Entity::Material).message(), "Material number already exists");
    assert_eq!(ApiError::Duplicate(Entity::Location).message(), "Location code already exists");
    assert_eq!(ApiError::Duplicate(Entity::Batch).message(), "Batch number already exists");
    assert_eq!(ApiError::Duplicate(Entity::HandlingUnit).message(), "HU number already exists");
    assert_eq!(ApiError::MaterialInUse.message(), "Cannot delete: batches reference this material");
    assert_eq!(ApiError::NotPending.message(), "Order not found or not in 'pending' state");
    assert_eq!(ApiError::NotInProgress.message(), "Order is not in_progress");
    assert_eq!(ApiError::CannotComplete.message(), "Order not found or not in_progress");
    assert_eq!(ApiError::CannotCancel.message(), "Order not found or already completed/cancelled");
    assert_eq!(ApiError::Database("pool timed out".to_string()).message(), "pool timed out");
}

#[test]
fn failures_of_writes() {
    let dup = write_failure(
        Entity::Batch,
        "error returned from database: duplicate key value violates unique constraint",
        "Database(..)".to_string(),
    );
    assert!(matches!(dup, ApiError::Duplicate(Entity::Batch)));
    let other = write_failure(Entity::Batch, "connection reset", "Io(..)".to_string());
    assert!(matches!(other, ApiError::Database(ref t) if t == "Io(..)"));
    let fk = material_delete_failure(
        "update or delete on table \"materials\" violates foreign key constraint",
        "Database(..)".to_string(),
    );
    assert!(matches!(fk, ApiError::MaterialInUse));
    let plain = material_delete_failure("timeout", "Timeout".to_string());
    assert!(matches!(plain, ApiError::Database(ref t) if t == "Timeout"));
}

#[test]
fn lookups_and_deletes() {
    assert_eq!(found(Some(7u8), Entity::Location).unwrap(), 7);
    assert!(matches!(found::<u8>(None, Entity::Location), Err(ApiError::NotFound(Entity::Location))));
    assert!(touched(1, Entity::Workflow).is_ok());
    assert!(matches!(touched(0, Entity::Workflow), Err(ApiError::NotFound(Entity::Workflow))));
}

#[test]
fn trimming_and_search() {
    assert_eq!(trim_owned("  MAT-1 \t\n"), "MAT-1");
    assert_eq!(trim_owned("\u{3000}x y\u{a0}"), "x y");
    assert_eq!(trim_owned("   "), "");
    assert!(has_substring("abc duplicate key", "duplicate"));
    assert!(!has_substring("abc dup", "duplicate"));
    assert!(has_substring("anything", ""));
    assert_eq!(to_lower("Steel ÄB"), "steel äb");
    assert_eq!(patch_trimmed(&Some(" new ".to_string()), &"old".to_string()), "new");
    assert_eq!(patch_trimmed(&None, &" old ".to_string()), "old");
    assert_eq!(patch_kept(&Some(" new ".to_string()), &"old".to_string()), " new ");
    assert_eq!(patch_kept(&None, &" old ".to_string()), " old ");
}

#[test]
fn uuid_forms_accepted() {
    assert_eq!(parse_path_id(SAMPLE).unwrap(), SAMPLE_VALUE);
    assert_eq!(parse_path_id("550E8400E29B41D4A716446655440000").unwrap(), SAMPLE_VALUE);
    assert_eq!(parse_path_id("{550e8400-e29b-41d4-a716-446655440000}").unwrap(), SAMPLE_VALUE);
    assert_eq!(parse_path_id("URN:uuid:550e8400-e29b-41d4-a716-446655440000").unwrap(), SAMPLE_VALUE);
}

#[test]
fn uuid_forms_refused() {
    assert!(matches!(parse_path_id(""), Err(ApiError::InvalidUuid)));
    assert!(matches!(parse_path_id("not-a-uuid"), Err(ApiError::InvalidUuid)));
    assert!(matches!(parse_path_id("550e8400-e29b-41d4-a716-44665544000g"), Err(ApiError::InvalidUuid)));
    assert!(matches!(parse_path_id("550e8400e-29b-41d4-a716-446655440000"), Err(ApiError::InvalidUuid)));
    assert!(matches!(parse_path_id("(550e8400-e29b-41d4-a716-446655440000)"), Err(ApiError::InvalidUuid)));
    assert!(matches!(parse_ref("x", RefField::LocationId), Err(ApiError::InvalidRef(RefField::LocationId))));
}

#[test]
fn uuid_text_round_trip() {
    assert_eq!(id_string(SAMPLE_VALUE), SAMPLE);
    assert_eq!(id_string(0), "00000000-0000-0000-0000-000000000000");
    assert_eq!(id_string(u128::MAX), "ffffffff-ffff-ffff-ffff-ffffffffffff");
    for v in [0u128, 1, SAMPLE_VALUE, u128::MAX, 0x0123_4567_89ab_cdef_0123_4567_89ab_cdef] {
        assert_eq!(parse_path_id(&id_string(v)).unwrap(), v);
    }
    assert_eq!(opt_id_string(Some(SAMPLE_VALUE)), Some(SAMPLE.to_string()));
    assert_eq!(opt_id_string(None), None);
}

#[test]
fn fresh_ids_are_version_4() {
    let a = fresh_id();
    let b = fresh_id();
    assert_ne!(a, b);
    for v in [a, b] {
        assert_eq!((v >> 76) & 0xf, 4);
        assert_eq!((v >> 62) & 3, 2);
    }
}

#[test]
fn optional_references() {
    assert_eq!(resolve_new_ref(&None, RefField::BatchId).unwrap(), None);
    assert_eq!(resolve_new_ref(&Some(String::new()), RefField::BatchId).unwrap(), None);
    assert_eq!(resolve_new_ref(&Some(SAMPLE.to_string()), RefField::BatchId).unwrap(), Some(SAMPLE_VALUE));
    assert!(matches!(
        resolve_new_ref(&Some("zzz".to_string()), RefField::ProcessOrderId),
        Err(ApiError::InvalidRef(RefField::ProcessOrderId))
    ));
    assert_eq!(resolve_ref_change(&None, RefField::LocationId).unwrap(), RefChange::Keep);
    assert_eq!(resolve_ref_change(&Some(String::new()), RefField::LocationId).unwrap(), RefChange::Clear);
    assert_eq!(
        resolve_ref_change(&Some(SAMPLE.to_string()), RefField::LocationId).unwrap(),
        RefChange::Assign(SAMPLE_VALUE)
    );
    assert!(matches!(
        resolve_ref_change(&Some(" ".to_string()), RefField::LocationId),
        Err(ApiError::InvalidRef(RefField::LocationId))
    ));
    assert_eq!(RefChange::Keep.apply(Some(3)), Some(3));
    assert_eq!(RefChange::Clear.apply(Some(3)), None);
    assert_eq!(RefChange::Assign(9).apply(Some(3)), Some(9));
}

#[test]
fn timestamps() {
    let t = Timestamp::new(1431648000, 0).unwrap();
    assert_eq!(t.secs(), 1431648000);
    assert_eq!(t.nanos(), 0);
    assert_eq!(t.to_rfc3339(), "2015-05-15T00:00:00+00:00");
    let u = Timestamp::new(1431648000, 250_000_000).unwrap();
    assert_eq!(u.to_rfc3339(), "2015-05-15T00:00:00.250+00:00");
    assert!(Timestamp::new(0, 2_000_000_000).is_none());
    assert!(Timestamp::new(i64::MAX, 0).is_none());
    let now = Timestamp::now();
    assert!(now.secs() > 1431648000);
}

#[test]
fn page_windows() {
    assert_eq!(strict_window(None, None, 20), Window { limit: 20, offset: 0 });
    assert_eq!(strict_window(Some(3), None, 20), Window { limit: 20, offset: 40 });
    assert_eq!(strict_window(Some(2), Some(7), 50), Window { limit: 7, offset: 7 });
    assert_eq!(saturating_window(Some(0), Some(10), 50), Window { limit: 10, offset: 0 });
    assert_eq!(saturating_window(Some(4), None, 50), Window { limit: 50, offset: 150 });
    assert_eq!(strict_window(Some(1), Some(usize::MAX), 50), Window { limit: -1, offset: 0 });
}

#[test]
fn pages_are_adjacent() {
    for p in 1..5usize {
        let w = strict_window(Some(p), Some(13), 20);
        let next = strict_window(Some(p + 1), Some(13), 20);
        assert_eq!(next.offset, w.offset + w.limit);
    }
}

#[test]
fn create_defaults() {
    assert!(default_true());
    assert_eq!(default_material_type(), "raw");
    assert_eq!(default_location_type(), "warehouse");
    assert_eq!(default_batch_status(), "active");
    assert_eq!(default_hu_type(), "pallet");
    assert_eq!(default_hu_status(), "empty");
    assert_eq!(default_uom(), "kg");
    assert_eq!(default_json_obj(), "{}");
}

#[test]
fn wrapping_windows() {
    assert_eq!(strict_window(Some(0), None, 20), Window { limit: 20, offset: -20 });
    assert_eq!(strict_window(Some(0), Some(0), 20), Window { limit: 0, offset: 0 });
    assert_eq!(
        strict_window(Some(3), Some(usize::MAX), 20),
        Window { limit: -1, offset: 2usize.wrapping_mul(usize::MAX) as i64 }
    );
    assert_eq!(saturating_window(Some(0), None, 50), Window { limit: 50, offset: 0 });
    assert_eq!(saturating_window(Some(3), Some(usize::MAX), 50).offset, -2);
}

#[test]
fn timestamp_range() {
    let first: i64 = -8_334_601_228_800;
    let last: i64 = 8_210_266_876_799;
    assert!(Timestamp::new(first, 0).is_some());
    assert!(Timestamp::new(first - 1, 999_999_999).is_none());
    assert!(Timestamp::new(last, 999_999_999).is_some());
    assert!(Timestamp::new(last + 1, 0).is_none());
    assert!(Timestamp::new(59, 1_500_000_000).is_some());
    assert!(Timestamp::new(58, 1_000_000_000).is_none());
    assert!(Timestamp::new(-1, 1_999_999_999).is_some());
    assert!(Timestamp::new(0, 0).is_some());
}

#[test]
fn trimming_twice_is_trimming_once() {
    for s in ["  a b  ", "\u{2003}x\u{2028}", "", "plain"] {
        let once = trim_owned(s);
        assert_eq!(trim_owned(&once), once);
    }
}
