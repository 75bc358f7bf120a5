use bim_mes::batch::{
    batch_responses, create_batch, create_batch_request, update_batch, update_batch_request, BatchFilter, BatchResponse, CreateBatchBody,
    MaterialSnapshot, UpdateBatchBody,
};
use bim_mes::error::{ApiError, Entity, RefField};
use bim_mes::handling_unit::{
    attach, create_handling_unit, create_handling_unit_request, handling_unit_responses, relink, update_handling_unit,
    update_handling_unit_request, CreateHandlingUnitBody,
    HandlingUnitResponse, HuFilter, LinkChange, UpdateHandlingUnitBody,
};
use bim_mes::ident::RefChange;
use bim_mes::location::{
    create_location, location_responses, update_location, update_location_request, CreateLocationBody, LocationFilter,
    LocationResponse, UpdateLocationBody,
};
use bim_mes::material::{
    create_material, material_responses, update_material, update_material_request, CreateMaterialBody, MaterialFilter, MaterialQuery,
    MaterialResponse, UpdateMaterialBody,
};
use bim_mes::paging::Window;
use bim_mes::time::Timestamp;

const U1: &str = "00000000-0000-0000-0000-000000000011";
const U2: &str = "00000000-0000-0000-0000-000000000022";

fn at(secs: i64) -> Timestamp {
    Timestamp::new(secs, 0).unwrap()
}

fn material_body() -> CreateMaterialBody {
    CreateMaterialBody {
        material_number: " MAT-10001 ".to_string(),
        name: " Steel ".to_string(),
        description: String::new(),
        material_type: "raw".to_string(),
        unit_of_measure: " kg".to_string(),
        attributes: "{\"grade\":\"A\"}".to_string(),
        is_active: true,
    }
}

#[test]
fn material_create_and_patch() {
    let m = create_material(&material_body(), 5, at(1431648000));
    assert_eq!(m.material_number, "MAT-10001");
    assert_eq!(m.name, "Steel");
    assert_eq!(m.unit_of_measure, "kg");
    assert_eq!(m.attributes, "{\"grade\":\"A\"}");
    assert!(m.is_active);
    let patch = UpdateMaterialBody {
        material_number: None,
        name: Some("  Steel 2 ".to_string()),
        description: None,
        material_type: None,
        unit_of_measure: None,
        attributes: Some("{}".to_string()),
        is_active: Some(false),
    };
    let u = update_material(&m, &patch, at(1431648001));
    assert_eq!(u.name, "Steel 2");
    assert_eq!(u.material_number, "MAT-10001");
    assert_eq!(u.attributes, "{}");
    assert!(!u.is_active);
    assert_eq!(u.created_at.secs(), 1431648000);
    let r = MaterialResponse::from(&u);
    assert_eq!(r.id, "00000000-0000-0000-0000-000000000005");
    assert_eq!(r.updated_at, "2015-05-15T00:00:01+00:00");
    assert_eq!(material_responses(&vec![u]).len(), 1);
}

#[test]
fn material_queries() {
    let mut f = MaterialFilter { page: Some(0), limit: None, material_type: None, is_active: None, search: None };
    assert!(matches!(f.query(), MaterialQuery::All));
    assert_eq!(f.window(), Window { limit: 50, offset: 0 });
    f.is_active = Some(false);
    assert!(matches!(f.query(), MaterialQuery::Active(false)));
    f.is_active = None;
    f.material_type = Some("raw".to_string());
    assert!(matches!(f.query(), MaterialQuery::OfType(ref t) if t == "raw"));
    f.material_type = None;
    f.search = Some("StEeL".to_string());
    assert!(matches!(f.query(), MaterialQuery::Search(ref p) if p == "%steel%"));
    f.is_active = Some(true);
    assert!(matches!(f.query(), MaterialQuery::All));
}

#[test]
fn location_create_and_patch() {
    let body = CreateLocationBody {
        location_code: " WH-A1 ".to_string(),
        name: "Main".to_string(),
        description: String::new(),
        location_type: "warehouse".to_string(),
        parent_location_id: Some(String::new()),
        is_active: true,
    };
    let l = create_location(&body, 1, at(0)).unwrap();
    assert_eq!(l.location_code, "WH-A1");
    assert_eq!(l.parent_location_id, None);
    let child = create_location(
        &CreateLocationBody { parent_location_id: Some(U1.to_string()), ..body },
        2,
        at(0),
    )
    .unwrap();
    assert_eq!(child.parent_location_id, Some(0x11));
    let bad = CreateLocationBody {
        location_code: "x".to_string(),
        name: "x".to_string(),
        description: String::new(),
        location_type: "lab".to_string(),
        parent_location_id: Some("42".to_string()),
        is_active: false,
    };
    assert!(matches!(create_location(&bad, 3, at(0)), Err(ApiError::InvalidRef(RefField::ParentLocationId))));

    let mut patch = UpdateLocationBody {
        location_code: None,
        name: Some(" Annex ".to_string()),
        description: None,
        location_type: None,
        parent_location_id: None,
        is_active: None,
    };
    let kept = update_location(&child, &patch, at(1)).unwrap();
    assert_eq!(kept.parent_location_id, Some(0x11));
    assert_eq!(kept.name, "Annex");
    patch.parent_location_id = Some(String::new());
    assert_eq!(update_location(&child, &patch, at(1)).unwrap().parent_location_id, None);
    patch.parent_location_id = Some(U2.to_string());
    assert_eq!(update_location(&child, &patch, at(1)).unwrap().parent_location_id, Some(0x22));
    patch.parent_location_id = Some("bogus".to_string());
    assert!(matches!(update_location(&child, &patch, at(1)), Err(ApiError::InvalidRef(RefField::ParentLocationId))));

    let r = LocationResponse::from(&child);
    assert_eq!(r.parent_location_id.as_deref(), Some(U1));
    assert_eq!(location_responses(&vec![l, child]).len(), 2);
}

#[test]
fn location_queries() {
    let mut f = LocationFilter { page: None, limit: Some(10), location_type: None, is_active: None, parent_id: None };
    let q = f.query().unwrap();
    assert_eq!((q.location_type, q.is_active, q.parent_location_id), (None, None, None));
    f.parent_id = Some(U1.to_string());
    let q = f.query().unwrap();
    assert_eq!((q.location_type, q.is_active, q.parent_location_id), (None, None, Some(0x11)));
    f.location_type = Some("lab".to_string());
    f.is_active = Some(true);
    let q = f.query().unwrap();
    assert_eq!(q.location_type.as_deref(), Some("lab"));
    assert_eq!((q.is_active, q.parent_location_id), (Some(true), Some(0x11)));
    f.parent_id = Some("nowhere".to_string());
    assert!(matches!(f.query(), Err(ApiError::InvalidRef(RefField::ParentLocationId))));
    assert_eq!(f.window(), Window { limit: 10, offset: 0 });
}

fn batch_body() -> CreateBatchBody {
    CreateBatchBody {
        batch_number: " BAT-2024-00042 ".to_string(),
        material_id: U1.to_string(),
        quantity: "12.5".to_string(),
        unit_of_measure: "kg".to_string(),
        status: " active ".to_string(),
        manufactured_date: "2024-01-01".to_string(),
        expiry_date: " 2025-01-01 ".to_string(),
        notes: String::new(),
        process_order_id: None,
    }
}

fn steel() -> MaterialSnapshot {
    MaterialSnapshot { id: 0x11, material_number: " MAT-1 ".to_string(), name: "Steel".to_string() }
}

#[test]
fn batch_create_and_patch() {
    let body = batch_body();
    assert_eq!(body.material_ref().unwrap(), 0x11);
    let b = create_batch(&body, &steel(), 9, at(0)).unwrap();
    assert_eq!(b.batch_number, "BAT-2024-00042");
    assert_eq!(b.material_number, " MAT-1 ");
    assert_eq!(b.status, "active");
    assert_eq!(b.expiry_date, "2025-01-01");
    assert_eq!(b.quantity, "12.5");
    assert_eq!(b.process_order_id, None);
    let with_po = create_batch(&CreateBatchBody { process_order_id: Some(U2.to_string()), ..batch_body() }, &steel(), 9, at(0)).unwrap();
    assert_eq!(with_po.process_order_id, Some(0x22));
    assert!(matches!(
        create_batch(&CreateBatchBody { process_order_id: Some("x".to_string()), ..batch_body() }, &steel(), 9, at(0)),
        Err(ApiError::InvalidRef(RefField::ProcessOrderId))
    ));
    let bad = CreateBatchBody { material_id: "x".to_string(), ..batch_body() };
    assert!(matches!(bad.material_ref(), Err(ApiError::InvalidRef(RefField::MaterialId))));

    let patch = UpdateBatchBody {
        batch_number: None,
        material_id: Some(U2.to_string()),
        quantity: Some("3".to_string()),
        unit_of_measure: None,
        status: Some(" released".to_string()),
        manufactured_date: None,
        expiry_date: None,
        notes: Some(" checked ".to_string()),
        process_order_id: Some(String::new()),
    };
    assert_eq!(patch.material_ref().unwrap(), Some(0x22));
    let copper = MaterialSnapshot { id: 0x22, material_number: "MAT-2".to_string(), name: "Copper".to_string() };
    let u = update_batch(&with_po, &patch, Some(copper), at(1)).unwrap();
    assert_eq!(u.material_id, 0x22);
    assert_eq!(u.material_name, "Copper");
    assert_eq!(u.quantity, "3");
    assert_eq!(u.status, "released");
    assert_eq!(u.notes, "checked");
    assert_eq!(u.process_order_id, None);
    assert_eq!(u.batch_number, "BAT-2024-00042");
    let kept = update_batch(&b, &UpdateBatchBody { material_id: None, process_order_id: None, ..patch }, None, at(1)).unwrap();
    assert_eq!(kept.material_name, "Steel");
    assert_eq!(kept.material_id, 0x11);

    let r = BatchResponse::from(&u);
    assert_eq!(r.material_id, U2);
    assert_eq!(r.quantity, "3");
    assert_eq!(r.process_order_id, None);
    assert_eq!(batch_responses(&vec![u, b]).len(), 2);
}

#[test]
fn batch_queries() {
    let mut f = BatchFilter { page: Some(2), limit: Some(10), material_id: None, status: None };
    let q = f.query().unwrap();
    assert_eq!((q.material_id, q.status), (None, None));
    assert_eq!(f.window(), Window { limit: 10, offset: 10 });
    f.material_id = Some(U1.to_string());
    let q = f.query().unwrap();
    assert_eq!((q.material_id, q.status), (Some(0x11), None));
    f.status = Some("active".to_string());
    let q = f.query().unwrap();
    assert_eq!(q.material_id, Some(0x11));
    assert_eq!(q.status.as_deref(), Some("active"));
    f.material_id = Some("nope".to_string());
    assert!(matches!(f.query(), Err(ApiError::InvalidRef(RefField::MaterialId))));
    f.material_id = None;
    let q = f.query().unwrap();
    assert_eq!((q.material_id, q.status.as_deref()), (None, Some("active")));
}

fn hu_body() -> CreateHandlingUnitBody {
    CreateHandlingUnitBody {
        hu_number: " HU-00000123 ".to_string(),
        description: String::new(),
        hu_type: "pallet".to_string(),
        status: "empty".to_string(),
        batch_id: Some(U1.to_string()),
        quantity: "0".to_string(),
        unit_of_measure: "kg".to_string(),
        location_id: None,
    }
}

#[test]
fn handling_unit_create() {
    let body = hu_body();
    assert_eq!(body.batch_ref().unwrap(), Some(0x11));
    assert_eq!(body.location_ref().unwrap(), None);
    assert!(matches!(
        CreateHandlingUnitBody { location_id: Some("q".to_string()), ..hu_body() }.location_ref(),
        Err(ApiError::InvalidRef(RefField::LocationId))
    ));
    let batch = attach(Some(0x11), Some("BAT-1".to_string()), Entity::Batch).unwrap();
    let location = attach(None, None, Entity::Location).unwrap();
    assert!(matches!(attach(Some(1), None, Entity::Location), Err(ApiError::NotFound(Entity::Location))));
    let h = create_handling_unit(&body, batch, location, 4, at(0));
    assert_eq!(h.hu_number, "HU-00000123");
    assert_eq!(h.batch_id, Some(0x11));
    assert_eq!(h.batch_number, "BAT-1");
    assert_eq!(h.location_id, None);
    assert_eq!(h.location_code, "");
    let r = HandlingUnitResponse::from(&h);
    assert_eq!(r.batch_id.as_deref(), Some(U1));
    assert_eq!(r.location_id, None);
    assert_eq!(handling_unit_responses(&vec![h]).len(), 1);
}

#[test]
fn handling_unit_patch() {
    let h = create_handling_unit(
        &CreateHandlingUnitBody { location_id: Some(U2.to_string()), ..hu_body() },
        attach(Some(0x11), Some("BAT-1".to_string()), Entity::Batch).unwrap(),
        attach(Some(0x22), Some("WH-A1".to_string()), Entity::Location).unwrap(),
        4,
        at(0),
    );
    let keep_all = UpdateHandlingUnitBody {
        hu_number: None,
        description: None,
        hu_type: None,
        status: None,
        batch_id: None,
        quantity: None,
        unit_of_measure: None,
        location_id: None,
    };
    let patch = UpdateHandlingUnitBody {
        hu_number: None,
        description: Some(" dented ".to_string()),
        hu_type: None,
        status: Some("damaged".to_string()),
        batch_id: Some(String::new()),
        quantity: Some("7.25".to_string()),
        unit_of_measure: None,
        location_id: Some(U1.to_string()),
    };
    assert_eq!(patch.batch_change().unwrap(), RefChange::Clear);
    assert_eq!(patch.location_change().unwrap(), RefChange::Assign(0x11));
    assert!(matches!(relink(RefChange::Assign(0x11), None, Entity::Location), Err(ApiError::NotFound(Entity::Location))));
    let batch = relink(RefChange::Clear, None, Entity::Batch).unwrap();
    let location = relink(RefChange::Assign(0x11), Some("QA-1".to_string()), Entity::Location).unwrap();
    let u = update_handling_unit(&h, &patch, batch, location, at(1));
    assert_eq!(u.batch_id, None);
    assert_eq!(u.batch_number, "");
    assert_eq!(u.location_id, Some(0x11));
    assert_eq!(u.location_code, "QA-1");
    assert_eq!(u.description, "dented");
    assert_eq!(u.quantity, "7.25");
    assert_eq!(u.hu_number, "HU-00000123");
    let kept = update_handling_unit(&h, &keep_all, LinkChange::Keep, LinkChange::Keep, at(1));
    assert_eq!(kept.batch_number, "BAT-1");
    assert_eq!(kept.location_code, "WH-A1");
    let bad = UpdateHandlingUnitBody { batch_id: Some("zz".to_string()), ..patch };
    assert!(matches!(bad.batch_change(), Err(ApiError::InvalidRef(RefField::BatchId))));
}

#[test]
fn handling_unit_queries() {
    let mut f = HuFilter { page: None, limit: None, batch_id: None, location_id: None, status: None, hu_type: Some("drum".to_string()) };
    let q = f.query().unwrap();
    assert_eq!((q.batch_id, q.location_id, q.status), (None, None, None));
    assert_eq!(q.hu_type.as_deref(), Some("drum"));
    f.status = Some("full".to_string());
    f.batch_id = Some(U1.to_string());
    f.location_id = Some(U2.to_string());
    let q = f.query().unwrap();
    assert_eq!((q.batch_id, q.location_id), (Some(0x11), Some(0x22)));
    assert_eq!((q.status.as_deref(), q.hu_type.as_deref()), (Some("full"), Some("drum")));
    f.location_id = Some("x".to_string());
    assert!(matches!(f.query(), Err(ApiError::InvalidRef(RefField::LocationId))));
    f.batch_id = Some("y".to_string());
    assert!(matches!(f.query(), Err(ApiError::InvalidRef(RefField::BatchId))));
    assert_eq!(f.window(), Window { limit: 50, offset: 0 });
}

#[test]
fn empty_patches_keep_new_records() {
    let m = create_material(&material_body(), 5, at(0));
    let m2 = update_material(
        &m,
        &UpdateMaterialBody {
            material_number: None,
            name: None,
            description: None,
            material_type: None,
            unit_of_measure: None,
            attributes: None,
            is_active: None,
        },
        at(1),
    );
    assert_eq!(
        (m2.material_number.as_str(), m2.name.as_str(), m2.unit_of_measure.as_str(), m2.attributes.as_str(), m2.is_active),
        (m.material_number.as_str(), m.name.as_str(), m.unit_of_measure.as_str(), m.attributes.as_str(), m.is_active)
    );
    assert_eq!(m2.updated_at.secs(), 1);

    let l = create_location(
        &CreateLocationBody {
            location_code: " A ".to_string(),
            name: " B ".to_string(),
            description: " C ".to_string(),
            location_type: " lab ".to_string(),
            parent_location_id: Some(U1.to_string()),
            is_active: false,
        },
        1,
        at(0),
    )
    .unwrap();
    let l2 = update_location(
        &l,
        &UpdateLocationBody {
            location_code: None,
            name: None,
            description: None,
            location_type: None,
            parent_location_id: None,
            is_active: None,
        },
        at(1),
    )
    .unwrap();
    assert_eq!(
        (l2.location_code.as_str(), l2.name.as_str(), l2.description.as_str(), l2.location_type.as_str()),
        ("A", "B", "C", "lab")
    );
    assert_eq!((l2.parent_location_id, l2.is_active), (Some(0x11), false));

    let b = create_batch(&batch_body(), &steel(), 9, at(0)).unwrap();
    let b2 = update_batch(
        &b,
        &UpdateBatchBody {
            batch_number: None,
            material_id: None,
            quantity: None,
            unit_of_measure: None,
            status: None,
            manufactured_date: None,
            expiry_date: None,
            notes: None,
            process_order_id: None,
        },
        None,
        at(1),
    )
    .unwrap();
    assert_eq!(
        (b2.batch_number.as_str(), b2.status.as_str(), b2.expiry_date.as_str(), b2.quantity.as_str(), b2.material_number.as_str()),
        (b.batch_number.as_str(), b.status.as_str(), b.expiry_date.as_str(), b.quantity.as_str(), b.material_number.as_str())
    );

    let h = create_handling_unit(&hu_body(), attach(Some(0x11), Some("B-1".to_string()), Entity::Batch).unwrap(), None, 4, at(0));
    let h2 = update_handling_unit(
        &h,
        &UpdateHandlingUnitBody {
            hu_number: None,
            description: None,
            hu_type: None,
            status: None,
            batch_id: None,
            quantity: None,
            unit_of_measure: None,
            location_id: None,
        },
        LinkChange::Keep,
        LinkChange::Keep,
        at(1),
    );
    assert_eq!(
        (h2.hu_number.as_str(), h2.batch_id, h2.batch_number.as_str(), h2.location_id, h2.quantity.as_str()),
        ("HU-00000123", Some(0x11), "B-1", None, "0")
    );
}

#[test]
fn batch_refusal_order() {
    let ok = create_batch_request(&batch_body(), Some(("MAT-1".to_string(), "Steel".to_string())), 3, at(0)).unwrap();
    assert_eq!((ok.material_id, ok.material_name.as_str()), (0x11, "Steel"));
    assert!(matches!(create_batch_request(&batch_body(), None, 3, at(0)), Err(ApiError::NotFound(Entity::Material))));
    let both_bad = CreateBatchBody { material_id: "m".to_string(), process_order_id: Some("p".to_string()), ..batch_body() };
    assert!(matches!(create_batch_request(&both_bad, None, 3, at(0)), Err(ApiError::InvalidRef(RefField::MaterialId))));
    let po_bad = CreateBatchBody { process_order_id: Some("p".to_string()), ..batch_body() };
    assert!(matches!(
        create_batch_request(&po_bad, Some(("M".to_string(), "N".to_string())), 3, at(0)),
        Err(ApiError::InvalidRef(RefField::ProcessOrderId))
    ));

    let patch = UpdateBatchBody {
        batch_number: None,
        material_id: Some("bad".to_string()),
        quantity: None,
        unit_of_measure: None,
        status: None,
        manufactured_date: None,
        expiry_date: None,
        notes: None,
        process_order_id: Some("bad".to_string()),
    };
    assert!(matches!(update_batch_request(&None, &patch, None, at(1)), Err(ApiError::NotFound(Entity::Batch))));
    let cur = Some(ok);
    assert!(matches!(update_batch_request(&cur, &patch, None, at(1)), Err(ApiError::InvalidRef(RefField::MaterialId))));
    let named = UpdateBatchBody { material_id: Some(U2.to_string()), ..patch };
    assert!(matches!(update_batch_request(&cur, &named, None, at(1)), Err(ApiError::NotFound(Entity::Material))));
    assert!(matches!(
        update_batch_request(&cur, &named, Some(("M2".to_string(), "Copper".to_string())), at(1)),
        Err(ApiError::InvalidRef(RefField::ProcessOrderId))
    ));
    let good = UpdateBatchBody { process_order_id: None, ..named };
    let u = update_batch_request(&cur, &good, Some(("M2".to_string(), "Copper".to_string())), at(1)).unwrap();
    assert_eq!((u.material_id, u.material_number.as_str()), (0x22, "M2"));
}

#[test]
fn handling_unit_refusal_order() {
    let both_bad = CreateHandlingUnitBody { batch_id: Some("b".to_string()), location_id: Some("l".to_string()), ..hu_body() };
    assert!(matches!(
        create_handling_unit_request(&both_bad, None, None, 1, at(0)),
        Err(ApiError::InvalidRef(RefField::BatchId))
    ));
    let missing_batch = CreateHandlingUnitBody { location_id: Some("l".to_string()), ..hu_body() };
    assert!(matches!(
        create_handling_unit_request(&missing_batch, None, None, 1, at(0)),
        Err(ApiError::NotFound(Entity::Batch))
    ));
    assert!(matches!(
        create_handling_unit_request(&missing_batch, Some("B".to_string()), None, 1, at(0)),
        Err(ApiError::InvalidRef(RefField::LocationId))
    ));
    let loc = CreateHandlingUnitBody { location_id: Some(U2.to_string()), ..hu_body() };
    assert!(matches!(
        create_handling_unit_request(&loc, Some("B".to_string()), None, 1, at(0)),
        Err(ApiError::NotFound(Entity::Location))
    ));
    let h = create_handling_unit_request(&loc, Some("B".to_string()), Some("WH".to_string()), 1, at(0)).unwrap();
    assert_eq!((h.batch_number.as_str(), h.location_code.as_str(), h.location_id), ("B", "WH", Some(0x22)));

    let patch = UpdateHandlingUnitBody {
        hu_number: None,
        description: None,
        hu_type: None,
        status: None,
        batch_id: Some("b".to_string()),
        quantity: None,
        unit_of_measure: None,
        location_id: Some("l".to_string()),
    };
    assert!(matches!(
        update_handling_unit_request(&None, &patch, None, None, at(1)),
        Err(ApiError::NotFound(Entity::HandlingUnit))
    ));
    let cur = Some(h);
    assert!(matches!(
        update_handling_unit_request(&cur, &patch, None, None, at(1)),
        Err(ApiError::InvalidRef(RefField::BatchId))
    ));
    let named = UpdateHandlingUnitBody { batch_id: Some(U1.to_string()), ..patch };
    assert!(matches!(
        update_handling_unit_request(&cur, &named, None, None, at(1)),
        Err(ApiError::NotFound(Entity::Batch))
    ));
    assert!(matches!(
        update_handling_unit_request(&cur, &named, Some("B2".to_string()), None, at(1)),
        Err(ApiError::InvalidRef(RefField::LocationId))
    ));
    let named2 = UpdateHandlingUnitBody { location_id: Some(String::new()), ..named };
    let u = update_handling_unit_request(&cur, &named2, Some("B2".to_string()), None, at(1)).unwrap();
    assert_eq!((u.batch_id, u.batch_number.as_str(), u.location_id, u.location_code.as_str()), (Some(0x11), "B2", None, ""));
}

#[test]
fn master_patch_requests() {
    let body = UpdateMaterialBody {
        material_number: None,
        name: None,
        description: None,
        material_type: None,
        unit_of_measure: None,
        attributes: None,
        is_active: None,
    };
    assert!(matches!(update_material_request(&None, &body, at(1)), Err(ApiError::NotFound(Entity::Material))));
    let m = create_material(&material_body(), 5, at(0));
    assert_eq!(update_material_request(&Some(m), &body, at(1)).unwrap().name, "Steel");
    let lb = UpdateLocationBody {
        location_code: None,
        name: None,
        description: None,
        location_type: None,
        parent_location_id: Some("bad".to_string()),
        is_active: None,
    };
    assert!(matches!(update_location_request(&None, &lb, at(1)), Err(ApiError::NotFound(Entity::Location))));
}
