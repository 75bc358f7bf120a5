//! Failures that the service reports to its clients, with their HTTP status
//! and the message that goes out with them.

use vstd::prelude::*;
use vstd::string::*;
use crate::text::{has_substring, occurs_in};

verus! {

/// A request field that names another record by its identifier.
#[derive(Clone, Copy, Debug, PartialEq, Eq, Structural)]
pub enum RefField {
    WorkflowId,
    ParentLocationId,
    MaterialId,
    ProcessOrderId,
    BatchId,
    LocationId,
}

/// The kinds of record that the service stores.
#[derive(Clone, Copy, Debug, PartialEq, Eq, Structural)]
pub enum Entity {
    Workflow,
    ProcessOrder,
    Material,
    Location,
    Batch,
    HandlingUnit,
}

/// Why a request was refused.
#[derive(Debug)]
pub enum ApiError {
    /// The identifier in the path is not a UUID.
    InvalidUuid,
    /// A body or query field that should name a record is not a UUID.
    InvalidRef(RefField),
    /// No record of that kind has the given identifier.
    NotFound(Entity),
    /// A unique number, code or name is already taken.
    Duplicate(Entity),
    /// A material cannot be deleted while batches refer to it.
    MaterialInUse,
    /// `start` on an order that is missing or not pending.
    NotPending,
    /// A step confirmed on an order that is not in progress.
    NotInProgress,
    /// `complete` on an order that is missing or not in progress.
    CannotComplete,
    /// `cancel` on an order that is missing, completed or cancelled.
    CannotCancel,
    /// The database failed; the text describes the failure.
    Database(String),
}

impl RefField {
    pub open spec fn text(self) -> Seq<char> {
        match self {
            RefField::WorkflowId => "Invalid workflow_id UUID"@,
            RefField::ParentLocationId => "Invalid parent_location_id UUID"@,
            RefField::MaterialId => "Invalid material_id UUID"@,
            RefField::ProcessOrderId => "Invalid process_order_id UUID"@,
            RefField::BatchId => "Invalid batch_id UUID"@,
            RefField::LocationId => "Invalid location_id UUID"@,
        }
    }
}

impl Entity {
    pub open spec fn not_found_text(self) -> Seq<char> {
        match self {
            Entity::Workflow => "Workflow not found"@,
            Entity::ProcessOrder => "Process order not found"@,
            Entity::Material => "Material not found"@,
            Entity::Location => "Location not found"@,
            Entity::Batch => "Batch not found"@,
            Entity::HandlingUnit => "Handling unit not found"@,
        }
    }

    pub open spec fn duplicate_text(self) -> Seq<char> {
        match self {
            Entity::Workflow => "A workflow with that name already exists"@,
            Entity::ProcessOrder => "An order with that number already exists"@,
            Entity::Material => "Material number already exists"@,
            Entity::Location => "Location code already exists"@,
            Entity::Batch => "Batch number already exists"@,
            Entity::HandlingUnit => "HU number already exists"@,
        }
    }
}

impl ApiError {
    /// The HTTP status that answers the failure.
    pub open spec fn status(&self) -> u16 {
        match self {
            ApiError::InvalidUuid | ApiError::InvalidRef(_) => 400,
            ApiError::NotFound(_) => 404,
            ApiError::Database(_) => 500,
            _ => 409,
        }
    }

    /// The message that goes out with the failure.
    pub open spec fn text(&self) -> Seq<char> {
        match self {
            ApiError::InvalidUuid => "Invalid UUID"@,
            ApiError::InvalidRef(f) => f.text(),
            ApiError::NotFound(e) => e.not_found_text(),
            ApiError::Duplicate(e) => e.duplicate_text(),
            ApiError::MaterialInUse => "Cannot delete: batches reference this material"@,
            ApiError::NotPending => "Order not found or not in 'pending' state"@,
            ApiError::NotInProgress => "Order is not in_progress"@,
            ApiError::CannotComplete => "Order not found or not in_progress"@,
            ApiError::CannotCancel => "Order not found or already completed/cancelled"@,
            ApiError::Database(t) => t@,
        }
    }

    pub fn status_code(&self) -> (r: u16)
        ensures
            r == self.status(),
    {
        match self {
            ApiError::InvalidUuid | ApiError::InvalidRef(_) => 400,
            ApiError::NotFound(_) => 404,
            ApiError::Database(_) => 500,
            _ => 409,
        }
    }

    pub fn message(&self) -> (r: String)
        ensures
            r@ == self.text(),
    {
        match self {
            ApiError::InvalidUuid => String::from_str("Invalid UUID"),
            ApiError::InvalidRef(f) => match f {
                RefField::WorkflowId => String::from_str("Invalid workflow_id UUID"),
                RefField::ParentLocationId => String::from_str("Invalid parent_location_id UUID"),
                RefField::MaterialId => String::from_str("Invalid material_id UUID"),
                RefField::ProcessOrderId => String::from_str("Invalid process_order_id UUID"),
                RefField::BatchId => String::from_str("Invalid batch_id UUID"),
                RefField::LocationId => String::from_str("Invalid location_id UUID"),
            },
            ApiError::NotFound(e) => match e {
                Entity::Workflow => String::from_str("Workflow not found"),
                Entity::ProcessOrder => String::from_str("Process order not found"),
                Entity::Material => String::from_str("Material not found"),
                Entity::Location => String::from_str("Location not found"),
                Entity::Batch => String::from_str("Batch not found"),
                Entity::HandlingUnit => String::from_str("Handling unit not found"),
            },
            ApiError::Duplicate(e) => match e {
                Entity::Workflow => String::from_str("A workflow with that name already exists"),
                Entity::ProcessOrder => String::from_str("An order with that number already exists"),
                Entity::Material => String::from_str("Material number already exists"),
                Entity::Location => String::from_str("Location code already exists"),
                Entity::Batch => String::from_str("Batch number already exists"),
                Entity::HandlingUnit => String::from_str("HU number already exists"),
            },
            ApiError::MaterialInUse => String::from_str(
                "Cannot delete: batches reference this material",
            ),
            ApiError::NotPending => String::from_str("Order not found or not in 'pending' state"),
            ApiError::NotInProgress => String::from_str("Order is not in_progress"),
            ApiError::CannotComplete => String::from_str("Order not found or not in_progress"),
            ApiError::CannotCancel => String::from_str(
                "Order not found or already completed/cancelled",
            ),
            ApiError::Database(t) => t.clone(),
        }
    }
}

/// A looked-up record, or `NotFound` for its kind.
pub fn found<T>(row: Option<T>, entity: Entity) -> (r: Result<T, ApiError>)
    ensures
        match row {
            Some(v) => r == Ok::<T, ApiError>(v),
            None => r matches Err(ApiError::NotFound(e)) && e == entity,
        },
{
    match row {
        Some(v) => Ok(v),
        None => Err(ApiError::NotFound(entity)),
    }
}

/// The outcome of a statement that must touch a row: none touched means the
/// record does not exist.
pub fn touched(rows_affected: u64, entity: Entity) -> (r: Result<(), ApiError>)
    ensures
        rows_affected > 0 <==> r is Ok,
        r matches Err(ApiError::NotFound(e)) ==> e == entity,
        r is Err ==> r matches Err(ApiError::NotFound(_)),
{
    if rows_affected > 0 {
        Ok(())
    } else {
        Err(ApiError::NotFound(entity))
    }
}

/// A failed insert or update of a record with a unique key: the database's
/// own wording (`display`) tells a taken key from other failures, which are
/// reported with their debug text.
pub fn write_failure(entity: Entity, display: &str, debug: String) -> (r: ApiError)
    ensures
        occurs_in("duplicate"@, display@) ==> r == ApiError::Duplicate(entity),
        !occurs_in("duplicate"@, display@) ==> r == ApiError::Database(debug),
{
    if has_substring(display, "duplicate") {
        ApiError::Duplicate(entity)
    } else {
        ApiError::Database(debug)
    }
}

/// A failed delete of a material: a foreign-key violation means batches
/// still refer to it.
pub fn material_delete_failure(display: &str, debug: String) -> (r: ApiError)
    ensures
        occurs_in("foreign key"@, display@) ==> r == ApiError::MaterialInUse,
        !occurs_in("foreign key"@, display@) ==> r == ApiError::Database(debug),
{
    if has_substring(display, "foreign key") {
        ApiError::MaterialInUse
    } else {
        ApiError::Database(debug)
    }
}

} // verus!
