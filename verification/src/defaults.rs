//! Values that a create request takes for the fields it leaves out.

use vstd::prelude::*;
use vstd::string::*;

verus! {

/// New materials and locations are active.
pub fn default_true() -> (r: bool)
    ensures
        r,
{
    true
}

/// Materials are raw materials unless said otherwise.
pub fn default_material_type() -> (r: String)
    ensures
        r@ == "raw"@,
{
    String::from_str("raw")
}

/// Locations are warehouses unless said otherwise.
pub fn default_location_type() -> (r: String)
    ensures
        r@ == "warehouse"@,
{
    String::from_str("warehouse")
}

/// New batches are active.
pub fn default_batch_status() -> (r: String)
    ensures
        r@ == "active"@,
{
    String::from_str("active")
}

/// Handling units are pallets unless said otherwise.
pub fn default_hu_type() -> (r: String)
    ensures
        r@ == "pallet"@,
{
    String::from_str("pallet")
}

/// New handling units are empty.
pub fn default_hu_status() -> (r: String)
    ensures
        r@ == "empty"@,
{
    String::from_str("empty")
}

/// Quantities are in kilograms unless said otherwise.
pub fn default_uom() -> (r: String)
    ensures
        r@ == "kg"@,
{
    String::from_str("kg")
}

/// Material attributes default to the empty JSON object.
pub fn default_json_obj() -> (r: String)
    ensures
        r@ == "{}"@,
{
    String::from_str("{}")
}

} // verus!
