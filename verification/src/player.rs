use vstd::prelude::*;

verus! {

/// One row of the example players CSV, as plain record data.
#[derive(Debug, Clone)]
pub struct Player {
    pub name: String,
    pub position: String,
    pub dob: String,
    pub nationality: String,
    pub kit_number: String,
}

} // verus!
