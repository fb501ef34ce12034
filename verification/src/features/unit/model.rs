use vstd::prelude::*;

verus! {

/// An organisational unit as it is created or edited.
pub struct Unit {
    pub id: Option<i32>,
    pub name: String,
    pub is_active: bool,
}

/// A unit row.
pub struct UnitDto {
    pub id: i32,
    pub name: String,
    pub is_active: bool,
}

/// Filter and page of the unit listing.
pub struct UnitQuery {
    pub name: Option<String>,
    pub is_active: Option<String>,
    pub page: i32,
    pub page_size: i32,
}

} // verus!
