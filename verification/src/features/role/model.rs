use vstd::prelude::*;

verus! {

/// A role and the permissions it grants, as it is created or edited.
pub struct Role {
    pub id: Option<i32>,
    pub name: String,
    pub can_add_role: bool,
    pub can_edit_role: bool,
    pub can_add_user: bool,
    pub can_edit_user: bool,
    pub can_add_vendor: bool,
    pub can_edit_vendor: bool,
    pub can_add_project: bool,
    pub can_edit_project: bool,
    pub can_add_pm: bool,
    pub can_edit_pm: bool,
    pub can_verify_pm: bool,
    pub can_add_unit: bool,
    pub can_edit_unit: bool,
    pub can_get_user: bool,
    pub can_get_unit: bool,
    pub can_get_vendor: bool,
    pub can_get_role: bool,
    pub can_get_project: bool,
    pub can_get_pm: bool,
    pub is_active: bool,
}

/// A role row of the listing.
pub struct RoleDto {
    pub id: i32,
    pub name: String,
    pub can_add_role: bool,
    pub can_edit_role: bool,
    pub can_add_user: bool,
    pub can_edit_user: bool,
    pub can_add_vendor: bool,
    pub can_edit_vendor: bool,
    pub can_add_project: bool,
    pub can_edit_project: bool,
    pub can_add_pm: bool,
    pub can_edit_pm: bool,
    pub can_verify_pm: bool,
    pub can_add_unit: bool,
    pub can_edit_unit: bool,
    pub can_get_user: bool,
    pub can_get_unit: bool,
    pub can_get_vendor: bool,
    pub can_get_role: bool,
    pub can_get_project: bool,
    pub can_get_pm: bool,
    pub is_active: bool,
    pub created_at: Option<String>,
    pub created_by: Option<String>,
    pub updated_at: Option<String>,
    pub updated_by: Option<String>,
}

/// Filter and page of the role listing; `is_report` asks for every row at once.
pub struct RoleQuery {
    pub name: Option<String>,
    pub is_active: Option<bool>,
    pub page: i32,
    pub page_size: i32,
    pub is_report: Option<bool>,
}

} // verus!
