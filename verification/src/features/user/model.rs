use vstd::prelude::*;

verus! {

/// A user account.
pub struct User {
    pub id: String,
    pub name: String,
    pub username: String,
    pub password_hash: String,
    pub role_id: i32,
    pub role: String,
    pub is_active: bool,
}

/// A request to create an account.
pub struct RegisterRequest {
    pub name: String,
    pub username: String,
    pub password: String,
    pub role_id: i32,
    pub is_active: bool,
}

/// A user row of the listing.
pub struct UserDto {
    pub id: String,
    pub name: String,
    pub username: String,
    pub role_id: i32,
    pub role: String,
    pub is_active: bool,
    pub created_at: String,
    pub created_by: Option<String>,
    pub updated_at: Option<String>,
    pub updated_by: Option<String>,
}

/// An account together with the permissions of its role, as sign-in reads it.
pub struct UserLoginDto {
    pub id: String,
    pub name: String,
    pub username: String,
    pub password_hash: String,
    pub role_id: i32,
    pub role: String,
    pub is_active: bool,
    pub can_add_role: bool,
    pub can_edit_role: bool,
    pub can_add_user: bool,
    pub can_edit_user: bool,
    pub can_add_vendor: bool,
    pub can_edit_vendor: bool,
    pub can_add_project: bool,
    pub can_edit_project: bool,
    pub can_add_pm: bool,
    pub can_edit_pm: bool,
    pub can_verify_pm: bool,
    pub can_add_unit: bool,
    pub can_edit_unit: bool,
    pub can_get_user: bool,
    pub can_get_unit: bool,
    pub can_get_vendor: bool,
    pub can_get_role: bool,
    pub can_get_project: bool,
    pub can_get_pm: bool,
}

/// A request to edit an account; absent fields are left as they are.
pub struct EditUserRequest {
    pub id: String,
    pub name: Option<String>,
    pub username: Option<String>,
    pub password: Option<String>,
    pub role_id: Option<i32>,
    pub is_active: Option<bool>,
}

/// A request to change one's own password.
pub struct ChangePasswordRequest {
    pub password: String,
    pub new_password: String,
}

/// Sign-in credentials.
pub struct LoginRequest {
    pub username: String,
    pub password: String,
}

/// What a session token carries: who signed in, until when, and what the role allows.
pub struct Claims {
    pub sub: String,
    pub name: String,
    pub username: String,
    pub exp: usize,
    pub role_id: i32,
    pub role: String,
    pub can_add_role: bool,
    pub can_edit_role: bool,
    pub can_add_user: bool,
    pub can_edit_user: bool,
    pub can_add_vendor: bool,
    pub can_edit_vendor: bool,
    pub can_add_project: bool,
    pub can_edit_project: bool,
    pub can_add_pm: bool,
    pub can_edit_pm: bool,
    pub can_verify_pm: bool,
    pub can_add_unit: bool,
    pub can_edit_unit: bool,
    pub can_get_vendor: bool,
    pub can_get_user: bool,
    pub can_get_unit: bool,
    pub can_get_role: bool,
    pub can_get_project: bool,
    pub can_get_pm: bool,
}

/// Filter and page of the user listing.
pub struct UserQuery {
    pub name: Option<String>,
    pub page: i32,
    pub page_size: i32,
}

} // verus!
