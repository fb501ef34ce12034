use vstd::prelude::*;

verus! {

/// Filter and page of the vendor listing.
pub struct VendorQuery {
    pub name: Option<String>,
    pub page: i32,
    pub page_size: i32,
}

/// Filter and page of a vendor's project listing.
pub struct ProjectQuery {
    pub vendor_id: i32,
    pub name: Option<String>,
    pub page: i32,
    pub page_size: i32,
}

/// The project whose maintenance steps are listed.
pub struct PMQuery {
    pub project_id: i32,
}

/// A vendor as it is created or edited.
pub struct Vendor {
    pub id: Option<i32>,
    pub name: String,
    pub address: String,
    pub email: String,
    pub phone_number: String,
}

/// A vendor row of the listing, with the number of its projects.
pub struct VendorDto {
    pub id: i32,
    pub name: String,
    pub address: String,
    pub email: String,
    pub phone_number: String,
    pub created_at: String,
    pub updated_at: String,
    pub count_project: i64,
}

/// A project as it is created or edited.
pub struct Project {
    pub id: Option<i32>,
    pub vendor_id: i32,
    pub name: String,
    pub description: String,
    pub pic_name: Option<String>,
    pub pic_email: Option<String>,
    pub pic_number: Option<String>,
    pub pm_count: i32,
}

/// A project row of the listing, with its maintenance counts.
pub struct ProjectDto {
    pub id: i32,
    pub vendor_id: i32,
    pub name: String,
    pub description: String,
    pub pic_name: Option<String>,
    pub pic_email: Option<String>,
    pub pic_number: Option<String>,
    pub pm_count: i32,
    pub created_at: String,
    pub updated_at: String,
    pub count_pm_uploaded: i64,
    pub count_pm_verified: i64,
    pub count_pm_unverified: i64,
}

/// A preventive-maintenance step of a project.
pub struct ProjectPMDto {
    pub id: i32,
    pub project_id: i32,
    pub pm_order: i32,
    pub pm_description: String,
    pub url_file: String,
    pub is_verified: bool,
    pub verified_at: Option<String>,
    pub created_at: String,
}

/// A verification verdict on a maintenance step.
pub struct VerifyPM {
    pub id: i32,
    pub is_verified: bool,
}

} // verus!
