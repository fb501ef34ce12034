pub mod admin;
pub mod role;
pub mod unit;
pub mod user;
pub mod vendor_project;
