pub mod text;
pub mod number;
pub mod page_response_builder;
pub mod require_role;
pub mod reply;
pub mod transaction;
pub mod password;
pub mod ids;
pub mod jwt_validator;
