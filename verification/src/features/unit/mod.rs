pub mod model;
pub mod services;
