pub mod model;
pub mod services;
pub mod upload;
pub mod forms;
