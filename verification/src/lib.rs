pub mod database;
pub mod features;
pub mod util;
