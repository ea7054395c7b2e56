pub mod models;
pub mod postgresql;
