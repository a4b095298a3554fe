pub mod api;
pub mod queries;
