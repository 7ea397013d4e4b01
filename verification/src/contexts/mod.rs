pub mod base_context;
pub mod error_context;
