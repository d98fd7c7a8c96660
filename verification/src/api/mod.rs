pub mod error;
pub mod models;
pub mod requests;

pub use error::ApiError;
