//! Admission of callers by API key.

pub mod api_key;

pub use api_key::ApiKey;
pub use api_key::ApiKeyValidator;
