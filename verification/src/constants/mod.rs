pub mod default_settings;
pub mod errors;
pub mod types;
