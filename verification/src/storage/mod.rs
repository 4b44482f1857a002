pub mod configuration;
pub mod revision;
