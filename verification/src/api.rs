//! The two verified components: the credential store and the completion
//! client, together with the error taxonomy they share.

pub mod config;
pub mod manage_errors;
pub mod mixtral_api;

pub use config::ConfigFile;
pub use manage_errors::AppError;
pub use mixtral_api::MixtralAiApi;
