//! Named provider presets, and the patching of a host application's JSON
//! settings document with the environment overrides of the active preset.

pub mod cli;
pub mod commands;
pub mod config;
pub mod errors;
pub mod json;
pub mod paths;
pub mod permissions;
pub mod prompts;
pub mod provider;
pub mod settings;
pub mod text_order;

pub use errors::AppError;
pub use provider::ProviderKind;
