//! Translates natural-language requests into shell commands by delegating
//! to a remote language model, caching and replaying prior translations.
//!
//! The crate covers the provider-abstraction and caching core: a request
//! pipeline that builds a mode-specific prompt from shell context,
//! dispatches it to one of several interchangeable backends, and
//! short-circuits repeat requests through a content-addressed local cache.

pub mod args;
pub mod cache;
pub mod context;
pub mod fingerprint;
pub mod mode;
pub mod orchestrator;
pub mod prompt;
pub mod provider;

pub use args::Args;
pub use cache::Cache;
pub use context::ShellContext;
pub use mode::RequestMode;
pub use orchestrator::PreparedRequest;
pub use orchestrator::RequestOrchestrator;
pub use prompt::PromptBuilder;
pub use provider::ProviderConfig;
pub use provider::ProviderError;
pub use provider::ProviderKind;
