//! Prompt segments, the prompt cache and the draft providers of the local language models.

pub mod backend_laws;
pub mod backends;
pub mod cache_manager;
pub mod draft_provider;
pub mod hashing;
pub mod laws;
pub mod native_backend;
pub mod prompt_segments;
pub mod synthetic_token_cache;
