//! Multi-tenant voice-session orchestration: per-speaker audio buffering,
//! the analysis pipeline's decisions, the periodic scheduler, the session
//! registry, and the settings they read.

pub mod mode;
pub mod prompts;
pub mod text;
pub mod recorder;
pub mod report;
pub mod analyzer;
pub mod pipeline;
pub mod session;
pub mod registry;
pub mod scheduler;
pub mod settings;
pub mod config;
pub mod processor;
