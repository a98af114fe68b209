//! Capture a screenshot and a caption, publish both to a blog, and keep media
//! playback paused around the whole run.
pub mod error;
pub mod guard;
pub mod coordinator;
pub mod envelope;
pub mod backend;
pub mod auth;
pub mod orchestrator;
pub mod markdown;
pub mod desktop;
