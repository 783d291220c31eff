//! The decisions behind a shared-session viewer's orchestration pill bar.
pub mod arrival_laws;
pub mod clock;
pub mod context;
pub mod event_laws;
pub mod fixtures;
pub mod history;
pub mod ids;
pub mod laws;
pub mod status;
pub mod streamer;
pub mod task;
pub mod text;
pub mod uuid_text;
pub mod viewer;
