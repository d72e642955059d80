//! Settings, history and recording-control logic of a desktop voice
//! transcription tool.
pub mod text;
pub mod settings;
pub mod history;
pub mod shortcut;
pub mod transcription;
pub mod commands;
pub mod paths;
pub mod window;
