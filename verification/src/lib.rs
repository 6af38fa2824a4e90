//! Huck's Voice to Text: the verified core of a local dictation utility.

pub mod text;
pub mod platform;
pub mod audio;
pub mod transcript;
pub mod session;
pub mod pipeline;
pub mod settings;
pub mod engine;
pub mod pinning;
pub mod update;
pub mod paths;
pub mod bridge;
pub mod destination;
pub mod win_shortcut;
pub mod win_hook;
pub mod win_surface;
pub mod clip;
pub mod drafts;
pub mod desktop;
pub mod menu;

pub use pipeline::{complete_transcription, CompletionReport, DeliveryOutcome};
pub use session::{SessionState, StateError};
pub use transcript::Transcript;
