//! Verified core of a binding to a native media-playback engine (libmpv).
//!
//! The library decides everything that does not need the native engine
//! itself: which command text or property request an operation turns into,
//! whether the engine handle may still be used, how the engine's answers map
//! to results and errors, how JSON property values decode into tracks and
//! playlist entries, which listeners an event reaches, and which player an
//! opaque identifier names. The native calls are made by the caller, which
//! hands the engine's answers back.

mod text;
pub mod engine;
pub mod error;
pub mod events;
pub mod json;
pub mod player;
pub mod protocol;
pub mod registry;
pub mod tracks;

pub use engine::{EngineHandle, Lifecycle, PropertyFormat, Request};
pub use error::MpvError;
pub use events::{EventListeners, MpvEvent, MpvEventId, PollStep};
pub use player::MpvPlayer;
pub use protocol::{escape_path, load_command_text, loadlist_command_text, LoadMode};
pub use registry::PlayerRegistry;
pub use tracks::{
    audio_tracks, current_tracks, parse_playlist, parse_tracks, select_track, subtitle_tracks, tracks_of_kind,
    video_tracks, CurrentTracks, PlaylistEntry, Track,
};
