//! Models of the Lavalink wire format, with their JSON forms.

pub mod track;
pub mod load;
pub mod stats;
pub mod player;
pub mod events;

pub use events::{Event, EventTrack, PlayerUpdate, Ready, ServerMessage, TrackEndReason};
pub use load::{Exception, LoadResult, Playlist, PlaylistInfo, Severity};
pub use player::{Player, PlayerState, UpdatePlayer, UpdatePlayerTrack, VoiceState};
pub use stats::{Cpu, FrameStats, Memory, Stats};
pub use track::{Track, TrackInfo};
pub mod laws;
pub mod fields;
