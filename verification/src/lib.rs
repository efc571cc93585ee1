//! A desktop music player's core: the playback engine that owns the audio
//! sink and serializes commands against it, with the logic around it — the
//! command boundary, the metadata-proxy responses, file naming and playlist
//! shapes — verified down to exact contracts. The audio device, the network
//! and the filesystem stay with the embedding application, which drives the
//! engine's state machine and performs its effects.

pub mod command;
pub mod engine;
pub mod file;
pub mod json;
pub mod laws;
pub mod netease;
pub mod playlist;
pub mod query;
pub mod strutil;
pub mod volume;
