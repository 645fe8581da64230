//! Playback queue, lazy track resolution, queue paging and stream buffering
//! for a voice-channel music service, with machine-checked contracts.

pub mod commands;
pub mod convert_query;
pub mod error;
pub mod handler;
pub mod metadata;
pub mod pager;
pub mod queue;
pub mod session;
pub mod spotify_to_query;
pub mod text;
pub mod track;
pub mod utils;
pub mod youtube_api;
pub mod youtube_scraper;

pub use error::GeneralError;
pub use metadata::{Metadata, MiniMetadata, MiniUser};
pub use track::{AddedBy, LazyMetadataTrait, Track};
