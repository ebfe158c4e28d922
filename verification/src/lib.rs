//! Playback control for mpv rendered into an egui texture.
pub mod advanced_client;
pub mod channel;
pub mod client_api;
pub mod double;
pub mod effects;
pub mod flags;
pub mod omt_client;
pub mod player;
pub mod protocol;
pub mod render;
pub mod shared;
pub mod text;
pub mod texture;

pub use crate::advanced_client::{FileState, MpvAdvancedClient};
pub use crate::player::MpvPlayer;
