//! The decision logic of an audio node: sessions, players, playback, voice
//! bridging, configuration, statistics and the rules of the HTTP interface.

pub mod about;
pub mod bridge;
pub mod bridge_laws;
pub mod command_laws;
pub mod commands;
pub mod config;
pub mod config_debug;
pub mod config_laws;
pub mod encoding;
pub mod environment;
pub mod filter_laws;
pub mod filters;
pub mod handler_laws;
pub mod handlers;
pub mod http;
pub mod ieee;
pub mod json;
pub mod media;
pub mod media_laws;
pub mod node_laws;
pub mod outbound_laws;
pub mod outside;
pub mod playback;
pub mod playback_command_laws;
pub mod playback_laws;
pub mod player;
pub mod player_laws;
pub mod probe;
pub mod protocol;
pub mod request_laws;
pub mod session;
pub mod session_laws;
pub mod session_life_laws;
pub mod setting_laws;
pub mod shard;
pub mod socket;
pub mod source;
pub mod span;
pub mod stats;
pub mod stats_laws;
pub mod stretch;
pub mod text;
pub mod text_laws;
pub mod text_map;
pub mod update;
pub mod update_laws;
pub mod update_play_laws;
pub mod voice;
pub mod wire;
pub mod wire_laws;
