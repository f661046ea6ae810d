//! Core logic of a web radar: configuration checks, offset tables, the
//! entity scan that turns sampled game memory into radar frames, poll
//! pacing, and the websocket request protocol.

pub mod cli;
pub mod comms;
pub mod config;
pub mod entity;
pub mod offsets;
pub mod offsets_file;
pub mod pacing;
pub mod radar;
pub mod scan;
pub mod text;
pub mod vec3;
pub mod websocket;
