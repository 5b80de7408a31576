//! Core library of a karaoke queue server.
//!
//! The coordination layer is modelled and verified here: the song queue
//! actor's state machine, the bounded worker-pool model, the
//! download/encode pipeline decisions, and the builders for the external
//! fetch and transcode tool invocations.  Asynchronous plumbing (channels,
//! HTTP, processes) lives outside this crate and drives these functions.

pub mod api;
pub mod broadcast;
pub mod config;
pub mod dash;
pub mod search;
pub mod pipeline;
pub mod song_queue;
pub mod text;
pub mod worker_pool;
pub mod ytdl;
