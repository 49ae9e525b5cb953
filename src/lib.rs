//! A load generator for a message-stream server: listeners long-poll streams
//! and keep a running delay estimate, posters append versioned messages.
//! The decisions of each worker are verified here; the network and the
//! runtime that drive them live outside the library.

pub mod clock;
pub mod config;
pub mod listener;
pub mod poster;
pub mod text;
