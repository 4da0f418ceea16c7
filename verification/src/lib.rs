//! A minimal audio-track playback controller.
//!
//! The heart of the crate is [`session::Sink`], the playback-session state
//! machine: it decides when an output stream can be reused or must be
//! recreated, keeps the cumulative played-duration counter that turns a live
//! stream position into a position within the current track, and owns the
//! completion-notification channel. Device handling, decoding and the
//! background completion watcher are the caller's collaborators; the session
//! takes their readings and results as plain values and is verified for every
//! value they can produce.

pub mod chan;
pub mod laws;
pub mod session;
pub mod volume;
