//! A chat-platform automation agent: an event dispatch loop that merges a
//! platform update feed with an internal stop channel, gates handling on a
//! lazily populated context, tracks group membership in a store, and renders
//! templated replies.
//!
//! The core lives in [`entice`] (the event loop and its transition function)
//! and [`stream`] (the update router); [`store`] holds the membership rows,
//! [`context`] the populated-once identity, [`templates`] the reply
//! renderer, and [`settings`] the configuration rules.

pub mod context;
pub mod entice;
pub mod errors;
pub mod models;
pub mod settings;
pub mod store;
pub mod stream;
pub mod templates;
pub mod update;
