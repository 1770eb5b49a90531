//! A shared note: one text document kept in step across any number of
//! clients.
//!
//! The crate holds the synchronisation core as plain, sequential values:
//! the [`document::Document`] store, the [`bus::UpdateBus`] that fans every
//! update out to its subscribers, the [`hub::Hub`] that ties the two
//! together, and the per-connection [`session::Session`] state machine.
//! A server guards one `Hub` with a lock, feeds each session the events of
//! its connection and carries out the actions the session answers with.

pub mod wire;
pub mod update;
pub mod document;
pub mod bus;
pub mod hub;
pub mod session;
pub mod handlers;
pub mod laws;
