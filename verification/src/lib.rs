//! Client-side state and synchronization core for a personal recipe
//! manager.
//!
//! The crate models the session/credential store, the notification
//! queue, the HTTP API facade with its closed error taxonomy, and the
//! per-field edit protocol used to mutate one part of a recipe at a
//! time.  Every state transition is a pure function with a verified
//! contract; the surrounding application performs storage, network and
//! timer I/O and feeds the results back in as plain values.

pub mod api;
pub mod baseurl;
pub mod editor;
pub mod fraction;
pub mod handlers;
pub mod numtext;
pub mod recipe;
pub mod session;
pub mod toasts;
pub mod types;
