//! The mode machine of a terminal HTTP client.
//!
//! The user interface is always in exactly one [`app_states::AppState`]. Each
//! method of [`app::App`] in [`change_app_state`] is one named transition: it
//! checks its guard, copies what the target mode edits out of the shared data,
//! and commits the new mode. [`model`] states every transition as a function on
//! the view of the application, and [`laws`] proves what holds of all of them.

pub mod app_states;
pub mod text_input;
pub mod key_value;
pub mod body;
pub mod request;
pub mod cookies;
pub mod shared;
pub mod table;
pub mod app;
pub mod model;
pub mod change_app_state;
pub mod laws;
