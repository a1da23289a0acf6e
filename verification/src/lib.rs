//! Keyboard-driven time tracking for named projects: the interaction state
//! machine (panel focus, list selection, name editing, delete confirmation)
//! and the in-memory project store it reads and mutates.
//!
//! The library does no input or output. A front end decodes keys into
//! [`key::KeyEvent`]s and hands them to [`app::App::on_key`]; after each key
//! it asks [`app::App::needs_save`], writes what [`app::App::save`] hands
//! out to the store's file, and reports the outcome with
//! [`app::App::on_saved`]. At startup it reads the file and hands what it
//! holds to [`app::App::new`].
//!
//! Every state has a mathematical view ([`app::AppView`]); what a key does
//! is the function [`app::AppView::step`] on views, and [`laws`] holds what
//! follows from it over several keys.

pub mod app;
pub mod confirm;
pub mod error;
pub mod focus;
pub mod input;
pub mod key;
pub mod laws;
pub mod model;
pub mod repository;
pub mod stateful_list;
pub mod text;
pub mod time_text;
