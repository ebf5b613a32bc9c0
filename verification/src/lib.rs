//! A terminal client for a Muserv music server.

pub mod api;
pub mod app;
pub mod json;
pub mod keys;
pub mod laws;
pub mod layout;
pub mod lists;
pub mod model;
pub mod mpv;
pub mod order;
pub mod parse;
pub mod settings;
pub mod shuffle;
pub mod sort;
pub mod state;
pub mod text;
pub mod ui;
