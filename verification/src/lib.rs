//! Core of a terminal command launcher: the saved command entries, the
//! ranking that the fuzzy search shows, list navigation, the add/edit
//! form and the decisions taken on each terminal event.
pub mod model;
pub mod app;
pub mod fuzzy;
pub mod ranking;
pub mod input;
pub mod text;
pub mod selection;
pub mod events;
pub mod layout;
pub mod view;
