//! Rhizome: the clients-and-projects model behind a terminal CRM, with its
//! forms, list navigation, search and key handling.
pub mod text;
pub mod version;
pub mod dates;
pub mod models;
pub mod forms;
pub mod sort;
pub mod config;
pub mod store;
pub mod nav;
pub mod app;
pub mod search;
pub mod updates;
pub mod events;
pub mod widgets;
pub mod screen;
