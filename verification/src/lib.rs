//! A disk-usage monitor for the terminal: the state of the interface, what each key,
//! click and command-line flag does to it, and the text it shows, with their contracts.

pub mod cli;
pub mod app;
pub mod clipboard;
pub mod columns;
pub mod helpers;
pub mod keys;
pub mod laws;
pub mod listing;
pub mod mouse;
pub mod order;
pub mod palette;
pub mod prefs;
pub mod report;
pub mod system;
pub mod tables;
pub mod tooltips;
pub mod text;
pub mod types;

