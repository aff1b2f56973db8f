//! The logic of a terminal client for BBS, MUD and SSH hosts: the address book
//! and its forms, the telnet and SSH negotiations, the answers to terminal
//! queries, and the state machine that ties keys and network events together.
//!
//! Everything here is verified; sockets, files and drawing are left to the
//! program around the library.

pub mod app;
pub mod config;
pub mod entry;
pub mod events;
pub mod keys;
pub mod network;
pub mod popup;
pub mod terminal;
pub mod text;
pub mod ui;
pub mod views;
