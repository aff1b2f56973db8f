//! The terminal shown to the user and the queries it answers.

pub mod ansi_query;
pub mod emulator;
pub mod laws;
pub mod responder;
pub mod vt;
