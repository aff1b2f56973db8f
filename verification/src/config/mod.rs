//! What is kept on disk: settings, the address book, known hosts and session
//! captures. The files themselves are read and written by the program around the
//! library.

pub mod address_book;
pub mod capture;
pub mod clock;
pub mod files;
pub mod known_hosts;
pub mod laws;
pub mod settings;
