//! Decision logic of a headless browser session that opens one page and
//! injects one script into it.
//!
//! The library performs no I/O. A driver owns the browser, the event pump and
//! the file system; it reports what happened as an event and is told what to
//! do next as an action.
pub mod config;
pub mod protocol;
pub mod session;
pub mod trace;
