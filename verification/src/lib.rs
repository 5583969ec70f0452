//! A terminal timetable client for the Bakaláři school system: the verified core.
//!
//! The library holds the timetable model and its construction from the
//! server's JSON document, the state of the terminal view and its reaction to
//! keys, and the decisions of the login and refresh protocol. Terminal and
//! network I/O live in the application around it.

pub mod json;
pub mod persistent;
pub mod session;
pub mod str_map;
pub mod text;
pub mod timetable;
pub mod tui;
