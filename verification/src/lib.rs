//! A small static-file web server, seen as a library: how a request path is
//! decoded and routed, what each response holds, how a directory listing is
//! laid out, and in which order the server starts up.

pub mod clock;
pub mod config;
pub mod listing;
pub mod numeral;
pub mod respond;
pub mod startup;
pub mod text;
pub mod url;
