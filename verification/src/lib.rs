//! Verified core of a small file-drop service: an operator generates a
//! single-use upload slot, a visitor uploads one archive into it before it
//! expires, and the operator downloads the archive afterwards.
//!
//! The request handlers are state machines: each step takes what the last
//! piece of outside work produced (a database row, a file's bytes, ...) and
//! answers with the next piece of work to do, or with the final reply.

pub mod api_error;
pub mod clock;
pub mod database;
pub mod file_type;
pub mod ids;
pub mod json;
pub mod paths;
pub mod routes;
pub mod text;
pub mod utils;
