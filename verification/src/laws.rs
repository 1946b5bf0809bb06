//! What callers can rely on, said of the arguments and results of the functions themselves.
//!
//! Each law speaks of what a call may return, for all its arguments, or of how two calls relate.

pub mod auth;
pub mod grant_resume;
pub mod session_cache;
pub mod text;
