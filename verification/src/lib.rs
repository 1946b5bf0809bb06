//! Sign-in with Pubky: reads auth links, reuses imported sessions, and keeps a pending grant
//! sign-in alive while its relay cannot be reached.

pub mod auth;
pub mod base64url;
pub mod deep_link;
pub mod failure;
pub mod grant_resume;
pub mod laws;
pub mod session_cache;
pub mod text;
pub mod types;
