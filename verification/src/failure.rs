//! What a request to a homeserver or a relay failed with.
use vstd::prelude::*;

verus! {

/// Where a request failed, as far as it matters for what to do next.
#[derive(Debug)]
pub enum FailureKind {
    /// Authentication failed: token, session, or validation.
    Authentication,
    /// The server answered with a status that is no success.
    Server { status: u16 },
    /// The request did not get through. `url` is where it was going, if that is known.
    Transport { url: Option<String> },
    /// Anything else.
    Other,
}

/// A failed request: its kind, and what it says about itself.
#[derive(Debug)]
pub struct Failure {
    pub kind: FailureKind,
    pub text: String,
}

} // verus!
