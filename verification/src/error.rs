//! The block-scoped error type: every failure of a refresh step is one of a
//! few kinds, each carrying a short context string naming the failing
//! operation.

use vstd::prelude::*;

verus! {

/// A failure of one remote lookup or of decoding its reply.
#[derive(Debug)]
pub enum NetworkError {
    /// The round trip did not complete (transport fault or timeout).
    Transport(String),
    /// The reply did not carry a value of the expected shape.
    ReplyShape(String),
    /// The manager reports no primary connection.
    NoPrimaryConnection,
    /// A text payload was not valid UTF-8.
    TextDecode(String),
}

impl NetworkError {
    /// A short human-readable description, for display outside the library.
    pub fn message(&self) -> (r: String)
        ensures
            r@ == self.spec_message(),
    {
        match self {
            NetworkError::Transport(ctx) => String::from_str("transport failure: ").concat(
                ctx.as_str(),
            ),
            NetworkError::ReplyShape(ctx) => String::from_str("unexpected reply shape: ").concat(
                ctx.as_str(),
            ),
            NetworkError::NoPrimaryConnection => String::from_str("No primary connection"),
            NetworkError::TextDecode(ctx) => String::from_str("text decode failure: ").concat(
                ctx.as_str(),
            ),
        }
    }

    /// What `message` returns.
    pub open spec fn spec_message(&self) -> Seq<char> {
        match self {
            NetworkError::Transport(ctx) => "transport failure: "@ + ctx@,
            NetworkError::ReplyShape(ctx) => "unexpected reply shape: "@ + ctx@,
            NetworkError::NoPrimaryConnection => "No primary connection"@,
            NetworkError::TextDecode(ctx) => "text decode failure: "@ + ctx@,
        }
    }
}

} // verus!
