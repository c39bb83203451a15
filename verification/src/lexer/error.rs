//! The error reported when tokenization fails.

use vstd::prelude::*;

verus! {

/// An error that occurs while tokenizing a document line.
#[derive(Debug)]
pub enum LexerError {
    /// A piece of text that cannot be categorized was found.
    UnknownToken {
        /// The offending text from the source document.
        token: String,
    },
}

impl LexerError {
    /// The offending text carried by the error.
    pub open spec fn spec_token(self) -> Seq<char> {
        match self {
            LexerError::UnknownToken { token } => token@,
        }
    }

    /// A human-readable description of the error.
    pub fn message(&self) -> (r: String)
        ensures
            r@ == "Unrecognized token: `"@ + self.spec_token() + "`"@,
    {
        match self {
            LexerError::UnknownToken { token } => {
                let mut out = String::from_str("Unrecognized token: `");
                out.append(token.as_str());
                out.append("`");
                out
            },
        }
    }
}

} // verus!
