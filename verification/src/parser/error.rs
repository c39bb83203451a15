//! The structured errors reported while parsing.

use vstd::prelude::*;
use crate::lexer::OperatorToken;
use crate::lexer::BracketKind;

verus! {

/// An error that occurs while parsing.
#[derive(Debug, Clone, Copy, PartialEq, Eq, Structural)]
pub enum ParseError {
    /// The global scope was popped.
    TooManyCloseBrackets,
    /// The document line ended with excess scopes.
    NotEnoughCloseBrackets,
    /// An operator in the source has fewer arguments than are valid for that
    /// operator.
    OperatorMissingArguments {
        /// Whether any item was available to the left of the operator.
        is_lhs_nonnull: bool,
        /// The operator.
        op_token: OperatorToken,
        /// Whether any item was available to the right of the operator.
        is_rhs_nonnull: bool,
    },
    /// A group was closed with a bracket that isn't compatible with the
    /// bracket it was opened with.
    BracketMismatch {
        /// The bracket that opened the group in the source document.
        opened_with: BracketKind,
        /// The bracket that closed the group in the source document.
        closed_with: BracketKind,
    },
}

} // verus!
