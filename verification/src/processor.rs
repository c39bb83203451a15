//! Shared document-processing data: semantic kinds for defined names and the
//! structured errors reported for a document.

use vstd::prelude::*;
use crate::to_tex::ToTex;
use crate::lexer::LexerError;
use crate::parser::ParseError;

verus! {

/// What type of definition a declared name has.
#[derive(Debug, Clone, Copy, PartialEq, Eq, Structural)]
pub enum DefKind {
    /// A special number (or mathematical constant) that is baked into the formula.
    Literal,
    /// A number we don't know the value of.
    Variable,
    /// A number we know the value of.
    Constant,
    /// A mathematical function like f() or g().
    Function,
}

impl DefKind {
    /// The markup wrapper command for this kind of name.
    pub open spec fn spec_tex(self) -> Seq<char> {
        match self {
            DefKind::Literal => r"\lit"@,
            DefKind::Variable => r"\var"@,
            DefKind::Constant => r"\const"@,
            DefKind::Function => r"\fn"@,
        }
    }
}

impl ToTex for DefKind {
    fn to_tex(self) -> (r: String)
        ensures
            r@ == self.spec_tex(),
    {
        let s = match self {
            DefKind::Literal => r"\lit",
            DefKind::Variable => r"\var",
            DefKind::Constant => r"\const",
            DefKind::Function => r"\fn",
        };
        String::from_str(s)
    }
}

/// A preprocessor error that can be narrowed down to a particular line.
#[derive(Debug)]
pub enum LineErrorKind {
    /// The error occurred in the tokenizer.
    LexerError(LexerError),
    /// The error occurred in the parser.
    ParseError(ParseError),
    /// A meta item was detected but malformed.
    InvalidMetaItem,
    /// A heading was detected but malformed.
    InvalidHeading,
}

/// A [`LineErrorKind`] with line number.
#[derive(Debug)]
pub struct LineError {
    /// The line the error occurred on.
    pub line_number: usize,
    /// The specific error.
    pub kind: LineErrorKind,
}

/// An error that occurs during preprocessing.
#[derive(Debug)]
pub enum PreprocError {
    /// An error on a particular line.
    LineError(LineError),
    /// The template document has no content anchor.
    TemplateMissingContent,
}

impl PreprocError {
    /// Shorthand for constructing a line error.
    pub fn line_error(line_number: usize, kind: LineErrorKind) -> (r: Self)
        ensures
            r == PreprocError::LineError(LineError { line_number, kind }),
    {
        PreprocError::LineError(LineError { line_number, kind })
    }

    /// Shorthand for constructing a lexer line error.
    pub fn lexer_error(line_number: usize, error: LexerError) -> (r: Self)
        ensures
            r == PreprocError::LineError(
                LineError { line_number, kind: LineErrorKind::LexerError(error) },
            ),
    {
        PreprocError::LineError(LineError { line_number, kind: LineErrorKind::LexerError(error) })
    }

    /// Shorthand for constructing a parser line error.
    pub fn parse_error(line_number: usize, error: ParseError) -> (r: Self)
        ensures
            r == PreprocError::LineError(
                LineError { line_number, kind: LineErrorKind::ParseError(error) },
            ),
    {
        PreprocError::LineError(LineError { line_number, kind: LineErrorKind::ParseError(error) })
    }
}

/// Generates the anchor string for a given meta key.
pub fn anchor_str(key: &str) -> (r: String)
    ensures
        r@ == "@{"@ + key@ + "}"@,
{
    let mut out = String::from_str("@{");
    out.append(key);
    out.append("}");
    out
}

} // verus!
