//! The generic token type produced by the lexer.

use vstd::prelude::*;
use crate::to_tex::ToTex;
use super::operator::OperatorToken;
use super::group_ctrl::GroupCtrlToken;
use super::word::WordToken;
use super::word::WordTokenV;

verus! {

/// The mathematical model of a [`Token`].
pub enum TokenV {
    /// The name of a variable, constant, or function.
    Word(WordTokenV),
    /// The characters of a literal number.
    Number(Seq<char>),
    /// A mathematical operator.
    Operator(OperatorToken),
    /// A delimiter starting or ending a subexpression.
    GroupCtrl(GroupCtrlToken),
}

/// A single token from the source document.
#[derive(Debug)]
pub enum Token {
    /// The name of a variable, constant, or function
    Word(WordToken),
    /// A literal number (excluding mathematical constants)
    Number(String),
    /// A mathematical operator which may look at nodes to its left or right
    Operator(OperatorToken),
    /// A delimiter indicating the start or end of a subexpression
    GroupCtrl(GroupCtrlToken),
}

impl View for Token {
    type V = TokenV;

    open spec fn view(&self) -> TokenV {
        match self {
            Token::Word(w) => TokenV::Word(w@),
            Token::Number(n) => TokenV::Number(n@),
            Token::Operator(op) => TokenV::Operator(*op),
            Token::GroupCtrl(gc) => TokenV::GroupCtrl(*gc),
        }
    }
}

impl DeepView for Token {
    type V = TokenV;

    open spec fn deep_view(&self) -> TokenV {
        self@
    }
}

impl TokenV {
    /// The markup of a single token: numbers render in a literal wrapper,
    /// words through their word markup, operators and delimiters through
    /// their own commands.
    pub open spec fn spec_tex(self) -> Seq<char> {
        match self {
            TokenV::Number(n) => r"\lit{"@ + n + "}"@,
            TokenV::Word(w) => w.spec_tex(),
            TokenV::Operator(op) => op.spec_tex(),
            TokenV::GroupCtrl(gc) => gc.spec_tex(),
        }
    }

    /// The bare text of a single token: the verbatim characters for numbers
    /// and kept-verbatim words, the plain command for builtin words and
    /// operators, the fence markup for delimiters.
    pub open spec fn spec_bare_tex(self) -> Seq<char> {
        match self {
            TokenV::Number(n) => n,
            TokenV::Word(WordTokenV::Direct(dw)) => dw.name,
            TokenV::Word(WordTokenV::Builtin(bw)) => bw.spec_command(),
            TokenV::Operator(op) => op.spec_tex(),
            TokenV::GroupCtrl(gc) => gc.spec_tex(),
        }
    }
}

impl Token {
    /// The bare text of the token, without semantic wrapper commands.
    pub fn into_tex(self) -> (r: String)
        ensures
            r@ == self@.spec_bare_tex(),
    {
        match self {
            Token::Number(n) => n,
            Token::Word(WordToken::Direct(dw)) => dw.name,
            Token::Word(WordToken::Builtin(bw)) => bw.into_tex(),
            Token::Operator(op) => op.to_tex(),
            Token::GroupCtrl(gc) => gc.into_tex(),
        }
    }
}

impl ToTex for Token {
    fn to_tex(self) -> (r: String)
        ensures
            r@ == self@.spec_tex(),
    {
        match self {
            Token::Number(n) => {
                let mut out = String::from_str(r"\lit{");
                out.append(n.as_str());
                out.append("}");
                out
            },
            Token::Word(w) => w.to_tex(),
            Token::Operator(op) => op.to_tex(),
            Token::GroupCtrl(gc) => gc.to_tex(),
        }
    }
}

} // verus!
