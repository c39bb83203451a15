//! Word tokens: identifiers kept verbatim and builtin words.

use vstd::prelude::*;
use crate::to_tex::ToTex;
use crate::processor::DefKind;
use super::builtin_word::BuiltinWordToken;

verus! {

/// The mathematical model of a [`DirectWordToken`]: the characters of the
/// name together with the annotated semantic kind.
pub struct DirectWordTokenV {
    /// The characters of the word.
    pub name: Seq<char>,
    /// The annotated semantic kind, if any.
    pub kind: Option<DefKind>,
}

/// A word token whose markup is identical to the word.
#[derive(Debug)]
pub struct DirectWordToken {
    /// The word being represented.
    pub name: String,
    /// A slot for identifying what kind of word this token is.
    pub kind: Option<DefKind>,
}

impl View for DirectWordToken {
    type V = DirectWordTokenV;

    open spec fn view(&self) -> DirectWordTokenV {
        DirectWordTokenV { name: self.name@, kind: self.kind }
    }
}

impl DirectWordTokenV {
    /// The markup of a direct word: the name in a brace group, wrapped by the
    /// semantic-kind command when one was annotated.
    pub open spec fn spec_tex(self) -> Seq<char> {
        match self.kind {
            Some(kind) => kind.spec_tex() + "{"@ + self.name + "}"@,
            None => "{"@ + self.name + "}"@,
        }
    }
}

impl DirectWordToken {
    /// Construct a direct word token from the word it represents.
    pub fn new(name: String) -> (r: Self)
        ensures
            r@ == (DirectWordTokenV { name: name@, kind: None }),
    {
        DirectWordToken { name, kind: None }
    }
}

impl ToTex for DirectWordToken {
    fn to_tex(self) -> (r: String)
        ensures
            r@ == self@.spec_tex(),
    {
        match self.kind {
            Some(kind) => {
                let mut out = kind.to_tex();
                out.append("{");
                out.append(self.name.as_str());
                out.append("}");
                out
            },
            None => {
                let mut out = String::from_str("{");
                out.append(self.name.as_str());
                out.append("}");
                out
            },
        }
    }
}

/// The mathematical model of a [`WordToken`].
pub enum WordTokenV {
    /// Markup is identical to the name.
    Direct(DirectWordTokenV),
    /// Markup is an associated command.
    Builtin(BuiltinWordToken),
}

/// A token representing a variable, constant, or function.
#[derive(Debug)]
pub enum WordToken {
    /// Markup is identical to the name.
    Direct(DirectWordToken),
    /// Markup is an associated command.
    Builtin(BuiltinWordToken),
}

impl View for WordToken {
    type V = WordTokenV;

    open spec fn view(&self) -> WordTokenV {
        match self {
            WordToken::Direct(dw) => WordTokenV::Direct(dw@),
            WordToken::Builtin(bw) => WordTokenV::Builtin(*bw),
        }
    }
}

impl WordTokenV {
    /// The word token denoted by an identifier: a builtin word where the
    /// identifier is in the builtin table, the identifier itself otherwise.
    pub open spec fn spec_from(s: Seq<char>) -> WordTokenV {
        match BuiltinWordToken::spec_from(s) {
            Some(bw) => WordTokenV::Builtin(bw),
            None => WordTokenV::Direct(DirectWordTokenV { name: s, kind: None }),
        }
    }

    /// The markup of the word token.
    pub open spec fn spec_tex(self) -> Seq<char> {
        match self {
            WordTokenV::Direct(dw) => dw.spec_tex(),
            WordTokenV::Builtin(bw) => bw.spec_tex(),
        }
    }
}

impl WordToken {
    /// Classify an identifier as a builtin or direct word.
    pub fn from(value: String) -> (r: Self)
        ensures
            r@ == WordTokenV::spec_from(value@),
    {
        if let Some(bw) = BuiltinWordToken::try_from(value.as_str()) {
            WordToken::Builtin(bw)
        } else {
            WordToken::Direct(DirectWordToken::new(value))
        }
    }
}

impl ToTex for WordToken {
    fn to_tex(self) -> (r: String)
        ensures
            r@ == self@.spec_tex(),
    {
        match self {
            WordToken::Direct(dw) => dw.to_tex(),
            WordToken::Builtin(bw) => bw.to_tex(),
        }
    }
}

} // verus!
