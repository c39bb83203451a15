//! Delimited group tokens: bracket kinds, their spellings, their markup, and
//! the compatibility relation between opening and closing brackets.

use vstd::prelude::*;
use crate::to_tex::ToTex;
use crate::text::str_eq;

verus! {

/// What pairing a delimiter token represents.
#[derive(Debug, Clone, Copy, PartialEq, Eq, Structural)]
pub enum BracketKind {
    /// Parentheses `( ... )`
    Paren,
    /// Brackets `[ ... ]`
    Brack,
    /// Braces `{ ... }`
    Brace,
    /// Double vertical `(|| ... ||)`
    VVert,
    /// Vertical `(| ... |)`
    Vert,
    /// Double angle `(<< ... >>)`
    AAngle,
    /// Angle `(< ... >)`
    Angle,
    /// Floor `|_ ... _|`
    Floor,
    /// Ceiling ``|` ... `|``
    Ceil,
    /// None `(: ... :)`, rendered without visible fences
    Blank,
}

/// Whether the delimiter is pushing vs popping scope.
#[derive(Debug, Clone, Copy, PartialEq, Eq, Structural)]
pub enum GroupControl {
    /// The delimiter marks the beginning of a group.
    Open,
    /// The delimiter marks the ending of a group.
    Close,
}

/// A delimiter marking the start or end of a subexpression.
#[derive(Debug, Clone, Copy, PartialEq, Eq, Structural)]
pub struct GroupCtrlToken {
    /// What bracket this delimiter represents.
    pub kind: BracketKind,
    /// Whether the token is opening or closing the group.
    pub ctrl: GroupControl,
}

impl BracketKind {
    /// The fixed compatibility relation between the bracket kind a group was
    /// opened with and the kind that closes it.
    ///
    /// A blank fence accepts anything; parentheses and square brackets are
    /// interchangeable, as are floor and ceiling fences; every other kind
    /// only closes itself.
    pub open spec fn spec_compatible(self, other: BracketKind) -> bool {
        ||| self == BracketKind::Blank
        ||| other == BracketKind::Blank
        ||| ((self == BracketKind::Paren || self == BracketKind::Brack)
            && (other == BracketKind::Paren || other == BracketKind::Brack))
        ||| ((self == BracketKind::Ceil || self == BracketKind::Floor)
            && (other == BracketKind::Ceil || other == BracketKind::Floor))
        ||| (self == other)
    }

    /// Whether the close bracket `other` is compatible with the open bracket
    /// `self`.
    pub fn is_compatible(&self, other: &Self) -> (r: bool)
        ensures
            r == self.spec_compatible(*other),
    {
        matches!((self, other),
            | (BracketKind::Blank, _)
            | (_, BracketKind::Blank)
            | (BracketKind::Paren | BracketKind::Brack, BracketKind::Paren | BracketKind::Brack)
            | (BracketKind::Ceil | BracketKind::Floor, BracketKind::Ceil | BracketKind::Floor)
            | (BracketKind::Brace, BracketKind::Brace)
            | (BracketKind::VVert, BracketKind::VVert)
            | (BracketKind::Vert, BracketKind::Vert)
            | (BracketKind::AAngle, BracketKind::AAngle)
            | (BracketKind::Angle, BracketKind::Angle)
        )
    }
}

impl GroupCtrlToken {
    /// The delimiter token, if any, that the given source spelling denotes.
    pub open spec fn spec_from(s: Seq<char>) -> Option<GroupCtrlToken> {
        if s == "(||"@ {
            Some(GroupCtrlToken { kind: BracketKind::VVert, ctrl: GroupControl::Open })
        } else if s == "||)"@ {
            Some(GroupCtrlToken { kind: BracketKind::VVert, ctrl: GroupControl::Close })
        } else if s == "(<<"@ {
            Some(GroupCtrlToken { kind: BracketKind::AAngle, ctrl: GroupControl::Open })
        } else if s == ">>)"@ {
            Some(GroupCtrlToken { kind: BracketKind::AAngle, ctrl: GroupControl::Close })
        } else if s == "(|"@ {
            Some(GroupCtrlToken { kind: BracketKind::Vert, ctrl: GroupControl::Open })
        } else if s == "|)"@ {
            Some(GroupCtrlToken { kind: BracketKind::Vert, ctrl: GroupControl::Close })
        } else if s == "(<"@ {
            Some(GroupCtrlToken { kind: BracketKind::Angle, ctrl: GroupControl::Open })
        } else if s == ">)"@ {
            Some(GroupCtrlToken { kind: BracketKind::Angle, ctrl: GroupControl::Close })
        } else if s == "|_"@ {
            Some(GroupCtrlToken { kind: BracketKind::Floor, ctrl: GroupControl::Open })
        } else if s == "_|"@ {
            Some(GroupCtrlToken { kind: BracketKind::Floor, ctrl: GroupControl::Close })
        } else if s == r"|`"@ {
            Some(GroupCtrlToken { kind: BracketKind::Ceil, ctrl: GroupControl::Open })
        } else if s == r"`|"@ {
            Some(GroupCtrlToken { kind: BracketKind::Ceil, ctrl: GroupControl::Close })
        } else if s == "(:"@ {
            Some(GroupCtrlToken { kind: BracketKind::Blank, ctrl: GroupControl::Open })
        } else if s == ":)"@ {
            Some(GroupCtrlToken { kind: BracketKind::Blank, ctrl: GroupControl::Close })
        } else if s == "("@ {
            Some(GroupCtrlToken { kind: BracketKind::Paren, ctrl: GroupControl::Open })
        } else if s == ")"@ {
            Some(GroupCtrlToken { kind: BracketKind::Paren, ctrl: GroupControl::Close })
        } else if s == "["@ {
            Some(GroupCtrlToken { kind: BracketKind::Brack, ctrl: GroupControl::Open })
        } else if s == "]"@ {
            Some(GroupCtrlToken { kind: BracketKind::Brack, ctrl: GroupControl::Close })
        } else if s == "{"@ {
            Some(GroupCtrlToken { kind: BracketKind::Brace, ctrl: GroupControl::Open })
        } else if s == "}"@ {
            Some(GroupCtrlToken { kind: BracketKind::Brace, ctrl: GroupControl::Close })
        } else {
            None
        }
    }

    /// Try to construct a delimiter token. Returns `None` if the token is not
    /// a delimiter spelling.
    pub fn try_from(token: &str) -> (r: Option<Self>)
        ensures
            r == Self::spec_from(token@),
    {
        if str_eq(token, "(||") {
            Some(GroupCtrlToken { kind: BracketKind::VVert, ctrl: GroupControl::Open })
        } else if str_eq(token, "||)") {
            Some(GroupCtrlToken { kind: BracketKind::VVert, ctrl: GroupControl::Close })
        } else if str_eq(token, "(<<") {
            Some(GroupCtrlToken { kind: BracketKind::AAngle, ctrl: GroupControl::Open })
        } else if str_eq(token, ">>)") {
            Some(GroupCtrlToken { kind: BracketKind::AAngle, ctrl: GroupControl::Close })
        } else if str_eq(token, "(|") {
            Some(GroupCtrlToken { kind: BracketKind::Vert, ctrl: GroupControl::Open })
        } else if str_eq(token, "|)") {
            Some(GroupCtrlToken { kind: BracketKind::Vert, ctrl: GroupControl::Close })
        } else if str_eq(token, "(<") {
            Some(GroupCtrlToken { kind: BracketKind::Angle, ctrl: GroupControl::Open })
        } else if str_eq(token, ">)") {
            Some(GroupCtrlToken { kind: BracketKind::Angle, ctrl: GroupControl::Close })
        } else if str_eq(token, "|_") {
            Some(GroupCtrlToken { kind: BracketKind::Floor, ctrl: GroupControl::Open })
        } else if str_eq(token, "_|") {
            Some(GroupCtrlToken { kind: BracketKind::Floor, ctrl: GroupControl::Close })
        } else if str_eq(token, r"|`") {
            Some(GroupCtrlToken { kind: BracketKind::Ceil, ctrl: GroupControl::Open })
        } else if str_eq(token, r"`|") {
            Some(GroupCtrlToken { kind: BracketKind::Ceil, ctrl: GroupControl::Close })
        } else if str_eq(token, "(:") {
            Some(GroupCtrlToken { kind: BracketKind::Blank, ctrl: GroupControl::Open })
        } else if str_eq(token, ":)") {
            Some(GroupCtrlToken { kind: BracketKind::Blank, ctrl: GroupControl::Close })
        } else if str_eq(token, "(") {
            Some(GroupCtrlToken { kind: BracketKind::Paren, ctrl: GroupControl::Open })
        } else if str_eq(token, ")") {
            Some(GroupCtrlToken { kind: BracketKind::Paren, ctrl: GroupControl::Close })
        } else if str_eq(token, "[") {
            Some(GroupCtrlToken { kind: BracketKind::Brack, ctrl: GroupControl::Open })
        } else if str_eq(token, "]") {
            Some(GroupCtrlToken { kind: BracketKind::Brack, ctrl: GroupControl::Close })
        } else if str_eq(token, "{") {
            Some(GroupCtrlToken { kind: BracketKind::Brace, ctrl: GroupControl::Open })
        } else if str_eq(token, "}") {
            Some(GroupCtrlToken { kind: BracketKind::Brace, ctrl: GroupControl::Close })
        } else {
            None
        }
    }

    /// Construct an open bracket of the specified kind.
    pub fn open(kind: BracketKind) -> (r: Self)
        ensures
            r == (GroupCtrlToken { kind, ctrl: GroupControl::Open }),
    {
        GroupCtrlToken { kind, ctrl: GroupControl::Open }
    }

    /// Construct a close bracket of the specified kind.
    pub fn close(kind: BracketKind) -> (r: Self)
        ensures
            r == (GroupCtrlToken { kind, ctrl: GroupControl::Close }),
    {
        GroupCtrlToken { kind, ctrl: GroupControl::Close }
    }

    /// The string that would be used in the source document to represent this
    /// delimiter.
    pub open spec fn spec_source_str(self) -> Seq<char> {
        match self.ctrl {
            GroupControl::Open => match self.kind {
                BracketKind::Paren => "("@,
                BracketKind::Brack => "["@,
                BracketKind::Brace => "{"@,
                BracketKind::VVert => "(||"@,
                BracketKind::Vert => "(|"@,
                BracketKind::AAngle => "(<<"@,
                BracketKind::Angle => "(<"@,
                BracketKind::Floor => "|_"@,
                BracketKind::Ceil => r"|`"@,
                BracketKind::Blank => "(:"@,
            },
            GroupControl::Close => match self.kind {
                BracketKind::Paren => ")"@,
                BracketKind::Brack => "]"@,
                BracketKind::Brace => "}"@,
                BracketKind::VVert => "||)"@,
                BracketKind::Vert => "|)"@,
                BracketKind::AAngle => ">>)"@,
                BracketKind::Angle => ">)"@,
                BracketKind::Floor => "_|"@,
                BracketKind::Ceil => r"`|"@,
                BracketKind::Blank => ":)"@,
            },
        }
    }

    /// Executable form of [`Self::spec_source_str`].
    pub fn source_str(&self) -> (r: &'static str)
        ensures
            r@ == self.spec_source_str(),
    {
        match self.ctrl {
            GroupControl::Open => match self.kind {
                BracketKind::Paren => "(",
                BracketKind::Brack => "[",
                BracketKind::Brace => "{",
                BracketKind::VVert => "(||",
                BracketKind::Vert => "(|",
                BracketKind::AAngle => "(<<",
                BracketKind::Angle => "(<",
                BracketKind::Floor => "|_",
                BracketKind::Ceil => r"|`",
                BracketKind::Blank => "(:",
            },
            GroupControl::Close => match self.kind {
                BracketKind::Paren => ")",
                BracketKind::Brack => "]",
                BracketKind::Brace => "}",
                BracketKind::VVert => "||)",
                BracketKind::Vert => "|)",
                BracketKind::AAngle => ">>)",
                BracketKind::Angle => ">)",
                BracketKind::Floor => "_|",
                BracketKind::Ceil => r"`|",
                BracketKind::Blank => ":)",
            },
        }
    }

    /// The markup fence command this delimiter renders as.
    pub open spec fn spec_fence(self) -> Seq<char> {
        match self.ctrl {
            GroupControl::Open => match self.kind {
                BracketKind::Paren => r"\lparen"@,
                BracketKind::Brack => r"\lbrack"@,
                BracketKind::Brace => r"\lbrace"@,
                BracketKind::VVert => r"\lVert"@,
                BracketKind::Vert => r"\lvert"@,
                BracketKind::AAngle => r"\lAngle"@,
                BracketKind::Angle => r"\langle"@,
                BracketKind::Floor => r"\lfloor"@,
                BracketKind::Ceil => r"\lceil"@,
                BracketKind::Blank => "."@,
            },
            GroupControl::Close => match self.kind {
                BracketKind::Paren => r"\rparen"@,
                BracketKind::Brack => r"\rbrack"@,
                BracketKind::Brace => r"\rbrace"@,
                BracketKind::VVert => r"\rVert"@,
                BracketKind::Vert => r"\rvert"@,
                BracketKind::AAngle => r"\rAngle"@,
                BracketKind::Angle => r"\rangle"@,
                BracketKind::Floor => r"\rfloor"@,
                BracketKind::Ceil => r"\rceil"@,
                BracketKind::Blank => "."@,
            },
        }
    }

    /// The full markup text this delimiter renders as: an opening delimiter
    /// starts a braced `\br` group, a closing delimiter ends it.
    pub open spec fn spec_tex(self) -> Seq<char> {
        match self.ctrl {
            GroupControl::Open => r"{\br{"@ + self.spec_fence() + "}{"@,
            GroupControl::Close => "}{"@ + self.spec_fence() + "}}"@,
        }
    }

    /// Executable form of [`Self::spec_fence`].
    fn fence(&self) -> (r: &'static str)
        ensures
            r@ == self.spec_fence(),
    {
        match self.ctrl {
            GroupControl::Open => match self.kind {
                BracketKind::Paren => r"\lparen",
                BracketKind::Brack => r"\lbrack",
                BracketKind::Brace => r"\lbrace",
                BracketKind::VVert => r"\lVert",
                BracketKind::Vert => r"\lvert",
                BracketKind::AAngle => r"\lAngle",
                BracketKind::Angle => r"\langle",
                BracketKind::Floor => r"\lfloor",
                BracketKind::Ceil => r"\lceil",
                BracketKind::Blank => ".",
            },
            GroupControl::Close => match self.kind {
                BracketKind::Paren => r"\rparen",
                BracketKind::Brack => r"\rbrack",
                BracketKind::Brace => r"\rbrace",
                BracketKind::VVert => r"\rVert",
                BracketKind::Vert => r"\rvert",
                BracketKind::AAngle => r"\rAngle",
                BracketKind::Angle => r"\rangle",
                BracketKind::Floor => r"\rfloor",
                BracketKind::Ceil => r"\rceil",
                BracketKind::Blank => ".",
            },
        }
    }

    /// Consuming form of the markup conversion.
    pub fn into_tex(self) -> (r: String)
        ensures
            r@ == self.spec_tex(),
    {
        let mut out = String::new();
        match self.ctrl {
            GroupControl::Open => {
                out.append(r"{\br{");
                out.append(self.fence());
                out.append("}{");
            },
            GroupControl::Close => {
                out.append("}{");
                out.append(self.fence());
                out.append("}}");
            },
        }
        out
    }
}

impl ToTex for GroupCtrlToken {
    fn to_tex(self) -> (r: String)
        ensures
            r@ == self.spec_tex(),
    {
        self.into_tex()
    }
}

} // verus!
