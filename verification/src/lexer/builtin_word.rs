//! Builtin word tokens: named constants, Greek-letter variables and named
//! functions, including the trigonometric family.

use vstd::prelude::*;
use crate::to_tex::ToTex;
use crate::text::str_eq;
use crate::text::match_at;
use crate::text::matches_at;
use crate::processor::DefKind;

verus! {

/// The base trigonometric function family of a trig word.
#[derive(Debug, Clone, Copy, PartialEq, Eq, Structural)]
pub enum TrigFn {
    /// sin or csc
    Sin,
    /// cos or sec
    Cos,
    /// tan or cot
    Tan,
}

/// A trigonometric function word, decomposed into its base family and its
/// reciprocal/hyperbolic/inverse markers.
#[derive(Debug, Clone, Copy, PartialEq, Eq, Structural)]
pub struct TrigFnToken {
    /// - sin (or csc)
    /// - cos (or sec)
    /// - tan (or cot)
    pub func: TrigFn,
    /// - sin <-> csc
    /// - cos <-> sec
    /// - tan <-> cot
    pub is_reciprocal: bool,
    /// ______h
    pub is_hyperbolic: bool,
    /// arc____
    pub is_inverse: bool,
}

impl TrigFnToken {
    /// The three-letter base name selected by the family and the reciprocal
    /// marker.
    pub open spec fn spec_base(self) -> Seq<char> {
        match (self.func, self.is_reciprocal) {
            (TrigFn::Sin, false) => "sin"@,
            (TrigFn::Cos, false) => "cos"@,
            (TrigFn::Tan, false) => "tan"@,
            (TrigFn::Sin, true) => "csc"@,
            (TrigFn::Cos, true) => "sec"@,
            (TrigFn::Tan, true) => "cot"@,
        }
    }

    /// The markup command of the trig word: a backslash, an optional `arc`
    /// prefix, the base name, and an optional `h` suffix.
    pub open spec fn spec_tex(self) -> Seq<char> {
        "\\"@ + (if self.is_inverse {
            "arc"@
        } else {
            Seq::<char>::empty()
        }) + self.spec_base() + (if self.is_hyperbolic {
            "h"@
        } else {
            Seq::<char>::empty()
        })
    }

    /// Convert the trig word into its markup command.
    pub fn into_tex(self) -> (r: String)
        ensures
            r@ == self.spec_tex(),
    {
        let mut out = String::new();
        out.append("\\");
        if self.is_inverse {
            out.append("arc");
        }
        out.append(match (self.func, self.is_reciprocal) {
            (TrigFn::Sin, false) => "sin",
            (TrigFn::Cos, false) => "cos",
            (TrigFn::Tan, false) => "tan",
            (TrigFn::Sin, true) => "csc",
            (TrigFn::Cos, true) => "sec",
            (TrigFn::Tan, true) => "cot",
        });
        if self.is_hyperbolic {
            out.append("h");
        }
        out
    }

    /// The trig word, if any, that the given identifier denotes.
    pub open spec fn spec_try_from(s: Seq<char>) -> Option<TrigFnToken> {
        let is_inverse = matches_at(s, 0, "arc"@);
        let start: int = if is_inverse {
            3
        } else {
            0
        };
        let is_hyperbolic = s.len() > 0 && s.last() == 'h';
        let end: int = s.len() - (if is_hyperbolic {
            1int
        } else {
            0int
        });
        if start <= end {
            let mid = s.subrange(start, end);
            if mid == "sin"@ {
                Some(TrigFnToken { func: TrigFn::Sin, is_reciprocal: false, is_hyperbolic, is_inverse })
            } else if mid == "cos"@ {
                Some(TrigFnToken { func: TrigFn::Cos, is_reciprocal: false, is_hyperbolic, is_inverse })
            } else if mid == "tan"@ {
                Some(TrigFnToken { func: TrigFn::Tan, is_reciprocal: false, is_hyperbolic, is_inverse })
            } else if mid == "csc"@ {
                Some(TrigFnToken { func: TrigFn::Sin, is_reciprocal: true, is_hyperbolic, is_inverse })
            } else if mid == "sec"@ {
                Some(TrigFnToken { func: TrigFn::Cos, is_reciprocal: true, is_hyperbolic, is_inverse })
            } else if mid == "cot"@ {
                Some(TrigFnToken { func: TrigFn::Tan, is_reciprocal: true, is_hyperbolic, is_inverse })
            } else {
                None
            }
        } else {
            None
        }
    }

    /// Try to decompose an identifier into a trig word. Returns `None` if the
    /// identifier is not in the trig family.
    pub fn try_from(token: &str) -> (r: Option<Self>)
        ensures
            r == Self::spec_try_from(token@),
    {
        let len = token.unicode_len();
        let is_inverse = match_at(token, 0, "arc");
        let start: usize = if is_inverse {
            3
        } else {
            0
        };
        let is_hyperbolic = len > 0 && token.get_char(len - 1) == 'h';
        let end: usize = if is_hyperbolic {
            len - 1
        } else {
            len
        };
        if start <= end {
            let mid = token.substring_char(start, end);
            let func: TrigFn;
            let is_reciprocal: bool;
            if str_eq(mid, "sin") {
                func = TrigFn::Sin;
                is_reciprocal = false;
            } else if str_eq(mid, "cos") {
                func = TrigFn::Cos;
                is_reciprocal = false;
            } else if str_eq(mid, "tan") {
                func = TrigFn::Tan;
                is_reciprocal = false;
            } else if str_eq(mid, "csc") {
                func = TrigFn::Sin;
                is_reciprocal = true;
            } else if str_eq(mid, "sec") {
                func = TrigFn::Cos;
                is_reciprocal = true;
            } else if str_eq(mid, "cot") {
                func = TrigFn::Tan;
                is_reciprocal = true;
            } else {
                return None;
            }
            Some(TrigFnToken { func, is_reciprocal, is_hyperbolic, is_inverse })
        } else {
            None
        }
    }
}

/// A word token whose markup is a fixed command.
///
/// Can also be a mathematical constant.
#[derive(Debug, Clone, Copy, PartialEq, Eq, Structural)]
pub enum BuiltinWordToken {
    /// Euler's number
    E,
    /// Ratio of a circle's circumference to its diameter
    Pi,
    /// The golden ratio
    VarPhi,
    /// The empty set
    VarNothing,
    /// Typically an angle
    Theta,
    /// Typically an angle
    Phi,
    /// Typically an angle
    Psi,
    /// Square (or n) root
    Sqrt,
    /// Logarithm
    Log,
    /// Natural (base-e) logarithm
    Ln,
    /// Summation
    Sum,
    /// Production
    Prod,
    /// Zeta function
    ZZeta,
    /// Sine
    Sin,
    /// Cosine
    Cos,
    /// Tangent
    Tan,
    /// Cosecant
    Csc,
    /// Secant
    Sec,
    /// Cotangent
    Cot,
    /// Hyperbolic sine
    SinH,
    /// Hyperbolic cosine
    CosH,
    /// Hyperbolic tangent
    TanH,
    /// Hyperbolic cosecant
    CscH,
    /// Hyperbolic secant
    SecH,
    /// Hyperbolic cotangent
    CotH,
    /// Inverse sine
    ArcSin,
    /// Inverse cosine
    ArcCos,
    /// Inverse tangent
    ArcTan,
    /// Inverse cosecant
    ArcCsc,
    /// Inverse secant
    ArcSec,
    /// Inverse cotangent
    ArcCot,
    /// Inverse hyperbolic sine
    ArcSinH,
    /// Inverse hyperbolic cosine
    ArcCosH,
    /// Inverse hyperbolic tangent
    ArcTanH,
    /// Inverse hyperbolic cosecant
    ArcCscH,
    /// Inverse hyperbolic secant
    ArcSecH,
    /// Inverse hyperbolic cotangent
    ArcCotH,
}

impl BuiltinWordToken {
    /// The builtin word, if any, that the given identifier denotes.
    pub open spec fn spec_from(s: Seq<char>) -> Option<BuiltinWordToken> {
        if s == "e"@ {
            Some(BuiltinWordToken::E)
        } else if s == "pi"@ {
            Some(BuiltinWordToken::Pi)
        } else if s == "varphi"@ || s == "gold"@ {
            Some(BuiltinWordToken::VarPhi)
        } else if s == "none"@ || s == "empty"@ {
            Some(BuiltinWordToken::VarNothing)
        } else if s == "theta"@ {
            Some(BuiltinWordToken::Theta)
        } else if s == "phi"@ {
            Some(BuiltinWordToken::Phi)
        } else if s == "psi"@ {
            Some(BuiltinWordToken::Psi)
        } else if s == "sqrt"@ {
            Some(BuiltinWordToken::Sqrt)
        } else if s == "log"@ {
            Some(BuiltinWordToken::Log)
        } else if s == "ln"@ {
            Some(BuiltinWordToken::Ln)
        } else if s == "sum"@ {
            Some(BuiltinWordToken::Sum)
        } else if s == "prod"@ {
            Some(BuiltinWordToken::Prod)
        } else if s == "Zeta"@ {
            Some(BuiltinWordToken::ZZeta)
        } else if s == "sin"@ {
            Some(BuiltinWordToken::Sin)
        } else if s == "cos"@ {
            Some(BuiltinWordToken::Cos)
        } else if s == "tan"@ {
            Some(BuiltinWordToken::Tan)
        } else if s == "csc"@ {
            Some(BuiltinWordToken::Csc)
        } else if s == "sec"@ {
            Some(BuiltinWordToken::Sec)
        } else if s == "cot"@ {
            Some(BuiltinWordToken::Cot)
        } else if s == "sinh"@ {
            Some(BuiltinWordToken::SinH)
        } else if s == "cosh"@ {
            Some(BuiltinWordToken::CosH)
        } else if s == "tanh"@ {
            Some(BuiltinWordToken::TanH)
        } else if s == "csch"@ {
            Some(BuiltinWordToken::CscH)
        } else if s == "sech"@ {
            Some(BuiltinWordToken::SecH)
        } else if s == "coth"@ {
            Some(BuiltinWordToken::CotH)
        } else if s == "arcsin"@ {
            Some(BuiltinWordToken::ArcSin)
        } else if s == "arccos"@ {
            Some(BuiltinWordToken::ArcCos)
        } else if s == "arctan"@ {
            Some(BuiltinWordToken::ArcTan)
        } else if s == "arccsc"@ {
            Some(BuiltinWordToken::ArcCsc)
        } else if s == "arcsec"@ {
            Some(BuiltinWordToken::ArcSec)
        } else if s == "arccot"@ {
            Some(BuiltinWordToken::ArcCot)
        } else if s == "arcsinh"@ {
            Some(BuiltinWordToken::ArcSinH)
        } else if s == "arccosh"@ {
            Some(BuiltinWordToken::ArcCosH)
        } else if s == "arctanh"@ {
            Some(BuiltinWordToken::ArcTanH)
        } else if s == "arccsch"@ {
            Some(BuiltinWordToken::ArcCscH)
        } else if s == "arcsech"@ {
            Some(BuiltinWordToken::ArcSecH)
        } else if s == "arccoth"@ {
            Some(BuiltinWordToken::ArcCotH)
        } else {
            None
        }
    }

    /// Try to construct a builtin word token. If `None`, the word is not
    /// built in.
    pub fn try_from(token: &str) -> (r: Option<Self>)
        ensures
            r == Self::spec_from(token@),
    {
        if str_eq(token, "e") {
            Some(BuiltinWordToken::E)
        } else if str_eq(token, "pi") {
            Some(BuiltinWordToken::Pi)
        } else if str_eq(token, "varphi") || str_eq(token, "gold") {
            Some(BuiltinWordToken::VarPhi)
        } else if str_eq(token, "none") || str_eq(token, "empty") {
            Some(BuiltinWordToken::VarNothing)
        } else if str_eq(token, "theta") {
            Some(BuiltinWordToken::Theta)
        } else if str_eq(token, "phi") {
            Some(BuiltinWordToken::Phi)
        } else if str_eq(token, "psi") {
            Some(BuiltinWordToken::Psi)
        } else if str_eq(token, "sqrt") {
            Some(BuiltinWordToken::Sqrt)
        } else if str_eq(token, "log") {
            Some(BuiltinWordToken::Log)
        } else if str_eq(token, "ln") {
            Some(BuiltinWordToken::Ln)
        } else if str_eq(token, "sum") {
            Some(BuiltinWordToken::Sum)
        } else if str_eq(token, "prod") {
            Some(BuiltinWordToken::Prod)
        } else if str_eq(token, "Zeta") {
            Some(BuiltinWordToken::ZZeta)
        } else if str_eq(token, "sin") {
            Some(BuiltinWordToken::Sin)
        } else if str_eq(token, "cos") {
            Some(BuiltinWordToken::Cos)
        } else if str_eq(token, "tan") {
            Some(BuiltinWordToken::Tan)
        } else if str_eq(token, "csc") {
            Some(BuiltinWordToken::Csc)
        } else if str_eq(token, "sec") {
            Some(BuiltinWordToken::Sec)
        } else if str_eq(token, "cot") {
            Some(BuiltinWordToken::Cot)
        } else if str_eq(token, "sinh") {
            Some(BuiltinWordToken::SinH)
        } else if str_eq(token, "cosh") {
            Some(BuiltinWordToken::CosH)
        } else if str_eq(token, "tanh") {
            Some(BuiltinWordToken::TanH)
        } else if str_eq(token, "csch") {
            Some(BuiltinWordToken::CscH)
        } else if str_eq(token, "sech") {
            Some(BuiltinWordToken::SecH)
        } else if str_eq(token, "coth") {
            Some(BuiltinWordToken::CotH)
        } else if str_eq(token, "arcsin") {
            Some(BuiltinWordToken::ArcSin)
        } else if str_eq(token, "arccos") {
            Some(BuiltinWordToken::ArcCos)
        } else if str_eq(token, "arctan") {
            Some(BuiltinWordToken::ArcTan)
        } else if str_eq(token, "arccsc") {
            Some(BuiltinWordToken::ArcCsc)
        } else if str_eq(token, "arcsec") {
            Some(BuiltinWordToken::ArcSec)
        } else if str_eq(token, "arccot") {
            Some(BuiltinWordToken::ArcCot)
        } else if str_eq(token, "arcsinh") {
            Some(BuiltinWordToken::ArcSinH)
        } else if str_eq(token, "arccosh") {
            Some(BuiltinWordToken::ArcCosH)
        } else if str_eq(token, "arctanh") {
            Some(BuiltinWordToken::ArcTanH)
        } else if str_eq(token, "arccsch") {
            Some(BuiltinWordToken::ArcCscH)
        } else if str_eq(token, "arcsech") {
            Some(BuiltinWordToken::ArcSecH)
        } else if str_eq(token, "arccoth") {
            Some(BuiltinWordToken::ArcCotH)
        } else {
            None
        }
    }

    /// What [`DefKind`] the builtin word represents.
    pub open spec fn spec_kind(self) -> DefKind {
        match self {
            BuiltinWordToken::E => DefKind::Literal,
            BuiltinWordToken::Pi => DefKind::Literal,
            BuiltinWordToken::VarPhi => DefKind::Literal,
            BuiltinWordToken::VarNothing => DefKind::Literal,
            BuiltinWordToken::Theta => DefKind::Variable,
            BuiltinWordToken::Phi => DefKind::Variable,
            BuiltinWordToken::Psi => DefKind::Variable,
            _ => DefKind::Function,
        }
    }

    /// What [`DefKind`] the builtin word represents.
    pub fn kind(&self) -> (r: DefKind)
        ensures
            r == self.spec_kind(),
    {
        match self {
            BuiltinWordToken::E | BuiltinWordToken::Pi | BuiltinWordToken::VarPhi
                | BuiltinWordToken::VarNothing => DefKind::Literal,
            BuiltinWordToken::Theta | BuiltinWordToken::Phi | BuiltinWordToken::Psi
                => DefKind::Variable,
            _ => DefKind::Function,
        }
    }

    /// The markup command alone, without the [`DefKind`] wrapper command.
    pub open spec fn spec_command(self) -> Seq<char> {
        match self {
            BuiltinWordToken::E => "e"@,
            BuiltinWordToken::Pi => r"\pi"@,
            BuiltinWordToken::VarPhi => r"\varphi"@,
            BuiltinWordToken::VarNothing => r"\varnothing"@,
            BuiltinWordToken::Theta => r"\theta"@,
            BuiltinWordToken::Phi => r"\phi"@,
            BuiltinWordToken::Psi => r"\psi"@,
            BuiltinWordToken::Sqrt => r"\sqrt{}"@,
            BuiltinWordToken::Log => r"\log"@,
            BuiltinWordToken::Ln => r"\ln"@,
            BuiltinWordToken::Sum => r"\sum"@,
            BuiltinWordToken::Prod => r"\prod"@,
            BuiltinWordToken::ZZeta => r"\Zeta"@,
            BuiltinWordToken::Sin => r"\sin"@,
            BuiltinWordToken::Cos => r"\cos"@,
            BuiltinWordToken::Tan => r"\tan"@,
            BuiltinWordToken::Csc => r"\csc"@,
            BuiltinWordToken::Sec => r"\sec"@,
            BuiltinWordToken::Cot => r"\cot"@,
            BuiltinWordToken::SinH => r"\sinh"@,
            BuiltinWordToken::CosH => r"\cosh"@,
            BuiltinWordToken::TanH => r"\tanh"@,
            BuiltinWordToken::CscH => r"\csch"@,
            BuiltinWordToken::SecH => r"\sech"@,
            BuiltinWordToken::CotH => r"\coth"@,
            BuiltinWordToken::ArcSin => r"\arcsin"@,
            BuiltinWordToken::ArcCos => r"\arccos"@,
            BuiltinWordToken::ArcTan => r"\arctan"@,
            BuiltinWordToken::ArcCsc => r"\arccsc"@,
            BuiltinWordToken::ArcSec => r"\arcsec"@,
            BuiltinWordToken::ArcCot => r"\arccot"@,
            BuiltinWordToken::ArcSinH => r"\arcsinh"@,
            BuiltinWordToken::ArcCosH => r"\arccosh"@,
            BuiltinWordToken::ArcTanH => r"\arctanh"@,
            BuiltinWordToken::ArcCscH => r"\arccsch"@,
            BuiltinWordToken::ArcSecH => r"\arcsech"@,
            BuiltinWordToken::ArcCotH => r"\arccoth"@,
        }
    }

    /// The markup command alone, without the [`DefKind`] wrapper command.
    pub fn command(&self) -> (r: &'static str)
        ensures
            r@ == self.spec_command(),
    {
        match self {
            BuiltinWordToken::E => "e",
            BuiltinWordToken::Pi => r"\pi",
            BuiltinWordToken::VarPhi => r"\varphi",
            BuiltinWordToken::VarNothing => r"\varnothing",
            BuiltinWordToken::Theta => r"\theta",
            BuiltinWordToken::Phi => r"\phi",
            BuiltinWordToken::Psi => r"\psi",
            BuiltinWordToken::Sqrt => r"\sqrt{}",
            BuiltinWordToken::Log => r"\log",
            BuiltinWordToken::Ln => r"\ln",
            BuiltinWordToken::Sum => r"\sum",
            BuiltinWordToken::Prod => r"\prod",
            BuiltinWordToken::ZZeta => r"\Zeta",
            BuiltinWordToken::Sin => r"\sin",
            BuiltinWordToken::Cos => r"\cos",
            BuiltinWordToken::Tan => r"\tan",
            BuiltinWordToken::Csc => r"\csc",
            BuiltinWordToken::Sec => r"\sec",
            BuiltinWordToken::Cot => r"\cot",
            BuiltinWordToken::SinH => r"\sinh",
            BuiltinWordToken::CosH => r"\cosh",
            BuiltinWordToken::TanH => r"\tanh",
            BuiltinWordToken::CscH => r"\csch",
            BuiltinWordToken::SecH => r"\sech",
            BuiltinWordToken::CotH => r"\coth",
            BuiltinWordToken::ArcSin => r"\arcsin",
            BuiltinWordToken::ArcCos => r"\arccos",
            BuiltinWordToken::ArcTan => r"\arctan",
            BuiltinWordToken::ArcCsc => r"\arccsc",
            BuiltinWordToken::ArcSec => r"\arcsec",
            BuiltinWordToken::ArcCot => r"\arccot",
            BuiltinWordToken::ArcSinH => r"\arcsinh",
            BuiltinWordToken::ArcCosH => r"\arccosh",
            BuiltinWordToken::ArcTanH => r"\arctanh",
            BuiltinWordToken::ArcCscH => r"\arccsch",
            BuiltinWordToken::ArcSecH => r"\arcsech",
            BuiltinWordToken::ArcCotH => r"\arccoth",
        }
    }

    /// The markup command alone, as an owned string.
    pub fn into_tex(self) -> (r: String)
        ensures
            r@ == self.spec_command(),
    {
        String::from_str(self.command())
    }

    /// The full markup of the builtin word: its [`DefKind`] wrapper command
    /// applied to its own command.
    pub open spec fn spec_tex(self) -> Seq<char> {
        self.spec_kind().spec_tex() + "{"@ + self.spec_command() + "}"@
    }
}

impl ToTex for BuiltinWordToken {
    fn to_tex(self) -> (r: String)
        ensures
            r@ == self.spec_tex(),
    {
        let mut out = self.kind().to_tex();
        out.append("{");
        out.append(self.command());
        out.append("}");
        out
    }
}

} // verus!
