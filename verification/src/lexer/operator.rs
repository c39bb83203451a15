//! Operator tokens: spellings, precedence tiers, arity variants, categories
//! and markup commands.

use vstd::prelude::*;
use crate::to_tex::ToTex;
use crate::text::str_eq;

verus! {

/// One concrete shape an operator may match against its neighbors.
#[derive(Debug, Clone, Copy, PartialEq, Eq, Structural)]
pub enum NAry {
    /// Takes one argument on each side.
    Binary,
    /// Takes one argument on the right.
    Prefix,
    /// Takes one argument on the left.
    Suffix,
}

/// Whether an [`OperatorToken`] is an operation or an assertion; this only
/// selects the rendering wrapper command.
#[derive(Debug, Clone, Copy, PartialEq, Eq, Structural)]
pub enum OpType {
    /// Represents an operation (`\op`).
    Operation,
    /// Represents an assertion (`\stmt`).
    Assertion,
}

impl OpType {
    /// The markup wrapper command for this category.
    pub open spec fn spec_tex(self) -> Seq<char> {
        match self {
            OpType::Operation => r"\op"@,
            OpType::Assertion => r"\stmt"@,
        }
    }
}

impl ToTex for OpType {
    fn to_tex(self) -> (r: String)
        ensures
            r@ == self.spec_tex(),
    {
        String::from_str(match self {
            OpType::Operation => r"\op",
            OpType::Assertion => r"\stmt",
        })
    }
}

/// The number of precedence tiers in the operator table.
pub const TIER_COUNT: usize = 21;

/// A token that specifically represents an operator.
/// Operators look around to find their arguments.
#[derive(Debug, Clone, Copy, PartialEq, Eq, Structural)]
pub enum OperatorToken {
    /// Distinguishment or collection indexing
    Subscript,
    /// Factorial
    Factorial,
    /// Lagrange derivative notation
    Prime,
    /// Logical NOT
    Not,
    /// Exponent
    Superscript,
    /// Multiplication
    CDot,
    /// Division
    Frac,
    /// Addition or subtraction
    Pm,
    /// Subtraction or addition
    Mp,
    /// Addition
    Plus,
    /// Subtraction or negation
    Minus,
    /// Binomial coefficient
    Choose,
    /// Limit approach
    To,
    /// Reserved for future assignment
    Gets,
    /// Greater than
    Gt,
    /// Greater than or equal to
    Ge,
    /// Less than
    Lt,
    /// Less than or equal to
    Le,
    /// Element of
    In,
    /// Similar to
    Sim,
    /// For all
    Forall,
    /// There exists
    Exists,
    /// There does not exist
    NExists,
    /// There exists a unique
    ExistsUnique,
    /// There does not exist a unique
    NExistsUnique,
    /// Equality
    Eq,
    /// Inequality
    Ne,
    /// Equivalence
    Equiv,
    /// Inequivalence
    NEquiv,
    /// Set intersection
    Intersection,
    /// Set union
    Union,
    /// Logical AND (large)
    Wedge,
    /// Logical AND
    And,
    /// Logical NAND
    Nand,
    /// Logical XOR
    Xor,
    /// Logical XNOR
    Xnor,
    /// Logical OR (large)
    Vee,
    /// Logical OR
    Or,
    /// Logical NOR
    Nor,
    /// Difference of sets
    Setminus,
    /// Requirement; "x such that [condition]"
    Colon,
    /// Mapping
    MapsTo,
    /// Mapping, reversed
    MapsFrom,
    /// If A then B
    Implies,
    /// If B then A
    Impliedby,
    /// A, B only if A AND B
    Iff,
    /// Because of A, B is true
    Therefore,
    /// The reason A is true is because B
    Because,
    /// The statement requires the following condition(s)
    Where,
}

impl OperatorToken {
    /// The precedence tier of the operator. A lower tier binds tighter.
    pub open spec fn spec_precedence(self) -> int {
        match self {
            OperatorToken::Subscript => 0,
            OperatorToken::Factorial => 1,
            OperatorToken::Prime => 1,
            OperatorToken::Not => 1,
            OperatorToken::Superscript => 2,
            OperatorToken::CDot => 3,
            OperatorToken::Frac => 3,
            OperatorToken::Pm => 4,
            OperatorToken::Mp => 4,
            OperatorToken::Plus => 4,
            OperatorToken::Minus => 4,
            OperatorToken::Choose => 5,
            OperatorToken::To => 6,
            OperatorToken::Gets => 6,
            OperatorToken::Gt => 7,
            OperatorToken::Ge => 7,
            OperatorToken::Lt => 7,
            OperatorToken::Le => 7,
            OperatorToken::In => 7,
            OperatorToken::Sim => 7,
            OperatorToken::Forall => 8,
            OperatorToken::Exists => 8,
            OperatorToken::NExists => 8,
            OperatorToken::ExistsUnique => 8,
            OperatorToken::NExistsUnique => 8,
            OperatorToken::Eq => 9,
            OperatorToken::Ne => 9,
            OperatorToken::Equiv => 9,
            OperatorToken::NEquiv => 9,
            OperatorToken::Intersection => 10,
            OperatorToken::Union => 11,
            OperatorToken::Wedge => 12,
            OperatorToken::And => 12,
            OperatorToken::Nand => 12,
            OperatorToken::Xor => 13,
            OperatorToken::Xnor => 13,
            OperatorToken::Vee => 14,
            OperatorToken::Or => 14,
            OperatorToken::Nor => 14,
            OperatorToken::Setminus => 15,
            OperatorToken::Colon => 16,
            OperatorToken::MapsTo => 17,
            OperatorToken::MapsFrom => 17,
            OperatorToken::Implies => 18,
            OperatorToken::Impliedby => 18,
            OperatorToken::Iff => 18,
            OperatorToken::Therefore => 19,
            OperatorToken::Because => 19,
            OperatorToken::Where => 20,
        }
    }

    /// How much the operator wants to bind with its current arguments.
    /// Higher binding power ops will clump with arguments before allowing
    /// lower binding power ops to see them.
    pub open spec fn spec_bind_power(self) -> int {
        TIER_COUNT - self.spec_precedence()
    }

    /// The order in which the operator should be evaluated.
    pub fn precedence(&self) -> (r: usize)
        ensures
            r == self.spec_precedence(),
            r < TIER_COUNT,
    {
        match self {
            OperatorToken::Subscript => 0,
            OperatorToken::Factorial => 1,
            OperatorToken::Prime => 1,
            OperatorToken::Not => 1,
            OperatorToken::Superscript => 2,
            OperatorToken::CDot => 3,
            OperatorToken::Frac => 3,
            OperatorToken::Pm => 4,
            OperatorToken::Mp => 4,
            OperatorToken::Plus => 4,
            OperatorToken::Minus => 4,
            OperatorToken::Choose => 5,
            OperatorToken::To => 6,
            OperatorToken::Gets => 6,
            OperatorToken::Gt => 7,
            OperatorToken::Ge => 7,
            OperatorToken::Lt => 7,
            OperatorToken::Le => 7,
            OperatorToken::In => 7,
            OperatorToken::Sim => 7,
            OperatorToken::Forall => 8,
            OperatorToken::Exists => 8,
            OperatorToken::NExists => 8,
            OperatorToken::ExistsUnique => 8,
            OperatorToken::NExistsUnique => 8,
            OperatorToken::Eq => 9,
            OperatorToken::Ne => 9,
            OperatorToken::Equiv => 9,
            OperatorToken::NEquiv => 9,
            OperatorToken::Intersection => 10,
            OperatorToken::Union => 11,
            OperatorToken::Wedge => 12,
            OperatorToken::And => 12,
            OperatorToken::Nand => 12,
            OperatorToken::Xor => 13,
            OperatorToken::Xnor => 13,
            OperatorToken::Vee => 14,
            OperatorToken::Or => 14,
            OperatorToken::Nor => 14,
            OperatorToken::Setminus => 15,
            OperatorToken::Colon => 16,
            OperatorToken::MapsTo => 17,
            OperatorToken::MapsFrom => 17,
            OperatorToken::Implies => 18,
            OperatorToken::Impliedby => 18,
            OperatorToken::Iff => 18,
            OperatorToken::Therefore => 19,
            OperatorToken::Because => 19,
            OperatorToken::Where => 20,
        }
    }

    /// How much the operator wants to bind with its current arguments.
    pub fn bind_power(&self) -> (r: usize)
        ensures
            r == self.spec_bind_power(),
            0 < r <= TIER_COUNT,
    {
        TIER_COUNT - self.precedence()
    }

    /// The arity variants of the operator, in the order they are tried
    /// during resolution.
    pub open spec fn spec_nary(self) -> Seq<NAry> {
        match self {
            OperatorToken::Factorial => seq![NAry::Suffix],
            OperatorToken::Prime => seq![NAry::Suffix],
            OperatorToken::Not => seq![NAry::Prefix],
            OperatorToken::Forall => seq![NAry::Prefix],
            OperatorToken::Exists => seq![NAry::Prefix],
            OperatorToken::NExists => seq![NAry::Prefix],
            OperatorToken::ExistsUnique => seq![NAry::Prefix],
            OperatorToken::NExistsUnique => seq![NAry::Prefix],
            OperatorToken::Pm => seq![NAry::Binary, NAry::Prefix],
            OperatorToken::Mp => seq![NAry::Binary, NAry::Prefix],
            OperatorToken::Plus => seq![NAry::Binary, NAry::Prefix],
            OperatorToken::Minus => seq![NAry::Binary, NAry::Prefix],
            _ => seq![NAry::Binary],
        }
    }

    /// The lookaround shapes of the operator, tried in declaration order.
    pub fn nary(&self) -> (r: Vec<NAry>)
        ensures
            r@ == self.spec_nary(),
    {
        let mut v: Vec<NAry> = Vec::new();
        match self {
            OperatorToken::Factorial | OperatorToken::Prime => {
                v.push(NAry::Suffix);
            },
            OperatorToken::Not | OperatorToken::Forall | OperatorToken::Exists
                | OperatorToken::NExists | OperatorToken::ExistsUnique
                | OperatorToken::NExistsUnique => {
                v.push(NAry::Prefix);
            },
            OperatorToken::Pm | OperatorToken::Mp | OperatorToken::Plus
                | OperatorToken::Minus => {
                v.push(NAry::Binary);
                v.push(NAry::Prefix);
            },
            _ => {
                v.push(NAry::Binary);
            },
        }
        proof {
            assert(v@ =~= self.spec_nary());
        }
        v
    }

    /// Whether the operator is an assertion or operation.
    pub open spec fn spec_kind(self) -> OpType {
        match self {
            OperatorToken::Subscript => OpType::Operation,
            OperatorToken::Factorial => OpType::Operation,
            OperatorToken::Prime => OpType::Operation,
            OperatorToken::Not => OpType::Operation,
            OperatorToken::Superscript => OpType::Operation,
            OperatorToken::CDot => OpType::Operation,
            OperatorToken::Frac => OpType::Operation,
            OperatorToken::Pm => OpType::Operation,
            OperatorToken::Mp => OpType::Operation,
            OperatorToken::Plus => OpType::Operation,
            OperatorToken::Minus => OpType::Operation,
            OperatorToken::Choose => OpType::Operation,
            OperatorToken::To => OpType::Operation,
            OperatorToken::Gets => OpType::Operation,
            OperatorToken::Intersection => OpType::Operation,
            OperatorToken::Union => OpType::Operation,
            OperatorToken::Wedge => OpType::Operation,
            OperatorToken::And => OpType::Operation,
            OperatorToken::Nand => OpType::Operation,
            OperatorToken::Xor => OpType::Operation,
            OperatorToken::Xnor => OpType::Operation,
            OperatorToken::Vee => OpType::Operation,
            OperatorToken::Or => OpType::Operation,
            OperatorToken::Nor => OpType::Operation,
            OperatorToken::Setminus => OpType::Operation,
            _ => OpType::Assertion,
        }
    }

    /// Whether the operator is an assertion or operation.
    pub fn kind(&self) -> (r: OpType)
        ensures
            r == self.spec_kind(),
    {
        match self {
            OperatorToken::Subscript | OperatorToken::Factorial | OperatorToken::Prime
                | OperatorToken::Not | OperatorToken::Superscript | OperatorToken::CDot
                | OperatorToken::Frac | OperatorToken::Pm | OperatorToken::Mp
                | OperatorToken::Plus | OperatorToken::Minus | OperatorToken::Choose
                | OperatorToken::To | OperatorToken::Gets | OperatorToken::Intersection
                | OperatorToken::Union | OperatorToken::Wedge | OperatorToken::And
                | OperatorToken::Nand | OperatorToken::Xor | OperatorToken::Xnor
                | OperatorToken::Vee | OperatorToken::Or | OperatorToken::Nor
                | OperatorToken::Setminus => OpType::Operation,
            _ => OpType::Assertion,
        }
    }

    /// The markup command for the operator symbol itself.
    pub open spec fn spec_tex(self) -> Seq<char> {
        match self {
            OperatorToken::Subscript => "_"@,
            OperatorToken::Factorial => "!"@,
            OperatorToken::Prime => r"\prime"@,
            OperatorToken::Not => r"\lnot"@,
            OperatorToken::Superscript => "^"@,
            OperatorToken::CDot => r"\cdot"@,
            OperatorToken::Frac => r"\frac"@,
            OperatorToken::Pm => r"\pm"@,
            OperatorToken::Mp => r"\mp"@,
            OperatorToken::Plus => "+"@,
            OperatorToken::Minus => "-"@,
            OperatorToken::Choose => r"\binom"@,
            OperatorToken::To => r"\to"@,
            OperatorToken::Gets => r"\gets"@,
            OperatorToken::Gt => ">"@,
            OperatorToken::Ge => r"\ge"@,
            OperatorToken::Lt => "<"@,
            OperatorToken::Le => r"\le"@,
            OperatorToken::In => r"\in"@,
            OperatorToken::Sim => r"\sim"@,
            OperatorToken::Forall => r"\forall"@,
            OperatorToken::Exists => r"\exists"@,
            OperatorToken::NExists => r"\nexists"@,
            OperatorToken::ExistsUnique => r"!\exists"@,
            OperatorToken::NExistsUnique => r"!\nexists"@,
            OperatorToken::Eq => "="@,
            OperatorToken::Ne => r"\ne"@,
            OperatorToken::Equiv => r"\equiv"@,
            OperatorToken::NEquiv => r"\nequiv"@,
            OperatorToken::Intersection => r"\cap"@,
            OperatorToken::Union => r"\cup"@,
            OperatorToken::Wedge => r"\bigwedge"@,
            OperatorToken::And => r"\land"@,
            OperatorToken::Nand => r"\lnand"@,
            OperatorToken::Xor => r"\lxor"@,
            OperatorToken::Xnor => r"\lxnor"@,
            OperatorToken::Vee => r"\bigvee"@,
            OperatorToken::Or => r"\lor"@,
            OperatorToken::Nor => r"\lnor"@,
            OperatorToken::Setminus => r"\setminus"@,
            OperatorToken::Colon => ":"@,
            OperatorToken::MapsTo => r"\mapsto"@,
            OperatorToken::MapsFrom => r"\mapsfrom"@,
            OperatorToken::Implies => r"\implies"@,
            OperatorToken::Impliedby => r"\impliedby"@,
            OperatorToken::Iff => r"\iff"@,
            OperatorToken::Therefore => r"\therefore"@,
            OperatorToken::Because => r"\because"@,
            OperatorToken::Where => r"\where"@,
        }
    }

    /// The markup command as a borrowed string.
    pub fn tex_str(&self) -> (r: &'static str)
        ensures
            r@ == self.spec_tex(),
    {
        match self {
            OperatorToken::Subscript => "_",
            OperatorToken::Factorial => "!",
            OperatorToken::Prime => r"\prime",
            OperatorToken::Not => r"\lnot",
            OperatorToken::Superscript => "^",
            OperatorToken::CDot => r"\cdot",
            OperatorToken::Frac => r"\frac",
            OperatorToken::Pm => r"\pm",
            OperatorToken::Mp => r"\mp",
            OperatorToken::Plus => "+",
            OperatorToken::Minus => "-",
            OperatorToken::Choose => r"\binom",
            OperatorToken::To => r"\to",
            OperatorToken::Gets => r"\gets",
            OperatorToken::Gt => ">",
            OperatorToken::Ge => r"\ge",
            OperatorToken::Lt => "<",
            OperatorToken::Le => r"\le",
            OperatorToken::In => r"\in",
            OperatorToken::Sim => r"\sim",
            OperatorToken::Forall => r"\forall",
            OperatorToken::Exists => r"\exists",
            OperatorToken::NExists => r"\nexists",
            OperatorToken::ExistsUnique => r"!\exists",
            OperatorToken::NExistsUnique => r"!\nexists",
            OperatorToken::Eq => "=",
            OperatorToken::Ne => r"\ne",
            OperatorToken::Equiv => r"\equiv",
            OperatorToken::NEquiv => r"\nequiv",
            OperatorToken::Intersection => r"\cap",
            OperatorToken::Union => r"\cup",
            OperatorToken::Wedge => r"\bigwedge",
            OperatorToken::And => r"\land",
            OperatorToken::Nand => r"\lnand",
            OperatorToken::Xor => r"\lxor",
            OperatorToken::Xnor => r"\lxnor",
            OperatorToken::Vee => r"\bigvee",
            OperatorToken::Or => r"\lor",
            OperatorToken::Nor => r"\lnor",
            OperatorToken::Setminus => r"\setminus",
            OperatorToken::Colon => ":",
            OperatorToken::MapsTo => r"\mapsto",
            OperatorToken::MapsFrom => r"\mapsfrom",
            OperatorToken::Implies => r"\implies",
            OperatorToken::Impliedby => r"\impliedby",
            OperatorToken::Iff => r"\iff",
            OperatorToken::Therefore => r"\therefore",
            OperatorToken::Because => r"\because",
            OperatorToken::Where => r"\where",
        }
    }

    /// The operator token, if any, that the given source spelling denotes.
    pub open spec fn spec_from(s: Seq<char>) -> Option<OperatorToken> {
        if s == "_"@ {
            Some(OperatorToken::Subscript)
        } else if s == "!"@ {
            Some(OperatorToken::Factorial)
        } else if s == "'"@ {
            Some(OperatorToken::Prime)
        } else if s == "not"@ {
            Some(OperatorToken::Not)
        } else if s == "^"@ {
            Some(OperatorToken::Superscript)
        } else if s == "*"@ {
            Some(OperatorToken::CDot)
        } else if s == "/"@ {
            Some(OperatorToken::Frac)
        } else if s == "+/-"@ {
            Some(OperatorToken::Pm)
        } else if s == "-/+"@ {
            Some(OperatorToken::Mp)
        } else if s == "+"@ {
            Some(OperatorToken::Plus)
        } else if s == "-"@ {
            Some(OperatorToken::Minus)
        } else if s == "choose"@ {
            Some(OperatorToken::Choose)
        } else if s == "->"@ {
            Some(OperatorToken::To)
        } else if s == "<-"@ {
            Some(OperatorToken::Gets)
        } else if s == ">"@ {
            Some(OperatorToken::Gt)
        } else if s == ">="@ {
            Some(OperatorToken::Ge)
        } else if s == "<"@ {
            Some(OperatorToken::Lt)
        } else if s == "<="@ {
            Some(OperatorToken::Le)
        } else if s == "in"@ {
            Some(OperatorToken::In)
        } else if s == "~"@ {
            Some(OperatorToken::Sim)
        } else if s == "for all"@ {
            Some(OperatorToken::Forall)
        } else if s == "exists no"@ {
            Some(OperatorToken::NExists)
        } else if s == "exists"@ {
            Some(OperatorToken::Exists)
        } else if s == "!exists no"@ {
            Some(OperatorToken::NExistsUnique)
        } else if s == "!exists"@ {
            Some(OperatorToken::ExistsUnique)
        } else if s == "=="@ || s == "="@ {
            Some(OperatorToken::Eq)
        } else if s == "!="@ || s == "=/="@ {
            Some(OperatorToken::Ne)
        } else if s == "==="@ {
            Some(OperatorToken::Equiv)
        } else if s == "!=="@ {
            Some(OperatorToken::NEquiv)
        } else if s == "&"@ || s == "cap"@ || s == "intersection"@ {
            Some(OperatorToken::Intersection)
        } else if s == "|"@ || s == "cup"@ || s == "union"@ {
            Some(OperatorToken::Union)
        } else if s == r"/\"@ {
            Some(OperatorToken::Wedge)
        } else if s == "and"@ {
            Some(OperatorToken::And)
        } else if s == "nand"@ {
            Some(OperatorToken::Nand)
        } else if s == "xor"@ {
            Some(OperatorToken::Xor)
        } else if s == "xnor"@ {
            Some(OperatorToken::Xnor)
        } else if s == r"\/"@ {
            Some(OperatorToken::Vee)
        } else if s == "or"@ {
            Some(OperatorToken::Or)
        } else if s == "nor"@ {
            Some(OperatorToken::Nor)
        } else if s == r"\"@ {
            Some(OperatorToken::Setminus)
        } else if s == ":"@ {
            Some(OperatorToken::Colon)
        } else if s == "|=>"@ || s == "|->"@ {
            Some(OperatorToken::MapsTo)
        } else if s == "<=|"@ || s == "<-|"@ {
            Some(OperatorToken::MapsFrom)
        } else if s == "==>"@ || s == "=>"@ {
            Some(OperatorToken::Implies)
        } else if s == "<=="@ {
            Some(OperatorToken::Impliedby)
        } else if s == "<=>"@ {
            Some(OperatorToken::Iff)
        } else if s == "so"@ {
            Some(OperatorToken::Therefore)
        } else if s == "bcus"@ {
            Some(OperatorToken::Because)
        } else if s == "where"@ {
            Some(OperatorToken::Where)
        } else {
            None
        }
    }

    /// Try to construct an operator token. Returns `None` if the token isn't
    /// an operator spelling.
    pub fn try_from(token: &str) -> (r: Option<Self>)
        ensures
            r == Self::spec_from(token@),
    {
        if str_eq(token, "_") {
            Some(OperatorToken::Subscript)
        } else if str_eq(token, "!") {
            Some(OperatorToken::Factorial)
        } else if str_eq(token, "'") {
            Some(OperatorToken::Prime)
        } else if str_eq(token, "not") {
            Some(OperatorToken::Not)
        } else if str_eq(token, "^") {
            Some(OperatorToken::Superscript)
        } else if str_eq(token, "*") {
            Some(OperatorToken::CDot)
        } else if str_eq(token, "/") {
            Some(OperatorToken::Frac)
        } else if str_eq(token, "+/-") {
            Some(OperatorToken::Pm)
        } else if str_eq(token, "-/+") {
            Some(OperatorToken::Mp)
        } else if str_eq(token, "+") {
            Some(OperatorToken::Plus)
        } else if str_eq(token, "-") {
            Some(OperatorToken::Minus)
        } else if str_eq(token, "choose") {
            Some(OperatorToken::Choose)
        } else if str_eq(token, "->") {
            Some(OperatorToken::To)
        } else if str_eq(token, "<-") {
            Some(OperatorToken::Gets)
        } else if str_eq(token, ">") {
            Some(OperatorToken::Gt)
        } else if str_eq(token, ">=") {
            Some(OperatorToken::Ge)
        } else if str_eq(token, "<") {
            Some(OperatorToken::Lt)
        } else if str_eq(token, "<=") {
            Some(OperatorToken::Le)
        } else if str_eq(token, "in") {
            Some(OperatorToken::In)
        } else if str_eq(token, "~") {
            Some(OperatorToken::Sim)
        } else if str_eq(token, "for all") {
            Some(OperatorToken::Forall)
        } else if str_eq(token, "exists no") {
            Some(OperatorToken::NExists)
        } else if str_eq(token, "exists") {
            Some(OperatorToken::Exists)
        } else if str_eq(token, "!exists no") {
            Some(OperatorToken::NExistsUnique)
        } else if str_eq(token, "!exists") {
            Some(OperatorToken::ExistsUnique)
        } else if str_eq(token, "==") || str_eq(token, "=") {
            Some(OperatorToken::Eq)
        } else if str_eq(token, "!=") || str_eq(token, "=/=") {
            Some(OperatorToken::Ne)
        } else if str_eq(token, "===") {
            Some(OperatorToken::Equiv)
        } else if str_eq(token, "!==") {
            Some(OperatorToken::NEquiv)
        } else if str_eq(token, "&") || str_eq(token, "cap") || str_eq(token, "intersection") {
            Some(OperatorToken::Intersection)
        } else if str_eq(token, "|") || str_eq(token, "cup") || str_eq(token, "union") {
            Some(OperatorToken::Union)
        } else if str_eq(token, r"/\") {
            Some(OperatorToken::Wedge)
        } else if str_eq(token, "and") {
            Some(OperatorToken::And)
        } else if str_eq(token, "nand") {
            Some(OperatorToken::Nand)
        } else if str_eq(token, "xor") {
            Some(OperatorToken::Xor)
        } else if str_eq(token, "xnor") {
            Some(OperatorToken::Xnor)
        } else if str_eq(token, r"\/") {
            Some(OperatorToken::Vee)
        } else if str_eq(token, "or") {
            Some(OperatorToken::Or)
        } else if str_eq(token, "nor") {
            Some(OperatorToken::Nor)
        } else if str_eq(token, r"\") {
            Some(OperatorToken::Setminus)
        } else if str_eq(token, ":") {
            Some(OperatorToken::Colon)
        } else if str_eq(token, "|=>") || str_eq(token, "|->") {
            Some(OperatorToken::MapsTo)
        } else if str_eq(token, "<=|") || str_eq(token, "<-|") {
            Some(OperatorToken::MapsFrom)
        } else if str_eq(token, "==>") || str_eq(token, "=>") {
            Some(OperatorToken::Implies)
        } else if str_eq(token, "<==") {
            Some(OperatorToken::Impliedby)
        } else if str_eq(token, "<=>") {
            Some(OperatorToken::Iff)
        } else if str_eq(token, "so") {
            Some(OperatorToken::Therefore)
        } else if str_eq(token, "bcus") {
            Some(OperatorToken::Because)
        } else if str_eq(token, "where") {
            Some(OperatorToken::Where)
        } else {
            None
        }
    }
}

impl ToTex for OperatorToken {
    fn to_tex(self) -> (r: String)
        ensures
            r@ == self.spec_tex(),
    {
        String::from_str(self.tex_str())
    }
}

} // verus!
