//! The syntax tree produced by the parser, its mathematical model, and the
//! renderer that turns a tree into markup text.

use vstd::prelude::*;
use vstd::pervasive::arbitrary;
use crate::to_tex::ToTex;
use crate::lexer::Token;
use crate::lexer::TokenV;
use crate::lexer::OperatorToken;
use crate::lexer::BracketKind;
use crate::lexer::GroupCtrlToken;
use crate::lexer::GroupControl;

verus! {

/// The mathematical model of a [`SyntaxNode`].
pub enum SyntaxNodeV {
    /// A normal token.
    Token(TokenV),
    /// An operator folded together with its arguments.
    Operator {
        /// Left hand side arguments.
        lhs: Seq<SyntaxNodeV>,
        /// The operator.
        op: OperatorToken,
        /// Right hand side arguments.
        rhs: Seq<SyntaxNodeV>,
    },
    /// A bracket-delimited subtree.
    Group {
        /// The kind of bracket the group was opened with.
        open: BracketKind,
        /// The content within the brackets.
        inner: Seq<SyntaxNodeV>,
        /// The kind of bracket the group was closed with.
        close: BracketKind,
    },
}

/// A node in a token tree.
#[derive(Debug)]
pub enum SyntaxNode {
    /// A normal token
    Token(Token),
    /// Operator
    Operator {
        /// Left hand side arguments
        lhs: Vec<SyntaxNode>,
        /// Operator
        op: OperatorToken,
        /// Right hand side arguments
        rhs: Vec<SyntaxNode>,
    },
    /// A subtree
    Group {
        /// How the group was opened; implied to be an opening delimiter.
        open: BracketKind,
        /// The content within the brackets
        inner: SyntaxTree,
        /// How the group was closed; implied to be a closing delimiter.
        close: BracketKind,
    },
}

/// A collection adapter for a [`Vec<SyntaxNode>`] with methods for pushing
/// particular types of nodes.
#[derive(Debug)]
pub struct SyntaxTree(pub Vec<SyntaxNode>);

/// The model of a single syntax node.
pub open spec fn node_view(n: SyntaxNode) -> SyntaxNodeV
    decreases n,
{
    match n {
        SyntaxNode::Token(t) => SyntaxNodeV::Token(t@),
        SyntaxNode::Operator { lhs, op, rhs } => SyntaxNodeV::Operator {
            lhs: nodes_view(lhs@),
            op,
            rhs: nodes_view(rhs@),
        },
        SyntaxNode::Group { open, inner, close } => SyntaxNodeV::Group {
            open,
            inner: nodes_view(inner.0@),
            close,
        },
    }
}

/// The model of a sequence of syntax nodes.
pub open spec fn nodes_view(s: Seq<SyntaxNode>) -> Seq<SyntaxNodeV>
    decreases s,
{
    Seq::new(
        s.len(),
        |i: int|
            if 0 <= i < s.len() {
                node_view(s[i])
            } else {
                arbitrary()
            },
    )
}

impl View for SyntaxNode {
    type V = SyntaxNodeV;

    open spec fn view(&self) -> SyntaxNodeV {
        node_view(*self)
    }
}

impl DeepView for SyntaxNode {
    type V = SyntaxNodeV;

    open spec fn deep_view(&self) -> SyntaxNodeV {
        node_view(*self)
    }
}

impl View for SyntaxTree {
    type V = Seq<SyntaxNodeV>;

    open spec fn view(&self) -> Seq<SyntaxNodeV> {
        nodes_view(self.0@)
    }
}

/// The inner content substituted for a node in an extract-inner rendering
/// slot: a parenthesis group loses its delimiter markup, any other node
/// stands alone.
pub open spec fn spec_extract_inner(n: SyntaxNodeV) -> Seq<SyntaxNodeV> {
    match n {
        SyntaxNodeV::Group { open: BracketKind::Paren, inner, close: BracketKind::Paren } => inner,
        _ => seq![n],
    }
}

/// The markup text of a single node.
pub open spec fn tex_of_node(n: SyntaxNodeV) -> Seq<char>
    decreases n, 0int,
{
    match n {
        SyntaxNodeV::Token(t) => t.spec_tex(),
        SyntaxNodeV::Group { open, inner, close } => (GroupCtrlToken {
            kind: open,
            ctrl: GroupControl::Open,
        }).spec_tex() + tex_of_nodes(inner) + (GroupCtrlToken {
            kind: close,
            ctrl: GroupControl::Close,
        }).spec_tex(),
        SyntaxNodeV::Operator { lhs, op, rhs } => {
            let o = op.spec_tex();
            let k = op.spec_kind().spec_tex();
            match op {
                OperatorToken::Subscript => if lhs.len() == 1 && rhs.len() == 1 {
                    "{"@ + tex_of_node(lhs[0]) + "}"@ + o + "{"@ + ei_tex(rhs[0]) + "}"@
                } else {
                    Seq::empty()
                },
                OperatorToken::Superscript => if lhs.len() == 1 && rhs.len() == 1 {
                    "{"@ + tex_of_node(lhs[0]) + "}"@ + k + "{"@ + o + "}{"@ + ei_tex(rhs[0])
                        + "}"@
                } else {
                    Seq::empty()
                },
                OperatorToken::Frac => if lhs.len() == 1 && rhs.len() == 1 {
                    k + "{"@ + o + "{"@ + ei_tex(lhs[0]) + "}{"@ + ei_tex(rhs[0]) + "}}"@
                } else {
                    Seq::empty()
                },
                OperatorToken::Factorial => if lhs.len() == 1 && rhs.len() == 0 {
                    "{"@ + tex_of_node(lhs[0]) + "}"@ + k + "{"@ + o + "}"@
                } else {
                    Seq::empty()
                },
                OperatorToken::Prime => if lhs.len() == 1 && rhs.len() == 0 {
                    "{"@ + tex_of_node(lhs[0]) + "}^{"@ + k + "{"@ + o + "}}"@
                } else {
                    Seq::empty()
                },
                OperatorToken::Not | OperatorToken::Forall | OperatorToken::Exists
                    | OperatorToken::NExists | OperatorToken::ExistsUnique
                    | OperatorToken::NExistsUnique => if lhs.len() == 0 && rhs.len() == 1 {
                    k + "{"@ + o + "}{"@ + tex_of_node(rhs[0]) + "}"@
                } else {
                    Seq::empty()
                },
                OperatorToken::Pm | OperatorToken::Mp | OperatorToken::Plus
                    | OperatorToken::Minus => if lhs.len() == 1 && rhs.len() == 1 {
                    "{"@ + tex_of_node(lhs[0]) + "}"@ + k + "{"@ + o + "}{"@ + tex_of_node(rhs[0])
                        + "}"@
                } else if lhs.len() == 0 && rhs.len() == 1 {
                    k + "{"@ + o + "}{"@ + tex_of_node(rhs[0]) + "}"@
                } else {
                    Seq::empty()
                },
                _ => if lhs.len() == 1 && rhs.len() == 1 {
                    "{"@ + tex_of_node(lhs[0]) + "}"@ + k + "{"@ + o + "}{"@ + tex_of_node(rhs[0])
                        + "}"@
                } else {
                    Seq::empty()
                },
            }
        },
    }
}

/// The markup text substituted for an extract-inner rendering slot.
pub open spec fn ei_tex(n: SyntaxNodeV) -> Seq<char>
    decreases n, 1int,
{
    match n {
        SyntaxNodeV::Group { open: BracketKind::Paren, inner, close: BracketKind::Paren } =>
            tex_of_nodes(inner),
        _ => tex_of_node(n),
    }
}

/// The markup text of a sequence of nodes, joined by single spaces.
pub open spec fn tex_of_nodes(s: Seq<SyntaxNodeV>) -> Seq<char>
    decreases s, 0int,
{
    if s.len() == 0 {
        Seq::empty()
    } else if s.len() == 1 {
        tex_of_node(s[0])
    } else {
        tex_of_node(s[0]) + " "@ + tex_of_nodes(s.drop_first())
    }
}

/// The markup text of an operator applied to its argument lists.
pub open spec fn spec_op_format(op: OperatorToken, lhs: Seq<SyntaxNodeV>, rhs: Seq<SyntaxNodeV>)
    -> Seq<char> {
    tex_of_node(SyntaxNodeV::Operator { lhs, op, rhs })
}

/// Render one node as markup.
fn node_tex(n: SyntaxNode) -> (r: String)
    ensures
        r@ == tex_of_node(node_view(n)),
    decreases n, 1int,
{
    let ghost n0 = n;
    match n {
        SyntaxNode::Token(t) => t.to_tex(),
        SyntaxNode::Group { open, inner, close } => {
            let ghost inner0 = inner;
            let SyntaxTree(items) = inner;
            proof {
                assert(decreases_to!(n0 => inner0));
                assert(decreases_to!(inner0 => inner0.0));
            }
            let mut out = GroupCtrlToken::open(open).into_tex();
            let joined = nodes_tex(items);
            out.append(joined.as_str());
            let close_str = GroupCtrlToken::close(close).into_tex();
            out.append(close_str.as_str());
            proof {
                assert(out@ =~= tex_of_node(node_view(n0)));
            }
            out
        },
        SyntaxNode::Operator { mut lhs, op, mut rhs } => {
            let ghost lhs0 = lhs;
            let ghost rhs0 = rhs;
            proof {
                assert(decreases_to!(n0 => lhs0));
                assert(decreases_to!(n0 => rhs0));
                assert(node_view(n0) == SyntaxNodeV::Operator {
                    lhs: nodes_view(lhs0@),
                    op,
                    rhs: nodes_view(rhs0@),
                });
            }
            let o = op.tex_str();
            let k = op.kind().to_tex();
            let out: String;
            if matches!(op, OperatorToken::Subscript) {
                if lhs.len() == 1 && rhs.len() == 1 {
                    let l0 = lhs.remove(0);
                    let r0 = rhs.remove(0);
                    proof {
                        assert(decreases_to!(lhs0 => lhs0[0]));
                        assert(decreases_to!(rhs0 => rhs0[0]));
                    }
                    let mut b = String::from_str("{");
                    let ls = node_tex(l0);
                    b.append(ls.as_str());
                    b.append("}");
                    b.append(o);
                    b.append("{");
                    let rs = arg_ei_tex(r0);
                    b.append(rs.as_str());
                    b.append("}");
                    out = b;
                } else {
                    out = String::new();
                }
            } else if matches!(op, OperatorToken::Superscript) {
                if lhs.len() == 1 && rhs.len() == 1 {
                    let l0 = lhs.remove(0);
                    let r0 = rhs.remove(0);
                    proof {
                        assert(decreases_to!(lhs0 => lhs0[0]));
                        assert(decreases_to!(rhs0 => rhs0[0]));
                    }
                    let mut b = String::from_str("{");
                    let ls = node_tex(l0);
                    b.append(ls.as_str());
                    b.append("}");
                    b.append(k.as_str());
                    b.append("{");
                    b.append(o);
                    b.append("}{");
                    let rs = arg_ei_tex(r0);
                    b.append(rs.as_str());
                    b.append("}");
                    out = b;
                } else {
                    out = String::new();
                }
            } else if matches!(op, OperatorToken::Frac) {
                if lhs.len() == 1 && rhs.len() == 1 {
                    let l0 = lhs.remove(0);
                    let r0 = rhs.remove(0);
                    proof {
                        assert(decreases_to!(lhs0 => lhs0[0]));
                        assert(decreases_to!(rhs0 => rhs0[0]));
                    }
                    let mut b = k;
                    b.append("{");
                    b.append(o);
                    b.append("{");
                    let ls = arg_ei_tex(l0);
                    b.append(ls.as_str());
                    b.append("}{");
                    let rs = arg_ei_tex(r0);
                    b.append(rs.as_str());
                    b.append("}}");
                    out = b;
                } else {
                    out = String::new();
                }
            } else if matches!(op, OperatorToken::Factorial) {
                if lhs.len() == 1 && rhs.len() == 0 {
                    let l0 = lhs.remove(0);
                    proof {
                        assert(decreases_to!(lhs0 => lhs0[0]));
                    }
                    let mut b = String::from_str("{");
                    let ls = node_tex(l0);
                    b.append(ls.as_str());
                    b.append("}");
                    b.append(k.as_str());
                    b.append("{");
                    b.append(o);
                    b.append("}");
                    out = b;
                } else {
                    out = String::new();
                }
            } else if matches!(op, OperatorToken::Prime) {
                if lhs.len() == 1 && rhs.len() == 0 {
                    let l0 = lhs.remove(0);
                    proof {
                        assert(decreases_to!(lhs0 => lhs0[0]));
                    }
                    let mut b = String::from_str("{");
                    let ls = node_tex(l0);
                    b.append(ls.as_str());
                    b.append("}^{");
                    b.append(k.as_str());
                    b.append("{");
                    b.append(o);
                    b.append("}}");
                    out = b;
                } else {
                    out = String::new();
                }
            } else if matches!(op, OperatorToken::Not | OperatorToken::Forall
                | OperatorToken::Exists | OperatorToken::NExists | OperatorToken::ExistsUnique
                | OperatorToken::NExistsUnique) {
                if lhs.len() == 0 && rhs.len() == 1 {
                    let r0 = rhs.remove(0);
                    proof {
                        assert(decreases_to!(rhs0 => rhs0[0]));
                    }
                    let mut b = k;
                    b.append("{");
                    b.append(o);
                    b.append("}{");
                    let rs = node_tex(r0);
                    b.append(rs.as_str());
                    b.append("}");
                    out = b;
                } else {
                    out = String::new();
                }
            } else if matches!(op, OperatorToken::Pm | OperatorToken::Mp | OperatorToken::Plus
                | OperatorToken::Minus) {
                if lhs.len() == 1 && rhs.len() == 1 {
                    let l0 = lhs.remove(0);
                    let r0 = rhs.remove(0);
                    proof {
                        assert(decreases_to!(lhs0 => lhs0[0]));
                        assert(decreases_to!(rhs0 => rhs0[0]));
                    }
                    let mut b = String::from_str("{");
                    let ls = node_tex(l0);
                    b.append(ls.as_str());
                    b.append("}");
                    b.append(k.as_str());
                    b.append("{");
                    b.append(o);
                    b.append("}{");
                    let rs = node_tex(r0);
                    b.append(rs.as_str());
                    b.append("}");
                    out = b;
                } else if lhs.len() == 0 && rhs.len() == 1 {
                    let r0 = rhs.remove(0);
                    proof {
                        assert(decreases_to!(rhs0 => rhs0[0]));
                    }
                    let mut b = k;
                    b.append("{");
                    b.append(o);
                    b.append("}{");
                    let rs = node_tex(r0);
                    b.append(rs.as_str());
                    b.append("}");
                    out = b;
                } else {
                    out = String::new();
                }
            } else {
                if lhs.len() == 1 && rhs.len() == 1 {
                    let l0 = lhs.remove(0);
                    let r0 = rhs.remove(0);
                    proof {
                        assert(decreases_to!(lhs0 => lhs0[0]));
                        assert(decreases_to!(rhs0 => rhs0[0]));
                    }
                    let mut b = String::from_str("{");
                    let ls = node_tex(l0);
                    b.append(ls.as_str());
                    b.append("}");
                    b.append(k.as_str());
                    b.append("{");
                    b.append(o);
                    b.append("}{");
                    let rs = node_tex(r0);
                    b.append(rs.as_str());
                    b.append("}");
                    out = b;
                } else {
                    out = String::new();
                }
            }
            proof {
                assert(out@ =~= tex_of_node(node_view(n0)));
            }
            out
        },
    }
}

/// Render the extract-inner substitution of one argument node.
fn arg_ei_tex(x: SyntaxNode) -> (r: String)
    ensures
        r@ == ei_tex(node_view(x)),
    decreases x, 2int,
{
    let ghost x0 = x;
    if matches!(x, SyntaxNode::Group { open: BracketKind::Paren, close: BracketKind::Paren, .. }) {
        match x {
            SyntaxNode::Group { open, inner, close } => {
                let ghost inner0 = inner;
                let SyntaxTree(items) = inner;
                proof {
                    assert(decreases_to!(x0 => inner0));
                    assert(decreases_to!(inner0 => inner0.0));
                }
                nodes_tex(items)
            },
            _ => String::new(),
        }
    } else {
        node_tex(x)
    }
}

/// Render a list of sibling nodes joined by single spaces.
#[verifier::loop_isolation(false)]
fn nodes_tex(v: Vec<SyntaxNode>) -> (r: String)
    ensures
        r@ == tex_of_nodes(nodes_view(v@)),
    decreases v, 0int,
{
    let ghost v0 = v;
    let mut items = v;
    let mut out = String::new();
    let mut first = true;
    proof {
        assert(items@ =~= v0@.subrange(0, v0@.len() as int));
    }
    while items.len() > 0
        invariant
            exists|k: int|
                0 <= k <= v0@.len() && items@ =~= v0@.subrange(k, v0@.len() as int),
            tex_of_nodes(nodes_view(v0@)) == out@ + (if items@.len() == 0 {
                Seq::<char>::empty()
            } else if first {
                tex_of_nodes(nodes_view(items@))
            } else {
                " "@ + tex_of_nodes(nodes_view(items@))
            }),
        decreases items.len(),
    {
        let ghost items_before = items@;
        let x = items.remove(0);
        proof {
            let k = choose|k: int|
                0 <= k <= v0@.len() && items_before =~= v0@.subrange(k, v0@.len() as int);
            assert(x == v0@[k]);
            assert(decreases_to!(v0 => v0[k]));
            assert(items@ =~= v0@.subrange(k + 1, v0@.len() as int));
        }
        if !first {
            out.append(" ");
        }
        let piece = node_tex(x);
        out.append(piece.as_str());
        first = false;
        proof {
            assert(nodes_view(items_before).drop_first() =~= nodes_view(items@));
            assert(nodes_view(items_before)[0] == node_view(x));
        }
    }
    out
}

impl SyntaxNode {
    /// Construct a node representing a single token and nothing else.
    pub fn new_token(token: Token) -> (r: Self)
        ensures
            r@ == SyntaxNodeV::Token(token@),
    {
        SyntaxNode::Token(token)
    }

    /// Construct a node representing an empty, blank-delimited subtree.
    pub fn new_group() -> (r: Self)
        ensures
            r@ == (SyntaxNodeV::Group {
                open: BracketKind::Blank,
                inner: Seq::empty(),
                close: BracketKind::Blank,
            }),
    {
        let r = SyntaxNode::Group {
            open: BracketKind::Blank,
            inner: SyntaxTree::new(),
            close: BracketKind::Blank,
        };
        proof {
            assert(nodes_view(Seq::<SyntaxNode>::empty()) =~= Seq::<SyntaxNodeV>::empty());
        }
        r
    }

    /// If the node is a parenthesis group, the subtree of its contents
    /// without the parentheses; otherwise a subtree holding the node alone.
    pub fn extract_inner(self) -> (r: SyntaxTree)
        ensures
            r@ == spec_extract_inner(self@),
    {
        let ghost s0 = self;
        if matches!(self, SyntaxNode::Group {
            open: BracketKind::Paren,
            close: BracketKind::Paren,
            ..
        }) {
            match self {
                SyntaxNode::Group { open: _, inner, close: _ } => inner,
                _ => SyntaxTree(Vec::new()),
            }
        } else {
            let mut v: Vec<SyntaxNode> = Vec::new();
            v.push(self);
            proof {
                assert(nodes_view(v@) =~= seq![node_view(s0)]);
            }
            SyntaxTree(v)
        }
    }
}

impl ToTex for SyntaxNode {
    fn to_tex(self) -> (r: String)
        ensures
            r@ == tex_of_node(self@),
    {
        node_tex(self)
    }
}

impl SyntaxTree {
    /// Construct an empty tree.
    pub fn new() -> (r: Self)
        ensures
            r@ == Seq::<SyntaxNodeV>::empty(),
    {
        let r = SyntaxTree(Vec::new());
        proof {
            assert(nodes_view(Seq::<SyntaxNode>::empty()) =~= Seq::<SyntaxNodeV>::empty());
        }
        r
    }

    /// Add a delimited subtree to the tree.
    pub fn push_group(&mut self, open: BracketKind, inner: Vec<SyntaxNode>, close: BracketKind)
        ensures
            final(self)@ == old(self)@.push(
                SyntaxNodeV::Group { open, inner: nodes_view(inner@), close },
            ),
    {
        let ghost inner0 = inner@;
        self.0.push(SyntaxNode::Group { open, inner: SyntaxTree(inner), close });
        proof {
            assert(nodes_view(self.0@) =~= old(self)@.push(
                SyntaxNodeV::Group { open, inner: nodes_view(inner0), close },
            ));
        }
    }

    /// Add a [`Token`] to the tree.
    pub fn push_token(&mut self, token: Token)
        ensures
            final(self)@ == old(self)@.push(SyntaxNodeV::Token(token@)),
    {
        let ghost t = token@;
        self.0.push(SyntaxNode::Token(token));
        proof {
            assert(nodes_view(self.0@) =~= old(self)@.push(SyntaxNodeV::Token(t)));
        }
    }
}

impl ToTex for SyntaxTree {
    fn to_tex(self) -> (r: String)
        ensures
            r@ == tex_of_nodes(self@),
    {
        let SyntaxTree(items) = self;
        nodes_tex(items)
    }
}

impl OperatorToken {
    /// Format the operator with its arguments as markup.
    ///
    /// This method is on the operator token itself instead of in the syntax
    /// tree because different operator tokens have different formatting
    /// requirements. An argument list shape that no arity variant of the
    /// operator produces renders as empty text.
    pub fn format(&self, lhs: Vec<SyntaxNode>, rhs: Vec<SyntaxNode>) -> (r: String)
        ensures
            r@ == spec_op_format(*self, nodes_view(lhs@), nodes_view(rhs@)),
    {
        node_tex(SyntaxNode::Operator { lhs, op: *self, rhs })
    }
}

} // verus!
