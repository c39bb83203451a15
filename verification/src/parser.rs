//! Parsing module. Groups bracket-delimited subexpressions and folds
//! operators into nodes.

/// Syntax tree for the parser.
pub mod syntax_tree;
/// Parser error module.
pub mod error;

pub use syntax_tree::SyntaxNode;
pub use syntax_tree::SyntaxNodeV;
pub use syntax_tree::SyntaxTree;
pub use syntax_tree::nodes_view;
pub use syntax_tree::node_view;
pub use error::ParseError;

use vstd::prelude::*;
use vstd::pervasive::arbitrary;
use crate::lexer::Token;
use crate::lexer::TokenV;
use crate::lexer::BracketKind;
use crate::lexer::GroupControl;
use crate::lexer::NAry;
use crate::lexer::OperatorToken;
use crate::stack::Stack;

verus! {

/// One suspended sibling list on the grouping stack: the bracket kind that
/// opened it, and the nodes collected before it was suspended.
pub type GroupFrame = (BracketKind, Seq<SyntaxNodeV>);

/// The model of the executable grouping stack.
pub open spec fn frames_view(s: Seq<(BracketKind, SyntaxTree)>) -> Seq<GroupFrame> {
    Seq::new(s.len(), |i: int| (s[i].0, s[i].1@))
}

/// Run the grouping machine over `toks`, starting from the given stack of
/// suspended lists and the current sibling list. Returns the final stack and
/// current list, or the first structural bracket error.
pub open spec fn run_group(
    toks: Seq<TokenV>,
    stack: Seq<GroupFrame>,
    cur: Seq<SyntaxNodeV>,
) -> Result<(Seq<GroupFrame>, Seq<SyntaxNodeV>), ParseError>
    decreases toks.len(),
{
    if toks.len() == 0 {
        Ok((stack, cur))
    } else {
        let rest = toks.drop_first();
        match toks[0] {
            TokenV::GroupCtrl(gc) => match gc.ctrl {
                GroupControl::Open => run_group(rest, stack.push((gc.kind, cur)), Seq::empty()),
                GroupControl::Close => {
                    if stack.len() == 0 {
                        Err(ParseError::TooManyCloseBrackets)
                    } else {
                        let (okind, outer) = stack.last();
                        if okind.spec_compatible(gc.kind) {
                            run_group(
                                rest,
                                stack.drop_last(),
                                outer.push(
                                    SyntaxNodeV::Group { open: okind, inner: cur, close: gc.kind },
                                ),
                            )
                        } else {
                            Err(
                                ParseError::BracketMismatch {
                                    opened_with: okind,
                                    closed_with: gc.kind,
                                },
                            )
                        }
                    }
                },
            },
            t => run_group(rest, stack, cur.push(SyntaxNodeV::Token(t))),
        }
    }
}

/// The result of grouping a whole token sequence: the machine must end with
/// no suspended list, else an opening delimiter was left unmatched.
pub open spec fn spec_group(toks: Seq<TokenV>) -> Result<Seq<SyntaxNodeV>, ParseError> {
    match run_group(toks, Seq::empty(), Seq::empty()) {
        Ok((stack, cur)) => if stack.len() == 0 {
            Ok(cur)
        } else {
            Err(ParseError::NotEnoughCloseBrackets)
        },
        Err(e) => Err(e),
    }
}

/// Groups bracket-delimited subexpressions.
///
/// An opening delimiter suspends the current sibling list; a closing
/// delimiter checks compatibility with the kind that opened the innermost
/// group and turns the group into a single node of the outer list. The
/// result is exactly [`spec_group`] of the token sequence.
#[verifier::loop_isolation(false)]
pub fn group_subexpressions(tokens: Vec<Token>) -> (r: Result<SyntaxTree, ParseError>)
    ensures
        match r {
            Ok(tree) => spec_group(tokens.deep_view()) == Ok::<Seq<SyntaxNodeV>, ParseError>(
                tree@,
            ),
            Err(e) => spec_group(tokens.deep_view()) == Err::<Seq<SyntaxNodeV>, ParseError>(e),
        },
{
    let ghost toks0 = tokens.deep_view();
    let mut toks = tokens;
    let mut stack: Stack<(BracketKind, SyntaxTree)> = Stack::new();
    let mut cur = SyntaxTree::new();
    proof {
        assert(frames_view(stack@) =~= Seq::<GroupFrame>::empty());
    }
    while toks.len() > 0
        invariant
            run_group(toks0, Seq::empty(), Seq::empty()) == run_group(
                toks.deep_view(),
                frames_view(stack@),
                cur@,
            ),
        decreases toks.len(),
    {
        let ghost toks_before = toks.deep_view();
        let ghost frames_before = frames_view(stack@);
        let t = toks.remove(0);
        proof {
            assert(toks_before[0] == t@);
            assert(toks.deep_view() =~= toks_before.drop_first());
        }
        match t {
            Token::GroupCtrl(gc) => {
                match gc.ctrl {
                    GroupControl::Open => {
                        let suspended = cur;
                        cur = SyntaxTree::new();
                        stack.push((gc.kind, suspended));
                        proof {
                            assert(frames_view(stack@) =~= frames_before.push(
                                (gc.kind, suspended@),
                            ));
                        }
                    },
                    GroupControl::Close => {
                        match stack.pop() {
                            None => {
                                return Err(ParseError::TooManyCloseBrackets);
                            },
                            Some((okind, mut outer)) => {
                                proof {
                                    assert(frames_before.last() == (okind, outer@));
                                    assert(frames_view(stack@) =~= frames_before.drop_last());
                                }
                                if okind.is_compatible(&gc.kind) {
                                    let SyntaxTree(inner_nodes) = cur;
                                    outer.push_group(okind, inner_nodes, gc.kind);
                                    cur = outer;
                                } else {
                                    return Err(
                                        ParseError::BracketMismatch {
                                            opened_with: okind,
                                            closed_with: gc.kind,
                                        },
                                    );
                                }
                            },
                        }
                    },
                }
            },
            other => {
                cur.push_token(other);
            },
        }
    }
    if stack.is_empty() {
        Ok(cur)
    } else {
        Err(ParseError::NotEnoughCloseBrackets)
    }
}

/// Whether the node is an unresolved operator token.
pub open spec fn is_op_leaf(n: SyntaxNodeV) -> bool {
    match n {
        SyntaxNodeV::Token(TokenV::Operator(_)) => true,
        _ => false,
    }
}

/// The operator held by an unresolved operator token.
pub open spec fn op_of(n: SyntaxNodeV) -> OperatorToken
    recommends
        is_op_leaf(n),
{
    match n {
        SyntaxNodeV::Token(TokenV::Operator(op)) => op,
        _ => arbitrary(),
    }
}

/// The index of the operator leaf selected among the first `m` nodes: the
/// one with the greatest bind power, the leftmost among equals. The scan
/// only replaces its candidate on a strictly greater bind power, which gives
/// left-associative behavior among operators of the same tier.
pub open spec fn best_in_prefix(s: Seq<SyntaxNodeV>, m: int) -> Option<int>
    decreases m,
{
    if m <= 0 {
        None
    } else {
        let prev = best_in_prefix(s, m - 1);
        if !is_op_leaf(s[m - 1]) {
            prev
        } else {
            match prev {
                None => Some(m - 1),
                Some(b) => if op_of(s[m - 1]).spec_bind_power() > op_of(
                    s[b],
                ).spec_bind_power() {
                    Some(m - 1)
                } else {
                    Some(b)
                },
            }
        }
    }
}

/// Whether an arity variant is satisfiable given which neighbors exist.
pub open spec fn variant_ok(v: NAry, has_l: bool, has_r: bool) -> bool {
    match v {
        NAry::Binary => has_l && has_r,
        NAry::Prefix => has_r,
        NAry::Suffix => has_l,
    }
}

/// The first satisfiable arity variant, tried in declaration order.
pub open spec fn first_variant(vs: Seq<NAry>, has_l: bool, has_r: bool) -> Option<NAry>
    decreases vs.len(),
{
    if vs.len() == 0 {
        None
    } else if variant_ok(vs[0], has_l, has_r) {
        Some(vs[0])
    } else {
        first_variant(vs.drop_first(), has_l, has_r)
    }
}

/// How many neighbors an arity variant consumes on the left and right.
pub open spec fn arity_sides(v: NAry) -> (int, int) {
    match v {
        NAry::Binary => (1, 1),
        NAry::Prefix => (0, 1),
        NAry::Suffix => (1, 0),
    }
}

/// The sibling list after folding the operator leaf at `k` with the given
/// arity variant: the operator and its consumed neighbors are spliced out
/// and replaced by a single operator node.
pub open spec fn fold_at(s: Seq<SyntaxNodeV>, k: int, v: NAry) -> Seq<SyntaxNodeV> {
    let nl = arity_sides(v).0;
    let nr = arity_sides(v).1;
    s.subrange(0, k - nl) + seq![
        SyntaxNodeV::Operator {
            lhs: s.subrange(k - nl, k),
            op: op_of(s[k]),
            rhs: s.subrange(k + 1, k + 1 + nr),
        },
    ] + s.subrange(k + 1 + nr, s.len() as int)
}

/// Resolve the operators of one sibling list: repeatedly select the
/// operator leaf with the greatest bind power (leftmost among equals) and
/// fold it with its first satisfiable arity variant, until none remain. An
/// operator with no satisfiable variant is an error reporting which sides
/// had any neighbor at all.
pub open spec fn resolve_level(s: Seq<SyntaxNodeV>) -> Result<Seq<SyntaxNodeV>, ParseError>
    decreases s.len(),
{
    match best_in_prefix(s, s.len() as int) {
        None => Ok(s),
        Some(k) => {
            let op = op_of(s[k]);
            match first_variant(op.spec_nary(), k > 0, k + 1 < s.len()) {
                None => Err(
                    ParseError::OperatorMissingArguments {
                        is_lhs_nonnull: k > 0,
                        op_token: op,
                        is_rhs_nonnull: k + 1 < s.len(),
                    },
                ),
                Some(v) => {
                    let s2 = fold_at(s, k, v);
                    // every satisfiable variant consumes at least one
                    // neighbor, so the fold always shrinks the list; the
                    // degenerate branch below is never taken
                    if s2.len() < s.len() {
                        resolve_level(s2)
                    } else {
                        Ok(s)
                    }
                },
            }
        },
    }
}

/// Resolve the operators of one node: only a group has anything to resolve,
/// namely its inner list.
pub open spec fn resolve_node(n: SyntaxNodeV) -> Result<SyntaxNodeV, ParseError>
    decreases n, 1int,
{
    match n {
        SyntaxNodeV::Group { open, inner, close } => match resolve_nodes(inner) {
            Ok(inner2) => Ok(SyntaxNodeV::Group { open, inner: inner2, close }),
            Err(e) => Err(e),
        },
        _ => Ok(n),
    }
}

/// Resolve the operators inside every node of a sibling list, left to
/// right, without touching the list itself.
pub open spec fn resolve_children(s: Seq<SyntaxNodeV>) -> Result<Seq<SyntaxNodeV>, ParseError>
    decreases s, 2int,
{
    if s.len() == 0 {
        Ok(Seq::empty())
    } else {
        match resolve_node(s[0]) {
            Ok(n2) => match resolve_children(s.drop_first()) {
                Ok(rest) => Ok(seq![n2] + rest),
                Err(e) => Err(e),
            },
            Err(e) => Err(e),
        }
    }
}

/// Resolve a sibling list completely: depth first into every group, then
/// the list's own operators, so operators never reach across a bracket
/// boundary.
pub open spec fn resolve_nodes(s: Seq<SyntaxNodeV>) -> Result<Seq<SyntaxNodeV>, ParseError>
    decreases s, 3int,
{
    match resolve_children(s) {
        Ok(c) => resolve_level(c),
        Err(e) => Err(e),
    }
}

/// Splice the operator leaf at `k` and its consumed neighbors out of the
/// list, replacing them with a single operator node.
#[verifier::rlimit(100)]
fn fold_step(out: &mut Vec<SyntaxNode>, k: usize, vnt: NAry, op: OperatorToken)
    requires
        old(out)@.len() <= usize::MAX,
        (k as int) < old(out)@.len(),
        is_op_leaf(nodes_view(old(out)@)[k as int]),
        op_of(nodes_view(old(out)@)[k as int]) == op,
        variant_ok(vnt, k > 0, k + 1 < old(out)@.len()),
    ensures
        nodes_view(final(out)@) == fold_at(nodes_view(old(out)@), k as int, vnt),
        final(out)@.len() < old(out)@.len(),
{
    let ghost cur = nodes_view(old(out)@);
    match vnt {
        NAry::Binary => {
            let right = out.remove(k + 1);
            let _op_leaf = out.remove(k);
            let left = out.remove(k - 1);
            let mut lhs_vec: Vec<SyntaxNode> = Vec::new();
            lhs_vec.push(left);
            let mut rhs_vec: Vec<SyntaxNode> = Vec::new();
            rhs_vec.push(right);
            proof {
                assert(nodes_view(lhs_vec@) =~= cur.subrange(k - 1, k as int));
                assert(nodes_view(rhs_vec@) =~= cur.subrange(k + 1, k + 2));
            }
            out.insert(k - 1, SyntaxNode::Operator { lhs: lhs_vec, op, rhs: rhs_vec });
            proof {
                assert(nodes_view(out@) =~= fold_at(cur, k as int, vnt));
            }
        },
        NAry::Prefix => {
            let right = out.remove(k + 1);
            let _op_leaf = out.remove(k);
            let lhs_vec: Vec<SyntaxNode> = Vec::new();
            let mut rhs_vec: Vec<SyntaxNode> = Vec::new();
            rhs_vec.push(right);
            proof {
                assert(nodes_view(lhs_vec@) =~= cur.subrange(k as int, k as int));
                assert(nodes_view(rhs_vec@) =~= cur.subrange(k + 1, k + 2));
            }
            out.insert(k, SyntaxNode::Operator { lhs: lhs_vec, op, rhs: rhs_vec });
            proof {
                assert(nodes_view(out@) =~= fold_at(cur, k as int, vnt));
            }
        },
        NAry::Suffix => {
            let _op_leaf = out.remove(k);
            let left = out.remove(k - 1);
            let mut lhs_vec: Vec<SyntaxNode> = Vec::new();
            lhs_vec.push(left);
            let rhs_vec: Vec<SyntaxNode> = Vec::new();
            proof {
                assert(nodes_view(lhs_vec@) =~= cur.subrange(k - 1, k as int));
                assert(nodes_view(rhs_vec@) =~= cur.subrange(k + 1, k + 1));
            }
            out.insert(k - 1, SyntaxNode::Operator { lhs: lhs_vec, op, rhs: rhs_vec });
            proof {
                assert(nodes_view(out@) =~= fold_at(cur, k as int, vnt));
            }
        },
    }
}

fn resolve_node_exec(n: SyntaxNode) -> (r: Result<SyntaxNode, ParseError>)
    ensures
        match r {
            Ok(n2) => resolve_node(node_view(n)) == Ok::<SyntaxNodeV, ParseError>(node_view(n2)),
            Err(e) => resolve_node(node_view(n)) == Err::<SyntaxNodeV, ParseError>(e),
        },
    decreases n, 1int,
{
    let ghost n0 = n;
    match n {
        SyntaxNode::Group { open, inner, close } => {
            let ghost inner0 = inner;
            proof {
                assert(decreases_to!(n0 => inner0));
            }
            match group_operators(inner) {
                Ok(t2) => Ok(SyntaxNode::Group { open, inner: t2, close }),
                Err(e) => Err(e),
            }
        },
        other => Ok(other),
    }
}

/// Groups operators with their arguments, depth first.
///
/// The result is exactly [`resolve_nodes`] of the tree's model.
pub fn group_operators(tree: SyntaxTree) -> (r: Result<SyntaxTree, ParseError>)
    ensures
        match r {
            Ok(t2) => resolve_nodes(tree@) == Ok::<Seq<SyntaxNodeV>, ParseError>(t2@),
            Err(e) => resolve_nodes(tree@) == Err::<Seq<SyntaxNodeV>, ParseError>(e),
        },
    decreases tree, 3int,
{
    let ghost tree0 = tree;
    let SyntaxTree(mut v) = tree;
    let ghost v0 = v;
    proof {
        assert(decreases_to!(tree0 => tree0.0));
    }
    // resolve the children of every node first
    let mut out: Vec<SyntaxNode> = Vec::new();
    proof {
        assert(v@ =~= v0@.subrange(0, v0@.len() as int));
        assert(nodes_view(Seq::<SyntaxNode>::empty()) =~= Seq::<SyntaxNodeV>::empty());
    }
    #[verifier::loop_isolation(false)]
    while v.len() > 0
        invariant
            exists|k: int| 0 <= k <= v0@.len() && v@ =~= v0@.subrange(k, v0@.len() as int),
            resolve_children(nodes_view(v0@)) == (match resolve_children(nodes_view(v@)) {
                Ok(rest) => Ok::<Seq<SyntaxNodeV>, ParseError>(nodes_view(out@) + rest),
                Err(e) => Err::<Seq<SyntaxNodeV>, ParseError>(e),
            }),
        decreases v.len(),
    {
        let ghost v_before = v@;
        let ghost out_before = nodes_view(out@);
        let x = v.remove(0);
        proof {
            let k = choose|k: int|
                0 <= k <= v0@.len() && v_before =~= v0@.subrange(k, v0@.len() as int);
            assert(x == v0@[k]);
            assert(decreases_to!(v0 => v0[k]));
            assert(v@ =~= v0@.subrange(k + 1, v0@.len() as int));
            assert(nodes_view(v_before)[0] == node_view(x));
            assert(nodes_view(v_before).drop_first() =~= nodes_view(v@));
        }
        match resolve_node_exec(x) {
            Ok(n2) => {
                out.push(n2);
                proof {
                    assert(nodes_view(out@) =~= out_before.push(node_view(n2)));
                    match resolve_children(nodes_view(v@)) {
                        Ok(rest) => {
                            assert(out_before + (seq![node_view(n2)] + rest) =~= nodes_view(out@)
                                + rest);
                        },
                        Err(_) => {},
                    }
                }
            },
            Err(e) => {
                return Err(e);
            },
        }
    }
    proof {
        assert(nodes_view(v@) =~= Seq::<SyntaxNodeV>::empty());
        assert(resolve_children(nodes_view(v@)) == Ok::<Seq<SyntaxNodeV>, ParseError>(
            Seq::empty(),
        ));
        assert(nodes_view(out@) + Seq::<SyntaxNodeV>::empty() =~= nodes_view(out@));
        assert(resolve_children(nodes_view(v0@)) == Ok::<Seq<SyntaxNodeV>, ParseError>(
            nodes_view(out@),
        ));
    }
    // fold the operators of this level, highest bind power first
    proof {
        assert(tree0@ == nodes_view(v0@));
    }
    loop
        invariant_except_break
            tree0 == tree,
            resolve_nodes(tree0@) == resolve_level(nodes_view(out@)),
        ensures
            resolve_nodes(tree@) == Ok::<Seq<SyntaxNodeV>, ParseError>(nodes_view(out@)),
        decreases out.len(),
    {
        let ghost cur = nodes_view(out@);
        // scan for the operator leaf with the greatest bind power
        let mut have = false;
        let mut best: usize = 0;
        let mut best_bp: usize = 0;
        let mut best_op = OperatorToken::Plus;
        let mut j: usize = 0;
        while j < out.len()
            invariant
                cur == nodes_view(out@),
                0 <= j <= out.len(),
                best_in_prefix(cur, j as int) == (if have {
                    Some(best as int)
                } else {
                    None::<int>
                }),
                have ==> best < j && is_op_leaf(cur[best as int]) && op_of(cur[best as int])
                    == best_op && best_bp == best_op.spec_bind_power(),
            decreases out.len() - j,
        {
            let is_op: bool;
            let mut bp: usize = 0;
            let mut this_op = OperatorToken::Plus;
            match &out[j] {
                SyntaxNode::Token(Token::Operator(op)) => {
                    is_op = true;
                    this_op = *op;
                    bp = op.bind_power();
                },
                _ => {
                    is_op = false;
                },
            }
            proof {
                assert(cur[j as int] == node_view(out@[j as int]));
                assert(is_op == is_op_leaf(cur[j as int]));
                if is_op {
                    assert(op_of(cur[j as int]) == this_op);
                }
            }
            if is_op && (!have || bp > best_bp) {
                have = true;
                best = j;
                best_bp = bp;
                best_op = this_op;
            }
            j += 1;
        }
        if !have {
            proof {
                assert(resolve_level(cur) == Ok::<Seq<SyntaxNodeV>, ParseError>(cur));
            }
            break;
        }
        let k = best;
        let has_l = k > 0;
        let has_r = k + 1 < out.len();
        // try the operator's arity variants in declaration order
        let nary = best_op.nary();
        let mut chosen: Option<NAry> = None;
        let mut idx: usize = 0;
        proof {
            assert(nary@.subrange(0, nary@.len() as int) =~= nary@);
        }
        loop
            invariant_except_break
                0 <= idx <= nary@.len(),
                nary@ == best_op.spec_nary(),
                chosen is None,
                first_variant(best_op.spec_nary(), has_l, has_r) == first_variant(
                    nary@.subrange(idx as int, nary@.len() as int),
                    has_l,
                    has_r,
                ),
            ensures
                first_variant(best_op.spec_nary(), has_l, has_r) == chosen,
                match chosen {
                    Some(v) => variant_ok(v, has_l, has_r),
                    None => true,
                },
            decreases nary@.len() - idx,
        {
            if idx == nary.len() {
                proof {
                    assert(nary@.subrange(idx as int, nary@.len() as int) =~= Seq::<
                        NAry,
                    >::empty());
                }
                break;
            }
            let vnt = nary[idx];
            let ok = match vnt {
                NAry::Binary => has_l && has_r,
                NAry::Prefix => has_r,
                NAry::Suffix => has_l,
            };
            proof {
                let ghost sub = nary@.subrange(idx as int, nary@.len() as int);
                assert(sub[0] == vnt);
                assert(sub.drop_first() =~= nary@.subrange(idx + 1, nary@.len() as int));
            }
            if ok {
                chosen = Some(vnt);
                break;
            }
            idx += 1;
        }
        match chosen {
            None => {
                proof {
                    assert(resolve_level(cur) == Err::<Seq<SyntaxNodeV>, ParseError>(
                        ParseError::OperatorMissingArguments {
                            is_lhs_nonnull: has_l,
                            op_token: best_op,
                            is_rhs_nonnull: has_r,
                        },
                    ));
                }
                return Err(
                    ParseError::OperatorMissingArguments {
                        is_lhs_nonnull: has_l,
                        op_token: best_op,
                        is_rhs_nonnull: has_r,
                    },
                );
            },
            Some(vnt) => {
                fold_step(&mut out, k, vnt, best_op);
                proof {
                    assert(resolve_level(cur) == resolve_level(nodes_view(out@)));
                }
            },
        }
    }
    Ok(SyntaxTree(out))
}

/// Resolve a tree's operators in place.
///
/// On success the tree holds exactly the resolution that [`resolve_nodes`]
/// describes; on an error the tree is left empty.
pub fn resolve(tree: &mut SyntaxTree) -> (r: Result<(), ParseError>)
    ensures
        match r {
            Ok(()) => resolve_nodes(old(tree)@) == Ok::<Seq<SyntaxNodeV>, ParseError>(
                final(tree)@,
            ),
            Err(e) => resolve_nodes(old(tree)@) == Err::<Seq<SyntaxNodeV>, ParseError>(e),
        },
{
    let mut taken = SyntaxTree::new();
    core::mem::swap(tree, &mut taken);
    match group_operators(taken) {
        Ok(t2) => {
            *tree = t2;
            Ok(())
        },
        Err(e) => {
            *tree = SyntaxTree::new();
            Err(e)
        },
    }
}

/// The result of parsing a whole token sequence: grouping, then operator
/// resolution.
pub open spec fn spec_parse(toks: Seq<TokenV>) -> Result<Seq<SyntaxNodeV>, ParseError> {
    match spec_group(toks) {
        Ok(tree) => resolve_nodes(tree),
        Err(e) => Err(e),
    }
}

/// Apply grouping and operator resolution to a tokenized line.
pub fn parse(tokens: Vec<Token>) -> (r: Result<SyntaxTree, ParseError>)
    ensures
        match r {
            Ok(tree) => spec_parse(tokens.deep_view()) == Ok::<Seq<SyntaxNodeV>, ParseError>(
                tree@,
            ),
            Err(e) => spec_parse(tokens.deep_view()) == Err::<Seq<SyntaxNodeV>, ParseError>(e),
        },
{
    match group_subexpressions(tokens) {
        Ok(tree) => group_operators(tree),
        Err(e) => Err(e),
    }
}

} // verus!
