//! Laws of the grouping, resolution and rendering stages, stated and proved
//! over the same specification functions that the executable functions are
//! verified against.

use vstd::prelude::*;
use vstd::pervasive::arbitrary;
use crate::lexer::TokenV;
use crate::lexer::BracketKind;
use crate::lexer::GroupControl;
use crate::lexer::GroupCtrlToken;
use crate::parser::SyntaxNodeV;
use crate::parser::SyntaxTree;
use crate::parser::ParseError;
use crate::parser::GroupFrame;
use crate::parser::run_group;
use crate::parser::spec_group;
use crate::parser::is_op_leaf;
use crate::parser::op_of;
use crate::parser::best_in_prefix;
use crate::parser::first_variant;
use crate::parser::resolve_level;
use crate::parser::resolve_node;
use crate::parser::resolve_children;
use crate::parser::resolve_nodes;
use crate::parser::spec_parse;
use crate::parser::variant_ok;
use crate::parser::arity_sides;
use crate::parser::fold_at;
use crate::parser::syntax_tree::tex_of_nodes;
use crate::lexer::NAry;

verus! {

/// Whether the token is an opening delimiter.
pub open spec fn is_open_delim(t: TokenV) -> bool {
    match t {
        TokenV::GroupCtrl(g) => g.ctrl == GroupControl::Open,
        _ => false,
    }
}

/// Whether the token is a closing delimiter.
pub open spec fn is_close_delim(t: TokenV) -> bool {
    match t {
        TokenV::GroupCtrl(g) => g.ctrl == GroupControl::Close,
        _ => false,
    }
}

/// The bracket kind of a delimiter token.
pub open spec fn delim_kind(t: TokenV) -> BracketKind
    recommends
        is_open_delim(t) || is_close_delim(t),
{
    match t {
        TokenV::GroupCtrl(g) => g.kind,
        _ => arbitrary(),
    }
}

/// Whether the delimiters of the token sequence are correctly nested, with
/// every group closed by a kind compatible with the kind that opened it.
pub open spec fn well_nested(toks: Seq<TokenV>) -> bool
    decreases toks.len(),
{
    if toks.len() == 0 {
        true
    } else if is_close_delim(toks[0]) {
        false
    } else if is_open_delim(toks[0]) {
        exists|j: int|
            1 <= j < toks.len() && is_close_delim(#[trigger] toks[j]) && delim_kind(
                toks[0],
            ).spec_compatible(delim_kind(toks[j])) && well_nested(toks.subrange(1, j))
                && well_nested(toks.subrange(j + 1, toks.len() as int))
    } else {
        well_nested(toks.drop_first())
    }
}

/// The number of opening delimiters in the token sequence.
pub open spec fn open_count(toks: Seq<TokenV>) -> int
    decreases toks.len(),
{
    if toks.len() == 0 {
        0
    } else {
        (if is_open_delim(toks[0]) {
            1int
        } else {
            0int
        }) + open_count(toks.drop_first())
    }
}

/// The number of group nodes in one node, nested groups included.
pub open spec fn group_count_node(n: SyntaxNodeV) -> int
    decreases n, 0int,
{
    match n {
        SyntaxNodeV::Group { open: _, inner, close: _ } => 1 + group_count_nodes(inner),
        SyntaxNodeV::Operator { lhs, op: _, rhs } => group_count_nodes(lhs) + group_count_nodes(
            rhs,
        ),
        _ => 0,
    }
}

/// The number of group nodes in a sibling list, nested groups included.
pub open spec fn group_count_nodes(s: Seq<SyntaxNodeV>) -> int
    decreases s, 1int,
{
    if s.len() == 0 {
        0
    } else {
        group_count_node(s[0]) + group_count_nodes(s.drop_first())
    }
}

proof fn lemma_open_count_append(a: Seq<TokenV>, b: Seq<TokenV>)
    ensures
        open_count(a + b) == open_count(a) + open_count(b),
    decreases a.len(),
{
    if a.len() == 0 {
        assert(a + b =~= b);
    } else {
        assert((a + b).drop_first() =~= a.drop_first() + b);
        assert((a + b)[0] == a[0]);
        lemma_open_count_append(a.drop_first(), b);
    }
}

/// Running the grouping machine over a concatenation runs it over the first
/// part, then over the second from the state the first part reached.
pub proof fn lemma_run_group_append(
    t1: Seq<TokenV>,
    t2: Seq<TokenV>,
    stack: Seq<GroupFrame>,
    cur: Seq<SyntaxNodeV>,
)
    ensures
        run_group(t1 + t2, stack, cur) == (match run_group(t1, stack, cur) {
            Ok((s2, c2)) => run_group(t2, s2, c2),
            Err(e) => Err(e),
        }),
    decreases t1.len(),
{
    if t1.len() == 0 {
        assert(t1 + t2 =~= t2);
    } else {
        assert((t1 + t2)[0] == t1[0]);
        assert((t1 + t2).drop_first() =~= t1.drop_first() + t2);
        match t1[0] {
            TokenV::GroupCtrl(gc) => match gc.ctrl {
                GroupControl::Open => {
                    lemma_run_group_append(
                        t1.drop_first(),
                        t2,
                        stack.push((gc.kind, cur)),
                        Seq::empty(),
                    );
                },
                GroupControl::Close => {
                    if stack.len() > 0 {
                        let (okind, outer) = stack.last();
                        if okind.spec_compatible(gc.kind) {
                            lemma_run_group_append(
                                t1.drop_first(),
                                t2,
                                stack.drop_last(),
                                outer.push(
                                    SyntaxNodeV::Group { open: okind, inner: cur, close: gc.kind },
                                ),
                            );
                        }
                    }
                },
            },
            t => {
                lemma_run_group_append(
                    t1.drop_first(),
                    t2,
                    stack,
                    cur.push(SyntaxNodeV::Token(t)),
                );
            },
        }
    }
}

/// Running the grouping machine over a well-nested token sequence succeeds,
/// returns to the stack it started from, only appends to the current
/// sibling list, and produces exactly one group node per opening delimiter.
pub proof fn lemma_wn_run(toks: Seq<TokenV>, stack: Seq<GroupFrame>, cur: Seq<SyntaxNodeV>)
    requires
        well_nested(toks),
    ensures
        exists|nodes: Seq<SyntaxNodeV>|
            run_group(toks, stack, cur) == Ok::<(Seq<GroupFrame>, Seq<SyntaxNodeV>), ParseError>(
                (stack, cur + nodes),
            ) && #[trigger] group_count_nodes(nodes) == open_count(toks),
    decreases toks.len(),
{
    if toks.len() == 0 {
        let nodes = Seq::<SyntaxNodeV>::empty();
        assert(cur + nodes =~= cur);
        assert(group_count_nodes(nodes) == open_count(toks));
        assert(run_group(toks, stack, cur) == Ok::<
            (Seq<GroupFrame>, Seq<SyntaxNodeV>),
            ParseError,
        >((stack, cur + nodes)));
    } else if is_open_delim(toks[0]) {
        let ko = delim_kind(toks[0]);
        let j = choose|j: int|
            1 <= j < toks.len() && is_close_delim(#[trigger] toks[j]) && delim_kind(
                toks[0],
            ).spec_compatible(delim_kind(toks[j])) && well_nested(toks.subrange(1, j))
                && well_nested(toks.subrange(j + 1, toks.len() as int));
        let kc = delim_kind(toks[j]);
        let inner = toks.subrange(1, j);
        let tail = toks.subrange(j + 1, toks.len() as int);
        let closing = seq![toks[j]];
        let st2 = stack.push((ko, cur));
        assert(toks.drop_first() =~= inner + (closing + tail));
        lemma_run_group_append(inner, closing + tail, st2, Seq::empty());
        lemma_wn_run(inner, st2, Seq::empty());
        let nodes_in = choose|nodes: Seq<SyntaxNodeV>|
            run_group(inner, st2, Seq::empty()) == Ok::<
                (Seq<GroupFrame>, Seq<SyntaxNodeV>),
                ParseError,
            >((st2, Seq::empty() + nodes)) && #[trigger] group_count_nodes(nodes) == open_count(
                inner,
            );
        assert(Seq::empty() + nodes_in =~= nodes_in);
        // one step over the closing delimiter
        assert((closing + tail)[0] == toks[j]);
        assert((closing + tail).drop_first() =~= tail);
        assert(st2.last() == (ko, cur));
        assert(st2.drop_last() =~= stack);
        let g = SyntaxNodeV::Group { open: ko, inner: nodes_in, close: kc };
        lemma_wn_run(tail, stack, cur.push(g));
        let nodes_t = choose|nodes: Seq<SyntaxNodeV>|
            run_group(tail, stack, cur.push(g)) == Ok::<
                (Seq<GroupFrame>, Seq<SyntaxNodeV>),
                ParseError,
            >((stack, cur.push(g) + nodes)) && #[trigger] group_count_nodes(nodes) == open_count(
                tail,
            );
        let nodes = seq![g] + nodes_t;
        assert(cur.push(g) + nodes_t =~= cur + nodes);
        assert(nodes[0] == g);
        assert(nodes.drop_first() =~= nodes_t);
        assert(group_count_nodes(nodes) == group_count_node(nodes[0]) + group_count_nodes(
            nodes.drop_first(),
        ));
        assert(group_count_nodes(nodes.drop_first()) == group_count_nodes(nodes_t));
        assert(group_count_node(g) == 1 + group_count_nodes(nodes_in));
        assert(group_count_nodes(nodes) == 1 + group_count_nodes(nodes_in) + group_count_nodes(
            nodes_t,
        ));
        assert(toks =~= seq![toks[0]] + (inner + (closing + tail)));
        lemma_open_count_append(inner, closing + tail);
        lemma_open_count_append(closing, tail);
        assert(closing.drop_first() =~= Seq::<TokenV>::empty());
        assert(open_count(closing) == 0);
        assert(open_count(toks) == 1 + open_count(inner) + open_count(tail));
        assert(run_group(toks, stack, cur) == Ok::<
            (Seq<GroupFrame>, Seq<SyntaxNodeV>),
            ParseError,
        >((stack, cur + nodes)) && group_count_nodes(nodes) == open_count(toks));
    } else {
        // an ordinary token is appended as a leaf
        let t = toks[0];
        lemma_wn_run(toks.drop_first(), stack, cur.push(SyntaxNodeV::Token(t)));
        let nodes_r = choose|nodes: Seq<SyntaxNodeV>|
            run_group(toks.drop_first(), stack, cur.push(SyntaxNodeV::Token(t))) == Ok::<
                (Seq<GroupFrame>, Seq<SyntaxNodeV>),
                ParseError,
            >((stack, cur.push(SyntaxNodeV::Token(t)) + nodes)) && #[trigger] group_count_nodes(
                nodes,
            ) == open_count(toks.drop_first());
        let nodes = seq![SyntaxNodeV::Token(t)] + nodes_r;
        assert(cur.push(SyntaxNodeV::Token(t)) + nodes_r =~= cur + nodes);
        assert(nodes[0] == SyntaxNodeV::Token(t));
        assert(nodes.drop_first() =~= nodes_r);
        assert(group_count_nodes(nodes) == group_count_node(nodes[0]) + group_count_nodes(
            nodes.drop_first(),
        ));
        assert(group_count_nodes(nodes.drop_first()) == group_count_nodes(nodes_r));
        assert(group_count_node(SyntaxNodeV::Token(t)) == 0);
        assert(group_count_nodes(nodes) == group_count_nodes(nodes_r));
        assert(run_group(toks, stack, cur) == Ok::<
            (Seq<GroupFrame>, Seq<SyntaxNodeV>),
            ParseError,
        >((stack, cur + nodes)) && group_count_nodes(nodes) == open_count(toks));
    }
}

/// For any input with correctly nested, mutually compatible delimiters,
/// grouping never errors, and the resulting tree holds exactly one group
/// node — one emitted pair of fence markup — per source delimiter pair.
pub proof fn lemma_group_balanced(toks: Seq<TokenV>)
    requires
        well_nested(toks),
    ensures
        spec_group(toks) is Ok,
        exists|nodes: Seq<SyntaxNodeV>|
            spec_group(toks) == Ok::<Seq<SyntaxNodeV>, ParseError>(nodes)
                && #[trigger] group_count_nodes(nodes) == open_count(toks),
{
    lemma_wn_run(toks, Seq::empty(), Seq::empty());
    let nodes = choose|nodes: Seq<SyntaxNodeV>|
        run_group(toks, Seq::empty(), Seq::empty()) == Ok::<
            (Seq<GroupFrame>, Seq<SyntaxNodeV>),
            ParseError,
        >((Seq::empty(), Seq::empty() + nodes)) && #[trigger] group_count_nodes(nodes)
            == open_count(toks);
    assert(Seq::empty() + nodes =~= nodes);
    assert(spec_group(toks) == Ok::<Seq<SyntaxNodeV>, ParseError>(nodes) && group_count_nodes(
        nodes,
    ) == open_count(toks));
}

/// A closing delimiter reached while no group is open — however the line
/// continues afterwards — always yields `TooManyCloseBrackets`.
pub proof fn lemma_unmatched_close(pre: Seq<TokenV>, k: BracketKind, post: Seq<TokenV>)
    requires
        well_nested(pre),
    ensures
        spec_group(
            pre + seq![
                TokenV::GroupCtrl(GroupCtrlToken { kind: k, ctrl: GroupControl::Close }),
            ] + post,
        ) == Err::<Seq<SyntaxNodeV>, ParseError>(ParseError::TooManyCloseBrackets),
{
    let closing = seq![TokenV::GroupCtrl(GroupCtrlToken { kind: k, ctrl: GroupControl::Close })];
    let toks = pre + closing + post;
    assert(toks =~= pre + (closing + post));
    lemma_run_group_append(pre, closing + post, Seq::empty(), Seq::empty());
    lemma_wn_run(pre, Seq::empty(), Seq::empty());
    let nodes = choose|nodes: Seq<SyntaxNodeV>|
        run_group(pre, Seq::empty(), Seq::empty()) == Ok::<
            (Seq<GroupFrame>, Seq<SyntaxNodeV>),
            ParseError,
        >((Seq::empty(), Seq::empty() + nodes)) && #[trigger] group_count_nodes(nodes)
            == open_count(pre);
    assert((closing + post)[0] == closing[0]);
    assert(run_group(closing + post, Seq::empty(), Seq::empty() + nodes) == Err::<
        (Seq<GroupFrame>, Seq<SyntaxNodeV>),
        ParseError,
    >(ParseError::TooManyCloseBrackets));
}

/// An opening delimiter whose group is never closed — whatever well-nested
/// text stands before it and inside it — always yields
/// `NotEnoughCloseBrackets`.
pub proof fn lemma_unmatched_open(pre: Seq<TokenV>, k: BracketKind, post: Seq<TokenV>)
    requires
        well_nested(pre),
        well_nested(post),
    ensures
        spec_group(
            pre + seq![
                TokenV::GroupCtrl(GroupCtrlToken { kind: k, ctrl: GroupControl::Open }),
            ] + post,
        ) == Err::<Seq<SyntaxNodeV>, ParseError>(ParseError::NotEnoughCloseBrackets),
{
    let opening = seq![TokenV::GroupCtrl(GroupCtrlToken { kind: k, ctrl: GroupControl::Open })];
    let toks = pre + opening + post;
    assert(toks =~= pre + (opening + post));
    lemma_run_group_append(pre, opening + post, Seq::empty(), Seq::empty());
    lemma_wn_run(pre, Seq::empty(), Seq::empty());
    let nodes = choose|nodes: Seq<SyntaxNodeV>|
        run_group(pre, Seq::empty(), Seq::empty()) == Ok::<
            (Seq<GroupFrame>, Seq<SyntaxNodeV>),
            ParseError,
        >((Seq::empty(), Seq::empty() + nodes)) && #[trigger] group_count_nodes(nodes)
            == open_count(pre);
    assert((opening + post)[0] == opening[0]);
    assert((opening + post).drop_first() =~= post);
    let st2 = Seq::<GroupFrame>::empty().push((k, Seq::empty() + nodes));
    lemma_wn_run(post, st2, Seq::empty());
    let nodes_p = choose|np: Seq<SyntaxNodeV>|
        run_group(post, st2, Seq::empty()) == Ok::<
            (Seq<GroupFrame>, Seq<SyntaxNodeV>),
            ParseError,
        >((st2, Seq::empty() + np)) && #[trigger] group_count_nodes(np) == open_count(post);
    assert(st2.len() == 1);
}

/// Closing a group with a kind incompatible with how it was opened —
/// whatever well-nested text stands before the group and inside it, and
/// whatever follows — always yields `BracketMismatch` naming the opening
/// and closing kinds exactly.
pub proof fn lemma_bracket_mismatch(
    pre: Seq<TokenV>,
    ko: BracketKind,
    mid: Seq<TokenV>,
    kc: BracketKind,
    post: Seq<TokenV>,
)
    requires
        well_nested(pre),
        well_nested(mid),
        !ko.spec_compatible(kc),
    ensures
        spec_group(
            pre + seq![
                TokenV::GroupCtrl(GroupCtrlToken { kind: ko, ctrl: GroupControl::Open }),
            ] + mid + seq![
                TokenV::GroupCtrl(GroupCtrlToken { kind: kc, ctrl: GroupControl::Close }),
            ] + post,
        ) == Err::<Seq<SyntaxNodeV>, ParseError>(
            ParseError::BracketMismatch { opened_with: ko, closed_with: kc },
        ),
{
    let opening = seq![TokenV::GroupCtrl(GroupCtrlToken { kind: ko, ctrl: GroupControl::Open })];
    let closing = seq![TokenV::GroupCtrl(GroupCtrlToken { kind: kc, ctrl: GroupControl::Close })];
    let toks = pre + opening + mid + closing + post;
    assert(toks =~= pre + (opening + (mid + (closing + post))));
    lemma_run_group_append(pre, opening + (mid + (closing + post)), Seq::empty(), Seq::empty());
    lemma_wn_run(pre, Seq::empty(), Seq::empty());
    let nodes = choose|nodes: Seq<SyntaxNodeV>|
        run_group(pre, Seq::empty(), Seq::empty()) == Ok::<
            (Seq<GroupFrame>, Seq<SyntaxNodeV>),
            ParseError,
        >((Seq::empty(), Seq::empty() + nodes)) && #[trigger] group_count_nodes(nodes)
            == open_count(pre);
    let rest1 = opening + (mid + (closing + post));
    assert(rest1[0] == opening[0]);
    assert(rest1.drop_first() =~= mid + (closing + post));
    let st2 = Seq::<GroupFrame>::empty().push((ko, Seq::empty() + nodes));
    lemma_run_group_append(mid, closing + post, st2, Seq::empty());
    lemma_wn_run(mid, st2, Seq::empty());
    let nodes_m = choose|nm: Seq<SyntaxNodeV>|
        run_group(mid, st2, Seq::empty()) == Ok::<
            (Seq<GroupFrame>, Seq<SyntaxNodeV>),
            ParseError,
        >((st2, Seq::empty() + nm)) && #[trigger] group_count_nodes(nm) == open_count(mid);
    assert((closing + post)[0] == closing[0]);
    assert(st2.last() == (ko, Seq::empty() + nodes));
    assert(run_group(closing + post, st2, Seq::empty() + nodes_m) == Err::<
        (Seq<GroupFrame>, Seq<SyntaxNodeV>),
        ParseError,
    >(ParseError::BracketMismatch { opened_with: ko, closed_with: kc }));
}

proof fn lemma_best_in_prefix_props(s: Seq<SyntaxNodeV>, m: int)
    requires
        0 <= m <= s.len(),
    ensures
        match best_in_prefix(s, m) {
            None => forall|j: int| 0 <= j < m ==> !is_op_leaf(#[trigger] s[j]),
            Some(k) => 0 <= k < m && is_op_leaf(s[k]) && (forall|j: int|
                0 <= j < m && is_op_leaf(#[trigger] s[j]) ==> op_of(s[j]).spec_bind_power()
                    <= op_of(s[k]).spec_bind_power()) && (forall|j: int|
                0 <= j < k && is_op_leaf(#[trigger] s[j]) ==> op_of(s[j]).spec_bind_power() < op_of(
                    s[k],
                ).spec_bind_power()),
        },
    decreases m,
{
    if m > 0 {
        lemma_best_in_prefix_props(s, m - 1);
    }
}

/// Among the operators of one scope, the one selected for folding has the
/// greatest bind power of any operator present, and among operators of
/// equal bind power it is the leftmost: every operator strictly to its left
/// binds strictly weaker.
pub proof fn lemma_resolution_order(s: Seq<SyntaxNodeV>, k: int)
    requires
        best_in_prefix(s, s.len() as int) == Some(k),
    ensures
        0 <= k < s.len(),
        is_op_leaf(s[k]),
        forall|j: int|
            0 <= j < s.len() && is_op_leaf(#[trigger] s[j]) ==> op_of(s[j]).spec_bind_power()
                <= op_of(s[k]).spec_bind_power(),
        forall|j: int|
            0 <= j < k && is_op_leaf(#[trigger] s[j]) ==> op_of(s[j]).spec_bind_power() < op_of(
                s[k],
            ).spec_bind_power(),
{
    lemma_best_in_prefix_props(s, s.len() as int);
}

/// An operator lacking a neighbor that every one of its arity variants
/// requires fails the whole resolution with `OperatorMissingArguments`,
/// reporting precisely which of its sides held any neighbor at all.
pub proof fn lemma_missing_arguments(s: Seq<SyntaxNodeV>, k: int)
    requires
        best_in_prefix(s, s.len() as int) == Some(k),
        first_variant(op_of(s[k]).spec_nary(), k > 0, k + 1 < s.len()) is None,
    ensures
        resolve_level(s) == Err::<Seq<SyntaxNodeV>, ParseError>(
            ParseError::OperatorMissingArguments {
                is_lhs_nonnull: k > 0,
                op_token: op_of(s[k]),
                is_rhs_nonnull: k + 1 < s.len(),
            },
        ),
{
}

proof fn lemma_group_count_append(a: Seq<SyntaxNodeV>, b: Seq<SyntaxNodeV>)
    ensures
        group_count_nodes(a + b) == group_count_nodes(a) + group_count_nodes(b),
    decreases a.len(),
{
    if a.len() == 0 {
        assert(a + b =~= b);
    } else {
        assert((a + b)[0] == a[0]);
        assert((a + b).drop_first() =~= a.drop_first() + b);
        lemma_group_count_append(a.drop_first(), b);
    }
}

proof fn lemma_first_variant_ok(vs: Seq<NAry>, has_l: bool, has_r: bool)
    ensures
        match first_variant(vs, has_l, has_r) {
            Some(v) => variant_ok(v, has_l, has_r),
            None => true,
        },
    decreases vs.len(),
{
    if vs.len() > 0 && !variant_ok(vs[0], has_l, has_r) {
        lemma_first_variant_ok(vs.drop_first(), has_l, has_r);
    }
}

proof fn lemma_fold_at_preserves_groups(s: Seq<SyntaxNodeV>, k: int, v: NAry)
    requires
        0 <= k < s.len(),
        is_op_leaf(s[k]),
        variant_ok(v, k > 0, k + 1 < s.len()),
    ensures
        group_count_nodes(fold_at(s, k, v)) == group_count_nodes(s),
        fold_at(s, k, v).len() < s.len(),
{
    let nl = arity_sides(v).0;
    let nr = arity_sides(v).1;
    let before = s.subrange(0, k - nl);
    let left = s.subrange(k - nl, k);
    let middle = s.subrange(k, k + 1);
    let right = s.subrange(k + 1, k + 1 + nr);
    let after = s.subrange(k + 1 + nr, s.len() as int);
    assert(s =~= before + left + middle + right + after);
    lemma_group_count_append(before + left + middle + right, after);
    lemma_group_count_append(before + left + middle, right);
    lemma_group_count_append(before + left, middle);
    lemma_group_count_append(before, left);
    assert(middle[0] == s[k]);
    assert(middle.drop_first() =~= Seq::<SyntaxNodeV>::empty());
    assert(group_count_nodes(Seq::<SyntaxNodeV>::empty()) == 0);
    assert(group_count_nodes(middle.drop_first()) == 0);
    assert(group_count_node(s[k]) == 0);
    assert(group_count_nodes(middle) == group_count_node(middle[0]) + group_count_nodes(
        middle.drop_first(),
    ));
    assert(group_count_nodes(middle) == 0);
    let node = SyntaxNodeV::Operator { lhs: left, op: op_of(s[k]), rhs: right };
    assert(group_count_node(node) == group_count_nodes(left) + group_count_nodes(right));
    let folded = fold_at(s, k, v);
    assert(folded =~= before + seq![node] + after);
    lemma_group_count_append(before + seq![node], after);
    lemma_group_count_append(before, seq![node]);
    assert(seq![node][0] == node);
    assert(seq![node].drop_first() =~= Seq::<SyntaxNodeV>::empty());
    assert(group_count_nodes(seq![node].drop_first()) == 0);
    assert(group_count_nodes(seq![node]) == group_count_node(seq![node][0]) + group_count_nodes(
        seq![node].drop_first(),
    ));
    assert(group_count_nodes(seq![node]) == group_count_node(node));
}

proof fn lemma_resolve_level_preserves_groups(s: Seq<SyntaxNodeV>)
    ensures
        match resolve_level(s) {
            Ok(r) => group_count_nodes(r) == group_count_nodes(s),
            Err(_) => true,
        },
    decreases s.len(),
{
    match best_in_prefix(s, s.len() as int) {
        None => {},
        Some(k) => {
            lemma_best_in_prefix_props(s, s.len() as int);
            let op = op_of(s[k]);
            match first_variant(op.spec_nary(), k > 0, k + 1 < s.len()) {
                None => {},
                Some(v) => {
                    lemma_first_variant_ok(op.spec_nary(), k > 0, k + 1 < s.len());
                    lemma_fold_at_preserves_groups(s, k, v);
                    lemma_resolve_level_preserves_groups(fold_at(s, k, v));
                },
            }
        },
    }
}

proof fn lemma_resolve_node_preserves_groups(n: SyntaxNodeV)
    ensures
        match resolve_node(n) {
            Ok(n2) => group_count_node(n2) == group_count_node(n),
            Err(_) => true,
        },
    decreases n, 4int,
{
    match n {
        SyntaxNodeV::Group { open: _, inner, close: _ } => {
            lemma_resolve_nodes_preserves_groups(inner);
        },
        _ => {},
    }
}

proof fn lemma_resolve_children_preserves_groups(s: Seq<SyntaxNodeV>)
    ensures
        match resolve_children(s) {
            Ok(r) => group_count_nodes(r) == group_count_nodes(s),
            Err(_) => true,
        },
    decreases s, 5int,
{
    if s.len() > 0 {
        lemma_resolve_node_preserves_groups(s[0]);
        lemma_resolve_children_preserves_groups(s.drop_first());
        match resolve_node(s[0]) {
            Ok(n2) => match resolve_children(s.drop_first()) {
                Ok(rest) => {
                    let whole = seq![n2] + rest;
                    assert(whole[0] == n2);
                    assert(whole.drop_first() =~= rest);
                    assert(group_count_nodes(whole) == group_count_node(n2) + group_count_nodes(
                        rest,
                    ));
                },
                Err(_) => {},
            },
            Err(_) => {},
        }
    }
}

proof fn lemma_resolve_nodes_preserves_groups(s: Seq<SyntaxNodeV>)
    ensures
        match resolve_nodes(s) {
            Ok(r) => group_count_nodes(r) == group_count_nodes(s),
            Err(_) => true,
        },
    decreases s, 6int,
{
    lemma_resolve_children_preserves_groups(s);
    match resolve_children(s) {
        Ok(c) => {
            lemma_resolve_level_preserves_groups(c);
        },
        Err(_) => {},
    }
}

/// Operator resolution never creates or destroys groups, so whenever the
/// whole parse of a well-nested token sequence succeeds, the final tree —
/// from which the renderer emits exactly one pair of fence markup per group
/// node — holds exactly one group node per source delimiter pair.
pub proof fn lemma_parse_group_count(toks: Seq<TokenV>)
    requires
        well_nested(toks),
    ensures
        match spec_parse(toks) {
            Ok(nodes) => group_count_nodes(nodes) == open_count(toks),
            Err(_) => true,
        },
{
    lemma_group_balanced(toks);
    let grouped = choose|nodes: Seq<SyntaxNodeV>|
        spec_group(toks) == Ok::<Seq<SyntaxNodeV>, ParseError>(nodes)
            && #[trigger] group_count_nodes(nodes) == open_count(toks);
    lemma_resolve_nodes_preserves_groups(grouped);
}

/// Rendering is pure and deterministic: two trees with the same model
/// render to identical text, so rendering the same tree twice yields the
/// same result.
pub proof fn lemma_render_deterministic(a: SyntaxTree, b: SyntaxTree)
    requires
        a@ == b@,
    ensures
        tex_of_nodes(a@) == tex_of_nodes(b@),
{
}

} // verus!
