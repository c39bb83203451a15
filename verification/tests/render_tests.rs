use amymath_preprocessor::lexer::Lexer;
use amymath_preprocessor::lexer::OperatorToken;
use amymath_preprocessor::lexer::Token;
use amymath_preprocessor::parser::parse;
use amymath_preprocessor::parser::SyntaxTree;
use amymath_preprocessor::processor::DefKind;
use amymath_preprocessor::to_tex::ToTex;

fn rendered(line: &str) -> String {
    let tree = parse(Lexer::new().tokenize(line).expect("tokenization should succeed"))
        .expect("parsing should succeed");
    tree.to_tex()
}

#[test]
fn empty_tree_renders_empty() {
    assert_eq!(rendered(""), "");
}

#[test]
fn plain_word_renders_braced() {
    assert_eq!(rendered("x"), "{x}");
}

#[test]
fn number_renders_in_literal_wrapper() {
    assert_eq!(rendered("42"), r"\lit{42}");
}

#[test]
fn builtin_word_renders_with_kind_wrapper() {
    assert_eq!(rendered("pi"), r"\lit{\pi}");
    assert_eq!(rendered("theta"), r"\var{\theta}");
    assert_eq!(rendered("sin"), r"\fn{\sin}");
}

#[test]
fn siblings_join_with_single_spaces() {
    assert_eq!(rendered("x y"), "{x} {y}");
}

#[test]
fn binary_operator_template() {
    assert_eq!(rendered("a + b"), r"{{a}}\op{+}{{b}}");
}

#[test]
fn assertion_operator_uses_stmt_wrapper() {
    assert_eq!(rendered("a = b"), r"{{a}}\stmt{=}{{b}}");
}

#[test]
fn multiplication_binds_inside_addition() {
    // structurally equivalent to `a + (b * c)`: the product is one unit
    assert_eq!(rendered("a + b * c"), r"{{a}}\op{+}{{{b}}\op{\cdot}{{c}}}");
}

#[test]
fn leftmost_fold_shows_in_rendering() {
    // `a + b` folds first, then `- c` combines with it
    assert_eq!(rendered("a + b - c"), r"{{{a}}\op{+}{{b}}}\op{-}{{c}}");
}

#[test]
fn group_renders_fence_markup() {
    assert_eq!(rendered("( a )"), r"{\br{\lparen}{{a}}{\rparen}}");
}

#[test]
fn group_count_matches_source_pairs() {
    let text = rendered("( a ) [ b ]");
    assert_eq!(text.matches(r"\br").count(), 2);
    assert_eq!(text, r"{\br{\lparen}{{a}}{\rparen}} {\br{\lbrack}{{b}}{\rbrack}}");
}

#[test]
fn exponent_strips_parenthesis_markup() {
    // `x ^ (a)` renders its exponent without the parenthesis fences
    assert_eq!(rendered("x ^ (a)"), rendered("x ^ a"));
    assert_eq!(rendered("x ^ (a)"), r"{{x}}\op{^}{{a}}");
}

#[test]
fn exponent_strips_markup_but_keeps_grouping() {
    assert_eq!(rendered("x ^ (a + b)"), r"{{x}}\op{^}{{{a}}\op{+}{{b}}}");
}

#[test]
fn fraction_strips_parentheses_on_both_slots() {
    assert_eq!(rendered("(a + b) / (c)"), r"\op{\frac{{{a}}\op{+}{{b}}}{{c}}}");
}

#[test]
fn subscript_has_no_kind_wrapper() {
    assert_eq!(rendered("x _ i"), r"{{x}}_{{i}}");
}

#[test]
fn suffix_and_prefix_templates() {
    assert_eq!(rendered("a !"), r"{{a}}\op{!}");
    assert_eq!(rendered("a '"), r"{{a}}^{\op{\prime}}");
    assert_eq!(rendered("not a"), r"\op{\lnot}{{a}}");
    assert_eq!(rendered("- a"), r"\op{-}{{a}}");
}

#[test]
fn nested_groups_render_nested_fences() {
    assert_eq!(
        rendered("( [ a ] )"),
        r"{\br{\lparen}{{\br{\lbrack}{{a}}{\rbrack}}}{\rparen}}"
    );
    assert_eq!(rendered("( [ a ] )").matches(r"\br").count(), 2);
}

#[test]
fn vertical_and_angle_fences_render() {
    assert_eq!(rendered("(| a |)"), r"{\br{\lvert}{{a}}{\rvert}}");
    assert_eq!(rendered("(< a >)"), r"{\br{\langle}{{a}}{\rangle}}");
}

#[test]
fn new_token_node_renders_the_token() {
    let mut tokens = Lexer::new().tokenize("7").unwrap();
    let node = amymath_preprocessor::parser::SyntaxNode::new_token(tokens.remove(0));
    assert_eq!(node.to_tex(), r"\lit{7}");
}

#[test]
fn operator_command_spot_checks() {
    assert_eq!(rendered("a choose b"), r"{{a}}\op{\binom}{{b}}");
    assert_eq!(rendered(r"a /\ b"), r"{{a}}\op{\bigwedge}{{b}}");
    assert_eq!(rendered(r"a \ b"), r"{{a}}\op{\setminus}{{b}}");
    assert_eq!(rendered("a cup b"), r"{{a}}\op{\cup}{{b}}");
    assert_eq!(rendered("a === b"), r"{{a}}\stmt{\equiv}{{b}}");
    assert_eq!(rendered("a where b"), r"{{a}}\stmt{\where}{{b}}");
    assert_eq!(rendered("for all x"), r"\stmt{\forall}{{x}}");
    assert_eq!(rendered("exists x"), r"\stmt{\exists}{{x}}");
}

#[test]
fn blank_fence_renders_dots() {
    assert_eq!(rendered("(: a :)"), r"{\br{.}{{a}}{.}}");
}

#[test]
fn rendering_is_deterministic() {
    // rendering the same tree twice yields identical text
    let first = rendered("( a + b ) * c !");
    let second = rendered("( a + b ) * c !");
    assert_eq!(first, second);
}

#[test]
fn annotated_word_renders_with_its_kind() {
    let mut tokens = Lexer::new().tokenize("f x").unwrap();
    for token in tokens.iter_mut() {
        if let Token::Word(amymath_preprocessor::lexer::WordToken::Direct(d)) = token {
            if d.name == "f" {
                d.kind = Some(DefKind::Function);
            }
        }
    }
    let tree = parse(tokens).unwrap();
    assert_eq!(tree.to_tex(), r"\fn{f} {x}");
}

#[test]
fn node_and_tree_render_alike() {
    let tree = parse(Lexer::new().tokenize("a + b").unwrap()).unwrap();
    let SyntaxTree(mut nodes) = tree;
    let node = nodes.remove(0);
    assert_eq!(node.to_tex(), r"{{a}}\op{+}{{b}}");
}

#[test]
fn operator_format_renders_argument_lists() {
    let lhs_tree = parse(Lexer::new().tokenize("a").unwrap()).unwrap();
    let rhs_tree = parse(Lexer::new().tokenize("b").unwrap()).unwrap();
    let text = OperatorToken::CDot.format(lhs_tree.0, rhs_tree.0);
    assert_eq!(text, r"{{a}}\op{\cdot}{{b}}");
}

#[test]
fn extract_inner_unwraps_only_parens() {
    let tree = parse(Lexer::new().tokenize("( a )").unwrap()).unwrap();
    let SyntaxTree(mut nodes) = tree;
    let inner = nodes.remove(0).extract_inner();
    assert_eq!(inner.to_tex(), "{a}");

    let tree = parse(Lexer::new().tokenize("[ a ]").unwrap()).unwrap();
    let SyntaxTree(mut nodes) = tree;
    let kept = nodes.remove(0).extract_inner();
    assert_eq!(kept.to_tex(), r"{\br{\lbrack}{{a}}{\rbrack}}");
}
