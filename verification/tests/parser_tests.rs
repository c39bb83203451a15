use amymath_preprocessor::lexer::BracketKind;
use amymath_preprocessor::lexer::Lexer;
use amymath_preprocessor::lexer::OperatorToken;
use amymath_preprocessor::lexer::Token;
use amymath_preprocessor::parser::parse;
use amymath_preprocessor::parser::group_subexpressions;
use amymath_preprocessor::parser::group_operators;
use amymath_preprocessor::parser::resolve;
use amymath_preprocessor::parser::ParseError;
use amymath_preprocessor::parser::SyntaxNode;
use amymath_preprocessor::parser::SyntaxTree;

fn parsed(line: &str) -> Result<SyntaxTree, ParseError> {
    parse(Lexer::new().tokenize(line).expect("tokenization should succeed"))
}

#[test]
fn balanced_nested_brackets_group() {
    // correctly nested, mutually compatible delimiters never error
    let tree = parsed("( a + [ b * { c } ] )").expect("grouping should succeed");
    assert_eq!(tree.0.len(), 1);
}

#[test]
fn group_records_both_kinds() {
    let tokens = Lexer::new().tokenize("[ a )").unwrap();
    let tree = group_subexpressions(tokens).expect("brackets and parens are interchangeable");
    match &tree.0[0] {
        SyntaxNode::Group { open, inner, close } => {
            assert_eq!(*open, BracketKind::Brack);
            assert_eq!(*close, BracketKind::Paren);
            assert_eq!(inner.0.len(), 1);
        },
        other => panic!("expected a group, got {other:?}"),
    }
}

#[test]
fn unclosed_group_is_not_enough_close_brackets() {
    assert_eq!(parsed("( a + b").unwrap_err(), ParseError::NotEnoughCloseBrackets);
}

#[test]
fn excess_close_is_too_many_close_brackets() {
    assert_eq!(parsed("a + b )").unwrap_err(), ParseError::TooManyCloseBrackets);
}

#[test]
fn incompatible_close_is_bracket_mismatch() {
    assert_eq!(
        parsed("{ a )").unwrap_err(),
        ParseError::BracketMismatch {
            opened_with: BracketKind::Brace,
            closed_with: BracketKind::Paren,
        }
    );
}

#[test]
fn mismatch_is_reported_before_outer_close() {
    // the innermost violation is the first one found
    let error = parsed("( { a ) )").unwrap_err();
    assert_eq!(
        error,
        ParseError::BracketMismatch {
            opened_with: BracketKind::Brace,
            closed_with: BracketKind::Paren,
        }
    );
}

#[test]
fn blank_fence_closes_anything() {
    assert!(parsed("( a :)").is_ok());
    assert!(parsed("(: a }").is_ok());
}

#[test]
fn higher_bind_power_folds_first() {
    // `a + b * c` must bind the multiplication as a single unit
    let tree = parsed("a + b * c").expect("parsing should succeed");
    assert_eq!(tree.0.len(), 1);
    match &tree.0[0] {
        SyntaxNode::Operator { lhs, op, rhs } => {
            assert_eq!(*op, OperatorToken::Plus);
            assert_eq!(lhs.len(), 1);
            assert!(matches!(&lhs[0], SyntaxNode::Token(Token::Word(_))));
            assert_eq!(rhs.len(), 1);
            assert!(
                matches!(&rhs[0], SyntaxNode::Operator { op: OperatorToken::CDot, .. })
            );
        },
        other => panic!("expected an operator node, got {other:?}"),
    }
}

#[test]
fn equal_bind_power_folds_leftmost_first() {
    // `a + b - c` folds `a + b` before combining with `- c`
    let tree = parsed("a + b - c").expect("parsing should succeed");
    assert_eq!(tree.0.len(), 1);
    match &tree.0[0] {
        SyntaxNode::Operator { lhs, op, rhs: _ } => {
            assert_eq!(*op, OperatorToken::Minus);
            assert!(
                matches!(&lhs[0], SyntaxNode::Operator { op: OperatorToken::Plus, .. })
            );
        },
        other => panic!("expected an operator node, got {other:?}"),
    }
}

#[test]
fn operators_never_reach_across_brackets() {
    let tree = parsed("( a + ) b").unwrap_err();
    // inside the group the plus has no right neighbor
    assert_eq!(
        tree,
        ParseError::OperatorMissingArguments {
            is_lhs_nonnull: true,
            op_token: OperatorToken::Plus,
            is_rhs_nonnull: false,
        }
    );
}

#[test]
fn suffix_operator_takes_left_argument() {
    let tree = parsed("a !").expect("suffix application should succeed");
    match &tree.0[0] {
        SyntaxNode::Operator { lhs, op, rhs } => {
            assert_eq!(*op, OperatorToken::Factorial);
            assert_eq!(lhs.len(), 1);
            assert_eq!(rhs.len(), 0);
        },
        other => panic!("expected an operator node, got {other:?}"),
    }
}

#[test]
fn suffix_operator_without_left_neighbor_fails() {
    assert_eq!(
        parsed("! a").unwrap_err(),
        ParseError::OperatorMissingArguments {
            is_lhs_nonnull: false,
            op_token: OperatorToken::Factorial,
            is_rhs_nonnull: true,
        }
    );
}

#[test]
fn minus_falls_back_to_prefix_variant() {
    let tree = parsed("- a").expect("unary minus should succeed");
    match &tree.0[0] {
        SyntaxNode::Operator { lhs, op, rhs } => {
            assert_eq!(*op, OperatorToken::Minus);
            assert_eq!(lhs.len(), 0);
            assert_eq!(rhs.len(), 1);
        },
        other => panic!("expected an operator node, got {other:?}"),
    }
}

#[test]
fn lone_binary_operator_reports_both_sides() {
    assert_eq!(
        parsed("*").unwrap_err(),
        ParseError::OperatorMissingArguments {
            is_lhs_nonnull: false,
            op_token: OperatorToken::CDot,
            is_rhs_nonnull: false,
        }
    );
}

#[test]
fn resolve_works_in_place() {
    let tokens = Lexer::new().tokenize("a + b").unwrap();
    let mut tree = group_subexpressions(tokens).unwrap();
    resolve(&mut tree).expect("resolution should succeed");
    assert_eq!(tree.0.len(), 1);
    assert!(matches!(&tree.0[0], SyntaxNode::Operator { op: OperatorToken::Plus, .. }));
}

#[test]
fn group_operators_resolves_nested_groups() {
    let tokens = Lexer::new().tokenize("( a + b )").unwrap();
    let grouped = group_subexpressions(tokens).unwrap();
    let tree = group_operators(grouped).expect("resolution should succeed");
    match &tree.0[0] {
        SyntaxNode::Group { inner, .. } => {
            assert_eq!(inner.0.len(), 1);
            assert!(matches!(&inner.0[0], SyntaxNode::Operator { .. }));
        },
        other => panic!("expected a group, got {other:?}"),
    }
}
