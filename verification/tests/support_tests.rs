use amymath_preprocessor::lexer::BuiltinWordToken;
use amymath_preprocessor::lexer::LexerError;
use amymath_preprocessor::lexer::OperatorToken;
use amymath_preprocessor::lexer::Token;
use amymath_preprocessor::lexer::WordToken;
use amymath_preprocessor::parser::ParseError;
use amymath_preprocessor::parser::SyntaxNode;
use amymath_preprocessor::processor::anchor_str;
use amymath_preprocessor::processor::DefKind;
use amymath_preprocessor::processor::LineError;
use amymath_preprocessor::processor::LineErrorKind;
use amymath_preprocessor::processor::PreprocError;
use amymath_preprocessor::stack::Stack;
use amymath_preprocessor::to_tex::ToTex;

#[test]
fn stack_is_last_in_first_out() {
    let mut stack: Stack<u32> = Stack::new();
    assert!(stack.is_empty());
    assert!(stack.pop().is_none());
    assert!(stack.top().is_none());
    stack.push(1);
    stack.push(2);
    assert!(!stack.is_empty());
    assert_eq!(stack.top(), Some(&2));
    assert_eq!(stack.pop(), Some(2));
    assert_eq!(stack.pop(), Some(1));
    assert!(stack.is_empty());
}

#[test]
fn stack_top_mut_changes_the_top() {
    let mut stack: Stack<u32> = Stack::new();
    stack.push(7);
    stack.push(8);
    *stack.top_mut() = 9;
    assert_eq!(stack.pop(), Some(9));
    assert_eq!(stack.pop(), Some(7));
}

#[test]
fn def_kind_wrappers() {
    assert_eq!(DefKind::Literal.to_tex(), r"\lit");
    assert_eq!(DefKind::Variable.to_tex(), r"\var");
    assert_eq!(DefKind::Constant.to_tex(), r"\const");
    assert_eq!(DefKind::Function.to_tex(), r"\fn");
}

#[test]
fn anchor_str_wraps_the_key() {
    assert_eq!(anchor_str("content"), "@{content}");
    assert_eq!(anchor_str("title"), "@{title}");
}

#[test]
fn preproc_error_constructors() {
    let error = PreprocError::line_error(3, LineErrorKind::InvalidHeading);
    assert!(matches!(
        error,
        PreprocError::LineError(LineError { line_number: 3, kind: LineErrorKind::InvalidHeading })
    ));

    let error = PreprocError::lexer_error(
        5,
        LexerError::UnknownToken { token: String::from("$") },
    );
    assert!(matches!(
        error,
        PreprocError::LineError(LineError {
            line_number: 5,
            kind: LineErrorKind::LexerError(LexerError::UnknownToken { .. }),
        })
    ));

    let error = PreprocError::parse_error(8, ParseError::TooManyCloseBrackets);
    assert!(matches!(
        error,
        PreprocError::LineError(LineError {
            line_number: 8,
            kind: LineErrorKind::ParseError(ParseError::TooManyCloseBrackets),
        })
    ));
}

#[test]
fn new_group_is_an_empty_blank_group() {
    let node = SyntaxNode::new_group();
    match node {
        SyntaxNode::Group { open, inner, close } => {
            assert_eq!(open, amymath_preprocessor::lexer::BracketKind::Blank);
            assert!(inner.0.is_empty());
            assert_eq!(close, amymath_preprocessor::lexer::BracketKind::Blank);
        },
        other => panic!("expected a group, got {other:?}"),
    }
}

#[test]
fn token_into_tex_is_bare_text() {
    assert_eq!(Token::Number(String::from("42")).into_tex(), "42");
    assert_eq!(Token::Operator(OperatorToken::CDot).into_tex(), r"\cdot");
    assert_eq!(Token::Word(WordToken::Builtin(BuiltinWordToken::Pi)).into_tex(), r"\pi");
}
