use amymath_preprocessor::lexer::BracketKind;
use amymath_preprocessor::lexer::BuiltinWordToken;
use amymath_preprocessor::lexer::GroupControl;
use amymath_preprocessor::lexer::GroupCtrlToken;
use amymath_preprocessor::lexer::Lexer;
use amymath_preprocessor::lexer::LexerError;
use amymath_preprocessor::lexer::OperatorToken;
use amymath_preprocessor::lexer::Token;
use amymath_preprocessor::lexer::TrigFn;
use amymath_preprocessor::lexer::TrigFnToken;
use amymath_preprocessor::lexer::DirectWordToken;
use amymath_preprocessor::lexer::WordToken;
use amymath_preprocessor::processor::DefKind;

fn tokens_of(line: &str) -> Vec<Token> {
    Lexer::new().tokenize(line).expect("tokenization should succeed")
}

#[test]
fn empty_line_has_no_tokens() {
    assert!(tokens_of("").is_empty());
    assert!(tokens_of("   \t ").is_empty());
}

#[test]
fn words_operators_and_numbers() {
    let tokens = tokens_of("a + 42");
    assert_eq!(tokens.len(), 3);
    assert!(matches!(&tokens[0], Token::Word(WordToken::Direct(d)) if d.name == "a"));
    assert!(matches!(tokens[1], Token::Operator(OperatorToken::Plus)));
    assert!(matches!(&tokens[2], Token::Number(n) if n == "42"));
}

#[test]
fn fractional_number_is_one_token() {
    let tokens = tokens_of("3.14");
    assert_eq!(tokens.len(), 1);
    assert!(matches!(&tokens[0], Token::Number(n) if n == "3.14"));
}

#[test]
fn trailing_dot_is_not_part_of_a_number() {
    let result = Lexer::new().tokenize("1.");
    let LexerError::UnknownToken { token } = result.unwrap_err();
    assert_eq!(token, ".");
}

#[test]
fn unknown_character_is_reported() {
    let result = Lexer::new().tokenize("a $ b");
    let LexerError::UnknownToken { token } = result.unwrap_err();
    assert_eq!(token, "$");
}

#[test]
fn longest_spelling_wins() {
    let tokens = tokens_of("a <=> b");
    assert!(matches!(tokens[1], Token::Operator(OperatorToken::Iff)));
    let tokens = tokens_of("a <= b");
    assert!(matches!(tokens[1], Token::Operator(OperatorToken::Le)));
    let tokens = tokens_of("a < b");
    assert!(matches!(tokens[1], Token::Operator(OperatorToken::Lt)));
}

#[test]
fn spellings_match_without_spaces() {
    let tokens = tokens_of("a<=b");
    assert_eq!(tokens.len(), 3);
    assert!(matches!(tokens[1], Token::Operator(OperatorToken::Le)));
}

#[test]
fn alphabetic_operator_requires_word_boundaries() {
    let tokens = tokens_of("a and b");
    assert!(matches!(tokens[1], Token::Operator(OperatorToken::And)));
    // inside a longer identifier the operator spelling must not match
    let tokens = tokens_of("android");
    assert_eq!(tokens.len(), 1);
    assert!(matches!(&tokens[0], Token::Word(WordToken::Direct(d)) if d.name == "android"));
}

#[test]
fn multi_word_operator_spellings() {
    let tokens = tokens_of("for all x");
    assert_eq!(tokens.len(), 2);
    assert!(matches!(tokens[0], Token::Operator(OperatorToken::Forall)));
    let tokens = tokens_of("!exists no x");
    assert_eq!(tokens.len(), 2);
    assert!(matches!(tokens[0], Token::Operator(OperatorToken::NExistsUnique)));
    let tokens = tokens_of("exists no x");
    assert!(matches!(tokens[0], Token::Operator(OperatorToken::NExists)));
    let tokens = tokens_of("exists x");
    assert!(matches!(tokens[0], Token::Operator(OperatorToken::Exists)));
}

#[test]
fn builtin_words_are_classified() {
    let tokens = tokens_of("pi theta sqrt q");
    assert!(matches!(tokens[0], Token::Word(WordToken::Builtin(BuiltinWordToken::Pi))));
    assert!(matches!(tokens[1], Token::Word(WordToken::Builtin(BuiltinWordToken::Theta))));
    assert!(matches!(tokens[2], Token::Word(WordToken::Builtin(BuiltinWordToken::Sqrt))));
    assert!(matches!(&tokens[3], Token::Word(WordToken::Direct(d)) if d.name == "q"));
}

#[test]
fn delimiters_are_classified_by_kind() {
    let tokens = tokens_of("( [ { (| (|| (< (<< |_ |` (:");
    let expected = [
        BracketKind::Paren,
        BracketKind::Brack,
        BracketKind::Brace,
        BracketKind::Vert,
        BracketKind::VVert,
        BracketKind::Angle,
        BracketKind::AAngle,
        BracketKind::Floor,
        BracketKind::Ceil,
        BracketKind::Blank,
    ];
    assert_eq!(tokens.len(), expected.len());
    for (token, kind) in tokens.iter().zip(expected.iter()) {
        assert!(
            matches!(token, Token::GroupCtrl(gc) if gc.kind == *kind
                && gc.ctrl == GroupControl::Open)
        );
    }
}

#[test]
fn operator_try_from_spellings() {
    assert_eq!(OperatorToken::try_from("=="), Some(OperatorToken::Eq));
    assert_eq!(OperatorToken::try_from("="), Some(OperatorToken::Eq));
    assert_eq!(OperatorToken::try_from("=/="), Some(OperatorToken::Ne));
    assert_eq!(OperatorToken::try_from("cap"), Some(OperatorToken::Intersection));
    assert_eq!(OperatorToken::try_from("intersection"), Some(OperatorToken::Intersection));
    assert_eq!(OperatorToken::try_from(r"/\"), Some(OperatorToken::Wedge));
    assert_eq!(OperatorToken::try_from("nothing"), None);
}

#[test]
fn group_ctrl_try_from_spellings() {
    let token = GroupCtrlToken::try_from("(").unwrap();
    assert_eq!(token.kind, BracketKind::Paren);
    assert_eq!(token.ctrl, GroupControl::Open);
    let token = GroupCtrlToken::try_from("_|").unwrap();
    assert_eq!(token.kind, BracketKind::Floor);
    assert_eq!(token.ctrl, GroupControl::Close);
    assert!(GroupCtrlToken::try_from("x").is_none());
}

#[test]
fn group_ctrl_source_str_round_trips() {
    let spellings = ["(", ")", "[", "]", "{", "}", "(|", "|)", "(||", "||)", "(<", ">)", "(<<",
        ">>)", "|_", "_|", "|`", "`|", "(:", ":)"];
    for spelling in spellings {
        let token = GroupCtrlToken::try_from(spelling).unwrap();
        assert_eq!(token.source_str(), spelling);
    }
}

#[test]
fn precedence_orders_bind_power() {
    // a lower tier index means a tighter, stronger binding
    assert!(OperatorToken::CDot.precedence() < OperatorToken::Plus.precedence());
    assert!(OperatorToken::CDot.bind_power() > OperatorToken::Plus.bind_power());
    assert_eq!(OperatorToken::Subscript.precedence(), 0);
    assert_eq!(OperatorToken::Where.precedence(), 20);
    assert_eq!(OperatorToken::Plus.bind_power() , OperatorToken::Minus.bind_power());
}

#[test]
fn trig_words_decompose() {
    let token = TrigFnToken::try_from("arcsech").unwrap();
    assert_eq!(token.func, TrigFn::Cos);
    assert!(token.is_reciprocal);
    assert!(token.is_hyperbolic);
    assert!(token.is_inverse);
    assert_eq!(token.into_tex(), r"\arcsech");

    let token = TrigFnToken::try_from("tan").unwrap();
    assert_eq!(token.func, TrigFn::Tan);
    assert!(!token.is_reciprocal);
    assert!(!token.is_hyperbolic);
    assert!(!token.is_inverse);
    assert_eq!(token.into_tex(), r"\tan");

    assert!(TrigFnToken::try_from("arch").is_none());
    assert!(TrigFnToken::try_from("h").is_none());
}

#[test]
fn builtin_word_commands() {
    assert_eq!(BuiltinWordToken::try_from("pi"), Some(BuiltinWordToken::Pi));
    assert_eq!(BuiltinWordToken::try_from("gold"), Some(BuiltinWordToken::VarPhi));
    assert_eq!(BuiltinWordToken::try_from("xyzzy"), None);
    assert_eq!(BuiltinWordToken::Pi.command(), r"\pi");
    assert_eq!(BuiltinWordToken::Sqrt.command(), r"\sqrt{}");
    assert_eq!(BuiltinWordToken::ArcCotH.command(), r"\arccoth");
    assert_eq!(BuiltinWordToken::Pi.into_tex(), r"\pi");
}

#[test]
fn leading_dot_number_is_one_token() {
    let tokens = tokens_of(".5");
    assert_eq!(tokens.len(), 1);
    assert!(matches!(&tokens[0], Token::Number(n) if n == ".5"));
}

#[test]
fn arrow_spellings() {
    let tokens = tokens_of("a -> b");
    assert!(matches!(tokens[1], Token::Operator(OperatorToken::To)));
    let tokens = tokens_of("a |-> b");
    assert!(matches!(tokens[1], Token::Operator(OperatorToken::MapsTo)));
    let tokens = tokens_of("a <-| b");
    assert!(matches!(tokens[1], Token::Operator(OperatorToken::MapsFrom)));
}

#[test]
fn word_token_from_classifies() {
    let word = WordToken::from(String::from("pi"));
    assert!(matches!(word, WordToken::Builtin(BuiltinWordToken::Pi)));
    let word = WordToken::from(String::from("zeta"));
    assert!(matches!(&word, WordToken::Direct(d) if d.name == "zeta" && d.kind == None));

    let direct = DirectWordToken::new(String::from("f"));
    assert_eq!(direct.name, "f");
    assert_eq!(direct.kind, None::<DefKind>);
}

#[test]
fn lexer_error_message_names_the_text() {
    let error = Lexer::new().tokenize("?").unwrap_err();
    assert_eq!(error.message(), "Unrecognized token: `?`");
}
