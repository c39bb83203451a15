//! Tokenization module. Breaks a line of source notation into tokens.
//!
//! The scanner performs maximal-munch tokenization: at each position the
//! longest special spelling (operator or delimiter) wins, alphabetic operator
//! spellings require word boundaries so they never match inside a longer
//! identifier, identifiers are maximal alphabetic runs, and numbers are a
//! digit run with an optional fractional part. Whitespace separates tokens;
//! any other unmatched text is reported as an unknown token.

/// Delimited group tokens.
pub mod group_ctrl;
/// Operator tokens.
pub mod operator;
/// Builtin word tokens.
pub mod builtin_word;
/// Variable/constant/function tokens.
pub mod word;
/// Generic token type.
pub mod token;
/// Lexer error module.
pub mod error;

pub use group_ctrl::BracketKind;
pub use group_ctrl::GroupControl;
pub use group_ctrl::GroupCtrlToken;
pub use operator::NAry;
pub use operator::OpType;
pub use operator::OperatorToken;
pub use builtin_word::TrigFn;
pub use builtin_word::TrigFnToken;
pub use builtin_word::BuiltinWordToken;
pub use word::DirectWordToken;
pub use word::DirectWordTokenV;
pub use word::WordToken;
pub use word::WordTokenV;
pub use token::Token;
pub use token::TokenV;
pub use error::LexerError;

use vstd::prelude::*;
use crate::text::spec_is_alpha;
use crate::text::spec_is_digit;
use crate::text::matches_at;
use crate::text::is_alpha;
use crate::text::is_digit;
use crate::text::match_at;

verus! {

/// Whether `c` separates tokens without being part of any.
pub open spec fn spec_is_space(c: char) -> bool {
    c == ' ' || c == '\t'
}

/// Whether position `i` starts at a word boundary: the character before it,
/// if any, is not a letter.
pub open spec fn lead_bound_ok(s: Seq<char>, i: int) -> bool {
    i == 0 || !spec_is_alpha(s[i - 1])
}

/// Whether position `j` ends at a word boundary: the character at it, if
/// any, is not a letter.
pub open spec fn trail_bound_ok(s: Seq<char>, j: int) -> bool {
    j == s.len() || !spec_is_alpha(s[j])
}

/// Whether the symbolic spelling `w` matches at position `i`.
pub open spec fn sym_at(s: Seq<char>, i: int, w: Seq<char>) -> bool {
    0 < w.len() && matches_at(s, i, w)
}

/// Whether the alphabetic spelling `w` matches at position `i` with word
/// boundaries on both sides.
pub open spec fn alpha_at(s: Seq<char>, i: int, w: Seq<char>) -> bool {
    0 < w.len() && matches_at(s, i, w) && lead_bound_ok(s, i) && trail_bound_ok(s, i + w.len())
}

/// Whether the spelling `w`, starting with a symbol but ending with a
/// letter, matches at position `i` with a trailing word boundary.
pub open spec fn excl_at(s: Seq<char>, i: int, w: Seq<char>) -> bool {
    0 < w.len() && matches_at(s, i, w) && trail_bound_ok(s, i + w.len())
}

/// The special spelling (operator or delimiter) matched at position `i`, if
/// any. Candidates are tried longest first, so multi-character spellings
/// beat shorter prefixes that are themselves valid spellings.
pub open spec fn special_match_at(s: Seq<char>, i: int) -> Option<Seq<char>> {
    if alpha_at(s, i, "intersection"@) {
        Some("intersection"@)
    } else if excl_at(s, i, "!exists no"@) {
        Some("!exists no"@)
    } else if alpha_at(s, i, "exists no"@) {
        Some("exists no"@)
    } else if alpha_at(s, i, "for all"@) {
        Some("for all"@)
    } else if excl_at(s, i, "!exists"@) {
        Some("!exists"@)
    } else if alpha_at(s, i, "exists"@) {
        Some("exists"@)
    } else if alpha_at(s, i, "choose"@) {
        Some("choose"@)
    } else if alpha_at(s, i, "where"@) {
        Some("where"@)
    } else if alpha_at(s, i, "union"@) {
        Some("union"@)
    } else if alpha_at(s, i, "bcus"@) {
        Some("bcus"@)
    } else if alpha_at(s, i, "nand"@) {
        Some("nand"@)
    } else if alpha_at(s, i, "xnor"@) {
        Some("xnor"@)
    } else if sym_at(s, i, "+/-"@) {
        Some("+/-"@)
    } else if sym_at(s, i, "-/+"@) {
        Some("-/+"@)
    } else if sym_at(s, i, "==="@) {
        Some("==="@)
    } else if sym_at(s, i, "!=="@) {
        Some("!=="@)
    } else if sym_at(s, i, "=/="@) {
        Some("=/="@)
    } else if sym_at(s, i, "==>"@) {
        Some("==>"@)
    } else if sym_at(s, i, "<=="@) {
        Some("<=="@)
    } else if sym_at(s, i, "<=>"@) {
        Some("<=>"@)
    } else if sym_at(s, i, "|=>"@) {
        Some("|=>"@)
    } else if sym_at(s, i, "|->"@) {
        Some("|->"@)
    } else if sym_at(s, i, "<=|"@) {
        Some("<=|"@)
    } else if sym_at(s, i, "<-|"@) {
        Some("<-|"@)
    } else if sym_at(s, i, "(||"@) {
        Some("(||"@)
    } else if sym_at(s, i, "||)"@) {
        Some("||)"@)
    } else if sym_at(s, i, "(<<"@) {
        Some("(<<"@)
    } else if sym_at(s, i, ">>)"@) {
        Some(">>)"@)
    } else if alpha_at(s, i, "not"@) {
        Some("not"@)
    } else if alpha_at(s, i, "and"@) {
        Some("and"@)
    } else if alpha_at(s, i, "xor"@) {
        Some("xor"@)
    } else if alpha_at(s, i, "nor"@) {
        Some("nor"@)
    } else if alpha_at(s, i, "cap"@) {
        Some("cap"@)
    } else if alpha_at(s, i, "cup"@) {
        Some("cup"@)
    } else if sym_at(s, i, "->"@) {
        Some("->"@)
    } else if sym_at(s, i, "<-"@) {
        Some("<-"@)
    } else if sym_at(s, i, ">="@) {
        Some(">="@)
    } else if sym_at(s, i, "<="@) {
        Some("<="@)
    } else if sym_at(s, i, "=="@) {
        Some("=="@)
    } else if sym_at(s, i, "!="@) {
        Some("!="@)
    } else if sym_at(s, i, "=>"@) {
        Some("=>"@)
    } else if sym_at(s, i, r"/\"@) {
        Some(r"/\"@)
    } else if sym_at(s, i, r"\/"@) {
        Some(r"\/"@)
    } else if sym_at(s, i, "(|"@) {
        Some("(|"@)
    } else if sym_at(s, i, "|)"@) {
        Some("|)"@)
    } else if sym_at(s, i, "(<"@) {
        Some("(<"@)
    } else if sym_at(s, i, ">)"@) {
        Some(">)"@)
    } else if sym_at(s, i, "|_"@) {
        Some("|_"@)
    } else if sym_at(s, i, "_|"@) {
        Some("_|"@)
    } else if sym_at(s, i, r"|`"@) {
        Some(r"|`"@)
    } else if sym_at(s, i, r"`|"@) {
        Some(r"`|"@)
    } else if sym_at(s, i, "(:"@) {
        Some("(:"@)
    } else if sym_at(s, i, ":)"@) {
        Some(":)"@)
    } else if alpha_at(s, i, "in"@) {
        Some("in"@)
    } else if alpha_at(s, i, "or"@) {
        Some("or"@)
    } else if alpha_at(s, i, "so"@) {
        Some("so"@)
    } else if sym_at(s, i, "_"@) {
        Some("_"@)
    } else if sym_at(s, i, "!"@) {
        Some("!"@)
    } else if sym_at(s, i, "'"@) {
        Some("'"@)
    } else if sym_at(s, i, "^"@) {
        Some("^"@)
    } else if sym_at(s, i, "*"@) {
        Some("*"@)
    } else if sym_at(s, i, "/"@) {
        Some("/"@)
    } else if sym_at(s, i, "+"@) {
        Some("+"@)
    } else if sym_at(s, i, "-"@) {
        Some("-"@)
    } else if sym_at(s, i, ">"@) {
        Some(">"@)
    } else if sym_at(s, i, "<"@) {
        Some("<"@)
    } else if sym_at(s, i, "~"@) {
        Some("~"@)
    } else if sym_at(s, i, "="@) {
        Some("="@)
    } else if sym_at(s, i, "&"@) {
        Some("&"@)
    } else if sym_at(s, i, "|"@) {
        Some("|"@)
    } else if sym_at(s, i, r"\"@) {
        Some(r"\"@)
    } else if sym_at(s, i, ":"@) {
        Some(":"@)
    } else if sym_at(s, i, "("@) {
        Some("("@)
    } else if sym_at(s, i, ")"@) {
        Some(")"@)
    } else if sym_at(s, i, "["@) {
        Some("["@)
    } else if sym_at(s, i, "]"@) {
        Some("]"@)
    } else if sym_at(s, i, "{"@) {
        Some("{"@)
    } else if sym_at(s, i, "}"@) {
        Some("}"@)
    } else {
        None
    }
}

/// The end of the maximal run of letters starting at `i`.
pub open spec fn alpha_run_end(s: Seq<char>, i: int) -> int
    decreases s.len() - i,
{
    if 0 <= i && i < s.len() && spec_is_alpha(s[i]) {
        alpha_run_end(s, i + 1)
    } else {
        i
    }
}

/// The end of the maximal run of digits starting at `i`.
pub open spec fn digit_run_end(s: Seq<char>, i: int) -> int
    decreases s.len() - i,
{
    if 0 <= i && i < s.len() && spec_is_digit(s[i]) {
        digit_run_end(s, i + 1)
    } else {
        i
    }
}

/// The length of the number matched at position `i`, if any: a digit run,
/// optionally followed by a dot and a further non-empty digit run; or a dot
/// followed by a non-empty digit run.
pub open spec fn number_len_at(s: Seq<char>, i: int) -> Option<int> {
    if 0 <= i && i < s.len() && spec_is_digit(s[i]) {
        let d = digit_run_end(s, i);
        if d < s.len() && s[d] == '.' && d + 1 < s.len() && spec_is_digit(s[d + 1]) {
            Some(digit_run_end(s, d + 1) - i)
        } else {
            Some(d - i)
        }
    } else if 0 <= i && i < s.len() && s[i] == '.' && i + 1 < s.len() && spec_is_digit(s[i + 1]) {
        Some(digit_run_end(s, i + 1) - i)
    } else {
        None
    }
}

/// The position the scanner moves to after consuming a token that ends at
/// `j`; degenerate values are clamped so the scanner always advances.
pub open spec fn step_to(s: Seq<char>, i: int, j: int) -> int {
    if i < j && j <= s.len() {
        j
    } else {
        i + 1
    }
}

/// The token denoted by a matched special spelling, classified in fixed
/// priority: operator first, then delimiter.
pub open spec fn spec_classify_special(w: Seq<char>) -> Option<TokenV> {
    match OperatorToken::spec_from(w) {
        Some(op) => Some(TokenV::Operator(op)),
        None => match GroupCtrlToken::spec_from(w) {
            Some(gc) => Some(TokenV::GroupCtrl(gc)),
            None => None,
        },
    }
}

/// The token sequence produced by scanning `s` from position `i`, or the
/// offending text of the first unknown token.
pub open spec fn lex_spec(s: Seq<char>, i: int) -> Result<Seq<TokenV>, Seq<char>>
    decreases s.len() - i,
{
    if i < 0 || i >= s.len() {
        Ok(Seq::empty())
    } else if spec_is_space(s[i]) {
        lex_spec(s, i + 1)
    } else {
        match special_match_at(s, i) {
            Some(w) => match spec_classify_special(w) {
                Some(t) => match lex_spec(s, step_to(s, i, i + w.len())) {
                    Ok(rest) => Ok(seq![t] + rest),
                    Err(e) => Err(e),
                },
                None => Err(w),
            },
            None => {
                if spec_is_alpha(s[i]) {
                    let j = alpha_run_end(s, i);
                    let t = TokenV::Word(WordTokenV::spec_from(s.subrange(i, j)));
                    match lex_spec(s, step_to(s, i, j)) {
                        Ok(rest) => Ok(seq![t] + rest),
                        Err(e) => Err(e),
                    }
                } else {
                    match number_len_at(s, i) {
                        Some(l) => {
                            let t = TokenV::Number(s.subrange(i, i + l));
                            match lex_spec(s, step_to(s, i, i + l)) {
                                Ok(rest) => Ok(seq![t] + rest),
                                Err(e) => Err(e),
                            }
                        },
                        None => Err(s.subrange(i, i + 1)),
                    }
                }
            },
        }
    }
}

/// The result of tokenizing the whole line.
pub open spec fn spec_tokenize(s: Seq<char>) -> Result<Seq<TokenV>, Seq<char>> {
    lex_spec(s, 0)
}

fn sym_at_exec(line: &str, i: usize, pat: &'static str) -> (r: bool)
    ensures
        r == sym_at(line@, i as int, pat@),
{
    let l = pat.unicode_len();
    l > 0 && match_at(line, i, pat)
}

fn alpha_at_exec(line: &str, i: usize, pat: &'static str) -> (r: bool)
    ensures
        r == alpha_at(line@, i as int, pat@),
{
    let l = pat.unicode_len();
    if l == 0 || !match_at(line, i, pat) {
        return false;
    }
    if i > 0 && is_alpha(line.get_char(i - 1)) {
        return false;
    }
    let line_len = line.unicode_len();
    if i + l < line_len && is_alpha(line.get_char(i + l)) {
        return false;
    }
    true
}

fn excl_at_exec(line: &str, i: usize, pat: &'static str) -> (r: bool)
    ensures
        r == excl_at(line@, i as int, pat@),
{
    let l = pat.unicode_len();
    if l == 0 || !match_at(line, i, pat) {
        return false;
    }
    let line_len = line.unicode_len();
    if i + l < line_len && is_alpha(line.get_char(i + l)) {
        return false;
    }
    true
}

#[verifier::rlimit(50)]
fn special_at(line: &str, i: usize) -> (r: Option<&'static str>)
    ensures
        match r {
            Some(w) => special_match_at(line@, i as int) == Some(w@) && 0 < w@.len() && i + w@.len()
                <= line@.len(),
            None => special_match_at(line@, i as int) is None,
        },
{
    if alpha_at_exec(line, i, "intersection") {
        Some("intersection")
    } else if excl_at_exec(line, i, "!exists no") {
        Some("!exists no")
    } else if alpha_at_exec(line, i, "exists no") {
        Some("exists no")
    } else if alpha_at_exec(line, i, "for all") {
        Some("for all")
    } else if excl_at_exec(line, i, "!exists") {
        Some("!exists")
    } else if alpha_at_exec(line, i, "exists") {
        Some("exists")
    } else if alpha_at_exec(line, i, "choose") {
        Some("choose")
    } else if alpha_at_exec(line, i, "where") {
        Some("where")
    } else if alpha_at_exec(line, i, "union") {
        Some("union")
    } else if alpha_at_exec(line, i, "bcus") {
        Some("bcus")
    } else if alpha_at_exec(line, i, "nand") {
        Some("nand")
    } else if alpha_at_exec(line, i, "xnor") {
        Some("xnor")
    } else if sym_at_exec(line, i, "+/-") {
        Some("+/-")
    } else if sym_at_exec(line, i, "-/+") {
        Some("-/+")
    } else if sym_at_exec(line, i, "===") {
        Some("===")
    } else if sym_at_exec(line, i, "!==") {
        Some("!==")
    } else if sym_at_exec(line, i, "=/=") {
        Some("=/=")
    } else if sym_at_exec(line, i, "==>") {
        Some("==>")
    } else if sym_at_exec(line, i, "<==") {
        Some("<==")
    } else if sym_at_exec(line, i, "<=>") {
        Some("<=>")
    } else if sym_at_exec(line, i, "|=>") {
        Some("|=>")
    } else if sym_at_exec(line, i, "|->") {
        Some("|->")
    } else if sym_at_exec(line, i, "<=|") {
        Some("<=|")
    } else if sym_at_exec(line, i, "<-|") {
        Some("<-|")
    } else if sym_at_exec(line, i, "(||") {
        Some("(||")
    } else if sym_at_exec(line, i, "||)") {
        Some("||)")
    } else if sym_at_exec(line, i, "(<<") {
        Some("(<<")
    } else if sym_at_exec(line, i, ">>)") {
        Some(">>)")
    } else if alpha_at_exec(line, i, "not") {
        Some("not")
    } else if alpha_at_exec(line, i, "and") {
        Some("and")
    } else if alpha_at_exec(line, i, "xor") {
        Some("xor")
    } else if alpha_at_exec(line, i, "nor") {
        Some("nor")
    } else if alpha_at_exec(line, i, "cap") {
        Some("cap")
    } else if alpha_at_exec(line, i, "cup") {
        Some("cup")
    } else if sym_at_exec(line, i, "->") {
        Some("->")
    } else if sym_at_exec(line, i, "<-") {
        Some("<-")
    } else if sym_at_exec(line, i, ">=") {
        Some(">=")
    } else if sym_at_exec(line, i, "<=") {
        Some("<=")
    } else if sym_at_exec(line, i, "==") {
        Some("==")
    } else if sym_at_exec(line, i, "!=") {
        Some("!=")
    } else if sym_at_exec(line, i, "=>") {
        Some("=>")
    } else if sym_at_exec(line, i, r"/\") {
        Some(r"/\")
    } else if sym_at_exec(line, i, r"\/") {
        Some(r"\/")
    } else if sym_at_exec(line, i, "(|") {
        Some("(|")
    } else if sym_at_exec(line, i, "|)") {
        Some("|)")
    } else if sym_at_exec(line, i, "(<") {
        Some("(<")
    } else if sym_at_exec(line, i, ">)") {
        Some(">)")
    } else if sym_at_exec(line, i, "|_") {
        Some("|_")
    } else if sym_at_exec(line, i, "_|") {
        Some("_|")
    } else if sym_at_exec(line, i, r"|`") {
        Some(r"|`")
    } else if sym_at_exec(line, i, r"`|") {
        Some(r"`|")
    } else if sym_at_exec(line, i, "(:") {
        Some("(:")
    } else if sym_at_exec(line, i, ":)") {
        Some(":)")
    } else if alpha_at_exec(line, i, "in") {
        Some("in")
    } else if alpha_at_exec(line, i, "or") {
        Some("or")
    } else if alpha_at_exec(line, i, "so") {
        Some("so")
    } else if sym_at_exec(line, i, "_") {
        Some("_")
    } else if sym_at_exec(line, i, "!") {
        Some("!")
    } else if sym_at_exec(line, i, "'") {
        Some("'")
    } else if sym_at_exec(line, i, "^") {
        Some("^")
    } else if sym_at_exec(line, i, "*") {
        Some("*")
    } else if sym_at_exec(line, i, "/") {
        Some("/")
    } else if sym_at_exec(line, i, "+") {
        Some("+")
    } else if sym_at_exec(line, i, "-") {
        Some("-")
    } else if sym_at_exec(line, i, ">") {
        Some(">")
    } else if sym_at_exec(line, i, "<") {
        Some("<")
    } else if sym_at_exec(line, i, "~") {
        Some("~")
    } else if sym_at_exec(line, i, "=") {
        Some("=")
    } else if sym_at_exec(line, i, "&") {
        Some("&")
    } else if sym_at_exec(line, i, "|") {
        Some("|")
    } else if sym_at_exec(line, i, r"\") {
        Some(r"\")
    } else if sym_at_exec(line, i, ":") {
        Some(":")
    } else if sym_at_exec(line, i, "(") {
        Some("(")
    } else if sym_at_exec(line, i, ")") {
        Some(")")
    } else if sym_at_exec(line, i, "[") {
        Some("[")
    } else if sym_at_exec(line, i, "]") {
        Some("]")
    } else if sym_at_exec(line, i, "{") {
        Some("{")
    } else if sym_at_exec(line, i, "}") {
        Some("}")
    } else {
        None
    }
}

proof fn lemma_alpha_run_end_bounds(s: Seq<char>, i: int)
    requires
        0 <= i <= s.len(),
    ensures
        i <= alpha_run_end(s, i) <= s.len(),
    decreases s.len() - i,
{
    if i < s.len() && spec_is_alpha(s[i]) {
        lemma_alpha_run_end_bounds(s, i + 1);
    }
}

proof fn lemma_digit_run_end_bounds(s: Seq<char>, i: int)
    requires
        0 <= i <= s.len(),
    ensures
        i <= digit_run_end(s, i) <= s.len(),
    decreases s.len() - i,
{
    if i < s.len() && spec_is_digit(s[i]) {
        lemma_digit_run_end_bounds(s, i + 1);
    }
}

fn alpha_run_end_exec(line: &str, i: usize) -> (j: usize)
    requires
        i as int <= line@.len(),
    ensures
        j as int == alpha_run_end(line@, i as int),
        i <= j,
        j as int <= line@.len(),
{
    let len = line.unicode_len();
    let mut j = i;
    loop
        invariant_except_break
            i <= j <= len,
            len == line@.len(),
            alpha_run_end(line@, i as int) == alpha_run_end(line@, j as int),
        ensures
            i <= j <= len,
            alpha_run_end(line@, i as int) == j,
        decreases len - j,
    {
        if j == len || !is_alpha(line.get_char(j)) {
            proof {
                assert(alpha_run_end(line@, j as int) == j);
            }
            break;
        }
        j += 1;
    }
    j
}

fn digit_run_end_exec(line: &str, i: usize) -> (j: usize)
    requires
        i as int <= line@.len(),
    ensures
        j as int == digit_run_end(line@, i as int),
        i <= j,
        j as int <= line@.len(),
{
    let len = line.unicode_len();
    let mut j = i;
    loop
        invariant_except_break
            i <= j <= len,
            len == line@.len(),
            digit_run_end(line@, i as int) == digit_run_end(line@, j as int),
        ensures
            i <= j <= len,
            digit_run_end(line@, i as int) == j,
        decreases len - j,
    {
        if j == len || !is_digit(line.get_char(j)) {
            proof {
                assert(digit_run_end(line@, j as int) == j);
            }
            break;
        }
        j += 1;
    }
    j
}

fn number_len_exec(line: &str, i: usize) -> (r: Option<usize>)
    requires
        (i as int) < line@.len(),
    ensures
        match r {
            Some(l) => number_len_at(line@, i as int) == Some(l as int) && 1 <= l && i + l
                <= line@.len(),
            None => number_len_at(line@, i as int) is None,
        },
{
    let len = line.unicode_len();
    let c = line.get_char(i);
    if is_digit(c) {
        let d = digit_run_end_exec(line, i);
        proof {
            assert(digit_run_end(line@, i as int) == digit_run_end(line@, i + 1));
            lemma_digit_run_end_bounds(line@, i + 1);
        }
        if d < len && line.get_char(d) == '.' && d + 1 < len && is_digit(line.get_char(d + 1)) {
            let e = digit_run_end_exec(line, d + 1);
            proof {
                assert(digit_run_end(line@, d + 1) == digit_run_end(line@, d + 2));
                lemma_digit_run_end_bounds(line@, d + 2);
            }
            Some(e - i)
        } else {
            Some(d - i)
        }
    } else if c == '.' && i + 1 < len && is_digit(line.get_char(i + 1)) {
        let e = digit_run_end_exec(line, i + 1);
        proof {
            assert(digit_run_end(line@, i + 1) == digit_run_end(line@, i + 2));
            lemma_digit_run_end_bounds(line@, i + 2);
        }
        Some(e - i)
    } else {
        None
    }
}

/// The machine that breaks a line of notation into tokens.
pub struct Lexer {}

impl Lexer {
    /// Construct a new lexer.
    pub fn new() -> (r: Self)
        ensures
            r == (Lexer {  }),
    {
        Lexer {  }
    }

    /// Break a line of notation into tokens.
    ///
    /// The result is exactly [`spec_tokenize`] of the line: either the full
    /// token sequence, or the first unknown piece of text as an error.
    pub fn tokenize(&self, line: &str) -> (r: Result<Vec<Token>, LexerError>)
        ensures
            match r {
                Ok(tokens) => spec_tokenize(line@) == Ok::<Seq<TokenV>, Seq<char>>(
                    tokens.deep_view(),
                ),
                Err(e) => spec_tokenize(line@) == Err::<Seq<TokenV>, Seq<char>>(e.spec_token()),
            },
    {
        let len = line.unicode_len();
        let mut i: usize = 0;
        let mut tokens: Vec<Token> = Vec::new();
        while i < len
            invariant
                len == line@.len(),
                0 <= i <= len,
                lex_spec(line@, 0) == (match lex_spec(line@, i as int) {
                    Ok(rest) => Ok::<Seq<TokenV>, Seq<char>>(tokens.deep_view() + rest),
                    Err(e) => Err::<Seq<TokenV>, Seq<char>>(e),
                }),
            decreases len - i,
        {
            let ghost prev_dv = tokens.deep_view();
            let c = line.get_char(i);
            if c == ' ' || c == '\t' {
                i += 1;
            } else if let Some(w) = special_at(line, i) {
                let wl = w.unicode_len();
                let tok: Token;
                if let Some(op) = OperatorToken::try_from(w) {
                    tok = Token::Operator(op);
                } else if let Some(gc) = GroupCtrlToken::try_from(w) {
                    tok = Token::GroupCtrl(gc);
                } else {
                    return Err(LexerError::UnknownToken { token: String::from_str(w) });
                }
                let ghost t = tok@;
                tokens.push(tok);
                proof {
                    assert(step_to(line@, i as int, i + wl) == i + wl);
                    assert(tokens.deep_view() =~= prev_dv.push(t));
                    assert forall|rest: Seq<TokenV>|
                        prev_dv + (seq![t] + rest) =~= (prev_dv.push(t)) + rest by {}
                }
                i += wl;
            } else if is_alpha(c) {
                let j = alpha_run_end_exec(line, i);
                proof {
                    assert(alpha_run_end(line@, i as int) == alpha_run_end(line@, i + 1));
                    lemma_alpha_run_end_bounds(line@, i + 1);
                    assert(step_to(line@, i as int, j as int) == j);
                }
                let name = String::from_str(line.substring_char(i, j));
                let tok = Token::Word(WordToken::from(name));
                let ghost t = tok@;
                tokens.push(tok);
                proof {
                    assert(tokens.deep_view() =~= prev_dv.push(t));
                    assert forall|rest: Seq<TokenV>|
                        prev_dv + (seq![t] + rest) =~= (prev_dv.push(t)) + rest by {}
                }
                i = j;
            } else if let Some(l) = number_len_exec(line, i) {
                proof {
                    assert(step_to(line@, i as int, i + l) == i + l);
                }
                let tok = Token::Number(String::from_str(line.substring_char(i, i + l)));
                let ghost t = tok@;
                tokens.push(tok);
                proof {
                    assert(tokens.deep_view() =~= prev_dv.push(t));
                    assert forall|rest: Seq<TokenV>|
                        prev_dv + (seq![t] + rest) =~= (prev_dv.push(t)) + rest by {}
                }
                i += l;
            } else {
                return Err(LexerError::UnknownToken {
                    token: String::from_str(line.substring_char(i, i + 1)),
                });
            }
        }
        proof {
            assert(lex_spec(line@, i as int) == Ok::<Seq<TokenV>, Seq<char>>(Seq::empty()));
            assert(tokens.deep_view() + Seq::<TokenV>::empty() =~= tokens.deep_view());
        }
        Ok(tokens)
    }
}

} // verus!
