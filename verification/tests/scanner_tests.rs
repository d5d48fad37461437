use groq_lexer::{Scanner, Token};

fn tokens_of(input: &str) -> Vec<Token> {
    let mut sc = Scanner::new(input);
    let mut out = Vec::new();
    loop {
        let t = sc.next();
        if t == Token::EndOfInput {
            break;
        }
        out.push(t);
    }
    out
}

fn text_of(t: &Token) -> String {
    match t {
        Token::EndOfInput => String::new(),
        Token::Illegal(s) => s.clone(),
        Token::Whitespace(s) => s.clone(),
        Token::Comment(s) => s.clone(),
        Token::Identifier(s) => s.clone(),
        Token::True => "true".to_string(),
        Token::False => "false".to_string(),
        Token::Match => "match".to_string(),
        Token::In => "in".to_string(),
        Token::Asc => "asc".to_string(),
        Token::Desc => "desc".to_string(),
        Token::LeftBrace => "{".to_string(),
        Token::RightBrace => "}".to_string(),
        Token::Asterisk => "*".to_string(),
        Token::Equals => "==".to_string(),
        Token::NotEquals => "!=".to_string(),
        Token::Arrow => "->".to_string(),
        Token::Rocket => "=>".to_string(),
        Token::Not => "!".to_string(),
        Token::Pipe => "|".to_string(),
        Token::QuestionMark => "?".to_string(),
        Token::Dot => ".".to_string(),
        Token::DotDot => "..".to_string(),
        Token::DotDotDot => "...".to_string(),
        Token::Or => "||".to_string(),
        Token::And => "&&".to_string(),
        Token::LessThan => "<".to_string(),
        Token::LessOrEqual => "<=".to_string(),
        Token::GreaterThan => ">".to_string(),
        Token::GreaterOrEqual => ">=".to_string(),
        Token::Minus => "-".to_string(),
    }
}

#[test]
fn keywords_are_promoted() {
    assert_eq!(tokens_of("match"), vec![Token::Match]);
    assert_eq!(tokens_of("in"), vec![Token::In]);
    assert_eq!(tokens_of("asc"), vec![Token::Asc]);
    assert_eq!(tokens_of("desc"), vec![Token::Desc]);
    assert_eq!(tokens_of("true"), vec![Token::True]);
    assert_eq!(tokens_of("false"), vec![Token::False]);
}

#[test]
fn near_keywords_stay_identifiers() {
    assert_eq!(
        tokens_of("matches"),
        vec![Token::Identifier("matches".to_string())]
    );
    assert_eq!(
        tokens_of("Match"),
        vec![Token::Identifier("Match".to_string())]
    );
    assert_eq!(
        tokens_of("_match"),
        vec![Token::Identifier("_match".to_string())]
    );
}

#[test]
fn dollar_leads_an_identifier() {
    assert_eq!(tokens_of("$"), vec![Token::Identifier("$".to_string())]);
    assert_eq!(
        tokens_of("$foo"),
        vec![Token::Identifier("$foo".to_string())]
    );
    assert_eq!(
        tokens_of("a$b"),
        vec![
            Token::Identifier("a".to_string()),
            Token::Identifier("$b".to_string()),
        ]
    );
}

#[test]
fn operator_pairs_combine() {
    assert_eq!(tokens_of("=="), vec![Token::Equals]);
    assert_eq!(tokens_of("||"), vec![Token::Or]);
    assert_eq!(tokens_of("&&"), vec![Token::And]);
    assert_eq!(tokens_of("<="), vec![Token::LessOrEqual]);
    assert_eq!(tokens_of(">="), vec![Token::GreaterOrEqual]);
    assert_eq!(tokens_of("=>"), vec![Token::Rocket]);
    assert_eq!(tokens_of("!="), vec![Token::NotEquals]);
    assert_eq!(tokens_of("->"), vec![Token::Arrow]);
}

#[test]
fn single_operators_fall_back() {
    assert_eq!(tokens_of(">"), vec![Token::GreaterThan]);
    assert_eq!(tokens_of("<"), vec![Token::LessThan]);
    assert_eq!(tokens_of("!"), vec![Token::Not]);
    assert_eq!(tokens_of("*"), vec![Token::Asterisk]);
    assert_eq!(tokens_of("|"), vec![Token::Pipe]);
    assert_eq!(tokens_of("?"), vec![Token::QuestionMark]);
    assert_eq!(tokens_of("-"), vec![Token::Minus]);
}

#[test]
fn bare_equals_is_illegal() {
    assert_eq!(tokens_of("="), vec![Token::Illegal("=".to_string())]);
    assert_eq!(tokens_of("&"), vec![Token::Illegal("&".to_string())]);
}

#[test]
fn longest_match_wins_over_singles() {
    assert_eq!(tokens_of("=="), vec![Token::Equals]);
    assert_eq!(
        tokens_of("=x"),
        vec![
            Token::Illegal("=".to_string()),
            Token::Identifier("x".to_string()),
        ]
    );
}

#[test]
fn unknown_operator_pair_is_one_illegal_token() {
    assert_eq!(tokens_of("=-"), vec![Token::Illegal("=-".to_string())]);
    assert_eq!(tokens_of("<>"), vec![Token::Illegal("<>".to_string())]);
}

#[test]
fn dot_runs_classify_by_length() {
    assert_eq!(tokens_of("."), vec![Token::Dot]);
    assert_eq!(tokens_of(".."), vec![Token::DotDot]);
    assert_eq!(tokens_of("..."), vec![Token::DotDotDot]);
    assert_eq!(tokens_of("...."), vec![Token::Illegal("....".to_string())]);
    assert_eq!(tokens_of("....."), vec![Token::Illegal(".....".to_string())]);
}

#[test]
fn comment_runs_to_newline_exclusive() {
    assert_eq!(
        tokens_of("// foo!\n* {"),
        vec![
            Token::Comment("// foo!".to_string()),
            Token::Whitespace("\n".to_string()),
            Token::Asterisk,
            Token::Whitespace(" ".to_string()),
            Token::LeftBrace,
        ]
    );
}

#[test]
fn comment_may_end_with_the_input() {
    assert_eq!(tokens_of("//abc"), vec![Token::Comment("//abc".to_string())]);
    assert_eq!(tokens_of("//"), vec![Token::Comment("//".to_string())]);
}

#[test]
fn lone_slash_is_illegal() {
    assert_eq!(tokens_of("/"), vec![Token::Illegal("/".to_string())]);
    assert_eq!(
        tokens_of("/x"),
        vec![
            Token::Illegal("/".to_string()),
            Token::Identifier("x".to_string()),
        ]
    );
}

#[test]
fn punctuation_and_unknown_characters() {
    assert_eq!(tokens_of("{"), vec![Token::LeftBrace]);
    assert_eq!(tokens_of("}"), vec![Token::RightBrace]);
    assert_eq!(tokens_of("^"), vec![Token::Illegal("^".to_string())]);
    assert_eq!(tokens_of("@"), vec![Token::Illegal("@".to_string())]);
}

#[test]
fn whitespace_run_is_one_token() {
    assert_eq!(
        tokens_of(" \t\n "),
        vec![Token::Whitespace(" \t\n ".to_string())]
    );
}

#[test]
fn end_of_input_is_idempotent() {
    let mut sc = Scanner::new("");
    assert_eq!(sc.next(), Token::EndOfInput);
    assert_eq!(sc.next(), Token::EndOfInput);
    assert_eq!(sc.pos(), 0);

    let mut sc = Scanner::new("a");
    assert_eq!(sc.next(), Token::Identifier("a".to_string()));
    assert_eq!(sc.next(), Token::EndOfInput);
    assert_eq!(sc.next(), Token::EndOfInput);
    assert_eq!(sc.pos(), 1);
}

#[test]
fn tokenization_is_lossless() {
    let inputs = [
        "\n  // foo!\n* { abc -> ^.c }",
        "match in asc desc true false",
        "==!=->=>||&&<=>=<>!*|?-",
        "....+..$x//tail",
        "",
    ];
    for input in inputs {
        let mut rebuilt = String::new();
        for t in tokens_of(input) {
            rebuilt.push_str(&text_of(&t));
        }
        assert_eq!(rebuilt, *input);
    }
}

#[test]
fn position_advances_by_span_length() {
    let mut sc = Scanner::new("ab  ...// c");
    let mut expected: u64 = 0;
    loop {
        let before = sc.pos();
        let t = sc.next();
        let after = sc.pos();
        assert!(after >= before);
        assert_eq!(after - before, text_of(&t).chars().count() as u64);
        expected += after - before;
        assert_eq!(after, expected);
        if t == Token::EndOfInput {
            break;
        }
    }
    assert_eq!(sc.pos(), 11);
}

#[test]
fn end_to_end_scenario() {
    assert_eq!(
        tokens_of("\n  // foo!\n* { abc -> ^.c }"),
        vec![
            Token::Whitespace("\n  ".to_string()),
            Token::Comment("// foo!".to_string()),
            Token::Whitespace("\n".to_string()),
            Token::Asterisk,
            Token::Whitespace(" ".to_string()),
            Token::LeftBrace,
            Token::Whitespace(" ".to_string()),
            Token::Identifier("abc".to_string()),
            Token::Whitespace(" ".to_string()),
            Token::Arrow,
            Token::Whitespace(" ".to_string()),
            Token::Illegal("^".to_string()),
            Token::Dot,
            Token::Identifier("c".to_string()),
            Token::Whitespace(" ".to_string()),
            Token::RightBrace,
        ]
    );
}
