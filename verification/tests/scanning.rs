use complox::scanner::Scanner;
use complox::scanner::TokenType;

fn scan_all(source: &str) -> Vec<Result<complox::scanner::Token, complox::error::Error>> {
    let mut s = Scanner::new(source);
    let mut out = Vec::new();
    while let Some(item) = s.next_token() {
        out.push(item);
    }
    out
}

#[test]
fn comment_then_number() {
    // Scanning "// comment\n123" yields exactly one token: a number
    // token with lexeme "123" on line 2.
    let toks = scan_all("// comment\n123");
    assert_eq!(toks.len(), 1);
    let t = toks[0].as_ref().unwrap();
    assert_eq!(t.id, TokenType::Number);
    assert_eq!(t.lexeme, "123");
    assert_eq!(t.line, 2);
}

#[test]
fn unterminated_string_cites_starting_line() {
    let toks = scan_all("\"abc");
    assert_eq!(toks.len(), 1);
    let e = toks[0].as_ref().unwrap_err();
    assert_eq!(e.render(), "[line 1] Error : Unterminated string");
}

#[test]
fn unterminated_multiline_string_still_cites_starting_line() {
    // the string runs over a newline before the input ends: the
    // diagnostic cites the line scanning began on, not where it ended
    let toks = scan_all("\"a\nb");
    assert_eq!(toks.len(), 1);
    let e = toks[0].as_ref().unwrap_err();
    assert_eq!(e.render(), "[line 1] Error : Unterminated string");
}

#[test]
fn single_character_tokens() {
    let toks = scan_all("(){},.-+;*");
    let kinds: Vec<TokenType> = toks.iter().map(|r| r.as_ref().unwrap().id).collect();
    assert_eq!(
        kinds,
        vec![
            TokenType::LeftParen,
            TokenType::RightParen,
            TokenType::LeftBrace,
            TokenType::RightBrace,
            TokenType::Comma,
            TokenType::Dot,
            TokenType::Minus,
            TokenType::Plus,
            TokenType::Semicolon,
            TokenType::Star,
        ]
    );
}

#[test]
fn one_or_two_character_operators() {
    let toks = scan_all("! != = == < <= > >= /");
    let kinds: Vec<TokenType> = toks.iter().map(|r| r.as_ref().unwrap().id).collect();
    assert_eq!(
        kinds,
        vec![
            TokenType::Bang,
            TokenType::BangEqual,
            TokenType::Equal,
            TokenType::EqualEqual,
            TokenType::Less,
            TokenType::LessEqual,
            TokenType::Greater,
            TokenType::GreaterEqual,
            TokenType::Slash,
        ]
    );
}

#[test]
fn string_token_keeps_quotes_and_counts_lines() {
    let toks = scan_all("\"a\nb\" 9");
    assert_eq!(toks.len(), 2);
    let s = toks[0].as_ref().unwrap();
    assert_eq!(s.id, TokenType::Str);
    assert_eq!(s.lexeme, "\"a\nb\"");
    // the line counter advanced over the embedded newline
    assert_eq!(s.line, 2);
    let n = toks[1].as_ref().unwrap();
    assert_eq!(n.id, TokenType::Number);
    assert_eq!(n.line, 2);
}

#[test]
fn fractional_number_is_one_token() {
    let toks = scan_all("45.67");
    assert_eq!(toks.len(), 1);
    let t = toks[0].as_ref().unwrap();
    assert_eq!(t.id, TokenType::Number);
    assert_eq!(t.lexeme, "45.67");
}

#[test]
fn trailing_dot_is_a_separate_token() {
    // "1." scans as the number "1" followed by a dot token: the dot only
    // joins the number when a digit follows it.
    let toks = scan_all("1.");
    assert_eq!(toks.len(), 2);
    assert_eq!(toks[0].as_ref().unwrap().id, TokenType::Number);
    assert_eq!(toks[0].as_ref().unwrap().lexeme, "1");
    assert_eq!(toks[1].as_ref().unwrap().id, TokenType::Dot);
}

#[test]
fn keywords_and_identifiers() {
    let toks = scan_all("and class else false for fun if nil or print return super this true var while foo");
    let kinds: Vec<TokenType> = toks.iter().map(|r| r.as_ref().unwrap().id).collect();
    assert_eq!(
        kinds,
        vec![
            TokenType::And,
            TokenType::Class,
            TokenType::Else,
            TokenType::False,
            TokenType::For,
            TokenType::Fun,
            TokenType::If,
            TokenType::Nil,
            TokenType::Or,
            TokenType::Print,
            TokenType::Return,
            TokenType::Super,
            TokenType::This,
            TokenType::True,
            TokenType::Var,
            TokenType::While,
            TokenType::Identifier,
        ]
    );
}

#[test]
fn keyword_matching_is_case_sensitive() {
    let toks = scan_all("True");
    assert_eq!(toks[0].as_ref().unwrap().id, TokenType::Identifier);
}

#[test]
fn unexpected_character_is_an_error() {
    let toks = scan_all("@");
    assert_eq!(toks.len(), 1);
    let e = toks[0].as_ref().unwrap_err();
    assert_eq!(e.render(), "[line 1] Error : Unexpected token: @ ");
}

#[test]
fn newlines_advance_the_line_counter() {
    let toks = scan_all("1\n2\r\n 3");
    let lines: Vec<usize> = toks.iter().map(|r| r.as_ref().unwrap().line).collect();
    assert_eq!(lines, vec![1, 2, 3]);
}

#[test]
fn comment_runs_to_end_of_input() {
    let toks = scan_all("7 // the rest is comment");
    assert_eq!(toks.len(), 1);
    assert_eq!(toks[0].as_ref().unwrap().lexeme, "7");
}

#[test]
fn empty_input_yields_no_tokens() {
    assert_eq!(scan_all("").len(), 0);
    assert_eq!(scan_all("   \n\t ").len(), 0);
}

#[test]
fn scan_errors_do_not_poison_the_scanner() {
    // each pull is independent except for cursor advancement
    let toks = scan_all("@ 5");
    assert_eq!(toks.len(), 2);
    assert!(toks[0].is_err());
    let t = toks[1].as_ref().unwrap();
    assert_eq!(t.id, TokenType::Number);
    assert_eq!(t.lexeme, "5");
}

#[test]
fn is_at_end_and_advance() {
    let mut s = Scanner::new("ab");
    assert!(!s.is_at_end());
    assert_eq!(s.advance(), Some('a'));
    assert_eq!(s.advance(), Some('b'));
    assert!(s.is_at_end());
    assert_eq!(s.advance(), None);
}

#[test]
fn make_token_captures_the_current_lexeme() {
    let mut s = Scanner::new("ab");
    s.advance();
    s.advance();
    let t = s.make_token(TokenType::Identifier);
    assert_eq!(t.lexeme, "ab");
    assert_eq!(t.line, 1);
}

#[test]
fn pos_tracks_start_and_current() {
    let mut p = complox::scanner::Pos::new();
    assert_eq!(p.cur_pos(), 0);
    assert_eq!(p.cur_lexm(), (0, 0));
    p.sync();
    assert_eq!(p.cur_lexm(), (0, 0));
}

#[test]
fn peek_does_not_consume() {
    let mut s = Scanner::new("1 2");
    let first = s.peek_token().unwrap().unwrap();
    let again = s.next_token().unwrap().unwrap();
    assert_eq!(first.lexeme, again.lexeme);
    assert_eq!(first.id, TokenType::Number);
    let second = s.next_token().unwrap().unwrap();
    assert_eq!(second.lexeme, "2");
}
