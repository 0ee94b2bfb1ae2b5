use pmxview::tokenizer::{tokenize_source, LexError, Lexar, Token};

fn tok(kind: &str, value: &str) -> Token {
    Token { kind: kind.to_string(), value: value.to_string() }
}

fn lex_all(text: &str) -> Result<Vec<Option<Token>>, LexError> {
    Lexar::new(text.to_string()).tokenize()
}

fn pairs(tokens: &[Option<Token>]) -> Vec<(String, String)> {
    tokens
        .iter()
        .map(|t| {
            let t = t.as_ref().expect("tokenize returns only present tokens");
            (t.kind.clone(), t.value.clone())
        })
        .collect()
}

fn p(kind: &str, value: &str) -> (String, String) {
    (kind.to_string(), value.to_string())
}

#[test]
fn empty_text_has_no_tokens() {
    assert_eq!(pairs(&lex_all("").unwrap()), vec![]);
    assert_eq!(pairs(&lex_all("  \t\n ").unwrap()), vec![]);
}

#[test]
fn words_and_digits() {
    assert_eq!(pairs(&lex_all("abc1 def").unwrap()), vec![p("word", "abc1"), p("word", "def")]);
    assert_eq!(pairs(&lex_all("a\tb\nc").unwrap()), vec![p("word", "a"), p("word", "b"), p("word", "c")]);
}

#[test]
fn operator_consumes_the_following_character() {
    // after `+` the next character is consumed; `b` is not an operator, so
    // the value is the operator and a space, and `b` is lost
    assert_eq!(pairs(&lex_all("a+b").unwrap()), vec![p("word", "a"), p("OP", "+ ")]);
}

#[test]
fn operator_followed_by_operator_peeks_the_third_character() {
    assert_eq!(
        pairs(&lex_all("x += 1 ").unwrap()),
        vec![p("word", "x"), p("OP", "+ "), p("num", "1")]
    );
    assert_eq!(pairs(&lex_all("==q").unwrap()), vec![p("OP", "=q"), p("word", "q")]);
}

#[test]
fn number_tokens() {
    assert_eq!(pairs(&lex_all("1").unwrap()), vec![p("num", "1")]);
    assert_eq!(pairs(&lex_all("42 ").unwrap()), vec![p("num", "42")]);
    // after a single digit the `e` is not looked at: it starts a word
    assert_eq!(pairs(&lex_all("7e ").unwrap()), vec![p("num", "7"), p("word", "e")]);
    // after a second digit the `e` is appended but not consumed
    assert_eq!(pairs(&lex_all("12e ").unwrap()), vec![p("num", "12e"), p("word", "e")]);
}

#[test]
fn number_keeps_dot_after_a_second_digit() {
    let mut lexer = Lexar::new("12.5 ".to_string());
    let first = lexer.next_token().unwrap().unwrap();
    assert_eq!(first, tok("num", "12."));
    assert_eq!(lexer.next_token().unwrap_err(), LexError::NotATokenCharacter);
}

#[test]
fn number_at_end_of_text_runs_out() {
    assert_eq!(lex_all("12").unwrap_err(), LexError::NoMoreCharacter);
    assert_eq!(lex_all("+").unwrap_err(), LexError::NoMoreCharacter);
    assert_eq!(lex_all("a +=").unwrap_err(), LexError::NoMoreCharacter);
}

#[test]
fn unknown_character_is_an_error() {
    assert_eq!(lex_all("#").unwrap_err(), LexError::NotATokenCharacter);
    assert_eq!(lex_all("a ;").unwrap_err(), LexError::NotATokenCharacter);
}

#[test]
fn next_token_walks_the_text() {
    let mut lexer = Lexar::new("foo 3 ".to_string());
    assert_eq!(lexer.next_token().unwrap().unwrap(), tok("word", "foo"));
    assert_eq!(lexer.next_token().unwrap().unwrap(), tok("num", "3"));
    assert!(lexer.next_token().unwrap().is_none());
}

#[test]
fn finished_lexer_is_exhausted() {
    let mut lexer = Lexar::new("a b c".to_string());
    assert_eq!(lexer.tokenize().unwrap().len(), 3);
    assert!(lexer.next_token().unwrap().is_none());
    assert!(lexer.tokenize().unwrap().is_empty());
}

#[test]
fn tokenize_collects_next_token_results() {
    let text = "w = 5 ";
    let mut one = Lexar::new(text.to_string());
    let mut collected = Vec::new();
    while let Some(t) = one.next_token().unwrap() {
        collected.push(Some(t));
    }
    let all = lex_all(text).unwrap();
    assert_eq!(pairs(&collected), pairs(&all));
}

#[test]
fn token_to_string() {
    assert_eq!(tok("word", "abc").to_string(), "kind: word,\t value: abc");
}

#[test]
fn token_equality() {
    assert!(tok("OP", "+ ") == tok("OP", "+ "));
    assert!(tok("OP", "+ ") != tok("OP", "- "));
    assert!(tok("num", "1") != tok("word", "1"));
}

#[test]
fn error_messages() {
    assert_eq!(LexError::NoMoreCharacter.message(), "No more character");
    assert_eq!(LexError::NotATokenCharacter.message(), "Not a character for tokens");
}

#[test]
fn source_that_reads_a_missing_character_gives_none() {
    assert!(tokenize_source("caf\u{e9}".to_string()).is_none());
    assert!(tokenize_source("a \u{e9}".to_string()).is_none());
    let r = tokenize_source("a b".to_string()).unwrap().unwrap();
    assert_eq!(pairs(&r), vec![p("word", "a"), p("word", "b")]);
}

#[test]
fn source_with_an_error_before_the_missing_character_reports_it() {
    assert_eq!(tokenize_source("; \u{e9}".to_string()).unwrap().unwrap_err(), LexError::NotATokenCharacter);
    assert_eq!(tokenize_source("a . \u{e9}".to_string()).unwrap().unwrap_err(), LexError::NotATokenCharacter);
}

#[test]
fn joining_texts_with_a_space_joins_their_tokens() {
    let cases = [("a+b", "c 12 "), ("x", ""), ("", "y"), ("7", "q7 = 3 "), ("ab 1", "*= z")];
    for (a, b) in cases {
        let ta = lex_all(a).unwrap();
        let tb = lex_all(b).unwrap();
        let joined = lex_all(&format!("{} {}", a, b)).unwrap();
        let mut expected = pairs(&ta);
        expected.extend(pairs(&tb));
        assert_eq!(pairs(&joined), expected);
    }
}

#[test]
fn every_token_has_the_shape_of_its_kind() {
    let all = lex_all("alpha = beta2 * 31 + 7 - x9 12e 45 ").unwrap();
    for t in all {
        let t = t.unwrap();
        let chars: Vec<char> = t.value.chars().collect();
        match t.kind.as_str() {
            "OP" => {
                assert_eq!(chars.len(), 2);
                assert!("+-*/=".contains(chars[0]));
            }
            "num" => {
                let (last, init) = chars.split_last().unwrap();
                assert!(chars[0].is_ascii_digit());
                assert!(init.iter().all(|c| c.is_ascii_digit()));
                assert!(last.is_ascii_digit() || ((*last == 'e' || *last == '.') && chars.len() >= 3));
            }
            "word" => {
                assert!(chars[0].is_alphabetic());
                assert!(chars.iter().all(|c| c.is_alphanumeric()));
            }
            other => panic!("unexpected kind {}", other),
        }
    }
}

#[test]
fn position_and_checked_steps() {
    let mut lexer = Lexar::new("ab 12 ".to_string());
    assert_eq!(lexer.position(), 0);
    assert_eq!(lexer.try_next_token().unwrap().unwrap().unwrap(), tok("word", "ab"));
    assert_eq!(lexer.position(), 2);
    assert_eq!(lexer.try_next_token().unwrap().unwrap().unwrap(), tok("num", "12"));
    assert!(lexer.try_next_token().unwrap().unwrap().is_none());
    assert_eq!(lexer.position(), 6);
    let mut odd = Lexar::new("x \u{e9}".to_string());
    assert_eq!(odd.try_next_token().unwrap().unwrap().unwrap(), tok("word", "x"));
    assert!(odd.try_next_token().is_none());
    let mut bad = Lexar::new("; \u{e9}".to_string());
    assert_eq!(bad.try_next_token().unwrap().unwrap_err(), LexError::NotATokenCharacter);
}

#[test]
fn every_ascii_white_space_separates() {
    assert_eq!(
        pairs(&lex_all("a\tb\nc\u{b}d\u{c}e\rf g").unwrap()),
        vec![p("word", "a"), p("word", "b"), p("word", "c"), p("word", "d"), p("word", "e"), p("word", "f"), p("word", "g")]
    );
}
