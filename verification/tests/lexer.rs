use boolscan::lexer::{LexError, Lexer, Token};

#[test]
fn test_lexer() {
    let input = "|(!(&(|(f))),f)";
    let mut lexer = Lexer::new(input);

    let tokens = vec![
        Token::OR,
        Token::LPAREN,
        Token::NOT,
        Token::LPAREN,
        Token::AND,
        Token::LPAREN,
        Token::OR,
        Token::LPAREN,
        Token::FALSE,
        Token::RPAREN,
        Token::RPAREN,
        Token::RPAREN,
        Token::COMMA,
        Token::FALSE,
        Token::RPAREN,
        Token::EOF,
    ];

    for token in tokens {
        let next_token = lexer.next_token();
        println!("expected: {:?}, received {:?}", token, next_token);
        assert_eq!(token, next_token);
    }
}

#[test]
fn single_true_then_eof() {
    let mut lexer = Lexer::new("t");
    assert_eq!(lexer.next_token(), Token::TRUE);
    assert_eq!(lexer.next_token(), Token::EOF);
}

#[test]
fn empty_input_yields_eof_repeatedly() {
    let mut lexer = Lexer::new("");
    assert_eq!(lexer.next_token(), Token::EOF);
    assert_eq!(lexer.next_token(), Token::EOF);
    assert_eq!(lexer.next_token(), Token::EOF);
    assert_eq!(lexer.next_token(), Token::EOF);
}

#[test]
fn conjunction_of_literals() {
    let mut lexer = Lexer::new("t&f");
    assert_eq!(lexer.next_token(), Token::TRUE);
    assert_eq!(lexer.next_token(), Token::AND);
    assert_eq!(lexer.next_token(), Token::FALSE);
    assert_eq!(lexer.next_token(), Token::EOF);
}

#[test]
fn space_is_reported_with_position() {
    let mut lexer = Lexer::new("t x");
    assert_eq!(lexer.try_next_token(), Ok(Token::TRUE));
    assert_eq!(
        lexer.try_next_token(),
        Err(LexError { ch: ' ', position: 1 })
    );
}

#[test]
fn digit_is_reported_with_position() {
    let mut lexer = Lexer::new("(t,9)");
    assert_eq!(lexer.try_next_token(), Ok(Token::LPAREN));
    assert_eq!(lexer.try_next_token(), Ok(Token::TRUE));
    assert_eq!(lexer.try_next_token(), Ok(Token::COMMA));
    assert_eq!(
        lexer.try_next_token(),
        Err(LexError { ch: '9', position: 3 })
    );
    // The cursor did not move: the same report comes again.
    assert_eq!(
        lexer.try_next_token(),
        Err(LexError { ch: '9', position: 3 })
    );
}

#[test]
fn illegal_letter_at_start() {
    let mut lexer = Lexer::new("x");
    assert_eq!(
        lexer.try_next_token(),
        Err(LexError { ch: 'x', position: 0 })
    );
}

#[test]
fn one_token_per_character() {
    let input = "t,f,!,|,&,(,)";
    let mut lexer = Lexer::new(input);
    let mut count: usize = 0;
    loop {
        let token = lexer.next_token();
        if token == Token::EOF {
            break;
        }
        count += 1;
    }
    assert_eq!(count, input.chars().count());
}

#[test]
fn eof_is_idempotent_after_exhaustion() {
    let mut lexer = Lexer::new("!f");
    assert_eq!(lexer.next_token(), Token::NOT);
    assert_eq!(lexer.next_token(), Token::FALSE);
    assert_eq!(lexer.next_token(), Token::EOF);
    for _ in 0..5 {
        assert_eq!(lexer.next_token(), Token::EOF);
    }
}

#[test]
fn alphabet_maps_per_table() {
    let cases = vec![
        ('t', Token::TRUE),
        ('f', Token::FALSE),
        ('!', Token::NOT),
        ('|', Token::OR),
        ('&', Token::AND),
        ('(', Token::LPAREN),
        (')', Token::RPAREN),
        (',', Token::COMMA),
    ];
    for (ch, expected) in cases {
        let text = ch.to_string();
        let mut lexer = Lexer::new(&text);
        assert_eq!(lexer.next_token(), expected);
        assert_eq!(lexer.next_token(), Token::EOF);
    }
}

#[test]
fn display_names_match_exactly() {
    assert_eq!(Token::ILLEGAL.name(), "ILLEGAL");
    assert_eq!(Token::EOF.name(), "EOF");
    assert_eq!(Token::TRUE.name(), "TRUE");
    assert_eq!(Token::FALSE.name(), "FALSE");
    assert_eq!(Token::NOT.name(), "NOT");
    assert_eq!(Token::OR.name(), "OR");
    assert_eq!(Token::AND.name(), "AND");
    assert_eq!(Token::LPAREN.name(), "LPAREN");
    assert_eq!(Token::RPAREN.name(), "RPAREN");
    assert_eq!(Token::COMMA.name(), "COMMA");
}

#[test]
fn try_next_token_agrees_on_legal_input() {
    let mut lexer = Lexer::new("|()");
    assert_eq!(lexer.try_next_token(), Ok(Token::OR));
    assert_eq!(lexer.try_next_token(), Ok(Token::LPAREN));
    assert_eq!(lexer.try_next_token(), Ok(Token::RPAREN));
    assert_eq!(lexer.try_next_token(), Ok(Token::EOF));
    assert_eq!(lexer.try_next_token(), Ok(Token::EOF));
}

#[test]
fn read_char_advances_cursor() {
    let mut lexer = Lexer::new("tf");
    assert_eq!(lexer.position, 0);
    assert_eq!(lexer.ch, 't');
    lexer.read_char();
    assert_eq!(lexer.position, 1);
    assert_eq!(lexer.ch, 'f');
    lexer.read_char();
    assert_eq!(lexer.position, 2);
    assert_eq!(lexer.ch, '\0');
}

#[test]
fn new_on_empty_input_is_primed_with_sentinel() {
    let lexer = Lexer::new("");
    assert_eq!(lexer.position, 0);
    assert_eq!(lexer.ch, '\0');
}
