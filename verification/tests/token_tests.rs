use kadena_signer::token::{tok_flush, tok_step, TokState, Token};

fn tokenize(bytes: &[u8]) -> Vec<Token> {
    let mut state = TokState::Ready;
    let mut out = Vec::new();
    for &b in bytes {
        assert!(tok_step(&mut state, b, &mut out), "lexing failed at byte {}", b);
    }
    assert!(tok_flush(&mut state, &mut out), "flush failed");
    out
}

#[test]
fn punctuation_and_literals_tokenize() {
    let toks = tokenize(b"{\"a\":[true,false,null]}");
    assert_eq!(toks.len(), 11);
    assert!(matches!(toks[0], Token::BeginObject));
    match &toks[1] {
        Token::Str(s) => assert_eq!(s, &b"a".to_vec()),
        _ => panic!("expected a string token"),
    }
    assert!(matches!(toks[2], Token::NameSeparator));
    assert!(matches!(toks[3], Token::BeginArray));
    assert!(matches!(toks[4], Token::True));
    assert!(matches!(toks[6], Token::False));
    assert!(matches!(toks[8], Token::Null));
    assert!(matches!(toks[9], Token::EndArray));
    assert!(matches!(toks[10], Token::EndObject));
}

#[test]
fn string_escapes_are_kept_verbatim() {
    let toks = tokenize(b"\"a\\\"b\"");
    assert_eq!(toks.len(), 1);
    match &toks[0] {
        Token::Str(s) => assert_eq!(s, &b"a\\\"b".to_vec()),
        _ => panic!("expected a string token"),
    }
}

#[test]
fn number_is_flushed_at_end_of_input() {
    let toks = tokenize(b"1.5e-7");
    assert_eq!(toks.len(), 1);
    match &toks[0] {
        Token::Num(s) => assert_eq!(s, &b"1.5e-7".to_vec()),
        _ => panic!("expected a number token"),
    }
}

#[test]
fn number_and_delimiter_emit_together() {
    let toks = tokenize(b"[12,3]");
    assert_eq!(toks.len(), 5);
    match &toks[1] {
        Token::Num(s) => assert_eq!(s, &b"12".to_vec()),
        _ => panic!("expected a number token"),
    }
    assert!(matches!(toks[2], Token::ValueSeparator));
}

#[test]
fn stray_byte_is_a_lexical_error() {
    let mut state = TokState::Ready;
    let mut out = Vec::new();
    assert!(!tok_step(&mut state, b'@', &mut out));
}

#[test]
fn unterminated_string_fails_to_flush() {
    let mut state = TokState::Ready;
    let mut out = Vec::new();
    for &b in b"\"abc" {
        assert!(tok_step(&mut state, b, &mut out));
    }
    assert!(!tok_flush(&mut state, &mut out));
}
