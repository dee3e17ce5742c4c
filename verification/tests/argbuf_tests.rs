use kadena_signer::argbuf::{args_nth, ArgsOut, KadenaCapabilityArgsInterp};
use kadena_signer::base::StepOutcome;
use kadena_signer::token::Token;

fn run(tokens: Vec<Token>) -> (StepOutcome, Option<ArgsOut>) {
    let mut state = KadenaCapabilityArgsInterp::init();
    let mut dest = None;
    for t in &tokens {
        let r = KadenaCapabilityArgsInterp::parse(&mut state, t, &mut dest);
        match r {
            StepOutcome::NeedMoreInput => {}
            _ => return (r, dest),
        }
    }
    (StepOutcome::NeedMoreInput, dest)
}

#[test]
fn empty_array_yields_zero_arguments() {
    let (r, dest) = run(vec![Token::BeginArray, Token::EndArray]);
    assert_eq!(r, StepOutcome::Done);
    let out = dest.expect("zero arguments are displayable");
    assert_eq!(out.count, 0);
    assert!(out.buf.is_empty());
}

#[test]
fn two_strings_pack_back_to_back() {
    let (r, dest) = run(vec![
        Token::BeginArray,
        Token::Str(b"k:alice".to_vec()),
        Token::ValueSeparator,
        Token::Str(b"k:bob".to_vec()),
        Token::EndArray,
    ]);
    assert_eq!(r, StepOutcome::Done);
    let out = dest.expect("both arguments fit");
    assert_eq!(out.count, 2);
    assert_eq!(out.buf, b"k:alicek:bob".to_vec());
    assert_eq!(out.ends[0], 7);
    assert_eq!(args_nth(&out, 0), b"k:alice".to_vec());
    assert_eq!(args_nth(&out, 1), b"k:bob".to_vec());
}

#[test]
fn round_trip_reproduces_each_argument() {
    let (r, dest) = run(vec![
        Token::BeginArray,
        Token::Str(b"k:alice".to_vec()),
        Token::ValueSeparator,
        Token::Str(b"k:bob".to_vec()),
        Token::ValueSeparator,
        Token::Num(b"12.0".to_vec()),
        Token::EndArray,
    ]);
    assert_eq!(r, StepOutcome::Done);
    let out = dest.expect("all three arguments fit");
    assert_eq!(out.count, 3);
    assert_eq!(args_nth(&out, 0), b"k:alice".to_vec());
    assert_eq!(args_nth(&out, 1), b"k:bob".to_vec());
    assert_eq!(args_nth(&out, 2), b"12.0".to_vec());
}

#[test]
fn nested_value_renders_as_json_text() {
    let (r, dest) = run(vec![
        Token::BeginArray,
        Token::BeginObject,
        Token::Str(b"n".to_vec()),
        Token::NameSeparator,
        Token::Num(b"1".to_vec()),
        Token::EndObject,
        Token::ValueSeparator,
        Token::Str(b"x".to_vec()),
        Token::EndArray,
    ]);
    assert_eq!(r, StepOutcome::Done);
    let out = dest.expect("both arguments fit");
    assert_eq!(out.count, 2);
    assert_eq!(args_nth(&out, 0), b"{\"n\":1}".to_vec());
    assert_eq!(args_nth(&out, 1), b"x".to_vec());
}

#[test]
fn oversized_argument_discards_the_whole_list() {
    let big = vec![b'a'; 200];
    let (r, dest) = run(vec![
        Token::BeginArray,
        Token::Str(b"small".to_vec()),
        Token::ValueSeparator,
        Token::Str(big),
        Token::EndArray,
    ]);
    assert_eq!(r, StepOutcome::Done);
    assert!(dest.is_none(), "an overflowing list must degrade whole, never truncate");
}

#[test]
fn too_many_arguments_discard_the_whole_list() {
    let mut toks = vec![Token::BeginArray];
    for i in 0..6 {
        if i > 0 {
            toks.push(Token::ValueSeparator);
        }
        toks.push(Token::Num(vec![b'0' + i]));
    }
    toks.push(Token::EndArray);
    let (r, dest) = run(toks);
    assert_eq!(r, StepOutcome::Done);
    assert!(dest.is_none(), "a sixth argument exceeds the index table");
}

#[test]
fn five_arguments_still_fit() {
    let mut toks = vec![Token::BeginArray];
    for i in 0..5 {
        if i > 0 {
            toks.push(Token::ValueSeparator);
        }
        toks.push(Token::Num(vec![b'0' + i]));
    }
    toks.push(Token::EndArray);
    let (r, dest) = run(toks);
    assert_eq!(r, StepOutcome::Done);
    let out = dest.expect("five arguments are the limit");
    assert_eq!(out.count, 5);
    for i in 0..5usize {
        assert_eq!(args_nth(&out, i), vec![b'0' + i as u8]);
    }
}

#[test]
fn overflow_keeps_validating_syntax() {
    let big = vec![b'a'; 200];
    let (r, _) = run(vec![
        Token::BeginArray,
        Token::Str(big),
        Token::ValueSeparator,
        Token::EndObject,
    ]);
    assert_eq!(r, StepOutcome::Fatal, "a structural error stays fatal after overflow");
}

#[test]
fn wrong_opening_token_is_fatal() {
    let (r, _) = run(vec![Token::BeginObject]);
    assert_eq!(r, StepOutcome::Fatal);
}
