use kadena_signer::argbuf::{ArgsOut, KadenaCapabilityArgsInterp};
use kadena_signer::base::StepOutcome;
use kadena_signer::capability::{classify_capability, u32_dec};
use kadena_signer::coverage::CapCountData;
use kadena_signer::token::Token;

fn parse_args(items: Vec<Token>) -> Option<ArgsOut> {
    let mut toks = vec![Token::BeginArray];
    for (i, t) in items.into_iter().enumerate() {
        if i > 0 {
            toks.push(Token::ValueSeparator);
        }
        toks.push(t);
    }
    toks.push(Token::EndArray);
    let mut state = KadenaCapabilityArgsInterp::init();
    let mut dest = None;
    for t in &toks {
        match KadenaCapabilityArgsInterp::parse(&mut state, t, &mut dest) {
            StepOutcome::NeedMoreInput => {}
            StepOutcome::Done => return dest,
            StepOutcome::Fatal => panic!("argument parse failed"),
        }
    }
    panic!("argument parse incomplete");
}

fn fresh_tally() -> CapCountData {
    CapCountData::zero()
}

#[test]
fn gas_with_no_args_is_safely_scoped() {
    let args = parse_args(vec![]);
    let (contribution, safe, title, body) =
        classify_capability(&b"coin.GAS".to_vec(), &args, &fresh_tally());
    assert_eq!(contribution, CapCountData::zero());
    assert!(safe);
    assert_eq!(title, b"Paying Gas".to_vec());
    assert_eq!(body, b" ".to_vec());
}

#[test]
fn gas_with_an_arg_is_unknown() {
    let args = parse_args(vec![Token::Num(b"1".to_vec())]);
    let (contribution, safe, title, _) =
        classify_capability(&b"coin.GAS".to_vec(), &args, &fresh_tally());
    assert_eq!(contribution, CapCountData::IsUnknownCap);
    assert!(!safe);
    assert_eq!(title, b"Unknown Capability 1".to_vec());
}

#[test]
fn rotate_with_one_arg_is_safely_scoped() {
    let args = parse_args(vec![Token::Str(b"k:alice".to_vec())]);
    let (contribution, safe, title, body) =
        classify_capability(&b"coin.ROTATE".to_vec(), &args, &fresh_tally());
    assert_eq!(contribution, CapCountData::zero());
    assert!(safe);
    assert_eq!(title, b"Rotate for account".to_vec());
    assert_eq!(body, b"k:alice".to_vec());
}

#[test]
fn transfer_with_three_args_shows_the_transfer() {
    let args = parse_args(vec![
        Token::Str(b"k:alice".to_vec()),
        Token::Str(b"k:bob".to_vec()),
        Token::Num(b"2.5".to_vec()),
    ]);
    let (contribution, safe, title, body) =
        classify_capability(&b"coin.TRANSFER".to_vec(), &args, &fresh_tally());
    assert_eq!(contribution, CapCountData::IsTransfer);
    assert!(safe);
    assert_eq!(title, b"Transfer 1".to_vec());
    assert_eq!(body, b"2.5 from k:alice to k:bob".to_vec());
}

#[test]
fn transfer_ordinal_follows_the_tally() {
    let args = parse_args(vec![
        Token::Str(b"a".to_vec()),
        Token::Str(b"b".to_vec()),
        Token::Num(b"1".to_vec()),
    ]);
    let tally = CapCountData::CapCount { total_caps: 4, total_transfers: 2, total_unknown: 1 };
    let (_, _, title, _) = classify_capability(&b"coin.TRANSFER".to_vec(), &args, &tally);
    assert_eq!(title, b"Transfer 3".to_vec());
}

#[test]
fn transfer_with_wrong_arity_is_unknown() {
    let args = parse_args(vec![Token::Str(b"a".to_vec()), Token::Str(b"b".to_vec())]);
    let (contribution, safe, title, body) =
        classify_capability(&b"coin.TRANSFER".to_vec(), &args, &fresh_tally());
    assert_eq!(contribution, CapCountData::IsUnknownCap);
    assert!(!safe);
    assert_eq!(title, b"Unknown Capability 1".to_vec());
    assert_eq!(body, b"name: coin.TRANSFER, arg 1: a, arg 2: b".to_vec());
}

#[test]
fn cross_chain_transfer_with_four_args() {
    let args = parse_args(vec![
        Token::Str(b"k:alice".to_vec()),
        Token::Str(b"k:bob".to_vec()),
        Token::Num(b"2.5".to_vec()),
        Token::Str(b"3".to_vec()),
    ]);
    let (contribution, safe, title, body) =
        classify_capability(&b"coin.TRANSFER_XCHAIN".to_vec(), &args, &fresh_tally());
    assert_eq!(contribution, CapCountData::IsTransfer);
    assert!(safe);
    assert_eq!(title, b"Transfer 1".to_vec());
    assert_eq!(body, b"Cross-chain 2.5 from k:alice to k:bob to chain 3".to_vec());
}

#[test]
fn unknown_name_lists_the_args() {
    let args = parse_args(vec![Token::Num(b"7".to_vec())]);
    let (contribution, safe, title, body) =
        classify_capability(&b"free.mine".to_vec(), &args, &fresh_tally());
    assert_eq!(contribution, CapCountData::IsUnknownCap);
    assert!(!safe);
    assert_eq!(title, b"Unknown Capability 1".to_vec());
    assert_eq!(body, b"name: free.mine, arg 1: 7".to_vec());
}

#[test]
fn undisplayable_args_say_so() {
    let args = parse_args(vec![Token::Str(vec![b'x'; 200])]);
    assert!(args.is_none());
    let tally = CapCountData::CapCount { total_caps: 2, total_transfers: 0, total_unknown: 2 };
    let (contribution, safe, title, body) =
        classify_capability(&b"coin.GAS".to_vec(), &args, &tally);
    assert_eq!(contribution, CapCountData::IsUnknownCap);
    assert!(!safe);
    assert_eq!(title, b"Unknown Capability 3".to_vec());
    assert_eq!(body, b"name: coin.GAS, args cannot be displayed".to_vec());
}

#[test]
fn decimal_rendering_is_exact() {
    assert_eq!(u32_dec(0), b"0".to_vec());
    assert_eq!(u32_dec(7), b"7".to_vec());
    assert_eq!(u32_dec(10), b"10".to_vec());
    assert_eq!(u32_dec(65536), b"65536".to_vec());
    assert_eq!(u32_dec(4294967295), b"4294967295".to_vec());
}
