use kadena_signer::base::{Interaction, Prompter, StepOutcome};
use kadena_signer::clist::{CapParser, ClistFold, ClistPhase};
use kadena_signer::coverage::CapCountData;
use kadena_signer::token::Token;

fn cap_tokens(name: &[u8], args: Vec<Token>) -> Vec<Token> {
    let mut toks = vec![
        Token::BeginObject,
        Token::Str(b"args".to_vec()),
        Token::NameSeparator,
        Token::BeginArray,
    ];
    for (i, t) in args.into_iter().enumerate() {
        if i > 0 {
            toks.push(Token::ValueSeparator);
        }
        toks.push(t);
    }
    toks.push(Token::EndArray);
    toks.push(Token::ValueSeparator);
    toks.push(Token::Str(b"name".to_vec()));
    toks.push(Token::NameSeparator);
    toks.push(Token::Str(name.to_vec()));
    toks.push(Token::EndObject);
    toks
}

fn feed_cap(toks: &[Token]) -> (StepOutcome, CapParser) {
    let mut c = CapParser::new();
    for t in toks {
        match c.step(t) {
            StepOutcome::NeedMoreInput => {}
            r => return (r, c),
        }
    }
    (StepOutcome::NeedMoreInput, c)
}

#[test]
fn capability_object_parses_name_and_args() {
    let toks = cap_tokens(b"coin.GAS", vec![]);
    let (r, c) = feed_cap(&toks);
    assert_eq!(r, StepOutcome::Done);
    assert_eq!(c.name, b"coin.GAS".to_vec());
    assert_eq!(c.args_dest.unwrap().count, 0);
}

#[test]
fn wrong_field_name_is_fatal() {
    let toks = vec![Token::BeginObject, Token::Str(b"caps".to_vec())];
    let (r, _) = feed_cap(&toks);
    assert_eq!(r, StepOutcome::Fatal);
}

#[test]
fn name_at_the_length_limit_is_accepted() {
    let long = vec![b'n'; 128];
    let toks = cap_tokens(&long, vec![]);
    let (r, c) = feed_cap(&toks);
    assert_eq!(r, StepOutcome::Done);
    assert_eq!(c.name.len(), 128);
}

#[test]
fn name_over_the_length_limit_is_fatal() {
    let long = vec![b'n'; 129];
    let toks = cap_tokens(&long, vec![]);
    let (r, _) = feed_cap(&toks);
    assert_eq!(r, StepOutcome::Fatal);
}

fn run_fold(caps: Vec<Vec<Token>>, prompter: &mut Prompter) -> ClistFold {
    let mut fold = ClistFold::new();
    let mut toks = vec![Token::BeginArray];
    for (i, c) in caps.into_iter().enumerate() {
        if i > 0 {
            toks.push(Token::ValueSeparator);
        }
        toks.extend(c);
    }
    toks.push(Token::EndArray);
    for t in &toks {
        match fold.step(t, prompter) {
            StepOutcome::NeedMoreInput => {}
            StepOutcome::Done => return fold,
            StepOutcome::Fatal => panic!("capability list parse failed"),
        }
    }
    panic!("capability list incomplete");
}

#[test]
fn fold_counts_each_capability_in_stream_order() {
    let mut prompter = Prompter::new(1000);
    let fold = run_fold(
        vec![
            cap_tokens(b"coin.GAS", vec![]),
            cap_tokens(
                b"coin.TRANSFER",
                vec![
                    Token::Str(b"k:a".to_vec()),
                    Token::Str(b"k:b".to_vec()),
                    Token::Num(b"1".to_vec()),
                ],
            ),
            cap_tokens(
                b"coin.TRANSFER",
                vec![
                    Token::Str(b"k:a".to_vec()),
                    Token::Str(b"k:c".to_vec()),
                    Token::Num(b"2".to_vec()),
                ],
            ),
            cap_tokens(b"free.other", vec![]),
        ],
        &mut prompter,
    );
    assert_eq!(fold.phase, ClistPhase::ClDone);
    match fold.acc_counts {
        CapCountData::CapCount { total_caps, total_transfers, total_unknown } => {
            assert_eq!(total_caps, 4);
            assert_eq!(total_transfers, 2);
            assert_eq!(total_unknown, 1);
        }
        _ => panic!("the accumulator must stay a tally"),
    }
    assert!(!fold.all_safe, "the unknown capability must clear the flag");
    let titles: Vec<Vec<u8>> = prompter
        .shown
        .iter()
        .map(|i| match i {
            Interaction::Scroller { title, .. } => title.clone(),
            _ => panic!("only scrollers here"),
        })
        .collect();
    assert_eq!(
        titles,
        vec![
            b"Paying Gas".to_vec(),
            b"Transfer 1".to_vec(),
            b"Transfer 2".to_vec(),
            b"Unknown Capability 1".to_vec(),
        ]
    );
}

#[test]
fn all_known_capabilities_keep_the_flag() {
    let mut prompter = Prompter::new(1000);
    let fold = run_fold(
        vec![
            cap_tokens(b"coin.GAS", vec![]),
            cap_tokens(b"coin.ROTATE", vec![Token::Str(b"k:a".to_vec())]),
        ],
        &mut prompter,
    );
    assert!(fold.all_safe);
    match fold.acc_counts {
        CapCountData::CapCount { total_caps, .. } => assert_eq!(total_caps, 2),
        _ => panic!("the accumulator must stay a tally"),
    }
}
