use kadena_signer::base::{Interaction, Prompter, StepOutcome};
use kadena_signer::maketx::{MakeTx, MakeTxSubState};

fn darray(bytes: &[u8]) -> Vec<u8> {
    let mut w = vec![bytes.len() as u8];
    w.extend_from_slice(bytes);
    w
}

fn stage1(path: &[u32], tx_type: u8, recipient: &[u8], chain: &[u8], network: &[u8], amount: &[u8]) -> Vec<u8> {
    let mut w = vec![path.len() as u8];
    for p in path {
        w.extend_from_slice(&p.to_le_bytes());
    }
    w.push(tx_type);
    w.extend_from_slice(&darray(recipient));
    w.extend_from_slice(&darray(chain));
    w.extend_from_slice(&darray(network));
    w.extend_from_slice(&darray(amount));
    w
}

fn stage2(gas_price: &[u8], gas_limit: &[u8], creation_time: &[u8], chain_id: &[u8], nonce: &[u8], ttl: &[u8]) -> Vec<u8> {
    let mut w = Vec::new();
    w.extend_from_slice(&darray(gas_price));
    w.extend_from_slice(&darray(gas_limit));
    w.extend_from_slice(&darray(creation_time));
    w.extend_from_slice(&darray(chain_id));
    w.extend_from_slice(&darray(nonce));
    w.extend_from_slice(&darray(ttl));
    w
}

#[test]
fn plain_transfer_builds_the_canonical_json() {
    let mut tx = MakeTx::init();
    let mut prompter = Prompter::new(1000);
    let msg1 = stage1(&[44], 0, b"bob", b"1", b"testnet04", b"2.5");
    assert_eq!(tx.parse(&msg1, &mut prompter), StepOutcome::Done);
    assert_eq!(tx.state, MakeTxSubState::AwaitPkh);
    assert_eq!(tx.path, vec![44]);

    assert_eq!(tx.provide_address(b"ALICE".to_vec(), &mut prompter), StepOutcome::Done);
    assert_eq!(tx.state, MakeTxSubState::MetaNonce);

    let msg2 = stage2(b"1.0e-5", b"2300", b"1234567", b"0", b"n1", b"600");
    assert_eq!(tx.parse(&msg2, &mut prompter), StepOutcome::Done);
    assert_eq!(tx.state, MakeTxSubState::AwaitSig);

    let expected = [
        "{\"networkId\":\"testnet04\"",
        ",\"payload\":{\"exec\":{\"data\":{},\"code\":\"",
        "(coin.transfer \\\"k:ALICE\\\"",
        " \\\"k:bob\\\"",
        " 2.5)\"}}",
        ",\"signers\":[{\"pubKey\":\"ALICE\"",
        ",\"clist\":[{\"args\":[",
        "\"k:ALICE\",",
        "\"k:bob\",",
        "2.5]",
        ",\"name\":\"coin.TRANSFER\"},{\"args\":[],\"name\":\"coin.GAS\"}]}]",
        ",\"meta\":{",
        "\"creationTime\":1234567",
        ",\"ttl\":600",
        ",\"gasLimit\":2300",
        ",\"chainId\":\"0\"",
        ",\"gasPrice\":1.0e-5",
        ",\"sender\":\"k:ALICE\"",
        "}",
        ",\"nonce\":\"n1\"",
        "}",
    ]
    .concat();
    assert_eq!(String::from_utf8(tx.hasher.bytes.clone()).unwrap(), expected);

    let sig = vec![5u8; 64];
    let pubkey = vec![6u8; 32];
    assert_eq!(tx.provide_signature(&sig, &pubkey), StepOutcome::Done);
    assert_eq!(tx.state, MakeTxSubState::Done);
    let mut out = sig.clone();
    out.extend_from_slice(&pubkey);
    assert_eq!(tx.output, out);

    let bodies: Vec<Vec<u8>> = prompter
        .shown
        .iter()
        .filter_map(|i| match i {
            Interaction::Scroller { body, .. } => Some(body.clone()),
            _ => None,
        })
        .collect();
    assert_eq!(bodies[0], b"2.5 from k:ALICE to bob on network testnet04".to_vec());
    assert_eq!(bodies[1], b"at most 2300 at price 1.0e-5".to_vec());
    match prompter.shown.last().unwrap() {
        Interaction::Confirmation { lines } => {
            assert_eq!(lines, &vec![b"Sign Transaction?".to_vec()]);
        }
        _ => panic!("the confirmation must come last"),
    }
}

#[test]
fn cross_chain_transfer_embeds_the_chain() {
    let mut tx = MakeTx::init();
    let mut prompter = Prompter::new(1000);
    let msg1 = stage1(&[44], 2, b"bob", b"3", b"mainnet01", b"1.0");
    assert_eq!(tx.parse(&msg1, &mut prompter), StepOutcome::Done);
    assert_eq!(tx.provide_address(b"ALICE".to_vec(), &mut prompter), StepOutcome::Done);
    let text = String::from_utf8(tx.hasher.bytes.clone()).unwrap();
    assert!(text.contains("(coin.transfer-crosschain \\\"k:ALICE\\\""));
    assert!(text.contains(" \\\"3\\\""));
    assert!(text.contains("coin.TRANSFER_XCHAIN"));
    match &prompter.shown[0] {
        Interaction::Scroller { title, body } => {
            assert_eq!(title, &b"Transfer".to_vec());
            assert_eq!(
                body,
                &b"Cross-chain 1.0 from k:ALICE to bob to chain 3 on network mainnet01".to_vec()
            );
        }
        _ => panic!("the transfer must be shown"),
    }
}

#[test]
fn create_transfer_embeds_the_keyset() {
    let mut tx = MakeTx::init();
    let mut prompter = Prompter::new(1000);
    let msg1 = stage1(&[44], 1, b"bob", b"0", b"mainnet01", b"1.0");
    assert_eq!(tx.parse(&msg1, &mut prompter), StepOutcome::Done);
    assert_eq!(tx.provide_address(b"ALICE".to_vec(), &mut prompter), StepOutcome::Done);
    let text = String::from_utf8(tx.hasher.bytes.clone()).unwrap();
    assert!(text.contains("\"ks\":{\"pred\":\"keys-all\",\"keys\":[\"bob\"]}}"));
    assert!(text.contains("(coin.transfer-create \\\"k:ALICE\\\""));
    assert!(text.contains("(read-keyset \\\"ks\\\")"));
}

#[test]
fn oversized_field_is_fatal() {
    let mut tx = MakeTx::init();
    let mut prompter = Prompter::new(1000);
    // The recipient chain may hold at most two bytes.
    let msg1 = stage1(&[44], 0, b"bob", b"123", b"mainnet01", b"1.0");
    assert_eq!(tx.parse(&msg1, &mut prompter), StepOutcome::Fatal);
    assert_eq!(tx.state, MakeTxSubState::Failed);
}

#[test]
fn chunked_stages_resume() {
    let mut tx = MakeTx::init();
    let mut prompter = Prompter::new(1000);
    let msg1 = stage1(&[44, 626], 0, b"bob", b"1", b"testnet04", b"2.5");
    for b in &msg1[..msg1.len() - 1] {
        assert_eq!(tx.parse(std::slice::from_ref(b), &mut prompter), StepOutcome::NeedMoreInput);
    }
    assert_eq!(
        tx.parse(std::slice::from_ref(&msg1[msg1.len() - 1]), &mut prompter),
        StepOutcome::Done
    );
    assert_eq!(tx.state, MakeTxSubState::AwaitPkh);
    assert_eq!(tx.path, vec![44, 626]);
}

#[test]
fn unknown_transfer_kind_is_fatal() {
    let mut tx = MakeTx::init();
    let mut prompter = Prompter::new(1000);
    let msg1 = stage1(&[44], 3, b"bob", b"1", b"testnet04", b"2.5");
    assert_eq!(tx.parse(&msg1, &mut prompter), StepOutcome::Fatal);
    assert_eq!(tx.state, MakeTxSubState::Failed);
}

#[test]
fn empty_chunk_is_a_suspension() {
    let mut tx = MakeTx::init();
    let mut prompter = Prompter::new(1000);
    assert_eq!(tx.parse(&[], &mut prompter), StepOutcome::NeedMoreInput);
    assert!(prompter.shown.is_empty());
}
