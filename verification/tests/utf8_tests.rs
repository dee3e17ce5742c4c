use kadena_signer::base::{check_utf8, Prompter, StepOutcome};
use kadena_signer::flow::{SignPhase, SignState};
use kadena_signer::maketx::{MakeTx, MakeTxSubState};

fn wire(json: &[u8], path: &[u32]) -> Vec<u8> {
    let mut w = Vec::new();
    w.extend_from_slice(&(json.len() as u32).to_le_bytes());
    w.extend_from_slice(json);
    w.push(path.len() as u8);
    for p in path {
        w.extend_from_slice(&p.to_le_bytes());
    }
    w
}

fn json_with_pubkey(pubkey: &[u8]) -> Vec<u8> {
    let mut j = Vec::new();
    j.extend_from_slice(b"{\"nonce\":\"n1\",");
    j.extend_from_slice(b"\"meta\":{\"chainId\":\"0\",\"sender\":\"k:abc\",\"gasLimit\":1,");
    j.extend_from_slice(b"\"gasPrice\":1,\"ttl\":1,\"creationTime\":1},");
    j.extend_from_slice(b"\"signers\":[{\"scheme\":\"s\",\"pubKey\":\"");
    j.extend_from_slice(pubkey);
    j.extend_from_slice(b"\",\"addr\":\"a\",\"clist\":[{\"args\":[],\"name\":\"coin.GAS\"}]}],");
    j.extend_from_slice(b"\"payload\":{\"exec\":{\"data\":{},\"code\":\"c\"}},");
    j.extend_from_slice(b"\"networkId\":null}");
    j
}

#[test]
fn validator_agrees_with_the_standard_library() {
    let samples: Vec<Vec<u8>> = vec![
        b"".to_vec(),
        b"plain ascii".to_vec(),
        "über — schön €3 🙂".as_bytes().to_vec(),
        vec![0xFF],
        vec![0xC2],
        vec![0xC2, 0x20],
        vec![0xC0, 0x80],
        vec![0xE0, 0x80, 0x80],
        vec![0xED, 0xA0, 0x80],
        vec![0xF0, 0x90, 0x80, 0x80],
        vec![0xF4, 0x90, 0x80, 0x80],
        vec![0x41, 0xC3, 0xA9, 0x42],
        vec![0x41, 0xC3],
    ];
    for s in samples {
        assert_eq!(check_utf8(&s), std::str::from_utf8(&s).is_ok(), "bytes {:?}", s);
    }
}

#[test]
fn non_utf8_pubkey_is_fatal() {
    let json = json_with_pubkey(&[0xFF, 0xFE]);
    let msg = wire(&json, &[1]);
    let mut prompter = Prompter::new(1000);
    let mut st = SignState::new();
    assert_eq!(st.advance(&msg, &mut prompter), StepOutcome::Fatal);
    assert_eq!(st.phase, SignPhase::Failed);
}

#[test]
fn non_utf8_capability_argument_is_fatal() {
    let mut j = Vec::new();
    j.extend_from_slice(b"{\"nonce\":\"n1\",");
    j.extend_from_slice(b"\"meta\":{\"chainId\":\"0\",\"sender\":\"k:abc\",\"gasLimit\":1,");
    j.extend_from_slice(b"\"gasPrice\":1,\"ttl\":1,\"creationTime\":1},");
    j.extend_from_slice(b"\"signers\":[{\"scheme\":\"s\",\"pubKey\":\"pk\",\"addr\":\"a\",");
    j.extend_from_slice(b"\"clist\":[{\"args\":[\"");
    j.push(0xFF);
    j.extend_from_slice(b"\"],\"name\":\"free.x\"}]}],");
    j.extend_from_slice(b"\"payload\":{\"exec\":{\"data\":{},\"code\":\"c\"}},");
    j.extend_from_slice(b"\"networkId\":null}");
    let msg = wire(&j, &[1]);
    let mut prompter = Prompter::new(1000);
    let mut st = SignState::new();
    assert_eq!(st.advance(&msg, &mut prompter), StepOutcome::Fatal);
}

#[test]
fn non_utf8_transfer_field_fails_the_key_step() {
    let mut tx = MakeTx::init();
    let mut prompter = Prompter::new(1000);
    // recipient holds an invalid byte; the digest must stay untouched.
    let mut msg1 = vec![1u8];
    msg1.extend_from_slice(&44u32.to_le_bytes());
    msg1.push(0);
    msg1.extend_from_slice(&[1, 0xFF]);
    msg1.extend_from_slice(&[1, b"1"[0]]);
    msg1.extend_from_slice(&[3, b'n', b'e', b't']);
    msg1.extend_from_slice(&[3, b'2', b'.', b'5']);
    assert_eq!(tx.parse(&msg1, &mut prompter), StepOutcome::Done);
    assert_eq!(tx.state, MakeTxSubState::AwaitPkh);
    let r = tx.provide_address(b"ALICE".to_vec(), &mut prompter);
    assert_eq!(r, StepOutcome::Fatal);
    assert_eq!(tx.state, MakeTxSubState::Failed);
    assert!(tx.hasher.bytes.is_empty(), "a failed call must not pollute the digest");
    assert!(prompter.shown.is_empty());
}

#[test]
fn non_utf8_network_id_is_fatal() {
    let mut j = Vec::new();
    j.extend_from_slice(b"{\"nonce\":\"n1\",");
    j.extend_from_slice(b"\"meta\":{\"chainId\":\"0\",\"sender\":\"k:abc\",\"gasLimit\":1,");
    j.extend_from_slice(b"\"gasPrice\":1,\"ttl\":1,\"creationTime\":1},");
    j.extend_from_slice(b"\"signers\":[{\"scheme\":\"s\",\"pubKey\":\"pk\",\"addr\":\"a\",");
    j.extend_from_slice(b"\"clist\":[{\"args\":[],\"name\":\"coin.GAS\"}]}],");
    j.extend_from_slice(b"\"payload\":{\"exec\":{\"data\":{},\"code\":\"c\"}},");
    j.extend_from_slice(b"\"networkId\":\"");
    j.push(0xC0);
    j.extend_from_slice(b"\"}");
    let msg = wire(&j, &[1]);
    let mut prompter = Prompter::new(1000);
    let mut st = SignState::new();
    assert_eq!(st.advance(&msg, &mut prompter), StepOutcome::Fatal);
}
