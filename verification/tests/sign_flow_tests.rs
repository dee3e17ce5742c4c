use kadena_signer::base::{Interaction, Prompter, StepOutcome};
use kadena_signer::flow::{SignPhase, SignState};

fn wire(json: &str, path: &[u32]) -> Vec<u8> {
    let mut w = Vec::new();
    w.extend_from_slice(&(json.len() as u32).to_le_bytes());
    w.extend_from_slice(json.as_bytes());
    w.push(path.len() as u8);
    for p in path {
        w.extend_from_slice(&p.to_le_bytes());
    }
    w
}

fn sample_json(clist: &str, network: &str) -> String {
    [
        "{\"nonce\":\"n1\",",
        "\"meta\":{\"chainId\":\"0\",\"sender\":\"k:abc\",\"gasLimit\":2300,",
        "\"gasPrice\":1.0e-5,\"ttl\":600,\"creationTime\":1234},",
        "\"signers\":[{\"scheme\":\"ED25519\",\"pubKey\":\"deadbeef\",",
        "\"addr\":\"k:deadbeef\",\"clist\":",
        clist,
        "}],",
        "\"payload\":{\"exec\":{\"data\":{},\"code\":\"(+ 1 2)\"}},",
        "\"networkId\":",
        network,
        "}",
    ]
    .concat()
}

fn scroller_titles(p: &Prompter) -> Vec<String> {
    p.shown
        .iter()
        .filter_map(|i| match i {
            Interaction::Scroller { title, .. } => {
                Some(String::from_utf8(title.clone()).unwrap())
            }
            Interaction::Confirmation { .. } => Some("<confirm>".to_string()),
        })
        .collect()
}

fn scroller_body(p: &Prompter, title: &str) -> Option<Vec<u8>> {
    for i in &p.shown {
        if let Interaction::Scroller { title: t, body } = i {
            if t.as_slice() == title.as_bytes() {
                return Some(body.clone());
            }
        }
    }
    None
}

fn run_to_key_request(msg: &[u8], prompter: &mut Prompter) -> SignState {
    let mut st = SignState::new();
    let r = st.advance(msg, prompter);
    assert_eq!(r, StepOutcome::Done, "message should be consumed whole");
    assert_eq!(st.phase, SignPhase::AwaitKey);
    st
}

#[test]
fn gas_capability_gives_a_clean_transaction() {
    let json = sample_json("[{\"args\":[],\"name\":\"coin.GAS\"}]", "\"mainnet01\"");
    let msg = wire(&json, &[44, 626]);
    let mut prompter = Prompter::new(1000);
    let mut st = run_to_key_request(&msg, &mut prompter);
    assert_eq!(st.digest_out, json.as_bytes().to_vec());
    let titles = scroller_titles(&prompter);
    assert_eq!(
        titles,
        vec![
            "Signing",
            "On Chain",
            "Using Gas",
            "Requiring",
            "Of Key",
            "Paying Gas",
            "On Network",
            "Transaction hash"
        ]
    );
    assert_eq!(
        scroller_body(&prompter, "Using Gas").unwrap(),
        b"at most 2300 at price 1.0e-5".to_vec()
    );
    assert_eq!(scroller_body(&prompter, "Of Key").unwrap(), b"deadbeef".to_vec());
    let r = st.provide_address(b"k:deadbeef".to_vec(), &mut prompter);
    assert_eq!(r, StepOutcome::Done);
    let sig = vec![7u8; 64];
    let r = st.provide_signature(&sig);
    assert_eq!(r, StepOutcome::Done);
    assert_eq!(st.output, sig);
    let titles = scroller_titles(&prompter);
    assert_eq!(titles[titles.len() - 2], "Sign for Address");
    assert_eq!(titles[titles.len() - 1], "<confirm>");
}

#[test]
fn digest_is_chunk_boundary_independent() {
    let json = sample_json("[{\"args\":[],\"name\":\"coin.GAS\"}]", "\"mainnet01\"");
    let msg = wire(&json, &[44, 626]);

    let mut p1 = Prompter::new(1000);
    let whole = run_to_key_request(&msg, &mut p1);

    let mut p2 = Prompter::new(1000);
    let mut st = SignState::new();
    for b in &msg[..msg.len() - 1] {
        let r = st.advance(std::slice::from_ref(b), &mut p2);
        assert_eq!(r, StepOutcome::NeedMoreInput);
    }
    let r = st.advance(std::slice::from_ref(&msg[msg.len() - 1]), &mut p2);
    assert_eq!(r, StepOutcome::Done);

    assert_eq!(whole.digest_out, st.digest_out);
    assert_eq!(scroller_titles(&p1), scroller_titles(&p2));

    let mut p3 = Prompter::new(1000);
    let mut st3 = SignState::new();
    let (a, b) = msg.split_at(17);
    assert_eq!(st3.advance(a, &mut p3), StepOutcome::NeedMoreInput);
    assert_eq!(st3.advance(b, &mut p3), StepOutcome::Done);
    assert_eq!(st3.digest_out, whole.digest_out);
}

#[test]
fn null_clist_warns_about_unscoped_signer() {
    let json = sample_json("null", "\"mainnet01\"");
    let msg = wire(&json, &[1]);
    let mut prompter = Prompter::new(1000);
    let _ = run_to_key_request(&msg, &mut prompter);
    assert_eq!(
        scroller_body(&prompter, "Unscoped Signer").unwrap(),
        b"deadbeef".to_vec()
    );
    let warning = scroller_body(&prompter, "WARNING").unwrap();
    assert!(warning.starts_with(b"UNSAFE TRANSACTION."));
}

#[test]
fn unknown_capability_warns_too_large() {
    let json = sample_json("[{\"args\":[],\"name\":\"free.other\"}]", "\"mainnet01\"");
    let msg = wire(&json, &[1]);
    let mut prompter = Prompter::new(1000);
    let _ = run_to_key_request(&msg, &mut prompter);
    let warning = scroller_body(&prompter, "WARNING").unwrap();
    assert!(warning.starts_with(b"Transaction too large"));
}

#[test]
fn null_network_id_is_silently_accepted() {
    let json = sample_json("[{\"args\":[],\"name\":\"coin.GAS\"}]", "null");
    let msg = wire(&json, &[1]);
    let mut prompter = Prompter::new(1000);
    let _ = run_to_key_request(&msg, &mut prompter);
    assert!(scroller_body(&prompter, "On Network").is_none());
}

#[test]
fn unrecognized_meta_shows_a_caution() {
    let json = [
        "{\"nonce\":\"n1\",\"meta\":17,",
        "\"signers\":[{\"scheme\":\"s\",\"pubKey\":\"pk\",\"addr\":\"a\",",
        "\"clist\":[{\"args\":[],\"name\":\"coin.GAS\"}]}],",
        "\"payload\":{\"exec\":{\"data\":{},\"code\":\"c\"}},",
        "\"networkId\":null}",
    ]
    .concat();
    let msg = wire(&json, &[1]);
    let mut prompter = Prompter::new(1000);
    let _ = run_to_key_request(&msg, &mut prompter);
    assert_eq!(
        scroller_body(&prompter, "CAUTION").unwrap(),
        b"'meta' field of transaction not recognized".to_vec()
    );
}

#[test]
fn malformed_json_is_fatal() {
    let json = "{\"nonce\":17}";
    let msg = wire(json, &[1]);
    let mut prompter = Prompter::new(1000);
    let mut st = SignState::new();
    let r = st.advance(&msg, &mut prompter);
    assert_eq!(r, StepOutcome::Fatal);
    assert_eq!(st.phase, SignPhase::Failed);
}

#[test]
fn rejecting_a_prompt_is_fatal() {
    let json = sample_json("[{\"args\":[],\"name\":\"coin.GAS\"}]", "\"mainnet01\"");
    let msg = wire(&json, &[1]);
    let mut prompter = Prompter::new(2);
    let mut st = SignState::new();
    let r = st.advance(&msg, &mut prompter);
    assert_eq!(r, StepOutcome::Fatal);
    assert_eq!(st.phase, SignPhase::Failed);
}

#[test]
fn rejecting_the_final_confirmation_is_fatal() {
    let json = sample_json("[{\"args\":[],\"name\":\"coin.GAS\"}]", "\"mainnet01\"");
    let msg = wire(&json, &[1]);
    let mut prompter = Prompter::new(1000);
    let mut st = run_to_key_request(&msg, &mut prompter);
    prompter.accepts_left = 1;
    let r = st.provide_address(b"k:deadbeef".to_vec(), &mut prompter);
    assert_eq!(r, StepOutcome::Fatal);
    assert_eq!(st.phase, SignPhase::Failed);
}

#[test]
fn trailing_bytes_after_the_path_are_fatal() {
    let json = sample_json("[{\"args\":[],\"name\":\"coin.GAS\"}]", "\"mainnet01\"");
    let mut msg = wire(&json, &[1]);
    msg.push(0);
    let mut prompter = Prompter::new(1000);
    let mut st = SignState::new();
    let r = st.advance(&msg, &mut prompter);
    assert_eq!(r, StepOutcome::Fatal);
}

#[test]
fn path_longer_than_ten_is_fatal() {
    let json = sample_json("[{\"args\":[],\"name\":\"coin.GAS\"}]", "\"mainnet01\"");
    let path: Vec<u32> = (0..11).collect();
    let msg = wire(&json, &path);
    let mut prompter = Prompter::new(1000);
    let mut st = SignState::new();
    let r = st.advance(&msg, &mut prompter);
    assert_eq!(r, StepOutcome::Fatal);
}

#[test]
fn empty_signer_list_is_the_identity_verdict() {
    let json = sample_json("[{\"args\":[],\"name\":\"coin.GAS\"}]", "null")
        .replace("[{\"scheme\":\"ED25519\",\"pubKey\":\"deadbeef\",\"addr\":\"k:deadbeef\",\"clist\":[{\"args\":[],\"name\":\"coin.GAS\"}]}]", "[]");
    let msg = wire(&json, &[1]);
    let mut prompter = Prompter::new(1000);
    let _ = run_to_key_request(&msg, &mut prompter);
    assert!(scroller_body(&prompter, "WARNING").is_none());
}

#[test]
fn empty_clist_array_counts_no_capability() {
    let json = sample_json("[]", "null");
    let msg = wire(&json, &[1]);
    let mut prompter = Prompter::new(1000);
    let _ = run_to_key_request(&msg, &mut prompter);
    assert!(scroller_body(&prompter, "Unscoped Signer").is_some());
    let warning = scroller_body(&prompter, "WARNING").unwrap();
    assert!(warning.starts_with(b"UNSAFE TRANSACTION."));
}

fn two_signer_json(first_clist: &str, second_clist: &str) -> String {
    [
        "{\"nonce\":\"n1\",",
        "\"meta\":{\"chainId\":\"0\",\"sender\":\"k:abc\",\"gasLimit\":1,",
        "\"gasPrice\":1,\"ttl\":1,\"creationTime\":1},",
        "\"signers\":[",
        "{\"scheme\":\"s\",\"pubKey\":\"one\",\"addr\":\"a\",\"clist\":",
        first_clist,
        "},",
        "{\"scheme\":\"s\",\"pubKey\":\"two\",\"addr\":\"a\",\"clist\":",
        second_clist,
        "}],",
        "\"payload\":{\"exec\":{\"data\":{},\"code\":\"c\"}},",
        "\"networkId\":null}",
    ]
    .concat()
}

#[test]
fn no_caps_dominates_regardless_of_signer_order() {
    let gas = "[{\"args\":[],\"name\":\"coin.GAS\"}]";
    for json in [two_signer_json(gas, "null"), two_signer_json("null", gas)] {
        let msg = wire(&json, &[1]);
        let mut prompter = Prompter::new(1000);
        let _ = run_to_key_request(&msg, &mut prompter);
        let warning = scroller_body(&prompter, "WARNING").unwrap();
        assert!(warning.starts_with(b"UNSAFE TRANSACTION."));
    }
}

#[test]
fn hash_screen_shows_the_digest_in_hex() {
    let json = sample_json("[{\"args\":[],\"name\":\"coin.GAS\"}]", "\"mainnet01\"");
    let msg = wire(&json, &[1]);
    let mut prompter = Prompter::new(1000);
    let _ = run_to_key_request(&msg, &mut prompter);
    let hex: String = json.as_bytes().iter().map(|b| format!("{:02x}", b)).collect();
    assert_eq!(
        scroller_body(&prompter, "Transaction hash").unwrap(),
        hex.into_bytes()
    );
}
