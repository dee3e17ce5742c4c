use kadena_signer::base::{Interaction, Prompter, StepOutcome};
use kadena_signer::blind::{SignHashPhase, SignHashState};

fn hash_wire(hash: &[u8], path: &[u32]) -> Vec<u8> {
    let mut w = hash.to_vec();
    w.push(path.len() as u8);
    for p in path {
        w.extend_from_slice(&p.to_le_bytes());
    }
    w
}

fn run_flow(msg: &[u8], prompter: &mut Prompter, sig: &[u8]) -> SignHashState {
    let mut st = SignHashState::new();
    let r = st.advance(msg, prompter);
    assert_eq!(r, StepOutcome::Done);
    assert_eq!(st.phase, SignHashPhase::AwaitKey);
    let r = st.provide_address(b"k:somekey".to_vec(), prompter);
    assert_eq!(r, StepOutcome::Done);
    let r = st.provide_signature(&sig.to_vec());
    assert_eq!(r, StepOutcome::Done);
    st
}

#[test]
fn all_zero_hash_end_to_end() {
    let hash = [0u8; 32];
    let msg = hash_wire(&hash, &[44, 626, 0]);
    let mut prompter = Prompter::new(1000);
    let sig = vec![9u8; 64];
    let st = run_flow(&msg, &mut prompter, &sig);
    assert_eq!(st.output.len(), 64);
    assert_eq!(st.output, sig);
    assert_eq!(st.hash, hash.to_vec());
    assert_eq!(st.path, vec![44, 626, 0]);

    assert_eq!(prompter.shown.len(), 4);
    match &prompter.shown[0] {
        Interaction::Scroller { title, body } => {
            assert_eq!(title, &b"WARNING".to_vec());
            assert!(body.starts_with(b"Blind Signing"));
        }
        _ => panic!("the blind-signing warning must come first"),
    }
    match &prompter.shown[1] {
        Interaction::Scroller { title, body } => {
            assert_eq!(title, &b"Transaction hash".to_vec());
            let hex: String = hash.iter().map(|b| format!("{:02x}", b)).collect();
            assert_eq!(body, &hex.into_bytes());
        }
        _ => panic!("the hash must be shown second"),
    }
    match &prompter.shown[2] {
        Interaction::Scroller { title, body } => {
            assert_eq!(title, &b"Sign for Address".to_vec());
            assert_eq!(body, &b"k:somekey".to_vec());
        }
        _ => panic!("the address must be shown third"),
    }
    match &prompter.shown[3] {
        Interaction::Confirmation { lines } => {
            assert_eq!(lines, &vec![b"Sign Transaction Hash?".to_vec()]);
        }
        _ => panic!("the confirmation must come last"),
    }
}

#[test]
fn same_inputs_give_the_same_run() {
    let hash = [0u8; 32];
    let msg = hash_wire(&hash, &[44]);
    let sig = vec![3u8; 64];
    let mut p1 = Prompter::new(1000);
    let s1 = run_flow(&msg, &mut p1, &sig);
    let mut p2 = Prompter::new(1000);
    let s2 = run_flow(&msg, &mut p2, &sig);
    assert_eq!(s1.output, s2.output);
    assert_eq!(p1.shown.len(), p2.shown.len());
}

#[test]
fn chunked_hash_matches_whole_hash() {
    let hash: Vec<u8> = (0..32).collect();
    let msg = hash_wire(&hash, &[44]);
    let mut p1 = Prompter::new(1000);
    let mut st1 = SignHashState::new();
    assert_eq!(st1.advance(&msg, &mut p1), StepOutcome::Done);

    let mut p2 = Prompter::new(1000);
    let mut st2 = SignHashState::new();
    let (a, b) = msg.split_at(10);
    assert_eq!(st2.advance(a, &mut p2), StepOutcome::NeedMoreInput);
    assert_eq!(st2.advance(b, &mut p2), StepOutcome::Done);
    assert_eq!(st1.hash, st2.hash);
}

#[test]
fn rejecting_the_warning_is_fatal() {
    let hash = [0u8; 32];
    let msg = hash_wire(&hash, &[44]);
    let mut prompter = Prompter::new(0);
    let mut st = SignHashState::new();
    let r = st.advance(&msg, &mut prompter);
    assert_eq!(r, StepOutcome::Fatal);
    assert_eq!(st.phase, SignHashPhase::Failed);
    assert!(prompter.shown.is_empty());
}
