use kadena_signer::address::{GetAddressPhase, GetAddressState};
use kadena_signer::base::{Interaction, Prompter, StepOutcome};

fn path_wire(path: &[u32]) -> Vec<u8> {
    let mut w = vec![path.len() as u8];
    for p in path {
        w.extend_from_slice(&p.to_le_bytes());
    }
    w
}

#[test]
fn key_is_returned_with_its_length() {
    let msg = path_wire(&[44, 626]);
    let mut st = GetAddressState::new();
    assert_eq!(st.advance(&msg), StepOutcome::Done);
    assert_eq!(st.phase, GetAddressPhase::AwaitKey);
    assert_eq!(st.path, vec![44, 626]);
    let key: Vec<u8> = (0..32).collect();
    let mut prompter = Prompter::new(1000);
    let r = st.provide_key(&key, b"k:address".to_vec(), &mut prompter);
    assert_eq!(r, StepOutcome::Done);
    let mut expected = vec![32u8];
    expected.extend_from_slice(&key);
    assert_eq!(st.output, expected);
    assert_eq!(prompter.shown.len(), 2);
    match &prompter.shown[0] {
        Interaction::Scroller { title, body } => {
            assert_eq!(title, &b"Provide Public Key".to_vec());
            assert_eq!(body, &b"k:address".to_vec());
        }
        _ => panic!("the address must be shown"),
    }
    match &prompter.shown[1] {
        Interaction::Confirmation { lines } => assert!(lines.is_empty()),
        _ => panic!("a confirmation must close the flow"),
    }
}

#[test]
fn oversized_key_is_fatal() {
    let msg = path_wire(&[44]);
    let mut st = GetAddressState::new();
    assert_eq!(st.advance(&msg), StepOutcome::Done);
    let key = vec![1u8; 128];
    let mut prompter = Prompter::new(1000);
    let r = st.provide_key(&key, b"k:address".to_vec(), &mut prompter);
    assert_eq!(r, StepOutcome::Fatal);
    assert_eq!(st.phase, GetAddressPhase::Failed);
}

#[test]
fn rejecting_the_address_is_fatal() {
    let msg = path_wire(&[44]);
    let mut st = GetAddressState::new();
    assert_eq!(st.advance(&msg), StepOutcome::Done);
    let key = vec![1u8; 32];
    let mut prompter = Prompter::new(0);
    let r = st.provide_key(&key, b"k:address".to_vec(), &mut prompter);
    assert_eq!(r, StepOutcome::Fatal);
}

#[test]
fn empty_path_completes_immediately() {
    let msg = path_wire(&[]);
    let mut st = GetAddressState::new();
    assert_eq!(st.advance(&msg), StepOutcome::Done);
    assert!(st.path.is_empty());
}

#[test]
fn chunked_path_resumes() {
    let msg = path_wire(&[44, 626, 2, 3]);
    let mut st = GetAddressState::new();
    let (a, b) = msg.split_at(5);
    assert_eq!(st.advance(a), StepOutcome::NeedMoreInput);
    assert_eq!(st.advance(b), StepOutcome::Done);
    assert_eq!(st.path, vec![44, 626, 2, 3]);
}
