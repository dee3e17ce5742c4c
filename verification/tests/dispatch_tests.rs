use kadena_signer::base::{Prompter, StepOutcome};
use kadena_signer::dispatch::{
    get_get_address_state, get_sign_hash_state, get_sign_state, reset_parsers_state, ParsersState,
};
use kadena_signer::flow::SignPhase;

fn sign_message() -> Vec<u8> {
    let json = [
        "{\"nonce\":\"n1\",",
        "\"meta\":{\"chainId\":\"0\",\"sender\":\"k:abc\",\"gasLimit\":1,",
        "\"gasPrice\":1,\"ttl\":1,\"creationTime\":1},",
        "\"signers\":[{\"scheme\":\"s\",\"pubKey\":\"pk\",\"addr\":\"a\",",
        "\"clist\":[{\"args\":[],\"name\":\"coin.GAS\"}]}],",
        "\"payload\":{\"exec\":{\"data\":{},\"code\":\"c\"}},",
        "\"networkId\":null}",
    ]
    .concat();
    let mut w = Vec::new();
    w.extend_from_slice(&(json.len() as u32).to_le_bytes());
    w.extend_from_slice(json.as_bytes());
    w.push(1);
    w.extend_from_slice(&44u32.to_le_bytes());
    w
}

#[test]
fn reset_clears_the_slot() {
    let mut slot = ParsersState::SettingsState(3);
    reset_parsers_state(&mut slot);
    assert!(matches!(slot, ParsersState::NoState));
}

#[test]
fn selecting_a_command_installs_its_state() {
    let mut slot = ParsersState::NoState;
    get_sign_state(&mut slot);
    match &slot {
        ParsersState::SignState(st) => assert_eq!(st.phase, SignPhase::Length),
        _ => panic!("the slot must hold the sign state"),
    }
}

#[test]
fn command_switch_cancels_prior_parse() {
    let msg = sign_message();
    let mut prompter = Prompter::new(1000);
    let mut slot = ParsersState::NoState;
    get_sign_state(&mut slot);
    match &mut slot {
        ParsersState::SignState(st) => {
            let r = st.advance(&msg[..10], &mut prompter);
            assert_eq!(r, StepOutcome::NeedMoreInput);
            assert_eq!(st.len_buf.len(), 4);
        }
        _ => panic!("the slot must hold the sign state"),
    }
    // Selecting another command discards the partial sign parse.
    get_get_address_state(&mut slot);
    assert!(matches!(slot, ParsersState::GetAddressState(_)));
    // Selecting sign again yields a fresh state, not the stale one.
    get_sign_state(&mut slot);
    match &mut slot {
        ParsersState::SignState(st) => {
            assert_eq!(st.phase, SignPhase::Length);
            assert!(st.len_buf.is_empty());
            assert!(st.hasher.bytes.is_empty());
            // The whole message parses from scratch.
            let r = st.advance(&msg, &mut prompter);
            assert_eq!(r, StepOutcome::Done);
        }
        _ => panic!("the slot must hold the sign state"),
    }
}

#[test]
fn fatal_abandons_state_for_any_later_selection() {
    let mut prompter = Prompter::new(1000);
    let mut slot = ParsersState::NoState;
    get_sign_state(&mut slot);
    let bad = [3u8, 0, 0, 0, b'x', b'y', b'z'];
    match &mut slot {
        ParsersState::SignState(st) => {
            let r = st.advance(&bad, &mut prompter);
            assert_eq!(r, StepOutcome::Fatal);
            assert_eq!(st.phase, SignPhase::Failed);
        }
        _ => panic!("the slot must hold the sign state"),
    }
    // Selecting the same command after the fatal yields a fresh state.
    get_sign_state(&mut slot);
    match &mut slot {
        ParsersState::SignState(st) => {
            assert_eq!(st.phase, SignPhase::Length);
            let msg = sign_message();
            let r = st.advance(&msg, &mut prompter);
            assert_eq!(r, StepOutcome::Done);
        }
        _ => panic!("the slot must hold the sign state"),
    }
    // Selecting a different command after a fatal also starts fresh.
    match &mut slot {
        ParsersState::SignState(st) => {
            let r = st.advance(&[9], &mut prompter);
            assert_eq!(r, StepOutcome::Fatal);
        }
        _ => panic!("the slot must hold the sign state"),
    }
    get_sign_hash_state(&mut slot);
    assert!(matches!(slot, ParsersState::SignHashState(_)));
}

#[test]
fn live_state_is_kept_across_reselection() {
    let msg = sign_message();
    let mut prompter = Prompter::new(1000);
    let mut slot = ParsersState::NoState;
    get_sign_state(&mut slot);
    match &mut slot {
        ParsersState::SignState(st) => {
            let r = st.advance(&msg[..10], &mut prompter);
            assert_eq!(r, StepOutcome::NeedMoreInput);
        }
        _ => panic!("the slot must hold the sign state"),
    }
    // Re-selecting the same command resumes the same parse.
    get_sign_state(&mut slot);
    match &mut slot {
        ParsersState::SignState(st) => {
            let r = st.advance(&msg[10..], &mut prompter);
            assert_eq!(r, StepOutcome::Done);
        }
        _ => panic!("the slot must hold the sign state"),
    }
}
