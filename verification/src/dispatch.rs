//! The command dispatch slot: at most one command is ever mid-parse.
//!
//! A single tagged slot holds which command is being parsed and its
//! whole parser state.  Selecting a command keeps the slot only when it
//! already holds a live state of that very command; anything else — a
//! different command, an empty slot, or a state abandoned by a fatal
//! error or rejection — is discarded and replaced by a freshly
//! initialized state, so no residue of an aborted parse can ever leak
//! into a later one.

use vstd::prelude::*;
use crate::address::{get_address_inv, GetAddressPhase, GetAddressState};
use crate::blind::{sign_hash_inv, SignHashPhase, SignHashState};
use crate::flow::{sign_inv, SignPhase, SignState};
use crate::maketx::{make_tx_inv, MakeTx, MakeTxSubState};

verus! {

/// The global parser-state slot.
pub enum ParsersState {
    NoState,
    SettingsState(u8),
    GetAddressState(GetAddressState),
    SignState(SignState),
    SignHashState(SignHashState),
    MakeTransferTxState(MakeTx),
}

/// Clears the slot: whatever was mid-parse is abandoned.
pub fn reset_parsers_state(state: &mut ParsersState)
    ensures
        *final(state) is NoState,
{
    *state = ParsersState::NoState;
}

/// Whether the slot holds a live get-address parse.
pub open spec fn holds_live_get_address(s: ParsersState) -> bool {
    s matches ParsersState::GetAddressState(st) && !(st.phase is Failed)
}

/// Selects the get-address command: the slot keeps a live state of this
/// command and replaces anything else by a fresh one.
pub fn get_get_address_state(s: &mut ParsersState)
    ensures
        *final(s) is GetAddressState,
        holds_live_get_address(*old(s)) ==> *final(s) == *old(s),
        !holds_live_get_address(*old(s)) ==> (*final(s) matches ParsersState::GetAddressState(st)
            && st.phase == GetAddressPhase::PathCount && get_address_inv(st)),
{
    let live = match s {
        ParsersState::GetAddressState(st) => !matches!(st.phase, GetAddressPhase::Failed),
        _ => false,
    };
    if !live {
        *s = ParsersState::GetAddressState(GetAddressState::new());
    }
}

/// Whether the slot holds a live sign parse.
pub open spec fn holds_live_sign(s: ParsersState) -> bool {
    s matches ParsersState::SignState(st) && !(st.phase is Failed)
}

/// Selects the sign command: the slot keeps a live state of this
/// command and replaces anything else by a fresh one.
pub fn get_sign_state(s: &mut ParsersState)
    ensures
        *final(s) is SignState,
        holds_live_sign(*old(s)) ==> *final(s) == *old(s),
        !holds_live_sign(*old(s)) ==> (*final(s) matches ParsersState::SignState(st) && st.phase
            == SignPhase::Length && st.history@ == Seq::<u8>::empty() && sign_inv(st)),
{
    let live = match s {
        ParsersState::SignState(st) => !matches!(st.phase, SignPhase::Failed),
        _ => false,
    };
    if !live {
        *s = ParsersState::SignState(SignState::new());
    }
}

/// Whether the slot holds a live sign-hash parse.
pub open spec fn holds_live_sign_hash(s: ParsersState) -> bool {
    s matches ParsersState::SignHashState(st) && !(st.phase is Failed)
}

/// Selects the sign-hash command: the slot keeps a live state of this
/// command and replaces anything else by a fresh one.
pub fn get_sign_hash_state(s: &mut ParsersState)
    ensures
        *final(s) is SignHashState,
        holds_live_sign_hash(*old(s)) ==> *final(s) == *old(s),
        !holds_live_sign_hash(*old(s)) ==> (*final(s) matches ParsersState::SignHashState(st)
            && st.phase == SignHashPhase::Warn && st.history@ == Seq::<u8>::empty()
            && sign_hash_inv(st)),
{
    let live = match s {
        ParsersState::SignHashState(st) => !matches!(st.phase, SignHashPhase::Failed),
        _ => false,
    };
    if !live {
        *s = ParsersState::SignHashState(SignHashState::new());
    }
}

/// Whether the slot holds a live guided transfer parse.
pub open spec fn holds_live_make_transfer_tx(s: ParsersState) -> bool {
    s matches ParsersState::MakeTransferTxState(st) && !(st.state is Failed)
}

/// Selects the guided transfer command: the slot keeps a live state of
/// this command and replaces anything else by a fresh one.
pub fn get_make_transfer_tx_state(s: &mut ParsersState)
    ensures
        *final(s) is MakeTransferTxState,
        holds_live_make_transfer_tx(*old(s)) ==> *final(s) == *old(s),
        !holds_live_make_transfer_tx(*old(s)) ==> (*final(s)
            matches ParsersState::MakeTransferTxState(st) && st.state == MakeTxSubState::Init
            && make_tx_inv(st)),
{
    let live = match s {
        ParsersState::MakeTransferTxState(st) => !matches!(st.state, MakeTxSubState::Failed),
        _ => false,
    };
    if !live {
        *s = ParsersState::MakeTransferTxState(MakeTx::init());
    }
}

} // verus!
