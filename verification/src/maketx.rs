//! The guided transfer flow: build a canonical transfer transaction from
//! discrete fields, hash it, and sign it.
//!
//! Instead of reviewing externally supplied JSON, this flow receives the
//! transfer's fields one by one over the wire — path, transfer kind,
//! recipient, recipient chain, network, amount, then the fee fields and
//! nonce — reconstructs the exact canonical JSON text of the
//! transaction into the running digest, and shows the holder the
//! transfer and gas facts it just encoded.  The reply is the signature
//! followed by the public key.
//!
//! Field bytes are embedded verbatim in the canonical text: the sender
//! of the guided flow is expected to supply clean field values, and the
//! contracts below pin exactly which bytes end up in the digest.

use vstd::prelude::*;
use vstd::string::StrSliceExecFns;
use vstd::string::StringSliceAdditionalSpecFns;
use crate::base::{extend_bytes, Prompter, StepOutcome};
use crate::digest::Hasher;
use crate::flow::MAX_PATH;

verus! {

/// The opening of the transaction text: the network identifier.
pub open spec fn tx_json_prefix(network: Seq<u8>) -> Seq<u8> {
    "{\"networkId\":\"".spec_bytes() + network + "\"".spec_bytes()
}

/// The signer block naming the transfer capabilities, shared by all
/// three transfer kinds; `xchain` adds the target chain argument.
pub open spec fn tx_json_signers(
    pkh: Seq<u8>,
    recipient: Seq<u8>,
    amount: Seq<u8>,
    chain: Seq<u8>,
    xchain: bool,
) -> Seq<u8> {
    ",\"signers\":[{\"pubKey\":".spec_bytes() + "\"".spec_bytes() + pkh + "\"".spec_bytes()
        + ",\"clist\":[{\"args\":[".spec_bytes() + "\"k:".spec_bytes() + pkh + "\",".spec_bytes()
        + "\"k:".spec_bytes() + recipient + "\",".spec_bytes() + if xchain {
        amount + ",".spec_bytes() + "\"".spec_bytes() + chain + "\"]".spec_bytes()
            + ",\"name\":\"coin.TRANSFER_XCHAIN\"},{\"args\":[],\"name\":\"coin.GAS\"}]}]".spec_bytes()
    } else {
        amount + "]".spec_bytes()
            + ",\"name\":\"coin.TRANSFER\"},{\"args\":[],\"name\":\"coin.GAS\"}]}]".spec_bytes()
    }
}

/// The keyset object embedded in the payload data of the kinds that
/// create the recipient's account.
pub open spec fn tx_json_keyset(recipient: Seq<u8>) -> Seq<u8> {
    "\"ks\":{\"pred\":\"keys-all\",\"keys\":[".spec_bytes() + "\"".spec_bytes() + recipient
        + "\"]}}".spec_bytes()
}

/// The payload and signer text appended for one transfer kind: `0` is a
/// plain transfer, `1` a transfer that creates the recipient's account,
/// `2` a cross-chain transfer.  The flow rejects any other kind at the
/// wire, so the catch-all arm below is never reached from it.
pub open spec fn tx_json_payload(
    kind: u8,
    pkh: Seq<u8>,
    recipient: Seq<u8>,
    chain: Seq<u8>,
    amount: Seq<u8>,
) -> Seq<u8> {
    if kind == 0 {
        ",\"payload\":{\"exec\":{\"data\":{},\"code\":\"".spec_bytes()
            + "(coin.transfer \\\"k:".spec_bytes() + pkh + "\\\"".spec_bytes()
            + " \\\"k:".spec_bytes() + recipient + "\\\"".spec_bytes() + " ".spec_bytes() + amount
            + ")\"}}".spec_bytes() + tx_json_signers(pkh, recipient, amount, chain, false)
    } else if kind == 1 {
        ",\"payload\":{\"exec\":{\"data\":{".spec_bytes() + tx_json_keyset(recipient)
            + ",\"code\":\"".spec_bytes() + "(coin.transfer-create \\\"k:".spec_bytes() + pkh
            + "\\\"".spec_bytes() + " \\\"k:".spec_bytes() + recipient + "\\\"".spec_bytes()
            + " (read-keyset \\\"ks\\\")".spec_bytes() + " ".spec_bytes() + amount
            + ")\"}}".spec_bytes() + tx_json_signers(pkh, recipient, amount, chain, false)
    } else if kind == 2 {
        ",\"payload\":{\"exec\":{\"data\":{".spec_bytes() + tx_json_keyset(recipient)
            + ",\"code\":\"".spec_bytes() + "(coin.transfer-crosschain \\\"k:".spec_bytes() + pkh
            + "\\\"".spec_bytes() + " \\\"k:".spec_bytes() + recipient + "\\\"".spec_bytes()
            + " (read-keyset \\\"ks\\\")".spec_bytes() + " \\\"".spec_bytes() + chain
            + "\\\"".spec_bytes() + " ".spec_bytes() + amount + ")\"}}".spec_bytes()
            + tx_json_signers(pkh, recipient, amount, chain, true)
    } else {
        Seq::empty()
    }
}

/// The meta and nonce text closing the transaction.
pub open spec fn tx_json_meta(
    pkh: Seq<u8>,
    gas_price: Seq<u8>,
    gas_limit: Seq<u8>,
    creation_time: Seq<u8>,
    chain_id: Seq<u8>,
    nonce: Seq<u8>,
    ttl: Seq<u8>,
) -> Seq<u8> {
    ",\"meta\":{".spec_bytes() + "\"creationTime\":".spec_bytes() + creation_time
        + ",\"ttl\":".spec_bytes() + ttl + ",\"gasLimit\":".spec_bytes() + gas_limit
        + ",\"chainId\":\"".spec_bytes() + chain_id + "\"".spec_bytes()
        + ",\"gasPrice\":".spec_bytes() + gas_price + ",\"sender\":\"k:".spec_bytes() + pkh
        + "\"".spec_bytes() + "}".spec_bytes() + ",\"nonce\":\"".spec_bytes() + nonce
        + "\"".spec_bytes() + "}".spec_bytes()
}

/// Body of the transfer prompt for the plain and account-creating kinds.
pub open spec fn mt_transfer_body(
    pkh: Seq<u8>,
    recipient: Seq<u8>,
    amount: Seq<u8>,
    network: Seq<u8>,
) -> Seq<u8> {
    amount + " from k:".spec_bytes() + pkh + " to ".spec_bytes() + recipient
        + " on network ".spec_bytes() + network
}

/// Body of the transfer prompt for the cross-chain kind.
pub open spec fn mt_xchain_body(
    pkh: Seq<u8>,
    recipient: Seq<u8>,
    chain: Seq<u8>,
    amount: Seq<u8>,
    network: Seq<u8>,
) -> Seq<u8> {
    "Cross-chain ".spec_bytes() + amount + " from k:".spec_bytes() + pkh + " to ".spec_bytes()
        + recipient + " to chain ".spec_bytes() + chain + " on network ".spec_bytes() + network
}

/// Writes the first half of the transaction text — network, payload and
/// signers — into the digest, and shows the transfer to the holder.
pub fn handle_first_prompt(
    pkh: &Vec<u8>,
    hasher: &mut Hasher,
    tx_type: u8,
    recipient: &Vec<u8>,
    recipient_chain: &Vec<u8>,
    amount: &Vec<u8>,
    network: &Vec<u8>,
    prompter: &mut Prompter,
) -> (ok: bool)
    ensures
        ok ==> final(hasher).bytes@ == old(hasher).bytes@ + tx_json_prefix(network@)
            + tx_json_payload(tx_type, pkh@, recipient@, recipient_chain@, amount@),
        ok && (tx_type == 0 || tx_type == 1) ==> final(prompter).log() == old(
            prompter,
        ).log().push(
            crate::base::scroller(
                "Transfer".spec_bytes(),
                mt_transfer_body(pkh@, recipient@, amount@, network@),
            ),
        ),
        ok && tx_type == 2 ==> final(prompter).log() == old(prompter).log().push(
            crate::base::scroller(
                "Transfer".spec_bytes(),
                mt_xchain_body(pkh@, recipient@, recipient_chain@, amount@, network@),
            ),
        ),
        ok && tx_type > 2 ==> final(prompter).log() == old(prompter).log(),
        !ok ==> final(hasher).bytes@ == old(hasher).bytes@,
        !ok ==> final(prompter).log() == old(prompter).log(),
        old(prompter).log().is_prefix_of(final(prompter).log()),
        ok == (crate::base::is_utf8(amount@) && crate::base::is_utf8(recipient@)
            && crate::base::is_utf8(recipient_chain@) && crate::base::is_utf8(network@) && (
        tx_type > 2 || old(prompter).accepts_left > 0)),
{
    if !(crate::base::check_utf8(amount) && crate::base::check_utf8(recipient)
        && crate::base::check_utf8(recipient_chain) && crate::base::check_utf8(network)) {
        return false;
    }
    let mut part: Vec<u8> = "{\"networkId\":\"".as_bytes_vec();
    extend_bytes(&mut part, network);
    extend_bytes(&mut part, &"\"".as_bytes_vec());
    proof {
        assert(part@ =~= tx_json_prefix(network@));
    }
    let ghost pre = part@;
    if tx_type == 0 {
        push_payload_transfer(&mut part, pkh, recipient, amount, recipient_chain);
    } else if tx_type == 1 {
        push_payload_create(&mut part, pkh, recipient, amount, recipient_chain);
    } else if tx_type == 2 {
        push_payload_crosschain(&mut part, pkh, recipient, amount, recipient_chain);
    }
    proof {
        assert(part@ =~= pre + tx_json_payload(
            tx_type,
            pkh@,
            recipient@,
            recipient_chain@,
            amount@,
        ));
    }
    if tx_type == 0 || tx_type == 1 {
        let mut body: Vec<u8> = amount.clone();
        extend_bytes(&mut body, &" from k:".as_bytes_vec());
        extend_bytes(&mut body, pkh);
        extend_bytes(&mut body, &" to ".as_bytes_vec());
        extend_bytes(&mut body, recipient);
        extend_bytes(&mut body, &" on network ".as_bytes_vec());
        extend_bytes(&mut body, network);
        assert(body@ =~= mt_transfer_body(pkh@, recipient@, amount@, network@));
        if !prompter.show("Transfer".as_bytes_vec(), body) {
            return false;
        }
    } else if tx_type == 2 {
        let mut body: Vec<u8> = "Cross-chain ".as_bytes_vec();
        extend_bytes(&mut body, amount);
        extend_bytes(&mut body, &" from k:".as_bytes_vec());
        extend_bytes(&mut body, pkh);
        extend_bytes(&mut body, &" to ".as_bytes_vec());
        extend_bytes(&mut body, recipient);
        extend_bytes(&mut body, &" to chain ".as_bytes_vec());
        extend_bytes(&mut body, recipient_chain);
        extend_bytes(&mut body, &" on network ".as_bytes_vec());
        extend_bytes(&mut body, network);
        assert(body@ =~= mt_xchain_body(pkh@, recipient@, recipient_chain@, amount@, network@));
        if !prompter.show("Transfer".as_bytes_vec(), body) {
            return false;
        }
    }
    hasher.update_vec(&part);
    true
}

/// Appends the payload and signer text of a plain transfer.
#[verifier::rlimit(100)]
#[verifier::spinoff_prover]
fn push_payload_transfer(
    part: &mut Vec<u8>,
    pkh: &Vec<u8>,
    recipient: &Vec<u8>,
    amount: &Vec<u8>,
    chain: &Vec<u8>,
)
    ensures
        final(part)@ == old(part)@ + tx_json_payload(0, pkh@, recipient@, chain@, amount@),
{
    let ghost p0 = part@;
    extend_bytes(part, &",\"payload\":{\"exec\":{\"data\":{},\"code\":\"".as_bytes_vec());
    extend_bytes(part, &"(coin.transfer \\\"k:".as_bytes_vec());
    extend_bytes(part, pkh);
    extend_bytes(part, &"\\\"".as_bytes_vec());
    extend_bytes(part, &" \\\"k:".as_bytes_vec());
    extend_bytes(part, recipient);
    extend_bytes(part, &"\\\"".as_bytes_vec());
    extend_bytes(part, &" ".as_bytes_vec());
    extend_bytes(part, amount);
    extend_bytes(part, &")\"}}".as_bytes_vec());
    push_signers(part, pkh, recipient, amount, chain, false);
    proof {
        assert(part@ =~= p0 + tx_json_payload(0, pkh@, recipient@, chain@, amount@));
    }
}

/// Appends the payload and signer text of an account-creating transfer.
#[verifier::rlimit(100)]
#[verifier::spinoff_prover]
fn push_payload_create(
    part: &mut Vec<u8>,
    pkh: &Vec<u8>,
    recipient: &Vec<u8>,
    amount: &Vec<u8>,
    chain: &Vec<u8>,
)
    ensures
        final(part)@ == old(part)@ + tx_json_payload(1, pkh@, recipient@, chain@, amount@),
{
    let ghost p0 = part@;
    extend_bytes(part, &",\"payload\":{\"exec\":{\"data\":{".as_bytes_vec());
    push_keyset(part, recipient);
    extend_bytes(part, &",\"code\":\"".as_bytes_vec());
    extend_bytes(part, &"(coin.transfer-create \\\"k:".as_bytes_vec());
    extend_bytes(part, pkh);
    extend_bytes(part, &"\\\"".as_bytes_vec());
    extend_bytes(part, &" \\\"k:".as_bytes_vec());
    extend_bytes(part, recipient);
    extend_bytes(part, &"\\\"".as_bytes_vec());
    extend_bytes(part, &" (read-keyset \\\"ks\\\")".as_bytes_vec());
    extend_bytes(part, &" ".as_bytes_vec());
    extend_bytes(part, amount);
    extend_bytes(part, &")\"}}".as_bytes_vec());
    push_signers(part, pkh, recipient, amount, chain, false);
    proof {
        assert(part@ =~= p0 + tx_json_payload(1, pkh@, recipient@, chain@, amount@));
    }
}

/// Appends the payload and signer text of a cross-chain transfer.
#[verifier::rlimit(100)]
#[verifier::spinoff_prover]
fn push_payload_crosschain(
    part: &mut Vec<u8>,
    pkh: &Vec<u8>,
    recipient: &Vec<u8>,
    amount: &Vec<u8>,
    chain: &Vec<u8>,
)
    ensures
        final(part)@ == old(part)@ + tx_json_payload(2, pkh@, recipient@, chain@, amount@),
{
    let ghost p0 = part@;
    extend_bytes(part, &",\"payload\":{\"exec\":{\"data\":{".as_bytes_vec());
    push_keyset(part, recipient);
    extend_bytes(part, &",\"code\":\"".as_bytes_vec());
    extend_bytes(part, &"(coin.transfer-crosschain \\\"k:".as_bytes_vec());
    extend_bytes(part, pkh);
    extend_bytes(part, &"\\\"".as_bytes_vec());
    extend_bytes(part, &" \\\"k:".as_bytes_vec());
    extend_bytes(part, recipient);
    extend_bytes(part, &"\\\"".as_bytes_vec());
    extend_bytes(part, &" (read-keyset \\\"ks\\\")".as_bytes_vec());
    extend_bytes(part, &" \\\"".as_bytes_vec());
    extend_bytes(part, chain);
    extend_bytes(part, &"\\\"".as_bytes_vec());
    extend_bytes(part, &" ".as_bytes_vec());
    extend_bytes(part, amount);
    extend_bytes(part, &")\"}}".as_bytes_vec());
    push_signers(part, pkh, recipient, amount, chain, true);
    proof {
        assert(part@ =~= p0 + tx_json_payload(2, pkh@, recipient@, chain@, amount@));
    }
}

/// Appends the signer block.
#[verifier::rlimit(60)]
fn push_signers(
    part: &mut Vec<u8>,
    pkh: &Vec<u8>,
    recipient: &Vec<u8>,
    amount: &Vec<u8>,
    chain: &Vec<u8>,
    xchain: bool,
)
    ensures
        final(part)@ == old(part)@ + tx_json_signers(pkh@, recipient@, amount@, chain@, xchain),
{
    let ghost p0 = part@;
    extend_bytes(part, &",\"signers\":[{\"pubKey\":".as_bytes_vec());
    extend_bytes(part, &"\"".as_bytes_vec());
    extend_bytes(part, pkh);
    extend_bytes(part, &"\"".as_bytes_vec());
    extend_bytes(part, &",\"clist\":[{\"args\":[".as_bytes_vec());
    extend_bytes(part, &"\"k:".as_bytes_vec());
    extend_bytes(part, pkh);
    extend_bytes(part, &"\",".as_bytes_vec());
    extend_bytes(part, &"\"k:".as_bytes_vec());
    extend_bytes(part, recipient);
    extend_bytes(part, &"\",".as_bytes_vec());
    extend_bytes(part, amount);
    if xchain {
        extend_bytes(part, &",".as_bytes_vec());
        extend_bytes(part, &"\"".as_bytes_vec());
        extend_bytes(part, chain);
        extend_bytes(part, &"\"]".as_bytes_vec());
        extend_bytes(
            part,
            &",\"name\":\"coin.TRANSFER_XCHAIN\"},{\"args\":[],\"name\":\"coin.GAS\"}]}]".as_bytes_vec(),
        );
    } else {
        extend_bytes(part, &"]".as_bytes_vec());
        extend_bytes(
            part,
            &",\"name\":\"coin.TRANSFER\"},{\"args\":[],\"name\":\"coin.GAS\"}]}]".as_bytes_vec(),
        );
    }
    proof {
        assert(part@ =~= p0 + tx_json_signers(pkh@, recipient@, amount@, chain@, xchain));
    }
}

/// Appends the keyset object.
fn push_keyset(part: &mut Vec<u8>, recipient: &Vec<u8>)
    ensures
        final(part)@ == old(part)@ + tx_json_keyset(recipient@),
{
    let ghost p0 = part@;
    extend_bytes(part, &"\"ks\":{\"pred\":\"keys-all\",\"keys\":[".as_bytes_vec());
    extend_bytes(part, &"\"".as_bytes_vec());
    extend_bytes(part, recipient);
    extend_bytes(part, &"\"]}}".as_bytes_vec());
    proof {
        assert(part@ =~= p0 + tx_json_keyset(recipient@));
    }
}

/// Writes the second half of the transaction text — meta and nonce —
/// into the digest, and shows the gas terms to the holder.
pub fn handle_second_prompt(
    pkh: &Vec<u8>,
    hasher: &mut Hasher,
    gas_price: &Vec<u8>,
    gas_limit: &Vec<u8>,
    creation_time: &Vec<u8>,
    chain_id: &Vec<u8>,
    nonce: &Vec<u8>,
    ttl: &Vec<u8>,
    prompter: &mut Prompter,
) -> (ok: bool)
    ensures
        ok ==> final(hasher).bytes@ == old(hasher).bytes@ + tx_json_meta(
            pkh@,
            gas_price@,
            gas_limit@,
            creation_time@,
            chain_id@,
            nonce@,
            ttl@,
        ),
        ok ==> final(prompter).log() == old(prompter).log().push(
            crate::base::scroller(
                "Paying Gas".spec_bytes(),
                crate::cmd::gas_body(gas_limit@, gas_price@),
            ),
        ),
        !ok ==> final(hasher).bytes@ == old(hasher).bytes@,
        old(prompter).log().is_prefix_of(final(prompter).log()),
        ok == (crate::base::is_utf8(gas_price@) && crate::base::is_utf8(gas_limit@)
            && crate::base::is_utf8(creation_time@) && crate::base::is_utf8(chain_id@)
            && crate::base::is_utf8(nonce@) && crate::base::is_utf8(ttl@)
            && old(prompter).accepts_left > 0),
{
    if !(crate::base::check_utf8(gas_price) && crate::base::check_utf8(gas_limit)
        && crate::base::check_utf8(creation_time) && crate::base::check_utf8(chain_id)
        && crate::base::check_utf8(nonce) && crate::base::check_utf8(ttl)) {
        return false;
    }
    let mut part: Vec<u8> = ",\"meta\":{".as_bytes_vec();
    extend_bytes(&mut part, &"\"creationTime\":".as_bytes_vec());
    extend_bytes(&mut part, creation_time);
    extend_bytes(&mut part, &",\"ttl\":".as_bytes_vec());
    extend_bytes(&mut part, ttl);
    extend_bytes(&mut part, &",\"gasLimit\":".as_bytes_vec());
    extend_bytes(&mut part, gas_limit);
    extend_bytes(&mut part, &",\"chainId\":\"".as_bytes_vec());
    extend_bytes(&mut part, chain_id);
    extend_bytes(&mut part, &"\"".as_bytes_vec());
    extend_bytes(&mut part, &",\"gasPrice\":".as_bytes_vec());
    extend_bytes(&mut part, gas_price);
    extend_bytes(&mut part, &",\"sender\":\"k:".as_bytes_vec());
    extend_bytes(&mut part, pkh);
    extend_bytes(&mut part, &"\"".as_bytes_vec());
    extend_bytes(&mut part, &"}".as_bytes_vec());
    extend_bytes(&mut part, &",\"nonce\":\"".as_bytes_vec());
    extend_bytes(&mut part, nonce);
    extend_bytes(&mut part, &"\"".as_bytes_vec());
    extend_bytes(&mut part, &"}".as_bytes_vec());
    proof {
        assert(part@ =~= tx_json_meta(
            pkh@,
            gas_price@,
            gas_limit@,
            creation_time@,
            chain_id@,
            nonce@,
            ttl@,
        ));
    }
    let mut body: Vec<u8> = "at most ".as_bytes_vec();
    extend_bytes(&mut body, gas_limit);
    extend_bytes(&mut body, &" at price ".as_bytes_vec());
    extend_bytes(&mut body, gas_price);
    assert(body@ =~= crate::cmd::gas_body(gas_limit@, gas_price@));
    if !prompter.show("Paying Gas".as_bytes_vec(), body) {
        return false;
    }
    hasher.update_vec(&part);
    true
}

/// Coarse phase of the guided transfer flow.
#[derive(Clone, Copy, Debug, PartialEq, Eq, Structural)]
pub enum MakeTxSubState {
    /// Nothing consumed yet.
    Init,
    /// Reading path, transfer kind, recipient, chain, network, amount.
    PathRecipientAmount,
    /// Message paused; the device must derive the key for the path.
    AwaitPkh,
    /// Reading gas price, gas limit, creation time, chain id, nonce, ttl.
    MetaNonce,
    /// Confirmed; the device must sign the digest.
    AwaitSig,
    /// The reply is ready.
    Done,
    /// A fatal error or rejection abandoned the command.
    Failed,
}

/// Fine position inside a reading phase.
#[derive(Clone, Copy, Debug, PartialEq, Eq, Structural)]
pub enum MtFine {
    FPathCount,
    FPathElems,
    FTxType,
    FLen,
    FData,
}

/// Resumable state of the guided transfer flow.
pub struct MakeTx {
    pub state: MakeTxSubState,
    pub fine: MtFine,
    pub idx: usize,
    pub need: usize,
    pub path_count: u8,
    pub path_elem_buf: Vec<u8>,
    pub path: Vec<u32>,
    pub tx_type: u8,
    pub fields1: Vec<Vec<u8>>,
    pub fields2: Vec<Vec<u8>>,
    pub cur: Vec<u8>,
    pub hasher: Hasher,
    pub pkh: Vec<u8>,
    pub output: Vec<u8>,
    pub history: Ghost<Seq<u8>>,
    pub starts1: Ghost<Seq<int>>,
    pub starts2: Ghost<Seq<int>>,
}

/// Longest wire size of each first-stage field: recipient, recipient
/// chain, network, amount.
pub open spec fn spec_p1_size(k: int) -> int {
    if k == 0 {
        80
    } else if k == 1 {
        2
    } else if k == 2 {
        64
    } else {
        50
    }
}

/// Longest wire size of each second-stage field: gas price, gas limit,
/// creation time, chain id, nonce, ttl.
pub open spec fn spec_p2_size(k: int) -> int {
    if k == 0 {
        20
    } else if k == 1 {
        20
    } else if k == 2 {
        10
    } else if k == 3 {
        2
    } else if k == 4 {
        12
    } else {
        20
    }
}

/// Executable form of the first-stage bound.
fn p1_size(i: usize) -> (r: usize)
    requires
        i < 4,
    ensures
        r <= 80,
        r as int == spec_p1_size(i as int),
{
    if i == 0 {
        80
    } else if i == 1 {
        2
    } else if i == 2 {
        64
    } else {
        50
    }
}

/// Executable form of the second-stage bound.
fn p2_size(i: usize) -> (r: usize)
    requires
        i < 6,
    ensures
        r <= 20,
        r as int == spec_p2_size(i as int),
{
    if i == 0 {
        20
    } else if i == 1 {
        20
    } else if i == 2 {
        10
    } else if i == 3 {
        2
    } else if i == 4 {
        12
    } else {
        20
    }
}

/// The little-endian number held by four bytes, and the flow's field
/// offsets, are all read off the input transcript: every stored value
/// below is pinned to the bytes it came from.
///
/// Start of the next first-stage field's length byte: right after the
/// transfer-kind byte, or one past the last recorded field's bytes.
pub open spec fn mt_next1(m: MakeTx) -> int {
    if m.fields1@.len() == 0 {
        2 + 4 * m.path@.len() as int
    } else {
        let j = m.fields1@.len() - 1;
        m.starts1@[j] + 1 + m.history@[m.starts1@[j]]
    }
}

/// Start of the next second-stage field's length byte.
pub open spec fn mt_next2(m: MakeTx) -> int {
    if m.fields2@.len() == 0 {
        mt_next1(m)
    } else {
        let j = m.fields2@.len() - 1;
        m.starts2@[j] + 1 + m.history@[m.starts2@[j]]
    }
}

/// The path, its count byte and the transfer kind are pinned to the
/// transcript.
pub open spec fn mt_head_pinned(m: MakeTx) -> bool {
    &&& m.history@.len() >= 2 + 4 * m.path@.len()
    &&& m.history@[0] == m.path@.len()
    &&& m.path@.len() <= MAX_PATH
    &&& m.tx_type == m.history@[1 + 4 * m.path@.len() as int]
    &&& forall|i: int|
        0 <= i < m.path@.len() ==> m.path@[i] as int == crate::flow::le32_at(
            #[trigger] m.history@.subrange(1 + 4 * i, 5 + 4 * i),
        )
}

/// Every recorded first-stage field is exactly the bytes after its
/// length byte, fields standing back to back.
pub open spec fn mt_f1_pinned(m: MakeTx) -> bool {
    let h = m.history@;
    let st = m.starts1@;
    &&& st.len() == m.fields1@.len()
    &&& (st.len() > 0 ==> st[0] == 2 + 4 * m.path@.len())
    &&& forall|j: int|
        0 <= j < st.len() ==> 0 <= #[trigger] st[j] && st[j] + 1 + h[st[j]] <= h.len()
    &&& forall|j: int| 0 <= j < st.len() - 1 ==> #[trigger] st[j + 1] == st[j] + 1 + h[st[j]]
    &&& forall|j: int|
        0 <= j < st.len() ==> #[trigger] m.fields1@[j]@ == h.subrange(
            st[j] + 1,
            st[j] + 1 + h[st[j]],
        )
}

/// Every recorded second-stage field is likewise pinned.
pub open spec fn mt_f2_pinned(m: MakeTx) -> bool {
    let h = m.history@;
    let st = m.starts2@;
    &&& st.len() == m.fields2@.len()
    &&& (st.len() > 0 ==> st[0] == mt_next1(m))
    &&& forall|j: int|
        0 <= j < st.len() ==> 0 <= #[trigger] st[j] && st[j] + 1 + h[st[j]] <= h.len()
    &&& forall|j: int| 0 <= j < st.len() - 1 ==> #[trigger] st[j + 1] == st[j] + 1 + h[st[j]]
    &&& forall|j: int|
        0 <= j < st.len() ==> #[trigger] m.fields2@[j]@ == h.subrange(
            st[j] + 1,
            st[j] + 1 + h[st[j]],
        )
}

/// The first half of the transaction text, as the digest holds it after
/// the key arrived.
pub open spec fn mt_part1(m: MakeTx) -> Seq<u8> {
    tx_json_prefix(m.fields1@[2]@) + tx_json_payload(
        m.tx_type,
        m.pkh@,
        m.fields1@[0]@,
        m.fields1@[1]@,
        m.fields1@[3]@,
    )
}

/// Invariant of the guided transfer flow: everything the flow stores is
/// a function of the consumed transcript (and, from the key request on,
/// of the provided address text).
pub open spec fn make_tx_inv(m: MakeTx) -> bool {
    match m.state {
        MakeTxSubState::Init => m.hasher.bytes@.len() == 0 && m.history@.len() == 0
            && m.path@.len() == 0 && m.fields1@.len() == 0,
        MakeTxSubState::PathRecipientAmount => {
            &&& m.hasher.bytes@.len() == 0
            &&& match m.fine {
                MtFine::FPathCount => m.history@.len() == 0 && m.path@.len() == 0
                    && m.fields1@.len() == 0,
                MtFine::FPathElems => {
                    &&& m.fields1@.len() == 0
                    &&& m.path_elem_buf@.len() < 4
                    &&& m.path@.len() < m.path_count
                    &&& m.path_count <= MAX_PATH
                    &&& m.history@.len() == 1 + 4 * m.path@.len() + m.path_elem_buf@.len()
                    &&& m.history@[0] == m.path_count
                    &&& m.path_elem_buf@ == m.history@.skip(1 + 4 * m.path@.len() as int)
                    &&& forall|i: int|
                        0 <= i < m.path@.len() ==> m.path@[i] as int == crate::flow::le32_at(
                            #[trigger] m.history@.subrange(1 + 4 * i, 5 + 4 * i),
                        )
                },
                MtFine::FTxType => {
                    &&& m.fields1@.len() == 0
                    &&& m.history@.len() == 1 + 4 * m.path@.len()
                    &&& m.history@[0] == m.path@.len()
                    &&& m.path@.len() <= MAX_PATH
                    &&& forall|i: int|
                        0 <= i < m.path@.len() ==> m.path@[i] as int == crate::flow::le32_at(
                            #[trigger] m.history@.subrange(1 + 4 * i, 5 + 4 * i),
                        )
                },
                MtFine::FLen => {
                    &&& mt_head_pinned(m)
                    &&& mt_f1_pinned(m)
                    &&& m.fields1@.len() == m.idx
                    &&& m.idx < 4
                    &&& m.history@.len() == mt_next1(m)
                },
                MtFine::FData => {
                    &&& mt_head_pinned(m)
                    &&& mt_f1_pinned(m)
                    &&& m.fields1@.len() == m.idx
                    &&& m.idx < 4
                    &&& m.cur@.len() < m.need
                    &&& m.need == m.history@[mt_next1(m)]
                    &&& m.history@.len() == mt_next1(m) + 1 + m.cur@.len()
                    &&& m.cur@ == m.history@.skip(mt_next1(m) + 1)
                },
            }
        },
        MakeTxSubState::AwaitPkh => {
            &&& m.hasher.bytes@.len() == 0
            &&& mt_head_pinned(m)
            &&& mt_f1_pinned(m)
            &&& m.fields1@.len() == 4
            &&& m.history@.len() == mt_next1(m)
        },
        MakeTxSubState::MetaNonce => {
            &&& mt_head_pinned(m)
            &&& mt_f1_pinned(m)
            &&& m.fields1@.len() == 4
            &&& mt_f2_pinned(m)
            &&& m.fields2@.len() == m.idx
            &&& m.idx < 6
            &&& m.hasher.bytes@ == mt_part1(m)
            &&& match m.fine {
                MtFine::FLen => m.history@.len() == mt_next2(m),
                MtFine::FData => {
                    &&& m.cur@.len() < m.need
                    &&& m.need == m.history@[mt_next2(m)]
                    &&& m.history@.len() == mt_next2(m) + 1 + m.cur@.len()
                    &&& m.cur@ == m.history@.skip(mt_next2(m) + 1)
                },
                _ => false,
            }
        },
        MakeTxSubState::AwaitSig => {
            &&& mt_head_pinned(m)
            &&& mt_f1_pinned(m)
            &&& m.fields1@.len() == 4
            &&& mt_f2_pinned(m)
            &&& m.fields2@.len() == 6
            &&& m.history@.len() == mt_next2(m)
            &&& m.hasher.bytes@ == mt_part1(m) + tx_json_meta(
                m.pkh@,
                m.fields2@[0]@,
                m.fields2@[1]@,
                m.fields2@[2]@,
                m.fields2@[3]@,
                m.fields2@[4]@,
                m.fields2@[5]@,
            )
        },
        _ => true,
    }
}

/// Offset of the first-stage field `k`'s length byte, read off the
/// transcript alone.
pub open spec fn mt_off1(h: Seq<u8>, k: int) -> int
    decreases k,
{
    if k <= 0 {
        2 + 4 * h[0]
    } else {
        mt_off1(h, k - 1) + 1 + h[mt_off1(h, k - 1)]
    }
}

/// Offset of the second-stage field `k`'s length byte.
pub open spec fn mt_off2(h: Seq<u8>, k: int) -> int
    decreases k,
{
    if k <= 0 {
        mt_off1(h, 4)
    } else {
        mt_off2(h, k - 1) + 1 + h[mt_off2(h, k - 1)]
    }
}

/// Whether the transcript holds the whole first stage: path, transfer
/// kind, and the four fields.
pub open spec fn mt_stage1_complete(h: Seq<u8>) -> bool {
    &&& h.len() >= 1
    &&& h[0] <= 10
    &&& h.len() == mt_off1(h, 4)
}

/// Whether the transcript holds the whole message: both stages.
pub open spec fn mt_msg_complete(h: Seq<u8>) -> bool {
    &&& h.len() >= 1
    &&& h[0] <= 10
    &&& h.len() == mt_off2(h, 6)
}

/// The field offsets grow by at least one per field.
proof fn lemma_mt_off1_mono(h: Seq<u8>, j: int, k: int)
    requires
        0 <= j <= k,
    ensures
        mt_off1(h, k) >= mt_off1(h, j) + (k - j),
    decreases k - j,
{
    if j < k {
        lemma_mt_off1_mono(h, j, k - 1);
    }
}

/// The second-stage offsets grow by at least one per field.
proof fn lemma_mt_off2_mono(h: Seq<u8>, j: int, k: int)
    requires
        0 <= j <= k,
    ensures
        mt_off2(h, k) >= mt_off2(h, j) + (k - j),
    decreases k - j,
{
    if j < k {
        lemma_mt_off2_mono(h, j, k - 1);
    }
}

/// Each recorded start is exactly the offset the transcript dictates.
proof fn lemma_mt_off1_eq(m: MakeTx, k: int)
    requires
        mt_head_pinned(m),
        mt_f1_pinned(m),
        0 <= k <= m.starts1@.len(),
    ensures
        k < m.starts1@.len() ==> mt_off1(m.history@, k) == m.starts1@[k],
        k == m.fields1@.len() ==> mt_off1(m.history@, k) == mt_next1(m),
    decreases k,
{
    if k > 0 {
        lemma_mt_off1_eq(m, k - 1);
        if k < m.starts1@.len() {
            let j = k - 1;
            assert(m.starts1@[j + 1] == m.starts1@[j] + 1 + m.history@[m.starts1@[j]]);
        }
    } else {
        if 0 < m.starts1@.len() {
            assert(m.starts1@[0] == 2 + 4 * m.path@.len());
        }
    }
}

/// Each recorded second-stage start is exactly the offset the
/// transcript dictates.
proof fn lemma_mt_off2_eq(m: MakeTx, k: int)
    requires
        mt_head_pinned(m),
        mt_f1_pinned(m),
        m.fields1@.len() == 4,
        mt_f2_pinned(m),
        0 <= k <= m.starts2@.len(),
    ensures
        k < m.starts2@.len() ==> mt_off2(m.history@, k) == m.starts2@[k],
        k == m.fields2@.len() ==> mt_off2(m.history@, k) == mt_next2(m),
    decreases k,
{
    if k > 0 {
        lemma_mt_off2_eq(m, k - 1);
        if k < m.starts2@.len() {
            let j = k - 1;
            assert(m.starts2@[j + 1] == m.starts2@[j] + 1 + m.history@[m.starts2@[j]]);
        }
    } else {
        lemma_mt_off1_eq(m, 4);
        if 0 < m.starts2@.len() {
            assert(m.starts2@[0] == mt_next1(m));
        }
    }
}

impl MakeTx {
    /// A fresh guided transfer flow, before any byte.
    pub fn init() -> (r: MakeTx)
        ensures
            make_tx_inv(r),
            r.state == MakeTxSubState::Init,
            r.history@ == Seq::<u8>::empty(),
    {
        MakeTx {
            state: MakeTxSubState::Init,
            fine: MtFine::FPathCount,
            idx: 0,
            need: 0,
            path_count: 0,
            path_elem_buf: Vec::new(),
            path: Vec::new(),
            tx_type: 0,
            fields1: Vec::new(),
            fields2: Vec::new(),
            cur: Vec::new(),
            hasher: Hasher::new(),
            pkh: Vec::new(),
            output: Vec::new(),
            history: Ghost(Seq::empty()),
            starts1: Ghost(Seq::empty()),
            starts2: Ghost(Seq::empty()),
        }
    }

    /// Feeds one chunk.  `Done` means the flow reached a pause: either
    /// the key request after the first stage, or — after the second
    /// stage, the gas prompt and the final confirmation — the signature
    /// request.
    #[verifier::rlimit(100)]
    #[verifier::spinoff_prover]
    pub fn parse(&mut self, chunk: &[u8], prompter: &mut Prompter) -> (r: StepOutcome)
        requires
            make_tx_inv(*old(self)),
            old(self).state == MakeTxSubState::Init || old(self).state
                == MakeTxSubState::PathRecipientAmount || old(self).state
                == MakeTxSubState::MetaNonce,
        ensures
            r != StepOutcome::Fatal ==> make_tx_inv(*final(self)),
            r == StepOutcome::Done ==> final(self).state == MakeTxSubState::AwaitPkh
                || final(self).state == MakeTxSubState::AwaitSig,
            r == StepOutcome::NeedMoreInput ==> final(self).state
                == MakeTxSubState::PathRecipientAmount || final(self).state
                == MakeTxSubState::MetaNonce,
            r == StepOutcome::Fatal ==> final(self).state == MakeTxSubState::Failed,
            old(prompter).log().is_prefix_of(final(prompter).log()),
            r != StepOutcome::Fatal ==> final(self).history@ == old(self).history@ + chunk@,
            r == StepOutcome::Done ==> (final(self).state == MakeTxSubState::AwaitPkh
                && mt_stage1_complete(final(self).history@)) || (final(self).state
                == MakeTxSubState::AwaitSig && mt_msg_complete(final(self).history@)),
            r == StepOutcome::NeedMoreInput ==> !mt_msg_complete(final(self).history@)
                && (final(self).state == MakeTxSubState::PathRecipientAmount
                ==> !mt_stage1_complete(final(self).history@)),
            chunk@.len() == 0 ==> r == StepOutcome::NeedMoreInput && final(self).history@
                == old(self).history@ && *final(prompter) == *old(prompter),
            old(self).state == MakeTxSubState::Init && chunk@.len() >= 1 && chunk@[0] > 10 ==> r
                == StepOutcome::Fatal,
            old(self).state == MakeTxSubState::Init && chunk@.len() >= 1 && chunk@[0] <= 10
                && chunk@.len() <= 1 + 4 * chunk@[0] ==> r == StepOutcome::NeedMoreInput,
            (old(self).state == MakeTxSubState::Init || old(self).state
                == MakeTxSubState::PathRecipientAmount) && r != StepOutcome::Fatal
                ==> *final(prompter) == *old(prompter),
            old(self).state == MakeTxSubState::MetaNonce && r != StepOutcome::Fatal ==> {
                &&& final(self).pkh@ == old(self).pkh@
                &&& final(self).fields1@ == old(self).fields1@
                &&& final(self).tx_type == old(self).tx_type
                &&& (final(self).state == MakeTxSubState::MetaNonce ==> final(self).hasher.bytes@
                    == old(self).hasher.bytes@ && *final(prompter) == *old(prompter))
                &&& (final(self).state == MakeTxSubState::AwaitSig ==> final(self).hasher.bytes@
                    == old(self).hasher.bytes@ + tx_json_meta(
                    old(self).pkh@,
                    final(self).fields2@[0]@,
                    final(self).fields2@[1]@,
                    final(self).fields2@[2]@,
                    final(self).fields2@[3]@,
                    final(self).fields2@[4]@,
                    final(self).fields2@[5]@,
                ) && final(prompter).log() == old(prompter).log().push(
                    crate::base::scroller(
                        "Paying Gas".spec_bytes(),
                        crate::cmd::gas_body(final(self).fields2@[1]@, final(self).fields2@[0]@),
                    ),
                ).push(
                    crate::base::InteractionV::Confirmation {
                        lines: seq!["Sign Transaction?".spec_bytes()],
                    },
                ))
            },
    {
        if matches!(self.state, MakeTxSubState::Init) {
            self.state = MakeTxSubState::PathRecipientAmount;
            self.fine = MtFine::FPathCount;
        }
        if chunk.len() == 0 {
            proof {
                assert(self.history@ + chunk@ =~= self.history@);
                Self::lemma_mt_reading_incomplete(*self);
            }
            return StepOutcome::NeedMoreInput;
        }
        let ghost h0 = self.history@;
        let mut i: usize = 0;
        #[verifier::loop_isolation(false)]
        while i < chunk.len()
            invariant
                i <= chunk.len(),
                make_tx_inv(*self),
                self.state == MakeTxSubState::PathRecipientAmount || self.state
                    == MakeTxSubState::MetaNonce,
                self.history@ == h0 + chunk@.take(i as int),
                old(prompter).log().is_prefix_of(prompter.log()),
                (old(self).state == MakeTxSubState::Init || old(self).state
                    == MakeTxSubState::PathRecipientAmount) ==> self.state
                    == MakeTxSubState::PathRecipientAmount && *prompter == *old(prompter),
                old(self).state == MakeTxSubState::MetaNonce ==> self.state
                    == MakeTxSubState::MetaNonce && self.pkh@ == old(self).pkh@ && self.fields1@
                    == old(self).fields1@ && self.tx_type == old(self).tx_type
                    && self.hasher.bytes@ == old(self).hasher.bytes@
                    && *prompter == *old(prompter),
            decreases chunk.len() - i,
        {
            let b = chunk[i];
            if !self.feed_byte(b, prompter) {
                self.state = MakeTxSubState::Failed;
                return StepOutcome::Fatal;
            }
            i = i + 1;
            proof {
                assert((h0 + chunk@.take(i - 1)).push(chunk@[i - 1]) =~= h0 + chunk@.take(
                    i as int,
                ));
            }
            if matches!(self.state, MakeTxSubState::AwaitPkh) || matches!(
                self.state,
                MakeTxSubState::AwaitSig,
            ) {
                if i < chunk.len() {
                    self.state = MakeTxSubState::Failed;
                    return StepOutcome::Fatal;
                }
                proof {
                    assert(chunk@.take(i as int) =~= chunk@);
                    if self.state is AwaitPkh {
                        lemma_mt_off1_eq(*self, 4);
                    } else {
                        lemma_mt_off2_eq(*self, 6);
                    }
                }
                return StepOutcome::Done;
            }
        }
        proof {
            assert(h0 + chunk@.take(chunk@.len() as int) =~= h0 + chunk@);
            Self::lemma_mt_reading_incomplete(*self);
        }
        StepOutcome::NeedMoreInput
    }

    /// While either stage is still reading, the transcript cannot yet
    /// hold the stage's whole message.
    proof fn lemma_mt_reading_incomplete(m: MakeTx)
        requires
            make_tx_inv(m),
            m.state == MakeTxSubState::PathRecipientAmount || m.state
                == MakeTxSubState::MetaNonce,
        ensures
            m.state == MakeTxSubState::PathRecipientAmount ==> !mt_stage1_complete(m.history@),
            !mt_msg_complete(m.history@),
    {
        let h = m.history@;
        if m.state == MakeTxSubState::PathRecipientAmount {
            match m.fine {
                MtFine::FPathCount => {}
                MtFine::FPathElems | MtFine::FTxType => {
                    if h.len() >= 1 && h[0] <= 10 {
                        lemma_mt_off1_mono(h, 0, 4);
                        lemma_mt_off2_mono(h, 0, 6);
                        lemma_mt_off1_mono(h, 0, 0);
                    }
                }
                MtFine::FLen => {
                    lemma_mt_off1_eq(m, m.fields1@.len() as int);
                    lemma_mt_off1_mono(h, m.fields1@.len() as int, 4);
                    lemma_mt_off2_mono(h, 0, 6);
                }
                MtFine::FData => {
                    lemma_mt_off1_eq(m, m.fields1@.len() as int);
                    lemma_mt_off1_mono(h, m.fields1@.len() + 1 as int, 4);
                    lemma_mt_off2_mono(h, 0, 6);
                }
            }
        } else {
            match m.fine {
                MtFine::FLen => {
                    lemma_mt_off2_eq(m, m.fields2@.len() as int);
                    lemma_mt_off2_mono(h, m.fields2@.len() as int, 6);
                }
                MtFine::FData => {
                    lemma_mt_off2_eq(m, m.fields2@.len() as int);
                    lemma_mt_off2_mono(h, m.fields2@.len() + 1 as int, 6);
                }
                _ => {}
            }
        }
    }

    /// Consumes one byte of either reading stage.
    #[verifier::rlimit(100)]
    #[verifier::spinoff_prover]
    fn feed_byte(&mut self, b: u8, prompter: &mut Prompter) -> (ok: bool)
        requires
            make_tx_inv(*old(self)),
            old(self).state == MakeTxSubState::PathRecipientAmount || old(self).state
                == MakeTxSubState::MetaNonce,
        ensures
            ok ==> make_tx_inv(*final(self)) && (final(self).state
                == MakeTxSubState::PathRecipientAmount || final(self).state
                == MakeTxSubState::MetaNonce || final(self).state == MakeTxSubState::AwaitPkh
                || final(self).state == MakeTxSubState::AwaitSig),
            ok ==> final(self).history@ == old(self).history@.push(b),
            old(prompter).log().is_prefix_of(final(prompter).log()),
            ok && old(self).state == MakeTxSubState::PathRecipientAmount ==> *final(prompter)
                == *old(prompter) && (final(self).state == MakeTxSubState::PathRecipientAmount
                || final(self).state == MakeTxSubState::AwaitPkh),
            !ok && old(self).state == MakeTxSubState::PathRecipientAmount ==> (old(
                self,
            ).fine is FPathCount && b > 10) || (old(self).fine is FTxType && b > 2) || (old(
                self,
            ).fine is FLen && b as int > spec_p1_size(old(self).idx as int)),
            ok && old(self).state == MakeTxSubState::MetaNonce ==> {
                &&& final(self).pkh@ == old(self).pkh@
                &&& final(self).fields1@ == old(self).fields1@
                &&& final(self).tx_type == old(self).tx_type
                &&& (final(self).state == MakeTxSubState::MetaNonce ==> final(self).hasher.bytes@
                    == old(self).hasher.bytes@ && *final(prompter) == *old(prompter))
                &&& (final(self).state == MakeTxSubState::AwaitSig ==> final(self).hasher.bytes@
                    == old(self).hasher.bytes@ + tx_json_meta(
                    old(self).pkh@,
                    final(self).fields2@[0]@,
                    final(self).fields2@[1]@,
                    final(self).fields2@[2]@,
                    final(self).fields2@[3]@,
                    final(self).fields2@[4]@,
                    final(self).fields2@[5]@,
                ) && final(prompter).log() == old(prompter).log().push(
                    crate::base::scroller(
                        "Paying Gas".spec_bytes(),
                        crate::cmd::gas_body(final(self).fields2@[1]@, final(self).fields2@[0]@),
                    ),
                ).push(
                    crate::base::InteractionV::Confirmation {
                        lines: seq!["Sign Transaction?".spec_bytes()],
                    },
                ))
            },
    {
        self.history = Ghost(self.history@.push(b));
        let ghost h = self.history@;
        let ghost g = old(self).history@;
        proof {
            assert(h.drop_last() =~= g);
        }
        if matches!(self.state, MakeTxSubState::PathRecipientAmount) {
            match self.fine {
                MtFine::FPathCount => {
                    if b as usize > MAX_PATH {
                        return false;
                    }
                    if b == 0 {
                        self.fine = MtFine::FTxType;
                    } else {
                        self.path_count = b;
                        self.path = Vec::new();
                        self.path_elem_buf = Vec::new();
                        proof {
                            assert(self.path_elem_buf@ =~= h.skip(1));
                        }
                        self.fine = MtFine::FPathElems;
                    }
                    true
                }
                MtFine::FPathElems => {
                    proof {
                        assert forall|i: int| 0 <= i < self.path@.len() implies #[trigger] h.subrange(
                            1 + 4 * i,
                            5 + 4 * i,
                        ) =~= g.subrange(1 + 4 * i, 5 + 4 * i) by {}
                    }
                    self.path_elem_buf.push(b);
                    proof {
                        assert(self.path_elem_buf@ =~= h.skip(1 + 4 * self.path@.len() as int));
                    }
                    if self.path_elem_buf.len() == 4 {
                        let v: u32 = (self.path_elem_buf[0] as u32) + 256 * (self.path_elem_buf[1]
                            as u32) + 65536 * (self.path_elem_buf[2] as u32) + 16777216
                            * (self.path_elem_buf[3] as u32);
                        let ghost p = self.path@.len() as int;
                        proof {
                            assert(self.path_elem_buf@ =~= h.subrange(1 + 4 * p, 5 + 4 * p));
                            assert(v as int == crate::flow::le32_at(
                                h.subrange(1 + 4 * p, 5 + 4 * p),
                            ));
                        }
                        self.path.push(v);
                        self.path_elem_buf = Vec::new();
                        proof {
                            assert(self.path_elem_buf@ =~= h.skip(
                                1 + 4 * self.path@.len() as int,
                            ));
                        }
                        if self.path.len() == self.path_count as usize {
                            self.fine = MtFine::FTxType;
                        }
                    }
                    true
                }
                MtFine::FTxType => {
                    if b > 2 {
                        return false;
                    }
                    proof {
                        assert forall|i: int| 0 <= i < self.path@.len() implies #[trigger] h.subrange(
                            1 + 4 * i,
                            5 + 4 * i,
                        ) =~= g.subrange(1 + 4 * i, 5 + 4 * i) by {}
                    }
                    self.tx_type = b;
                    self.idx = 0;
                    self.fields1 = Vec::new();
                    self.starts1 = Ghost(Seq::empty());
                    self.fine = MtFine::FLen;
                    true
                }
                MtFine::FLen => {
                    if b as usize > p1_size(self.idx) {
                        return false;
                    }
                    let ghost q = mt_next1(*old(self));
                    proof {
                        self.lemma_mt_push_stable(*old(self), b);
                    }
                    if b == 0 {
                        self.fields1.push(Vec::new());
                        self.starts1 = Ghost(self.starts1@.push(q));
                        proof {
                            assert(self.fields1@.last()@ =~= h.subrange(q + 1, q + 1 + h[q]));
                        }
                        self.advance_p1();
                    } else {
                        self.need = b as usize;
                        self.cur = Vec::new();
                        proof {
                            assert(self.cur@ =~= h.skip(q + 1));
                        }
                        self.fine = MtFine::FData;
                    }
                    true
                }
                MtFine::FData => {
                    let ghost q = mt_next1(*old(self));
                    proof {
                        self.lemma_mt_push_stable(*old(self), b);
                    }
                    self.cur.push(b);
                    proof {
                        assert(self.cur@ =~= h.skip(q + 1));
                    }
                    if self.cur.len() == self.need {
                        let mut done: Vec<u8> = Vec::new();
                        core::mem::swap(&mut done, &mut self.cur);
                        self.fields1.push(done);
                        self.starts1 = Ghost(self.starts1@.push(q));
                        proof {
                            assert(h.skip(q + 1) =~= h.subrange(q + 1, q + 1 + h[q]));
                            assert(self.fields1@.last()@ =~= h.subrange(q + 1, q + 1 + h[q]));
                        }
                        self.advance_p1();
                    }
                    true
                }
            }
        } else {
            match self.fine {
                MtFine::FLen => {
                    if b as usize > p2_size(self.idx) {
                        return false;
                    }
                    let ghost q = mt_next2(*old(self));
                    proof {
                        self.lemma_mt_push_stable(*old(self), b);
                    }
                    if b == 0 {
                        self.fields2.push(Vec::new());
                        self.starts2 = Ghost(self.starts2@.push(q));
                        proof {
                            assert(self.fields2@.last()@ =~= h.subrange(q + 1, q + 1 + h[q]));
                        }
                        self.advance_p2(prompter)
                    } else {
                        self.need = b as usize;
                        self.cur = Vec::new();
                        proof {
                            assert(self.cur@ =~= h.skip(q + 1));
                        }
                        self.fine = MtFine::FData;
                        true
                    }
                }
                MtFine::FData => {
                    let ghost q = mt_next2(*old(self));
                    proof {
                        self.lemma_mt_push_stable(*old(self), b);
                    }
                    self.cur.push(b);
                    proof {
                        assert(self.cur@ =~= h.skip(q + 1));
                    }
                    if self.cur.len() == self.need {
                        let mut done: Vec<u8> = Vec::new();
                        core::mem::swap(&mut done, &mut self.cur);
                        self.fields2.push(done);
                        self.starts2 = Ghost(self.starts2@.push(q));
                        proof {
                            assert(h.skip(q + 1) =~= h.subrange(q + 1, q + 1 + h[q]));
                            assert(self.fields2@.last()@ =~= h.subrange(q + 1, q + 1 + h[q]));
                        }
                        self.advance_p2(prompter)
                    } else {
                        true
                    }
                }
                _ => false,
            }
        }
    }

    /// Appending one byte to the transcript disturbs none of the pinned
    /// facts about earlier bytes.
    proof fn lemma_mt_push_stable(&self, m: MakeTx, b: u8)
        requires
            self.history@ == m.history@.push(b),
            self.path@ == m.path@,
            self.fields1@ == m.fields1@,
            self.starts1@ == m.starts1@,
            self.fields2@ == m.fields2@,
            self.starts2@ == m.starts2@,
            self.tx_type == m.tx_type,
            mt_head_pinned(m),
            mt_f1_pinned(m),
            m.state == MakeTxSubState::MetaNonce ==> mt_f2_pinned(m) && m.fields1@.len() == 4,
            m.state == MakeTxSubState::MetaNonce || m.state
                == MakeTxSubState::PathRecipientAmount,
        ensures
            mt_head_pinned(*self),
            mt_f1_pinned(*self),
            m.state == MakeTxSubState::MetaNonce ==> mt_f2_pinned(*self),
            mt_next1(*self) == mt_next1(m),
            m.state == MakeTxSubState::MetaNonce ==> mt_next2(*self) == mt_next2(m),
    {
        let h = self.history@;
        let g = m.history@;
        assert forall|i: int| 0 <= i < self.path@.len() implies #[trigger] h.subrange(
            1 + 4 * i,
            5 + 4 * i,
        ) =~= g.subrange(1 + 4 * i, 5 + 4 * i) by {}
        assert forall|j: int| 0 <= j < self.starts1@.len() implies #[trigger] self.fields1@[j]@
            == h.subrange(self.starts1@[j] + 1, self.starts1@[j] + 1 + h[self.starts1@[j]]) by {
            assert(h.subrange(self.starts1@[j] + 1, self.starts1@[j] + 1 + g[self.starts1@[j]])
                =~= g.subrange(self.starts1@[j] + 1, self.starts1@[j] + 1 + g[self.starts1@[j]]));
        }
        if m.state == MakeTxSubState::MetaNonce {
            assert forall|j: int| 0 <= j < self.starts2@.len() implies #[trigger] self.fields2@[j]@
                == h.subrange(self.starts2@[j] + 1, self.starts2@[j] + 1 + h[self.starts2@[j]]) by {
                assert(h.subrange(
                    self.starts2@[j] + 1,
                    self.starts2@[j] + 1 + g[self.starts2@[j]],
                ) =~= g.subrange(
                    self.starts2@[j] + 1,
                    self.starts2@[j] + 1 + g[self.starts2@[j]],
                ));
            }
        }
    }

    /// After one first-stage field: move on, or pause for the key.
    fn advance_p1(&mut self)
        requires
            old(self).state == MakeTxSubState::PathRecipientAmount,
            old(self).fields1@.len() == old(self).idx + 1,
            old(self).idx < 4,
            old(self).hasher.bytes@.len() == 0,
            mt_head_pinned(*old(self)),
            mt_f1_pinned(*old(self)),
            old(self).history@.len() == mt_next1(*old(self)),
        ensures
            make_tx_inv(*final(self)),
            final(self).state == MakeTxSubState::PathRecipientAmount || final(self).state
                == MakeTxSubState::AwaitPkh,
            final(self).history@ == old(self).history@,
            final(self).fields2@ == old(self).fields2@,
    {
        if self.idx == 3 {
            self.state = MakeTxSubState::AwaitPkh;
        } else {
            self.idx = self.idx + 1;
            self.fine = MtFine::FLen;
        }
    }

    /// After one second-stage field: move on, or close the transaction
    /// text, prompt for gas, and ask the final confirmation.
    fn advance_p2(&mut self, prompter: &mut Prompter) -> (ok: bool)
        requires
            old(self).state == MakeTxSubState::MetaNonce,
            old(self).fields2@.len() == old(self).idx + 1,
            old(self).idx < 6,
            old(self).fields1@.len() == 4,
            mt_head_pinned(*old(self)),
            mt_f1_pinned(*old(self)),
            mt_f2_pinned(*old(self)),
            old(self).history@.len() == mt_next2(*old(self)),
            old(self).hasher.bytes@ == mt_part1(*old(self)),
        ensures
            ok ==> make_tx_inv(*final(self)) && (final(self).state == MakeTxSubState::MetaNonce
                || final(self).state == MakeTxSubState::AwaitSig),
            final(self).history@ == old(self).history@,
            final(self).fields2@ == old(self).fields2@,
            final(self).pkh@ == old(self).pkh@,
            final(self).fields1@ == old(self).fields1@,
            final(self).tx_type == old(self).tx_type,
            old(prompter).log().is_prefix_of(final(prompter).log()),
            ok && final(self).state == MakeTxSubState::MetaNonce ==> final(self).hasher.bytes@
                == old(self).hasher.bytes@ && *final(prompter) == *old(prompter),
            ok && final(self).state == MakeTxSubState::AwaitSig ==> final(self).hasher.bytes@
                == old(self).hasher.bytes@ + tx_json_meta(
                old(self).pkh@,
                old(self).fields2@[0]@,
                old(self).fields2@[1]@,
                old(self).fields2@[2]@,
                old(self).fields2@[3]@,
                old(self).fields2@[4]@,
                old(self).fields2@[5]@,
            ) && final(prompter).log() == old(prompter).log().push(
                crate::base::scroller(
                    "Paying Gas".spec_bytes(),
                    crate::cmd::gas_body(old(self).fields2@[1]@, old(self).fields2@[0]@),
                ),
            ).push(
                crate::base::InteractionV::Confirmation {
                    lines: seq!["Sign Transaction?".spec_bytes()],
                },
            ),
    {
        if self.idx == 5 {
            let gas_price = self.fields2[0].clone();
            let gas_limit = self.fields2[1].clone();
            let creation_time = self.fields2[2].clone();
            let chain_id = self.fields2[3].clone();
            let nonce = self.fields2[4].clone();
            let ttl = self.fields2[5].clone();
            if !handle_second_prompt(
                &self.pkh,
                &mut self.hasher,
                &gas_price,
                &gas_limit,
                &creation_time,
                &chain_id,
                &nonce,
                &ttl,
                prompter,
            ) {
                return false;
            }
            let mut lines: Vec<Vec<u8>> = Vec::new();
            lines.push("Sign Transaction?".as_bytes_vec());
            let ghost lv = lines.deep_view();
            proof {
                assert(lv.len() == 1);
                assert(lv[0] == "Sign Transaction?".spec_bytes());
                assert(lv =~~= seq!["Sign Transaction?".spec_bytes()]);
            }
            if !prompter.confirm(lines) {
                return false;
            }
            self.state = MakeTxSubState::AwaitSig;
            true
        } else {
            self.idx = self.idx + 1;
            self.fine = MtFine::FLen;
            true
        }
    }

    /// Answers the key request after the first stage: the device derived
    /// the address text for the path.  The first half of the transaction
    /// text is written into the digest and the transfer is shown.
    #[verifier::rlimit(60)]
    pub fn provide_address(&mut self, pkh: Vec<u8>, prompter: &mut Prompter) -> (r: StepOutcome)
        requires
            make_tx_inv(*old(self)),
            old(self).state == MakeTxSubState::AwaitPkh,
        ensures
            r != StepOutcome::Fatal ==> {
                &&& make_tx_inv(*final(self))
                &&& final(self).state == MakeTxSubState::MetaNonce
                &&& final(self).hasher.bytes@ == tx_json_prefix(old(self).fields1@[2]@)
                    + tx_json_payload(
                    old(self).tx_type,
                    pkh@,
                    old(self).fields1@[0]@,
                    old(self).fields1@[1]@,
                    old(self).fields1@[3]@,
                )
            },
            r == StepOutcome::Fatal ==> final(self).state == MakeTxSubState::Failed,
            r != StepOutcome::NeedMoreInput,
            old(prompter).log().is_prefix_of(final(prompter).log()),
            (r == StepOutcome::Fatal) == (!(crate::base::is_utf8(old(self).fields1@[3]@)
                && crate::base::is_utf8(old(self).fields1@[0]@) && crate::base::is_utf8(
                old(self).fields1@[1]@,
            ) && crate::base::is_utf8(old(self).fields1@[2]@)) || (old(self).tx_type <= 2 && old(
                prompter,
            ).accepts_left == 0)),
            r != StepOutcome::Fatal ==> {
                let f1 = old(self).fields1@;
                &&& ((old(self).tx_type == 0 || old(self).tx_type == 1) ==> final(prompter).log()
                    == old(prompter).log().push(
                    crate::base::scroller(
                        "Transfer".spec_bytes(),
                        mt_transfer_body(pkh@, f1[0]@, f1[3]@, f1[2]@),
                    ),
                ))
                &&& (old(self).tx_type == 2 ==> final(prompter).log() == old(prompter).log().push(
                    crate::base::scroller(
                        "Transfer".spec_bytes(),
                        mt_xchain_body(pkh@, f1[0]@, f1[1]@, f1[3]@, f1[2]@),
                    ),
                ))
                &&& (old(self).tx_type > 2 ==> final(prompter).log() == old(prompter).log())
            },
            final(self).history@ == old(self).history@,
            r != StepOutcome::Fatal ==> final(self).fields1@ == old(self).fields1@
                && final(self).pkh@ == pkh@,
    {
        let recipient = self.fields1[0].clone();
        let chain = self.fields1[1].clone();
        let network = self.fields1[2].clone();
        let amount = self.fields1[3].clone();
        if !handle_first_prompt(
            &pkh,
            &mut self.hasher,
            self.tx_type,
            &recipient,
            &chain,
            &amount,
            &network,
            prompter,
        ) {
            self.state = MakeTxSubState::Failed;
            return StepOutcome::Fatal;
        }
        self.pkh = pkh;
        self.idx = 0;
        self.fields2 = Vec::new();
        self.starts2 = Ghost(Seq::empty());
        self.fine = MtFine::FLen;
        self.state = MakeTxSubState::MetaNonce;
        StepOutcome::Done
    }

    /// Answers the signature request: the reply is the signature
    /// followed by the public key, as the device handed them over.
    pub fn provide_signature(&mut self, sig: &Vec<u8>, pubkey: &Vec<u8>) -> (r: StepOutcome)
        requires
            make_tx_inv(*old(self)),
            old(self).state == MakeTxSubState::AwaitSig,
            sig@.len() == 64,
            pubkey@.len() <= 64,
        ensures
            r == StepOutcome::Done,
            make_tx_inv(*final(self)),
            final(self).state == MakeTxSubState::Done,
            final(self).output@ == sig@ + pubkey@,
            final(self).hasher.bytes@ == old(self).hasher.bytes@,
    {
        let mut out = sig.clone();
        extend_bytes(&mut out, pubkey);
        self.output = out;
        self.state = MakeTxSubState::Done;
        StepOutcome::Done
    }
}

} // verus!
