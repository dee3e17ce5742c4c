//! Token-level interpreter for the whole transaction command object.
//!
//! Fields are parsed in their canonical declared order — `nonce`, `meta`,
//! `signers`, `payload`, `networkId` — and prompted in stream order.  The
//! `meta` field is either the recognized fee/gas/chain object, prompted
//! as one combined gas screen, or any other value, prompted as a caution;
//! `payload.exec.code` and `payload.exec.data` are validated and skipped
//! (execution semantics are not re-validated here); `networkId` is shown
//! when present and silently accepted when `null`.  After the object
//! closes, the merged signer verdict gates the final warning screen.

use vstd::prelude::*;
use vstd::string::StrSliceExecFns;
use vstd::string::StringSliceAdditionalSpecFns;
use crate::anyval::{scan_accepts, scan_completes, scan_wf, ValueScan};
use crate::base::{Prompter, StepOutcome};
use crate::coverage::{fold_coverage, CapabilityCoverage};
use crate::signer::{signers_accepts, signers_inv, signers_owes_prompt, signers_rejects_text,
    SignersFold, SignersPhase};
use crate::token::{Token, TokenV};

verus! {

/// Longest accepted chain and network identifiers, in bytes.
pub const MAX_CHAIN_ID: usize = 32;

/// Longest accepted gas limit and gas price texts, in bytes.
pub const MAX_GAS_TEXT: usize = 100;

/// Body of the combined gas prompt.
pub open spec fn gas_body(limit: Seq<u8>, price: Seq<u8>) -> Seq<u8> {
    "at most ".spec_bytes() + limit + " at price ".spec_bytes() + price
}

/// Phase of the command interpreter.
#[derive(Clone, Copy, Debug, PartialEq, Eq, Structural)]
pub enum CmdPhase {
    CmFirst,
    CmKeyNonce,
    CmColonNonce,
    CmValNonce,
    CmSepNonce,
    CmKeyMeta,
    CmColonMeta,
    CmMetaAny,
    CmMetaAnyRest,
    CmMetaKeyChain,
    CmMetaColonChain,
    CmMetaValChain,
    CmMetaSepChain,
    CmMetaKeySender,
    CmMetaColonSender,
    CmMetaValSender,
    CmMetaSepSender,
    CmMetaKeyLimit,
    CmMetaColonLimit,
    CmMetaValLimit,
    CmMetaSepLimit,
    CmMetaKeyPrice,
    CmMetaColonPrice,
    CmMetaValPrice,
    CmMetaSepPrice,
    CmMetaKeyTtl,
    CmMetaColonTtl,
    CmMetaValTtl,
    CmMetaSepTtl,
    CmMetaKeyCreation,
    CmMetaColonCreation,
    CmMetaValCreation,
    CmMetaEnd,
    CmSepMeta,
    CmKeySigners,
    CmColonSigners,
    CmSigners,
    CmSepSigners,
    CmKeyPayload,
    CmColonPayload,
    CmPayStart,
    CmPayKeyExec,
    CmPayColonExec,
    CmExecStart,
    CmExecKeyData,
    CmExecColonData,
    CmExecData,
    CmExecSepData,
    CmExecKeyCode,
    CmExecColonCode,
    CmExecCode,
    CmExecEnd,
    CmPayEnd,
    CmSepPayload,
    CmKeyNet,
    CmColonNet,
    CmNetVal,
    CmEnd,
    CmDone,
}

/// Resumable interpreter for the transaction command object.
pub struct CmdInterp {
    pub phase: CmdPhase,
    pub scan: ValueScan,
    pub signers: SignersFold,
    pub gas_limit: Vec<u8>,
    pub gas_price: Vec<u8>,
}

/// Invariant of the command interpreter: the signer fold's invariant
/// holds while and after it runs, so the accumulated verdict always is
/// the fold of the per-signer verdicts.
pub open spec fn cmd_inv(c: CmdInterp) -> bool {
    match c.phase {
        CmdPhase::CmSigners => signers_inv(c.signers) && c.signers.phase != SignersPhase::SsDone,
        CmdPhase::CmSepSigners | CmdPhase::CmKeyPayload | CmdPhase::CmColonPayload
            | CmdPhase::CmPayStart | CmdPhase::CmPayKeyExec | CmdPhase::CmPayColonExec
            | CmdPhase::CmExecStart | CmdPhase::CmExecKeyData | CmdPhase::CmExecColonData
            | CmdPhase::CmExecData | CmdPhase::CmExecSepData | CmdPhase::CmExecKeyCode
            | CmdPhase::CmExecColonCode | CmdPhase::CmExecCode | CmdPhase::CmExecEnd
            | CmdPhase::CmPayEnd | CmdPhase::CmSepPayload | CmdPhase::CmKeyNet
            | CmdPhase::CmColonNet | CmdPhase::CmNetVal | CmdPhase::CmEnd | CmdPhase::CmDone
            => signers_inv(c.signers) && c.signers.phase == SignersPhase::SsDone && (c.phase
            is CmExecData ==> scan_wf(c.scan)),
        CmdPhase::CmMetaAnyRest => scan_wf(c.scan),
        _ => true,
    }
}

/// The phases that parse the recognized meta object's fields.
pub open spec fn in_meta(p: CmdPhase) -> bool {
    match p {
        CmdPhase::CmMetaKeyChain | CmdPhase::CmMetaColonChain | CmdPhase::CmMetaValChain
            | CmdPhase::CmMetaSepChain | CmdPhase::CmMetaKeySender | CmdPhase::CmMetaColonSender
            | CmdPhase::CmMetaValSender | CmdPhase::CmMetaSepSender | CmdPhase::CmMetaKeyLimit
            | CmdPhase::CmMetaColonLimit | CmdPhase::CmMetaValLimit | CmdPhase::CmMetaSepLimit
            | CmdPhase::CmMetaKeyPrice | CmdPhase::CmMetaColonPrice | CmdPhase::CmMetaValPrice
            | CmdPhase::CmMetaSepPrice | CmdPhase::CmMetaKeyTtl | CmdPhase::CmMetaColonTtl
            | CmdPhase::CmMetaValTtl | CmdPhase::CmMetaSepTtl | CmdPhase::CmMetaKeyCreation
            | CmdPhase::CmMetaColonCreation | CmdPhase::CmMetaValCreation | CmdPhase::CmMetaEnd
            => true,
        _ => false,
    }
}

/// Whether the command interpreter accepts this token in its current
/// phase: exactly its transition table, field names and size bounds
/// included.
pub open spec fn cmd_accepts(c: CmdInterp, t: TokenV) -> bool {
    match c.phase {
        CmdPhase::CmFirst | CmdPhase::CmPayStart | CmdPhase::CmExecStart => t is BeginObject,
        CmdPhase::CmKeyNonce => t matches TokenV::Str(k) && k == "nonce".spec_bytes(),
        CmdPhase::CmKeyMeta => t matches TokenV::Str(k) && k == "meta".spec_bytes(),
        CmdPhase::CmKeySigners => t matches TokenV::Str(k) && k == "signers".spec_bytes(),
        CmdPhase::CmKeyPayload => t matches TokenV::Str(k) && k == "payload".spec_bytes(),
        CmdPhase::CmKeyNet => t matches TokenV::Str(k) && k == "networkId".spec_bytes(),
        CmdPhase::CmPayKeyExec => t matches TokenV::Str(k) && k == "exec".spec_bytes(),
        CmdPhase::CmExecKeyData => t matches TokenV::Str(k) && k == "data".spec_bytes(),
        CmdPhase::CmExecKeyCode => t matches TokenV::Str(k) && k == "code".spec_bytes(),
        CmdPhase::CmMetaKeyChain => t matches TokenV::Str(k) && k == "chainId".spec_bytes(),
        CmdPhase::CmMetaKeySender => t matches TokenV::Str(k) && k == "sender".spec_bytes(),
        CmdPhase::CmMetaKeyLimit => t matches TokenV::Str(k) && k == "gasLimit".spec_bytes(),
        CmdPhase::CmMetaKeyPrice => t matches TokenV::Str(k) && k == "gasPrice".spec_bytes(),
        CmdPhase::CmMetaKeyTtl => t matches TokenV::Str(k) && k == "ttl".spec_bytes(),
        CmdPhase::CmMetaKeyCreation => t matches TokenV::Str(k) && k
            == "creationTime".spec_bytes(),
        CmdPhase::CmColonNonce | CmdPhase::CmColonMeta | CmdPhase::CmColonSigners
            | CmdPhase::CmColonPayload | CmdPhase::CmPayColonExec | CmdPhase::CmColonNet
            | CmdPhase::CmMetaColonChain | CmdPhase::CmMetaColonSender
            | CmdPhase::CmMetaColonLimit | CmdPhase::CmMetaColonPrice | CmdPhase::CmMetaColonTtl
            | CmdPhase::CmMetaColonCreation | CmdPhase::CmExecColonData
            | CmdPhase::CmExecColonCode => t is NameSeparator,
        CmdPhase::CmValNonce | CmdPhase::CmMetaValSender | CmdPhase::CmExecCode => t is Str,
        CmdPhase::CmSepNonce | CmdPhase::CmSepMeta | CmdPhase::CmSepSigners
            | CmdPhase::CmSepPayload | CmdPhase::CmMetaSepChain | CmdPhase::CmMetaSepSender
            | CmdPhase::CmMetaSepLimit | CmdPhase::CmMetaSepPrice | CmdPhase::CmMetaSepTtl
            | CmdPhase::CmExecSepData => t is ValueSeparator,
        CmdPhase::CmMetaAny => t is BeginObject || t is BeginArray || t is Str || t is Num
            || t is True || t is False || t is Null,
        CmdPhase::CmMetaAnyRest => scan_accepts(c.scan, t),
        CmdPhase::CmMetaValChain => t matches TokenV::Str(v) && v.len() <= MAX_CHAIN_ID
            && crate::base::is_utf8(v),
        CmdPhase::CmMetaValLimit | CmdPhase::CmMetaValPrice => t matches TokenV::Num(v) && v.len()
            <= MAX_GAS_TEXT && crate::base::is_utf8(v),
        CmdPhase::CmMetaValTtl | CmdPhase::CmMetaValCreation => t is Num,
        CmdPhase::CmMetaEnd | CmdPhase::CmExecEnd | CmdPhase::CmPayEnd | CmdPhase::CmEnd
            => t is EndObject,
        CmdPhase::CmSigners => signers_accepts(c.signers, t),
        CmdPhase::CmExecData => scan_accepts(c.scan, t),
        CmdPhase::CmNetVal => (t matches TokenV::Str(v) && v.len() <= MAX_CHAIN_ID
            && crate::base::is_utf8(v)) || t is Null,
        CmdPhase::CmDone => false,
    }
}

/// Whether this token makes the interpreter owe the holder a prompt.
pub open spec fn cmd_owes_prompt(c: CmdInterp, t: TokenV) -> bool {
    match c.phase {
        CmdPhase::CmFirst => true,
        CmdPhase::CmMetaValChain => t matches TokenV::Str(v) && v.len() <= MAX_CHAIN_ID
            && crate::base::is_utf8(v),
        CmdPhase::CmMetaAny => t is Str || t is Num || t is True || t is False || t is Null,
        CmdPhase::CmMetaAnyRest => scan_completes(c.scan, t),
        CmdPhase::CmMetaEnd => t is EndObject,
        CmdPhase::CmSigners => signers_owes_prompt(c.signers, t),
        CmdPhase::CmNetVal => t matches TokenV::Str(v) && v.len() <= MAX_CHAIN_ID
            && crate::base::is_utf8(v),
        CmdPhase::CmEnd => t is EndObject && !(c.signers.acc is Full),
        _ => false,
    }
}

/// Whether a closing capability inside the signer list carries argument
/// text that cannot be shown.
pub open spec fn cmd_rejects_text(c: CmdInterp, t: TokenV) -> bool {
    c.phase is CmSigners && signers_rejects_text(c.signers, t)
}

/// Whether this token is the given object key.
fn is_key(t: &Token, key: &str) -> (r: bool)
    ensures
        r == (t@ matches TokenV::Str(s) && s == key.spec_bytes()),
{
    match t {
        Token::Str(k) => crate::base::bytes_eq(k, &key.as_bytes_vec()),
        _ => false,
    }
}

impl CmdInterp {
    /// An interpreter before the first token of the command.
    pub fn new() -> (r: CmdInterp)
        ensures
            r.phase == CmdPhase::CmFirst,
            cmd_inv(r),
    {
        CmdInterp {
            phase: CmdPhase::CmFirst,
            scan: ValueScan::new(false),
            signers: SignersFold::new(),
            gas_limit: Vec::new(),
            gas_price: Vec::new(),
        }
    }

    /// Feeds one token of the command.  On `Done` the whole object has
    /// been consumed, every prompt has been accepted in stream order, and
    /// the merged signer verdict — the dominance-rule fold of each
    /// signer's verdict — has gated its warning screen.
    #[verifier::rlimit(60)]
    pub fn step(&mut self, t: &Token, prompter: &mut Prompter) -> (r: StepOutcome)
        requires
            cmd_inv(*old(self)),
            old(self).phase != CmdPhase::CmDone,
        ensures
            r != StepOutcome::Fatal ==> cmd_inv(*final(self)),
            r == StepOutcome::Done ==> {
                let f = *final(self);
                &&& f.phase == CmdPhase::CmDone
                &&& signers_inv(f.signers)
                &&& f.signers.acc == fold_coverage(f.signers.verdicts@)
                &&& (f.signers.acc is Full ==> final(prompter).log() == old(prompter).log())
                &&& (f.signers.acc is HasFallback ==> final(prompter).log() == old(
                    prompter,
                ).log().push(
                    crate::base::scroller(
                        "WARNING".spec_bytes(),
                        "Transaction too large for Ledger to display.  PROCEED WITH GREAT CAUTION.  Do you want to continue?".spec_bytes(),
                    ),
                ))
                &&& (f.signers.acc is NoCaps ==> final(prompter).log() == old(
                    prompter,
                ).log().push(
                    crate::base::scroller(
                        "WARNING".spec_bytes(),
                        "UNSAFE TRANSACTION. This transaction's code was not recognized and does not limit capabilities for all signers. Signing this transaction may make arbitrary actions on the chain including loss of all funds.".spec_bytes(),
                    ),
                ))
            },
            r == StepOutcome::NeedMoreInput ==> final(self).phase != CmdPhase::CmDone,
            old(prompter).log().is_prefix_of(final(prompter).log()),
            (r == StepOutcome::Fatal) == (!cmd_accepts(*old(self), t@) || cmd_rejects_text(
                *old(self),
                t@,
            ) || (cmd_owes_prompt(*old(self), t@) && old(prompter).accepts_left == 0)),
            (r == StepOutcome::Done) == (old(self).phase == CmdPhase::CmEnd && t@ is EndObject
                && r != StepOutcome::Fatal),
            old(self).phase == CmdPhase::CmFirst && r != StepOutcome::Fatal ==> final(prompter).log()
                == old(prompter).log().push(
                crate::base::scroller("Signing".spec_bytes(), "Transaction".spec_bytes()),
            ),
            old(self).phase == CmdPhase::CmMetaEnd && r == StepOutcome::NeedMoreInput ==> final(prompter).log()
                == old(prompter).log().push(
                crate::base::scroller(
                    "Using Gas".spec_bytes(),
                    gas_body(old(self).gas_limit@, old(self).gas_price@),
                ),
            ),
            old(self).phase == CmdPhase::CmNetVal && r == StepOutcome::NeedMoreInput ==> ((
            t@ matches TokenV::Str(n) ==> final(prompter).log() == old(prompter).log().push(
                crate::base::scroller("On Network".spec_bytes(), n),
            )) && (t@ is Null ==> final(prompter).log() == old(prompter).log())),
    {
        match self.phase {
            CmdPhase::CmFirst => {
                if !prompter.show("Signing".as_bytes_vec(), "Transaction".as_bytes_vec()) {
                    return StepOutcome::Fatal;
                }
                match t {
                    Token::BeginObject => {
                        self.phase = CmdPhase::CmKeyNonce;
                        StepOutcome::NeedMoreInput
                    }
                    _ => StepOutcome::Fatal,
                }
            }
            CmdPhase::CmKeyNonce => self.goto_if(is_key(t, "nonce"), CmdPhase::CmColonNonce),
            CmdPhase::CmColonNonce => self.goto_if(
                matches!(t, Token::NameSeparator),
                CmdPhase::CmValNonce,
            ),
            CmdPhase::CmValNonce => self.goto_if(
                matches!(t, Token::Str(_)),
                CmdPhase::CmSepNonce,
            ),
            CmdPhase::CmSepNonce => self.goto_if(
                matches!(t, Token::ValueSeparator),
                CmdPhase::CmKeyMeta,
            ),
            CmdPhase::CmKeyMeta => self.goto_if(is_key(t, "meta"), CmdPhase::CmColonMeta),
            CmdPhase::CmColonMeta => {
                match t {
                    Token::NameSeparator => {
                        self.phase = CmdPhase::CmMetaAny;
                        StepOutcome::NeedMoreInput
                    }
                    _ => StepOutcome::Fatal,
                }
            }
            CmdPhase::CmMetaAny => {
                // The alternative commits on the first token: an object
                // is read as the recognized meta shape, anything else is
                // validated, skipped, and cautioned about.
                match t {
                    Token::BeginObject => {
                        self.phase = CmdPhase::CmMetaKeyChain;
                        StepOutcome::NeedMoreInput
                    }
                    _ => {
                        self.scan = ValueScan::new(false);
                        let mut sink: Vec<u8> = Vec::new();
                        let r = self.scan.step(t, &mut sink, 0);
                        match r {
                            StepOutcome::Fatal => StepOutcome::Fatal,
                            StepOutcome::Done => self.meta_caution(prompter, CmdPhase::CmSepMeta),
                            StepOutcome::NeedMoreInput => {
                                self.phase = CmdPhase::CmMetaAnyRest;
                                StepOutcome::NeedMoreInput
                            }
                        }
                    }
                }
            }
            CmdPhase::CmMetaAnyRest => {
                let mut sink: Vec<u8> = Vec::new();
                let r = self.scan.step(t, &mut sink, 0);
                match r {
                    StepOutcome::Fatal => StepOutcome::Fatal,
                    StepOutcome::Done => self.meta_caution(prompter, CmdPhase::CmSepMeta),
                    StepOutcome::NeedMoreInput => StepOutcome::NeedMoreInput,
                }
            }
            CmdPhase::CmMetaKeyChain | CmdPhase::CmMetaColonChain | CmdPhase::CmMetaValChain
                | CmdPhase::CmMetaSepChain | CmdPhase::CmMetaKeySender
                | CmdPhase::CmMetaColonSender | CmdPhase::CmMetaValSender
                | CmdPhase::CmMetaSepSender | CmdPhase::CmMetaKeyLimit
                | CmdPhase::CmMetaColonLimit | CmdPhase::CmMetaValLimit
                | CmdPhase::CmMetaSepLimit | CmdPhase::CmMetaKeyPrice
                | CmdPhase::CmMetaColonPrice | CmdPhase::CmMetaValPrice
                | CmdPhase::CmMetaSepPrice | CmdPhase::CmMetaKeyTtl | CmdPhase::CmMetaColonTtl
                | CmdPhase::CmMetaValTtl | CmdPhase::CmMetaSepTtl | CmdPhase::CmMetaKeyCreation
                | CmdPhase::CmMetaColonCreation | CmdPhase::CmMetaValCreation
                | CmdPhase::CmMetaEnd => self.meta_step(t, prompter),
            CmdPhase::CmSepMeta => self.goto_if(
                matches!(t, Token::ValueSeparator),
                CmdPhase::CmKeySigners,
            ),
            CmdPhase::CmKeySigners => self.goto_if(is_key(t, "signers"), CmdPhase::CmColonSigners),
            CmdPhase::CmColonSigners => {
                match t {
                    Token::NameSeparator => {
                        self.signers = SignersFold::new();
                        self.phase = CmdPhase::CmSigners;
                        StepOutcome::NeedMoreInput
                    }
                    _ => StepOutcome::Fatal,
                }
            }
            CmdPhase::CmSigners => {
                let r = self.signers.step(t, prompter);
                match r {
                    StepOutcome::Fatal => StepOutcome::Fatal,
                    StepOutcome::Done => {
                        self.phase = CmdPhase::CmSepSigners;
                        StepOutcome::NeedMoreInput
                    }
                    StepOutcome::NeedMoreInput => StepOutcome::NeedMoreInput,
                }
            }
            CmdPhase::CmSepSigners => self.goto_if(
                matches!(t, Token::ValueSeparator),
                CmdPhase::CmKeyPayload,
            ),
            CmdPhase::CmKeyPayload => self.goto_if(is_key(t, "payload"), CmdPhase::CmColonPayload),
            CmdPhase::CmColonPayload => self.goto_if(
                matches!(t, Token::NameSeparator),
                CmdPhase::CmPayStart,
            ),
            CmdPhase::CmPayStart => self.goto_if(
                matches!(t, Token::BeginObject),
                CmdPhase::CmPayKeyExec,
            ),
            CmdPhase::CmPayKeyExec => self.goto_if(is_key(t, "exec"), CmdPhase::CmPayColonExec),
            CmdPhase::CmPayColonExec => self.goto_if(
                matches!(t, Token::NameSeparator),
                CmdPhase::CmExecStart,
            ),
            CmdPhase::CmExecStart => self.goto_if(
                matches!(t, Token::BeginObject),
                CmdPhase::CmExecKeyData,
            ),
            CmdPhase::CmExecKeyData => self.goto_if(is_key(t, "data"), CmdPhase::CmExecColonData),
            CmdPhase::CmExecColonData => {
                match t {
                    Token::NameSeparator => {
                        self.scan = ValueScan::new(false);
                        self.phase = CmdPhase::CmExecData;
                        StepOutcome::NeedMoreInput
                    }
                    _ => StepOutcome::Fatal,
                }
            }
            CmdPhase::CmExecData => {
                let mut sink: Vec<u8> = Vec::new();
                let r = self.scan.step(t, &mut sink, 0);
                match r {
                    StepOutcome::Fatal => StepOutcome::Fatal,
                    StepOutcome::Done => {
                        self.phase = CmdPhase::CmExecSepData;
                        StepOutcome::NeedMoreInput
                    }
                    StepOutcome::NeedMoreInput => StepOutcome::NeedMoreInput,
                }
            }
            CmdPhase::CmExecSepData => self.goto_if(
                matches!(t, Token::ValueSeparator),
                CmdPhase::CmExecKeyCode,
            ),
            CmdPhase::CmExecKeyCode => self.goto_if(is_key(t, "code"), CmdPhase::CmExecColonCode),
            CmdPhase::CmExecColonCode => self.goto_if(
                matches!(t, Token::NameSeparator),
                CmdPhase::CmExecCode,
            ),
            CmdPhase::CmExecCode => self.goto_if(
                matches!(t, Token::Str(_)),
                CmdPhase::CmExecEnd,
            ),
            CmdPhase::CmExecEnd => self.goto_if(
                matches!(t, Token::EndObject),
                CmdPhase::CmPayEnd,
            ),
            CmdPhase::CmPayEnd => self.goto_if(
                matches!(t, Token::EndObject),
                CmdPhase::CmSepPayload,
            ),
            CmdPhase::CmSepPayload => self.goto_if(
                matches!(t, Token::ValueSeparator),
                CmdPhase::CmKeyNet,
            ),
            CmdPhase::CmKeyNet => self.goto_if(is_key(t, "networkId"), CmdPhase::CmColonNet),
            CmdPhase::CmColonNet => self.goto_if(
                matches!(t, Token::NameSeparator),
                CmdPhase::CmNetVal,
            ),
            CmdPhase::CmNetVal => {
                match t {
                    Token::Str(s) => {
                        if s.len() <= MAX_CHAIN_ID && crate::base::check_utf8(s) {
                            if !prompter.show("On Network".as_bytes_vec(), s.clone()) {
                                return StepOutcome::Fatal;
                            }
                            self.phase = CmdPhase::CmEnd;
                            StepOutcome::NeedMoreInput
                        } else {
                            StepOutcome::Fatal
                        }
                    }
                    Token::Null => {
                        self.phase = CmdPhase::CmEnd;
                        StepOutcome::NeedMoreInput
                    }
                    _ => StepOutcome::Fatal,
                }
            }
            CmdPhase::CmEnd => {
                match t {
                    Token::EndObject => {
                        match self.signers.acc {
                            CapabilityCoverage::Full => {}
                            CapabilityCoverage::HasFallback => {
                                if !prompter.show(
                                    "WARNING".as_bytes_vec(),
                                    "Transaction too large for Ledger to display.  PROCEED WITH GREAT CAUTION.  Do you want to continue?".as_bytes_vec(),
                                ) {
                                    return StepOutcome::Fatal;
                                }
                            }
                            CapabilityCoverage::NoCaps => {
                                if !prompter.show(
                                    "WARNING".as_bytes_vec(),
                                    "UNSAFE TRANSACTION. This transaction's code was not recognized and does not limit capabilities for all signers. Signing this transaction may make arbitrary actions on the chain including loss of all funds.".as_bytes_vec(),
                                ) {
                                    return StepOutcome::Fatal;
                                }
                            }
                        }
                        self.phase = CmdPhase::CmDone;
                        StepOutcome::Done
                    }
                    _ => StepOutcome::Fatal,
                }
            }
            CmdPhase::CmDone => StepOutcome::Fatal,
        }
    }


    /// Feeds one token of the recognized meta object: chain, sender, gas
    /// limit, gas price, ttl and creation time in declared order, closed
    /// by the combined gas prompt.
    fn meta_step(&mut self, t: &Token, prompter: &mut Prompter) -> (r: StepOutcome)
        requires
            in_meta(old(self).phase),
        ensures
            r != StepOutcome::Fatal ==> (in_meta(final(self).phase) || final(self).phase
                == CmdPhase::CmSepMeta) && final(self).signers == old(self).signers,
            r != StepOutcome::Done,
            (r == StepOutcome::Fatal) == (!cmd_accepts(*old(self), t@) || (cmd_owes_prompt(
                *old(self),
                t@,
            ) && old(prompter).accepts_left == 0)),
            old(prompter).log().is_prefix_of(final(prompter).log()),
            old(self).phase == CmdPhase::CmMetaValChain && r == StepOutcome::NeedMoreInput ==> (
            t@ matches TokenV::Str(c) && final(prompter).log() == old(prompter).log().push(
                crate::base::scroller("On Chain".spec_bytes(), c),
            )),
            old(self).phase == CmdPhase::CmMetaValLimit && r == StepOutcome::NeedMoreInput ==> (
            t@ matches TokenV::Num(x) && final(self).gas_limit@ == x),
            old(self).phase == CmdPhase::CmMetaValPrice && r == StepOutcome::NeedMoreInput ==> (
            t@ matches TokenV::Num(x) && final(self).gas_price@ == x),
            old(self).phase == CmdPhase::CmMetaEnd && r == StepOutcome::NeedMoreInput ==> final(prompter).log()
                == old(prompter).log().push(
                crate::base::scroller(
                    "Using Gas".spec_bytes(),
                    gas_body(old(self).gas_limit@, old(self).gas_price@),
                ),
            ),
    {
        match self.phase {
            CmdPhase::CmMetaKeyChain => self.goto_if(
                is_key(t, "chainId"),
                CmdPhase::CmMetaColonChain,
            ),
            CmdPhase::CmMetaColonChain => self.goto_if(
                matches!(t, Token::NameSeparator),
                CmdPhase::CmMetaValChain,
            ),
            CmdPhase::CmMetaValChain => {
                match t {
                    Token::Str(s) => {
                        if s.len() <= MAX_CHAIN_ID && crate::base::check_utf8(s) {
                            if !prompter.show("On Chain".as_bytes_vec(), s.clone()) {
                                return StepOutcome::Fatal;
                            }
                            self.phase = CmdPhase::CmMetaSepChain;
                            StepOutcome::NeedMoreInput
                        } else {
                            StepOutcome::Fatal
                        }
                    }
                    _ => StepOutcome::Fatal,
                }
            }
            CmdPhase::CmMetaSepChain => self.goto_if(
                matches!(t, Token::ValueSeparator),
                CmdPhase::CmMetaKeySender,
            ),
            CmdPhase::CmMetaKeySender => self.goto_if(
                is_key(t, "sender"),
                CmdPhase::CmMetaColonSender,
            ),
            CmdPhase::CmMetaColonSender => self.goto_if(
                matches!(t, Token::NameSeparator),
                CmdPhase::CmMetaValSender,
            ),
            CmdPhase::CmMetaValSender => self.goto_if(
                matches!(t, Token::Str(_)),
                CmdPhase::CmMetaSepSender,
            ),
            CmdPhase::CmMetaSepSender => self.goto_if(
                matches!(t, Token::ValueSeparator),
                CmdPhase::CmMetaKeyLimit,
            ),
            CmdPhase::CmMetaKeyLimit => self.goto_if(
                is_key(t, "gasLimit"),
                CmdPhase::CmMetaColonLimit,
            ),
            CmdPhase::CmMetaColonLimit => self.goto_if(
                matches!(t, Token::NameSeparator),
                CmdPhase::CmMetaValLimit,
            ),
            CmdPhase::CmMetaValLimit => {
                match t {
                    Token::Num(s) => {
                        if s.len() <= MAX_GAS_TEXT && crate::base::check_utf8(s) {
                            self.gas_limit = s.clone();
                            self.phase = CmdPhase::CmMetaSepLimit;
                            StepOutcome::NeedMoreInput
                        } else {
                            StepOutcome::Fatal
                        }
                    }
                    _ => StepOutcome::Fatal,
                }
            }
            CmdPhase::CmMetaSepLimit => self.goto_if(
                matches!(t, Token::ValueSeparator),
                CmdPhase::CmMetaKeyPrice,
            ),
            CmdPhase::CmMetaKeyPrice => self.goto_if(
                is_key(t, "gasPrice"),
                CmdPhase::CmMetaColonPrice,
            ),
            CmdPhase::CmMetaColonPrice => self.goto_if(
                matches!(t, Token::NameSeparator),
                CmdPhase::CmMetaValPrice,
            ),
            CmdPhase::CmMetaValPrice => {
                match t {
                    Token::Num(s) => {
                        if s.len() <= MAX_GAS_TEXT && crate::base::check_utf8(s) {
                            self.gas_price = s.clone();
                            self.phase = CmdPhase::CmMetaSepPrice;
                            StepOutcome::NeedMoreInput
                        } else {
                            StepOutcome::Fatal
                        }
                    }
                    _ => StepOutcome::Fatal,
                }
            }
            CmdPhase::CmMetaSepPrice => self.goto_if(
                matches!(t, Token::ValueSeparator),
                CmdPhase::CmMetaKeyTtl,
            ),
            CmdPhase::CmMetaKeyTtl => self.goto_if(is_key(t, "ttl"), CmdPhase::CmMetaColonTtl),
            CmdPhase::CmMetaColonTtl => self.goto_if(
                matches!(t, Token::NameSeparator),
                CmdPhase::CmMetaValTtl,
            ),
            CmdPhase::CmMetaValTtl => self.goto_if(
                matches!(t, Token::Num(_)),
                CmdPhase::CmMetaSepTtl,
            ),
            CmdPhase::CmMetaSepTtl => self.goto_if(
                matches!(t, Token::ValueSeparator),
                CmdPhase::CmMetaKeyCreation,
            ),
            CmdPhase::CmMetaKeyCreation => self.goto_if(
                is_key(t, "creationTime"),
                CmdPhase::CmMetaColonCreation,
            ),
            CmdPhase::CmMetaColonCreation => self.goto_if(
                matches!(t, Token::NameSeparator),
                CmdPhase::CmMetaValCreation,
            ),
            CmdPhase::CmMetaValCreation => self.goto_if(
                matches!(t, Token::Num(_)),
                CmdPhase::CmMetaEnd,
            ),
            CmdPhase::CmMetaEnd => {
                match t {
                    Token::EndObject => {
                        let mut body = "at most ".as_bytes_vec();
                        crate::base::extend_bytes(&mut body, &self.gas_limit);
                        crate::base::extend_bytes(&mut body, &" at price ".as_bytes_vec());
                        crate::base::extend_bytes(&mut body, &self.gas_price);
                        assert(body@ =~= gas_body(self.gas_limit@, self.gas_price@));
                        if !prompter.show("Using Gas".as_bytes_vec(), body) {
                            return StepOutcome::Fatal;
                        }
                        self.phase = CmdPhase::CmSepMeta;
                        StepOutcome::NeedMoreInput
                    }
                    _ => StepOutcome::Fatal,
                }
            }
            _ => StepOutcome::Fatal,
        }
    }

    /// Moves to `next` when `ok` holds, otherwise fails.
    fn goto_if(&mut self, ok: bool, next: CmdPhase) -> (r: StepOutcome)
        requires
            cmd_inv(*old(self)),
            match next {
                CmdPhase::CmSigners | CmdPhase::CmDone | CmdPhase::CmExecData
                    | CmdPhase::CmMetaAnyRest => false,
                CmdPhase::CmSepSigners | CmdPhase::CmKeyPayload | CmdPhase::CmColonPayload
                    | CmdPhase::CmPayStart | CmdPhase::CmPayKeyExec | CmdPhase::CmPayColonExec
                    | CmdPhase::CmExecStart | CmdPhase::CmExecKeyData | CmdPhase::CmExecColonData
                    | CmdPhase::CmExecSepData | CmdPhase::CmExecKeyCode
                    | CmdPhase::CmExecColonCode | CmdPhase::CmExecCode | CmdPhase::CmExecEnd
                    | CmdPhase::CmPayEnd | CmdPhase::CmSepPayload | CmdPhase::CmKeyNet
                    | CmdPhase::CmColonNet | CmdPhase::CmNetVal | CmdPhase::CmEnd => signers_inv(
                    old(self).signers,
                ) && old(self).signers.phase == SignersPhase::SsDone,
                _ => true,
            },
        ensures
            r != StepOutcome::Fatal ==> cmd_inv(*final(self)) && final(self).phase == next,
            r != StepOutcome::Done,
            r == StepOutcome::Fatal ==> *final(self) == *old(self),
            final(self).signers == old(self).signers,
            (r == StepOutcome::Fatal) == !ok,
    {
        if ok {
            self.phase = next;
            StepOutcome::NeedMoreInput
        } else {
            StepOutcome::Fatal
        }
    }

    /// Shows the caution that the `meta` field was not recognized.
    fn meta_caution(&mut self, prompter: &mut Prompter, next: CmdPhase) -> (r: StepOutcome)
        requires
            next == CmdPhase::CmSepMeta,
        ensures
            r != StepOutcome::Fatal ==> cmd_inv(*final(self)) && final(self).phase == next,
            r != StepOutcome::Done,
            old(prompter).log().is_prefix_of(final(prompter).log()),
            (r == StepOutcome::Fatal) == (old(prompter).accepts_left == 0),
    {
        if !prompter.show(
            "CAUTION".as_bytes_vec(),
            "'meta' field of transaction not recognized".as_bytes_vec(),
        ) {
            return StepOutcome::Fatal;
        }
        self.phase = next;
        StepOutcome::NeedMoreInput
    }
}

} // verus!
