//! Parsing of one signer object and the streaming fold over the signer
//! list.
//!
//! A signer is `{"scheme": "...", "pubKey": "...", "addr": "...",
//! "clist": null | [...]}`, fields in that order.  Its public key is
//! shown as it streams by; its capability list yields a per-signer
//! coverage verdict, and the fold over all signers merges the verdicts
//! under the dominance rule.

use vstd::prelude::*;
use vstd::string::StrSliceExecFns;
use vstd::string::StringSliceAdditionalSpecFns;
use crate::base::{Prompter, StepOutcome};
use crate::clist::{cap_accepts, clist_accepts, clist_inv, clist_owes_prompt, clist_rejects_text,
    fold_caps, CapPhase, ClistFold, ClistPhase};
use crate::coverage::{fold_coverage, CapabilityCoverage, CapCountData};
use crate::token::{Token, TokenV};

verus! {

/// Longest accepted signer public key, in bytes.
pub const MAX_PUBKEY: usize = 64;

/// Phase of the signer-object parser.
#[derive(Clone, Copy, Debug, PartialEq, Eq, Structural)]
pub enum SignerPhase {
    SgStart,
    SgKeyScheme,
    SgColonScheme,
    SgValScheme,
    SgSepScheme,
    SgKeyPub,
    SgColonPub,
    SgValPub,
    SgSepPub,
    SgKeyAddr,
    SgColonAddr,
    SgValAddr,
    SgSepAddr,
    SgKeyClist,
    SgColonClist,
    SgClistVal,
    SgClist,
    SgEnd,
}

/// Resumable parser for one signer object.
pub struct SignerParser {
    pub phase: SignerPhase,
    pub pubkey: Vec<u8>,
    pub clist: ClistFold,
    pub clist_was_array: bool,
}

/// The verdict of one signer: `Full` or `HasFallback` when a capability
/// list was present, typed as an array and counted at least one
/// capability; `NoCaps` otherwise.
pub open spec fn signer_verdict(was_array: bool, counts: CapCountData, all: bool) -> CapabilityCoverage {
    if was_array && counts is CapCount && counts->CapCount_total_caps > 0 {
        if all {
            CapabilityCoverage::Full
        } else {
            CapabilityCoverage::HasFallback
        }
    } else {
        CapabilityCoverage::NoCaps
    }
}

/// Whether the signer parser accepts this token in its current phase:
/// exactly its transition table.
pub open spec fn signer_accepts(s: SignerParser, t: TokenV) -> bool {
    match s.phase {
        SignerPhase::SgStart => t is BeginObject,
        SignerPhase::SgKeyScheme => t matches TokenV::Str(k) && k == "scheme".spec_bytes(),
        SignerPhase::SgColonScheme | SignerPhase::SgColonPub | SignerPhase::SgColonAddr
            | SignerPhase::SgColonClist => t is NameSeparator,
        SignerPhase::SgValScheme | SignerPhase::SgValAddr => t is Str,
        SignerPhase::SgSepScheme | SignerPhase::SgSepPub | SignerPhase::SgSepAddr
            => t is ValueSeparator,
        SignerPhase::SgKeyPub => t matches TokenV::Str(k) && k == "pubKey".spec_bytes(),
        SignerPhase::SgValPub => t matches TokenV::Str(k) && k.len() <= MAX_PUBKEY
            && crate::base::is_utf8(k),
        SignerPhase::SgKeyAddr => t matches TokenV::Str(k) && k == "addr".spec_bytes(),
        SignerPhase::SgKeyClist => t matches TokenV::Str(k) && k == "clist".spec_bytes(),
        SignerPhase::SgClistVal => t is Null || t is BeginArray,
        SignerPhase::SgClist => clist_accepts(s.clist, t),
        SignerPhase::SgEnd => t is EndObject,
    }
}

/// Whether this token makes the signer parser owe the holder a prompt:
/// its public key, a closing capability's screen, or the unscoped-signer
/// warning.
pub open spec fn signer_owes_prompt(s: SignerParser, t: TokenV) -> bool {
    ||| (s.phase is SgValPub && (t matches TokenV::Str(k) && k.len() <= MAX_PUBKEY
        && crate::base::is_utf8(k)))
    ||| (s.phase is SgClist && clist_owes_prompt(s.clist, t))
    ||| (s.phase is SgEnd && t is EndObject && signer_verdict(
        s.clist_was_array,
        s.clist.acc_counts,
        s.clist.all_safe,
    ) is NoCaps)
}

/// Whether the closing capability of the signer's list carries argument
/// text that cannot be shown.
pub open spec fn signer_rejects_text(s: SignerParser, t: TokenV) -> bool {
    s.phase is SgClist && clist_rejects_text(s.clist, t)
}

/// Invariant of the signer parser.
pub open spec fn signer_inv(s: SignerParser) -> bool {
    match s.phase {
        SignerPhase::SgClist => clist_inv(s.clist) && s.clist.phase != ClistPhase::ClDone,
        SignerPhase::SgEnd => clist_inv(s.clist),
        _ => true,
    }
}

impl SignerParser {
    /// A parser before the signer's opening brace.
    pub fn new() -> (r: SignerParser)
        ensures
            r.phase == SignerPhase::SgStart,
            signer_inv(r),
    {
        SignerParser {
            phase: SignerPhase::SgStart,
            pubkey: Vec::new(),
            clist: ClistFold::new(),
            clist_was_array: false,
        }
    }

    /// Feeds one token of the signer object.  The signer's public key is
    /// shown as soon as it is read; on `Done` the per-signer verdict is
    /// settled, and an unscoped signer has been pointed out to the
    /// holder.
    pub fn step(&mut self, t: &Token, prompter: &mut Prompter, verdict: &mut Option<
        CapabilityCoverage,
    >) -> (r: StepOutcome)
        requires
            signer_inv(*old(self)),
        ensures
            r != StepOutcome::Fatal ==> signer_inv(*final(self)),
            old(prompter).log().is_prefix_of(final(prompter).log()),
            r == StepOutcome::Done ==> {
                let f = *final(self);
                &&& clist_inv(f.clist)
                &&& *final(verdict) == Some(
                    signer_verdict(f.clist_was_array, f.clist.acc_counts, f.clist.all_safe),
                )
                &&& (f.clist.acc_counts, f.clist.all_safe) == fold_caps(f.clist.contribs@)
                &&& (signer_verdict(f.clist_was_array, f.clist.acc_counts, f.clist.all_safe)
                    is NoCaps ==> final(prompter).log() == old(prompter).log().push(
                    crate::base::scroller("Unscoped Signer".spec_bytes(), f.pubkey@),
                ))
                &&& (!(signer_verdict(f.clist_was_array, f.clist.acc_counts, f.clist.all_safe)
                    is NoCaps) ==> final(prompter).log() == old(prompter).log())
            },
            r != StepOutcome::Done ==> *final(verdict) == *old(verdict),
            old(self).phase == SignerPhase::SgValPub && r == StepOutcome::NeedMoreInput ==> (
            t@ matches TokenV::Str(k) && final(self).pubkey@ == k && final(prompter).log() == old(
                prompter,
            ).log().push(crate::base::scroller("Of Key".spec_bytes(), k))),
            (r == StepOutcome::Fatal) == (!signer_accepts(*old(self), t@) || signer_rejects_text(
                *old(self),
                t@,
            ) || (signer_owes_prompt(*old(self), t@) && old(prompter).accepts_left == 0)),
            (r == StepOutcome::Done) == (old(self).phase == SignerPhase::SgEnd && t@ is EndObject
                && r != StepOutcome::Fatal),
    {
        match self.phase {
            SignerPhase::SgStart => {
                match t {
                    Token::BeginObject => {
                        self.phase = SignerPhase::SgKeyScheme;
                        StepOutcome::NeedMoreInput
                    }
                    _ => StepOutcome::Fatal,
                }
            }
            SignerPhase::SgKeyScheme => self.expect_key(t, "scheme", SignerPhase::SgColonScheme),
            SignerPhase::SgColonScheme => self.expect_colon(t, SignerPhase::SgValScheme),
            SignerPhase::SgValScheme => {
                match t {
                    Token::Str(_) => {
                        self.phase = SignerPhase::SgSepScheme;
                        StepOutcome::NeedMoreInput
                    }
                    _ => StepOutcome::Fatal,
                }
            }
            SignerPhase::SgSepScheme => self.expect_comma(t, SignerPhase::SgKeyPub),
            SignerPhase::SgKeyPub => self.expect_key(t, "pubKey", SignerPhase::SgColonPub),
            SignerPhase::SgColonPub => self.expect_colon(t, SignerPhase::SgValPub),
            SignerPhase::SgValPub => {
                match t {
                    Token::Str(s) => {
                        if s.len() <= MAX_PUBKEY && crate::base::check_utf8(s) {
                            self.pubkey = s.clone();
                            if !prompter.show("Of Key".as_bytes_vec(), s.clone()) {
                                return StepOutcome::Fatal;
                            }
                            self.phase = SignerPhase::SgSepPub;
                            StepOutcome::NeedMoreInput
                        } else {
                            StepOutcome::Fatal
                        }
                    }
                    _ => StepOutcome::Fatal,
                }
            }
            SignerPhase::SgSepPub => self.expect_comma(t, SignerPhase::SgKeyAddr),
            SignerPhase::SgKeyAddr => self.expect_key(t, "addr", SignerPhase::SgColonAddr),
            SignerPhase::SgColonAddr => self.expect_colon(t, SignerPhase::SgValAddr),
            SignerPhase::SgValAddr => {
                match t {
                    Token::Str(_) => {
                        self.phase = SignerPhase::SgSepAddr;
                        StepOutcome::NeedMoreInput
                    }
                    _ => StepOutcome::Fatal,
                }
            }
            SignerPhase::SgSepAddr => self.expect_comma(t, SignerPhase::SgKeyClist),
            SignerPhase::SgKeyClist => self.expect_key(t, "clist", SignerPhase::SgColonClist),
            SignerPhase::SgColonClist => self.expect_colon(t, SignerPhase::SgClistVal),
            SignerPhase::SgClistVal => {
                match t {
                    Token::Null => {
                        self.clist_was_array = false;
                        self.clist = ClistFold::new();
                        self.phase = SignerPhase::SgEnd;
                        StepOutcome::NeedMoreInput
                    }
                    Token::BeginArray => {
                        self.clist_was_array = true;
                        self.clist = ClistFold::new();
                        let r = self.clist.step(t, prompter);
                        match r {
                            StepOutcome::Fatal => StepOutcome::Fatal,
                            StepOutcome::Done => {
                                self.phase = SignerPhase::SgEnd;
                                StepOutcome::NeedMoreInput
                            }
                            StepOutcome::NeedMoreInput => {
                                self.phase = SignerPhase::SgClist;
                                StepOutcome::NeedMoreInput
                            }
                        }
                    }
                    _ => StepOutcome::Fatal,
                }
            }
            SignerPhase::SgClist => {
                let r = self.clist.step(t, prompter);
                match r {
                    StepOutcome::Fatal => StepOutcome::Fatal,
                    StepOutcome::Done => {
                        self.phase = SignerPhase::SgEnd;
                        StepOutcome::NeedMoreInput
                    }
                    StepOutcome::NeedMoreInput => StepOutcome::NeedMoreInput,
                }
            }
            SignerPhase::SgEnd => {
                match t {
                    Token::EndObject => {
                        let counted = match &self.clist.acc_counts {
                            CapCountData::CapCount { total_caps, .. } => *total_caps > 0,
                            _ => false,
                        };
                        let v = if self.clist_was_array && counted {
                            if self.clist.all_safe {
                                CapabilityCoverage::Full
                            } else {
                                CapabilityCoverage::HasFallback
                            }
                        } else {
                            CapabilityCoverage::NoCaps
                        };
                        if v == CapabilityCoverage::NoCaps {
                            if !prompter.show(
                                "Unscoped Signer".as_bytes_vec(),
                                self.pubkey.clone(),
                            ) {
                                return StepOutcome::Fatal;
                            }
                        }
                        *verdict = Some(v);
                        StepOutcome::Done
                    }
                    _ => StepOutcome::Fatal,
                }
            }
        }
    }

    /// Expects the given object key.
    fn expect_key(&mut self, t: &Token, key: &str, next: SignerPhase) -> (r: StepOutcome)
        requires
            signer_inv(*old(self)),
            !(next is SgClist),
            !(next is SgEnd),
        ensures
            r != StepOutcome::Fatal ==> signer_inv(*final(self)) && final(self).phase == next,
            r != StepOutcome::Done,
            (r == StepOutcome::Fatal) == !(t@ matches TokenV::Str(k) && k == key.spec_bytes()),
            final(self).pubkey == old(self).pubkey,
            final(self).clist == old(self).clist,
            final(self).clist_was_array == old(self).clist_was_array,
    {
        match t {
            Token::Str(k) => {
                if crate::base::bytes_eq(k, &key.as_bytes_vec()) {
                    self.phase = next;
                    StepOutcome::NeedMoreInput
                } else {
                    StepOutcome::Fatal
                }
            }
            _ => StepOutcome::Fatal,
        }
    }

    /// Expects the `:` between a key and its value.
    fn expect_colon(&mut self, t: &Token, next: SignerPhase) -> (r: StepOutcome)
        requires
            signer_inv(*old(self)),
            !(next is SgClist),
            !(next is SgEnd),
        ensures
            r != StepOutcome::Fatal ==> signer_inv(*final(self)) && final(self).phase == next,
            r != StepOutcome::Done,
            (r == StepOutcome::Fatal) == !(t@ is NameSeparator),
            final(self).pubkey == old(self).pubkey,
            final(self).clist == old(self).clist,
            final(self).clist_was_array == old(self).clist_was_array,
    {
        match t {
            Token::NameSeparator => {
                self.phase = next;
                StepOutcome::NeedMoreInput
            }
            _ => StepOutcome::Fatal,
        }
    }

    /// Expects the `,` between two fields.
    fn expect_comma(&mut self, t: &Token, next: SignerPhase) -> (r: StepOutcome)
        requires
            signer_inv(*old(self)),
            !(next is SgClist),
            !(next is SgEnd),
        ensures
            r != StepOutcome::Fatal ==> signer_inv(*final(self)) && final(self).phase == next,
            r != StepOutcome::Done,
            (r == StepOutcome::Fatal) == !(t@ is ValueSeparator),
            final(self).pubkey == old(self).pubkey,
            final(self).clist == old(self).clist,
            final(self).clist_was_array == old(self).clist_was_array,
    {
        match t {
            Token::ValueSeparator => {
                self.phase = next;
                StepOutcome::NeedMoreInput
            }
            _ => StepOutcome::Fatal,
        }
    }
}

/// Whether the signer-list fold accepts this token in its current phase.
pub open spec fn signers_accepts(f: SignersFold, t: TokenV) -> bool {
    match f.phase {
        SignersPhase::SsStart => t is BeginArray,
        SignersPhase::SsFirst => t is EndArray || t is BeginObject,
        SignersPhase::SsElem => signer_accepts(f.elem, t),
        SignersPhase::SsSep => t is ValueSeparator || t is EndArray,
        SignersPhase::SsDone => false,
    }
}

/// Whether this token makes the fold owe the holder a prompt: the fixed
/// reminder before each signer, or one owed inside the signer.
pub open spec fn signers_owes_prompt(f: SignersFold, t: TokenV) -> bool {
    ||| (f.phase is SsFirst && !(t is EndArray))
    ||| (f.phase is SsSep && t is ValueSeparator)
    ||| (f.phase is SsElem && signer_owes_prompt(f.elem, t))
}

/// Whether a closing capability inside the current signer carries
/// argument text that cannot be shown.
pub open spec fn signers_rejects_text(f: SignersFold, t: TokenV) -> bool {
    f.phase is SsElem && signer_rejects_text(f.elem, t)
}

/// Phase of the signer-list fold.
#[derive(Clone, Copy, Debug, PartialEq, Eq, Structural)]
pub enum SignersPhase {
    SsStart,
    SsFirst,
    SsElem,
    SsSep,
    SsDone,
}

/// Streaming fold over the signer list: the running merged verdict and
/// the current signer's parse state are all that is held.  The ghost
/// `verdicts` records each signer's verdict in stream order.
pub struct SignersFold {
    pub phase: SignersPhase,
    pub elem: SignerParser,
    pub acc: CapabilityCoverage,
    pub verdicts: Ghost<Seq<CapabilityCoverage>>,
}

/// Invariant of the fold: the accumulator is exactly the dominance-rule
/// fold of the verdicts seen so far.
pub open spec fn signers_inv(f: SignersFold) -> bool {
    &&& f.acc == fold_coverage(f.verdicts@)
    &&& (f.phase == SignersPhase::SsElem ==> signer_inv(f.elem))
}

impl SignersFold {
    /// A fold before the list's opening bracket, at the identity
    /// verdict.
    pub fn new() -> (r: SignersFold)
        ensures
            signers_inv(r),
            r.phase == SignersPhase::SsStart,
            r.verdicts@ == Seq::<CapabilityCoverage>::empty(),
    {
        SignersFold {
            phase: SignersPhase::SsStart,
            elem: SignerParser::new(),
            acc: CapabilityCoverage::zero(),
            verdicts: Ghost(Seq::empty()),
        }
    }

    /// Feeds one token of the signer list.  Before each signer begins, a
    /// fixed reminder that capabilities are being required is shown.  On
    /// `Done` the accumulator is the merged verdict of every signer.
    pub fn step(&mut self, t: &Token, prompter: &mut Prompter) -> (r: StepOutcome)
        requires
            signers_inv(*old(self)),
            old(self).phase != SignersPhase::SsDone,
        ensures
            r != StepOutcome::Fatal ==> signers_inv(*final(self)),
            r == StepOutcome::Done ==> final(self).phase == SignersPhase::SsDone && final(self).acc
                == fold_coverage(final(self).verdicts@),
            r == StepOutcome::NeedMoreInput ==> final(self).phase != SignersPhase::SsDone,
            old(prompter).log().is_prefix_of(final(prompter).log()),
            (r == StepOutcome::Fatal) == (!signers_accepts(*old(self), t@) || signers_rejects_text(
                *old(self),
                t@,
            ) || (signers_owes_prompt(*old(self), t@) && old(prompter).accepts_left == 0)),
            (r == StepOutcome::Done) == ((old(self).phase is SsFirst || old(self).phase is SsSep)
                && t@ is EndArray),
    {
        match self.phase {
            SignersPhase::SsStart => {
                match t {
                    Token::BeginArray => {
                        self.phase = SignersPhase::SsFirst;
                        StepOutcome::NeedMoreInput
                    }
                    _ => StepOutcome::Fatal,
                }
            }
            SignersPhase::SsFirst => {
                match t {
                    Token::EndArray => {
                        self.phase = SignersPhase::SsDone;
                        StepOutcome::Done
                    }
                    _ => {
                        if !prompter.show(
                            "Requiring".as_bytes_vec(),
                            "Capabilities".as_bytes_vec(),
                        ) {
                            return StepOutcome::Fatal;
                        }
                        self.elem = SignerParser::new();
                        self.phase = SignersPhase::SsElem;
                        self.elem_feed(t, prompter)
                    }
                }
            }
            SignersPhase::SsElem => self.elem_feed(t, prompter),
            SignersPhase::SsSep => {
                match t {
                    Token::ValueSeparator => {
                        if !prompter.show(
                            "Requiring".as_bytes_vec(),
                            "Capabilities".as_bytes_vec(),
                        ) {
                            return StepOutcome::Fatal;
                        }
                        self.elem = SignerParser::new();
                        self.phase = SignersPhase::SsElem;
                        StepOutcome::NeedMoreInput
                    }
                    Token::EndArray => {
                        self.phase = SignersPhase::SsDone;
                        StepOutcome::Done
                    }
                    _ => StepOutcome::Fatal,
                }
            }
            SignersPhase::SsDone => StepOutcome::Fatal,
        }
    }

    /// Feeds one token to the current signer; when it completes, its
    /// verdict is merged into the accumulator.
    fn elem_feed(&mut self, t: &Token, prompter: &mut Prompter) -> (r: StepOutcome)
        requires
            signers_inv(*old(self)),
            old(self).phase == SignersPhase::SsElem,
        ensures
            r != StepOutcome::Fatal ==> signers_inv(*final(self)),
            r != StepOutcome::Done,
            r == StepOutcome::NeedMoreInput ==> final(self).phase != SignersPhase::SsDone,
            old(prompter).log().is_prefix_of(final(prompter).log()),
            (r == StepOutcome::Fatal) == (!signer_accepts(old(self).elem, t@)
                || signer_rejects_text(old(self).elem, t@) || (signer_owes_prompt(
                old(self).elem,
                t@,
            ) && old(prompter).accepts_left == 0)),
    {
        let mut verdict: Option<CapabilityCoverage> = None;
        let r = self.elem.step(t, prompter, &mut verdict);
        match r {
            StepOutcome::Fatal => StepOutcome::Fatal,
            StepOutcome::NeedMoreInput => StepOutcome::NeedMoreInput,
            StepOutcome::Done => {
                match verdict {
                    Some(v) => {
                        let ghost verdicts0 = self.verdicts@;
                        self.acc.add_and_set(&v);
                        self.verdicts = Ghost(self.verdicts@.push(v));
                        proof {
                            assert(self.verdicts@.drop_last() =~= verdicts0);
                        }
                        self.phase = SignersPhase::SsSep;
                        StepOutcome::NeedMoreInput
                    }
                    None => StepOutcome::Fatal,
                }
            }
        }
    }
}

} // verus!
