//! The sign-hash flow: blind signing of a raw 32-byte hash.
//!
//! The wire layout is the 32 hash bytes followed by a derivation path.
//! No transaction content can be reviewed, so a strong warning is shown
//! before anything is consumed; then the hash itself, then the derived
//! address, and only after the final confirmation is the signature
//! produced outside packaged as the reply.

use vstd::prelude::*;
use vstd::string::StrSliceExecFns;
use vstd::string::StringSliceAdditionalSpecFns;
use crate::base::{InteractionV, Prompter, StepOutcome};
use crate::flow::MAX_PATH;

verus! {

/// Whether the transcript `h` holds one whole sign-hash message: the 32
/// hash bytes, the path count byte, and the path's index bytes.
pub open spec fn sign_hash_msg_complete(h: Seq<u8>) -> bool {
    &&& h.len() >= 33
    &&& h[32] <= 10
    &&& h.len() == 33 + 4 * h[32]
}

/// Whether feeding `h` (the old transcript plus the whole chunk) from
/// the given state and accept budget drives the flow into a fatal
/// error: a rejected warning or hash screen, an over-long path count, or
/// bytes past the end of the message.
pub open spec fn sign_hash_rejects(s: SignHashState, accepts: int, h: Seq<u8>) -> bool {
    ||| (s.phase is Warn && accepts <= 0)
    ||| (s.history@.len() < 32 && h.len() >= 32 && accepts <= (if s.phase is Warn {
        1int
    } else {
        0int
    }))
    ||| (h.len() >= 33 && h[32] > 10)
    ||| (h.len() >= 33 && h[32] <= 10 && h.len() > 33 + 4 * h[32])
}

/// Phase of the sign-hash flow.
#[derive(Clone, Copy, Debug, PartialEq, Eq, Structural)]
pub enum SignHashPhase {
    /// Nothing consumed; the blind-signing warning is still owed.
    Warn,
    /// Reading the 32 hash bytes.
    HashBytes,
    /// Reading the path's count byte.
    PathCount,
    /// Reading the path's index bytes.
    PathElems,
    /// Message consumed; the device must derive the key for the path.
    AwaitKey,
    /// Address confirmed; the device must sign the hash.
    AwaitSig,
    /// The reply is ready.
    SigDone,
    /// A fatal error or rejection abandoned the command.
    Failed,
}

/// Resumable state of the sign-hash flow.
pub struct SignHashState {
    pub phase: SignHashPhase,
    pub history: Ghost<Seq<u8>>,
    pub hash: Vec<u8>,
    pub path_count: u8,
    pub path_elem_buf: Vec<u8>,
    pub path: Vec<u32>,
    pub output: Vec<u8>,
}

/// Phases that still consume message bytes.
pub open spec fn sign_hash_feeding(p: SignHashPhase) -> bool {
    p is Warn || p is HashBytes || p is PathCount || p is PathElems
}

/// Invariant of the sign-hash flow: the hash is always exactly the first
/// 32 bytes of the input transcript, however it was chunked.
pub open spec fn sign_hash_inv(s: SignHashState) -> bool {
    match s.phase {
        SignHashPhase::Warn => s.history@.len() == 0 && s.hash@.len() == 0,
        SignHashPhase::HashBytes => s.hash@ == s.history@ && s.hash@.len() < 32,
        SignHashPhase::PathCount | SignHashPhase::PathElems | SignHashPhase::AwaitKey
            | SignHashPhase::AwaitSig | SignHashPhase::SigDone => {
            &&& s.history@.len() >= 32
            &&& s.hash@ == s.history@.take(32)
            &&& (s.phase is PathCount ==> s.path@.len() == 0 && s.history@.len() == 32)
            &&& (s.phase is PathElems ==> s.path_elem_buf@.len() < 4 && s.path@.len()
                < s.path_count && s.path_count <= MAX_PATH && s.history@.len() == 33 + 4
                * s.path@.len() + s.path_elem_buf@.len() && s.history@[32] == s.path_count)
            &&& ((s.phase is AwaitKey || s.phase is AwaitSig || s.phase is SigDone)
                ==> s.history@.len() == 33 + 4 * s.path@.len() && s.path@.len() <= 10
                && s.history@[32] == s.path@.len())
        },
        SignHashPhase::Failed => true,
    }
}

impl SignHashState {
    /// A fresh sign-hash flow, before any byte.
    pub fn new() -> (r: SignHashState)
        ensures
            sign_hash_inv(r),
            r.phase == SignHashPhase::Warn,
            r.history@ == Seq::<u8>::empty(),
    {
        SignHashState {
            phase: SignHashPhase::Warn,
            history: Ghost(Seq::empty()),
            hash: Vec::new(),
            path_count: 0,
            path_elem_buf: Vec::new(),
            path: Vec::new(),
            output: Vec::new(),
        }
    }

    /// Feeds one chunk.  The first call owes the blind-signing warning
    /// before anything is consumed; after the 32 hash bytes the hash is
    /// shown.  `Done` means the whole message has been consumed.
    pub fn advance(&mut self, chunk: &[u8], prompter: &mut Prompter) -> (r: StepOutcome)
        requires
            sign_hash_inv(*old(self)),
            sign_hash_feeding(old(self).phase),
        ensures
            r != StepOutcome::Fatal ==> sign_hash_inv(*final(self)),
            r != StepOutcome::Fatal ==> final(self).history@ == old(self).history@ + chunk@,
            r == StepOutcome::Done ==> final(self).phase == SignHashPhase::AwaitKey,
            r == StepOutcome::NeedMoreInput ==> sign_hash_feeding(final(self).phase),
            r == StepOutcome::Fatal ==> final(self).phase == SignHashPhase::Failed,
            old(prompter).log().is_prefix_of(final(prompter).log()),
            chunk@.len() == 0 && !(old(self).phase is Warn) ==> r == StepOutcome::NeedMoreInput
                && *final(self) == *old(self) && *final(prompter) == *old(prompter),
            r == StepOutcome::Done ==> sign_hash_msg_complete(final(self).history@),
            r == StepOutcome::NeedMoreInput ==> !sign_hash_msg_complete(final(self).history@),
            old(self).phase is Warn && r != StepOutcome::Fatal ==> final(prompter).log().len()
                > old(prompter).log().len() && final(prompter).log()[old(
                prompter,
            ).log().len() as int] == crate::base::scroller(
                "WARNING".spec_bytes(),
                "Blind Signing a Transaction Hash is a very unusual operation. Do not continue unless you know what you are doing".spec_bytes(),
            ),
            (old(self).phase is Warn || old(self).phase is HashBytes) && r != StepOutcome::Fatal
                && !(final(self).phase is Warn) && !(final(self).phase is HashBytes)
                ==> final(prompter).log().len() >= 1 && final(prompter).log().last()
                == crate::base::scroller(
                "Transaction hash".spec_bytes(),
                crate::base::hex_of(final(self).hash@),
            ),
            (r == StepOutcome::Fatal) == sign_hash_rejects(
                *old(self),
                old(prompter).accepts_left as int,
                old(self).history@ + chunk@,
            ),
    {
        let ghost hall = self.history@ + chunk@;
        let ghost w: int = if self.phase is Warn {
            1int
        } else {
            0int
        };
        if matches!(self.phase, SignHashPhase::Warn) {
            if !prompter.show(
                "WARNING".as_bytes_vec(),
                "Blind Signing a Transaction Hash is a very unusual operation. Do not continue unless you know what you are doing".as_bytes_vec(),
            ) {
                self.phase = SignHashPhase::Failed;
                return StepOutcome::Fatal;
            }
            self.phase = SignHashPhase::HashBytes;
            proof {
                assert(self.hash@ =~= self.history@);
            }
        }
        if chunk.len() == 0 {
            proof {
                assert(self.history@ + chunk@ =~= self.history@);
            }
            return StepOutcome::NeedMoreInput;
        }
        let ghost h0 = self.history@;
        let mut i: usize = 0;
        #[verifier::loop_isolation(false)]
        while i < chunk.len()
            invariant
                i <= chunk.len(),
                sign_hash_inv(*self),
                sign_hash_feeding(self.phase),
                !(self.phase is Warn),
                self.history@ == h0 + chunk@.take(i as int),
                hall == old(self).history@ + chunk@,
                w == (if old(self).phase is Warn {
                    1int
                } else {
                    0int
                }),
                old(self).phase is Warn ==> old(prompter).accepts_left >= 1,
                self.history@.len() <= hall.len(),
                forall|j: int| 0 <= j < self.history@.len() ==> self.history@[j] == hall[j],
                prompter.accepts_left as int == old(prompter).accepts_left - w - (if old(
                    self,
                ).history@.len() < 32 && self.history@.len() >= 32 {
                    1int
                } else {
                    0int
                }),
                old(self).history@.len() < 32 && self.history@.len() >= 32 ==> old(
                    prompter,
                ).accepts_left as int > w,
                old(prompter).log().is_prefix_of(prompter.log()),
                old(self).phase is Warn ==> prompter.log().len() > old(prompter).log().len()
                    && prompter.log()[old(prompter).log().len() as int] == crate::base::scroller(
                    "WARNING".spec_bytes(),
                    "Blind Signing a Transaction Hash is a very unusual operation. Do not continue unless you know what you are doing".spec_bytes(),
                ),
                (old(self).phase is Warn || old(self).phase is HashBytes) && (self.phase
                    is PathCount || self.phase is PathElems) ==> prompter.log().len() >= 1
                    && prompter.log().last() == crate::base::scroller(
                    "Transaction hash".spec_bytes(),
                    crate::base::hex_of(self.hash@),
                ),
            decreases chunk.len() - i,
        {
            let b = chunk[i];
            if !self.feed_byte(b, prompter) {
                self.phase = SignHashPhase::Failed;
                return StepOutcome::Fatal;
            }
            i = i + 1;
            proof {
                assert((h0 + chunk@.take(i - 1)).push(chunk@[i - 1]) =~= h0 + chunk@.take(
                    i as int,
                ));
            }
            if matches!(self.phase, SignHashPhase::AwaitKey) {
                if i < chunk.len() {
                    self.phase = SignHashPhase::Failed;
                    return StepOutcome::Fatal;
                }
                proof {
                    assert(chunk@.take(i as int) =~= chunk@);
                }
                return StepOutcome::Done;
            }
        }
        proof {
            assert(h0 + chunk@.take(chunk@.len() as int) =~= h0 + chunk@);
        }
        StepOutcome::NeedMoreInput
    }

    /// Consumes one byte in a feeding phase.
    fn feed_byte(&mut self, b: u8, prompter: &mut Prompter) -> (ok: bool)
        requires
            sign_hash_inv(*old(self)),
            sign_hash_feeding(old(self).phase),
            !(old(self).phase is Warn),
        ensures
            ok ==> sign_hash_inv(*final(self)) && final(self).history@
                == old(self).history@.push(b) && (sign_hash_feeding(final(self).phase)
                && !(final(self).phase is Warn) || final(self).phase == SignHashPhase::AwaitKey),
            old(prompter).log().is_prefix_of(final(prompter).log()),
            ok && (old(self).phase is PathCount || old(self).phase is PathElems)
                ==> *final(prompter) == *old(prompter) && final(self).hash@ == old(self).hash@
                && !(final(self).phase is HashBytes),
            ok && old(self).phase is HashBytes && !(final(self).phase is HashBytes)
                ==> final(prompter).log().len() >= 1 && final(prompter).log().last()
                == crate::base::scroller(
                "Transaction hash".spec_bytes(),
                crate::base::hex_of(final(self).hash@),
            ) && old(prompter).accepts_left >= 1 && final(prompter).accepts_left == old(
                prompter,
            ).accepts_left - 1,
            ok && old(self).phase is HashBytes && final(self).phase is HashBytes
                ==> *final(prompter) == *old(prompter),
            !ok ==> (old(self).phase is HashBytes && old(self).hash@.len() == 31 && old(
                prompter,
            ).accepts_left == 0) || (old(self).phase is PathCount && b > 10),
    {
        self.history = Ghost(self.history@.push(b));
        match self.phase {
            SignHashPhase::HashBytes => {
                self.hash.push(b);
                if self.hash.len() == 32 {
                    proof {
                        assert(self.hash@ =~= self.history@.take(32));
                    }
                    if !prompter.show(
                        "Transaction hash".as_bytes_vec(),
                        crate::base::to_hex(&self.hash),
                    ) {
                        return false;
                    }
                    self.path = Vec::new();
                    self.phase = SignHashPhase::PathCount;
                }
                true
            }
            SignHashPhase::PathCount => {
                proof {
                    assert(self.history@.take(32) =~= old(self).history@.take(32));
                }
                if b as usize > MAX_PATH {
                    false
                } else if b == 0 {
                    self.phase = SignHashPhase::AwaitKey;
                    true
                } else {
                    self.path_count = b;
                    self.path = Vec::new();
                    self.path_elem_buf = Vec::new();
                    self.phase = SignHashPhase::PathElems;
                    true
                }
            }
            SignHashPhase::PathElems => {
                proof {
                    assert(self.history@.take(32) =~= old(self).history@.take(32));
                }
                self.path_elem_buf.push(b);
                if self.path_elem_buf.len() == 4 {
                    let v: u32 = (self.path_elem_buf[0] as u32) + 256 * (self.path_elem_buf[1]
                        as u32) + 65536 * (self.path_elem_buf[2] as u32) + 16777216
                        * (self.path_elem_buf[3] as u32);
                    self.path.push(v);
                    self.path_elem_buf = Vec::new();
                    if self.path.len() == self.path_count as usize {
                        self.phase = SignHashPhase::AwaitKey;
                    }
                }
                true
            }
            _ => false,
        }
    }

    /// Answers the key request: shows the derived address and asks for
    /// the final confirmation.
    pub fn provide_address(&mut self, pkh: Vec<u8>, prompter: &mut Prompter) -> (r: StepOutcome)
        requires
            sign_hash_inv(*old(self)),
            old(self).phase == SignHashPhase::AwaitKey,
        ensures
            r != StepOutcome::Fatal ==> {
                &&& sign_hash_inv(*final(self))
                &&& final(self).phase == SignHashPhase::AwaitSig
                &&& final(self).hash@ == old(self).hash@
                &&& final(prompter).log() == old(prompter).log().push(
                    crate::base::scroller("Sign for Address".spec_bytes(), pkh@),
                ).push(
                    InteractionV::Confirmation {
                        lines: seq!["Sign Transaction Hash?".spec_bytes()],
                    },
                )
            },
            r == StepOutcome::Fatal ==> final(self).phase == SignHashPhase::Failed,
            r != StepOutcome::NeedMoreInput,
            (r == StepOutcome::Fatal) == (old(prompter).accepts_left < 2),
    {
        if !prompter.show("Sign for Address".as_bytes_vec(), pkh) {
            self.phase = SignHashPhase::Failed;
            return StepOutcome::Fatal;
        }
        let mut lines: Vec<Vec<u8>> = Vec::new();
        lines.push("Sign Transaction Hash?".as_bytes_vec());
        let ghost lv = lines.deep_view();
        proof {
            assert(lv.len() == 1);
            assert(lv[0] == "Sign Transaction Hash?".spec_bytes());
            assert(lv =~~= seq!["Sign Transaction Hash?".spec_bytes()]);
        }
        if !prompter.confirm(lines) {
            self.phase = SignHashPhase::Failed;
            return StepOutcome::Fatal;
        }
        self.phase = SignHashPhase::AwaitSig;
        StepOutcome::Done
    }

    /// Answers the signature request: the device signed the 32-byte hash
    /// with the key for the path; the signature becomes the reply.
    pub fn provide_signature(&mut self, sig: &Vec<u8>) -> (r: StepOutcome)
        requires
            sign_hash_inv(*old(self)),
            old(self).phase == SignHashPhase::AwaitSig,
            sig@.len() == 64,
        ensures
            r == StepOutcome::Done,
            sign_hash_inv(*final(self)),
            final(self).phase == SignHashPhase::SigDone,
            final(self).output@ == sig@,
            final(self).hash@ == old(self).hash@,
    {
        self.output = sig.clone();
        self.phase = SignHashPhase::SigDone;
        StepOutcome::Done
    }
}

/// The hash that is shown and signed is a function of the concatenated
/// input transcript alone: two sign-hash flows whose transcripts are
/// equal — however differently they were chunked — hold byte-identical
/// hashes.
pub proof fn lemma_hash_chunk_independence(s1: SignHashState, s2: SignHashState)
    requires
        sign_hash_inv(s1),
        sign_hash_inv(s2),
        !(s1.phase is Warn) && !(s1.phase is HashBytes) && !(s1.phase is Failed),
        !(s2.phase is Warn) && !(s2.phase is HashBytes) && !(s2.phase is Failed),
        s1.history@ == s2.history@,
    ensures
        s1.hash@ == s2.hash@,
{
}

} // verus!
