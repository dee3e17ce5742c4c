//! The sign-transaction flow: from raw byte chunks to a signature
//! request.
//!
//! The wire layout is a little-endian four-byte length, that many bytes
//! of JSON (the transaction command), and a derivation path (one count
//! byte, then that many little-endian four-byte indices).  The JSON
//! region's bytes feed the running digest and the tokenizer in lockstep;
//! the tokens drive the command interpreter, which prompts as it goes.
//! Once the message is fully consumed, the flow turns to events answered
//! by the device: the derived address is shown, the holder confirms, and
//! the signature produced outside is packaged as the reply.
//!
//! One byte is consumed per step, so what the digest sees is a function
//! of the concatenated input alone: chunk boundaries cannot change it.

use vstd::prelude::*;
use vstd::string::StrSliceExecFns;
use vstd::string::StringSliceAdditionalSpecFns;
use crate::base::{InteractionV, Prompter, StepOutcome};
use crate::cmd::{cmd_inv, CmdInterp, CmdPhase};
use crate::digest::Hasher;
use crate::token::{tok_flush, tok_step, Token, TokState};

verus! {

/// Most entries a derivation path may have.
pub const MAX_PATH: usize = 10;

/// The little-endian number held by the first four bytes.
pub open spec fn le32_at(h: Seq<u8>) -> int {
    h[0] + 256 * h[1] + 65536 * h[2] + 16777216 * h[3]
}

/// The bytes of the length-delimited JSON region inside the input
/// transcript `h`: everything after the four length bytes, up to the
/// announced length.  This is exactly what the digest is fed.
pub open spec fn region_of(h: Seq<u8>) -> Seq<u8> {
    if h.len() <= 4 {
        Seq::empty()
    } else {
        let l = if le32_at(h) <= h.len() - 4 {
            le32_at(h)
        } else {
            h.len() - 4
        };
        h.subrange(4, 4 + l)
    }
}

/// Whether the transcript `h` holds one whole sign message: the four
/// length bytes, the announced JSON region, the path count byte, and the
/// path's index bytes.
pub open spec fn sign_msg_complete(h: Seq<u8>) -> bool {
    &&& h.len() > 4
    &&& le32_at(h) >= 1
    &&& h.len() >= 5 + le32_at(h)
    &&& h[4 + le32_at(h)] <= 10
    &&& h.len() == 5 + le32_at(h) + 4 * h[4 + le32_at(h)]
}

/// Phase of the sign flow.
#[derive(Clone, Copy, Debug, PartialEq, Eq, Structural)]
pub enum SignPhase {
    /// Reading the four length bytes.
    Length,
    /// Reading the JSON region.
    Body,
    /// Reading the path's count byte.
    PathCount,
    /// Reading the path's index bytes.
    PathElems,
    /// Message consumed; the device must derive the key for the path.
    AwaitKey,
    /// Address confirmed; the device must sign the digest.
    AwaitSig,
    /// The reply is ready.
    SigDone,
    /// A fatal error or rejection abandoned the command.
    Failed,
}

/// Resumable state of the sign flow.
pub struct SignState {
    pub phase: SignPhase,
    pub history: Ghost<Seq<u8>>,
    pub len_buf: Vec<u8>,
    pub json_len: u32,
    pub fed: u32,
    pub hasher: Hasher,
    pub tok: TokState,
    pub cmd: CmdInterp,
    pub path_count: u8,
    pub path_elem_buf: Vec<u8>,
    pub path: Vec<u32>,
    pub digest_out: Vec<u8>,
    pub output: Vec<u8>,
}

/// Phases that still consume message bytes.
pub open spec fn sign_feeding(p: SignPhase) -> bool {
    p is Length || p is Body || p is PathCount || p is PathElems
}

/// Invariant of the sign flow.  Its heart is the digest clause: in every
/// phase, the digest transcript is exactly the length-delimited JSON
/// region of the input transcript, a function of the concatenated bytes
/// alone.
pub open spec fn sign_inv(s: SignState) -> bool {
    &&& s.hasher.bytes@ == region_of(s.history@)
    &&& match s.phase {
        SignPhase::Length => s.len_buf@ == s.history@ && s.len_buf@.len() < 4 && cmd_inv(s.cmd),
        SignPhase::Body => {
            &&& s.history@.len() == 4 + s.fed
            &&& s.fed < s.json_len
            &&& s.json_len >= 1
            &&& s.json_len == le32_at(s.history@)
            &&& cmd_inv(s.cmd)
        },
        SignPhase::PathCount | SignPhase::PathElems | SignPhase::AwaitKey | SignPhase::AwaitSig
            | SignPhase::SigDone => {
            &&& s.json_len >= 1
            &&& s.json_len == le32_at(s.history@)
            &&& s.digest_out@ == s.hasher.bytes@
            &&& cmd_inv(s.cmd)
            &&& s.cmd.phase == CmdPhase::CmDone
            &&& (s.phase is PathCount ==> s.path@.len() == 0 && s.history@.len() == 4
                + s.json_len)
            &&& (s.phase is PathElems ==> s.path_elem_buf@.len() < 4 && s.path@.len()
                < s.path_count && s.path_count <= MAX_PATH && s.history@.len() == 5 + s.json_len
                + 4 * s.path@.len() + s.path_elem_buf@.len() && s.history@[4 + s.json_len]
                == s.path_count)
            &&& ((s.phase is AwaitKey || s.phase is AwaitSig || s.phase is SigDone)
                ==> s.history@.len() == 5 + s.json_len + 4 * s.path@.len() && s.path@.len() <= 10
                && s.history@[4 + s.json_len] == s.path@.len())
        },
        SignPhase::Failed => true,
    }
}

impl SignState {
    /// A fresh sign flow, before any byte.
    pub fn new() -> (r: SignState)
        ensures
            sign_inv(r),
            r.phase == SignPhase::Length,
            r.history@ == Seq::<u8>::empty(),
    {
        SignState {
            phase: SignPhase::Length,
            history: Ghost(Seq::empty()),
            len_buf: Vec::new(),
            json_len: 0,
            fed: 0,
            hasher: Hasher::new(),
            tok: TokState::Ready,
            cmd: CmdInterp::new(),
            path_count: 0,
            path_elem_buf: Vec::new(),
            path: Vec::new(),
            digest_out: Vec::new(),
            output: Vec::new(),
        }
    }

    /// Feeds one chunk of the message.  The transcript grows by exactly
    /// the chunk; the digest stays the JSON region of the transcript.
    /// `Done` means the whole message has been consumed and the flow now
    /// waits for the device's key; a fatal error abandons the command
    /// for good.
    pub fn advance(&mut self, chunk: &[u8], prompter: &mut Prompter) -> (r: StepOutcome)
        requires
            sign_inv(*old(self)),
            sign_feeding(old(self).phase),
        ensures
            r != StepOutcome::Fatal ==> sign_inv(*final(self)),
            r != StepOutcome::Fatal ==> final(self).history@ == old(self).history@ + chunk@,
            r == StepOutcome::Done ==> final(self).phase == SignPhase::AwaitKey,
            r == StepOutcome::NeedMoreInput ==> sign_feeding(final(self).phase),
            r == StepOutcome::Fatal ==> final(self).phase == SignPhase::Failed,
            old(prompter).log().is_prefix_of(final(prompter).log()),
            chunk@.len() == 0 ==> r == StepOutcome::NeedMoreInput && *final(self) == *old(self)
                && *final(prompter) == *old(prompter),
            r == StepOutcome::Done ==> sign_msg_complete(final(self).history@),
            r == StepOutcome::NeedMoreInput ==> !sign_msg_complete(final(self).history@),
            (old(self).phase is Length || old(self).phase is Body) && r != StepOutcome::Fatal
                && !(final(self).phase is Length) && !(final(self).phase is Body)
                ==> final(prompter).log().len() >= 1 && final(prompter).log().last()
                == crate::base::scroller(
                "Transaction hash".spec_bytes(),
                crate::base::hex_of(final(self).digest_out@),
            ),
            old(self).phase is Length && old(self).history@.len() + chunk@.len() <= 4 ==> ((r
                == StepOutcome::Fatal) == (old(self).history@.len() + chunk@.len() == 4
                && le32_at(old(self).history@ + chunk@) == 0)),
            old(self).phase is PathCount ==> ((r == StepOutcome::Fatal) == {
                let h = old(self).history@ + chunk@;
                h.len() > old(self).history@.len() && (h[old(self).history@.len() as int] > 10
                    || h.len() > 5 + old(self).json_len + 4 * h[old(self).history@.len() as int])
            }),
            old(self).phase is PathElems ==> ((r == StepOutcome::Fatal) == ((old(self).history@
                + chunk@).len() > 5 + old(self).json_len + 4 * old(self).path_count)),
    {
        if chunk.len() == 0 {
            proof {
                assert(self.history@ + chunk@ =~= self.history@);
            }
            return StepOutcome::NeedMoreInput;
        }
        let ghost h0 = self.history@;
        let mut i: usize = 0;
        #[verifier::loop_isolation(false)]
        while i < chunk.len()
            invariant
                i <= chunk.len(),
                sign_inv(*self),
                sign_feeding(self.phase),
                self.history@ == h0 + chunk@.take(i as int),
                self.history@.len() <= (h0 + chunk@).len(),
                forall|j: int|
                    0 <= j < self.history@.len() ==> self.history@[j] == (h0 + chunk@)[j],
                old(self).phase is Length && old(self).history@.len() + chunk@.len() <= 4
                    ==> self.phase is Length || (self.phase is Body && self.history@.len() == 4),
                old(self).phase is PathCount || old(self).phase is PathElems ==> (self.phase
                    is PathCount || self.phase is PathElems) && self.json_len == old(
                    self,
                ).json_len,
                old(self).phase is PathElems ==> self.path_count == old(self).path_count,
                old(prompter).log().is_prefix_of(prompter.log()),
                (old(self).phase is Length || old(self).phase is Body) && (self.phase
                    is PathCount || self.phase is PathElems) ==> prompter.log().len() >= 1
                    && prompter.log().last() == crate::base::scroller(
                    "Transaction hash".spec_bytes(),
                    crate::base::hex_of(self.digest_out@),
                ),
            decreases chunk.len() - i,
        {
            let b = chunk[i];
            if !self.feed_byte(b, prompter) {
                self.phase = SignPhase::Failed;
                return StepOutcome::Fatal;
            }
            i = i + 1;
            proof {
                assert((h0 + chunk@.take(i - 1)).push(chunk@[i - 1]) =~= h0 + chunk@.take(
                    i as int,
                ));
            }
            if matches!(self.phase, SignPhase::AwaitKey) {
                if i < chunk.len() {
                    self.phase = SignPhase::Failed;
                    return StepOutcome::Fatal;
                }
                proof {
                    assert(chunk@.take(i as int) =~= chunk@);
                }
                return StepOutcome::Done;
            }
        }
        proof {
            assert(h0 + chunk@.take(chunk@.len() as int) =~= h0 + chunk@);
        }
        StepOutcome::NeedMoreInput
    }

    /// Consumes one byte in a feeding phase.  Returns `false` on a fatal
    /// error; the caller then abandons the flow.
    fn feed_byte(&mut self, b: u8, prompter: &mut Prompter) -> (ok: bool)
        requires
            sign_inv(*old(self)),
            sign_feeding(old(self).phase),
        ensures
            ok ==> sign_inv(*final(self)) && final(self).history@ == old(self).history@.push(b)
                && (sign_feeding(final(self).phase) || final(self).phase == SignPhase::AwaitKey),
            final(self).history@ == old(self).history@.push(b),
            !ok && old(self).phase is Length ==> old(self).len_buf@.len() == 3 && le32_at(
                final(self).history@,
            ) == 0,
            ok && old(self).phase is Length && final(self).phase is Length ==> old(
                self,
            ).len_buf@.len() < 3,
            ok && old(self).phase is Length && final(self).phase is Body ==> le32_at(
                final(self).history@,
            ) != 0 && old(self).len_buf@.len() == 3,
            !ok && old(self).phase is PathCount ==> b > 10,
            !(old(self).phase is PathElems) || ok,
            old(prompter).log().is_prefix_of(final(prompter).log()),
            ok && (old(self).phase is PathCount || old(self).phase is PathElems)
                ==> final(prompter).log() == old(prompter).log() && final(self).digest_out@
                == old(self).digest_out@
                && !(final(self).phase is Body) && !(final(self).phase is Length),
            ok && old(self).phase is Length ==> final(self).phase is Length
                || final(self).phase is Body,
            ok && old(self).phase is Body && !(final(self).phase is Body)
                ==> final(prompter).log().len() >= 1 && final(prompter).log().last()
                == crate::base::scroller(
                "Transaction hash".spec_bytes(),
                crate::base::hex_of(final(self).digest_out@),
            ),
    {
        self.history = Ghost(self.history@.push(b));
        match self.phase {
            SignPhase::Length => {
                self.len_buf.push(b);
                if self.len_buf.len() == 4 {
                    let l: u32 = (self.len_buf[0] as u32) + 256 * (self.len_buf[1] as u32)
                        + 65536 * (self.len_buf[2] as u32) + 16777216 * (self.len_buf[3] as u32);
                    self.json_len = l;
                    self.fed = 0;
                    proof {
                        assert(region_of(self.history@) =~= Seq::<u8>::empty());
                    }
                    if l == 0 {
                        // An empty region can never hold the command.
                        false
                    } else {
                        self.phase = SignPhase::Body;
                        true
                    }
                } else {
                    true
                }
            }
            SignPhase::Body => {
                self.hasher.update(b);
                self.fed = self.fed + 1;
                proof {
                    let h = self.history@;
                    assert(h.subrange(0, 4) =~= old(self).history@.subrange(0, 4));
                    assert(le32_at(h) == self.json_len);
                    assert(h.subrange(4, h.len() as int) =~= old(self).history@.subrange(
                        4,
                        old(self).history@.len() as int,
                    ).push(b));
                    assert(region_of(h) =~= self.hasher.bytes@);
                }
                let mut toks: Vec<Token> = Vec::new();
                if !tok_step(&mut self.tok, b, &mut toks) {
                    return false;
                }
                if !feed_tokens(&mut self.cmd, &toks, prompter) {
                    return false;
                }
                if self.fed == self.json_len {
                    self.end_body(prompter)
                } else {
                    true
                }
            }
            SignPhase::PathCount => {
                proof {
                    assert(self.history@.drop_last() =~= old(self).history@);
                    self.lemma_region_push(b);
                }
                if b as usize > MAX_PATH {
                    false
                } else if b == 0 {
                    self.phase = SignPhase::AwaitKey;
                    true
                } else {
                    self.path_count = b;
                    self.path = Vec::new();
                    self.path_elem_buf = Vec::new();
                    self.phase = SignPhase::PathElems;
                    true
                }
            }
            SignPhase::PathElems => {
                proof {
                    assert(self.history@.drop_last() =~= old(self).history@);
                    self.lemma_region_push(b);
                }
                self.path_elem_buf.push(b);
                if self.path_elem_buf.len() == 4 {
                    let v: u32 = (self.path_elem_buf[0] as u32) + 256 * (self.path_elem_buf[1]
                        as u32) + 65536 * (self.path_elem_buf[2] as u32) + 16777216
                        * (self.path_elem_buf[3] as u32);
                    self.path.push(v);
                    self.path_elem_buf = Vec::new();
                    if self.path.len() == self.path_count as usize {
                        self.phase = SignPhase::AwaitKey;
                    }
                }
                true
            }
            _ => false,
        }
    }

    /// After the announced region length is fully consumed: flush the
    /// tokenizer, require the command to have closed, show the finalized
    /// digest, and turn to the path.
    fn end_body(&mut self, prompter: &mut Prompter) -> (ok: bool)
        requires
            old(self).phase == SignPhase::Body,
            old(self).history@.len() == 4 + old(self).fed,
            old(self).fed == old(self).json_len,
            old(self).json_len >= 1,
            old(self).json_len == le32_at(old(self).history@),
            old(self).hasher.bytes@ == region_of(old(self).history@),
            cmd_inv(old(self).cmd),
        ensures
            ok ==> sign_inv(*final(self)) && final(self).phase == SignPhase::PathCount,
            final(self).history@ == old(self).history@,
            old(prompter).log().is_prefix_of(final(prompter).log()),
            ok ==> final(prompter).log().len() >= 1 && final(prompter).log().last()
                == crate::base::scroller(
                "Transaction hash".spec_bytes(),
                crate::base::hex_of(final(self).digest_out@),
            ),
    {
        let mut toks: Vec<Token> = Vec::new();
        if !tok_flush(&mut self.tok, &mut toks) {
            return false;
        }
        if !feed_tokens(&mut self.cmd, &toks, prompter) {
            return false;
        }
        if !matches!(self.cmd.phase, CmdPhase::CmDone) {
            return false;
        }
        let digest = self.hasher.finalize();
        if !prompter.show("Transaction hash".as_bytes_vec(), crate::base::to_hex(&digest)) {
            return false;
        }
        self.digest_out = self.hasher.finalize();
        self.path = Vec::new();
        self.phase = SignPhase::PathCount;
        true
    }

    /// Appending a byte beyond the region leaves the region unchanged.
    proof fn lemma_region_push(&self, b: u8)
        requires
            self.history@.len() >= 1,
            self.history@.last() == b,
            self.history@.len() - 1 >= 4 + self.json_len,
            self.json_len == le32_at(self.history@.drop_last()),
        ensures
            region_of(self.history@) == region_of(self.history@.drop_last()),
            le32_at(self.history@) == self.json_len,
    {
        let h = self.history@;
        let g = h.drop_last();
        assert(h.subrange(0, 4) =~= g.subrange(0, 4));
        assert(le32_at(h) == le32_at(g));
        assert(region_of(h) =~= region_of(g));
    }

    /// Answers the key request: the device derived the address text for
    /// the path; the holder sees it and then confirms the signing.
    pub fn provide_address(&mut self, pkh: Vec<u8>, prompter: &mut Prompter) -> (r: StepOutcome)
        requires
            sign_inv(*old(self)),
            old(self).phase == SignPhase::AwaitKey,
        ensures
            r != StepOutcome::Fatal ==> {
                &&& sign_inv(*final(self))
                &&& final(self).phase == SignPhase::AwaitSig
                &&& final(self).history@ == old(self).history@
                &&& final(self).digest_out@ == old(self).digest_out@
                &&& final(prompter).log() == old(prompter).log().push(
                    crate::base::scroller("Sign for Address".spec_bytes(), pkh@),
                ).push(
                    InteractionV::Confirmation {
                        lines: seq!["Sign Transaction?".spec_bytes()],
                    },
                )
            },
            r == StepOutcome::Fatal ==> final(self).phase == SignPhase::Failed,
            r != StepOutcome::NeedMoreInput,
            (r == StepOutcome::Fatal) == (old(prompter).accepts_left < 2),
    {
        if !prompter.show("Sign for Address".as_bytes_vec(), pkh) {
            self.phase = SignPhase::Failed;
            return StepOutcome::Fatal;
        }
        let mut lines: Vec<Vec<u8>> = Vec::new();
        lines.push("Sign Transaction?".as_bytes_vec());
        let ghost lv = lines.deep_view();
        proof {
            assert(lv.len() == 1);
            assert(lv[0] == "Sign Transaction?".spec_bytes());
            assert(lv =~~= seq!["Sign Transaction?".spec_bytes()]);
        }
        if !prompter.confirm(lines) {
            self.phase = SignPhase::Failed;
            return StepOutcome::Fatal;
        }
        self.phase = SignPhase::AwaitSig;
        StepOutcome::Done
    }

    /// Answers the signature request: the device signed the finalized
    /// digest with the key for the path; the signature becomes the
    /// reply, as-is.
    pub fn provide_signature(&mut self, sig: &Vec<u8>) -> (r: StepOutcome)
        requires
            sign_inv(*old(self)),
            old(self).phase == SignPhase::AwaitSig,
            sig@.len() == 64,
        ensures
            r == StepOutcome::Done,
            sign_inv(*final(self)),
            final(self).phase == SignPhase::SigDone,
            final(self).output@ == sig@,
            final(self).history@ == old(self).history@,
            final(self).digest_out@ == old(self).digest_out@,
    {
        self.output = sig.clone();
        self.phase = SignPhase::SigDone;
        StepOutcome::Done
    }
}

/// Feeds a run of tokens to the command interpreter; fails if the
/// command is already closed or rejects one.
fn feed_tokens(cmd: &mut CmdInterp, toks: &Vec<Token>, prompter: &mut Prompter) -> (ok: bool)
    requires
        cmd_inv(*old(cmd)),
    ensures
        ok ==> cmd_inv(*final(cmd)),
        old(prompter).log().is_prefix_of(final(prompter).log()),
{
    let mut k: usize = 0;
    while k < toks.len()
        invariant
            cmd_inv(*cmd),
            old(prompter).log().is_prefix_of(prompter.log()),
        decreases toks.len() - k,
    {
        if matches!(cmd.phase, CmdPhase::CmDone) {
            return false;
        }
        let r = cmd.step(&toks[k], prompter);
        if matches!(r, StepOutcome::Fatal) {
            return false;
        }
        k = k + 1;
    }
    true
}

/// Once the command object has closed, the flow's transaction-wide
/// verdict is exactly the dominance-rule fold of the per-signer verdicts
/// recorded in stream order.
pub proof fn lemma_sign_verdict_is_fold(s: SignState)
    requires
        sign_inv(s),
        s.phase is PathCount || s.phase is PathElems || s.phase is AwaitKey || s.phase is AwaitSig
            || s.phase is SigDone,
    ensures
        s.cmd.signers.acc == crate::coverage::fold_coverage(s.cmd.signers.verdicts@),
{
}

/// The digest is a function of the concatenated input transcript alone:
/// two sign flows whose transcripts are equal — however differently they
/// were chunked — hold byte-identical digests, so hashing the chunks
/// incrementally equals hashing the whole message at once.
pub proof fn lemma_digest_chunk_independence(s1: SignState, s2: SignState)
    requires
        sign_inv(s1),
        sign_inv(s2),
        s1.history@ == s2.history@,
    ensures
        s1.hasher.bytes@ == s2.hasher.bytes@,
{
}

} // verus!
