//! The get-address flow: show a derived public key and return it.
//!
//! The wire layout is just a derivation path.  The device derives the
//! key outside; the flow shows its address form, asks for confirmation,
//! and packages the key — one length byte, then the key bytes — as the
//! reply.

use vstd::prelude::*;
use vstd::string::StrSliceExecFns;
use vstd::string::StringSliceAdditionalSpecFns;
use crate::base::{InteractionV, Prompter, StepOutcome};
use crate::flow::MAX_PATH;

verus! {

/// Largest key that fits the reply buffer after its length byte.
pub const MAX_KEY_OUT: usize = 127;

/// Phase of the get-address flow.
#[derive(Clone, Copy, Debug, PartialEq, Eq, Structural)]
pub enum GetAddressPhase {
    /// Reading the path's count byte.
    PathCount,
    /// Reading the path's index bytes.
    PathElems,
    /// Message consumed; the device must derive the key for the path.
    AwaitKey,
    /// The reply is ready.
    KeyDone,
    /// A fatal error or rejection abandoned the command.
    Failed,
}

/// Resumable state of the get-address flow.
pub struct GetAddressState {
    pub phase: GetAddressPhase,
    pub history: Ghost<Seq<u8>>,
    pub path_count: u8,
    pub path_elem_buf: Vec<u8>,
    pub path: Vec<u32>,
    pub output: Vec<u8>,
}

/// Whether the transcript `h` holds one whole get-address message: the
/// path count byte and the path's index bytes.
pub open spec fn ga_msg_complete(h: Seq<u8>) -> bool {
    &&& h.len() >= 1
    &&& h[0] <= 10
    &&& h.len() == 1 + 4 * h[0]
}

/// Whether the prospective transcript `h` drives the flow into a fatal
/// error: an over-long path count, or bytes past the end of the message.
pub open spec fn ga_rejects(h: Seq<u8>) -> bool {
    h.len() >= 1 && (h[0] > 10 || h.len() > 1 + 4 * h[0])
}

/// Every decoded path entry is the little-endian number of the four
/// input bytes it came from.
pub open spec fn ga_path_pinned(s: GetAddressState) -> bool {
    forall|i: int|
        0 <= i < s.path@.len() ==> s.path@[i] as int == crate::flow::le32_at(
            #[trigger] s.history@.subrange(1 + 4 * i, 5 + 4 * i),
        )
}

/// Phases that still consume message bytes.
pub open spec fn get_address_feeding(p: GetAddressPhase) -> bool {
    p is PathCount || p is PathElems
}

/// Invariant of the get-address flow: the decoded path is pinned, entry
/// by entry, to the consumed input transcript.
pub open spec fn get_address_inv(s: GetAddressState) -> bool {
    match s.phase {
        GetAddressPhase::PathCount => s.path@.len() == 0 && s.history@.len() == 0,
        GetAddressPhase::PathElems => {
            &&& s.path_elem_buf@.len() < 4
            &&& s.path@.len() < s.path_count
            &&& s.path_count <= MAX_PATH
            &&& s.history@.len() == 1 + 4 * s.path@.len() + s.path_elem_buf@.len()
            &&& s.history@[0] == s.path_count
            &&& s.path_elem_buf@ == s.history@.skip(1 + 4 * s.path@.len() as int)
            &&& ga_path_pinned(s)
        },
        GetAddressPhase::AwaitKey | GetAddressPhase::KeyDone => {
            &&& s.history@.len() == 1 + 4 * s.path@.len()
            &&& s.history@[0] == s.path@.len()
            &&& s.path@.len() <= MAX_PATH
            &&& ga_path_pinned(s)
        },
        GetAddressPhase::Failed => true,
    }
}

impl GetAddressState {
    /// A fresh get-address flow, before any byte.
    pub fn new() -> (r: GetAddressState)
        ensures
            get_address_inv(r),
            r.phase == GetAddressPhase::PathCount,
            r.history@ == Seq::<u8>::empty(),
    {
        GetAddressState {
            phase: GetAddressPhase::PathCount,
            history: Ghost(Seq::empty()),
            path_count: 0,
            path_elem_buf: Vec::new(),
            path: Vec::new(),
            output: Vec::new(),
        }
    }

    /// Feeds one chunk of the path.  `Done` means the whole message has
    /// been consumed and the flow waits for the derived key.
    pub fn advance(&mut self, chunk: &[u8]) -> (r: StepOutcome)
        requires
            get_address_inv(*old(self)),
            get_address_feeding(old(self).phase),
        ensures
            r != StepOutcome::Fatal ==> get_address_inv(*final(self)),
            r != StepOutcome::Fatal ==> final(self).history@ == old(self).history@ + chunk@,
            chunk@.len() == 0 ==> r == StepOutcome::NeedMoreInput && *final(self) == *old(self),
            r == StepOutcome::Done ==> final(self).phase == GetAddressPhase::AwaitKey,
            r == StepOutcome::Done ==> ga_msg_complete(final(self).history@),
            r == StepOutcome::NeedMoreInput ==> !ga_msg_complete(final(self).history@),
            r == StepOutcome::NeedMoreInput ==> get_address_feeding(final(self).phase),
            r == StepOutcome::Fatal ==> final(self).phase == GetAddressPhase::Failed,
            (r == StepOutcome::Fatal) == ga_rejects(old(self).history@ + chunk@),
    {
        if chunk.len() == 0 {
            proof {
                assert(self.history@ + chunk@ =~= self.history@);
            }
            return StepOutcome::NeedMoreInput;
        }
        let ghost h0 = self.history@;
        let mut i: usize = 0;
        #[verifier::loop_isolation(false)]
        while i < chunk.len()
            invariant
                i <= chunk.len(),
                get_address_inv(*self),
                get_address_feeding(self.phase),
                self.history@ == h0 + chunk@.take(i as int),
            decreases chunk.len() - i,
        {
            let b = chunk[i];
            if !self.feed_byte(b) {
                proof {
                    assert((h0 + chunk@)[0] == chunk@[0]);
                }
                self.phase = GetAddressPhase::Failed;
                return StepOutcome::Fatal;
            }
            i = i + 1;
            proof {
                assert((h0 + chunk@.take(i - 1)).push(chunk@[i - 1]) =~= h0 + chunk@.take(
                    i as int,
                ));
            }
            if matches!(self.phase, GetAddressPhase::AwaitKey) {
                if i < chunk.len() {
                    self.phase = GetAddressPhase::Failed;
                    return StepOutcome::Fatal;
                }
                proof {
                    assert(chunk@.take(i as int) =~= chunk@);
                }
                return StepOutcome::Done;
            }
        }
        proof {
            assert(h0 + chunk@.take(chunk@.len() as int) =~= h0 + chunk@);
        }
        StepOutcome::NeedMoreInput
    }

    /// Consumes one byte of the path region.
    fn feed_byte(&mut self, b: u8) -> (ok: bool)
        requires
            get_address_inv(*old(self)),
            get_address_feeding(old(self).phase),
        ensures
            ok ==> get_address_inv(*final(self)) && final(self).history@
                == old(self).history@.push(b) && (get_address_feeding(final(self).phase)
                || final(self).phase == GetAddressPhase::AwaitKey),
            !ok ==> old(self).phase == GetAddressPhase::PathCount && b > 10,
    {
        self.history = Ghost(self.history@.push(b));
        match self.phase {
            GetAddressPhase::PathCount => {
                if b as usize > MAX_PATH {
                    false
                } else if b == 0 {
                    self.phase = GetAddressPhase::AwaitKey;
                    true
                } else {
                    self.path_count = b;
                    self.path = Vec::new();
                    self.path_elem_buf = Vec::new();
                    proof {
                        assert(self.path_elem_buf@ =~= self.history@.skip(1));
                    }
                    self.phase = GetAddressPhase::PathElems;
                    true
                }
            }
            GetAddressPhase::PathElems => {
                let ghost h = self.history@;
                let ghost g = old(self).history@;
                proof {
                    assert(h.drop_last() =~= g);
                    assert forall|i: int| 0 <= i < self.path@.len() implies #[trigger] h.subrange(
                        1 + 4 * i,
                        5 + 4 * i,
                    ) =~= g.subrange(1 + 4 * i, 5 + 4 * i) by {}
                }
                self.path_elem_buf.push(b);
                proof {
                    assert(self.path_elem_buf@ =~= h.skip(1 + 4 * self.path@.len() as int));
                }
                if self.path_elem_buf.len() == 4 {
                    let v: u32 = (self.path_elem_buf[0] as u32) + 256 * (self.path_elem_buf[1]
                        as u32) + 65536 * (self.path_elem_buf[2] as u32) + 16777216
                        * (self.path_elem_buf[3] as u32);
                    let ghost p = self.path@.len() as int;
                    proof {
                        assert(self.path_elem_buf@ =~= h.subrange(1 + 4 * p, 5 + 4 * p));
                        assert(v as int == crate::flow::le32_at(h.subrange(1 + 4 * p, 5 + 4 * p)));
                    }
                    self.path.push(v);
                    self.path_elem_buf = Vec::new();
                    proof {
                        assert(self.path_elem_buf@ =~= h.skip(1 + 4 * self.path@.len() as int));
                    }
                    if self.path.len() == self.path_count as usize {
                        self.phase = GetAddressPhase::AwaitKey;
                    }
                }
                true
            }
            _ => false,
        }
    }

    /// Answers the key request: the device derived the public key (its
    /// raw bytes, parity stripped) and its address form for the path.
    /// The holder sees the address and confirms; the reply is the key's
    /// length byte followed by the key bytes.
    pub fn provide_key(&mut self, key: &Vec<u8>, pkh: Vec<u8>, prompter: &mut Prompter) -> (r:
        StepOutcome)
        requires
            get_address_inv(*old(self)),
            old(self).phase == GetAddressPhase::AwaitKey,
        ensures
            r != StepOutcome::Fatal ==> {
                &&& get_address_inv(*final(self))
                &&& final(self).phase == GetAddressPhase::KeyDone
                &&& key@.len() <= MAX_KEY_OUT
                &&& final(self).output@ == seq![key@.len() as u8] + key@
                &&& final(prompter).log() == old(prompter).log().push(
                    crate::base::scroller("Provide Public Key".spec_bytes(), pkh@),
                ).push(InteractionV::Confirmation { lines: Seq::empty() })
            },
            r == StepOutcome::Fatal ==> final(self).phase == GetAddressPhase::Failed,
            r != StepOutcome::NeedMoreInput,
            (r == StepOutcome::Fatal) == (key@.len() > MAX_KEY_OUT || old(prompter).accepts_left
                < 2),
    {
        if key.len() > MAX_KEY_OUT {
            self.phase = GetAddressPhase::Failed;
            return StepOutcome::Fatal;
        }
        if !prompter.show("Provide Public Key".as_bytes_vec(), pkh) {
            self.phase = GetAddressPhase::Failed;
            return StepOutcome::Fatal;
        }
        let lines: Vec<Vec<u8>> = Vec::new();
        let ghost lv = lines.deep_view();
        proof {
            assert(lv =~~= Seq::<Seq<u8>>::empty());
        }
        if !prompter.confirm(lines) {
            self.phase = GetAddressPhase::Failed;
            return StepOutcome::Fatal;
        }
        let mut out: Vec<u8> = Vec::new();
        out.push(key.len() as u8);
        crate::base::extend_bytes(&mut out, key);
        proof {
            assert(out@ =~= seq![key@.len() as u8] + key@);
        }
        self.output = out;
        self.phase = GetAddressPhase::KeyDone;
        StepOutcome::Done
    }
}

} // verus!
